use vstd::prelude::*;

verus! {

/// The block in which a call is processed: its height and its time in
/// nanoseconds since the epoch.
#[derive(Clone, Copy, Debug, PartialEq, Eq, Structural)]
pub struct BlockInfo {
    pub height: u64,
    pub time: u64,
}

/// What a handler learns about the chain when it runs.
#[derive(Clone, Copy, Debug, PartialEq, Eq, Structural)]
pub struct Env {
    pub block: BlockInfo,
}

/// Who sent the message that is being handled.
#[derive(Clone, Debug, PartialEq, Eq)]
pub struct MessageInfo {
    pub sender: String,
}

/// The name and version under which a contract's code last set itself up.
#[derive(Clone, Debug, PartialEq, Eq)]
pub struct ContractVersion {
    pub contract: String,
    pub version: String,
}

/// The name and version of `version`, if there is one, as sequences of
/// characters.
pub open spec fn version_text(version: Option<ContractVersion>) -> Option<(Seq<char>, Seq<char>)> {
    match version {
        Some(version) => Some((version.contract@, version.version@)),
        None => None,
    }
}

} // verus!
