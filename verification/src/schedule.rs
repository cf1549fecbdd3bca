use crate::context::BlockInfo;
use vstd::prelude::*;

verus! {

/// A point after which something is over: a block height, a time in
/// nanoseconds, or never.
#[derive(Clone, Copy, Debug, PartialEq, Eq, Structural)]
pub enum Expiration {
    AtHeight(u64),
    AtTime(u64),
    Never {  },
}

/// A point from which something is on: a block height or a time in
/// nanoseconds.
#[derive(Clone, Copy, Debug, PartialEq, Eq, Structural)]
pub enum Scheduled {
    AtHeight(u64),
    AtTime(u64),
}

impl Expiration {
    /// Whether the point is reached in `block`: its height or time is at or
    /// past the one named.
    pub open spec fn expired_in(self, block: BlockInfo) -> bool {
        match self {
            Expiration::AtHeight(height) => block.height >= height,
            Expiration::AtTime(time) => block.time >= time,
            Expiration::Never {  } => false,
        }
    }

    /// Whether the point is reached in `block`.
    pub fn is_expired(&self, block: &BlockInfo) -> (expired: bool)
        ensures
            expired == self.expired_in(*block),
    {
        match self {
            Expiration::AtHeight(height) => block.height >= *height,
            Expiration::AtTime(time) => block.time >= *time,
            Expiration::Never {  } => false,
        }
    }
}

impl Scheduled {
    /// Whether the point is reached in `block`: its height or time is at or
    /// past the one named.
    pub open spec fn triggered_in(self, block: BlockInfo) -> bool {
        match self {
            Scheduled::AtHeight(height) => block.height >= height,
            Scheduled::AtTime(time) => block.time >= time,
        }
    }

    /// Whether the point is reached in `block`.
    pub fn is_triggered(&self, block: &BlockInfo) -> (triggered: bool)
        ensures
            triggered == self.triggered_in(*block),
    {
        match self {
            Scheduled::AtHeight(height) => block.height >= *height,
            Scheduled::AtTime(time) => block.time >= *time,
        }
    }
}

} // verus!
