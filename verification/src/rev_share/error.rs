use crate::schedule::Expiration;
use crate::schedule::Scheduled;
use vstd::prelude::*;

verus! {

/// Why a call on the revenue-share contract was rejected.
#[derive(Clone, Copy, Debug, PartialEq, Eq, Structural)]
pub enum ContractError {
    /// Something that the call needs is not stored.
    NotFound {  },
    /// The chain did not answer a question that the call depends on.
    QueryFailed {  },
    /// A sum or a stage number would not fit.
    Overflow {  },
    Unauthorized {  },
    StageNotBegun { stage: u8, start: Scheduled },
    StageExpired { stage: u8, expiration: Expiration },
    StagePaused { stage: u8 },
    /// The sender has claimed its share of the stage already.
    Claimed {  },
    /// The sender had nothing staked when the stage was taken.
    NoStake {  },
    InsufficientFunds { balance: u128, amount: u128 },
    StageNotExpired { stage: u8, expiration: Expiration },
    /// The sender's address has more characters than a storage key takes.
    AddressTooLong {  },
}

} // verus!
