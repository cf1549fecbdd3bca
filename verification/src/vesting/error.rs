use vstd::prelude::*;

verus! {

/// Why a call on the payment contract was rejected.
#[derive(Clone, Copy, Debug, PartialEq, Eq, Structural)]
pub enum ContractError {
    /// The sender is not the owner, or there is no owner yet.
    Unauthorized {  },
    /// The contract has not been set up yet.
    NotInitialized {  },
    /// No further payment can be numbered.
    Overflow {  },
}

} // verus!
