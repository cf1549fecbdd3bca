use vstd::prelude::*;

verus! {

/// Why a call on the voting module was rejected.
#[derive(Clone, Copy, Debug, PartialEq, Eq, Structural)]
pub enum ContractError {
    /// Something that the call needs is not stored.
    NotFound {  },
    /// The chain did not answer a question that the call depends on.
    QueryFailed {  },
    /// The initial balances do not add up in 128 bits.
    Overflow {  },
    Unauthorized {  },
    InvalidActivePercentage {  },
    InvalidAbsoluteCount {  },
    InitialBalancesError {  },
    StakingContractMismatch {  },
    VestingContractMismatch {  },
    DuplicateToken {  },
    DuplicateStakingContract {  },
    DuplicateVestingContract {  },
    TokenInstantiateError {  },
    VestingInstantiateError {  },
    UnknownReplyId { id: u64 },
}

impl ContractError {
    /// The text of the reason, for the reasons whose text is fixed.
    pub open spec fn text(self) -> Seq<char> {
        match self {
            ContractError::NotFound {  } => "not found"@,
            ContractError::QueryFailed {  } => "Querier contract error"@,
            ContractError::Overflow {  } => "Overflow: sum exceeds 128 bits"@,
            ContractError::Unauthorized {  } => "Unauthorized"@,
            ContractError::InvalidActivePercentage {  } => {
                "Active threshold percentage must be greater than 0 and less than 1"@
            },
            ContractError::InvalidAbsoluteCount {  } => {
                "Absolute count threshold cannot be greater than the total token supply"@
            },
            ContractError::InitialBalancesError {  } => {
                "Initial governance token balances must not be empty"@
            },
            ContractError::StakingContractMismatch {  } => {
                "Staking contract token address does not match provided token address"@
            },
            ContractError::VestingContractMismatch {  } => {
                "Vesting contract token address does not match provided token address"@
            },
            ContractError::DuplicateToken {  } => {
                "Can not change the contract's token after it has been set"@
            },
            ContractError::DuplicateStakingContract {  } => {
                "Can not change the contract's staking contract after it has been set"@
            },
            ContractError::DuplicateVestingContract {  } => {
                "Can not change the contract's vesting contract after it has been set"@
            },
            ContractError::TokenInstantiateError {  } => "Error instantiating token"@,
            ContractError::VestingInstantiateError {  } => {
                "Impossible to instantiate a new vesting contract"@
            },
            ContractError::UnknownReplyId { id } => "Got a submessage reply with unknown id"@,
        }
    }

    /// The reason as the contract reports it to its caller; for an unknown
    /// reply id, without the id.
    pub fn message(&self) -> (s: String)
        ensures
            s@ == self.text(),
    {
        match self {
            ContractError::NotFound {  } => String::from_str("not found"),
            ContractError::QueryFailed {  } => String::from_str("Querier contract error"),
            ContractError::Overflow {  } => String::from_str("Overflow: sum exceeds 128 bits"),
            ContractError::Unauthorized {  } => String::from_str("Unauthorized"),
            ContractError::InvalidActivePercentage {  } => String::from_str(
                "Active threshold percentage must be greater than 0 and less than 1",
            ),
            ContractError::InvalidAbsoluteCount {  } => String::from_str(
                "Absolute count threshold cannot be greater than the total token supply",
            ),
            ContractError::InitialBalancesError {  } => String::from_str(
                "Initial governance token balances must not be empty",
            ),
            ContractError::StakingContractMismatch {  } => String::from_str(
                "Staking contract token address does not match provided token address",
            ),
            ContractError::VestingContractMismatch {  } => String::from_str(
                "Vesting contract token address does not match provided token address",
            ),
            ContractError::DuplicateToken {  } => String::from_str(
                "Can not change the contract's token after it has been set",
            ),
            ContractError::DuplicateStakingContract {  } => String::from_str(
                "Can not change the contract's staking contract after it has been set",
            ),
            ContractError::DuplicateVestingContract {  } => String::from_str(
                "Can not change the contract's vesting contract after it has been set",
            ),
            ContractError::TokenInstantiateError {  } => String::from_str(
                "Error instantiating token",
            ),
            ContractError::VestingInstantiateError {  } => String::from_str(
                "Impossible to instantiate a new vesting contract",
            ),
            ContractError::UnknownReplyId { id } => String::from_str(
                "Got a submessage reply with unknown id",
            ),
        }
    }
}

} // verus!
