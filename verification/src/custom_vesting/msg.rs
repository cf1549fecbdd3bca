use crate::context::ContractVersion;
use crate::custom_vesting::state::TotalVestingInfo;
use crate::custom_vesting::state::VestingData;
use vstd::prelude::*;

verus! {

/// Sets the contract up: who owns it (the sender where none is named) and
/// which token it pays out.
#[derive(Clone, Debug)]
pub struct InstantiateMsg {
    pub owner_address: Option<String>,
    pub token_address: String,
}

/// The calls that change the contract. Times are in nanoseconds.
#[derive(Clone, Debug, PartialEq)]
pub enum ExecuteMsg {
    UpdateOwnerAddress { address: String },
    RegisterVestingAccount {
        address: String,
        vesting_amount: u128,
        prevesting_amount: u128,
        start_time: u64,
        end_time: u64,
    },
    DeregisterVestingAccount {
        address: String,
        vested_token_recipient: Option<String>,
        left_vesting_token_recipient: Option<String>,
    },
    Claim { recipient: Option<String> },
    Snapshot {  },
    /// A governance module reports a change to one of its proposals; what it
    /// reports is not looked at.
    ProposalHook {  },
}

/// The questions that the contract answers.
#[derive(Clone, Debug, PartialEq)]
pub enum QueryMsg {
    OwnerAddress {  },
    TokenAddress {  },
    VestingAccount { address: String, height: Option<u64> },
    VestingTotal { height: Option<u64> },
    Info {  },
}

/// Who owns the contract.
#[derive(Debug, PartialEq)]
pub struct OwnerAddressResponse {
    pub owner_address: String,
}

/// Which token the contract pays out.
#[derive(Debug, PartialEq)]
pub struct TokenAddressResponse {
    pub token_address: String,
}

/// The projection that was recorded for an address.
#[derive(Debug, PartialEq)]
pub struct VestingAccountResponse {
    pub address: String,
    pub vestings: VestingData,
}

/// The aggregate that was recorded.
#[derive(Debug, PartialEq)]
pub struct VestingTotalResponse {
    pub info: TotalVestingInfo,
}

/// The name and version that the contract recorded.
#[derive(Debug, PartialEq)]
pub struct InfoResponse {
    pub info: ContractVersion,
}

/// Asks the contract to bring its version metadata up to date.
#[derive(Clone, Copy, Debug, PartialEq, Eq, Structural)]
pub struct MigrateMsg {}

/// The answer to a `QueryMsg`, one variant per question.
#[derive(Debug, PartialEq)]
pub enum QueryResponse {
    OwnerAddress(OwnerAddressResponse),
    TokenAddress(TokenAddressResponse),
    VestingAccount(VestingAccountResponse),
    VestingTotal(VestingTotalResponse),
    Info(InfoResponse),
}

} // verus!
