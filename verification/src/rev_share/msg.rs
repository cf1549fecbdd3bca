use crate::schedule::Expiration;
use crate::schedule::Scheduled;
use vstd::prelude::*;

verus! {

/// Sets the contract up: its owner, the staked token, the token it hands out and the
/// staking contract whose stakes count.
#[derive(Clone, Debug, PartialEq)]
pub struct InstantiateMsg {
    /// The owner; the sender where none is named.
    pub owner: Option<String>,
    pub cw20_token_address: String,
    pub native_token: String,
    pub cw20_staking_address: String,
}

/// The calls that change the contract.
#[derive(Clone, Debug, PartialEq)]
pub enum ExecuteMsg {
    UpdateConfig {
        /// Left as it is where none is named.
        new_owner: Option<String>,
        /// Left as it is where none is named.
        new_cw20_address: Option<String>,
        /// Left as it is where none is named.
        new_native_token: Option<String>,
        /// Left as it is where none is named.
        new_cw20_staking_address: Option<String>,
    },
    LockContract {  },
    CreateNewStage {
        total_amount: u128,
        snapshot_block: Option<u64>,
        expiration: Option<Expiration>,
        start: Option<Scheduled>,
    },
    Claim { stage: u8 },
    Pause { stage: u8 },
    /// Withdraw what is left of a stage once it has expired or is paused.
    Withdraw { stage: u8, address: String },
    /// Withdraw all or some of what the contract holds.
    WithdrawAll { address: String, amount: Option<u128> },
}

/// The questions that the contract answers.
#[derive(Clone, Debug, PartialEq)]
pub enum QueryMsg {
    Config {  },
    LatestStage {  },
    StageBlock { stage: u8 },
    IsClaimed { stage: u8, address: String },
    TotalClaimed { stage: u8 },
    IsPaused { stage: u8 },
}

/// The settings of the contract.
#[derive(Clone, Debug, PartialEq)]
pub struct ConfigResponse {
    pub owner: Option<String>,
    pub cw20_token_address: String,
    pub native_token: String,
    pub cw20_staking_address: String,
}

/// The number of the stage that was created last.
#[derive(Clone, Copy, Debug, PartialEq, Eq, Structural)]
pub struct LatestStageResponse {
    pub latest_stage: u8,
}

/// The block whose stakes count for a stage.
#[derive(Clone, Copy, Debug, PartialEq, Eq, Structural)]
pub struct StageBlockResponse {
    pub stage_block: u64,
}

/// Whether an address has claimed its share of a stage.
#[derive(Clone, Copy, Debug, PartialEq, Eq, Structural)]
pub struct IsClaimedResponse {
    pub is_claimed: bool,
}

/// What was claimed of a stage so far.
#[derive(Clone, Copy, Debug, PartialEq, Eq, Structural)]
pub struct TotalClaimedResponse {
    pub total_claimed: u128,
}

/// Whether a stage is paused.
#[derive(Clone, Copy, Debug, PartialEq, Eq, Structural)]
pub struct IsPausedResponse {
    pub is_paused: bool,
}

/// The answer to a `QueryMsg`, one variant per question.
#[derive(Clone, Debug, PartialEq)]
pub enum QueryResponse {
    Config(ConfigResponse),
    LatestStage(LatestStageResponse),
    StageBlock(StageBlockResponse),
    IsClaimed(IsClaimedResponse),
    TotalClaimed(TotalClaimedResponse),
    IsPaused(IsPausedResponse),
}

} // verus!
