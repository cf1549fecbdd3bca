use crate::context::ContractVersion;
use crate::voting_power::threshold::ActiveThreshold;
use crate::voting_power::threshold::Decimal;
use vstd::prelude::*;

verus! {

/// A span measured in blocks or in seconds.
#[derive(Clone, Copy, Debug, PartialEq, Eq, Structural)]
pub enum Duration {
    Height(u64),
    Time(u64),
}

/// An initial balance of a token that is to be created.
#[derive(Clone, Debug, PartialEq, Eq)]
pub struct Cw20Coin {
    pub address: String,
    pub amount: u128,
}

/// What a token that is to be created tells about itself.
#[derive(Clone, Debug, PartialEq, Eq)]
pub struct MarketingInfo {
    pub project: Option<String>,
    pub description: Option<String>,
    pub marketing: Option<String>,
    pub logo: Option<String>,
}

/// Which staking contract the voting module reads: one that exists, or one
/// that is to be set up from the code with the given id.
#[derive(Clone, Debug, PartialEq, Eq)]
pub enum StakingInfo {
    Existing { staking_contract_address: String },
    New { staking_code_id: u64, unstaking_duration: Option<Duration> },
}

/// Which vesting contract the voting module reads: one that exists, or one
/// that is to be set up from the code with the given id, for the owner named
/// (the sender where none is).
#[derive(Clone, Debug, PartialEq, Eq)]
pub enum VestingInfo {
    Existing { vesting_contract_address: String },
    New { vesting_code_id: u64, owner_address: Option<String> },
}

/// Which token governs: one that exists, with its staking and vesting
/// contracts, or one that is to be created together with them.
#[derive(Clone, Debug, PartialEq, Eq)]
pub enum TokenInfo {
    Existing { address: String, staking_contract: StakingInfo, vesting_contract: VestingInfo },
    New {
        code_id: u64,
        label: String,
        name: String,
        symbol: String,
        decimals: u8,
        initial_balances: Vec<Cw20Coin>,
        initial_dao_balance: Option<u128>,
        marketing: Option<MarketingInfo>,
        staking_code_id: u64,
        unstaking_duration: Option<Duration>,
        vesting_code_id: u64,
        vesting_owner_address: Option<String>,
    },
}

/// Sets the module up: which token governs, and from which power on the module counts
/// as active.
#[derive(Clone, Debug, PartialEq, Eq)]
pub struct InstantiateMsg {
    pub token_info: TokenInfo,
    pub active_threshold: Option<ActiveThreshold>,
}

/// The calls that change the module.
#[derive(Clone, Copy, Debug, PartialEq, Eq, Structural)]
pub enum ExecuteMsg {
    /// Sets the threshold, or drops it where none is given.
    UpdateActiveThreshold { new_threshold: Option<ActiveThreshold> },
}

/// The questions that the module answers.
#[derive(Clone, Debug, PartialEq, Eq)]
pub enum QueryMsg {
    TokenContract {  },
    StakingContract {  },
    VestingContract {  },
    VotingPowerAtHeight { address: String, height: Option<u64> },
    TotalPowerAtHeight { height: Option<u64> },
    Info {  },
    Dao {  },
    IsActive {  },
    ActiveThreshold {  },
}

/// The threshold from which the module counts as active, if there is one.
#[derive(Clone, Copy, Debug, PartialEq, Eq, Structural)]
pub struct ActiveThresholdResponse {
    pub active_threshold: Option<ActiveThreshold>,
}

/// How much voting power one vested token gives.
#[derive(Clone, Copy, Debug, PartialEq, Eq, Structural)]
pub struct VotingPowerRatioResponse {
    pub voting_power_ratio: Decimal,
}

/// The voting power of an address, and the height that it is the power of.
#[derive(Clone, Copy, Debug, PartialEq, Eq, Structural)]
pub struct VotingPowerAtHeightResponse {
    pub power: u128,
    pub height: u64,
}

/// The voting power there is in all, and the height that it is the power of.
#[derive(Clone, Copy, Debug, PartialEq, Eq, Structural)]
pub struct TotalPowerAtHeightResponse {
    pub power: u128,
    pub height: u64,
}

/// Whether the module counts as active.
#[derive(Clone, Copy, Debug, PartialEq, Eq, Structural)]
pub struct IsActiveResponse {
    pub active: bool,
}

/// The name and version that the module recorded.
#[derive(Clone, Debug, PartialEq, Eq)]
pub struct InfoResponse {
    pub info: ContractVersion,
}

/// Asks the module to bring its version metadata up to date.
#[derive(Clone, Copy, Debug, PartialEq, Eq, Structural)]
pub struct MigrateMsg {}

/// The message that sets up another contract.
#[derive(Clone, Debug, PartialEq, Eq)]
pub enum InitMsg {
    /// Creates a token with the sender of this module as its minter.
    Cw20Base {
        name: String,
        symbol: String,
        decimals: u8,
        initial_balances: Vec<Cw20Coin>,
        minter: String,
        marketing: Option<MarketingInfo>,
    },
    /// Sets up a staking contract for a token.
    Cw20Stake {
        owner: Option<String>,
        unstaking_duration: Option<Duration>,
        token_address: String,
        manager: Option<String>,
    },
    /// Sets up a vesting contract for a token.
    CustomVesting { owner_address: Option<String>, token_address: String },
}

/// An instruction to set up a contract from the code with the given id, and
/// to report back under `reply_id` once that has succeeded.
#[derive(Clone, Debug, PartialEq, Eq)]
pub struct Instantiation {
    pub reply_id: u64,
    pub code_id: u64,
    pub admin: Option<String>,
    pub label: String,
    pub init: InitMsg,
}

/// A `Cw20Coin` with its address as a sequence of characters.
pub struct CoinView {
    pub address: Seq<char>,
    pub amount: u128,
}

impl View for Cw20Coin {
    type V = CoinView;

    open spec fn view(&self) -> CoinView {
        CoinView { address: self.address@, amount: self.amount }
    }
}

/// The balances of a list of coins.
pub open spec fn coins_of(coins: Seq<Cw20Coin>) -> Seq<CoinView> {
    coins.map_values(|coin: Cw20Coin| coin@)
}

/// An `InitMsg` with its strings as sequences of characters; what a token
/// tells about itself is carried as it is.
pub enum InitView {
    Cw20Base {
        name: Seq<char>,
        symbol: Seq<char>,
        decimals: u8,
        initial_balances: Seq<CoinView>,
        minter: Seq<char>,
        marketing: Option<MarketingInfo>,
    },
    Cw20Stake {
        owner: Option<Seq<char>>,
        unstaking_duration: Option<Duration>,
        token_address: Seq<char>,
        manager: Option<Seq<char>>,
    },
    CustomVesting { owner_address: Option<Seq<char>>, token_address: Seq<char> },
}

impl View for InitMsg {
    type V = InitView;

    open spec fn view(&self) -> InitView {
        match self {
            InitMsg::Cw20Base {
                name,
                symbol,
                decimals,
                initial_balances,
                minter,
                marketing,
            } => InitView::Cw20Base {
                name: name@,
                symbol: symbol@,
                decimals: *decimals,
                initial_balances: coins_of(initial_balances@),
                minter: minter@,
                marketing: *marketing,
            },
            InitMsg::Cw20Stake {
                owner,
                unstaking_duration,
                token_address,
                manager,
            } => InitView::Cw20Stake {
                owner: crate::text::text_of(*owner),
                unstaking_duration: *unstaking_duration,
                token_address: token_address@,
                manager: crate::text::text_of(*manager),
            },
            InitMsg::CustomVesting { owner_address, token_address } => InitView::CustomVesting {
                owner_address: crate::text::text_of(*owner_address),
                token_address: token_address@,
            },
        }
    }
}

/// An `Instantiation` with its strings as sequences of characters.
pub struct InstantiationView {
    pub reply_id: u64,
    pub code_id: u64,
    pub admin: Option<Seq<char>>,
    pub label: Seq<char>,
    pub init: InitView,
}

impl View for Instantiation {
    type V = InstantiationView;

    open spec fn view(&self) -> InstantiationView {
        InstantiationView {
            reply_id: self.reply_id,
            code_id: self.code_id,
            admin: crate::text::text_of(self.admin),
            label: self.label@,
            init: self.init@,
        }
    }
}

/// The report on an instruction that was to report back: the id it was sent
/// under and how it ended, with the data that the chain returned for it, if
/// any, or with an error.
#[derive(Debug, PartialEq, Eq)]
pub struct Reply {
    pub id: u64,
    pub result: Result<Option<Vec<u8>>, String>,
}

/// The answer to a `QueryMsg`, one variant per kind of answer.
#[derive(Clone, Debug, PartialEq, Eq)]
pub enum QueryResponse {
    Address(String),
    VotingPowerAtHeight(VotingPowerAtHeightResponse),
    TotalPowerAtHeight(TotalPowerAtHeightResponse),
    Info(InfoResponse),
    IsActive(IsActiveResponse),
    ActiveThreshold(ActiveThresholdResponse),
}

} // verus!
