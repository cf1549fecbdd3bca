use crate::context::ContractVersion;
use crate::text::copy_of;
use crate::text::copy_of_named;
use crate::text::text_of;
use crate::voting_power::msg::Duration;
use crate::voting_power::threshold::ActiveThreshold;
use vstd::prelude::*;

verus! {

/// Everything the voting module remembers between calls, as a plain value.
/// Each entry is absent until it is set.
pub struct State {
    pub version: Option<ContractVersion>,
    /// The governance token.
    pub token: Option<String>,
    /// The DAO that this module belongs to: whoever set it up.
    pub dao: Option<String>,
    pub staking_contract: Option<String>,
    pub vesting_contract: Option<String>,
    pub staking_contract_code_id: Option<u64>,
    pub staking_contract_unstaking_duration: Option<Option<Duration>>,
    pub vesting_contract_code_id: Option<u64>,
    pub vesting_contract_owner: Option<String>,
    pub active_threshold: Option<ActiveThreshold>,
}

/// A `State` with its strings as sequences of characters.
pub struct StateView {
    pub version: Option<(Seq<char>, Seq<char>)>,
    pub token: Option<Seq<char>>,
    pub dao: Option<Seq<char>>,
    pub staking_contract: Option<Seq<char>>,
    pub vesting_contract: Option<Seq<char>>,
    pub staking_contract_code_id: Option<u64>,
    pub staking_contract_unstaking_duration: Option<Option<Duration>>,
    pub vesting_contract_code_id: Option<u64>,
    pub vesting_contract_owner: Option<Seq<char>>,
    pub active_threshold: Option<ActiveThreshold>,
}

impl View for State {
    type V = StateView;

    open spec fn view(&self) -> StateView {
        StateView {
            version: crate::context::version_text(self.version),
            token: text_of(self.token),
            dao: text_of(self.dao),
            staking_contract: text_of(self.staking_contract),
            vesting_contract: text_of(self.vesting_contract),
            staking_contract_code_id: self.staking_contract_code_id,
            staking_contract_unstaking_duration: self.staking_contract_unstaking_duration,
            vesting_contract_code_id: self.vesting_contract_code_id,
            vesting_contract_owner: text_of(self.vesting_contract_owner),
            active_threshold: self.active_threshold,
        }
    }
}

impl StateView {
    /// What a module remembers before it is set up.
    pub open spec fn empty() -> StateView {
        StateView {
            version: None,
            token: None,
            dao: None,
            staking_contract: None,
            vesting_contract: None,
            staking_contract_code_id: None,
            staking_contract_unstaking_duration: None,
            vesting_contract_code_id: None,
            vesting_contract_owner: None,
            active_threshold: None,
        }
    }
}

impl State {
    /// A copy of everything the module remembers.
    pub fn copy(&self) -> (copy: State)
        ensures
            copy@ == self@,
    {
        State {
            version: match &self.version {
                Some(version) => Some(
                    ContractVersion {
                        contract: copy_of(&version.contract),
                        version: copy_of(&version.version),
                    },
                ),
                None => None,
            },
            token: copy_of_named(&self.token),
            dao: copy_of_named(&self.dao),
            staking_contract: copy_of_named(&self.staking_contract),
            vesting_contract: copy_of_named(&self.vesting_contract),
            staking_contract_code_id: self.staking_contract_code_id,
            staking_contract_unstaking_duration: self.staking_contract_unstaking_duration,
            vesting_contract_code_id: self.vesting_contract_code_id,
            vesting_contract_owner: copy_of_named(&self.vesting_contract_owner),
            active_threshold: self.active_threshold,
        }
    }

    /// A module that is not set up yet.
    pub fn new() -> (deps: State)
        ensures
            deps@ == StateView::empty(),
    {
        State {
            version: None,
            token: None,
            dao: None,
            staking_contract: None,
            vesting_contract: None,
            staking_contract_code_id: None,
            staking_contract_unstaking_duration: None,
            vesting_contract_code_id: None,
            vesting_contract_owner: None,
            active_threshold: None,
        }
    }
}

/// What the chain answers to the questions that a handler asks of it while
/// it runs; `None` where a question was not answered.
#[derive(Clone, Debug, PartialEq, Eq)]
pub struct ChainAnswers {
    /// The address of this module.
    pub contract_address: String,
    /// The total supply of the governance token.
    pub total_supply: Option<u128>,
    /// The token that the staking contract says it stakes.
    pub staking_token_address: Option<String>,
    /// The token that the vesting contract says it vests.
    pub vesting_token_address: Option<String>,
    /// What the address asked about had staked, and as of which height.
    pub staked_balance: Option<(u128, u64)>,
    /// What was staked in all, and as of which height.
    pub total_staked: Option<(u128, u64)>,
    /// What the address asked about could claim from the vesting contract.
    pub vesting_claimable: Option<u128>,
    /// What the vesting contract counts as vested and as claimed in all.
    pub vesting_total: Option<(u128, u128)>,
}

} // verus!
