use crate::context::Env;
use crate::context::MessageInfo;
use crate::response::Response;
use crate::response::ResponseView;
use crate::storage::decodes;
use crate::storage::is_number_entry;
use crate::storage::is_text_entry;
use crate::storage::new_storage;
use crate::storage::number_entries;
use crate::storage::number_entry;
use crate::storage::number_may_load;
use crate::storage::number_remove;
use crate::storage::number_save;
use crate::storage::rows_kept;
use crate::storage::text_entries;
use crate::storage::text_entry;
use crate::storage::text_may_load;
use crate::storage::text_remove;
use crate::storage::text_save;
use crate::storage::version_may_load;
use crate::storage::version_remove;
use crate::storage::version_row;
use crate::storage::version_save;
use crate::text::text_of;
use crate::voting_power::contract;
use crate::voting_power::contract::answers;
use crate::voting_power::contract::code_version;
use crate::voting_power::contract::ends_as;
use crate::voting_power::contract::executed;
use crate::voting_power::contract::reported_address;
use crate::voting_power::error::ContractError;
use crate::voting_power::state::StateView;
use crate::voting_power::msg::Duration;
use crate::voting_power::msg::ExecuteMsg;
use crate::voting_power::msg::InstantiateMsg;
use crate::voting_power::msg::MigrateMsg;
use crate::voting_power::msg::QueryMsg;
use crate::voting_power::msg::QueryResponse;
use crate::voting_power::msg::Reply;
use crate::voting_power::state::ChainAnswers;
use crate::voting_power::state::State;
use crate::voting_power::store::duration_may_load;
use crate::voting_power::store::duration_remove;
use crate::voting_power::store::duration_row;
use crate::voting_power::store::duration_save;
use crate::voting_power::store::threshold_may_load;
use crate::voting_power::store::threshold_remove;
use crate::voting_power::store::threshold_row;
use crate::voting_power::store::threshold_save;
use crate::voting_power::store::DurationRow;
use crate::voting_power::store::ThresholdRow;
use crate::voting_power::threshold::ActiveThreshold;
use crate::voting_power::threshold::Decimal;
use cosmwasm_std::MemoryStorage;
use vstd::prelude::*;

verus! {

/// The time that a stored row stands for.
pub open spec fn duration_of(row: DurationRow) -> Option<Duration> {
    match row {
        Some((true, blocks)) => Some(Duration::Height(blocks)),
        Some((false, seconds)) => Some(Duration::Time(seconds)),
        None => None,
    }
}

/// The threshold that a stored row stands for.
pub open spec fn threshold_of(row: ThresholdRow) -> ActiveThreshold {
    if row.0 {
        ActiveThreshold::AbsoluteCount { count: row.1 }
    } else {
        ActiveThreshold::Percentage { percent: Decimal { atomics: row.1 } }
    }
}

/// What a module remembers whose storage is `storage`.
pub open spec fn state_in(storage: MemoryStorage) -> StateView {
    StateView {
        version: version_row(storage),
        token: text_entry(storage, "token"@),
        dao: text_entry(storage, "dao"@),
        staking_contract: text_entry(storage, "staking_contract"@),
        vesting_contract: text_entry(storage, "vesting_contract"@),
        staking_contract_code_id: number_entry(storage, "staking_contract_code_id"@),
        staking_contract_unstaking_duration: match duration_row(storage) {
            Some(row) => Some(duration_of(row)),
            None => None,
        },
        vesting_contract_code_id: number_entry(storage, "vesting_contract_code_id"@),
        vesting_contract_owner: text_entry(storage, "vesting_contract_owner"@),
        active_threshold: match threshold_row(storage) {
            Some(row) => Some(threshold_of(row)),
            None => None,
        },
    }
}

/// The module as the chain keeps it: everything it remembers between calls,
/// in the storage that holds it.
pub struct Store {
    storage: MemoryStorage,
}

impl View for Store {
    type V = StateView;

    closed spec fn view(&self) -> StateView {
        state_in(self.storage)
    }
}

/// The entries that hold a string are stored under names that differ from
/// one another, and so are the two that hold a number.
proof fn lemma_names_differ()
    ensures
        "token"@.len() == 5,
        "dao"@.len() == 3,
        "staking_contract"@.len() == 16,
        "vesting_contract"@.len() == 16,
        "vesting_contract_owner"@.len() == 22,
        "staking_contract"@ != "vesting_contract"@,
        "staking_contract_code_id"@ != "vesting_contract_code_id"@,
{
    reveal_strlit("token");
    reveal_strlit("dao");
    reveal_strlit("staking_contract");
    reveal_strlit("vesting_contract");
    reveal_strlit("vesting_contract_owner");
    reveal_strlit("staking_contract_code_id");
    reveal_strlit("vesting_contract_code_id");
    assert("staking_contract"@[0] == 's');
    assert("vesting_contract"@[0] == 'v');
    assert("staking_contract_code_id"@[0] == 's');
    assert("vesting_contract_code_id"@[0] == 'v');
}

/// Stores `value` under the name, or clears the entry where there is none;
/// every other entry stays as it is.
fn put_text(storage: &mut MemoryStorage, name: &str, value: &Option<String>)
    requires
        decodes(*old(storage)),
        is_text_entry(name@),
    ensures
        decodes(*final(storage)),
        text_entries(*final(storage)) == (match text_of(*value) {
            Some(text) => text_entries(*old(storage)).insert(name@, text),
            None => text_entries(*old(storage)).remove(name@),
        }),
        number_entries(*final(storage)) == number_entries(*old(storage)),
        version_row(*final(storage)) == version_row(*old(storage)),
        rows_kept(*old(storage), *final(storage)),
    no_unwind
{
    match value {
        Some(text) => text_save(storage, name, text),
        None => text_remove(storage, name),
    }
}

/// Stores `value` under the name, or clears the entry where there is none;
/// every other entry stays as it is.
fn put_number(storage: &mut MemoryStorage, name: &str, value: Option<u64>)
    requires
        decodes(*old(storage)),
        is_number_entry(name@),
    ensures
        decodes(*final(storage)),
        number_entries(*final(storage)) == (match value {
            Some(number) => number_entries(*old(storage)).insert(name@, number),
            None => number_entries(*old(storage)).remove(name@),
        }),
        text_entries(*final(storage)) == text_entries(*old(storage)),
        version_row(*final(storage)) == version_row(*old(storage)),
        rows_kept(*old(storage), *final(storage)),
    no_unwind
{
    match value {
        Some(number) => number_save(storage, name, number),
        None => number_remove(storage, name),
    }
}

impl Store {
    /// Every entry that the storage holds for the module decodes.
    #[verifier::type_invariant]
    spec fn intact(&self) -> bool {
        decodes(self.storage)
    }

    /// A module that is not set up yet.
    pub fn new() -> (deps: Store)
        ensures
            deps@ == StateView::empty(),
    {
        Store { storage: new_storage() }
    }

    /// The module whose storage is `storage`. The storage must be one that
    /// only this module wrote to, as the chain keeps it between calls.
    pub fn from_storage(storage: MemoryStorage) -> (deps: Store)
        requires
            decodes(storage),
        ensures
            deps@ == state_in(storage),
    {
        Store { storage }
    }

    /// The storage of the module, for the chain to keep until the next call.
    pub fn into_storage(self) -> (storage: MemoryStorage)
        ensures
            decodes(storage),
            state_in(storage) == self@,
    {
        proof {
            use_type_invariant(&self);
        }
        self.storage
    }

    /// What the module remembers, read from its storage.
    pub fn load(&self) -> (state: State)
        ensures
            state@ == self@,
    {
        proof {
            use_type_invariant(self);
        }
        State {
            version: version_may_load(&self.storage),
            token: text_may_load(&self.storage, "token"),
            dao: text_may_load(&self.storage, "dao"),
            staking_contract: text_may_load(&self.storage, "staking_contract"),
            vesting_contract: text_may_load(&self.storage, "vesting_contract"),
            staking_contract_code_id: number_may_load(&self.storage, "staking_contract_code_id"),
            staking_contract_unstaking_duration: match duration_may_load(&self.storage) {
                Some(Some((true, blocks))) => Some(Some(Duration::Height(blocks))),
                Some(Some((false, seconds))) => Some(Some(Duration::Time(seconds))),
                Some(None) => Some(None),
                None => None,
            },
            vesting_contract_code_id: number_may_load(&self.storage, "vesting_contract_code_id"),
            vesting_contract_owner: text_may_load(&self.storage, "vesting_contract_owner"),
            active_threshold: match threshold_may_load(&self.storage) {
                Some((true, count)) => Some(ActiveThreshold::AbsoluteCount { count }),
                Some((false, atomics)) => Some(
                    ActiveThreshold::Percentage { percent: Decimal { atomics } },
                ),
                None => None,
            },
        }
    }

    /// Writes `state` to the storage: afterwards the module remembers
    /// exactly that.
    fn save(&mut self, state: &State)
        ensures
            final(self)@ == state@,
    {
        proof {
            use_type_invariant(&*self);
            lemma_names_differ();
        }
        match &state.version {
            Some(version) => version_save(
                &mut self.storage,
                version.contract.as_str(),
                version.version.as_str(),
            ),
            None => version_remove(&mut self.storage),
        }
        put_text(&mut self.storage, "token", &state.token);
        put_text(&mut self.storage, "dao", &state.dao);
        put_text(&mut self.storage, "staking_contract", &state.staking_contract);
        put_text(&mut self.storage, "vesting_contract", &state.vesting_contract);
        put_text(&mut self.storage, "vesting_contract_owner", &state.vesting_contract_owner);
        put_number(&mut self.storage, "staking_contract_code_id", state.staking_contract_code_id);
        put_number(&mut self.storage, "vesting_contract_code_id", state.vesting_contract_code_id);
        match state.staking_contract_unstaking_duration {
            Some(Some(Duration::Height(blocks))) => duration_save(
                &mut self.storage,
                &Some((true, blocks)),
            ),
            Some(Some(Duration::Time(seconds))) => duration_save(
                &mut self.storage,
                &Some((false, seconds)),
            ),
            Some(None) => duration_save(&mut self.storage, &None),
            None => duration_remove(&mut self.storage),
        }
        match state.active_threshold {
            Some(ActiveThreshold::AbsoluteCount { count }) => threshold_save(
                &mut self.storage,
                &(true, count),
            ),
            Some(ActiveThreshold::Percentage { percent }) => threshold_save(
                &mut self.storage,
                &(false, percent.atomics),
            ),
            None => threshold_remove(&mut self.storage),
        }
    }
}

/// Sets the module up in its storage. Where that fails, the storage stays as
/// it was.
pub fn instantiate(
    deps: &mut Store,
    env: Env,
    info: MessageInfo,
    msg: InstantiateMsg,
    chain: ChainAnswers,
) -> (result: Result<Response, ContractError>)
    ensures
        ends_as(
            old(deps)@.instantiate(code_version(), info.sender@, msg, chain),
            final(deps)@,
            result,
        ),
        result is Err ==> final(deps)@ == old(deps)@,
{
    let mut state = deps.load();
    let result = contract::instantiate(&mut state, env, info, msg, chain);
    if result.is_ok() {
        deps.save(&state);
    }
    result
}

/// Handles a message that changes the module in its storage. Where that
/// fails, the storage stays as it was.
pub fn execute(deps: &mut Store, env: Env, info: MessageInfo, msg: ExecuteMsg, chain: ChainAnswers)
    -> (result: Result<Response, ContractError>)
    ensures
        ends_as(executed(old(deps)@, info.sender@, msg, chain), final(deps)@, result),
        result is Err ==> final(deps)@ == old(deps)@,
{
    let mut state = deps.load();
    let result = contract::execute(&mut state, env, info, msg, chain);
    if result.is_ok() {
        deps.save(&state);
    }
    result
}

/// Hears back about a contract that the module asked to be set up, and
/// stores what follows from it. Where that fails, the storage stays as it
/// was.
pub fn reply(deps: &mut Store, env: Env, msg: Reply, chain: ChainAnswers) -> (result: Result<
    Response,
    ContractError,
>)
    ensures
        ends_as(old(deps)@.replied(msg.id, reported_address(msg), chain), final(deps)@, result),
        result is Err ==> final(deps)@ == old(deps)@,
{
    let mut state = deps.load();
    let result = contract::reply(&mut state, env, msg, chain);
    if result.is_ok() {
        deps.save(&state);
    }
    result
}

/// Answers a question about the module from its storage.
pub fn query(deps: &Store, env: Env, msg: QueryMsg, chain: ChainAnswers) -> (result: Result<
    QueryResponse,
    ContractError,
>)
    ensures
        answers(deps@, msg, chain, result),
{
    let state = deps.load();
    contract::query(&state, env, msg, chain)
}

/// Records the name and version of this code in the storage; everything
/// else stays as it is. Always succeeds, with an empty response.
pub fn migrate(deps: &mut Store, env: Env, msg: MigrateMsg) -> (result: Result<
    Response,
    ContractError,
>)
    ensures
        final(deps)@ == (StateView { version: Some(code_version()), ..old(deps)@ }),
        result is Ok,
        result->Ok_0@ == ResponseView::empty(),
{
    let mut state = deps.load();
    let result = contract::migrate(&mut state, env, msg);
    deps.save(&state);
    result
}

} // verus!
