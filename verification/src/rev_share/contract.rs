use crate::context::Env;
use crate::context::MessageInfo;
use crate::response::AttributeValue;
use crate::response::Message;
use crate::response::Response;
use crate::rev_share::error::ContractError;
use crate::rev_share::model::Outcome;
use crate::rev_share::model::StateView;
use crate::rev_share::msg::ConfigResponse;
use crate::rev_share::msg::ExecuteMsg;
use crate::rev_share::msg::InstantiateMsg;
use crate::rev_share::msg::IsClaimedResponse;
use crate::rev_share::msg::IsPausedResponse;
use crate::rev_share::msg::LatestStageResponse;
use crate::rev_share::msg::QueryMsg;
use crate::rev_share::msg::QueryResponse;
use crate::rev_share::msg::StageBlockResponse;
use crate::rev_share::msg::TotalClaimedResponse;
use crate::rev_share::state::compute_allocation;
use crate::rev_share::state::stage_of;
use crate::rev_share::state::ChainAnswers;
use crate::rev_share::state::Config;
use crate::rev_share::state::Stage;
use crate::rev_share::store::claim_may_load;
use crate::rev_share::store::claim_save;
use crate::rev_share::store::claim_flags;
use crate::rev_share::store::stage_rows;
use crate::rev_share::store::stage_may_load;
use crate::rev_share::store::stage_save;
use crate::rev_share::store::StageRow;
use crate::schedule::Expiration;
use crate::schedule::Scheduled;
use crate::storage::decodes;
use crate::storage::number_entry;
use crate::storage::number_may_load;
use crate::storage::number_save;
use crate::storage::version_row;
use crate::storage::version_save;
use crate::rev_share::store::config_may_load;
use crate::rev_share::store::config_row;
use crate::rev_share::store::config_save;
use crate::rev_share::state::ConfigView;
use crate::storage::MAX_ADDRESS_LENGTH;
use crate::rev_share::store::short_addresses;
use crate::storage::new_storage;
use crate::text::copy_of;
use crate::text::copy_of_named;
use crate::text::named_or_copy;
use crate::text::text_of;
use cosmwasm_std::MemoryStorage;
use vstd::prelude::*;

verus! {

/// The name under which the contract records its version.
pub const CONTRACT_NAME: &'static str = "crates.io:klmd-rev-share";

/// The version that the contract records.
pub const CONTRACT_VERSION: &'static str = "0.1.0";

/// The name and the version that this code records when it sets a contract
/// up.
pub open spec fn code_version() -> (Seq<char>, Seq<char>) {
    ("crates.io:klmd-rev-share"@, "0.1.0"@)
}

/// The stages that stored rows stand for.
pub open spec fn stages_in(rows: Map<u8, StageRow>) -> Map<u8, Stage> {
    Map::new(|stage: u8| rows.contains_key(stage), |stage: u8| stage_of(rows[stage]))
}

/// Everything the revenue-share contract remembers between calls: its
/// version, its settings and the number of its latest stage once set up, and
/// the storage that holds the stages and the claims.
pub struct Store {
    storage: MemoryStorage,
}

/// What a contract remembers whose storage is `storage`.
pub open spec fn state_in(storage: MemoryStorage) -> StateView {
    StateView {
        version: version_row(storage),
        config: match config_row(storage) {
            Some(row) => Some(
                ConfigView {
                    owner: row.0,
                    cw20_token_address: row.1,
                    native_token: row.2,
                    cw20_staking_address: row.3,
                },
            ),
            None => None,
        },
        latest_stage: match number_entry(storage, "stage"@) {
            Some(stage) => Some(stage as u8),
            None => None,
        },
        stages: stages_in(stage_rows(storage)),
        claims: claim_flags(storage),
    }
}

/// Whether a storage is one that the contract can work on: every entry in
/// it decodes, every address that it holds a claim under fits a storage key,
/// and the number of the latest stage is one that a stage can have.
pub open spec fn sound(storage: MemoryStorage) -> bool {
    &&& decodes(storage)
    &&& short_addresses(storage)
    &&& match number_entry(storage, "stage"@) {
        Some(stage) => stage <= u8::MAX,
        None => true,
    }
}

impl View for Store {
    type V = StateView;

    closed spec fn view(&self) -> StateView {
        state_in(self.storage)
    }
}

/// Whether a call that should end as `outcome` did: the contract remembers
/// what it should, and the caller was told what it should be told.
pub open spec fn ends_as(outcome: Outcome, state: StateView, result: Result<Response, ContractError>)
    -> bool {
    &&& state == outcome.state
    &&& match outcome.result {
        Ok(response) => result is Ok && result->Ok_0@ == response,
        Err(error) => result is Err && result->Err_0 == error,
    }
}

impl Store {
    /// The storage is one that the contract can work on.
    #[verifier::type_invariant]
    spec fn intact(&self) -> bool {
        sound(self.storage)
    }

    /// A contract that is not set up yet and holds nothing.
    pub fn new() -> (deps: Store)
        ensures
            deps@ == StateView::empty(),
    {
        let deps = Store { storage: new_storage() };
        assert(deps@.stages =~= Map::empty());
        deps
    }

    /// The contract whose storage is `storage`. The storage must be one that
    /// only this contract wrote to, as the chain keeps it between calls.
    pub fn from_storage(storage: MemoryStorage) -> (deps: Store)
        requires
            sound(storage),
        ensures
            deps@ == state_in(storage),
    {
        Store { storage }
    }

    /// The storage of the contract, for the chain to keep until the next
    /// call.
    pub fn into_storage(self) -> (storage: MemoryStorage)
        ensures
            sound(storage),
            state_in(storage) == self@,
    {
        proof {
            use_type_invariant(&self);
        }
        self.storage
    }

    /// The settings, once the contract is set up.
    fn config(&self) -> (found: Option<Config>)
        ensures
            match found {
                Some(config) => self@.config == Some(config@),
                None => self@.config is None,
            },
    {
        proof {
            use_type_invariant(self);
        }
        match config_may_load(&self.storage) {
            Some(row) => Some(
                Config {
                    owner: row.0,
                    cw20_token_address: row.1,
                    native_token: row.2,
                    cw20_staking_address: row.3,
                },
            ),
            None => None,
        }
    }

    /// Stores `config` as the settings; all else stays as it is.
    fn set_config(&mut self, config: Config)
        ensures
            final(self)@ == (StateView { config: Some(config@), ..old(self)@ }),
    {
        proof {
            use_type_invariant(&*self);
        }
        let row = (
            config.owner,
            config.cw20_token_address,
            config.native_token,
            config.cw20_staking_address,
        );
        config_save(&mut self.storage, &row);
    }

    /// The number of the latest stage, once the contract is set up.
    fn latest(&self) -> (found: Option<u8>)
        ensures
            found == self@.latest_stage,
    {
        proof {
            use_type_invariant(self);
        }
        match number_may_load(&self.storage, "stage") {
            Some(stage) => Some(stage as u8),
            None => None,
        }
    }

    /// Stores `stage` as the number of the latest stage; all else stays as
    /// it is.
    fn set_latest(&mut self, stage: u8)
        ensures
            final(self)@ == (StateView { latest_stage: Some(stage), ..old(self)@ }),
    {
        proof {
            use_type_invariant(&*self);
        }
        number_save(&mut self.storage, "stage", stage as u64);
    }

    /// The record of `stage`, if it exists.
    fn stage(&self, stage: u8) -> (found: Option<Stage>)
        ensures
            found == self@.stage(stage),
    {
        proof {
            use_type_invariant(self);
        }
        match stage_may_load(&self.storage, stage) {
            Some(row) => Some(Stage::from_row(row)),
            None => None,
        }
    }

    /// Stores `record` as the record of `stage`.
    fn set_stage(&mut self, stage: u8, record: Stage)
        ensures
            final(self)@ == (StateView {
                stages: old(self)@.stages.insert(stage, record),
                ..old(self)@
            }),
    {
        proof {
            use_type_invariant(&*self);
        }
        stage_save(&mut self.storage, stage, &record.to_row());
        assert(self@.stages =~= old(self)@.stages.insert(stage, record));
    }
}

/// Sets the contract up. Always succeeds, with an empty response.
pub fn instantiate(deps: &mut Store, env: Env, info: MessageInfo, msg: InstantiateMsg) -> (result:
    Result<Response, ContractError>)
    ensures
        ends_as(
            old(deps)@.instantiate(
                code_version(),
                info.sender@,
                text_of(msg.owner),
                msg.cw20_token_address@,
                msg.native_token@,
                msg.cw20_staking_address@,
            ),
            final(deps)@,
            result,
        ),
{
    proof {
        use_type_invariant(&*deps);
    }
    version_save(&mut deps.storage, CONTRACT_NAME, CONTRACT_VERSION);
    let owner = named_or_copy(msg.owner, &info.sender);
    deps.set_latest(0);
    deps.set_config(
        Config {
            owner: Some(owner),
            cw20_token_address: msg.cw20_token_address,
            native_token: msg.native_token,
            cw20_staking_address: msg.cw20_staking_address,
        },
    );
    Ok(Response::new())
}

/// Lets the call pass only where `sender` is the owner.
pub fn only_owner(deps: &Store, sender: &String) -> (result: Result<(), ContractError>)
    ensures
        result == deps@.only_owner(sender@),
{
    match &deps.config() {
        None => Err(ContractError::NotFound {  }),
        Some(config) => match &config.owner {
            None => Err(ContractError::Unauthorized {  }),
            Some(owner) => {
                if *owner != *sender {
                    return Err(ContractError::Unauthorized {  });
                }
                Ok(())
            },
        },
    }
}

/// Replaces the settings that the call names.
pub fn execute_update_config(
    deps: &mut Store,
    env: Env,
    info: MessageInfo,
    new_owner: Option<String>,
    cw20_token_address: Option<String>,
    native_token: Option<String>,
    cw20_staking_address: Option<String>,
) -> (result: Result<Response, ContractError>)
    ensures
        ends_as(
            old(deps)@.update_config(
                info.sender@,
                text_of(new_owner),
                text_of(cw20_token_address),
                text_of(native_token),
                text_of(cw20_staking_address),
            ),
            final(deps)@,
            result,
        ),
{
    proof {
        use_type_invariant(&*deps);
    }
    match only_owner(deps, &info.sender) {
        Ok(()) => {},
        Err(error) => {
            return Err(error);
        },
    }
    let new_config = match &deps.config() {
        None => {
            return Err(ContractError::NotFound {  });
        },
        Some(current_config) => Config {
            owner: match new_owner {
                Some(owner) => Some(owner),
                None => copy_of_named(&current_config.owner),
            },
            cw20_token_address: named_or_copy(
                cw20_token_address,
                &current_config.cw20_token_address,
            ),
            native_token: named_or_copy(native_token, &current_config.native_token),
            cw20_staking_address: named_or_copy(
                cw20_staking_address,
                &current_config.cw20_staking_address,
            ),
        },
    };
    deps.set_config(new_config);
    Ok(
        Response::new().add_attribute(
            "action",
            AttributeValue::Text(String::from_str("update_config")),
        ),
    )
}

/// Creates the next stage.
pub fn execute_create_new_stage(
    deps: &mut Store,
    env: Env,
    info: MessageInfo,
    total_amount: u128,
    snapshot_block: Option<u64>,
    expiration: Option<Expiration>,
    start: Option<Scheduled>,
) -> (result: Result<Response, ContractError>)
    ensures
        ends_as(
            old(deps)@.create_new_stage(
                env.block,
                info.sender@,
                total_amount,
                snapshot_block,
                expiration,
                start,
            ),
            final(deps)@,
            result,
        ),
{
    proof {
        use_type_invariant(&*deps);
    }
    match only_owner(deps, &info.sender) {
        Ok(()) => {},
        Err(error) => {
            return Err(error);
        },
    }
    let latest: u8 = match deps.latest() {
        Some(latest) => latest,
        None => {
            return Err(ContractError::NotFound {  });
        },
    };
    if latest == u8::MAX {
        return Err(ContractError::Overflow {  });
    }
    let stage: u8 = latest + 1;
    deps.set_latest(stage);

    let stage_block: u64 = match snapshot_block {
        Some(block) => block,
        None => env.block.height,
    };
    let exp = match expiration {
        Some(expiration) => expiration,
        None => Expiration::Never {  },
    };
    deps.set_stage(
        stage,
        Stage {
            height: stage_block,
            expiration: exp,
            start,
            paused: false,
            amount: total_amount,
            claimed: 0,
        },
    );
    Ok(
        Response::new().add_attribute(
            "action",
            AttributeValue::Text(String::from_str("create_new_stage")),
        ).add_attribute("stage", AttributeValue::Number(stage as u64)).add_attribute(
            "total_amount",
            AttributeValue::Amount(total_amount),
        ),
    )
}

/// What keeps a stage from being used in the block, if anything.
fn check_open(stage: u8, record: &Stage, env: &Env) -> (barred: Option<ContractError>)
    ensures
        barred == crate::rev_share::model::not_open(stage, *record, env.block),
{
    if let Some(start) = record.start {
        if !start.is_triggered(&env.block) {
            return Some(ContractError::StageNotBegun { stage, start });
        }
    }
    if record.expiration.is_expired(&env.block) {
        return Some(ContractError::StageExpired { stage, expiration: record.expiration });
    }
    None
}

/// What keeps the funds of a stage from being withdrawn in the block, if
/// anything.
fn check_done(stage: u8, record: &Stage, env: &Env) -> (barred: Option<ContractError>)
    ensures
        barred == crate::rev_share::model::not_done(stage, *record, env.block),
{
    if !record.paused {
        if !record.expiration.is_expired(&env.block) {
            return Some(ContractError::StageNotExpired { stage, expiration: record.expiration });
        }
    }
    None
}

/// Pauses a stage.
pub fn execute_pause(deps: &mut Store, env: Env, info: MessageInfo, stage: u8) -> (result: Result<
    Response,
    ContractError,
>)
    ensures
        ends_as(old(deps)@.pause(env.block, info.sender@, stage), final(deps)@, result),
{
    match only_owner(deps, &info.sender) {
        Ok(()) => {},
        Err(error) => {
            return Err(error);
        },
    }
    let record = match deps.stage(stage) {
        Some(record) => record,
        None => {
            return Err(ContractError::NotFound {  });
        },
    };
    match check_open(stage, &record, &env) {
        Some(error) => {
            return Err(error);
        },
        None => {},
    }
    deps.set_stage(stage, Stage { paused: true, ..record });
    Ok(
        Response::new().add_attribute("action", AttributeValue::Text(String::from_str("pause")))
            .add_attribute("stage", AttributeValue::Number(stage as u64)).add_attribute(
            "stage_paused",
            AttributeValue::Text(String::from_str("true")),
        ),
    )
}

/// Pays the sender its share of a stage.
pub fn execute_claim(deps: &mut Store, env: Env, info: MessageInfo, stage: u8, chain: ChainAnswers)
    -> (result: Result<Response, ContractError>)
    ensures
        ends_as(old(deps)@.claim(env.block, info.sender@, stage, chain), final(deps)@, result),
{
    proof {
        use_type_invariant(&*deps);
    }
    let native_token = match &deps.config() {
        Some(config) => copy_of(&config.native_token),
        None => {
            return Err(ContractError::NotFound {  });
        },
    };
    let record = match deps.stage(stage) {
        Some(record) => record,
        None => {
            return Err(ContractError::NotFound {  });
        },
    };
    match check_open(stage, &record, &env) {
        Some(error) => {
            return Err(error);
        },
        None => {},
    }
    if record.paused {
        return Err(ContractError::StagePaused { stage });
    }
    if info.sender.as_str().unicode_len() > MAX_ADDRESS_LENGTH {
        return Err(ContractError::AddressTooLong {  });
    }
    let claimed = claim_may_load(&deps.storage, info.sender.as_str(), stage);
    if claimed.is_some() {
        return Err(ContractError::Claimed {  });
    }
    let total_staked: u128 = match chain.total_staked {
        Some(total_staked) => total_staked,
        None => {
            return Err(ContractError::QueryFailed {  });
        },
    };
    // if address has no stake, return error
    let amount: u128 = match chain.staked_balance {
        Some(amount) => amount,
        None => {
            return Err(ContractError::NoStake {  });
        },
    };
    if amount == 0 {
        return Err(ContractError::NoStake {  });
    }
    let addr_allocation: u128 = compute_allocation(record.amount, total_staked, amount);

    // Update total claimed to reflect
    if record.claimed > u128::MAX - addr_allocation {
        return Err(ContractError::Overflow {  });
    }
    let claimed_amount: u128 = record.claimed + addr_allocation;
    // the payment must be covered before anything is written
    let balance: u128 = match chain.balance {
        Some(balance) => balance,
        None => {
            return Err(ContractError::QueryFailed {  });
        },
    };
    if balance < addr_allocation {
        return Err(ContractError::InsufficientFunds { balance, amount: addr_allocation });
    }
    deps.set_stage(stage, Stage { claimed: claimed_amount, ..record });
    proof {
        use_type_invariant(&*deps);
    }
    claim_save(&mut deps.storage, info.sender.as_str(), stage, true);
    Ok(
        Response::new().add_message(
            Message::BankSend {
                to_address: copy_of(&info.sender),
                denom: native_token,
                amount: addr_allocation,
            },
        ).add_attribute("action", AttributeValue::Text(String::from_str("claim"))).add_attribute(
            "stage",
            AttributeValue::Number(stage as u64),
        ).add_attribute("address", AttributeValue::Text(copy_of(&info.sender))).add_attribute(
            "amount",
            AttributeValue::Amount(addr_allocation),
        ),
    )
}

/// Freezes the contract.
pub fn execute_lock_contract(deps: &mut Store, env: Env, info: MessageInfo) -> (result: Result<
    Response,
    ContractError,
>)
    ensures
        ends_as(old(deps)@.lock(info.sender@), final(deps)@, result),
{
    proof {
        use_type_invariant(&*deps);
    }
    match only_owner(deps, &info.sender) {
        Ok(()) => {},
        Err(error) => {
            return Err(error);
        },
    }
    let new_config = match &deps.config() {
        None => {
            return Err(ContractError::NotFound {  });
        },
        Some(config) => Config {
            owner: None,
            cw20_token_address: copy_of(&config.cw20_token_address),
            native_token: copy_of(&config.native_token),
            cw20_staking_address: copy_of(&config.cw20_staking_address),
        },
    };
    deps.set_config(new_config);
    Ok(
        Response::new().add_attribute(
            "action",
            AttributeValue::Text(String::from_str("lock_contract")),
        ),
    )
}

/// Sends what is left of a stage to `address`.
pub fn execute_withdraw(
    deps: &mut Store,
    env: Env,
    info: MessageInfo,
    stage: u8,
    address: String,
    chain: ChainAnswers,
) -> (result: Result<Response, ContractError>)
    ensures
        ends_as(
            old(deps)@.withdraw(env.block, info.sender@, stage, address@, chain.balance),
            final(deps)@,
            result,
        ),
{
    // authorize owner
    match only_owner(deps, &info.sender) {
        Ok(()) => {},
        Err(error) => {
            return Err(error);
        },
    }
    let native_token = match &deps.config() {
        Some(config) => copy_of(&config.native_token),
        None => {
            return Err(ContractError::NotFound {  });
        },
    };
    // make sure is expired if the stage is not paused
    let record = match deps.stage(stage) {
        Some(record) => record,
        None => {
            return Err(ContractError::NotFound {  });
        },
    };
    match check_done(stage, &record, &env) {
        Some(error) => {
            return Err(error);
        },
        None => {},
    }
    // Get total amount per stage and total claimed
    if record.claimed > record.amount {
        return Err(ContractError::Unauthorized {  });
    }
    // Get balance
    let balance_to_withdraw: u128 = record.amount - record.claimed;

    // Withdraw the tokens and response
    let balance: u128 = match chain.balance {
        Some(balance) => balance,
        None => {
            return Err(ContractError::QueryFailed {  });
        },
    };
    if balance < balance_to_withdraw {
        return Err(ContractError::InsufficientFunds { balance, amount: balance_to_withdraw });
    }
    Ok(
        Response::new().add_message(
            Message::BankSend {
                to_address: copy_of(&address),
                denom: native_token,
                amount: balance_to_withdraw,
            },
        ).add_attribute("action", AttributeValue::Text(String::from_str("withdraw"))).add_attribute(
            "stage",
            AttributeValue::Number(stage as u64),
        ).add_attribute("address", AttributeValue::Text(copy_of(&info.sender))).add_attribute(
            "amount",
            AttributeValue::Amount(balance_to_withdraw),
        ).add_attribute("recipient", AttributeValue::Text(address)),
    )
}

/// Sends `amount`, or everything where none is named, of what the contract
/// holds to `address`.
#[verifier::loop_isolation(false)]
pub fn execute_withdraw_all(
    deps: &mut Store,
    env: Env,
    info: MessageInfo,
    address: String,
    amount: Option<u128>,
    chain: ChainAnswers,
) -> (result: Result<Response, ContractError>)
    ensures
        ends_as(
            old(deps)@.withdraw_all(env.block, info.sender@, address@, amount, chain.balance),
            final(deps)@,
            result,
        ),
{
    // authorize owner
    match only_owner(deps, &info.sender) {
        Ok(()) => {},
        Err(error) => {
            return Err(error);
        },
    }
    let native_token = match &deps.config() {
        Some(config) => copy_of(&config.native_token),
        None => {
            return Err(ContractError::NotFound {  });
        },
    };
    // make sure all the stages are either paused or expired
    let latest_stage: u8 = match deps.latest() {
        Some(latest_stage) => latest_stage,
        None => {
            return Err(ContractError::NotFound {  });
        },
    };
    let mut stage_id: u8 = 0;
    while stage_id < latest_stage
        invariant
            stage_id <= latest_stage,
            deps@ == old(deps)@,
            deps@.first_not_done(env.block, stage_id as int) is None,
        decreases latest_stage - stage_id,
    {
        stage_id += 1;
        let record = match deps.stage(stage_id) {
            Some(record) => record,
            None => {
                proof {
                    lemma_first_not_done_stays(deps@, env.block, stage_id as int, latest_stage as int);
                }
                return Err(ContractError::NotFound {  });
            },
        };
        match check_done(stage_id, &record, &env) {
            Some(error) => {
                proof {
                    lemma_first_not_done_stays(deps@, env.block, stage_id as int, latest_stage as int);
                }
                return Err(error);
            },
            None => {},
        }
    }
    // Get the current total balance for the contract
    let total_amount: u128 = match chain.balance {
        Some(balance) => balance,
        None => {
            return Err(ContractError::QueryFailed {  });
        },
    };
    let amount_to_withdraw: u128 = match amount {
        Some(amount) => {
            if amount > total_amount {
                return Err(ContractError::InsufficientFunds { balance: total_amount, amount });
            }
            amount
        },
        None => total_amount,
    };
    Ok(
        Response::new().add_message(
            Message::BankSend {
                to_address: copy_of(&address),
                denom: native_token,
                amount: amount_to_withdraw,
            },
        ).add_attribute("action", AttributeValue::Text(String::from_str("withdraw_all")))
            .add_attribute("address", AttributeValue::Text(copy_of(&info.sender))).add_attribute(
            "amount",
            AttributeValue::Amount(amount_to_withdraw),
        ).add_attribute("recipient", AttributeValue::Text(address)),
    )
}

/// The error of a stage stays the first error when further stages are looked
/// at.
proof fn lemma_first_not_done_stays(
    state: StateView,
    block: crate::context::BlockInfo,
    found: int,
    upto: int,
)
    requires
        0 < found <= upto,
        state.first_not_done(block, found) is Some,
    ensures
        state.first_not_done(block, upto) == state.first_not_done(block, found),
    decreases upto - found,
{
    if found < upto {
        lemma_first_not_done_stays(state, block, found, upto - 1);
    }
}

/// How a call with the message `msg` should end.
pub open spec fn executed(
    state: StateView,
    env: Env,
    sender: Seq<char>,
    msg: ExecuteMsg,
    chain: ChainAnswers,
) -> Outcome {
    match msg {
        ExecuteMsg::UpdateConfig {
            new_owner,
            new_cw20_address,
            new_native_token,
            new_cw20_staking_address,
        } => state.update_config(
            sender,
            text_of(new_owner),
            text_of(new_cw20_address),
            text_of(new_native_token),
            text_of(new_cw20_staking_address),
        ),
        ExecuteMsg::CreateNewStage {
            total_amount,
            snapshot_block,
            expiration,
            start,
        } => state.create_new_stage(
            env.block,
            sender,
            total_amount,
            snapshot_block,
            expiration,
            start,
        ),
        ExecuteMsg::Pause { stage } => state.pause(env.block, sender, stage),
        ExecuteMsg::Claim { stage } => state.claim(env.block, sender, stage, chain),
        ExecuteMsg::LockContract {  } => state.lock(sender),
        ExecuteMsg::Withdraw { stage, address } => state.withdraw(
            env.block,
            sender,
            stage,
            address@,
            chain.balance,
        ),
        ExecuteMsg::WithdrawAll { address, amount } => state.withdraw_all(
            env.block,
            sender,
            address@,
            amount,
            chain.balance,
        ),
    }
}

/// Handles a message that changes the contract, given what the chain
/// answers to the questions that handling it raises.
pub fn execute(deps: &mut Store, env: Env, info: MessageInfo, msg: ExecuteMsg, chain: ChainAnswers)
    -> (result: Result<Response, ContractError>)
    ensures
        ends_as(executed(old(deps)@, env, info.sender@, msg, chain), final(deps)@, result),
        result is Err ==> final(deps)@ == old(deps)@,
{
    match msg {
        ExecuteMsg::UpdateConfig {
            new_owner,
            new_cw20_address,
            new_native_token,
            new_cw20_staking_address,
        } => execute_update_config(
            deps,
            env,
            info,
            new_owner,
            new_cw20_address,
            new_native_token,
            new_cw20_staking_address,
        ),
        ExecuteMsg::CreateNewStage {
            total_amount,
            snapshot_block,
            expiration,
            start,
        } => execute_create_new_stage(
            deps,
            env,
            info,
            total_amount,
            snapshot_block,
            expiration,
            start,
        ),
        ExecuteMsg::Pause { stage } => execute_pause(deps, env, info, stage),
        ExecuteMsg::Claim { stage } => execute_claim(deps, env, info, stage, chain),
        ExecuteMsg::LockContract {  } => execute_lock_contract(deps, env, info),
        ExecuteMsg::Withdraw { stage, address } => execute_withdraw(
            deps,
            env,
            info,
            stage,
            address,
            chain,
        ),
        ExecuteMsg::WithdrawAll { address, amount } => execute_withdraw_all(
            deps,
            env,
            info,
            address,
            amount,
            chain,
        ),
    }
}

/// The settings. Fails with `NotFound` before the contract is set up.
pub fn query_config(deps: &Store) -> (result: Result<ConfigResponse, ContractError>)
    ensures
        match deps@.config {
            Some(config) => result is Ok && text_of(result->Ok_0.owner) == config.owner
                && result->Ok_0.cw20_token_address@ == config.cw20_token_address
                && result->Ok_0.native_token@ == config.native_token
                && result->Ok_0.cw20_staking_address@ == config.cw20_staking_address,
            None => result is Err && result->Err_0 == (ContractError::NotFound {  }),
        },
{
    match &deps.config() {
        Some(cfg) => Ok(
            ConfigResponse {
                owner: copy_of_named(&cfg.owner),
                cw20_token_address: copy_of(&cfg.cw20_token_address),
                native_token: copy_of(&cfg.native_token),
                cw20_staking_address: copy_of(&cfg.cw20_staking_address),
            },
        ),
        None => Err(ContractError::NotFound {  }),
    }
}

/// The number of the latest stage. Fails with `NotFound` before the contract
/// is set up.
pub fn query_latest_stage(deps: &Store) -> (result: Result<LatestStageResponse, ContractError>)
    ensures
        result == (match deps@.latest_stage {
            Some(latest_stage) => Ok(LatestStageResponse { latest_stage }),
            None => Err(ContractError::NotFound {  }),
        }),
{
    match deps.latest() {
        Some(latest_stage) => Ok(LatestStageResponse { latest_stage }),
        None => Err(ContractError::NotFound {  }),
    }
}

/// The block whose stakes count for `stage`. Fails with `NotFound` where the
/// stage does not exist.
pub fn query_stage_block(deps: &Store, stage: u8) -> (result: Result<
    StageBlockResponse,
    ContractError,
>)
    ensures
        result == (match deps@.stage(stage) {
            Some(record) => Ok(StageBlockResponse { stage_block: record.height }),
            None => Err(ContractError::NotFound {  }),
        }),
{
    match deps.stage(stage) {
        Some(record) => Ok(StageBlockResponse { stage_block: record.height }),
        None => Err(ContractError::NotFound {  }),
    }
}

/// Whether `address` has claimed its share of `stage`. Always succeeds.
pub fn query_is_claimed(deps: &Store, stage: u8, address: String) -> (result: Result<
    IsClaimedResponse,
    ContractError,
>)
    ensures
        result == Ok::<IsClaimedResponse, ContractError>(
            IsClaimedResponse {
                is_claimed: deps@.claims.contains_key((address@, stage)) && deps@.claims[(
                    address@,
                    stage,
                )],
            },
        ),
{
    proof {
        use_type_invariant(deps);
    }
    if address.as_str().unicode_len() > MAX_ADDRESS_LENGTH {
        return Ok(IsClaimedResponse { is_claimed: false });
    }
    let is_claimed = match claim_may_load(&deps.storage, address.as_str(), stage) {
        Some(claimed) => claimed,
        None => false,
    };
    Ok(IsClaimedResponse { is_claimed })
}

/// What was claimed of `stage` so far. Fails with `NotFound` where the stage
/// does not exist.
pub fn query_total_claimed(deps: &Store, stage: u8) -> (result: Result<
    TotalClaimedResponse,
    ContractError,
>)
    ensures
        result == (match deps@.stage(stage) {
            Some(record) => Ok(TotalClaimedResponse { total_claimed: record.claimed }),
            None => Err(ContractError::NotFound {  }),
        }),
{
    match deps.stage(stage) {
        Some(record) => Ok(TotalClaimedResponse { total_claimed: record.claimed }),
        None => Err(ContractError::NotFound {  }),
    }
}

/// Whether `stage` is paused; a stage that does not exist is not. Always
/// succeeds.
pub fn query_is_paused(deps: &Store, stage: u8) -> (result: Result<IsPausedResponse, ContractError>)
    ensures
        result == Ok::<IsPausedResponse, ContractError>(
            IsPausedResponse {
                is_paused: match deps@.stage(stage) {
                    Some(record) => record.paused,
                    None => false,
                },
            },
        ),
{
    let is_paused = match deps.stage(stage) {
        Some(record) => record.paused,
        None => false,
    };
    Ok(IsPausedResponse { is_paused })
}

/// Whether `result` answers the question `msg` asked of `state`.
pub open spec fn answers(state: StateView, msg: QueryMsg, result: Result<
    QueryResponse,
    ContractError,
>) -> bool {
    match msg {
        QueryMsg::Config {  } => match state.config {
            Some(config) => result matches Ok(QueryResponse::Config(response)) && text_of(
                response.owner,
            ) == config.owner && response.cw20_token_address@ == config.cw20_token_address
                && response.native_token@ == config.native_token && response.cw20_staking_address@
                == config.cw20_staking_address,
            None => result is Err && result->Err_0 == (ContractError::NotFound {  }),
        },
        QueryMsg::LatestStage {  } => match state.latest_stage {
            Some(latest_stage) => result matches Ok(QueryResponse::LatestStage(response))
                && response.latest_stage == latest_stage,
            None => result is Err && result->Err_0 == (ContractError::NotFound {  }),
        },
        QueryMsg::StageBlock { stage } => match state.stage(stage) {
            Some(record) => result matches Ok(QueryResponse::StageBlock(response))
                && response.stage_block == record.height,
            None => result is Err && result->Err_0 == (ContractError::NotFound {  }),
        },
        QueryMsg::IsClaimed { stage, address } => result matches Ok(
            QueryResponse::IsClaimed(response),
        ) && response.is_claimed == (state.claims.contains_key((address@, stage))
            && state.claims[(address@, stage)]),
        QueryMsg::TotalClaimed { stage } => match state.stage(stage) {
            Some(record) => result matches Ok(QueryResponse::TotalClaimed(response))
                && response.total_claimed == record.claimed,
            None => result is Err && result->Err_0 == (ContractError::NotFound {  }),
        },
        QueryMsg::IsPaused { stage } => result matches Ok(QueryResponse::IsPaused(response))
            && response.is_paused == (match state.stage(stage) {
            Some(record) => record.paused,
            None => false,
        }),
    }
}

/// Answers a question about the contract.
pub fn query(deps: &Store, env: Env, msg: QueryMsg) -> (result: Result<QueryResponse, ContractError>)
    ensures
        answers(deps@, msg, result),
{
    match msg {
        QueryMsg::Config {  } => match query_config(deps) {
            Ok(response) => Ok(QueryResponse::Config(response)),
            Err(error) => Err(error),
        },
        QueryMsg::LatestStage {  } => match query_latest_stage(deps) {
            Ok(response) => Ok(QueryResponse::LatestStage(response)),
            Err(error) => Err(error),
        },
        QueryMsg::StageBlock { stage } => match query_stage_block(deps, stage) {
            Ok(response) => Ok(QueryResponse::StageBlock(response)),
            Err(error) => Err(error),
        },
        QueryMsg::IsClaimed { stage, address } => match query_is_claimed(deps, stage, address) {
            Ok(response) => Ok(QueryResponse::IsClaimed(response)),
            Err(error) => Err(error),
        },
        QueryMsg::TotalClaimed { stage } => match query_total_claimed(deps, stage) {
            Ok(response) => Ok(QueryResponse::TotalClaimed(response)),
            Err(error) => Err(error),
        },
        QueryMsg::IsPaused { stage } => match query_is_paused(deps, stage) {
            Ok(response) => Ok(QueryResponse::IsPaused(response)),
            Err(error) => Err(error),
        },
    }
}

} // verus!
