use crate::context::ContractVersion;
use crate::context::Env;
use crate::context::MessageInfo;
use crate::response::AttributeValue;
use crate::response::Message;
use crate::response::Response;
use crate::response::ResponseView;
use crate::text::copy_of;
use crate::text::copy_of_named;
use crate::text::named_or_copy;
use crate::text::text_of;
use crate::voting_power::error::ContractError;
use crate::voting_power::model::absolute_count_refused;
use crate::voting_power::model::power_of;
use crate::voting_power::model::reaches;
use crate::voting_power::model::supply_of;
use crate::voting_power::model::total_power_of;
use crate::voting_power::model::Outcome;
use crate::voting_power::model::INSTANTIATE_STAKING_REPLY_ID;
use crate::voting_power::model::INSTANTIATE_TOKEN_REPLY_ID;
use crate::voting_power::model::INSTANTIATE_VESTING_REPLY_ID;
use crate::voting_power::msg::coins_of;
use crate::voting_power::msg::ActiveThresholdResponse;
use crate::voting_power::msg::Cw20Coin;
use crate::voting_power::msg::Duration;
use crate::voting_power::msg::ExecuteMsg;
use crate::voting_power::msg::InfoResponse;
use crate::voting_power::msg::InitMsg;
use crate::voting_power::msg::InstantiateMsg;
use crate::voting_power::msg::Instantiation;
use crate::voting_power::msg::IsActiveResponse;
use crate::voting_power::msg::MigrateMsg;
use crate::voting_power::msg::QueryMsg;
use crate::voting_power::msg::QueryResponse;
use crate::voting_power::msg::Reply;
use crate::voting_power::msg::StakingInfo;
use crate::voting_power::msg::TokenInfo;
use crate::voting_power::msg::TotalPowerAtHeightResponse;
use crate::voting_power::msg::VestingInfo;
use crate::voting_power::msg::VotingPowerAtHeightResponse;
use crate::voting_power::parse::instantiated_address;
use crate::voting_power::parse::parse_instantiated_address;
use crate::voting_power::state::ChainAnswers;
use crate::voting_power::state::State;
use crate::voting_power::state::StateView;
use crate::voting_power::threshold::reaches_percent;
use crate::voting_power::threshold::ActiveThreshold;
use crate::voting_power::threshold::DECIMAL_FRACTIONAL;
use vstd::prelude::*;

verus! {

/// The name under which the module records its version.
pub const CONTRACT_NAME: &'static str = "crates.io:cw20-staked-balance-voting";

/// The version that the module records.
pub const CONTRACT_VERSION: &'static str = "0.1.0";

/// The name and the version that this code records when it sets a module up
/// or migrates it.
pub open spec fn code_version() -> (Seq<char>, Seq<char>) {
    ("crates.io:cw20-staked-balance-voting"@, "0.1.0"@)
}

/// Whether a call that should end as `outcome` did: the module remembers
/// what it should, and the caller was told what it should be told.
pub open spec fn ends_as(outcome: Outcome, state: StateView, result: Result<Response, ContractError>)
    -> bool {
    &&& state == outcome.state
    &&& match outcome.result {
        Ok(response) => result is Ok && result->Ok_0@ == response,
        Err(error) => result is Err && result->Err_0 == error,
    }
}

/// The version that this code records.
fn this_version() -> (version: ContractVersion)
    ensures
        (version.contract@, version.version@) == code_version(),
{
    ContractVersion {
        contract: String::from_str(CONTRACT_NAME),
        version: String::from_str(CONTRACT_VERSION),
    }
}

/// Whether the threshold is a percentage that cannot stand.
fn percentage_is_refused(threshold: &Option<ActiveThreshold>) -> (refused: bool)
    ensures
        refused == crate::voting_power::model::percentage_refused(*threshold),
{
    match threshold {
        Some(ActiveThreshold::Percentage { percent }) => percent.atomics > DECIMAL_FRACTIONAL
            || percent.atomics == 0,
        _ => false,
    }
}

/// Holds a threshold that is a count against the supply of the token.
pub fn assert_valid_absolute_count_threshold(chain: &ChainAnswers, count: u128) -> (result: Result<
    (),
    ContractError,
>)
    ensures
        result == (match absolute_count_refused(count, chain.total_supply) {
            Some(error) => Err(error),
            None => Ok(()),
        }),
{
    match chain.total_supply {
        None => Err(ContractError::QueryFailed {  }),
        Some(total_supply) => {
            if count > total_supply {
                return Err(ContractError::InvalidAbsoluteCount {  });
            }
            Ok(())
        },
    }
}

/// Holds the threshold against the supply of the token where it is a count.
fn check_count(threshold: &Option<ActiveThreshold>, chain: &ChainAnswers) -> (result: Result<
    (),
    ContractError,
>)
    ensures
        result == (match crate::voting_power::model::count_refused(*threshold, chain.total_supply) {
            Some(error) => Err(error),
            None => Ok(()),
        }),
{
    match threshold {
        Some(ActiveThreshold::AbsoluteCount { count }) => assert_valid_absolute_count_threshold(
            chain,
            *count,
        ),
        _ => Ok(()),
    }
}

/// The instruction to set up a staking contract.
fn staking_message(
    code_id: u64,
    owner: &String,
    label: &String,
    unstaking_duration: Option<Duration>,
    token_address: &String,
) -> (message: Message)
    ensures
        message@ == crate::voting_power::model::staking_instantiation(
            code_id,
            owner@,
            label@,
            unstaking_duration,
            token_address@,
        ),
{
    Message::Instantiate(
        Instantiation {
            reply_id: INSTANTIATE_STAKING_REPLY_ID,
            code_id,
            admin: Some(copy_of(owner)),
            label: copy_of(label),
            init: InitMsg::Cw20Stake {
                owner: Some(copy_of(owner)),
                unstaking_duration,
                token_address: copy_of(token_address),
                manager: None,
            },
        },
    )
}

/// The instruction to set up a vesting contract.
fn vesting_message(
    code_id: u64,
    admin: &String,
    label: &String,
    owner: String,
    token_address: &String,
) -> (message: Message)
    ensures
        message@ == crate::voting_power::model::vesting_instantiation(
            code_id,
            admin@,
            label@,
            owner@,
            token_address@,
        ),
{
    Message::Instantiate(
        Instantiation {
            reply_id: INSTANTIATE_VESTING_REPLY_ID,
            code_id,
            admin: Some(copy_of(admin)),
            label: copy_of(label),
            init: InitMsg::CustomVesting {
                owner_address: Some(owner),
                token_address: copy_of(token_address),
            },
        },
    )
}

/// The sum of the amounts of the balances, or nothing where it does not fit
/// in 128 bits.
fn initial_supply(balances: &Vec<Cw20Coin>) -> (supply: Option<u128>)
    ensures
        0 <= supply_of(balances@),
        supply == (if supply_of(balances@) <= u128::MAX {
            Some(supply_of(balances@) as u128)
        } else {
            None
        }),
{
    proof {
        lemma_supply_nonnegative(balances@);
    }
    let mut supply: u128 = 0;
    let mut i: usize = 0;
    while i < balances.len()
        invariant
            i <= balances.len(),
            supply == supply_of(balances@.take(i as int)),
        decreases balances.len() - i,
    {
        proof {
            assert(balances@.take(i + 1).drop_last() =~= balances@.take(i as int));
            lemma_supply_grows(balances@, i + 1);
        }
        if balances[i].amount > u128::MAX - supply {
            return None;
        }
        supply = supply + balances[i].amount;
        i += 1;
    }
    proof {
        assert(balances@.take(i as int) =~= balances@);
    }
    Some(supply)
}

/// The amounts of a part of the balances add up to no more than those of
/// all.
proof fn lemma_supply_grows(balances: Seq<Cw20Coin>, count: int)
    requires
        0 <= count <= balances.len(),
    ensures
        0 <= supply_of(balances.take(count)) <= supply_of(balances),
    decreases balances.len() - count,
{
    if count == balances.len() {
        assert(balances.take(count) =~= balances);
        lemma_supply_nonnegative(balances);
    } else {
        lemma_supply_grows(balances, count + 1);
        lemma_supply_nonnegative(balances.take(count));
        assert(balances.take(count + 1).drop_last() =~= balances.take(count));
    }
}

/// A sum of amounts is not negative.
proof fn lemma_supply_nonnegative(balances: Seq<Cw20Coin>)
    ensures
        0 <= supply_of(balances),
    decreases balances.len(),
{
    if balances.len() > 0 {
        lemma_supply_nonnegative(balances.drop_last());
    }
}

/// Deals with a token that exists while the module is set up.
fn instantiate_existing(
    deps: &mut State,
    info: &MessageInfo,
    address: String,
    staking_contract: StakingInfo,
    vesting_contract: VestingInfo,
    threshold: Option<ActiveThreshold>,
    chain: &ChainAnswers,
) -> (result: Result<Response, ContractError>)
    ensures
        ends_as(
            old(deps)@.instantiate_existing(
                info.sender@,
                address@,
                staking_contract,
                vesting_contract,
                threshold,
                *chain,
            ),
            final(deps)@,
            result,
        ),
{
    deps.token = Some(copy_of(&address));
    match check_count(&threshold, chain) {
        Ok(()) => {},
        Err(error) => {
            return Err(error);
        },
    }
    let mut staking_msg: Option<Message> = None;
    let mut staking_contract_addr: Option<String> = None;
    match staking_contract {
        StakingInfo::Existing { staking_contract_address } => {
            match &chain.staking_token_address {
                None => {
                    return Err(ContractError::QueryFailed {  });
                },
                Some(token_address) => {
                    if address != *token_address {
                        return Err(ContractError::StakingContractMismatch {  });
                    }
                },
            }
            deps.staking_contract = Some(copy_of(&staking_contract_address));
            staking_contract_addr = Some(staking_contract_address);
        },
        StakingInfo::New { staking_code_id, unstaking_duration } => {
            staking_msg = Some(
                staking_message(
                    staking_code_id,
                    &info.sender,
                    &chain.contract_address,
                    unstaking_duration,
                    &address,
                ),
            );
        },
    }
    let named = Response::new().add_attribute(
        "action",
        AttributeValue::Text(String::from_str("instantiate")),
    ).add_attribute("token", AttributeValue::Text(String::from_str("existing_token")))
        .add_attribute("token_address", AttributeValue::Text(copy_of(&address)));
    match vesting_contract {
        VestingInfo::Existing { vesting_contract_address } => {
            match &chain.vesting_token_address {
                None => {
                    return Err(ContractError::QueryFailed {  });
                },
                Some(token_address) => {
                    if address != *token_address {
                        return Err(ContractError::VestingContractMismatch {  });
                    }
                },
            }
            deps.vesting_contract = Some(copy_of(&vesting_contract_address));
            let vested = named.add_attribute(
                "vesting_contract",
                AttributeValue::Text(String::from_str("existing_vesting_contract")),
            ).add_attribute(
                "vesting_contract_address",
                AttributeValue::Text(vesting_contract_address),
            );
            match (staking_msg, staking_contract_addr) {
                (Some(msg), _) => Ok(vested.add_message(msg)),
                (None, Some(staking_contract_address)) => Ok(
                    vested.add_attribute(
                        "staking_contract",
                        AttributeValue::Text(String::from_str("existing_staking_contract")),
                    ).add_attribute(
                        "staking_contract_address",
                        AttributeValue::Text(staking_contract_address),
                    ),
                ),
                (None, None) => Ok(vested),
            }
        },
        VestingInfo::New { vesting_code_id, owner_address } => {
            let owner = named_or_copy(owner_address, &info.sender);
            let vesting_msg = vesting_message(
                vesting_code_id,
                &info.sender,
                &chain.contract_address,
                owner,
                &address,
            );
            match (staking_msg, staking_contract_addr) {
                (Some(msg), _) => Ok(named.add_message(msg).add_message(vesting_msg)),
                (None, Some(staking_contract_address)) => Ok(
                    named.add_attribute(
                        "staking_contract",
                        AttributeValue::Text(String::from_str("existing_staking_contract")),
                    ).add_attribute(
                        "staking_contract_address",
                        AttributeValue::Text(staking_contract_address),
                    ).add_message(vesting_msg),
                ),
                (None, None) => Ok(named.add_message(vesting_msg)),
            }
        },
    }
}

/// Deals with a token that is to be created while the module is set up.
fn instantiate_new(deps: &mut State, info: &MessageInfo, token_info: TokenInfo, chain: &ChainAnswers)
    -> (result: Result<Response, ContractError>)
    requires
        token_info is New,
    ensures
        ends_as(
            old(deps)@.instantiate_new(info.sender@, token_info, *chain),
            final(deps)@,
            result,
        ),
{
    match token_info {
        TokenInfo::New {
            code_id,
            label,
            name,
            symbol,
            decimals,
            initial_balances,
            initial_dao_balance,
            marketing,
            staking_code_id,
            unstaking_duration,
            vesting_code_id,
            vesting_owner_address,
        } => {
            let supply = match initial_supply(&initial_balances) {
                Some(supply) => supply,
                None => {
                    return Err(ContractError::Overflow {  });
                },
            };
            // Without initial token owners the DAO would be locked at once.
            if supply == 0 {
                return Err(ContractError::InitialBalancesError {  });
            }
            // Add DAO initial balance to initial_balances vector if defined.
            let mut initial_balances = initial_balances;
            let ghost given = initial_balances@;
            if let Some(initial_dao_balance) = initial_dao_balance {
                if initial_dao_balance > 0 {
                    initial_balances.push(
                        Cw20Coin { address: copy_of(&info.sender), amount: initial_dao_balance },
                    );
                    proof {
                        assert(coins_of(initial_balances@) =~= coins_of(given).push(
                            crate::voting_power::msg::CoinView {
                                address: info.sender@,
                                amount: initial_dao_balance,
                            },
                        ));
                    }
                }
            }
            let vesting_owner = named_or_copy(vesting_owner_address, &info.sender);

            deps.staking_contract_code_id = Some(staking_code_id);
            deps.staking_contract_unstaking_duration = Some(unstaking_duration);
            deps.vesting_contract_code_id = Some(vesting_code_id);
            deps.vesting_contract_owner = Some(vesting_owner);

            let msg = Message::Instantiate(
                Instantiation {
                    reply_id: INSTANTIATE_TOKEN_REPLY_ID,
                    code_id,
                    admin: Some(copy_of(&info.sender)),
                    label,
                    init: InitMsg::Cw20Base {
                        name,
                        symbol,
                        decimals,
                        initial_balances,
                        minter: copy_of(&info.sender),
                        marketing,
                    },
                },
            );
            Ok(
                Response::new().add_attribute(
                    "action",
                    AttributeValue::Text(String::from_str("instantiate")),
                ).add_attribute("token", AttributeValue::Text(String::from_str("new_token")))
                    .add_message(msg),
            )
        },
        _ => Err(ContractError::NotFound {  }),
    }
}

/// Sets the module up, given what the chain answers about the token and the
/// contracts that the message names. Where that fails, nothing changes.
pub fn instantiate(
    deps: &mut State,
    env: Env,
    info: MessageInfo,
    msg: InstantiateMsg,
    chain: ChainAnswers,
) -> (result: Result<Response, ContractError>)
    ensures
        ends_as(
            old(deps)@.instantiate(code_version(), info.sender@, msg, chain),
            final(deps)@,
            result,
        ),
        result is Err ==> final(deps)@ == old(deps)@,
{
    let before = deps.copy();
    let result = instantiate_steps(deps, env, info, msg, chain);
    if result.is_err() {
        *deps = before;
    }
    result
}

/// The steps of setting the module up. Where one fails, `deps` is left as far
/// as the steps had come.
fn instantiate_steps(
    deps: &mut State,
    env: Env,
    info: MessageInfo,
    msg: InstantiateMsg,
    chain: ChainAnswers,
) -> (result: Result<Response, ContractError>)
    ensures
        ends_as(
            old(deps)@.instantiate_steps(code_version(), info.sender@, msg, chain),
            final(deps)@,
            result,
        ),
{
    deps.version = Some(this_version());
    deps.dao = Some(copy_of(&info.sender));
    if percentage_is_refused(&msg.active_threshold) {
        return Err(ContractError::InvalidActivePercentage {  });
    }
    if let Some(active_threshold) = msg.active_threshold {
        deps.active_threshold = Some(active_threshold);
    }
    match msg.token_info {
        TokenInfo::Existing { address, staking_contract, vesting_contract } => instantiate_existing(
            deps,
            &info,
            address,
            staking_contract,
            vesting_contract,
            msg.active_threshold,
            &chain,
        ),
        token_info => instantiate_new(deps, &info, token_info, &chain),
    }
}

/// How a call with the message `msg` should end.
pub open spec fn executed(state: StateView, sender: Seq<char>, msg: ExecuteMsg, chain: ChainAnswers)
    -> Outcome {
    match msg {
        ExecuteMsg::UpdateActiveThreshold { new_threshold } => state.update_active_threshold(
            sender,
            new_threshold,
            chain,
        ),
    }
}

/// Handles a message that changes the module.
pub fn execute(deps: &mut State, env: Env, info: MessageInfo, msg: ExecuteMsg, chain: ChainAnswers)
    -> (result: Result<Response, ContractError>)
    ensures
        ends_as(executed(old(deps)@, info.sender@, msg, chain), final(deps)@, result),
        result is Err ==> final(deps)@ == old(deps)@,
{
    match msg {
        ExecuteMsg::UpdateActiveThreshold { new_threshold } => execute_update_active_threshold(
            deps,
            env,
            info,
            new_threshold,
            chain,
        ),
    }
}

/// Sets the threshold, or drops it where none is given.
pub fn execute_update_active_threshold(
    deps: &mut State,
    env: Env,
    info: MessageInfo,
    new_active_threshold: Option<ActiveThreshold>,
    chain: ChainAnswers,
) -> (result: Result<Response, ContractError>)
    ensures
        ends_as(
            old(deps)@.update_active_threshold(info.sender@, new_active_threshold, chain),
            final(deps)@,
            result,
        ),
{
    match &deps.dao {
        None => {
            return Err(ContractError::NotFound {  });
        },
        Some(dao) => {
            if info.sender != *dao {
                return Err(ContractError::Unauthorized {  });
            }
        },
    }
    if let Some(active_threshold) = new_active_threshold {
        match active_threshold {
            ActiveThreshold::Percentage { percent } => {
                if percent.atomics > DECIMAL_FRACTIONAL || percent.atomics == 0 {
                    return Err(ContractError::InvalidActivePercentage {  });
                }
            },
            ActiveThreshold::AbsoluteCount { count } => {
                if deps.token.is_none() {
                    return Err(ContractError::NotFound {  });
                }
                match assert_valid_absolute_count_threshold(&chain, count) {
                    Ok(()) => {},
                    Err(error) => {
                        return Err(error);
                    },
                }
            },
        }
        deps.active_threshold = Some(active_threshold);
    } else {
        deps.active_threshold = None;
    }
    Ok(
        Response::new().add_attribute(
            "action",
            AttributeValue::Text(String::from_str("update_active_threshold")),
        ),
    )
}

/// The address stored in `entry`, or `NotFound` where none is.
fn stored(entry: &Option<String>) -> (result: Result<String, ContractError>)
    ensures
        match text_of(*entry) {
            Some(address) => result is Ok && result->Ok_0@ == address,
            None => result is Err && result->Err_0 == (ContractError::NotFound {  }),
        },
{
    match entry {
        Some(address) => Ok(copy_of(address)),
        None => Err(ContractError::NotFound {  }),
    }
}

/// The governance token. Fails with `NotFound` where none is stored.
pub fn query_token_contract(deps: &State) -> (result: Result<String, ContractError>)
    ensures
        match deps@.token {
            Some(address) => result is Ok && result->Ok_0@ == address,
            None => result is Err && result->Err_0 == (ContractError::NotFound {  }),
        },
{
    stored(&deps.token)
}

/// The staking contract. Fails with `NotFound` where none is stored.
pub fn query_staking_contract(deps: &State) -> (result: Result<String, ContractError>)
    ensures
        match deps@.staking_contract {
            Some(address) => result is Ok && result->Ok_0@ == address,
            None => result is Err && result->Err_0 == (ContractError::NotFound {  }),
        },
{
    stored(&deps.staking_contract)
}

/// The vesting contract. Fails with `NotFound` where none is stored.
pub fn query_vesting_contract(deps: &State) -> (result: Result<String, ContractError>)
    ensures
        match deps@.vesting_contract {
            Some(address) => result is Ok && result->Ok_0@ == address,
            None => result is Err && result->Err_0 == (ContractError::NotFound {  }),
        },
{
    stored(&deps.vesting_contract)
}

/// The voting power of `address` as the two contracts report it: what it has
/// staked plus what it can claim of what has vested, as of the height that
/// the staking contract answers for.
pub fn query_voting_power_at_height(
    deps: &State,
    env: Env,
    address: String,
    height: Option<u64>,
    chain: &ChainAnswers,
) -> (result: Result<VotingPowerAtHeightResponse, ContractError>)
    ensures
        result == (if deps@.staking_contract is None || deps@.vesting_contract is None {
            Err(ContractError::NotFound {  })
        } else {
            match (chain.staked_balance, chain.vesting_claimable) {
                (Some(staked), Some(claimable)) => Ok(
                    VotingPowerAtHeightResponse {
                        power: power_of(staked.0, claimable),
                        height: staked.1,
                    },
                ),
                _ => Err(ContractError::QueryFailed {  }),
            }
        }),
{
    if deps.staking_contract.is_none() {
        return Err(ContractError::NotFound {  });
    }
    if deps.vesting_contract.is_none() {
        return Err(ContractError::NotFound {  });
    }
    let staking_res: (u128, u64) = match chain.staked_balance {
        Some(staking_res) => staking_res,
        None => {
            return Err(ContractError::QueryFailed {  });
        },
    };
    let vesting_balance: u128 = match chain.vesting_claimable {
        Some(claimable) => claimable,
        None => {
            return Err(ContractError::QueryFailed {  });
        },
    };
    let staking_balance: u128 = staking_res.0;
    let power: u128 = if staking_balance > u128::MAX - vesting_balance {
        0
    } else {
        staking_balance + vesting_balance
    };
    Ok(VotingPowerAtHeightResponse { power, height: staking_res.1 })
}

/// The voting power that is staked and vested in all, or nothing where the
/// sum does not fit.
fn total_power(staked: u128, vested: u128, claimed: u128) -> (power: u128)
    ensures
        power == total_power_of(staked, vested, claimed),
{
    let vesting_power: u128 = if claimed > vested {
        0
    } else {
        vested - claimed
    };
    if staked > u128::MAX - vesting_power {
        0
    } else {
        staked + vesting_power
    }
}

/// The voting power there is in all as the two contracts report it: what is
/// staked plus what is vested and not claimed, as of the height that the
/// staking contract answers for.
pub fn query_total_power_at_height(
    deps: &State,
    env: Env,
    height: Option<u64>,
    chain: &ChainAnswers,
) -> (result: Result<TotalPowerAtHeightResponse, ContractError>)
    ensures
        result == (if deps@.staking_contract is None || deps@.vesting_contract is None {
            Err(ContractError::NotFound {  })
        } else {
            match (chain.total_staked, chain.vesting_total) {
                (Some(staked), Some(vesting)) => Ok(
                    TotalPowerAtHeightResponse {
                        power: total_power_of(staked.0, vesting.0, vesting.1),
                        height: staked.1,
                    },
                ),
                _ => Err(ContractError::QueryFailed {  }),
            }
        }),
{
    if deps.staking_contract.is_none() {
        return Err(ContractError::NotFound {  });
    }
    if deps.vesting_contract.is_none() {
        return Err(ContractError::NotFound {  });
    }
    let staking_res: (u128, u64) = match chain.total_staked {
        Some(staking_res) => staking_res,
        None => {
            return Err(ContractError::QueryFailed {  });
        },
    };
    let vesting_res: (u128, u128) = match chain.vesting_total {
        Some(vesting_res) => vesting_res,
        None => {
            return Err(ContractError::QueryFailed {  });
        },
    };
    Ok(
        TotalPowerAtHeightResponse {
            power: total_power(staking_res.0, vesting_res.0, vesting_res.1),
            height: staking_res.1,
        },
    )
}

/// The name and version that the module recorded. Fails with `NotFound`
/// where it recorded none.
pub fn query_info(deps: &State) -> (result: Result<InfoResponse, ContractError>)
    ensures
        match deps@.version {
            Some(version) => result is Ok && result->Ok_0.info.contract@ == version.0
                && result->Ok_0.info.version@ == version.1,
            None => result is Err && result->Err_0 == (ContractError::NotFound {  }),
        },
{
    match &deps.version {
        Some(version) => Ok(
            InfoResponse {
                info: ContractVersion {
                    contract: copy_of(&version.contract),
                    version: copy_of(&version.version),
                },
            },
        ),
        None => Err(ContractError::NotFound {  }),
    }
}

/// The DAO that the module belongs to. Fails with `NotFound` before the
/// module is set up.
pub fn query_dao(deps: &State) -> (result: Result<String, ContractError>)
    ensures
        match deps@.dao {
            Some(address) => result is Ok && result->Ok_0@ == address,
            None => result is Err && result->Err_0 == (ContractError::NotFound {  }),
        },
{
    stored(&deps.dao)
}

/// What `query_is_active` answers: a module without a threshold is active;
/// one with a threshold needs its three contracts stored and the chain's
/// answers about what is staked and vested in all, and is active where that
/// power reaches the threshold, for which a percentage also needs the supply
/// of the token.
pub open spec fn is_active(state: StateView, chain: ChainAnswers) -> Result<
    IsActiveResponse,
    ContractError,
> {
    match state.active_threshold {
        None => Ok(IsActiveResponse { active: true }),
        Some(threshold) => if state.token is None || state.staking_contract is None
            || state.vesting_contract is None {
            Err(ContractError::NotFound {  })
        } else {
            match (chain.total_staked, chain.vesting_total) {
                (Some(staked), Some(vesting)) => {
                    let power = total_power_of(staked.0, vesting.0, vesting.1);
                    match threshold {
                        ActiveThreshold::AbsoluteCount { count } => Ok(
                            IsActiveResponse { active: power >= count },
                        ),
                        ActiveThreshold::Percentage { percent } => match chain.total_supply {
                            Some(supply) => Ok(
                                IsActiveResponse { active: reaches(power, threshold, supply) },
                            ),
                            None => Err(ContractError::QueryFailed {  }),
                        },
                    }
                },
                _ => Err(ContractError::QueryFailed {  }),
            }
        },
    }
}

/// Whether the module is active.
pub fn query_is_active(deps: &State, chain: &ChainAnswers) -> (result: Result<
    IsActiveResponse,
    ContractError,
>)
    ensures
        result == is_active(deps@, *chain),
{
    let threshold = deps.active_threshold;
    if let Some(threshold) = threshold {
        if deps.token.is_none() {
            return Err(ContractError::NotFound {  });
        }
        if deps.staking_contract.is_none() {
            return Err(ContractError::NotFound {  });
        }
        if deps.vesting_contract.is_none() {
            return Err(ContractError::NotFound {  });
        }
        let staking_power: (u128, u64) = match chain.total_staked {
            Some(staking_power) => staking_power,
            None => {
                return Err(ContractError::QueryFailed {  });
            },
        };
        let vesting_response: (u128, u128) = match chain.vesting_total {
            Some(vesting_response) => vesting_response,
            None => {
                return Err(ContractError::QueryFailed {  });
            },
        };
        let actual_power: u128 = total_power(
            staking_power.0,
            vesting_response.0,
            vesting_response.1,
        );
        match threshold {
            ActiveThreshold::AbsoluteCount { count } => Ok(
                IsActiveResponse { active: actual_power >= count },
            ),
            ActiveThreshold::Percentage { percent } => {
                let total_supply: u128 = match chain.total_supply {
                    Some(total_supply) => total_supply,
                    None => {
                        return Err(ContractError::QueryFailed {  });
                    },
                };
                Ok(IsActiveResponse { active: reaches_percent(actual_power, total_supply, percent) })
            },
        }
    } else {
        Ok(IsActiveResponse { active: true })
    }
}

/// The threshold, if there is one. Always succeeds.
pub fn query_active_threshold(deps: &State) -> (result: Result<
    ActiveThresholdResponse,
    ContractError,
>)
    ensures
        result == Ok::<ActiveThresholdResponse, ContractError>(
            ActiveThresholdResponse { active_threshold: deps@.active_threshold },
        ),
{
    Ok(ActiveThresholdResponse { active_threshold: deps.active_threshold })
}

/// Whether `result` answers with the address stored in `entry`.
pub open spec fn answers_address(entry: Option<Seq<char>>, result: Result<
    QueryResponse,
    ContractError,
>) -> bool {
    match entry {
        Some(address) => result matches Ok(QueryResponse::Address(found)) && found@ == address,
        None => result is Err && result->Err_0 == (ContractError::NotFound {  }),
    }
}

/// Whether `result` answers the question `msg` asked of `state`.
pub open spec fn answers(state: StateView, msg: QueryMsg, chain: ChainAnswers, result: Result<
    QueryResponse,
    ContractError,
>) -> bool {
    match msg {
        QueryMsg::TokenContract {  } => answers_address(state.token, result),
        QueryMsg::StakingContract {  } => answers_address(state.staking_contract, result),
        QueryMsg::VestingContract {  } => answers_address(state.vesting_contract, result),
        QueryMsg::Dao {  } => answers_address(state.dao, result),
        QueryMsg::VotingPowerAtHeight { address, height } => if state.staking_contract is None
            || state.vesting_contract is None {
            result is Err && result->Err_0 == (ContractError::NotFound {  })
        } else {
            match (chain.staked_balance, chain.vesting_claimable) {
                (Some(staked), Some(claimable)) => result == Ok::<QueryResponse, ContractError>(
                    QueryResponse::VotingPowerAtHeight(
                        VotingPowerAtHeightResponse {
                            power: power_of(staked.0, claimable),
                            height: staked.1,
                        },
                    ),
                ),
                _ => result is Err && result->Err_0 == (ContractError::QueryFailed {  }),
            }
        },
        QueryMsg::TotalPowerAtHeight { height } => if state.staking_contract is None
            || state.vesting_contract is None {
            result is Err && result->Err_0 == (ContractError::NotFound {  })
        } else {
            match (chain.total_staked, chain.vesting_total) {
                (Some(staked), Some(vesting)) => result == Ok::<QueryResponse, ContractError>(
                    QueryResponse::TotalPowerAtHeight(
                        TotalPowerAtHeightResponse {
                            power: total_power_of(staked.0, vesting.0, vesting.1),
                            height: staked.1,
                        },
                    ),
                ),
                _ => result is Err && result->Err_0 == (ContractError::QueryFailed {  }),
            }
        },
        QueryMsg::Info {  } => match state.version {
            Some(version) => result matches Ok(QueryResponse::Info(response))
                && response.info.contract@ == version.0 && response.info.version@ == version.1,
            None => result is Err && result->Err_0 == (ContractError::NotFound {  }),
        },
        QueryMsg::IsActive {  } => match is_active(state, chain) {
            Ok(response) => result == Ok::<QueryResponse, ContractError>(
                QueryResponse::IsActive(response),
            ),
            Err(error) => result is Err && result->Err_0 == error,
        },
        QueryMsg::ActiveThreshold {  } => result == Ok::<QueryResponse, ContractError>(
            QueryResponse::ActiveThreshold(
                ActiveThresholdResponse { active_threshold: state.active_threshold },
            ),
        ),
    }
}

/// Answers a question about the module, given what the chain answers to the
/// questions that answering it raises.
pub fn query(deps: &State, env: Env, msg: QueryMsg, chain: ChainAnswers) -> (result: Result<
    QueryResponse,
    ContractError,
>)
    ensures
        answers(deps@, msg, chain, result),
{
    match msg {
        QueryMsg::TokenContract {  } => match query_token_contract(deps) {
            Ok(address) => Ok(QueryResponse::Address(address)),
            Err(error) => Err(error),
        },
        QueryMsg::StakingContract {  } => match query_staking_contract(deps) {
            Ok(address) => Ok(QueryResponse::Address(address)),
            Err(error) => Err(error),
        },
        QueryMsg::VestingContract {  } => match query_vesting_contract(deps) {
            Ok(address) => Ok(QueryResponse::Address(address)),
            Err(error) => Err(error),
        },
        QueryMsg::VotingPowerAtHeight { address, height } => match query_voting_power_at_height(
            deps,
            env,
            address,
            height,
            &chain,
        ) {
            Ok(response) => Ok(QueryResponse::VotingPowerAtHeight(response)),
            Err(error) => Err(error),
        },
        QueryMsg::TotalPowerAtHeight { height } => match query_total_power_at_height(
            deps,
            env,
            height,
            &chain,
        ) {
            Ok(response) => Ok(QueryResponse::TotalPowerAtHeight(response)),
            Err(error) => Err(error),
        },
        QueryMsg::Info {  } => match query_info(deps) {
            Ok(response) => Ok(QueryResponse::Info(response)),
            Err(error) => Err(error),
        },
        QueryMsg::Dao {  } => match query_dao(deps) {
            Ok(address) => Ok(QueryResponse::Address(address)),
            Err(error) => Err(error),
        },
        QueryMsg::IsActive {  } => match query_is_active(deps, &chain) {
            Ok(response) => Ok(QueryResponse::IsActive(response)),
            Err(error) => Err(error),
        },
        QueryMsg::ActiveThreshold {  } => match query_active_threshold(deps) {
            Ok(response) => Ok(QueryResponse::ActiveThreshold(response)),
            Err(error) => Err(error),
        },
    }
}

/// Records the name and version of this code; everything else stays as it
/// is. Always succeeds, with an empty response.
pub fn migrate(deps: &mut State, env: Env, msg: MigrateMsg) -> (result: Result<
    Response,
    ContractError,
>)
    ensures
        final(deps)@ == (StateView { version: Some(code_version()), ..old(deps)@ }),
        result is Ok,
        result->Ok_0@ == ResponseView::empty(),
{
    deps.version = Some(this_version());
    Ok(Response::new())
}

/// The address that a report names as that of the contract that was set up,
/// if the instruction succeeded and its data decodes.
pub open spec fn reported_address(msg: Reply) -> Option<Seq<char>> {
    match msg.result {
        Ok(Some(data)) => instantiated_address(data@),
        _ => None,
    }
}

/// Hears back about a contract that the module asked to be set up: decodes
/// the report and goes on as `reply_instantiated` says.
pub fn reply(deps: &mut State, env: Env, msg: Reply, chain: ChainAnswers) -> (result: Result<
    Response,
    ContractError,
>)
    ensures
        ends_as(old(deps)@.replied(msg.id, reported_address(msg), chain), final(deps)@, result),
        result is Err ==> final(deps)@ == old(deps)@,
{
    let address = match &msg.result {
        Ok(Some(data)) => parse_instantiated_address(data),
        _ => None,
    };
    reply_instantiated(deps, msg.id, address, chain)
}

/// Goes on after a report under `id` that a contract was set up at
/// `address`, or, with no address, that it was not. Where the
/// report is rejected, nothing changes.
pub fn reply_instantiated(deps: &mut State, id: u64, address: Option<String>, chain: ChainAnswers)
    -> (result: Result<Response, ContractError>)
    ensures
        ends_as(old(deps)@.replied(id, text_of(address), chain), final(deps)@, result),
        result is Err ==> final(deps)@ == old(deps)@,
{
    let before = deps.copy();
    let result = reply_steps(deps, id, address, chain);
    if result.is_err() {
        *deps = before;
    }
    result
}

/// The steps of taking in a report. Where one fails, `deps` is left as far
/// as the steps had come.
fn reply_steps(deps: &mut State, id: u64, address: Option<String>, chain: ChainAnswers)
    -> (result: Result<Response, ContractError>)
    ensures
        ends_as(old(deps)@.replied_steps(id, text_of(address), chain), final(deps)@, result),
{
    if id == INSTANTIATE_TOKEN_REPLY_ID {
        let token = match address {
            Some(token) => token,
            None => {
                return Err(ContractError::TokenInstantiateError {  });
            },
        };
        if deps.token.is_some() {
            return Err(ContractError::DuplicateToken {  });
        }
        deps.token = Some(copy_of(&token));
        match check_count(&deps.active_threshold, &chain) {
            Ok(()) => {},
            Err(error) => {
                return Err(error);
            },
        }
        let staking_contract_code_id: u64 = match deps.staking_contract_code_id {
            Some(code_id) => code_id,
            None => {
                return Err(ContractError::NotFound {  });
            },
        };
        let unstaking_duration = match deps.staking_contract_unstaking_duration {
            Some(unstaking_duration) => unstaking_duration,
            None => {
                return Err(ContractError::NotFound {  });
            },
        };
        let dao = match &deps.dao {
            Some(dao) => copy_of(dao),
            None => {
                return Err(ContractError::NotFound {  });
            },
        };
        let staking_init = staking_message(
            staking_contract_code_id,
            &dao,
            &chain.contract_address,
            unstaking_duration,
            &token,
        );
        let vesting_contract_code_id: u64 = match deps.vesting_contract_code_id {
            Some(code_id) => code_id,
            None => {
                return Err(ContractError::NotFound {  });
            },
        };
        let owner = named_or_copy(copy_of_named(&deps.vesting_contract_owner), &dao);
        let vesting_init = vesting_message(
            vesting_contract_code_id,
            &dao,
            &chain.contract_address,
            owner,
            &token,
        );
        Ok(
            Response::new().add_attribute("token_address", AttributeValue::Text(token)).add_message(
                staking_init,
            ).add_message(vesting_init),
        )
    } else if id == INSTANTIATE_STAKING_REPLY_ID {
        let staking_contract_addr = match address {
            Some(address) => address,
            None => {
                return Err(ContractError::TokenInstantiateError {  });
            },
        };
        if deps.staking_contract.is_some() {
            return Err(ContractError::DuplicateStakingContract {  });
        }
        deps.staking_contract = Some(copy_of(&staking_contract_addr));
        Ok(
            Response::new().add_attribute(
                "staking_contract",
                AttributeValue::Text(staking_contract_addr),
            ),
        )
    } else if id == INSTANTIATE_VESTING_REPLY_ID {
        let vesting_contract_addr = match address {
            Some(address) => address,
            None => {
                return Err(ContractError::VestingInstantiateError {  });
            },
        };
        if deps.vesting_contract.is_some() {
            return Err(ContractError::DuplicateVestingContract {  });
        }
        deps.vesting_contract = Some(copy_of(&vesting_contract_addr));
        Ok(
            Response::new().add_attribute(
                "vesting_contract",
                AttributeValue::Text(vesting_contract_addr),
            ),
        )
    } else {
        Err(ContractError::UnknownReplyId { id })
    }
}

} // verus!
