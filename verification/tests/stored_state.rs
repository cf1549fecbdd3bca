use cosmwasm_std::Storage;
use klmd_contracts::context::BlockInfo;
use klmd_contracts::context::Env;
use klmd_contracts::context::MessageInfo;
use klmd_contracts::custom_vesting;
use klmd_contracts::rev_share;
use klmd_contracts::schedule::Expiration;
use klmd_contracts::vesting;
use klmd_contracts::voting_power::error::ContractError;
use klmd_contracts::voting_power::msg::Duration;
use klmd_contracts::voting_power::msg::ExecuteMsg;
use klmd_contracts::voting_power::msg::InstantiateMsg;
use klmd_contracts::voting_power::msg::MigrateMsg;
use klmd_contracts::voting_power::msg::QueryMsg;
use klmd_contracts::voting_power::msg::QueryResponse;
use klmd_contracts::voting_power::msg::StakingInfo;
use klmd_contracts::voting_power::msg::TokenInfo;
use klmd_contracts::voting_power::msg::VestingInfo;
use klmd_contracts::voting_power::state::ChainAnswers;
use klmd_contracts::voting_power::stored;
use klmd_contracts::voting_power::threshold::ActiveThreshold;
use klmd_contracts::voting_power::threshold::Decimal;

const DAO_ADDR: &str = "dao";

fn env() -> Env {
    Env { block: BlockInfo { height: 12_345, time: 1_571_797_419 } }
}

fn info_of(sender: &str) -> MessageInfo {
    MessageInfo { sender: sender.to_string() }
}

fn stored_text(storage: &dyn Storage, key: &str) -> Option<String> {
    storage.get(key.as_bytes()).map(|value| String::from_utf8(value).unwrap())
}

fn chain_for(token: &str) -> ChainAnswers {
    ChainAnswers {
        contract_address: "contract0".to_string(),
        total_supply: Some(1_000),
        staking_token_address: Some(token.to_string()),
        vesting_token_address: Some(token.to_string()),
        staked_balance: None,
        total_staked: None,
        vesting_claimable: None,
        vesting_total: None,
    }
}

fn existing(threshold: Option<ActiveThreshold>) -> InstantiateMsg {
    InstantiateMsg {
        token_info: TokenInfo::Existing {
            address: "token".to_string(),
            staking_contract: StakingInfo::Existing {
                staking_contract_address: "staking".to_string(),
            },
            vesting_contract: VestingInfo::Existing {
                vesting_contract_address: "vesting".to_string(),
            },
        },
        active_threshold: threshold,
    }
}

#[test]
fn the_voting_module_is_kept_in_items() {
    let mut deps = stored::Store::new();
    let threshold = Some(ActiveThreshold::AbsoluteCount { count: 100 });
    stored::instantiate(&mut deps, env(), info_of(DAO_ADDR), existing(threshold), chain_for("token"))
        .unwrap();

    let storage = deps.into_storage();
    assert_eq!(stored_text(&storage, "token").as_deref(), Some("\"token\""));
    assert_eq!(stored_text(&storage, "dao").as_deref(), Some("\"dao\""));
    assert_eq!(stored_text(&storage, "staking_contract").as_deref(), Some("\"staking\""));
    assert_eq!(stored_text(&storage, "vesting_contract").as_deref(), Some("\"vesting\""));
    assert!(stored_text(&storage, "active_threshold").is_some());
    assert!(stored_text(&storage, "contract_info").unwrap().contains("0.1.0"));
    assert_eq!(stored_text(&storage, "vesting_contract_owner"), None);

    // the next call finds what this one left
    let mut deps = stored::Store::from_storage(storage);
    let state = deps.load();
    assert_eq!(state.token.as_deref(), Some("token"));
    assert_eq!(state.dao.as_deref(), Some(DAO_ADDR));
    assert_eq!(state.active_threshold, threshold);
    assert_eq!(state.staking_contract_code_id, None);
    assert_eq!(
        stored::query(&deps, env(), QueryMsg::TokenContract {}, chain_for("token")),
        Ok(QueryResponse::Address("token".to_string()))
    );

    // dropping the threshold clears its entry
    let msg = ExecuteMsg::UpdateActiveThreshold { new_threshold: None };
    stored::execute(&mut deps, env(), info_of(DAO_ADDR), msg, chain_for("token")).unwrap();
    assert_eq!(deps.load().active_threshold, None);
    let percent = ActiveThreshold::Percentage { percent: Decimal::percent(20) };
    let msg = ExecuteMsg::UpdateActiveThreshold { new_threshold: Some(percent) };
    stored::execute(&mut deps, env(), info_of(DAO_ADDR), msg, chain_for("token")).unwrap();
    assert_eq!(deps.load().active_threshold, Some(percent));

    stored::migrate(&mut deps, env(), MigrateMsg {}).unwrap();
    assert_eq!(deps.load().token.as_deref(), Some("token"));
    let storage = deps.into_storage();
    assert!(stored_text(&storage, "active_threshold").is_some());
}

#[test]
fn a_call_on_the_voting_module_that_fails_stores_nothing() {
    let mut deps = stored::Store::new();
    // the vesting contract vests another token: the sender, the threshold, the token and
    // the staking contract were taken in before this shows
    let chain =
        ChainAnswers { vesting_token_address: Some("other".to_string()), ..chain_for("token") };
    let threshold = Some(ActiveThreshold::AbsoluteCount { count: 100 });
    assert_eq!(
        stored::instantiate(&mut deps, env(), info_of(DAO_ADDR), existing(threshold), chain),
        Err(ContractError::VestingContractMismatch {})
    );
    let state = deps.load();
    assert_eq!(state.version, None);
    assert_eq!(state.dao, None);
    assert_eq!(state.token, None);
    assert_eq!(state.staking_contract, None);
    assert_eq!(state.active_threshold, None);
    let storage = deps.into_storage();
    assert_eq!(storage.range(None, None, cosmwasm_std::Order::Ascending).count(), 0);

    // a threshold that only the owner may set
    let mut deps = stored::Store::from_storage(storage);
    stored::instantiate(&mut deps, env(), info_of(DAO_ADDR), existing(None), chain_for("token"))
        .unwrap();
    let msg = ExecuteMsg::UpdateActiveThreshold {
        new_threshold: Some(ActiveThreshold::AbsoluteCount { count: 5 }),
    };
    assert!(stored::execute(&mut deps, env(), info_of("stranger"), msg, chain_for("token")).is_err());
    assert_eq!(deps.load().active_threshold, None);
}

#[test]
fn the_codes_and_the_duration_of_a_new_token_are_kept() {
    let mut deps = stored::Store::new();
    let msg = InstantiateMsg {
        token_info: TokenInfo::New {
            code_id: 1,
            label: "DAO DAO voting".to_string(),
            name: "DAO DAO".to_string(),
            symbol: "DAO".to_string(),
            decimals: 6,
            initial_balances: vec![klmd_contracts::voting_power::msg::Cw20Coin {
                address: "creator".to_string(),
                amount: 2,
            }],
            marketing: None,
            unstaking_duration: Some(Duration::Height(7)),
            staking_code_id: 3,
            vesting_code_id: 4,
            vesting_owner_address: Some("creator".to_string()),
            initial_dao_balance: Some(10),
        },
        active_threshold: None,
    };
    stored::instantiate(&mut deps, env(), info_of(DAO_ADDR), msg, chain_for("token")).unwrap();
    let state = stored::Store::from_storage(deps.into_storage()).load();
    assert_eq!(state.staking_contract_code_id, Some(3));
    assert_eq!(state.vesting_contract_code_id, Some(4));
    assert_eq!(state.staking_contract_unstaking_duration, Some(Some(Duration::Height(7))));
    assert_eq!(state.vesting_contract_owner.as_deref(), Some("creator"));
    assert_eq!(state.token, None);
}

#[test]
fn that_unstaking_takes_no_time_is_kept_too() {
    for duration in [None, Some(Duration::Time(60))] {
        let mut deps = stored::Store::new();
        let msg = InstantiateMsg {
            token_info: TokenInfo::New {
                code_id: 1,
                label: "DAO DAO voting".to_string(),
                name: "DAO DAO".to_string(),
                symbol: "DAO".to_string(),
                decimals: 6,
                initial_balances: vec![klmd_contracts::voting_power::msg::Cw20Coin {
                    address: "creator".to_string(),
                    amount: 2,
                }],
                marketing: None,
                unstaking_duration: duration,
                staking_code_id: 3,
                vesting_code_id: 4,
                vesting_owner_address: None,
                initial_dao_balance: None,
            },
            active_threshold: Some(ActiveThreshold::Percentage { percent: Decimal::percent(20) }),
        };
        stored::instantiate(&mut deps, env(), info_of(DAO_ADDR), msg, chain_for("token")).unwrap();
        let storage = deps.into_storage();
        assert!(stored_text(&storage, "staking_contract_unstaking_duration").is_some());
        let state = stored::Store::from_storage(storage).load();
        assert_eq!(state.staking_contract_unstaking_duration, Some(duration));
        assert_eq!(
            state.active_threshold,
            Some(ActiveThreshold::Percentage { percent: Decimal::percent(20) })
        );
        assert_eq!(state.vesting_contract_owner.as_deref(), Some(DAO_ADDR));
    }
}

#[test]
fn the_vesting_contract_is_kept_in_items() {
    let mut deps = custom_vesting::contract::Store::new();
    let msg = custom_vesting::msg::InstantiateMsg {
        owner_address: None,
        token_address: "token0001".to_string(),
    };
    custom_vesting::contract::instantiate(&mut deps, env(), info_of("owner0000"), msg).unwrap();
    let register = custom_vesting::msg::ExecuteMsg::RegisterVestingAccount {
        address: "user0001".to_string(),
        vesting_amount: 100,
        prevesting_amount: 10,
        start_time: 1_571_797_419,
        end_time: 1_571_797_519,
    };
    custom_vesting::contract::execute(&mut deps, env(), info_of("owner0000"), register).unwrap();

    let storage = deps.into_storage();
    assert_eq!(stored_text(&storage, "owner_address").as_deref(), Some("\"owner0000\""));
    assert_eq!(stored_text(&storage, "token_address").as_deref(), Some("\"token0001\""));
    assert!(stored_text(&storage, "contract_info").unwrap().contains("klmd-custom-vesting"));

    let mut deps = custom_vesting::contract::Store::from_storage(storage);
    let later = Env { block: BlockInfo { height: 12_350, time: 1_571_797_469 } };
    let response = custom_vesting::contract::execute(
        &mut deps,
        later,
        info_of("user0001"),
        custom_vesting::msg::ExecuteMsg::Claim { recipient: None },
    )
    .unwrap();
    assert_eq!(
        response.messages,
        vec![klmd_contracts::response::Message::Cw20Transfer {
            token_address: "token0001".to_string(),
            recipient: "user0001".to_string(),
            amount: 50,
        }]
    );
    let handed_over = custom_vesting::msg::ExecuteMsg::UpdateOwnerAddress {
        address: "owner0002".to_string(),
    };
    custom_vesting::contract::execute(&mut deps, later, info_of("owner0000"), handed_over).unwrap();
    let storage = deps.into_storage();
    assert_eq!(stored_text(&storage, "owner_address").as_deref(), Some("\"owner0002\""));
    assert_eq!(stored_text(&storage, "token_address").as_deref(), Some("\"token0001\""));
}

#[test]
fn the_payments_contract_is_kept_in_items() {
    let mut deps = vesting::contract::Store::new();
    let payment = |recipient: &str| vesting::msg::Payment {
        recipient: recipient.to_string(),
        amount: 5,
        denom: "token".to_string(),
        time: Expiration::AtHeight(1),
    };
    let msg = vesting::msg::InstantiateMsg {
        schedule: vec![payment("one"), payment("two")],
        owner_address: Some("owner".to_string()),
        token_address: "token".to_string(),
    };
    vesting::contract::instantiate(&mut deps, env(), info_of("creator"), msg).unwrap();
    let storage = deps.into_storage();
    assert_eq!(stored_text(&storage, "owner_address").as_deref(), Some("\"owner\""));
    assert_eq!(stored_text(&storage, "token_address").as_deref(), Some("\"token\""));
    assert_eq!(stored_text(&storage, "proposal_count").as_deref(), Some("2"));

    let deps = vesting::contract::Store::from_storage(storage);
    let payments = vesting::contract::query_payments(&deps).payments;
    assert_eq!(payments.iter().map(|kept| kept.id).collect::<Vec<u64>>(), vec![1, 2]);
    assert_eq!(vesting::contract::query_owner(&deps).unwrap().owner, "owner");
}

#[test]
fn the_revenue_share_contract_is_kept_in_items() {
    let mut deps = rev_share::contract::Store::new();
    let msg = rev_share::msg::InstantiateMsg {
        owner: None,
        cw20_token_address: "cw20".to_string(),
        native_token: "ujuno".to_string(),
        cw20_staking_address: "staking".to_string(),
    };
    rev_share::contract::instantiate(&mut deps, env(), info_of("admin"), msg).unwrap();
    let chain =
        rev_share::state::ChainAnswers { total_staked: None, staked_balance: None, balance: None };
    let stage = rev_share::msg::ExecuteMsg::CreateNewStage {
        total_amount: 100,
        snapshot_block: None,
        expiration: None,
        start: None,
    };
    rev_share::contract::execute(&mut deps, env(), info_of("admin"), stage, chain).unwrap();

    let storage = deps.into_storage();
    assert_eq!(stored_text(&storage, "stage").as_deref(), Some("1"));
    assert_eq!(
        stored_text(&storage, "config").as_deref(),
        Some("[\"admin\",\"cw20\",\"ujuno\",\"staking\"]")
    );
    assert!(stored_text(&storage, "contract_info").is_some());

    let deps = rev_share::contract::Store::from_storage(storage);
    let config = rev_share::contract::query_config(&deps).unwrap();
    assert_eq!(config.owner.as_deref(), Some("admin"));
    assert_eq!(config.native_token, "ujuno");
    assert_eq!(rev_share::contract::query_latest_stage(&deps).unwrap().latest_stage, 1);
}
