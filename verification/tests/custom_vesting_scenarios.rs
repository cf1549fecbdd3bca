use klmd_contracts::context::BlockInfo;
use klmd_contracts::context::Env;
use klmd_contracts::context::MessageInfo;
use klmd_contracts::custom_vesting::contract::compute_total_vesting_info;
use klmd_contracts::custom_vesting::contract::execute;
use klmd_contracts::custom_vesting::contract::instantiate;
use klmd_contracts::custom_vesting::contract::only_owner;
use klmd_contracts::custom_vesting::contract::query;
use klmd_contracts::custom_vesting::contract::query_info;
use klmd_contracts::custom_vesting::contract::Store;
use klmd_contracts::custom_vesting::error::VestingError;
use klmd_contracts::custom_vesting::msg::ExecuteMsg;
use klmd_contracts::custom_vesting::msg::InstantiateMsg;
use klmd_contracts::custom_vesting::msg::QueryMsg;
use klmd_contracts::custom_vesting::msg::QueryResponse;
use klmd_contracts::custom_vesting::state::TotalVestingInfo;
use klmd_contracts::custom_vesting::state::VestingData;
use klmd_contracts::response::Attribute;
use klmd_contracts::response::AttributeValue;
use klmd_contracts::response::Message;

const OWNER: &str = "owner0000";
const TOKEN: &str = "token0001";
const USER1: &str = "user0001";
const USER2: &str = "user0002";

fn env_at(height: u64, time: u64) -> Env {
    Env { block: BlockInfo { height, time } }
}

fn info_of(sender: &str) -> MessageInfo {
    MessageInfo { sender: sender.to_string() }
}

fn set_up(env: Env) -> Store {
    let mut deps = Store::new();
    let msg = InstantiateMsg { owner_address: None, token_address: TOKEN.to_string() };
    instantiate(&mut deps, env, info_of(OWNER), msg).unwrap();
    deps
}

fn register(address: &str, vesting_amount: u128, start_time: u64, end_time: u64) -> ExecuteMsg {
    ExecuteMsg::RegisterVestingAccount {
        address: address.to_string(),
        vesting_amount,
        prevesting_amount: 10,
        start_time,
        end_time,
    }
}

fn account_at(deps: &Store, env: Env, address: &str, height: Option<u64>) -> VestingData {
    let msg = QueryMsg::VestingAccount { address: address.to_string(), height };
    match query(deps, env, msg).unwrap() {
        QueryResponse::VestingAccount(response) => {
            assert_eq!(response.address, address);
            response.vestings
        }
        other => panic!("unexpected answer {:?}", other),
    }
}

fn total_at(deps: &Store, env: Env, height: Option<u64>) -> TotalVestingInfo {
    match query(deps, env, QueryMsg::VestingTotal { height }).unwrap() {
        QueryResponse::VestingTotal(response) => response.info,
        other => panic!("unexpected answer {:?}", other),
    }
}

fn text(key: &str, value: &str) -> Attribute {
    Attribute { key: key.to_string(), value: AttributeValue::Text(value.to_string()) }
}

fn amount(key: &str, value: u128) -> Attribute {
    Attribute { key: key.to_string(), value: AttributeValue::Amount(value) }
}

fn transfer(recipient: &str, amount: u128) -> Message {
    Message::Cw20Transfer {
        token_address: TOKEN.to_string(),
        recipient: recipient.to_string(),
        amount,
    }
}

#[test]
fn instantiate_names_the_sender_owner_where_none_is_given() {
    let env = env_at(1000, 0);
    let mut deps = Store::new();
    let msg = InstantiateMsg { owner_address: None, token_address: TOKEN.to_string() };
    let response = instantiate(&mut deps, env, info_of(OWNER), msg).unwrap();
    assert!(response.messages.is_empty());
    assert_eq!(response.attributes, vec![text("owner_address", OWNER), text("token_address", TOKEN)]);
    assert_eq!(only_owner(&deps, &OWNER.to_string()), Ok(()));
    assert_eq!(only_owner(&deps, &USER1.to_string()), Err(VestingError::Unauthorized));
    assert_eq!(total_at(&deps, env, None), TotalVestingInfo::default());
    let info = query_info(&deps).unwrap().info;
    assert_eq!(info.contract, "crates.io:klmd-custom-vesting");
}

#[test]
fn nothing_works_before_the_contract_is_set_up() {
    let env = env_at(1000, 0);
    let mut deps = Store::new();
    assert_eq!(query(&deps, env, QueryMsg::OwnerAddress {}), Err(VestingError::NotInitialized));
    assert_eq!(query(&deps, env, QueryMsg::TokenAddress {}), Err(VestingError::NotInitialized));
    assert_eq!(query(&deps, env, QueryMsg::Info {}), Err(VestingError::NotInitialized));
    assert_eq!(
        execute(&mut deps, env, info_of(USER1), ExecuteMsg::Claim { recipient: None }),
        Err(VestingError::NotInitialized)
    );
    assert_eq!(
        execute(
            &mut deps,
            env,
            info_of(OWNER),
            ExecuteMsg::UpdateOwnerAddress { address: USER1.to_string() }
        ),
        Err(VestingError::NotInitialized)
    );
    // queries about the ledger answer with zeros
    assert_eq!(account_at(&deps, env, USER1, None), VestingData::default());
    assert_eq!(total_at(&deps, env, Some(3)), TotalVestingInfo::default());
}

#[test]
fn register_reports_and_rejects() {
    let env = env_at(1000, 50);
    let mut deps = set_up(env);
    let response = execute(&mut deps, env, info_of(OWNER), register(USER1, 100, 100, 200)).unwrap();
    assert!(response.messages.is_empty());
    assert_eq!(
        response.attributes,
        vec![
            text("action", "register_vesting_account"),
            text("address", USER1),
            amount("vesting_amount", 100),
        ]
    );
    // a second account for the same address
    assert_eq!(
        execute(&mut deps, env, info_of(OWNER), register(USER1, 5, 100, 200)),
        Err(VestingError::AlreadyExists)
    );
    // nothing to vest
    assert_eq!(
        execute(&mut deps, env, info_of(OWNER), register(USER2, 0, 100, 200)),
        Err(VestingError::ZeroVestingAmount)
    );
    // no early entitlement
    let msg = ExecuteMsg::RegisterVestingAccount {
        address: USER2.to_string(),
        vesting_amount: 100,
        prevesting_amount: 0,
        start_time: 100,
        end_time: 200,
    };
    assert_eq!(execute(&mut deps, env, info_of(OWNER), msg), Err(VestingError::ZeroPrevestingAmount));
    // the window opens before the block
    assert_eq!(
        execute(&mut deps, env, info_of(OWNER), register(USER2, 100, 49, 200)),
        Err(VestingError::StartBeforeRegistration)
    );
    // the window closes before it opens
    assert_eq!(
        execute(&mut deps, env, info_of(OWNER), register(USER2, 100, 100, 99)),
        Err(VestingError::EndBeforeStart)
    );
    // none of the rejected calls left a trace
    assert_eq!(account_at(&deps, env, USER2, None), VestingData::default());
    assert_eq!(total_at(&deps, env, Some(1001)).vesting_amount, 100);
}

#[test]
fn snapshot_then_claim_keeps_history() {
    // register at time 0, height 1000
    let mut env = env_at(1000, 0);
    let mut deps = set_up(env);
    execute(&mut deps, env, info_of(OWNER), register(USER1, 100, 100, 200)).unwrap();

    // at time 105 (height 1001) take a snapshot
    env = env_at(1001, 105);
    let response = execute(&mut deps, env, info_of(USER2), ExecuteMsg::Snapshot {}).unwrap();
    assert_eq!(
        response.attributes,
        vec![
            text("action", "snapshot"),
            Attribute { key: "height".to_string(), value: AttributeValue::Number(1001) },
        ]
    );
    let data = account_at(&deps, env, USER1, None);
    assert_eq!((data.vested_amount, data.claimable_amount, data.claimed_amount), (5, 5, 0));

    // at time 110 (height 1002) claim
    env = env_at(1002, 110);
    let response =
        execute(&mut deps, env, info_of(USER1), ExecuteMsg::Claim { recipient: None }).unwrap();
    assert_eq!(response.messages, vec![transfer(USER1, 10)]);
    assert_eq!(
        response.attributes,
        vec![text("action", "claim"), text("address", USER1), amount("amount", 10)]
    );
    let data = account_at(&deps, env, USER1, None);
    assert_eq!((data.vested_amount, data.claimable_amount, data.claimed_amount), (10, 0, 10));

    // the history before the claim is preserved
    let data = account_at(&deps, env, USER1, Some(1001));
    assert_eq!((data.vested_amount, data.claimable_amount, data.claimed_amount), (5, 5, 0));
    // and so is the registration
    let data = account_at(&deps, env, USER1, Some(1000));
    assert_eq!((data.vested_amount, data.prevested_amount, data.claimed_amount), (0, 10, 0));
    // before which there was nothing
    assert_eq!(account_at(&deps, env, USER1, Some(999)), VestingData::default());
}

#[test]
fn a_snapshot_is_stored_one_below_the_block() {
    let mut env = env_at(1000, 0);
    let mut deps = set_up(env);
    env = env_at(2000, 10);
    execute(&mut deps, env, info_of(OWNER), register(USER1, 100, 100, 200)).unwrap();
    // stored under 1999: invisible at 1999, visible from 2000 on
    assert_eq!(account_at(&deps, env, USER1, Some(1999)), VestingData::default());
    assert_eq!(account_at(&deps, env, USER1, Some(2000)).vesting_amount, 100);
    assert_eq!(account_at(&deps, env, USER1, Some(u64::MAX)).vesting_amount, 100);
    assert_eq!(total_at(&deps, env, Some(1999)).vesting_amount, 0);
    assert_eq!(total_at(&deps, env, Some(2000)).vesting_amount, 100);

    // a later snapshot in the same block replaces the value and keeps the history
    env = env_at(2000, 150);
    execute(&mut deps, env, info_of(OWNER), ExecuteMsg::ProposalHook {}).unwrap();
    assert_eq!(account_at(&deps, env, USER1, Some(1999)), VestingData::default());
    assert_eq!(account_at(&deps, env, USER1, Some(2000)).vested_amount, 50);
}

#[test]
fn the_block_of_the_set_up_keeps_its_zero_aggregate() {
    // Setting up records the zero aggregate under the block's own height, so what is
    // recorded later in that block, one below, shows only from the next height on.
    let env = env_at(1000, 0);
    let mut deps = set_up(env);
    execute(&mut deps, env, info_of(OWNER), register(USER1, 100, 100, 200)).unwrap();
    assert_eq!(total_at(&deps, env, Some(1000)), TotalVestingInfo::default());
    assert_eq!(total_at(&deps, env, Some(1001)).vesting_amount, 100);
    // the projections are not affected
    assert_eq!(account_at(&deps, env, USER1, Some(1000)).vesting_amount, 100);
}

#[test]
fn a_snapshot_in_block_zero_is_refused() {
    let env = env_at(0, 0);
    let mut deps = set_up(env);
    assert_eq!(
        execute(&mut deps, env, info_of(OWNER), ExecuteMsg::Snapshot {}),
        Err(VestingError::Underflow)
    );
}

#[test]
fn claiming_twice_in_a_block_pays_once() {
    let mut env = env_at(1000, 0);
    let mut deps = set_up(env);
    execute(&mut deps, env, info_of(OWNER), register(USER1, 100, 100, 200)).unwrap();
    env = env_at(1005, 130);
    let claim = ExecuteMsg::Claim { recipient: None };
    let first = execute(&mut deps, env, info_of(USER1), claim.clone()).unwrap();
    assert_eq!(first.messages, vec![transfer(USER1, 30)]);
    let second = execute(&mut deps, env, info_of(USER1), claim.clone()).unwrap();
    assert_eq!(second.messages, vec![transfer(USER1, 0)]);
    assert_eq!(account_at(&deps, env, USER1, None).claimed_amount, 30);

    // once all is paid out the account is closed
    env = env_at(1010, 200);
    let last = execute(&mut deps, env, info_of(USER1), claim.clone()).unwrap();
    assert_eq!(last.messages, vec![transfer(USER1, 70)]);
    assert_eq!(
        execute(&mut deps, env, info_of(USER1), claim),
        Err(VestingError::EntryNotFound)
    );
}

#[test]
fn claim_for_another_recipient() {
    let mut env = env_at(1000, 0);
    let mut deps = set_up(env);
    execute(&mut deps, env, info_of(OWNER), register(USER1, 100, 100, 200)).unwrap();
    env = env_at(1005, 140);
    let claim = ExecuteMsg::Claim { recipient: Some(USER1.to_string()) };
    let response = execute(&mut deps, env, info_of(USER2), claim).unwrap();
    assert_eq!(response.messages, vec![transfer(USER1, 40)]);
    // the sender itself has no account
    assert_eq!(
        execute(&mut deps, env, info_of(USER2), ExecuteMsg::Claim { recipient: None }),
        Err(VestingError::EntryNotFound)
    );
}

#[test]
fn claim_fails_when_time_runs_backwards() {
    let mut env = env_at(1000, 0);
    let mut deps = set_up(env);
    execute(&mut deps, env, info_of(OWNER), register(USER1, 100, 100, 200)).unwrap();
    env = env_at(1005, 150);
    execute(&mut deps, env, info_of(USER1), ExecuteMsg::Claim { recipient: None }).unwrap();
    env = env_at(1006, 120);
    assert_eq!(
        execute(&mut deps, env, info_of(USER1), ExecuteMsg::Claim { recipient: None }),
        Err(VestingError::Underflow)
    );
    // and so does a snapshot
    assert_eq!(
        execute(&mut deps, env, info_of(USER1), ExecuteMsg::Snapshot {}),
        Err(VestingError::Underflow)
    );
    // the record is untouched
    env = env_at(1007, 160);
    let response =
        execute(&mut deps, env, info_of(USER1), ExecuteMsg::Claim { recipient: None }).unwrap();
    assert_eq!(response.messages, vec![transfer(USER1, 10)]);
}

#[test]
fn deregistration_splits_the_entitlement() {
    let mut env = env_at(1000, 0);
    let mut deps = set_up(env);
    execute(&mut deps, env, info_of(OWNER), register(USER1, 10_000_000, 0, 100)).unwrap();

    // a twentieth of the window has passed: 500,000 are claimable
    env = env_at(1001, 5);
    let msg = ExecuteMsg::DeregisterVestingAccount {
        address: USER1.to_string(),
        vested_token_recipient: Some(USER2.to_string()),
        left_vesting_token_recipient: Some("treasury".to_string()),
    };
    assert_eq!(
        execute(&mut deps, env, info_of(USER1), msg.clone()),
        Err(VestingError::Unauthorized)
    );
    let response = execute(&mut deps, env, info_of(OWNER), msg.clone()).unwrap();
    assert_eq!(response.messages, vec![transfer(USER2, 500_000), transfer("treasury", 9_500_000)]);
    assert_eq!(
        response.attributes,
        vec![
            text("action", "deregister_vesting_account"),
            text("address", USER1),
            amount("vesting_amount", 10_000_000),
            amount("claimable_amount", 500_000),
            amount("vested_amount", 500_000),
            amount("left_vesting_amount", 9_500_000),
        ]
    );
    // the account is gone from the live store
    assert_eq!(execute(&mut deps, env, info_of(OWNER), msg), Err(VestingError::EntryNotFound));
    assert_eq!(
        execute(&mut deps, env, info_of(USER1), ExecuteMsg::Claim { recipient: None }),
        Err(VestingError::EntryNotFound)
    );
    assert_eq!(total_at(&deps, env, None), TotalVestingInfo::default());
    // what was recorded for it stays
    assert_eq!(account_at(&deps, env, USER1, None).vesting_amount, 10_000_000);
}

#[test]
fn deregistration_of_a_fully_vested_account_sends_one_transfer() {
    let mut env = env_at(1000, 0);
    let mut deps = set_up(env);
    execute(&mut deps, env, info_of(OWNER), register(USER1, 10_000_000, 0, 100)).unwrap();
    env = env_at(1001, 95);
    execute(&mut deps, env, info_of(USER1), ExecuteMsg::Claim { recipient: None }).unwrap();

    // fully vested, 500,000 still to claim, nothing left unvested
    env = env_at(1002, 100);
    let msg = ExecuteMsg::DeregisterVestingAccount {
        address: USER1.to_string(),
        vested_token_recipient: None,
        left_vesting_token_recipient: None,
    };
    let response = execute(&mut deps, env, info_of(OWNER), msg).unwrap();
    assert_eq!(response.messages, vec![transfer(USER1, 500_000)]);
}

#[test]
fn deregistration_before_the_window_returns_everything_to_the_sender() {
    let mut env = env_at(1000, 0);
    let mut deps = set_up(env);
    execute(&mut deps, env, info_of(OWNER), register(USER1, 700, 100, 200)).unwrap();
    env = env_at(1001, 50);
    let msg = ExecuteMsg::DeregisterVestingAccount {
        address: USER1.to_string(),
        vested_token_recipient: None,
        left_vesting_token_recipient: None,
    };
    let response = execute(&mut deps, env, info_of(OWNER), msg).unwrap();
    assert_eq!(response.messages, vec![transfer(OWNER, 700)]);
}

#[test]
fn the_owner_can_hand_the_contract_over() {
    let env = env_at(1000, 0);
    let mut deps = set_up(env);
    let msg = ExecuteMsg::UpdateOwnerAddress { address: USER1.to_string() };
    assert_eq!(
        execute(&mut deps, env, info_of(USER1), msg.clone()),
        Err(VestingError::Unauthorized)
    );
    let response = execute(&mut deps, env, info_of(OWNER), msg.clone()).unwrap();
    assert_eq!(
        response.attributes,
        vec![text("action", "update_owner_address"), text("owner_address", USER1)]
    );
    assert_eq!(only_owner(&deps, &USER1.to_string()), Ok(()));
    assert_eq!(execute(&mut deps, env, info_of(OWNER), msg), Err(VestingError::Unauthorized));
}

#[test]
fn the_aggregate_is_the_sum_over_the_live_accounts() {
    let mut env = env_at(1000, 0);
    let mut deps = set_up(env);
    execute(&mut deps, env, info_of(OWNER), register(USER1, 100, 100, 200)).unwrap();
    execute(&mut deps, env, info_of(OWNER), register(USER2, 1_000, 0, 1_000)).unwrap();
    execute(&mut deps, env, info_of(OWNER), register("user0003", 60, 0, 120)).unwrap();

    env = env_at(1001, 150);
    execute(&mut deps, env, info_of(USER2), ExecuteMsg::Claim { recipient: None }).unwrap();
    env = env_at(1002, 160);
    execute(&mut deps, env, info_of(OWNER), ExecuteMsg::Snapshot {}).unwrap();

    let accounts: Vec<VestingData> = [USER1, USER2, "user0003"]
        .iter()
        .map(|address| account_at(&deps, env, address, None))
        .collect();
    let total = total_at(&deps, env, None);
    assert_eq!(total.vested_amount, accounts.iter().map(|data| data.vested_amount).sum::<u128>());
    assert_eq!(total.claimed_amount, accounts.iter().map(|data| data.claimed_amount).sum::<u128>());
    assert_eq!(
        total,
        TotalVestingInfo {
            prevesting_amount: 30,
            prevested_amount: 100 + 1_000 + 60,
            vesting_amount: 100 + 1_000 + 60,
            vested_amount: 60 + 160 + 60,
            claimed_amount: 150,
        }
    );
    // the aggregate that the claim recorded in the block before is still there
    let before = total_at(&deps, env, Some(1001));
    assert_eq!((before.vested_amount, before.claimed_amount), (50 + 150 + 60, 150));

    // a closed account no longer counts
    env = env_at(1003, 170);
    execute(&mut deps, env, info_of("user0003"), ExecuteMsg::Claim { recipient: None }).unwrap();
    let total = total_at(&deps, env, None);
    assert_eq!((total.vesting_amount, total.vested_amount, total.claimed_amount), (1_100, 240, 150));
}

#[test]
fn compute_total_adds_up_and_reports_overflow() {
    let one = VestingData {
        prevesting_amount: 1,
        prevested_amount: 2,
        vesting_amount: 3,
        vested_amount: 4,
        claimable_amount: 5,
        claimed_amount: 6,
        registration_time: 7,
        start_time: 8,
        end_time: 9,
    };
    assert_eq!(compute_total_vesting_info(vec![]), Ok(TotalVestingInfo::default()));
    assert_eq!(
        compute_total_vesting_info(vec![one, one, one]),
        Ok(TotalVestingInfo {
            prevesting_amount: 3,
            prevested_amount: 6,
            vesting_amount: 9,
            vested_amount: 12,
            claimed_amount: 18,
        })
    );
    let huge = VestingData { vesting_amount: u128::MAX - 5, ..one };
    assert_eq!(
        compute_total_vesting_info(vec![one, huge]).unwrap().vesting_amount,
        u128::MAX - 2
    );
    assert_eq!(compute_total_vesting_info(vec![one, huge, one, one]), Err(VestingError::Overflow));
}

#[test]
fn an_aggregate_that_overflows_fails_the_snapshot() {
    let env = env_at(1000, 0);
    let mut deps = set_up(env);
    execute(&mut deps, env, info_of(OWNER), register(USER1, u128::MAX, 100, 200)).unwrap();
    let total_before = total_at(&deps, env, None);
    assert_eq!(
        execute(&mut deps, env, info_of(OWNER), register(USER2, 10, 100, 200)),
        Err(VestingError::Overflow)
    );
    // the account was not stored: the same registration fails in the same way, not as a
    // duplicate
    assert_eq!(
        execute(&mut deps, env, info_of(OWNER), register(USER2, 10, 100, 200)),
        Err(VestingError::Overflow)
    );
    // and nothing was recorded
    assert_eq!(account_at(&deps, env, USER2, None), VestingData::default());
    assert_eq!(total_at(&deps, env, None), total_before);
    // once there is room, it goes through
    let msg = ExecuteMsg::DeregisterVestingAccount {
        address: USER1.to_string(),
        vested_token_recipient: None,
        left_vesting_token_recipient: None,
    };
    execute(&mut deps, env, info_of(OWNER), msg).unwrap();
    execute(&mut deps, env, info_of(OWNER), register(USER2, 10, 100, 200)).unwrap();
}

#[test]
fn a_claim_that_fails_leaves_the_account_as_it_was() {
    let mut env = env_at(1000, 0);
    let mut deps = set_up(env);
    execute(&mut deps, env, info_of(OWNER), register(USER1, 100, 0, 100)).unwrap();
    env = env_at(1010, 40);
    execute(&mut deps, env, info_of(USER1), ExecuteMsg::Snapshot {}).unwrap();
    let recorded = account_at(&deps, env, USER1, None);
    let total = total_at(&deps, env, None);
    // a block of height zero has no height below it to record under
    let failing = env_at(0, 60);
    assert_eq!(
        execute(&mut deps, failing, info_of(USER1), ExecuteMsg::Claim { recipient: None }),
        Err(VestingError::Underflow)
    );
    assert_eq!(account_at(&deps, env, USER1, None), recorded);
    assert_eq!(total_at(&deps, env, None), total);
    // nothing counts as claimed: the next claim pays all that has vested
    env = env_at(1020, 60);
    let response =
        execute(&mut deps, env, info_of(USER1), ExecuteMsg::Claim { recipient: None }).unwrap();
    assert_eq!(
        response.messages,
        vec![Message::Cw20Transfer {
            token_address: TOKEN.to_string(),
            recipient: USER1.to_string(),
            amount: 60,
        }]
    );
    let data = account_at(&deps, env, USER1, None);
    assert_eq!((data.vested_amount, data.claimed_amount, data.claimable_amount), (60, 60, 0));
}

#[test]
fn a_claim_of_the_whole_that_fails_keeps_the_account() {
    let mut env = env_at(1000, 0);
    let mut deps = set_up(env);
    execute(&mut deps, env, info_of(OWNER), register(USER1, 100, 0, 100)).unwrap();
    let failing = env_at(0, 100);
    assert_eq!(
        execute(&mut deps, failing, info_of(USER1), ExecuteMsg::Claim { recipient: None }),
        Err(VestingError::Underflow)
    );
    env = env_at(1020, 100);
    let response =
        execute(&mut deps, env, info_of(USER1), ExecuteMsg::Claim { recipient: None }).unwrap();
    assert_eq!(
        response.messages,
        vec![Message::Cw20Transfer {
            token_address: TOKEN.to_string(),
            recipient: USER1.to_string(),
            amount: 100,
        }]
    );
}

#[test]
fn a_deregistration_that_fails_keeps_the_account() {
    let mut env = env_at(1000, 0);
    let mut deps = set_up(env);
    execute(&mut deps, env, info_of(OWNER), register(USER1, 100, 0, 100)).unwrap();
    let recorded = account_at(&deps, env, USER1, None);
    let msg = ExecuteMsg::DeregisterVestingAccount {
        address: USER1.to_string(),
        vested_token_recipient: None,
        left_vesting_token_recipient: None,
    };
    let failing = env_at(0, 50);
    assert_eq!(
        execute(&mut deps, failing, info_of(OWNER), msg.clone()),
        Err(VestingError::Underflow)
    );
    assert_eq!(account_at(&deps, env, USER1, None), recorded);
    // the account is still there to be settled
    env = env_at(1020, 50);
    let response = execute(&mut deps, env, info_of(OWNER), msg).unwrap();
    assert_eq!(
        response.messages,
        vec![
            Message::Cw20Transfer {
                token_address: TOKEN.to_string(),
                recipient: USER1.to_string(),
                amount: 50,
            },
            Message::Cw20Transfer {
                token_address: TOKEN.to_string(),
                recipient: OWNER.to_string(),
                amount: 50,
            },
        ]
    );
}

#[test]
fn a_registration_in_a_block_of_height_zero_stores_nothing() {
    let env = env_at(0, 0);
    let mut deps = set_up(env);
    assert_eq!(
        execute(&mut deps, env, info_of(OWNER), register(USER1, 100, 0, 100)),
        Err(VestingError::Underflow)
    );
    let later = env_at(5, 0);
    execute(&mut deps, later, info_of(OWNER), register(USER1, 100, 0, 100)).unwrap();
    assert_eq!(account_at(&deps, later, USER1, None).vesting_amount, 100);
}

#[test]
fn the_early_amount_may_not_exceed_the_whole() {
    let env = env_at(1000, 0);
    let mut deps = set_up(env);
    assert_eq!(
        execute(&mut deps, env, info_of(OWNER), register(USER1, 9, 100, 200)),
        Err(VestingError::PrevestingAboveVesting)
    );
    assert_eq!(
        VestingError::PrevestingAboveVesting.message(),
        "Generic error: assert(prevesting_amount <= vesting_amount)"
    );
    assert_eq!(account_at(&deps, env, USER1, None), VestingData::default());
    // as much as the whole is in order
    execute(&mut deps, env, info_of(OWNER), register(USER1, 10, 100, 200)).unwrap();
}

#[test]
fn an_address_too_long_for_a_key_is_turned_away() {
    let env = env_at(1000, 0);
    let mut deps = set_up(env);
    // the longest address that fits, in characters of four bytes each
    let longest: String = std::iter::repeat('\u{1D11E}').take(16_383).collect();
    assert_eq!(longest.len(), 65_532);
    execute(&mut deps, env, info_of(OWNER), register(&longest, 100, 0, 100)).unwrap();
    assert_eq!(account_at(&deps, env, &longest, None).vesting_amount, 100);
    execute(&mut deps, env_at(1001, 50), info_of(&longest), ExecuteMsg::Claim { recipient: None })
        .unwrap();
    // one character more
    let too_long: String = std::iter::repeat('a').take(16_384).collect();
    assert_eq!(
        execute(&mut deps, env, info_of(OWNER), register(&too_long, 100, 0, 100)),
        Err(VestingError::AddressTooLong)
    );
    assert_eq!(VestingError::AddressTooLong.message(), "Generic error: address is too long");
    // nothing is recorded for such an address, and asking about it is answered
    let huge: String = std::iter::repeat('a').take(70_000).collect();
    assert_eq!(account_at(&deps, env, &huge, None), VestingData::default());
    assert_eq!(account_at(&deps, env, &huge, Some(3)), VestingData::default());
    assert_eq!(
        execute(&mut deps, env, info_of(&huge), ExecuteMsg::Claim { recipient: None }),
        Err(VestingError::EntryNotFound)
    );
    let msg = ExecuteMsg::DeregisterVestingAccount {
        address: huge,
        vested_token_recipient: None,
        left_vesting_token_recipient: None,
    };
    assert_eq!(execute(&mut deps, env, info_of(OWNER), msg), Err(VestingError::EntryNotFound));
}

#[test]
fn a_claim_never_shows_in_what_was_recorded_before() {
    // registered in block 1000, claimed in block 1010: every height in between shows the
    // registration, with nothing claimed
    let mut env = env_at(1000, 0);
    let mut deps = set_up(env);
    execute(&mut deps, env, info_of(OWNER), register(USER1, 100, 0, 100)).unwrap();
    env = env_at(1010, 60);
    execute(&mut deps, env, info_of(USER1), ExecuteMsg::Claim { recipient: None }).unwrap();
    for height in 1000..1010 {
        let data = account_at(&deps, env, USER1, Some(height));
        assert_eq!((data.vested_amount, data.claimed_amount, data.claimable_amount), (0, 0, 0));
        assert_eq!(data.vesting_amount, 100);
    }
    for height in [1010, 1011, 5000] {
        let data = account_at(&deps, env, USER1, Some(height));
        assert_eq!((data.vested_amount, data.claimed_amount, data.claimable_amount), (60, 60, 0));
    }
}

#[test]
fn calls_in_between_do_not_unpin_the_past() {
    // registered in block 1000; snapshots, another registration and a failed call follow;
    // the first claim comes in block 1010
    let mut env = env_at(1000, 0);
    let mut deps = set_up(env);
    execute(&mut deps, env, info_of(OWNER), register(USER1, 100, 0, 100)).unwrap();
    env = env_at(1003, 30);
    execute(&mut deps, env, info_of(USER2), ExecuteMsg::Snapshot {}).unwrap();
    env = env_at(1005, 50);
    execute(&mut deps, env, info_of(OWNER), register(USER2, 1_000, 50, 150)).unwrap();
    assert_eq!(
        execute(&mut deps, env, info_of(OWNER), register(USER2, 1_000, 50, 150)),
        Err(VestingError::AlreadyExists)
    );
    env = env_at(1007, 70);
    execute(&mut deps, env, info_of(USER2), ExecuteMsg::ProposalHook {}).unwrap();
    let before: Vec<VestingData> =
        (995..1010).map(|height| account_at(&deps, env, USER1, Some(height))).collect();
    let totals: Vec<TotalVestingInfo> =
        (995..1007).map(|height| total_at(&deps, env, Some(height))).collect();

    env = env_at(1010, 80);
    execute(&mut deps, env, info_of(USER1), ExecuteMsg::Claim { recipient: None }).unwrap();
    env = env_at(1012, 90);
    execute(&mut deps, env, info_of(USER2), ExecuteMsg::Claim { recipient: None }).unwrap();
    env = env_at(1020, 100);
    execute(&mut deps, env, info_of(USER1), ExecuteMsg::Claim { recipient: None }).unwrap();

    let after: Vec<VestingData> =
        (995..1010).map(|height| account_at(&deps, env, USER1, Some(height))).collect();
    assert_eq!(after, before);
    assert!(after.iter().all(|data| data.claimed_amount == 0));
    let vested: Vec<u128> = after.iter().map(|data| data.vested_amount).collect();
    assert_eq!(vested, vec![0, 0, 0, 0, 0, 0, 0, 0, 30, 30, 50, 50, 70, 70, 70]);
    let totals_after: Vec<TotalVestingInfo> =
        (995..1007).map(|height| total_at(&deps, env, Some(height))).collect();
    assert_eq!(totals_after, totals);
    // from the block of the claim on, the claim shows
    assert_eq!(account_at(&deps, env, USER1, Some(1010)).claimed_amount, 80);
}

#[test]
fn the_claimed_amount_never_goes_down() {
    let mut env = env_at(1000, 0);
    let mut deps = set_up(env);
    execute(&mut deps, env, info_of(OWNER), register(USER1, 1_000, 0, 1_000)).unwrap();
    let mut last = 0u128;
    let calls = [
        (ExecuteMsg::Snapshot {}, OWNER),
        (ExecuteMsg::Claim { recipient: None }, USER1),
        (ExecuteMsg::UpdateOwnerAddress { address: OWNER.to_string() }, OWNER),
        (ExecuteMsg::Claim { recipient: Some(USER1.to_string()) }, USER2),
        (register(USER2, 5, 2_000, 3_000), OWNER),
        (register(USER1, 5, 2_000, 3_000), OWNER),
        (ExecuteMsg::ProposalHook {}, USER2),
        (ExecuteMsg::Claim { recipient: None }, USER1),
    ];
    for (step, (msg, sender)) in calls.into_iter().enumerate() {
        env = env_at(1001 + step as u64, 100 * (step as u64 + 1));
        let _ = execute(&mut deps, env, info_of(sender), msg);
        let claimed = account_at(&deps, env, USER1, Some(u64::MAX)).claimed_amount;
        assert!(claimed >= last);
        last = claimed;
    }
    assert_eq!(last, 800);
}

#[test]
fn addresses_are_kept_as_they_are_written() {
    let env = env_at(1000, 0);
    let mut deps = set_up(env);
    let addresses = ["", " ", "a\"b", "back\\slash", "tab\there", "\u{7f}\u{0}", "流浪者", "addr", "addr0"];
    for (step, address) in addresses.iter().enumerate() {
        let amount = 10 + step as u128;
        execute(&mut deps, env, info_of(OWNER), register(address, amount, 100, 200)).unwrap();
        assert_eq!(
            execute(&mut deps, env, info_of(OWNER), register(address, amount, 100, 200)),
            Err(VestingError::AlreadyExists)
        );
    }
    let later = env_at(1001, 150);
    for (step, address) in addresses.iter().enumerate() {
        let amount = 10 + step as u128;
        assert_eq!(account_at(&deps, later, address, None).vesting_amount, amount);
        let claim = ExecuteMsg::Claim { recipient: Some(address.to_string()) };
        let response = execute(&mut deps, later, info_of(OWNER), claim).unwrap();
        assert_eq!(response.messages, vec![transfer(address, amount / 2)]);
    }
    let expected: u128 = (0..addresses.len() as u128).map(|step| 10 + step).sum();
    assert_eq!(total_at(&deps, env_at(1002, 150), None).vesting_amount, expected);
}
