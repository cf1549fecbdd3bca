use klmd_contracts::context::BlockInfo;
use klmd_contracts::context::Env;
use klmd_contracts::context::MessageInfo;
use klmd_contracts::custom_vesting::contract::Store;
use klmd_contracts::custom_vesting::msg::ExecuteMsg;
use klmd_contracts::custom_vesting::msg::InstantiateMsg;
use klmd_contracts::custom_vesting::msg::QueryMsg;
use klmd_contracts::custom_vesting::msg::QueryResponse;
use klmd_contracts::voting_power::msg::TotalPowerAtHeightResponse;
use klmd_contracts::voting_power::msg::VotingPowerAtHeightResponse;
use klmd_contracts::voting_power::state::ChainAnswers;
use klmd_contracts::voting_power::state::State;

const DAO: &str = "dao";
const CREATOR: &str = "creator";

fn env_at(height: u64, time: u64) -> Env {
    Env { block: BlockInfo { height, time } }
}

fn info_of(sender: &str) -> MessageInfo {
    MessageInfo { sender: sender.to_string() }
}

/// What the voting module is answered when it asks the vesting contract, and a staking
/// contract in which `staked` is staked, all by the creator.
fn answers(vesting: &Store, env: Env, staked: u128, height: Option<u64>) -> ChainAnswers {
    let account = QueryMsg::VestingAccount { address: CREATOR.to_string(), height };
    let claimable = match klmd_contracts::custom_vesting::contract::query(vesting, env, account) {
        Ok(QueryResponse::VestingAccount(response)) => Some(response.vestings.claimable_amount),
        _ => None,
    };
    let total = QueryMsg::VestingTotal { height };
    let vesting_total = match klmd_contracts::custom_vesting::contract::query(vesting, env, total) {
        Ok(QueryResponse::VestingTotal(response)) => {
            Some((response.info.vested_amount, response.info.claimed_amount))
        }
        _ => None,
    };
    let asked = height.unwrap_or(env.block.height);
    ChainAnswers {
        contract_address: "voting".to_string(),
        total_supply: Some(1_000),
        staking_token_address: Some("token".to_string()),
        vesting_token_address: Some("token".to_string()),
        staked_balance: Some((staked, asked)),
        total_staked: Some((staked, asked)),
        vesting_claimable: claimable,
        vesting_total,
    }
}

fn power(voting: &State, vesting: &Store, env: Env, staked: u128, height: Option<u64>) -> (u128, u128) {
    let chain = answers(vesting, env, staked, height);
    let own: VotingPowerAtHeightResponse =
        klmd_contracts::voting_power::contract::query_voting_power_at_height(
            voting,
            env,
            CREATOR.to_string(),
            height,
            &chain,
        )
        .unwrap();
    let all: TotalPowerAtHeightResponse =
        klmd_contracts::voting_power::contract::query_total_power_at_height(
            voting, env, height, &chain,
        )
        .unwrap();
    assert_eq!(own.height, height.unwrap_or(env.block.height));
    (own.power, all.power)
}

#[test]
fn voting_power_follows_the_vesting_ledger() {
    let mut voting = State::new();
    voting.staking_contract = Some("staking".to_string());
    voting.vesting_contract = Some("vesting".to_string());

    let mut env = env_at(100, 0);
    let mut vesting = Store::new();
    let msg = InstantiateMsg { owner_address: None, token_address: "token".to_string() };
    klmd_contracts::custom_vesting::contract::instantiate(&mut vesting, env, info_of(DAO), msg)
        .unwrap();

    // nothing staked, nothing vested
    assert_eq!(power(&voting, &vesting, env, 0, None), (0, 0));

    // one token staked
    env = env_at(101, 10);
    assert_eq!(power(&voting, &vesting, env, 1, None), (1, 1));

    // a hundred tokens vest over the next hundred units of time
    let register = ExecuteMsg::RegisterVestingAccount {
        address: CREATOR.to_string(),
        vesting_amount: 100,
        prevesting_amount: 1,
        start_time: 10,
        end_time: 110,
    };
    klmd_contracts::custom_vesting::contract::execute(&mut vesting, env, info_of(DAO), register)
        .unwrap();
    env = env_at(102, 40);
    klmd_contracts::custom_vesting::contract::execute(
        &mut vesting,
        env,
        info_of(CREATOR),
        ExecuteMsg::Snapshot {},
    )
    .unwrap();
    assert_eq!(power(&voting, &vesting, env, 1, None), (31, 31));

    // claiming turns vested tokens into tokens that can be staked: the power that vesting
    // gives is gone
    env = env_at(103, 60);
    klmd_contracts::custom_vesting::contract::execute(
        &mut vesting,
        env,
        info_of(CREATOR),
        ExecuteMsg::Claim { recipient: None },
    )
    .unwrap();
    assert_eq!(power(&voting, &vesting, env, 1, None), (1, 1));

    // a proposal that was opened at height 102 still counts the power of then
    assert_eq!(power(&voting, &vesting, env, 1, Some(102)), (31, 31));
    assert_eq!(power(&voting, &vesting, env, 1, Some(101)), (1, 1));
}
