use klmd_contracts::context::BlockInfo;
use klmd_contracts::context::Env;
use klmd_contracts::context::MessageInfo;
use klmd_contracts::custom_vesting::contract::execute;
use klmd_contracts::custom_vesting::contract::instantiate;
use klmd_contracts::custom_vesting::contract::query;
use klmd_contracts::custom_vesting::contract::Store;
use klmd_contracts::custom_vesting::error::VestingError;
use klmd_contracts::custom_vesting::msg::ExecuteMsg;
use klmd_contracts::custom_vesting::msg::InstantiateMsg;
use klmd_contracts::custom_vesting::msg::QueryMsg;
use klmd_contracts::custom_vesting::msg::QueryResponse;
use klmd_contracts::custom_vesting::msg::VestingAccountResponse;
use klmd_contracts::custom_vesting::state::VestingData;
use klmd_contracts::response::Message;
use klmd_contracts::response::Response;
use std::collections::BTreeMap;

const OWNER: &str = "owner0000";
const INITIAL_BALANCE: u128 = 100_000_000;
const USER1: &str = "user0001";
const TOKEN: &str = "contract0";
const VESTING: &str = "contract1";
/// The chain counts time in nanoseconds.
const SECOND: u64 = 1_000_000_000;

/// A chain with one token and the vesting contract on it: it keeps the block and the
/// balances, and carries out the transfers that the contract instructs.
struct Chain {
    block: BlockInfo,
    balances: BTreeMap<String, u128>,
    vesting: Store,
}

impl Chain {
    fn new() -> Chain {
        let block = BlockInfo { height: 12_345, time: 1_571_797_419_879_305_533 };
        let mut balances = BTreeMap::new();
        balances.insert(OWNER.to_string(), INITIAL_BALANCE);
        let mut vesting = Store::new();
        let msg = InstantiateMsg {
            token_address: TOKEN.to_string(),
            owner_address: Some(OWNER.to_string()),
        };
        let info = MessageInfo { sender: OWNER.to_string() };
        instantiate(&mut vesting, Env { block }, info, msg).unwrap();
        Chain { block, balances, vesting }
    }

    fn balance(&self, address: &str) -> u128 {
        self.balances.get(address).copied().unwrap_or(0)
    }

    fn transfer(&mut self, from: &str, to: &str, amount: u128) {
        let left = self.balance(from).checked_sub(amount).unwrap();
        self.balances.insert(from.to_string(), left);
        let raised = self.balance(to) + amount;
        self.balances.insert(to.to_string(), raised);
    }

    fn next_block(&mut self) {
        self.block.time += 5 * SECOND;
        self.block.height += 1;
    }

    fn jump_100_blocks(&mut self) {
        self.block.time += 500 * SECOND;
        self.block.height += 100;
    }

    fn execute(&mut self, sender: &str, msg: ExecuteMsg) -> Result<Response, VestingError> {
        let info = MessageInfo { sender: sender.to_string() };
        let response = execute(&mut self.vesting, Env { block: self.block }, info, msg)?;
        for message in &response.messages {
            match message {
                Message::Cw20Transfer { token_address, recipient, amount } => {
                    assert_eq!(token_address, TOKEN);
                    self.transfer(VESTING, recipient, *amount);
                }
                other => panic!("unexpected instruction {:?}", other),
            }
        }
        Ok(response)
    }

    fn vesting_account(&self, address: &str, height: Option<u64>) -> VestingAccountResponse {
        let msg = QueryMsg::VestingAccount { address: address.to_string(), height };
        match query(&self.vesting, Env { block: self.block }, msg).unwrap() {
            QueryResponse::VestingAccount(response) => response,
            other => panic!("unexpected answer {:?}", other),
        }
    }
}

/// The chain after the owner moved the tokens to the contract, registered the user, and
/// a snapshot was taken in the next block.
fn registered_and_snapshotted() -> (Chain, u64) {
    let mut app = Chain::new();
    let initial_block_time = app.block.time;

    // move kleo on vesting contract
    app.transfer(OWNER, VESTING, 10_000_000u128);

    // register vesting account
    let _ = app.execute(
        OWNER,
        ExecuteMsg::RegisterVestingAccount {
            address: USER1.to_string(),
            vesting_amount: 10_000_000,
            prevesting_amount: 1_000_000,
            start_time: initial_block_time,
            end_time: initial_block_time + 100 * SECOND,
        },
    );

    // 5seconds more
    app.next_block();

    // fire snapshot
    let _ = app.execute(OWNER, ExecuteMsg::Snapshot {});
    (app, initial_block_time)
}

#[test]
fn simple_e2e_test() {
    let initial_owner_balance = INITIAL_BALANCE;
    let (mut app, initial_block_time) = registered_and_snapshotted();

    println!("{:?}", TOKEN);
    println!("{:?}", VESTING);

    let owner_balance = app.balance(OWNER);
    assert_eq!(initial_owner_balance.checked_sub(10_000_000u128).unwrap(), owner_balance);

    let vesting_balance = app.balance(VESTING);
    assert_eq!(10_000_000u128, vesting_balance);

    let res = app.vesting_account(USER1, Some(app.block.height));

    assert_eq!(
        VestingAccountResponse {
            address: USER1.to_string(),
            vestings: VestingData {
                prevesting_amount: 1_000_000u128,
                prevested_amount: 10_000_000u128,
                vesting_amount: 10_000_000u128,
                vested_amount: 500_000u128,
                claimable_amount: 500_000u128,
                claimed_amount: 0,
                registration_time: initial_block_time,
                start_time: initial_block_time,
                end_time: initial_block_time + 100u64 * SECOND,
            }
        },
        res
    );

    // user1 claims tokens
    let _ = app.execute(USER1, ExecuteMsg::Claim { recipient: None });

    let user1_balance = app.balance(USER1);
    assert_eq!(500_000u128, user1_balance);

    // 5seconds more

    app.next_block();

    let res = app.vesting_account(USER1, Some(app.block.height));

    assert_eq!(
        VestingAccountResponse {
            address: USER1.to_string(),
            vestings: VestingData {
                prevesting_amount: 1_000_000u128,
                prevested_amount: 10_000_000u128,
                vesting_amount: 10_000_000u128,
                vested_amount: 500_000u128,
                claimable_amount: 0,
                claimed_amount: 500_000u128,
                registration_time: initial_block_time,
                start_time: initial_block_time,
                end_time: initial_block_time + 100u64 * SECOND,
            }
        },
        res
    );
}

#[test]
fn the_last_claim_pays_the_rest_and_closes_the_account() {
    let (mut app, _) = registered_and_snapshotted();
    app.execute(USER1, ExecuteMsg::Claim { recipient: None }).unwrap();
    app.next_block();

    // after some time
    app.jump_100_blocks();
    app.execute(USER1, ExecuteMsg::Claim { recipient: None }).unwrap();
    assert_eq!(app.balance(USER1), 10_000_000);
    assert_eq!(app.balance(VESTING), 0);

    // the account is closed: there is nothing left to deregister
    app.next_block();
    let gone = app.execute(
        OWNER,
        ExecuteMsg::DeregisterVestingAccount {
            address: USER1.to_string(),
            vested_token_recipient: Some(USER1.to_string()),
            left_vesting_token_recipient: Some(OWNER.to_string()),
        },
    );
    assert_eq!(gone, Err(VestingError::EntryNotFound));

    let user1_balance = app.balance(USER1);
    assert_eq!(10_000_000u128, user1_balance);

    let owner_balance = app.balance(OWNER);
    assert_eq!(90_000_000, owner_balance);
}
