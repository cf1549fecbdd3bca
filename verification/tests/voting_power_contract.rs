use klmd_contracts::context::BlockInfo;
use klmd_contracts::context::ContractVersion;
use klmd_contracts::context::Env;
use klmd_contracts::context::MessageInfo;
use klmd_contracts::response::Attribute;
use klmd_contracts::response::AttributeValue;
use klmd_contracts::response::Message;
use klmd_contracts::response::Response;
use klmd_contracts::voting_power::contract::execute;
use klmd_contracts::voting_power::contract::instantiate;
use klmd_contracts::voting_power::contract::migrate;
use klmd_contracts::voting_power::contract::query;
use klmd_contracts::voting_power::contract::reply;
use klmd_contracts::voting_power::contract::reply_instantiated;
use klmd_contracts::voting_power::contract::CONTRACT_NAME;
use klmd_contracts::voting_power::contract::CONTRACT_VERSION;
use klmd_contracts::voting_power::error::ContractError;
use klmd_contracts::voting_power::msg::ActiveThresholdResponse;
use klmd_contracts::voting_power::msg::Cw20Coin;
use klmd_contracts::voting_power::msg::Duration;
use klmd_contracts::voting_power::msg::ExecuteMsg;
use klmd_contracts::voting_power::msg::InfoResponse;
use klmd_contracts::voting_power::msg::InitMsg;
use klmd_contracts::voting_power::msg::InstantiateMsg;
use klmd_contracts::voting_power::msg::Instantiation;
use klmd_contracts::voting_power::msg::IsActiveResponse;
use klmd_contracts::voting_power::msg::MigrateMsg;
use klmd_contracts::voting_power::msg::QueryMsg;
use klmd_contracts::voting_power::msg::QueryResponse;
use klmd_contracts::voting_power::msg::Reply;
use klmd_contracts::voting_power::msg::StakingInfo;
use klmd_contracts::voting_power::msg::TokenInfo;
use klmd_contracts::voting_power::msg::TotalPowerAtHeightResponse;
use klmd_contracts::voting_power::msg::VestingInfo;
use klmd_contracts::voting_power::msg::VotingPowerAtHeightResponse;
use klmd_contracts::voting_power::state::ChainAnswers;
use klmd_contracts::voting_power::state::State;
use klmd_contracts::voting_power::threshold::reaches_percent;
use klmd_contracts::voting_power::threshold::ActiveThreshold;
use klmd_contracts::voting_power::threshold::Decimal;

const DAO_ADDR: &str = "dao";
const CREATOR_ADDR: &str = "creator";
const VOTING_ADDR: &str = "contract0";

fn mock_env() -> Env {
    Env { block: BlockInfo { height: 12_345, time: 1_571_797_419_879_305_533 } }
}

fn info_of(sender: &str) -> MessageInfo {
    MessageInfo { sender: sender.to_string() }
}

fn silent_chain() -> ChainAnswers {
    ChainAnswers {
        contract_address: VOTING_ADDR.to_string(),
        total_supply: None,
        staking_token_address: None,
        vesting_token_address: None,
        staked_balance: None,
        total_staked: None,
        vesting_claimable: None,
        vesting_total: None,
    }
}

fn new_token(creator_balance: u128, dao_balance: Option<u128>) -> TokenInfo {
    TokenInfo::New {
        code_id: 1,
        label: "DAO DAO voting".to_string(),
        name: "DAO DAO".to_string(),
        symbol: "DAO".to_string(),
        decimals: 6,
        initial_balances: vec![Cw20Coin { address: CREATOR_ADDR.to_string(), amount: creator_balance }],
        marketing: None,
        unstaking_duration: None,
        staking_code_id: 3,
        vesting_code_id: 4,
        vesting_owner_address: None,
        initial_dao_balance: dao_balance,
    }
}

/// The chain around the module: it carries out the instructions to set contracts up and
/// reports back, and answers questions about the token and the stakes.
struct App {
    deps: State,
    supply: u128,
    staked: u128,
    height: u64,
}

impl App {
    fn chain(&self) -> ChainAnswers {
        ChainAnswers {
            total_supply: Some(self.supply),
            staked_balance: Some((self.staked, self.height)),
            total_staked: Some((self.staked, self.height)),
            vesting_claimable: Some(0),
            vesting_total: Some((0, 0)),
            ..silent_chain()
        }
    }

    /// Carries out what a response instructs, and what the replies to that instruct.
    fn carry_out(&mut self, response: Response) -> Result<(), ContractError> {
        for message in response.messages {
            let (id, address) = match message {
                Message::Instantiate(Instantiation { reply_id, init, .. }) => match init {
                    InitMsg::Cw20Base { initial_balances, .. } => {
                        self.supply = initial_balances.iter().map(|coin| coin.amount).sum();
                        (reply_id, "token")
                    }
                    InitMsg::Cw20Stake { .. } => (reply_id, "staking"),
                    InitMsg::CustomVesting { .. } => (reply_id, "vesting"),
                },
                other => panic!("unexpected instruction {:?}", other),
            };
            let chain = self.chain();
            let next = reply_instantiated(&mut self.deps, id, Some(address.to_string()), chain)?;
            self.carry_out(next)?;
        }
        Ok(())
    }

    fn instantiate_voting(msg: InstantiateMsg) -> Result<App, ContractError> {
        let mut app = App { deps: State::new(), supply: 0, staked: 0, height: 12_345 };
        let chain = app.chain();
        let response = instantiate(&mut app.deps, mock_env(), info_of(DAO_ADDR), msg, chain)?;
        app.carry_out(response)?;
        Ok(app)
    }

    fn stake_tokens(&mut self, amount: u128) {
        self.staked += amount;
        self.height += 1;
    }

    fn query(&self, msg: QueryMsg) -> Result<QueryResponse, ContractError> {
        query(&self.deps, mock_env(), msg, self.chain())
    }

    fn is_active(&self) -> IsActiveResponse {
        match self.query(QueryMsg::IsActive {}).unwrap() {
            QueryResponse::IsActive(response) => response,
            other => panic!("unexpected answer {:?}", other),
        }
    }

    fn active_threshold(&self) -> ActiveThresholdResponse {
        match self.query(QueryMsg::ActiveThreshold {}).unwrap() {
            QueryResponse::ActiveThreshold(response) => response,
            other => panic!("unexpected answer {:?}", other),
        }
    }

    fn info(&self) -> InfoResponse {
        match self.query(QueryMsg::Info {}).unwrap() {
            QueryResponse::Info(response) => response,
            other => panic!("unexpected answer {:?}", other),
        }
    }

    fn address(&self, msg: QueryMsg) -> String {
        match self.query(msg).unwrap() {
            QueryResponse::Address(address) => address,
            other => panic!("unexpected answer {:?}", other),
        }
    }
}

fn instantiate_or_panic(msg: InstantiateMsg) -> App {
    match App::instantiate_voting(msg) {
        Ok(app) => app,
        Err(error) => panic!("{}", error.message()),
    }
}

#[test]
#[should_panic(expected = "Initial governance token balances must not be empty")]
fn test_instantiate_zero_supply() {
    instantiate_or_panic(InstantiateMsg {
        token_info: new_token(0, Some(0)),
        active_threshold: None,
    });
}

#[test]
#[should_panic(expected = "Initial governance token balances must not be empty")]
fn test_instantiate_no_balances() {
    let token_info = match new_token(0, Some(0)) {
        TokenInfo::New {
            code_id,
            label,
            name,
            symbol,
            decimals,
            initial_dao_balance,
            marketing,
            staking_code_id,
            unstaking_duration,
            vesting_code_id,
            vesting_owner_address,
            ..
        } => TokenInfo::New {
            code_id,
            label,
            name,
            symbol,
            decimals,
            initial_balances: vec![],
            initial_dao_balance,
            marketing,
            staking_code_id,
            unstaking_duration,
            vesting_code_id,
            vesting_owner_address,
        },
        other => other,
    };
    instantiate_or_panic(InstantiateMsg { token_info, active_threshold: None });
}

#[test]
fn test_contract_info() {
    let app = instantiate_or_panic(InstantiateMsg {
        token_info: new_token(2, Some(0)),
        active_threshold: None,
    });

    assert_eq!(
        app.info(),
        InfoResponse {
            info: ContractVersion {
                contract: "crates.io:cw20-staked-balance-voting".to_string(),
                version: CONTRACT_VERSION.to_string()
            }
        }
    );

    assert_eq!(app.address(QueryMsg::Dao {}), DAO_ADDR);
}

#[test]
fn test_active_threshold_absolute_count() {
    let mut app = instantiate_or_panic(InstantiateMsg {
        token_info: new_token(200, Some(100)),
        active_threshold: Some(ActiveThreshold::AbsoluteCount { count: 100 }),
    });
    assert_eq!(app.address(QueryMsg::TokenContract {}), "token");
    assert_eq!(app.address(QueryMsg::StakingContract {}), "staking");

    // Not active as none staked
    assert!(!app.is_active().active);

    // Stake 100 token as creator
    app.stake_tokens(100);

    // Active as enough staked
    assert!(app.is_active().active);
}

#[test]
fn test_active_threshold_percent() {
    let mut app = instantiate_or_panic(InstantiateMsg {
        token_info: new_token(200, Some(100)),
        active_threshold: Some(ActiveThreshold::Percentage { percent: Decimal::percent(20) }),
    });

    // Not active as none staked
    assert!(!app.is_active().active);

    // Stake 60 token as creator, now active
    app.stake_tokens(60);

    assert!(app.is_active().active);
}

#[test]
fn test_active_threshold_percent_rounds_up() {
    let mut app = instantiate_or_panic(InstantiateMsg {
        token_info: new_token(5, None),
        active_threshold: Some(ActiveThreshold::Percentage { percent: Decimal::percent(50) }),
    });

    // Not active as none staked
    assert!(!app.is_active().active);

    // Stake 2 token as creator, should not be active.
    app.stake_tokens(2);
    assert!(!app.is_active().active);

    // Stake 1 more token as creator, should now be active.
    app.stake_tokens(1);
    assert!(app.is_active().active);
}

#[test]
fn test_active_threshold_none() {
    let app = instantiate_or_panic(InstantiateMsg {
        token_info: new_token(200, Some(100)),
        active_threshold: None,
    });

    // Active as no threshold
    assert!(app.is_active().active);
}

#[test]
fn test_update_active_threshold() {
    let mut app = instantiate_or_panic(InstantiateMsg {
        token_info: new_token(200, Some(100)),
        active_threshold: None,
    });

    assert_eq!(app.active_threshold().active_threshold, None);

    let msg = ExecuteMsg::UpdateActiveThreshold {
        new_threshold: Some(ActiveThreshold::AbsoluteCount { count: 100 }),
    };

    // Expect failure as sender is not the DAO
    let chain = app.chain();
    assert_eq!(
        execute(&mut app.deps, mock_env(), info_of(CREATOR_ADDR), msg, chain.clone()),
        Err(ContractError::Unauthorized {})
    );

    // Expect success as sender is the DAO
    let response = execute(&mut app.deps, mock_env(), info_of(DAO_ADDR), msg, chain.clone()).unwrap();
    assert_eq!(
        response.attributes,
        vec![Attribute {
            key: "action".to_string(),
            value: AttributeValue::Text("update_active_threshold".to_string())
        }]
    );

    assert_eq!(
        app.active_threshold().active_threshold,
        Some(ActiveThreshold::AbsoluteCount { count: 100 })
    );

    // a count above the supply, a percentage above one and one of nothing are refused
    for (new_threshold, error) in [
        (ActiveThreshold::AbsoluteCount { count: 301 }, ContractError::InvalidAbsoluteCount {}),
        (
            ActiveThreshold::Percentage { percent: Decimal::percent(101) },
            ContractError::InvalidActivePercentage {},
        ),
        (
            ActiveThreshold::Percentage { percent: Decimal::percent(0) },
            ContractError::InvalidActivePercentage {},
        ),
    ] {
        let msg = ExecuteMsg::UpdateActiveThreshold { new_threshold: Some(new_threshold) };
        assert_eq!(
            execute(&mut app.deps, mock_env(), info_of(DAO_ADDR), msg, chain.clone()),
            Err(error)
        );
    }
    // the supply must be known for a count
    let msg = ExecuteMsg::UpdateActiveThreshold {
        new_threshold: Some(ActiveThreshold::AbsoluteCount { count: 1 }),
    };
    assert_eq!(
        execute(&mut app.deps, mock_env(), info_of(DAO_ADDR), msg, silent_chain()),
        Err(ContractError::QueryFailed {})
    );

    // no threshold drops the one there is
    let msg = ExecuteMsg::UpdateActiveThreshold { new_threshold: None };
    execute(&mut app.deps, mock_env(), info_of(DAO_ADDR), msg, chain).unwrap();
    assert_eq!(app.active_threshold().active_threshold, None);
}

#[test]
#[should_panic(expected = "Active threshold percentage must be greater than 0 and less than 1")]
fn test_active_threshold_percentage_gt_100() {
    instantiate_or_panic(InstantiateMsg {
        token_info: new_token(200, Some(100)),
        active_threshold: Some(ActiveThreshold::Percentage { percent: Decimal::percent(120) }),
    });
}

#[test]
#[should_panic(expected = "Active threshold percentage must be greater than 0 and less than 1")]
fn test_active_threshold_percentage_lte_0() {
    instantiate_or_panic(InstantiateMsg {
        token_info: new_token(200, Some(100)),
        active_threshold: Some(ActiveThreshold::Percentage { percent: Decimal::percent(0) }),
    });
}

#[test]
#[should_panic(expected = "Absolute count threshold cannot be greater than the total token supply")]
fn test_active_threshold_absolute_count_invalid() {
    instantiate_or_panic(InstantiateMsg {
        token_info: new_token(200, Some(100)),
        active_threshold: Some(ActiveThreshold::AbsoluteCount { count: 10000 }),
    });
}

#[test]
fn tests_test_migrate() {
    let mut app = instantiate_or_panic(InstantiateMsg {
        token_info: new_token(2, Some(0)),
        active_threshold: None,
    });
    let info = app.info();
    let dao = app.address(QueryMsg::Dao {});
    assert_eq!(dao, DAO_ADDR);
    migrate(&mut app.deps, mock_env(), MigrateMsg {}).unwrap();
    let new_info = app.info();
    assert_eq!(info, new_info);
}

#[test]
fn tests_test_migrate_update_version() {
    let mut deps = State::new();
    deps.version = Some(ContractVersion {
        contract: "my-contract".to_string(),
        version: "old-version".to_string(),
    });
    migrate(&mut deps, mock_env(), MigrateMsg {}).unwrap();
    let version = deps.version.unwrap();
    assert_eq!(version.version, CONTRACT_VERSION);
    assert_eq!(version.contract, CONTRACT_NAME);
}

#[test]
fn a_new_token_is_created_with_the_balance_of_the_dao() {
    let mut deps = State::new();
    let msg = InstantiateMsg { token_info: new_token(2, Some(10)), active_threshold: None };
    let response = instantiate(&mut deps, mock_env(), info_of(DAO_ADDR), msg, silent_chain()).unwrap();
    assert_eq!(
        response.attributes,
        vec![
            Attribute {
                key: "action".to_string(),
                value: AttributeValue::Text("instantiate".to_string())
            },
            Attribute { key: "token".to_string(), value: AttributeValue::Text("new_token".to_string()) },
        ]
    );
    assert_eq!(
        response.messages,
        vec![Message::Instantiate(Instantiation {
            reply_id: 0,
            code_id: 1,
            admin: Some(DAO_ADDR.to_string()),
            label: "DAO DAO voting".to_string(),
            init: InitMsg::Cw20Base {
                name: "DAO DAO".to_string(),
                symbol: "DAO".to_string(),
                decimals: 6,
                initial_balances: vec![
                    Cw20Coin { address: CREATOR_ADDR.to_string(), amount: 2 },
                    Cw20Coin { address: DAO_ADDR.to_string(), amount: 10 },
                ],
                minter: DAO_ADDR.to_string(),
                marketing: None,
            },
        })]
    );
    assert_eq!(deps.staking_contract_code_id, Some(3));
    assert_eq!(deps.vesting_contract_code_id, Some(4));
    assert_eq!(deps.vesting_contract_owner, Some(DAO_ADDR.to_string()));
    assert_eq!(deps.token, None);

    // the chain reports the token: the two contracts are to be set up for it
    let response =
        reply_instantiated(&mut deps, 0, Some("token".to_string()), silent_chain()).unwrap();
    assert_eq!(
        response.attributes,
        vec![Attribute {
            key: "token_address".to_string(),
            value: AttributeValue::Text("token".to_string())
        }]
    );
    assert_eq!(
        response.messages,
        vec![
            Message::Instantiate(Instantiation {
                reply_id: 1,
                code_id: 3,
                admin: Some(DAO_ADDR.to_string()),
                label: VOTING_ADDR.to_string(),
                init: InitMsg::Cw20Stake {
                    owner: Some(DAO_ADDR.to_string()),
                    unstaking_duration: None,
                    token_address: "token".to_string(),
                    manager: None,
                },
            }),
            Message::Instantiate(Instantiation {
                reply_id: 2,
                code_id: 4,
                admin: Some(DAO_ADDR.to_string()),
                label: VOTING_ADDR.to_string(),
                init: InitMsg::CustomVesting {
                    owner_address: Some(DAO_ADDR.to_string()),
                    token_address: "token".to_string(),
                },
            }),
        ]
    );

    // a second token is refused
    assert_eq!(
        reply_instantiated(&mut deps, 0, Some("other".to_string()), silent_chain()),
        Err(ContractError::DuplicateToken {})
    );
    // then the two contracts
    let response =
        reply_instantiated(&mut deps, 1, Some("staking".to_string()), silent_chain()).unwrap();
    assert_eq!(
        response.attributes,
        vec![Attribute {
            key: "staking_contract".to_string(),
            value: AttributeValue::Text("staking".to_string())
        }]
    );
    assert_eq!(
        reply_instantiated(&mut deps, 1, Some("staking".to_string()), silent_chain()),
        Err(ContractError::DuplicateStakingContract {})
    );
    reply_instantiated(&mut deps, 2, Some("vesting".to_string()), silent_chain()).unwrap();
    assert_eq!(
        reply_instantiated(&mut deps, 2, Some("vesting".to_string()), silent_chain()),
        Err(ContractError::DuplicateVestingContract {})
    );
    assert_eq!(deps.vesting_contract, Some("vesting".to_string()));
    // and nothing else is expected
    assert_eq!(
        reply_instantiated(&mut deps, 7, Some("x".to_string()), silent_chain()),
        Err(ContractError::UnknownReplyId { id: 7 })
    );
}

#[test]
fn failed_instantiations_are_reported() {
    let mut deps = State::new();
    assert_eq!(
        reply_instantiated(&mut deps, 0, None, silent_chain()),
        Err(ContractError::TokenInstantiateError {})
    );
    assert_eq!(
        reply_instantiated(&mut deps, 1, None, silent_chain()),
        Err(ContractError::TokenInstantiateError {})
    );
    assert_eq!(
        reply_instantiated(&mut deps, 2, None, silent_chain()),
        Err(ContractError::VestingInstantiateError {})
    );
    // before the module is set up nothing is there to go on with
    assert_eq!(
        reply_instantiated(&mut deps, 0, Some("token".to_string()), silent_chain()),
        Err(ContractError::NotFound {})
    );
}

#[test]
fn a_reply_is_decoded_as_the_chain_encodes_it() {
    // field 1, length-delimited: the address; field 2 is left out
    let mut data = vec![0x0a, 0x08];
    data.extend_from_slice(b"staking1");
    let mut deps = State::new();
    let msg = Reply { id: 1, result: Ok(Some(data)) };
    let response = reply(&mut deps, mock_env(), msg, silent_chain()).unwrap();
    assert_eq!(
        response.attributes,
        vec![Attribute {
            key: "staking_contract".to_string(),
            value: AttributeValue::Text("staking1".to_string())
        }]
    );
    assert_eq!(deps.staking_contract, Some("staking1".to_string()));

    // data that does not decode, no data, and an instruction that failed
    for result in [Ok(Some(vec![0x12, 0x01, 0x00])), Ok(None), Err("out of gas".to_string())] {
        let msg = Reply { id: 2, result };
        assert_eq!(
            reply(&mut deps, mock_env(), msg, silent_chain()),
            Err(ContractError::VestingInstantiateError {})
        );
    }
    let msg = Reply { id: 9, result: Ok(None) };
    assert_eq!(
        reply(&mut deps, mock_env(), msg, silent_chain()),
        Err(ContractError::UnknownReplyId { id: 9 })
    );
}

fn existing(staking: StakingInfo, vesting: VestingInfo) -> InstantiateMsg {
    InstantiateMsg {
        token_info: TokenInfo::Existing {
            address: "token".to_string(),
            staking_contract: staking,
            vesting_contract: vesting,
        },
        active_threshold: None,
    }
}

fn stakes_token(token: &str) -> ChainAnswers {
    ChainAnswers {
        staking_token_address: Some(token.to_string()),
        vesting_token_address: Some(token.to_string()),
        total_supply: Some(1_000),
        ..silent_chain()
    }
}

fn text(key: &str, value: &str) -> Attribute {
    Attribute { key: key.to_string(), value: AttributeValue::Text(value.to_string()) }
}

#[test]
fn an_existing_token_with_existing_contracts() {
    let mut deps = State::new();
    let msg = existing(
        StakingInfo::Existing { staking_contract_address: "staking".to_string() },
        VestingInfo::Existing { vesting_contract_address: "vesting".to_string() },
    );
    let response =
        instantiate(&mut deps, mock_env(), info_of(DAO_ADDR), msg, stakes_token("token")).unwrap();
    assert!(response.messages.is_empty());
    assert_eq!(
        response.attributes,
        vec![
            text("action", "instantiate"),
            text("token", "existing_token"),
            text("token_address", "token"),
            text("vesting_contract", "existing_vesting_contract"),
            text("vesting_contract_address", "vesting"),
            text("staking_contract", "existing_staking_contract"),
            text("staking_contract_address", "staking"),
        ]
    );
    assert_eq!(deps.token, Some("token".to_string()));
    assert_eq!(deps.dao, Some(DAO_ADDR.to_string()));
    assert_eq!(deps.staking_contract, Some("staking".to_string()));
    assert_eq!(deps.vesting_contract, Some("vesting".to_string()));
}

#[test]
fn an_existing_token_with_new_contracts() {
    let mut deps = State::new();
    let msg = existing(
        StakingInfo::New { staking_code_id: 3, unstaking_duration: Some(Duration::Height(6)) },
        VestingInfo::New { vesting_code_id: 4, owner_address: Some("keeper".to_string()) },
    );
    let response =
        instantiate(&mut deps, mock_env(), info_of(DAO_ADDR), msg, silent_chain()).unwrap();
    assert_eq!(
        response.attributes,
        vec![
            text("action", "instantiate"),
            text("token", "existing_token"),
            text("token_address", "token"),
        ]
    );
    assert_eq!(
        response.messages,
        vec![
            Message::Instantiate(Instantiation {
                reply_id: 1,
                code_id: 3,
                admin: Some(DAO_ADDR.to_string()),
                label: VOTING_ADDR.to_string(),
                init: InitMsg::Cw20Stake {
                    owner: Some(DAO_ADDR.to_string()),
                    unstaking_duration: Some(Duration::Height(6)),
                    token_address: "token".to_string(),
                    manager: None,
                },
            }),
            Message::Instantiate(Instantiation {
                reply_id: 2,
                code_id: 4,
                admin: Some(DAO_ADDR.to_string()),
                label: VOTING_ADDR.to_string(),
                init: InitMsg::CustomVesting {
                    owner_address: Some("keeper".to_string()),
                    token_address: "token".to_string(),
                },
            }),
        ]
    );
    assert_eq!(deps.staking_contract, None);
}

#[test]
fn an_existing_token_with_one_new_contract() {
    let mut deps = State::new();
    let msg = existing(
        StakingInfo::Existing { staking_contract_address: "staking".to_string() },
        VestingInfo::New { vesting_code_id: 4, owner_address: None },
    );
    let response =
        instantiate(&mut deps, mock_env(), info_of(DAO_ADDR), msg, stakes_token("token")).unwrap();
    assert_eq!(
        response.attributes,
        vec![
            text("action", "instantiate"),
            text("token", "existing_token"),
            text("token_address", "token"),
            text("staking_contract", "existing_staking_contract"),
            text("staking_contract_address", "staking"),
        ]
    );
    assert_eq!(response.messages.len(), 1);

    let mut deps = State::new();
    let msg = existing(
        StakingInfo::New { staking_code_id: 3, unstaking_duration: None },
        VestingInfo::Existing { vesting_contract_address: "vesting".to_string() },
    );
    let response =
        instantiate(&mut deps, mock_env(), info_of(DAO_ADDR), msg, stakes_token("token")).unwrap();
    assert_eq!(
        response.attributes,
        vec![
            text("action", "instantiate"),
            text("token", "existing_token"),
            text("token_address", "token"),
            text("vesting_contract", "existing_vesting_contract"),
            text("vesting_contract_address", "vesting"),
        ]
    );
    assert_eq!(response.messages.len(), 1);
    assert_eq!(deps.vesting_contract, Some("vesting".to_string()));
}

#[test]
fn contracts_for_another_token_are_refused() {
    let both = || {
        existing(
            StakingInfo::Existing { staking_contract_address: "staking".to_string() },
            VestingInfo::Existing { vesting_contract_address: "vesting".to_string() },
        )
    };
    let mut deps = State::new();
    let chain = ChainAnswers {
        staking_token_address: Some("other".to_string()),
        ..stakes_token("token")
    };
    assert_eq!(
        instantiate(&mut deps, mock_env(), info_of(DAO_ADDR), both(), chain),
        Err(ContractError::StakingContractMismatch {})
    );
    let mut deps = State::new();
    let chain = ChainAnswers {
        vesting_token_address: Some("other".to_string()),
        ..stakes_token("token")
    };
    assert_eq!(
        instantiate(&mut deps, mock_env(), info_of(DAO_ADDR), both(), chain),
        Err(ContractError::VestingContractMismatch {})
    );
    // nothing of what was taken in before the call failed is kept
    assert_eq!(deps.version, None);
    assert_eq!(deps.dao, None);
    assert_eq!(deps.token, None);
    assert_eq!(deps.staking_contract, None);
    assert_eq!(deps.vesting_contract, None);

    let mut deps = State::new();
    assert_eq!(
        instantiate(&mut deps, mock_env(), info_of(DAO_ADDR), both(), silent_chain()),
        Err(ContractError::QueryFailed {})
    );
    // a count above the supply of the token
    let mut deps = State::new();
    let msg = InstantiateMsg {
        active_threshold: Some(ActiveThreshold::AbsoluteCount { count: 1_001 }),
        ..both()
    };
    assert_eq!(
        instantiate(&mut deps, mock_env(), info_of(DAO_ADDR), msg, stakes_token("token")),
        Err(ContractError::InvalidAbsoluteCount {})
    );
}

#[test]
fn initial_balances_that_do_not_add_up_are_refused() {
    let token_info = match new_token(u128::MAX, None) {
        TokenInfo::New {
            code_id,
            label,
            name,
            symbol,
            decimals,
            mut initial_balances,
            initial_dao_balance,
            marketing,
            staking_code_id,
            unstaking_duration,
            vesting_code_id,
            vesting_owner_address,
        } => {
            initial_balances.push(Cw20Coin { address: "second".to_string(), amount: 1 });
            TokenInfo::New {
                code_id,
                label,
                name,
                symbol,
                decimals,
                initial_balances,
                initial_dao_balance,
                marketing,
                staking_code_id,
                unstaking_duration,
                vesting_code_id,
                vesting_owner_address,
            }
        }
        other => other,
    };
    let mut deps = State::new();
    let msg = InstantiateMsg { token_info, active_threshold: None };
    assert_eq!(
        instantiate(&mut deps, mock_env(), info_of(DAO_ADDR), msg, silent_chain()),
        Err(ContractError::Overflow {})
    );
}

#[test]
fn voting_power_is_what_is_staked_plus_what_vesting_gives() {
    let mut deps = State::new();
    let env = mock_env();
    let asked = QueryMsg::VotingPowerAtHeight { address: CREATOR_ADDR.to_string(), height: Some(7) };
    assert_eq!(query(&deps, env, asked.clone(), silent_chain()), Err(ContractError::NotFound {}));
    deps.staking_contract = Some("staking".to_string());
    deps.vesting_contract = Some("vesting".to_string());
    assert_eq!(query(&deps, env, asked.clone(), silent_chain()), Err(ContractError::QueryFailed {}));

    let chain = ChainAnswers {
        staked_balance: Some((40, 7)),
        vesting_claimable: Some(2),
        total_staked: Some((100, 7)),
        vesting_total: Some((30, 10)),
        ..silent_chain()
    };
    assert_eq!(
        query(&deps, env, asked.clone(), chain.clone()),
        Ok(QueryResponse::VotingPowerAtHeight(VotingPowerAtHeightResponse { power: 42, height: 7 }))
    );
    assert_eq!(
        query(&deps, env, QueryMsg::TotalPowerAtHeight { height: Some(7) }, chain.clone()),
        Ok(QueryResponse::TotalPowerAtHeight(TotalPowerAtHeightResponse { power: 120, height: 7 }))
    );

    // more claimed than vested counts as no vesting power
    let chain = ChainAnswers { vesting_total: Some((10, 30)), ..chain };
    assert_eq!(
        query(&deps, env, QueryMsg::TotalPowerAtHeight { height: None }, chain.clone()),
        Ok(QueryResponse::TotalPowerAtHeight(TotalPowerAtHeightResponse { power: 100, height: 7 }))
    );
    // a sum that does not fit counts as no power at all
    let chain = ChainAnswers {
        staked_balance: Some((u128::MAX, 7)),
        vesting_claimable: Some(1),
        total_staked: Some((u128::MAX, 7)),
        vesting_total: Some((1, 0)),
        ..chain
    };
    assert_eq!(
        query(&deps, env, asked, chain.clone()),
        Ok(QueryResponse::VotingPowerAtHeight(VotingPowerAtHeightResponse { power: 0, height: 7 }))
    );
    assert_eq!(
        query(&deps, env, QueryMsg::TotalPowerAtHeight { height: None }, chain),
        Ok(QueryResponse::TotalPowerAtHeight(TotalPowerAtHeightResponse { power: 0, height: 7 }))
    );
}

#[test]
fn percentages_are_rounded_up_to_whole_tokens() {
    // 50% of 5 is 2.5: three are needed
    assert!(!reaches_percent(2, 5, Decimal::percent(50)));
    assert!(reaches_percent(3, 5, Decimal::percent(50)));
    // 20% of 300 is 60
    assert!(!reaches_percent(59, 300, Decimal::percent(20)));
    assert!(reaches_percent(60, 300, Decimal::percent(20)));
    // all of everything
    assert!(reaches_percent(u128::MAX, u128::MAX, Decimal::percent(100)));
    assert!(!reaches_percent(u128::MAX - 1, u128::MAX, Decimal::percent(100)));
    // a fraction below the precision of the scaling is dropped before rounding up
    assert!(reaches_percent(0, 1, Decimal { atomics: 999_999_999 }));
    assert!(!reaches_percent(0, 1, Decimal { atomics: 1_000_000_000 }));
    assert!(reaches_percent(1, 1, Decimal { atomics: 1_000_000_000 }));
    // more than everything can never be reached
    assert!(!reaches_percent(u128::MAX, u128::MAX, Decimal::percent(101)));
    assert_eq!(Decimal::percent(100), Decimal { atomics: 1_000_000_000_000_000_000 });
}

#[test]
fn an_active_module_needs_its_contracts() {
    let mut deps = State::new();
    deps.active_threshold = Some(ActiveThreshold::AbsoluteCount { count: 5 });
    let env = mock_env();
    assert_eq!(
        query(&deps, env, QueryMsg::IsActive {}, silent_chain()),
        Err(ContractError::NotFound {})
    );
    deps.token = Some("token".to_string());
    deps.staking_contract = Some("staking".to_string());
    deps.vesting_contract = Some("vesting".to_string());
    assert_eq!(
        query(&deps, env, QueryMsg::IsActive {}, silent_chain()),
        Err(ContractError::QueryFailed {})
    );
    let chain =
        ChainAnswers { total_staked: Some((3, 1)), vesting_total: Some((4, 2)), ..silent_chain() };
    assert_eq!(
        query(&deps, env, QueryMsg::IsActive {}, chain.clone()),
        Ok(QueryResponse::IsActive(IsActiveResponse { active: true }))
    );
    deps.active_threshold = Some(ActiveThreshold::Percentage { percent: Decimal::percent(50) });
    assert_eq!(
        query(&deps, env, QueryMsg::IsActive {}, chain.clone()),
        Err(ContractError::QueryFailed {})
    );
    let chain = ChainAnswers { total_supply: Some(11), ..chain };
    assert_eq!(
        query(&deps, env, QueryMsg::IsActive {}, chain),
        Ok(QueryResponse::IsActive(IsActiveResponse { active: false }))
    );
}
