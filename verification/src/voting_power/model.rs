use crate::response::MessageView;
use crate::response::ResponseView;
use crate::response::ValueView;
use crate::text::text_of;
use crate::voting_power::error::ContractError;
use crate::voting_power::msg::coins_of;
use crate::voting_power::msg::CoinView;
use crate::voting_power::msg::Cw20Coin;
use crate::voting_power::msg::InitView;
use crate::voting_power::msg::InstantiateMsg;
use crate::voting_power::msg::InstantiationView;
use crate::voting_power::msg::StakingInfo;
use crate::voting_power::msg::TokenInfo;
use crate::voting_power::msg::VestingInfo;
use crate::voting_power::state::ChainAnswers;
use crate::voting_power::state::StateView;
use crate::voting_power::threshold::percent_count;
use crate::voting_power::threshold::ActiveThreshold;
use vstd::prelude::*;

verus! {

/// The id under which the chain reports back on the creation of the token.
pub const INSTANTIATE_TOKEN_REPLY_ID: u64 = 0;

/// The id under which the chain reports back on the staking contract.
pub const INSTANTIATE_STAKING_REPLY_ID: u64 = 1;

/// The id under which the chain reports back on the vesting contract.
pub const INSTANTIATE_VESTING_REPLY_ID: u64 = 2;

/// How a call ends: what the module remembers afterwards, and what the
/// caller is told.
pub struct Outcome {
    pub state: StateView,
    pub result: Result<ResponseView, ContractError>,
}

/// The value that a call names, or the fallback where it names none.
pub open spec fn named_or(named: Option<Seq<char>>, fallback: Seq<char>) -> Seq<char> {
    match named {
        Some(name) => name,
        None => fallback,
    }
}

/// What is wrong with a threshold that is a percentage, if anything: it is
/// nothing, or more than one.
pub open spec fn percentage_refused(threshold: Option<ActiveThreshold>) -> bool {
    threshold matches Some(ActiveThreshold::Percentage { percent }) && !percent.is_valid_percentage()
}

/// What is wrong with a threshold that is a count, if anything: the supply
/// is not known, or the count exceeds it.
pub open spec fn count_refused(threshold: Option<ActiveThreshold>, total_supply: Option<u128>)
    -> Option<ContractError> {
    match threshold {
        Some(ActiveThreshold::AbsoluteCount { count }) => absolute_count_refused(count, total_supply),
        _ => None,
    }
}

/// What is wrong with `count` as a threshold, if anything: the supply is not
/// known, or the count exceeds it.
pub open spec fn absolute_count_refused(count: u128, total_supply: Option<u128>) -> Option<
    ContractError,
> {
    match total_supply {
        None => Some(ContractError::QueryFailed {  }),
        Some(supply) => if count > supply {
            Some(ContractError::InvalidAbsoluteCount {  })
        } else {
            None
        },
    }
}

/// The sum of the amounts of a list of balances.
pub open spec fn supply_of(balances: Seq<Cw20Coin>) -> int
    decreases balances.len(),
{
    if balances.len() == 0 {
        0
    } else {
        supply_of(balances.drop_last()) + balances.last().amount
    }
}

/// The instruction to set up a staking contract for `token_address`, owned
/// and administered by `owner`.
pub open spec fn staking_instantiation(
    code_id: u64,
    owner: Seq<char>,
    label: Seq<char>,
    unstaking_duration: Option<crate::voting_power::msg::Duration>,
    token_address: Seq<char>,
) -> MessageView {
    MessageView::Instantiate(
        InstantiationView {
            reply_id: INSTANTIATE_STAKING_REPLY_ID,
            code_id,
            admin: Some(owner),
            label,
            init: InitView::Cw20Stake {
                owner: Some(owner),
                unstaking_duration,
                token_address,
                manager: None,
            },
        },
    )
}

/// The instruction to set up a vesting contract for `token_address`, owned by
/// `owner` and administered by `admin`.
pub open spec fn vesting_instantiation(
    code_id: u64,
    admin: Seq<char>,
    label: Seq<char>,
    owner: Seq<char>,
    token_address: Seq<char>,
) -> MessageView {
    MessageView::Instantiate(
        InstantiationView {
            reply_id: INSTANTIATE_VESTING_REPLY_ID,
            code_id,
            admin: Some(admin),
            label,
            init: InitView::CustomVesting { owner_address: Some(owner), token_address },
        },
    )
}

/// The response to setting the module up for a token that exists.
pub open spec fn existing_token_response(
    token_address: Seq<char>,
    staking_contract: Option<Seq<char>>,
    staking_message: Option<MessageView>,
    vesting_contract: Option<Seq<char>>,
    vesting_message: Option<MessageView>,
) -> ResponseView {
    let named = ResponseView::empty().with_attribute("action"@, ValueView::Text("instantiate"@))
        .with_attribute("token"@, ValueView::Text("existing_token"@)).with_attribute(
        "token_address"@,
        ValueView::Text(token_address),
    );
    let vested = match vesting_contract {
        Some(address) => named.with_attribute(
            "vesting_contract"@,
            ValueView::Text("existing_vesting_contract"@),
        ).with_attribute("vesting_contract_address"@, ValueView::Text(address)),
        None => named,
    };
    let staked = match (staking_message, staking_contract) {
        (Some(message), _) => vested.with_message(message),
        (None, Some(address)) => vested.with_attribute(
            "staking_contract"@,
            ValueView::Text("existing_staking_contract"@),
        ).with_attribute("staking_contract_address"@, ValueView::Text(address)),
        (None, None) => vested,
    };
    match vesting_message {
        Some(message) => staked.with_message(message),
        None => staked,
    }
}

impl StateView {
    /// The call is rejected and this is what the module remembers.
    pub open spec fn rejected(self, error: ContractError) -> Outcome {
        Outcome { state: self, result: Err(error) }
    }

    /// How a call ends whose steps end as `outcome`: as `outcome` where that
    /// is a success, and else with its failure and with this state, in which
    /// the call found the module.
    pub open spec fn committed(self, outcome: Outcome) -> Outcome {
        match outcome.result {
            Ok(_) => outcome,
            Err(_) => Outcome { state: self, result: outcome.result },
        }
    }

    /// The call succeeds with `response` and this is what the module
    /// remembers.
    pub open spec fn answered(self, response: ResponseView) -> Outcome {
        Outcome { state: self, result: Ok(response) }
    }

    /// Setting the module up for a token that exists, once the sender and the
    /// threshold are stored: the token is stored; a threshold that is a count
    /// is held against the supply; a staking or vesting contract that exists
    /// must be for the same token and is stored, one that does not is to be
    /// set up.
    pub open spec fn instantiate_existing(
        self,
        sender: Seq<char>,
        address: Seq<char>,
        staking_contract: StakingInfo,
        vesting_contract: VestingInfo,
        threshold: Option<ActiveThreshold>,
        chain: ChainAnswers,
    ) -> Outcome {
        let tokened = StateView { token: Some(address), ..self };
        let label = chain.contract_address@;
        match count_refused(threshold, chain.total_supply) {
            Some(error) => tokened.rejected(error),
            None => {
                let staking_failure = match staking_contract {
                    StakingInfo::Existing { staking_contract_address } => match text_of(
                        chain.staking_token_address,
                    ) {
                        None => Some(ContractError::QueryFailed {  }),
                        Some(token) => if address != token {
                            Some(ContractError::StakingContractMismatch {  })
                        } else {
                            None
                        },
                    },
                    StakingInfo::New { .. } => None,
                };
                let staked = match staking_contract {
                    StakingInfo::Existing { staking_contract_address } => StateView {
                        staking_contract: Some(staking_contract_address@),
                        ..tokened
                    },
                    StakingInfo::New { .. } => tokened,
                };
                let staking_message = match staking_contract {
                    StakingInfo::Existing { .. } => None,
                    StakingInfo::New { staking_code_id, unstaking_duration } => Some(
                        staking_instantiation(
                            staking_code_id,
                            sender,
                            label,
                            unstaking_duration,
                            address,
                        ),
                    ),
                };
                match (staking_failure, vesting_contract) {
                    (Some(error), _) => tokened.rejected(error),
                    (None, VestingInfo::Existing { vesting_contract_address }) => match text_of(
                        chain.vesting_token_address,
                    ) {
                        None => staked.rejected(ContractError::QueryFailed {  }),
                        Some(token) => if address != token {
                            staked.rejected(ContractError::VestingContractMismatch {  })
                        } else {
                            (StateView {
                                vesting_contract: Some(vesting_contract_address@),
                                ..staked
                            }).answered(
                                existing_token_response(
                                    address,
                                    staked.staking_contract,
                                    staking_message,
                                    Some(vesting_contract_address@),
                                    None,
                                ),
                            )
                        },
                    },
                    (None, VestingInfo::New { vesting_code_id, owner_address }) => staked.answered(
                        existing_token_response(
                            address,
                            staked.staking_contract,
                            staking_message,
                            None,
                            Some(
                                vesting_instantiation(
                                    vesting_code_id,
                                    sender,
                                    label,
                                    named_or(text_of(owner_address), sender),
                                    address,
                                ),
                            ),
                        ),
                    ),
                }
            },
        }
    }

    /// Setting the module up for a token that is to be created, once the
    /// sender and the threshold are stored: rejected where the initial
    /// balances add up to nothing or do not add up in 128 bits; else what is
    /// needed to set up the staking and vesting contracts later is stored,
    /// and the token is to be created with the initial balances, plus that of
    /// the sender where one is named and is not zero.
    pub open spec fn instantiate_new(
        self,
        sender: Seq<char>,
        token_info: TokenInfo,
        chain: ChainAnswers,
    ) -> Outcome {
        match token_info {
            TokenInfo::New {
                code_id,
                label,
                name,
                symbol,
                decimals,
                initial_balances,
                initial_dao_balance,
                marketing,
                staking_code_id,
                unstaking_duration,
                vesting_code_id,
                vesting_owner_address,
            } => if supply_of(initial_balances@) > u128::MAX {
                self.rejected(ContractError::Overflow {  })
            } else if supply_of(initial_balances@) == 0 {
                self.rejected(ContractError::InitialBalancesError {  })
            } else {
                (StateView {
                    staking_contract_code_id: Some(staking_code_id),
                    staking_contract_unstaking_duration: Some(unstaking_duration),
                    vesting_contract_code_id: Some(vesting_code_id),
                    vesting_contract_owner: Some(named_or(text_of(vesting_owner_address), sender)),
                    ..self
                }).answered(
                    ResponseView::empty().with_attribute(
                        "action"@,
                        ValueView::Text("instantiate"@),
                    ).with_attribute("token"@, ValueView::Text("new_token"@)).with_message(
                        MessageView::Instantiate(
                            InstantiationView {
                                reply_id: INSTANTIATE_TOKEN_REPLY_ID,
                                code_id,
                                admin: Some(sender),
                                label: label@,
                                init: InitView::Cw20Base {
                                    name: name@,
                                    symbol: symbol@,
                                    decimals,
                                    initial_balances: match initial_dao_balance {
                                        Some(balance) if balance > 0 => coins_of(
                                            initial_balances@,
                                        ).push(CoinView { address: sender, amount: balance }),
                                        _ => coins_of(initial_balances@),
                                    },
                                    minter: sender,
                                    marketing,
                                },
                            },
                        ),
                    ),
                )
            },
            _ => self.rejected(ContractError::NotFound {  }),
        }
    }

    /// Setting the module up: the version and the sender, as the DAO, are
    /// stored; a threshold that is a percentage must be above nothing and at
    /// most one, and any threshold is stored; then the token is dealt with.
    /// Where the call fails, the outcome shows how far the state had come by
    /// then.
    pub open spec fn instantiate_steps(
        self,
        version: (Seq<char>, Seq<char>),
        sender: Seq<char>,
        msg: InstantiateMsg,
        chain: ChainAnswers,
    ) -> Outcome {
        let begun = StateView { version: Some(version), dao: Some(sender), ..self };
        if percentage_refused(msg.active_threshold) {
            begun.rejected(ContractError::InvalidActivePercentage {  })
        } else {
            let kept = match msg.active_threshold {
                Some(threshold) => StateView { active_threshold: Some(threshold), ..begun },
                None => begun,
            };
            match msg.token_info {
                TokenInfo::Existing { address, staking_contract, vesting_contract } => kept
                    .instantiate_existing(
                    sender,
                    address@,
                    staking_contract,
                    vesting_contract,
                    msg.active_threshold,
                    chain,
                ),
                TokenInfo::New { .. } => kept.instantiate_new(sender, msg.token_info, chain),
            }
        }
    }

    /// Changing the threshold, which only the DAO may do: a percentage must
    /// be above nothing and at most one, a count at most the supply of the
    /// token; no threshold drops the one there is.
    pub open spec fn update_active_threshold(
        self,
        sender: Seq<char>,
        new_threshold: Option<ActiveThreshold>,
        chain: ChainAnswers,
    ) -> Outcome {
        match self.dao {
            None => self.rejected(ContractError::NotFound {  }),
            Some(dao) => if sender != dao {
                self.rejected(ContractError::Unauthorized {  })
            } else if percentage_refused(new_threshold) {
                self.rejected(ContractError::InvalidActivePercentage {  })
            } else if new_threshold matches Some(ActiveThreshold::AbsoluteCount { .. })
                && self.token is None {
                self.rejected(ContractError::NotFound {  })
            } else {
                match count_refused(new_threshold, chain.total_supply) {
                    Some(error) => self.rejected(error),
                    None => (StateView { active_threshold: new_threshold, ..self }).answered(
                        ResponseView::empty().with_attribute(
                            "action"@,
                            ValueView::Text("update_active_threshold"@),
                        ),
                    ),
                }
            },
        }
    }

    /// Hearing back about the token: rejected where it was not created or a
    /// token is stored already; else the token is stored, a threshold that is
    /// a count is held against its supply, and the staking and the vesting
    /// contract are to be set up for it, administered by the DAO.
    pub open spec fn token_instantiated(self, address: Option<Seq<char>>, chain: ChainAnswers)
        -> Outcome {
        match address {
            None => self.rejected(ContractError::TokenInstantiateError {  }),
            Some(token) => if self.token is Some {
                self.rejected(ContractError::DuplicateToken {  })
            } else {
                let tokened = StateView { token: Some(token), ..self };
                match (
                    count_refused(self.active_threshold, chain.total_supply),
                    self.staking_contract_code_id,
                    self.staking_contract_unstaking_duration,
                    self.dao,
                    self.vesting_contract_code_id,
                ) {
                    (Some(error), _, _, _, _) => tokened.rejected(error),
                    (
                        None,
                        Some(staking_code_id),
                        Some(unstaking_duration),
                        Some(dao),
                        Some(vesting_code_id),
                    ) => tokened.answered(
                        ResponseView::empty().with_attribute(
                            "token_address"@,
                            ValueView::Text(token),
                        ).with_message(
                            staking_instantiation(
                                staking_code_id,
                                dao,
                                chain.contract_address@,
                                unstaking_duration,
                                token,
                            ),
                        ).with_message(
                            vesting_instantiation(
                                vesting_code_id,
                                dao,
                                chain.contract_address@,
                                named_or(self.vesting_contract_owner, dao),
                                token,
                            ),
                        ),
                    ),
                    _ => tokened.rejected(ContractError::NotFound {  }),
                }
            },
        }
    }

    /// Hearing back about the staking contract: rejected where it was not set
    /// up or one is stored already; else it is stored.
    pub open spec fn staking_instantiated(self, address: Option<Seq<char>>) -> Outcome {
        match address {
            None => self.rejected(ContractError::TokenInstantiateError {  }),
            Some(staking) => if self.staking_contract is Some {
                self.rejected(ContractError::DuplicateStakingContract {  })
            } else {
                (StateView { staking_contract: Some(staking), ..self }).answered(
                    ResponseView::empty().with_attribute(
                        "staking_contract"@,
                        ValueView::Text(staking),
                    ),
                )
            },
        }
    }

    /// Hearing back about the vesting contract: rejected where it was not set
    /// up or one is stored already; else it is stored.
    pub open spec fn vesting_instantiated(self, address: Option<Seq<char>>) -> Outcome {
        match address {
            None => self.rejected(ContractError::VestingInstantiateError {  }),
            Some(vesting) => if self.vesting_contract is Some {
                self.rejected(ContractError::DuplicateVestingContract {  })
            } else {
                (StateView { vesting_contract: Some(vesting), ..self }).answered(
                    ResponseView::empty().with_attribute(
                        "vesting_contract"@,
                        ValueView::Text(vesting),
                    ),
                )
            },
        }
    }

    /// Setting the module up: where the steps of it succeed, as they end;
    /// where one of them fails, with its failure and nothing changed.
    pub open spec fn instantiate(
        self,
        version: (Seq<char>, Seq<char>),
        sender: Seq<char>,
        msg: InstantiateMsg,
        chain: ChainAnswers,
    ) -> Outcome {
        self.committed(self.instantiate_steps(version, sender, msg, chain))
    }

    /// Hearing back, under `id`, that a contract was set up at `address`, or
    /// that it was not: what is stored on the way, and how it ends.
    pub open spec fn replied_steps(self, id: u64, address: Option<Seq<char>>, chain: ChainAnswers)
        -> Outcome {
        if id == INSTANTIATE_TOKEN_REPLY_ID {
            self.token_instantiated(address, chain)
        } else if id == INSTANTIATE_STAKING_REPLY_ID {
            self.staking_instantiated(address)
        } else if id == INSTANTIATE_VESTING_REPLY_ID {
            self.vesting_instantiated(address)
        } else {
            self.rejected(ContractError::UnknownReplyId { id })
        }
    }

    /// Hearing back, under `id`, that a contract was set up at `address`, or
    /// that it was not: where that is taken in, as `replied_steps` ends;
    /// where it is rejected, with the failure and nothing changed.
    pub open spec fn replied(self, id: u64, address: Option<Seq<char>>, chain: ChainAnswers)
        -> Outcome {
        self.committed(self.replied_steps(id, address, chain))
    }
}

/// The voting power of an address: what it has staked plus what it can claim
/// from the vesting contract; nothing where that does not fit in 128 bits.
pub open spec fn power_of(staked: u128, claimable: u128) -> u128 {
    if staked + claimable > u128::MAX {
        0
    } else {
        (staked + claimable) as u128
    }
}

/// The voting power that vesting gives in all: what is vested and not yet
/// claimed; nothing where more is claimed than vested.
pub open spec fn vesting_power_of(vested: u128, claimed: u128) -> u128 {
    if claimed > vested {
        0
    } else {
        (vested - claimed) as u128
    }
}

/// The voting power there is in all: what is staked plus what vesting gives.
pub open spec fn total_power_of(staked: u128, vested: u128, claimed: u128) -> u128 {
    power_of(staked, vesting_power_of(vested, claimed))
}

/// Whether `power` reaches `threshold`, given the supply of the token.
pub open spec fn reaches(power: u128, threshold: ActiveThreshold, total_supply: u128) -> bool {
    match threshold {
        ActiveThreshold::AbsoluteCount { count } => power >= count,
        ActiveThreshold::Percentage { percent } => power >= percent_count(total_supply, percent),
    }
}

} // verus!
