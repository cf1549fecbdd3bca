use crate::context::BlockInfo;
use crate::response::MessageView;
use crate::response::ResponseView;
use crate::response::ValueView;
use crate::rev_share::error::ContractError;
use crate::rev_share::state::allocation_of;
use crate::rev_share::state::ChainAnswers;
use crate::rev_share::state::ConfigView;
use crate::rev_share::state::Stage;
use crate::schedule::Expiration;
use crate::schedule::Scheduled;
use crate::storage::MAX_ADDRESS_LENGTH;
use vstd::prelude::*;

verus! {

/// Everything the revenue-share contract remembers between calls.
pub struct StateView {
    /// The name and the version that the code last set, once set up.
    pub version: Option<(Seq<char>, Seq<char>)>,
    pub config: Option<ConfigView>,
    /// The number of the stage that was created last; zero where none was.
    pub latest_stage: Option<u8>,
    pub stages: Map<u8, Stage>,
    /// Who has claimed its share of which stage.
    pub claims: Map<(Seq<char>, u8), bool>,
}

/// How a call ends: what the contract remembers afterwards, and what the
/// caller is told.
pub struct Outcome {
    pub state: StateView,
    pub result: Result<ResponseView, ContractError>,
}

/// The value that a call names, or the fallback where it names none.
pub open spec fn named_or(named: Option<Seq<char>>, fallback: Seq<char>) -> Seq<char> {
    match named {
        Some(name) => name,
        None => fallback,
    }
}

/// The instruction that sends `amount` of `denom` to `to_address`.
pub open spec fn send_of(to_address: Seq<char>, denom: Seq<char>, amount: u128) -> MessageView {
    MessageView::BankSend { to_address, denom, amount }
}

/// What a change of the settings reports.
pub open spec fn update_config_response() -> ResponseView {
    ResponseView::empty().with_attribute("action"@, ValueView::Text("update_config"@))
}

/// What the creation of a stage reports: its number and what it hands out.
pub open spec fn create_new_stage_response(stage: u8, total_amount: u128) -> ResponseView {
    ResponseView::empty().with_attribute("action"@, ValueView::Text("create_new_stage"@))
        .with_attribute("stage"@, ValueView::Number(stage as u64)).with_attribute(
        "total_amount"@,
        ValueView::Amount(total_amount),
    )
}

/// What pausing a stage reports.
pub open spec fn pause_response(stage: u8) -> ResponseView {
    ResponseView::empty().with_attribute("action"@, ValueView::Text("pause"@)).with_attribute(
        "stage"@,
        ValueView::Number(stage as u64),
    ).with_attribute("stage_paused"@, ValueView::Text("true"@))
}

/// What a claim reports and instructs: the payment of the share to the sender.
pub open spec fn claim_response(stage: u8, sender: Seq<char>, denom: Seq<char>, amount: u128)
    -> ResponseView {
    ResponseView::empty().with_message(send_of(sender, denom, amount)).with_attribute(
        "action"@,
        ValueView::Text("claim"@),
    ).with_attribute("stage"@, ValueView::Number(stage as u64)).with_attribute(
        "address"@,
        ValueView::Text(sender),
    ).with_attribute("amount"@, ValueView::Amount(amount))
}

/// What freezing the contract reports.
pub open spec fn lock_response() -> ResponseView {
    ResponseView::empty().with_attribute("action"@, ValueView::Text("lock_contract"@))
}

/// What a withdrawal from a stage reports and instructs: the payment to the recipient.
pub open spec fn withdraw_response(
    stage: u8,
    sender: Seq<char>,
    recipient: Seq<char>,
    denom: Seq<char>,
    amount: u128,
) -> ResponseView {
    ResponseView::empty().with_message(send_of(recipient, denom, amount)).with_attribute(
        "action"@,
        ValueView::Text("withdraw"@),
    ).with_attribute("stage"@, ValueView::Number(stage as u64)).with_attribute(
        "address"@,
        ValueView::Text(sender),
    ).with_attribute("amount"@, ValueView::Amount(amount)).with_attribute(
        "recipient"@,
        ValueView::Text(recipient),
    )
}

/// What a withdrawal from the balance reports and instructs: the payment to the
/// recipient.
pub open spec fn withdraw_all_response(
    sender: Seq<char>,
    recipient: Seq<char>,
    denom: Seq<char>,
    amount: u128,
) -> ResponseView {
    ResponseView::empty().with_message(send_of(recipient, denom, amount)).with_attribute(
        "action"@,
        ValueView::Text("withdraw_all"@),
    ).with_attribute("address"@, ValueView::Text(sender)).with_attribute(
        "amount"@,
        ValueView::Amount(amount),
    ).with_attribute("recipient"@, ValueView::Text(recipient))
}

/// What keeps a stage from being used in `block`, if anything: it has not
/// begun yet, or it has expired.
pub open spec fn not_open(stage: u8, record: Stage, block: BlockInfo) -> Option<ContractError> {
    match record.start {
        Some(start) if !start.triggered_in(block) => Some(
            ContractError::StageNotBegun { stage, start },
        ),
        _ => if record.expiration.expired_in(block) {
            Some(ContractError::StageExpired { stage, expiration: record.expiration })
        } else {
            None
        },
    }
}

/// What keeps the funds of a stage from being withdrawn in `block`, if
/// anything: it is neither paused nor expired.
pub open spec fn not_done(stage: u8, record: Stage, block: BlockInfo) -> Option<ContractError> {
    if !record.paused && !record.expiration.expired_in(block) {
        Some(ContractError::StageNotExpired { stage, expiration: record.expiration })
    } else {
        None
    }
}

impl StateView {
    /// What a contract remembers before it is set up.
    pub open spec fn empty() -> StateView {
        StateView {
            version: None,
            config: None,
            latest_stage: None,
            stages: Map::empty(),
            claims: Map::empty(),
        }
    }

    /// The call is rejected and nothing changes.
    pub open spec fn rejected(self, error: ContractError) -> Outcome {
        Outcome { state: self, result: Err(error) }
    }

    /// The call succeeds with `response` and nothing changes.
    pub open spec fn answered(self, response: ResponseView) -> Outcome {
        Outcome { state: self, result: Ok(response) }
    }

    /// The record of `stage`, if it exists.
    pub open spec fn stage(self, stage: u8) -> Option<Stage> {
        if self.stages.contains_key(stage) {
            Some(self.stages[stage])
        } else {
            None
        }
    }

    /// Whether `sender` may use what is reserved to the owner: the contract
    /// is set up, has an owner, and the sender is it.
    pub open spec fn only_owner(self, sender: Seq<char>) -> Result<(), ContractError> {
        match self.config {
            None => Err(ContractError::NotFound {  }),
            Some(config) => match config.owner {
                None => Err(ContractError::Unauthorized {  }),
                Some(owner) => if owner != sender {
                    Err(ContractError::Unauthorized {  })
                } else {
                    Ok(())
                },
            },
        }
    }

    /// Setting the contract up: the version and the settings are stored, with
    /// the sender as the owner where the message names none, and no stage
    /// exists yet.
    pub open spec fn instantiate(
        self,
        version: (Seq<char>, Seq<char>),
        sender: Seq<char>,
        owner: Option<Seq<char>>,
        cw20_token_address: Seq<char>,
        native_token: Seq<char>,
        cw20_staking_address: Seq<char>,
    ) -> Outcome {
        Outcome {
            state: StateView {
                version: Some(version),
                config: Some(
                    ConfigView {
                        owner: Some(named_or(owner, sender)),
                        cw20_token_address,
                        native_token,
                        cw20_staking_address,
                    },
                ),
                latest_stage: Some(0),
                ..self
            },
            result: Ok(ResponseView::empty()),
        }
    }

    /// Changing the settings, which only the owner may do: each setting that
    /// the call names is replaced, the others stay.
    pub open spec fn update_config(
        self,
        sender: Seq<char>,
        new_owner: Option<Seq<char>>,
        cw20_token_address: Option<Seq<char>>,
        native_token: Option<Seq<char>>,
        cw20_staking_address: Option<Seq<char>>,
    ) -> Outcome {
        match self.only_owner(sender) {
            Err(error) => self.rejected(error),
            Ok(_) => {
                let current = self.config->0;
                Outcome {
                    state: StateView {
                        config: Some(
                            ConfigView {
                                owner: if new_owner is Some {
                                    new_owner
                                } else {
                                    current.owner
                                },
                                cw20_token_address: named_or(
                                    cw20_token_address,
                                    current.cw20_token_address,
                                ),
                                native_token: named_or(native_token, current.native_token),
                                cw20_staking_address: named_or(
                                    cw20_staking_address,
                                    current.cw20_staking_address,
                                ),
                            },
                        ),
                        ..self
                    },
                    result: Ok(update_config_response()),
                }
            },
        }
    }

    /// Creating the next stage, which only the owner may do: it gets the next
    /// number, counts the stakes of `snapshot_block` (the current block where
    /// none is named), never expires where no expiration is named, is not
    /// paused, and nothing of it is claimed. Fails with `Overflow` once 255
    /// stages exist.
    pub open spec fn create_new_stage(
        self,
        block: BlockInfo,
        sender: Seq<char>,
        total_amount: u128,
        snapshot_block: Option<u64>,
        expiration: Option<Expiration>,
        start: Option<Scheduled>,
    ) -> Outcome {
        match (self.only_owner(sender), self.latest_stage) {
            (Err(error), _) => self.rejected(error),
            (Ok(_), None) => self.rejected(ContractError::NotFound {  }),
            (Ok(_), Some(latest)) => if latest == u8::MAX {
                self.rejected(ContractError::Overflow {  })
            } else {
                let stage = (latest + 1) as u8;
                Outcome {
                    state: StateView {
                        latest_stage: Some(stage),
                        stages: self.stages.insert(
                            stage,
                            Stage {
                                height: match snapshot_block {
                                    Some(height) => height,
                                    None => block.height,
                                },
                                expiration: match expiration {
                                    Some(expiration) => expiration,
                                    None => Expiration::Never {  },
                                },
                                start,
                                paused: false,
                                amount: total_amount,
                                claimed: 0,
                            },
                        ),
                        ..self
                    },
                    result: Ok(create_new_stage_response(stage, total_amount)),
                }
            },
        }
    }

    /// Pausing a stage, which only the owner may do, and only while the stage
    /// is open.
    pub open spec fn pause(self, block: BlockInfo, sender: Seq<char>, stage: u8) -> Outcome {
        match (self.only_owner(sender), self.stage(stage)) {
            (Err(error), _) => self.rejected(error),
            (Ok(_), None) => self.rejected(ContractError::NotFound {  }),
            (Ok(_), Some(record)) => match not_open(stage, record, block) {
                Some(error) => self.rejected(error),
                None => Outcome {
                    state: StateView {
                        stages: self.stages.insert(stage, Stage { paused: true, ..record }),
                        ..self
                    },
                    result: Ok(pause_response(stage)),
                },
            },
        }
    }

    /// What keeps `sender` from claiming its share of `stage` before the
    /// stakes are looked at, if anything.
    pub open spec fn claim_barred(self, block: BlockInfo, sender: Seq<char>, stage: u8) -> Option<
        ContractError,
    > {
        match (self.config, self.stage(stage)) {
            (None, _) => Some(ContractError::NotFound {  }),
            (Some(_), None) => Some(ContractError::NotFound {  }),
            (Some(_), Some(record)) => match not_open(stage, record, block) {
                Some(error) => Some(error),
                None => if record.paused {
                    Some(ContractError::StagePaused { stage })
                } else if sender.len() > MAX_ADDRESS_LENGTH {
                    Some(ContractError::AddressTooLong {  })
                } else if self.claims.contains_key((sender, stage)) {
                    Some(ContractError::Claimed {  })
                } else {
                    None
                },
            },
        }
    }

    /// Claiming the sender's share of a stage. Rejected, with nothing
    /// changed, where the claim is barred, the stakes are not known, the
    /// sender had no stake, the claimed total would not fit, or the
    /// contract's balance is not known or does not cover the share. Else the
    /// share is added to what was claimed of the stage, the sender is marked,
    /// and the payment is instructed.
    pub open spec fn claim(self, block: BlockInfo, sender: Seq<char>, stage: u8, chain: ChainAnswers)
        -> Outcome {
        match self.claim_barred(block, sender, stage) {
            Some(error) => self.rejected(error),
            None => match (chain.total_staked, chain.staked_balance) {
                (None, _) => self.rejected(ContractError::QueryFailed {  }),
                (Some(_), None) => self.rejected(ContractError::NoStake {  }),
                (Some(total_staked), Some(stake)) => {
                    let record = self.stages[stage];
                    let allocation = allocation_of(record.amount, total_staked, stake);
                    if stake == 0 {
                        self.rejected(ContractError::NoStake {  })
                    } else if record.claimed + allocation > u128::MAX {
                        self.rejected(ContractError::Overflow {  })
                    } else {
                        let marked = StateView {
                            stages: self.stages.insert(
                                stage,
                                Stage { claimed: (record.claimed + allocation) as u128, ..record },
                            ),
                            claims: self.claims.insert((sender, stage), true),
                            ..self
                        };
                        match chain.balance {
                            None => self.rejected(ContractError::QueryFailed {  }),
                            Some(balance) => if balance < allocation {
                                self.rejected(
                                    ContractError::InsufficientFunds { balance, amount: allocation },
                                )
                            } else {
                                marked.answered(
                                    claim_response(
                                        stage,
                                        sender,
                                        self.config->0.native_token,
                                        allocation,
                                    ),
                                )
                            },
                        }
                    }
                },
            },
        }
    }

    /// Freezing the contract, which only the owner may do: it has no owner
    /// from then on.
    pub open spec fn lock(self, sender: Seq<char>) -> Outcome {
        match self.only_owner(sender) {
            Err(error) => self.rejected(error),
            Ok(_) => Outcome {
                state: StateView {
                    config: Some(ConfigView { owner: None, ..self.config->0 }),
                    ..self
                },
                result: Ok(lock_response()),
            },
        }
    }

    /// Withdrawing what is left of a stage, which only the owner may do, and
    /// only once the stage is paused or expired. Nothing changes; what was
    /// not claimed is sent to `address`, provided the contract's balance
    /// covers it.
    pub open spec fn withdraw(
        self,
        block: BlockInfo,
        sender: Seq<char>,
        stage: u8,
        address: Seq<char>,
        balance: Option<u128>,
    ) -> Outcome {
        match (self.only_owner(sender), self.stage(stage)) {
            (Err(error), _) => self.rejected(error),
            (Ok(_), None) => self.rejected(ContractError::NotFound {  }),
            (Ok(_), Some(record)) => match (not_done(stage, record, block), balance) {
                (Some(error), _) => self.rejected(error),
                (None, _) if record.claimed > record.amount => self.rejected(
                    ContractError::Unauthorized {  },
                ),
                (None, None) => self.rejected(ContractError::QueryFailed {  }),
                (None, Some(balance)) => if balance < record.amount - record.claimed {
                    self.rejected(
                        ContractError::InsufficientFunds {
                            balance,
                            amount: (record.amount - record.claimed) as u128,
                        },
                    )
                } else {
                    self.answered(
                        withdraw_response(
                            stage,
                            sender,
                            address,
                            self.config->0.native_token,
                            (record.amount - record.claimed) as u128,
                        ),
                    )
                },
            },
        }
    }

    /// What keeps the funds of the stages 1 to `upto` from being withdrawn in
    /// `block`, if anything: the error of the lowest stage that is missing or
    /// not done.
    pub open spec fn first_not_done(self, block: BlockInfo, upto: int) -> Option<ContractError>
        decreases upto,
    {
        if upto <= 0 {
            None
        } else {
            match self.first_not_done(block, upto - 1) {
                Some(error) => Some(error),
                None => match self.stage(upto as u8) {
                    None => Some(ContractError::NotFound {  }),
                    Some(record) => not_done(upto as u8, record, block),
                },
            }
        }
    }

    /// Withdrawing from what the contract holds, which only the owner may do,
    /// and only once every stage is paused or expired. Nothing changes;
    /// `amount`, or the whole balance where none is named, is sent to
    /// `address`, provided the balance covers it.
    pub open spec fn withdraw_all(
        self,
        block: BlockInfo,
        sender: Seq<char>,
        address: Seq<char>,
        amount: Option<u128>,
        balance: Option<u128>,
    ) -> Outcome {
        match (self.only_owner(sender), self.latest_stage) {
            (Err(error), _) => self.rejected(error),
            (Ok(_), None) => self.rejected(ContractError::NotFound {  }),
            (Ok(_), Some(latest)) => match (self.first_not_done(block, latest as int), balance) {
                (Some(error), _) => self.rejected(error),
                (None, None) => self.rejected(ContractError::QueryFailed {  }),
                (None, Some(balance)) => match amount {
                    Some(amount) if amount > balance => self.rejected(
                        ContractError::InsufficientFunds { balance, amount },
                    ),
                    _ => self.answered(
                        withdraw_all_response(
                            sender,
                            address,
                            self.config->0.native_token,
                            match amount {
                                Some(amount) => amount,
                                None => balance,
                            },
                        ),
                    ),
                },
            },
        }
    }
}

} // verus!
