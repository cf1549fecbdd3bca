use crate::context::BlockInfo;
use crate::custom_vesting::error::VestingError;
use crate::custom_vesting::history::History;
use crate::custom_vesting::state::TotalVestingInfo;
use crate::custom_vesting::state::VestingData;
use crate::custom_vesting::state::VestingTerms;
use crate::custom_vesting::ledger::Ledger;
use crate::response::MessageView;
use crate::response::ResponseView;
use crate::response::ValueView;
use crate::storage::MAX_ADDRESS_LENGTH;
use vstd::prelude::*;

verus! {

/// The five running sums of an aggregate, as mathematical integers.
pub struct Sums {
    pub prevesting: int,
    pub prevested: int,
    pub vesting: int,
    pub vested: int,
    pub claimed: int,
}

impl Sums {
    /// The sums of nothing.
    pub open spec fn zero() -> Sums {
        Sums { prevesting: 0, prevested: 0, vesting: 0, vested: 0, claimed: 0 }
    }

    /// These sums with the figures of one more projection added.
    pub open spec fn plus(self, data: VestingData) -> Sums {
        Sums {
            prevesting: self.prevesting + data.prevesting_amount,
            prevested: self.prevested + data.prevested_amount,
            vesting: self.vesting + data.vesting_amount,
            vested: self.vested + data.vested_amount,
            claimed: self.claimed + data.claimed_amount,
        }
    }

    /// Whether each sum fits in 128 bits.
    pub open spec fn fits(self) -> bool {
        &&& 0 <= self.prevesting <= u128::MAX
        &&& 0 <= self.prevested <= u128::MAX
        &&& 0 <= self.vesting <= u128::MAX
        &&& 0 <= self.vested <= u128::MAX
        &&& 0 <= self.claimed <= u128::MAX
    }

    /// Whether each sum is at most the corresponding sum of `other`.
    pub open spec fn within(self, other: Sums) -> bool {
        &&& 0 <= self.prevesting <= other.prevesting
        &&& 0 <= self.prevested <= other.prevested
        &&& 0 <= self.vesting <= other.vesting
        &&& 0 <= self.vested <= other.vested
        &&& 0 <= self.claimed <= other.claimed
    }

    /// The sums as an aggregate.
    pub open spec fn total(self) -> TotalVestingInfo {
        TotalVestingInfo {
            prevesting_amount: self.prevesting as u128,
            prevested_amount: self.prevested as u128,
            vesting_amount: self.vesting as u128,
            vested_amount: self.vested as u128,
            claimed_amount: self.claimed as u128,
        }
    }
}

/// The sums of the figures of a list of projections.
pub open spec fn sums_of(data: Seq<VestingData>) -> Sums
    decreases data.len(),
{
    if data.len() == 0 {
        Sums::zero()
    } else {
        sums_of(data.drop_last()).plus(data.last())
    }
}

/// The aggregate of a list of projections, or `Overflow` where one of its
/// sums does not fit in 128 bits.
pub open spec fn total_of(data: Seq<VestingData>) -> Result<TotalVestingInfo, VestingError> {
    if sums_of(data).fits() {
        Ok(sums_of(data).total())
    } else {
        Err(VestingError::Overflow)
    }
}

/// The sums over a part of a list never exceed the sums over all of it.
pub proof fn lemma_sums_grow(data: Seq<VestingData>, n: int)
    requires
        0 <= n <= data.len(),
    ensures
        sums_of(data.take(n)).within(sums_of(data)),
    decreases data.len() - n,
{
    if n == data.len() {
        assert(data.take(n) =~= data);
        lemma_sums_nonnegative(data);
    } else {
        lemma_sums_grow(data, n + 1);
        lemma_sums_nonnegative(data.take(n));
        assert(data.take(n + 1).drop_last() =~= data.take(n));
    }
}

/// No sum is negative.
pub proof fn lemma_sums_nonnegative(data: Seq<VestingData>)
    ensures
        sums_of(data).within(sums_of(data)),
    decreases data.len(),
{
    if data.len() > 0 {
        lemma_sums_nonnegative(data.drop_last());
    }
}

/// The step that adds the projection of one live account to running sums.
pub open spec fn add_account(accounts: Map<Seq<char>, VestingTerms>, time: u64) -> spec_fn(
    Sums,
    Seq<char>,
) -> Sums {
    |sums: Sums, address: Seq<char>| sums.plus(accounts[address].projection(time))
}

impl Ledger {
    /// This ledger once `address` has the account `terms`, or none where
    /// there are none; the histories are the same.
    pub open spec fn with_account(self, address: Seq<char>, terms: Option<VestingTerms>) -> Ledger {
        Ledger {
            accounts: match terms {
                Some(terms) => self.accounts.insert(address, terms),
                None => self.accounts.remove(address),
            },
            ..self
        }
    }

    /// Whether some live account has claimed more than it has vested at `time`.
    pub open spec fn underflows(self, time: u64) -> bool {
        exists|address: Seq<char>|
            self.accounts.contains_key(address) && #[trigger] self.accounts[address].projected(
                time,
            ) is Err
    }

    /// The sums of the projections of all live accounts at `time`.
    pub open spec fn sums(self, time: u64) -> Sums {
        self.accounts.dom().fold(Sums::zero(), add_account(self.accounts, time))
    }

    /// The versioned projections after each live account's projection at
    /// `time` was recorded under `height`.
    pub open spec fn snapshot_data(self, time: u64, height: u64) -> Map<
        Seq<char>,
        History<VestingData>,
    > {
        Map::total(
            |address: Seq<char>|
                if self.accounts.contains_key(address) {
                    self.data_of(address).record(self.accounts[address].projection(time), height)
                } else {
                    self.data[address]
                },
        )
    }

    /// The ledger after a snapshot taken while `block` is processed: the
    /// projection of each live account and the aggregate of them all are
    /// recorded one below the block's height. Fails, leaving everything as it
    /// was, where an account has claimed more than it has vested, where the
    /// block has height zero, or where the aggregate does not fit in 128 bits.
    pub open spec fn snapshot(self, block: BlockInfo) -> Result<Ledger, VestingError> {
        if self.underflows(block.time) {
            Err(VestingError::Underflow)
        } else if block.height == 0 {
            Err(VestingError::Underflow)
        } else if !self.sums(block.time).fits() {
            Err(VestingError::Overflow)
        } else {
            Ok(
                Ledger {
                    accounts: self.accounts,
                    data: self.snapshot_data(block.time, (block.height - 1) as u64),
                    total: self.total.record(
                        self.sums(block.time).total(),
                        (block.height - 1) as u64,
                    ),
                },
            )
        }
    }
}

/// Summing the projections of the accounts listed by `keys`, in the order of
/// the list, gives the same as folding over the set of those addresses.
pub proof fn lemma_sums_of_keys(
    accounts: Map<Seq<char>, VestingTerms>,
    time: u64,
    keys: Seq<Seq<char>>,
    data: Seq<VestingData>,
)
    requires
        keys.no_duplicates(),
        keys.len() == data.len(),
        forall|i: int| 0 <= i < keys.len() ==> data[i] == accounts[keys[i]].projection(time),
    ensures
        sums_of(data) == keys.to_set().fold(Sums::zero(), add_account(accounts, time)),
    decreases keys.len(),
{
    broadcast use vstd::seq_lib::seq_to_set_is_finite;

    let step = add_account(accounts, time);
    if keys.len() == 0 {
        assert(keys.to_set() =~= Set::<Seq<char>>::empty());
        vstd::set::fold::lemma_fold_empty(Sums::zero(), step);
    } else {
        let front = keys.drop_last();
        lemma_sums_of_keys(accounts, time, front, data.drop_last());
        assert(keys.to_set() =~= front.to_set().insert(keys.last())) by {
            assert forall|a: Seq<char>| keys.to_set().contains(a) <==> front.to_set().insert(
                keys.last(),
            ).contains(a) by {
                if keys.to_set().contains(a) {
                    let i = choose|i: int| 0 <= i < keys.len() && keys[i] == a;
                    if i < front.len() {
                        assert(front[i] == a);
                    }
                }
            }
        }
        vstd::set::fold::lemma_fold_insert(front.to_set(), Sums::zero(), step, keys.last());
    }
}

/// Everything the contract remembers between calls.
pub struct StoreView {
    /// The name and the version that the code last set, once set up.
    pub version: Option<(Seq<char>, Seq<char>)>,
    pub owner_address: Option<Seq<char>>,
    pub token_address: Option<Seq<char>>,
    pub ledger: Ledger,
}

/// How a call ends: what the contract remembers afterwards, and what the
/// caller is told.
pub struct Outcome {
    pub state: StoreView,
    pub result: Result<ResponseView, VestingError>,
}

/// The value that a call names, or the fallback where it names none.
pub open spec fn named_or(named: Option<Seq<char>>, fallback: Seq<char>) -> Seq<char> {
    match named {
        Some(name) => name,
        None => fallback,
    }
}

/// The instruction that moves `amount` of the token to `recipient`.
pub open spec fn transfer_of(token_address: Seq<char>, recipient: Seq<char>, amount: u128)
    -> MessageView {
    MessageView::Cw20Transfer { token_address, recipient, amount }
}

/// What setting the contract up reports: who owns it and which token it pays out.
pub open spec fn instantiate_response(owner_address: Seq<char>, token_address: Seq<char>)
    -> ResponseView {
    ResponseView::empty().with_attribute("owner_address"@, ValueView::Text(owner_address))
        .with_attribute("token_address"@, ValueView::Text(token_address))
}

/// What a snapshot reports: the height of the block in which it was taken.
pub open spec fn snapshot_response(height: u64) -> ResponseView {
    ResponseView::empty().with_attribute("action"@, ValueView::Text("snapshot"@)).with_attribute(
        "height"@,
        ValueView::Number(height),
    )
}

/// What a change of owner reports: the new owner.
pub open spec fn update_owner_response(owner_address: Seq<char>) -> ResponseView {
    ResponseView::empty().with_attribute("action"@, ValueView::Text("update_owner_address"@))
        .with_attribute("owner_address"@, ValueView::Text(owner_address))
}

/// What a registration reports: the address and what it is entitled to.
pub open spec fn register_response(address: Seq<char>, vesting_amount: u128) -> ResponseView {
    ResponseView::empty().with_attribute("action"@, ValueView::Text("register_vesting_account"@))
        .with_attribute("address"@, ValueView::Text(address)).with_attribute(
        "vesting_amount"@,
        ValueView::Amount(vesting_amount),
    )
}

/// What a claim reports and instructs: one transfer of the claimable amount to the
/// recipient, an amount of zero included.
pub open spec fn claim_response(token_address: Seq<char>, recipient: Seq<char>, amount: u128)
    -> ResponseView {
    ResponseView::empty().with_message(transfer_of(token_address, recipient, amount))
        .with_attribute("action"@, ValueView::Text("claim"@)).with_attribute(
        "address"@,
        ValueView::Text(recipient),
    ).with_attribute("amount"@, ValueView::Amount(amount))
}

/// The transfers that settle a deregistration: what is claimable goes to
/// `vested_recipient`, what has not vested goes to `left_recipient`, and an
/// amount of zero is not sent at all.
pub open spec fn deregister_messages(
    token_address: Seq<char>,
    vested_recipient: Seq<char>,
    claimable_amount: u128,
    left_recipient: Seq<char>,
    left_amount: u128,
) -> Seq<MessageView> {
    let first = if claimable_amount != 0 {
        seq![transfer_of(token_address, vested_recipient, claimable_amount)]
    } else {
        Seq::empty()
    };
    if left_amount != 0 {
        first.push(transfer_of(token_address, left_recipient, left_amount))
    } else {
        first
    }
}

/// What a deregistration reports: the address, its entitlement, and how it was split.
pub open spec fn deregister_response(
    messages: Seq<MessageView>,
    address: Seq<char>,
    vesting_amount: u128,
    claimable_amount: u128,
    vested_amount: u128,
    left_amount: u128,
) -> ResponseView {
    ResponseView { messages, attributes: Seq::empty() }.with_attribute(
        "action"@,
        ValueView::Text("deregister_vesting_account"@),
    ).with_attribute("address"@, ValueView::Text(address)).with_attribute(
        "vesting_amount"@,
        ValueView::Amount(vesting_amount),
    ).with_attribute("claimable_amount"@, ValueView::Amount(claimable_amount)).with_attribute(
        "vested_amount"@,
        ValueView::Amount(vested_amount),
    ).with_attribute("left_vesting_amount"@, ValueView::Amount(left_amount))
}

impl StoreView {
    /// What a contract remembers before it is set up.
    pub open spec fn empty() -> StoreView {
        StoreView { version: None, owner_address: None, token_address: None, ledger: Ledger::empty() }
    }

    /// The call is rejected and nothing changes.
    pub open spec fn rejected(self, error: VestingError) -> Outcome {
        Outcome { state: self, result: Err(error) }
    }

    /// This state with another ledger.
    pub open spec fn with_ledger(self, ledger: Ledger) -> StoreView {
        StoreView { ledger, ..self }
    }

    /// This state with other live accounts.
    pub open spec fn with_accounts(self, accounts: Map<Seq<char>, VestingTerms>) -> StoreView {
        StoreView { ledger: Ledger { accounts, ..self.ledger }, ..self }
    }

    /// Takes a snapshot of this state and, where that succeeds, reports
    /// `response`. Where the snapshot fails the call fails with it and the
    /// contract stays at `before`, the state in which the call found it.
    pub open spec fn then_snapshot(self, block: BlockInfo, response: ResponseView, before: StoreView)
        -> Outcome {
        match self.ledger.snapshot(block) {
            Ok(ledger) => Outcome { state: self.with_ledger(ledger), result: Ok(response) },
            Err(error) => before.rejected(error),
        }
    }

    /// Setting the contract up: the version, the owner (the sender where the
    /// message names none) and the token are stored, and an all-zero
    /// aggregate is recorded under the block's own height.
    pub open spec fn instantiate(
        self,
        version: (Seq<char>, Seq<char>),
        block: BlockInfo,
        sender: Seq<char>,
        owner_address: Option<Seq<char>>,
        token_address: Seq<char>,
    ) -> Outcome {
        Outcome {
            state: StoreView {
                version: Some(version),
                owner_address: Some(named_or(owner_address, sender)),
                token_address: Some(token_address),
                ledger: Ledger {
                    total: self.ledger.total.record(TotalVestingInfo::zero(), block.height),
                    ..self.ledger
                },
            },
            result: Ok(instantiate_response(named_or(owner_address, sender), token_address)),
        }
    }

    /// Taking a snapshot on request.
    pub open spec fn snapshot(self, block: BlockInfo) -> Outcome {
        self.then_snapshot(block, snapshot_response(block.height), self)
    }

    /// Whether `sender` may use what is reserved to the owner.
    pub open spec fn only_owner(self, sender: Seq<char>) -> Result<(), VestingError> {
        match self.owner_address {
            None => Err(VestingError::NotInitialized),
            Some(owner) => if owner != sender {
                Err(VestingError::Unauthorized)
            } else {
                Ok(())
            },
        }
    }

    /// Handing the contract to another owner, which only the owner may do.
    pub open spec fn update_owner_address(self, sender: Seq<char>, address: Seq<char>) -> Outcome {
        match self.only_owner(sender) {
            Err(error) => self.rejected(error),
            Ok(_) => Outcome {
                state: StoreView { owner_address: Some(address), ..self },
                result: Ok(update_owner_response(address)),
            },
        }
    }

    /// The terms under which an address is registered in `block`: it is
    /// registered at the block's time and has claimed nothing.
    pub open spec fn new_terms(
        block: BlockInfo,
        start_time: u64,
        end_time: u64,
        vesting_amount: u128,
        prevesting_amount: u128,
    ) -> VestingTerms {
        VestingTerms {
            prevesting_amount,
            vesting_amount,
            claimed_amount: 0,
            registration_time: block.time,
            start_time,
            end_time,
        }
    }

    /// Registering an account: rejected where the address is too long for a
    /// storage key, has an account already, or the terms break a rule; else
    /// the account is stored and a snapshot is taken. Where the snapshot
    /// fails, the account is not stored either.
    pub open spec fn register(
        self,
        block: BlockInfo,
        address: Seq<char>,
        start_time: u64,
        end_time: u64,
        vesting_amount: u128,
        prevesting_amount: u128,
    ) -> Outcome {
        let terms = Self::new_terms(block, start_time, end_time, vesting_amount, prevesting_amount);
        if address.len() > MAX_ADDRESS_LENGTH {
            self.rejected(VestingError::AddressTooLong)
        } else if self.ledger.accounts.contains_key(address) {
            self.rejected(VestingError::AlreadyExists)
        } else {
            match terms.validated(block.time) {
                Err(error) => self.rejected(error),
                Ok(_) => self.with_accounts(self.ledger.accounts.insert(address, terms))
                    .then_snapshot(block, register_response(address, vesting_amount), self),
            }
        }
    }

    /// The live accounts after `address` claimed at `time` what it had vested:
    /// its claimed amount is raised to the vested amount, and the account is
    /// dropped once that is the whole.
    pub open spec fn accounts_after_claim(self, address: Seq<char>, time: u64) -> Map<
        Seq<char>,
        VestingTerms,
    > {
        let terms = self.ledger.accounts[address];
        let vested = terms.vested_at(time) as u128;
        if vested == terms.vesting_amount {
            self.ledger.accounts.remove(address)
        } else {
            self.ledger.accounts.insert(address, VestingTerms { claimed_amount: vested, ..terms })
        }
    }

    /// Claiming for `recipient` (the sender where none is named): rejected
    /// where the contract is not set up, the address has no account, or more
    /// was claimed than is vested; else the account is settled, a snapshot is
    /// taken, and one transfer of the claimable amount is instructed. Where
    /// the snapshot fails, the account stays as it was.
    pub open spec fn claim(self, block: BlockInfo, sender: Seq<char>, recipient: Option<Seq<char>>)
        -> Outcome {
        let address = named_or(recipient, sender);
        match (self.token_address, self.ledger.account_of(address)) {
            (None, _) => self.rejected(VestingError::NotInitialized),
            (Some(_), None) => self.rejected(VestingError::EntryNotFound),
            (Some(token), Some(terms)) => if terms.claimed_amount > terms.vested_at(block.time) {
                self.rejected(VestingError::Underflow)
            } else {
                self.with_accounts(self.accounts_after_claim(address, block.time)).then_snapshot(
                    block,
                    claim_response(token, address, terms.claimable_at(block.time) as u128),
                    self,
                )
            },
        }
    }

    /// Deregistering an account, which only the owner may do: rejected where
    /// the sender is not the owner, the contract is not set up, the address
    /// has no account, or the account has claimed more than it has vested.
    /// Else the account is dropped and a snapshot is taken; what is claimable
    /// goes to `vested_recipient` (the account's address where none is named)
    /// and what has not vested to `left_recipient` (the sender where none is
    /// named). Where the snapshot fails, the account stays.
    pub open spec fn deregister(
        self,
        block: BlockInfo,
        sender: Seq<char>,
        address: Seq<char>,
        vested_recipient: Option<Seq<char>>,
        left_recipient: Option<Seq<char>>,
    ) -> Outcome {
        match (self.only_owner(sender), self.token_address, self.ledger.account_of(address)) {
            (Err(error), _, _) => self.rejected(error),
            (Ok(_), None, _) => self.rejected(VestingError::NotInitialized),
            (Ok(_), Some(_), None) => self.rejected(VestingError::EntryNotFound),
            (Ok(_), Some(token), Some(terms)) => {
                let dropped = self.with_accounts(self.ledger.accounts.remove(address));
                let vested = terms.vested_at(block.time) as u128;
                let claimable = (vested - terms.claimed_amount) as u128;
                let left = (terms.vesting_amount - vested) as u128;
                if terms.claimed_amount > vested {
                    self.rejected(VestingError::Underflow)
                } else {
                    dropped.then_snapshot(
                        block,
                        deregister_response(
                            deregister_messages(
                                token,
                                named_or(vested_recipient, address),
                                claimable,
                                named_or(left_recipient, sender),
                                left,
                            ),
                            address,
                            terms.vesting_amount,
                            claimable,
                            vested,
                            left,
                        ),
                        self,
                    )
                }
            },
        }
    }

    /// The projection of `address` as of `height`, all zero where none was
    /// recorded by then.
    pub open spec fn vesting_account_at(self, address: Seq<char>, height: u64) -> VestingData {
        match self.ledger.data_of(address).at(height) {
            Some(data) => data,
            None => VestingData::zero(),
        }
    }

    /// The aggregate as of `height`, all zero where none was recorded by then.
    pub open spec fn vesting_total_at(self, height: u64) -> TotalVestingInfo {
        match self.ledger.total.at(height) {
            Some(total) => total,
            None => TotalVestingInfo::zero(),
        }
    }
}

} // verus!
