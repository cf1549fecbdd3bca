use crate::context::BlockInfo;
use crate::context::Env;
use crate::custom_vesting::contract::executed;
use crate::custom_vesting::error::VestingError;
use crate::custom_vesting::model::claim_response;
use crate::custom_vesting::model::named_or;
use crate::custom_vesting::model::StoreView;
use crate::custom_vesting::msg::ExecuteMsg;
use crate::custom_vesting::ledger::Ledger;
use vstd::prelude::*;

verus! {

impl Ledger {
    /// A snapshot taken while block `N` is processed is stored under `N - 1`:
    /// the history of every live account records the account's projection
    /// there, the history of the aggregate records the sums over all live
    /// accounts there, and the histories of other addresses stay as they are.
    pub proof fn lemma_snapshot_height(self, block: BlockInfo, address: Seq<char>)
        requires
            self.snapshot(block) is Ok,
        ensures
            block.height >= 1,
            self.snapshot(block)->Ok_0.total == self.total.record(
                self.sums(block.time).total(),
                (block.height - 1) as u64,
            ),
            self.snapshot(block)->Ok_0.total.changes.contains_key((block.height - 1) as u64),
            self.accounts.contains_key(address) ==> {
                &&& self.snapshot(block)->Ok_0.data_of(address) == self.data_of(address).record(
                    self.accounts[address].projection(block.time),
                    (block.height - 1) as u64,
                )
                &&& self.snapshot(block)->Ok_0.data_of(address).changes.contains_key(
                    (block.height - 1) as u64,
                )
            },
            !self.accounts.contains_key(address) ==> self.snapshot(block)->Ok_0.data_of(address)
                == self.data_of(address),
    {
    }

    /// At every snapshot the aggregate that is recorded is the sum, field by
    /// field, of the projections that are recorded for the live accounts: the
    /// vested amounts add up to the aggregate's vested amount, the claimed
    /// amounts to its claimed amount, and so for the other three.
    pub proof fn lemma_snapshot_conserves(self, block: BlockInfo, address: Seq<char>)
        requires
            self.snapshot(block) is Ok,
        ensures
            self.sums(block.time).fits(),
            self.snapshot(block)->Ok_0.total.latest == Some(self.sums(block.time).total()),
            self.snapshot(block)->Ok_0.total.latest->0.vested_amount == self.sums(
                block.time,
            ).vested,
            self.snapshot(block)->Ok_0.total.latest->0.claimed_amount == self.sums(
                block.time,
            ).claimed,
            self.accounts.contains_key(address) ==> self.snapshot(block)->Ok_0.data_of(
                address,
            ).latest == Some(self.accounts[address].projection(block.time)),
    {
    }

    /// A snapshot taken while block `N` is processed changes no answer about a
    /// height below `N`, for every history that was written under heights of
    /// at most `N - 1` only: what a query for such a height returned before,
    /// it returns afterwards, for an address as for the aggregate. Such a
    /// history remains written under heights of at most `N - 1`.
    pub proof fn lemma_snapshot_pins_past(self, block: BlockInfo, address: Seq<char>, height: u64)
        requires
            self.snapshot(block) is Ok,
            height < block.height,
        ensures
            self.data_of(address).settled_by((block.height - 1) as u64) ==> {
                &&& self.snapshot(block)->Ok_0.data_of(address).settled_by(
                    (block.height - 1) as u64,
                )
                &&& self.snapshot(block)->Ok_0.data_of(address).at(height) == self.data_of(
                    address,
                ).at(height)
            },
            self.total.settled_by((block.height - 1) as u64) ==> {
                &&& self.snapshot(block)->Ok_0.total.settled_by((block.height - 1) as u64)
                &&& self.snapshot(block)->Ok_0.total.at(height) == self.total.at(height)
            },
    {
        let under = (block.height - 1) as u64;
        if self.total.settled_by(under) {
            self.total.lemma_record_pins_past(self.sums(block.time).total(), under, height);
        }
        if self.accounts.contains_key(address) && self.data_of(address).settled_by(under) {
            self.data_of(address).lemma_record_pins_past(
                self.accounts[address].projection(block.time),
                under,
                height,
            );
        }
    }

    /// A snapshot taken while block `N` is processed is what every query for
    /// a height of `N` or above returns, for every history that was written
    /// under heights of at most `N - 1` only: the projection of a live account
    /// at the block's time, and the aggregate of them all.
    pub proof fn lemma_snapshot_shows_from_block(
        self,
        block: BlockInfo,
        address: Seq<char>,
        height: u64,
    )
        requires
            self.snapshot(block) is Ok,
            height >= block.height,
        ensures
            self.total.settled_by((block.height - 1) as u64) ==> self.snapshot(block)->Ok_0.total.at(
                height,
            ) == Some(self.sums(block.time).total()),
            self.accounts.contains_key(address) && self.data_of(address).settled_by(
                (block.height - 1) as u64,
            ) ==> self.snapshot(block)->Ok_0.data_of(address).at(height) == Some(
                self.accounts[address].projection(block.time),
            ),
    {
        let under = (block.height - 1) as u64;
        if self.total.settled_by(under) {
            self.total.lemma_record_pins_past(self.sums(block.time).total(), under, height);
        }
        if self.accounts.contains_key(address) && self.data_of(address).settled_by(under) {
            self.data_of(address).lemma_record_pins_past(
                self.accounts[address].projection(block.time),
                under,
                height,
            );
        }
    }
}

/// No call lowers the claimed amount of an account that stays registered.
pub proof fn lemma_claimed_never_decreases(
    state: StoreView,
    env: Env,
    sender: Seq<char>,
    msg: ExecuteMsg,
    address: Seq<char>,
)
    requires
        state.ledger.accounts.contains_key(address),
        executed(state, env, sender, msg).state.ledger.accounts.contains_key(address),
    ensures
        executed(state, env, sender, msg).state.ledger.accounts[address].claimed_amount
            >= state.ledger.accounts[address].claimed_amount,
        executed(state, env, sender, msg).state.ledger.accounts[address].vesting_amount
            == state.ledger.accounts[address].vesting_amount,
{
    match msg {
        ExecuteMsg::Claim { recipient } => {
            let who = named_or(crate::text::text_of(recipient), sender);
            if state.ledger.accounts.contains_key(who) {
                state.ledger.accounts[who].lemma_vested_bounded(env.block.time);
            }
        },
        _ => {},
    }
}

/// One call: the block it is handled in, who sent it, and what it asks for.
pub struct Call {
    pub env: Env,
    pub sender: Seq<char>,
    pub msg: ExecuteMsg,
}

/// What the contract remembers after the calls were handled one after the
/// other, each whether it succeeded or not.
pub open spec fn after_calls(state: StoreView, calls: Seq<Call>) -> StoreView
    decreases calls.len(),
{
    if calls.len() == 0 {
        state
    } else {
        executed(
            after_calls(state, calls.drop_last()),
            calls.last().env,
            calls.last().sender,
            calls.last().msg,
        ).state
    }
}

/// Over any sequence of calls, the claimed amount of an account that stays
/// registered throughout never goes down.
pub proof fn lemma_claimed_never_decreases_over_calls(
    state: StoreView,
    calls: Seq<Call>,
    address: Seq<char>,
)
    requires
        forall|count: int|
            0 <= count <= calls.len() ==> #[trigger] after_calls(
                state,
                calls.take(count),
            ).ledger.accounts.contains_key(address),
    ensures
        after_calls(state, calls).ledger.accounts[address].claimed_amount
            >= state.ledger.accounts[address].claimed_amount,
    decreases calls.len(),
{
    if calls.len() > 0 {
        let front = calls.drop_last();
        assert forall|count: int| 0 <= count <= front.len() implies #[trigger] after_calls(
            state,
            front.take(count),
        ).ledger.accounts.contains_key(address) by {
            assert(front.take(count) =~= calls.take(count));
        }
        lemma_claimed_never_decreases_over_calls(state, front, address);
        assert(calls.take(calls.len() as int) =~= calls);
        let before = after_calls(state, front);
        lemma_claimed_never_decreases(
            before,
            calls.last().env,
            calls.last().sender,
            calls.last().msg,
            address,
        );
    }
}

/// Claiming twice with no change of time or height in between yields no
/// further tokens: once a claim has succeeded, the same claim in the same
/// block either finds the account closed, because the first claim paid out
/// the whole, or succeeds with a transfer of zero; and it leaves the live
/// accounts as the first claim left them.
pub proof fn lemma_claim_twice(
    state: StoreView,
    block: BlockInfo,
    sender: Seq<char>,
    recipient: Option<Seq<char>>,
)
    requires
        state.claim(block, sender, recipient).result is Ok,
    ensures
        ({
            let address = named_or(recipient, sender);
            let once = state.claim(block, sender, recipient).state;
            let twice = once.claim(block, sender, recipient);
            &&& twice.state.ledger.accounts == once.ledger.accounts
            &&& if once.ledger.accounts.contains_key(address) {
                &&& once.ledger.accounts[address].claimable_at(block.time) == 0
                &&& twice.result == Ok::<crate::response::ResponseView, VestingError>(
                    claim_response(state.token_address->0, address, 0),
                )
            } else {
                twice.result == Err::<crate::response::ResponseView, VestingError>(
                    VestingError::EntryNotFound,
                )
            }
        }),
{
    let address = named_or(recipient, sender);
    let terms = state.ledger.accounts[address];
    terms.lemma_vested_bounded(block.time);
    let settled = state.with_accounts(state.accounts_after_claim(address, block.time));
    let once = state.claim(block, sender, recipient).state;
    if once.ledger.accounts.contains_key(address) {
        let again = once.with_accounts(once.accounts_after_claim(address, block.time));
        assert(again.ledger.accounts =~= once.ledger.accounts);
        lemma_snapshot_twice(settled.ledger, block);
    }
}

/// A snapshot that has succeeded succeeds again in the same block.
pub proof fn lemma_snapshot_twice(ledger: Ledger, block: BlockInfo)
    requires
        ledger.snapshot(block) is Ok,
    ensures
        ledger.snapshot(block)->Ok_0.snapshot(block) is Ok,
{
    let after = ledger.snapshot(block)->Ok_0;
}

/// No call that is handled while block `N` is processed changes an answer
/// about a height below `N`, for every history that was written under heights
/// of at most `N - 1` only: a claim, a registration or a deregistration made
/// later never shows in what was recorded before. Such a history remains
/// written under heights of at most `N - 1`.
pub proof fn lemma_call_pins_past(
    state: StoreView,
    env: Env,
    sender: Seq<char>,
    msg: ExecuteMsg,
    address: Seq<char>,
    height: u64,
)
    requires
        height < env.block.height,
    ensures
        state.ledger.data_of(address).settled_by((env.block.height - 1) as u64) ==> {
            &&& executed(state, env, sender, msg).state.ledger.data_of(address).settled_by(
                (env.block.height - 1) as u64,
            )
            &&& executed(state, env, sender, msg).state.vesting_account_at(address, height)
                == state.vesting_account_at(address, height)
        },
        state.ledger.total.settled_by((env.block.height - 1) as u64) ==> {
            &&& executed(state, env, sender, msg).state.ledger.total.settled_by(
                (env.block.height - 1) as u64,
            )
            &&& executed(state, env, sender, msg).state.vesting_total_at(height)
                == state.vesting_total_at(height)
        },
{
    let block = env.block;
    match msg {
        ExecuteMsg::UpdateOwnerAddress { address: owner } => {},
        ExecuteMsg::RegisterVestingAccount {
            address: registered,
            start_time,
            end_time,
            vesting_amount,
            prevesting_amount,
        } => {
            let terms = StoreView::new_terms(
                block,
                start_time,
                end_time,
                vesting_amount,
                prevesting_amount,
            );
            let saved = state.with_accounts(state.ledger.accounts.insert(registered@, terms));
            lemma_saved_pins_past(state, saved, block, address, height);
        },
        ExecuteMsg::DeregisterVestingAccount { address: dropped, .. } => {
            let saved = state.with_accounts(state.ledger.accounts.remove(dropped@));
            lemma_saved_pins_past(state, saved, block, address, height);
        },
        ExecuteMsg::Claim { recipient } => {
            let who = named_or(crate::text::text_of(recipient), sender);
            let saved = state.with_accounts(state.accounts_after_claim(who, block.time));
            lemma_saved_pins_past(state, saved, block, address, height);
        },
        ExecuteMsg::Snapshot {  } => {
            lemma_saved_pins_past(state, state, block, address, height);
        },
        ExecuteMsg::ProposalHook {  } => {
            lemma_saved_pins_past(state, state, block, address, height);
        },
    }
}

/// What `lemma_call_pins_past` says, for a state `saved` that differs from
/// `state` in its live accounts only and is then snapshotted.
proof fn lemma_saved_pins_past(
    state: StoreView,
    saved: StoreView,
    block: BlockInfo,
    address: Seq<char>,
    height: u64,
)
    requires
        height < block.height,
        saved.ledger.data == state.ledger.data,
        saved.ledger.total == state.ledger.total,
    ensures
        saved.vesting_account_at(address, height) == state.vesting_account_at(address, height),
        saved.vesting_total_at(height) == state.vesting_total_at(height),
        saved.ledger.snapshot(block) is Ok ==> {
            let after = saved.with_ledger(saved.ledger.snapshot(block)->Ok_0);
            &&& state.ledger.data_of(address).settled_by((block.height - 1) as u64) ==> {
                &&& after.ledger.data_of(address).settled_by((block.height - 1) as u64)
                &&& after.vesting_account_at(address, height) == state.vesting_account_at(
                    address,
                    height,
                )
            }
            &&& state.ledger.total.settled_by((block.height - 1) as u64) ==> {
                &&& after.ledger.total.settled_by((block.height - 1) as u64)
                &&& after.vesting_total_at(height) == state.vesting_total_at(height)
            }
        },
{
    if saved.ledger.snapshot(block) is Ok {
        saved.ledger.lemma_snapshot_pins_past(block, address, height);
    }
}

/// A call that fails changes nothing: the contract remembers afterwards what
/// it remembered before, the live accounts and the histories included.
pub proof fn lemma_failure_changes_nothing(
    state: StoreView,
    env: Env,
    sender: Seq<char>,
    msg: ExecuteMsg,
)
    requires
        executed(state, env, sender, msg).result is Err,
    ensures
        executed(state, env, sender, msg).state == state,
{
}

/// A claim that succeeds leaves the account, where it stays registered, with
/// all that it had vested at the block's time claimed, which is no less than
/// it had claimed before.
pub proof fn lemma_claim_raises_claimed(
    state: StoreView,
    block: BlockInfo,
    sender: Seq<char>,
    recipient: Option<Seq<char>>,
)
    requires
        state.claim(block, sender, recipient).result is Ok,
    ensures
        ({
            let address = named_or(recipient, sender);
            let after = state.claim(block, sender, recipient).state;
            &&& state.ledger.accounts.contains_key(address)
            &&& after.ledger.accounts.contains_key(address) ==> {
                &&& after.ledger.accounts[address].claimed_amount
                    == state.ledger.accounts[address].vested_at(block.time)
                &&& after.ledger.accounts[address].claimed_amount
                    >= state.ledger.accounts[address].claimed_amount
            }
        }),
{
    let address = named_or(recipient, sender);
    state.ledger.accounts[address].lemma_vested_bounded(block.time);
}

/// Whether every one of the calls is handled in a block of height at most
/// `height`.
pub open spec fn in_blocks_upto(calls: Seq<Call>, height: int) -> bool {
    forall|i: int| 0 <= i < calls.len() ==> (#[trigger] calls[i]).env.block.height <= height
}

/// Whether the calls are handled in blocks above `height` whose heights never
/// fall from one call to the next.
pub open spec fn in_later_blocks(calls: Seq<Call>, height: u64) -> bool {
    &&& forall|i: int| 0 <= i < calls.len() ==> (#[trigger] calls[i]).env.block.height > height
    &&& forall|i: int, j: int|
        0 <= i <= j < calls.len() ==> (#[trigger] calls[i]).env.block.height
            <= (#[trigger] calls[j]).env.block.height
}

/// A call that is handled while a block of height at most `bound + 1` is
/// processed writes under heights of at most `bound` only.
pub proof fn lemma_call_keeps_settled(
    state: StoreView,
    env: Env,
    sender: Seq<char>,
    msg: ExecuteMsg,
    address: Seq<char>,
    bound: u64,
)
    requires
        env.block.height <= bound + 1,
    ensures
        state.ledger.data_of(address).settled_by(bound) ==> executed(
            state,
            env,
            sender,
            msg,
        ).state.ledger.data_of(address).settled_by(bound),
        state.ledger.total.settled_by(bound) ==> executed(
            state,
            env,
            sender,
            msg,
        ).state.ledger.total.settled_by(bound),
{
}

/// Calls that are all handled in blocks of height at most `bound + 1` write
/// under heights of at most `bound` only, whatever they are, in whatever
/// order they come, and whether they succeed or fail.
pub proof fn lemma_calls_keep_settled(
    state: StoreView,
    calls: Seq<Call>,
    address: Seq<char>,
    bound: u64,
)
    requires
        in_blocks_upto(calls, bound + 1),
    ensures
        state.ledger.data_of(address).settled_by(bound) ==> after_calls(
            state,
            calls,
        ).ledger.data_of(address).settled_by(bound),
        state.ledger.total.settled_by(bound) ==> after_calls(state, calls).ledger.total.settled_by(
            bound,
        ),
    decreases calls.len(),
{
    if calls.len() > 0 {
        let front = calls.drop_last();
        assert forall|i: int| 0 <= i < front.len() implies (#[trigger] front[i]).env.block.height
            <= bound + 1 by {
            assert(front[i] == calls[i]);
        }
        lemma_calls_keep_settled(state, front, address, bound);
        let last = calls.last();
        assert(last == calls[calls.len() - 1]);
        lemma_call_keeps_settled(
            after_calls(state, front),
            last.env,
            last.sender,
            last.msg,
            address,
            bound,
        );
    }
}

/// What was recorded is never rewritten: no sequence of calls that are
/// handled in later blocks, in the order of their blocks, changes an answer
/// about `height`, for every history that was written under heights of at
/// most `height` only. Registrations, claims, deregistrations and snapshots
/// may follow one another in any number, and each may succeed or fail: what a
/// query for `height` returned before them, it returns after them, for an
/// address as for the aggregate.
pub proof fn lemma_later_calls_pin_past(
    state: StoreView,
    calls: Seq<Call>,
    address: Seq<char>,
    height: u64,
)
    requires
        in_later_blocks(calls, height),
    ensures
        state.ledger.data_of(address).settled_by(height) ==> {
            &&& after_calls(state, calls).vesting_account_at(address, height)
                == state.vesting_account_at(address, height)
            &&& calls.len() > 0 ==> after_calls(state, calls).ledger.data_of(address).settled_by(
                (calls.last().env.block.height - 1) as u64,
            )
        },
        state.ledger.total.settled_by(height) ==> {
            &&& after_calls(state, calls).vesting_total_at(height) == state.vesting_total_at(height)
            &&& calls.len() > 0 ==> after_calls(state, calls).ledger.total.settled_by(
                (calls.last().env.block.height - 1) as u64,
            )
        },
    decreases calls.len(),
{
    if calls.len() > 0 {
        let front = calls.drop_last();
        let last = calls.last();
        let under = (last.env.block.height - 1) as u64;
        assert(last == calls[calls.len() - 1]);
        assert forall|i: int| 0 <= i < front.len() implies (#[trigger] front[i]) == calls[i] by {}
        assert(in_later_blocks(front, height));
        lemma_later_calls_pin_past(state, front, address, height);
        let before = after_calls(state, front);
        if front.len() > 0 {
            assert(front.last() == calls[front.len() - 1]);
        }
        if state.ledger.data_of(address).settled_by(height) {
            let reached = if front.len() > 0 {
                (front.last().env.block.height - 1) as u64
            } else {
                height
            };
            before.ledger.data_of(address).lemma_settled_later(reached, under);
        }
        if state.ledger.total.settled_by(height) {
            let reached = if front.len() > 0 {
                (front.last().env.block.height - 1) as u64
            } else {
                height
            };
            before.ledger.total.lemma_settled_later(reached, under);
        }
        lemma_call_pins_past(before, last.env, last.sender, last.msg, address, height);
    }
}

/// From a state whose histories were written under heights of at most
/// `height` only, such as a contract that is not set up: after any calls in
/// blocks of height at most `height + 1`, every answer about `height` stays
/// what it then is, whatever calls follow in later blocks in the order of
/// their blocks. So a claim made in a later block never shows in an answer
/// about a height below that block, however many registrations, snapshots
/// and claims were handled in between.
pub proof fn lemma_history_is_pinned(
    state: StoreView,
    earlier: Seq<Call>,
    later: Seq<Call>,
    address: Seq<char>,
    height: u64,
)
    requires
        state.ledger.data_of(address).settled_by(height),
        state.ledger.total.settled_by(height),
        in_blocks_upto(earlier, height + 1),
        in_later_blocks(later, height),
    ensures
        after_calls(after_calls(state, earlier), later).vesting_account_at(address, height)
            == after_calls(state, earlier).vesting_account_at(address, height),
        after_calls(after_calls(state, earlier), later).vesting_total_at(height) == after_calls(
            state,
            earlier,
        ).vesting_total_at(height),
{
    lemma_calls_keep_settled(state, earlier, address, height);
    lemma_later_calls_pin_past(after_calls(state, earlier), later, address, height);
}

/// Whether nothing counts as claimed for the address: its live account, if
/// it has one, has claimed nothing, and so has every projection that was
/// ever recorded for it.
pub open spec fn nothing_claimed(state: StoreView, address: Seq<char>) -> bool {
    let history = state.ledger.data_of(address);
    &&& state.ledger.accounts.contains_key(address)
        ==> state.ledger.accounts[address].claimed_amount == 0
    &&& history.latest matches Some(data) ==> data.claimed_amount == 0
    &&& forall|height: u64| #[trigger]
        history.changes.contains_key(height) ==> (history.changes[height] matches Some(data)
            ==> data.claimed_amount == 0)
}

/// Whether the call is a claim that pays out to the address.
pub open spec fn claims_for(call: Call, address: Seq<char>) -> bool {
    call.msg matches ExecuteMsg::Claim { recipient } && named_or(
        crate::text::text_of(recipient),
        call.sender,
    ) == address
}

/// Where nothing counts as claimed for an address, every answer about it,
/// whatever the height, shows nothing claimed.
pub proof fn lemma_nothing_claimed_shows(state: StoreView, address: Seq<char>, height: u64)
    requires
        nothing_claimed(state, address),
    ensures
        state.vesting_account_at(address, height).claimed_amount == 0,
{
    let history = state.ledger.data_of(address);
    if history.changed_from(height) {
        let found = choose|found: u64| history.is_first_change_from(height, found);
        assert(history.changes.contains_key(found));
    }
}

/// No call but a claim for the address makes anything count as claimed for
/// it: registrations, deregistrations, snapshots and the claims of others
/// leave it at nothing.
pub proof fn lemma_call_claims_nothing(state: StoreView, call: Call, address: Seq<char>)
    requires
        nothing_claimed(state, address),
        !claims_for(call, address),
    ensures
        nothing_claimed(executed(state, call.env, call.sender, call.msg).state, address),
{
    let after = executed(state, call.env, call.sender, call.msg).state;
    let before = state.ledger.data_of(address);
    let history = after.ledger.data_of(address);
    assert forall|height: u64| #[trigger] history.changes.contains_key(height) implies (
    history.changes[height] matches Some(data) ==> data.claimed_amount == 0) by {
        if before.changes.contains_key(height) {
            assert(history.changes[height] == before.changes[height]);
        }
    }
}

/// Over any sequence of calls none of which is a claim for the address,
/// nothing comes to count as claimed for it.
pub proof fn lemma_calls_claim_nothing(state: StoreView, calls: Seq<Call>, address: Seq<char>)
    requires
        nothing_claimed(state, address),
        forall|i: int| 0 <= i < calls.len() ==> !claims_for(#[trigger] calls[i], address),
    ensures
        nothing_claimed(after_calls(state, calls), address),
    decreases calls.len(),
{
    if calls.len() > 0 {
        let front = calls.drop_last();
        assert forall|i: int| 0 <= i < front.len() implies !claims_for(
            #[trigger] front[i],
            address,
        ) by {
            assert(front[i] == calls[i]);
        }
        lemma_calls_claim_nothing(state, front, address);
        assert(calls.last() == calls[calls.len() - 1]);
        lemma_call_claims_nothing(after_calls(state, front), calls.last(), address);
    }
}

/// A first claim never shows in the past. Start from a state in which
/// nothing counts as claimed for the address and its history was written
/// under heights of at most `height` only, such as a contract that is not
/// set up. Let any calls follow in blocks of height at most `height + 1`,
/// none of them a claim for the address, and then any calls at all, claims
/// for the address among them, in later blocks in the order of their blocks.
/// Then the answer about the address at `height` still shows nothing
/// claimed.
pub proof fn lemma_first_claim_never_shows_before(
    state: StoreView,
    earlier: Seq<Call>,
    later: Seq<Call>,
    address: Seq<char>,
    height: u64,
)
    requires
        nothing_claimed(state, address),
        state.ledger.data_of(address).settled_by(height),
        in_blocks_upto(earlier, height + 1),
        forall|i: int| 0 <= i < earlier.len() ==> !claims_for(#[trigger] earlier[i], address),
        in_later_blocks(later, height),
    ensures
        after_calls(after_calls(state, earlier), later).vesting_account_at(
            address,
            height,
        ).claimed_amount == 0,
{
    lemma_calls_keep_settled(state, earlier, address, height);
    lemma_later_calls_pin_past(after_calls(state, earlier), later, address, height);
    lemma_calls_claim_nothing(state, earlier, address);
    lemma_nothing_claimed_shows(after_calls(state, earlier), address, height);
}

/// An account that is registered while block `H0` is processed and claims
/// while a later block `H2` is processed shows, at every height from `H0` up
/// to but not including `H2`, as it was registered: with its projection at
/// the time of `H0` and nothing claimed. What was recorded for the address
/// before must have been recorded in blocks up to `H0`.
pub proof fn lemma_history_survives_claim(
    state: StoreView,
    registered_in: BlockInfo,
    claimed_in: BlockInfo,
    sender: Seq<char>,
    address: Seq<char>,
    start_time: u64,
    end_time: u64,
    vesting_amount: u128,
    prevesting_amount: u128,
    height: u64,
)
    requires
        state.register(
            registered_in,
            address,
            start_time,
            end_time,
            vesting_amount,
            prevesting_amount,
        ).result is Ok,
        state.register(
            registered_in,
            address,
            start_time,
            end_time,
            vesting_amount,
            prevesting_amount,
        ).state.claim(claimed_in, sender, Some(address)).result is Ok,
        state.ledger.data_of(address).settled_by((registered_in.height - 1) as u64),
        registered_in.height <= height < claimed_in.height,
    ensures
        ({
            let registered = state.register(
                registered_in,
                address,
                start_time,
                end_time,
                vesting_amount,
                prevesting_amount,
            ).state;
            let claimed = registered.claim(claimed_in, sender, Some(address)).state;
            let terms = StoreView::new_terms(
                registered_in,
                start_time,
                end_time,
                vesting_amount,
                prevesting_amount,
            );
            &&& claimed.vesting_account_at(address, height) == registered.vesting_account_at(
                address,
                height,
            )
            &&& claimed.vesting_account_at(address, height) == terms.projection(registered_in.time)
            &&& claimed.vesting_account_at(address, height).claimed_amount == 0
        }),
{
    let terms = StoreView::new_terms(
        registered_in,
        start_time,
        end_time,
        vesting_amount,
        prevesting_amount,
    );
    let saved = state.with_accounts(state.ledger.accounts.insert(address, terms));
    let registered = state.register(
        registered_in,
        address,
        start_time,
        end_time,
        vesting_amount,
        prevesting_amount,
    ).state;
    saved.ledger.lemma_snapshot_shows_from_block(registered_in, address, height);
    saved.ledger.lemma_snapshot_pins_past(registered_in, address, 0);
    registered.ledger.data_of(address).lemma_settled_later(
        (registered_in.height - 1) as u64,
        (claimed_in.height - 1) as u64,
    );
    let settled = registered.with_accounts(
        registered.accounts_after_claim(address, claimed_in.time),
    );
    settled.ledger.lemma_snapshot_pins_past(claimed_in, address, height);
}

/// Setting the contract up changes no answer about an address, whatever the
/// height; and, while block `N` is processed and where the aggregate was
/// written under heights of at most `N` only, no answer about the aggregate
/// at a height of at most `N`.
pub proof fn lemma_instantiate_pins_past(
    state: StoreView,
    version: (Seq<char>, Seq<char>),
    block: BlockInfo,
    sender: Seq<char>,
    owner_address: Option<Seq<char>>,
    token_address: Seq<char>,
    address: Seq<char>,
    height: u64,
)
    ensures
        ({
            let after = state.instantiate(version, block, sender, owner_address, token_address).state;
            &&& after.vesting_account_at(address, height) == state.vesting_account_at(
                address,
                height,
            )
            &&& state.ledger.total.settled_by(block.height) ==> after.ledger.total.settled_by(
                block.height,
            )
            &&& state.ledger.total.settled_by(block.height) && height <= block.height
                ==> after.vesting_total_at(height) == state.vesting_total_at(height)
        }),
{
    if state.ledger.total.settled_by(block.height) {
        state.ledger.total.lemma_record_pins_past(
            crate::custom_vesting::state::TotalVestingInfo::zero(),
            block.height,
            height,
        );
    }
}

/// Nothing was written to the histories of a contract that is not set up,
/// so they count as written under any height.
pub proof fn lemma_empty_is_settled(address: Seq<char>, height: u64)
    ensures
        StoreView::empty().ledger.data_of(address).settled_by(height),
        StoreView::empty().ledger.total.settled_by(height),
{
}

} // verus!
