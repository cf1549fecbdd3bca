use crate::context::Env;
use crate::context::MessageInfo;
use crate::response::AttributeValue;
use crate::response::Message;
use crate::response::Response;
use crate::storage::new_storage;
use crate::text::copy_of;
use crate::text::named_or_copy;
use crate::text::text_of;
use crate::vesting::error::ContractError;
use crate::vesting::model::due_among;
use crate::vesting::model::ids_of;
use crate::vesting::model::lemma_ids_of;
use crate::vesting::model::listing;
use crate::vesting::model::lists;
use crate::vesting::model::paid_up;
use crate::vesting::model::revocable;
use crate::vesting::model::revoked_among;
use crate::vesting::model::schedule_of;
use crate::vesting::model::transfer_for;
use crate::vesting::model::without_revoked;
use crate::vesting::model::BookView;
use crate::vesting::model::Outcome;
use crate::vesting::msg::ExecuteMsg;
use crate::vesting::msg::GetOwnerResponse;
use crate::vesting::msg::InstantiateMsg;
use crate::vesting::msg::Payment;
use crate::vesting::msg::PaymentsResponse;
use crate::vesting::msg::QueryMsg;
use crate::vesting::msg::QueryResponse;
use crate::vesting::state::record_of;
use crate::vesting::state::PaymentRecord;
use crate::vesting::state::PaymentState;
use crate::vesting::store::payment_ids;
use crate::vesting::store::payment_may_load;
use crate::vesting::store::payment_remove;
use crate::storage::decodes;
use crate::storage::entries_kept;
use crate::storage::number_entry;
use crate::storage::number_may_load;
use crate::storage::number_save;
use crate::storage::text_entry;
use crate::storage::text_may_load;
use crate::storage::text_save;
use crate::vesting::store::payment_rows;
use crate::vesting::store::payment_save;
use crate::vesting::store::RowText;
use cosmwasm_std::MemoryStorage;
use vstd::prelude::*;

verus! {

/// The payments that stored rows stand for.
pub open spec fn payments_in(rows: Map<u64, RowText>) -> Map<u64, PaymentRecord> {
    Map::new(|id: u64| rows.contains_key(id), |id: u64| record_of(rows[id]))
}

/// Everything the payment contract remembers between calls: its owner and
/// token once set up, the highest number given to a payment, and the storage
/// that holds the payments.
pub struct Store {
    storage: MemoryStorage,
}

/// The highest number given to a payment so far, as the storage holds it:
/// nothing where it holds none.
pub open spec fn count_in(storage: MemoryStorage) -> u64 {
    match number_entry(storage, "proposal_count"@) {
        Some(count) => count,
        None => 0,
    }
}

/// What a contract remembers whose storage is `storage`.
pub open spec fn state_in(storage: MemoryStorage) -> BookView {
    BookView {
        owner_address: text_entry(storage, "owner_address"@),
        token_address: text_entry(storage, "token_address"@),
        payment_count: count_in(storage),
        payments: payments_in(payment_rows(storage)),
    }
}

/// The owner and the token are stored under different names.
proof fn lemma_names_differ()
    ensures
        "owner_address"@ != "token_address"@,
{
    reveal_strlit("owner_address");
    reveal_strlit("token_address");
    assert("owner_address"@[0] == 'o');
    assert("token_address"@[0] == 't');
}

impl View for Store {
    type V = BookView;

    closed spec fn view(&self) -> BookView {
        state_in(self.storage)
    }
}

/// Whether a call that should end as `outcome` did: the contract remembers
/// what it should, and the caller was told what it should be told.
pub open spec fn ends_as(outcome: Outcome, state: BookView, result: Result<Response, ContractError>)
    -> bool {
    &&& state == outcome.state
    &&& match outcome.result {
        Ok(response) => result is Ok && result->Ok_0@ == response,
        Err(error) => result is Err && result->Err_0 == error,
    }
}

/// The payments that a list of kept payments stands for.
pub open spec fn records_of(payments: Seq<PaymentState>) -> Seq<PaymentRecord> {
    payments.map_values(|payment: PaymentState| payment@)
}

impl Store {
    /// Every entry that the storage holds for the contract decodes.
    #[verifier::type_invariant]
    spec fn intact(&self) -> bool {
        decodes(self.storage)
    }

    /// A contract that is not set up yet and holds nothing.
    pub fn new() -> (deps: Store)
        ensures
            deps@ == BookView::empty(),
    {
        let deps = Store { storage: new_storage() };
        assert(deps@.payments =~= Map::empty());
        deps
    }

    /// The contract whose storage is `storage`. The storage must be one that
    /// only this contract wrote to, as the chain keeps it between calls.
    pub fn from_storage(storage: MemoryStorage) -> (deps: Store)
        requires
            decodes(storage),
        ensures
            deps@ == state_in(storage),
    {
        Store { storage }
    }

    /// The storage of the contract, for the chain to keep until the next
    /// call.
    pub fn into_storage(self) -> (storage: MemoryStorage)
        ensures
            decodes(storage),
            state_in(storage) == self@,
    {
        proof {
            use_type_invariant(&self);
        }
        self.storage
    }

    /// Who owns the contract, once it is set up.
    fn owner(&self) -> (found: Option<String>)
        ensures
            text_of(found) == self@.owner_address,
    {
        proof {
            use_type_invariant(self);
        }
        text_may_load(&self.storage, "owner_address")
    }

    /// Which token the contract pays out, once it is set up.
    fn token(&self) -> (found: Option<String>)
        ensures
            text_of(found) == self@.token_address,
    {
        proof {
            use_type_invariant(self);
        }
        text_may_load(&self.storage, "token_address")
    }

    /// The highest number given to a payment so far.
    fn count(&self) -> (count: u64)
        ensures
            count == self@.payment_count,
    {
        proof {
            use_type_invariant(self);
        }
        match number_may_load(&self.storage, "proposal_count") {
            Some(count) => count,
            None => 0,
        }
    }
}

/// Lets the call pass only where `sender` is the owner.
pub fn only_owner(deps: &Store, sender: &String) -> (result: Result<(), ContractError>)
    ensures
        result == deps@.only_owner(sender@),
{
    match deps.owner() {
        None => Err(ContractError::NotInitialized {  }),
        Some(owner) => {
            if owner != *sender {
                return Err(ContractError::Unauthorized {  });
            }
            Ok(())
        },
    }
}

/// Gives out the next payment number. Fails with `Overflow`, changing
/// nothing, once the highest number was given out.
pub fn next_id(deps: &mut Store) -> (result: Result<u64, ContractError>)
    ensures
        old(deps)@.payment_count < u64::MAX ==> result == Ok::<u64, ContractError>(
            (old(deps)@.payment_count + 1) as u64,
        ) && final(deps)@ == (BookView {
            payment_count: (old(deps)@.payment_count + 1) as u64,
            ..old(deps)@
        }),
        old(deps)@.payment_count == u64::MAX ==> result == Err::<u64, ContractError>(
            ContractError::Overflow {  },
        ) && final(deps)@ == old(deps)@,
{
    proof {
        use_type_invariant(&*deps);
    }
    let count: u64 = deps.count();
    if count == u64::MAX {
        return Err(ContractError::Overflow {  });
    }
    let id: u64 = count + 1;
    number_save(&mut deps.storage, "proposal_count", id);
    Ok(id)
}

/// Sets the contract up and keeps the payments of the schedule.
#[verifier::loop_isolation(false)]
pub fn instantiate(deps: &mut Store, env: Env, info: MessageInfo, msg: InstantiateMsg) -> (result:
    Result<Response, ContractError>)
    ensures
        ends_as(
            old(deps)@.instantiate(
                info.sender@,
                text_of(msg.owner_address),
                msg.token_address@,
                schedule_of(msg.schedule@),
            ),
            final(deps)@,
            result,
        ),
        result is Err ==> final(deps)@ == old(deps)@,
{
    proof {
        use_type_invariant(&*deps);
    }
    let ghost named = BookView {
        owner_address: Some(
            crate::vesting::model::named_or(text_of(msg.owner_address), info.sender@),
        ),
        token_address: Some(msg.token_address@),
        ..deps@
    };
    let ghost wanted = schedule_of(msg.schedule@);
    let schedule = msg.schedule;
    let count: u64 = deps.count();
    if schedule.len() as u64 > u64::MAX - count {
        return Err(ContractError::Overflow {  });
    }
    let owner_address = named_or_copy(msg.owner_address, &info.sender);
    let token_address = msg.token_address;
    proof {
        lemma_names_differ();
    }
    text_save(&mut deps.storage, "owner_address", &owner_address);
    text_save(&mut deps.storage, "token_address", &token_address);
    let mut i: usize = 0;
    while i < schedule.len()
        invariant
            i <= schedule.len(),
            wanted == schedule_of(schedule@),
            decodes(deps.storage),
            named.payment_count + schedule.len() <= u64::MAX,
            named.payment_count == old(deps)@.payment_count,
            deps@ == named.with_schedule(wanted, i as int),
        decreases schedule.len() - i,
    {
        proof {
            lemma_count_after(named, wanted, i as int);
        }
        let id = match next_id(deps) {
            Ok(id) => id,
            Err(error) => {
                return Err(error);
            },
        };
        proof {
            use_type_invariant(&*deps);
        }
        let p = &schedule[i];
        let state = PaymentState {
            payment: Payment {
                recipient: copy_of(&p.recipient),
                amount: p.amount,
                denom: copy_of(&p.denom),
                time: p.time,
            },
            paid: false,
            id,
        };
        let ghost before = deps@;
        payment_save(&mut deps.storage, id, &state.to_row());
        proof {
            assert(deps@.payments =~= before.payments.insert(id, state@));
            lemma_count_after(named, wanted, i + 1);
        }
        i += 1;
    }
    Ok(
        Response::new().add_attribute(
            "method",
            AttributeValue::Text(String::from_str("instantiate")),
        ).add_attribute("owner", AttributeValue::Text(owner_address)),
    )
}

/// Adding payments raises the count by their number, as long as the numbers
/// last.
proof fn lemma_count_after(
    state: BookView,
    schedule: Seq<crate::vesting::model::PaymentView>,
    count: int,
)
    requires
        0 <= count,
        state.payment_count + count <= u64::MAX,
    ensures
        state.with_schedule(schedule, count).payment_count == state.payment_count + count,
        state.with_schedule(schedule, count).owner_address == state.owner_address,
        state.with_schedule(schedule, count).token_address == state.token_address,
    decreases count,
{
    if count > 0 {
        lemma_count_after(state, schedule, count - 1);
    }
}

/// The transfer that pays `p` out of the token at `token_address`. Always
/// succeeds.
pub fn get_payment_message(p: &Payment, token_address: String) -> (result: Result<
    Message,
    ContractError,
>)
    ensures
        result is Ok,
        result->Ok_0@ == (crate::response::MessageView::Cw20Transfer {
            token_address: token_address@,
            recipient: p.recipient@,
            amount: p.amount,
        }),
{
    Ok(
        Message::Cw20Transfer {
            token_address,
            recipient: copy_of(&p.recipient),
            amount: p.amount,
        },
    )
}

/// The payment kept under a number that is known to be kept.
fn load_payment(storage: &MemoryStorage, id: u64) -> (state: PaymentState)
    requires
        decodes(*storage),
        payment_rows(*storage).contains_key(id),
    ensures
        state@ == payments_in(payment_rows(*storage))[id],
{
    match payment_may_load(storage, id) {
        Some(row) => PaymentState::from_row(row),
        None => vstd::pervasive::unreached(),
    }
}

/// Pays out every payment that is due in the block of `env` and not paid
/// yet.
pub fn execute_pay(deps: &mut Store, env: Env) -> (result: Result<Response, ContractError>)
    ensures
        ends_as(old(deps)@.pay(env.block), final(deps)@, result),
{
    proof {
        use_type_invariant(&*deps);
    }
    let token_address = match deps.token() {
        Some(token_address) => token_address,
        None => {
            return Err(ContractError::NotInitialized {  });
        },
    };
    let ghost payments = deps@.payments;
    let ids = payment_ids(&deps.storage);
    proof {
        assert(ids@.to_set() =~= payments.dom());
        lemma_ids_of(payments, ids@);
    }
    let ghost records = listing(payments);
    let mut response = Response::new();
    let mut i: usize = 0;
    while i < ids.len()
        invariant
            i <= ids.len(),
            lists(ids@, payments),
            records == listing(payments),
            ids_of(payments) == ids@,
            decodes(deps.storage),
            entries_kept(old(deps).storage, deps.storage),
            deps@.payments == Map::new(
                |id: u64| payments.contains_key(id),
                |id: u64|
                    if ids@.take(i as int).contains(id) {
                        paid_up(payments, env.block)[id]
                    } else {
                        payments[id]
                    },
            ),
            response@.attributes == Seq::<crate::response::AttributeView>::empty(),
            response@.messages == due_among(records.take(i as int), env.block).map_values(
                |record: PaymentRecord| transfer_for(record, token_address@),
            ),
        decreases ids.len() - i,
    {
        let id: u64 = ids[i];
        let ghost done = ids@.take(i as int);
        let ghost next = ids@.take(i + 1);
        proof {
            assert forall|other: u64| next.contains(other) <==> (done.contains(other) || other
                == id) by {
                if other == id {
                    assert(next[i as int] == other);
                }
            }
            assert(records.take(i + 1).drop_last() =~= records.take(i as int));
            assert(deps@.payments.contains_key(id));
        }
        let state = load_payment(&deps.storage, id);
        let ghost before = deps@.payments;
        if !state.paid && state.payment.time.is_expired(&env.block) {
            let message = match get_payment_message(&state.payment, copy_of(&token_address)) {
                Ok(message) => message,
                Err(error) => {
                    return Err(error);
                },
            };
            response = response.add_message(message);
            let paid = PaymentState { paid: true, ..state };
            payment_save(&mut deps.storage, id, &paid.to_row());
            proof {
                assert(deps@.payments =~= before.insert(id, paid@));
            }
        }
        i += 1;
    }
    proof {
        assert(ids@.take(ids@.len() as int) =~= ids@);
        assert(records.take(ids@.len() as int) =~= records);
        assert(deps@.payments =~= paid_up(payments, env.block));
    }
    Ok(response)
}

/// Drops the payments named in `payment_ids` that are not paid yet.
pub fn revoke_payments(deps: &mut Store, info: MessageInfo, payment_ids: Vec<u64>) -> (result:
    Result<Response, ContractError>)
    ensures
        ends_as(old(deps)@.revoke(info.sender@, payment_ids@), final(deps)@, result),
{
    proof {
        use_type_invariant(&*deps);
    }
    match only_owner(deps, &info.sender) {
        Ok(()) => {},
        Err(_) => {
            return Err(ContractError::Unauthorized {  });
        },
    }
    let ghost payments = deps@.payments;
    let mut to_delete: Vec<u64> = Vec::new();
    let mut i: usize = 0;
    while i < payment_ids.len()
        invariant
            i <= payment_ids.len(),
            decodes(deps.storage),
            deps@ == old(deps)@,
            payments == old(deps)@.payments,
            to_delete@ == revoked_among(payments, payment_ids@.take(i as int)),
            forall|id: u64| #[trigger]
                to_delete@.contains(id) <==> payment_ids@.take(i as int).contains(id) && revocable(
                    payments,
                    id,
                ),
        decreases payment_ids.len() - i,
    {
        let id: u64 = payment_ids[i];
        let ghost done = payment_ids@.take(i as int);
        let ghost next = payment_ids@.take(i + 1);
        let ghost kept = to_delete@;
        proof {
            assert(next.drop_last() =~= done);
        }
        let unpaid = match payment_may_load(&deps.storage, id) {
            Some(row) => !PaymentState::from_row(row).paid,
            None => false,
        };
        proof {
            assert(revoked_among(payments, next) == if revocable(payments, id) {
                revoked_among(payments, done).push(id)
            } else {
                revoked_among(payments, done)
            });
        }
        if unpaid {
            to_delete.push(id);
            proof {
                assert forall|other: u64| to_delete@.contains(other) <==> (kept.contains(other)
                    || other == id) by {
                    if to_delete@.contains(other) {
                        let j = choose|j: int| 0 <= j < to_delete@.len() && to_delete@[j] == other;
                    }
                    if kept.contains(other) {
                        let j = choose|j: int| 0 <= j < kept.len() && kept[j] == other;
                        assert(to_delete@[j] == other);
                    }
                    if other == id {
                        assert(to_delete@[kept.len() as int] == other);
                    }
                }
            }
        }
        proof {
            assert forall|other: u64| #[trigger]
                to_delete@.contains(other) <==> next.contains(other) && revocable(
                    payments,
                    other,
                ) by {
                assert(kept.contains(other) <==> done.contains(other) && revocable(payments, other));
            }
        }
        i += 1;
    }
    proof {
        assert(payment_ids@.take(payment_ids@.len() as int) =~= payment_ids@);
    }
    let mut k: usize = 0;
    while k < to_delete.len()
        invariant
            k <= to_delete.len(),
            decodes(deps.storage),
            entries_kept(old(deps).storage, deps.storage),
            deps@.payments == Map::new(
                |id: u64| payments.contains_key(id) && !to_delete@.take(k as int).contains(id),
                |id: u64| payments[id],
            ),
            to_delete@ == revoked_among(payments, payment_ids@),
            forall|id: u64| #[trigger]
                to_delete@.contains(id) <==> payment_ids@.contains(id) && revocable(payments, id),
        decreases to_delete.len() - k,
    {
        let id: u64 = to_delete[k];
        let ghost done = to_delete@.take(k as int);
        let ghost next = to_delete@.take(k + 1);
        let ghost before = deps@.payments;
        payment_remove(&mut deps.storage, id);
        proof {
            assert forall|other: u64| next.contains(other) <==> (done.contains(other) || other
                == id) by {
                if other == id {
                    assert(next[k as int] == other);
                }
            }
            assert(deps@.payments =~= before.remove(id));
        }
        k += 1;
    }
    proof {
        assert(to_delete@.take(to_delete@.len() as int) =~= to_delete@);
        assert(deps@.payments =~= without_revoked(payments, payment_ids@));
    }
    Ok(Response::new().add_attribute("removed_ids", AttributeValue::Ids(to_delete)))
}

/// How a call with the message `msg` should end.
pub open spec fn executed(state: BookView, env: Env, sender: Seq<char>, msg: ExecuteMsg) -> Outcome {
    match msg {
        ExecuteMsg::Pay {  } => state.pay(env.block),
        ExecuteMsg::RevokePayments { payment_ids } => state.revoke(sender, payment_ids@),
    }
}

/// Handles a message that changes the contract.
pub fn execute(deps: &mut Store, env: Env, info: MessageInfo, msg: ExecuteMsg) -> (result: Result<
    Response,
    ContractError,
>)
    ensures
        ends_as(executed(old(deps)@, env, info.sender@, msg), final(deps)@, result),
        result is Err ==> final(deps)@ == old(deps)@,
{
    match msg {
        ExecuteMsg::Pay {  } => execute_pay(deps, env),
        ExecuteMsg::RevokePayments { payment_ids } => revoke_payments(deps, info, payment_ids),
    }
}

/// All payments that are kept, in the order of their numbers.
pub fn query_payments(deps: &Store) -> (response: PaymentsResponse)
    ensures
        records_of(response.payments@) == listing(deps@.payments),
{
    proof {
        use_type_invariant(deps);
    }
    let ghost payments = deps@.payments;
    let ids = payment_ids(&deps.storage);
    proof {
        assert(ids@.to_set() =~= payments.dom());
        lemma_ids_of(payments, ids@);
    }
    let mut found: Vec<PaymentState> = Vec::new();
    let mut i: usize = 0;
    while i < ids.len()
        invariant
            i <= ids.len(),
            found@.len() == i,
            decodes(deps.storage),
            payments == deps@.payments,
            ids@.to_set() == payments.dom(),
            forall|j: int| 0 <= j < i ==> (#[trigger] found@[j])@ == payments[ids@[j]],
        decreases ids.len() - i,
    {
        proof {
            assert(ids@.to_set().contains(ids@[i as int]));
        }
        let state = load_payment(&deps.storage, ids[i]);
        found.push(state);
        i += 1;
    }
    PaymentsResponse { payments: found }
}

/// Who owns the contract. Fails with `NotInitialized` before it is set up.
pub fn query_owner(deps: &Store) -> (result: Result<GetOwnerResponse, ContractError>)
    ensures
        match deps@.owner_address {
            Some(owner) => result is Ok && result->Ok_0.owner@ == owner,
            None => result is Err && result->Err_0 == (ContractError::NotInitialized {  }),
        },
{
    match deps.owner() {
        Some(owner) => Ok(GetOwnerResponse { owner }),
        None => Err(ContractError::NotInitialized {  }),
    }
}

/// Whether `result` answers the question `msg` asked of `state`.
pub open spec fn answers(state: BookView, msg: QueryMsg, result: Result<
    QueryResponse,
    ContractError,
>) -> bool {
    match msg {
        QueryMsg::GetPayments {  } => result matches Ok(QueryResponse::Payments(response))
            && records_of(response.payments@) == listing(state.payments),
        QueryMsg::GetOwner {  } => match state.owner_address {
            Some(owner) => result matches Ok(QueryResponse::Owner(response)) && response.owner@
                == owner,
            None => result is Err && result->Err_0 == (ContractError::NotInitialized {  }),
        },
    }
}

/// Answers a question about the contract.
pub fn query(deps: &Store, env: Env, msg: QueryMsg) -> (result: Result<QueryResponse, ContractError>)
    ensures
        answers(deps@, msg, result),
{
    match msg {
        QueryMsg::GetPayments {  } => Ok(QueryResponse::Payments(query_payments(deps))),
        QueryMsg::GetOwner {  } => match query_owner(deps) {
            Ok(response) => Ok(QueryResponse::Owner(response)),
            Err(error) => Err(error),
        },
    }
}

} // verus!
