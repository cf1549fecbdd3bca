use crate::context::BlockInfo;
use crate::response::MessageView;
use crate::response::ResponseView;
use crate::response::ValueView;
use crate::vesting::error::ContractError;
use crate::vesting::state::PaymentRecord;
use crate::vesting::store::ascending;
use vstd::prelude::*;

verus! {

/// Everything the payment contract remembers between calls.
pub struct BookView {
    pub owner_address: Option<Seq<char>>,
    pub token_address: Option<Seq<char>>,
    /// The highest number given to a payment so far.
    pub payment_count: u64,
    pub payments: Map<u64, PaymentRecord>,
}

/// How a call ends: what the contract remembers afterwards, and what the
/// caller is told.
pub struct Outcome {
    pub state: BookView,
    pub result: Result<ResponseView, ContractError>,
}

/// Two ascending lists of the same numbers are the same list.
pub proof fn lemma_ascending_unique(a: Seq<u64>, b: Seq<u64>)
    requires
        ascending(a),
        ascending(b),
        a.to_set() == b.to_set(),
    ensures
        a == b,
    decreases a.len(),
{
    broadcast use vstd::seq_lib::seq_to_set_is_finite;

    a.unique_seq_to_set();
    b.unique_seq_to_set();
    if a.len() > 0 {
        let last_a = a.last();
        let last_b = b.last();
        assert(a.to_set().contains(last_a));
        assert(b.to_set().contains(last_b));
        let front_a = a.drop_last();
        let front_b = b.drop_last();
        assert(front_a.to_set() =~= front_b.to_set()) by {
            assert forall|id: u64| front_a.to_set().contains(id) <==> front_b.to_set().contains(
                id,
            ) by {
                if front_a.contains(id) {
                    assert(a.to_set().contains(id));
                    let m = choose|m: int| 0 <= m < b.len() && b[m] == id;
                    assert(front_b[m] == id);
                }
                if front_b.contains(id) {
                    assert(b.to_set().contains(id));
                    let m = choose|m: int| 0 <= m < a.len() && a[m] == id;
                    assert(front_a[m] == id);
                }
            }
        }
        lemma_ascending_unique(front_a, front_b);
        assert(b =~= front_b.push(last_b));
    }
}

/// Whether `ids` lists the numbers of the payments, from the lowest up.
pub open spec fn lists(ids: Seq<u64>, payments: Map<u64, PaymentRecord>) -> bool {
    ascending(ids) && ids.to_set() == payments.dom()
}

/// The numbers of the payments, from the lowest up.
pub open spec fn ids_of(payments: Map<u64, PaymentRecord>) -> Seq<u64> {
    choose|ids: Seq<u64>| lists(ids, payments)
}

/// The payments in the order of their numbers.
pub open spec fn listing(payments: Map<u64, PaymentRecord>) -> Seq<PaymentRecord> {
    ids_of(payments).map_values(|id: u64| payments[id])
}

/// Any ascending list of the numbers of the payments is the list.
pub proof fn lemma_ids_of(payments: Map<u64, PaymentRecord>, ids: Seq<u64>)
    requires
        lists(ids, payments),
    ensures
        ids_of(payments) == ids,
{
    lemma_ascending_unique(ids_of(payments), ids);
}

/// Whether the payment is due in `block`: not paid yet, and its time reached.
pub open spec fn is_due(record: PaymentRecord, block: BlockInfo) -> bool {
    !record.paid && record.time.expired_in(block)
}

/// The transfer that pays `record` out of the token at `token_address`.
pub open spec fn transfer_for(record: PaymentRecord, token_address: Seq<char>) -> MessageView {
    MessageView::Cw20Transfer {
        token_address,
        recipient: record.recipient,
        amount: record.amount,
    }
}

/// The payments among `records` that are due in `block`, in their order.
pub open spec fn due_among(records: Seq<PaymentRecord>, block: BlockInfo) -> Seq<PaymentRecord>
    decreases records.len(),
{
    if records.len() == 0 {
        Seq::empty()
    } else if is_due(records.last(), block) {
        due_among(records.drop_last(), block).push(records.last())
    } else {
        due_among(records.drop_last(), block)
    }
}

/// The payments after all that are due in `block` were marked paid.
pub open spec fn paid_up(payments: Map<u64, PaymentRecord>, block: BlockInfo) -> Map<
    u64,
    PaymentRecord,
> {
    Map::new(
        |id: u64| payments.contains_key(id),
        |id: u64|
            if is_due(payments[id], block) {
                PaymentRecord { paid: true, ..payments[id] }
            } else {
                payments[id]
            },
    )
}

/// Whether the payment with number `id` can be revoked: it is stored and not
/// paid yet.
pub open spec fn revocable(payments: Map<u64, PaymentRecord>, id: u64) -> bool {
    payments.contains_key(id) && !payments[id].paid
}

/// The numbers among `ids` whose payments can be revoked, in their order and
/// as often as they are named.
pub open spec fn revoked_among(payments: Map<u64, PaymentRecord>, ids: Seq<u64>) -> Seq<u64>
    decreases ids.len(),
{
    if ids.len() == 0 {
        Seq::empty()
    } else if revocable(payments, ids.last()) {
        revoked_among(payments, ids.drop_last()).push(ids.last())
    } else {
        revoked_among(payments, ids.drop_last())
    }
}

/// The payments without those named in `ids` that can be revoked.
pub open spec fn without_revoked(payments: Map<u64, PaymentRecord>, ids: Seq<u64>) -> Map<
    u64,
    PaymentRecord,
> {
    Map::new(
        |id: u64| payments.contains_key(id) && !(ids.contains(id) && !payments[id].paid),
        |id: u64| payments[id],
    )
}

/// The value that a call names, or the fallback where it names none.
pub open spec fn named_or(named: Option<Seq<char>>, fallback: Seq<char>) -> Seq<char> {
    match named {
        Some(name) => name,
        None => fallback,
    }
}

/// A payment of a schedule, with its strings as sequences of characters.
pub struct PaymentView {
    pub recipient: Seq<char>,
    pub amount: u128,
    pub denom: Seq<char>,
    pub time: crate::schedule::Expiration,
}

/// The record under which `payment` is kept when it gets the number `id`.
pub open spec fn scheduled(payment: PaymentView, id: u64) -> PaymentRecord {
    PaymentRecord {
        recipient: payment.recipient,
        amount: payment.amount,
        denom: payment.denom,
        time: payment.time,
        paid: false,
        id,
    }
}

/// The payments of a schedule.
pub open spec fn schedule_of(schedule: Seq<crate::vesting::msg::Payment>) -> Seq<PaymentView> {
    schedule.map_values(|payment: crate::vesting::msg::Payment| payment@)
}

/// What setting the contract up reports: who owns it.
pub open spec fn instantiate_response(owner_address: Seq<char>) -> ResponseView {
    ResponseView::empty().with_attribute("method"@, ValueView::Text("instantiate"@)).with_attribute(
        "owner"@,
        ValueView::Text(owner_address),
    )
}

impl BookView {
    /// What a contract remembers before it is set up.
    pub open spec fn empty() -> BookView {
        BookView {
            owner_address: None,
            token_address: None,
            payment_count: 0,
            payments: Map::empty(),
        }
    }

    /// Whether `sender` may use what is reserved to the owner.
    pub open spec fn only_owner(self, sender: Seq<char>) -> Result<(), ContractError> {
        match self.owner_address {
            None => Err(ContractError::NotInitialized {  }),
            Some(owner) => if owner != sender {
                Err(ContractError::Unauthorized {  })
            } else {
                Ok(())
            },
        }
    }

    /// This state with one more payment, kept under the next number.
    pub open spec fn with_payment(self, payment: PaymentView) -> BookView {
        BookView {
            payment_count: (self.payment_count + 1) as u64,
            payments: self.payments.insert(
                (self.payment_count + 1) as u64,
                scheduled(payment, (self.payment_count + 1) as u64),
            ),
            ..self
        }
    }

    /// This state with the first `count` payments of `schedule` added, each
    /// under the next number.
    pub open spec fn with_schedule(self, schedule: Seq<PaymentView>, count: int) -> BookView
        decreases count,
    {
        if count <= 0 {
            self
        } else {
            self.with_schedule(schedule, count - 1).with_payment(schedule[count - 1])
        }
    }

    /// Setting the contract up: the owner (the sender where the message
    /// names none) and the token are stored, and the payments of the schedule
    /// are kept under the next numbers, unpaid. Fails with `Overflow`, with
    /// nothing changed, where the numbers would run out.
    pub open spec fn instantiate(
        self,
        sender: Seq<char>,
        owner_address: Option<Seq<char>>,
        token_address: Seq<char>,
        schedule: Seq<PaymentView>,
    ) -> Outcome {
        let named = BookView {
            owner_address: Some(named_or(owner_address, sender)),
            token_address: Some(token_address),
            ..self
        };
        if self.payment_count + schedule.len() > u64::MAX {
            Outcome { state: self, result: Err(ContractError::Overflow {  }) }
        } else {
            Outcome {
                state: named.with_schedule(schedule, schedule.len() as int),
                result: Ok(instantiate_response(named_or(owner_address, sender))),
            }
        }
    }

    /// Paying out what is due in `block`: rejected where the contract is not
    /// set up; else every due payment is marked paid and one transfer is
    /// instructed for each, in the order of their numbers.
    pub open spec fn pay(self, block: BlockInfo) -> Outcome {
        match self.token_address {
            None => Outcome { state: self, result: Err(ContractError::NotInitialized {  }) },
            Some(token) => Outcome {
                state: BookView { payments: paid_up(self.payments, block), ..self },
                result: Ok(
                    ResponseView {
                        messages: due_among(listing(self.payments), block).map_values(
                            |record: PaymentRecord| transfer_for(record, token),
                        ),
                        attributes: Seq::empty(),
                    },
                ),
            },
        }
    }

    /// Revoking payments, which only the owner may do: the payments named
    /// that are not paid yet are dropped, and their numbers are reported.
    pub open spec fn revoke(self, sender: Seq<char>, ids: Seq<u64>) -> Outcome {
        match self.only_owner(sender) {
            Err(_) => Outcome { state: self, result: Err(ContractError::Unauthorized {  }) },
            Ok(_) => Outcome {
                state: BookView { payments: without_revoked(self.payments, ids), ..self },
                result: Ok(
                    ResponseView::empty().with_attribute(
                        "removed_ids"@,
                        ValueView::Ids(revoked_among(self.payments, ids)),
                    ),
                ),
            },
        }
    }
}

} // verus!
