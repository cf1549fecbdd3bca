use crate::storage::decodes;
use crate::storage::entries_kept;
use cosmwasm_std::MemoryStorage;
use cosmwasm_std::Order;
use vstd::prelude::*;

verus! {

/// How a payment is stored: recipient, amount, denomination, the height or
/// the time from which it is due (neither where it never is), whether it was
/// paid, and its number.
pub type PaymentRow = (String, u128, String, Option<u64>, Option<u64>, bool, u64);

/// A stored row with its strings as sequences of characters.
pub type RowText = (Seq<char>, u128, Seq<char>, Option<u64>, Option<u64>, bool, u64);

/// Whether the numbers in `ids` go strictly up.
pub open spec fn ascending(ids: Seq<u64>) -> bool {
    forall|i: int, j: int| 0 <= i < j < ids.len() ==> ids[i] < ids[j]
}

/// What a storage holds in the map `payments` of `cw_storage_plus`, by
/// payment number.
pub uninterp spec fn payment_rows(storage: MemoryStorage) -> Map<u64, RowText>;

/// Calls `cw_storage_plus::Map::save` on the map of payments. Trusted: the
/// entry under the number becomes `row`, and the storage still decodes. The
/// outside function fails only where the value cannot be encoded, which a
/// tuple of integers, strings and flags always can.
#[verifier::external_body]
pub(crate) fn payment_save(storage: &mut MemoryStorage, id: u64, row: &PaymentRow)
    requires
        decodes(*old(storage)),
    ensures
        decodes(*final(storage)),
        entries_kept(*old(storage), *final(storage)),
        payment_rows(*final(storage)) == payment_rows(*old(storage)).insert(
            id,
            (row.0@, row.1, row.2@, row.3, row.4, row.5, row.6),
        ),
    no_unwind
{
    cw_storage_plus::Map::<u64, PaymentRow>::new("payments").save(storage, id, row).unwrap()
}

/// Calls `cw_storage_plus::Map::may_load` on the map of payments. Trusted:
/// the result is the entry stored under the number, if any. The outside
/// function fails only on an entry that does not decode, which the
/// precondition excludes.
#[verifier::external_body]
pub(crate) fn payment_may_load(storage: &MemoryStorage, id: u64) -> (found: Option<PaymentRow>)
    requires
        decodes(*storage),
    ensures
        found is Some <==> payment_rows(*storage).contains_key(id),
        found matches Some(row) ==> payment_rows(*storage)[id] == (
            row.0@,
            row.1,
            row.2@,
            row.3,
            row.4,
            row.5,
            row.6,
        ),
{
    cw_storage_plus::Map::<u64, PaymentRow>::new("payments").may_load(storage, id).unwrap()
}

/// Calls `cw_storage_plus::Map::remove` on the map of payments. Trusted: the
/// entry under the number is gone, and the storage still decodes.
#[verifier::external_body]
pub(crate) fn payment_remove(storage: &mut MemoryStorage, id: u64)
    requires
        decodes(*old(storage)),
    ensures
        decodes(*final(storage)),
        entries_kept(*old(storage), *final(storage)),
        payment_rows(*final(storage)) == payment_rows(*old(storage)).remove(id),
    no_unwind
{
    cw_storage_plus::Map::<u64, PaymentRow>::new("payments").remove(storage, id)
}

/// Calls `cw_storage_plus::Map::keys` on the map of payments, over its whole
/// range in ascending order. Trusted: the result lists the numbers that have
/// an entry, each once, from the lowest to the highest.
#[verifier::external_body]
pub(crate) fn payment_ids(storage: &MemoryStorage) -> (ids: Vec<u64>)
    requires
        decodes(*storage),
    ensures
        ascending(ids@),
        ids@.to_set() == payment_rows(*storage).dom(),
{
    cw_storage_plus::Map::<u64, PaymentRow>::new("payments")
        .keys(storage, None, None, Order::Ascending)
        .collect::<Result<Vec<u64>, cosmwasm_std::StdError>>().unwrap()
}

} // verus!
