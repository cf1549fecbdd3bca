use crate::storage::decodes;
use crate::storage::entries_kept;
use crate::storage::MAX_ADDRESS_LENGTH;
use cosmwasm_std::MemoryStorage;
use cosmwasm_std::Order;
use cw_storage_plus::SnapshotItem;
use cw_storage_plus::SnapshotMap;
use cw_storage_plus::Strategy;
use vstd::prelude::*;

verus! {

/// How the terms of an account are stored: the amounts it may claim early,
/// may claim in all and has claimed, then the times of its registration, of
/// the start of its window and of its end.
pub type TermsRow = (u128, u128, u128, u64, u64, u64);

/// How a projection is stored: the amounts that may be claimed early, that
/// are so far, that may be claimed in all, that are vested, that are
/// claimable and that are claimed, then the times of the registration, of
/// the start of the window and of its end.
pub type DataRow = (u128, u128, u128, u128, u128, u128, u64, u64, u64);

/// How an aggregate is stored: the sums of what may be claimed early, of
/// what is so far, of what may be claimed in all, of what is vested and of
/// what is claimed.
pub type TotalRow = (u128, u128, u128, u128, u128);

/// The addresses that a list of strings spells.
pub open spec fn addresses_of(keys: Seq<String>) -> Seq<Seq<char>> {
    keys.map_values(|key: String| key@)
}

/// What a storage holds in the map `vesting_account` of `cw_storage_plus`,
/// by address.
pub uninterp spec fn account_rows(storage: MemoryStorage) -> Map<Seq<char>, TermsRow>;

/// What a storage holds as the current values of the snapshot map
/// `vesting_data` of `cw_storage_plus`, by address.
pub uninterp spec fn data_rows(storage: MemoryStorage) -> Map<Seq<char>, DataRow>;

/// What a storage holds in the changelog of the snapshot map `vesting_data`:
/// by address and height, the value that the first write under that height
/// replaced, `None` where it replaced nothing.
pub uninterp spec fn data_changes(storage: MemoryStorage) -> Map<(Seq<char>, u64), Option<DataRow>>;

/// What a storage holds as the current value of the snapshot item
/// `vesting_total` of `cw_storage_plus`, if any.
pub uninterp spec fn total_row(storage: MemoryStorage) -> Option<TotalRow>;

/// What a storage holds in the changelog of the snapshot item
/// `vesting_total`: by height, the value that the first write under that
/// height replaced, `None` where it replaced nothing.
pub uninterp spec fn total_changes(storage: MemoryStorage) -> Map<u64, Option<TotalRow>>;

/// Whether the snapshot map holds in `after` what it holds in `before`.
pub open spec fn data_kept(before: MemoryStorage, after: MemoryStorage) -> bool {
    data_rows(after) == data_rows(before) && data_changes(after) == data_changes(before)
}

/// Whether the snapshot item holds in `after` what it holds in `before`.
pub open spec fn total_kept(before: MemoryStorage, after: MemoryStorage) -> bool {
    total_row(after) == total_row(before) && total_changes(after) == total_changes(before)
}

/// The current value under `address`, if any.
pub open spec fn current_data(storage: MemoryStorage, address: Seq<char>) -> Option<DataRow> {
    if data_rows(storage).contains_key(address) {
        Some(data_rows(storage)[address])
    } else {
        None
    }
}

/// Calls `cw_storage_plus::Map::has` on the map of accounts. Trusted: the
/// result says whether an entry is stored under the address.
#[verifier::external_body]
pub(crate) fn account_has(storage: &MemoryStorage, address: &str) -> (found: bool)
    requires
        decodes(*storage),
    ensures
        found == account_rows(*storage).contains_key(address@),
{
    cw_storage_plus::Map::<&str, TermsRow>::new("vesting_account").has(storage, address)
}

/// Calls `cw_storage_plus::Map::may_load` on the map of accounts. Trusted:
/// the result is the entry stored under the address, if any. The outside
/// function fails only on an entry that does not decode, which the
/// precondition excludes.
#[verifier::external_body]
pub(crate) fn account_may_load(storage: &MemoryStorage, address: &str) -> (found: Option<TermsRow>)
    requires
        decodes(*storage),
    ensures
        found == (if account_rows(*storage).contains_key(address@) {
            Some(account_rows(*storage)[address@])
        } else {
            None
        }),
{
    cw_storage_plus::Map::<&str, TermsRow>::new("vesting_account").may_load(storage, address)
        .unwrap()
}

/// Calls `cw_storage_plus::Map::save` on the map of accounts. Trusted: the
/// entry under the address becomes `row`, the snapshot map and the snapshot
/// item stay as they are, and the storage still decodes. The outside
/// function fails only where the value cannot be encoded, which a tuple of
/// integers always can. Only an address that the snapshot map takes as a
/// key is let in.
#[verifier::external_body]
pub(crate) fn account_save(storage: &mut MemoryStorage, address: &str, row: &TermsRow)
    requires
        decodes(*old(storage)),
        address@.len() <= MAX_ADDRESS_LENGTH,
    ensures
        decodes(*final(storage)),
        entries_kept(*old(storage), *final(storage)),
        account_rows(*final(storage)) == account_rows(*old(storage)).insert(address@, *row),
        data_kept(*old(storage), *final(storage)),
        total_kept(*old(storage), *final(storage)),
    no_unwind
{
    cw_storage_plus::Map::<&str, TermsRow>::new("vesting_account").save(storage, address, row)
        .unwrap()
}

/// Calls `cw_storage_plus::Map::remove` on the map of accounts. Trusted: the
/// entry under the address is gone, the snapshot map and the snapshot item
/// stay as they are, and the storage still decodes.
#[verifier::external_body]
pub(crate) fn account_remove(storage: &mut MemoryStorage, address: &str)
    requires
        decodes(*old(storage)),
    ensures
        decodes(*final(storage)),
        entries_kept(*old(storage), *final(storage)),
        account_rows(*final(storage)) == account_rows(*old(storage)).remove(address@),
        data_kept(*old(storage), *final(storage)),
        total_kept(*old(storage), *final(storage)),
    no_unwind
{
    cw_storage_plus::Map::<&str, TermsRow>::new("vesting_account").remove(storage, address)
}

/// Calls `cw_storage_plus::Map::keys` on the map of accounts, over its whole
/// range. Trusted: the result lists each address that has an entry exactly
/// once.
#[verifier::external_body]
pub(crate) fn account_keys(storage: &MemoryStorage) -> (keys: Vec<String>)
    requires
        decodes(*storage),
    ensures
        addresses_of(keys@).no_duplicates(),
        addresses_of(keys@).to_set() == account_rows(*storage).dom(),
{
    cw_storage_plus::Map::<&str, TermsRow>::new("vesting_account")
        .keys(storage, None, None, Order::Ascending)
        .collect::<Result<Vec<String>, cosmwasm_std::StdError>>().unwrap()
}

/// Calls `cw_storage_plus::SnapshotMap::save` on the snapshot map, which
/// checkpoints every block. Trusted: where nothing is logged yet under the
/// address and the height, the current value under the address (or that
/// there is none) is logged there; then `row` becomes the current value; the
/// accounts and the snapshot item stay as they are, and the storage still
/// decodes. The outside function panics where the address takes more than
/// 65,535 bytes, which the bound on its characters excludes.
#[verifier::external_body]
pub(crate) fn data_save(storage: &mut MemoryStorage, address: &str, row: &DataRow, height: u64)
    requires
        decodes(*old(storage)),
        address@.len() <= MAX_ADDRESS_LENGTH,
    ensures
        decodes(*final(storage)),
        entries_kept(*old(storage), *final(storage)),
        data_rows(*final(storage)) == data_rows(*old(storage)).insert(address@, *row),
        data_changes(*final(storage)) == (if data_changes(*old(storage)).contains_key(
            (address@, height),
        ) {
            data_changes(*old(storage))
        } else {
            data_changes(*old(storage)).insert(
                (address@, height),
                current_data(*old(storage), address@),
            )
        }),
        account_rows(*final(storage)) == account_rows(*old(storage)),
        total_kept(*old(storage), *final(storage)),
    no_unwind
{
    SnapshotMap::<&str, DataRow>::new(
        "vesting_data", "vesting_data__checkpoints", "vesting_data__changelog", Strategy::EveryBlock,
    ).save(storage, address, row, height).unwrap()
}

/// Calls `cw_storage_plus::SnapshotMap::may_load_at_height` on the snapshot
/// map. Trusted: the result is what is logged under the address and the
/// lowest height at or above `height` under which anything is logged for the
/// address; where nothing is, it is the current value under the address, if
/// any. The outside function panics where the address takes more than 65,535
/// bytes, which the bound on its characters excludes.
#[verifier::external_body]
pub(crate) fn data_may_load_at_height(storage: &MemoryStorage, address: &str, height: u64) -> (found:
    Option<DataRow>)
    requires
        decodes(*storage),
        address@.len() <= MAX_ADDRESS_LENGTH,
    ensures
        (forall|logged: u64|
            logged >= height ==> !data_changes(*storage).contains_key((address@, logged)))
            ==> found == current_data(*storage, address@),
        forall|first: u64|
            first >= height && data_changes(*storage).contains_key((address@, first))
                && (forall|below: u64|
                    height <= below < first
                        ==> !data_changes(*storage).contains_key((address@, below)))
                ==> found == data_changes(*storage)[(address@, first)],
{
    SnapshotMap::<&str, DataRow>::new(
        "vesting_data", "vesting_data__checkpoints", "vesting_data__changelog", Strategy::EveryBlock,
    ).may_load_at_height(storage, address, height).unwrap()
}

/// Calls `cw_storage_plus::SnapshotItem::save` on the snapshot item, which
/// checkpoints every block. Trusted: where nothing is logged yet under the
/// height, the current value (or that there is none) is logged there; then
/// `row` becomes the current value; the accounts and the snapshot map stay
/// as they are, and the storage still decodes.
#[verifier::external_body]
pub(crate) fn total_save(storage: &mut MemoryStorage, row: &TotalRow, height: u64)
    requires
        decodes(*old(storage)),
    ensures
        decodes(*final(storage)),
        entries_kept(*old(storage), *final(storage)),
        total_row(*final(storage)) == Some(*row),
        total_changes(*final(storage)) == (if total_changes(*old(storage)).contains_key(height) {
            total_changes(*old(storage))
        } else {
            total_changes(*old(storage)).insert(height, total_row(*old(storage)))
        }),
        account_rows(*final(storage)) == account_rows(*old(storage)),
        data_kept(*old(storage), *final(storage)),
    no_unwind
{
    SnapshotItem::<TotalRow>::new(
        "vesting_total", "vesting_total__checkpoints", "vesting_total__changelog", Strategy::EveryBlock,
    ).save(storage, row, height).unwrap()
}

/// Calls `cw_storage_plus::SnapshotItem::may_load_at_height` on the snapshot
/// item. Trusted: the result is what is logged under the lowest height at or
/// above `height` under which anything is logged; where nothing is, it is
/// the current value, if any.
#[verifier::external_body]
pub(crate) fn total_may_load_at_height(storage: &MemoryStorage, height: u64) -> (found: Option<
    TotalRow,
>)
    requires
        decodes(*storage),
    ensures
        (forall|logged: u64| logged >= height ==> !total_changes(*storage).contains_key(logged))
            ==> found == total_row(*storage),
        forall|first: u64|
            first >= height && total_changes(*storage).contains_key(first)
                && (forall|below: u64|
                    height <= below < first ==> !total_changes(*storage).contains_key(below))
                ==> found == total_changes(*storage)[first],
{
    SnapshotItem::<TotalRow>::new(
        "vesting_total", "vesting_total__checkpoints", "vesting_total__changelog", Strategy::EveryBlock,
    ).may_load_at_height(storage, height).unwrap()
}

} // verus!
