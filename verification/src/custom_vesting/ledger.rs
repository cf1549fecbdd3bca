use crate::custom_vesting::history::History;
use crate::custom_vesting::state::TotalVestingInfo;
use crate::custom_vesting::state::VestingData;
use crate::custom_vesting::state::VestingTerms;
use crate::custom_vesting::store;
use crate::custom_vesting::store::account_rows;
use crate::custom_vesting::store::addresses_of;
use crate::custom_vesting::store::current_data;
use crate::custom_vesting::store::data_changes;
use crate::custom_vesting::store::data_rows;
use crate::custom_vesting::store::total_changes;
use crate::custom_vesting::store::total_row;
use crate::custom_vesting::store::DataRow;
use crate::custom_vesting::store::TermsRow;
use crate::custom_vesting::store::TotalRow;
use crate::storage::decodes;
use crate::storage::entries_kept;
use crate::storage::new_storage;
use crate::storage::rows_kept;
use crate::storage::text_entries;
use crate::storage::version_row;
use crate::storage::MAX_ADDRESS_LENGTH;
use cosmwasm_std::MemoryStorage;
use vstd::prelude::*;

verus! {

/// What the contract keeps in storage: the live accounts by address, the
/// versioned projection of every address, and the versioned aggregate.
pub struct Ledger {
    pub accounts: Map<Seq<char>, VestingTerms>,
    /// For every address its history; empty where nothing was recorded.
    pub data: Map<Seq<char>, History<VestingData>>,
    pub total: History<TotalVestingInfo>,
}

impl Ledger {
    /// The ledger of a storage that nothing was written to.
    pub open spec fn empty() -> Ledger {
        Ledger {
            accounts: Map::empty(),
            data: Map::total(|address: Seq<char>| History::empty()),
            total: History::empty(),
        }
    }

    /// The versioned projection of `address`.
    pub open spec fn data_of(self, address: Seq<char>) -> History<VestingData> {
        self.data[address]
    }

    /// The live account of `address`, if there is one.
    pub open spec fn account_of(self, address: Seq<char>) -> Option<VestingTerms> {
        if self.accounts.contains_key(address) {
            Some(self.accounts[address])
        } else {
            None
        }
    }
}

/// The terms that a stored row stands for.
pub open spec fn terms_of_row(row: TermsRow) -> VestingTerms {
    VestingTerms {
        prevesting_amount: row.0,
        vesting_amount: row.1,
        claimed_amount: row.2,
        registration_time: row.3,
        start_time: row.4,
        end_time: row.5,
    }
}

/// The projection that a stored row stands for.
pub open spec fn data_of_row(row: DataRow) -> VestingData {
    VestingData {
        prevesting_amount: row.0,
        prevested_amount: row.1,
        vesting_amount: row.2,
        vested_amount: row.3,
        claimable_amount: row.4,
        claimed_amount: row.5,
        registration_time: row.6,
        start_time: row.7,
        end_time: row.8,
    }
}

/// The aggregate that a stored row stands for.
pub open spec fn total_of_row(row: TotalRow) -> TotalVestingInfo {
    TotalVestingInfo {
        prevesting_amount: row.0,
        prevested_amount: row.1,
        vesting_amount: row.2,
        vested_amount: row.3,
        claimed_amount: row.4,
    }
}

/// The projection that a stored row stands for, if there is one.
pub open spec fn data_if_any(row: Option<DataRow>) -> Option<VestingData> {
    match row {
        Some(row) => Some(data_of_row(row)),
        None => None,
    }
}

/// The aggregate that a stored row stands for, if there is one.
pub open spec fn total_if_any(row: Option<TotalRow>) -> Option<TotalVestingInfo> {
    match row {
        Some(row) => Some(total_of_row(row)),
        None => None,
    }
}

/// The history of `address` as the snapshot map holds it: its current value,
/// and what is logged for it by height.
pub open spec fn data_history(storage: MemoryStorage, address: Seq<char>) -> History<VestingData> {
    History {
        latest: data_if_any(current_data(storage, address)),
        changes: Map::new(
            |height: u64| data_changes(storage).contains_key((address, height)),
            |height: u64| data_if_any(data_changes(storage)[(address, height)]),
        ),
    }
}

/// The history of the aggregate as the snapshot item holds it.
pub open spec fn total_history(storage: MemoryStorage) -> History<TotalVestingInfo> {
    History {
        latest: total_if_any(total_row(storage)),
        changes: Map::new(
            |height: u64| total_changes(storage).contains_key(height),
            |height: u64| total_if_any(total_changes(storage)[height]),
        ),
    }
}

/// The ledger that a storage holds.
pub open spec fn ledger_in(storage: MemoryStorage) -> Ledger {
    Ledger {
        accounts: Map::new(
            |address: Seq<char>| account_rows(storage).contains_key(address),
            |address: Seq<char>| terms_of_row(account_rows(storage)[address]),
        ),
        data: Map::total(|address: Seq<char>| data_history(storage, address)),
        total: total_history(storage),
    }
}

/// Whether every address that the storage holds anything under is one that
/// the snapshot map takes as a key.
pub open spec fn short_addresses(storage: MemoryStorage) -> bool {
    &&& forall|address: Seq<char>| #[trigger]
        account_rows(storage).contains_key(address) ==> address.len() <= MAX_ADDRESS_LENGTH
    &&& forall|address: Seq<char>| #[trigger]
        data_rows(storage).contains_key(address) ==> address.len() <= MAX_ADDRESS_LENGTH
    &&& forall|address: Seq<char>, height: u64| #[trigger]
        data_changes(storage).contains_key((address, height)) ==> address.len()
            <= MAX_ADDRESS_LENGTH
}

/// Nothing was ever recorded for an address that the snapshot map does not
/// take as a key.
pub proof fn lemma_long_address_has_no_history(storage: MemoryStorage, address: Seq<char>)
    requires
        short_addresses(storage),
        address.len() > MAX_ADDRESS_LENGTH,
    ensures
        ledger_in(storage).data_of(address) == History::<VestingData>::empty(),
        !ledger_in(storage).accounts.contains_key(address),
{
    assert(data_history(storage, address).changes =~= Map::empty());
}

/// The row under which the terms are stored.
fn terms_row(terms: &VestingTerms) -> (row: TermsRow)
    ensures
        terms_of_row(row) == *terms,
    no_unwind
{
    (
        terms.prevesting_amount,
        terms.vesting_amount,
        terms.claimed_amount,
        terms.registration_time,
        terms.start_time,
        terms.end_time,
    )
}

/// The row under which the projection is stored.
fn data_row(data: &VestingData) -> (row: DataRow)
    ensures
        data_of_row(row) == *data,
    no_unwind
{
    (
        data.prevesting_amount,
        data.prevested_amount,
        data.vesting_amount,
        data.vested_amount,
        data.claimable_amount,
        data.claimed_amount,
        data.registration_time,
        data.start_time,
        data.end_time,
    )
}

/// The row under which the aggregate is stored.
fn total_row_of(total: &TotalVestingInfo) -> (row: TotalRow)
    ensures
        total_of_row(row) == *total,
    no_unwind
{
    (
        total.prevesting_amount,
        total.prevested_amount,
        total.vesting_amount,
        total.vested_amount,
        total.claimed_amount,
    )
}

/// A storage with an empty ledger.
pub(crate) fn new_ledger() -> (storage: MemoryStorage)
    ensures
        decodes(storage),
        short_addresses(storage),
        ledger_in(storage) == Ledger::empty(),
        text_entries(storage) == Map::<Seq<char>, Seq<char>>::empty(),
        version_row(storage) is None,
{
    let storage = new_storage();
    proof {
        let ledger = ledger_in(storage);
        assert(ledger.accounts =~= Map::empty());
        assert(ledger.total.changes =~= Map::empty());
        assert forall|address: Seq<char>| #[trigger]
            data_history(storage, address) == History::<VestingData>::empty() by {
            assert(data_history(storage, address).changes =~= Map::empty());
        }
        assert(ledger.data =~= Map::total(|address: Seq<char>| History::<VestingData>::empty()));
    }
    storage
}

/// Whether an account is stored for the address.
pub(crate) fn account_has(storage: &MemoryStorage, address: &str) -> (found: bool)
    requires
        decodes(*storage),
    ensures
        found == ledger_in(*storage).accounts.contains_key(address@),
{
    store::account_has(storage, address)
}

/// The account that is stored for the address, if any.
pub(crate) fn account_may_load(storage: &MemoryStorage, address: &str) -> (found: Option<
    VestingTerms,
>)
    requires
        decodes(*storage),
    ensures
        found == ledger_in(*storage).account_of(address@),
{
    match store::account_may_load(storage, address) {
        Some(row) => Some(
            VestingTerms {
                prevesting_amount: row.0,
                vesting_amount: row.1,
                claimed_amount: row.2,
                registration_time: row.3,
                start_time: row.4,
                end_time: row.5,
            },
        ),
        None => None,
    }
}

/// Stores `terms` as the account of the address; the histories stay as they
/// are.
pub(crate) fn account_save(storage: &mut MemoryStorage, address: &str, terms: &VestingTerms)
    requires
        decodes(*old(storage)),
        address@.len() <= MAX_ADDRESS_LENGTH,
    ensures
        decodes(*final(storage)),
        entries_kept(*old(storage), *final(storage)),
        short_addresses(*old(storage)) ==> short_addresses(*final(storage)),
        ledger_in(*final(storage)) == (Ledger {
            accounts: ledger_in(*old(storage)).accounts.insert(address@, *terms),
            ..ledger_in(*old(storage))
        }),
    no_unwind
{
    let row = terms_row(terms);
    store::account_save(storage, address, &row);
    proof {
        assert(ledger_in(*storage).accounts =~= ledger_in(*old(storage)).accounts.insert(
            address@,
            *terms,
        ));
        lemma_histories_kept(*old(storage), *storage);
    }
}

/// Drops the account of the address; the histories stay as they are.
pub(crate) fn account_remove(storage: &mut MemoryStorage, address: &str)
    requires
        decodes(*old(storage)),
    ensures
        decodes(*final(storage)),
        entries_kept(*old(storage), *final(storage)),
        short_addresses(*old(storage)) ==> short_addresses(*final(storage)),
        ledger_in(*final(storage)) == (Ledger {
            accounts: ledger_in(*old(storage)).accounts.remove(address@),
            ..ledger_in(*old(storage))
        }),
    no_unwind
{
    store::account_remove(storage, address);
    proof {
        assert(ledger_in(*storage).accounts =~= ledger_in(*old(storage)).accounts.remove(address@));
        lemma_histories_kept(*old(storage), *storage);
    }
}

/// Where the maps and the versioned entries hold the same, the ledger is
/// the same, and every address in it is as short as it was.
pub proof fn lemma_ledger_kept(before: MemoryStorage, after: MemoryStorage)
    requires
        rows_kept(before, after),
    ensures
        ledger_in(after) == ledger_in(before),
        short_addresses(before) ==> short_addresses(after),
{
    assert(ledger_in(after).accounts =~= ledger_in(before).accounts);
    lemma_histories_kept(before, after);
}

/// Where the snapshot map and the snapshot item hold the same, the
/// histories are the same.
proof fn lemma_histories_kept(before: MemoryStorage, after: MemoryStorage)
    requires
        store::data_kept(before, after),
        store::total_kept(before, after),
    ensures
        ledger_in(after).data == ledger_in(before).data,
        ledger_in(after).total == ledger_in(before).total,
{
}

/// The addresses that have an account, each once.
pub(crate) fn account_keys(storage: &MemoryStorage) -> (keys: Vec<String>)
    requires
        decodes(*storage),
    ensures
        addresses_of(keys@).no_duplicates(),
        addresses_of(keys@).to_set() == ledger_in(*storage).accounts.dom(),
        short_addresses(*storage) ==> forall|i: int|
            0 <= i < keys@.len() ==> (#[trigger] keys@[i])@.len() <= MAX_ADDRESS_LENGTH,
{
    let keys = store::account_keys(storage);
    proof {
        assert forall|i: int| 0 <= i < keys@.len() implies account_rows(*storage).contains_key(
            (#[trigger] keys@[i])@,
        ) by {
            assert(addresses_of(keys@)[i] == keys@[i]@);
            assert(addresses_of(keys@).to_set().contains(keys@[i]@));
        }
    }
    keys
}

/// Records `data` in the history of the address under `height`; all else
/// stays as it is.
pub(crate) fn data_save(storage: &mut MemoryStorage, address: &str, data: &VestingData, height: u64)
    requires
        decodes(*old(storage)),
        address@.len() <= MAX_ADDRESS_LENGTH,
    ensures
        decodes(*final(storage)),
        entries_kept(*old(storage), *final(storage)),
        short_addresses(*old(storage)) ==> short_addresses(*final(storage)),
        ledger_in(*final(storage)) == (Ledger {
            data: ledger_in(*old(storage)).data.insert(
                address@,
                ledger_in(*old(storage)).data_of(address@).record(*data, height),
            ),
            ..ledger_in(*old(storage))
        }),
    no_unwind
{
    let row = data_row(data);
    store::data_save(storage, address, &row, height);
    proof {
        let before = *old(storage);
        let after = *storage;
        assert forall|other: Seq<char>| #[trigger]
            data_history(after, other) == (if other == address@ {
                data_history(before, other).record(*data, height)
            } else {
                data_history(before, other)
            }) by {
            if other == address@ {
                assert(data_history(after, other).changes =~= data_history(before, other).record(
                    *data,
                    height,
                ).changes);
            } else {
                assert(data_history(after, other).changes =~= data_history(before, other).changes);
            }
        }
        assert(ledger_in(after).data =~= ledger_in(before).data.insert(
            address@,
            ledger_in(before).data_of(address@).record(*data, height),
        ));
    }
}

/// The history of the address read at `height`.
pub(crate) fn data_at_height(storage: &MemoryStorage, address: &str, height: u64) -> (found: Option<
    VestingData,
>)
    requires
        decodes(*storage),
        address@.len() <= MAX_ADDRESS_LENGTH,
    ensures
        found == ledger_in(*storage).data_of(address@).at(height),
{
    let row = store::data_may_load_at_height(storage, address, height);
    proof {
        let history = data_history(*storage, address@);
        if history.changed_from(height) {
            let first = choose|first: u64| history.is_first_change_from(height, first);
            history.lemma_at_first_change(height, first);
            assert forall|below: u64| height <= below < first implies !data_changes(
                *storage,
            ).contains_key((address@, below)) by {
                assert(!history.changes.contains_key(below));
            }
        } else {
            assert forall|logged: u64| logged >= height implies !data_changes(
                *storage,
            ).contains_key((address@, logged)) by {
                if data_changes(*storage).contains_key((address@, logged)) {
                    history.lemma_first_change_exists(height, logged);
                }
            }
        }
    }
    match row {
        Some(row) => Some(
            VestingData {
                prevesting_amount: row.0,
                prevested_amount: row.1,
                vesting_amount: row.2,
                vested_amount: row.3,
                claimable_amount: row.4,
                claimed_amount: row.5,
                registration_time: row.6,
                start_time: row.7,
                end_time: row.8,
            },
        ),
        None => None,
    }
}

/// Records `total` in the history of the aggregate under `height`; all else
/// stays as it is.
pub(crate) fn total_save(storage: &mut MemoryStorage, total: &TotalVestingInfo, height: u64)
    requires
        decodes(*old(storage)),
    ensures
        decodes(*final(storage)),
        entries_kept(*old(storage), *final(storage)),
        short_addresses(*old(storage)) ==> short_addresses(*final(storage)),
        ledger_in(*final(storage)) == (Ledger {
            total: ledger_in(*old(storage)).total.record(*total, height),
            ..ledger_in(*old(storage))
        }),
    no_unwind
{
    let row = total_row_of(total);
    store::total_save(storage, &row, height);
    proof {
        let before = *old(storage);
        let after = *storage;
        assert(ledger_in(after).total.changes =~= ledger_in(before).total.record(
            *total,
            height,
        ).changes);
        assert(ledger_in(after).data =~= ledger_in(before).data);
    }
}

/// The history of the aggregate read at `height`.
pub(crate) fn total_at_height(storage: &MemoryStorage, height: u64) -> (found: Option<
    TotalVestingInfo,
>)
    requires
        decodes(*storage),
    ensures
        found == ledger_in(*storage).total.at(height),
{
    let row = store::total_may_load_at_height(storage, height);
    proof {
        let history = total_history(*storage);
        if history.changed_from(height) {
            let first = choose|first: u64| history.is_first_change_from(height, first);
            history.lemma_at_first_change(height, first);
            assert forall|below: u64| height <= below < first implies !total_changes(
                *storage,
            ).contains_key(below) by {
                assert(!history.changes.contains_key(below));
            }
        } else {
            assert forall|logged: u64| logged >= height implies !total_changes(
                *storage,
            ).contains_key(logged) by {
                if total_changes(*storage).contains_key(logged) {
                    history.lemma_first_change_exists(height, logged);
                }
            }
        }
    }
    match row {
        Some(row) => Some(
            TotalVestingInfo {
                prevesting_amount: row.0,
                prevested_amount: row.1,
                vesting_amount: row.2,
                vested_amount: row.3,
                claimed_amount: row.4,
            },
        ),
        None => None,
    }
}

} // verus!
