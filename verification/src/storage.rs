use crate::context::version_text;
use crate::context::ContractVersion;
use crate::custom_vesting::store::account_rows;
use crate::custom_vesting::store::data_changes;
use crate::custom_vesting::store::data_rows;
use crate::custom_vesting::store::total_changes;
use crate::custom_vesting::store::total_row;
use crate::custom_vesting::store::DataRow;
use crate::custom_vesting::store::TermsRow;
use crate::custom_vesting::store::TotalRow;
use crate::rev_share::store::claim_flags;
use crate::rev_share::store::config_row;
use crate::rev_share::store::stage_rows;
use crate::rev_share::store::StageRow;
use crate::vesting::store::payment_rows;
use crate::voting_power::store::duration_row;
use crate::voting_power::store::threshold_row;
use crate::text::text_of;
use crate::vesting::store::RowText;
use cosmwasm_std::MemoryStorage;
use vstd::prelude::*;

verus! {

/// The in-memory key-value storage of `cosmwasm_std`.
#[verifier::external_type_specification]
#[verifier::external_body]
pub struct ExMemoryStorage(MemoryStorage);

/// The most characters that an address may have where it is the first part
/// of a two-part storage key. Such a part may take 65,535 bytes, and a
/// character takes four bytes at most.
pub const MAX_ADDRESS_LENGTH: usize = 16_383;

/// Whether every entry that the storage holds under one of the names that
/// the contracts of this crate store under decodes as the row that the
/// contract stores there.
pub uninterp spec fn decodes(storage: MemoryStorage) -> bool;

/// What a storage holds as items of `cw_storage_plus` whose value is a
/// string, by the name of the item.
pub uninterp spec fn text_entries(storage: MemoryStorage) -> Map<Seq<char>, Seq<char>>;

/// What a storage holds as items of `cw_storage_plus` whose value is a
/// number, by the name of the item.
pub uninterp spec fn number_entries(storage: MemoryStorage) -> Map<Seq<char>, u64>;

/// What a storage holds as the contract name and the version that `cw2`
/// keeps, if any.
pub uninterp spec fn version_row(storage: MemoryStorage) -> Option<(Seq<char>, Seq<char>)>;

/// The names of the items that hold a string. An item is stored under its
/// name as it stands, a map or a snapshot under the length of its name and
/// then its name, so no two of the entries here share a key.
pub open spec fn is_text_entry(name: Seq<char>) -> bool {
    ||| name == "owner_address"@
    ||| name == "token_address"@
    ||| name == "token"@
    ||| name == "dao"@
    ||| name == "staking_contract"@
    ||| name == "vesting_contract"@
    ||| name == "vesting_contract_owner"@
}

/// The names of the items that hold a number.
pub open spec fn is_number_entry(name: Seq<char>) -> bool {
    ||| name == "proposal_count"@
    ||| name == "stage"@
    ||| name == "staking_contract_code_id"@
    ||| name == "vesting_contract_code_id"@
}

/// The number that the storage holds under the name, if any.
pub open spec fn number_entry(storage: MemoryStorage, name: Seq<char>) -> Option<u64> {
    if number_entries(storage).contains_key(name) {
        Some(number_entries(storage)[name])
    } else {
        None
    }
}

/// The string that the storage holds under the name, if any.
pub open spec fn text_entry(storage: MemoryStorage, name: Seq<char>) -> Option<Seq<char>> {
    if text_entries(storage).contains_key(name) {
        Some(text_entries(storage)[name])
    } else {
        None
    }
}

/// Whether the single entries are in `after` what they are in `before`.
pub open spec fn entries_kept(before: MemoryStorage, after: MemoryStorage) -> bool {
    &&& text_entries(after) == text_entries(before)
    &&& number_entries(after) == number_entries(before)
    &&& version_row(after) == version_row(before)
}

/// Whether the maps and the versioned entries are in `after` what they are
/// in `before`.
pub open spec fn rows_kept(before: MemoryStorage, after: MemoryStorage) -> bool {
    &&& account_rows(after) == account_rows(before)
    &&& data_rows(after) == data_rows(before)
    &&& data_changes(after) == data_changes(before)
    &&& total_row(after) == total_row(before)
    &&& total_changes(after) == total_changes(before)
    &&& payment_rows(after) == payment_rows(before)
    &&& stage_rows(after) == stage_rows(before)
    &&& claim_flags(after) == claim_flags(before)
    &&& config_row(after) == config_row(before)
    &&& duration_row(after) == duration_row(before)
    &&& threshold_row(after) == threshold_row(before)
}

/// Calls `cw_storage_plus::Item::save` on the item of the name, which holds
/// a string. Trusted: the item then holds `value`; every other entry stays
/// as it is, and the storage still decodes. The outside function fails only
/// where the value cannot be encoded, which a string always can.
#[verifier::external_body]
pub(crate) fn text_save(storage: &mut MemoryStorage, name: &str, value: &String)
    requires
        decodes(*old(storage)),
        is_text_entry(name@),
    ensures
        decodes(*final(storage)),
        text_entries(*final(storage)) == text_entries(*old(storage)).insert(name@, value@),
        number_entries(*final(storage)) == number_entries(*old(storage)),
        version_row(*final(storage)) == version_row(*old(storage)),
        rows_kept(*old(storage), *final(storage)),
    no_unwind
{
    cw_storage_plus::Item::<String>::new(name).save(storage, value).unwrap()
}

/// Calls `cw_storage_plus::Item::may_load` on the item of the name, which
/// holds a string. Trusted: the result is what the item holds, if anything.
/// The outside function fails only on an entry that does not decode, which
/// the precondition excludes.
#[verifier::external_body]
pub(crate) fn text_may_load(storage: &MemoryStorage, name: &str) -> (found: Option<String>)
    requires
        decodes(*storage),
        is_text_entry(name@),
    ensures
        text_of(found) == text_entry(*storage, name@),
{
    cw_storage_plus::Item::<String>::new(name).may_load(storage).unwrap()
}

/// Calls `cw_storage_plus::Item::remove` on the item of the name, which
/// holds a string. Trusted: the item then holds nothing; every other entry
/// stays as it is, and the storage still decodes.
#[verifier::external_body]
pub(crate) fn text_remove(storage: &mut MemoryStorage, name: &str)
    requires
        decodes(*old(storage)),
        is_text_entry(name@),
    ensures
        decodes(*final(storage)),
        text_entries(*final(storage)) == text_entries(*old(storage)).remove(name@),
        number_entries(*final(storage)) == number_entries(*old(storage)),
        version_row(*final(storage)) == version_row(*old(storage)),
        rows_kept(*old(storage), *final(storage)),
    no_unwind
{
    cw_storage_plus::Item::<String>::new(name).remove(storage)
}

/// Calls `cw_storage_plus::Item::save` on the item of the name, which holds
/// a number. Trusted: the item then holds `value`; every other entry stays
/// as it is, and the storage still decodes. The outside function fails only
/// where the value cannot be encoded, which a number always can.
#[verifier::external_body]
pub(crate) fn number_save(storage: &mut MemoryStorage, name: &str, value: u64)
    requires
        decodes(*old(storage)),
        is_number_entry(name@),
    ensures
        decodes(*final(storage)),
        number_entries(*final(storage)) == number_entries(*old(storage)).insert(name@, value),
        text_entries(*final(storage)) == text_entries(*old(storage)),
        version_row(*final(storage)) == version_row(*old(storage)),
        rows_kept(*old(storage), *final(storage)),
    no_unwind
{
    cw_storage_plus::Item::<u64>::new(name).save(storage, &value).unwrap()
}

/// Calls `cw_storage_plus::Item::may_load` on the item of the name, which
/// holds a number. Trusted: the result is what the item holds, if anything.
/// The outside function fails only on an entry that does not decode, which
/// the precondition excludes.
#[verifier::external_body]
pub(crate) fn number_may_load(storage: &MemoryStorage, name: &str) -> (found: Option<u64>)
    requires
        decodes(*storage),
        is_number_entry(name@),
    ensures
        found == number_entry(*storage, name@),
{
    cw_storage_plus::Item::<u64>::new(name).may_load(storage).unwrap()
}

/// Calls `cw_storage_plus::Item::remove` on the item of the name, which
/// holds a number. Trusted: the item then holds nothing; every other entry
/// stays as it is, and the storage still decodes.
#[verifier::external_body]
pub(crate) fn number_remove(storage: &mut MemoryStorage, name: &str)
    requires
        decodes(*old(storage)),
        is_number_entry(name@),
    ensures
        decodes(*final(storage)),
        number_entries(*final(storage)) == number_entries(*old(storage)).remove(name@),
        text_entries(*final(storage)) == text_entries(*old(storage)),
        version_row(*final(storage)) == version_row(*old(storage)),
        rows_kept(*old(storage), *final(storage)),
    no_unwind
{
    cw_storage_plus::Item::<u64>::new(name).remove(storage)
}

/// Calls `cw_storage_plus::Item::remove` on the item `cw2::CONTRACT`.
/// Trusted: the storage then holds no name and version; every other entry
/// stays as it is, and the storage still decodes.
#[verifier::external_body]
pub(crate) fn version_remove(storage: &mut MemoryStorage)
    requires
        decodes(*old(storage)),
    ensures
        decodes(*final(storage)),
        version_row(*final(storage)) is None,
        text_entries(*final(storage)) == text_entries(*old(storage)),
        number_entries(*final(storage)) == number_entries(*old(storage)),
        rows_kept(*old(storage), *final(storage)),
    no_unwind
{
    cw2::CONTRACT.remove(storage)
}

/// Calls `cw2::set_contract_version`. Trusted: the storage then holds the
/// name and the version given; every other entry stays as it is, and the
/// storage still decodes. The outside function fails only where the value
/// cannot be encoded, which two strings always can.
#[verifier::external_body]
pub(crate) fn version_save(storage: &mut MemoryStorage, contract: &str, version: &str)
    requires
        decodes(*old(storage)),
    ensures
        decodes(*final(storage)),
        version_row(*final(storage)) == Some((contract@, version@)),
        text_entries(*final(storage)) == text_entries(*old(storage)),
        number_entries(*final(storage)) == number_entries(*old(storage)),
        rows_kept(*old(storage), *final(storage)),
    no_unwind
{
    cw2::set_contract_version(storage, contract, version).unwrap()
}

/// Calls `cw_storage_plus::Item::may_load` on the item `cw2::CONTRACT`.
/// Trusted: the result is the name and the version that the storage holds,
/// if any. The outside function fails only on an entry that does not decode,
/// which the precondition excludes.
#[verifier::external_body]
pub(crate) fn version_may_load(storage: &MemoryStorage) -> (found: Option<ContractVersion>)
    requires
        decodes(*storage),
    ensures
        version_text(found) == version_row(*storage),
{
    match cw2::CONTRACT.may_load(storage).unwrap() {
        Some(info) => Some(ContractVersion { contract: info.contract, version: info.version }),
        None => None,
    }
}

/// Calls `MemoryStorage::new`. Trusted: a new storage holds nothing, so
/// there is nothing in it that does not decode, and each collection read
/// from it is empty.
#[verifier::external_body]
pub(crate) fn new_storage() -> (storage: MemoryStorage)
    ensures
        decodes(storage),
        text_entries(storage) == (Map::<Seq<char>, Seq<char>>::empty()),
        number_entries(storage) == (Map::<Seq<char>, u64>::empty()),
        version_row(storage) is None,
        account_rows(storage) == (Map::<Seq<char>, TermsRow>::empty()),
        data_rows(storage) == (Map::<Seq<char>, DataRow>::empty()),
        data_changes(storage) == (Map::<(Seq<char>, u64), Option<DataRow>>::empty()),
        total_row(storage) is None,
        total_changes(storage) == (Map::<u64, Option<TotalRow>>::empty()),
        payment_rows(storage) == (Map::<u64, RowText>::empty()),
        stage_rows(storage) == (Map::<u8, StageRow>::empty()),
        claim_flags(storage) == (Map::<(Seq<char>, u8), bool>::empty()),
        config_row(storage) is None,
        duration_row(storage) is None,
        threshold_row(storage) is None,
{
    MemoryStorage::new()
}

} // verus!
