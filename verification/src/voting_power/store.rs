use crate::storage::decodes;
use crate::storage::entries_kept;
use cosmwasm_std::MemoryStorage;
use vstd::prelude::*;

verus! {

/// How the time that unstaking takes is stored: nothing where it takes none;
/// else whether it is counted in blocks (in seconds where not), and how many.
pub type DurationRow = Option<(bool, u64)>;

/// How a threshold is stored: whether it is a count (a percentage where
/// not), and the count, or the smallest units of the percentage.
pub type ThresholdRow = (bool, u128);

/// What a storage holds in the item `staking_contract_unstaking_duration`
/// of `cw_storage_plus`, if anything.
pub uninterp spec fn duration_row(storage: MemoryStorage) -> Option<DurationRow>;

/// What a storage holds in the item `active_threshold` of `cw_storage_plus`,
/// if anything.
pub uninterp spec fn threshold_row(storage: MemoryStorage) -> Option<ThresholdRow>;

/// Calls `cw_storage_plus::Item::save` on the item of the time that
/// unstaking takes. Trusted: the item then holds `row`; every other entry
/// stays as it is, and the storage still decodes. The outside function fails
/// only where the value cannot be encoded, which a flag and a number always
/// can.
#[verifier::external_body]
pub(crate) fn duration_save(storage: &mut MemoryStorage, row: &DurationRow)
    requires
        decodes(*old(storage)),
    ensures
        decodes(*final(storage)),
        duration_row(*final(storage)) == Some(*row),
        threshold_row(*final(storage)) == threshold_row(*old(storage)),
        entries_kept(*old(storage), *final(storage)),
    no_unwind
{
    cw_storage_plus::Item::<DurationRow>::new("staking_contract_unstaking_duration")
        .save(storage, row).unwrap()
}

/// Calls `cw_storage_plus::Item::may_load` on the item of the time that
/// unstaking takes. Trusted: the result is what the item holds, if anything.
/// The outside function fails only on an entry that does not decode, which
/// the precondition excludes.
#[verifier::external_body]
pub(crate) fn duration_may_load(storage: &MemoryStorage) -> (found: Option<DurationRow>)
    requires
        decodes(*storage),
    ensures
        found == duration_row(*storage),
{
    cw_storage_plus::Item::<DurationRow>::new("staking_contract_unstaking_duration")
        .may_load(storage).unwrap()
}

/// Calls `cw_storage_plus::Item::remove` on the item of the time that
/// unstaking takes. Trusted: the item then holds nothing; every other entry
/// stays as it is, and the storage still decodes.
#[verifier::external_body]
pub(crate) fn duration_remove(storage: &mut MemoryStorage)
    requires
        decodes(*old(storage)),
    ensures
        decodes(*final(storage)),
        duration_row(*final(storage)) is None,
        threshold_row(*final(storage)) == threshold_row(*old(storage)),
        entries_kept(*old(storage), *final(storage)),
    no_unwind
{
    cw_storage_plus::Item::<DurationRow>::new("staking_contract_unstaking_duration")
        .remove(storage)
}

/// Calls `cw_storage_plus::Item::save` on the item of the threshold.
/// Trusted: the item then holds `row`; every other entry stays as it is, and
/// the storage still decodes. The outside function fails only where the
/// value cannot be encoded, which a flag and a number always can.
#[verifier::external_body]
pub(crate) fn threshold_save(storage: &mut MemoryStorage, row: &ThresholdRow)
    requires
        decodes(*old(storage)),
    ensures
        decodes(*final(storage)),
        threshold_row(*final(storage)) == Some(*row),
        duration_row(*final(storage)) == duration_row(*old(storage)),
        entries_kept(*old(storage), *final(storage)),
    no_unwind
{
    cw_storage_plus::Item::<ThresholdRow>::new("active_threshold").save(storage, row).unwrap()
}

/// Calls `cw_storage_plus::Item::may_load` on the item of the threshold.
/// Trusted: the result is what the item holds, if anything. The outside
/// function fails only on an entry that does not decode, which the
/// precondition excludes.
#[verifier::external_body]
pub(crate) fn threshold_may_load(storage: &MemoryStorage) -> (found: Option<ThresholdRow>)
    requires
        decodes(*storage),
    ensures
        found == threshold_row(*storage),
{
    cw_storage_plus::Item::<ThresholdRow>::new("active_threshold").may_load(storage).unwrap()
}

/// Calls `cw_storage_plus::Item::remove` on the item of the threshold.
/// Trusted: the item then holds nothing; every other entry stays as it is,
/// and the storage still decodes.
#[verifier::external_body]
pub(crate) fn threshold_remove(storage: &mut MemoryStorage)
    requires
        decodes(*old(storage)),
    ensures
        decodes(*final(storage)),
        threshold_row(*final(storage)) is None,
        duration_row(*final(storage)) == duration_row(*old(storage)),
        entries_kept(*old(storage), *final(storage)),
    no_unwind
{
    cw_storage_plus::Item::<ThresholdRow>::new("active_threshold").remove(storage)
}

} // verus!
