use crate::storage::decodes;
use crate::storage::entries_kept;
use crate::text::text_of;
use crate::storage::MAX_ADDRESS_LENGTH;
use cosmwasm_std::MemoryStorage;
use vstd::prelude::*;

verus! {

/// How a stage is stored: the block whose stakes count; the height or the
/// time at which it expires (neither where it never does); the height or the
/// time at which it starts (neither where it is on from the beginning);
/// whether it is paused; what it hands out in all; what was claimed so far.
pub type StageRow = (u64, Option<u64>, Option<u64>, Option<u64>, Option<u64>, bool, u128, u128);

/// How the settings are stored: the owner, if there is one, then the token,
/// the denomination that is paid out, and the staking contract.
pub type ConfigRow = (Option<String>, String, String, String);

/// Stored settings with their strings as sequences of characters.
pub type ConfigText = (Option<Seq<char>>, Seq<char>, Seq<char>, Seq<char>);

/// The characters of stored settings.
pub open spec fn config_text(row: ConfigRow) -> ConfigText {
    (text_of(row.0), row.1@, row.2@, row.3@)
}

/// The characters of stored settings, if there are any.
pub open spec fn config_text_if_any(row: Option<ConfigRow>) -> Option<ConfigText> {
    match row {
        Some(row) => Some(config_text(row)),
        None => None,
    }
}

/// What a storage holds in the item `config` of `cw_storage_plus`, if
/// anything.
pub uninterp spec fn config_row(storage: MemoryStorage) -> Option<ConfigText>;

/// What a storage holds in the map `stage` of `cw_storage_plus`, by stage
/// number.
pub uninterp spec fn stage_rows(storage: MemoryStorage) -> Map<u8, StageRow>;

/// What a storage holds in the map `claim` of `cw_storage_plus`, by address
/// and stage number.
pub uninterp spec fn claim_flags(storage: MemoryStorage) -> Map<(Seq<char>, u8), bool>;

/// Whether every address that a claim is stored under is one that the map
/// of claims takes as a key.
pub open spec fn short_addresses(storage: MemoryStorage) -> bool {
    forall|address: Seq<char>, stage: u8| #[trigger]
        claim_flags(storage).contains_key((address, stage)) ==> address.len()
            <= MAX_ADDRESS_LENGTH
}

/// Calls `cw_storage_plus::Item::save` on the item of the settings.
/// Trusted: the item then holds `row`; every other entry stays as it is, and
/// the storage still decodes. The outside function fails only where the
/// value cannot be encoded, which a tuple of strings always can.
#[verifier::external_body]
pub(crate) fn config_save(storage: &mut MemoryStorage, row: &ConfigRow)
    requires
        decodes(*old(storage)),
    ensures
        decodes(*final(storage)),
        config_row(*final(storage)) == Some(config_text(*row)),
        entries_kept(*old(storage), *final(storage)),
        stage_rows(*final(storage)) == stage_rows(*old(storage)),
        claim_flags(*final(storage)) == claim_flags(*old(storage)),
    no_unwind
{
    cw_storage_plus::Item::<ConfigRow>::new("config").save(storage, row).unwrap()
}

/// Calls `cw_storage_plus::Item::may_load` on the item of the settings.
/// Trusted: the result is what the item holds, if anything. The outside
/// function fails only on an entry that does not decode, which the
/// precondition excludes.
#[verifier::external_body]
pub(crate) fn config_may_load(storage: &MemoryStorage) -> (found: Option<ConfigRow>)
    requires
        decodes(*storage),
    ensures
        config_text_if_any(found) == config_row(*storage),
{
    cw_storage_plus::Item::<ConfigRow>::new("config").may_load(storage).unwrap()
}

/// Calls `cw_storage_plus::Map::save` on the map of stages. Trusted: the
/// entry under the number becomes `row`, the claims stay as they are, and
/// the storage still decodes. The outside function fails only where the
/// value cannot be encoded, which a tuple of integers and flags always can.
#[verifier::external_body]
pub(crate) fn stage_save(storage: &mut MemoryStorage, stage: u8, row: &StageRow)
    requires
        decodes(*old(storage)),
    ensures
        decodes(*final(storage)),
        entries_kept(*old(storage), *final(storage)),
        config_row(*final(storage)) == config_row(*old(storage)),
        stage_rows(*final(storage)) == stage_rows(*old(storage)).insert(stage, *row),
        claim_flags(*final(storage)) == claim_flags(*old(storage)),
    no_unwind
{
    cw_storage_plus::Map::<u8, StageRow>::new("stage").save(storage, stage, row).unwrap()
}

/// Calls `cw_storage_plus::Map::may_load` on the map of stages. Trusted: the
/// result is the entry stored under the number, if any. The outside function
/// fails only on an entry that does not decode, which the precondition
/// excludes.
#[verifier::external_body]
pub(crate) fn stage_may_load(storage: &MemoryStorage, stage: u8) -> (found: Option<StageRow>)
    requires
        decodes(*storage),
    ensures
        found == (if stage_rows(*storage).contains_key(stage) {
            Some(stage_rows(*storage)[stage])
        } else {
            None
        }),
{
    cw_storage_plus::Map::<u8, StageRow>::new("stage").may_load(storage, stage).unwrap()
}

/// Calls `cw_storage_plus::Map::save` on the map of claims. Trusted: the
/// entry under the address and the stage becomes `claimed`, the stages stay
/// as they are, and the storage still decodes. The outside function panics
/// where the address takes more than 65,535 bytes, which the bound on its
/// characters excludes.
#[verifier::external_body]
pub(crate) fn claim_save(storage: &mut MemoryStorage, address: &str, stage: u8, claimed: bool)
    requires
        decodes(*old(storage)),
        address@.len() <= MAX_ADDRESS_LENGTH,
    ensures
        decodes(*final(storage)),
        entries_kept(*old(storage), *final(storage)),
        config_row(*final(storage)) == config_row(*old(storage)),
        claim_flags(*final(storage)) == claim_flags(*old(storage)).insert(
            (address@, stage),
            claimed,
        ),
        stage_rows(*final(storage)) == stage_rows(*old(storage)),
    no_unwind
{
    cw_storage_plus::Map::<(&str, u8), bool>::new("claim").save(storage, (address, stage), &claimed)
        .unwrap()
}

/// Calls `cw_storage_plus::Map::may_load` on the map of claims. Trusted: the
/// result is the entry stored under the address and the stage, if any. The
/// outside function panics where the address takes more than 65,535 bytes,
/// which the bound on its characters excludes.
#[verifier::external_body]
pub(crate) fn claim_may_load(storage: &MemoryStorage, address: &str, stage: u8) -> (found: Option<
    bool,
>)
    requires
        decodes(*storage),
        address@.len() <= MAX_ADDRESS_LENGTH,
    ensures
        found == (if claim_flags(*storage).contains_key((address@, stage)) {
            Some(claim_flags(*storage)[(address@, stage)])
        } else {
            None
        }),
{
    cw_storage_plus::Map::<(&str, u8), bool>::new("claim").may_load(storage, (address, stage))
        .unwrap()
}

} // verus!
