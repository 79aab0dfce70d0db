//! The monitor's decisions: which finished epochs and eras fell short of
//! the blocks expected of them, and when a validator-set change is reported.
//! Reading blocks and delivering alerts is left to the caller.
use crate::epochs::EpochRecord;
use crate::validators::ValidatorDiff;
use vstd::prelude::*;

verus! {

/// Blocks an epoch is expected to produce.
pub const EXPECTED_BLOCKS_PER_EPOCH: u32 = 720;

/// Blocks an era is expected to produce.
pub const EXPECTED_BLOCKS_PER_ERA: u32 = 4320;

/// Something the monitor reports.
#[derive(Debug)]
pub enum Alert {
    /// An epoch ended with fewer blocks than expected.
    EpochShort { epoch_index: u64, blocks: u32 },
    /// An era ended with fewer blocks than expected.
    EraShort { era_index: u64, blocks: u32 },
    /// The validator set changed for the era that begins; the accounts are
    /// given by their resolved display strings.
    ValidatorChanges { era_index: u64, added: Vec<String>, removed: Vec<String> },
}

/// The alert for an epoch that just ended, if it produced fewer blocks
/// than expected.
pub fn epoch_alert(record: EpochRecord) -> (r: Option<Alert>)
    ensures
        record.block_count < EXPECTED_BLOCKS_PER_EPOCH ==> r == Some(
            Alert::EpochShort { epoch_index: record.epoch_index, blocks: record.block_count },
        ),
        record.block_count >= EXPECTED_BLOCKS_PER_EPOCH ==> r is None,
{
    if record.block_count < EXPECTED_BLOCKS_PER_EPOCH {
        Some(Alert::EpochShort { epoch_index: record.epoch_index, blocks: record.block_count })
    } else {
        None
    }
}

/// The alert for an era that just ended with `total_blocks` blocks, if
/// that is fewer than expected.
pub fn era_alert(era_index: u32, total_blocks: u32) -> (r: Option<Alert>)
    ensures
        total_blocks < EXPECTED_BLOCKS_PER_ERA ==> r == Some(
            Alert::EraShort { era_index: era_index as u64, blocks: total_blocks },
        ),
        total_blocks >= EXPECTED_BLOCKS_PER_ERA ==> r is None,
{
    if total_blocks < EXPECTED_BLOCKS_PER_ERA {
        Some(Alert::EraShort { era_index: era_index as u64, blocks: total_blocks })
    } else {
        None
    }
}

/// The alert for a validator-set change seen when era `era_index` was
/// settled, if the set changed: it concerns the era that follows, and
/// carries the display strings resolved for the added and removed accounts.
pub fn validator_change_alert(
    era_index: u32,
    diff: &ValidatorDiff,
    added_names: Vec<String>,
    removed_names: Vec<String>,
) -> (r: Option<Alert>)
    ensures
        diff.added@.len() == 0 && diff.removed@.len() == 0 ==> r is None,
        diff.added@.len() > 0 || diff.removed@.len() > 0 ==> r == Some(
            Alert::ValidatorChanges {
                era_index: (era_index + 1) as u64,
                added: added_names,
                removed: removed_names,
            },
        ),
{
    if diff.is_empty() {
        None
    } else {
        Some(
            Alert::ValidatorChanges {
                era_index: era_index as u64 + 1,
                added: added_names,
                removed: removed_names,
            },
        )
    }
}

} // verus!
