//! Era totals: the blocks of the epochs that make up one era, added up.
use crate::epochs::EpochRecord;
use vstd::prelude::*;

verus! {

/// The number of blocks produced in one era.
#[derive(Clone, Copy, Debug, PartialEq, Eq, Structural)]
pub struct EraRecord {
    pub era_index: u64,
    pub total_blocks: u32,
}

/// Why an era total could not be formed.
#[derive(Clone, Copy, Debug, PartialEq, Eq, Structural)]
pub enum EraError {
    /// The number of epoch records is not the number of sessions per era.
    EpochCountMismatch,
    /// The total does not fit in a `u32`.
    TotalOverflow,
}

/// The sum of the block counts of `records`.
pub open spec fn sum_counts(records: Seq<EpochRecord>) -> nat
    decreases records.len(),
{
    if records.len() == 0 {
        0
    } else {
        sum_counts(records.drop_last()) + records.last().block_count as nat
    }
}

/// Adds up the block counts of the trailing `sessions_per_era` epochs.
pub fn total_blocks(records: &Vec<EpochRecord>, sessions_per_era: u32) -> (r: Result<u32, EraError>)
    ensures
        r == total_blocks_spec(records@, sessions_per_era),
{
    if records.len() != sessions_per_era as usize {
        return Err(EraError::EpochCountMismatch);
    }
    let mut total: u32 = 0;
    let mut i: usize = 0;
    while i < records.len()
        invariant
            0 <= i <= records@.len(),
            records@.len() == sessions_per_era,
            total as nat == sum_counts(records@.take(i as int)),
        decreases records@.len() - i,
    {
        proof {
            let next = records@.take(i as int + 1);
            assert(next.drop_last() =~= records@.take(i as int));
        }
        let count = records[i].block_count;
        if total > u32::MAX - count {
            proof {
                lemma_sum_counts_prefix_le(records@, i as int + 1);
            }
            return Err(EraError::TotalOverflow);
        }
        total = total + count;
        i = i + 1;
    }
    assert(records@.take(records@.len() as int) =~= records@);
    Ok(total)
}

/// The sum over a prefix never exceeds the sum over the whole sequence.
proof fn lemma_sum_counts_prefix_le(records: Seq<EpochRecord>, k: int)
    requires
        0 <= k <= records.len(),
    ensures
        sum_counts(records.take(k)) <= sum_counts(records),
    decreases records.len() - k,
{
    if k < records.len() {
        let next = records.take(k + 1);
        assert(next.drop_last() =~= records.take(k));
        lemma_sum_counts_prefix_le(records, k + 1);
    } else {
        assert(records.take(k) =~= records);
    }
}

/// The era record for `era_index` from the epochs that made it up.
pub fn era_record(era_index: u64, records: &Vec<EpochRecord>, sessions_per_era: u32) -> (r: Result<
    EraRecord,
    EraError,
>)
    ensures
        r matches Ok(era) ==> era.era_index == era_index && total_blocks_spec(
            records@,
            sessions_per_era,
        ) == Ok::<u32, EraError>(era.total_blocks),
        r matches Err(e) ==> total_blocks_spec(records@, sessions_per_era) == Err::<u32, EraError>(
            e,
        ),
{
    match total_blocks(records, sessions_per_era) {
        Ok(total) => Ok(EraRecord { era_index, total_blocks: total }),
        Err(e) => Err(e),
    }
}

/// What `total_blocks` returns, as a spec function.
pub open spec fn total_blocks_spec(records: Seq<EpochRecord>, sessions_per_era: u32) -> Result<
    u32,
    EraError,
> {
    if records.len() != sessions_per_era {
        Err(EraError::EpochCountMismatch)
    } else if sum_counts(records) > u32::MAX {
        Err(EraError::TotalOverflow)
    } else {
        Ok(sum_counts(records) as u32)
    }
}

} // verus!
