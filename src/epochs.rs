//! Block counts per epoch, found by walking epoch-start pointers backward.
//!
//! At any block the chain stores the block numbers at which the previous and
//! the current epoch started. Reading that pair at the block where the
//! previous epoch started gives the pair one epoch further back, and so on.
//! Each step yields the number of blocks produced in one epoch.
use vstd::prelude::*;

verus! {

/// The block numbers at which the previous and the current epoch started,
/// as stored at some block.
#[derive(Clone, Copy, Debug, PartialEq, Eq, Structural)]
pub struct EpochStart {
    pub previous: u32,
    pub current: u32,
}

/// What the chain stores at the block where an epoch started: that epoch's
/// index and the epoch-start pair seen from that block.
#[derive(Clone, Copy, Debug, PartialEq, Eq, Structural)]
pub struct EpochSnapshot {
    pub epoch_index: u64,
    pub epoch_start: EpochStart,
}

/// The number of blocks produced in one epoch.
#[derive(Clone, Copy, Debug, PartialEq, Eq, Structural)]
pub struct EpochRecord {
    pub epoch_index: u64,
    pub block_count: u32,
}

/// Why a backward walk over epoch boundaries stopped.
#[derive(Clone, Copy, Debug, PartialEq, Eq, Structural)]
pub enum EpochError {
    /// The walk already reached epoch 0, which has no predecessor.
    PastFirstEpoch,
    /// An epoch index did not decrease while walking backward.
    EpochOutOfOrder,
    /// An earlier epoch appears to start after a later one, so a block count
    /// would be negative.
    NegativeBlockCount,
}

/// One step of the walk: `current` is the epoch-start pair seen so far,
/// `last` the index of the epoch recorded just before (if any), and
/// `snapshot` what is stored at the block where the previous epoch started.
pub open spec fn step_record(
    current: EpochStart,
    last: Option<u64>,
    snapshot: EpochSnapshot,
) -> Result<EpochRecord, EpochError> {
    if last == Some(0u64) {
        Err(EpochError::PastFirstEpoch)
    } else if last is Some && snapshot.epoch_index >= last->0 {
        Err(EpochError::EpochOutOfOrder)
    } else if snapshot.epoch_start.current > current.current {
        Err(EpochError::NegativeBlockCount)
    } else {
        Ok(
            EpochRecord {
                epoch_index: snapshot.epoch_index,
                block_count: (current.current - snapshot.epoch_start.current) as u32,
            },
        )
    }
}

/// The epoch-start pair in force before reading `snapshots[i]`.
pub open spec fn start_before(start: EpochStart, snapshots: Seq<EpochSnapshot>, i: int) -> EpochStart {
    if i == 0 {
        start
    } else {
        snapshots[i - 1].epoch_start
    }
}

/// The records of a walk that begins at `start` and reads `snapshots` in
/// turn, most recent epoch first; the first failing step decides the error.
pub open spec fn walk(start: EpochStart, snapshots: Seq<EpochSnapshot>) -> Result<
    Seq<EpochRecord>,
    EpochError,
>
    decreases snapshots.len(),
{
    if snapshots.len() == 0 {
        Ok(Seq::empty())
    } else {
        match walk(start, snapshots.drop_last()) {
            Err(e) => Err(e),
            Ok(records) => {
                let current = start_before(start, snapshots, snapshots.len() - 1);
                let last = if records.len() == 0 {
                    None
                } else {
                    Some(records.last().epoch_index)
                };
                match step_record(current, last, snapshots.last()) {
                    Err(e) => Err(e),
                    Ok(record) => Ok(records.push(record)),
                }
            },
        }
    }
}

/// One step of the walk; see `step_record`.
pub fn next_record(current: EpochStart, last: Option<u64>, snapshot: EpochSnapshot) -> (r: Result<
    EpochRecord,
    EpochError,
>)
    ensures
        r == step_record(current, last, snapshot),
{
    match last {
        Some(index) => {
            if index == 0 {
                return Err(EpochError::PastFirstEpoch);
            }
            if snapshot.epoch_index >= index {
                return Err(EpochError::EpochOutOfOrder);
            }
        },
        None => {},
    }
    if snapshot.epoch_start.current > current.current {
        return Err(EpochError::NegativeBlockCount);
    }
    Ok(
        EpochRecord {
            epoch_index: snapshot.epoch_index,
            block_count: current.current - snapshot.epoch_start.current,
        },
    )
}

/// A successful walk gives one record per snapshot.
proof fn lemma_walk_len(start: EpochStart, snapshots: Seq<EpochSnapshot>)
    ensures
        walk(start, snapshots) matches Ok(records) ==> records.len() == snapshots.len(),
    decreases snapshots.len(),
{
    if snapshots.len() > 0 {
        lemma_walk_len(start, snapshots.drop_last());
    }
}

/// Counts the blocks of the epochs met while walking back from
/// `current_epoch_start`, given what is stored at each epoch's first block
/// in the order the walk reads them.
pub fn blocks_in_epoch(current_epoch_start: EpochStart, snapshots: &Vec<EpochSnapshot>) -> (r:
    Result<Vec<EpochRecord>, EpochError>)
    ensures
        r matches Ok(records) ==> walk(current_epoch_start, snapshots@) == Ok::<
            Seq<EpochRecord>,
            EpochError,
        >(records@),
        r matches Err(e) ==> walk(current_epoch_start, snapshots@) == Err::<
            Seq<EpochRecord>,
            EpochError,
        >(e),
{
    let mut records: Vec<EpochRecord> = Vec::new();
    let mut current = current_epoch_start;
    let mut i: usize = 0;
    while i < snapshots.len()
        invariant
            0 <= i <= snapshots@.len(),
            walk(current_epoch_start, snapshots@.take(i as int)) == Ok::<
                Seq<EpochRecord>,
                EpochError,
            >(records@),
            records@.len() == i,
            current == start_before(current_epoch_start, snapshots@, i as int),
        decreases snapshots@.len() - i,
    {
        let snapshot = snapshots[i];
        let last = if records.len() == 0 {
            None
        } else {
            Some(records[records.len() - 1].epoch_index)
        };
        let step = next_record(current, last, snapshot);
        proof {
            let prefix = snapshots@.take(i as int + 1);
            assert(prefix.drop_last() =~= snapshots@.take(i as int));
            assert(prefix.last() == snapshot);
            assert(start_before(current_epoch_start, prefix, i as int) == current);
        }
        match step {
            Err(e) => {
                proof {
                    lemma_walk_err_extends(current_epoch_start, snapshots@, i as int + 1);
                }
                return Err(e);
            },
            Ok(record) => {
                records.push(record);
                current = snapshot.epoch_start;
            },
        }
        i = i + 1;
    }
    assert(snapshots@.take(snapshots@.len() as int) =~= snapshots@);
    Ok(records)
}

/// Once a walk fails on a prefix of the snapshots it fails the same way on
/// all of them.
proof fn lemma_walk_err_extends(start: EpochStart, snapshots: Seq<EpochSnapshot>, k: int)
    requires
        0 <= k <= snapshots.len(),
        walk(start, snapshots.take(k)) is Err,
    ensures
        walk(start, snapshots) == walk(start, snapshots.take(k)),
    decreases snapshots.len() - k,
{
    if k < snapshots.len() {
        let next = snapshots.take(k + 1);
        assert(next.drop_last() =~= snapshots.take(k));
        lemma_walk_err_extends(start, snapshots, k + 1);
    } else {
        assert(snapshots.take(k) =~= snapshots);
    }
}

/// A successful walk over `n` snapshots gives exactly `n` records, one per
/// epoch met, whose epoch indices strictly decrease from the most recent
/// epoch backward; each record counts the blocks between two consecutive
/// epoch starts, and the later start is never below the earlier one.
pub proof fn lemma_walk_records(start: EpochStart, snapshots: Seq<EpochSnapshot>)
    ensures
        walk(start, snapshots) matches Ok(records) ==> {
            &&& records.len() == snapshots.len()
            &&& forall|i: int, j: int|
                0 <= i < j < records.len() ==> #[trigger] records[i].epoch_index
                    > #[trigger] records[j].epoch_index
            &&& forall|i: int|
                0 <= i < records.len() ==> {
                    &&& #[trigger] records[i].epoch_index == snapshots[i].epoch_index
                    &&& snapshots[i].epoch_start.current <= start_before(
                        start,
                        snapshots,
                        i,
                    ).current
                    &&& records[i].block_count == start_before(start, snapshots, i).current
                        - snapshots[i].epoch_start.current
                }
        },
    decreases snapshots.len(),
{
    lemma_walk_len(start, snapshots);
    if snapshots.len() > 0 {
        let prefix = snapshots.drop_last();
        lemma_walk_records(start, prefix);
        lemma_walk_len(start, prefix);
        if let Ok(records) = walk(start, snapshots) {
            let n = snapshots.len() - 1;
            let rs = walk(start, prefix)->Ok_0;
            assert(records == rs.push(records[n]));
            assert forall|i: int| 0 <= i < n implies start_before(start, prefix, i) == start_before(
                start,
                snapshots,
                i,
            ) by {}
            assert forall|i: int, j: int|
                0 <= i < j < records.len() implies #[trigger] records[i].epoch_index
                    > #[trigger] records[j].epoch_index by {
                if j < n {
                    assert(rs[i].epoch_index > rs[j].epoch_index);
                } else {
                    assert(records[n].epoch_index < rs[n - 1].epoch_index);
                    if i < n - 1 {
                        assert(rs[i].epoch_index > rs[n - 1].epoch_index);
                    }
                }
            }
            assert forall|i: int| 0 <= i < records.len() implies {
                &&& #[trigger] records[i].epoch_index == snapshots[i].epoch_index
                &&& snapshots[i].epoch_start.current <= start_before(start, snapshots, i).current
                &&& records[i].block_count == start_before(start, snapshots, i).current
                    - snapshots[i].epoch_start.current
            } by {
                if i < n {
                    assert(prefix[i] == snapshots[i]);
                    assert(records[i] == rs[i]);
                }
            }
        }
    }
}

/// A backward walk in progress, for callers that read each snapshot from
/// the chain only once the walk says at which block to read it.
pub struct EpochWalk {
    start: EpochStart,
    current: EpochStart,
    wanted: u32,
    records: Vec<EpochRecord>,
    snapshots: Ghost<Seq<EpochSnapshot>>,
}

impl EpochWalk {
    /// The epoch-start pair the walk began from.
    pub closed spec fn start_spec(&self) -> EpochStart {
        self.start
    }

    /// How many epochs the walk is to cover.
    pub closed spec fn wanted_spec(&self) -> nat {
        self.wanted as nat
    }

    /// The snapshots taken in so far.
    pub closed spec fn snapshots_spec(&self) -> Seq<EpochSnapshot> {
        self.snapshots@
    }

    /// The records produced so far, most recent epoch first.
    pub closed spec fn records_spec(&self) -> Seq<EpochRecord> {
        self.records@
    }

    pub closed spec fn wf(&self) -> bool {
        &&& walk(self.start, self.snapshots@) == Ok::<Seq<EpochRecord>, EpochError>(self.records@)
        &&& self.records@.len() == self.snapshots@.len()
        &&& self.records@.len() <= self.wanted
        &&& self.current == start_before(self.start, self.snapshots@, self.snapshots@.len() as int)
    }

    /// Starts a walk over `epochs` epochs back from the epoch-start pair
    /// read at the latest block.
    pub fn new(current_epoch_start: EpochStart, epochs: u32) -> (w: EpochWalk)
        ensures
            w.wf(),
            w.start_spec() == current_epoch_start,
            w.wanted_spec() == epochs,
            w.snapshots_spec() == Seq::<EpochSnapshot>::empty(),
            w.records_spec() == Seq::<EpochRecord>::empty(),
    {
        EpochWalk {
            start: current_epoch_start,
            current: current_epoch_start,
            wanted: epochs,
            records: Vec::new(),
            snapshots: Ghost(Seq::empty()),
        }
    }

    /// The block at which the next snapshot is to be read, or `None` once
    /// the walk has covered every epoch it was asked for.
    pub fn next_block(&self) -> (r: Option<u32>)
        requires
            self.wf(),
        ensures
            self.records_spec().len() < self.wanted_spec() ==> r == Some(
                start_before(
                    self.start_spec(),
                    self.snapshots_spec(),
                    self.snapshots_spec().len() as int,
                ).previous,
            ),
            self.records_spec().len() >= self.wanted_spec() ==> r is None,
    {
        if self.records.len() < self.wanted as usize {
            Some(self.current.previous)
        } else {
            None
        }
    }

    /// Takes in the snapshot read at the block that `next_block` named.
    /// On an error the walk is left as it was.
    pub fn step(&mut self, snapshot: EpochSnapshot) -> (r: Result<(), EpochError>)
        requires
            old(self).wf(),
            old(self).records_spec().len() < old(self).wanted_spec(),
        ensures
            final(self).wf(),
            final(self).start_spec() == old(self).start_spec(),
            final(self).wanted_spec() == old(self).wanted_spec(),
            walk(old(self).start_spec(), old(self).snapshots_spec().push(snapshot)) matches Ok(
                records,
            ) ==> {
                &&& r is Ok
                &&& final(self).snapshots_spec() == old(self).snapshots_spec().push(snapshot)
                &&& final(self).records_spec() == records
            },
            walk(old(self).start_spec(), old(self).snapshots_spec().push(snapshot)) matches Err(
                e,
            ) ==> {
                &&& r == Err::<(), EpochError>(e)
                &&& final(self).snapshots_spec() == old(self).snapshots_spec()
                &&& final(self).records_spec() == old(self).records_spec()
            },
    {
        let ghost next = self.snapshots@.push(snapshot);
        let last = if self.records.len() == 0 {
            None
        } else {
            Some(self.records[self.records.len() - 1].epoch_index)
        };
        let step = next_record(self.current, last, snapshot);
        proof {
            assert(next.drop_last() =~= self.snapshots@);
            assert(start_before(self.start, next, self.snapshots@.len() as int) == self.current);
        }
        match step {
            Err(e) => Err(e),
            Ok(record) => {
                self.records.push(record);
                self.current = snapshot.epoch_start;
                self.snapshots = Ghost(next);
                Ok(())
            },
        }
    }

    /// The records of the walk, most recent epoch first.
    pub fn into_records(self) -> (r: Vec<EpochRecord>)
        requires
            self.wf(),
        ensures
            walk(self.start_spec(), self.snapshots_spec()) == Ok::<Seq<EpochRecord>, EpochError>(r@),
            r@ == self.records_spec(),
    {
        self.records
    }
}

} // verus!
