use babe_monitor::epochs::{
    blocks_in_epoch, next_record, EpochError, EpochRecord, EpochSnapshot, EpochStart, EpochWalk,
};

fn start(previous: u32, current: u32) -> EpochStart {
    EpochStart { previous, current }
}

fn snap(epoch_index: u64, previous: u32, current: u32) -> EpochSnapshot {
    EpochSnapshot { epoch_index, epoch_start: start(previous, current) }
}

#[test]
fn walk_counts_blocks_per_epoch() {
    let current = start(2135, 2855);
    let snapshots = vec![snap(9, 1435, 2135), snap(8, 720, 1435), snap(7, 5, 720)];
    let records = blocks_in_epoch(current, &snapshots).unwrap();
    assert_eq!(
        records,
        vec![
            EpochRecord { epoch_index: 9, block_count: 720 },
            EpochRecord { epoch_index: 8, block_count: 700 },
            EpochRecord { epoch_index: 7, block_count: 715 },
        ]
    );
}

#[test]
fn walk_gives_one_record_per_epoch_in_decreasing_order() {
    let mut snapshots = Vec::new();
    let mut block = 100_000u32;
    for k in 0..20u64 {
        snapshots.push(snap(50 - k, block - 1400, block - 700));
        block -= 700;
    }
    let records = blocks_in_epoch(start(100_000 - 700, 100_000), &snapshots).unwrap();
    assert_eq!(records.len(), 20);
    for w in records.windows(2) {
        assert!(w[0].epoch_index > w[1].epoch_index);
    }
    assert!(records.iter().all(|r| r.block_count == 700));
}

#[test]
fn walk_of_nothing_is_empty() {
    assert_eq!(blocks_in_epoch(start(1, 2), &Vec::new()).unwrap(), Vec::new());
}

#[test]
fn walk_past_first_epoch_fails() {
    let snapshots = vec![snap(1, 0, 720), snap(0, 0, 0), snap(0, 0, 0)];
    let r = blocks_in_epoch(start(720, 1440), &snapshots);
    assert_eq!(r, Err(EpochError::PastFirstEpoch));
}

#[test]
fn walk_reaches_first_epoch() {
    let snapshots = vec![snap(1, 0, 720), snap(0, 0, 0)];
    let records = blocks_in_epoch(start(720, 1440), &snapshots).unwrap();
    assert_eq!(records[1], EpochRecord { epoch_index: 0, block_count: 720 });
}

#[test]
fn walk_rejects_non_decreasing_epochs() {
    let snapshots = vec![snap(5, 100, 200), snap(5, 50, 100)];
    assert_eq!(blocks_in_epoch(start(200, 300), &snapshots), Err(EpochError::EpochOutOfOrder));
}

#[test]
fn walk_rejects_negative_count() {
    let snapshots = vec![snap(5, 100, 400)];
    assert_eq!(blocks_in_epoch(start(200, 300), &snapshots), Err(EpochError::NegativeBlockCount));
}

#[test]
fn single_step_counts_difference() {
    assert_eq!(
        next_record(start(10, 730), None, snap(3, 0, 10)),
        Ok(EpochRecord { epoch_index: 3, block_count: 720 })
    );
    assert_eq!(next_record(start(10, 730), Some(0), snap(3, 0, 10)), Err(EpochError::PastFirstEpoch));
}

#[test]
fn stepwise_walk_names_blocks_and_collects_records() {
    let mut walk = EpochWalk::new(start(2140, 2860), 2);
    assert_eq!(walk.next_block(), Some(2140));
    walk.step(snap(9, 1440, 2140)).unwrap();
    assert_eq!(walk.next_block(), Some(1440));
    assert_eq!(walk.step(snap(9, 720, 1440)), Err(EpochError::EpochOutOfOrder));
    assert_eq!(walk.next_block(), Some(1440));
    walk.step(snap(8, 720, 1440)).unwrap();
    assert_eq!(walk.next_block(), None);
    assert_eq!(
        walk.into_records(),
        vec![
            EpochRecord { epoch_index: 9, block_count: 720 },
            EpochRecord { epoch_index: 8, block_count: 700 },
        ]
    );
}
