use babe_monitor::epochs::EpochRecord;
use babe_monitor::monitor::{
    epoch_alert, era_alert, validator_change_alert, Alert, EXPECTED_BLOCKS_PER_EPOCH,
    EXPECTED_BLOCKS_PER_ERA,
};
use babe_monitor::traversal::{check_traverse_range, traverse_step, TraverseError, TraverseStep};
use babe_monitor::validators::diff;

#[test]
fn short_epoch_is_reported() {
    let r = epoch_alert(EpochRecord { epoch_index: 4, block_count: 719 });
    assert!(matches!(r, Some(Alert::EpochShort { epoch_index: 4, blocks: 719 })));
    assert!(epoch_alert(EpochRecord { epoch_index: 4, block_count: EXPECTED_BLOCKS_PER_EPOCH }).is_none());
}

#[test]
fn short_era_is_reported() {
    assert!(matches!(era_alert(3, 4319), Some(Alert::EraShort { era_index: 3, blocks: 4319 })));
    assert!(era_alert(3, EXPECTED_BLOCKS_PER_ERA).is_none());
}

#[test]
fn validator_change_concerns_next_era() {
    let d = diff(&vec!["a".to_string()], &vec!["b".to_string()]);
    let r = validator_change_alert(u32::MAX, &d, vec!["B [b]".to_string()], vec!["A [a]".to_string()]);
    match r {
        Some(Alert::ValidatorChanges { era_index, added, removed }) => {
            assert_eq!(era_index, u32::MAX as u64 + 1);
            assert_eq!(added, vec!["B [b]".to_string()]);
            assert_eq!(removed, vec!["A [a]".to_string()]);
        }
        _ => panic!("expected a validator change alert"),
    }
    let same = diff(&vec!["a".to_string()], &vec!["a".to_string()]);
    assert!(validator_change_alert(1, &same, Vec::new(), Vec::new()).is_none());
}

#[test]
fn traversal_range_and_steps() {
    assert_eq!(check_traverse_range(5, 10), Err(TraverseError::StartBelowEnd));
    assert_eq!(check_traverse_range(10, 10), Ok(()));
    assert_eq!(traverse_step(12, 10), TraverseStep::RecordAndContinue);
    assert_eq!(traverse_step(10, 10), TraverseStep::RecordLast);
    assert_eq!(traverse_step(9, 10), TraverseStep::Stop);
}
