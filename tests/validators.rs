use babe_monitor::validators::{contains_account, diff, difference};
use std::collections::BTreeSet;

fn set(items: &[&str]) -> Vec<String> {
    items.iter().map(|s| s.to_string()).collect()
}

fn as_set(v: &[String]) -> BTreeSet<String> {
    v.iter().cloned().collect()
}

#[test]
fn validator_diff_scenario() {
    let d = diff(&set(&["v1", "v2", "v3"]), &set(&["v2", "v3", "v4"]));
    assert_eq!(d.added, set(&["v4"]));
    assert_eq!(d.removed, set(&["v1"]));
    assert!(!d.is_empty());
}

#[test]
fn diff_reconstructs_second_set() {
    let a = set(&["a", "b", "c", "d"]);
    let b = set(&["c", "d", "e", "f", "g"]);
    let d = diff(&a, &b);
    let added = as_set(&d.added);
    let removed = as_set(&d.removed);
    assert!(added.is_disjoint(&removed));
    let mut rebuilt: BTreeSet<String> = as_set(&a).union(&added).cloned().collect();
    rebuilt.retain(|x| !removed.contains(x));
    assert_eq!(rebuilt, as_set(&b));
}

#[test]
fn diff_of_equal_sets_is_empty() {
    let d = diff(&set(&["x", "y"]), &set(&["y", "x"]));
    assert!(d.is_empty());
}

#[test]
fn diff_lists_each_account_once() {
    let d = diff(&set(&["a"]), &set(&["b", "b", "a", "c", "c"]));
    assert_eq!(d.added, set(&["b", "c"]));
    assert!(d.removed.is_empty());
}

#[test]
fn diff_against_empty_set() {
    let d = diff(&Vec::new(), &set(&["a", "b"]));
    assert_eq!(d.added, set(&["a", "b"]));
    let d = diff(&set(&["a", "b"]), &Vec::new());
    assert_eq!(d.removed, set(&["a", "b"]));
}

#[test]
fn membership_and_difference() {
    assert!(contains_account(&set(&["a", "b"]), &"b".to_string()));
    assert!(!contains_account(&set(&["a", "b"]), &"c".to_string()));
    assert_eq!(difference(&set(&["a", "b", "c"]), &set(&["b"])), set(&["a", "c"]));
}
