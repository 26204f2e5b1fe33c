//! The availability resolver's precedence rules on concrete slots.

use bartender::resolver::slot_is_empty;
use bartender::telemetry::{find_stocked, MachineResponse, SlotResponse};

fn snapshot(slots: Vec<(i32, bool)>) -> MachineResponse {
    MachineResponse {
        name: "snack".to_string(),
        slots: slots
            .into_iter()
            .map(|(number, stocked)| SlotResponse { number, stocked })
            .collect(),
    }
}

#[test]
fn zero_count_is_empty_whatever_telemetry_claims() {
    let stocked = snapshot(vec![(3, true)]);
    assert!(slot_is_empty(&Some(0), Some(&stocked), 3));
    assert!(slot_is_empty(&Some(0), None, 3));
    let unstocked = snapshot(vec![(3, false)]);
    assert!(slot_is_empty(&Some(0), Some(&unstocked), 3));
}

#[test]
fn positive_count_is_not_empty_whatever_telemetry_claims() {
    let unstocked = snapshot(vec![(3, false)]);
    assert!(!slot_is_empty(&Some(1), Some(&unstocked), 3));
    assert!(!slot_is_empty(&Some(5), None, 3));
    assert!(!slot_is_empty(&Some(1), Some(&snapshot(vec![])), 3));
}

#[test]
fn untracked_count_with_no_telemetry_fails_safe() {
    assert!(slot_is_empty(&None, None, 3));
}

#[test]
fn untracked_count_follows_the_stocked_flag() {
    let stocked = snapshot(vec![(2, false), (3, true)]);
    assert!(!slot_is_empty(&None, Some(&stocked), 3));
    let unstocked = snapshot(vec![(3, false)]);
    assert!(slot_is_empty(&None, Some(&unstocked), 3));
}

#[test]
fn untracked_count_with_slot_missing_from_telemetry_is_empty() {
    let other_slots = snapshot(vec![(1, true), (2, true)]);
    assert!(slot_is_empty(&None, Some(&other_slots), 3));
}

#[test]
fn telemetry_lookup_takes_the_first_match() {
    let twice = snapshot(vec![(3, false), (3, true)]);
    assert_eq!(find_stocked(&twice.slots, 3), Some(false));
    assert_eq!(find_stocked(&twice.slots, 9), None);
}
