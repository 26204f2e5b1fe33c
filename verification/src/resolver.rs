//! The availability resolver: the single rule deciding whether a slot is
//! empty, merging the authoritative ledger count with live telemetry.

use vstd::prelude::*;

use crate::telemetry::{stocked_of, find_stocked, MachineResponse};

verus! {

/// Whether a slot is empty, given its ledger `count` and the device's
/// telemetry snapshot (`None` when the device was unreachable).
///
/// Precedence, first match wins:
/// 1. a tracked count of zero is empty;
/// 2. a tracked positive count is not empty, whatever telemetry claims;
/// 3. with no tracked count, the telemetry's `stocked` flag decides, and a
///    missing snapshot or a slot absent from it counts as empty (fail
///    safe: refuse to dispense rather than charge for nothing).
pub open spec fn spec_slot_empty(
    count: Option<i32>,
    telemetry: Option<MachineResponse>,
    number: i32,
) -> bool {
    match count {
        Some(c) => c == 0,
        None => match telemetry {
            None => true,
            Some(t) => match stocked_of(t.slots@, number) {
                Some(stocked) => !stocked,
                None => true,
            },
        },
    }
}

/// The snapshot a borrowed telemetry argument stands for.
pub open spec fn opt_telemetry(t: Option<&MachineResponse>) -> Option<MachineResponse> {
    match t {
        Some(x) => Some(*x),
        None => None,
    }
}

/// Decides emptiness of slot `number` exactly as [`spec_slot_empty`] says.
pub fn slot_is_empty(count: &Option<i32>, telemetry: Option<&MachineResponse>, number: i32) -> (r:
    bool)
    ensures
        r == spec_slot_empty(*count, opt_telemetry(telemetry), number),
{
    match count {
        Some(c) => *c == 0,
        None => match telemetry {
            None => true,
            Some(t) => match find_stocked(&t.slots, number) {
                Some(stocked) => !stocked,
                None => true,
            },
        },
    }
}

/// A slot whose tracked count is zero is empty no matter what telemetry
/// claims, even a snapshot reporting it stocked.
pub proof fn lemma_zero_count_is_empty(telemetry: Option<MachineResponse>, number: i32)
    ensures
        spec_slot_empty(Some(0i32), telemetry, number),
{
}

/// A slot with a tracked positive count is never empty, even when
/// telemetry is absent or claims the slot is unstocked.
pub proof fn lemma_positive_count_not_empty(
    c: i32,
    telemetry: Option<MachineResponse>,
    number: i32,
)
    requires
        c > 0,
    ensures
        !spec_slot_empty(Some(c), telemetry, number),
{
}

/// With no tracked count and no telemetry, the resolver fails safe: the
/// slot counts as empty.
pub proof fn lemma_no_information_is_empty(number: i32)
    ensures
        spec_slot_empty(None::<i32>, None::<MachineResponse>, number),
{
}

} // verus!
