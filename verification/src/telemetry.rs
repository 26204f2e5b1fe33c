//! Live, ephemeral stock status fetched directly from a vending device.

use vstd::prelude::*;

verus! {

/// One slot's live status as the device reports it.
#[derive(Debug, Clone, PartialEq, Eq)]
pub struct SlotResponse {
    pub number: i32,
    pub stocked: bool,
}

/// A device's answer to a status request: the machine's stable name and
/// the live status of each of its slots. A response existing at all means
/// the device was reachable.
#[derive(Debug, Clone, PartialEq, Eq)]
pub struct MachineResponse {
    pub name: String,
    pub slots: Vec<SlotResponse>,
}

/// The stocked flag of the first reported slot with the given number, or
/// `None` when the device did not report that slot.
pub open spec fn stocked_of(slots: Seq<SlotResponse>, number: i32) -> Option<bool>
    decreases slots.len(),
{
    if slots.len() == 0 {
        None
    } else if slots[0].number == number {
        Some(slots[0].stocked)
    } else {
        stocked_of(slots.drop_first(), number)
    }
}

/// Looks up a slot number in a telemetry snapshot, first match wins.
pub fn find_stocked(slots: &Vec<SlotResponse>, number: i32) -> (r: Option<bool>)
    ensures
        r == stocked_of(slots@, number),
{
    let mut i: usize = 0;
    assert(slots@.skip(0) =~= slots@);
    while i < slots.len()
        invariant
            i <= slots@.len(),
            stocked_of(slots@, number) == stocked_of(slots@.skip(i as int), number),
            forall|j: int| 0 <= j < i ==> slots@[j].number != number,
        decreases slots@.len() - i,
    {
        if slots[i].number == number {
            assert(slots@.skip(i as int)[0] == slots@[i as int]);
            return Some(slots[i].stocked);
        }
        assert(slots@.skip(i as int).drop_first() =~= slots@.skip(i + 1));
        i = i + 1;
    }
    assert(slots@.skip(i as int).len() == 0);
    None
}

} // verus!
