//! Read-only catalog views: the per-machine availability listing served to
//! browsing clients, and the slot list shown over the message channel.
//! Both reuse the availability resolver, with no mutation.

use vstd::prelude::*;

use crate::models::{Machine, SlotWithItem};
use crate::resolver::{opt_telemetry, slot_is_empty, spec_slot_empty};
use crate::telemetry::MachineResponse;

verus! {

/// An item as shown in the listing.
#[derive(Debug, Clone, PartialEq, Eq)]
pub struct ItemListing {
    pub id: i32,
    pub name: String,
    pub price: i32,
}

/// One slot of the listing: the ledger row plus the resolver's verdict.
#[derive(Debug, Clone, PartialEq, Eq)]
pub struct SlotListing {
    pub active: bool,
    pub count: Option<i32>,
    pub empty: bool,
    pub item: ItemListing,
    pub machine: i32,
    pub number: i32,
}

/// One machine of the listing: whether its device answered, and its slots.
#[derive(Debug, Clone, PartialEq, Eq)]
pub struct MachineListing {
    pub display_name: String,
    pub id: i32,
    pub is_online: bool,
    pub name: String,
    pub slots: Vec<SlotListing>,
}

/// The first answer among `states` coming from the machine called `name`;
/// `None` when that device did not answer.
pub open spec fn response_for(
    states: Seq<Option<MachineResponse>>,
    name: Seq<char>,
) -> Option<MachineResponse>
    decreases states.len(),
{
    if states.len() == 0 {
        None
    } else {
        match states[0] {
            Some(t) => if t.name@ == name {
                Some(t)
            } else {
                response_for(states.drop_first(), name)
            },
            None => response_for(states.drop_first(), name),
        }
    }
}

/// The ledger slots that belong to one machine, in their stored order.
pub open spec fn slots_for(slots: Seq<SlotWithItem>, machine_id: i32) -> Seq<SlotWithItem> {
    slots.filter(|s: SlotWithItem| s.machine == machine_id)
}

/// The listing row for one ledger slot under one telemetry snapshot.
pub open spec fn spec_slot_listing(s: SlotWithItem, t: Option<MachineResponse>) -> SlotListing {
    SlotListing {
        active: s.active,
        count: s.count,
        empty: spec_slot_empty(s.count, t, s.number),
        item: ItemListing { id: s.id, name: s.name, price: s.price },
        machine: s.machine,
        number: s.number,
    }
}

/// Finds the answer of the machine called `name` among `states`, first
/// match wins.
pub fn find_response<'a>(states: &'a Vec<Option<MachineResponse>>, name: &String) -> (r: Option<
    &'a MachineResponse,
>)
    ensures
        opt_telemetry(r) == response_for(states@, name@),
{
    let mut i: usize = 0;
    proof {
        assert(states@.skip(0) =~= states@);
    }
    while i < states.len()
        invariant
            i <= states@.len(),
            response_for(states@, name@) == response_for(states@.skip(i as int), name@),
        decreases states@.len() - i,
    {
        proof {
            assert(states@.skip(i as int)[0] == states@[i as int]);
            assert(states@.skip(i as int).drop_first() =~= states@.skip(i as int + 1));
        }
        match &states[i] {
            Some(t) => {
                if t.name == *name {
                    return Some(t);
                }
            },
            None => {},
        }
        i = i + 1;
    }
    proof {
        assert(states@.skip(i as int).len() == 0);
    }
    None
}

/// Whether the machine called `name` answered a status request.
pub fn is_machine_online(states: &Vec<Option<MachineResponse>>, name: &String) -> (r: bool)
    ensures
        r == (response_for(states@, name@) is Some),
{
    match find_response(states, name) {
        Some(_) => true,
        None => false,
    }
}

/// Builds the listing for one machine: its identity, whether its device
/// answered, and — for each of its ledger slots, in order — the resolver's
/// emptiness verdict under that answer.
pub fn machine_listing(
    machine: &Machine,
    states: &Vec<Option<MachineResponse>>,
    slots: &Vec<SlotWithItem>,
) -> (r: MachineListing)
    ensures
        r.id == machine.id,
        r.name == machine.name,
        r.display_name == machine.display_name,
        r.is_online == (response_for(states@, machine.name@) is Some),
        r.slots@ =~= slots_for(slots@, machine.id).map_values(
            |s: SlotWithItem| spec_slot_listing(s, response_for(states@, machine.name@)),
        ),
{
    let telemetry = find_response(states, &machine.name);
    let is_online = match telemetry {
        Some(_) => true,
        None => false,
    };
    let ghost t = response_for(states@, machine.name@);
    let ghost pred = |s: SlotWithItem| s.machine == machine.id;
    let mut out: Vec<SlotListing> = Vec::new();
    let mut i: usize = 0;
    proof {
        reveal(Seq::filter);
        assert(slots@.take(0) =~= Seq::<SlotWithItem>::empty());
        assert(out@ =~= slots@.take(0).filter(pred).map_values(
            |s: SlotWithItem| spec_slot_listing(s, t),
        ));
    }
    while i < slots.len()
        invariant
            i <= slots@.len(),
            opt_telemetry(telemetry) == t,
            out@ =~= slots@.take(i as int).filter(pred).map_values(
                |s: SlotWithItem| spec_slot_listing(s, t),
            ),
            pred == (|s: SlotWithItem| s.machine == machine.id),
        decreases slots@.len() - i,
    {
        let s = &slots[i];
        if s.machine == machine.id {
            let empty = slot_is_empty(&s.count, telemetry, s.number);
            out.push(
                SlotListing {
                    active: s.active,
                    count: s.count,
                    empty,
                    item: ItemListing { id: s.id, name: s.name.clone(), price: s.price },
                    machine: s.machine,
                    number: s.number,
                },
            );
        }
        proof {
            reveal(Seq::filter);
            let taken = slots@.take(i as int);
            let next = slots@.take(i as int + 1);
            assert(next.drop_last() =~= taken);
            assert(next.last() == slots@[i as int]);
            if pred(slots@[i as int]) {
                assert(next.filter(pred) == taken.filter(pred).push(slots@[i as int]));
                assert(taken.filter(pred).push(slots@[i as int]).map_values(
                    |s: SlotWithItem| spec_slot_listing(s, t),
                ) =~= taken.filter(pred).map_values(
                    |s: SlotWithItem| spec_slot_listing(s, t),
                ).push(spec_slot_listing(slots@[i as int], t)));
            } else {
                assert(next.filter(pred) == taken.filter(pred));
            }
        }
        i = i + 1;
    }
    proof {
        assert(slots@.take(slots@.len() as int) =~= slots@);
    }
    MachineListing {
        display_name: machine.display_name.clone(),
        id: machine.id,
        is_online,
        name: machine.name.clone(),
        slots: out,
    }
}

/// Builds the whole availability listing: one entry per machine, in the
/// given order, each built by [`machine_listing`].
pub fn build_drink_listing(
    machines: &Vec<Machine>,
    states: &Vec<Option<MachineResponse>>,
    slots: &Vec<SlotWithItem>,
) -> (r: Vec<MachineListing>)
    ensures
        r@.len() == machines@.len(),
        forall|i: int|
            0 <= i < machines@.len() ==> {
                let m = machines@[i];
                &&& (#[trigger] r@[i]).id == m.id
                &&& r@[i].name == m.name
                &&& r@[i].display_name == m.display_name
                &&& r@[i].is_online == (response_for(states@, m.name@) is Some)
                &&& r@[i].slots@ =~= slots_for(slots@, m.id).map_values(
                    |s: SlotWithItem| spec_slot_listing(s, response_for(states@, m.name@)),
                )
            },
{
    let mut out: Vec<MachineListing> = Vec::new();
    let mut i: usize = 0;
    while i < machines.len()
        invariant
            i <= machines@.len(),
            out@.len() == i,
            forall|j: int|
                0 <= j < i ==> {
                    let m = machines@[j];
                    &&& (#[trigger] out@[j]).id == m.id
                    &&& out@[j].name == m.name
                    &&& out@[j].display_name == m.display_name
                    &&& out@[j].is_online == (response_for(states@, m.name@) is Some)
                    &&& out@[j].slots@ =~= slots_for(slots@, m.id).map_values(
                        |s: SlotWithItem| spec_slot_listing(s, response_for(states@, m.name@)),
                    )
                },
        decreases machines@.len() - i,
    {
        let entry = machine_listing(&machines[i], states, slots);
        out.push(entry);
        i = i + 1;
    }
    out
}

/// Whether a slot is offered on the message channel: it must be active
/// and not empty under the device's (present) telemetry.
pub open spec fn visible(s: SlotWithItem, t: MachineResponse) -> bool {
    s.active && !spec_slot_empty(s.count, Some(t), s.number)
}

/// The slots worth showing over the message channel, in stored order:
/// active ones that the resolver does not call empty.
pub fn visible_slots(slots: &Vec<SlotWithItem>, telemetry: &MachineResponse) -> (r: Vec<
    SlotWithItem,
>)
    ensures
        r@ =~= slots@.filter(|s: SlotWithItem| visible(s, *telemetry)),
{
    let ghost pred = |s: SlotWithItem| visible(s, *telemetry);
    let mut out: Vec<SlotWithItem> = Vec::new();
    let mut i: usize = 0;
    proof {
        reveal(Seq::filter);
        assert(slots@.take(0) =~= Seq::<SlotWithItem>::empty());
        assert(out@ =~= slots@.take(0).filter(pred));
    }
    while i < slots.len()
        invariant
            i <= slots@.len(),
            out@ =~= slots@.take(i as int).filter(pred),
            pred == (|s: SlotWithItem| visible(s, *telemetry)),
        decreases slots@.len() - i,
    {
        let s = &slots[i];
        if s.active && !slot_is_empty(&s.count, Some(telemetry), s.number) {
            out.push(s.duplicate());
        }
        proof {
            reveal(Seq::filter);
            let taken = slots@.take(i as int);
            let next = slots@.take(i as int + 1);
            assert(next.drop_last() =~= taken);
            assert(next.last() == slots@[i as int]);
            if pred(slots@[i as int]) {
                assert(next.filter(pred) == taken.filter(pred).push(slots@[i as int]));
            } else {
                assert(next.filter(pred) == taken.filter(pred));
            }
        }
        i = i + 1;
    }
    proof {
        assert(slots@.take(slots@.len() as int) =~= slots@);
    }
    out
}

} // verus!
