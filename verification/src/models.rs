//! Records of the relational ledger: machines, slots, items, and the
//! append-only audit row written after a successful dispense.

use vstd::prelude::*;

verus! {

/// A vending machine as the ledger knows it. `name` is the stable key used
/// to address the device over the network; `display_name` is for humans.
#[derive(Debug, Clone, PartialEq, Eq)]
pub struct Machine {
    pub id: i32,
    pub name: String,
    pub display_name: String,
    pub active: bool,
}

/// A slot of a machine, keyed by `(machine, number)`. `count` is present
/// only for machines that track discrete stock; `None` means "unbounded or
/// unknown, defer to live telemetry".
#[derive(Debug, Clone, PartialEq, Eq)]
pub struct Slot {
    pub machine: i32,
    pub number: i32,
    pub item: i32,
    pub active: bool,
    pub count: Option<i32>,
}

/// An item that a slot can hold. `price` is in non-negative credit units.
#[derive(Debug, Clone, PartialEq, Eq)]
pub struct Item {
    pub id: i32,
    pub name: String,
    pub price: i32,
}

/// A slot joined with its item, as the ledger returns it for dispensing.
#[derive(Debug, Clone, PartialEq, Eq)]
pub struct SlotWithItem {
    pub machine: i32,
    pub number: i32,
    pub item: i32,
    pub active: bool,
    pub count: Option<i32>,
    pub id: i32,
    pub name: String,
    pub price: i32,
}

impl SlotWithItem {
    /// The ledger's record invariant: prices are non-negative and a tracked
    /// count is non-negative.
    pub open spec fn wf(self) -> bool {
        &&& self.price >= 0
        &&& (self.count matches Some(c) ==> c >= 0)
    }

    /// A field-by-field copy of the record.
    pub fn duplicate(&self) -> (r: Self)
        ensures
            r == *self,
    {
        SlotWithItem {
            machine: self.machine,
            number: self.number,
            item: self.item,
            active: self.active,
            count: self.count,
            id: self.id,
            name: self.name.clone(),
            price: self.price,
        }
    }
}

/// One immutable audit row, appended after the device has accepted a
/// dispense command. The store assigns the row id and timestamp.
#[derive(Debug, Clone, PartialEq, Eq)]
pub struct DropRecord {
    pub username: String,
    pub machine: i32,
    pub slot: i32,
    pub item: i32,
    pub item_name: String,
    pub item_price: i32,
}

/// A ledger read that fails does so for one of two reasons; they are kept
/// apart because only the second is worth retrying.
#[derive(Debug, Clone, PartialEq, Eq)]
pub enum StoreError {
    NotFound,
    Unavailable,
}

} // verus!
