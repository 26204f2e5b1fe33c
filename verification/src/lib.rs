//! Core logic of a drink-machine service: deciding whether a slot can be
//! served, and sequencing the dispense workflow across the ledger, the
//! directory and the physical device, none of which share a transaction.
//!
//! Everything here is pure: network and database work is done by a driver
//! that performs each requested action and feeds the result back in.

pub mod admin;
pub mod listing;
pub mod models;
pub mod audit;
pub mod directory;
pub mod oidc;
pub mod resolver;
pub mod saga;
pub mod sms;
pub mod telemetry;
pub mod text;
