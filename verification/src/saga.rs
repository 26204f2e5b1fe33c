//! The dispense saga: the ordered workflow that decides whether a dispense
//! is allowed, commands the physical device, and reconciles the ledger and
//! directory afterwards.
//!
//! No two of the backing systems share a transaction, so the workflow is a
//! state machine over plain values: every step returns the next state
//! together with the one outside action the driver must perform, and the
//! driver feeds the action's result back in as an event. All policy —
//! ordering, short-circuiting, and what happens on each partial failure —
//! lives in [`step_spec`], which [`saga_step`] implements exactly.
//!
//! The irreversibility boundary sits at [`SagaAction::SendCommand`]: every
//! failure before it aborts with no side effect, while failures after it
//! (debit, count write, audit) degrade to warnings, because the physical
//! good has already been delivered.

use vstd::prelude::*;

use crate::directory::{balance_of, debit_change_set, read_balance, LdapUser, LdapUserChangeSet};
use crate::models::{DropRecord, Machine, SlotWithItem, StoreError};
use crate::resolver::{slot_is_empty, spec_slot_empty};
use crate::telemetry::MachineResponse;

verus! {

/// What a caller asks for: one item from one slot of one machine.
#[derive(Debug, Clone, PartialEq, Eq)]
pub struct DispenseRequest {
    pub username: String,
    pub machine_name: String,
    pub slot_number: i32,
}

/// How a call to the device can fail. The driver must keep the four
/// outcomes of a device call apart; the three failures map to distinct
/// user-facing errors.
#[derive(Debug, Clone, PartialEq, Eq)]
pub enum DeviceError {
    Connect,
    Timeout,
    Api { status: u16, message: String },
}

/// Why a dispense was refused before anything was touched.
#[derive(Debug, Clone, PartialEq, Eq)]
pub enum RejectReason {
    UnknownMachine,
    UnknownSlot,
    SlotEmpty,
    UnknownUser,
    InsufficientBalance { balance: i64, price: i32 },
}

/// Which backing service was unreachable during the read-only steps; the
/// caller may simply retry.
#[derive(Debug, Clone, PartialEq, Eq)]
pub enum UnavailableCause {
    Ledger,
    DeviceOffline,
}

/// The terminal result of one saga run. `Success` still carries warning
/// flags for the post-command writes that failed: those are operational
/// inconsistencies, never user-facing failures, because the device had
/// already accepted the command.
#[derive(Debug, Clone, PartialEq, Eq)]
pub enum DispenseOutcome {
    Success {
        new_balance: i64,
        debit_warning: bool,
        count_warning: bool,
        deactivate_warning: bool,
        audit_warning: bool,
    },
    Rejected { reason: RejectReason },
    Unavailable { cause: UnavailableCause },
    Failed { error: DeviceError },
}

/// Where one saga run stands, together with everything later steps need.
#[derive(Debug, Clone, PartialEq, Eq)]
pub enum SagaState {
    FetchingMachine { username: String, machine_name: String, slot_number: i32 },
    FetchingSlot { username: String, machine: Machine, slot_number: i32 },
    FetchingTelemetry { username: String, machine: Machine, slot: SlotWithItem },
    FetchingBalance { username: String, machine: Machine, slot: SlotWithItem },
    Commanding { username: String, machine: Machine, slot: SlotWithItem, account: LdapUser },
    Debiting { username: String, machine: Machine, slot: SlotWithItem, new_balance: i64 },
    WritingCount {
        username: String,
        machine: Machine,
        slot: SlotWithItem,
        new_balance: i64,
        debit_warning: bool,
    },
    Deactivating {
        username: String,
        machine: Machine,
        slot: SlotWithItem,
        new_balance: i64,
        debit_warning: bool,
        count_warning: bool,
    },
    Auditing {
        new_balance: i64,
        debit_warning: bool,
        count_warning: bool,
        deactivate_warning: bool,
    },
    Complete,
}

/// The result of the one outside call a state is waiting for.
#[derive(Debug, PartialEq, Eq)]
pub enum SagaEvent {
    MachineFetched { result: Result<Machine, StoreError> },
    SlotFetched { result: Result<SlotWithItem, StoreError> },
    TelemetryFetched { result: Result<MachineResponse, DeviceError> },
    BalanceFetched { account: Option<LdapUser> },
    CommandSent { result: Result<(), DeviceError> },
    Debited { ok: bool },
    CountWritten { ok: bool },
    Deactivated { ok: bool },
    AuditWritten { ok: bool },
}

/// The one outside call the driver must perform next, or the final
/// outcome to hand the caller.
#[derive(Debug, Clone, PartialEq, Eq)]
pub enum SagaAction {
    FetchMachine { name: String },
    FetchSlot { machine_id: i32, number: i32 },
    FetchTelemetry { machine_name: String },
    FetchBalance { username: String },
    SendCommand { machine_name: String, number: i32 },
    ApplyDebit { change: LdapUserChangeSet },
    WriteCount { machine_id: i32, number: i32, new_count: i32 },
    WriteActive { machine_id: i32, number: i32, active: bool },
    AppendAudit { record: DropRecord },
    Finish { outcome: DispenseOutcome },
}

/// A tracked count, if the slot has one, is at least one. This is what
/// the availability check guarantees from the ledger invariant onward,
/// and what makes the later decrement safe.
pub open spec fn count_at_least_one(slot: SlotWithItem) -> bool {
    slot.count matches Some(c) ==> c >= 1
}

/// What each state guarantees about the values it carries. Established by
/// [`saga_start`] and preserved by [`saga_step`].
pub open spec fn state_wf(state: SagaState) -> bool {
    match state {
        SagaState::FetchingMachine { .. } => true,
        SagaState::FetchingSlot { .. } => true,
        SagaState::FetchingTelemetry { slot, .. } => slot.wf(),
        SagaState::FetchingBalance { slot, .. } => slot.wf() && count_at_least_one(slot),
        SagaState::Commanding { slot, account, .. } => {
            &&& slot.wf()
            &&& count_at_least_one(slot)
            &&& balance_of(account) >= slot.price
        },
        SagaState::Debiting { slot, .. } => slot.wf() && count_at_least_one(slot),
        SagaState::WritingCount { slot, .. } => {
            &&& slot.wf()
            &&& count_at_least_one(slot)
            &&& slot.count is Some
        },
        SagaState::Deactivating { .. } => true,
        SagaState::Auditing { .. } => true,
        SagaState::Complete => true,
    }
}

/// What the saga assumes of an event: only that ledger slot records obey
/// the store's invariant (non-negative price and count).
pub open spec fn event_wf(event: SagaEvent) -> bool {
    event matches SagaEvent::SlotFetched { result: Ok(slot) } ==> slot.wf()
}

/// Whether `event` answers the call `state` is waiting for.
pub open spec fn expects(state: SagaState, event: SagaEvent) -> bool {
    match (state, event) {
        (SagaState::FetchingMachine { .. }, SagaEvent::MachineFetched { .. }) => true,
        (SagaState::FetchingSlot { .. }, SagaEvent::SlotFetched { .. }) => true,
        (SagaState::FetchingTelemetry { .. }, SagaEvent::TelemetryFetched { .. }) => true,
        (SagaState::FetchingBalance { .. }, SagaEvent::BalanceFetched { .. }) => true,
        (SagaState::Commanding { .. }, SagaEvent::CommandSent { .. }) => true,
        (SagaState::Debiting { .. }, SagaEvent::Debited { .. }) => true,
        (SagaState::WritingCount { .. }, SagaEvent::CountWritten { .. }) => true,
        (SagaState::Deactivating { .. }, SagaEvent::Deactivated { .. }) => true,
        (SagaState::Auditing { .. }, SagaEvent::AuditWritten { .. }) => true,
        _ => false,
    }
}

/// A finished run: the terminal state plus the outcome for the caller.
pub open spec fn finished(outcome: DispenseOutcome) -> (SagaState, SagaAction) {
    (SagaState::Complete, SagaAction::Finish { outcome })
}

/// The audit row for a successful dispense: who, where, and what it cost.
pub open spec fn audit_record(
    username: String,
    machine: Machine,
    slot: SlotWithItem,
) -> DropRecord {
    DropRecord {
        username,
        machine: machine.id,
        slot: slot.number,
        item: slot.id,
        item_name: slot.name,
        item_price: slot.price,
    }
}

/// Where a saga run starts and what it asks for first.
pub open spec fn start_spec(req: DispenseRequest) -> (SagaState, SagaAction) {
    (
        SagaState::FetchingMachine {
            username: req.username,
            machine_name: req.machine_name,
            slot_number: req.slot_number,
        },
        SagaAction::FetchMachine { name: req.machine_name },
    )
}

/// The whole dispense policy as one transition function: given a state
/// and the result of the call it was waiting for, the next state and the
/// next action.
///
/// The order of the stages is a hard requirement: identity is resolved
/// before telemetry is read, availability before the balance, and the
/// balance is compared to the price strictly before any device command,
/// so a dispense that cannot be charged for is never commanded. From the
/// moment the device accepts the command nothing aborts any more: debit,
/// count write, deactivation and audit each degrade to a warning flag on
/// the eventual `Success`.
pub open spec fn step_spec(state: SagaState, event: SagaEvent) -> (SagaState, SagaAction) {
    match (state, event) {
        (
            SagaState::FetchingMachine { username, machine_name, slot_number },
            SagaEvent::MachineFetched { result },
        ) => match result {
            Ok(machine) => (
                SagaState::FetchingSlot { username, machine, slot_number },
                SagaAction::FetchSlot { machine_id: machine.id, number: slot_number },
            ),
            Err(StoreError::NotFound) => finished(
                DispenseOutcome::Rejected { reason: RejectReason::UnknownMachine },
            ),
            Err(StoreError::Unavailable) => finished(
                DispenseOutcome::Unavailable { cause: UnavailableCause::Ledger },
            ),
        },
        (
            SagaState::FetchingSlot { username, machine, slot_number },
            SagaEvent::SlotFetched { result },
        ) => match result {
            Ok(slot) => (
                SagaState::FetchingTelemetry { username, machine, slot },
                SagaAction::FetchTelemetry { machine_name: machine.name },
            ),
            Err(StoreError::NotFound) => finished(
                DispenseOutcome::Rejected { reason: RejectReason::UnknownSlot },
            ),
            Err(StoreError::Unavailable) => finished(
                DispenseOutcome::Unavailable { cause: UnavailableCause::Ledger },
            ),
        },
        (
            SagaState::FetchingTelemetry { username, machine, slot },
            SagaEvent::TelemetryFetched { result },
        ) => match result {
            Ok(telemetry) => if spec_slot_empty(slot.count, Some(telemetry), slot.number) {
                finished(DispenseOutcome::Rejected { reason: RejectReason::SlotEmpty })
            } else {
                (
                    SagaState::FetchingBalance { username, machine, slot },
                    SagaAction::FetchBalance { username },
                )
            },
            Err(_) => finished(
                DispenseOutcome::Unavailable { cause: UnavailableCause::DeviceOffline },
            ),
        },
        (
            SagaState::FetchingBalance { username, machine, slot },
            SagaEvent::BalanceFetched { account },
        ) => match account {
            None => finished(DispenseOutcome::Rejected { reason: RejectReason::UnknownUser }),
            Some(account) => if balance_of(account) < slot.price {
                finished(
                    DispenseOutcome::Rejected {
                        reason: RejectReason::InsufficientBalance {
                            balance: balance_of(account) as i64,
                            price: slot.price,
                        },
                    },
                )
            } else {
                (
                    SagaState::Commanding { username, machine, slot, account },
                    SagaAction::SendCommand { machine_name: machine.name, number: slot.number },
                )
            },
        },
        (
            SagaState::Commanding { username, machine, slot, account },
            SagaEvent::CommandSent { result },
        ) => match result {
            Err(error) => finished(DispenseOutcome::Failed { error }),
            Ok(_) => (
                SagaState::Debiting {
                    username,
                    machine,
                    slot,
                    new_balance: (balance_of(account) - slot.price) as i64,
                },
                SagaAction::ApplyDebit {
                    change: LdapUserChangeSet {
                        dn: account.dn,
                        drinkBalance: Some((balance_of(account) - slot.price) as i64),
                        ibutton: None,
                    },
                },
            ),
        },
        (
            SagaState::Debiting { username, machine, slot, new_balance },
            SagaEvent::Debited { ok },
        ) => match slot.count {
            Some(c) => (
                SagaState::WritingCount {
                    username,
                    machine,
                    slot,
                    new_balance,
                    debit_warning: !ok,
                },
                SagaAction::WriteCount {
                    machine_id: machine.id,
                    number: slot.number,
                    new_count: (c - 1) as i32,
                },
            ),
            None => (
                SagaState::Auditing {
                    new_balance,
                    debit_warning: !ok,
                    count_warning: false,
                    deactivate_warning: false,
                },
                SagaAction::AppendAudit { record: audit_record(username, machine, slot) },
            ),
        },
        (
            SagaState::WritingCount { username, machine, slot, new_balance, debit_warning },
            SagaEvent::CountWritten { ok },
        ) => if slot.count matches Some(c) && c == 1 {
            (
                SagaState::Deactivating {
                    username,
                    machine,
                    slot,
                    new_balance,
                    debit_warning,
                    count_warning: !ok,
                },
                SagaAction::WriteActive { machine_id: machine.id, number: slot.number, active: false },
            )
        } else {
            (
                SagaState::Auditing {
                    new_balance,
                    debit_warning,
                    count_warning: !ok,
                    deactivate_warning: false,
                },
                SagaAction::AppendAudit { record: audit_record(username, machine, slot) },
            )
        },
        (
            SagaState::Deactivating {
                username,
                machine,
                slot,
                new_balance,
                debit_warning,
                count_warning,
            },
            SagaEvent::Deactivated { ok },
        ) => (
            SagaState::Auditing {
                new_balance,
                debit_warning,
                count_warning,
                deactivate_warning: !ok,
            },
            SagaAction::AppendAudit { record: audit_record(username, machine, slot) },
        ),
        (
            SagaState::Auditing { new_balance, debit_warning, count_warning, deactivate_warning },
            SagaEvent::AuditWritten { ok },
        ) => finished(
            DispenseOutcome::Success {
                new_balance,
                debit_warning,
                count_warning,
                deactivate_warning,
                audit_warning: !ok,
            },
        ),
        // No state expects any other event; `saga_step` requires `expects`.
        _ => finished(DispenseOutcome::Rejected { reason: RejectReason::UnknownMachine }),
    }
}

/// Begins a saga run for `req`: the first state and the first action.
pub fn saga_start(req: DispenseRequest) -> (r: (SagaState, SagaAction))
    ensures
        r == start_spec(req),
        state_wf(r.0),
{
    let name = req.machine_name.clone();
    (
        SagaState::FetchingMachine {
            username: req.username,
            machine_name: req.machine_name,
            slot_number: req.slot_number,
        },
        SagaAction::FetchMachine { name },
    )
}

/// Performs one transition of the saga, exactly as [`step_spec`] says,
/// and keeps the state well-formed.
pub fn saga_step(state: SagaState, event: SagaEvent) -> (r: (SagaState, SagaAction))
    requires
        state_wf(state),
        event_wf(event),
        expects(state, event),
    ensures
        r == step_spec(state, event),
        state_wf(r.0),
{
    match (state, event) {
        (
            SagaState::FetchingMachine { username, machine_name: _, slot_number },
            SagaEvent::MachineFetched { result },
        ) => match result {
            Ok(machine) => {
                let action = SagaAction::FetchSlot { machine_id: machine.id, number: slot_number };
                (SagaState::FetchingSlot { username, machine, slot_number }, action)
            },
            Err(StoreError::NotFound) => (
                SagaState::Complete,
                SagaAction::Finish {
                    outcome: DispenseOutcome::Rejected { reason: RejectReason::UnknownMachine },
                },
            ),
            Err(StoreError::Unavailable) => (
                SagaState::Complete,
                SagaAction::Finish {
                    outcome: DispenseOutcome::Unavailable { cause: UnavailableCause::Ledger },
                },
            ),
        },
        (
            SagaState::FetchingSlot { username, machine, slot_number: _ },
            SagaEvent::SlotFetched { result },
        ) => match result {
            Ok(slot) => {
                let action = SagaAction::FetchTelemetry { machine_name: machine.name.clone() };
                (SagaState::FetchingTelemetry { username, machine, slot }, action)
            },
            Err(StoreError::NotFound) => (
                SagaState::Complete,
                SagaAction::Finish {
                    outcome: DispenseOutcome::Rejected { reason: RejectReason::UnknownSlot },
                },
            ),
            Err(StoreError::Unavailable) => (
                SagaState::Complete,
                SagaAction::Finish {
                    outcome: DispenseOutcome::Unavailable { cause: UnavailableCause::Ledger },
                },
            ),
        },
        (
            SagaState::FetchingTelemetry { username, machine, slot },
            SagaEvent::TelemetryFetched { result },
        ) => match result {
            Ok(telemetry) => {
                if slot_is_empty(&slot.count, Some(&telemetry), slot.number) {
                    (
                        SagaState::Complete,
                        SagaAction::Finish {
                            outcome: DispenseOutcome::Rejected { reason: RejectReason::SlotEmpty },
                        },
                    )
                } else {
                    let action = SagaAction::FetchBalance { username: username.clone() };
                    (SagaState::FetchingBalance { username, machine, slot }, action)
                }
            },
            Err(_) => (
                SagaState::Complete,
                SagaAction::Finish {
                    outcome: DispenseOutcome::Unavailable {
                        cause: UnavailableCause::DeviceOffline,
                    },
                },
            ),
        },
        (
            SagaState::FetchingBalance { username, machine, slot },
            SagaEvent::BalanceFetched { account },
        ) => match account {
            None => (
                SagaState::Complete,
                SagaAction::Finish {
                    outcome: DispenseOutcome::Rejected { reason: RejectReason::UnknownUser },
                },
            ),
            Some(account) => {
                let balance = read_balance(&account);
                if balance < slot.price as i64 {
                    (
                        SagaState::Complete,
                        SagaAction::Finish {
                            outcome: DispenseOutcome::Rejected {
                                reason: RejectReason::InsufficientBalance {
                                    balance,
                                    price: slot.price,
                                },
                            },
                        },
                    )
                } else {
                    let action = SagaAction::SendCommand {
                        machine_name: machine.name.clone(),
                        number: slot.number,
                    };
                    (SagaState::Commanding { username, machine, slot, account }, action)
                }
            },
        },
        (
            SagaState::Commanding { username, machine, slot, account },
            SagaEvent::CommandSent { result },
        ) => match result {
            Err(error) => (
                SagaState::Complete,
                SagaAction::Finish { outcome: DispenseOutcome::Failed { error } },
            ),
            Ok(_) => {
                let change = debit_change_set(&account, slot.price);
                let new_balance = read_balance(&account) - slot.price as i64;
                (
                    SagaState::Debiting { username, machine, slot, new_balance },
                    SagaAction::ApplyDebit { change },
                )
            },
        },
        (
            SagaState::Debiting { username, machine, slot, new_balance },
            SagaEvent::Debited { ok },
        ) => match slot.count {
            Some(c) => {
                let action = SagaAction::WriteCount {
                    machine_id: machine.id,
                    number: slot.number,
                    new_count: c - 1,
                };
                (
                    SagaState::WritingCount {
                        username,
                        machine,
                        slot,
                        new_balance,
                        debit_warning: !ok,
                    },
                    action,
                )
            },
            None => (
                SagaState::Auditing {
                    new_balance,
                    debit_warning: !ok,
                    count_warning: false,
                    deactivate_warning: false,
                },
                SagaAction::AppendAudit {
                    record: DropRecord {
                        username,
                        machine: machine.id,
                        slot: slot.number,
                        item: slot.id,
                        item_name: slot.name,
                        item_price: slot.price,
                    },
                },
            ),
        },
        (
            SagaState::WritingCount { username, machine, slot, new_balance, debit_warning },
            SagaEvent::CountWritten { ok },
        ) => {
            let at_one = match slot.count {
                Some(c) => c == 1,
                None => false,
            };
            if at_one {
                let action = SagaAction::WriteActive {
                    machine_id: machine.id,
                    number: slot.number,
                    active: false,
                };
                (
                    SagaState::Deactivating {
                        username,
                        machine,
                        slot,
                        new_balance,
                        debit_warning,
                        count_warning: !ok,
                    },
                    action,
                )
            } else {
                (
                    SagaState::Auditing {
                        new_balance,
                        debit_warning,
                        count_warning: !ok,
                        deactivate_warning: false,
                    },
                    SagaAction::AppendAudit {
                        record: DropRecord {
                            username,
                            machine: machine.id,
                            slot: slot.number,
                            item: slot.id,
                            item_name: slot.name,
                            item_price: slot.price,
                        },
                    },
                )
            }
        },
        (
            SagaState::Deactivating {
                username,
                machine,
                slot,
                new_balance,
                debit_warning,
                count_warning,
            },
            SagaEvent::Deactivated { ok },
        ) => (
            SagaState::Auditing {
                new_balance,
                debit_warning,
                count_warning,
                deactivate_warning: !ok,
            },
            SagaAction::AppendAudit {
                record: DropRecord {
                    username,
                    machine: machine.id,
                    slot: slot.number,
                    item: slot.id,
                    item_name: slot.name,
                    item_price: slot.price,
                },
            },
        ),
        (
            SagaState::Auditing { new_balance, debit_warning, count_warning, deactivate_warning },
            SagaEvent::AuditWritten { ok },
        ) => (
            SagaState::Complete,
            SagaAction::Finish {
                outcome: DispenseOutcome::Success {
                    new_balance,
                    debit_warning,
                    count_warning,
                    deactivate_warning,
                    audit_warning: !ok,
                },
            },
        ),
        // Unreachable: `expects` rules every other pairing out.
        _ => (
            SagaState::Complete,
            SagaAction::Finish {
                outcome: DispenseOutcome::Rejected { reason: RejectReason::UnknownMachine },
            },
        ),
    }
}

/// Tells a driver whether `event` is the answer `state` waits for, so it
/// can refuse a mismatched reply before calling [`saga_step`].
pub fn saga_expects(state: &SagaState, event: &SagaEvent) -> (r: bool)
    ensures
        r == expects(*state, *event),
{
    match (state, event) {
        (SagaState::FetchingMachine { .. }, SagaEvent::MachineFetched { .. }) => true,
        (SagaState::FetchingSlot { .. }, SagaEvent::SlotFetched { .. }) => true,
        (SagaState::FetchingTelemetry { .. }, SagaEvent::TelemetryFetched { .. }) => true,
        (SagaState::FetchingBalance { .. }, SagaEvent::BalanceFetched { .. }) => true,
        (SagaState::Commanding { .. }, SagaEvent::CommandSent { .. }) => true,
        (SagaState::Debiting { .. }, SagaEvent::Debited { .. }) => true,
        (SagaState::WritingCount { .. }, SagaEvent::CountWritten { .. }) => true,
        (SagaState::Deactivating { .. }, SagaEvent::Deactivated { .. }) => true,
        (SagaState::Auditing { .. }, SagaEvent::AuditWritten { .. }) => true,
        _ => false,
    }
}

/// Tells a driver whether an event obeys the ledger's record invariant,
/// so it can refuse a malformed row before calling [`saga_step`].
pub fn saga_event_wf(event: &SagaEvent) -> (r: bool)
    ensures
        r == event_wf(*event),
{
    match event {
        SagaEvent::SlotFetched { result: Ok(slot) } => {
            let count_ok = match slot.count {
                Some(c) => c >= 0,
                None => true,
            };
            slot.price >= 0 && count_ok
        },
        _ => true,
    }
}

/// The response status an outcome maps to on the web interface: success
/// is plain success; rejections are client errors, with unknown callers
/// and short balances kept apart; device failures after validation are
/// server errors, except an application-level device error, which keeps
/// the status the device gave.
pub open spec fn spec_http_status(outcome: DispenseOutcome) -> u16 {
    match outcome {
        DispenseOutcome::Success { .. } => 200,
        DispenseOutcome::Rejected { reason } => match reason {
            RejectReason::UnknownUser => 401,
            RejectReason::InsufficientBalance { .. } => 402,
            _ => 400,
        },
        DispenseOutcome::Unavailable { .. } => 400,
        DispenseOutcome::Failed { error } => match error {
            DeviceError::Api { status, .. } => status,
            _ => 500,
        },
    }
}

/// Maps an outcome to its response status, exactly as
/// [`spec_http_status`] says.
pub fn http_status_of(outcome: &DispenseOutcome) -> (r: u16)
    ensures
        r == spec_http_status(*outcome),
{
    match outcome {
        DispenseOutcome::Success { .. } => 200,
        DispenseOutcome::Rejected { reason } => match reason {
            RejectReason::UnknownUser => 401,
            RejectReason::InsufficientBalance { .. } => 402,
            _ => 400,
        },
        DispenseOutcome::Unavailable { .. } => 400,
        DispenseOutcome::Failed { error } => match error {
            DeviceError::Api { status, .. } => *status,
            _ => 500,
        },
    }
}

/// The device is commanded only from the one transition that has just
/// compared the fetched balance to the price and found it sufficient: no
/// dispense the caller cannot pay for is ever commanded, and the command
/// goes to the machine and slot the saga validated.
pub proof fn lemma_command_only_with_funds(state: SagaState, event: SagaEvent)
    ensures
        step_spec(state, event).1 matches SagaAction::SendCommand { machine_name, number } ==> {
            &&& state matches SagaState::FetchingBalance { machine, slot, .. }
            &&& event matches SagaEvent::BalanceFetched { account: Some(account) }
            &&& balance_of(account) >= slot.price
            &&& machine_name == machine.name
            &&& number == slot.number
        },
{
}

/// One whole saga run, as a driver would play it: the pairs of state and
/// requested action, starting from [`start_spec`] and folding one event
/// of `events` in per step.
pub open spec fn run_pairs(req: DispenseRequest, events: Seq<SagaEvent>) -> Seq<(SagaState, SagaAction)>
    decreases events.len(),
{
    if events.len() == 0 {
        seq![start_spec(req)]
    } else {
        let prev = run_pairs(req, events.drop_last());
        prev.push(step_spec(prev.last().0, events.last()))
    }
}

/// A run has one pair per event, plus the starting one.
pub proof fn lemma_run_pairs_len(req: DispenseRequest, events: Seq<SagaEvent>)
    ensures
        run_pairs(req, events).len() == events.len() + 1,
    decreases events.len(),
{
    if events.len() > 0 {
        lemma_run_pairs_len(req, events.drop_last());
    }
}

/// Whatever the backends answer over a whole run, the device is commanded
/// only immediately after a balance event whose account covers the price
/// of the slot being served: a caller whose fetched balance is below the
/// price is never the cause of a device command.
pub proof fn theorem_no_command_without_funds(
    req: DispenseRequest,
    events: Seq<SagaEvent>,
    i: int,
)
    requires
        0 <= i < run_pairs(req, events).len(),
        (run_pairs(req, events)[i].1 matches SagaAction::SendCommand { .. }),
    ensures
        1 <= i <= events.len(),
        ({
            &&& run_pairs(req, events)[i - 1].0 matches SagaState::FetchingBalance { slot, .. }
            &&& events[i - 1] matches SagaEvent::BalanceFetched { account: Some(account) }
            &&& balance_of(account) >= slot.price
        }),
    decreases events.len(),
{
    lemma_run_pairs_len(req, events);
    if events.len() == 0 {
        // The only pair is the start, whose action fetches the machine.
        assert(run_pairs(req, events)[0] == start_spec(req));
    } else {
        let prev = run_pairs(req, events.drop_last());
        lemma_run_pairs_len(req, events.drop_last());
        if i < prev.len() {
            assert(run_pairs(req, events)[i] == prev[i]);
            theorem_no_command_without_funds(req, events.drop_last(), i);
            assert(run_pairs(req, events)[i - 1] == prev[i - 1]);
            assert(events[i - 1] == events.drop_last()[i - 1]);
        } else {
            assert(run_pairs(req, events)[i] == step_spec(prev.last().0, events.last()));
            lemma_command_only_with_funds(prev.last().0, events.last());
            assert(run_pairs(req, events)[i - 1] == prev.last());
            assert(events[i - 1] == events.last());
        }
    }
}

/// An insufficient balance ends the run at once with the dedicated
/// rejection, before any command, debit or write.
pub proof fn lemma_insufficient_balance_rejects(state: SagaState, event: SagaEvent)
    requires
        state matches SagaState::FetchingBalance { .. },
        event matches SagaEvent::BalanceFetched { account: Some(account) },
    ensures
        (state matches SagaState::FetchingBalance { slot, .. } && event matches
            SagaEvent::BalanceFetched { account: Some(account) } && balance_of(account)
            < slot.price) ==> step_spec(state, event) == finished(
            DispenseOutcome::Rejected {
                reason: RejectReason::InsufficientBalance {
                    balance: balance_of(
                        event->BalanceFetched_account->Some_0,
                    ) as i64,
                    price: state->FetchingBalance_slot.price,
                },
            },
        ),
{
}

/// A device that cannot be reached for telemetry ends the run at once
/// with the offline outcome: the directory is never read and nothing is
/// written.
pub proof fn lemma_offline_rejects_early(state: SagaState, event: SagaEvent)
    requires
        state matches SagaState::FetchingTelemetry { .. },
        event matches SagaEvent::TelemetryFetched { result: Err(e) },
    ensures
        step_spec(state, event) == finished(
            DispenseOutcome::Unavailable { cause: UnavailableCause::DeviceOffline },
        ),
{
}

/// A debit is issued only on the one transition where the device has just
/// accepted the command — never before acceptance and never on a device
/// failure — and its change-set is addressed by the durable handle
/// captured when the balance was fetched and lowers the balance by
/// exactly the price of the dispensed item.
pub proof fn lemma_debit_is_exact(state: SagaState, event: SagaEvent)
    ensures
        step_spec(state, event).1 matches SagaAction::ApplyDebit { change } ==> ({
            &&& state matches SagaState::Commanding { slot, account, .. }
            &&& event matches SagaEvent::CommandSent { result: Ok(accepted) }
            &&& change.dn == account.dn
            &&& change.drinkBalance == Some((balance_of(account) - slot.price) as i64)
            &&& change.ibutton is None
        }),
{
}

} // verus!
