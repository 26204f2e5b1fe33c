//! End-to-end runs of the dispense saga against a scripted world: the
//! driver performs each requested action on plain in-memory state and
//! feeds the result back, recording every side effect.

use bartender::audit::AuditLog;
use bartender::directory::{LdapUser, LdapUserChangeSet};
use bartender::models::{DropRecord, Machine, SlotWithItem, StoreError};
use bartender::saga::{
    http_status_of, saga_event_wf, saga_expects, saga_start, saga_step, DeviceError,
    DispenseOutcome, DispenseRequest, RejectReason, SagaAction, SagaEvent, SagaState,
    UnavailableCause,
};
use bartender::telemetry::{MachineResponse, SlotResponse};

/// A scripted world: what each backend will answer, and a record of every
/// call and write the saga asked for.
struct World {
    machine: Result<Machine, StoreError>,
    slot: Result<SlotWithItem, StoreError>,
    telemetry: Result<MachineResponse, DeviceError>,
    account: Option<LdapUser>,
    command_result: Result<(), DeviceError>,
    debit_ok: bool,
    count_ok: bool,
    deactivate_ok: bool,
    audit_ok: bool,
    // what happened
    commands_sent: usize,
    directory_reads: usize,
    debits: Vec<LdapUserChangeSet>,
    count_writes: Vec<(i32, i32, i32)>,
    active_writes: Vec<(i32, i32, bool)>,
    audit: AuditLog,
}

impl World {
    fn answer(&mut self, action: &SagaAction) -> Option<SagaEvent> {
        match action {
            SagaAction::FetchMachine { .. } => Some(SagaEvent::MachineFetched {
                result: self.machine.clone(),
            }),
            SagaAction::FetchSlot { .. } => Some(SagaEvent::SlotFetched {
                result: self.slot.clone(),
            }),
            SagaAction::FetchTelemetry { .. } => Some(SagaEvent::TelemetryFetched {
                result: self.telemetry.clone(),
            }),
            SagaAction::FetchBalance { .. } => {
                self.directory_reads += 1;
                Some(SagaEvent::BalanceFetched {
                    account: self.account.clone(),
                })
            }
            SagaAction::SendCommand { .. } => {
                self.commands_sent += 1;
                Some(SagaEvent::CommandSent {
                    result: self.command_result.clone(),
                })
            }
            SagaAction::ApplyDebit { change } => {
                if self.debit_ok {
                    self.debits.push(change.clone());
                }
                Some(SagaEvent::Debited { ok: self.debit_ok })
            }
            SagaAction::WriteCount {
                machine_id,
                number,
                new_count,
            } => {
                if self.count_ok {
                    self.count_writes.push((*machine_id, *number, *new_count));
                }
                Some(SagaEvent::CountWritten { ok: self.count_ok })
            }
            SagaAction::WriteActive {
                machine_id,
                number,
                active,
            } => {
                if self.deactivate_ok {
                    self.active_writes.push((*machine_id, *number, *active));
                }
                Some(SagaEvent::Deactivated { ok: self.deactivate_ok })
            }
            SagaAction::AppendAudit { record } => {
                if self.audit_ok {
                    self.audit.append(record.clone());
                }
                Some(SagaEvent::AuditWritten { ok: self.audit_ok })
            }
            SagaAction::Finish { .. } => None,
        }
    }

    fn run(&mut self, req: DispenseRequest) -> DispenseOutcome {
        let (mut state, mut action) = saga_start(req);
        loop {
            match self.answer(&action) {
                None => match action {
                    SagaAction::Finish { outcome } => return outcome,
                    _ => unreachable!(),
                },
                Some(event) => {
                    assert!(saga_event_wf(&event));
                    assert!(saga_expects(&state, &event));
                    let (next, next_action) = saga_step(state, event);
                    state = next;
                    action = next_action;
                }
            }
        }
    }
}

fn snack_machine() -> Machine {
    Machine {
        id: 7,
        name: "snack".to_string(),
        display_name: "Snack".to_string(),
        active: true,
    }
}

fn snack_slot(count: Option<i32>) -> SlotWithItem {
    SlotWithItem {
        machine: 7,
        number: 3,
        item: 21,
        active: true,
        count,
        id: 21,
        name: "Chips".to_string(),
        price: 100,
    }
}

fn caller(balance: i64) -> LdapUser {
    LdapUser {
        dn: "uid=alice,cn=users".to_string(),
        cn: "Alice".to_string(),
        uid: "alice".to_string(),
        krbPrincipalName: "alice@EXAMPLE".to_string(),
        mail: vec![],
        mobile: vec![],
        drinkBalance: Some(balance),
        ibutton: vec![],
    }
}

fn online_snack() -> MachineResponse {
    MachineResponse {
        name: "snack".to_string(),
        slots: vec![
            SlotResponse {
                number: 3,
                stocked: true,
            },
        ],
    }
}

fn world(balance: i64) -> World {
    World {
        machine: Ok(snack_machine()),
        slot: Ok(snack_slot(Some(1))),
        telemetry: Ok(online_snack()),
        account: Some(caller(balance)),
        command_result: Ok(()),
        debit_ok: true,
        count_ok: true,
        deactivate_ok: true,
        audit_ok: true,
        commands_sent: 0,
        directory_reads: 0,
        debits: Vec::new(),
        count_writes: Vec::new(),
        active_writes: Vec::new(),
        audit: AuditLog::new(),
    }
}

fn request() -> DispenseRequest {
    DispenseRequest {
        username: "alice".to_string(),
        machine_name: "snack".to_string(),
        slot_number: 3,
    }
}

#[test]
fn scenario_successful_dispense_reconciles_everything() {
    let mut w = world(150);
    let outcome = w.run(request());
    match outcome {
        DispenseOutcome::Success {
            new_balance,
            debit_warning,
            count_warning,
            deactivate_warning,
            audit_warning,
        } => {
            assert_eq!(new_balance, 50);
            assert!(!debit_warning && !count_warning && !deactivate_warning && !audit_warning);
        }
        other => panic!("expected success, got {:?}", other),
    }
    assert_eq!(w.commands_sent, 1);
    assert_eq!(
        w.debits,
        vec![LdapUserChangeSet {
            dn: "uid=alice,cn=users".to_string(),
            drinkBalance: Some(50),
            ibutton: None,
        }]
    );
    // count 1 -> 0, and the slot is deactivated the instant it hits 0
    assert_eq!(w.count_writes, vec![(7, 3, 0)]);
    assert_eq!(w.active_writes, vec![(7, 3, false)]);
    assert_eq!(w.audit.len(), 1);
    let row = w.audit.get(0);
    assert_eq!(row.username, "alice");
    assert_eq!(row.machine, 7);
    assert_eq!(row.slot, 3);
    assert_eq!(row.item, 21);
    assert_eq!(row.item_name, "Chips");
    assert_eq!(row.item_price, 100);
    assert_eq!(http_status_of(&outcome), 200);
}

#[test]
fn scenario_insufficient_balance_touches_nothing() {
    let mut w = world(50);
    let outcome = w.run(request());
    assert_eq!(
        outcome,
        DispenseOutcome::Rejected {
            reason: RejectReason::InsufficientBalance {
                balance: 50,
                price: 100,
            },
        }
    );
    assert_eq!(w.commands_sent, 0);
    assert!(w.debits.is_empty());
    assert!(w.count_writes.is_empty());
    assert!(w.active_writes.is_empty());
    assert_eq!(w.audit.len(), 0);
    assert_eq!(http_status_of(&outcome), 402);
}

#[test]
fn scenario_telemetry_timeout_rejects_before_directory() {
    let mut w = world(150);
    w.telemetry = Err(DeviceError::Timeout);
    let outcome = w.run(request());
    assert_eq!(
        outcome,
        DispenseOutcome::Unavailable {
            cause: UnavailableCause::DeviceOffline,
        }
    );
    // the directory was never read, and nothing was written
    assert_eq!(w.directory_reads, 0);
    assert_eq!(w.commands_sent, 0);
    assert!(w.debits.is_empty());
    assert!(w.count_writes.is_empty());
    assert!(w.active_writes.is_empty());
    assert_eq!(w.audit.len(), 0);
}

#[test]
fn scenario_debit_failure_still_reports_success_with_warning() {
    let mut w = world(150);
    w.debit_ok = false;
    let outcome = w.run(request());
    match outcome {
        DispenseOutcome::Success {
            new_balance,
            debit_warning,
            count_warning,
            deactivate_warning,
            audit_warning,
        } => {
            assert_eq!(new_balance, 50);
            assert!(debit_warning);
            assert!(!count_warning && !deactivate_warning && !audit_warning);
        }
        other => panic!("expected success, got {:?}", other),
    }
    // the audit row is still appended
    assert_eq!(w.audit.len(), 1);
    assert!(w.debits.is_empty());
}

#[test]
fn unknown_machine_rejects() {
    let mut w = world(150);
    w.machine = Err(StoreError::NotFound);
    let outcome = w.run(request());
    assert_eq!(
        outcome,
        DispenseOutcome::Rejected {
            reason: RejectReason::UnknownMachine,
        }
    );
    assert_eq!(http_status_of(&outcome), 400);
    assert_eq!(w.commands_sent, 0);
}

#[test]
fn unknown_slot_rejects() {
    let mut w = world(150);
    w.slot = Err(StoreError::NotFound);
    let outcome = w.run(request());
    assert_eq!(
        outcome,
        DispenseOutcome::Rejected {
            reason: RejectReason::UnknownSlot,
        }
    );
    assert_eq!(w.commands_sent, 0);
}

#[test]
fn ledger_outage_is_reported_as_unavailable() {
    let mut w = world(150);
    w.machine = Err(StoreError::Unavailable);
    let outcome = w.run(request());
    assert_eq!(
        outcome,
        DispenseOutcome::Unavailable {
            cause: UnavailableCause::Ledger,
        }
    );
}

#[test]
fn unknown_user_rejects_as_unauthorized() {
    let mut w = world(150);
    w.account = None;
    let outcome = w.run(request());
    assert_eq!(
        outcome,
        DispenseOutcome::Rejected {
            reason: RejectReason::UnknownUser,
        }
    );
    assert_eq!(http_status_of(&outcome), 401);
    assert_eq!(w.commands_sent, 0);
}

#[test]
fn zero_count_slot_rejects_even_when_telemetry_says_stocked() {
    let mut w = world(150);
    w.slot = Ok(snack_slot(Some(0)));
    let outcome = w.run(request());
    assert_eq!(
        outcome,
        DispenseOutcome::Rejected {
            reason: RejectReason::SlotEmpty,
        }
    );
    assert_eq!(w.commands_sent, 0);
}

#[test]
fn untracked_slot_follows_telemetry() {
    // No ledger count: the stocked flag decides, and the ledger count is
    // never written afterwards.
    let mut w = world(150);
    w.slot = Ok(snack_slot(None));
    let outcome = w.run(request());
    assert!(matches!(outcome, DispenseOutcome::Success { .. }));
    assert!(w.count_writes.is_empty());
    assert!(w.active_writes.is_empty());
    assert_eq!(w.audit.len(), 1);
}

#[test]
fn untracked_slot_with_unstocked_telemetry_rejects() {
    let mut w = world(150);
    w.slot = Ok(snack_slot(None));
    w.telemetry = Ok(MachineResponse {
        name: "snack".to_string(),
        slots: vec![SlotResponse {
            number: 3,
            stocked: false,
        }],
    });
    let outcome = w.run(request());
    assert_eq!(
        outcome,
        DispenseOutcome::Rejected {
            reason: RejectReason::SlotEmpty,
        }
    );
}

#[test]
fn device_connect_failure_fails_without_billing() {
    let mut w = world(150);
    w.command_result = Err(DeviceError::Connect);
    let outcome = w.run(request());
    assert_eq!(
        outcome,
        DispenseOutcome::Failed {
            error: DeviceError::Connect,
        }
    );
    assert_eq!(w.commands_sent, 1);
    assert!(w.debits.is_empty());
    assert_eq!(w.audit.len(), 0);
    assert_eq!(http_status_of(&outcome), 500);
}

#[test]
fn device_api_error_keeps_its_status() {
    let mut w = world(150);
    w.command_result = Err(DeviceError::Api {
        status: 409,
        message: "slot jammed".to_string(),
    });
    let outcome = w.run(request());
    assert_eq!(http_status_of(&outcome), 409);
    assert!(w.debits.is_empty());
}

#[test]
fn count_above_one_decrements_without_deactivating() {
    let mut w = world(150);
    w.slot = Ok(snack_slot(Some(5)));
    let outcome = w.run(request());
    assert!(matches!(outcome, DispenseOutcome::Success { .. }));
    assert_eq!(w.count_writes, vec![(7, 3, 4)]);
    assert!(w.active_writes.is_empty());
}

#[test]
fn two_dispenses_leave_two_identical_audit_rows() {
    // The audit ledger never merges rows, even when every field matches.
    let mut w = world(400);
    w.slot = Ok(snack_slot(Some(5)));
    let first = w.run(request());
    assert!(matches!(first, DispenseOutcome::Success { .. }));
    let second = w.run(request());
    assert!(matches!(second, DispenseOutcome::Success { .. }));
    assert_eq!(w.audit.len(), 2);
    let expected = DropRecord {
        username: "alice".to_string(),
        machine: 7,
        slot: 3,
        item: 21,
        item_name: "Chips".to_string(),
        item_price: 100,
    };
    assert_eq!(*w.audit.get(0), expected);
    assert_eq!(*w.audit.get(1), expected);
}

#[test]
fn failed_audit_write_only_warns() {
    let mut w = world(150);
    w.audit_ok = false;
    let outcome = w.run(request());
    match outcome {
        DispenseOutcome::Success { audit_warning, .. } => assert!(audit_warning),
        other => panic!("expected success, got {:?}", other),
    }
    assert_eq!(w.audit.len(), 0);
}

#[test]
fn saga_start_asks_for_the_machine_first() {
    let (state, action) = saga_start(request());
    assert!(matches!(state, SagaState::FetchingMachine { .. }));
    match action {
        SagaAction::FetchMachine { name } => assert_eq!(name, "snack"),
        other => panic!("expected a machine fetch, got {:?}", other),
    }
}
