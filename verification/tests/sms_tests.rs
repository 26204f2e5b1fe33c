//! The message-channel command parser on concrete messages.

use bartender::sms::{parse_command, SmsCommand, SmsMessage};

#[test]
fn empty_message_asks_for_a_command() {
    assert_eq!(parse_command(""), SmsCommand::MissingCommand);
    assert_eq!(parse_command("   "), SmsCommand::MissingCommand);
}

#[test]
fn command_words_are_case_insensitive() {
    assert_eq!(parse_command("credits"), SmsCommand::Credits);
    assert_eq!(parse_command("CREDITS"), SmsCommand::Credits);
    assert_eq!(parse_command("Machines"), SmsCommand::Machines);
    assert_eq!(
        parse_command("DrOp snack 3"),
        SmsCommand::DropDrink {
            machine: "snack".to_string(),
            slot: 3,
        }
    );
}

#[test]
fn show_needs_a_machine_name() {
    assert_eq!(
        parse_command("show snack"),
        SmsCommand::Show {
            machine: "snack".to_string(),
        }
    );
    assert_eq!(parse_command("show"), SmsCommand::ShowMissingMachine);
}

#[test]
fn machine_names_keep_their_case() {
    assert_eq!(
        parse_command("show Snack"),
        SmsCommand::Show {
            machine: "Snack".to_string(),
        }
    );
}

#[test]
fn drop_needs_machine_and_slot() {
    assert_eq!(
        parse_command("drop snack 3"),
        SmsCommand::DropDrink {
            machine: "snack".to_string(),
            slot: 3,
        }
    );
    assert_eq!(parse_command("drop"), SmsCommand::DropMissingMachine);
    assert_eq!(parse_command("drop snack"), SmsCommand::DropMissingSlot);
    assert_eq!(
        parse_command("drop snack three"),
        SmsCommand::DropBadSlot {
            text: "three".to_string(),
        }
    );
}

#[test]
fn help_has_two_spellings() {
    assert_eq!(parse_command("help"), SmsCommand::Help);
    assert_eq!(parse_command("commands"), SmsCommand::Help);
}

#[test]
fn anything_else_is_unknown() {
    assert_eq!(
        parse_command("frobnicate now"),
        SmsCommand::Unknown {
            word: "frobnicate".to_string(),
        }
    );
}

#[test]
fn a_wrapped_message_parses_like_its_text() {
    let message = SmsMessage {
        message: "drop soda 1".to_string(),
    };
    assert_eq!(
        parse_command(&message.message),
        SmsCommand::DropDrink {
            machine: "soda".to_string(),
            slot: 1,
        }
    );
}

#[test]
fn extra_words_after_a_plain_command_are_ignored() {
    assert_eq!(parse_command("credits please"), SmsCommand::Credits);
    assert_eq!(parse_command("drop snack 3 now"), SmsCommand::DropDrink {
        machine: "snack".to_string(),
        slot: 3,
    });
}
