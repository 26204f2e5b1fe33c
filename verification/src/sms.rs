//! The short-message command channel: one free-form text line maps to a
//! catalog query or to a dispense request.

use vstd::prelude::*;

use crate::text::{eq_lowered, lower_seq, parse_i32, parse_i32_spec, tokenize, tokens_of};

verus! {

/// An inbound text message, as the transport hands it over.
#[derive(Debug, Clone, PartialEq, Eq)]
pub struct SmsMessage {
    pub message: String,
}

/// What a message asks for. Command words are matched case-insensitively;
/// machine names are taken as written. The `Missing`/`Bad` variants carry
/// the ways a half-written command fails, each answered with its own hint.
#[derive(Debug, Clone, PartialEq, Eq)]
pub enum SmsCommand {
    Credits,
    Machines,
    Show { machine: String },
    DropDrink { machine: String, slot: i32 },
    Help,
    MissingCommand,
    ShowMissingMachine,
    DropMissingMachine,
    DropMissingSlot,
    DropBadSlot { text: String },
    Unknown { word: String },
}

/// Reads a message as a command: the first word, folded to lower case,
/// picks the command, and the later words are its arguments.
pub fn parse_command(message: &str) -> (r: SmsCommand)
    ensures
        ({
            let toks = tokens_of(message@);
            match r {
                SmsCommand::MissingCommand => toks.len() == 0,
                SmsCommand::Credits => toks.len() > 0 && lower_seq(toks[0]) == "credits"@,
                SmsCommand::Machines => toks.len() > 0 && lower_seq(toks[0]) == "machines"@,
                SmsCommand::Show { machine } => {
                    &&& toks.len() >= 2
                    &&& lower_seq(toks[0]) == "show"@
                    &&& machine@ == toks[1]
                },
                SmsCommand::ShowMissingMachine => toks.len() == 1 && lower_seq(toks[0]) == "show"@,
                SmsCommand::DropDrink { machine, slot } => {
                    &&& toks.len() >= 3
                    &&& lower_seq(toks[0]) == "drop"@
                    &&& machine@ == toks[1]
                    &&& parse_i32_spec(toks[2]) == Some(slot)
                },
                SmsCommand::DropMissingMachine => toks.len() == 1 && lower_seq(toks[0]) == "drop"@,
                SmsCommand::DropMissingSlot => toks.len() == 2 && lower_seq(toks[0]) == "drop"@,
                SmsCommand::DropBadSlot { text } => {
                    &&& toks.len() >= 3
                    &&& lower_seq(toks[0]) == "drop"@
                    &&& text@ == toks[2]
                    &&& parse_i32_spec(toks[2]) is None
                },
                SmsCommand::Help => {
                    &&& toks.len() > 0
                    &&& (lower_seq(toks[0]) == "commands"@ || lower_seq(toks[0]) == "help"@)
                },
                SmsCommand::Unknown { word } => {
                    &&& toks.len() > 0
                    &&& word@ == toks[0]
                    &&& lower_seq(toks[0]) != "credits"@
                    &&& lower_seq(toks[0]) != "machines"@
                    &&& lower_seq(toks[0]) != "show"@
                    &&& lower_seq(toks[0]) != "drop"@
                    &&& lower_seq(toks[0]) != "commands"@
                    &&& lower_seq(toks[0]) != "help"@
                },
            }
        }),
{
    let tokens = tokenize(message);
    if tokens.len() == 0 {
        return SmsCommand::MissingCommand;
    }
    let cmd = &tokens[0];
    if eq_lowered(cmd.as_str(), "credits") {
        SmsCommand::Credits
    } else if eq_lowered(cmd.as_str(), "machines") {
        SmsCommand::Machines
    } else if eq_lowered(cmd.as_str(), "show") {
        if tokens.len() >= 2 {
            SmsCommand::Show { machine: tokens[1].clone() }
        } else {
            SmsCommand::ShowMissingMachine
        }
    } else if eq_lowered(cmd.as_str(), "drop") {
        if tokens.len() < 2 {
            SmsCommand::DropMissingMachine
        } else if tokens.len() < 3 {
            SmsCommand::DropMissingSlot
        } else {
            match parse_i32(tokens[2].as_str()) {
                Some(slot) => SmsCommand::DropDrink { machine: tokens[1].clone(), slot },
                None => SmsCommand::DropBadSlot { text: tokens[2].clone() },
            }
        }
    } else if eq_lowered(cmd.as_str(), "commands") || eq_lowered(cmd.as_str(), "help") {
        SmsCommand::Help
    } else {
        SmsCommand::Unknown { word: tokens[0].clone() }
    }
}

} // verus!
