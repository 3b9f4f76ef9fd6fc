//! The line-buffered detail prompts of the menu.
//!
//! Once a selection is confirmed, the farm command still needs three flags;
//! they are collected over strict yes/no prompts. An answer is yes exactly
//! when it is `y` or `yes`, no exactly when it is `n` or `no`; anything
//! else fails the whole resolution. The other commands need no details.

use vstd::prelude::*;

verus! {

/// An answer to a yes/no prompt was neither yes nor no.
#[derive(Clone, Copy, Debug, PartialEq, Eq, Structural)]
pub struct PromptParseError;

/// The answers that mean yes.
pub open spec fn is_yes(s: Seq<char>) -> bool {
    s == "y"@ || s == "yes"@
}

/// The answers that mean no.
pub open spec fn is_no(s: Seq<char>) -> bool {
    s == "n"@ || s == "no"@
}

/// Whether two strings hold the same characters.
pub fn str_eq(a: &str, b: &str) -> (r: bool)
    ensures
        r == (a@ == b@),
{
    let sa: String = a.to_owned();
    let sb: String = b.to_owned();
    sa == sb
}

/// Parse one prompt answer: `Ok(true)` on yes, `Ok(false)` on no, and an
/// error on every other answer.
pub fn parse_yes_no(answer: &str) -> (r: Result<bool, PromptParseError>)
    ensures
        r is Ok <==> is_yes(answer@) || is_no(answer@),
        r matches Ok(b) ==> b == is_yes(answer@),
{
    if str_eq(answer, "y") || str_eq(answer, "yes") {
        Ok(true)
    } else if str_eq(answer, "n") || str_eq(answer, "no") {
        Ok(false)
    } else {
        Err(PromptParseError)
    }
}

/// How many yes/no prompts the menu entry at `index` needs: three for the
/// farm entry, none for the others.
pub open spec fn prompt_count_spec(index: int) -> int {
    if index == 1 {
        3
    } else {
        0
    }
}

/// Number of detail prompts owed for the selected menu entry.
pub fn prompt_count(selected: usize) -> (n: usize)
    ensures
        n == prompt_count_spec(selected as int),
{
    if selected == 1 {
        3
    } else {
        0
    }
}

/// The question asked by the farm prompt numbered `i`.
pub open spec fn farm_prompt_spec(i: int) -> Seq<char> {
    if i == 0 {
        "Do you want to initialize farmer in verbose mode? [y/n]: "@
    } else if i == 1 {
        "Do you want to be an executor? [y/n]: "@
    } else {
        "Do you want to disable rotation for logs? [y/n]: "@
    }
}

/// The text of the farm prompt numbered `i`, in asking order: verbose
/// mode, executor role, log rotation.
pub fn farm_prompt(i: usize) -> (r: &'static str)
    requires
        i < 3,
    ensures
        r@ == farm_prompt_spec(i as int),
{
    if i == 0 {
        "Do you want to initialize farmer in verbose mode? [y/n]: "
    } else if i == 1 {
        "Do you want to be an executor? [y/n]: "
    } else {
        "Do you want to disable rotation for logs? [y/n]: "
    }
}

/// The command dispatched for the menu entry at `index`, given the parsed
/// prompt answers: the farm entry takes its three flags in prompt order,
/// every other entry takes its default flags.
pub open spec fn command_for_spec(index: int, flags: Seq<bool>) -> crate::command::Command {
    if index == 0 {
        crate::command::Command::Init
    } else if index == 1 {
        crate::command::Command::Farm {
            verbose: flags[0],
            executor: flags[1],
            no_rotation: flags[2],
        }
    } else if index == 2 {
        crate::command::Command::Wipe { farmer: false, node: false }
    } else if index == 3 {
        crate::command::Command::Info
    } else {
        crate::command::Command::OpenLogs
    }
}

/// Build the resolved command for the selected menu entry from the parsed
/// prompt answers.
pub fn assemble_command(selected: usize, flags: &Vec<bool>) -> (c: crate::command::Command)
    requires
        selected < crate::command::COMMAND_COUNT,
        flags@.len() == prompt_count_spec(selected as int),
    ensures
        c == command_for_spec(selected as int, flags@),
{
    if selected == 0 {
        crate::command::Command::Init
    } else if selected == 1 {
        crate::command::Command::Farm {
            verbose: flags[0],
            executor: flags[1],
            no_rotation: flags[2],
        }
    } else if selected == 2 {
        crate::command::Command::Wipe { farmer: false, node: false }
    } else if selected == 3 {
        crate::command::Command::Info
    } else {
        crate::command::Command::OpenLogs
    }
}

} // verus!
