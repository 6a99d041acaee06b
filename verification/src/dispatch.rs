//! What a confirmed selection does: in a dry run a line to print, else the
//! program to start with its arguments.

use crate::config::ConfigButton;
use crate::text::{push_signed_decimal, signed_decimal};
use vstd::prelude::*;
use vstd::slice::slice_subrange;
use vstd::string::StringExecFns;

verus! {

/// What the caller is to do for a selected button.
#[derive(Debug, PartialEq, Eq)]
pub enum DispatchAction<'a> {
    /// Print this line; start nothing.
    Report(String),
    /// Start `program` with `arguments`, and do not wait for it to end.
    Spawn { program: &'a String, arguments: &'a [String] },
}

/// Why nothing can be started for a selected button.
#[derive(Clone, Copy, Debug, PartialEq, Eq, Structural)]
pub enum DispatchError {
    /// The button's command names no program.
    EmptyCommand,
}

/// A `DispatchAction` with its strings as sequences of characters.
pub enum DispatchActionView {
    Report(Seq<char>),
    Spawn { program: Seq<char>, arguments: Seq<Seq<char>> },
}

/// The characters of each string of a list.
pub open spec fn texts(strings: Seq<String>) -> Seq<Seq<char>> {
    Seq::new(strings.len(), |i: int| strings[i]@)
}

impl<'a> View for DispatchAction<'a> {
    type V = DispatchActionView;

    open spec fn view(&self) -> DispatchActionView {
        match self {
            DispatchAction::Report(line) => DispatchActionView::Report(line@),
            DispatchAction::Spawn { program, arguments } => DispatchActionView::Spawn {
                program: program@,
                arguments: texts(arguments@),
            },
        }
    }
}

/// The line of a dry run.
pub open spec fn report_text(index: int) -> Seq<char> {
    "Invoked button #"@ + signed_decimal(index)
}

/// The line that reports a program that could not be started.
pub open spec fn launch_failure_text(index: int, reason: Seq<char>) -> Seq<char> {
    "Failed to run command for button #"@ + signed_decimal(index) + ". Reason: "@ + reason
}

/// What a selection of button `index` does. In a dry run it is the line to
/// print. Otherwise it is the button's command, split into the program and
/// its arguments; a command that names no program is an error.
pub open spec fn dispatched(buttons: Seq<ConfigButton>, index: int, dry_run: bool) -> Result<
    DispatchActionView,
    DispatchError,
> {
    if dry_run {
        Ok(DispatchActionView::Report(report_text(index)))
    } else {
        let command = buttons[index].command@;
        if command.len() == 0 {
            Err(DispatchError::EmptyCommand)
        } else {
            Ok(
                DispatchActionView::Spawn {
                    program: command[0]@,
                    arguments: texts(command.skip(1)),
                },
            )
        }
    }
}

/// Decides what a selection of button `index` does.
///
/// In a dry run every index is taken; otherwise `index` is that of a button.
pub fn dispatch<'a>(buttons: &'a Vec<ConfigButton>, index: i32, dry_run: bool) -> (r: Result<
    DispatchAction<'a>,
    DispatchError,
>)
    requires
        dry_run || 0 <= index < buttons.len(),
    ensures
        match dispatched(buttons@, index as int, dry_run) {
            Ok(action) => r matches Ok(a) && a@ == action,
            Err(error) => r == Err::<DispatchAction<'a>, DispatchError>(error),
        },
{
    if dry_run {
        let mut line = String::from_str("Invoked button #");
        push_signed_decimal(&mut line, index as i64);
        return Ok(DispatchAction::Report(line));
    }
    let argv = buttons[index as usize].command.as_slice();
    if argv.len() == 0 {
        return Err(DispatchError::EmptyCommand);
    }
    let arguments = slice_subrange(argv, 1, argv.len());
    Ok(DispatchAction::Spawn { program: &argv[0], arguments })
}

/// The line that reports that the program of button `index` could not be
/// started, with the reason that the system gave.
pub fn launch_failure_message(index: i32, reason: &str) -> (m: String)
    ensures
        m@ == launch_failure_text(index as int, reason@),
{
    let mut m = String::from_str("Failed to run command for button #");
    push_signed_decimal(&mut m, index as i64);
    m.append(". Reason: ");
    m.append(reason);
    m
}

} // verus!
