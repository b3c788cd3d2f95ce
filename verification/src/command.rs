//! Clicks, as the status bar reports them.

use vstd::prelude::*;
use std::time::SystemTime;
use crate::json::{json_integer_field, read_integer_field};
use crate::timer::Timer;

verus! {

/// The mouse button that starts an interval.
pub const START_BUTTON: i32 = 1;

/// The mouse button that holds the countdown and lets it run again.
pub const PAUSE_BUTTON: i32 = 3;

/// One click: the number of the mouse button.
#[derive(Clone, Copy, Debug, PartialEq, Eq, Structural)]
pub struct InputCommand {
    pub button: i32,
}

/// A line of input that is not a click.
#[derive(Clone, Copy, Debug, PartialEq, Eq, Structural)]
pub struct MalformedCommand;

/// The click for what stands under `button` in a line: the number, where
/// there is one and it fits `i32`.
pub open spec fn command_of_field(value: Option<i64>) -> Result<InputCommand, MalformedCommand> {
    match value {
        Some(number) => if i32::MIN <= number <= i32::MAX {
            Ok(InputCommand { button: number as i32 })
        } else {
            Err(MalformedCommand)
        },
        None => Err(MalformedCommand),
    }
}

/// The click that a line of input stands for: the line is a JSON object
/// with an integer under `button`; what else the object holds is passed
/// over.
pub open spec fn decoded(line: Seq<char>) -> Result<InputCommand, MalformedCommand> {
    command_of_field(json_integer_field(line, "button"@))
}

impl InputCommand {
    /// The click for what a line holds under `button`.
    pub fn from_field(value: Option<i64>) -> (command: Result<InputCommand, MalformedCommand>)
        ensures
            command == command_of_field(value),
    {
        match value {
            Some(number) => {
                if -2147483648 <= number && number <= 2147483647 {
                    Ok(InputCommand { button: number as i32 })
                } else {
                    Err(MalformedCommand)
                }
            },
            None => Err(MalformedCommand),
        }
    }

    /// Reads one line of input as a click.
    pub fn decode(line: &str) -> (command: Result<InputCommand, MalformedCommand>)
        ensures
            command == decoded(line@),
    {
        InputCommand::from_field(read_integer_field(line, "button"))
    }
}

impl Timer {
    /// Takes a click: the first button starts, the third pauses or resumes,
    /// and the clock is read where the timer changes; any other button does
    /// nothing.
    pub fn apply(&mut self, command: InputCommand)
        ensures
            final(self)@ == old(self)@.click(command.button as int),
            final(self)@ == old(self)@ ==> *final(self) == *old(self),
    {
        if command.button == START_BUTTON {
            self.start();
        } else if command.button == PAUSE_BUTTON {
            self.toggle_pause();
        }
    }

    /// Takes a click at the clock reading `now`.
    pub fn apply_at(&mut self, command: InputCommand, now: SystemTime)
        ensures
            final(self)@ == old(self)@.click(command.button as int),
            final(self)@ == old(self)@ ==> *final(self) == *old(self),
            final(self)@ != old(self)@ ==> final(self).last_tick_spec() == now,
    {
        if command.button == START_BUTTON {
            self.start_at(now);
        } else if command.button == PAUSE_BUTTON {
            self.toggle_pause_at(now);
        }
    }
}

} // verus!
