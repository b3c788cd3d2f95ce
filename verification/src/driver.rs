//! The decisions of the two loops that run a timer: the listener, which
//! reads clicks from standard input, and the main loop, which takes one
//! click per cycle and shows the timer.

use vstd::prelude::*;
use crate::command::{decoded, InputCommand};
use crate::render::{rendered, RenderEncodingFailure};
use crate::timer::Timer;

verus! {

/// What the listener does after an attempt to read a line.
#[derive(Clone, Copy, Debug, PartialEq, Eq, Structural)]
pub enum ListenerStep {
    /// The line is a click: queue it and read on.
    Forward(InputCommand),
    /// The line is no click: drop it and read on.
    Discard,
    /// The input has ended or failed: stop, and close the queue.
    Stop,
}

/// What the main loop finds when it looks into the queue.
#[derive(Clone, Copy, Debug, PartialEq, Eq, Structural)]
pub enum Polled {
    /// A click was waiting.
    Command(InputCommand),
    /// Nothing was waiting.
    Empty,
    /// The listener has closed the queue.
    Disconnected,
}

/// Why the main loop stops.
#[derive(Debug)]
pub enum Fatal {
    /// The listener is gone, so no click can come any more.
    ListenerTerminated,
    /// The record could not be written.
    RenderEncodingFailure(RenderEncodingFailure),
}

/// What the listener does after a read that brought `read` bytes into
/// `line`, or failed where `read` is `None`: no bytes are the end of the
/// input.
pub open spec fn listener_step_spec(read: Option<usize>, line: Seq<char>) -> ListenerStep {
    match read {
        None => ListenerStep::Stop,
        Some(count) => if count == 0 {
            ListenerStep::Stop
        } else {
            match decoded(line) {
                Ok(command) => ListenerStep::Forward(command),
                Err(_) => ListenerStep::Discard,
            }
        },
    }
}

/// Decides what the listener does after an attempt to read a line.
///
/// `read` is the number of bytes that the read brought, `None` where it
/// failed; `line` is what it brought.
pub fn listener_step(read: Option<usize>, line: &str) -> (step: ListenerStep)
    ensures
        step == listener_step_spec(read, line@),
{
    match read {
        None => ListenerStep::Stop,
        Some(count) => {
            if count == 0 {
                ListenerStep::Stop
            } else {
                match InputCommand::decode(line) {
                    Ok(command) => ListenerStep::Forward(command),
                    Err(_) => ListenerStep::Discard,
                }
            }
        },
    }
}

impl Timer {
    /// One cycle of the main loop, up to the line that is to be sent: takes
    /// what was found in the queue, then renders the timer as it stands.
    ///
    /// A closed queue stops the loop and leaves the timer as it is. In
    /// every other case the line is there: it shows the timer after the
    /// click, if there was one. The caller sends the line, sleeps, and lets
    /// the time pass with `update`.
    pub fn step(&mut self, polled: Polled) -> (line: Result<String, Fatal>)
        ensures
            match polled {
                Polled::Command(command) => final(self)@ == old(self)@.click(
                    command.button as int,
                ) && (final(self)@ == old(self)@ ==> *final(self) == *old(self)),
                Polled::Empty => *final(self) == *old(self),
                Polled::Disconnected => *final(self) == *old(self),
            },
            polled is Disconnected ==> line matches Err(Fatal::ListenerTerminated),
            !(polled is Disconnected) ==> line is Ok,
            line matches Ok(text) ==> text@ == rendered(final(self)@),
    {
        match polled {
            Polled::Command(command) => {
                self.apply(command);
            },
            Polled::Empty => {},
            Polled::Disconnected => {
                return Err(Fatal::ListenerTerminated);
            },
        }
        match self.render() {
            Ok(text) => Ok(text),
            Err(failure) => Err(Fatal::RenderEncodingFailure(failure)),
        }
    }
}

} // verus!
