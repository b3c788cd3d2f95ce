//! The text that a timer shows, and the record that carries it.

use vstd::prelude::*;
use crate::decimal::{
    decimal, is_digit, lemma_decimal_digits, lemma_two_digits, push_decimal, push_two_digits,
    two_digits,
};
use crate::json::{
    is_plain, json_string_literal, lemma_plain_concat, needs_escape, quoted, write_json_string,
};
use crate::model::TimerView;
use crate::schedule::{kind_at, IntervalKind};
use crate::span::NANOS_PER_SEC;
use crate::timer::Timer;

verus! {

/// The record could not be written as JSON.
#[derive(Debug)]
pub struct RenderEncodingFailure {
    pub cause: serde_json::Error,
}

/// What is sent to the status bar every tick.
#[derive(Debug, PartialEq, Eq)]
pub struct RenderOutput {
    pub full_text: String,
}

/// The one-letter label of a kind of interval.
pub open spec fn kind_label(kind: IntervalKind) -> Seq<char> {
    match kind {
        IntervalKind::Focus => seq!['F'],
        IntervalKind::Pause => seq!['P'],
    }
}

/// Pairs done and pairs in all: `position/total`.
pub open spec fn interval_text(timer: TimerView) -> Seq<char> {
    decimal(timer.current_index / 2) + seq!['/'] + decimal(timer.schedule.len() / 2)
}

/// The whole seconds that are left, as minutes and seconds: `MM:SS`, each
/// with two digits at least.
pub open spec fn duration_text(timer: TimerView) -> Seq<char> {
    let secs = timer.remaining / (NANOS_PER_SEC as nat);
    two_digits(secs / 60) + seq![':'] + two_digits(secs % 60)
}

/// The label of the current interval: `F` at an even place, `P` at an odd
/// one.
pub open spec fn action_text(timer: TimerView) -> Seq<char> {
    kind_label(kind_at(timer.current_index as int))
}

/// The line that is shown: `position/total MM:SS label`.
pub open spec fn display_text(timer: TimerView) -> Seq<char> {
    interval_text(timer) + seq![' '] + duration_text(timer) + seq![' '] + action_text(timer)
}

/// `text` wrapped for the status bar's markup.
pub open spec fn markup(text: Seq<char>) -> Seq<char> {
    "<span>"@ + text + "</span>"@
}

/// The JSON object with the one member `full_text`, whose value is written
/// as `literal`.
pub open spec fn record(literal: Seq<char>) -> Seq<char> {
    "{\"full_text\":"@ + literal + "}"@
}

/// The line that goes out for a timer.
pub open spec fn rendered(timer: TimerView) -> Seq<char> {
    record(quoted(markup(display_text(timer))))
}

/// On a proper timer the label by place is the label of the interval's kind.
pub proof fn lemma_action_is_kind(timer: TimerView)
    requires
        timer.wf(),
    ensures
        action_text(timer) == kind_label(timer.schedule[timer.current_index as int].kind),
{
}

/// Nothing in the text that is shown, wrapped or not, needs an escape in
/// JSON.
pub proof fn lemma_display_is_plain(timer: TimerView)
    ensures
        is_plain(display_text(timer)),
        is_plain(markup(display_text(timer))),
{
    let secs = timer.remaining / (NANOS_PER_SEC as nat);
    lemma_decimal_digits(timer.current_index / 2);
    lemma_decimal_digits(timer.schedule.len() / 2);
    lemma_two_digits(secs / 60);
    lemma_two_digits(secs % 60);
    reveal_strlit("<span>");
    reveal_strlit("</span>");
    lemma_plain_concat("<span>"@, display_text(timer));
    lemma_plain_concat("<span>"@ + display_text(timer), "</span>"@);
}

/// One timer has one rendering: two renderings of the same timer are the
/// same line.
pub proof fn lemma_render_idempotent(timer: TimerView, first: Seq<char>, second: Seq<char>)
    requires
        first == rendered(timer),
        second == rendered(timer),
    ensures
        first == second,
{
}

impl RenderOutput {
    /// Writes the record as one line of JSON: the object with the member
    /// `full_text`, which holds the text as a JSON string. Writing a string
    /// does not fail, so the line is always there; where nothing in the
    /// text needs an escape, the text stands in the line as it is.
    pub fn encode(&self) -> (line: Result<String, RenderEncodingFailure>)
        ensures
            line matches Ok(text) && text@ == record(json_string_literal(self.full_text@)),
            line matches Ok(text) ==> is_plain(self.full_text@) ==> text@ == record(
                quoted(self.full_text@),
            ),
    {
        RenderOutput::framed(write_json_string(self.full_text.as_str()))
    }
}

impl Timer {
    /// Pairs done and pairs in all, as `position/total`.
    pub fn display_interval(&self) -> (text: String)
        ensures
            text@ == interval_text(self@),
    {
        let position: usize = self.current_index() / 2;
        let total: usize = self.schedule().len() / 2;
        let mut text = String::new();
        push_decimal(&mut text, position as u128);
        text.append("/");
        push_decimal(&mut text, total as u128);
        proof {
            reveal_strlit("/");
        }
        text
    }

    /// What is left, in whole seconds, as `MM:SS`.
    pub fn display_duration(&self) -> (text: String)
        ensures
            text@ == duration_text(self@),
    {
        let secs: u128 = self.remaining().as_secs();
        let mut text = String::new();
        push_two_digits(&mut text, secs / 60);
        text.append(":");
        push_two_digits(&mut text, secs % 60);
        proof {
            reveal_strlit(":");
        }
        text
    }

    /// The label of the current interval: `F` for focus, `P` for pause.
    pub fn display_action(&self) -> (text: &'static str)
        ensures
            text@ == action_text(self@),
            text@ == kind_label(self@.schedule[self@.current_index as int].kind),
    {
        proof {
            reveal_strlit("F");
            reveal_strlit("P");
        }
        let index: usize = self.current_index();
        proof {
            lemma_action_is_kind(self@);
        }
        let text = if index % 2 == 0 {
            "F"
        } else {
            "P"
        };
        text
    }

    /// The line that is shown: `position/total MM:SS label`.
    pub fn display(&self) -> (text: String)
        ensures
            text@ == display_text(self@),
    {
        let mut text = self.display_interval();
        text.append(" ");
        text.append(self.display_duration().as_str());
        text.append(" ");
        text.append(self.display_action());
        proof {
            reveal_strlit(" ");
        }
        text
    }

    /// The record for the status bar: the line that is shown, wrapped in
    /// markup.
    pub fn output(&self) -> (output: RenderOutput)
        ensures
            output.full_text@ == markup(display_text(self@)),
    {
        let mut full_text = String::from_str("<span>");
        full_text.append(self.display().as_str());
        full_text.append("</span>");
        RenderOutput { full_text }
    }

    /// The line that goes out for the timer as it stands.
    ///
    /// Rendering does not fail. The line is the record that holds the
    /// wrapped text between quotation marks, as it is: nothing in what a
    /// timer shows needs an escape.
    pub fn render(&self) -> (line: Result<String, RenderEncodingFailure>)
        ensures
            line matches Ok(text) && text@ == rendered(self@),
    {
        proof {
            lemma_display_is_plain(self@);
        }
        self.output().encode()
    }
}

impl RenderOutput {
    /// Makes the line from what the writing of the text as a JSON string
    /// gave: the object with the member `full_text` round the string
    /// literal, or the failure with its cause.
    pub fn framed(written: Result<String, serde_json::Error>) -> (line: Result<
        String,
        RenderEncodingFailure,
    >)
        ensures
            match written {
                Ok(literal) => line matches Ok(text) && text@ == record(literal@),
                Err(cause) => line matches Err(failure) && failure.cause == cause,
            },
    {
        match written {
            Ok(literal) => {
                let mut line = String::from_str("{\"full_text\":");
                line.append(literal.as_str());
                line.append("}");
                Ok(line)
            },
            Err(cause) => Err(RenderEncodingFailure { cause }),
        }
    }
}

} // verus!
