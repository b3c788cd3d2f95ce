//! The timer as a state machine over plain values.

use vstd::prelude::*;
use crate::schedule::{is_schedule, Interval};

verus! {

/// Whether the countdown is waiting, running or held.
#[derive(Clone, Copy, Debug, PartialEq, Eq, Structural)]
pub enum TimerState {
    /// An interval is due and waits to be started.
    Ready,
    /// The countdown runs.
    Started,
    /// The countdown is held where it was.
    Paused,
}

/// What a timer is, apart from the clock reading it keeps.
pub struct TimerView {
    pub state: TimerState,
    /// Nanoseconds left of the current interval.
    pub remaining: nat,
    /// Place of the current interval in the schedule, from zero.
    pub current_index: nat,
    pub schedule: Seq<Interval>,
}

impl TimerView {
    /// The invariant of a timer: it stands on an interval of a proper
    /// schedule, with no more left than that interval is long.
    pub open spec fn wf(self) -> bool {
        &&& is_schedule(self.schedule)
        &&& self.current_index < self.schedule.len()
        &&& self.remaining <= self.schedule[self.current_index as int].duration@
    }

    /// The full length of the current interval.
    pub open spec fn full(self) -> nat {
        self.schedule[self.current_index as int].duration@
    }

    /// A fresh timer on `schedule`: ready on the first interval, showing its
    /// full length.
    pub open spec fn initial(schedule: Seq<Interval>) -> TimerView {
        TimerView {
            state: TimerState::Ready,
            remaining: schedule[0].duration@,
            current_index: 0,
            schedule,
        }
    }

    /// The start event: a ready timer begins the current interval at its full
    /// length; any other timer stays as it is.
    pub open spec fn start(self) -> TimerView {
        if self.state == TimerState::Ready {
            TimerView { state: TimerState::Started, remaining: self.full(), ..self }
        } else {
            self
        }
    }

    /// The pause event: a running timer is held, a held one runs again, a
    /// ready one stays as it is.
    pub open spec fn toggle_pause(self) -> TimerView {
        match self.state {
            TimerState::Started => TimerView { state: TimerState::Paused, ..self },
            TimerState::Paused => TimerView { state: TimerState::Started, ..self },
            TimerState::Ready => self,
        }
    }

    /// A click of the mouse button numbered `button`: the first button
    /// starts, the third pauses or resumes, any other does nothing.
    pub open spec fn click(self, button: int) -> TimerView {
        if button == 1 {
            self.start()
        } else if button == 3 {
            self.toggle_pause()
        } else {
            self
        }
    }

    /// The place after the current one, going round at the end of the cycle.
    pub open spec fn next_index(self) -> nat {
        ((self.current_index + 1) as nat) % self.schedule.len()
    }

    /// Moves to the next interval: ready, at its full length.
    pub open spec fn advance(self) -> TimerView {
        TimerView {
            state: TimerState::Ready,
            remaining: self.schedule[self.next_index() as int].duration@,
            current_index: self.next_index(),
            schedule: self.schedule,
        }
    }

    /// The passing of `elapsed` nanoseconds: a running timer counts down, and
    /// moves on once, whatever the excess, when nothing is left; any other
    /// timer stays as it is.
    pub open spec fn tick(self, elapsed: nat) -> TimerView {
        if self.state == TimerState::Started {
            if elapsed >= self.remaining {
                self.advance()
            } else {
                TimerView { remaining: (self.remaining - elapsed) as nat, ..self }
            }
        } else {
            self
        }
    }
}

/// A fresh timer on a proper schedule is a proper timer.
pub proof fn lemma_initial_wf(schedule: Seq<Interval>)
    requires
        is_schedule(schedule),
    ensures
        TimerView::initial(schedule).wf(),
{
}

/// Every event leaves a proper timer proper, on the schedule it had.
pub proof fn lemma_events_preserve_wf(timer: TimerView, elapsed: nat)
    requires
        timer.wf(),
    ensures
        timer.start().wf(),
        timer.toggle_pause().wf(),
        forall|button: int| (#[trigger] timer.click(button)).wf(),
        timer.advance().wf(),
        timer.tick(elapsed).wf(),
        timer.start().schedule == timer.schedule,
        timer.toggle_pause().schedule == timer.schedule,
        timer.advance().schedule == timer.schedule,
        timer.tick(elapsed).schedule == timer.schedule,
{
}

/// A click on a ready timer with any button but the first changes nothing.
pub proof fn lemma_click_when_ready(timer: TimerView, button: int)
    requires
        timer.state == TimerState::Ready,
        button != 1,
    ensures
        timer.click(button) == timer,
{
}

/// Starting a ready timer sets it running with the whole of the current
/// interval left, where it stands.
pub proof fn lemma_start_from_ready(timer: TimerView)
    requires
        timer.state == TimerState::Ready,
    ensures
        timer.start().state == TimerState::Started,
        timer.start().remaining == timer.schedule[timer.current_index as int].duration@,
        timer.start().current_index == timer.current_index,
        timer.start().schedule == timer.schedule,
{
}

/// Starting a timer that runs or is held changes nothing: neither what is
/// left nor where it stands.
pub proof fn lemma_start_when_not_ready(timer: TimerView)
    requires
        timer.state != TimerState::Ready,
    ensures
        timer.start() == timer,
{
}

/// Starting twice is starting once.
pub proof fn lemma_start_idempotent(timer: TimerView)
    ensures
        timer.start().start() == timer.start(),
{
}

/// Pausing a ready timer changes nothing.
pub proof fn lemma_toggle_pause_when_ready(timer: TimerView)
    requires
        timer.state == TimerState::Ready,
    ensures
        timer.toggle_pause() == timer,
{
}

/// From a running timer, pause and pause again give the timer back as it
/// was, and time that passes in between is not counted: what was left when
/// the timer was held is left when it runs again.
pub proof fn lemma_pause_round_trip(timer: TimerView, elapsed: nat)
    requires
        timer.state == TimerState::Started,
    ensures
        timer.toggle_pause().state == TimerState::Paused,
        timer.toggle_pause().remaining == timer.remaining,
        timer.toggle_pause().toggle_pause() == timer,
        timer.toggle_pause().tick(elapsed).toggle_pause() == timer,
{
}

/// A timer that does not run lets time pass unchanged.
pub proof fn lemma_tick_when_not_started(timer: TimerView, elapsed: nat)
    requires
        timer.state != TimerState::Started,
    ensures
        timer.tick(elapsed) == timer,
{
}

/// A running timer with more left than has passed counts down by exactly
/// what has passed, and stays running where it stands.
pub proof fn lemma_tick_counts_down(timer: TimerView, elapsed: nat)
    requires
        timer.state == TimerState::Started,
        elapsed < timer.remaining,
    ensures
        timer.tick(elapsed).remaining == timer.remaining - elapsed,
        timer.tick(elapsed).current_index == timer.current_index,
        timer.tick(elapsed).state == TimerState::Started,
        timer.tick(elapsed).schedule == timer.schedule,
{
}

/// A running timer with no more left than has passed moves on by exactly one
/// place, round the end of the cycle, and is ready at the full length of the
/// interval it comes to, by however much the time passed exceeds what was
/// left.
pub proof fn lemma_tick_moves_on_once(timer: TimerView, elapsed: nat)
    requires
        timer.wf(),
        timer.state == TimerState::Started,
        elapsed >= timer.remaining,
    ensures
        timer.tick(elapsed).current_index == ((timer.current_index + 1) as nat)
            % timer.schedule.len(),
        timer.tick(elapsed).current_index == if timer.current_index + 1 == timer.schedule.len() {
            0
        } else {
            timer.current_index + 1
        },
        timer.tick(elapsed).remaining == timer.schedule[timer.tick(
            elapsed,
        ).current_index as int].duration@,
        timer.tick(elapsed).state == TimerState::Ready,
        timer.tick(elapsed).schedule == timer.schedule,
        timer.tick(elapsed) == timer.tick(timer.remaining),
{
    lemma_next_index(timer);
}

/// The place after the current one is the following place, or the first
/// after the last.
pub proof fn lemma_next_index(timer: TimerView)
    requires
        timer.current_index < timer.schedule.len(),
    ensures
        timer.next_index() == if timer.current_index + 1 == timer.schedule.len() {
            0
        } else {
            timer.current_index + 1
        },
        timer.next_index() < timer.schedule.len(),
{
    let len = timer.schedule.len() as int;
    let next = (timer.current_index + 1) as int;
    if next == len {
        assert(len % len == 0) by (nonlinear_arith)
            requires
                len > 0,
        ;
    } else {
        assert(next % len == next) by (nonlinear_arith)
            requires
                0 <= next < len,
        ;
    }
}

} // verus!
