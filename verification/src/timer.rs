//! The interval timer.

use vstd::prelude::*;
use std::time::SystemTime;
use crate::model::{lemma_next_index, TimerState, TimerView};
use crate::schedule::{configuration_fault, cycle, IntervalSchedule, InvalidConfiguration};
use crate::span::Span;

verus! {

/// The wall clock was read at a time before the reading that the timer kept.
#[derive(Clone, Copy, Debug, PartialEq, Eq, Structural)]
pub struct ClockWentBackwards;

/// Where a timer stands in its schedule, and how much of that interval is
/// left. The two change together.
#[derive(Clone, Copy)]
struct Place {
    index: usize,
    remaining: Span,
}

/// A timer that walks round a schedule of focus and pause intervals.
pub struct Timer {
    state: TimerState,
    last_tick: SystemTime,
    place: Place,
    schedule: IntervalSchedule,
}

impl View for Timer {
    type V = TimerView;

    closed spec fn view(&self) -> TimerView {
        TimerView {
            state: self.state,
            remaining: self.place.remaining@,
            current_index: self.place.index as nat,
            schedule: self.schedule@,
        }
    }
}

impl Timer {
    #[verifier::type_invariant]
    spec fn well_formed(&self) -> bool {
        self@.wf()
    }

    /// The clock reading that the timer keeps: when it last took note of the
    /// time.
    pub closed spec fn last_tick_spec(&self) -> SystemTime {
        self.last_tick
    }

    /// A fresh timer for `count` repetitions, ready on the first focus
    /// interval; the clock is read for its first reading.
    ///
    /// A zero count is rejected, and so is an empty duration.
    pub fn new(count: usize, focus: Span, pause: Span, long_pause: Span) -> (made: Result<
        Timer,
        InvalidConfiguration,
    >)
        ensures
            match configuration_fault(count as nat, focus, pause, long_pause) {
                Some(fault) => made == Err::<Timer, InvalidConfiguration>(fault),
                None => made is Ok && made->Ok_0@ == TimerView::initial(
                    cycle(count as nat, focus, pause, long_pause),
                ),
            },
    {
        match IntervalSchedule::build(count, focus, pause, long_pause) {
            Ok(schedule) => Ok(Timer::with_schedule(schedule, SystemTime::now())),
            Err(fault) => Err(fault),
        }
    }

    /// A fresh timer on `schedule`, ready on its first interval, with `now` as
    /// its first clock reading.
    pub fn with_schedule(schedule: IntervalSchedule, now: SystemTime) -> (timer: Timer)
        ensures
            timer@ == TimerView::initial(schedule@),
            timer@.wf(),
            timer.last_tick_spec() == now,
    {
        let first = schedule.get(0);
        Timer {
            state: TimerState::Ready,
            last_tick: now,
            place: Place { index: 0, remaining: first.unwrap().duration },
            schedule,
        }
    }

    /// Starts the current interval if the timer is ready, and reads the clock
    /// for it; otherwise nothing changes.
    pub fn start(&mut self)
        ensures
            final(self)@ == old(self)@.start(),
            old(self)@.state != TimerState::Ready ==> *final(self) == *old(self),
    {
        if self.is_ready() {
            self.start_at(SystemTime::now());
        }
    }

    /// Starts the current interval at the clock reading `now` if the timer is
    /// ready; otherwise nothing changes.
    pub fn start_at(&mut self, now: SystemTime)
        ensures
            final(self)@ == old(self)@.start(),
            old(self)@.state == TimerState::Ready ==> final(self).last_tick_spec() == now,
            old(self)@.state != TimerState::Ready ==> *final(self) == *old(self),
    {
        proof {
            use_type_invariant(&*self);
        }
        if self.is_ready() {
            let entry = self.schedule.get(self.place.index);
            self.place = Place { index: self.place.index, remaining: entry.unwrap().duration };
            self.state = TimerState::Started;
            self.last_tick = now;
        }
    }

    /// Moves to the next interval, round the end of the cycle: the timer is
    /// ready there, at the interval's full length.
    pub fn next(&mut self)
        ensures
            final(self)@ == old(self)@.advance(),
            final(self).last_tick_spec() == old(self).last_tick_spec(),
    {
        proof {
            use_type_invariant(&*self);
            lemma_next_index(self@);
        }
        let len = self.schedule.len();
        let index = if self.place.index >= len - 1 {
            0
        } else {
            self.place.index + 1
        };
        let entry = self.schedule.get(index);
        self.place = Place { index, remaining: entry.unwrap().duration };
        self.state = TimerState::Ready;
    }

    /// Holds a running timer, or lets a held one run again, and reads the
    /// clock for it; a ready timer stays as it is.
    pub fn toggle_pause(&mut self)
        ensures
            final(self)@ == old(self)@.toggle_pause(),
            old(self)@.state == TimerState::Ready ==> *final(self) == *old(self),
    {
        if !self.is_ready() {
            self.toggle_pause_at(SystemTime::now());
        }
    }

    /// Holds a running timer, or lets a held one run again, at the clock
    /// reading `now`; a ready timer stays as it is.
    pub fn toggle_pause_at(&mut self, now: SystemTime)
        ensures
            final(self)@ == old(self)@.toggle_pause(),
            old(self)@.state != TimerState::Ready ==> final(self).last_tick_spec() == now,
            old(self)@.state == TimerState::Ready ==> *final(self) == *old(self),
    {
        proof {
            use_type_invariant(&*self);
        }
        match self.state {
            TimerState::Started => {
                self.state = TimerState::Paused;
                self.last_tick = now;
            },
            TimerState::Paused => {
                self.state = TimerState::Started;
                self.last_tick = now;
            },
            TimerState::Ready => {},
        }
    }

    /// Lets `elapsed` pass and keeps `now` as the clock reading.
    ///
    /// A running timer counts down by `elapsed`, or, where no more than
    /// `elapsed` is left, moves on to the next interval and is ready there:
    /// once, and what `elapsed` exceeds the rest by is dropped. A timer that
    /// is ready or held only keeps the reading.
    pub fn tick(&mut self, elapsed: Span, now: SystemTime)
        ensures
            final(self)@ == old(self)@.tick(elapsed@),
            final(self).last_tick_spec() == now,
    {
        proof {
            use_type_invariant(&*self);
        }
        match self.state {
            TimerState::Started => {
                if elapsed.nanos >= self.place.remaining.nanos {
                    self.next();
                } else {
                    self.place = Place {
                        index: self.place.index,
                        remaining: Span { nanos: self.place.remaining.nanos - elapsed.nanos },
                    };
                }
            },
            _ => {},
        }
        self.last_tick = now;
    }

    /// Reads the clock and lets the time since the kept reading pass.
    ///
    /// A running timer measures from the kept reading to the new one. Where
    /// the clock has gone backwards between the two, nothing changes and the
    /// error is returned. A timer that is ready or held measures nothing and
    /// keeps the new reading.
    pub fn update(&mut self) -> (outcome: Result<(), ClockWentBackwards>)
        ensures
            outcome is Ok ==> exists|elapsed: nat| final(self)@ == old(self)@.tick(elapsed),
            outcome is Err ==> old(self)@.state == TimerState::Started && *final(self) == *old(
                self,
            ),
            old(self)@.state != TimerState::Started ==> outcome is Ok && final(self)@ == old(
                self,
            )@,
    {
        let now = SystemTime::now();
        match self.state {
            TimerState::Started => match now.duration_since(self.last_tick) {
                Ok(since) => {
                    let elapsed = Span::from_nanos(since.as_nanos());
                    self.tick(elapsed, now);
                    Ok(())
                },
                Err(_) => Err(ClockWentBackwards),
            },
            _ => {
                self.tick(Span::zero(), now);
                Ok(())
            },
        }
    }

    /// Is the timer ready, with an interval due to be started?
    pub fn is_ready(&self) -> (ready: bool)
        ensures
            ready == (self@.state == TimerState::Ready),
    {
        match self.state {
            TimerState::Ready => true,
            _ => false,
        }
    }

    /// Whether the countdown is waiting, running or held.
    pub fn state(&self) -> (state: TimerState)
        ensures
            state == self@.state,
    {
        self.state
    }

    /// What is left of the current interval.
    pub fn remaining(&self) -> (remaining: Span)
        ensures
            remaining@ == self@.remaining,
            self@.wf(),
    {
        proof {
            use_type_invariant(self);
        }
        self.place.remaining
    }

    /// The place of the current interval in the schedule, from zero.
    pub fn current_index(&self) -> (index: usize)
        ensures
            index == self@.current_index,
            self@.wf(),
    {
        proof {
            use_type_invariant(self);
        }
        self.place.index
    }

    /// The schedule that the timer walks round.
    pub fn schedule(&self) -> (schedule: &IntervalSchedule)
        ensures
            schedule@ == self@.schedule,
            self@.wf(),
    {
        proof {
            use_type_invariant(self);
        }
        &self.schedule
    }

    /// The clock reading that the timer keeps.
    pub fn last_tick(&self) -> (reading: SystemTime)
        ensures
            reading == self.last_tick_spec(),
    {
        self.last_tick
    }
}

} // verus!
