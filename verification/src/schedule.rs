//! The cycle of focus and pause intervals that a timer walks through.

use vstd::prelude::*;
use crate::span::Span;

verus! {

/// What an interval is for.
#[derive(Clone, Copy, Debug, PartialEq, Eq, Structural)]
pub enum IntervalKind {
    Focus,
    Pause,
}

/// One entry of a schedule: a labelled length of time.
#[derive(Clone, Copy, Debug, PartialEq, Eq, Structural)]
pub struct Interval {
    pub kind: IntervalKind,
    pub duration: Span,
}

/// Why a configuration cannot be made into a schedule.
#[derive(Clone, Copy, Debug, PartialEq, Eq, Structural)]
pub enum InvalidConfiguration {
    /// The repeat count is zero.
    ZeroCount,
    /// The count is positive, but one of the three durations is empty.
    ZeroDuration,
}

/// The kind that the entry at `index` of any schedule has: focus at the even
/// places, pause at the odd ones.
pub open spec fn kind_at(index: int) -> IntervalKind {
    if index % 2 == 0 {
        IntervalKind::Focus
    } else {
        IntervalKind::Pause
    }
}

/// The cycle for `count` repetitions: `count` pairs of a focus interval and a
/// pause, where the pause that closes the cycle is the long one.
pub open spec fn cycle(count: nat, focus: Span, pause: Span, long_pause: Span) -> Seq<Interval> {
    Seq::new(
        2 * count,
        |i: int|
            if i % 2 == 0 {
                Interval { kind: IntervalKind::Focus, duration: focus }
            } else if i == 2 * count - 1 {
                Interval { kind: IntervalKind::Pause, duration: long_pause }
            } else {
                Interval { kind: IntervalKind::Pause, duration: pause }
            },
    )
}

/// What is wrong with a configuration, if anything. A zero count is named
/// before an empty duration.
pub open spec fn configuration_fault(
    count: nat,
    focus: Span,
    pause: Span,
    long_pause: Span,
) -> Option<InvalidConfiguration> {
    if count == 0 {
        Some(InvalidConfiguration::ZeroCount)
    } else if focus@ == 0 || pause@ == 0 || long_pause@ == 0 {
        Some(InvalidConfiguration::ZeroDuration)
    } else {
        None
    }
}

/// What every schedule satisfies: it holds whole pairs, at least one; the
/// kinds alternate, focus first; no interval is empty.
pub open spec fn is_schedule(entries: Seq<Interval>) -> bool {
    &&& entries.len() >= 2
    &&& entries.len() % 2 == 0
    &&& forall|i: int|
        0 <= i < entries.len() ==> (#[trigger] entries[i]).kind == kind_at(i) && entries[i].duration@
            > 0
}

/// An ordered, non-empty cycle of intervals, fixed once it is built.
pub struct IntervalSchedule {
    entries: Vec<Interval>,
}

impl View for IntervalSchedule {
    type V = Seq<Interval>;

    closed spec fn view(&self) -> Seq<Interval> {
        self.entries@
    }
}

impl IntervalSchedule {
    #[verifier::type_invariant]
    spec fn well_formed(&self) -> bool {
        is_schedule(self.entries@)
    }

    /// Builds the cycle for `count` repetitions.
    ///
    /// A zero count is rejected, and so is an empty duration.
    pub fn build(count: usize, focus: Span, pause: Span, long_pause: Span) -> (built: Result<
        IntervalSchedule,
        InvalidConfiguration,
    >)
        ensures
            match configuration_fault(count as nat, focus, pause, long_pause) {
                Some(fault) => built == Err::<IntervalSchedule, InvalidConfiguration>(fault),
                None => built is Ok && built->Ok_0@ == cycle(count as nat, focus, pause, long_pause),
            },
    {
        if count == 0 {
            return Err(InvalidConfiguration::ZeroCount);
        }
        if focus.is_zero() || pause.is_zero() || long_pause.is_zero() {
            return Err(InvalidConfiguration::ZeroDuration);
        }
        let mut entries: Vec<Interval> = Vec::new();
        let mut i: usize = 0;
        while i < count
            invariant
                i <= count,
                entries@.len() == 2 * i,
                forall|k: int|
                    0 <= k < 2 * i ==> entries@[k] == cycle(
                        count as nat,
                        focus,
                        pause,
                        long_pause,
                    )[k],
            decreases count - i,
        {
            entries.push(Interval { kind: IntervalKind::Focus, duration: focus });
            if i == count - 1 {
                entries.push(Interval { kind: IntervalKind::Pause, duration: long_pause });
            } else {
                entries.push(Interval { kind: IntervalKind::Pause, duration: pause });
            }
            i += 1;
        }
        Ok(IntervalSchedule { entries })
    }

    /// The number of intervals in the cycle.
    pub fn len(&self) -> (len: usize)
        ensures
            len == self@.len(),
            is_schedule(self@),
    {
        proof {
            use_type_invariant(self);
        }
        self.entries.len()
    }

    /// The interval at `index`.
    pub fn get(&self, index: usize) -> (entry: Option<Interval>)
        ensures
            is_schedule(self@),
            entry == if index < self@.len() {
                Some(self@[index as int])
            } else {
                None
            },
    {
        proof {
            use_type_invariant(self);
        }
        if index < self.entries.len() {
            Some(self.entries[index])
        } else {
            None
        }
    }
}

/// The cycle for `count` repetitions holds two entries for each. Every entry
/// at an even place is a focus interval of the focus length. Every entry at
/// an odd place is a pause: the last entry the long one, the others the
/// short one.
pub proof fn lemma_cycle_shape(count: nat, focus: Span, pause: Span, long_pause: Span)
    requires
        count >= 1,
    ensures
        cycle(count, focus, pause, long_pause).len() == 2 * count,
        forall|i: int|
            0 <= i < 2 * count && i % 2 == 0 ==> #[trigger] cycle(
                count,
                focus,
                pause,
                long_pause,
            )[i] == (Interval { kind: IntervalKind::Focus, duration: focus }),
        forall|i: int|
            0 <= i < 2 * count - 1 && i % 2 == 1 ==> #[trigger] cycle(
                count,
                focus,
                pause,
                long_pause,
            )[i] == (Interval { kind: IntervalKind::Pause, duration: pause }),
        cycle(count, focus, pause, long_pause)[2 * count - 1] == (Interval {
            kind: IntervalKind::Pause,
            duration: long_pause,
        }),
{
}

/// The cycle pair by pair: pair `i` of `count` is the focus interval and
/// then a pause, the long one in the last pair and the short one in every
/// other.
pub proof fn lemma_cycle_pair(count: nat, focus: Span, pause: Span, long_pause: Span, i: int)
    requires
        0 <= i < count,
    ensures
        cycle(count, focus, pause, long_pause)[2 * i] == (Interval {
            kind: IntervalKind::Focus,
            duration: focus,
        }),
        cycle(count, focus, pause, long_pause)[2 * i + 1] == (Interval {
            kind: IntervalKind::Pause,
            duration: if i == count - 1 {
                long_pause
            } else {
                pause
            },
        }),
{
}

/// Every built schedule has the shape that is asked of a schedule.
pub proof fn lemma_cycle_is_schedule(count: nat, focus: Span, pause: Span, long_pause: Span)
    requires
        configuration_fault(count, focus, pause, long_pause) is None,
    ensures
        is_schedule(cycle(count, focus, pause, long_pause)),
{
}

} // verus!
