//! The processor's time counters, as the first line of `/proc/stat` gives
//! them.

use vstd::prelude::*;
use crate::text::{
    chars_of, numbers_spec, parse_numbers, pieces_from, split, split_once, split_once_spec,
    split_spec, trim, trim_spec,
};

verus! {

/// How many counters the line holds.
pub const COUNTERS: usize = 10;

/// How many pieces stand before the counters: the label, and the empty
/// piece between the two spaces that follow it.
pub const LABEL_PIECES: usize = 2;

/// One reading of the ten counters of processor time, in the order of the
/// line. Any ten numbers are a reading.
#[derive(Clone, Copy, Debug, PartialEq, Eq, Structural)]
pub struct CpuStat {
    pub user: u64,
    pub nice: u64,
    pub sys: u64,
    pub idle: u64,
    pub iowait: u64,
    pub irq: u64,
    pub sirq: u64,
    pub steal: u64,
    pub guest: u64,
    pub nguest: u64,
}

/// Why a line cannot be read as processor counters.
#[derive(Clone, Copy, Debug, PartialEq, Eq, Structural)]
pub enum StatError {
    /// The field at this place, counted from zero after the two that are
    /// passed over, is not an unsigned number.
    NotANumber(usize),
    /// Every field is a number, but there are this many, not ten.
    WrongCount(usize),
}

/// The first line of a text: what stands before the first line feed, or
/// all of it where there is none.
pub open spec fn first_line(text: Seq<char>) -> Seq<char> {
    match split_once_spec(text, '\n') {
        Some((line, _)) => line,
        None => text,
    }
}

/// The fields of a line that hold the counters: the line without the white
/// space at its ends, cut at every space, without the first two pieces.
pub open spec fn counter_fields(line: Seq<char>) -> Seq<Seq<char>> {
    pieces_from(split_spec(trim_spec(line), ' '), LABEL_PIECES as int)
}

/// The reading that a text gives: the ten numbers of its first line,
/// whatever they are; the lines after the first count for nothing. The first
/// field that is no number is reported before a wrong count.
pub open spec fn counters_of(text: Seq<char>) -> Result<CpuStat, StatError> {
    match numbers_spec(counter_fields(first_line(text))) {
        Err(place) => Err(StatError::NotANumber(place as usize)),
        Ok(numbers) => if numbers.len() != COUNTERS {
            Err(StatError::WrongCount(numbers.len() as usize))
        } else {
            Ok(CpuStat::from_numbers(numbers))
        },
    }
}

impl CpuStat {
    /// The reading that ten numbers are, in the order of the line.
    pub open spec fn from_numbers(numbers: Seq<u64>) -> CpuStat {
        CpuStat {
            user: numbers[0],
            nice: numbers[1],
            sys: numbers[2],
            idle: numbers[3],
            iowait: numbers[4],
            irq: numbers[5],
            sirq: numbers[6],
            steal: numbers[7],
            guest: numbers[8],
            nguest: numbers[9],
        }
    }

    /// The time spent at work: all but the idle time and the wait for
    /// input and output.
    pub open spec fn used(self) -> nat {
        (self.user + self.nice + self.sys + self.irq + self.sirq + self.steal + self.guest
            + self.nguest) as nat
    }

    /// All the time counted.
    pub open spec fn total(self) -> nat {
        self.used() + self.idle as nat + self.iowait as nat
    }

    /// Reads the first line of the text of `/proc/stat`: a label, then the
    /// counters, with single spaces between them and two after the label.
    /// Whatever follows the first line is passed over.
    pub fn parse(text: &str) -> (stat: Result<CpuStat, StatError>)
        ensures
            stat == counters_of(text@),
    {
        let chars = chars_of(text);
        let line = match split_once(&chars, '\n') {
            Some((line, _)) => line,
            None => chars,
        };
        let pieces = split(&trim(&line), ' ');
        match parse_numbers(&pieces, LABEL_PIECES) {
            Ok(numbers) => {
                if numbers.len() != COUNTERS {
                    Err(StatError::WrongCount(numbers.len()))
                } else {
                    Ok(
                        CpuStat {
                            user: numbers[0],
                            nice: numbers[1],
                            sys: numbers[2],
                            idle: numbers[3],
                            iowait: numbers[4],
                            irq: numbers[5],
                            sirq: numbers[6],
                            steal: numbers[7],
                            guest: numbers[8],
                            nguest: numbers[9],
                        },
                    )
                }
            },
            Err(place) => Err(StatError::NotANumber(place)),
        }
    }

    /// Do the counters sum within `u64`, so that `get_total` and `get_used`
    /// can be had?
    pub fn sums_fit(&self) -> (fit: bool)
        ensures
            fit == (self.total() <= u64::MAX),
    {
        let total: u128 = self.user as u128 + self.nice as u128 + self.sys as u128
            + self.idle as u128 + self.iowait as u128 + self.irq as u128 + self.sirq as u128
            + self.steal as u128 + self.guest as u128 + self.nguest as u128;
        total <= u64::MAX as u128
    }

    /// All the time counted. The sum must fit `u64`.
    pub fn get_total(&self) -> (total: u64)
        requires
            self.total() <= u64::MAX,
        ensures
            total == self.total(),
    {
        self.get_used() + self.idle + self.iowait
    }

    /// The time spent at work. The sum must fit `u64`.
    pub fn get_used(&self) -> (used: u64)
        requires
            self.used() <= u64::MAX,
        ensures
            used == self.used(),
    {
        self.user + self.nice + self.sys + self.irq + self.sirq + self.steal + self.guest
            + self.nguest
    }

    /// The time at work and the time in all that have passed since
    /// `earlier`; `None` where the counters of either reading do not sum
    /// within `u64`, and where a sum has gone down since then.
    pub fn usage_since(&self, earlier: &CpuStat) -> (passed: Option<(u64, u64)>)
        ensures
            passed == if self.total() <= u64::MAX && earlier.total() <= u64::MAX && self.total()
                >= earlier.total() && self.used() >= earlier.used() {
                Some(
                    (
                        (self.used() - earlier.used()) as u64,
                        (self.total() - earlier.total()) as u64,
                    ),
                )
            } else {
                None
            },
    {
        if !self.sums_fit() || !earlier.sums_fit() {
            return None;
        }
        let total: u64 = self.get_total();
        let used: u64 = self.get_used();
        let total_before: u64 = earlier.get_total();
        let used_before: u64 = earlier.get_used();
        if total >= total_before && used >= used_before {
            Some((used - used_before, total - total_before))
        } else {
            None
        }
    }
}

} // verus!
