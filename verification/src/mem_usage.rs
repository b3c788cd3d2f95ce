//! The memory in use, as the head of `/proc/meminfo` gives it.

use vstd::prelude::*;
use crate::pattern::{capture, kilobytes_pattern, regex_capture};
use crate::text::{chars_of, parse_u64, split, split_spec, texts_of, unsigned_of};

verus! {

/// How many lines are read from the head of the file.
pub const LINES_READ: usize = 5;

/// Memory in use and memory in all, in kilobytes.
#[derive(Clone, Copy, Debug, PartialEq, Eq, Structural)]
pub struct MemStats {
    pub used: u64,
    pub total: u64,
}

/// Why the file cannot be read.
#[derive(Clone, Copy, Debug, PartialEq, Eq, Structural)]
pub enum MemError {
    /// The line at this place, from zero, does not match the pattern.
    NoMatch(usize),
    /// The line at this place matches, but what stands for the number is
    /// empty or exceeds `u64`.
    NotANumber(usize),
    /// Every line is read, but there are this many, not five.
    TooFewLines(usize),
    /// The memory that is free, in buffers or cached exceeds the memory in
    /// all.
    Underflow,
}

/// The number of kilobytes that the line at `place` gives.
pub open spec fn line_value(line: Seq<char>, place: usize) -> Result<u64, MemError> {
    match regex_capture(kilobytes_pattern(), line, 1) {
        None => Err(MemError::NoMatch(place)),
        Some(digits) => match unsigned_of(digits) {
            None => Err(MemError::NotANumber(place)),
            Some(number) => Ok(number),
        },
    }
}

/// The numbers that the first `count` lines give. The first fault, line by
/// line, ends the reading.
pub open spec fn values_spec(lines: Seq<Seq<char>>, count: int) -> Result<Seq<u64>, MemError>
    decreases count,
{
    if count <= 0 {
        Ok(Seq::<u64>::empty())
    } else {
        match values_spec(lines, count - 1) {
            Err(error) => Err(error),
            Ok(front) => match line_value(lines[count - 1], (count - 1) as usize) {
                Err(error) => Err(error),
                Ok(number) => Ok(front.push(number)),
            },
        }
    }
}

/// The memory in use, from the memory in all, the free memory, the buffers
/// and the cache.
pub open spec fn in_use(total: u64, free: u64, buffers: u64, cached: u64) -> Result<
    MemStats,
    MemError,
> {
    if total < free + buffers + cached {
        Err(MemError::Underflow)
    } else {
        Ok(MemStats { used: (total - free - buffers - cached) as u64, total })
    }
}

/// The memory that the file reports: from its first five lines, the first
/// is the memory in all, the second the free memory, the fourth the buffers
/// and the fifth the cache.
pub open spec fn stats_of(content: Seq<char>) -> Result<MemStats, MemError> {
    let lines = split_spec(content, '\n');
    let count = if lines.len() < LINES_READ {
        lines.len() as int
    } else {
        LINES_READ as int
    };
    match values_spec(lines, count) {
        Err(error) => Err(error),
        Ok(values) => if count < LINES_READ {
            Err(MemError::TooFewLines(count as usize))
        } else {
            in_use(values[0], values[1], values[3], values[4])
        },
    }
}

impl MemStats {
    /// The memory in use, from the memory in all, the free memory, the
    /// buffers and the cache.
    pub fn from_parts(total: u64, free: u64, buffers: u64, cached: u64) -> (stats: Result<
        MemStats,
        MemError,
    >)
        ensures
            stats == in_use(total, free, buffers, cached),
    {
        if total < free {
            return Err(MemError::Underflow);
        }
        let without_free: u64 = total - free;
        if without_free < buffers {
            return Err(MemError::Underflow);
        }
        let without_buffers: u64 = without_free - buffers;
        if without_buffers < cached {
            return Err(MemError::Underflow);
        }
        Ok(MemStats { used: without_buffers - cached, total })
    }

    /// Reads the number of kilobytes from the line at `place`.
    pub fn parse_line(line: &Vec<char>, place: usize) -> (value: Result<u64, MemError>)
        ensures
            value == line_value(line@, place),
    {
        match capture("[a-zA-Z]*:[ ]*([0-9]*) kB", line, 1) {
            None => Err(MemError::NoMatch(place)),
            Some(digits) => match parse_u64(&digits) {
                None => Err(MemError::NotANumber(place)),
                Some(number) => Ok(number),
            },
        }
    }

    /// Reads the head of `/proc/meminfo`.
    pub fn parse(content: &str) -> (stats: Result<MemStats, MemError>)
        ensures
            stats == stats_of(content@),
    {
        let lines = split(&chars_of(content), '\n');
        let count: usize = if lines.len() < LINES_READ {
            lines.len()
        } else {
            LINES_READ
        };
        let mut values: Vec<u64> = Vec::new();
        let mut i: usize = 0;
        while i < count
            invariant
                i <= count <= lines@.len(),
                count == if lines@.len() < LINES_READ {
                    lines@.len() as int
                } else {
                    LINES_READ as int
                },
                texts_of(lines@) == split_spec(content@, '\n'),
                values_spec(texts_of(lines@), i as int) == Ok::<Seq<u64>, MemError>(values@),
                values@.len() == i,
            decreases count - i,
        {
            match MemStats::parse_line(&lines[i], i) {
                Err(error) => {
                    proof {
                        lemma_values_fail_early(texts_of(lines@), i + 1, count as int);
                    }
                    return Err(error);
                },
                Ok(number) => {
                    values.push(number);
                },
            }
            i += 1;
        }
        if count < LINES_READ {
            return Err(MemError::TooFewLines(count));
        }
        MemStats::from_parts(values[0], values[1], values[3], values[4])
    }
}

/// A fault among the first lines is the fault of the whole reading.
pub proof fn lemma_values_fail_early(lines: Seq<Seq<char>>, fewer: int, more: int)
    requires
        fewer <= more,
        values_spec(lines, fewer) is Err,
    ensures
        values_spec(lines, more) == values_spec(lines, fewer),
    decreases more - fewer,
{
    if fewer < more {
        lemma_values_fail_early(lines, fewer, more - 1);
    }
}

} // verus!
