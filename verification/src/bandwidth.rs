//! The bytes received and sent over the network, as `/proc/net/dev` counts
//! them.

use vstd::prelude::*;
use crate::text::{
    chars_of, filled, filled_spec, numbers_spec, parse_numbers, split, split_once,
    split_once_spec, split_spec, texts_of,
};

verus! {

/// The lines at the head of the file that hold no counters.
pub const HEADER_LINES: usize = 2;

/// How many counters the line of an interface holds.
pub const FIELDS: usize = 16;

/// The place of the bytes received among the counters of a line.
pub const RX_FIELD: usize = 0;

/// The place of the bytes sent among the counters of a line.
pub const TX_FIELD: usize = 8;

/// Bytes received and bytes sent.
#[derive(Clone, Copy, Debug, PartialEq, Eq, Structural)]
pub struct NetStats {
    pub rx: u64,
    pub tx: u64,
}

/// What is wrong with a line.
#[derive(Clone, Copy, Debug, PartialEq, Eq, Structural)]
pub enum LineFault {
    /// The line holds no colon after which the counters could stand.
    NoColon,
    /// The counter at this place, from zero, is not an unsigned number.
    NotANumber(usize),
    /// Every counter is a number, but there are this many, not sixteen.
    WrongCount(usize),
    /// With this line the bytes received or the bytes sent exceed `u64`.
    Overflow,
}

/// Why the file cannot be read: the first line, from zero, with a fault, and
/// the fault.
#[derive(Clone, Copy, Debug, PartialEq, Eq, Structural)]
pub struct NetError {
    pub line: usize,
    pub fault: LineFault,
}

/// The name of the loopback interface, whose line is passed over.
pub open spec fn loopback() -> Seq<char> {
    seq!['l', 'o']
}

/// The counters that stand in a line after the colon: the pieces between
/// spaces that are not empty.
pub open spec fn counter_fields(rest: Seq<char>) -> Seq<Seq<char>> {
    filled_spec(split_spec(rest, ' '))
}

/// What a line adds to the bytes received and sent. An empty line adds
/// nothing, and neither does the line named `lo`, with nothing before the
/// name.
pub open spec fn line_counters(line: Seq<char>) -> Result<Option<NetStats>, LineFault> {
    if line.len() == 0 {
        Ok(None)
    } else {
        match split_once_spec(line, ':') {
            None => Err(LineFault::NoColon),
            Some((name, rest)) => if name == loopback() {
                Ok(None)
            } else {
                match numbers_spec(counter_fields(rest)) {
                    Err(place) => Err(LineFault::NotANumber(place as usize)),
                    Ok(numbers) => if numbers.len() != FIELDS {
                        Err(LineFault::WrongCount(numbers.len() as usize))
                    } else {
                        Ok(Some(NetStats { rx: numbers[RX_FIELD as int], tx: numbers[TX_FIELD as int] }))
                    },
                }
            },
        }
    }
}

/// The sums over the first `count` lines, the header apart. The first fault,
/// line by line, ends the reading.
pub open spec fn sum_lines(lines: Seq<Seq<char>>, count: int) -> Result<NetStats, NetError>
    decreases count,
{
    if count <= HEADER_LINES {
        Ok(NetStats { rx: 0, tx: 0 })
    } else {
        match sum_lines(lines, count - 1) {
            Err(error) => Err(error),
            Ok(sums) => match line_counters(lines[count - 1]) {
                Err(fault) => Err(NetError { line: (count - 1) as usize, fault }),
                Ok(None) => Ok(sums),
                Ok(Some(more)) => if sums.rx + more.rx > u64::MAX || sums.tx + more.tx
                    > u64::MAX {
                    Err(NetError { line: (count - 1) as usize, fault: LineFault::Overflow })
                } else {
                    Ok(NetStats { rx: (sums.rx + more.rx) as u64, tx: (sums.tx + more.tx) as u64 })
                },
            },
        }
    }
}

/// The bytes received and sent that the file counts, over all its lines.
pub open spec fn stats_of(content: Seq<char>) -> Result<NetStats, NetError> {
    let lines = split_spec(content, '\n');
    sum_lines(lines, lines.len() as int)
}

/// The unit for a rate that was divided by 1024 `power` times.
pub open spec fn unit_label_spec(power: i32) -> Option<Seq<char>> {
    if power == 0 {
        Some(seq![' ', 'B'])
    } else if power == 1 {
        Some(seq!['K', 'B'])
    } else if power == 2 {
        Some(seq!['M', 'B'])
    } else if power == 3 {
        Some(seq!['G', 'B'])
    } else if power == 4 {
        Some(seq!['T', 'B'])
    } else {
        None
    }
}

/// The unit for a rate that was divided by 1024 `power` times: bytes, then
/// kilobytes up to terabytes; beyond that there is none.
pub fn unit_label(power: i32) -> (label: Option<&'static str>)
    ensures
        match label {
            Some(text) => unit_label_spec(power) == Some(text@),
            None => unit_label_spec(power) is None,
        },
{
    proof {
        reveal_strlit(" B");
        reveal_strlit("KB");
        reveal_strlit("MB");
        reveal_strlit("GB");
        reveal_strlit("TB");
    }
    match power {
        0 => Some(" B"),
        1 => Some("KB"),
        2 => Some("MB"),
        3 => Some("GB"),
        4 => Some("TB"),
        _ => None,
    }
}

impl NetStats {
    /// Reads what one line adds.
    pub fn parse_line(line: &Vec<char>) -> (counters: Result<Option<NetStats>, LineFault>)
        ensures
            counters == line_counters(line@),
    {
        if line.len() == 0 {
            return Ok(None);
        }
        match split_once(line, ':') {
            None => Err(LineFault::NoColon),
            Some((name, rest)) => {
                if name.len() == 2 && name[0] == 'l' && name[1] == 'o' {
                    assert(name@ =~= loopback());
                    return Ok(None);
                }
                let fields = filled(split(&rest, ' '));
                assert(texts_of(fields@).skip(0) =~= texts_of(fields@));
                match parse_numbers(&fields, 0) {
                    Err(place) => Err(LineFault::NotANumber(place)),
                    Ok(numbers) => {
                        if numbers.len() != FIELDS {
                            Err(LineFault::WrongCount(numbers.len()))
                        } else {
                            Ok(Some(NetStats { rx: numbers[RX_FIELD], tx: numbers[TX_FIELD] }))
                        }
                    },
                }
            },
        }
    }

    /// Reads the whole of `/proc/net/dev`: two lines of header, then a line
    /// for each interface, with its name, a colon and sixteen counters.
    pub fn parse(content: &str) -> (stats: Result<NetStats, NetError>)
        ensures
            stats == stats_of(content@),
    {
        let lines = split(&chars_of(content), '\n');
        let mut sums = NetStats { rx: 0, tx: 0 };
        let mut i: usize = HEADER_LINES;
        while i < lines.len()
            invariant
                HEADER_LINES <= i,
                i <= lines@.len() || i == HEADER_LINES,
                texts_of(lines@) == split_spec(content@, '\n'),
                sum_lines(texts_of(lines@), i as int) == Ok::<NetStats, NetError>(sums),
            decreases lines@.len() - i,
        {
            match NetStats::parse_line(&lines[i]) {
                Err(fault) => {
                    proof {
                        lemma_sum_fails_early(texts_of(lines@), i + 1, lines@.len() as int);
                    }
                    return Err(NetError { line: i, fault });
                },
                Ok(None) => {},
                Ok(Some(more)) => {
                    let rx = sums.rx.checked_add(more.rx);
                    let tx = sums.tx.checked_add(more.tx);
                    if rx.is_none() || tx.is_none() {
                        proof {
                            lemma_sum_fails_early(texts_of(lines@), i + 1, lines@.len() as int);
                        }
                        return Err(NetError { line: i, fault: LineFault::Overflow });
                    }
                    sums = NetStats { rx: rx.unwrap(), tx: tx.unwrap() };
                },
            }
            i += 1;
        }
        proof {
            if lines@.len() < HEADER_LINES {
                lemma_sum_of_header(texts_of(lines@), lines@.len() as int);
            }
        }
        Ok(sums)
    }

    /// The bytes that have come and gone since `earlier`; `None` where a
    /// count has gone down since then.
    pub fn since(&self, earlier: &NetStats) -> (passed: Option<NetStats>)
        ensures
            passed == if self.rx >= earlier.rx && self.tx >= earlier.tx {
                Some(
                    NetStats {
                        rx: (self.rx - earlier.rx) as u64,
                        tx: (self.tx - earlier.tx) as u64,
                    },
                )
            } else {
                None
            },
    {
        if self.rx >= earlier.rx && self.tx >= earlier.tx {
            Some(NetStats { rx: self.rx - earlier.rx, tx: self.tx - earlier.tx })
        } else {
            None
        }
    }
}

/// A fault among the first lines is the fault of the whole file.
pub proof fn lemma_sum_fails_early(lines: Seq<Seq<char>>, fewer: int, more: int)
    requires
        fewer <= more,
        sum_lines(lines, fewer) is Err,
    ensures
        sum_lines(lines, more) == sum_lines(lines, fewer),
    decreases more - fewer,
{
    if fewer < more {
        lemma_sum_fails_early(lines, fewer, more - 1);
    }
}

/// A file of header lines only counts nothing.
pub proof fn lemma_sum_of_header(lines: Seq<Seq<char>>, count: int)
    requires
        count <= HEADER_LINES,
    ensures
        sum_lines(lines, count) == Ok::<NetStats, NetError>(NetStats { rx: 0, tx: 0 }),
{
}

} // verus!
