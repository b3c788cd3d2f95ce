//! Text as a sequence of characters: cutting it into pieces and reading
//! numbers from it.

use vstd::prelude::*;

verus! {

/// Is `c` white space, as Unicode has it?
pub open spec fn is_whitespace(c: char) -> bool {
    ||| '\u{0009}' <= c <= '\u{000D}'
    ||| c == '\u{0020}'
    ||| c == '\u{0085}'
    ||| c == '\u{00A0}'
    ||| c == '\u{1680}'
    ||| '\u{2000}' <= c <= '\u{200A}'
    ||| c == '\u{2028}'
    ||| c == '\u{2029}'
    ||| c == '\u{202F}'
    ||| c == '\u{205F}'
    ||| c == '\u{3000}'
}

/// Is `c` white space?
pub fn is_space(c: char) -> (space: bool)
    ensures
        space == is_whitespace(c),
{
    ('\u{0009}' <= c && c <= '\u{000D}') || c == '\u{0020}' || c == '\u{0085}' || c == '\u{00A0}'
        || c == '\u{1680}' || ('\u{2000}' <= c && c <= '\u{200A}') || c == '\u{2028}' || c
        == '\u{2029}' || c == '\u{202F}' || c == '\u{205F}' || c == '\u{3000}'
}

/// The characters of a string slice, one by one.
pub fn chars_of(text: &str) -> (chars: Vec<char>)
    ensures
        chars@ == text@,
{
    let mut chars: Vec<char> = Vec::new();
    for c in it: text.chars()
        invariant
            chars@ == it.seq().take(it.index()),
    {
        chars.push(c);
    }
    chars
}

/// The views of a vector of texts.
pub open spec fn texts_of(pieces: Seq<Vec<char>>) -> Seq<Seq<char>> {
    pieces.map_values(|piece: Vec<char>| piece@)
}

/// `text` cut at every `separator`: the pieces between the separators, in
/// order, empty ones too. A text without the separator is one piece, and so
/// is the empty text.
pub open spec fn split_spec(text: Seq<char>, separator: char) -> Seq<Seq<char>>
    decreases text.len(),
{
    if text.len() == 0 {
        seq![Seq::<char>::empty()]
    } else {
        let before = split_spec(text.drop_last(), separator);
        if text.last() == separator {
            before.push(Seq::<char>::empty())
        } else {
            before.drop_last().push(before.last().push(text.last()))
        }
    }
}

/// Cuts `text` at every `separator`.
pub fn split(text: &Vec<char>, separator: char) -> (pieces: Vec<Vec<char>>)
    ensures
        texts_of(pieces@) == split_spec(text@, separator),
{
    let mut pieces: Vec<Vec<char>> = Vec::new();
    let mut current: Vec<char> = Vec::new();
    let mut i: usize = 0;
    while i < text.len()
        invariant
            i <= text.len(),
            texts_of(pieces@).push(current@) == split_spec(text@.take(i as int), separator),
        decreases text.len() - i,
    {
        let c: char = text[i];
        proof {
            assert(text@.take(i + 1).drop_last() =~= text@.take(i as int));
        }
        if c == separator {
            pieces.push(current);
            current = Vec::new();
        } else {
            current.push(c);
        }
        i += 1;
    }
    assert(text@.take(i as int) =~= text@);
    pieces.push(current);
    pieces
}

/// Where `c` stands first in `text`.
pub open spec fn first_index(text: Seq<char>, c: char) -> Option<int>
    decreases text.len(),
{
    if text.len() == 0 {
        None
    } else if text[0] == c {
        Some(0)
    } else {
        match first_index(text.skip(1), c) {
            Some(i) => Some(i + 1),
            None => None,
        }
    }
}

/// The first place of a character is a place where it stands, with none
/// before it; a character without a first place stands nowhere.
pub proof fn lemma_first_index(text: Seq<char>, c: char)
    ensures
        match first_index(text, c) {
            Some(i) => 0 <= i < text.len() && text[i] == c && forall|j: int|
                0 <= j < i ==> text[j] != c,
            None => forall|j: int| 0 <= j < text.len() ==> text[j] != c,
        },
    decreases text.len(),
{
    if text.len() > 0 && text[0] != c {
        let rest = text.skip(1);
        lemma_first_index(rest, c);
        match first_index(rest, c) {
            Some(i) => {
                assert forall|j: int| 0 <= j < i + 1 implies text[j] != c by {
                    if j > 0 {
                        assert(rest[j - 1] == text[j]);
                    }
                }
            },
            None => {
                assert forall|j: int| 0 <= j < text.len() implies text[j] != c by {
                    if j > 0 {
                        assert(rest[j - 1] == text[j]);
                    }
                }
            },
        }
    }
}

/// A place where `c` stands with none before it is its first place.
pub proof fn lemma_first_index_found(text: Seq<char>, c: char, at: int)
    requires
        0 <= at < text.len(),
        text[at] == c,
        forall|j: int| 0 <= j < at ==> text[j] != c,
    ensures
        first_index(text, c) == Some(at),
{
    lemma_first_index(text, c);
}

/// A character that stands nowhere in a text has no first place.
pub proof fn lemma_first_index_missing(text: Seq<char>, c: char)
    requires
        forall|j: int| 0 <= j < text.len() ==> text[j] != c,
    ensures
        first_index(text, c) is None,
{
    lemma_first_index(text, c);
}

/// `text` cut once, at the first `separator`: what stands before it and what
/// stands after it. A text without the separator is not cut.
pub open spec fn split_once_spec(text: Seq<char>, separator: char) -> Option<
    (Seq<char>, Seq<char>),
> {
    match first_index(text, separator) {
        Some(i) => Some((text.take(i), text.skip(i + 1))),
        None => None,
    }
}

/// Cuts `text` once, at the first `separator`.
pub fn split_once(text: &Vec<char>, separator: char) -> (halves: Option<(Vec<char>, Vec<char>)>)
    ensures
        match halves {
            Some((head, tail)) => split_once_spec(text@, separator) == Some((head@, tail@)),
            None => split_once_spec(text@, separator) is None,
        },
{
    let mut i: usize = 0;
    while i < text.len()
        invariant
            i <= text.len(),
            forall|j: int| 0 <= j < i ==> text@[j] != separator,
        decreases text.len() - i,
    {
        if text[i] == separator {
            proof {
                lemma_first_index_found(text@, separator, i as int);
            }
            let head = copy_range(text, 0, i);
            let tail = copy_range(text, i + 1, text.len());
            return Some((head, tail));
        }
        i += 1;
    }
    proof {
        lemma_first_index_missing(text@, separator);
    }
    None
}

/// The characters of `text` from `from` up to `to`.
fn copy_range(text: &Vec<char>, from: usize, to: usize) -> (part: Vec<char>)
    requires
        from <= to <= text@.len(),
    ensures
        part@ == text@.subrange(from as int, to as int),
{
    let mut part: Vec<char> = Vec::new();
    let mut i: usize = from;
    while i < to
        invariant
            from <= i <= to <= text@.len(),
            part@ == text@.subrange(from as int, i as int),
        decreases to - i,
    {
        part.push(text[i]);
        i += 1;
    }
    part
}

/// `text` without the white space it begins with.
pub open spec fn trim_start_spec(text: Seq<char>) -> Seq<char>
    decreases text.len(),
{
    if text.len() > 0 && is_whitespace(text[0]) {
        trim_start_spec(text.skip(1))
    } else {
        text
    }
}

/// `text` without the white space it ends with.
pub open spec fn trim_end_spec(text: Seq<char>) -> Seq<char>
    decreases text.len(),
{
    if text.len() > 0 && is_whitespace(text.last()) {
        trim_end_spec(text.drop_last())
    } else {
        text
    }
}

/// `text` without the white space at either end.
pub open spec fn trim_spec(text: Seq<char>) -> Seq<char> {
    trim_end_spec(trim_start_spec(text))
}

/// White space in front is dropped one character at a time.
proof fn lemma_trim_start_step(text: Seq<char>, from: int)
    requires
        0 <= from < text.len(),
        is_whitespace(text[from]),
    ensures
        trim_start_spec(text.skip(from)) == trim_start_spec(text.skip(from + 1)),
{
    assert(text.skip(from).skip(1) =~= text.skip(from + 1));
}

/// White space at the end is dropped one character at a time.
proof fn lemma_trim_end_step(text: Seq<char>, from: int, to: int)
    requires
        0 <= from < to <= text.len(),
        is_whitespace(text[to - 1]),
    ensures
        trim_end_spec(text.subrange(from, to)) == trim_end_spec(text.subrange(from, to - 1)),
{
    assert(text.subrange(from, to).drop_last() =~= text.subrange(from, to - 1));
}

/// Takes the white space off both ends of `text`.
pub fn trim(text: &Vec<char>) -> (trimmed: Vec<char>)
    ensures
        trimmed@ == trim_spec(text@),
{
    let mut from: usize = 0;
    assert(text@.skip(0) =~= text@);
    while from < text.len() && is_space(text[from])
        invariant
            from <= text.len(),
            trim_start_spec(text@) == trim_start_spec(text@.skip(from as int)),
        decreases text.len() - from,
    {
        proof {
            lemma_trim_start_step(text@, from as int);
        }
        from += 1;
    }
    let mut to: usize = text.len();
    while from < to && is_space(text[to - 1])
        invariant
            from <= to <= text.len(),
            trim_spec(text@) == trim_end_spec(text@.subrange(from as int, to as int)),
        decreases to,
    {
        proof {
            lemma_trim_end_step(text@, from as int, to as int);
        }
        to -= 1;
    }
    copy_range(text, from, to)
}

/// The value of a decimal digit.
pub open spec fn digit_value(c: char) -> nat {
    (c as u32 - '0' as u32) as nat
}

/// Are all of `text` decimal digits?
pub open spec fn all_digits(text: Seq<char>) -> bool {
    forall|i: int| 0 <= i < text.len() ==> '0' <= #[trigger] text[i] <= '9'
}

/// The number that a run of decimal digits stands for; the empty run stands
/// for zero.
pub open spec fn digits_value(digits: Seq<char>) -> nat
    decreases digits.len(),
{
    if digits.len() == 0 {
        0
    } else {
        digits_value(digits.drop_last()) * 10 + digit_value(digits.last())
    }
}

/// The unsigned number that `text` is: decimal digits, one at least, after
/// at most one plus sign, which stand for a number that fits `u64`. Nothing
/// else is a number: no white space, no minus sign, no separator.
pub open spec fn unsigned_of(text: Seq<char>) -> Option<u64> {
    let digits = if text.len() > 0 && text[0] == '+' {
        text.skip(1)
    } else {
        text
    };
    if digits.len() > 0 && all_digits(digits) && digits_value(digits) <= u64::MAX {
        Some(digits_value(digits) as u64)
    } else {
        None
    }
}

/// A run of digits stands for no less than any run it begins with.
pub proof fn lemma_digits_value_grows(digits: Seq<char>, k: int)
    requires
        0 <= k <= digits.len(),
    ensures
        digits_value(digits.take(k)) <= digits_value(digits),
    decreases digits.len(),
{
    if k == digits.len() {
        assert(digits.take(k) =~= digits);
    } else {
        lemma_digits_value_grows(digits.drop_last(), k);
        assert(digits.drop_last().take(k) =~= digits.take(k));
    }
}

/// Reads `text` as an unsigned decimal number.
pub fn parse_u64(text: &Vec<char>) -> (number: Option<u64>)
    ensures
        number == unsigned_of(text@),
{
    let start: usize = if text.len() > 0 && text[0] == '+' {
        1
    } else {
        0
    };
    let ghost digits = text@.skip(start as int);
    if start == text.len() {
        return None;
    }
    let mut value: u64 = 0;
    let mut i: usize = start;
    while i < text.len()
        invariant
            start <= i <= text.len(),
            start < text.len(),
            start == if text@.len() > 0 && text@[0] == '+' {
                1int
            } else {
                0int
            },
            digits == text@.skip(start as int),
            text@.skip(0) == text@,
            all_digits(digits.take(i - start)),
            value == digits_value(digits.take(i - start)),
        decreases text.len() - i,
    {
        let c: char = text[i];
        let ghost upto = digits.take(i - start + 1);
        proof {
            assert(upto.drop_last() =~= digits.take(i - start));
            assert(digits[i - start] == c);
        }
        if !('0' <= c && c <= '9') {
            return None;
        }
        let digit: u64 = (c as u32 - '0' as u32) as u64;
        let next = match value.checked_mul(10) {
            Some(tens) => tens.checked_add(digit),
            None => None,
        };
        match next {
            Some(sum) => {
                value = sum;
            },
            None => {
                proof {
                    if all_digits(digits) {
                        lemma_digits_value_grows(digits, i - start + 1);
                    }
                }
                return None;
            },
        }
        i += 1;
    }
    assert(digits.take(i - start) =~= digits);
    Some(value)
}

/// The pieces that are not empty, in order.
pub open spec fn filled_spec(pieces: Seq<Seq<char>>) -> Seq<Seq<char>>
    decreases pieces.len(),
{
    if pieces.len() == 0 {
        Seq::<Seq<char>>::empty()
    } else if pieces.last().len() > 0 {
        filled_spec(pieces.drop_last()).push(pieces.last())
    } else {
        filled_spec(pieces.drop_last())
    }
}

/// Keeps the pieces that are not empty.
pub fn filled(pieces: Vec<Vec<char>>) -> (kept: Vec<Vec<char>>)
    ensures
        texts_of(kept@) == filled_spec(texts_of(pieces@)),
{
    let ghost all = texts_of(pieces@);
    let mut kept: Vec<Vec<char>> = Vec::new();
    for piece in it: pieces
        invariant
            all == texts_of(it.seq()),
            texts_of(kept@) == filled_spec(all.take(it.index() as int)),
    {
        let ghost done = it.index() as int;
        proof {
            assert(all.take(done + 1).drop_last() =~= all.take(done));
        }
        if piece.len() > 0 {
            kept.push(piece);
        }
    }
    assert(all.take(all.len() as int) =~= all);
    kept
}

/// The numbers that `fields` are, in order; or, where one of them is no
/// number, the place of the first such.
pub open spec fn numbers_spec(fields: Seq<Seq<char>>) -> Result<Seq<u64>, int>
    decreases fields.len(),
{
    if fields.len() == 0 {
        Ok(Seq::<u64>::empty())
    } else {
        match numbers_spec(fields.drop_last()) {
            Err(place) => Err(place),
            Ok(front) => match unsigned_of(fields.last()) {
                Some(number) => Ok(front.push(number)),
                None => Err(fields.len() - 1),
            },
        }
    }
}

/// The pieces from place `from` on; none where there are no more than
/// `from`.
pub open spec fn pieces_from(pieces: Seq<Seq<char>>, from: int) -> Seq<Seq<char>> {
    if 0 <= from <= pieces.len() {
        pieces.skip(from)
    } else {
        Seq::<Seq<char>>::empty()
    }
}

/// Reads every field from place `from` on as a number. Where a field is no
/// number, its place is returned, counted from `from`.
pub fn parse_numbers(fields: &Vec<Vec<char>>, from: usize) -> (numbers: Result<Vec<u64>, usize>)
    ensures
        match numbers_spec(pieces_from(texts_of(fields@), from as int)) {
            Ok(values) => numbers is Ok && numbers->Ok_0@ == values,
            Err(place) => numbers == Err::<Vec<u64>, usize>(place as usize),
        },
{
    let ghost rest = pieces_from(texts_of(fields@), from as int);
    let mut values: Vec<u64> = Vec::new();
    if from > fields.len() {
        return Ok(values);
    }
    let mut i: usize = from;
    while i < fields.len()
        invariant
            from <= i <= fields@.len(),
            rest == texts_of(fields@).skip(from as int),
            numbers_spec(rest.take(i - from)) == Ok::<Seq<u64>, int>(values@),
        decreases fields@.len() - i,
    {
        let ghost upto = rest.take(i - from + 1);
        proof {
            assert(upto.drop_last() =~= rest.take(i - from));
        }
        match parse_u64(&fields[i]) {
            Some(number) => {
                values.push(number);
            },
            None => {
                proof {
                    lemma_numbers_fail_early(rest, i - from + 1);
                }
                return Err(i - from);
            },
        }
        i += 1;
    }
    assert(rest.take(i - from) =~= rest);
    Ok(values)
}

/// Where the fields up to a place cannot all be read, the fields in all
/// fail at the same field.
pub proof fn lemma_numbers_fail_early(fields: Seq<Seq<char>>, k: int)
    requires
        0 <= k <= fields.len(),
        numbers_spec(fields.take(k)) is Err,
    ensures
        numbers_spec(fields) == numbers_spec(fields.take(k)),
    decreases fields.len(),
{
    if k == fields.len() {
        assert(fields.take(k) =~= fields);
    } else {
        assert(fields.drop_last().take(k) =~= fields.take(k));
        lemma_numbers_fail_early(fields.drop_last(), k);
    }
}

} // verus!
