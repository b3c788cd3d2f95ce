use blocklets::mem_usage::{MemError, MemStats, LINES_READ};

const HEAD: &str = "MemTotal:       16314572 kB\n\
MemFree:         1234567 kB\n\
MemAvailable:    9876543 kB\n\
Buffers:          234567 kB\n\
Cached:          3456789 kB\n\
SwapCached:            0 kB\n";

fn chars(text: &str) -> Vec<char> {
    text.chars().collect()
}

#[test]
fn head_of_proc_meminfo_is_read() {
    assert_eq!(LINES_READ, 5);
    assert_eq!(MemStats::parse(HEAD), Ok(MemStats { used: 11_388_649, total: 16_314_572 }));
}

#[test]
fn only_five_lines_are_read() {
    let content = format!("{}this line is never looked at\n\u{0}\n", HEAD);
    assert_eq!(MemStats::parse(&content), Ok(MemStats { used: 11_388_649, total: 16_314_572 }));
    let exact = "A: 100 kB\nB: 10 kB\nC: 0 kB\nD: 20 kB\nE: 30 kB";
    assert_eq!(MemStats::parse(exact), Ok(MemStats { used: 40, total: 100 }));
}

#[test]
fn third_line_is_read_but_not_used() {
    let content = "A: 100 kB\nB: 10 kB\nC: 99999 kB\nD: 20 kB\nE: 30 kB\n";
    assert_eq!(MemStats::parse(content), Ok(MemStats { used: 40, total: 100 }));
    let broken = "A: 100 kB\nB: 10 kB\nC: 99999\nD: 20 kB\nE: 30 kB\n";
    assert_eq!(MemStats::parse(broken), Err(MemError::NoMatch(2)));
}

#[test]
fn one_line_of_meminfo_gives_its_number() {
    let read = |line: &str| MemStats::parse_line(&chars(line), 7);
    assert_eq!(read("MemTotal:       16314572 kB"), Ok(16_314_572));
    assert_eq!(read("MemTotal:16314572 kB"), Ok(16_314_572));
    assert_eq!(read(": 5 kB"), Ok(5));
    assert_eq!(read("Active(anon):      123 kB"), Ok(123));
    assert_eq!(read("x: 1 kB y: 2 kB"), Ok(1));
    assert_eq!(read("junk 12: 0007 kB and more"), Ok(7));
    assert_eq!(read("Total: 18446744073709551615 kB"), Ok(u64::MAX));
}

#[test]
fn line_of_meminfo_that_does_not_match_is_a_fault() {
    let read = |line: &str| MemStats::parse_line(&chars(line), 3);
    assert_eq!(read(""), Err(MemError::NoMatch(3)));
    assert_eq!(read("nothing here"), Err(MemError::NoMatch(3)));
    assert_eq!(read("MemTotal: 16314572"), Err(MemError::NoMatch(3)));
    assert_eq!(read("MemTotal: 16314572 KB"), Err(MemError::NoMatch(3)));
    assert_eq!(read("MemTotal: 16314572kB"), Err(MemError::NoMatch(3)));
    assert_eq!(read("MemTotal 16314572 kB"), Err(MemError::NoMatch(3)));
    assert_eq!(read("MemTotal:\t16314572 kB"), Err(MemError::NoMatch(3)));
    assert_eq!(read("MemTotal: -5 kB"), Err(MemError::NoMatch(3)));
}

#[test]
fn match_without_a_number_is_a_fault() {
    let read = |line: &str| MemStats::parse_line(&chars(line), 1);
    assert_eq!(read("Foo: kB"), Err(MemError::NotANumber(1)));
    assert_eq!(read("Foo:     kB"), Err(MemError::NotANumber(1)));
    assert_eq!(read("Foo: 18446744073709551616 kB"), Err(MemError::NotANumber(1)));
}

#[test]
fn first_faulty_line_of_meminfo_ends_the_reading() {
    let content = "A: 100 kB\nB: kB\nbroken\nD: 20 kB\nE: 30 kB\n";
    assert_eq!(MemStats::parse(content), Err(MemError::NotANumber(1)));
    let content = "A: 100 kB\nbroken\nC: kB\nD: 20 kB\nE: 30 kB\n";
    assert_eq!(MemStats::parse(content), Err(MemError::NoMatch(1)));
}

#[test]
fn fewer_than_five_lines_are_a_fault() {
    assert_eq!(MemStats::parse(""), Err(MemError::NoMatch(0)));
    assert_eq!(MemStats::parse("A: 100 kB"), Err(MemError::TooFewLines(1)));
    assert_eq!(MemStats::parse("A: 100 kB\n"), Err(MemError::NoMatch(1)));
    assert_eq!(
        MemStats::parse("A: 100 kB\nB: 10 kB\nC: 0 kB\nD: 20 kB"),
        Err(MemError::TooFewLines(4))
    );
    assert_eq!(
        MemStats::parse("A: 100 kB\nB: 10 kB\nC: 0 kB\nD: 20 kB\n"),
        Err(MemError::NoMatch(4))
    );
}

#[test]
fn parts_must_not_exceed_the_whole() {
    assert_eq!(MemStats::from_parts(100, 10, 20, 30), Ok(MemStats { used: 40, total: 100 }));
    assert_eq!(MemStats::from_parts(60, 10, 20, 30), Ok(MemStats { used: 0, total: 60 }));
    assert_eq!(MemStats::from_parts(0, 0, 0, 0), Ok(MemStats { used: 0, total: 0 }));
    assert_eq!(MemStats::from_parts(59, 10, 20, 30), Err(MemError::Underflow));
    assert_eq!(MemStats::from_parts(5, 10, 0, 0), Err(MemError::Underflow));
    assert_eq!(MemStats::from_parts(15, 10, 10, 0), Err(MemError::Underflow));
    assert_eq!(MemStats::from_parts(u64::MAX, u64::MAX, 0, 1), Err(MemError::Underflow));
    assert_eq!(MemStats::from_parts(u64::MAX, u64::MAX, u64::MAX, u64::MAX), Err(MemError::Underflow));
    assert_eq!(
        MemStats::from_parts(u64::MAX, 1, 1, 1),
        Ok(MemStats { used: u64::MAX - 3, total: u64::MAX })
    );
    let content = "A: 59 kB\nB: 10 kB\nC: 0 kB\nD: 20 kB\nE: 30 kB\n";
    assert_eq!(MemStats::parse(content), Err(MemError::Underflow));
}
