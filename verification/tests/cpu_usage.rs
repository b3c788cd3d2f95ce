use blocklets::cpu_usage::{CpuStat, StatError, COUNTERS, LABEL_PIECES};

fn stat(values: [u64; 10]) -> CpuStat {
    CpuStat {
        user: values[0],
        nice: values[1],
        sys: values[2],
        idle: values[3],
        iowait: values[4],
        irq: values[5],
        sirq: values[6],
        steal: values[7],
        guest: values[8],
        nguest: values[9],
    }
}

#[test]
fn first_line_of_proc_stat_is_read() {
    let read = CpuStat::parse("cpu  4705 356 584 3699 23 24 1 2 3 4\n").unwrap();
    assert_eq!(read, stat([4705, 356, 584, 3699, 23, 24, 1, 2, 3, 4]));
    assert!(read.sums_fit());
    assert_eq!(read.get_used(), 4705 + 356 + 584 + 24 + 1 + 2 + 3 + 4);
    assert_eq!(read.get_used(), 5679);
    assert_eq!(read.get_total(), 5679 + 3699 + 23);
    assert_eq!(read.get_total(), 9401);
}

#[test]
fn used_leaves_out_idle_and_iowait() {
    let busy = stat([1, 2, 4, 8, 16, 32, 64, 128, 256, 512]);
    assert_eq!(busy.get_used(), 1 + 2 + 4 + 32 + 64 + 128 + 256 + 512);
    assert_eq!(busy.get_total(), 1023);
    let idle = stat([0, 0, 0, 70, 30, 0, 0, 0, 0, 0]);
    assert_eq!(idle.get_used(), 0);
    assert_eq!(idle.get_total(), 100);
}

#[test]
fn white_space_round_the_line_is_taken_off() {
    let read = CpuStat::parse(" \t cpu  1 2 3 4 5 6 7 8 9 10 \r\n").unwrap();
    assert_eq!(read, stat([1, 2, 3, 4, 5, 6, 7, 8, 9, 10]));
    assert_eq!(read.get_total(), 55);
}

#[test]
fn first_two_pieces_are_passed_over_whatever_they_hold() {
    assert_eq!(LABEL_PIECES, 2);
    let read = CpuStat::parse("x y 1 2 3 4 5 6 7 8 9 10").unwrap();
    assert_eq!(read, stat([1, 2, 3, 4, 5, 6, 7, 8, 9, 10]));
    let read = CpuStat::parse("7 8 1 2 3 4 5 6 7 8 9 10").unwrap();
    assert_eq!(read, stat([1, 2, 3, 4, 5, 6, 7, 8, 9, 10]));
}

#[test]
fn any_ten_numbers_are_a_reading() {
    let line = "cpu  18446744073709551615 18446744073709551615 18446744073709551615 \
                18446744073709551615 18446744073709551615 18446744073709551615 \
                18446744073709551615 18446744073709551615 18446744073709551615 \
                18446744073709551615";
    assert_eq!(CpuStat::parse(line), Ok(stat([u64::MAX; 10])));
    assert_eq!(
        CpuStat::parse("cpu  18446744073709551615 1 0 0 0 0 0 0 0 0"),
        Ok(stat([u64::MAX, 1, 0, 0, 0, 0, 0, 0, 0, 0]))
    );
    assert_eq!(
        CpuStat::parse("cpu  0 0 0 18446744073709551615 7 0 0 0 0 +9"),
        Ok(stat([0, 0, 0, u64::MAX, 7, 0, 0, 0, 0, 9]))
    );
    assert_eq!(CpuStat::parse("cpu  0 0 0 0 0 0 0 0 0 0"), Ok(stat([0; 10])));
}

#[test]
fn count_of_counters_must_be_ten() {
    assert_eq!(COUNTERS, 10);
    assert_eq!(CpuStat::parse("cpu 1 2 3 4 5 6 7 8 9 10"), Err(StatError::WrongCount(9)));
    assert_eq!(CpuStat::parse("cpu  1 2 3 4 5 6 7 8 9 10 11"), Err(StatError::WrongCount(11)));
    assert_eq!(CpuStat::parse(""), Err(StatError::WrongCount(0)));
    assert_eq!(CpuStat::parse("cpu"), Err(StatError::WrongCount(0)));
    assert_eq!(CpuStat::parse("cpu "), Err(StatError::WrongCount(0)));
    assert_eq!(CpuStat::parse("cpu  1"), Err(StatError::WrongCount(1)));
}

#[test]
fn field_that_is_no_number_is_reported_first() {
    assert_eq!(CpuStat::parse("cpu  1 2 x 4 5 6 7 8 9 10"), Err(StatError::NotANumber(2)));
    assert_eq!(CpuStat::parse("cpu  1  2 3 4 5 6 7 8 9 10"), Err(StatError::NotANumber(1)));
    assert_eq!(CpuStat::parse("cpu  1 -2 3"), Err(StatError::NotANumber(1)));
    assert_eq!(CpuStat::parse("cpu   1 2 3"), Err(StatError::NotANumber(0)));
    assert_eq!(
        CpuStat::parse("cpu  1 2 3 4 5 6 7 8 9 18446744073709551616"),
        Err(StatError::NotANumber(9))
    );
    assert_eq!(
        CpuStat::parse("cpu  1 2 3 4 5 6 7 8 9 10 11 z"),
        Err(StatError::NotANumber(11))
    );
}

#[test]
fn lines_after_the_first_count_for_nothing() {
    let first = stat([1, 2, 3, 4, 5, 6, 7, 8, 9, 10]);
    assert_eq!(
        CpuStat::parse("cpu  1 2 3 4 5 6 7 8 9 10\ncpu0 9 9 9 9 9 9 9 9 9 9\nintr 7\n"),
        Ok(first)
    );
    assert_eq!(CpuStat::parse("cpu  1 2 3 4 5 6 7 8 9 10\nnot a line of counters"), Ok(first));
    assert_eq!(CpuStat::parse("cpu  1 2 3 4 5 6 7 8 9 10\n\n\n"), Ok(first));
    assert_eq!(
        CpuStat::parse("\ncpu  1 2 3 4 5 6 7 8 9 10\n"),
        Err(StatError::WrongCount(0))
    );
    assert_eq!(
        CpuStat::parse("cpu  1 2 3\n4 5 6 7 8 9 10\n"),
        Err(StatError::WrongCount(3))
    );
}

#[test]
fn sums_fit_where_the_total_is_within_sixty_four_bits() {
    assert!(stat([u64::MAX, 0, 0, 0, 0, 0, 0, 0, 0, 0]).sums_fit());
    assert!(stat([u64::MAX - 1, 0, 0, 0, 1, 0, 0, 0, 0, 0]).sums_fit());
    assert!(stat([0; 10]).sums_fit());
    assert!(!stat([u64::MAX, 0, 0, 0, 0, 0, 0, 0, 0, 1]).sums_fit());
    assert!(!stat([u64::MAX - 1, 0, 0, 1, 1, 0, 0, 0, 0, 0]).sums_fit());
    assert!(!stat([u64::MAX; 10]).sums_fit());
    let most = stat([u64::MAX - 1, 0, 0, 0, 1, 0, 0, 0, 0, 0]);
    assert_eq!(most.get_used(), u64::MAX - 1);
    assert_eq!(most.get_total(), u64::MAX);
}

#[test]
fn used_can_be_had_where_only_the_total_is_too_large() {
    let idle = stat([5, 0, 0, u64::MAX, 0, 0, 0, 0, 0, 0]);
    assert!(!idle.sums_fit());
    assert_eq!(idle.get_used(), 5);
}

#[test]
fn usage_since_an_earlier_reading() {
    let earlier = CpuStat::parse("cpu  100 0 50 800 50 0 0 0 0 0").unwrap();
    let later = CpuStat::parse("cpu  130 0 60 850 60 0 0 0 0 0").unwrap();
    assert_eq!(later.usage_since(&earlier), Some((40, 100)));
    assert_eq!(later.usage_since(&later), Some((0, 0)));
    assert_eq!(earlier.usage_since(&later), None);
    let idle_only = CpuStat::parse("cpu  90 0 50 900 50 0 0 0 0 0").unwrap();
    assert_eq!(idle_only.usage_since(&earlier), None);
}

#[test]
fn usage_is_not_had_from_sums_that_do_not_fit() {
    let fits = stat([1, 2, 3, 4, 5, 6, 7, 8, 9, 10]);
    let too_large = stat([u64::MAX, 0, 0, 0, 0, 0, 0, 0, 0, 1]);
    assert_eq!(too_large.usage_since(&fits), None);
    assert_eq!(fits.usage_since(&too_large), None);
    assert_eq!(too_large.usage_since(&too_large), None);
}
