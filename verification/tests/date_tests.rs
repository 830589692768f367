use imgsorter::date::{capture_date, format_ymd, no_date_string};

#[test]
fn capture_date_formats_utc_date() {
    // 2021-06-05 00:00:00 UTC
    assert_eq!(capture_date(Some(1622851200)), "2021.06.05");
}

#[test]
fn capture_date_last_second_of_day() {
    // 2021-06-05 23:59:59 UTC still falls on the same date
    assert_eq!(capture_date(Some(1622851200 + 86399)), "2021.06.05");
}

#[test]
fn capture_date_start_of_2020() {
    // 2020-01-01 00:00:00 UTC
    assert_eq!(capture_date(Some(1577836800)), "2020.01.01");
}

#[test]
fn capture_date_missing_timestamp_is_sentinel() {
    assert_eq!(capture_date(None), "no date");
}

#[test]
fn capture_date_before_epoch() {
    // one day before the epoch
    assert_eq!(capture_date(Some(-86400)), "1969.12.31");
}

#[test]
fn capture_date_out_of_range_is_sentinel() {
    assert_eq!(capture_date(Some(i64::MAX)), "no date");
    assert_eq!(capture_date(Some(i64::MIN)), "no date");
}

#[test]
fn format_ymd_pads_each_part() {
    assert_eq!(format_ymd(987, 6, 5), "0987.06.05");
    assert_eq!(format_ymd(2021, 12, 31), "2021.12.31");
}

#[test]
fn format_ymd_years_outside_four_digits_carry_a_sign() {
    assert_eq!(format_ymd(-5, 1, 2), "-0005.01.02");
    assert_eq!(format_ymd(10000, 1, 2), "+10000.01.02");
}

#[test]
fn no_date_string_is_the_sentinel() {
    assert_eq!(no_date_string(), "no date");
}
