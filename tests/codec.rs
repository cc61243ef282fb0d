use msdos_time::calendar::{leap_year, month_length};
use msdos_time::{msdos_to_tm, tm_to_msdos, CalendarTimestamp, MsDosDateTime, TmMsDosExt};

fn stamp(year: i32, month: i32, day: i32, hour: i32, minute: i32, second: i32) -> CalendarTimestamp {
    CalendarTimestamp { year, month, day, hour, minute, second }
}

#[test]
fn dos_zero() {
    // The all-zero pair is not a date.
    assert!(CalendarTimestamp::from_msdos(MsDosDateTime::new(0, 0)).is_none());
}

#[test]
fn dos_smallest() {
    let tm = CalendarTimestamp::from_msdos(MsDosDateTime::new(0, 0b100001)).unwrap();
    assert_eq!(tm.day, 1);
    assert_eq!(tm.month, 1);
    assert_eq!(tm.year, 1980);
    assert_eq!(tm.hour, 0);
    assert_eq!(tm.minute, 0);
    assert_eq!(tm.second, 0);
}

#[test]
fn dos_today() {
    let tm = CalendarTimestamp::from_msdos(MsDosDateTime::new(
        0b01001_100000_10101,
        0b0100011_0110_11110,
    ))
    .unwrap();
    assert_eq!(tm.day, 30);
    assert_eq!(tm.month, 6);
    assert_eq!(tm.year, 2015);
    assert_eq!(tm.hour, 9);
    assert_eq!(tm.minute, 32);
    assert_eq!(tm.second, 42);
}

#[test]
fn zero_dos() {
    let tm = stamp(1980, 1, 1, 0, 0, 0);
    let ms = tm.to_msdos();
    assert_eq!(ms.datepart, 0b100001);
    assert_eq!(ms.timepart, 0);
}

#[test]
fn today_dos() {
    let tm = stamp(2015, 6, 30, 9, 32, 42);
    let ms = tm.to_msdos();
    assert_eq!(ms.datepart, 0b0100011_0110_11110);
    assert_eq!(ms.timepart, 0b01001_100000_10101);
}

#[test]
fn new_keeps_halves() {
    let ms = MsDosDateTime::new(0x1234, 0xabcd);
    assert_eq!(ms.timepart, 0x1234);
    assert_eq!(ms.datepart, 0xabcd);
}

#[test]
fn free_functions_agree_with_trait() {
    let t = stamp(2001, 12, 31, 23, 59, 58);
    assert_eq!(tm_to_msdos(&t), t.to_msdos());
    let ms = t.to_msdos();
    assert_eq!(msdos_to_tm(ms), CalendarTimestamp::from_msdos(ms));
}

#[test]
fn round_trip_drops_odd_second() {
    let t = stamp(2015, 6, 30, 9, 32, 43);
    let back = msdos_to_tm(tm_to_msdos(&t)).unwrap();
    assert_eq!(back, stamp(2015, 6, 30, 9, 32, 42));
}

#[test]
fn round_trip_even_second_is_exact() {
    let t = stamp(2107, 12, 31, 23, 59, 58);
    assert_eq!(msdos_to_tm(tm_to_msdos(&t)), Some(t));
}

#[test]
fn reencode_gives_same_bits() {
    let t = stamp(1999, 2, 28, 13, 7, 59);
    let first = tm_to_msdos(&t);
    let again = tm_to_msdos(&msdos_to_tm(first).unwrap());
    assert_eq!(first, again);
}

#[test]
fn largest_representable() {
    let ms = tm_to_msdos(&stamp(2107, 12, 31, 23, 59, 58));
    assert_eq!(ms.datepart, (127 << 9) | (12 << 5) | 31);
    assert_eq!(ms.timepart, (23 << 11) | (59 << 5) | 29);
}

#[test]
fn encode_year_below_range_wraps() {
    // 1979 - 1980 wraps to 0xffff, of which bits 15..9 survive the shift.
    let ms = tm_to_msdos(&stamp(1979, 1, 1, 0, 0, 0));
    assert_eq!(ms.datepart, 0xfe00 | (1 << 5) | 1);
}

#[test]
fn encode_year_above_range_wraps() {
    // An offset of 128 no longer fits seven bits and is shifted out.
    let ms = tm_to_msdos(&stamp(2108, 3, 4, 0, 0, 0));
    assert_eq!(ms.datepart, (3 << 5) | 4);
}

#[test]
fn decode_rejects_month_thirteen() {
    assert_eq!(msdos_to_tm(MsDosDateTime::new(0, (13 << 5) | 1)), None);
}

#[test]
fn decode_rejects_month_zero() {
    assert_eq!(msdos_to_tm(MsDosDateTime::new(0, 1)), None);
}

#[test]
fn decode_rejects_day_zero() {
    assert_eq!(msdos_to_tm(MsDosDateTime::new(0, 1 << 5)), None);
}

#[test]
fn decode_rejects_hour_twenty_four() {
    assert_eq!(msdos_to_tm(MsDosDateTime::new(24 << 11, 0b100001)), None);
}

#[test]
fn decode_rejects_minute_sixty() {
    assert_eq!(msdos_to_tm(MsDosDateTime::new(60 << 5, 0b100001)), None);
}

#[test]
fn decode_rejects_second_sixty() {
    assert_eq!(msdos_to_tm(MsDosDateTime::new(30, 0b100001)), None);
}

#[test]
fn decode_leap_day() {
    // 2016 is a leap year, 2015 and 2100 are not, 2000 is.
    let feb29 = |offset: u16| MsDosDateTime::new(0, (offset << 9) | (2 << 5) | 29);
    assert_eq!(msdos_to_tm(feb29(36)), Some(stamp(2016, 2, 29, 0, 0, 0)));
    assert_eq!(msdos_to_tm(feb29(35)), None);
    assert_eq!(msdos_to_tm(feb29(120)), None);
    assert_eq!(msdos_to_tm(feb29(20)), Some(stamp(2000, 2, 29, 0, 0, 0)));
}

#[test]
fn decode_rejects_april_thirty_first() {
    assert_eq!(msdos_to_tm(MsDosDateTime::new(0, (4 << 5) | 31)), None);
    assert!(msdos_to_tm(MsDosDateTime::new(0, (4 << 5) | 30)).is_some());
}

#[test]
fn decode_time_only_with_zero_date_is_rejected() {
    // Date bits of zero give month 0, which is no date.
    assert_eq!(msdos_to_tm(MsDosDateTime::new(1, 0)), None);
}

#[test]
fn from_fields_checks_the_date() {
    assert_eq!(CalendarTimestamp::from_fields(2015, 6, 30, 9, 32, 42), Some(stamp(2015, 6, 30, 9, 32, 42)));
    assert_eq!(CalendarTimestamp::from_fields(2015, 6, 31, 9, 32, 42), None);
    assert!(stamp(2024, 2, 29, 0, 0, 0).check_valid());
    assert!(!stamp(2023, 2, 29, 0, 0, 0).check_valid());
}

#[test]
fn month_lengths() {
    assert!(leap_year(2000));
    assert!(!leap_year(1900));
    assert!(leap_year(1996));
    assert!(!leap_year(1997));
    assert_eq!(month_length(1900, 2), 28);
    assert_eq!(month_length(2000, 2), 29);
    assert_eq!(month_length(2001, 9), 30);
    assert_eq!(month_length(2001, 10), 31);
}
