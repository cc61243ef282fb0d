//! Encoding a calendar timestamp into the packed pair and decoding it back.
use vstd::prelude::*;
use vstd::wrapping::u16_specs;

use crate::calendar::CalendarTimestamp;
use crate::packed::{lemma_pack_date, lemma_pack_time, lemma_unpack_repack, MsDosDateTime};

verus! {

/// Date half of the packed form of `t`, bit for bit, for any field values:
/// `((year - 1980) << 9) | (month << 5) | day`, each term cut to 16 bits.
pub open spec fn date_bits(t: CalendarTimestamp) -> u16 {
    let year = #[verifier::truncate] (t.year as u16);
    let month = #[verifier::truncate] (t.month as u16);
    let day = #[verifier::truncate] (t.day as u16);
    (u16_specs::wrapping_sub(year, 1980u16) << 9u16) | (month << 5u16) | day
}

/// Time half of the packed form of `t`, bit for bit, for any field values:
/// `(hour << 11) | (minute << 5) | (second / 2)`, each term cut to 16 bits.
pub open spec fn time_bits(t: CalendarTimestamp) -> u16 {
    let hour = #[verifier::truncate] (t.hour as u16);
    let minute = #[verifier::truncate] (t.minute as u16);
    let second = #[verifier::truncate] (t.second as u16);
    (hour << 11u16) | (minute << 5u16) | ((second / 2) as u16)
}

/// The packed form of `t`.
pub open spec fn encoded(t: CalendarTimestamp) -> MsDosDateTime {
    MsDosDateTime { timepart: time_bits(t), datepart: date_bits(t) }
}

/// The calendar fields that the bit fields of `ms` spell out, before any
/// check that they form a real date.
pub open spec fn unpacked(ms: MsDosDateTime) -> CalendarTimestamp {
    CalendarTimestamp {
        year: (1980 + ms.year_offset()) as i32,
        month: ms.month_field() as i32,
        day: ms.day_field() as i32,
        hour: ms.hour_field() as i32,
        minute: ms.minute_field() as i32,
        second: (2 * ms.half_second_field()) as i32,
    }
}

/// What `ms` decodes to: nothing for the all-zero pair or for fields that do
/// not form a real date and time of day, else those fields.
pub open spec fn decoded(ms: MsDosDateTime) -> Option<CalendarTimestamp> {
    if ms.is_unset() {
        None
    } else if unpacked(ms).is_valid() {
        Some(unpacked(ms))
    } else {
        None
    }
}

/// Packs `tm` into the MS-DOS date/time pair. No range check is made: fields
/// beyond their widths are cut to 16 bits and overlap. For a representable
/// timestamp each field lands in its own bit range.
pub fn tm_to_msdos(tm: &CalendarTimestamp) -> (r: MsDosDateTime)
    ensures
        r == encoded(*tm),
        tm.is_dos_representable() ==> {
            &&& r.datepart == (tm.year - 1980) * 512 + tm.month * 32 + tm.day
            &&& r.timepart == tm.hour * 2048 + tm.minute * 32 + tm.second / 2
        },
{
    let year_offset: u16 = (#[verifier::truncate] (tm.year as u16)).wrapping_sub(1980);
    let month: u16 = #[verifier::truncate] (tm.month as u16);
    let day: u16 = #[verifier::truncate] (tm.day as u16);
    let hour: u16 = #[verifier::truncate] (tm.hour as u16);
    let minute: u16 = #[verifier::truncate] (tm.minute as u16);
    let half_seconds: u16 = (#[verifier::truncate] (tm.second as u16)) / 2;
    let datepart: u16 = (year_offset << 9u16) | (month << 5u16) | day;
    let timepart: u16 = (hour << 11u16) | (minute << 5u16) | half_seconds;
    proof {
        if tm.is_dos_representable() {
            lemma_pack_date(year_offset, month, day);
            lemma_pack_time(hour, minute, half_seconds);
        }
    }
    MsDosDateTime { timepart, datepart }
}

/// Unpacks an MS-DOS date/time pair. Gives nothing for the all-zero pair,
/// which marks an unset timestamp, and for fields that do not form a real
/// date and time of day (month 0 or 13, day 31 in April, hour 24, ...).
pub fn msdos_to_tm(ms: MsDosDateTime) -> (r: Option<CalendarTimestamp>)
    ensures
        r == decoded(ms),
{
    if ms.datepart == 0 && ms.timepart == 0 {
        return None;
    }
    let year_offset: u16 = ms.datepart >> 9u16;
    let month: u16 = (ms.datepart >> 5u16) & 0xf;
    let day: u16 = ms.datepart & 0x1f;
    let hour: u16 = ms.timepart >> 11u16;
    let minute: u16 = (ms.timepart >> 5u16) & 0x3f;
    let half_seconds: u16 = ms.timepart & 0x1f;
    proof {
        lemma_unpack_repack(ms);
    }
    CalendarTimestamp::from_fields(
        1980 + year_offset as i32,
        month as i32,
        day as i32,
        hour as i32,
        minute as i32,
        2 * half_seconds as i32,
    )
}

/// Conversion between a calendar type and the packed MS-DOS pair.
pub trait TmMsDosExt: Sized {
    /// The packed form of `self`.
    fn to_msdos(&self) -> MsDosDateTime;

    /// The timestamp that `ms` stands for, if any.
    fn from_msdos(ms: MsDosDateTime) -> Option<Self>;
}

impl TmMsDosExt for CalendarTimestamp {
    fn to_msdos(&self) -> (r: MsDosDateTime)
        ensures
            r == encoded(*self),
    {
        tm_to_msdos(self)
    }

    fn from_msdos(ms: MsDosDateTime) -> (r: Option<CalendarTimestamp>)
        ensures
            r == decoded(ms),
    {
        msdos_to_tm(ms)
    }
}

} // verus!
