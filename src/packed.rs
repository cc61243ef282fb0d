//! The packed MS-DOS date/time pair and the bit fields it holds.
use vstd::prelude::*;

verus! {

/// A packed MS-DOS timestamp: two 16-bit halves with no validation of their
/// own.
///
/// `timepart`: bits 15..11 hour, bits 10..5 minute, bits 4..0 seconds / 2.
/// `datepart`: bits 15..9 years since 1980, bits 8..5 month, bits 4..0 day.
#[derive(Clone, Copy, Debug, PartialEq, Eq, Structural)]
pub struct MsDosDateTime {
    pub timepart: u16,
    pub datepart: u16,
}

impl MsDosDateTime {
    /// Builds the pair from its time half and its date half.
    pub fn new(time: u16, date: u16) -> (r: MsDosDateTime)
        ensures
            r.timepart == time,
            r.datepart == date,
    {
        MsDosDateTime { timepart: time, datepart: date }
    }

    /// The all-zero pair, which stands for "no timestamp".
    pub open spec fn is_unset(self) -> bool {
        self.datepart == 0 && self.timepart == 0
    }

    /// Years since 1980 (0 to 127).
    pub open spec fn year_offset(self) -> u16 {
        self.datepart >> 9u16
    }

    /// Month field (0 to 15).
    pub open spec fn month_field(self) -> u16 {
        (self.datepart >> 5u16) & 0xfu16
    }

    /// Day field (0 to 31).
    pub open spec fn day_field(self) -> u16 {
        self.datepart & 0x1fu16
    }

    /// Hour field (0 to 31).
    pub open spec fn hour_field(self) -> u16 {
        self.timepart >> 11u16
    }

    /// Minute field (0 to 63).
    pub open spec fn minute_field(self) -> u16 {
        (self.timepart >> 5u16) & 0x3fu16
    }

    /// Seconds divided by two (0 to 31).
    pub open spec fn half_second_field(self) -> u16 {
        self.timepart & 0x1fu16
    }
}

/// Packing three fields that fit their widths (7, 4 and 5 bits) lays them
/// side by side: the value is their weighted sum, and each can be read back.
pub proof fn lemma_pack_date(y: u16, m: u16, d: u16)
    requires
        y < 128,
        m < 16,
        d < 32,
    ensures
        ({
            let dp = (y << 9u16) | (m << 5u16) | d;
            &&& dp == y * 512 + m * 32 + d
            &&& dp >> 9u16 == y
            &&& (dp >> 5u16) & 0xfu16 == m
            &&& dp & 0x1fu16 == d
        }),
{
    assert(y < 128 && m < 16 && d < 32 ==> ({
        let dp = (y << 9u16) | (m << 5u16) | d;
        &&& dp == y * 512 + m * 32 + d
        &&& dp >> 9u16 == y
        &&& (dp >> 5u16) & 0xfu16 == m
        &&& dp & 0x1fu16 == d
    })) by (bit_vector);
}

/// Packing three fields that fit their widths (5, 6 and 5 bits) lays them
/// side by side: the value is their weighted sum, and each can be read back.
pub proof fn lemma_pack_time(h: u16, mi: u16, s: u16)
    requires
        h < 32,
        mi < 64,
        s < 32,
    ensures
        ({
            let tp = (h << 11u16) | (mi << 5u16) | s;
            &&& tp == h * 2048 + mi * 32 + s
            &&& tp >> 11u16 == h
            &&& (tp >> 5u16) & 0x3fu16 == mi
            &&& tp & 0x1fu16 == s
        }),
{
    assert(h < 32 && mi < 64 && s < 32 ==> ({
        let tp = (h << 11u16) | (mi << 5u16) | s;
        &&& tp == h * 2048 + mi * 32 + s
        &&& tp >> 11u16 == h
        &&& (tp >> 5u16) & 0x3fu16 == mi
        &&& tp & 0x1fu16 == s
    })) by (bit_vector);
}

/// The fields read out of a pair fit their widths and pack back to it.
pub proof fn lemma_unpack_repack(ms: MsDosDateTime)
    ensures
        ms.year_offset() < 128,
        ms.month_field() < 16,
        ms.day_field() < 32,
        ms.hour_field() < 32,
        ms.minute_field() < 64,
        ms.half_second_field() < 32,
        (ms.year_offset() << 9u16) | (ms.month_field() << 5u16) | ms.day_field() == ms.datepart,
        (ms.hour_field() << 11u16) | (ms.minute_field() << 5u16) | ms.half_second_field()
            == ms.timepart,
{
    let dp = ms.datepart;
    let tp = ms.timepart;
    assert(dp >> 9u16 < 128 && (dp >> 5u16) & 0xfu16 < 16 && dp & 0x1fu16 < 32) by (bit_vector);
    assert(tp >> 11u16 < 32 && (tp >> 5u16) & 0x3fu16 < 64 && tp & 0x1fu16 < 32) by (bit_vector);
    assert(((dp >> 9u16) << 9u16) | (((dp >> 5u16) & 0xfu16) << 5u16) | (dp & 0x1fu16) == dp)
        by (bit_vector);
    assert(((tp >> 11u16) << 11u16) | (((tp >> 5u16) & 0x3fu16) << 5u16) | (tp & 0x1fu16) == tp)
        by (bit_vector);
}

} // verus!
