//! Laws that relate encoding and decoding.
use vstd::prelude::*;

use crate::calendar::CalendarTimestamp;
use crate::codec::{decoded, encoded, unpacked};
use crate::packed::{lemma_pack_date, lemma_pack_time, lemma_unpack_repack, MsDosDateTime};

verus! {

/// `t` with its seconds rounded down to an even number: the precision that
/// the packed format keeps.
pub open spec fn with_even_second(t: CalendarTimestamp) -> CalendarTimestamp {
    CalendarTimestamp { second: (t.second / 2 * 2) as i32, ..t }
}

/// Encoding a valid timestamp of the years 1980 to 2107 and decoding the
/// result gives back the same year, month, day, hour and minute, and the
/// second rounded down to an even number.
pub proof fn lemma_round_trip(t: CalendarTimestamp)
    requires
        t.is_dos_representable(),
    ensures
        decoded(encoded(t)) == Some(with_even_second(t)),
{
    let ms = encoded(t);
    lemma_pack_date((t.year - 1980) as u16, t.month as u16, t.day as u16);
    lemma_pack_time(t.hour as u16, t.minute as u16, (t.second / 2) as u16);
    assert(!ms.is_unset());
    assert(unpacked(ms) == with_even_second(t));
}

/// Whatever a pair decodes to encodes back to that same pair.
pub proof fn lemma_decode_then_encode(ms: MsDosDateTime)
    ensures
        decoded(ms) matches Some(u) ==> encoded(u) == ms,
{
    lemma_unpack_repack(ms);
    let u = unpacked(ms);
    assert(u.second / 2 == ms.half_second_field());
    assert(encoded(u) == ms);
}

/// Encoding, decoding and encoding again gives the bit pattern of the first
/// encoding; for a valid timestamp of the years 1980 to 2107 the decoding in
/// the middle always succeeds.
pub proof fn lemma_reencode(t: CalendarTimestamp)
    ensures
        decoded(encoded(t)) matches Some(u) ==> encoded(u) == encoded(t),
        t.is_dos_representable() ==> decoded(encoded(t)) is Some,
{
    lemma_decode_then_encode(encoded(t));
    if t.is_dos_representable() {
        lemma_round_trip(t);
    }
}

} // verus!
