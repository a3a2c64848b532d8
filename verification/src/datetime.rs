//! The composite date-time value: an 11-byte payload carrying local time
//! plus a UTC offset on the wire, while the in-memory value is the UTC
//! instant. Encoding always writes a zero offset and a zero decisecond, so
//! sub-second precision is deliberately lost on a round trip.

use vstd::prelude::*;
use crate::error::IppError;
use crate::traits::IppEncode;
use crate::wire::{be16, dec_u16_at, lemma_be16_round_trip, push_be16};

verus! {

/// A UTC instant, to decisecond precision. `minute` is always below 60;
/// the other fields hold whatever the wire carried.
#[derive(Debug, Clone, Copy, PartialEq, Eq, Structural)]
pub struct IppDateTime {
    pub year: u16,
    pub month: u8,
    pub day: u8,
    pub hour: u8,
    pub minute: u8,
    pub second: u8,
    pub decisecond: u8,
}

/// The same instant with the decisecond dropped, as encoding drops it.
pub open spec fn zero_decisecond(d: IppDateTime) -> IppDateTime {
    IppDateTime { decisecond: 0, ..d }
}

/// The wire form: length field 11, then year, month, day, hour, minute,
/// second, decisecond, and a zero UTC offset (`+00:00`). The value is
/// already UTC, so the offset written is zero and the decisecond zero.
pub open spec fn enc_datetime(d: IppDateTime) -> Seq<u8> {
    be16(11) + be16(d.year) + seq![d.month, d.day, d.hour, d.minute, d.second, 0u8, 0x2bu8, 0u8,
        0u8]
}

/// The UTC minute reconstructed from the wire's local minute and signed
/// offset. Only the minute field absorbs the offset, modulo one hour.
pub open spec fn utc_minute(minute: u8, sign: u8, off_hours: u8, off_minutes: u8) -> u8 {
    let mag = off_hours as int * 60 + off_minutes as int;
    if sign == 0x2d {
        ((minute as int - mag) % 60) as u8
    } else {
        ((minute as int + mag) % 60) as u8
    }
}

/// Decoding a date-time at `off`: 13 bytes are consumed. The declared
/// length field is not inspected; the payload size is fixed.
pub open spec fn dec_datetime(b: Seq<u8>, off: int) -> Result<(int, IppDateTime), IppError> {
    if 0 <= off && off + 13 <= b.len() {
        Ok(
            (
                13,
                IppDateTime {
                    year: dec_u16_at(b, off + 2),
                    month: b[off + 4],
                    day: b[off + 5],
                    hour: b[off + 6],
                    minute: utc_minute(b[off + 7], b[off + 10], b[off + 11], b[off + 12]),
                    second: b[off + 8],
                    decisecond: b[off + 9],
                },
            ),
        )
    } else {
        Err(IppError::MalformedBuffer)
    }
}

/// A date-time encodes faithfully when its minute is a real minute.
pub open spec fn wf_datetime(d: IppDateTime) -> bool {
    d.minute < 60
}

impl IppEncode for IppDateTime {
    type Model = IppDateTime;

    open spec fn model(&self) -> IppDateTime {
        *self
    }

    open spec fn wf(&self) -> bool {
        wf_datetime(*self)
    }

    open spec fn wire(&self) -> Seq<u8> {
        enc_datetime(*self)
    }

    open spec fn dec(b: Seq<u8>, off: int) -> Result<(int, IppDateTime), IppError> {
        dec_datetime(b, off)
    }

    fn from_ipp(bytes: &[u8], offset: usize) -> (r: Result<(usize, IppDateTime), IppError>) {
        let len = bytes.len();
        if offset > len || len - offset < 13 {
            return Err(IppError::MalformedBuffer);
        }
        let year = crate::wire::read_u16(bytes, offset + 2);
        let month = bytes[offset + 4];
        let day = bytes[offset + 5];
        let hour = bytes[offset + 6];
        let raw_minute = bytes[offset + 7];
        let second = bytes[offset + 8];
        let decisecond = bytes[offset + 9];
        let sign = bytes[offset + 10];
        let off_hours = bytes[offset + 11];
        let off_minutes = bytes[offset + 12];
        let minute = apply_offset(raw_minute, sign, off_hours, off_minutes);
        Ok((13, IppDateTime { year, month, day, hour, minute, second, decisecond }))
    }

    fn to_ipp(&self) -> (r: Vec<u8>) {
        let mut out: Vec<u8> = Vec::new();
        push_be16(&mut out, 11);
        push_be16(&mut out, self.year);
        out.push(self.month);
        out.push(self.day);
        out.push(self.hour);
        out.push(self.minute);
        out.push(self.second);
        out.push(0u8);
        out.push(0x2bu8);
        out.push(0u8);
        out.push(0u8);
        assert(out@ =~= enc_datetime(*self));
        out
    }

    fn ipp_len(&self) -> (r: usize) {
        13
    }
}

/// Shifts the wire's local minute by the signed offset, modulo one hour.
fn apply_offset(minute: u8, sign: u8, off_hours: u8, off_minutes: u8) -> (r: u8)
    ensures
        r == utc_minute(minute, sign, off_hours, off_minutes),
        r < 60,
{
    let mag: u32 = off_hours as u32 * 60 + off_minutes as u32;
    let shift: u32 = mag % 60;
    let r: u32 = if sign == 0x2d {
        let v = (minute as u32 + 60) - shift;
        proof {
            vstd::arithmetic::div_mod::lemma_mod_multiples_vanish(
                (1 + mag as int / 60) as int,
                minute as int - mag as int,
                60,
            );
            assert(mag as int - mag as int % 60 == 60 * (mag as int / 60)) by {
                vstd::arithmetic::div_mod::lemma_fundamental_div_mod(mag as int, 60);
            }
            assert((minute as int - mag as int) + 60 * (1 + mag as int / 60) == v as int);
        }
        v % 60
    } else {
        let v = minute as u32 + shift;
        proof {
            vstd::arithmetic::div_mod::lemma_mod_multiples_vanish(
                (mag as int / 60) as int,
                minute as int + mag as int % 60,
                60,
            );
            assert(mag as int % 60 + 60 * (mag as int / 60) == mag as int) by {
                vstd::arithmetic::div_mod::lemma_fundamental_div_mod(mag as int, 60);
            }
            assert((minute as int + mag as int % 60) + 60 * (mag as int / 60) == minute as int
                + mag as int);
        }
        v % 60
    };
    r as u8
}

/// Decoding the encoding of a UTC date-time recovers it to the second; the
/// decisecond field always reads back zero.
pub proof fn lemma_datetime_round_trip(d: IppDateTime, b: Seq<u8>, off: int)
    requires
        wf_datetime(d),
        0 <= off,
        off + 13 <= b.len(),
        b.subrange(off, off + 13) == enc_datetime(d),
    ensures
        dec_datetime(b, off) == Ok::<(int, IppDateTime), IppError>((13, zero_decisecond(d))),
{
    let w = enc_datetime(d);
    let head = be16(11) + be16(d.year);
    let tail = seq![d.month, d.day, d.hour, d.minute, d.second, 0u8, 0x2bu8, 0u8, 0u8];
    assert(w == head + tail);
    assert(head.len() == 4 && tail.len() == 9 && w.len() == 13);
    assert forall|k: int| 0 <= k < 13 implies b[off + k] == w[k] by {
        assert(b.subrange(off, off + 13)[k] == b[off + k]);
    }
    assert forall|j: int| 0 <= j < 9 implies w[4 + j] == tail[j] by {
        assert((head + tail)[4 + j] == tail[j]);
    }
    assert(b[off + 2] == w[2] && w[2] == head[2] && head[2] == be16(d.year)[0]);
    assert(b[off + 3] == w[3] && w[3] == head[3] && head[3] == be16(d.year)[1]);
    lemma_be16_round_trip(d.year, b, off + 2);
    assert(b[off + 4] == tail[0] && b[off + 5] == tail[1] && b[off + 6] == tail[2]);
    assert(b[off + 7] == tail[3] && b[off + 8] == tail[4] && b[off + 9] == tail[5]);
    assert(b[off + 10] == tail[6] && b[off + 11] == tail[7] && b[off + 12] == tail[8]);
    assert(utc_minute(d.minute, 0x2bu8, 0u8, 0u8) == ((d.minute as int + 0) % 60) as u8);
    assert(d.minute as int % 60 == d.minute as int) by {
        vstd::arithmetic::div_mod::lemma_small_mod(d.minute as nat, 60);
    }
    assert(dec_datetime(b, off) == Ok::<(int, IppDateTime), IppError>(
        (
            13,
            IppDateTime {
                year: d.year,
                month: d.month,
                day: d.day,
                hour: d.hour,
                minute: d.minute,
                second: d.second,
                decisecond: 0,
            },
        ),
    ));
}

} // verus!
