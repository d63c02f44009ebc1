//! The packed date-time encoding: five bytes holding year (14 bits),
//! month (4), day (5), hour (5), minute (6) and second (6), most significant
//! bits first, unpacked and rendered as a canonical display string.

use vstd::prelude::*;

use crate::parser::Error;
use crate::strutil::push_char;
use crate::strutil::dec_digit;
use crate::strutil::spec_dec_digit;

verus! {

/// Calendar date as (year, month, day).
pub type DateTuple = (u16, u8, u8);

/// Time of day as (hour, minute, second).
pub type TimeTuple = (u8, u8, u8);

/// A full date-time, date part first.
pub type DateTimeTuple = (DateTuple, TimeTuple);

/// The six bit fields held by a 5-byte packed date-time.
pub open spec fn spec_unpack_datetime(b: Seq<u8>) -> DateTimeTuple
    recommends
        b.len() == 5,
{
    (
        (
            ((b[0] as u16) << 6) | ((b[1] as u16) >> 2),
            ((b[1] & 0b11) << 2) | (b[2] >> 6),
            (b[2] >> 1) & 0b00011111,
        ),
        (
            ((b[2] & 0b1) << 4) | (b[3] >> 4),
            ((b[3] & 0b00001111) << 2) | (b[4] >> 6),
            b[4] & 0b00111111,
        ),
    )
}

/// The 5-byte packing of six field values, each within its bit width.
pub open spec fn spec_pack_datetime(
    year: u16,
    month: u8,
    day: u8,
    hour: u8,
    minute: u8,
    sec: u8,
) -> Seq<u8>
    recommends
        year < 16384,
        month < 16,
        day < 32,
        hour < 32,
        minute < 64,
        sec < 64,
{
    seq![
        (year >> 6) as u8,
        (((year & 0x3f) << 2) as u8) | (month >> 2),
        ((month & 0b11) << 6) | ((day & 0x1f) << 1) | (hour >> 4),
        ((hour & 0x0f) << 4) | (minute >> 2),
        ((minute & 0b11) << 6) | (sec & 0x3f),
    ]
}

/// Unpacking inverts packing: for any six values within their bit widths,
/// packing them into five bytes and unpacking those bytes yields the same six
/// values back.
pub proof fn lemma_datetime_pack_unpack(
    year: u16,
    month: u8,
    day: u8,
    hour: u8,
    minute: u8,
    sec: u8,
)
    requires
        year < 16384,
        month < 16,
        day < 32,
        hour < 32,
        minute < 64,
        sec < 64,
    ensures
        spec_unpack_datetime(spec_pack_datetime(year, month, day, hour, minute, sec)) == ((
            (year, month, day),
            (hour, minute, sec),
        )),
{
    let b = spec_pack_datetime(year, month, day, hour, minute, sec);
    let b0 = (year >> 6) as u8;
    let b1 = (((year & 0x3f) << 2) as u8) | (month >> 2);
    let b2 = ((month & 0b11) << 6) | ((day & 0x1f) << 1) | (hour >> 4);
    let b3 = ((hour & 0x0f) << 4) | (minute >> 2);
    let b4 = ((minute & 0b11) << 6) | (sec & 0x3f);
    assert(b[0] == b0 && b[1] == b1 && b[2] == b2 && b[3] == b3 && b[4] == b4);
    assert(((b0 as u16) << 6) | ((b1 as u16) >> 2) == year) by (bit_vector)
        requires
            b0 == (year >> 6) as u8,
            b1 == (((year & 0x3f) << 2) as u8) | (month >> 2),
            year < 16384,
            month < 16,
    ;
    assert(((b1 & 0b11) << 2) | (b2 >> 6) == month) by (bit_vector)
        requires
            b1 == (((year & 0x3f) << 2) as u8) | (month >> 2),
            b2 == ((month & 0b11) << 6) | ((day & 0x1f) << 1) | (hour >> 4),
            month < 16,
            day < 32,
            hour < 32,
    ;
    assert((b2 >> 1) & 0b00011111 == day) by (bit_vector)
        requires
            b2 == ((month & 0b11) << 6) | ((day & 0x1f) << 1) | (hour >> 4),
            day < 32,
            hour < 32,
    ;
    assert(((b2 & 0b1) << 4) | (b3 >> 4) == hour) by (bit_vector)
        requires
            b2 == ((month & 0b11) << 6) | ((day & 0x1f) << 1) | (hour >> 4),
            b3 == ((hour & 0x0f) << 4) | (minute >> 2),
            hour < 32,
            minute < 64,
    ;
    assert(((b3 & 0b00001111) << 2) | (b4 >> 6) == minute) by (bit_vector)
        requires
            b3 == ((hour & 0x0f) << 4) | (minute >> 2),
            b4 == ((minute & 0b11) << 6) | (sec & 0x3f),
            minute < 64,
            sec < 64,
    ;
    assert(b4 & 0b00111111 == sec) by (bit_vector)
        requires
            b4 == ((minute & 0b11) << 6) | (sec & 0x3f),
            sec < 64,
    ;
}

/// Packing inverts unpacking: the six fields of any five packed bytes,
/// packed again, give the same five bytes. Together with
/// [`lemma_datetime_pack_unpack`] this makes the packing a two-way bijection
/// between 5-byte strings and field values within their bit widths.
pub proof fn lemma_datetime_unpack_pack(b: Seq<u8>)
    requires
        b.len() == 5,
    ensures
        ({
            let dt = spec_unpack_datetime(b);
            spec_pack_datetime(dt.0.0, dt.0.1, dt.0.2, dt.1.0, dt.1.1, dt.1.2) == b
        }),
{
    let b0 = b[0];
    let b1 = b[1];
    let b2 = b[2];
    let b3 = b[3];
    let b4 = b[4];
    let year = ((b0 as u16) << 6) | ((b1 as u16) >> 2);
    let month = ((b1 & 0b11) << 2) | (b2 >> 6);
    let day = (b2 >> 1) & 0b00011111;
    let hour = ((b2 & 0b1) << 4) | (b3 >> 4);
    let minute = ((b3 & 0b00001111) << 2) | (b4 >> 6);
    let sec = b4 & 0b00111111;
    let p = spec_pack_datetime(year, month, day, hour, minute, sec);
    assert((year >> 6) as u8 == b0) by (bit_vector)
        requires
            year == ((b0 as u16) << 6) | ((b1 as u16) >> 2),
    ;
    assert((((year & 0x3f) << 2) as u8) | (month >> 2) == b1) by (bit_vector)
        requires
            year == ((b0 as u16) << 6) | ((b1 as u16) >> 2),
            month == ((b1 & 0b11) << 2) | (b2 >> 6),
    ;
    assert(((month & 0b11) << 6) | ((day & 0x1f) << 1) | (hour >> 4) == b2) by (bit_vector)
        requires
            month == ((b1 & 0b11) << 2) | (b2 >> 6),
            day == (b2 >> 1) & 0b00011111,
            hour == ((b2 & 0b1) << 4) | (b3 >> 4),
    ;
    assert(((hour & 0x0f) << 4) | (minute >> 2) == b3) by (bit_vector)
        requires
            hour == ((b2 & 0b1) << 4) | (b3 >> 4),
            minute == ((b3 & 0b00001111) << 2) | (b4 >> 6),
    ;
    assert(((minute & 0b11) << 6) | (sec & 0x3f) == b4) by (bit_vector)
        requires
            minute == ((b3 & 0b00001111) << 2) | (b4 >> 6),
            sec == b4 & 0b00111111,
    ;
    assert(p =~= b);
}

/// Every unpacked field lies within its bit width.
pub proof fn lemma_unpack_datetime_in_range(b: Seq<u8>)
    requires
        b.len() == 5,
    ensures
        spec_unpack_datetime(b).0.0 < 16384,
        spec_unpack_datetime(b).0.1 < 16,
        spec_unpack_datetime(b).0.2 < 32,
        spec_unpack_datetime(b).1.0 < 32,
        spec_unpack_datetime(b).1.1 < 64,
        spec_unpack_datetime(b).1.2 < 64,
{
    let b0 = b[0];
    let b1 = b[1];
    let b2 = b[2];
    let b3 = b[3];
    let b4 = b[4];
    assert(((b0 as u16) << 6) | ((b1 as u16) >> 2) < 16384) by (bit_vector);
    assert(((b1 & 0b11) << 2) | (b2 >> 6) < 16) by (bit_vector);
    assert((b2 >> 1) & 0b00011111 < 32) by (bit_vector);
    assert(((b2 & 0b1) << 4) | (b3 >> 4) < 32) by (bit_vector);
    assert(((b3 & 0b00001111) << 2) | (b4 >> 6) < 64) by (bit_vector);
    assert(b4 & 0b00111111 < 64) by (bit_vector);
}

/// Unpack a 5-byte packed date-time into its six bit fields.
pub fn parse_datetime(b: &[u8]) -> (r: DateTimeTuple)
    requires
        b@.len() == 5,
    ensures
        r == spec_unpack_datetime(b@),
{
    let b0 = *vstd::slice::slice_index_get(b, 0);
    let b1 = *vstd::slice::slice_index_get(b, 1);
    let b2 = *vstd::slice::slice_index_get(b, 2);
    let b3 = *vstd::slice::slice_index_get(b, 3);
    let b4 = *vstd::slice::slice_index_get(b, 4);
    proof {
        assert(((b0 as u16) << 6) <= 0x3FC0 && ((b1 as u16) >> 2) <= 0x3F) by (bit_vector);
        assert(((b0 as u16) << 6) + ((b1 as u16) >> 2) == ((b0 as u16) << 6) | ((b1 as u16)
            >> 2)) by (bit_vector);
        assert(((b1 & 0b11) << 2) + (b2 >> 6) == ((b1 & 0b11) << 2) | (b2 >> 6)
            && ((b1 & 0b11) << 2) + (b2 >> 6) < 256) by (bit_vector);
        assert(((b2 & 0b1) << 4) + (b3 >> 4) == ((b2 & 0b1) << 4) | (b3 >> 4)
            && ((b2 & 0b1) << 4) + (b3 >> 4) < 256) by (bit_vector);
        assert(((b3 & 0b00001111) << 2) + (b4 >> 6) == ((b3 & 0b00001111) << 2) | (b4 >> 6)
            && ((b3 & 0b00001111) << 2) + (b4 >> 6) < 256) by (bit_vector);
    }
    let year: u16 = ((b0 as u16) << 6) + ((b1 as u16) >> 2);
    let month: u8 = ((b1 & 0b11) << 2) + (b2 >> 6);
    let day: u8 = (b2 >> 1) & 0b00011111;
    let hour: u8 = ((b2 & 0b1) << 4) + (b3 >> 4);
    let minute: u8 = ((b3 & 0b00001111) << 2) + (b4 >> 6);
    let sec: u8 = b4 & 0b00111111;
    ((year, month, day), (hour, minute, sec))
}

/// Unpack a packed date-time that arrived as a field payload; fails with
/// `InvalidDateTime` unless the payload is exactly five bytes.
pub fn parse_datetime_slice(b: &[u8]) -> (r: Result<DateTimeTuple, Error>)
    ensures
        b@.len() == 5 ==> r == Ok::<DateTimeTuple, Error>(spec_unpack_datetime(b@)),
        b@.len() != 5 ==> r == Err::<DateTimeTuple, Error>(Error::InvalidDateTime {
            field_size: b@.len() as u32,
        }),
{
    if b.len() != 5 {
        return Err(Error::InvalidDateTime { field_size: b.len() as u32 });
    }
    Ok(parse_datetime(b))
}

/// Two decimal digits, zero padded.
pub open spec fn spec_dec2(v: int) -> Seq<char>
    recommends
        0 <= v < 100,
{
    seq![spec_dec_digit(v / 10), spec_dec_digit(v % 10)]
}

/// At least four decimal digits, zero padded; five-digit values keep all
/// five digits.
pub open spec fn spec_dec4(v: int) -> Seq<char>
    recommends
        0 <= v < 100000,
{
    if v < 10000 {
        seq![
            spec_dec_digit(v / 1000),
            spec_dec_digit(v / 100 % 10),
            spec_dec_digit(v / 10 % 10),
            spec_dec_digit(v % 10),
        ]
    } else {
        seq![
            spec_dec_digit(v / 10000),
            spec_dec_digit(v / 1000 % 10),
            spec_dec_digit(v / 100 % 10),
            spec_dec_digit(v / 10 % 10),
            spec_dec_digit(v % 10),
        ]
    }
}

/// The canonical display form of a date-time: "2017-10-23 18:18:12".
pub open spec fn spec_format_datetime(dt: DateTimeTuple) -> Seq<char> {
    spec_dec4(dt.0.0 as int) + seq!['-'] + spec_dec2(dt.0.1 as int) + seq!['-'] + spec_dec2(
        dt.0.2 as int,
    ) + seq![' '] + spec_dec2(dt.1.0 as int) + seq![':'] + spec_dec2(dt.1.1 as int) + seq![':']
        + spec_dec2(dt.1.2 as int)
}

/// Appends two zero-padded decimal digits.
fn push_dec2(s: &mut String, v: u8)
    requires
        v < 100,
    ensures
        final(s)@ == old(s)@ + spec_dec2(v as int),
{
    push_char(s, dec_digit(v / 10));
    push_char(s, dec_digit(v % 10));
    proof {
        assert(s@ =~= old(s)@ + spec_dec2(v as int));
    }
}

/// Appends four zero-padded decimal digits, or five for values past 9999.
fn push_dec4(s: &mut String, v: u16)
    ensures
        final(s)@ == old(s)@ + spec_dec4(v as int),
{
    if v < 10000 {
        push_char(s, dec_digit((v / 1000) as u8));
        push_char(s, dec_digit((v / 100 % 10) as u8));
        push_char(s, dec_digit((v / 10 % 10) as u8));
        push_char(s, dec_digit((v % 10) as u8));
    } else {
        push_char(s, dec_digit((v / 10000) as u8));
        push_char(s, dec_digit((v / 1000 % 10) as u8));
        push_char(s, dec_digit((v / 100 % 10) as u8));
        push_char(s, dec_digit((v / 10 % 10) as u8));
        push_char(s, dec_digit((v % 10) as u8));
    }
    proof {
        assert(s@ =~= old(s)@ + spec_dec4(v as int));
    }
}

/// Render a date-time tuple the canonical way: "2017-10-23 18:18:12".
pub fn format_date_time(dt: &DateTimeTuple) -> (r: String)
    requires
        dt.0.1 < 100,
        dt.0.2 < 100,
        dt.1.0 < 100,
        dt.1.1 < 100,
        dt.1.2 < 100,
    ensures
        r@ == spec_format_datetime(*dt),
{
    let mut s = String::new();
    push_dec4(&mut s, dt.0.0);
    push_char(&mut s, '-');
    push_dec2(&mut s, dt.0.1);
    push_char(&mut s, '-');
    push_dec2(&mut s, dt.0.2);
    push_char(&mut s, ' ');
    push_dec2(&mut s, dt.1.0);
    push_char(&mut s, ':');
    push_dec2(&mut s, dt.1.1);
    push_char(&mut s, ':');
    push_dec2(&mut s, dt.1.2);
    proof {
        assert(s@ =~= spec_format_datetime(*dt));
    }
    s
}

} // verus!
