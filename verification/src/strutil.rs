//! Text helpers: decoding raw field bytes to display text, and rendering
//! numbers into the strings the decoder hands back (dates, diagnostics).

use vstd::prelude::*;

verus! {

/// The text that lossy UTF-8 decoding yields for a byte sequence. The result
/// depends on the bytes alone; invalid sequences become replacement
/// characters, so no byte sequence is rejected.
pub uninterp spec fn spec_lossy_utf8(b: Seq<u8>) -> Seq<char>;

/// Relies on `String::from_utf8_lossy`: the result is a function of the bytes
/// alone; valid UTF-8 decodes unchanged, and ASCII bytes map one to one onto
/// their characters.
#[verifier::external_body]
pub(crate) fn from_utf8_lossy(b: &[u8]) -> (r: String)
    ensures
        r@ == spec_lossy_utf8(b@),
        vstd::utf8::valid_utf8(b@) ==> r@ == vstd::utf8::decode_utf8(b@),
        (forall|i: int| 0 <= i < b@.len() ==> b@[i] < 0x80) ==> r@ == Seq::new(
            b@.len(),
            |i: int| b@[i] as char,
        ),
{
    String::from_utf8_lossy(b).into_owned()
}

/// Relies on `String::push`: appends one character to the string.
#[verifier::external_body]
pub(crate) fn push_char(s: &mut String, c: char)
    ensures
        final(s)@ == old(s)@.push(c),
{
    s.push(c);
}

/// The character for one value of a base-16 digit, lower case.
pub open spec fn spec_hex_digit(v: int) -> char {
    if v == 0 {
        '0'
    } else if v == 1 {
        '1'
    } else if v == 2 {
        '2'
    } else if v == 3 {
        '3'
    } else if v == 4 {
        '4'
    } else if v == 5 {
        '5'
    } else if v == 6 {
        '6'
    } else if v == 7 {
        '7'
    } else if v == 8 {
        '8'
    } else if v == 9 {
        '9'
    } else if v == 10 {
        'a'
    } else if v == 11 {
        'b'
    } else if v == 12 {
        'c'
    } else if v == 13 {
        'd'
    } else if v == 14 {
        'e'
    } else {
        'f'
    }
}

/// The character for one decimal digit.
pub open spec fn spec_dec_digit(v: int) -> char {
    spec_hex_digit(if 0 <= v < 10 {
        v
    } else {
        0
    })
}

/// Lower-case hexadecimal digits of a value, without leading zeros; zero
/// itself renders as a single digit.
pub open spec fn spec_hex_digits(v: int) -> Seq<char>
    decreases v,
{
    if v < 16 {
        seq![spec_hex_digit(v)]
    } else {
        spec_hex_digits(v / 16).push(spec_hex_digit(v % 16))
    }
}

/// Decimal digits of a value, without leading zeros; zero itself renders as a
/// single digit.
pub open spec fn spec_dec_digits(v: int) -> Seq<char>
    decreases v,
{
    if v < 10 {
        seq![spec_dec_digit(v)]
    } else {
        spec_dec_digits(v / 10).push(spec_dec_digit(v % 10))
    }
}

/// Hexadecimal rendering of a byte sequence, each byte without padding, as
/// the debug helper has always printed it.
pub open spec fn spec_hex_bytes(s: Seq<u8>) -> Seq<char>
    decreases s.len(),
{
    if s.len() == 0 {
        Seq::empty()
    } else {
        spec_hex_digits(s[0] as int) + spec_hex_bytes(s.drop_first())
    }
}

/// The character for one value of a base-16 digit, lower case.
pub fn hex_digit(v: u8) -> (c: char)
    requires
        v < 16,
    ensures
        c == spec_hex_digit(v as int),
{
    if v == 0 {
        '0'
    } else if v == 1 {
        '1'
    } else if v == 2 {
        '2'
    } else if v == 3 {
        '3'
    } else if v == 4 {
        '4'
    } else if v == 5 {
        '5'
    } else if v == 6 {
        '6'
    } else if v == 7 {
        '7'
    } else if v == 8 {
        '8'
    } else if v == 9 {
        '9'
    } else if v == 10 {
        'a'
    } else if v == 11 {
        'b'
    } else if v == 12 {
        'c'
    } else if v == 13 {
        'd'
    } else if v == 14 {
        'e'
    } else {
        'f'
    }
}

/// The character for one decimal digit.
pub fn dec_digit(v: u8) -> (c: char)
    requires
        v < 10,
    ensures
        c == spec_dec_digit(v as int),
{
    hex_digit(v)
}

/// Appends the minimal-width lower-case hexadecimal rendering of `v`.
pub fn push_hex_u32(s: &mut String, v: u32)
    ensures
        final(s)@ == old(s)@ + spec_hex_digits(v as int),
    decreases v,
{
    if v < 16 {
        push_char(s, hex_digit(v as u8));
        proof {
            assert(s@ =~= old(s)@ + spec_hex_digits(v as int));
        }
    } else {
        push_hex_u32(s, v / 16);
        push_char(s, hex_digit((v % 16) as u8));
        proof {
            assert(s@ =~= old(s)@ + spec_hex_digits(v as int));
        }
    }
}

/// Appends the minimal-width decimal rendering of `v`.
pub fn push_dec_u64(s: &mut String, v: u64)
    ensures
        final(s)@ == old(s)@ + spec_dec_digits(v as int),
    decreases v,
{
    if v < 10 {
        push_char(s, dec_digit(v as u8));
        proof {
            assert(s@ =~= old(s)@ + spec_dec_digits(v as int));
        }
    } else {
        push_dec_u64(s, v / 10);
        push_char(s, dec_digit((v % 10) as u8));
        proof {
            assert(s@ =~= old(s)@ + spec_dec_digits(v as int));
        }
    }
}

/// Turn a byte slice into a hex string, for debugging purposes.
pub fn format_bytes(bytes: &[u8]) -> (r: String)
    ensures
        r@ == spec_hex_bytes(bytes@),
{
    let mut s = String::new();
    let len = bytes.len();
    let mut i: usize = 0;
    proof {
        assert(bytes@.skip(0) == bytes@);
    }
    while i < len
        invariant
            len == bytes@.len(),
            i <= len,
            spec_hex_bytes(bytes@) == s@ + spec_hex_bytes(bytes@.skip(i as int)),
        decreases len - i,
    {
        let b = *vstd::slice::slice_index_get(bytes, i);
        push_hex_u32(&mut s, b as u32);
        proof {
            assert(bytes@.skip(i as int).drop_first() == bytes@.skip(i + 1));
            assert(bytes@.skip(i as int)[0] == bytes@[i as int]);
        }
        i = i + 1;
    }
    proof {
        assert(bytes@.skip(len as int) =~= Seq::<u8>::empty());
        assert(s@ =~= s@ + spec_hex_bytes(bytes@.skip(len as int)));
    }
    s
}

} // verus!
