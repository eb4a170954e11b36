//! Verified rendering of 32-bit values as decimal and fixed-width upper-case
//! hexadecimal text, used to fill the human-readable issue details.

use vstd::prelude::*;

verus! {

/// The ASCII digit for a value below ten.
pub open spec fn spec_dec_digit(d: int) -> char
    recommends
        0 <= d < 10,
{
    ((48 + d) as u8) as char
}

/// The upper-case ASCII hexadecimal digit for a value below sixteen.
pub open spec fn spec_hex_digit(d: u32) -> char
    recommends
        d < 16,
{
    if d < 10 {
        ((48 + d) as u8) as char
    } else {
        ((55 + d) as u8) as char
    }
}

/// The shortest decimal rendering of a non-negative value, most significant
/// digit first.
pub open spec fn spec_dec(n: int) -> Seq<char>
    recommends
        n >= 0,
    decreases n,
{
    if n < 10 {
        seq![spec_dec_digit(n)]
    } else {
        spec_dec(n / 10).push(spec_dec_digit(n % 10))
    }
}

/// The eight-digit upper-case hexadecimal rendering of a 32-bit value.
pub open spec fn spec_hex8(n: u32) -> Seq<char> {
    seq![
        spec_hex_digit((n >> 28) & 0xF),
        spec_hex_digit((n >> 24) & 0xF),
        spec_hex_digit((n >> 20) & 0xF),
        spec_hex_digit((n >> 16) & 0xF),
        spec_hex_digit((n >> 12) & 0xF),
        spec_hex_digit((n >> 8) & 0xF),
        spec_hex_digit((n >> 4) & 0xF),
        spec_hex_digit(n & 0xF),
    ]
}

/// Relies on `String::push`: appends exactly the given character to the end
/// of the string.
#[verifier::external_body]
pub(crate) fn push_char(s: &mut String, c: char)
    ensures
        final(s)@ == old(s)@.push(c),
{
    s.push(c);
}

/// Appends the decimal rendering of `n` to `s`.
fn append_dec(s: &mut String, n: u32)
    ensures
        final(s)@ == old(s)@ + spec_dec(n as int),
    decreases n,
{
    if n < 10 {
        push_char(s, (48 + n as u8) as char);
        assert(s@ =~= old(s)@ + spec_dec(n as int));
    } else {
        append_dec(s, n / 10);
        push_char(s, (48 + (n % 10) as u8) as char);
        assert(s@ =~= old(s)@ + spec_dec(n as int));
    }
}

/// The decimal rendering of `n` as a fresh string.
pub fn u32_to_dec_string(n: u32) -> (s: String)
    ensures
        s@ == spec_dec(n as int),
{
    let mut s = String::new();
    append_dec(&mut s, n);
    proof {
        assert(s@ =~= spec_dec(n as int));
    }
    s
}

/// The upper-case hexadecimal digit of a value below sixteen.
fn hex_digit(d: u32) -> (c: char)
    requires
        d < 16,
    ensures
        c == spec_hex_digit(d),
{
    if d < 10 {
        (48 + d as u8) as char
    } else {
        (55 + d as u8) as char
    }
}

/// The eight-digit upper-case hexadecimal rendering of `n` as a fresh string.
pub fn u32_to_hex8_string(n: u32) -> (s: String)
    ensures
        s@ == spec_hex8(n),
{
    assert((n >> 28) & 0xF < 16 && (n >> 24) & 0xF < 16 && (n >> 20) & 0xF < 16 && (n >> 16)
        & 0xF < 16 && (n >> 12) & 0xF < 16 && (n >> 8) & 0xF < 16 && (n >> 4) & 0xF < 16 && n & 0xF
        < 16) by (bit_vector);
    let mut s = String::new();
    push_char(&mut s, hex_digit((n >> 28) & 0xF));
    push_char(&mut s, hex_digit((n >> 24) & 0xF));
    push_char(&mut s, hex_digit((n >> 20) & 0xF));
    push_char(&mut s, hex_digit((n >> 16) & 0xF));
    push_char(&mut s, hex_digit((n >> 12) & 0xF));
    push_char(&mut s, hex_digit((n >> 8) & 0xF));
    push_char(&mut s, hex_digit((n >> 4) & 0xF));
    push_char(&mut s, hex_digit(n & 0xF));
    proof {
        assert(s@ =~= spec_hex8(n));
    }
    s
}

} // verus!
