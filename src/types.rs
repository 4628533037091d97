//! Protocol value types and their big-endian wire encodings.

use vstd::prelude::*;
use vstd::utf8::encode_utf8;

verus! {

/// Two bytes, most significant first.
pub open spec fn be_u16(x: u16) -> Seq<u8> {
    seq![(x / 256) as u8, (x % 256) as u8]
}

/// Four bytes, most significant first.
pub open spec fn be_u32(x: u32) -> Seq<u8> {
    seq![(x / 16777216) as u8, ((x / 65536) % 256) as u8, ((x / 256) % 256) as u8, (x % 256) as u8]
}

/// Eight bytes, most significant first.
pub open spec fn be_u64(x: u64) -> Seq<u8> {
    be_u32((x / 4294967296) as u32) + be_u32((x % 4294967296) as u32)
}

/// The UTF-8 bytes of a string.
pub open spec fn utf8(s: &String) -> Seq<u8> {
    encode_utf8(s@)
}

/// Largest length that a 4-byte signed length prefix can carry.
pub const MAX_LONG_LEN: usize = 2147483647;

/// Largest length that a 2-byte length prefix can carry.
pub const MAX_SHORT_LEN: usize = 65535;

/// A `[long string]`: 4-byte length, then the UTF-8 bytes.
pub open spec fn long_string_bytes(s: &String) -> Seq<u8> {
    be_u32(utf8(s).len() as u32) + utf8(s)
}

/// A `[string]`: 2-byte length, then the UTF-8 bytes.
pub open spec fn short_string_bytes(s: &String) -> Seq<u8> {
    be_u16(utf8(s).len() as u16) + utf8(s)
}

/// Appends `x` in two bytes, most significant first.
pub fn put_u16(out: &mut Vec<u8>, x: u16)
    ensures
        final(out)@ == old(out)@ + be_u16(x),
{
    out.push((x / 256) as u8);
    out.push((x % 256) as u8);
    assert(final(out)@ =~= old(out)@ + be_u16(x));
}

/// Appends `x` in four bytes, most significant first.
pub fn put_u32(out: &mut Vec<u8>, x: u32)
    ensures
        final(out)@ == old(out)@ + be_u32(x),
{
    out.push((x / 16777216) as u8);
    out.push(((x / 65536) % 256) as u8);
    out.push(((x / 256) % 256) as u8);
    out.push((x % 256) as u8);
    assert(final(out)@ =~= old(out)@ + be_u32(x));
}

/// Appends `x` in eight bytes, most significant first.
pub fn put_u64(out: &mut Vec<u8>, x: u64)
    ensures
        final(out)@ == old(out)@ + be_u64(x),
{
    put_u32(out, (x / 4294967296) as u32);
    put_u32(out, (x % 4294967296) as u32);
    assert(final(out)@ =~= old(out)@ + be_u64(x));
}

/// Appends the UTF-8 bytes of `s`, preceded by their length in four bytes
/// where `long` holds, else in two.
fn put_string(out: &mut Vec<u8>, s: &String, long: bool)
    requires
        long ==> utf8(s).len() <= MAX_LONG_LEN,
        !long ==> utf8(s).len() <= MAX_SHORT_LEN,
    ensures
        long ==> final(out)@ == old(out)@ + long_string_bytes(s),
        !long ==> final(out)@ == old(out)@ + short_string_bytes(s),
{
    let bytes = s.as_str().as_bytes_vec();
    if long {
        put_u32(out, bytes.len() as u32);
    } else {
        put_u16(out, bytes.len() as u16);
    }
    let ghost mid = out@;
    out.extend_from_slice(bytes.as_slice());
    assert(final(out)@ =~= mid + utf8(s));
    if long {
        assert(final(out)@ =~= old(out)@ + long_string_bytes(s));
    } else {
        assert(final(out)@ =~= old(out)@ + short_string_bytes(s));
    }
}

/// Appends `s` as a `[long string]`.
pub fn put_long_string(out: &mut Vec<u8>, s: &String)
    requires
        utf8(s).len() <= MAX_LONG_LEN,
    ensures
        final(out)@ == old(out)@ + long_string_bytes(s),
{
    put_string(out, s, true);
}

/// Appends `s` as a `[string]`.
pub fn put_short_string(out: &mut Vec<u8>, s: &String)
    requires
        utf8(s).len() <= MAX_SHORT_LEN,
    ensures
        final(out)@ == old(out)@ + short_string_bytes(s),
{
    put_string(out, s, false);
}

} // verus!
