//! The ledger's binary encoding of the few shapes a transaction is made of:
//! fixed-width integers, compact integers and length-prefixed byte strings.

use vstd::prelude::*;

verus! {

/// The `width` low bytes of `value`, the lowest first.
pub open spec fn le_bytes(value: nat, width: nat) -> Seq<u8>
    decreases width,
{
    if width == 0 {
        Seq::empty()
    } else {
        seq![(value % 256) as u8] + le_bytes(value / 256, (width - 1) as nat)
    }
}

/// How many bytes it takes to write `value`: none for zero.
pub open spec fn byte_width(value: nat) -> nat
    decreases value,
{
    if value == 0 {
        0
    } else {
        1 + byte_width(value / 256)
    }
}

/// The compact encoding of an integer. The two low bits of the first byte say how
/// the rest is laid out: one, two or four bytes holding the value times four, or a
/// count of bytes followed by the value itself.
pub open spec fn compact(value: nat) -> Seq<u8> {
    if value < 64 {
        le_bytes(4 * value, 1)
    } else if value < 16384 {
        le_bytes(4 * value + 1, 2)
    } else if value < 1073741824 {
        le_bytes(4 * value + 2, 4)
    } else {
        seq![(4 * (byte_width(value) - 4) + 3) as u8] + le_bytes(value, byte_width(value))
    }
}

/// A byte string on the wire: its length in compact form, then the bytes.
pub open spec fn byte_string(bytes: Seq<u8>) -> Seq<u8> {
    compact(bytes.len()) + bytes
}

/// The longest byte string the encoding accepts.
pub const MAX_BYTE_STRING: usize = 0xffff_ffff;

/// Calls `encode` of `parity_scale_codec::Compact<u128>`. The contract restates the
/// four layouts of the encoder: a single byte below 64, two bytes below 2^14, four
/// bytes below 2^30, and beyond that a length byte followed by the value's bytes.
#[verifier::external_body]
pub(crate) fn compact_bytes(value: u128) -> (bytes: Vec<u8>)
    ensures
        bytes@ == compact(value as nat),
{
    parity_scale_codec::Encode::encode(&parity_scale_codec::Compact(value))
}

/// `le_bytes` gives as many bytes as it is asked for.
pub proof fn lemma_le_bytes_len(value: nat, width: nat)
    ensures
        le_bytes(value, width).len() == width,
    decreases width,
{
    if width > 0 {
        lemma_le_bytes_len(value / 256, (width - 1) as nat);
    }
}

/// Appends the `width` low bytes of `value`, lowest first.
fn push_le(out: &mut Vec<u8>, value: u64, width: usize)
    requires
        width <= 8,
    ensures
        final(out)@ == old(out)@ + le_bytes(value as nat, width as nat),
{
    let mut rest: u64 = value;
    let mut done: usize = 0;
    while done < width
        invariant
            done <= width,
            out@ + le_bytes(rest as nat, (width - done) as nat) == old(out)@ + le_bytes(
                value as nat,
                width as nat,
            ),
        decreases width - done,
    {
        let ghost before = out@;
        out.push((rest % 256) as u8);
        proof {
            let tail = le_bytes((rest / 256) as nat, (width - done - 1) as nat);
            assert(le_bytes(rest as nat, (width - done) as nat) == seq![(rest % 256) as u8] + tail);
            assert(out@ + tail =~= before + (seq![(rest % 256) as u8] + tail));
        }
        rest = rest / 256;
        done += 1;
    }
    assert(out@ + le_bytes(rest as nat, 0) =~= out@);
}

/// Appends a 32-bit integer in its fixed four bytes.
pub fn push_u32(out: &mut Vec<u8>, value: u32)
    ensures
        final(out)@ == old(out)@ + le_bytes(value as nat, 4),
{
    push_le(out, value as u64, 4);
}

/// Appends a 64-bit integer in its fixed eight bytes.
pub fn push_u64(out: &mut Vec<u8>, value: u64)
    ensures
        final(out)@ == old(out)@ + le_bytes(value as nat, 8),
{
    push_le(out, value, 8);
}

/// Appends an integer in compact form.
pub fn push_compact(out: &mut Vec<u8>, value: u128)
    ensures
        final(out)@ == old(out)@ + compact(value as nat),
{
    let bytes = compact_bytes(value);
    out.extend_from_slice(bytes.as_slice());
}

/// Appends bytes as they are.
pub fn push_raw(out: &mut Vec<u8>, bytes: &[u8])
    ensures
        final(out)@ == old(out)@ + bytes@,
{
    out.extend_from_slice(bytes);
}

/// Appends a byte string with its length in front. Returns `false`, and leaves `out`
/// as it was, where the string is longer than the encoding accepts.
pub fn push_byte_string(out: &mut Vec<u8>, bytes: &[u8]) -> (fits: bool)
    ensures
        fits == (bytes@.len() <= MAX_BYTE_STRING),
        fits ==> final(out)@ == old(out)@ + byte_string(bytes@),
        !fits ==> final(out)@ == old(out)@,
{
    if bytes.len() > MAX_BYTE_STRING {
        return false;
    }
    push_compact(out, bytes.len() as u128);
    out.extend_from_slice(bytes);
    assert(out@ =~= old(out)@ + byte_string(bytes@));
    true
}

} // verus!
