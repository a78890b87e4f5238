//! Byte-level building blocks of the wire format.
//!
//! Records travel in the common data representation: a four-byte
//! encapsulation header names the byte order, and behind it every primitive
//! field is aligned to its own size, counted from the start of the payload.
//! Since the header is itself four bytes long, aligning a position within the
//! whole buffer to a multiple of four aligns the payload offset as well, and
//! no field of the records handled here needs wider alignment. A text field
//! is a four-byte little-endian length (which counts a trailing terminator
//! byte), then the bytes, then the terminator, whose value the decoder does
//! not inspect.

use vstd::bytes::*;
use vstd::prelude::*;

verus! {

/// Encapsulation header written for little-endian data: representation
/// identifier 0x0001, options 0x0000.
pub open spec fn spec_le_header() -> Seq<u8> {
    seq![0u8, 1u8, 0u8, 0u8]
}

/// True when a buffer opens with a header naming a little-endian
/// representation. Only the second byte decides: 1 is plain little-endian,
/// 3 its parameter-list variant; the remaining header bytes are not read.
pub open spec fn is_le_header(s: Seq<u8>) -> bool {
    s.len() >= 4 && (s[1] == 1 || s[1] == 3)
}

/// The next position at or after `pos` that is a multiple of four.
pub open spec fn spec_align4(pos: int) -> int {
    pos + ((4 - pos % 4) % 4)
}

/// A four-byte little-endian integer read at the four-aligned position at or
/// after `pos`, together with the position behind it.
pub open spec fn spec_read_u32(s: Seq<u8>, pos: int) -> Option<(u32, int)> {
    let p = spec_align4(pos);
    if p + 4 > s.len() {
        None
    } else {
        Some((spec_u32_from_le_bytes(s.subrange(p, p + 4)), p + 4))
    }
}

/// A length-prefixed text field read at the four-aligned position at or
/// after `pos`: its bytes without the trailing terminator byte, and the
/// position behind the field. The length counts the terminator, so a length
/// of zero yields an empty field with no byte behind the prefix, and the
/// terminator's value goes unchecked, as the codec leaves it unread.
pub open spec fn spec_read_string(s: Seq<u8>, pos: int) -> Option<(Seq<u8>, int)> {
    match spec_read_u32(s, pos) {
        None => None,
        Some((n, p)) => {
            if p + n > s.len() {
                None
            } else if n == 0 {
                Some((Seq::empty(), p))
            } else {
                Some((s.subrange(p, p + n - 1), p + n))
            }
        },
    }
}

/// Appends every byte of `src` to `out`, in order.
pub fn push_all(out: &mut Vec<u8>, src: &[u8])
    ensures
        final(out)@ == old(out)@ + src@,
{
    let n = src.len();
    let mut i: usize = 0;
    while i < n
        invariant
            i <= n,
            n == src@.len(),
            out@ == old(out)@ + src@.subrange(0, i as int),
        decreases n - i,
    {
        out.push(src[i]);
        proof {
            assert(src@.subrange(0, i + 1 as int) =~= src@.subrange(0, i as int).push(
                src@[i as int],
            ));
            assert(old(out)@ + src@.subrange(0, i + 1 as int) =~= (old(out)@ + src@.subrange(
                0,
                i as int,
            )).push(src@[i as int]));
        }
        i = i + 1;
    }
    proof {
        assert(src@.subrange(0, n as int) =~= src@);
    }
}

/// Reads the four-byte little-endian integer at `pos`, with no alignment.
pub fn read_u32_le(bytes: &[u8], pos: usize) -> (x: u32)
    requires
        pos + 4 <= bytes@.len(),
    ensures
        x == spec_u32_from_le_bytes(bytes@.subrange(pos as int, pos + 4)),
{
    let len = bytes.len();
    assert(pos + 4 <= len);
    let s = vstd::slice::slice_subrange(bytes, pos, pos + 4);
    u32_from_le_bytes(s)
}

/// Reads the eight-byte little-endian integer at `pos`, with no alignment.
pub fn read_u64_le(bytes: &[u8], pos: usize) -> (x: u64)
    requires
        pos + 8 <= bytes@.len(),
    ensures
        x == spec_u64_from_le_bytes(bytes@.subrange(pos as int, pos + 8)),
{
    let len = bytes.len();
    assert(pos + 8 <= len);
    let s = vstd::slice::slice_subrange(bytes, pos, pos + 8);
    u64_from_le_bytes(s)
}

/// Reads a four-byte little-endian integer at the four-aligned position at
/// or after `pos`, if the buffer still holds one there.
pub fn read_u32_at(bytes: &[u8], pos: usize) -> (r: Option<(u32, usize)>)
    requires
        pos <= bytes@.len(),
    ensures
        match r {
            Some(xp) => spec_read_u32(bytes@, pos as int) == Some((xp.0, xp.1 as int)) && pos
                <= xp.1 <= bytes@.len(),
            None => spec_read_u32(bytes@, pos as int) is None,
        },
{
    let len = bytes.len();
    let rem = pos % 4;
    let pad: usize = if rem == 0 {
        0
    } else {
        4 - rem
    };
    assert(pad == (4 - (pos as int) % 4) % 4);
    if len - pos < pad {
        return None;
    }
    let p = pos + pad;
    if len - p < 4 {
        return None;
    }
    let x = read_u32_le(bytes, p);
    Some((x, p + 4))
}

/// Reads a length-prefixed text field at the four-aligned position at or
/// after `pos`, if the buffer still holds a whole one there.
pub fn read_string_at(bytes: &[u8], pos: usize) -> (r: Option<(Vec<u8>, usize)>)
    requires
        pos <= bytes@.len(),
    ensures
        match r {
            Some(vp) => spec_read_string(bytes@, pos as int) == Some((vp.0@, vp.1 as int)) && pos
                <= vp.1 <= bytes@.len(),
            None => spec_read_string(bytes@, pos as int) is None,
        },
{
    match read_u32_at(bytes, pos) {
        None => None,
        Some((n, p)) => {
            let n_us = n as usize;
            if n_us > bytes.len() - p {
                return None;
            }
            if n_us == 0 {
                let v: Vec<u8> = Vec::new();
                assert(v@ =~= Seq::<u8>::empty());
                return Some((v, p));
            }
            let content = vstd::slice::slice_subrange(bytes, p, p + n_us - 1);
            let v = vstd::slice::slice_to_vec(content);
            Some((v, p + n_us))
        },
    }
}

} // verus!
