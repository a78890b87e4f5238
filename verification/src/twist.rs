//! Velocity commands and their wire image.
//!
//! A directional key press becomes a velocity command with two live
//! components, `linear.x` and `angular.z`; the four remaining components of
//! the two 3-vectors are always zero. The components are 64-bit IEEE-754
//! values; the library carries them as bit patterns, so that scaling by the
//! configured factors stays exact: `+scale` is the factor itself and
//! `-scale` flips its sign bit, which is how IEEE-754 negation acts on every
//! value. The wire image is the little-endian encapsulation header followed
//! by the six components, each eight bytes little-endian, 52 bytes in all.

use crate::keys::is_command_key;
use crate::keys::KeyEvent;
use crate::wire::is_le_header;
use crate::wire::push_all;
use crate::wire::read_u64_le;
use crate::wire::spec_le_header;
use vstd::bytes::*;
use vstd::prelude::*;

verus! {

/// Sign bit of a 64-bit IEEE-754 value.
pub const F64_SIGN_BIT: u64 = 0x8000_0000_0000_0000;

/// The two live components of a velocity command, as IEEE-754 bit patterns.
#[derive(Clone, Copy, PartialEq, Eq, Structural, Debug)]
pub struct TwistBits {
    /// Bit pattern of `linear.x`, the forward speed.
    pub linear_x: u64,
    /// Bit pattern of `angular.z`, the turn rate.
    pub angular_z: u64,
}

/// Bit pattern of the negated value: the sign bit flips, nothing else moves.
pub open spec fn spec_neg_bits(b: u64) -> u64 {
    b ^ 0x8000_0000_0000_0000
}

/// True of the two bit patterns that denote zero, positive and negative.
pub open spec fn is_zero_bits(b: u64) -> bool {
    b == 0 || b == 0x8000_0000_0000_0000
}

/// The stop command: both live components zero.
pub open spec fn spec_stop_twist() -> TwistBits {
    TwistBits { linear_x: 0, angular_z: 0 }
}

/// The command table. Up drives forward by the linear scale, Down backward;
/// Left turns by the angular scale, Right the other way; Space stops.
pub open spec fn spec_twist_for(k: KeyEvent, linear_scale: u64, angular_scale: u64) -> TwistBits
    recommends
        is_command_key(k),
{
    match k {
        KeyEvent::ArrowUp => TwistBits { linear_x: linear_scale, angular_z: 0 },
        KeyEvent::ArrowDown => TwistBits { linear_x: spec_neg_bits(linear_scale), angular_z: 0 },
        KeyEvent::ArrowLeft => TwistBits { linear_x: 0, angular_z: angular_scale },
        KeyEvent::ArrowRight => TwistBits { linear_x: 0, angular_z: spec_neg_bits(angular_scale) },
        _ => TwistBits { linear_x: 0, angular_z: 0 },
    }
}

/// Translates a command key and the two scale factors into a command,
/// following the command table exactly.
pub fn twist_for(k: KeyEvent, linear_scale_bits: u64, angular_scale_bits: u64) -> (t: TwistBits)
    requires
        is_command_key(k),
    ensures
        t == spec_twist_for(k, linear_scale_bits, angular_scale_bits),
{
    match k {
        KeyEvent::ArrowUp => TwistBits { linear_x: linear_scale_bits, angular_z: 0 },
        KeyEvent::ArrowDown => TwistBits {
            linear_x: linear_scale_bits ^ F64_SIGN_BIT,
            angular_z: 0,
        },
        KeyEvent::ArrowLeft => TwistBits { linear_x: 0, angular_z: angular_scale_bits },
        KeyEvent::ArrowRight => TwistBits {
            linear_x: 0,
            angular_z: angular_scale_bits ^ F64_SIGN_BIT,
        },
        _ => TwistBits { linear_x: 0, angular_z: 0 },
    }
}

/// Every directional key yields a command on exactly one axis, with the sign
/// and magnitude of the command table: the live component carries the scale's
/// bit pattern, negated for Down and Right, and the other component is zero.
/// Asks only that neither scale is a zero, since a zero scale makes its own
/// axis zero as well.
pub proof fn lemma_directional_single_axis(k: KeyEvent, linear_scale: u64, angular_scale: u64)
    requires
        k == KeyEvent::ArrowUp || k == KeyEvent::ArrowDown || k == KeyEvent::ArrowLeft || k
            == KeyEvent::ArrowRight,
        !is_zero_bits(linear_scale),
        !is_zero_bits(angular_scale),
    ensures
        is_zero_bits(spec_twist_for(k, linear_scale, angular_scale).linear_x) != is_zero_bits(
            spec_twist_for(k, linear_scale, angular_scale).angular_z,
        ),
        k == KeyEvent::ArrowUp ==> spec_twist_for(k, linear_scale, angular_scale) == (TwistBits {
            linear_x: linear_scale,
            angular_z: 0,
        }),
        k == KeyEvent::ArrowDown ==> spec_twist_for(k, linear_scale, angular_scale) == (TwistBits {
            linear_x: spec_neg_bits(linear_scale),
            angular_z: 0,
        }),
        k == KeyEvent::ArrowLeft ==> spec_twist_for(k, linear_scale, angular_scale) == (TwistBits {
            linear_x: 0,
            angular_z: angular_scale,
        }),
        k == KeyEvent::ArrowRight ==> spec_twist_for(k, linear_scale, angular_scale) == (TwistBits {
            linear_x: 0,
            angular_z: spec_neg_bits(angular_scale),
        }),
{
    assert(linear_scale != 0 && linear_scale != 0x8000_0000_0000_0000u64 ==> (linear_scale
        ^ 0x8000_0000_0000_0000u64) != 0 && (linear_scale ^ 0x8000_0000_0000_0000u64)
        != 0x8000_0000_0000_0000u64) by (bit_vector);
    assert(angular_scale != 0 && angular_scale != 0x8000_0000_0000_0000u64 ==> (angular_scale
        ^ 0x8000_0000_0000_0000u64) != 0 && (angular_scale ^ 0x8000_0000_0000_0000u64)
        != 0x8000_0000_0000_0000u64) by (bit_vector);
}

/// The space bar always yields the stop command, whatever the scales are.
pub proof fn lemma_space_stops(linear_scale: u64, angular_scale: u64)
    ensures
        spec_twist_for(KeyEvent::Space, linear_scale, angular_scale) == spec_stop_twist(),
{
}

/// Wire image of a command: the little-endian header, then `linear.x`, the
/// four components that are always zero, and `angular.z`, each eight bytes
/// little-endian.
pub open spec fn spec_encode_twist(t: TwistBits) -> Seq<u8> {
    spec_le_header() + spec_u64_to_le_bytes(t.linear_x) + spec_u64_to_le_bytes(0)
        + spec_u64_to_le_bytes(0) + spec_u64_to_le_bytes(0) + spec_u64_to_le_bytes(0)
        + spec_u64_to_le_bytes(t.angular_z)
}

/// Encodes a command for publication. The image is always 52 bytes.
pub fn encode_twist(t: TwistBits) -> (out: Vec<u8>)
    ensures
        out@ == spec_encode_twist(t),
        out@.len() == 52,
{
    let mut out: Vec<u8> = Vec::new();
    out.push(0);
    out.push(1);
    out.push(0);
    out.push(0);
    let lx = u64_to_le_bytes(t.linear_x);
    push_all(&mut out, lx.as_slice());
    let zero = u64_to_le_bytes(0);
    push_all(&mut out, zero.as_slice());
    push_all(&mut out, zero.as_slice());
    push_all(&mut out, zero.as_slice());
    push_all(&mut out, zero.as_slice());
    let az = u64_to_le_bytes(t.angular_z);
    push_all(&mut out, az.as_slice());
    proof {
        assert(out@ =~= spec_encode_twist(t));
    }
    out
}

/// A command read back from its wire image: a 52-byte buffer with a
/// little-endian header yields the two live components; anything else is
/// refused. The four components that the bridge never sets are not examined.
pub open spec fn spec_decode_twist(s: Seq<u8>) -> Option<TwistBits> {
    if s.len() == 52 && is_le_header(s) {
        Some(
            TwistBits {
                linear_x: spec_u64_from_le_bytes(s.subrange(4, 12)),
                angular_z: spec_u64_from_le_bytes(s.subrange(44, 52)),
            },
        )
    } else {
        None
    }
}

/// Decodes a command's wire image.
pub fn decode_twist(bytes: &[u8]) -> (r: Option<TwistBits>)
    ensures
        r == spec_decode_twist(bytes@),
{
    if bytes.len() != 52 {
        return None;
    }
    let id = bytes[1];
    if !(id == 1 || id == 3) {
        return None;
    }
    let linear_x = read_u64_le(bytes, 4);
    let angular_z = read_u64_le(bytes, 44);
    Some(TwistBits { linear_x, angular_z })
}

/// Encoding is injective: a command read back from its own wire image is the
/// command itself. Together with `spec_encode_twist` being a function of the
/// command alone, this pins the image: equal commands give identical bytes,
/// and distinct commands give distinct bytes.
pub proof fn lemma_twist_round_trip(t: TwistBits)
    ensures
        spec_decode_twist(spec_encode_twist(t)) == Some(t),
{
    lemma_auto_spec_u64_to_from_le_bytes();
    let s = spec_encode_twist(t);
    assert(s.len() == 52);
    assert(s[1] == 1);
    assert(s.subrange(4, 12) =~= spec_u64_to_le_bytes(t.linear_x));
    assert(s.subrange(44, 52) =~= spec_u64_to_le_bytes(t.angular_z));
}

} // verus!
