//! GREASE values (RFC 8701): 16-bit codes whose two bytes both end in the
//! nibble `0xA` and share the same high nibble.
use vstd::prelude::*;
use crate::ids::{CipherSuite, NamedGroup, ProtocolVersion};

verus! {

/// A source of secure random numbers, supplied by the caller.
pub trait SecureRandom {
    /// Draws one 32-bit value, or `None` when the source fails.
    fn random_u32(&self) -> Option<u32>;
}

/// The nibble used when no random source is available at all.
pub const FIXED_NIBBLE: u16 = 7;

/// The GREASE code built from the nibble `v`: `(v << 12) | (v << 4) | 0x0A0A`.
pub open spec fn grease_of(v: u16) -> u16 {
    (v << 12u16) | (v << 4u16) | 0x0A0Au16
}

/// The nibble taken from a draw: the draw modulo 16, or 0 when the draw failed.
pub open spec fn draw_nibble(draw: Option<u32>) -> u16 {
    match draw {
        Some(x) => (x % 16) as u16,
        None => 0,
    }
}

/// `g` follows the GREASE pattern: both bytes end in `0xA` and both high
/// nibbles are equal.
pub open spec fn is_grease(g: u16) -> bool {
    &&& g & 0x0F0Fu16 == 0x0A0Au16
    &&& g >> 12u16 == (g >> 4u16) & 0x0Fu16
}

/// Every nibble gives a code of the GREASE pattern.
pub proof fn lemma_nibble_gives_grease(v: u16)
    requires
        v < 16,
    ensures
        is_grease(grease_of(v)),
{
    assert(is_grease(grease_of(v))) by (bit_vector)
        requires
            v < 16,
    ;
}

/// Whatever a random source hands back, the GREASE code built from it follows
/// the GREASE pattern.
pub proof fn lemma_every_draw_gives_grease(draw: Option<u32>)
    ensures
        is_grease(grease_of(draw_nibble(draw))),
{
    lemma_nibble_gives_grease(draw_nibble(draw));
}

/// A failed draw always gives the same code, `0x0A0A`.
pub proof fn lemma_failed_draw_is_fixed()
    ensures
        grease_of(draw_nibble(None)) == 0x0A0Au16,
{
    assert(grease_of(0u16) == 0x0A0Au16) by (bit_vector);
}

/// Builds the GREASE code from nibble `v`.
fn grease_of_nibble(v: u16) -> (r: u16)
    requires
        v < 16,
    ensures
        r == grease_of(v),
        is_grease(r),
{
    proof {
        lemma_nibble_gives_grease(v);
    }
    (v << 12u16) | (v << 4u16) | 0x0A0Au16
}

/// The GREASE code for the outcome of one draw: the draw reduced modulo 16
/// to a nibble, a failed draw counting as 0.
pub fn grease_value_from_draw(draw: Option<u32>) -> (r: u16)
    ensures
        r == grease_of(draw_nibble(draw)),
        is_grease(r),
{
    let v: u16 = match draw {
        Some(x) => (x % 16) as u16,
        None => 0,
    };
    grease_of_nibble(v)
}

/// The GREASE code used when no random source is available: built from
/// `FIXED_NIBBLE`.
pub fn fixed_grease_value() -> (r: u16)
    ensures
        r == grease_of(FIXED_NIBBLE),
        is_grease(r),
{
    grease_of_nibble(FIXED_NIBBLE)
}

/// Draws once from `rng` and builds a GREASE code from the outcome.
pub fn grease_value<R: SecureRandom>(rng: &R) -> (r: u16)
    ensures
        is_grease(r),
        exists|d: Option<u32>| r == grease_of(#[trigger] draw_nibble(d)),
{
    let draw = rng.random_u32();
    grease_value_from_draw(draw)
}

impl CipherSuite {
    /// A GREASE cipher suite, drawn once from `rng`.
    pub fn grease<R: SecureRandom>(rng: &R) -> (r: Self)
        ensures
            r is Unknown,
            is_grease(r.code()),
    {
        CipherSuite::Unknown(grease_value(rng))
    }
}

impl NamedGroup {
    /// A GREASE group, drawn once from `rng`.
    pub fn grease<R: SecureRandom>(rng: &R) -> (r: Self)
        ensures
            r is Unknown,
            is_grease(r.code()),
    {
        NamedGroup::Unknown(grease_value(rng))
    }
}

impl ProtocolVersion {
    /// A GREASE protocol version, drawn once from `rng`.
    pub fn grease<R: SecureRandom>(rng: &R) -> (r: Self)
        ensures
            r is Unknown,
            is_grease(r.code()),
    {
        ProtocolVersion::Unknown(grease_value(rng))
    }
}

} // verus!
