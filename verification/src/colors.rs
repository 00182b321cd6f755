//! RGBA colors with 8 bits per channel, and their packing into native 32-bit words.
use vstd::prelude::*;
use vstd::endian::{endianness, Endian};

verus! {

/// The 32-bit word whose little-endian bytes are `b0, b1, b2, b3`.
pub open spec fn le_u32(b0: u8, b1: u8, b2: u8, b3: u8) -> u32 {
    (b0 as u32) | ((b1 as u32) << 8u32) | ((b2 as u32) << 16u32) | ((b3 as u32) << 24u32)
}

/// The 32-bit word stored in memory as the bytes `b0, b1, b2, b3`, in the byte order
/// of the machine the program runs on.
pub open spec fn native_u32(b0: u8, b1: u8, b2: u8, b3: u8) -> u32 {
    match endianness() {
        Endian::Little => le_u32(b0, b1, b2, b3),
        Endian::Big => le_u32(b3, b2, b1, b0),
    }
}

/// Calls `u32::from_ne_bytes`: the word whose in-memory bytes, in the machine's byte
/// order, are `bytes`.
#[verifier::external_body]
pub(crate) fn u32_from_ne_bytes(bytes: [u8; 4]) -> (r: u32)
    ensures
        r == native_u32(bytes@[0], bytes@[1], bytes@[2], bytes@[3]),
{
    u32::from_ne_bytes(bytes)
}

/// Calls `u32::to_ne_bytes`: the in-memory bytes of `v` in the machine's byte order.
#[verifier::external_body]
pub(crate) fn u32_to_ne_bytes(v: u32) -> (r: [u8; 4])
    ensures
        native_u32(r@[0], r@[1], r@[2], r@[3]) == v,
{
    v.to_ne_bytes()
}

/// Distinct byte quadruples make distinct little-endian words.
pub proof fn lemma_le_u32_injective(a0: u8, a1: u8, a2: u8, a3: u8, b0: u8, b1: u8, b2: u8, b3: u8)
    requires
        le_u32(a0, a1, a2, a3) == le_u32(b0, b1, b2, b3),
    ensures
        a0 == b0 && a1 == b1 && a2 == b2 && a3 == b3,
{
    assert(((a0 as u32) | ((a1 as u32) << 8u32) | ((a2 as u32) << 16u32) | ((a3 as u32) << 24u32))
        == ((b0 as u32) | ((b1 as u32) << 8u32) | ((b2 as u32) << 16u32) | ((b3 as u32) << 24u32))
        ==> a0 == b0 && a1 == b1 && a2 == b2 && a3 == b3) by (bit_vector);
}

/// Distinct byte quadruples make distinct native words.
pub proof fn lemma_native_u32_injective(a0: u8, a1: u8, a2: u8, a3: u8, b0: u8, b1: u8, b2: u8, b3: u8)
    requires
        native_u32(a0, a1, a2, a3) == native_u32(b0, b1, b2, b3),
    ensures
        a0 == b0 && a1 == b1 && a2 == b2 && a3 == b3,
{
    match endianness() {
        Endian::Little => lemma_le_u32_injective(a0, a1, a2, a3, b0, b1, b2, b3),
        Endian::Big => lemma_le_u32_injective(a3, a2, a1, a0, b3, b2, b1, b0),
    }
}

/// An RGBA color with 8 bits per channel, laid out in memory as the bytes `[r, g, b, a]`.
#[derive(Clone, Copy, Debug, PartialEq, Eq, Hash, Structural)]
pub struct Color {
    /// Red channel.
    pub r: u8,
    /// Green channel.
    pub g: u8,
    /// Blue channel.
    pub b: u8,
    /// Alpha channel (255 is opaque).
    pub a: u8,
}

impl Color {
    /// Creates a color from its four channels.
    pub fn new(r: u8, g: u8, b: u8, a: u8) -> (c: Color)
        ensures
            c == (Color { r, g, b, a }),
    {
        Color { r, g, b, a }
    }

    /// The color as a native 32-bit RGBA8 word: the word whose in-memory bytes are `[r, g, b, a]`.
    pub open spec fn rgba_word(self) -> u32 {
        native_u32(self.r, self.g, self.b, self.a)
    }

    /// Packs the color into a native 32-bit RGBA8 word, the pixel format of pixel buffers.
    pub fn to_rgba_u32(self) -> (v: u32)
        ensures
            v == self.rgba_word(),
    {
        u32_from_ne_bytes([self.r, self.g, self.b, self.a])
    }

    /// Unpacks a native 32-bit RGBA8 word into a color.
    pub fn from_rgba_u32(v: u32) -> (c: Color)
        ensures
            c.rgba_word() == v,
    {
        let bytes = u32_to_ne_bytes(v);
        Color { r: bytes[0], g: bytes[1], b: bytes[2], a: bytes[3] }
    }
}

/// Unpacking a packed color gives the color back; packing and unpacking are inverse.
pub proof fn lemma_color_word_roundtrip(c: Color, d: Color)
    requires
        d.rgba_word() == c.rgba_word(),
    ensures
        d == c,
{
    lemma_native_u32_injective(d.r, d.g, d.b, d.a, c.r, c.g, c.b, c.a);
}

} // verus!
