//! Colour modes and the rules that turn a raw draw into a pixel.

use vstd::prelude::*;

verus! {

/// How a raw 32-bit draw becomes a colour.
#[derive(Clone, Copy, Debug, Hash, PartialEq, Eq, Structural)]
pub enum GenerationMode {
    /// One intensity, repeated in all three channels.
    Grayscale,
    /// Three independent channels, one per low byte of the draw.
    Colorful,
}

/// One RGB sample, eight bits per channel.
#[derive(Clone, Copy, Debug, Hash, PartialEq, Eq, Structural)]
pub struct PixelSample {
    pub r: u8,
    pub g: u8,
    pub b: u8,
}

/// Byte `k` of `raw`, counting from the least significant one.
pub open spec fn byte_of(raw: u32, k: nat) -> u8 {
    if k == 0 {
        (raw % 256) as u8
    } else if k == 1 {
        ((raw / 0x100) % 256) as u8
    } else if k == 2 {
        ((raw / 0x1_0000) % 256) as u8
    } else {
        (raw / 0x100_0000) as u8
    }
}

/// The gray sample of a raw draw: its low byte in every channel.
pub open spec fn gray_of(raw: u32) -> PixelSample {
    PixelSample { r: byte_of(raw, 0), g: byte_of(raw, 0), b: byte_of(raw, 0) }
}

/// The colour sample of a raw draw: bytes 0, 1 and 2 as red, green and
/// blue. The top byte plays no part.
pub open spec fn color_of(raw: u32) -> PixelSample {
    PixelSample { r: byte_of(raw, 0), g: byte_of(raw, 1), b: byte_of(raw, 2) }
}

/// The sample that `mode` assigns to a raw draw.
pub open spec fn sample_of(raw: u32, mode: GenerationMode) -> PixelSample {
    match mode {
        GenerationMode::Grayscale => gray_of(raw),
        GenerationMode::Colorful => color_of(raw),
    }
}

impl PixelSample {
    /// The black sample, which a fresh buffer holds in every slot.
    pub fn black() -> (p: Self)
        ensures
            p == (PixelSample { r: 0, g: 0, b: 0 }),
    {
        PixelSample { r: 0, g: 0, b: 0 }
    }
}

/// Encodes a raw draw as a gray pixel.
pub fn pixel_grayscale(num: u32) -> (p: PixelSample)
    ensures
        p == gray_of(num),
        p.r == p.g,
        p.g == p.b,
{
    let clamped: u32 = num % 256;
    PixelSample { r: clamped as u8, g: clamped as u8, b: clamped as u8 }
}

/// Encodes a raw draw as a colour pixel.
pub fn pixel_colorful(num: u32) -> (p: PixelSample)
    ensures
        p == color_of(num),
{
    let r: u32 = (num << 24u32) >> 24u32;
    let g: u32 = (num << 16u32) >> 24u32;
    let b: u32 = (num << 8u32) >> 24u32;
    assert((num << 24u32) >> 24u32 == num % 256) by (bit_vector);
    assert((num << 16u32) >> 24u32 == (num / 0x100) % 256) by (bit_vector);
    assert((num << 8u32) >> 24u32 == (num / 0x1_0000) % 256) by (bit_vector);
    PixelSample { r: r as u8, g: g as u8, b: b as u8 }
}

/// Encodes a raw draw under `mode`.
pub fn encode_pixel(num: u32, mode: GenerationMode) -> (p: PixelSample)
    ensures
        p == sample_of(num, mode),
        mode == GenerationMode::Grayscale ==> p.r == p.g && p.g == p.b,
{
    match mode {
        GenerationMode::Grayscale => pixel_grayscale(num),
        GenerationMode::Colorful => pixel_colorful(num),
    }
}

} // verus!
