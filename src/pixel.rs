//! The three pixel encodings that frames may arrive in, and the row stride
//! that each implies.
use vstd::prelude::*;
use crate::bytes::bytes_equal;

verus! {

/// Channels per pixel in every supported encoding.
pub const CHANNELS_PER_PIXEL: u64 = 4;

/// A supported pixel encoding.
#[derive(Clone, Copy, Debug, PartialEq, Eq, Structural)]
pub enum PixelFormat {
    /// 8-bit fixed-point BGRA (`BGRA8Unorm`).
    Fixed8,
    /// 16-bit half-float RGBA (`RGBAf16`).
    Half16,
    /// 32-bit float RGBA (`RGBAf`).
    Float32,
}

/// The tag `BGRA8Unorm`, in ASCII.
pub open spec fn fixed8_tag() -> Seq<u8> {
    seq![66u8, 71u8, 82u8, 65u8, 56u8, 85u8, 110u8, 111u8, 114u8, 109u8]
}

/// The tag `RGBAf16`, in ASCII.
pub open spec fn half16_tag() -> Seq<u8> {
    seq![82u8, 71u8, 66u8, 65u8, 102u8, 49u8, 54u8]
}

/// The tag `RGBAf`, in ASCII.
pub open spec fn float32_tag() -> Seq<u8> {
    seq![82u8, 71u8, 66u8, 65u8, 102u8]
}

/// The encoding that a tag names, if it names one.
pub open spec fn format_of_tag(tag: Seq<u8>) -> Option<PixelFormat> {
    if tag == fixed8_tag() {
        Some(PixelFormat::Fixed8)
    } else if tag == half16_tag() {
        Some(PixelFormat::Half16)
    } else if tag == float32_tag() {
        Some(PixelFormat::Float32)
    } else {
        None
    }
}

impl PixelFormat {
    pub open spec fn spec_bytes_per_channel(self) -> u64 {
        match self {
            PixelFormat::Fixed8 => 1,
            PixelFormat::Half16 => 2,
            PixelFormat::Float32 => 4,
        }
    }

    /// Bytes in one row of `width` pixels.
    pub open spec fn spec_stride(self, width: u32) -> int {
        width as int * CHANNELS_PER_PIXEL as int * self.spec_bytes_per_channel() as int
    }

    /// Resolves a pixel-format tag; `None` for a tag outside the three supported ones.
    pub fn from_tag(tag: &[u8]) -> (r: Option<PixelFormat>)
        ensures
            r == format_of_tag(tag@),
    {
        let fixed8: Vec<u8> = vec![66u8, 71u8, 82u8, 65u8, 56u8, 85u8, 110u8, 111u8, 114u8, 109u8];
        let half16: Vec<u8> = vec![82u8, 71u8, 66u8, 65u8, 102u8, 49u8, 54u8];
        let float32: Vec<u8> = vec![82u8, 71u8, 66u8, 65u8, 102u8];
        assert(fixed8@ == fixed8_tag());
        assert(half16@ == half16_tag());
        assert(float32@ == float32_tag());
        if bytes_equal(tag, fixed8.as_slice()) {
            Some(PixelFormat::Fixed8)
        } else if bytes_equal(tag, half16.as_slice()) {
            Some(PixelFormat::Half16)
        } else if bytes_equal(tag, float32.as_slice()) {
            Some(PixelFormat::Float32)
        } else {
            None
        }
    }

    /// Bytes per colour channel: 1, 2 or 4.
    pub fn bytes_per_channel(&self) -> (r: u64)
        ensures
            r == self.spec_bytes_per_channel(),
    {
        match self {
            PixelFormat::Fixed8 => 1,
            PixelFormat::Half16 => 2,
            PixelFormat::Float32 => 4,
        }
    }

    /// Row stride in bytes: width times four channels times the bytes per channel.
    pub fn stride(&self, width: u32) -> (r: u64)
        ensures
            r as int == self.spec_stride(width),
            r <= 0xFFFF_FFFF * 16,
    {
        let bpc = self.bytes_per_channel();
        assert(width as int * 4 * bpc as int <= 0xFFFF_FFFF * 16) by (nonlinear_arith)
            requires
                bpc <= 4,
                width <= 0xFFFF_FFFF,
        ;
        width as u64 * CHANNELS_PER_PIXEL * bpc
    }
}

} // verus!
