//! The buffer dispatcher: resolves the pixel encoding and the buffer sources
//! of a frame into validated geometry for the engine's processing call.
use vstd::prelude::*;
use crate::number::Double;
use crate::pixel::{PixelFormat, format_of_tag};

verus! {

/// Where a buffer's pixels live.
#[derive(Clone, Copy, Debug, PartialEq, Eq, Structural)]
pub enum BufferSource {
    /// CPU-addressable memory of `len` bytes.
    Cpu { len: usize },
    /// A GPU texture and the command queue that owns it, as opaque handles.
    Gpu { texture: u64, command_queue: u64 },
}

/// A crop rectangle in pixels.
#[derive(Clone, Copy, Debug, PartialEq, Eq, Structural)]
pub struct CropRect {
    pub x: u32,
    pub y: u32,
    pub width: u32,
    pub height: u32,
}

/// One buffer as handed to the engine: geometry, optional crop and rotation,
/// and its source.
#[derive(Clone, Copy, Debug, PartialEq, Eq, Structural)]
pub struct BufferDescriptor {
    pub width: u32,
    pub height: u32,
    pub stride: u64,
    pub rect: Option<CropRect>,
    pub rotation: Option<Double>,
    pub source: BufferSource,
}

/// Which of the two buffers of a frame.
#[derive(Clone, Copy, Debug, PartialEq, Eq, Structural)]
pub enum BufferRole {
    Input,
    Output,
}

/// Why a frame was refused before the engine was called.
#[derive(Clone, Copy, Debug, PartialEq, Eq, Structural)]
pub enum FrameError {
    /// The pixel-format tag is none of the supported three.
    UnsupportedFormat,
    /// A CPU buffer holds fewer bytes than `height * stride`.
    BufferTooSmall { role: BufferRole, required: u128, supplied: usize },
}

/// A validated request for the engine's per-format processing entry point.
#[derive(Clone, Copy, Debug, PartialEq, Eq, Structural)]
pub struct Dispatch {
    pub format: PixelFormat,
    pub timestamp: i64,
    pub input: BufferDescriptor,
    pub output: BufferDescriptor,
}

/// Bytes a buffer of `height` rows of `stride` bytes occupies.
pub open spec fn required_len(height: u32, stride: int) -> int {
    height as int * stride
}

/// A CPU source must hold the whole image; a GPU source is not checked here.
pub open spec fn source_fits(source: BufferSource, height: u32, stride: int) -> bool {
    match source {
        BufferSource::Cpu { len } => len as int >= required_len(height, stride),
        BufferSource::Gpu { .. } => true,
    }
}

/// The supplied length of a CPU source (zero for a GPU one).
pub open spec fn supplied_len(source: BufferSource) -> usize {
    match source {
        BufferSource::Cpu { len } => len,
        BufferSource::Gpu { .. } => 0,
    }
}

/// The descriptor of a buffer in `format` of `width` by `height` pixels.
pub open spec fn descriptor_of(
    format: PixelFormat,
    width: u32,
    height: u32,
    rect: Option<CropRect>,
    rotation: Option<Double>,
    source: BufferSource,
) -> BufferDescriptor {
    BufferDescriptor {
        width,
        height,
        stride: format.spec_stride(width) as u64,
        rect,
        rotation,
        source,
    }
}

/// What the dispatcher decides for a frame: the input and output buffers share
/// the frame's size and encoding; the rotation and crop apply to the input only.
pub open spec fn dispatch_of(
    tag: Seq<u8>,
    width: u32,
    height: u32,
    timestamp: i64,
    input: BufferSource,
    output: BufferSource,
    input_rotation: Option<Double>,
    input_crop: Option<CropRect>,
) -> Result<Dispatch, FrameError> {
    match format_of_tag(tag) {
        None => Err(FrameError::UnsupportedFormat),
        Some(format) => {
            let stride = format.spec_stride(width);
            if !source_fits(input, height, stride) {
                Err(FrameError::BufferTooSmall {
                    role: BufferRole::Input,
                    required: required_len(height, stride) as u128,
                    supplied: supplied_len(input),
                })
            } else if !source_fits(output, height, stride) {
                Err(FrameError::BufferTooSmall {
                    role: BufferRole::Output,
                    required: required_len(height, stride) as u128,
                    supplied: supplied_len(output),
                })
            } else {
                Ok(Dispatch {
                    format,
                    timestamp,
                    input: descriptor_of(format, width, height, input_crop, input_rotation, input),
                    output: descriptor_of(format, width, height, None, None, output),
                })
            }
        },
    }
}

/// Bytes needed by `height` rows of `stride` bytes, without overflow.
fn image_len(height: u32, stride: u64) -> (r: u128)
    requires
        stride <= 0xFFFF_FFFF * 16,
    ensures
        r as int == required_len(height, stride as int),
{
    assert(height as int * stride as int <= 0xFFFF_FFFF * (0xFFFF_FFFF * 16)) by (nonlinear_arith)
        requires
            height <= 0xFFFF_FFFF,
            stride <= 0xFFFF_FFFF * 16,
    ;
    height as u128 * stride as u128
}

/// Checks one source against the image it must hold.
fn check_source(source: &BufferSource, height: u32, stride: u64, role: BufferRole) -> (r: Result<(), FrameError>)
    requires
        stride <= 0xFFFF_FFFF * 16,
    ensures
        r is Ok <==> source_fits(*source, height, stride as int),
        r is Err ==> r == Err::<(), FrameError>(FrameError::BufferTooSmall {
            role,
            required: required_len(height, stride as int) as u128,
            supplied: supplied_len(*source),
        }),
{
    match source {
        BufferSource::Cpu { len } => {
            let required = image_len(height, stride);
            if (*len as u128) < required {
                Err(FrameError::BufferTooSmall { role, required, supplied: *len })
            } else {
                Ok(())
            }
        },
        BufferSource::Gpu { .. } => Ok(()),
    }
}

/// Resolves the encoding named by `tag`, computes the stride, checks that CPU
/// sources are large enough, and assembles the engine request. No engine is
/// involved: an unsupported tag or a short buffer is refused here.
pub fn plan_dispatch(
    tag: &[u8],
    width: u32,
    height: u32,
    timestamp: i64,
    input: BufferSource,
    output: BufferSource,
    input_rotation: Option<Double>,
    input_crop: Option<CropRect>,
) -> (r: Result<Dispatch, FrameError>)
    ensures
        r == dispatch_of(tag@, width, height, timestamp, input, output, input_rotation, input_crop),
{
    let format = match PixelFormat::from_tag(tag) {
        None => return Err(FrameError::UnsupportedFormat),
        Some(f) => f,
    };
    let stride = format.stride(width);
    if let Err(e) = check_source(&input, height, stride, BufferRole::Input) {
        return Err(e);
    }
    if let Err(e) = check_source(&output, height, stride, BufferRole::Output) {
        return Err(e);
    }
    Ok(Dispatch {
        format,
        timestamp,
        input: BufferDescriptor {
            width,
            height,
            stride,
            rect: input_crop,
            rotation: input_rotation,
            source: input,
        },
        output: BufferDescriptor { width, height, stride, rect: None, rotation: None, source: output },
    })
}

} // verus!
