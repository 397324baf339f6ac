use gyroflow::dispatch::{plan_dispatch, BufferRole, BufferSource, CropRect, FrameError};
use gyroflow::number::Double;
use gyroflow::pixel::PixelFormat;

fn gpu(texture: u64) -> BufferSource {
    BufferSource::Gpu { texture, command_queue: 7 }
}

#[test]
fn unsupported_format_is_refused() {
    let r = plan_dispatch(b"RGB24", 64, 32, 0, gpu(1), gpu(2), None, None);
    assert_eq!(r, Err(FrameError::UnsupportedFormat));
}

#[test]
fn gpu_dispatch_carries_geometry_and_rotation() {
    let rot = Double::from_bits(90.0f64.to_bits());
    let crop = CropRect { x: 1, y: 2, width: 3, height: 4 };
    let d = plan_dispatch(b"RGBAf16", 1920, 1080, 42, gpu(1), gpu(2), Some(rot), Some(crop)).unwrap();
    assert_eq!(d.format, PixelFormat::Half16);
    assert_eq!(d.timestamp, 42);
    assert_eq!(d.input.stride, 1920 * 8);
    assert_eq!(d.output.stride, 1920 * 8);
    assert_eq!((d.input.width, d.input.height), (1920, 1080));
    assert_eq!((d.output.width, d.output.height), (1920, 1080));
    assert_eq!(d.input.rotation, Some(rot));
    assert_eq!(d.output.rotation, None);
    assert_eq!(d.input.rect, Some(crop));
    assert_eq!(d.output.rect, None);
    assert_eq!(d.input.source, gpu(1));
    assert_eq!(d.output.source, gpu(2));
}

#[test]
fn cpu_buffers_exactly_large_enough_pass() {
    let len = 64 * 4 * 32;
    let d = plan_dispatch(b"BGRA8Unorm", 64, 32, 0, BufferSource::Cpu { len }, BufferSource::Cpu { len }, None, None)
        .unwrap();
    assert_eq!(d.input.stride, 256);
    assert_eq!(d.format, PixelFormat::Fixed8);
}

#[test]
fn short_cpu_input_is_refused() {
    let len = 64 * 16 * 32;
    let r = plan_dispatch(b"RGBAf", 64, 32, 0, BufferSource::Cpu { len: len - 1 }, BufferSource::Cpu { len }, None, None);
    assert_eq!(
        r,
        Err(FrameError::BufferTooSmall { role: BufferRole::Input, required: len as u128, supplied: len - 1 })
    );
}

#[test]
fn short_cpu_output_is_refused() {
    let len = 10 * 8 * 3;
    let r = plan_dispatch(b"RGBAf16", 10, 3, 0, gpu(1), BufferSource::Cpu { len: 5 }, None, None);
    assert_eq!(
        r,
        Err(FrameError::BufferTooSmall { role: BufferRole::Output, required: len as u128, supplied: 5 })
    );
}

#[test]
fn huge_image_requirement_does_not_overflow() {
    let r = plan_dispatch(b"RGBAf", u32::MAX, u32::MAX, 0, BufferSource::Cpu { len: usize::MAX }, gpu(1), None, None);
    let required = u32::MAX as u128 * (u32::MAX as u128 * 16);
    assert_eq!(
        r,
        Err(FrameError::BufferTooSmall { role: BufferRole::Input, required, supplied: usize::MAX })
    );
}
