use gyroflow::pixel::PixelFormat;

#[test]
fn tags_resolve_to_formats() {
    assert_eq!(PixelFormat::from_tag(b"BGRA8Unorm"), Some(PixelFormat::Fixed8));
    assert_eq!(PixelFormat::from_tag(b"RGBAf16"), Some(PixelFormat::Half16));
    assert_eq!(PixelFormat::from_tag(b"RGBAf"), Some(PixelFormat::Float32));
    assert_eq!(PixelFormat::from_tag(b"RGB24"), None);
    assert_eq!(PixelFormat::from_tag(b""), None);
    assert_eq!(PixelFormat::from_tag(b"rgbaf"), None);
    assert_eq!(PixelFormat::from_tag(b"RGBAf32"), None);
}

#[test]
fn stride_per_format() {
    assert_eq!(PixelFormat::Fixed8.stride(1920), 1920 * 4);
    assert_eq!(PixelFormat::Half16.stride(1920), 1920 * 8);
    assert_eq!(PixelFormat::Float32.stride(1920), 1920 * 16);
    assert_eq!(PixelFormat::Fixed8.bytes_per_channel(), 1);
    assert_eq!(PixelFormat::Half16.bytes_per_channel(), 2);
    assert_eq!(PixelFormat::Float32.bytes_per_channel(), 4);
}

#[test]
fn stride_of_largest_width() {
    assert_eq!(PixelFormat::Float32.stride(u32::MAX), u32::MAX as u64 * 16);
    assert_eq!(PixelFormat::Fixed8.stride(0), 0);
}
