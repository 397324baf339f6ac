use gyroflow::cache::{CacheKey, ManagerCache};
use gyroflow::dispatch::{BufferSource, FrameError};
use gyroflow::frame::{process_frame, FrameRequest};
use gyroflow::number::Double;
use gyroflow::params::ParameterSnapshot;

fn d(x: f64) -> Double {
    Double::from_bits(x.to_bits())
}

fn params(fov: f64, smoothness: f64) -> ParameterSnapshot {
    ParameterSnapshot::new(d(fov), d(1.0), d(smoothness), d(0.0), d(0.0), d(0.0), d(0.0), d(0.0), false)
}

fn request(project: &str, tag: &str, p: ParameterSnapshot) -> FrameRequest {
    FrameRequest {
        key: CacheKey::new(project.as_bytes().to_vec(), b"clip".to_vec(), 640, 360, tag.as_bytes().to_vec(), false),
        params: p,
        timestamp: 1000,
        input_rotation: Some(d(0.0)),
        input_crop: None,
        input: BufferSource::Gpu { texture: 1, command_queue: 3 },
        output: BufferSource::Gpu { texture: 2, command_queue: 3 },
    }
}

#[test]
fn repeated_frame_recomputes_once() {
    let mut cache = ManagerCache::new(4);
    let req = request("a", "BGRA8Unorm", params(1.0, 0.5));
    let first = process_frame(&mut cache, &req).unwrap();
    let second = process_frame(&mut cache, &req).unwrap();
    assert!(first.constructed);
    assert_eq!(first.recompute, Some(req.params));
    assert!(!second.constructed);
    assert!(!second.changed);
    assert_eq!(second.recompute, None);
    assert_eq!(first.serial, second.serial);
    assert_eq!(first.dispatch, second.dispatch);
}

#[test]
fn capacity_one_evicts_and_reconstructs() {
    let mut cache = ManagerCache::new(1);
    let a1 = process_frame(&mut cache, &request("a", "BGRA8Unorm", params(1.0, 0.5))).unwrap();
    assert!(a1.constructed);
    assert_eq!(a1.evicted, None);
    let b = process_frame(&mut cache, &request("b", "BGRA8Unorm", params(1.0, 0.5))).unwrap();
    assert!(b.constructed);
    assert_eq!(b.evicted, Some(a1.serial));
    let a2 = process_frame(&mut cache, &request("a", "BGRA8Unorm", params(1.0, 0.5))).unwrap();
    assert!(a2.constructed);
    assert_ne!(a2.serial, a1.serial);
    assert_eq!(a2.evicted, Some(b.serial));
    assert!(a2.recompute.is_some());
    assert_eq!(cache.len(), 1);
}

#[test]
fn fov_change_triggers_one_recompute() {
    let mut cache = ManagerCache::new(2);
    let first = process_frame(&mut cache, &request("a", "RGBAf", params(1.0, 0.5))).unwrap();
    assert!(first.recompute.is_some());
    let changed = request("a", "RGBAf", params(0.9, 0.5));
    let second = process_frame(&mut cache, &changed).unwrap();
    assert!(!second.constructed);
    assert!(second.changed);
    assert_eq!(second.recompute, Some(changed.params));
    let third = process_frame(&mut cache, &changed).unwrap();
    assert!(!third.changed);
    assert_eq!(third.recompute, None);
}

#[test]
fn unsupported_format_leaves_cache_untouched() {
    let mut cache = ManagerCache::new(2);
    let r = process_frame(&mut cache, &request("a", "RGB24", params(1.0, 0.5)));
    assert_eq!(r, Err(FrameError::UnsupportedFormat));
    assert_eq!(cache.len(), 0);
}

#[test]
fn short_cpu_buffer_leaves_cache_untouched() {
    let mut cache = ManagerCache::new(2);
    let mut req = request("a", "BGRA8Unorm", params(1.0, 0.5));
    req.output = BufferSource::Cpu { len: 640 * 4 * 360 - 1 };
    let r = process_frame(&mut cache, &req);
    assert!(matches!(r, Err(FrameError::BufferTooSmall { .. })));
    assert_eq!(cache.len(), 0);
}

#[test]
fn dispatch_stride_follows_format() {
    let mut cache = ManagerCache::new(3);
    let f8 = process_frame(&mut cache, &request("a", "BGRA8Unorm", params(1.0, 0.5))).unwrap();
    let f16 = process_frame(&mut cache, &request("a", "RGBAf16", params(1.0, 0.5))).unwrap();
    let f32 = process_frame(&mut cache, &request("a", "RGBAf", params(1.0, 0.5))).unwrap();
    assert_eq!(f8.dispatch.input.stride, 640 * 4);
    assert_eq!(f16.dispatch.input.stride, 640 * 8);
    assert_eq!(f32.dispatch.output.stride, 640 * 16);
    assert!(f16.constructed && f32.constructed);
}

#[test]
fn same_key_with_new_parameters_hits() {
    let mut cache = ManagerCache::new(2);
    let first = process_frame(&mut cache, &request("a", "RGBAf16", params(1.0, 0.5))).unwrap();
    let mut later = request("a", "RGBAf16", params(1.0, 0.9));
    later.timestamp = 2000;
    let second = process_frame(&mut cache, &later).unwrap();
    assert!(first.constructed);
    assert!(!second.constructed);
    assert_eq!(second.serial, first.serial);
    assert_eq!(second.evicted, None);
    assert!(second.changed);
    assert_eq!(cache.len(), 1);
}
