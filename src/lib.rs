//! Frame-processing orchestration for a video stabilization engine: a bounded
//! cache of stabilization contexts, parameter reconciliation, the
//! invalidate/recompute protocol and the pixel-format buffer dispatcher.
pub mod bytes;
pub mod number;
pub mod params;
pub mod pixel;
pub mod dispatch;
pub mod context;
pub mod lru_store;
pub mod cache;
pub mod frame;
pub mod status;
