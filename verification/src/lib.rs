//! A verified model of a real-time video streaming pipeline: once a session
//! is connected, a driver repeatedly captures a rendered frame, converts it
//! from BGRA to the planar I420 layout, stamps it with a monotonic
//! presentation time, and hands the encoded packets to an outbound track,
//! until the session ends or a pipeline stage fails.

use vstd::prelude::*;

pub mod b64;
pub mod convert;
pub mod driver;
pub mod gate;

pub use b64::decode;
pub use b64::encode;

verus! {

/// Nominal tick period of the pipeline clock, in milliseconds (about 60 Hz).
pub const DEFAULT_TICK_MS: u64 = 16;

/// Target bitrate handed to the encoder at startup, in kilobits per second.
pub const DEFAULT_BITRATE: u32 = 250;

/// Width and height of a frame, in pixels.
#[derive(Clone, Copy, PartialEq, Eq, Structural, Debug)]
pub struct Dimensions {
    pub width: u32,
    pub height: u32,
}

/// Configuration resolved once at startup and never re-negotiated
/// mid-session: output dimensions, encoder bitrate and timebase, and the
/// tick period of the pipeline clock.
#[derive(Clone, Copy, PartialEq, Eq, Structural, Debug)]
pub struct PipelineConfig {
    pub dims: Dimensions,
    pub bitrate: u32,
    pub timebase_num: u32,
    pub timebase_den: u32,
    pub tick_ms: u64,
}

impl PipelineConfig {
    /// Resolves the configuration for the requested output dimensions: the
    /// encoder timebase counts milliseconds, and bitrate and tick period
    /// take their nominal values.
    pub fn new(dims: Dimensions) -> (c: PipelineConfig)
        ensures
            c.dims == dims,
            c.bitrate == DEFAULT_BITRATE,
            c.timebase_num == 1,
            c.timebase_den == 1000,
            c.tick_ms == DEFAULT_TICK_MS,
    {
        PipelineConfig {
            dims,
            bitrate: DEFAULT_BITRATE,
            timebase_num: 1,
            timebase_den: 1000,
            tick_ms: DEFAULT_TICK_MS,
        }
    }
}

} // verus!
