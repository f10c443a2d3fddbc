//! Variable-refresh-rate telemetry records.

use vstd::prelude::*;

verus! {

/// The refresh range a display supports and its current rate.
#[derive(Debug, Clone, Copy, PartialEq, Eq, Structural)]
pub struct VrrRange {
    pub min_hz: u32,
    pub max_hz: u32,
    pub current_hz: u32,
}

/// One frame's presentation measurements. Times are in nanoseconds.
#[derive(Debug, Clone, PartialEq)]
pub struct FrameData {
    pub timestamp: u64,
    pub display_id: String,
    pub frame_time_ns: u64,
    pub presentation_time_ns: u64,
    pub vrr_hz: u32,
    pub tearing_detected: bool,
    pub sync_event: bool,
}

/// How strongly a recommendation affects the play experience.
#[derive(Debug, Clone, Copy, PartialEq, Eq, Structural)]
pub enum ImpactLevel {
    Low,
    Medium,
    High,
    Critical,
}

} // verus!
