//! Display configuration values consumed by the gaming display tuning.

use vstd::prelude::*;

verus! {

#[derive(Debug, Clone, Copy, PartialEq, Eq, Structural)]
pub struct Resolution {
    pub width: u32,
    pub height: u32,
}

#[derive(Debug, Clone, Copy, PartialEq, Eq, Structural)]
pub struct Position {
    pub x: i32,
    pub y: i32,
}

#[derive(Debug, Clone, Copy, PartialEq, Eq, Structural)]
pub enum Rotation {
    Normal,
    Left,
    Right,
    Inverted,
}

/// The variable-refresh-rate mode of a display.
#[derive(Debug, Clone, Copy, PartialEq, Eq, Structural)]
pub enum VrrMode {
    Disabled,
    GSync,
    FreeSync,
    Adaptive,
    Auto,
}

/// Frame-presentation choices applied while a game runs.
#[derive(Debug, Clone, Copy, PartialEq, Eq, Structural)]
pub struct GamingDisplaySettings {
    pub target_fps: u32,
    pub vsync_mode: VsyncMode,
    pub frame_pacing: bool,
    pub low_latency_mode: bool,
    pub hdr_gaming: bool,
    pub fullscreen_optimizations: bool,
}

#[derive(Debug, Clone, Copy, PartialEq, Eq, Structural)]
pub enum VsyncMode {
    Off,
    On,
    Adaptive,
    FastSync,
    Enhanced,
}

} // verus!
