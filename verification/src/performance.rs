//! Performance monitoring vocabulary: hardware descriptions, bottleneck
//! classifications and overlay configuration.

use vstd::prelude::*;

verus! {

#[derive(Debug, Clone, Copy, PartialEq, Eq, Structural)]
pub enum SystemComponent {
    GPU,
    CPU,
    RAM,
    VRAM,
    Storage,
    Network,
    Thermal,
}

#[derive(Debug, Clone, Copy, PartialEq, Eq, Structural)]
pub enum BottleneckSeverity {
    Low,
    Medium,
    High,
    Critical,
}

/// The intended balance between frame rate and visual quality.
#[derive(Debug, Clone, Copy, PartialEq, Eq, Structural)]
pub enum QualityPreset {
    Performance,
    Balanced,
    Quality,
    Ultra,
}

/// A host hardware description, as detection reports it.
#[derive(Debug, Clone, PartialEq)]
pub struct HardwareInfo {
    pub cpu_model: String,
    pub cpu_cores: u32,
    pub cpu_threads: u32,
    pub ram_total_mb: u64,
    pub gpu_model: String,
    pub gpu_vram_mb: u64,
    pub gpu_driver_version: String,
    pub storage_type: StorageType,
    pub signature: String,
}

#[derive(Debug, Clone, Copy, PartialEq, Eq, Structural)]
pub enum StorageType {
    SSD,
    NVME,
    HDD,
    Unknown,
}

#[derive(Debug, Clone, Copy, PartialEq, Eq, Structural)]
pub enum ExportFormat {
    JSON,
    CSV,
}

#[derive(Debug, Clone, Copy, PartialEq, Eq, Structural)]
pub enum OverlayPosition {
    TopLeft,
    TopRight,
    BottomLeft,
    BottomRight,
    Center,
}

#[derive(Debug, Clone, Copy, PartialEq, Eq, Structural)]
pub enum MetricType {
    FPS,
    FrameTime,
    GPUUsage,
    GPUTemp,
    GPUMemory,
    CPUUsage,
    RAMUsage,
}

} // verus!
