use vstd::prelude::*;

verus! {

/// Rendering mode for the application.
#[derive(Debug, Clone, Copy, PartialEq, Eq, Structural)]
pub enum RenderingMode {
    /// Hardware-accelerated ray tracing using Metal's ray tracing API
    HardwareRayTracing,
    /// Software ray tracing (CPU-based)
    SoftwareRayTracing,
    /// Traditional rasterization pipeline
    Rasterization,
}

/// The rendering-mode flags given on the command line.
///
/// At most one of them is meant to be set; when several are, hardware ray
/// tracing wins over software ray tracing, which wins over rasterization.
#[derive(Debug, Clone, Copy, PartialEq, Eq, Structural)]
pub struct RenderMode {
    /// Use hardware-accelerated ray tracing (Metal ray tracing)
    pub hw_rt: bool,
    /// Use software ray tracing (CPU-based)
    pub sw_rt: bool,
    /// Use rasterization (default Metal rendering pipeline)
    pub raster: bool,
}

/// The mode that a set of flags selects.
pub open spec fn selected_mode(hw_rt: bool, sw_rt: bool) -> RenderingMode {
    if hw_rt {
        RenderingMode::HardwareRayTracing
    } else if sw_rt {
        RenderingMode::SoftwareRayTracing
    } else {
        RenderingMode::Rasterization
    }
}

impl RenderMode {
    /// The rendering mode these flags select; rasterization when none is set.
    pub fn get_mode(&self) -> (mode: RenderingMode)
        ensures
            mode == selected_mode(self.hw_rt, self.sw_rt),
    {
        if self.hw_rt {
            RenderingMode::HardwareRayTracing
        } else if self.sw_rt {
            RenderingMode::SoftwareRayTracing
        } else {
            RenderingMode::Rasterization
        }
    }
}

} // verus!
