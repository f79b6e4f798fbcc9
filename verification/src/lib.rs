//! ProjectRigor: the verified core of a physics-based robotics and animation
//! engine — frame statistics, input handling, ray-depth control, mesh
//! expansion and the rendering-mode choice.
use vstd::prelude::*;

pub mod ecs;
pub mod input;
pub mod mesh;
pub mod perf;
pub mod raytrace;
pub mod render_mode;

pub use ecs::{DynamicTag, RenderShape, StaticTag};
pub use perf::PerfTracker;
pub use raytrace::trace_step;
pub use render_mode::{RenderMode, RenderingMode};
