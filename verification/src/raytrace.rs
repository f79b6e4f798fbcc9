//! The depth control of the recursive ray tracer: at each depth, whether a
//! ray stops, shades the surface it hits, or also follows the reflection.
use vstd::prelude::*;

verus! {

/// What the tracer does with a ray at a given depth.
#[derive(Debug, Clone, Copy, PartialEq, Eq, Structural)]
pub enum TraceStep {
    /// The maximum depth is reached: the ray contributes black.
    Stop,
    /// The hit surface is shaded; no reflection is traced.
    Shade,
    /// The hit surface is shaded and a reflected ray is traced one level deeper.
    ShadeAndReflect,
}

/// The step taken at `depth` when tracing is limited to `max_depth` levels.
pub open spec fn step_at(depth: int, max_depth: int) -> TraceStep {
    if depth >= max_depth {
        TraceStep::Stop
    } else if depth < max_depth - 1 {
        TraceStep::ShadeAndReflect
    } else {
        TraceStep::Shade
    }
}

/// Decides what the tracer does at `depth`: nothing at or past `max_depth`,
/// and a reflection only while `depth < max_depth - 1`.
pub fn trace_step(depth: i32, max_depth: i32) -> (s: TraceStep)
    ensures
        s == step_at(depth as int, max_depth as int),
{
    if depth >= max_depth {
        TraceStep::Stop
    } else if depth < max_depth - 1 {
        TraceStep::ShadeAndReflect
    } else {
        TraceStep::Shade
    }
}

/// Number of surfaces shaded along one reflection path started at `depth`,
/// when every ray hits a surface.
pub open spec fn surfaces_shaded(depth: int, max_depth: int) -> nat
    decreases max_depth - depth,
{
    match step_at(depth, max_depth) {
        TraceStep::Stop => 0,
        TraceStep::Shade => 1,
        TraceStep::ShadeAndReflect => 1 + surfaces_shaded(depth + 1, max_depth),
    }
}

/// A path started at `depth` shades exactly `max_depth - depth` surfaces
/// (none when `depth >= max_depth`): the depth limit bounds the reflections.
pub proof fn lemma_surfaces_shaded(depth: int, max_depth: int)
    ensures
        surfaces_shaded(depth, max_depth) == (if depth >= max_depth {
            0
        } else {
            max_depth - depth
        }),
    decreases max_depth - depth,
{
    if depth < max_depth - 1 {
        lemma_surfaces_shaded(depth + 1, max_depth);
    }
}

/// A reflected ray is never stopped at the next level: every reflection
/// that is traced shades a surface.
pub proof fn lemma_reflection_is_shaded(depth: int, max_depth: int)
    requires
        step_at(depth, max_depth) == TraceStep::ShadeAndReflect,
    ensures
        step_at(depth + 1, max_depth) != TraceStep::Stop,
{
}

} // verus!
