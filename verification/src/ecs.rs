//! Shape and tag components of the entity-component system.
use vstd::prelude::*;

verus! {

/// The types of shapes that can be rendered.
#[derive(Debug, Clone, Copy, PartialEq, Eq, Structural)]
pub enum RenderShape {
    /// A cube (1×1×1 unit box by default, scaled by transform)
    Cube,
    /// A sphere (radius 0.5 by default, scaled by transform)
    Sphere,
}

/// A tag component marking an entity as static (non-moving): its transform
/// is not updated from physics.
#[derive(Debug, Clone, Copy)]
pub struct StaticTag;

/// A tag component marking an entity as dynamic (physics-controlled): its
/// transform follows its rigid body each frame.
#[derive(Debug, Clone, Copy)]
pub struct DynamicTag;

} // verus!
