//! The per-entity data that the systems read and write.
//!
//! Materials and mesh assets are owned by the scene collaborator; here they
//! are opaque numeric handles.

use vstd::prelude::*;

verus! {

/// Handle of the entity's collider in the physics world; exactly one per
/// entity that participates in physics, immutable once attached.
#[derive(Clone, Copy, Debug, PartialEq, Eq, Structural)]
pub struct PhysicsBody(pub u64);

/// Marks an entity as eligible for picking and holding, and carries the two
/// material handles between which the grab state machine swaps.
#[derive(Clone, Copy, Debug, PartialEq, Eq, Structural)]
pub struct Grabbable {
    pub default_material: u64,
    pub selected_material: u64,
}

/// Marks an entity whose mesh is still being loaded; cleared once its
/// physics body has been created from the mesh.
#[derive(Clone, Copy, Debug, PartialEq, Eq, Structural, Default)]
pub struct Loading;

/// Marks an entity as eligible for merging with its contact neighbours.
#[derive(Clone, Copy, Debug, PartialEq, Eq, Structural, Default)]
pub struct Mergeable;

/// Marks the player's own physical representation; exactly one per session.
#[derive(Clone, Copy, Debug, PartialEq, Eq, Structural, Default)]
pub struct CameraSelf;

} // verus!
