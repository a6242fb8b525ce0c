//! The two marker components by which the transform subsystem recognises an
//! entity as a child in a spatial hierarchy.
//!
//! The builder only ever attaches the identity local-to-parent transform; the
//! concrete semantics of parent links and transform propagation belong to the
//! transform subsystem, not to this crate.

use vstd::prelude::*;

verus! {

/// Marker component: the carrying entity is a child of the named entity.
#[derive(Clone, Copy, Debug, PartialEq, Eq)]
pub struct Parent(pub legion::entity::Entity);

/// Marker component: the carrying entity's local-to-parent transform is the
/// neutral element (no translation, no rotation, unit scale). The builder
/// attaches only this identity value, so the marker carries no payload.
#[derive(Clone, Copy, Debug, PartialEq, Eq, Structural)]
pub struct LocalToParent;

impl LocalToParent {
    /// The neutral local-to-parent transform.
    pub fn identity() -> (r: LocalToParent)
        ensures
            r == LocalToParent,
    {
        LocalToParent
    }
}

} // verus!
