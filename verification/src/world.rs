//! Trusted boundary around the legion ECS runtime.
//!
//! The world is modelled by five named observations: the set of entities
//! alive in it, the parent markers attached to them, the identity
//! local-to-parent markers attached to them, and the number of component and
//! tag types each entity carries. Every call into legion that the builder
//! makes goes through one of the wrappers below, whose contracts state what
//! legion's source shows over those names. Nothing else in the crate is taken
//! on trust.

use vstd::prelude::*;

use crate::transform::LocalToParent;
use crate::transform::Parent;
use legion::entity::Entity;
use legion::world::World;

verus! {

/// Declares legion's `World` so signatures and contracts can mention it.
#[verifier::external_type_specification]
#[verifier::external_body]
pub struct ExWorld(World);

/// Declares legion's `Entity`: the opaque, copyable identifier the runtime
/// mints. The builder never looks inside one.
#[verifier::external_type_specification]
#[verifier::external_body]
pub struct ExEntity(Entity);

/// The set of entities alive in a world.
pub uninterp spec fn world_entities(w: World) -> Set<Entity>;

/// Which entities of a world carry a `Parent` marker component, and the
/// parent entity each marker names. legion stores at most one component of a
/// type per entity, and only live entities carry components, so a map whose
/// domain lies within the live entities captures the storage exactly.
pub uninterp spec fn parent_links(w: World) -> Map<Entity, Entity>;

/// Which entities of a world carry the identity `LocalToParent` marker
/// component. The marker type has a single value, and only live entities
/// carry components, so a set of live entities captures the storage exactly.
pub uninterp spec fn local_to_parent_marked(w: World) -> Set<Entity>;

/// How many distinct component types an entity of a world carries. legion
/// stores at most one component per type per entity; an entity that is not
/// alive carries nothing, so its count is zero.
pub uninterp spec fn component_type_count(w: World, e: Entity) -> nat;

/// How many distinct tag types an entity of a world carries; zero for an
/// entity that is not alive.
pub uninterp spec fn tag_type_count(w: World, e: Entity) -> nat;

/// Every attachment observation agrees between two worlds on every entity of
/// `s`: both marker observations and both type counts.
pub open spec fn attachments_preserved_on(w0: World, w1: World, s: Set<Entity>) -> bool {
    &&& forall|x: Entity| #[trigger]
        s.contains(x) ==> parent_links(w1).contains_key(x) == parent_links(w0).contains_key(x)
    &&& forall|x: Entity|
        s.contains(x) && #[trigger] parent_links(w0).contains_key(x) ==> parent_links(w1)[x]
            == parent_links(w0)[x]
    &&& forall|x: Entity| #[trigger]
        s.contains(x) ==> local_to_parent_marked(w1).contains(x) == local_to_parent_marked(
            w0,
        ).contains(x)
    &&& forall|x: Entity| #[trigger]
        s.contains(x) ==> component_type_count(w1, x) == component_type_count(w0, x)
    &&& forall|x: Entity| #[trigger]
        s.contains(x) ==> tag_type_count(w1, x) == tag_type_count(w0, x)
}

/// Both type counts agree between two worlds on every entity but `e`.
pub open spec fn counts_preserved_but(w0: World, w1: World, e: Entity) -> bool {
    &&& forall|x: Entity|
        x != e ==> #[trigger] component_type_count(w1, x) == component_type_count(w0, x)
    &&& forall|x: Entity| x != e ==> #[trigger] tag_type_count(w1, x) == tag_type_count(w0, x)
}

/// Relies on legion's `World::insert` with no tags and one empty component
/// tuple: it allocates exactly one entity, distinct from every entity alive
/// before the call — so one carrying no markers — and attaches nothing to it,
/// leaving every other entity's attachments untouched.
#[verifier::external_body]
pub(crate) fn insert_unit_entity(w: &mut World) -> (e: Entity)
    ensures
        !world_entities(*old(w)).contains(e),
        !parent_links(*old(w)).contains_key(e),
        !local_to_parent_marked(*old(w)).contains(e),
        world_entities(*final(w)) == world_entities(*old(w)).insert(e),
        parent_links(*final(w)) == parent_links(*old(w)),
        local_to_parent_marked(*final(w)) == local_to_parent_marked(*old(w)),
        component_type_count(*final(w), e) == 0,
        tag_type_count(*final(w), e) == 0,
        counts_preserved_but(*old(w), *final(w), e),
{
    *w.insert((), vec![()]).first().unwrap()
}

/// Relies on legion's `World::insert`: it allocates one entity per element of
/// the component source, leaving every entity alive before the call alive
/// with all its attachments untouched. How many entities appear and what they
/// carry depend on the source, so no more is stated.
#[verifier::external_body]
pub(crate) fn insert_bulk<T, C>(w: &mut World, tags: T, components: C) where
    T: legion::world::TagSet + legion::world::TagLayout + for<'b> legion::filter::Filter<
        legion::filter::ChunksetFilterData<'b>,
    >,
    C: legion::world::IntoComponentSource,

    ensures
        world_entities(*old(w)).subset_of(world_entities(*final(w))),
        attachments_preserved_on(*old(w), *final(w), world_entities(*old(w))),
{
    w.insert(tags, components);
}

/// Relies on legion's `World::add_component`: on a dead entity it returns an
/// error and changes nothing; on a live one it attaches or replaces that
/// entity's single component of the given type, so the entity ends with at
/// least one component type and its count stays or grows by one. Either way
/// no entity is created or destroyed, tags are untouched, and no other
/// entity's attachments move. The error is discarded, as the builder's chain
/// discards it.
#[verifier::external_body]
pub(crate) fn add_component_to<T: legion::storage::Component>(w: &mut World, e: Entity, component: T)
    ensures
        world_entities(*final(w)) == world_entities(*old(w)),
        parent_links(*final(w)).remove(e) == parent_links(*old(w)).remove(e),
        local_to_parent_marked(*final(w)).remove(e) == local_to_parent_marked(*old(w)).remove(e),
        world_entities(*old(w)).contains(e) ==> component_type_count(*final(w), e) >= 1,
        world_entities(*old(w)).contains(e) ==> (component_type_count(*final(w), e)
            == component_type_count(*old(w), e) || component_type_count(*final(w), e)
            == component_type_count(*old(w), e) + 1),
        !world_entities(*old(w)).contains(e) ==> component_type_count(*final(w), e)
            == component_type_count(*old(w), e),
        tag_type_count(*final(w), e) == tag_type_count(*old(w), e),
        counts_preserved_but(*old(w), *final(w), e),
{
    let _ = w.add_component(e, component);
}

/// Relies on legion's `World::add_tag`: on a dead entity it returns an error
/// and changes nothing; on a live one it attaches or replaces that entity's
/// single tag of the given type, so the entity ends with at least one tag
/// type and its count stays or grows by one. Tags live in chunk-level
/// storage, apart from components, so the entity set, both marker
/// observations and every component count are unchanged whatever the
/// outcome, and no other entity's tags move. The error is discarded, as the
/// builder's chain discards it.
#[verifier::external_body]
pub(crate) fn add_tag_to<T: legion::storage::Tag>(w: &mut World, e: Entity, tag: T)
    ensures
        world_entities(*final(w)) == world_entities(*old(w)),
        parent_links(*final(w)) == parent_links(*old(w)),
        local_to_parent_marked(*final(w)) == local_to_parent_marked(*old(w)),
        world_entities(*old(w)).contains(e) ==> tag_type_count(*final(w), e) >= 1,
        world_entities(*old(w)).contains(e) ==> (tag_type_count(*final(w), e) == tag_type_count(
            *old(w),
            e,
        ) || tag_type_count(*final(w), e) == tag_type_count(*old(w), e) + 1),
        !world_entities(*old(w)).contains(e) ==> tag_type_count(*final(w), e) == tag_type_count(
            *old(w),
            e,
        ),
        component_type_count(*final(w), e) == component_type_count(*old(w), e),
        counts_preserved_but(*old(w), *final(w), e),
{
    let _ = w.add_tag(e, tag);
}

/// Relies on legion's `World::add_component` at the `Parent` marker type: on
/// a live entity the marker is attached or replaced, which is exactly a map
/// update at that entity — its component count grows by one exactly when the
/// marker was absent; on a dead one nothing changes. Tags, the other marker
/// and every other entity's attachments are untouched.
#[verifier::external_body]
pub(crate) fn attach_parent_marker(w: &mut World, e: Entity, parent: Entity)
    ensures
        world_entities(*final(w)) == world_entities(*old(w)),
        world_entities(*old(w)).contains(e) ==> parent_links(*final(w)) == parent_links(
            *old(w),
        ).insert(e, parent),
        !world_entities(*old(w)).contains(e) ==> parent_links(*final(w)) == parent_links(*old(w)),
        local_to_parent_marked(*final(w)) == local_to_parent_marked(*old(w)),
        world_entities(*old(w)).contains(e) && !parent_links(*old(w)).contains_key(e)
            ==> component_type_count(*final(w), e) == component_type_count(*old(w), e) + 1,
        world_entities(*old(w)).contains(e) && parent_links(*old(w)).contains_key(e)
            ==> component_type_count(*final(w), e) == component_type_count(*old(w), e),
        !world_entities(*old(w)).contains(e) ==> component_type_count(*final(w), e)
            == component_type_count(*old(w), e),
        tag_type_count(*final(w), e) == tag_type_count(*old(w), e),
        counts_preserved_but(*old(w), *final(w), e),
{
    let _ = w.add_component(e, Parent(parent));
}

/// Relies on legion's `World::add_component` at the `LocalToParent` marker
/// type: on a live entity the identity marker is attached (or re-attached),
/// which is exactly a set insertion — the entity's component count grows by
/// one exactly when the marker was absent; on a dead one nothing changes.
/// Tags, the other marker and every other entity's attachments are untouched.
#[verifier::external_body]
pub(crate) fn attach_local_to_parent_marker(w: &mut World, e: Entity)
    ensures
        world_entities(*final(w)) == world_entities(*old(w)),
        world_entities(*old(w)).contains(e) ==> local_to_parent_marked(*final(w))
            == local_to_parent_marked(*old(w)).insert(e),
        !world_entities(*old(w)).contains(e) ==> local_to_parent_marked(*final(w))
            == local_to_parent_marked(*old(w)),
        parent_links(*final(w)) == parent_links(*old(w)),
        world_entities(*old(w)).contains(e) && !local_to_parent_marked(*old(w)).contains(e)
            ==> component_type_count(*final(w), e) == component_type_count(*old(w), e) + 1,
        world_entities(*old(w)).contains(e) && local_to_parent_marked(*old(w)).contains(e)
            ==> component_type_count(*final(w), e) == component_type_count(*old(w), e),
        !world_entities(*old(w)).contains(e) ==> component_type_count(*final(w), e)
            == component_type_count(*old(w), e),
        tag_type_count(*final(w), e) == tag_type_count(*old(w), e),
        counts_preserved_but(*old(w), *final(w), e),
{
    let _ = w.add_component(e, LocalToParent);
}

} // verus!
