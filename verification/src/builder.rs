//! A fluent entity-construction helper over a legion world.
//!
//! The builder is a move-through handle: it holds an exclusive borrow of the
//! world for the whole chain, together with a two-slot cursor — `current`, the
//! entity the next mutating operation targets, and `last`, the entity that was
//! current before the most recent new-entity operation. The cursor lets a
//! caller parent a new entity to the previously built one without naming
//! entities explicitly.

use vstd::prelude::*;

use crate::world::add_component_to;
use crate::world::add_tag_to;
use crate::world::attach_local_to_parent_marker;
use crate::world::attach_parent_marker;
use crate::world::insert_bulk;
use crate::world::insert_unit_entity;
use crate::world::local_to_parent_marked;
use crate::world::attachments_preserved_on;
use crate::world::component_type_count;
use crate::world::counts_preserved_but;
use crate::world::tag_type_count;
use crate::world::parent_links;
use crate::world::world_entities;
use legion::entity::Entity;
use legion::world::World;

verus! {

/// The cursor transition every new-entity operation performs: the fresh
/// entity becomes current, and the outgoing current — if there was one —
/// moves into the last slot; from an empty current slot, last is untouched.
pub open spec fn shifted(cur: Option<Entity>, last: Option<Entity>, e: Entity) -> (
    Option<Entity>,
    Option<Entity>,
) {
    (Some(e), if cur.is_some() { cur } else { last })
}

/// Both cursor slots name entities alive in the world, and the last slot is
/// only ever occupied while the current slot is.
pub open spec fn cursor_wf(cur: Option<Entity>, last: Option<Entity>, w: World) -> bool {
    &&& (cur.is_some() ==> world_entities(w).contains(cur.unwrap()))
    &&& (last.is_some() ==> world_entities(w).contains(last.unwrap()))
    &&& (last.is_some() ==> cur.is_some())
}

/// The precondition of `set_last_entity_as_parent`: a current entity to
/// attach the markers to, and a last entity for the parent marker to name.
pub open spec fn parenting_enabled(cur: Option<Entity>, last: Option<Entity>) -> bool {
    cur.is_some() && last.is_some()
}

/// A fresh builder admits no parenting: with both cursor slots empty, the
/// precondition of `set_last_entity_as_parent` cannot hold.
pub proof fn lemma_fresh_builder_rejects_parenting(cur: Option<Entity>, last: Option<Entity>)
    requires
        cur.is_none(),
        last.is_none(),
    ensures
        !parenting_enabled(cur, last),
{
}

/// Cursor shift: after two new-entity transitions in a row, the cursor holds
/// the second entity and remembers the first, whatever it held before; and
/// since the first entity is alive in the world the second is drawn fresh
/// from, the two are distinct.
pub proof fn lemma_cursor_shift(
    cur: Option<Entity>,
    last: Option<Entity>,
    w: World,
    e1: Entity,
    e2: Entity,
)
    requires
        world_entities(w).contains(e1),
        !world_entities(w).contains(e2),
    ensures
        ({
            let (c1, l1) = shifted(cur, last, e1);
            let (c2, l2) = shifted(c1, l1, e2);
            c2 == Some(e2) && l2 == Some(e1) && e1 != e2
        }),
{
}

/// An archetype: a recipe that spawns its standard entity into a world and
/// returns the identifier of the primary resulting entity. An implementation
/// must mint that entity fresh, leave every previously alive entity alive,
/// and leave the attachments of previously alive entities untouched.
pub trait EntityArchetype {
    fn insert(&self, world: &mut World) -> (e: Entity)
        ensures
            !world_entities(*old(world)).contains(e),
            world_entities(*final(world)).contains(e),
            world_entities(*old(world)).subset_of(world_entities(*final(world))),
            attachments_preserved_on(*old(world), *final(world), world_entities(*old(world))),
    ;
}

/// A move-through handle that accumulates configuration against the current
/// entity and remembers the previous one to support relative parenting.
pub struct WorldBuilder<'a> {
    pub world: &'a mut World,
    pub current_entity: Option<Entity>,
    pub last_entity: Option<Entity>,
}

/// The factory capability: a world yields a fresh builder bound to it, with
/// both cursor slots empty.
pub trait WorldBuilderSource {
    fn build(&mut self) -> (r: WorldBuilder<'_>)
        ensures
            r.current_entity.is_none(),
            r.last_entity.is_none(),
    ;
}

impl WorldBuilderSource for World {
    /// A fresh builder: both cursor slots empty, writing into this world,
    /// which it leaves untouched until a chained operation runs.
    fn build(&mut self) -> (r: WorldBuilder<'_>)
        ensures
            r.current_entity.is_none(),
            r.last_entity.is_none(),
            *r.world == *old(self),
            *final(r.world) == *final(self),
    {
        WorldBuilder { world: self, current_entity: None, last_entity: None }
    }
}

impl<'a> WorldBuilder<'a> {
    /// The builder's invariant: its cursor is well formed over its world.
    pub open spec fn wf(self) -> bool {
        cursor_wf(self.current_entity, self.last_entity, *self.world)
    }

    /// Asks the world for one new entity with no tags and no components,
    /// then shifts the cursor onto it.
    pub fn build_entity(self) -> (r: Self)
        requires
            self.wf(),
        ensures
            r.wf(),
            r.current_entity.is_some(),
            (r.current_entity, r.last_entity) == shifted(
                self.current_entity,
                self.last_entity,
                r.current_entity.unwrap(),
            ),
            !world_entities(*old(self.world)).contains(r.current_entity.unwrap()),
            world_entities(*r.world) == world_entities(*old(self.world)).insert(
                r.current_entity.unwrap(),
            ),
            parent_links(*r.world) == parent_links(*old(self.world)),
            local_to_parent_marked(*r.world) == local_to_parent_marked(*old(self.world)),
            !parent_links(*r.world).contains_key(r.current_entity.unwrap()),
            !local_to_parent_marked(*r.world).contains(r.current_entity.unwrap()),
            component_type_count(*r.world, r.current_entity.unwrap()) == 0,
            tag_type_count(*r.world, r.current_entity.unwrap()) == 0,
            counts_preserved_but(*old(self.world), *r.world, r.current_entity.unwrap()),
            *final(r.world) == *final(self.world),
    {
        let WorldBuilder { world, current_entity, last_entity } = self;
        let e = insert_unit_entity(&mut *world);
        let new_last = if current_entity.is_some() {
            current_entity
        } else {
            last_entity
        };
        WorldBuilder { world, current_entity: Some(e), last_entity: new_last }
    }

    /// Attaches a component to the current entity, which must exist. This is
    /// slow in the underlying runtime — the entity may be copied to another
    /// storage chunk — and the cost is accepted. An ECS-level failure is
    /// swallowed: the chain goes on, the entity set is unchanged, and no
    /// entity but the current one can have its markers moved (they move only
    /// when the component is itself a marker type).
    pub fn add<T: legion::storage::Component>(self, component: T) -> (r: Self)
        requires
            self.wf(),
            self.current_entity.is_some(),
        ensures
            r.wf(),
            r.current_entity == self.current_entity,
            r.last_entity == self.last_entity,
            world_entities(*r.world) == world_entities(*old(self.world)),
            parent_links(*r.world).remove(self.current_entity.unwrap()) == parent_links(
                *old(self.world),
            ).remove(self.current_entity.unwrap()),
            local_to_parent_marked(*r.world).remove(self.current_entity.unwrap())
                == local_to_parent_marked(*old(self.world)).remove(self.current_entity.unwrap()),
            component_type_count(*r.world, self.current_entity.unwrap()) >= 1,
            component_type_count(*r.world, self.current_entity.unwrap()) == component_type_count(
                *old(self.world),
                self.current_entity.unwrap(),
            ) || component_type_count(*r.world, self.current_entity.unwrap())
                == component_type_count(*old(self.world), self.current_entity.unwrap()) + 1,
            tag_type_count(*r.world, self.current_entity.unwrap()) == tag_type_count(
                *old(self.world),
                self.current_entity.unwrap(),
            ),
            counts_preserved_but(*old(self.world), *r.world, self.current_entity.unwrap()),
            *final(r.world) == *final(self.world),
    {
        let WorldBuilder { world, current_entity, last_entity } = self;
        let e = current_entity.unwrap();
        add_component_to(&mut *world, e, component);
        WorldBuilder { world, current_entity, last_entity }
    }

    /// Attaches a tag to the current entity, which must exist. Tags live in
    /// chunk-level storage apart from components, so the cursor, the entity
    /// set and both marker observations are untouched whatever the outcome;
    /// an ECS-level failure is swallowed.
    pub fn tag<T: legion::storage::Tag>(self, tag: T) -> (r: Self)
        requires
            self.wf(),
            self.current_entity.is_some(),
        ensures
            r.wf(),
            r.current_entity == self.current_entity,
            r.last_entity == self.last_entity,
            world_entities(*r.world) == world_entities(*old(self.world)),
            parent_links(*r.world) == parent_links(*old(self.world)),
            local_to_parent_marked(*r.world) == local_to_parent_marked(*old(self.world)),
            tag_type_count(*r.world, self.current_entity.unwrap()) >= 1,
            tag_type_count(*r.world, self.current_entity.unwrap()) == tag_type_count(
                *old(self.world),
                self.current_entity.unwrap(),
            ) || tag_type_count(*r.world, self.current_entity.unwrap()) == tag_type_count(
                *old(self.world),
                self.current_entity.unwrap(),
            ) + 1,
            component_type_count(*r.world, self.current_entity.unwrap()) == component_type_count(
                *old(self.world),
                self.current_entity.unwrap(),
            ),
            counts_preserved_but(*old(self.world), *r.world, self.current_entity.unwrap()),
            *final(r.world) == *final(self.world),
    {
        let WorldBuilder { world, current_entity, last_entity } = self;
        let e = current_entity.unwrap();
        add_tag_to(&mut *world, e, tag);
        WorldBuilder { world, current_entity, last_entity }
    }

    /// Delegates to the world's bulk insert, which creates zero or more
    /// entities sharing the tags with per-entity components drawn from the
    /// source. The cursor is not touched: bulk insertion is a side channel
    /// that takes no part in the parenting protocol. Every entity alive
    /// before the call stays alive with its markers untouched.
    pub fn add_entities<T, C>(self, tags: T, components: C) -> (r: Self) where
        T: legion::world::TagSet + legion::world::TagLayout + for<'b> legion::filter::Filter<
            legion::filter::ChunksetFilterData<'b>,
        >,
        C: legion::world::IntoComponentSource,

        requires
            self.wf(),
        ensures
            r.wf(),
            r.current_entity == self.current_entity,
            r.last_entity == self.last_entity,
            world_entities(*old(self.world)).subset_of(world_entities(*r.world)),
            attachments_preserved_on(*old(self.world), *r.world, world_entities(*old(self.world))),
            *final(r.world) == *final(self.world),
    {
        let WorldBuilder { world, current_entity, last_entity } = self;
        insert_bulk(&mut *world, tags, components);
        WorldBuilder { world, current_entity, last_entity }
    }

    /// Invokes the archetype's `insert` against the builder's world and
    /// shifts the cursor onto the primary entity it returns — exactly the
    /// transition `build_entity` performs; only the components attached to
    /// the new entity differ.
    pub fn add_archetype<A: EntityArchetype>(self, entity_archetype: A) -> (r: Self)
        requires
            self.wf(),
        ensures
            r.wf(),
            r.current_entity.is_some(),
            (r.current_entity, r.last_entity) == shifted(
                self.current_entity,
                self.last_entity,
                r.current_entity.unwrap(),
            ),
            !world_entities(*old(self.world)).contains(r.current_entity.unwrap()),
            world_entities(*r.world).contains(r.current_entity.unwrap()),
            world_entities(*old(self.world)).subset_of(world_entities(*r.world)),
            attachments_preserved_on(*old(self.world), *r.world, world_entities(*old(self.world))),
            *final(r.world) == *final(self.world),
    {
        let WorldBuilder { world, current_entity, last_entity } = self;
        let e = entity_archetype.insert(&mut *world);
        let new_last = if current_entity.is_some() {
            current_entity
        } else {
            last_entity
        };
        WorldBuilder { world, current_entity: Some(e), last_entity: new_last }
    }

    /// Attaches exactly two markers to the current entity: a parent marker
    /// naming the last entity, and the identity local-to-parent transform.
    /// Both cursor slots must be occupied; the cursor is not moved.
    pub fn set_last_entity_as_parent(self) -> (r: Self)
        requires
            self.wf(),
            parenting_enabled(self.current_entity, self.last_entity),
        ensures
            r.wf(),
            r.current_entity == self.current_entity,
            r.last_entity == self.last_entity,
            world_entities(*r.world) == world_entities(*old(self.world)),
            parent_links(*r.world) == parent_links(*old(self.world)).insert(
                self.current_entity.unwrap(),
                self.last_entity.unwrap(),
            ),
            local_to_parent_marked(*r.world) == local_to_parent_marked(*old(self.world)).insert(
                self.current_entity.unwrap(),
            ),
            component_type_count(*r.world, self.current_entity.unwrap()) == component_type_count(
                *old(self.world),
                self.current_entity.unwrap(),
            ) + (if parent_links(*old(self.world)).contains_key(self.current_entity.unwrap()) {
                0int
            } else {
                1int
            }) + (if local_to_parent_marked(*old(self.world)).contains(
                self.current_entity.unwrap(),
            ) {
                0int
            } else {
                1int
            }),
            tag_type_count(*r.world, self.current_entity.unwrap()) == tag_type_count(
                *old(self.world),
                self.current_entity.unwrap(),
            ),
            counts_preserved_but(*old(self.world), *r.world, self.current_entity.unwrap()),
            *final(r.world) == *final(self.world),
    {
        let WorldBuilder { world, current_entity, last_entity } = self;
        let cur = current_entity.unwrap();
        let last = last_entity.unwrap();
        attach_parent_marker(&mut *world, cur, last);
        attach_local_to_parent_marker(&mut *world, cur);
        WorldBuilder { world, current_entity, last_entity }
    }

    /// The current cursor slot: the entity the next mutating operation
    /// targets, if any entity has been built yet.
    pub fn current_entity(&self) -> (r: Option<Entity>)
        ensures
            r == self.current_entity,
    {
        self.current_entity
    }

    /// The last cursor slot: the entity that was current before the most
    /// recent new-entity operation, if two have been built yet.
    pub fn last_entity(&self) -> (r: Option<Entity>)
        ensures
            r == self.last_entity,
    {
        self.last_entity
    }

    /// The terminal no-op finalizer: discards the handle and releases the
    /// exclusive borrow, leaving the world exactly as the chain left it.
    pub fn build(self)
        ensures
            *final(self.world) == *old(self.world),
    {
    }
}

} // verus!
