// Cursor state-machine behaviour of the builder: fresh state, shifts on
// new-entity operations, archetype equivalence, and bulk-insert transparency.

use legion::entity::Entity;
use legion::world::EntityStore;
use legion::world::World;
use world_builder::builder::EntityArchetype;
use world_builder::builder::WorldBuilderSource;

#[derive(Clone, Copy, Debug, PartialEq)]
struct Glow(u32);

struct GlowArchetype;

impl EntityArchetype for GlowArchetype {
    fn insert(&self, world: &mut World) -> Entity {
        *world.insert((), vec![(Glow(7),)]).first().unwrap()
    }
}

#[test]
fn fresh_builder_has_empty_cursor() {
    let mut world = World::new();
    let b = world.build();
    assert!(b.current_entity().is_none());
    assert!(b.last_entity().is_none());
    b.build();
    assert_eq!(world.iter_entities().count(), 0);
}

#[test]
fn first_build_entity_fills_current_only() {
    let mut world = World::new();
    let pre = *world.insert((), vec![()]).first().unwrap();
    let b = world.build().build_entity();
    let e = b.current_entity().unwrap();
    assert!(b.last_entity().is_none());
    b.build();
    assert_ne!(e, pre);
    assert!(world.is_alive(e));
    assert_eq!(world.iter_entities().count(), 2);
}

#[test]
fn second_build_entity_shifts_cursor() {
    let mut world = World::new();
    let b = world.build().build_entity();
    let e1 = b.current_entity().unwrap();
    let b = b.build_entity();
    let e2 = b.current_entity().unwrap();
    let l = b.last_entity().unwrap();
    b.build();
    assert_ne!(e1, e2);
    assert_eq!(l, e1);
}

#[test]
fn third_build_entity_overwrites_last() {
    let mut world = World::new();
    let b = world.build().build_entity();
    let e1 = b.current_entity().unwrap();
    let b = b.build_entity();
    let e2 = b.current_entity().unwrap();
    let b = b.build_entity();
    let e3 = b.current_entity().unwrap();
    let l = b.last_entity().unwrap();
    b.build();
    assert_eq!(l, e2);
    assert_ne!(e3, e2);
    assert_ne!(l, e1);
}

#[test]
fn archetype_shifts_cursor_like_build_entity() {
    let mut world = World::new();
    let b = world.build().add_archetype(GlowArchetype);
    let e1 = b.current_entity().unwrap();
    assert!(b.last_entity().is_none());
    let b = b.add_archetype(GlowArchetype);
    let e2 = b.current_entity().unwrap();
    let l = b.last_entity().unwrap();
    b.build();
    assert_ne!(e1, e2);
    assert_eq!(l, e1);
    assert_eq!(*world.get_component::<Glow>(e1).unwrap(), Glow(7));
    assert_eq!(*world.get_component::<Glow>(e2).unwrap(), Glow(7));
}

#[test]
fn bulk_insert_leaves_cursor_untouched() {
    let mut world = World::new();
    let b = world.build().build_entity();
    let cur_before = b.current_entity();
    let last_before = b.last_entity();
    let b = b.add_entities((), vec![(Glow(1),), (Glow(2),)]);
    assert_eq!(b.current_entity(), cur_before);
    assert_eq!(b.last_entity(), last_before);
    b.build();
    assert_eq!(world.iter_entities().count(), 3);
}

#[test]
fn bulk_insert_from_fresh_builder_keeps_cursor_empty() {
    let mut world = World::new();
    let b = world.build().add_entities((), vec![(Glow(3),)]);
    assert!(b.current_entity().is_none());
    assert!(b.last_entity().is_none());
    b.build();
    assert_eq!(world.iter_entities().count(), 1);
}
