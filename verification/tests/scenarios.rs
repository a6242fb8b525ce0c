// End-to-end chains against a real legion world: component attachment, tag
// attachment, hierarchies through relative parenting, archetypes, and bulk
// insertion alongside the parenting protocol.

use legion::entity::Entity;
use legion::world::EntityStore;
use legion::world::World;
use world_builder::builder::EntityArchetype;
use world_builder::builder::WorldBuilderSource;
use world_builder::transform::LocalToParent;
use world_builder::transform::Parent;

#[derive(Clone, Copy, Debug, PartialEq)]
struct HealthComponent {
    hp: u32,
}

#[derive(Clone, Copy, Debug, PartialEq)]
struct Position {
    x: f32,
    y: f32,
    z: f32,
}

#[derive(Clone, Copy, Debug, PartialEq)]
struct LightColor {
    r: u8,
    g: u8,
    b: u8,
}

impl LightColor {
    fn white() -> LightColor {
        LightColor { r: 255, g: 255, b: 255 }
    }
}

#[derive(Clone, Copy, Debug, PartialEq)]
struct Intensity(f32);

#[derive(Clone, Copy, Debug, PartialEq)]
struct Landmark(u64);

struct Light;

impl EntityArchetype for Light {
    fn insert(&self, world: &mut World) -> Entity {
        *world.insert((), vec![(LightColor::white(), Intensity(1.0))]).first().unwrap()
    }
}

#[test]
fn single_entity_one_component() {
    let mut world = World::new();
    world.build().build_entity().add(HealthComponent { hp: 10 }).build();
    let entities: Vec<Entity> = world.iter_entities().collect();
    assert_eq!(entities.len(), 1);
    let e = entities[0];
    assert_eq!(*world.get_component::<HealthComponent>(e).unwrap(), HealthComponent { hp: 10 });
    assert_eq!(world.entity_component_types(e).unwrap().len(), 1);
}

#[test]
fn two_entities_hierarchy() {
    let mut world = World::new();
    let b = world.build().build_entity().add(Position { x: 0.0, y: 0.0, z: 0.0 });
    let p = b.current_entity().unwrap();
    let b = b.build_entity().add(Position { x: 1.0, y: 2.0, z: 3.0 });
    let c = b.current_entity().unwrap();
    b.set_last_entity_as_parent().build();

    assert_eq!(world.iter_entities().count(), 2);
    assert_eq!(
        *world.get_component::<Position>(c).unwrap(),
        Position { x: 1.0, y: 2.0, z: 3.0 }
    );
    assert_eq!(*world.get_component::<Parent>(c).unwrap(), Parent(p));
    assert_eq!(*world.get_component::<LocalToParent>(c).unwrap(), LocalToParent);
    // exactly the three attached components: position and the two markers
    assert_eq!(world.entity_component_types(c).unwrap().len(), 3);
    assert_eq!(
        *world.get_component::<Position>(p).unwrap(),
        Position { x: 0.0, y: 0.0, z: 0.0 }
    );
    assert!(!world.has_component::<Parent>(p));
    assert!(!world.has_component::<LocalToParent>(p));
}

#[test]
fn archetype_then_parented_entity() {
    let mut world = World::new();
    let b = world.build().add_archetype(Light);
    let first = b.current_entity().unwrap();
    let b = b.build_entity().add(Position { x: 5.0, y: 0.0, z: 0.0 });
    let second = b.current_entity().unwrap();
    b.set_last_entity_as_parent().build();

    assert_eq!(world.iter_entities().count(), 2);
    assert_eq!(
        *world.get_component::<Position>(second).unwrap(),
        Position { x: 5.0, y: 0.0, z: 0.0 }
    );
    assert_eq!(*world.get_component::<Parent>(second).unwrap(), Parent(first));
    assert_eq!(*world.get_component::<LocalToParent>(second).unwrap(), LocalToParent);
    assert_eq!(*world.get_component::<LightColor>(first).unwrap(), LightColor::white());
    assert_eq!(*world.get_component::<Intensity>(first).unwrap(), Intensity(1.0));
    assert!(!world.has_component::<Parent>(first));
}

#[test]
fn bulk_insert_does_not_disturb_parenting() {
    let mut world = World::new();
    let b = world.build().build_entity();
    let first = b.current_entity().unwrap();
    let b = b.add_entities(
        (),
        vec![(Position { x: 9.0, y: 9.0, z: 9.0 },), (Position { x: 8.0, y: 8.0, z: 8.0 },)],
    );
    let b = b.build_entity();
    let child = b.current_entity().unwrap();
    b.set_last_entity_as_parent().build();

    assert_eq!(world.iter_entities().count(), 4);
    assert_eq!(*world.get_component::<Parent>(child).unwrap(), Parent(first));
    assert!(!world.has_component::<Position>(first));
}

#[test]
fn tag_attaches_to_current_entity() {
    let mut world = World::new();
    let b = world.build().build_entity().tag(Landmark(42));
    let e = b.current_entity().unwrap();
    b.build();
    assert_eq!(world.get_tag::<Landmark>(e), Some(&Landmark(42)));
}

#[test]
fn repeated_component_attachment_replaces_value() {
    let mut world = World::new();
    let b = world
        .build()
        .build_entity()
        .add(HealthComponent { hp: 10 })
        .add(HealthComponent { hp: 25 });
    let e = b.current_entity().unwrap();
    b.build();
    assert_eq!(*world.get_component::<HealthComponent>(e).unwrap(), HealthComponent { hp: 25 });
    assert_eq!(world.entity_component_types(e).unwrap().len(), 1);
}

#[test]
fn chained_parenting_follows_immediate_predecessor() {
    let mut world = World::new();
    let b = world.build().build_entity();
    let a = b.current_entity().unwrap();
    let b = b.build_entity().set_last_entity_as_parent();
    let m = b.current_entity().unwrap();
    let b = b.build_entity().set_last_entity_as_parent();
    let c = b.current_entity().unwrap();
    b.build();

    assert_eq!(*world.get_component::<Parent>(m).unwrap(), Parent(a));
    assert_eq!(*world.get_component::<Parent>(c).unwrap(), Parent(m));
    assert!(!world.has_component::<Parent>(a));
}

#[test]
fn local_to_parent_identity_is_the_marker_value() {
    assert_eq!(LocalToParent::identity(), LocalToParent);
}
