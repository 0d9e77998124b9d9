//! The keyed stores, the weak registry, ids and events.

use vulkust::event::{ButtonAction, Event, Type};
use vulkust::object::{Base as ObjectBase, IdGenerator, Object};
use vulkust::storage::{Storage, WeakStorage};

fn named(gen: &mut IdGenerator, name: &str) -> ObjectBase {
    ObjectBase::builder().name(name.to_string()).build(gen)
}

#[test]
fn ids_are_unique_and_monotonic() {
    let mut gen = IdGenerator::new();
    let a = gen.create_id();
    let b = gen.create_id();
    let c = gen.create_id();
    assert_eq!(a, 1);
    assert_eq!(b, 2);
    assert_eq!(c, 3);
}

#[test]
fn builder_keeps_chosen_id_and_name() {
    let mut gen = IdGenerator::new();
    let explicit = ObjectBase::builder().id(42).name("camera".to_string()).build(&mut gen);
    assert_eq!(explicit.get_id(), 42);
    assert_eq!(explicit.get_name(), Some("camera"));
    let drawn = ObjectBase::builder().build(&mut gen);
    assert_eq!(drawn.get_id(), 1);
    assert_eq!(drawn.get_name(), None);
}

#[test]
fn storage_finds_by_id_and_name() {
    let mut gen = IdGenerator::new();
    let mut store: Storage<ObjectBase> = Storage::new();
    let a = named(&mut gen, "albedo");
    let a_id = a.get_id();
    store.insert(a);
    let b = named(&mut gen, "normal");
    let b_id = b.get_id();
    store.insert(b);
    assert_eq!(store.get_with_id(a_id).unwrap().get_name(), Some("albedo"));
    assert_eq!(store.get_with_name(&"normal".to_string()).unwrap().get_id(), b_id);
    assert!(store.get_with_id(999).is_none());
    assert!(store.get_with_name(&"depth".to_string()).is_none());
}

#[test]
fn storage_deletes_by_either_key() {
    let mut gen = IdGenerator::new();
    let mut store: Storage<ObjectBase> = Storage::new();
    let a = named(&mut gen, "position");
    let a_id = a.get_id();
    store.insert(a);
    let b = named(&mut gen, "depth");
    let b_id = b.get_id();
    store.insert(b);
    store.delete_with_id(a_id);
    assert!(store.get_with_id(a_id).is_none());
    assert!(store.get_with_id(b_id).is_some());
    store.delete_with_name(&"depth".to_string());
    assert!(store.get_with_id(b_id).is_none());
}

#[test]
fn weak_registry_upgrades_against_the_owner() {
    let mut gen = IdGenerator::new();
    let mut owner: Storage<ObjectBase> = Storage::new();
    let t = named(&mut gen, "g-buffer-template");
    let t_id = t.get_id();
    owner.insert(t);
    let mut registry = WeakStorage::new();
    registry.insert(t_id, Some("g-buffer-template".to_string()));
    assert_eq!(
        registry.get_with_id(t_id, &owner).unwrap().get_id(),
        t_id
    );
    assert_eq!(
        registry
            .get_with_name(&"g-buffer-template".to_string(), &owner)
            .unwrap()
            .get_id(),
        t_id
    );
    // Dropping the object from the owner makes the weak key dead.
    owner.delete_with_id(t_id);
    assert!(registry.get_with_id(t_id, &owner).is_none());
    assert!(registry
        .get_with_name(&"g-buffer-template".to_string(), &owner)
        .is_none());
}

#[test]
fn weak_registry_clean_drops_dead_keys() {
    let mut gen = IdGenerator::new();
    let mut owner: Storage<ObjectBase> = Storage::new();
    let alive = named(&mut gen, "kept");
    let alive_id = alive.get_id();
    owner.insert(alive);
    let dead = named(&mut gen, "dropped");
    let dead_id = dead.get_id();
    owner.insert(dead);
    let mut registry = WeakStorage::new();
    registry.insert(alive_id, Some("kept".to_string()));
    registry.insert(dead_id, Some("dropped".to_string()));
    owner.delete_with_id(dead_id);
    registry.clean(&owner);
    assert!(registry.get_with_id(alive_id, &owner).is_some());
    assert!(registry.get_with_id(dead_id, &owner).is_none());
    // A later re-insert of the same key works: the registry forgot it.
    registry.insert(dead_id, Some("dropped".to_string()));
    assert!(registry.get_with_id(dead_id, &owner).is_none());
}

#[test]
fn events_draw_fresh_ids() {
    let mut gen = IdGenerator::new();
    let quit = Event::new(Type::Quit, &mut gen);
    let press = Event::new(
        Type::Button {
            button: vulkust::event::Button::Mouse(vulkust::event::Mouse::Left),
            action: ButtonAction::Press,
        },
        &mut gen,
    );
    assert_eq!(quit.get_id(), 1);
    assert_eq!(press.get_id(), 2);
    assert_eq!(quit.event_type, Type::Quit);
}
