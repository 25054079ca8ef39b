use gomp::ecs::component::AnyComponent;
use gomp::ecs::component::ComponentType;
use gomp::ecs::scene::Scene;

#[test]
fn new_scene_is_empty() {
    let s = Scene::new("level one");
    assert_eq!(s.get_name(), "level one");
    assert_eq!(s.get_components().len(), 0);
    assert_eq!(s.get_entities().len(), 0);
}

#[test]
fn spawned_component_links_both_ways() {
    // the bidirectional invariant: every component's parent resolves to the
    // entity it was spawned against, and that entity lists the component
    // exactly once, in spawn order
    let mut s = Scene::new("main");
    let hero = s.spawn_entity("hero");
    let prop = s.spawn_entity("prop");
    let c0 = s.spawn_component(ComponentType::Transform, hero);
    let c1 = s.spawn_component(ComponentType::Mesh, hero);
    let c2 = s.spawn_component(ComponentType::Mesh, prop);

    assert_eq!(s.get_component(c0).get_weak_parent(), hero);
    assert_eq!(s.get_component(c1).get_weak_parent(), hero);
    assert_eq!(s.get_component(c2).get_weak_parent(), prop);
    assert_eq!(s.get_parent(c0).get_name(), "hero");
    assert_eq!(s.get_parent(c2).get_name(), "prop");

    let hero_list = s.get_entity(hero).get_weak_components();
    assert_eq!(hero_list, &vec![c0, c1]);
    let prop_list = s.get_entity(prop).get_weak_components();
    assert_eq!(prop_list, &vec![c2]);
    assert_eq!(hero_list.iter().filter(|c| **c == c1).count(), 1);
}

#[test]
fn spawn_handles_are_sequential() {
    let mut s = Scene::new("main");
    let e0 = s.spawn_entity("a");
    let e1 = s.spawn_entity("b");
    assert_eq!(e0, 0);
    assert_eq!(e1, 1);
    let c0 = s.spawn_component(ComponentType::Script, e0);
    let c1 = s.spawn_component(ComponentType::Script, e1);
    assert_eq!(c0, 0);
    assert_eq!(c1, 1);
}

#[test]
fn components_of_type_filters_in_insertion_order() {
    let mut s = Scene::new("main");
    let e = s.spawn_entity("hero");
    let t0 = s.spawn_component(ComponentType::Transform, e);
    let m0 = s.spawn_component(ComponentType::Mesh, e);
    let t1 = s.spawn_component(ComponentType::Transform, e);
    let m1 = s.spawn_component(ComponentType::Mesh, e);

    assert_eq!(s.components_of_type(ComponentType::Transform), vec![t0, t1]);
    assert_eq!(s.components_of_type(ComponentType::Mesh), vec![m0, m1]);
    assert_eq!(s.components_of_type(ComponentType::Script), Vec::<usize>::new());
}

#[test]
fn components_of_type_is_idempotent() {
    let mut s = Scene::new("main");
    let e = s.spawn_entity("hero");
    s.spawn_component(ComponentType::Mesh, e);
    s.spawn_component(ComponentType::Transform, e);
    let first = s.components_of_type(ComponentType::Mesh);
    let second = s.components_of_type(ComponentType::Mesh);
    assert_eq!(first, second);
}

#[test]
fn destroyed_entity_leaves_dangling_parent_detected() {
    // destroying an entity without first detaching its components leaves the
    // components' back-references dangling; resolution must detect that,
    // not produce a silent null-like result
    let mut s = Scene::new("main");
    let e = s.spawn_entity("doomed");
    let c = s.spawn_component(ComponentType::Mesh, e);
    assert!(s.parent_is_live(c));

    s.destroy_entity(e);
    assert!(!s.entity_is_live(e));
    // the component itself is still owned by the scene
    assert!(s.component_is_live(c));
    // but its back-reference no longer resolves: the fatal condition is
    // detected, and its handle still names the dead slot
    assert!(!s.parent_is_live(c));
    assert_eq!(s.get_component(c).get_weak_parent(), e);
}

#[test]
fn destroyed_entity_slot_is_not_reused() {
    let mut s = Scene::new("main");
    let e = s.spawn_entity("doomed");
    s.destroy_entity(e);
    let e2 = s.spawn_entity("fresh");
    assert_ne!(e, e2);
    assert!(!s.entity_is_live(e));
    assert!(s.entity_is_live(e2));
}

#[test]
fn destroy_component_detaches_atomically() {
    let mut s = Scene::new("main");
    let e = s.spawn_entity("hero");
    let c0 = s.spawn_component(ComponentType::Transform, e);
    let c1 = s.spawn_component(ComponentType::Mesh, e);
    let c2 = s.spawn_component(ComponentType::Script, e);

    s.destroy_component(c1);
    assert!(!s.component_is_live(c1));
    assert!(s.component_is_live(c0));
    assert!(s.component_is_live(c2));
    // the parent's attachment list dropped exactly the destroyed handle
    assert_eq!(s.get_entity(e).get_weak_components(), &vec![c0, c2]);
    // the filtered scan no longer selects it
    assert_eq!(s.components_of_type(ComponentType::Mesh), Vec::<usize>::new());
}

#[test]
fn update_visits_live_components_in_insertion_order() {
    let mut s = Scene::new("main");
    let e = s.spawn_entity("hero");
    let c0 = s.spawn_component(ComponentType::Transform, e);
    let c1 = s.spawn_component(ComponentType::Mesh, e);
    let c2 = s.spawn_component(ComponentType::Transform, e);
    s.destroy_component(c1);

    let order = s.update();
    assert_eq!(order, vec![c0, c2]);
}

#[test]
fn set_components_overwrites_wholesale() {
    let mut s = Scene::new("main");
    let e = s.spawn_entity("hero");
    s.spawn_component(ComponentType::Mesh, e);
    s.destroy_entity(e);
    // with no live entity left, an empty arena is trivially consistent
    s.set_components(Vec::<Option<AnyComponent>>::new());
    assert_eq!(s.get_components().len(), 0);
    s.set_entities(Vec::new());
    assert_eq!(s.get_entities().len(), 0);
}
