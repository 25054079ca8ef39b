use gomp::ecs::component::Component;
use gomp::ecs::component::ComponentType;
use gomp::ecs::component::Mesh;
use gomp::ecs::component::Script;
use gomp::ecs::component::Transform;
use gomp::ecs::entity::Entity;

#[test]
fn new_entity_has_name_scene_and_no_components() {
    let e = Entity::new(3, "hero");
    assert_eq!(e.get_scene(), 3);
    assert_eq!(e.get_name(), "hero");
    assert_eq!(e.get_weak_components().len(), 0);
}

#[test]
fn push_component_appends_in_order() {
    let mut e = Entity::new(0, "hero");
    e.push_component(4);
    e.push_component(7);
    assert_eq!(e.get_weak_components(), &vec![4, 7]);
}

#[test]
fn find_component_returns_first_position() {
    let mut e = Entity::new(0, "hero");
    e.push_component(4);
    e.push_component(7);
    e.push_component(9);
    assert_eq!(e.find_component(7), Some(1));
    assert_eq!(e.find_component(5), None);
}

#[test]
fn remove_component_at_shifts_the_rest() {
    let mut e = Entity::new(0, "hero");
    e.push_component(4);
    e.push_component(7);
    e.push_component(9);
    assert_eq!(e.remove_component_at(1), 7);
    assert_eq!(e.get_weak_components(), &vec![4, 9]);
}

#[test]
fn component_variants_carry_their_tag_and_parent() {
    let m = <Mesh as Component>::from(5);
    assert_eq!(m.type_of(), ComponentType::Mesh);
    assert_eq!(m.get_weak_parent(), 5);

    let t = <Transform as Component>::from(2);
    assert_eq!(t.type_of(), ComponentType::Transform);
    assert_eq!(t.get_weak_parent(), 2);
    assert_eq!((t.x, t.y, t.z), (420, 69, 516));

    let s = <Script as Component>::from(9);
    assert_eq!(s.type_of(), ComponentType::Script);
    assert_eq!(s.get_weak_parent(), 9);
}

#[test]
fn lifecycle_hooks_leave_the_component_unchanged() {
    let mut m = <Mesh as Component>::from(1);
    m.on_start();
    m.on_update();
    m.on_stop();
    assert_eq!(m, Mesh { parent: 1 });

    let mut t = <Transform as Component>::from(1);
    t.on_start();
    t.on_update();
    t.on_stop();
    assert_eq!(t, Transform { parent: 1, x: 420, y: 69, z: 516 });
}
