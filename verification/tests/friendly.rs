use gomp::ecs::component::ComponentType;
use gomp::ecs::component::FriendlyComponent;
use gomp::ecs::entity::friendly::FriendlyEntity;
use gomp::ecs::scene::friendly::FriendlyScene;
use gomp::ecs::scene::Scene;

#[test]
fn friendly_conversion_preserves_authored_order() {
    // the authored description ["main": ["Transform", "Mesh"]] must yield a
    // scene with exactly one entity named "main" owning two components
    // tagged Transform and Mesh, in that order
    let fs = FriendlyScene::new("level").with_entity(
        FriendlyEntity::new("main")
            .with_component(ComponentType::Transform)
            .with_component(ComponentType::Mesh),
    );
    let s = Scene::from(fs);

    assert_eq!(s.get_name(), "level");
    assert_eq!(s.get_entities().len(), 1);
    assert_eq!(s.get_components().len(), 2);
    assert!(s.entity_is_live(0));

    let main = s.get_entity(0);
    assert_eq!(main.get_name(), "main");
    let list = main.get_weak_components();
    assert_eq!(list.len(), 2);
    assert_eq!(s.get_component(list[0]).type_of(), ComponentType::Transform);
    assert_eq!(s.get_component(list[1]).type_of(), ComponentType::Mesh);
    assert_eq!(s.get_component(list[0]).get_weak_parent(), 0);
    assert_eq!(s.get_component(list[1]).get_weak_parent(), 0);
}

#[test]
fn friendly_conversion_of_empty_description() {
    let s = Scene::from(FriendlyScene::new("empty"));
    assert_eq!(s.get_name(), "empty");
    assert_eq!(s.get_entities().len(), 0);
    assert_eq!(s.get_components().len(), 0);
}

#[test]
fn friendly_conversion_of_several_entities() {
    let fs = FriendlyScene::new("level")
        .with_entity(FriendlyEntity::new("hero").with_component(ComponentType::Mesh))
        .with_entity(FriendlyEntity::new("camera"))
        .with_entity(
            FriendlyEntity::new("prop")
                .with_component(ComponentType::Transform)
                .with_component(ComponentType::Script),
        );
    let s = Scene::from(fs);

    assert_eq!(s.get_entities().len(), 3);
    assert_eq!(s.get_components().len(), 3);
    assert_eq!(s.get_entity(0).get_name(), "hero");
    assert_eq!(s.get_entity(1).get_name(), "camera");
    assert_eq!(s.get_entity(2).get_name(), "prop");
    assert_eq!(s.get_entity(1).get_weak_components().len(), 0);
    let prop_list = s.get_entity(2).get_weak_components();
    assert_eq!(s.get_component(prop_list[0]).type_of(), ComponentType::Transform);
    assert_eq!(s.get_component(prop_list[1]).type_of(), ComponentType::Script);
    // the converted scene behaves like a hand-built one
    assert_eq!(s.components_of_type(ComponentType::Mesh).len(), 1);
}

#[test]
fn friendly_entity_exposes_its_description() {
    let fe = FriendlyEntity::new("main")
        .with_component(ComponentType::Transform)
        .with_component(ComponentType::Mesh);
    assert_eq!(fe.get_name(), "main");
    assert_eq!(fe.get_components(), &vec![ComponentType::Transform, ComponentType::Mesh]);
}

#[test]
fn friendly_scene_exposes_its_description() {
    let fs = FriendlyScene::new("level").with_entity(FriendlyEntity::new("main"));
    assert_eq!(fs.get_name(), "level");
    assert_eq!(fs.get_entities().len(), 1);
    assert_eq!(fs.get_entities()[0].get_name(), "main");
}

#[test]
fn component_type_describes_itself() {
    assert_eq!(ComponentType::Mesh.component_type(), ComponentType::Mesh);
    assert_eq!(ComponentType::Transform.component_type(), ComponentType::Transform);
    assert_eq!(ComponentType::Script.component_type(), ComponentType::Script);
}
