use gomp::application::dispatch_event;
use gomp::application::handle_render_outcome;
use gomp::application::Application;
use gomp::application::FrameDirective;
use gomp::application::LoopAction;
use gomp::application::PlatformEvent;
use gomp::application::RenderOutcome;
use gomp::application::config::AppConfig;
use gomp::ecs::component::ComponentType;

#[test]
fn new_application_selects_the_default_scene() {
    // with active_scene_index = 0 and exactly one scene in the set, the
    // active scene is always that scene
    let app = Application::new(AppConfig::new());
    assert_eq!(app.get_active_scene_index(), 0);
    assert!(app.active_index_in_range());
    assert_eq!(app.get_active_scene().get_name(), "main");
    assert_eq!(app.try_get_active_scene().unwrap().get_name(), "main");
}

#[test]
fn out_of_range_selector_is_detected_not_clamped() {
    // switching the selector out of range must be observably fatal at
    // resolution time, never silently clamped back into range
    let mut app = Application::new(AppConfig::new());
    app.set_active_scene_index(5);
    assert_eq!(app.get_active_scene_index(), 5);
    assert!(!app.active_index_in_range());
    assert!(app.try_get_active_scene().is_none());
    app.set_active_scene_index(0);
    assert!(app.try_get_active_scene().is_some());
}

#[test]
fn frame_tick_updates_then_selects_meshes() {
    // three components: two transforms and one mesh. One tick must visit
    // all three in insertion order before the render selection, and the
    // type-filtered scan must select only the mesh
    let mut app = Application::new(AppConfig::new());
    let (hero, t0, m0, t1) = {
        let scene = app.get_mut_active_scene();
        let hero = scene.spawn_entity("hero");
        let t0 = scene.spawn_component(ComponentType::Transform, hero);
        let m0 = scene.spawn_component(ComponentType::Mesh, hero);
        let t1 = scene.spawn_component(ComponentType::Transform, hero);
        (hero, t0, m0, t1)
    };
    let (order, meshes) = app.frame_tick();
    assert_eq!(order, vec![t0, m0, t1]);
    assert_eq!(meshes, vec![m0]);
    assert_eq!(app.get_active_scene().get_entity(hero).get_name(), "hero");
}

#[test]
fn update_visits_active_scene() {
    let mut app = Application::new(AppConfig::new());
    let scene = app.get_mut_active_scene();
    let e = scene.spawn_entity("a");
    let c = scene.spawn_component(ComponentType::Script, e);
    let order = app.update();
    assert_eq!(order, vec![c]);
}

#[test]
fn input_consumes_nothing() {
    let mut app = Application::new(AppConfig::new());
    assert!(!app.input(&PlatformEvent::RedrawRequested));
    assert!(!app.input(&PlatformEvent::CloseRequested));
}

#[test]
fn config_is_kept() {
    let app = Application::new(AppConfig::new().with_title("Demo"));
    assert_eq!(app.get_config().title, "Demo");
}

#[test]
fn event_dispatch_decides_the_loop() {
    assert_eq!(dispatch_event(&PlatformEvent::CloseRequested), LoopAction::Exit);
    assert_eq!(dispatch_event(&PlatformEvent::EscapePressed), LoopAction::Exit);
    assert_eq!(dispatch_event(&PlatformEvent::Resized(800, 600)), LoopAction::Resize(800, 600));
    assert_eq!(
        dispatch_event(&PlatformEvent::ScaleFactorChanged(1024, 768)),
        LoopAction::Resize(1024, 768)
    );
    assert_eq!(dispatch_event(&PlatformEvent::RedrawRequested), LoopAction::RunFrame);
    assert_eq!(dispatch_event(&PlatformEvent::MainEventsCleared), LoopAction::RequestRedraw);
    assert_eq!(dispatch_event(&PlatformEvent::Other), LoopAction::Ignore);
}

#[test]
fn render_outcomes_route_as_documented() {
    assert_eq!(handle_render_outcome(&RenderOutcome::Completed), FrameDirective::Continue);
    assert_eq!(handle_render_outcome(&RenderOutcome::SurfaceLost), FrameDirective::Reconfigure);
    assert_eq!(handle_render_outcome(&RenderOutcome::SurfaceOutdated), FrameDirective::Continue);
    assert_eq!(handle_render_outcome(&RenderOutcome::Timeout), FrameDirective::Continue);
    assert_eq!(handle_render_outcome(&RenderOutcome::OutOfMemory), FrameDirective::Exit);
}
