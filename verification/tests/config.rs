use gomp::application::config::AppConfig;

#[test]
fn default_config() {
    let c = AppConfig::new();
    assert_eq!(c.title, "Gomp Application");
    assert!(c.resizable);
    assert_eq!(c.width, 400);
    assert_eq!(c.height, 300);
    assert!(!c.top);
    assert!(c.decor);
    assert!(c.visible);
}

#[test]
fn builder_sets_each_field() {
    let c = AppConfig::new()
        .with_title("Complex Demo")
        .with_height(300)
        .with_width(400)
        .with_resizable(false)
        .with_on_top(true)
        .with_decor(false)
        .with_visibiliy(false);
    assert_eq!(c.title, "Complex Demo");
    assert_eq!(c.width, 400);
    assert_eq!(c.height, 300);
    assert!(!c.resizable);
    assert!(c.top);
    assert!(!c.decor);
    assert!(!c.visible);
}

#[test]
fn builder_keeps_other_fields() {
    let c = AppConfig::new().with_width(1920);
    assert_eq!(c.width, 1920);
    assert_eq!(c.height, 300);
    assert_eq!(c.title, "Gomp Application");
    assert!(c.resizable);
}
