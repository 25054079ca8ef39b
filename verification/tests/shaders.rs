use gomp::error::Error;
use gomp::renderer::shaders::ShaderBuilder;
use gomp::renderer::shaders::ShaderSourceType;

const SOURCE: &str = "fn main() {}";

#[test]
fn compile_accepts_a_complete_wgsl_description() {
    let d = ShaderBuilder::new()
        .with_label("Default vertex shader")
        .with_source(ShaderSourceType::Wgsl, SOURCE)
        .with_entry_point("main")
        .with_device()
        .compile()
        .unwrap();
    assert_eq!(d.label, "Default vertex shader");
    assert_eq!(d.source, SOURCE);
    assert_eq!(d.entry, "main");
}

#[test]
fn compile_rejects_unsupported_languages() {
    let r = ShaderBuilder::new()
        .with_source(ShaderSourceType::Glsl, SOURCE)
        .with_device()
        .compile();
    assert!(matches!(r, Err(Error::UnsupportedShaderType)));
    let r = ShaderBuilder::new()
        .with_source(ShaderSourceType::Hlsl, SOURCE)
        .with_device()
        .compile();
    assert!(matches!(r, Err(Error::UnsupportedShaderType)));
}

#[test]
fn compile_rejects_a_missing_source() {
    let r = ShaderBuilder::new().with_device().compile();
    assert!(matches!(r, Err(Error::NoShaderSource)));
}

#[test]
fn compile_rejects_a_missing_device() {
    let r = ShaderBuilder::new().with_source(ShaderSourceType::Wgsl, SOURCE).compile();
    assert!(matches!(r, Err(Error::NoDeviceSupplied)));
}

#[test]
fn language_is_checked_before_source_and_device() {
    // an unusable description with several defects reports them in the
    // documented order: language first, then source, then device
    let r = ShaderBuilder::new().with_source(ShaderSourceType::Glsl, "").compile();
    assert!(matches!(r, Err(Error::UnsupportedShaderType)));
    let r = ShaderBuilder::new().compile();
    assert!(matches!(r, Err(Error::NoShaderSource)));
}

#[test]
fn builder_defaults() {
    let b = ShaderBuilder::new();
    assert_eq!(b.entry, "main");
}
