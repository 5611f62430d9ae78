//! The paint protocol on the flat-color material: shader source,
//! transparency, uniform binding against a recording program, and the
//! fatal failure of the deferred path.

use three_d_core::color::Color;
use three_d_core::color_material::ColorMaterial;
use three_d_core::error::CoreError;
use three_d_core::lights::AmbientLight;
use three_d_core::material::Camera;
use three_d_core::material::Paint;
use three_d_core::program::RecordingProgram;

#[test]
fn fully_opaque_color_is_not_transparent() {
    let material = ColorMaterial { color: Color::new(10, 20, 30, 255) };
    assert!(!material.transparent());
}

#[test]
fn any_alpha_below_opaque_is_transparent() {
    for a in [0u8, 1, 100, 254] {
        let material = ColorMaterial { color: Color::new(10, 20, 30, a) };
        assert!(material.transparent());
    }
}

#[test]
fn forward_source_ignores_the_lights() {
    let material = ColorMaterial { color: Color::new(1, 2, 3, 255) };
    let ambient = AmbientLight { color: Color::new(255, 255, 255, 255) };
    let with_lights = material.fragment_shader_source(Some(&ambient), &[], &[], &[]);
    let without_lights = material.fragment_shader_source(None, &[], &[], &[]);
    assert_eq!(with_lights, without_lights);
    assert!(with_lights.contains("outColor = color"));
}

#[test]
fn bind_sets_exactly_the_materials_own_uniform() {
    let color = Color::new(40, 50, 60, 200);
    let material = ColorMaterial { color };
    let mut program = RecordingProgram::new();
    let camera = Camera {};
    let r = material.bind(&mut program, &camera, None, &[], &[], &[]);
    assert!(r.is_ok());
    assert_eq!(program.uniform_count(), 1);
    assert_eq!(program.uniform_value_count(), 1);
    assert_eq!(program.uniform_name(0).as_str(), "color");
    assert_eq!(program.uniform_color(0), color);
}

#[test]
fn bind_surfaces_a_missing_uniform() {
    let material = ColorMaterial { color: Color::new(1, 2, 3, 255) };
    let mut program = RecordingProgram::new();
    program.refuse_uniforms();
    let camera = Camera {};
    let r = material.bind(&mut program, &camera, None, &[], &[], &[]);
    assert!(matches!(r, Err(CoreError::ContextError(_))));
    assert_eq!(program.uniform_count(), 0);
}

#[test]
fn deferred_source_fails_as_unsupported() {
    let material = ColorMaterial { color: Color::new(1, 2, 3, 255) };
    let r = material.fragment_shader_source_deferred();
    assert!(matches!(r, Err(CoreError::UnsupportedOperation)));
}

#[test]
fn deferred_bind_fails_as_unsupported_and_touches_nothing() {
    let material = ColorMaterial { color: Color::new(1, 2, 3, 255) };
    let mut program = RecordingProgram::new();
    let r = material.bind_deferred(&mut program);
    assert!(matches!(r, Err(CoreError::UnsupportedOperation)));
    assert_eq!(program.uniform_count(), 0);
}
