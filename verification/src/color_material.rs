//! The simplest material: paints every fragment with one flat color. Its
//! shader needs no light information, so its forward source is the same
//! for every light-count signature, and it does not support the deferred
//! path at all.

use crate::color::{Color, OPAQUE_ALPHA};
use crate::error::CoreError;
use crate::lights::{AmbientLight, DirectionalLight, PointLight, SpotLight};
use crate::material::{Camera, Paint};
use crate::program::Program;
use vstd::prelude::*;

verus! {

/// A material that renders everything in one flat color, unlit. It is
/// transparent exactly when the color's alpha channel is not fully
/// opaque.
#[derive(Debug, Clone, Copy, PartialEq, Eq, Structural)]
pub struct ColorMaterial {
    pub color: Color,
}

/// The fragment shader of the flat-color material: every fragment gets
/// the one uniform color, regardless of lighting.
pub open spec fn color_fragment_shader_source() -> Seq<char> {
    "uniform vec4 color;\nlayout (location = 0) out vec4 outColor;\nvoid main()\n{\n    outColor = color;\n}\n"@
}

impl Paint for ColorMaterial {
    open spec fn supports_deferred(&self) -> bool {
        false
    }

    open spec fn forward_source(
        &self,
        has_ambient: bool,
        directional_count: nat,
        spot_count: nat,
        point_count: nat,
    ) -> Seq<char> {
        color_fragment_shader_source()
    }

    open spec fn deferred_source(&self) -> Seq<char> {
        Seq::empty()
    }

    open spec fn own_uniform_names(&self) -> Seq<Seq<char>> {
        seq!["color"@]
    }

    open spec fn own_uniform_colors(&self) -> Seq<Color> {
        seq![self.color]
    }

    open spec fn spec_transparent(&self) -> bool {
        self.color.spec_is_transparent()
    }

    fn fragment_shader_source(
        &self,
        ambient_light: Option<&AmbientLight>,
        directional_lights: &[DirectionalLight],
        spot_lights: &[SpotLight],
        point_lights: &[PointLight],
    ) -> (source: String) {
        "uniform vec4 color;\nlayout (location = 0) out vec4 outColor;\nvoid main()\n{\n    outColor = color;\n}\n".to_owned()
    }

    fn bind<P: Program>(
        &self,
        program: &mut P,
        camera: &Camera,
        ambient_light: Option<&AmbientLight>,
        directional_lights: &[DirectionalLight],
        spot_lights: &[SpotLight],
        point_lights: &[PointLight],
    ) -> (r: Result<(), CoreError>) {
        match program.use_uniform_color("color", self.color) {
            Ok(()) => {
                proof {
                    assert(program.uniform_names() =~= old(program).uniform_names()
                        + self.own_uniform_names());
                    assert(program.uniform_colors() =~= old(program).uniform_colors()
                        + self.own_uniform_colors());
                }
                Ok(())
            },
            Err(e) => {
                proof {
                    assert(old(program).uniform_names().is_prefix_of(
                        program.uniform_names(),
                    )) by {
                        assert(program.uniform_names().subrange(
                            0,
                            old(program).uniform_names().len() as int,
                        ) =~= old(program).uniform_names());
                    }
                    assert(old(program).uniform_colors().is_prefix_of(
                        program.uniform_colors(),
                    )) by {
                        assert(program.uniform_colors().subrange(
                            0,
                            old(program).uniform_colors().len() as int,
                        ) =~= old(program).uniform_colors());
                    }
                }
                Err(e)
            },
        }
    }

    fn fragment_shader_source_deferred(&self) -> (r: Result<String, CoreError>) {
        Err(CoreError::UnsupportedOperation)
    }

    fn bind_deferred<P: Program>(&self, program: &mut P) -> (r: Result<(), CoreError>) {
        Err(CoreError::UnsupportedOperation)
    }

    fn transparent(&self) -> (t: bool) {
        self.color.a != OPAQUE_ALPHA
    }
}

/// A flat-color material needs blending exactly when its alpha channel is
/// below fully opaque: alpha 255 reports opaque, any smaller alpha
/// reports transparent.
pub proof fn lemma_color_material_transparency(material: ColorMaterial)
    ensures
        material.spec_transparent() <==> material.color.a < OPAQUE_ALPHA,
        material.color.a == OPAQUE_ALPHA ==> !material.spec_transparent(),
{
}

} // verus!
