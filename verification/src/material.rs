//! The material ("paint") binding protocol: how a material negotiates
//! shader source and uniform binding against a variable set of lights,
//! written once and lit by an arbitrary light combination.
//!
//! A paint is a stateless strategy invoked per compile or draw event. Two
//! rendering paths exist: the forward path, whose shader source is a pure
//! function of how many lights of each variant are present, and the
//! deferred path, where shading is decoupled from the lights and applied
//! in a later composition pass. A material that does not support the
//! deferred path fails fatally when it is invoked there — it never hands
//! back empty or default output.

use crate::color::Color;
use crate::error::CoreError;
use crate::lights::{AmbientLight, DirectionalLight, PointLight, SpotLight};
use crate::program::Program;
use vstd::prelude::*;

verus! {

/// The viewer of a draw call. Its geometry — transforms and viewport —
/// belongs to the camera and math layer outside this core; materials
/// receive it opaquely, and a material's bind call must not assume the
/// caller has bound any camera or light uniform for it.
pub struct Camera {}

/// The capability contract every material variant implements: produce
/// fragment shader source for a light environment and bind the material's
/// own uniforms — only its own — against a compiled program.
pub trait Paint: Sized {
    /// Whether this material can render in the deferred path. The
    /// defaults of this and the other specification members leave the
    /// material's meaning abstract; a verified material overrides them.
    open spec fn supports_deferred(&self) -> bool {
        arbitrary()
    }

    /// The forward-path fragment shader source, as a function of the
    /// light-count signature alone: whether an ambient light is present
    /// and how many directional, spot and point lights there are.
    open spec fn forward_source(
        &self,
        has_ambient: bool,
        directional_count: nat,
        spot_count: nat,
        point_count: nat,
    ) -> Seq<char> {
        arbitrary()
    }

    /// The geometry-pass shader source of the deferred path; meaningful
    /// only when `supports_deferred()`.
    open spec fn deferred_source(&self) -> Seq<char> {
        arbitrary()
    }

    /// The names of the material's own uniforms, in the order `bind` sets
    /// them.
    open spec fn own_uniform_names(&self) -> Seq<Seq<char>> {
        arbitrary()
    }

    /// The values of the material's own uniforms, in the same order.
    open spec fn own_uniform_colors(&self) -> Seq<Color> {
        arbitrary()
    }

    /// Whether drawing with this material requires blending.
    open spec fn spec_transparent(&self) -> bool {
        arbitrary()
    }

    /// Returns the forward-path fragment shader source for the given
    /// lights. Deterministic in the light-count signature — the caller
    /// compiles the source once and re-invokes this only when the
    /// signature changes — and free of side effects.
    fn fragment_shader_source(
        &self,
        ambient_light: Option<&AmbientLight>,
        directional_lights: &[DirectionalLight],
        spot_lights: &[SpotLight],
        point_lights: &[PointLight],
    ) -> (source: String)
        ensures
            source@ == self.forward_source(
                ambient_light is Some,
                directional_lights@.len(),
                spot_lights@.len(),
                point_lights@.len(),
            ),
    ;

    /// Binds this material's own uniforms — exactly `own_uniform_names()`
    /// with `own_uniform_colors()`, appended to the program's log in
    /// order — immediately before the draw call that uses the program.
    /// Camera and light uniforms are the caller's separate responsibility.
    /// On failure the program's log holds at most a prefix of the
    /// material's uniforms on top of what was there before.
    fn bind<P: Program>(
        &self,
        program: &mut P,
        camera: &Camera,
        ambient_light: Option<&AmbientLight>,
        directional_lights: &[DirectionalLight],
        spot_lights: &[SpotLight],
        point_lights: &[PointLight],
    ) -> (r: Result<(), CoreError>)
        ensures
            match r {
                Ok(_) => {
                    &&& final(program).uniform_names() == old(program).uniform_names()
                        + self.own_uniform_names()
                    &&& final(program).uniform_colors() == old(program).uniform_colors()
                        + self.own_uniform_colors()
                },
                Err(e) => {
                    &&& e is ContextError
                    &&& old(program).uniform_names().is_prefix_of(final(program).uniform_names())
                    &&& old(program).uniform_colors().is_prefix_of(
                        final(program).uniform_colors(),
                    )
                },
            },
    ;

    /// Returns the geometry-pass shader source of the deferred path, or
    /// fails with an unsupported-operation error — fatally, never with
    /// empty text — when the material does not support deferred shading.
    fn fragment_shader_source_deferred(&self) -> (r: Result<String, CoreError>)
        ensures
            self.supports_deferred() ==> r is Ok && r->Ok_0@ == self.deferred_source(),
            !self.supports_deferred() ==> r is Err && r->Err_0 is UnsupportedOperation,
    ;

    /// Binds this material's own uniforms for the deferred geometry pass,
    /// or fails with an unsupported-operation error, touching the program
    /// not at all, when the material does not support deferred shading.
    fn bind_deferred<P: Program>(&self, program: &mut P) -> (r: Result<(), CoreError>)
        ensures
            !self.supports_deferred() ==> {
                &&& r is Err
                &&& r->Err_0 is UnsupportedOperation
                &&& final(program).uniform_names() == old(program).uniform_names()
                &&& final(program).uniform_colors() == old(program).uniform_colors()
            },
    ;

    /// True when drawing with this material requires blending, so that
    /// the draw orchestrator routes it into the transparent, sorted draw
    /// pass rather than the opaque one. A pure predicate.
    fn transparent(&self) -> (t: bool)
        ensures
            t == self.spec_transparent(),
    ;
}

} // verus!
