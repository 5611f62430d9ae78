//! Light definitions, passed by reference into material binding calls.
//! The implemented light variants are ambient, directional, spot and point
//! light; directional and spot lights additionally carry a handle to their
//! shadow map, which this core consumes opaquely.
//!
//! A material's shader source depends only on how many lights of each
//! variant are present, never on their contents; binding the light uniforms
//! themselves is the program's responsibility, not the material's.

use crate::color::Color;
use vstd::prelude::*;

verus! {

/// A light that illuminates everything equally from every direction.
#[derive(Debug, Clone, Copy, PartialEq, Eq, Structural)]
pub struct AmbientLight {
    pub color: Color,
}

/// A light infinitely far away, shining in one direction, optionally with
/// a shadow map rendered by an earlier pass.
#[derive(Debug, Clone, Copy, PartialEq, Eq, Structural)]
pub struct DirectionalLight {
    pub color: Color,
    /// Handle of the shadow map of an earlier pass, if one was rendered;
    /// consumed opaquely by this core.
    pub shadow_map: Option<u32>,
}

/// A cone of light from a position, optionally with a shadow map rendered
/// by an earlier pass.
#[derive(Debug, Clone, Copy, PartialEq, Eq, Structural)]
pub struct SpotLight {
    pub color: Color,
    /// Handle of the shadow map of an earlier pass, if one was rendered;
    /// consumed opaquely by this core.
    pub shadow_map: Option<u32>,
}

/// A light radiating from a position in all directions.
#[derive(Debug, Clone, Copy, PartialEq, Eq, Structural)]
pub struct PointLight {
    pub color: Color,
}

} // verus!
