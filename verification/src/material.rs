//! Per-surface shading parameters.

use vstd::prelude::*;
use std::rc::Rc;
use crate::color::Color;
use crate::fixed::fx_wf;
use crate::texture::Texture;

verus! {

/// Immutable shading parameters, shared by reference count among every
/// primitive that uses them.
///
/// `albedo` weighs, in order: the diffuse term, a specular term (stored but
/// unused by the shading path, like `specular` and `refractive_index`), the
/// reflective term, and a refractive term (unused; refraction is a
/// non-goal).
#[derive(Clone)]
pub struct Material {
    pub diffuse: Color,
    pub specular: i64,
    pub albedo: [i64; 4],
    pub refractive_index: i64,
    pub texture: Option<Rc<Texture>>,
    pub normal_map: Option<Rc<Texture>>,
    pub emission: Option<Color>,
}

/// The value `Material::black` returns.
pub open spec fn black_material_s() -> Material {
    Material {
        diffuse: Color { r: 0, g: 0, b: 0 },
        specular: 0,
        albedo: [0, 0, 0, 0],
        refractive_index: 0,
        texture: None,
        normal_map: None,
        emission: None,
    }
}

impl Material {
    pub open spec fn wf(&self) -> bool {
        &&& self.diffuse.wf()
        &&& fx_wf(self.specular)
        &&& fx_wf(self.albedo@[0])
        &&& fx_wf(self.albedo@[1])
        &&& fx_wf(self.albedo@[2])
        &&& fx_wf(self.albedo@[3])
        &&& fx_wf(self.refractive_index)
        &&& match self.texture {
            Some(t) => t.wf(),
            None => true,
        }
        &&& match self.normal_map {
            Some(t) => t.wf(),
            None => true,
        }
        &&& match self.emission {
            Some(e) => e.wf(),
            None => true,
        }
    }

    pub fn new(
        diffuse: Color,
        specular: i64,
        albedo: [i64; 4],
        refractive_index: i64,
        texture: Option<Rc<Texture>>,
        normal_map: Option<Rc<Texture>>,
        emission: Option<Color>,
    ) -> (m: Material)
        ensures
            m.diffuse == diffuse,
            m.specular == specular,
            m.albedo == albedo,
            m.refractive_index == refractive_index,
            m.texture == texture,
            m.normal_map == normal_map,
            m.emission == emission,
    {
        Material { diffuse, specular, albedo, refractive_index, texture, normal_map, emission }
    }

    /// The all-zero material: black diffuse, no weights, no maps, no glow.
    pub fn black() -> (m: Material)
        ensures
            m == black_material_s(),
            m.wf(),
    {
        Material {
            diffuse: Color::black(),
            specular: 0,
            albedo: [0, 0, 0, 0],
            refractive_index: 0,
            texture: None,
            normal_map: None,
            emission: None,
        }
    }
}

} // verus!
