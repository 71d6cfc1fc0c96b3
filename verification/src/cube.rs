//! Axis-aligned boxes and their ray intersection (the slab method).

use vstd::prelude::*;
use std::rc::Rc;
use crate::color::Color;
use crate::fixed::{fx_add, fx_add_s, fx_div, fx_div_s, fx_sub, fx_sub_s, fx_wf, FX_MAX, FX_ONE};
use crate::material::{black_material_s, Material};
use crate::texture::Texture;
use crate::vec3::{cross_s, normalize_s, vadd_s, vscale_s, Vec3};

verus! {

/// Width of the band around a face plane inside which a hit point is taken
/// to lie on that face (about 1e-4 in real units).
pub const FACE_EPS: i64 = 7;

/// A ray/primitive hit. `is_intersecting == false` is the "no hit" sentinel,
/// whose distance `FX_MAX` can never win a nearest-hit comparison. On a hit,
/// `material` is a resolved snapshot: its diffuse color is already the
/// sampled texture color when the surface is textured.
pub struct Intersect {
    pub is_intersecting: bool,
    pub point: Vec3,
    pub normal: Vec3,
    pub distance: i64,
    pub material: Material,
}

impl Intersect {
    pub open spec fn wf(&self) -> bool {
        &&& self.point.wf()
        &&& self.normal.wf()
        &&& fx_wf(self.distance)
        &&& self.material.wf()
    }

    pub fn new(point: Vec3, normal: Vec3, distance: i64, material: Material) -> (r: Intersect)
        ensures
            r == (Intersect { is_intersecting: true, point, normal, distance, material }),
    {
        Intersect { is_intersecting: true, point, normal, distance, material }
    }

    /// The "no hit" sentinel: infinite distance, black material.
    pub fn empty() -> (r: Intersect)
        ensures
            r == empty_intersect_s(),
            r.wf(),
    {
        let r = Intersect {
            is_intersecting: false,
            point: Vec3::zero(),
            normal: Vec3::zero(),
            distance: FX_MAX,
            material: Material::black(),
        };
        r
    }
}

/// The value `Intersect::empty` returns.
pub open spec fn empty_intersect_s() -> Intersect {
    Intersect {
        is_intersecting: false,
        point: Vec3 { x: 0, y: 0, z: 0 },
        normal: Vec3 { x: 0, y: 0, z: 0 },
        distance: FX_MAX,
        material: black_material_s(),
    }
}

/// An axis-aligned box with one material. Correct intersection relies on
/// `min_corner` being componentwise at most `max_corner` (part of `wf`,
/// which the intersection contract assumes).
#[derive(Clone)]
pub struct Cube {
    pub min_corner: Vec3,
    pub max_corner: Vec3,
    pub material: Material,
}

/// The `[entry, exit]` slab interval of one axis, sorted. A zero direction
/// component divides to the `±FX_MAX` sentinels, which act as the infinities
/// of the IEEE version of this computation.
pub open spec fn axis_interval_s(minc: i64, maxc: i64, o: i64, d: i64) -> (int, int) {
    let t1 = fx_div_s(fx_sub_s(minc as int, o as int), d as int);
    let t2 = fx_div_s(fx_sub_s(maxc as int, o as int), d as int);
    if t1 > t2 {
        (t2, t1)
    } else {
        (t1, t2)
    }
}

/// The narrowed `[tmin, tmax]` interval across the three axes, or `None` as
/// soon as the running interval and the next axis's interval are disjoint.
pub open spec fn slab_interval_s(c: &Cube, o: Vec3, d: Vec3) -> Option<(int, int)> {
    let (txmin, txmax) = axis_interval_s(c.min_corner.x, c.max_corner.x, o.x, d.x);
    let (tymin, tymax) = axis_interval_s(c.min_corner.y, c.max_corner.y, o.y, d.y);
    if txmin > tymax || tymin > txmax {
        None
    } else {
        let tmin = if tymin > txmin { tymin } else { txmin };
        let tmax = if tymax < txmax { tymax } else { txmax };
        let (tzmin, tzmax) = axis_interval_s(c.min_corner.z, c.max_corner.z, o.z, d.z);
        if tmin > tzmax || tzmin > tmax {
            None
        } else {
            let ntmin = if tzmin > tmin { tzmin } else { tmin };
            let ntmax = if tzmax < tmax { tzmax } else { tmax };
            Some((ntmin, ntmax))
        }
    }
}

/// The parameter of the hit: the narrowed entry `tmin`, unless the slabs
/// were disjoint or the entry lies behind the origin (`tmin < 0`), which
/// reports a miss by policy even when the exit would be ahead.
pub open spec fn hit_t_s(c: &Cube, o: Vec3, d: Vec3) -> Option<int> {
    match slab_interval_s(c, o, d) {
        None => None,
        Some((tmin, tmax)) => if tmin < 0 {
            None
        } else {
            Some(tmin)
        },
    }
}

/// Whether `a` lies within the face band of plane coordinate `b`.
pub open spec fn near_s(a: i64, b: i64) -> bool {
    let diff = fx_sub_s(a as int, b as int);
    -(FACE_EPS as int) < diff < FACE_EPS as int
}

/// The outward unit normal of the face the hit point lies on, chosen in the
/// fixed priority order -X, +X, -Y, +Y, -Z, +Z; the first face whose plane
/// is within `FACE_EPS` of the point wins, so a point on an edge or corner
/// resolves to the earliest face in that order.
pub open spec fn geom_normal_s(c: &Cube, p: Vec3) -> Vec3 {
    if near_s(p.x, c.min_corner.x) {
        Vec3 { x: (-FX_ONE) as i64, y: 0, z: 0 }
    } else if near_s(p.x, c.max_corner.x) {
        Vec3 { x: FX_ONE, y: 0, z: 0 }
    } else if near_s(p.y, c.min_corner.y) {
        Vec3 { x: 0, y: (-FX_ONE) as i64, z: 0 }
    } else if near_s(p.y, c.max_corner.y) {
        Vec3 { x: 0, y: FX_ONE, z: 0 }
    } else if near_s(p.z, c.min_corner.z) {
        Vec3 { x: 0, y: 0, z: (-FX_ONE) as i64 }
    } else {
        Vec3 { x: 0, y: 0, z: FX_ONE }
    }
}

/// The (u, v) pair of the hit point: a face-specific linear remap of the two
/// in-plane coordinates relative to the box extents, using the same face
/// priority order as `geom_normal_s`.
pub open spec fn uv_s(c: &Cube, p: Vec3) -> (i64, i64) {
    let ex = fx_sub_s(c.max_corner.x as int, c.min_corner.x as int);
    let ey = fx_sub_s(c.max_corner.y as int, c.min_corner.y as int);
    let ez = fx_sub_s(c.max_corner.z as int, c.min_corner.z as int);
    if near_s(p.x, c.min_corner.x) || near_s(p.x, c.max_corner.x) {
        (
            fx_div_s(fx_sub_s(p.z as int, c.min_corner.z as int), ez) as i64,
            fx_div_s(fx_sub_s(c.max_corner.y as int, p.y as int), ey) as i64,
        )
    } else if near_s(p.y, c.min_corner.y) || near_s(p.y, c.max_corner.y) {
        (
            fx_div_s(fx_sub_s(p.x as int, c.min_corner.x as int), ex) as i64,
            fx_div_s(fx_sub_s(p.z as int, c.min_corner.z as int), ez) as i64,
        )
    } else if near_s(p.z, c.min_corner.z) {
        (
            fx_div_s(fx_sub_s(c.max_corner.x as int, p.x as int), ex) as i64,
            fx_div_s(fx_sub_s(c.max_corner.y as int, p.y as int), ey) as i64,
        )
    } else {
        (
            fx_div_s(fx_sub_s(p.x as int, c.min_corner.x as int), ex) as i64,
            fx_div_s(fx_sub_s(c.max_corner.y as int, p.y as int), ey) as i64,
        )
    }
}

/// The hit's diffuse color: the sampled texture color when the material has
/// a texture, the material's own diffuse otherwise.
pub open spec fn hit_diffuse_s(c: &Cube, u: i64, v: i64) -> Color {
    match c.material.texture {
        Some(t) => t.spec_sample(u as int, v as int),
        None => c.material.diffuse,
    }
}

/// Decode a normal-map channel from `[0, 1]` to `[-1, 1]`.
pub open spec fn decode_tangent_s(ch: i64) -> i64 {
    fx_sub_s(fx_add_s(ch as int, ch as int), FX_ONE as int) as i64
}

/// The shading normal: the geometric face normal, blended with the sampled
/// tangent-space normal when the material carries a normal map. The tangent
/// frame comes from crossing the geometric normal with world up (0, 1, 0);
/// when that cross product is the zero vector (normal parallel to world up)
/// the frame is degenerate and the geometric normal is kept unchanged; that
/// fallback is this renderer's deliberate, stated choice.
pub open spec fn hit_normal_s(c: &Cube, p: Vec3, u: i64, v: i64) -> Vec3 {
    let n = geom_normal_s(c, p);
    match c.material.normal_map {
        Some(nm) => {
            let ncol = nm.spec_sample(u as int, v as int);
            let nt = normalize_s(
                Vec3 {
                    x: decode_tangent_s(ncol.r),
                    y: decode_tangent_s(ncol.g),
                    z: decode_tangent_s(ncol.b),
                },
            );
            let tangent = normalize_s(cross_s(n, Vec3 { x: 0, y: FX_ONE, z: 0 }));
            if tangent == (Vec3 { x: 0i64, y: 0i64, z: 0i64 }) {
                n
            } else {
                let bitangent = cross_s(n, tangent);
                normalize_s(
                    vadd_s(
                        vadd_s(vscale_s(tangent, nt.x as int), vscale_s(bitangent, nt.y as int)),
                        vscale_s(n, nt.z as int),
                    ),
                )
            }
        },
        None => n,
    }
}

/// The full hit record of a ray against one box.
pub open spec fn intersect_s(c: &Cube, o: Vec3, d: Vec3) -> Intersect {
    match hit_t_s(c, o, d) {
        None => empty_intersect_s(),
        Some(t) => {
            let p = vadd_s(o, vscale_s(d, t));
            let (u, v) = uv_s(c, p);
            Intersect {
                is_intersecting: true,
                point: p,
                normal: hit_normal_s(c, p, u, v),
                distance: t as i64,
                material: Material {
                    diffuse: hit_diffuse_s(c, u, v),
                    specular: c.material.specular,
                    albedo: c.material.albedo,
                    refractive_index: c.material.refractive_index,
                    texture: c.material.texture,
                    normal_map: c.material.normal_map,
                    emission: c.material.emission,
                },
            }
        },
    }
}

/// Relies on `Rc::clone`: the returned pointer shares the same allocation,
/// so it denotes the same texture value.
#[verifier::external_body]
fn rc_dup(t: &Rc<Texture>) -> (r: Rc<Texture>)
    ensures
        r == *t,
{
    Rc::clone(t)
}

/// Duplicate an optional shared texture handle.
fn dup_texture(t: &Option<Rc<Texture>>) -> (r: Option<Rc<Texture>>)
    ensures
        r == *t,
{
    match t {
        Some(rc) => Some(rc_dup(rc)),
        None => None,
    }
}

impl Cube {
    pub open spec fn wf(&self) -> bool {
        &&& self.min_corner.wf()
        &&& self.max_corner.wf()
        &&& self.min_corner.x <= self.max_corner.x
        &&& self.min_corner.y <= self.max_corner.y
        &&& self.min_corner.z <= self.max_corner.z
        &&& self.material.wf()
    }

    /// Intersect a ray with this box by the slab method; see `hit_t_s` for
    /// the miss policy and `intersect_s` for the full record returned.
    pub fn ray_intersect(&self, ray_origin: &Vec3, ray_direction: &Vec3) -> (res: Intersect)
        requires
            self.wf(),
            ray_origin.wf(),
            ray_direction.wf(),
        ensures
            res == intersect_s(self, *ray_origin, *ray_direction),
            res.is_intersecting == hit_t_s(self, *ray_origin, *ray_direction) is Some,
            res.is_intersecting ==> res.distance >= 0,
            !res.is_intersecting ==> res.distance == FX_MAX,
            (match slab_interval_s(self, *ray_origin, *ray_direction) {
                Some((tmin, tmax)) => tmin < 0 ==> !res.is_intersecting,
                None => true,
            }),
            res.wf(),
    {
        let o = *ray_origin;
        let d = *ray_direction;
        let mut tmin: i64 = fx_div(fx_sub(self.min_corner.x, o.x), d.x);
        let mut tmax: i64 = fx_div(fx_sub(self.max_corner.x, o.x), d.x);
        if tmin > tmax {
            let tmp = tmin;
            tmin = tmax;
            tmax = tmp;
        }

        let mut tymin: i64 = fx_div(fx_sub(self.min_corner.y, o.y), d.y);
        let mut tymax: i64 = fx_div(fx_sub(self.max_corner.y, o.y), d.y);
        if tymin > tymax {
            let tmp = tymin;
            tymin = tymax;
            tymax = tmp;
        }

        if tmin > tymax || tymin > tmax {
            return Intersect::empty();
        }

        if tymin > tmin {
            tmin = tymin;
        }
        if tymax < tmax {
            tmax = tymax;
        }

        let mut tzmin: i64 = fx_div(fx_sub(self.min_corner.z, o.z), d.z);
        let mut tzmax: i64 = fx_div(fx_sub(self.max_corner.z, o.z), d.z);
        if tzmin > tzmax {
            let tmp = tzmin;
            tzmin = tzmax;
            tzmax = tmp;
        }

        if tmin > tzmax || tzmin > tmax {
            return Intersect::empty();
        }

        if tzmin > tmin {
            tmin = tzmin;
        }
        if tzmax < tmax {
            tmax = tzmax;
        }

        // A negative entry means the box lies behind the ray origin: report
        // a miss by policy, even though the exit may still be ahead.
        if tmin < 0 {
            return Intersect::empty();
        }

        let intersection_point: Vec3 = o.plus(&d.scale(tmin));

        let mut normal: Vec3 = self.calculate_normal(&intersection_point);
        let (u, v): (i64, i64) = self.get_texture_coordinates(&intersection_point);
        let distance: i64 = tmin;

        let texture_color: Color = match &self.material.texture {
            Some(texture) => texture.sample(u, v),
            None => self.material.diffuse,
        };

        if let Some(normal_map) = &self.material.normal_map {
            let ncol: Color = normal_map.sample(u, v);
            let normal_tangent: Vec3 = Vec3::new(
                fx_sub(fx_add(ncol.r, ncol.r), FX_ONE),
                fx_sub(fx_add(ncol.g, ncol.g), FX_ONE),
                fx_sub(fx_add(ncol.b, ncol.b), FX_ONE),
            ).normalize();

            let tangent: Vec3 = normal.cross(&Vec3::new(0, FX_ONE, 0)).normalize();
            if tangent == (Vec3 { x: 0i64, y: 0i64, z: 0i64 }) {
                // Geometric normal parallel to world up: the tangent frame
                // is degenerate, keep the geometric normal.
            } else {
                let bitangent: Vec3 = normal.cross(&tangent);
                normal = tangent.scale(normal_tangent.x).plus(
                    &bitangent.scale(normal_tangent.y),
                ).plus(&normal.scale(normal_tangent.z)).normalize();
            }
        }

        Intersect::new(
            intersection_point,
            normal,
            distance,
            Material::new(
                texture_color,
                self.material.specular,
                self.material.albedo,
                self.material.refractive_index,
                dup_texture(&self.material.texture),
                dup_texture(&self.material.normal_map),
                self.material.emission,
            ),
        )
    }

    /// The (u, v) pair of a point on this box's surface; see `uv_s`.
    pub fn get_texture_coordinates(&self, point: &Vec3) -> (r: (i64, i64))
        requires
            self.wf(),
            point.wf(),
        ensures
            r == uv_s(self, *point),
            fx_wf(r.0),
            fx_wf(r.1),
    {
        let ex: i64 = fx_sub(self.max_corner.x, self.min_corner.x);
        let ey: i64 = fx_sub(self.max_corner.y, self.min_corner.y);
        let ez: i64 = fx_sub(self.max_corner.z, self.min_corner.z);
        if self.near(point.x, self.min_corner.x) || self.near(point.x, self.max_corner.x) {
            (
                fx_div(fx_sub(point.z, self.min_corner.z), ez),
                fx_div(fx_sub(self.max_corner.y, point.y), ey),
            )
        } else if self.near(point.y, self.min_corner.y) || self.near(point.y, self.max_corner.y) {
            (
                fx_div(fx_sub(point.x, self.min_corner.x), ex),
                fx_div(fx_sub(point.z, self.min_corner.z), ez),
            )
        } else if self.near(point.z, self.min_corner.z) {
            (
                fx_div(fx_sub(self.max_corner.x, point.x), ex),
                fx_div(fx_sub(self.max_corner.y, point.y), ey),
            )
        } else {
            (
                fx_div(fx_sub(point.x, self.min_corner.x), ex),
                fx_div(fx_sub(self.max_corner.y, point.y), ey),
            )
        }
    }

    /// The outward face normal of a point on this box's surface; see
    /// `geom_normal_s`.
    pub fn calculate_normal(&self, point: &Vec3) -> (n: Vec3)
        requires
            self.wf(),
            point.wf(),
        ensures
            n == geom_normal_s(self, *point),
            n.wf(),
    {
        if self.near(point.x, self.min_corner.x) {
            Vec3::new(-FX_ONE, 0, 0)
        } else if self.near(point.x, self.max_corner.x) {
            Vec3::new(FX_ONE, 0, 0)
        } else if self.near(point.y, self.min_corner.y) {
            Vec3::new(0, -FX_ONE, 0)
        } else if self.near(point.y, self.max_corner.y) {
            Vec3::new(0, FX_ONE, 0)
        } else if self.near(point.z, self.min_corner.z) {
            Vec3::new(0, 0, -FX_ONE)
        } else {
            Vec3::new(0, 0, FX_ONE)
        }
    }

    /// Whether `a` lies within the face band of plane coordinate `b`.
    fn near(&self, a: i64, b: i64) -> (r: bool)
        requires
            fx_wf(a),
            fx_wf(b),
        ensures
            r == near_s(a, b),
    {
        let diff: i64 = fx_sub(a, b);
        -FACE_EPS < diff && diff < FACE_EPS
    }
}

} // verus!
