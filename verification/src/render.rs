//! The rendering pipeline: nearest-hit search over the scene, recursive
//! shading with one reflective bounce per surface per light, and the
//! per-pixel render loop.

use vstd::prelude::*;
use crate::camera::{base_change_s, eye_s, Camera};
use crate::color::{cadd_s, cscale_s, pack_s, Color};
use crate::cube::{empty_intersect_s, hit_t_s, intersect_s, Cube, Intersect};
use crate::fixed::{
    fx_add, fx_add_s, fx_clamp, fx_clamp_s, fx_div, fx_div_s, fx_mul, fx_mul_s, fx_sub, fx_sub_s,
    FX_MAX, FX_ONE,
};
use crate::framebuffer::Framebuffer;
use crate::light::Light;
use crate::material::Material;
use crate::vec3::{dot_s, normalize_s, reflect_s, vadd_s, vscale_s, vsub_s, Vec3};

verus! {

/// How far a bounced ray's origin is pushed off the surface along the
/// normal, against the incoming direction, so the bounce cannot re-hit the
/// surface it just left (about 1e-4 in real units).
pub const ORIGIN_BIAS: i64 = 7;

/// Reflection bounces recurse while `depth <= MAX_DEPTH`; deeper rays fall
/// back to the sky color without touching geometry.
pub const MAX_DEPTH: u32 = 3;

/// `tan(fov / 2)` for the fixed vertical field of view of a third of a half
/// revolution, as a fixed-point scalar.
pub const PERSPECTIVE_SCALE: i64 = 37837;

/// The sky color rays that hit nothing resolve to (about 0.27, 0.56, 0.89).
pub open spec fn sky_color_s() -> Color {
    Color { r: 17695, g: 36700, b: 58327 }
}

/// The sky color rays that hit nothing resolve to.
pub fn skybox_color() -> (c: Color)
    ensures
        c == sky_color_s(),
        c.wf(),
{
    Color { r: 17695, g: 36700, b: 58327 }
}

/// A material's emission, or black when it has none.
pub open spec fn emission_or_black_s(m: Material) -> Color {
    match m.emission {
        Some(e) => e,
        None => Color { r: 0, g: 0, b: 0 },
    }
}

/// Where a bounced ray starts: the hit point pushed `ORIGIN_BIAS` along the
/// normal, with the sign chosen against the bounce direction's component
/// along the normal.
pub open spec fn offset_origin_s(it: Intersect, direction: Vec3) -> Vec3 {
    let offset = vscale_s(it.normal, ORIGIN_BIAS as int);
    if dot_s(direction, it.normal) < 0 {
        vsub_s(it.point, offset)
    } else {
        vadd_s(it.point, offset)
    }
}

/// The nearest hit among the first `n` boxes: the scan keeps the hit with
/// the strictly smallest distance, so the earliest box wins ties, and the
/// "no hit" sentinel (at distance `FX_MAX`) can never displace a hit.
pub open spec fn nearest_upto_s(objects: Seq<Cube>, o: Vec3, d: Vec3, n: int) -> Intersect
    decreases n,
{
    if n <= 0 {
        empty_intersect_s()
    } else {
        let prev = nearest_upto_s(objects, o, d, n - 1);
        let i = intersect_s(&objects[n - 1], o, d);
        if i.is_intersecting && i.distance < prev.distance {
            i
        } else {
            prev
        }
    }
}

/// The color a ray resolves to: the sky beyond the depth bound or when no
/// box is hit, otherwise the hit's emission plus every light's contribution.
pub open spec fn cast_ray_s(
    objects: Seq<Cube>,
    lights: Seq<Light>,
    o: Vec3,
    d: Vec3,
    depth: int,
) -> Color
    decreases 4 - depth, lights.len() + 1,
        when 0 <= depth
{
    if depth > MAX_DEPTH {
        sky_color_s()
    } else {
        let hit = nearest_upto_s(objects, o, d, objects.len() as int);
        if !hit.is_intersecting {
            sky_color_s()
        } else {
            shade_upto_s(objects, lights, lights.len() as int, hit, d, depth)
        }
    }
}

/// The shading accumulated over the first `k` lights, starting from the
/// hit's emission: per light, a diffuse term weighed by `albedo[0]` and the
/// light's intensity, plus — when `albedo[2]` is positive — the color of the
/// reflected ray cast one level deeper, weighed by `albedo[2]`.
pub open spec fn shade_upto_s(
    objects: Seq<Cube>,
    lights: Seq<Light>,
    k: int,
    hit: Intersect,
    d: Vec3,
    depth: int,
) -> Color
    decreases 4 - depth, k,
        when 0 <= depth <= MAX_DEPTH && 0 <= k
{
    if k <= 0 {
        cadd_s(Color { r: 0, g: 0, b: 0 }, emission_or_black_s(hit.material))
    } else {
        let prev = shade_upto_s(objects, lights, k - 1, hit, d, depth);
        let light = lights[k - 1];
        let light_dir = normalize_s(vsub_s(light.position, hit.point));
        let diffuse_intensity = fx_clamp_s(dot_s(hit.normal, light_dir), 0, FX_ONE as int);
        let diffuse = cscale_s(
            cscale_s(
                cscale_s(hit.material.diffuse, hit.material.albedo@[0] as int),
                diffuse_intensity,
            ),
            light.intensity as int,
        );
        let reflectivity = hit.material.albedo@[2];
        let reflect_color = if reflectivity > 0 {
            let reflect_dir = normalize_s(reflect_s(d, hit.normal));
            let reflect_origin = offset_origin_s(hit, reflect_dir);
            cast_ray_s(objects, lights, reflect_origin, reflect_dir, depth + 1)
        } else {
            Color { r: 0, g: 0, b: 0 }
        };
        cadd_s(cadd_s(prev, diffuse), cscale_s(reflect_color, reflectivity as int))
    }
}

/// Every box in the scene is well formed.
pub open spec fn objects_wf(objects: Seq<Cube>) -> bool {
    forall|i: int| 0 <= i < objects.len() ==> (#[trigger] objects[i]).wf()
}

/// Every light in the scene is well formed.
pub open spec fn lights_wf(lights: Seq<Light>) -> bool {
    forall|i: int| 0 <= i < lights.len() ==> (#[trigger] lights[i]).wf()
}

/// Where a bounced ray starts; see `offset_origin_s`.
pub fn offset_origin(intersect: &Intersect, direction: &Vec3) -> (r: Vec3)
    requires
        intersect.wf(),
        direction.wf(),
    ensures
        r == offset_origin_s(*intersect, *direction),
        r.wf(),
{
    let offset: Vec3 = intersect.normal.scale(ORIGIN_BIAS);
    if direction.dot(&intersect.normal) < 0 {
        intersect.point.minus(&offset)
    } else {
        intersect.point.plus(&offset)
    }
}

/// A ray that misses every box up to `n` resolves to the empty sentinel.
pub proof fn lemma_nearest_all_miss(objects: Seq<Cube>, o: Vec3, d: Vec3, n: int)
    requires
        0 <= n <= objects.len(),
        forall|i: int| 0 <= i < objects.len() ==> hit_t_s(&objects[i], o, d) is None,
    ensures
        nearest_upto_s(objects, o, d, n) == empty_intersect_s(),
    decreases n,
{
    if n > 0 {
        lemma_nearest_all_miss(objects, o, d, n - 1);
        assert(hit_t_s(&objects[n - 1], o, d) is None);
    }
}

/// The entry `t` of a hit is bounded by the saturation range, so a real hit
/// always beats the `FX_MAX` sentinel distance.
pub proof fn lemma_hit_distance_bounds(c: &Cube, o: Vec3, d: Vec3)
    ensures
        intersect_s(c, o, d).is_intersecting ==> 0 <= intersect_s(c, o, d).distance <= FX_MAX,
        !intersect_s(c, o, d).is_intersecting ==> intersect_s(c, o, d).distance == FX_MAX,
{
}

/// The z-buffer selection really picks a nearest hit: the scan's result is
/// at most as far as every hit among the first `n` boxes, and it is either
/// the empty sentinel or the hit of one of those boxes.
#[verifier::rlimit(100)]
pub proof fn lemma_nearest_is_minimal(objects: Seq<Cube>, o: Vec3, d: Vec3, n: int)
    requires
        0 <= n <= objects.len(),
    ensures
        forall|i: int|
            0 <= i < n && (#[trigger] intersect_s(&objects[i], o, d)).is_intersecting
                ==> nearest_upto_s(objects, o, d, n).distance <= intersect_s(
                &objects[i],
                o,
                d,
            ).distance,
        nearest_upto_s(objects, o, d, n) == empty_intersect_s() || exists|i: int|
            0 <= i < n && nearest_upto_s(objects, o, d, n) == #[trigger] intersect_s(
                &objects[i],
                o,
                d,
            ),
    decreases n,
{
    if n > 0 {
        lemma_nearest_is_minimal(objects, o, d, n - 1);
        let prev = nearest_upto_s(objects, o, d, n - 1);
        let last = intersect_s(&objects[n - 1], o, d);
        assert(nearest_upto_s(objects, o, d, n).distance <= prev.distance);
        if nearest_upto_s(objects, o, d, n) == last {
            assert(exists|i: int|
                0 <= i < n && nearest_upto_s(objects, o, d, n) == #[trigger] intersect_s(
                    &objects[i],
                    o,
                    d,
                ));
        }
    }
}

/// Nearest-hit selection is order independent for two boxes hit at different
/// distances: scanning `[a, b]` and scanning `[b, a]` both select the hit of
/// the nearer box, whatever the array order.
#[verifier::rlimit(100)]
pub proof fn lemma_nearest_hit_order(a: Cube, b: Cube, o: Vec3, d: Vec3)
    requires
        intersect_s(&a, o, d).is_intersecting,
        intersect_s(&b, o, d).is_intersecting,
        intersect_s(&a, o, d).distance < intersect_s(&b, o, d).distance,
    ensures
        nearest_upto_s(seq![a, b], o, d, 2) == intersect_s(&a, o, d),
        nearest_upto_s(seq![b, a], o, d, 2) == intersect_s(&a, o, d),
{
    let ia = intersect_s(&a, o, d);
    let ib = intersect_s(&b, o, d);
    lemma_hit_distance_bounds(&a, o, d);
    lemma_hit_distance_bounds(&b, o, d);
    let sab = seq![a, b];
    let sba = seq![b, a];
    assert(nearest_upto_s(sab, o, d, 0) == empty_intersect_s());
    assert(nearest_upto_s(sab, o, d, 1) == ia);
    assert(nearest_upto_s(sab, o, d, 2) == ia);
    assert(nearest_upto_s(sba, o, d, 0) == empty_intersect_s());
    if ib.distance < FX_MAX {
        assert(nearest_upto_s(sba, o, d, 1) == ib);
    } else {
        assert(nearest_upto_s(sba, o, d, 1) == empty_intersect_s());
    }
    assert(nearest_upto_s(sba, o, d, 2) == ia);
}

/// The color a ray resolves to; see `cast_ray_s`. Beyond the depth bound, or
/// when the ray misses every box, this is exactly the sky color.
pub fn cast_ray(
    ray_origin: &Vec3,
    ray_direction: &Vec3,
    objects: &Vec<Cube>,
    lights: &Vec<Light>,
    depth: u32,
) -> (c: Color)
    requires
        ray_origin.wf(),
        ray_direction.wf(),
        objects_wf(objects@),
        lights_wf(lights@),
    ensures
        c == cast_ray_s(objects@, lights@, *ray_origin, *ray_direction, depth as int),
        c.wf(),
        depth > MAX_DEPTH ==> c == sky_color_s(),
        (forall|i: int|
            0 <= i < objects@.len() ==> hit_t_s(&objects@[i], *ray_origin, *ray_direction)
                is None) ==> c == sky_color_s(),
    decreases 4 - depth,
{
    if depth > MAX_DEPTH {
        return skybox_color();
    }

    let mut intersect: Intersect = Intersect::empty();
    let mut zbuffer: i64 = FX_MAX;

    let nobj: usize = objects.len();
    let mut idx: usize = 0;
    while idx < nobj
        invariant
            idx <= nobj,
            nobj == objects@.len(),
            ray_origin.wf(),
            ray_direction.wf(),
            objects_wf(objects@),
            intersect == nearest_upto_s(objects@, *ray_origin, *ray_direction, idx as int),
            zbuffer == intersect.distance,
            intersect.wf(),
        decreases nobj - idx,
    {
        let inter: Intersect = objects[idx].ray_intersect(ray_origin, ray_direction);
        if inter.is_intersecting && inter.distance < zbuffer {
            zbuffer = inter.distance;
            intersect = inter;
        }
        idx = idx + 1;
    }

    if !intersect.is_intersecting {
        proof {
            if forall|i: int|
                0 <= i < objects@.len() ==> hit_t_s(&objects@[i], *ray_origin, *ray_direction)
                    is None {
                lemma_nearest_all_miss(
                    objects@,
                    *ray_origin,
                    *ray_direction,
                    objects@.len() as int,
                );
            }
        }
        return skybox_color();
    }

    proof {
        if forall|i: int|
            0 <= i < objects@.len() ==> hit_t_s(&objects@[i], *ray_origin, *ray_direction)
                is None {
            lemma_nearest_all_miss(objects@, *ray_origin, *ray_direction, objects@.len() as int);
        }
    }

    let mut final_color: Color = Color::black();
    let emission: Color = match &intersect.material.emission {
        Some(e) => *e,
        None => Color::black(),
    };
    final_color = final_color.plus(&emission);

    let nl: usize = lights.len();
    let mut j: usize = 0;
    while j < nl
        invariant
            j <= nl,
            nl == lights@.len(),
            depth <= MAX_DEPTH,
            ray_origin.wf(),
            ray_direction.wf(),
            objects_wf(objects@),
            lights_wf(lights@),
            intersect.wf(),
            intersect == nearest_upto_s(
                objects@,
                *ray_origin,
                *ray_direction,
                objects@.len() as int,
            ),
            intersect.is_intersecting,
            final_color == shade_upto_s(
                objects@,
                lights@,
                j as int,
                intersect,
                *ray_direction,
                depth as int,
            ),
            final_color.wf(),
        decreases nl - j,
    {
        let light: Light = lights[j];
        let light_dir: Vec3 = light.position.minus(&intersect.point).normalize();

        let diffuse_intensity: i64 = fx_clamp(intersect.normal.dot(&light_dir), 0, FX_ONE);
        let albedo0: i64 = intersect.material.albedo[0];
        let diffuse: Color = intersect.material.diffuse.scale(albedo0).scale(
            diffuse_intensity,
        ).scale(light.intensity);

        let mut reflect_color: Color = Color::black();
        let reflectivity: i64 = intersect.material.albedo[2];
        if reflectivity > 0 {
            let reflect_dir: Vec3 = ray_direction.reflect(&intersect.normal).normalize();
            let reflect_origin: Vec3 = offset_origin(&intersect, &reflect_dir);
            reflect_color = cast_ray(&reflect_origin, &reflect_dir, objects, lights, depth + 1);
        }

        final_color = final_color.plus(&diffuse).plus(&reflect_color.scale(reflectivity));
        j = j + 1;
    }

    final_color
}

/// The world-space direction of the camera ray through pixel (x, y) of a
/// `w` by `h` target: normalized device coordinates in `[-1, 1]` with the
/// y axis flipped, scaled by the aspect ratio and by `PERSPECTIVE_SCALE`,
/// normalized, and rotated into world space by the camera basis.
pub open spec fn ray_dir_s(cam: Camera, w: int, h: int, x: int, y: int) -> Vec3 {
    let aspect = fx_div_s(w * FX_ONE, h * FX_ONE);
    let sx = fx_sub_s(fx_div_s(2 * x * FX_ONE, w * FX_ONE), FX_ONE as int);
    let sy = fx_add_s(fx_sub_s(0, fx_div_s(2 * y * FX_ONE, h * FX_ONE)), FX_ONE as int);
    let px = fx_mul_s(fx_mul_s(sx, aspect), PERSPECTIVE_SCALE as int);
    let py = fx_mul_s(sy, PERSPECTIVE_SCALE as int);
    let dir = normalize_s(Vec3 { x: px as i64, y: py as i64, z: (-FX_ONE) as i64 });
    base_change_s(cam, dir)
}

/// The packed pixel the renderer writes at (x, y): the color of the camera
/// ray through that pixel, cast at depth zero from the camera eye.
#[verifier::opaque]
pub open spec fn pixel_color_s(
    objects: Seq<Cube>,
    lights: Seq<Light>,
    cam: Camera,
    w: int,
    h: int,
    x: int,
    y: int,
) -> int {
    pack_s(cast_ray_s(objects, lights, eye_s(cam), ray_dir_s(cam, w, h, x, y), 0))
}

/// Distinct in-range pixel coordinates have distinct, in-range row-major
/// indices.
proof fn lemma_rowmajor_distinct(w: int, h: int, x1: int, y1: int, x2: int, y2: int)
    requires
        0 <= x1 < w,
        0 <= x2 < w,
        0 <= y1 < h,
        0 <= y2 < h,
        (x1, y1) != (x2, y2),
    ensures
        y1 * w + x1 != y2 * w + x2,
        0 <= y1 * w + x1 < w * h,
        0 <= y2 * w + x2 < w * h,
{
    if y1 != y2 {
        assert(y1 * w + x1 != y2 * w + x2) by (nonlinear_arith)
            requires
                0 <= x1 < w,
                0 <= x2 < w,
                y1 != y2,
        ;
    }
    assert(0 <= y1 * w + x1 < w * h && 0 <= y2 * w + x2 < w * h) by (nonlinear_arith)
        requires
            0 <= x1 < w,
            0 <= x2 < w,
            0 <= y1 < h,
            0 <= y2 < h,
    ;
}

/// The packed color of the camera ray through pixel (x, y); see
/// `pixel_color_s`.
fn render_pixel(
    objects: &Vec<Cube>,
    camera: &Camera,
    lights: &Vec<Light>,
    eye: &Vec3,
    aspect_ratio: i64,
    width_fx: i64,
    height_fx: i64,
    width: usize,
    height: usize,
    x: usize,
    y: usize,
) -> (p: u32)
    requires
        camera.wf(),
        objects_wf(objects@),
        lights_wf(lights@),
        1 <= width <= 65536,
        1 <= height <= 65536,
        x < width,
        y < height,
        width_fx == width * FX_ONE,
        height_fx == height * FX_ONE,
        aspect_ratio == fx_div_s(width * FX_ONE, height * FX_ONE),
        *eye == eye_s(*camera),
        eye.wf(),
    ensures
        p == pixel_color_s(objects@, lights@, *camera, width as int, height as int, x as int, y as int),
{
    let screen_x: i64 = fx_sub(fx_div((2 * x as i64) * FX_ONE, width_fx), FX_ONE);
    let screen_y: i64 = fx_add(fx_sub(0, fx_div((2 * y as i64) * FX_ONE, height_fx)), FX_ONE);

    let screen_x: i64 = fx_mul(fx_mul(screen_x, aspect_ratio), PERSPECTIVE_SCALE);
    let screen_y: i64 = fx_mul(screen_y, PERSPECTIVE_SCALE);

    let ray_direction: Vec3 = Vec3::new(screen_x, screen_y, -FX_ONE).normalize();
    let rotated_direction: Vec3 = camera.base_change(&ray_direction);
    proof {
        assert(rotated_direction == ray_dir_s(
            *camera,
            width as int,
            height as int,
            x as int,
            y as int,
        ));
    }

    let pixel_color: Color = cast_ray(eye, &rotated_direction, objects, lights, 0);
    proof {
        reveal(pixel_color_s);
    }
    pixel_color.to_u32()
}

/// Render one frame: write, for every pixel of the target, the packed color
/// of the camera ray through it. One value per pixel, row-major, no partial
/// frames.
#[verifier::rlimit(100)]
pub fn render(
    framebuffer: &mut Framebuffer,
    objects: &Vec<Cube>,
    camera: &Camera,
    lights: &Vec<Light>,
)
    requires
        old(framebuffer).wf(),
        1 <= old(framebuffer).width <= 65536,
        1 <= old(framebuffer).height <= 65536,
        camera.wf(),
        objects_wf(objects@),
        lights_wf(lights@),
    ensures
        final(framebuffer).wf(),
        final(framebuffer).width == old(framebuffer).width,
        final(framebuffer).height == old(framebuffer).height,
        forall|x: int, y: int|
            0 <= x < old(framebuffer).width && 0 <= y < old(framebuffer).height
                ==> #[trigger] final(framebuffer).pixel_at(x, y) == pixel_color_s(
                objects@,
                lights@,
                *camera,
                old(framebuffer).width as int,
                old(framebuffer).height as int,
                x,
                y,
            ),
{
    let width: usize = framebuffer.width;
    let height: usize = framebuffer.height;
    let width_fx: i64 = (width as i64) * FX_ONE;
    let height_fx: i64 = (height as i64) * FX_ONE;
    let aspect_ratio: i64 = fx_div(width_fx, height_fx);
    let eye: Vec3 = camera.eye();

    let mut y: usize = 0;
    while y < height
        invariant
            y <= height,
            framebuffer.wf(),
            framebuffer.width == width,
            framebuffer.height == height,
            1 <= width <= 65536,
            1 <= height <= 65536,
            camera.wf(),
            objects_wf(objects@),
            lights_wf(lights@),
            width_fx == width * FX_ONE,
            height_fx == height * FX_ONE,
            aspect_ratio == fx_div_s(width * FX_ONE, height * FX_ONE),
            eye == eye_s(*camera),
            eye.wf(),
            forall|xx: int, yy: int|
                0 <= xx < width && 0 <= yy < y ==> #[trigger] framebuffer.pixel_at(xx, yy)
                    == pixel_color_s(
                    objects@,
                    lights@,
                    *camera,
                    width as int,
                    height as int,
                    xx,
                    yy,
                ),
        decreases height - y,
    {
        let mut x: usize = 0;
        while x < width
            invariant
                x <= width,
                y < height,
                framebuffer.wf(),
                framebuffer.width == width,
                framebuffer.height == height,
                1 <= width <= 65536,
                1 <= height <= 65536,
                camera.wf(),
                objects_wf(objects@),
                lights_wf(lights@),
                width_fx == width * FX_ONE,
                height_fx == height * FX_ONE,
                aspect_ratio == fx_div_s(width * FX_ONE, height * FX_ONE),
                eye == eye_s(*camera),
                eye.wf(),
                forall|xx: int, yy: int|
                    0 <= xx < width && 0 <= yy < y ==> #[trigger] framebuffer.pixel_at(xx, yy)
                        == pixel_color_s(
                        objects@,
                        lights@,
                        *camera,
                        width as int,
                        height as int,
                        xx,
                        yy,
                    ),
                forall|xx: int|
                    0 <= xx < x ==> #[trigger] framebuffer.pixel_at(xx, y as int)
                        == pixel_color_s(
                        objects@,
                        lights@,
                        *camera,
                        width as int,
                        height as int,
                        xx,
                        y as int,
                    ),
            decreases width - x,
        {
            let packed: u32 = render_pixel(
                objects,
                camera,
                lights,
                &eye,
                aspect_ratio,
                width_fx,
                height_fx,
                width,
                height,
                x,
                y,
            );
            let ghost pre = *framebuffer;
            framebuffer.set_current_color(packed);
            framebuffer.point(x, y);

            proof {
                assert forall|xx: int, yy: int|
                    0 <= xx < width && 0 <= yy < y implies #[trigger] framebuffer.pixel_at(xx, yy)
                    == pixel_color_s(
                    objects@,
                    lights@,
                    *camera,
                    width as int,
                    height as int,
                    xx,
                    yy,
                ) by {
                    lemma_rowmajor_distinct(width as int, height as int, xx, yy, x as int, y as int);
                    assert(pre.pixel_at(xx, yy) == pixel_color_s(
                        objects@,
                        lights@,
                        *camera,
                        width as int,
                        height as int,
                        xx,
                        yy,
                    ));
                }
                assert forall|xx: int| 0 <= xx < x implies #[trigger] framebuffer.pixel_at(
                    xx,
                    y as int,
                ) == pixel_color_s(
                    objects@,
                    lights@,
                    *camera,
                    width as int,
                    height as int,
                    xx,
                    y as int,
                ) by {
                    lemma_rowmajor_distinct(
                        width as int,
                        height as int,
                        xx,
                        y as int,
                        x as int,
                        y as int,
                    );
                    assert(pre.pixel_at(xx, y as int) == pixel_color_s(
                        objects@,
                        lights@,
                        *camera,
                        width as int,
                        height as int,
                        xx,
                        y as int,
                    ));
                }
                assert(0 <= (y as int) * (width as int) + (x as int) < (width as int) * (
                height as int)) by (nonlinear_arith)
                    requires
                        0 <= x < width,
                        0 <= y < height,
                ;
                assert(framebuffer.pixel_at(x as int, y as int) == packed);
            }

            x = x + 1;
        }
        y = y + 1;
    }
}

} // verus!
