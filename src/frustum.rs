//! The view frustum: six planes built from a camera and a projection, and the
//! visibility tests run against them.
//!
//! Planes are kept exact. A plane is a normal `n` and an offset `d`; the signed
//! distance of a point `p` is `(n·p − d) / |n|`, non-negative on the visible side.
//! The sphere test compares squares, `4(n·p − d)² ≤ 3·scale²·|n|²`, so no
//! normal is ever divided by its length.

use vstd::prelude::*;
use crate::angle::div_trunc;
use crate::camera::Camera;
use crate::geometry::{
    abs, bounded, cross, dot, square_le_three_squares,
    lemma_dot_self_bound, lemma_nonneg_mul, mul_bounded, up_of, up_vector, vdiv_trunc, vminus,
    vneg, vplus, vscale, Point3, Vec3, DIRECTION_UNIT, LENGTH_UNIT, V3,
};
use crate::instance::Instance;
use crate::projection::Projection;

verus! {

/// The camera's up vector, `front × right` brought back to direction scale.
pub open spec fn up_spec(c: Camera) -> V3 {
    up_of(c.front@, c.right@)
}

/// A plane with normal `n` through the point `p`.
pub open spec fn through(n: V3, p: V3) -> (V3, int) {
    (n, dot(n, p))
}

/// Near plane: normal `front`, through `position + front·znear` (with `front`
/// read as `front / DIRECTION_UNIT`; normal and offset are multiplied by
/// `DIRECTION_UNIT` to stay integers).
pub open spec fn near_spec(c: Camera, p: Projection) -> (V3, int) {
    let f = c.front@;
    let s = DIRECTION_UNIT as int;
    (vscale(f, s), s * dot(f, c.position@) + dot(f, f) * p.znear)
}

/// Far plane: normal `−front`, through `position + front·zfar`, scaled as the
/// near plane.
pub open spec fn far_spec(c: Camera, p: Projection) -> (V3, int) {
    let f = c.front@;
    let s = DIRECTION_UNIT as int;
    (vneg(vscale(f, s)), -(s * dot(f, c.position@) + dot(f, f) * p.zfar))
}

/// `front·zfar`, at the scale of `far_up` (the side planes pass through the
/// camera, so only the direction of these vectors matters).
pub open spec fn far_front(c: Camera, p: Projection) -> V3 {
    vscale(c.front@, p.tan_den as int)
}

/// `up·far_height` with `far_height = zfar·tan(fovy/2)`, at the scale of
/// `far_front`.
pub open spec fn far_up(c: Camera, p: Projection) -> V3 {
    vscale(up_spec(c), p.tan_num as int)
}

/// `front·zfar`, at the scale of `far_right`.
pub open spec fn far_front_wide(c: Camera, p: Projection) -> V3 {
    vscale(c.front@, p.tan_den * p.height)
}

/// `right·far_width` with `far_width = far_height·width/height`, at the scale
/// of `far_front_wide`.
pub open spec fn far_right(c: Camera, p: Projection) -> V3 {
    vscale(c.right@, p.tan_num * p.width)
}

/// Top plane: through the camera, normal `−(right × (front·zfar − up·far_height))`.
pub open spec fn top_spec(c: Camera, p: Projection) -> (V3, int) {
    through(vneg(cross(c.right@, vminus(far_front(c, p), far_up(c, p)))), c.position@)
}

/// Bottom plane: through the camera, normal `−((front·zfar + up·far_height) × right)`.
pub open spec fn bottom_spec(c: Camera, p: Projection) -> (V3, int) {
    through(vneg(cross(vplus(far_front(c, p), far_up(c, p)), c.right@)), c.position@)
}

/// Right plane: through the camera, normal `−((front·zfar − right·far_width) × up)`.
pub open spec fn right_spec(c: Camera, p: Projection) -> (V3, int) {
    through(vneg(cross(vminus(far_front_wide(c, p), far_right(c, p)), up_spec(c))), c.position@)
}

/// Left plane: through the camera, normal `−(up × (front·zfar + right·far_width))`.
pub open spec fn left_spec(c: Camera, p: Projection) -> (V3, int) {
    through(vneg(cross(up_spec(c), vplus(far_front_wide(c, p), far_right(c, p)))), c.position@)
}

/// `n·p − d`: the signed distance of `p` times `|n|`.
pub open spec fn plane_value(pl: (V3, int), p: V3) -> int {
    dot(pl.0, p) - pl.1
}

/// `n·q − w·d`: `w` times the value at the point `q / w`.
pub open spec fn plane_value_weighted(pl: (V3, int), q: V3, w: int) -> int {
    dot(pl.0, q) - w * pl.1
}

/// `n`, or +x in place of the zero vector.
pub open spec fn normal_or_default(n: V3) -> V3 {
    if n == (0int, 0int, 0int) {
        (1int, 0int, 0int)
    } else {
        n
    }
}

/// Components of a plane normal stay below this bound.
pub const NORMAL_BOUND: i128 = 0x2000_0000_0000_0000_0000;

/// Plane offsets stay below this bound.
pub const OFFSET_BOUND: i128 = 0x4000_0000_0000_0000_0000_0000_0000;

/// A plane `n·p = d` with a non-zero normal.
///
/// The normal is kept exact rather than brought to unit length: a unit normal
/// generally has irrational components, which integers cannot hold. The true
/// signed distance of `p` is `(n·p − d) / |n|` with `|n| > 0`, so it has the sign
/// of `n·p − d`, and the sphere test compares it with the radius exactly by
/// squaring both sides (`exact_sphere_reaches`).
#[derive(Clone, Copy, Debug)]
pub struct Plane {
    pub normal: Vec3,
    pub distance: i128,
}

impl Plane {
    pub open spec fn model(&self) -> (V3, int) {
        (self.normal@, self.distance as int)
    }

    pub open spec fn wf(&self) -> bool {
        &&& bounded(self.normal@, NORMAL_BOUND as int)
        &&& abs(self.distance as int) <= OFFSET_BOUND
        &&& dot(self.normal@, self.normal@) > 0
    }

    /// The plane with the given normal and offset; a zero normal, which has no
    /// orientation, is replaced by +x.
    pub fn from_normal(normal: Vec3, distance: i128) -> (r: Plane)
        requires
            bounded(normal@, NORMAL_BOUND as int),
            abs(distance as int) <= OFFSET_BOUND,
        ensures
            r.model() == (normal_or_default(normal@), distance as int),
            r.wf(),
    {
        let n = if normal.x == 0 && normal.y == 0 && normal.z == 0 {
            Vec3 { x: 1, y: 0, z: 0 }
        } else {
            normal
        };
        proof {
            let v = n@;
            assert(dot(v, v) > 0) by (nonlinear_arith)
                requires
                    v != (0int, 0int, 0int),
            ;
        }
        Plane { normal: n, distance }
    }

    /// The plane with normal `normal` through `point`; a zero normal, which has
    /// no orientation, is replaced by +x.
    pub fn new_from_point(normal: Vec3, point: Point3) -> (r: Plane)
        requires
            bounded(normal@, NORMAL_BOUND as int),
        ensures
            r.model() == through(normal_or_default(normal@), point@),
            r.wf(),
    {
        let oriented = Plane::from_normal(normal, 0);
        let p = Vec3::from_point(point);
        let d = oriented.normal.dot(&p, Ghost(NORMAL_BOUND as int), Ghost(0x8000_0000int));
        Plane { distance: d, ..oriented }
    }

    /// `n·p − d` for a point `p`: its signed distance times `|n|`.
    pub fn get_signed_distance(&self, p: Point3) -> (r: i128)
        requires
            self.wf(),
        ensures
            r == plane_value(self.model(), p@),
    {
        let v = Vec3::from_point(p);
        let a = self.normal.dot(&v, Ghost(NORMAL_BOUND as int), Ghost(0x8000_0000int));
        a - self.distance
    }

    /// `n·v − d` for a vector `v` with components of magnitude at most 2^32.
    pub fn value_at(&self, v: &Vec3) -> (r: i128)
        requires
            self.wf(),
            bounded(v@, 0x1_0000_0000),
        ensures
            r == plane_value(self.model(), v@),
            abs(r as int) <= 0x1_0000_0000_0000_0000_0000_0000_0000,
    {
        let a = self.normal.dot(v, Ghost(NORMAL_BOUND as int), Ghost(0x1_0000_0000int));
        a - self.distance
    }

    /// Whether the sphere of radius `scale·√3/2` around `v` reaches the inner
    /// side of the plane, decided exactly (see `exact_sphere_reaches`).
    pub fn sphere_reaches(&self, v: &Vec3, scale: u32) -> (r: bool)
        requires
            self.wf(),
            bounded(v@, 0x1_0000_0000),
        ensures
            r == exact_sphere_reaches(*self, v@, scale as int),
    {
        let s = self.value_at(v);
        if s >= 0 {
            return true;
        }
        let k = scale as u128;
        let (a0, a1, a2) = (
            abs_i128(self.normal.x),
            abs_i128(self.normal.y),
            abs_i128(self.normal.z),
        );
        proof {
            assert(k * a0 <= 0x1_0000_0000int * NORMAL_BOUND && k * a1 <= 0x1_0000_0000int
                * NORMAL_BOUND && k * a2 <= 0x1_0000_0000int * NORMAL_BOUND) by (nonlinear_arith)
                requires
                    k <= 0xFFFF_FFFFu128,
                    a0 <= NORMAL_BOUND,
                    a1 <= NORMAL_BOUND,
                    a2 <= NORMAL_BOUND,
            ;
        }
        let m0 = k * a0;
        let m1 = k * a1;
        let m2 = k * a2;
        let a: u128 = 2 * ((-s) as u128);
        proof {
            let (n0, n1, n2) = self.normal@;
            let kk = scale as int;
            assert(m0 * m0 == (kk * kk) * (n0 * n0) && m1 * m1 == (kk * kk) * (n1 * n1) && m2 * m2
                == (kk * kk) * (n2 * n2)) by (nonlinear_arith)
                requires
                    m0 == kk * abs(n0),
                    m1 == kk * abs(n1),
                    m2 == kk * abs(n2),
                    abs(n0) == n0 || abs(n0) == -n0,
                    abs(n1) == n1 || abs(n1) == -n1,
                    abs(n2) == n2 || abs(n2) == -n2,
            ;
            assert(3 * ((kk * kk) * (n0 * n0) + (kk * kk) * (n1 * n1) + (kk * kk) * (n2 * n2)) == 3
                * (kk * kk) * (n0 * n0 + n1 * n1 + n2 * n2)) by (nonlinear_arith);
            assert(a * a == 4 * (s * s)) by (nonlinear_arith)
                requires
                    a == 2 * (-s),
            ;
        }
        square_le_three_squares(a, m0, m1, m2)
    }
}

/// `|x|`, for `|x| <= NORMAL_BOUND`.
fn abs_i128(x: i128) -> (r: u128)
    requires
        abs(x as int) <= NORMAL_BOUND,
    ensures
        r == abs(x as int),
        r <= NORMAL_BOUND,
{
    if x < 0 {
        (-x) as u128
    } else {
        x as u128
    }
}

/// The exact sphere test: the sphere of radius `scale·√3/2` around `v` reaches
/// the inner side of the plane, `n·v − d ≥ −(scale·√3/2)·|n|`, which is
/// `n·v − d ≥ 0` or `4(n·v − d)² ≤ 3·scale²·|n|²`.
pub open spec fn exact_sphere_reaches(pl: Plane, v: V3, scale: int) -> bool {
    let s = plane_value(pl.model(), v);
    s >= 0 || 4 * (s * s) <= 3 * (scale * scale) * dot(pl.normal@, pl.normal@)
}

/// The offset from an instance's origin to the center of its unit cube.
pub open spec fn center_offset() -> V3 {
    ((LENGTH_UNIT / 2) as int, (LENGTH_UNIT / 2) as int, (LENGTH_UNIT / 2) as int)
}

/// The center of an instance's cube.
pub open spec fn center_of(inst: Instance) -> V3 {
    vplus(inst.position@, center_offset())
}

/// The six bounding planes of what the camera sees.
#[derive(Clone, Copy, Debug)]
pub struct Frustum {
    pub near_plane: Plane,
    pub far_plane: Plane,
    pub top_plane: Plane,
    pub bottom_plane: Plane,
    pub right_plane: Plane,
    pub left_plane: Plane,
}

impl Frustum {
    /// `p` is on the inner side of every plane.
    pub open spec fn contains(&self, p: V3) -> bool {
        &&& plane_value(self.near_plane.model(), p) >= 0
        &&& plane_value(self.far_plane.model(), p) >= 0
        &&& plane_value(self.top_plane.model(), p) >= 0
        &&& plane_value(self.bottom_plane.model(), p) >= 0
        &&& plane_value(self.right_plane.model(), p) >= 0
        &&& plane_value(self.left_plane.model(), p) >= 0
    }

    /// The sphere of radius `scale·√3/2` around the center of the instance's
    /// cube reaches the inner side of every plane.
    pub open spec fn instance_visible(&self, inst: Instance) -> bool {
        let c = center_of(inst);
        let k = inst.scale as int;
        &&& exact_sphere_reaches(self.near_plane, c, k)
        &&& exact_sphere_reaches(self.far_plane, c, k)
        &&& exact_sphere_reaches(self.top_plane, c, k)
        &&& exact_sphere_reaches(self.bottom_plane, c, k)
        &&& exact_sphere_reaches(self.right_plane, c, k)
        &&& exact_sphere_reaches(self.left_plane, c, k)
    }

    /// Whether the point `p` lies inside the frustum (on or inside every plane).
    pub fn is_inside(&self, p: Point3) -> (r: bool)
        requires
            self.wf(),
        ensures
            r == self.contains(p@),
    {
        self.near_plane.get_signed_distance(p) >= 0 && self.far_plane.get_signed_distance(p) >= 0
            && self.top_plane.get_signed_distance(p) >= 0
            && self.bottom_plane.get_signed_distance(p) >= 0
            && self.right_plane.get_signed_distance(p) >= 0
            && self.left_plane.get_signed_distance(p) >= 0
    }

    /// Whether an instance is visible: the sphere around its cube (radius
    /// `scale·√3/2`, which circumscribes the cube) reaches the inner side of all
    /// six planes. A scale of zero makes this the point test of the cube's center.
    pub fn is_inside_instance(&self, instance: &Instance) -> (r: bool)
        requires
            self.wf(),
        ensures
            r == self.instance_visible(*instance),
    {
        let half: i128 = (LENGTH_UNIT / 2) as i128;
        let c = Vec3 {
            x: instance.position.x as i128 + half,
            y: instance.position.y as i128 + half,
            z: instance.position.z as i128 + half,
        };
        let k = instance.scale;
        self.near_plane.sphere_reaches(&c, k) && self.far_plane.sphere_reaches(&c, k)
            && self.top_plane.sphere_reaches(&c, k) && self.bottom_plane.sphere_reaches(&c, k)
            && self.right_plane.sphere_reaches(&c, k) && self.left_plane.sphere_reaches(&c, k)
    }

    /// The visibility of each instance, in order.
    pub fn visibility_mask(&self, instances: &Vec<Instance>) -> (r: Vec<bool>)
        requires
            self.wf(),
        ensures
            r@.len() == instances@.len(),
            forall|i: int| 0 <= i < r@.len() ==> r@[i] == self.instance_visible(#[trigger] instances@[i]),
    {
        let mut r: Vec<bool> = Vec::new();
        let mut i: usize = 0;
        while i < instances.len()
            invariant
                self.wf(),
                i <= instances@.len(),
                r@.len() == i,
                forall|j: int| 0 <= j < i ==> r@[j] == self.instance_visible(#[trigger] instances@[j]),
            decreases instances@.len() - i,
        {
            r.push(self.is_inside_instance(&instances[i]));
            i = i + 1;
        }
        r
    }

    pub open spec fn wf(&self) -> bool {
        &&& self.near_plane.wf()
        &&& self.far_plane.wf()
        &&& self.top_plane.wf()
        &&& self.bottom_plane.wf()
        &&& self.right_plane.wf()
        &&& self.left_plane.wf()
    }

    /// The frustum is exactly the one that `camera` and `projection` describe.
    pub open spec fn built_from(&self, c: Camera, p: Projection) -> bool {
        &&& self.near_plane.model() == near_spec(c, p)
        &&& self.far_plane.model() == far_spec(c, p)
        &&& self.top_plane.model() == top_spec(c, p)
        &&& self.bottom_plane.model() == bottom_spec(c, p)
        &&& self.right_plane.model() == right_spec(c, p)
        &&& self.left_plane.model() == left_spec(c, p)
    }

    /// Builds the six planes for `camera` seen through `projection`.
    pub fn new(camera: &Camera, projection: &Projection) -> (r: Frustum)
        requires
            camera.wf(),
            projection.wf(),
        ensures
            r.wf(),
            r.built_from(*camera, *projection),
    {
        let ghost c = *camera;
        let ghost p = *projection;
        let f = Vec3::from_direction(camera.front);
        let rt = Vec3::from_direction(camera.right);
        let pos = Vec3::from_point(camera.position);
        let s: i128 = DIRECTION_UNIT as i128;
        let tan: i128 = projection.tan_num as i128;
        let ratio: i128 = projection.tan_den as i128;
        let width: i128 = projection.width as i128;
        let height: i128 = projection.height as i128;

        let up = up_vector(camera.front, camera.right);
        proof {
            lemma_normals_nonzero(c, p);
        }

        // near and far planes
        let ff = f.dot(&f, Ghost(0x2000int), Ghost(0x2000int));
        let fp = f.dot(&pos, Ghost(0x2000int), Ghost(0x8000_0000int));
        let s_fp = mul_bounded(s, fp, Ghost(0x2000int), Ghost(0x6_0000_0000_0000int));
        let ff_near = mul_bounded(ff, projection.znear as i128, Ghost(0xC00_0000int), Ghost(0x8000_0000int));
        let ff_far = mul_bounded(ff, projection.zfar as i128, Ghost(0xC00_0000int), Ghost(0x8000_0000int));
        let near_normal = f.scaled(s, Ghost(0x2000int), Ghost(0x2000int));
        let near_plane = Plane::from_normal(near_normal, s_fp + ff_near);
        let far_normal = near_normal.negated(Ghost(0x400_0000int));
        let far_plane = Plane::from_normal(far_normal, -(s_fp + ff_far));

        // top and bottom planes
        let front_r = f.scaled(ratio, Ghost(0x2000int), Ghost(0x1_0000int));
        let up_t = up.scaled(tan, Ghost(0x4000int), Ghost(0x1_0000int));
        let top_v = front_r.minus(&up_t, Ghost(0x4000_0000int));
        let top_n = rt.cross(&top_v, Ghost(0x2000int), Ghost(0x8000_0000int)).negated(
            Ghost(0x2000_0000_0000int),
        );
        let top_plane = Plane::new_from_point(top_n, camera.position);
        let bottom_v = front_r.plus(&up_t, Ghost(0x4000_0000int));
        let bottom_n = bottom_v.cross(&rt, Ghost(0x8000_0000int), Ghost(0x2000int)).negated(
            Ghost(0x2000_0000_0000int),
        );
        let bottom_plane = Plane::new_from_point(bottom_n, camera.position);

        // right and left planes
        let tan_width = mul_bounded(tan, width, Ghost(0x1_0000int), Ghost(0x1_0000_0000int));
        let ratio_height = mul_bounded(ratio, height, Ghost(0x1_0000int), Ghost(0x1_0000_0000int));
        let front_rh = f.scaled(ratio_height, Ghost(0x2000int), Ghost(0x1_0000_0000_0000int));
        let right_w = rt.scaled(tan_width, Ghost(0x2000int), Ghost(0x1_0000_0000_0000int));
        let right_v = front_rh.minus(&right_w, Ghost(0x2000_0000_0000_0000int));
        let right_n = right_v.cross(&up, Ghost(0x4000_0000_0000_0000int), Ghost(0x4000int)).negated(
            Ghost(0x2000_0000_0000_0000_0000int),
        );
        let right_plane = Plane::new_from_point(right_n, camera.position);
        let left_v = front_rh.plus(&right_w, Ghost(0x2000_0000_0000_0000int));
        let left_n = up.cross(&left_v, Ghost(0x4000int), Ghost(0x4000_0000_0000_0000int)).negated(
            Ghost(0x2000_0000_0000_0000_0000int),
        );
        let left_plane = Plane::new_from_point(left_n, camera.position);

        Frustum { near_plane, far_plane, top_plane, bottom_plane, right_plane, left_plane }
    }
}


proof fn lemma_div_trunc_sign(a: int, k: int)
    requires
        k > 0,
    ensures
        a * div_trunc(a, k) >= 0,
        div_trunc(a, k) != 0 ==> a * div_trunc(a, k) > 0,
{
    if a >= 0 {
        let q = a / k;
        assert(q >= 0 && a * q >= 0 && (q != 0 ==> a * q > 0)) by (nonlinear_arith)
            requires
                k > 0,
                a >= 0,
                q == a / k,
        ;
    } else {
        let q = (-a) / k;
        assert(q >= 0 && a * (-q) >= 0 && (q != 0 ==> a * (-q) > 0)) by (nonlinear_arith)
            requires
                k > 0,
                a < 0,
                q == (-a) / k,
        ;
    }
}

proof fn lemma_dot_comm(a: V3, b: V3)
    ensures
        dot(a, b) == dot(b, a),
{
    assert(a.0 * b.0 == b.0 * a.0 && a.1 * b.1 == b.1 * a.1 && a.2 * b.2 == b.2 * a.2)
        by (nonlinear_arith);
}

/// `dot` is linear in its first argument.
proof fn lemma_dot_combination(f: V3, u: V3, a: int, b: int, w: V3)
    ensures
        dot(vplus(vscale(f, a), vscale(u, b)), w) == a * dot(f, w) + b * dot(u, w),
        dot(vminus(vscale(f, a), vscale(u, b)), w) == a * dot(f, w) - b * dot(u, w),
        dot(vscale(f, a), w) == a * dot(f, w),
        dot(vneg(f), w) == -dot(f, w),
{
    assert((f.0 * a + u.0 * b) * w.0 == a * (f.0 * w.0) + b * (u.0 * w.0)) by (nonlinear_arith);
    assert((f.1 * a + u.1 * b) * w.1 == a * (f.1 * w.1) + b * (u.1 * w.1)) by (nonlinear_arith);
    assert((f.2 * a + u.2 * b) * w.2 == a * (f.2 * w.2) + b * (u.2 * w.2)) by (nonlinear_arith);
    assert((f.0 * a - u.0 * b) * w.0 == a * (f.0 * w.0) - b * (u.0 * w.0)) by (nonlinear_arith);
    assert((f.1 * a - u.1 * b) * w.1 == a * (f.1 * w.1) - b * (u.1 * w.1)) by (nonlinear_arith);
    assert((f.2 * a - u.2 * b) * w.2 == a * (f.2 * w.2) - b * (u.2 * w.2)) by (nonlinear_arith);
    assert(a * (f.0 * w.0 + f.1 * w.1 + f.2 * w.2) == a * (f.0 * w.0) + a * (f.1 * w.1) + a * (
    f.2 * w.2)) by (nonlinear_arith);
    assert(b * (u.0 * w.0 + u.1 * w.1 + u.2 * w.2) == b * (u.0 * w.0) + b * (u.1 * w.1) + b * (
    u.2 * w.2)) by (nonlinear_arith);
    assert((f.0 * a) * w.0 == a * (f.0 * w.0) && (f.1 * a) * w.1 == a * (f.1 * w.1) && (f.2 * a)
        * w.2 == a * (f.2 * w.2)) by (nonlinear_arith);
    assert((-f.0) * w.0 == -(f.0 * w.0) && (-f.1) * w.1 == -(f.1 * w.1) && (-f.2) * w.2 == -(f.2
        * w.2)) by (nonlinear_arith);
}

proof fn lemma_mul_neg(b: int, x: int, t: int)
    requires
        x == -t,
    ensures
        b * x == -(b * t),
{
    assert(b * x == -(b * t)) by (nonlinear_arith)
        requires
            x == -t,
    ;
}

proof fn lemma_zero_mul(a: int, x: int)
    requires
        x == 0,
    ensures
        a * x == 0,
{
}

/// The scalar triple product is invariant under cyclic shifts.
proof fn lemma_triple(a: V3, b: V3, c: V3)
    ensures
        dot(cross(a, b), c) == dot(a, cross(b, c)),
        dot(cross(a, b), c) == dot(b, cross(c, a)),
        dot(a, cross(a, b)) == 0,
        dot(b, cross(a, b)) == 0,
{
    let (a0, a1, a2) = a;
    let (b0, b1, b2) = b;
    let (c0, c1, c2) = c;
    // every product expanded into monomials written in the order a, b, c
    assert((a1 * b2 - a2 * b1) * c0 == a1 * b2 * c0 - a2 * b1 * c0) by (nonlinear_arith);
    assert((a2 * b0 - a0 * b2) * c1 == a2 * b0 * c1 - a0 * b2 * c1) by (nonlinear_arith);
    assert((a0 * b1 - a1 * b0) * c2 == a0 * b1 * c2 - a1 * b0 * c2) by (nonlinear_arith);
    assert(a0 * (b1 * c2 - b2 * c1) == a0 * b1 * c2 - a0 * b2 * c1) by (nonlinear_arith);
    assert(a1 * (b2 * c0 - b0 * c2) == a1 * b2 * c0 - a1 * b0 * c2) by (nonlinear_arith);
    assert(a2 * (b0 * c1 - b1 * c0) == a2 * b0 * c1 - a2 * b1 * c0) by (nonlinear_arith);
    assert(b0 * (c1 * a2 - c2 * a1) == a2 * b0 * c1 - a1 * b0 * c2) by (nonlinear_arith);
    assert(b1 * (c2 * a0 - c0 * a2) == a0 * b1 * c2 - a2 * b1 * c0) by (nonlinear_arith);
    assert(b2 * (c0 * a1 - c1 * a0) == a1 * b2 * c0 - a0 * b2 * c1) by (nonlinear_arith);
    assert(a0 * (a1 * b2 - a2 * b1) == a0 * a1 * b2 - a0 * a2 * b1) by (nonlinear_arith);
    assert(a1 * (a2 * b0 - a0 * b2) == a1 * a2 * b0 - a0 * a1 * b2) by (nonlinear_arith);
    assert(a2 * (a0 * b1 - a1 * b0) == a0 * a2 * b1 - a1 * a2 * b0) by (nonlinear_arith);
    assert(b0 * (a1 * b2 - a2 * b1) == a1 * b0 * b2 - a2 * b0 * b1) by (nonlinear_arith);
    assert(b1 * (a2 * b0 - a0 * b2) == a2 * b0 * b1 - a0 * b1 * b2) by (nonlinear_arith);
    assert(b2 * (a0 * b1 - a1 * b0) == a0 * b1 * b2 - a1 * b0 * b2) by (nonlinear_arith);
}

/// With a usable basis, `u·(f × r) > 0` for the up vector `u`.
proof fn lemma_up_positive(c: Camera)
    requires
        c.wf(),
    ensures
        dot(up_spec(c), cross(c.front@, c.right@)) > 0,
{
    let w = cross(c.front@, c.right@);
    let s = DIRECTION_UNIT as int;
    lemma_div_trunc_sign(w.0, s);
    lemma_div_trunc_sign(w.1, s);
    lemma_div_trunc_sign(w.2, s);
    let u = up_spec(c);
    assert(u.0 * w.0 >= 0 && u.1 * w.1 >= 0 && u.2 * w.2 >= 0 && (u.0 * w.0 > 0 || u.1 * w.1 > 0
        || u.2 * w.2 > 0)) by (nonlinear_arith)
        requires
            w.0 * u.0 >= 0,
            w.1 * u.1 >= 0,
            w.2 * u.2 >= 0,
            u.0 != 0 ==> w.0 * u.0 > 0,
            u.1 != 0 ==> w.1 * u.1 > 0,
            u.2 != 0 ==> w.2 * u.2 > 0,
            u.0 != 0 || u.1 != 0 || u.2 != 0,
    ;
}

/// A vector with a non-zero dot product is not zero.
proof fn lemma_nonzero_by_dot(n: V3, f: V3)
    requires
        dot(n, f) != 0,
    ensures
        n != (0int, 0int, 0int),
{
    if n == (0int, 0int, 0int) {
        assert(dot(n, f) == 0) by (nonlinear_arith)
            requires
                n == (0int, 0int, 0int),
        ;
    }
}

/// For a usable camera and projection no plane normal is zero.
proof fn lemma_normals_nonzero(c: Camera, p: Projection)
    requires
        c.wf(),
        p.wf(),
    ensures
        near_spec(c, p).0 != (0int, 0int, 0int),
        far_spec(c, p).0 != (0int, 0int, 0int),
        top_spec(c, p).0 != (0int, 0int, 0int),
        bottom_spec(c, p).0 != (0int, 0int, 0int),
        right_spec(c, p).0 != (0int, 0int, 0int),
        left_spec(c, p).0 != (0int, 0int, 0int),
{
    let f = c.front@;
    let r = c.right@;
    let u = up_spec(c);
    let s = DIRECTION_UNIT as int;
    let ff = dot(f, f);
    lemma_dot_combination(f, f, s, 0, f);
    lemma_dot_combination(vscale(f, s), f, 1, 0, f);
    assert(s * ff > 0) by (nonlinear_arith)
        requires
            s > 0,
            ff > 0,
    ;
    lemma_nonzero_by_dot(near_spec(c, p).0, f);
    lemma_nonzero_by_dot(far_spec(c, p).0, f);
    lemma_up_positive(c);
    let t = dot(u, cross(f, r));
    let ta = p.tan_num * p.width;
    assert(p.tan_num * t > 0 && ta > 0 && ta * t > 0) by (nonlinear_arith)
        requires
            p.tan_num > 0,
            p.width > 0,
            t > 0,
            ta == p.tan_num * p.width,
    ;
    lemma_top_normal(f, r, u, p.tan_den as int, p.tan_num as int);
    lemma_bottom_normal(f, r, u, p.tan_den as int, p.tan_num as int);
    lemma_right_normal(f, r, u, p.tan_den * p.height, ta);
    lemma_left_normal(f, r, u, p.tan_den * p.height, ta);
    lemma_nonzero_by_dot(top_spec(c, p).0, f);
    lemma_nonzero_by_dot(bottom_spec(c, p).0, f);
    lemma_nonzero_by_dot(right_spec(c, p).0, f);
    lemma_nonzero_by_dot(left_spec(c, p).0, f);
}

/// On a plane through `pos`, the point `(s·pos + k·f) / s` has value `k·(n·f)`.
proof fn lemma_value_through(n: V3, pos: V3, f: V3, s: int, k: int)
    ensures
        plane_value_weighted(through(n, pos), vplus(vscale(pos, s), vscale(f, k)), s) == k * dot(
            n,
            f,
        ),
{
    lemma_dot_combination(pos, f, s, k, n);
    lemma_dot_comm(n, vplus(vscale(pos, s), vscale(f, k)));
    lemma_dot_comm(n, pos);
    lemma_dot_comm(n, f);
}

proof fn lemma_cross_anti(a: V3, b: V3, c: V3)
    ensures
        cross(a, b) == vneg(cross(b, a)),
        dot(c, cross(a, b)) == -dot(c, cross(b, a)),
{
    assert(a.1 * b.2 - a.2 * b.1 == -(b.1 * a.2 - b.2 * a.1)) by (nonlinear_arith);
    assert(a.2 * b.0 - a.0 * b.2 == -(b.2 * a.0 - b.0 * a.2)) by (nonlinear_arith);
    assert(a.0 * b.1 - a.1 * b.0 == -(b.0 * a.1 - b.1 * a.0)) by (nonlinear_arith);
    lemma_dot_combination(cross(b, a), c, 1, 0, c);
    lemma_dot_comm(c, cross(a, b));
    lemma_dot_comm(c, cross(b, a));
}

/// The top normal leans toward `front` by `b·(u·(f × r))`.
proof fn lemma_top_normal(f: V3, r: V3, u: V3, a: int, b: int)
    ensures
        dot(vneg(cross(r, vminus(vscale(f, a), vscale(u, b)))), f) == b * dot(u, cross(f, r)),
{
    let t = dot(u, cross(f, r));
    let v = vminus(vscale(f, a), vscale(u, b));
    lemma_dot_combination(cross(r, v), f, 1, 0, f);
    lemma_triple(r, v, f);
    lemma_dot_combination(f, u, a, b, cross(f, r));
    lemma_triple(f, r, f);
    lemma_zero_mul(a, dot(f, cross(f, r)));
    assert(dot(vneg(cross(r, v)), f) == -dot(cross(r, v), f));
    assert(dot(cross(r, v), f) == dot(v, cross(f, r)));
    assert(dot(v, cross(f, r)) == a * dot(f, cross(f, r)) - b * t);
}

/// The bottom normal leans toward `front` by `b·(u·(f × r))`.
proof fn lemma_bottom_normal(f: V3, r: V3, u: V3, a: int, b: int)
    ensures
        dot(vneg(cross(vplus(vscale(f, a), vscale(u, b)), r)), f) == b * dot(u, cross(f, r)),
{
    let t = dot(u, cross(f, r));
    let w = vplus(vscale(f, a), vscale(u, b));
    lemma_dot_combination(cross(w, r), f, 1, 0, f);
    lemma_triple(w, r, f);
    lemma_triple(r, f, w);
    lemma_dot_combination(f, u, a, b, cross(r, f));
    lemma_triple(r, f, u);
    lemma_triple(f, r, u);
    lemma_triple(u, f, r);
    lemma_triple(r, f, f);
    lemma_zero_mul(a, dot(f, cross(r, f)));
    lemma_cross_anti(r, f, u);
    assert(dot(vneg(cross(w, r)), f) == -dot(cross(w, r), f));
    assert(dot(cross(w, r), f) == dot(w, cross(r, f)));
    assert(dot(w, cross(r, f)) == a * dot(f, cross(r, f)) + b * dot(u, cross(r, f)));
    assert(dot(u, cross(r, f)) == -t);
    lemma_mul_neg(b, dot(u, cross(r, f)), t);
}

/// The right normal leans toward `front` by `b·(u·(f × r))`.
proof fn lemma_right_normal(f: V3, r: V3, u: V3, a: int, b: int)
    ensures
        dot(vneg(cross(vminus(vscale(f, a), vscale(r, b)), u)), f) == b * dot(u, cross(f, r)),
{
    let t = dot(u, cross(f, r));
    let x = vminus(vscale(f, a), vscale(r, b));
    lemma_dot_combination(cross(x, u), f, 1, 0, f);
    lemma_triple(x, u, f);
    lemma_dot_combination(f, r, a, b, cross(u, f));
    lemma_triple(u, f, f);
    lemma_zero_mul(a, dot(f, cross(u, f)));
    lemma_triple(u, f, r);
    lemma_dot_comm(r, cross(u, f));
    assert(dot(vneg(cross(x, u)), f) == -dot(cross(x, u), f));
    assert(dot(cross(x, u), f) == dot(x, cross(u, f)));
    assert(dot(x, cross(u, f)) == a * dot(f, cross(u, f)) - b * dot(r, cross(u, f)));
    assert(dot(r, cross(u, f)) == t);
}

/// The left normal leans toward `front` by `b·(u·(f × r))`.
proof fn lemma_left_normal(f: V3, r: V3, u: V3, a: int, b: int)
    ensures
        dot(vneg(cross(u, vplus(vscale(f, a), vscale(r, b)))), f) == b * dot(u, cross(f, r)),
{
    let y = vplus(vscale(f, a), vscale(r, b));
    lemma_dot_combination(cross(u, y), f, 1, 0, f);
    lemma_triple(u, y, f);
    lemma_triple(y, f, u);
    lemma_dot_combination(f, r, a, b, cross(f, u));
    lemma_triple(f, u, f);
    lemma_triple(f, u, r);
    lemma_triple(u, f, r);
    lemma_zero_mul(a, dot(f, cross(f, u)));
    lemma_cross_anti(f, u, r);
    lemma_dot_comm(r, cross(u, f));
    let t = dot(u, cross(f, r));
    assert(dot(vneg(cross(u, y)), f) == -dot(cross(u, y), f));
    assert(dot(cross(u, y), f) == dot(y, cross(f, u)));
    assert(dot(y, cross(f, u)) == a * dot(f, cross(f, u)) + b * dot(r, cross(f, u)));
    assert(dot(r, cross(u, f)) == t);
    assert(dot(r, cross(f, u)) == -t);
    lemma_mul_neg(b, dot(r, cross(f, u)), t);
}

/// The near plane's value at `(s·pos + k·f) / s`, and the far plane's.
proof fn lemma_near_far_values(f: V3, pos: V3, s: int, k: int, zn: int, zf: int)
    ensures
        plane_value_weighted(
            (vscale(f, s), s * dot(f, pos) + dot(f, f) * zn),
            vplus(vscale(pos, s), vscale(f, k)),
            s,
        ) == s * ((k - zn) * dot(f, f)),
        plane_value_weighted(
            (vneg(vscale(f, s)), -(s * dot(f, pos) + dot(f, f) * zf)),
            vplus(vscale(pos, s), vscale(f, k)),
            s,
        ) == s * ((zf - k) * dot(f, f)),
{
    let q = vplus(vscale(pos, s), vscale(f, k));
    lemma_dot_combination(f, f, s, 0, q);
    lemma_dot_combination(vscale(f, s), f, 1, 0, q);
    lemma_dot_combination(pos, f, s, k, f);
    lemma_dot_comm(pos, f);
    let ff = dot(f, f);
    let fp = dot(f, pos);
    assert(s * (s * fp + k * ff) - s * (s * fp + ff * zn) == s * ((k - zn) * ff)) by (nonlinear_arith);
    assert(-(s * (s * fp + k * ff)) - s * (-(s * fp + ff * zf)) == s * ((zf - k) * ff)) by (nonlinear_arith);
}

/// The frustum's sign convention. Take the point `position + front·(znear + 1)`
/// (one world unit past the near plane) with `zfar` more than one world unit
/// beyond `znear`: its value is non-negative on all six planes. The point
/// `position − front·1`, behind the camera, has a negative value on the near
/// plane. Both points are written with weight `DIRECTION_UNIT` (`front` is
/// scaled by it), which keeps them exact.
pub proof fn lemma_sign_convention(fr: Frustum, c: Camera, p: Projection)
    requires
        c.wf(),
        p.wf(),
        fr.built_from(c, p),
        p.zfar > p.znear + LENGTH_UNIT,
    ensures
        ({
            let s = DIRECTION_UNIT as int;
            let ahead = vplus(vscale(c.position@, s), vscale(c.front@, p.znear + LENGTH_UNIT));
            &&& plane_value_weighted(fr.near_plane.model(), ahead, s) >= 0
            &&& plane_value_weighted(fr.far_plane.model(), ahead, s) >= 0
            &&& plane_value_weighted(fr.top_plane.model(), ahead, s) >= 0
            &&& plane_value_weighted(fr.bottom_plane.model(), ahead, s) >= 0
            &&& plane_value_weighted(fr.right_plane.model(), ahead, s) >= 0
            &&& plane_value_weighted(fr.left_plane.model(), ahead, s) >= 0
        }),
        plane_value_weighted(
            fr.near_plane.model(),
            vplus(vscale(c.position@, DIRECTION_UNIT as int), vscale(c.front@, -LENGTH_UNIT)),
            DIRECTION_UNIT as int,
        ) < 0,
{
    let s = DIRECTION_UNIT as int;
    let k = p.znear + LENGTH_UNIT;
    let f = c.front@;
    let r = c.right@;
    let u = up_spec(c);
    let pos = c.position@;
    let ahead = vplus(vscale(pos, s), vscale(f, k));
    let t = dot(u, cross(f, r));
    lemma_up_positive(c);
    let ff = dot(f, f);
    assert(ff > 0) by (nonlinear_arith)
        requires
            ff == f.0 * f.0 + f.1 * f.1 + f.2 * f.2,
            !(f.0 == 0 && f.1 == 0 && f.2 == 0),
    ;

    // near and far
    lemma_near_far_values(f, pos, s, k, p.znear as int, p.zfar as int);
    lemma_nonneg_mul(k - p.znear, ff);
    lemma_nonneg_mul(s, (k - p.znear) * ff);
    lemma_nonneg_mul(p.zfar - k, ff);
    lemma_nonneg_mul(s, (p.zfar - k) * ff);

    // sides
    let ta = p.tan_num * p.width;
    lemma_nonneg_mul(p.tan_num as int, p.width as int);
    lemma_top_normal(f, r, u, p.tan_den as int, p.tan_num as int);
    lemma_bottom_normal(f, r, u, p.tan_den as int, p.tan_num as int);
    lemma_right_normal(f, r, u, p.tan_den * p.height, ta);
    lemma_left_normal(f, r, u, p.tan_den * p.height, ta);
    lemma_nonneg_mul(p.tan_num as int, t);
    lemma_nonneg_mul(ta, t);
    lemma_nonneg_mul(k, p.tan_num * t);
    lemma_nonneg_mul(k, ta * t);
    lemma_value_through(top_spec(c, p).0, pos, f, s, k);
    lemma_value_through(bottom_spec(c, p).0, pos, f, s, k);
    lemma_value_through(right_spec(c, p).0, pos, f, s, k);
    lemma_value_through(left_spec(c, p).0, pos, f, s, k);

    // behind
    lemma_near_far_values(f, pos, s, -LENGTH_UNIT, p.znear as int, p.zfar as int);
    assert(s * ((-LENGTH_UNIT - p.znear) * ff) < 0) by (nonlinear_arith)
        requires
            s > 0,
            ff > 0,
            p.znear > 0,
    ;
}

} // verus!
