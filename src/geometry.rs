//! Fixed-point points and directions, exact vector algebra and integer square roots.

use vstd::prelude::*;
use crate::angle::div_trunc;

verus! {

/// Position steps per world unit.
pub const LENGTH_UNIT: i64 = 1024;

/// The fixed-point value of a direction component equal to 1.
pub const DIRECTION_UNIT: i64 = 8192;

/// A vector of mathematical integers.
pub type V3 = (int, int, int);

pub open spec fn dot(a: V3, b: V3) -> int {
    a.0 * b.0 + a.1 * b.1 + a.2 * b.2
}

pub open spec fn cross(a: V3, b: V3) -> V3 {
    (a.1 * b.2 - a.2 * b.1, a.2 * b.0 - a.0 * b.2, a.0 * b.1 - a.1 * b.0)
}

pub open spec fn vplus(a: V3, b: V3) -> V3 {
    (a.0 + b.0, a.1 + b.1, a.2 + b.2)
}

pub open spec fn vminus(a: V3, b: V3) -> V3 {
    (a.0 - b.0, a.1 - b.1, a.2 - b.2)
}

pub open spec fn vscale(a: V3, k: int) -> V3 {
    (a.0 * k, a.1 * k, a.2 * k)
}

pub open spec fn vneg(a: V3) -> V3 {
    (-a.0, -a.1, -a.2)
}

pub open spec fn abs(a: int) -> int {
    if a < 0 {
        -a
    } else {
        a
    }
}

/// Every component of `a` lies in `[-b, b]`.
pub open spec fn bounded(a: V3, b: int) -> bool {
    abs(a.0) <= b && abs(a.1) <= b && abs(a.2) <= b
}

/// A point in world space, in steps of 1/`LENGTH_UNIT` world unit.
#[derive(Clone, Copy, Debug, PartialEq, Eq, Structural)]
pub struct Point3 {
    pub x: i32,
    pub y: i32,
    pub z: i32,
}

impl View for Point3 {
    type V = V3;

    open spec fn view(&self) -> V3 {
        (self.x as int, self.y as int, self.z as int)
    }
}

impl Point3 {
    pub fn new(x: i32, y: i32, z: i32) -> (r: Point3)
        ensures
            r.x == x,
            r.y == y,
            r.z == z,
    {
        Point3 { x, y, z }
    }
}

/// A direction whose components are scaled by `DIRECTION_UNIT`; a unit vector
/// has components in `[-DIRECTION_UNIT, DIRECTION_UNIT]`.
#[derive(Clone, Copy, Debug, PartialEq, Eq, Structural)]
pub struct Direction {
    pub x: i16,
    pub y: i16,
    pub z: i16,
}

impl View for Direction {
    type V = V3;

    open spec fn view(&self) -> V3 {
        (self.x as int, self.y as int, self.z as int)
    }
}

/// `(DIRECTION_UNIT − 1)²`: the least squared length of a direction.
pub const UNIT_SQ_MIN: i64 = 67_092_481;

/// `(DIRECTION_UNIT + 1)²`: the greatest squared length of a direction.
pub const UNIT_SQ_MAX: i64 = 67_125_249;

/// Components within one unit of zero, and a length within one step of
/// `DIRECTION_UNIT`: a unit vector up to rounding.
pub open spec fn direction_components_ok(x: int, y: int, z: int) -> bool {
    &&& abs(x) <= DIRECTION_UNIT
    &&& abs(y) <= DIRECTION_UNIT
    &&& abs(z) <= DIRECTION_UNIT
    &&& UNIT_SQ_MIN <= x * x + y * y + z * z <= UNIT_SQ_MAX
}

/// `a` with each component divided by `k`, rounding toward zero.
pub open spec fn vdiv_trunc(a: V3, k: int) -> V3 {
    (div_trunc(a.0, k), div_trunc(a.1, k), div_trunc(a.2, k))
}

/// The up vector of a basis: `front × right`, brought back to direction scale.
pub open spec fn up_of(front: V3, right: V3) -> V3 {
    vdiv_trunc(cross(front, right), DIRECTION_UNIT as int)
}

proof fn lemma_unit_square(x: int)
    requires
        x == DIRECTION_UNIT,
    ensures
        x * x + 0 * 0 + 0 * 0 == DIRECTION_UNIT * DIRECTION_UNIT,
        0 * 0 + 0 * 0 + x * x == DIRECTION_UNIT * DIRECTION_UNIT,
        UNIT_SQ_MIN <= DIRECTION_UNIT * DIRECTION_UNIT <= UNIT_SQ_MAX,
{
}

impl Direction {
    /// A unit vector up to rounding (see `direction_components_ok`).
    pub open spec fn wf(&self) -> bool {
        direction_components_ok(self.x as int, self.y as int, self.z as int)
    }

    /// The +x axis, used wherever a direction would be degenerate.
    pub open spec fn default_spec() -> Direction {
        Direction { x: DIRECTION_UNIT as i16, y: 0, z: 0 }
    }

    /// The +x axis.
    pub fn unit_x() -> (r: Direction)
        ensures
            r == Direction::default_spec(),
            r.wf(),
    {
        let r = Direction { x: DIRECTION_UNIT as i16, y: 0, z: 0 };
        proof {
            lemma_unit_square(r.x as int);
        }
        r
    }

    /// The +z axis.
    pub fn unit_z() -> (r: Direction)
        ensures
            r@ == (0int, 0int, DIRECTION_UNIT as int),
            r.wf(),
    {
        let r = Direction { x: 0, y: 0, z: DIRECTION_UNIT as i16 };
        proof {
            lemma_unit_square(r.z as int);
        }
        r
    }

    /// Builds a direction from its components; a vector that is not of unit
    /// length up to rounding (in particular a zero-length one) is replaced by
    /// the +x axis instead of being passed on.
    pub fn from_components(x: i16, y: i16, z: i16) -> (r: Direction)
        ensures
            r.wf(),
            direction_components_ok(x as int, y as int, z as int) ==> r == (Direction { x, y, z }),
            !direction_components_ok(x as int, y as int, z as int) ==> r == Direction::default_spec(),
    {
        let d = Direction { x, y, z };
        if d.is_unit() {
            d
        } else {
            Direction::unit_x()
        }
    }

    /// Whether this is a unit vector up to rounding.
    pub fn is_unit(&self) -> (r: bool)
        ensures
            r == self.wf(),
    {
        let unit: i64 = DIRECTION_UNIT;
        let (a, b, c) = (self.x as i64, self.y as i64, self.z as i64);
        if -unit <= a && a <= unit && -unit <= b && b <= unit && -unit <= c && c <= unit {
            proof {
                assert(a * a <= 0x400_0000 && b * b <= 0x400_0000 && c * c <= 0x400_0000)
                    by (nonlinear_arith)
                    requires
                        -0x2000 <= a <= 0x2000,
                        -0x2000 <= b <= 0x2000,
                        -0x2000 <= c <= 0x2000,
                ;
                assert(a * a >= 0 && b * b >= 0 && c * c >= 0) by (nonlinear_arith);
            }
            let sq: i64 = a * a + b * b + c * c;
            UNIT_SQ_MIN <= sq && sq <= UNIT_SQ_MAX
        } else {
            false
        }
    }
}

/// `up_of` on machine integers.
pub fn up_vector(front: Direction, right: Direction) -> (r: Vec3)
    requires
        front.wf(),
        right.wf(),
    ensures
        r@ == up_of(front@, right@),
        bounded(r@, 0x4000),
{
    let w = Vec3::from_direction(front).cross(
        &Vec3::from_direction(right),
        Ghost(0x2000int),
        Ghost(0x2000int),
    );
    let up = w.div_toward_zero(DIRECTION_UNIT as i128);
    proof {
        lemma_div_trunc_bound(w.x as int, DIRECTION_UNIT as int, 0x4000);
        lemma_div_trunc_bound(w.y as int, DIRECTION_UNIT as int, 0x4000);
        lemma_div_trunc_bound(w.z as int, DIRECTION_UNIT as int, 0x4000);
    }
    up
}

pub proof fn lemma_div_trunc_bound(a: int, k: int, b: int)
    requires
        k > 0,
        b >= 0,
        abs(a) <= b * k,
    ensures
        abs(div_trunc(a, k)) <= b,
{
    if a >= 0 {
        assert(a / k <= b && a / k >= 0) by (nonlinear_arith)
            requires
                k > 0,
                b >= 0,
                0 <= a <= b * k,
        ;
    } else {
        assert((-a) / k <= b && (-a) / k >= 0) by (nonlinear_arith)
            requires
                k > 0,
                b >= 0,
                0 <= -a <= b * k,
        ;
    }
}

/// An exact integer vector used while building planes.
#[derive(Clone, Copy, Debug)]
pub struct Vec3 {
    pub x: i128,
    pub y: i128,
    pub z: i128,
}

impl View for Vec3 {
    type V = V3;

    open spec fn view(&self) -> V3 {
        (self.x as int, self.y as int, self.z as int)
    }
}

pub proof fn lemma_mul_abs(a: int, b: int, ba: int, bb: int)
    requires
        abs(a) <= ba,
        abs(b) <= bb,
    ensures
        abs(a * b) <= ba * bb,
{
    assert(abs(a * b) == abs(a) * abs(b)) by (nonlinear_arith);
    assert(abs(a) * abs(b) <= ba * bb) by (nonlinear_arith)
        requires
            0 <= abs(a) <= ba,
            0 <= abs(b) <= bb,
    ;
}

pub proof fn lemma_nonneg_mul(a: int, b: int)
    requires
        0 <= a,
        0 <= b,
    ensures
        0 <= a * b,
{
    assert(0 <= a * b) by (nonlinear_arith)
        requires
            0 <= a,
            0 <= b,
    ;
}

pub proof fn lemma_dot_self_bound(v: V3, b: int)
    requires
        bounded(v, b),
    ensures
        0 <= dot(v, v) <= 3 * (b * b),
{
    let (x, y, z) = v;
    assert(0 <= x * x + y * y + z * z <= 3 * (b * b)) by (nonlinear_arith)
        requires
            abs(x) <= b,
            abs(y) <= b,
            abs(z) <= b,
            abs(x) == x || abs(x) == -x,
            abs(y) == y || abs(y) == -y,
            abs(z) == z || abs(z) == -z,
    ;
}

/// The product of two bounded integers.
pub fn mul_bounded(a: i128, b: i128, Ghost(ba): Ghost<int>, Ghost(bb): Ghost<int>) -> (r: i128)
    requires
        abs(a as int) <= ba,
        abs(b as int) <= bb,
        ba * bb <= 0x1000_0000_0000_0000_0000_0000_0000_0000,
    ensures
        r == a * b,
        abs(r as int) <= ba * bb,
{
    proof {
        lemma_mul_abs(a as int, b as int, ba, bb);
    }
    a * b
}

impl Vec3 {
    pub fn from_point(p: Point3) -> (r: Vec3)
        ensures
            r@ == p@,
    {
        Vec3 { x: p.x as i128, y: p.y as i128, z: p.z as i128 }
    }

    pub fn from_direction(d: Direction) -> (r: Vec3)
        ensures
            r@ == d@,
    {
        Vec3 { x: d.x as i128, y: d.y as i128, z: d.z as i128 }
    }

    /// The cross product, for operands bounded by `ba` and `bb`.
    pub fn cross(&self, o: &Vec3, Ghost(ba): Ghost<int>, Ghost(bb): Ghost<int>) -> (r: Vec3)
        requires
            bounded(self@, ba),
            bounded(o@, bb),
            2 * (ba * bb) <= 0x1000_0000_0000_0000_0000_0000_0000_0000,
        ensures
            r@ == cross(self@, o@),
            bounded(r@, 2 * (ba * bb)),
    {
        proof {
            lemma_nonneg_mul(ba, bb);
        }
        let a = mul_bounded(self.y, o.z, Ghost(ba), Ghost(bb));
        let b = mul_bounded(self.z, o.y, Ghost(ba), Ghost(bb));
        let c = mul_bounded(self.z, o.x, Ghost(ba), Ghost(bb));
        let d = mul_bounded(self.x, o.z, Ghost(ba), Ghost(bb));
        let e = mul_bounded(self.x, o.y, Ghost(ba), Ghost(bb));
        let f = mul_bounded(self.y, o.x, Ghost(ba), Ghost(bb));
        Vec3 { x: a - b, y: c - d, z: e - f }
    }

    /// The dot product, for operands bounded by `ba` and `bb`.
    pub fn dot(&self, o: &Vec3, Ghost(ba): Ghost<int>, Ghost(bb): Ghost<int>) -> (r: i128)
        requires
            bounded(self@, ba),
            bounded(o@, bb),
            3 * (ba * bb) <= 0x1000_0000_0000_0000_0000_0000_0000_0000,
        ensures
            r == dot(self@, o@),
            abs(r as int) <= 3 * (ba * bb),
    {
        proof {
            lemma_nonneg_mul(ba, bb);
        }
        let a = mul_bounded(self.x, o.x, Ghost(ba), Ghost(bb));
        let b = mul_bounded(self.y, o.y, Ghost(ba), Ghost(bb));
        let c = mul_bounded(self.z, o.z, Ghost(ba), Ghost(bb));
        a + b + c
    }

    /// Each component multiplied by `k`.
    pub fn scaled(&self, k: i128, Ghost(ba): Ghost<int>, Ghost(bk): Ghost<int>) -> (r: Vec3)
        requires
            bounded(self@, ba),
            abs(k as int) <= bk,
            ba * bk <= 0x1000_0000_0000_0000_0000_0000_0000_0000,
        ensures
            r@ == vscale(self@, k as int),
            bounded(r@, ba * bk),
    {
        Vec3 {
            x: mul_bounded(self.x, k, Ghost(ba), Ghost(bk)),
            y: mul_bounded(self.y, k, Ghost(ba), Ghost(bk)),
            z: mul_bounded(self.z, k, Ghost(ba), Ghost(bk)),
        }
    }

    /// The componentwise difference of two vectors bounded by `b`.
    pub fn minus(&self, o: &Vec3, Ghost(b): Ghost<int>) -> (r: Vec3)
        requires
            bounded(self@, b),
            bounded(o@, b),
            2 * b <= 0x1000_0000_0000_0000_0000_0000_0000_0000,
        ensures
            r@ == vminus(self@, o@),
            bounded(r@, 2 * b),
    {
        Vec3 { x: self.x - o.x, y: self.y - o.y, z: self.z - o.z }
    }

    /// The componentwise sum of two vectors bounded by `b`.
    pub fn plus(&self, o: &Vec3, Ghost(b): Ghost<int>) -> (r: Vec3)
        requires
            bounded(self@, b),
            bounded(o@, b),
            2 * b <= 0x1000_0000_0000_0000_0000_0000_0000_0000,
        ensures
            r@ == vplus(self@, o@),
            bounded(r@, 2 * b),
    {
        Vec3 { x: self.x + o.x, y: self.y + o.y, z: self.z + o.z }
    }

    pub fn negated(&self, Ghost(b): Ghost<int>) -> (r: Vec3)
        requires
            bounded(self@, b),
            b <= 0x1000_0000_0000_0000_0000_0000_0000_0000,
        ensures
            r@ == vneg(self@),
            bounded(r@, b),
    {
        Vec3 { x: -self.x, y: -self.y, z: -self.z }
    }

    /// Each component divided by `k`, rounding toward zero.
    pub fn div_toward_zero(&self, k: i128) -> (r: Vec3)
        requires
            k > 0,
        ensures
            r@ == (div_trunc(self.x as int, k as int), div_trunc(self.y as int, k as int), div_trunc(self.z as int, k as int)),
    {
        Vec3 { x: self.x / k, y: self.y / k, z: self.z / k }
    }
}

} // verus!

verus! {

/// The base of a limb: 2^64.
pub const LIMB: u128 = 0x1_0000_0000_0000_0000;

/// The number `h·LIMB² + m·LIMB + l`.
pub open spec fn limbs_value(h: int, m: int, l: int) -> int {
    h * 0x1_0000_0000_0000_0000_0000_0000_0000_0000int + m * 0x1_0000_0000_0000_0000int + l
}

/// The product `x·y` as three limbs `(h, m, l)` with `m, l < LIMB`.
pub fn mul_wide(x: u128, y: u128) -> (r: (u128, u128, u128))
    requires
        x < 0x4000_0000_0000_0000_0000_0000_0000_0000,
        y < 0x4000_0000_0000_0000_0000_0000_0000_0000,
    ensures
        r.0 < 0x1000_0000_0000_0000_0000_0000_0000_0000,
        r.1 < LIMB,
        r.2 < LIMB,
        limbs_value(r.0 as int, r.1 as int, r.2 as int) == x * y,
{
    let xh = x / LIMB;
    let xl = x % LIMB;
    let yh = y / LIMB;
    let yl = y % LIMB;
    proof {
        assert(xh < 0x4000_0000_0000_0000 && yh < 0x4000_0000_0000_0000);
        assert(xh * yh < 0x1000_0000_0000_0000_0000_0000_0000_0000 && xh * yl
            < 0x4000_0000_0000_0000_0000_0000_0000_0000 && xl * yh
            < 0x4000_0000_0000_0000_0000_0000_0000_0000 && xl * yl
            < 0x1_0000_0000_0000_0000_0000_0000_0000_0000) by (nonlinear_arith)
            requires
                xh < 0x4000_0000_0000_0000u128,
                yh < 0x4000_0000_0000_0000u128,
                xl < 0x1_0000_0000_0000_0000u128,
                yl < 0x1_0000_0000_0000_0000u128,
        ;
        assert(x * y == limbs_value((xh * yh) as int, (xh * yl + xl * yh) as int, (xl * yl) as int))
            by (nonlinear_arith)
            requires
                x == xh * 0x1_0000_0000_0000_0000u128 + xl,
                y == yh * 0x1_0000_0000_0000_0000u128 + yl,
        ;
    }
    let h = xh * yh;
    let m = xh * yl + xl * yh;
    let l = xl * yl;
    let l2 = l % LIMB;
    let m1 = m + l / LIMB;
    let m2 = m1 % LIMB;
    let h2 = h + m1 / LIMB;
    proof {
        let b = LIMB as int;
        assert(l == (l / LIMB) * b + l2);
        assert(m1 == (m1 / LIMB) * b + m2);
        assert(x * y < 0x1000_0000_0000_0000_0000_0000_0000_0000int
            * 0x1_0000_0000_0000_0000_0000_0000_0000_0000int) by (nonlinear_arith)
            requires
                x < 0x4000_0000_0000_0000_0000_0000_0000_0000u128,
                y < 0x4000_0000_0000_0000_0000_0000_0000_0000u128,
        ;
        assert(limbs_value(h2 as int, m2 as int, l2 as int) == x * y);
    }
    (h2, m2, l2)
}

/// The sum of two numbers in limbs, again with `m, l < LIMB`.
pub fn add_wide(p: (u128, u128, u128), q: (u128, u128, u128)) -> (r: (u128, u128, u128))
    requires
        p.0 < 0x4000_0000_0000_0000_0000_0000_0000_0000,
        q.0 < 0x4000_0000_0000_0000_0000_0000_0000_0000,
        p.1 < LIMB,
        p.2 < LIMB,
        q.1 < LIMB,
        q.2 < LIMB,
    ensures
        r.0 <= p.0 + q.0 + 1,
        r.1 < LIMB,
        r.2 < LIMB,
        limbs_value(r.0 as int, r.1 as int, r.2 as int) == limbs_value(p.0 as int, p.1 as int, p.2 as int)
            + limbs_value(q.0 as int, q.1 as int, q.2 as int),
{
    let l = p.2 + q.2;
    let m = p.1 + q.1 + l / LIMB;
    let h = p.0 + q.0 + m / LIMB;
    (h, m % LIMB, l % LIMB)
}

/// Numbers in limbs compare as their limbs do, most significant first.
proof fn lemma_limbs_order(h1: int, m1: int, l1: int, h2: int, m2: int, l2: int)
    requires
        0 <= m1 < LIMB,
        0 <= l1 < LIMB,
        0 <= m2 < LIMB,
        0 <= l2 < LIMB,
    ensures
        h1 < h2 ==> limbs_value(h1, m1, l1) < limbs_value(h2, m2, l2),
        h1 > h2 ==> limbs_value(h1, m1, l1) > limbs_value(h2, m2, l2),
        h1 == h2 && m1 < m2 ==> limbs_value(h1, m1, l1) < limbs_value(h2, m2, l2),
        h1 == h2 && m1 > m2 ==> limbs_value(h1, m1, l1) > limbs_value(h2, m2, l2),
        h1 == h2 && m1 == m2 ==> (limbs_value(h1, m1, l1) <= limbs_value(h2, m2, l2) <==> l1 <= l2),
{
}

/// Whether `a·a <= 3·(m0·m0 + m1·m1 + m2·m2)`, decided exactly.
pub fn square_le_three_squares(a: u128, m0: u128, m1: u128, m2: u128) -> (r: bool)
    requires
        a < 0x4000_0000_0000_0000_0000_0000_0000_0000,
        m0 < 0x1000_0000_0000_0000_0000_0000_0000_0000,
        m1 < 0x1000_0000_0000_0000_0000_0000_0000_0000,
        m2 < 0x1000_0000_0000_0000_0000_0000_0000_0000,
    ensures
        r == (a * a <= 3 * (m0 * m0 + m1 * m1 + m2 * m2)),
{
    let lhs = mul_wide(a, a);
    let s0 = mul_wide(m0, 3 * m0);
    let s1 = mul_wide(m1, 3 * m1);
    let s2 = mul_wide(m2, 3 * m2);
    let s01 = add_wide(s0, s1);
    let rhs = add_wide(s01, s2);
    proof {
        assert(m0 * (3 * m0) + m1 * (3 * m1) + m2 * (3 * m2) == 3 * (m0 * m0 + m1 * m1 + m2 * m2))
            by (nonlinear_arith);
        lemma_limbs_order(lhs.0 as int, lhs.1 as int, lhs.2 as int, rhs.0 as int, rhs.1 as int, rhs.2 as int);
    }
    if lhs.0 != rhs.0 {
        lhs.0 < rhs.0
    } else if lhs.1 != rhs.1 {
        lhs.1 < rhs.1
    } else {
        lhs.2 <= rhs.2
    }
}

} // verus!
