//! Positioned objects of the scene.

use vstd::prelude::*;
use crate::angle::div_trunc;
use crate::geometry::{abs, Point3, LENGTH_UNIT};
use vstd::arithmetic::div_mod::lemma_fundamental_div_mod_converse;

verus! {

/// A rotation quaternion `w + xi + yj + zk` with components scaled by
/// `crate::geometry::DIRECTION_UNIT`.
#[derive(Clone, Copy, Debug, PartialEq, Eq, Structural)]
pub struct Rotation {
    pub w: i32,
    pub x: i32,
    pub y: i32,
    pub z: i32,
}

impl Rotation {
    /// No rotation.
    pub fn identity() -> (r: Rotation)
        ensures
            r == (Rotation { w: crate::geometry::DIRECTION_UNIT as i32, x: 0, y: 0, z: 0 }),
    {
        Rotation { w: crate::geometry::DIRECTION_UNIT as i32, x: 0, y: 0, z: 0 }
    }
}

/// An object placed at `position`, turned by `rotation` and scaled uniformly by
/// `scale` (in length steps: `LENGTH_UNIT` is a scale of 1).
#[derive(Clone, Copy, Debug, PartialEq, Eq, Structural)]
pub struct Instance {
    pub position: Point3,
    pub rotation: Rotation,
    pub scale: u32,
}

/// The coordinate of grid cell `i` along one axis: `i · spacing`, or, centered,
/// `(i − size/2) · spacing` rounded toward zero.
pub open spec fn grid_coord(i: int, size: int, centered: bool, spacing: int) -> int {
    if centered {
        div_trunc((2 * i - size) * spacing, 2)
    } else {
        i * spacing
    }
}

/// The number of cells along axis `axis` (1: x, 2: z, 3: y) of a grid of
/// `dimension` axes: `size` along the axes it uses, 1 along the others.
pub open spec fn axis_len(size: int, dimension: int, axis: int) -> int {
    if dimension >= axis {
        size
    } else {
        1
    }
}

/// The unrotated, unit-scale instance at grid cell `(x, y, z)`.
pub open spec fn grid_instance(x: int, y: int, z: int, size: int, centered: bool, spacing: int) -> Instance {
    Instance {
        position: Point3 {
            x: grid_coord(x, size, centered, spacing) as i32,
            y: grid_coord(y, size, centered, spacing) as i32,
            z: grid_coord(z, size, centered, spacing) as i32,
        },
        rotation: Rotation::identity_spec(),
        scale: LENGTH_UNIT as u32,
    }
}

/// The instance at position `k` of the grid's list: x varies slowest, then z,
/// then y.
pub open spec fn grid_cell(k: int, size: int, dimension: int, centered: bool, spacing: int) -> Instance {
    let nz = axis_len(size, dimension, 2);
    let ny = axis_len(size, dimension, 3);
    grid_instance(k / (nz * ny), k % ny, (k / ny) % nz, size, centered, spacing)
}

fn grid_coord_exec(i: u32, size: u32, centered: bool, spacing: i32) -> (r: i32)
    requires
        i < size || i == 0,
        size * abs(spacing as int) <= i32::MAX,
    ensures
        r == grid_coord(i as int, size as int, centered, spacing as int),
{
    proof {
        assert(abs(i * spacing) <= size * abs(spacing as int)) by (nonlinear_arith)
            requires
                0 <= i < size || i == 0,
                abs(spacing as int) == spacing || abs(spacing as int) == -spacing,
                abs(spacing as int) >= 0,
                abs(i * spacing) == i * spacing || abs(i * spacing) == -(i * spacing),
        ;
        assert(abs((2 * i - size) * spacing) <= 2 * (size * abs(spacing as int))) by (nonlinear_arith)
            requires
                0 <= i < size || i == 0,
                0 <= size,
                abs(spacing as int) == spacing || abs(spacing as int) == -spacing,
                abs(spacing as int) >= 0,
                abs((2 * i - size) * spacing) == (2 * i - size) * spacing || abs((2 * i - size)
                    * spacing) == -((2 * i - size) * spacing),
        ;
    }
    if centered {
        let twice: i64 = (2 * i as i64 - size as i64) * spacing as i64;
        (twice / 2) as i32
    } else {
        (i as i64 * spacing as i64) as i32
    }
}

proof fn lemma_grid_index(x: int, z: int, y: int, nz: int, ny: int)
    requires
        0 <= x,
        0 <= z < nz,
        0 <= y < ny,
    ensures
        ((x * nz + z) * ny + y) / (nz * ny) == x,
        ((x * nz + z) * ny + y) % ny == y,
        (((x * nz + z) * ny + y) / ny) % nz == z,
{
    let k = (x * nz + z) * ny + y;
    assert(k == x * (nz * ny) + (z * ny + y) && 0 <= z * ny + y < nz * ny) by (nonlinear_arith)
        requires
            0 <= x,
            0 <= z < nz,
            0 <= y < ny,
            k == (x * nz + z) * ny + y,
    ;
    lemma_fundamental_div_mod_converse(k, nz * ny, x, z * ny + y);
    lemma_fundamental_div_mod_converse(k, ny, x * nz + z, y);
    lemma_fundamental_div_mod_converse(x * nz + z, nz, x, z);
}

impl Instance {
    /// An instance at the origin, unrotated, with scale 1.
    pub fn default_instance() -> (r: Instance)
        ensures
            r.position@ == (0int, 0int, 0int),
            r.rotation == Rotation::identity_spec(),
            r.scale == LENGTH_UNIT,
    {
        Instance {
            position: Point3 { x: 0, y: 0, z: 0 },
            rotation: Rotation::identity(),
            scale: LENGTH_UNIT as u32,
        }
    }
}

impl Instance {
    /// A grid of unrotated, unit-scale instances, `size` cells along each of
    /// its first `dimension` axes (x, then z, then y) and one along the others,
    /// `spacing` length steps apart; `centered` shifts it back by half its extent.
    /// Cells come with x varying slowest, then z, then y.
    pub fn test_instances(size: u32, dimension: u32, centered: bool, spacing: i32) -> (r: Vec<
        Instance,
    >)
        requires
            size * abs(spacing as int) <= i32::MAX,
            size * size * size <= 0x1_0000_0000,
        ensures
            r@.len() == axis_len(size as int, dimension as int, 1) * axis_len(size as int, dimension as int, 2)
                * axis_len(size as int, dimension as int, 3),
            forall|k: int|
                0 <= k < r@.len() ==> #[trigger] r@[k] == grid_cell(k, size as int, dimension as int, centered, spacing as int),
    {
        let nx: u32 = if dimension >= 1 { size } else { 1 };
        let nz: u32 = if dimension >= 2 { size } else { 1 };
        let ny: u32 = if dimension >= 3 { size } else { 1 };
        let ghost (s, d, sp) = (size as int, dimension as int, spacing as int);
        proof {
            assert(nx * nz * ny <= 0x1_0000_0000) by (nonlinear_arith)
                requires
                    1 <= nx <= size || (nx == 1 && size == 0) || nx == size,
                    nz == size || nz == 1,
                    ny == size || ny == 1,
                    size * size * size <= 0x1_0000_0000,
            ;
        }
        let mut r: Vec<Instance> = Vec::new();
        let mut x: u32 = 0;
        while x < nx
            invariant
                x <= nx,
                nx == axis_len(s, d, 1),
                nz == axis_len(s, d, 2),
                ny == axis_len(s, d, 3),
                size * abs(spacing as int) <= i32::MAX,
                s == size,
                d == dimension,
                sp == spacing,
                r@.len() == x * (nz * ny),
                forall|k: int| 0 <= k < r@.len() ==> #[trigger] r@[k] == grid_cell(k, s, d, centered, sp),
            decreases nx - x,
        {
            let mut z: u32 = 0;
            proof {
                assert((x * nz + 0) * ny == x * (nz * ny)) by (nonlinear_arith);
            }
            while z < nz
                invariant
                    x < nx,
                    z <= nz,
                    nx == axis_len(s, d, 1),
                    nz == axis_len(s, d, 2),
                    ny == axis_len(s, d, 3),
                    size * abs(spacing as int) <= i32::MAX,
                    s == size,
                    d == dimension,
                    sp == spacing,
                    r@.len() == (x * nz + z) * ny,
                    forall|k: int| 0 <= k < r@.len() ==> #[trigger] r@[k] == grid_cell(k, s, d, centered, sp),
                decreases nz - z,
            {
                let mut y: u32 = 0;
                while y < ny
                    invariant
                        x < nx,
                        z < nz,
                        y <= ny,
                        nx == axis_len(s, d, 1),
                        nz == axis_len(s, d, 2),
                        ny == axis_len(s, d, 3),
                        size * abs(spacing as int) <= i32::MAX,
                        s == size,
                        d == dimension,
                        sp == spacing,
                        r@.len() == (x * nz + z) * ny + y,
                        forall|k: int| 0 <= k < r@.len() ==> #[trigger] r@[k] == grid_cell(k, s, d, centered, sp),
                    decreases ny - y,
                {
                    proof {
                        lemma_grid_index(x as int, z as int, y as int, nz as int, ny as int);
                    }
                    let inst = Instance {
                        position: Point3 {
                            x: grid_coord_exec(x, size, centered, spacing),
                            y: grid_coord_exec(y, size, centered, spacing),
                            z: grid_coord_exec(z, size, centered, spacing),
                        },
                        rotation: Rotation::identity(),
                        scale: LENGTH_UNIT as u32,
                    };
                    r.push(inst);
                    y = y + 1;
                }
                proof {
                    assert((x * nz + z) * ny + ny == (x * nz + (z + 1)) * ny) by (nonlinear_arith);
                }
                z = z + 1;
            }
            proof {
                assert((x * nz + nz) * ny == (x + 1) * (nz * ny)) by (nonlinear_arith);
            }
            x = x + 1;
        }
        proof {
            assert(nx * (nz * ny) == nx * nz * ny) by (nonlinear_arith);
        }
        r
    }
}

impl Rotation {
    pub open spec fn identity_spec() -> Rotation {
        Rotation { w: crate::geometry::DIRECTION_UNIT as i32, x: 0, y: 0, z: 0 }
    }
}

} // verus!
