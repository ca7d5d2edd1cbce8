//! The first-person camera: a position, yaw and pitch, and the derived basis.

use vstd::prelude::*;
use crate::geometry::{up_of, up_vector, Direction, Point3, DIRECTION_UNIT};

verus! {

/// A camera at `position` looking along yaw/pitch (microradians).
///
/// `front`, `forward` and `right` are the basis derived from yaw and pitch
/// (trigonometry done by the caller, see `set_directions`): `front` is the look
/// direction, `forward` its horizontal part and `right` points to the right.
#[derive(Clone, Copy, Debug, PartialEq, Eq, Structural)]
pub struct Camera {
    pub position: Point3,
    pub yaw: i64,
    pub pitch: i64,
    pub front: Direction,
    pub forward: Direction,
    pub right: Direction,
}

/// A usable basis: three unit vectors (up to rounding) whose up vector
/// `front × right` does not vanish.
pub open spec fn basis_ok(front: Direction, forward: Direction, right: Direction) -> bool {
    &&& front.wf()
    &&& forward.wf()
    &&& right.wf()
    &&& up_of(front@, right@) != (0int, 0int, 0int)
}

proof fn lemma_default_basis(front: Direction, right: Direction)
    requires
        front@ == (DIRECTION_UNIT as int, 0int, 0int),
        right@ == (0int, 0int, DIRECTION_UNIT as int),
    ensures
        up_of(front@, right@) == (0int, -DIRECTION_UNIT as int, 0int),
{
    assert(DIRECTION_UNIT as int * DIRECTION_UNIT as int == 0x400_0000) by (nonlinear_arith);
    assert(0x400_0000int / (DIRECTION_UNIT as int) == DIRECTION_UNIT as int);
}

impl Camera {
    /// The basis is usable: unit vectors whose up vector does not vanish.
    pub open spec fn wf(&self) -> bool {
        basis_ok(self.front, self.forward, self.right)
    }

    /// A camera at `position` with the given yaw and pitch. Until the basis is
    /// first set it is the one of yaw = pitch = 0 (looking along +x).
    pub fn new(position: Point3, yaw: i64, pitch: i64) -> (r: Camera)
        ensures
            r.position == position,
            r.yaw == yaw,
            r.pitch == pitch,
            r.front == Direction::default_spec(),
            r.forward == Direction::default_spec(),
            r.right@ == (0int, 0int, crate::geometry::DIRECTION_UNIT as int),
            r.wf(),
    {
        let r = Camera {
            position,
            yaw,
            pitch,
            front: Direction::unit_x(),
            forward: Direction::unit_x(),
            right: Direction::unit_z(),
        };
        proof {
            lemma_default_basis(r.front, r.right);
        }
        r
    }

    /// Stores the basis computed from the current yaw and pitch. A degenerate
    /// basis (a vector not of unit length, or `front` parallel to `right`) is
    /// replaced by the one of yaw = pitch = 0: +x, +x and +z.
    pub fn set_directions(&mut self, front: Direction, forward: Direction, right: Direction)
        ensures
            basis_ok(front, forward, right) ==> *final(self) == (Camera {
                front,
                forward,
                right,
                ..*old(self)
            }),
            !basis_ok(front, forward, right) ==> *final(self) == (Camera {
                front: Direction::default_spec(),
                forward: Direction::default_spec(),
                right: Direction { x: 0, y: 0, z: DIRECTION_UNIT as i16 },
                ..*old(self)
            }),
            final(self).wf(),
    {
        if front.is_unit() && forward.is_unit() && right.is_unit() {
            let up = up_vector(front, right);
            if up.x != 0 || up.y != 0 || up.z != 0 {
                self.front = front;
                self.forward = forward;
                self.right = right;
                return ;
            }
        }
        self.front = Direction::unit_x();
        self.forward = Direction::unit_x();
        self.right = Direction::unit_z();
        proof {
            lemma_default_basis(self.front, self.right);
        }
    }

    pub fn position(&self) -> (r: Point3)
        ensures
            r == self.position,
    {
        self.position
    }

    pub fn yaw(&self) -> (r: i64)
        ensures
            r == self.yaw,
    {
        self.yaw
    }

    pub fn pitch(&self) -> (r: i64)
        ensures
            r == self.pitch,
    {
        self.pitch
    }

    pub fn front(&self) -> (r: Direction)
        ensures
            r == self.front,
    {
        self.front
    }

    pub fn forward(&self) -> (r: Direction)
        ensures
            r == self.forward,
    {
        self.forward
    }

    pub fn right(&self) -> (r: Direction)
        ensures
            r == self.right,
    {
        self.right
    }
}

} // verus!
