//! Vectors and facing on the fixed-point grid.
use vstd::prelude::*;

verus! {

/// A 3D vector in milli-units; `y` points up.
#[derive(Clone, Copy, Debug, PartialEq, Eq, Structural)]
pub struct Vector3 {
    pub x: i64,
    pub y: i64,
    pub z: i64,
}

impl Vector3 {
    /// The zero vector.
    pub fn zero() -> (r: Vector3)
        ensures
            r.is_zero(),
    {
        Vector3 { x: 0, y: 0, z: 0 }
    }

    pub open spec fn is_zero(self) -> bool {
        self.x == 0 && self.y == 0 && self.z == 0
    }
}

/// A character's heading on the ground plane: its forward direction, in
/// milli-units per unit, as `(forward_x, forward_z)`.
///
/// Its right-hand direction is `(-forward_z, forward_x)`, forward crossed with up.
#[derive(Clone, Copy, Debug, PartialEq, Eq, Structural)]
pub struct Facing {
    pub forward_x: i32,
    pub forward_z: i32,
}

impl Facing {
    /// Each component lies within one unit, as those of a direction of at most
    /// unit length do.
    pub open spec fn wf(self) -> bool {
        -MILLI_I32 <= self.forward_x <= MILLI_I32 && -MILLI_I32 <= self.forward_z <= MILLI_I32
    }

    pub open spec fn right_x(self) -> int {
        -self.forward_z
    }

    pub open spec fn right_z(self) -> int {
        self.forward_x as int
    }

    /// Facing the direction `(forward_x, forward_z)`; `None` where a component
    /// lies outside `[-1000, 1000]`.
    pub fn new(forward_x: i32, forward_z: i32) -> (r: Option<Facing>)
        ensures
            r is Some <==> (-MILLI_I32 <= forward_x <= MILLI_I32 && -MILLI_I32 <= forward_z
                <= MILLI_I32),
            r matches Some(f) ==> f.forward_x == forward_x && f.forward_z == forward_z && f.wf(),
    {
        if -MILLI_I32 <= forward_x && forward_x <= MILLI_I32 && -MILLI_I32 <= forward_z
            && forward_z <= MILLI_I32 {
            Some(Facing { forward_x, forward_z })
        } else {
            None
        }
    }
}

/// One unit as a facing component.
pub const MILLI_I32: i32 = 1000;

} // verus!
