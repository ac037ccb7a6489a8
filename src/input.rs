//! Input mapping: from held keys, through the binding table, to intent.
use vstd::prelude::*;
use crate::state::{CharacterState, DASH_SPEED};

verus! {

/// The key bound to each movement action. Keys are numbered by the caller.
#[derive(Clone, Copy, Debug, PartialEq, Eq, Structural)]
pub struct InputBinding {
    pub forward: u32,
    pub back: u32,
    pub left: u32,
    pub right: u32,
    pub jump: u32,
    pub dash: u32,
}

/// What the player asks for during one tick. All flags may be set at once.
#[derive(Clone, Copy, Debug, PartialEq, Eq, Structural)]
pub struct MovementIntent {
    pub forward: bool,
    pub back: bool,
    pub left: bool,
    pub right: bool,
    pub jump: bool,
    pub dash: bool,
}

/// Whether `key` is among the held keys.
pub fn is_held(held: &[u32], key: u32) -> (r: bool)
    ensures
        r == held@.contains(key),
{
    let mut i: usize = 0;
    while i < held.len()
        invariant
            0 <= i <= held@.len(),
            forall|j: int| 0 <= j < i ==> held@[j] != key,
        decreases held@.len() - i,
    {
        if held[i] == key {
            assert(held@[i as int] == key);
            return true;
        }
        i = i + 1;
    }
    false
}

impl InputBinding {
    /// The intent of a tick in which exactly the keys of `held` are down.
    pub fn map(&self, held: &[u32]) -> (r: MovementIntent)
        ensures
            r.forward == held@.contains(self.forward),
            r.back == held@.contains(self.back),
            r.left == held@.contains(self.left),
            r.right == held@.contains(self.right),
            r.jump == held@.contains(self.jump),
            r.dash == held@.contains(self.dash),
    {
        MovementIntent {
            forward: is_held(held, self.forward),
            back: is_held(held, self.back),
            left: is_held(held, self.left),
            right: is_held(held, self.right),
            jump: is_held(held, self.jump),
            dash: is_held(held, self.dash),
        }
    }
}

impl MovementIntent {
    /// Forward minus back.
    pub open spec fn axis_forward(self) -> int {
        (if self.forward {
            1int
        } else {
            0
        }) - (if self.back {
            1int
        } else {
            0
        })
    }

    /// Right minus left.
    pub open spec fn axis_right(self) -> int {
        (if self.right {
            1int
        } else {
            0
        }) - (if self.left {
            1int
        } else {
            0
        })
    }
}

impl CharacterState {
    /// Dash: a dash request raises the horizontal speed to `DASH_SPEED`, and
    /// the raise persists after the key is released.
    pub fn apply_dash(&mut self, dash: bool)
        ensures
            final(self).horizontal_speed == (if dash {
                DASH_SPEED
            } else {
                old(self).horizontal_speed
            }),
            final(self).pending_direction == old(self).pending_direction,
            final(self).vertical_accel == old(self).vertical_accel,
            final(self).vertical_speed_scale == old(self).vertical_speed_scale,
            final(self).grounded == old(self).grounded,
    {
        if dash {
            self.horizontal_speed = DASH_SPEED;
        }
    }
}

} // verus!
