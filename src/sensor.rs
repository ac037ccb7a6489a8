//! Ground sensor: turns the answer of a downward probe into contact.
use vstd::prelude::*;
use crate::vector::Vector3;

verus! {

/// Default probe length below the probe origin (0.16).
pub const DEFAULT_CONTACT_TOLERANCE: u32 = 160;

/// Default depth of the probe origin below the character's position: the
/// bottom of a capsule of half height 1 and radius 0.4 (1.4).
pub const DEFAULT_PROBE_DEPTH: u32 = 1400;

/// Ground contact of one character, in milli-units.
#[derive(Clone, Copy, Debug, PartialEq, Eq, Structural)]
pub struct GroundSensor {
    /// Result of the most recent probe.
    pub grounded: bool,
    /// Longest distance below the probe origin that counts as contact.
    pub contact_tolerance: u32,
    /// Depth of the probe origin below the character's position.
    pub probe_depth: u32,
}

/// Contact, given the distance from the probe origin down to the nearest
/// surface that the probe found (`None`: none found). A negative distance is
/// a malformed answer and counts as no contact.
pub open spec fn in_contact(hit: Option<i64>, tolerance: int) -> bool {
    match hit {
        Some(d) => 0 <= d <= tolerance,
        None => false,
    }
}

impl GroundSensor {
    /// A sensor with the default tolerance and probe depth, not grounded.
    pub fn new() -> (r: GroundSensor)
        ensures
            !r.grounded,
            r.contact_tolerance == DEFAULT_CONTACT_TOLERANCE,
            r.probe_depth == DEFAULT_PROBE_DEPTH,
    {
        GroundSensor {
            grounded: false,
            contact_tolerance: DEFAULT_CONTACT_TOLERANCE,
            probe_depth: DEFAULT_PROBE_DEPTH,
        }
    }

    /// Where the downward probe starts for a character at `position`.
    pub fn probe_origin(&self, position: Vector3) -> (r: Vector3)
        requires
            position.y >= i64::MIN + self.probe_depth,
        ensures
            r.x == position.x,
            r.y == position.y - self.probe_depth,
            r.z == position.z,
    {
        Vector3 { x: position.x, y: position.y - self.probe_depth as i64, z: position.z }
    }

    /// Records the probe's answer: grounded exactly when it found a surface
    /// within the contact tolerance.
    pub fn sense(&mut self, hit: Option<i64>)
        ensures
            final(self).grounded == in_contact(hit, old(self).contact_tolerance as int),
            final(self).grounded ==> (hit matches Some(d) && 0 <= d <= old(self).contact_tolerance),
            final(self).contact_tolerance == old(self).contact_tolerance,
            final(self).probe_depth == old(self).probe_depth,
    {
        self.grounded = match hit {
            Some(d) => 0 <= d && d <= self.contact_tolerance as i64,
            None => false,
        };
    }
}

impl Default for GroundSensor {
    fn default() -> (r: GroundSensor)
        ensures
            !r.grounded,
            r.contact_tolerance == DEFAULT_CONTACT_TOLERANCE,
            r.probe_depth == DEFAULT_PROBE_DEPTH,
    {
        GroundSensor::new()
    }
}

} // verus!
