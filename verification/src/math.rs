//! Three-component vectors of binary32 words.

use crate::binary32::{encodes_unit, encodes_zero, is_unit, is_zero, negate, negation};
use bevy_core::{AsBytes, FromBytes};
use vstd::prelude::*;

verus! {

/// A vector in space, each component held as its binary32 word.
#[derive(Clone, Copy, Debug, PartialEq, Eq, Structural)]
pub struct Vec3 {
    pub x: u32,
    pub y: u32,
    pub z: u32,
}

/// What glam's `Vec3::is_normalized` answers for the vector whose components
/// have the encodings `x`, `y` and `z`.
pub uninterp spec fn unit_length(x: u32, y: u32, z: u32) -> bool;

/// Puts the question of unit length to glam.
///
/// The three words are reinterpreted as the components of a glam `Vec3`
/// (bevy_core's `AsBytes` and `FromBytes`, which copy the memory as it is),
/// and `Vec3::is_normalized` is called on it. That method compares the squared
/// length with one, in binary32 arithmetic, and so answers the same for the
/// same three words wherever it runs. The contract gives that answer its name
/// and claims nothing else of it.
#[verifier::external_body]
fn glam_is_normalized(x: u32, y: u32, z: u32) -> (normalized: bool)
    ensures
        normalized == unit_length(x, y, z),
{
    bevy_math::Vec3::from_bytes([x, y, z].as_bytes()).is_normalized()
}

impl Vec3 {
    /// Whether the vector lies along a coordinate axis and has length one:
    /// one component is `1.0` or `-1.0`, the other two are zeros.
    pub open spec fn is_signed_axis(self) -> bool {
        ||| is_unit(self.x) && is_zero(self.y) && is_zero(self.z)
        ||| is_zero(self.x) && is_unit(self.y) && is_zero(self.z)
        ||| is_zero(self.x) && is_zero(self.y) && is_unit(self.z)
    }

    /// Whether the vector counts as a direction: it is a signed axis, whose
    /// squared length is one exactly, or glam finds its squared length close
    /// enough to one.
    pub open spec fn spec_is_normalized(&self) -> bool {
        self.is_signed_axis() || unit_length(self.x, self.y, self.z)
    }

    /// The vector that points the other way.
    pub open spec fn negation(self) -> Vec3 {
        Vec3 { x: negation(self.x), y: negation(self.y), z: negation(self.z) }
    }

    /// The vector with the given component words.
    pub fn new(x: u32, y: u32, z: u32) -> (v: Vec3)
        ensures
            v == (Vec3 { x, y, z }),
    {
        Vec3 { x, y, z }
    }

    /// Whether the vector is a signed axis.
    fn lies_on_axis(&self) -> (yes: bool)
        ensures
            yes == self.is_signed_axis(),
    {
        let unit_x = encodes_unit(self.x);
        let unit_y = encodes_unit(self.y);
        let unit_z = encodes_unit(self.z);
        let zero_x = encodes_zero(self.x);
        let zero_y = encodes_zero(self.y);
        let zero_z = encodes_zero(self.z);
        (unit_x && zero_y && zero_z) || (zero_x && unit_y && zero_z) || (zero_x && zero_y && unit_z)
    }

    /// Whether the vector counts as a direction. The signed axes are
    /// recognised from their words; every other vector is put to glam.
    #[verifier::when_used_as_spec(spec_is_normalized)]
    pub fn is_normalized(&self) -> (yes: bool)
        ensures
            yes == self.is_normalized(),
    {
        if self.lies_on_axis() {
            true
        } else {
            glam_is_normalized(self.x, self.y, self.z)
        }
    }

    /// The vector that points the other way: the sign of each component is
    /// flipped and nothing else changes.
    pub fn negated(&self) -> (v: Vec3)
        ensures
            v == self.negation(),
    {
        Vec3 { x: negate(self.x), y: negate(self.y), z: negate(self.z) }
    }
}

} // verus!
