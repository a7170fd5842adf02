//! The tunable parameters of a physics driver.

use vstd::prelude::*;
use crate::scalar::{Scalar, Vector2, HALF_BITS, ONE_BITS};

verus! {

/// The parameters of one driver. Each quantity has a base value, which is
/// authored, and an offset, which the animation system varies at runtime.
/// The quantity that a model uses is the product of the two, so an offset
/// of one leaves the base value as it is.
#[derive(Clone, Copy, Debug, PartialEq, Eq, Structural)]
pub struct SimplePhysicsProps {
    /// Gravity scale (one is the puppet's gravity).
    pub gravity: Scalar,
    pub offset_gravity: Scalar,
    /// Rest length of the rod or spring, in pixels.
    pub length: Scalar,
    pub offset_length: Scalar,
    /// Resonant frequency, in Hz.
    pub frequency: Scalar,
    pub offset_frequency: Scalar,
    /// Damping ratio of the angular motion.
    pub angle_damping: Scalar,
    pub offset_angle_damping: Scalar,
    /// Damping ratio of the radial motion.
    pub length_damping: Scalar,
    pub offset_length_damping: Scalar,
    /// Scale applied to the output vector.
    pub output_scale: Vector2,
    pub offset_output_scale: Vector2,
}

impl SimplePhysicsProps {
    /// The default parameters: gravity, length, frequency and output scale
    /// of one, damping ratios of one half, and every offset equal to its
    /// base value.
    pub open spec fn initial() -> SimplePhysicsProps {
        SimplePhysicsProps {
            gravity: Scalar { bits: ONE_BITS },
            offset_gravity: Scalar { bits: ONE_BITS },
            length: Scalar { bits: ONE_BITS },
            offset_length: Scalar { bits: ONE_BITS },
            frequency: Scalar { bits: ONE_BITS },
            offset_frequency: Scalar { bits: ONE_BITS },
            angle_damping: Scalar { bits: HALF_BITS },
            offset_angle_damping: Scalar { bits: HALF_BITS },
            length_damping: Scalar { bits: HALF_BITS },
            offset_length_damping: Scalar { bits: HALF_BITS },
            output_scale: Vector2 { x: Scalar { bits: ONE_BITS }, y: Scalar { bits: ONE_BITS } },
            offset_output_scale: Vector2 {
                x: Scalar { bits: ONE_BITS },
                y: Scalar { bits: ONE_BITS },
            },
        }
    }

    /// Every field is finite.
    pub open spec fn finite(self) -> bool {
        &&& self.gravity.finite()
        &&& self.offset_gravity.finite()
        &&& self.length.finite()
        &&& self.offset_length.finite()
        &&& self.frequency.finite()
        &&& self.offset_frequency.finite()
        &&& self.angle_damping.finite()
        &&& self.offset_angle_damping.finite()
        &&& self.length_damping.finite()
        &&& self.offset_length_damping.finite()
        &&& self.output_scale.finite()
        &&& self.offset_output_scale.finite()
    }

    pub fn is_finite(&self) -> (r: bool)
        ensures
            r == self.finite(),
    {
        self.gravity.is_finite() && self.offset_gravity.is_finite() && self.length.is_finite()
            && self.offset_length.is_finite() && self.frequency.is_finite()
            && self.offset_frequency.is_finite() && self.angle_damping.is_finite()
            && self.offset_angle_damping.is_finite() && self.length_damping.is_finite()
            && self.offset_length_damping.is_finite() && self.output_scale.is_finite()
            && self.offset_output_scale.is_finite()
    }
}

impl Default for SimplePhysicsProps {
    fn default() -> (r: SimplePhysicsProps)
        ensures
            r == SimplePhysicsProps::initial(),
            r.finite(),
    {
        SimplePhysicsProps {
            gravity: Scalar::new_one(),
            offset_gravity: Scalar::new_one(),
            length: Scalar::new_one(),
            offset_length: Scalar::new_one(),
            frequency: Scalar::new_one(),
            offset_frequency: Scalar::new_one(),
            angle_damping: Scalar::new_half(),
            offset_angle_damping: Scalar::new_half(),
            length_damping: Scalar::new_half(),
            offset_length_damping: Scalar::new_half(),
            output_scale: Vector2::new_one(),
            offset_output_scale: Vector2::new_one(),
        }
    }
}

} // verus!
