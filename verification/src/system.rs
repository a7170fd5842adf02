//! The physics models and their states.

use vstd::prelude::*;
use crate::scalar::{Scalar, Vector2, ZERO_BITS};

verus! {

/// State of a rigid pendulum: a rod that swings about the anchor.
#[derive(Clone, Copy, Debug, PartialEq, Eq, Structural)]
pub struct RigidPendulumSystem {
    /// Angle of the rod, measured from its rest orientation, in radians.
    pub angle: Scalar,
    /// Rate of change of the angle.
    pub angular_velocity: Scalar,
}

/// State of a spring pendulum: a unit mass on a damped spring.
#[derive(Clone, Copy, Debug, PartialEq, Eq, Structural)]
pub struct SpringPendulumSystem {
    /// Displacement of the mass from its rest position.
    pub displacement: Vector2,
    /// Rate of change of the displacement.
    pub velocity: Vector2,
}

/// Physics model of a driver. The set is closed: these two and no other.
#[derive(Clone, Copy, Debug, PartialEq, Eq, Structural)]
pub enum SimplePhysicsSystem {
    /// Rigid pendulum
    RigidPendulum(RigidPendulumSystem),
    /// Springy pendulum
    SpringPendulum(SpringPendulumSystem),
}

impl RigidPendulumSystem {
    /// Hanging at rest: angle and angular velocity are `0.0`.
    pub open spec fn at_rest(self) -> bool {
        self.angle.bits == ZERO_BITS && self.angular_velocity.bits == ZERO_BITS
    }

    pub open spec fn finite(self) -> bool {
        self.angle.finite() && self.angular_velocity.finite()
    }

    pub fn is_finite(&self) -> (r: bool)
        ensures
            r == self.finite(),
    {
        self.angle.is_finite() && self.angular_velocity.is_finite()
    }
}

impl SpringPendulumSystem {
    /// At rest: displacement and velocity are `(0.0, 0.0)`.
    pub open spec fn at_rest(self) -> bool {
        &&& self.displacement.x.bits == ZERO_BITS
        &&& self.displacement.y.bits == ZERO_BITS
        &&& self.velocity.x.bits == ZERO_BITS
        &&& self.velocity.y.bits == ZERO_BITS
    }

    pub open spec fn finite(self) -> bool {
        self.displacement.finite() && self.velocity.finite()
    }

    pub fn is_finite(&self) -> (r: bool)
        ensures
            r == self.finite(),
    {
        self.displacement.is_finite() && self.velocity.is_finite()
    }
}

impl SimplePhysicsSystem {
    /// The two states are of the same model.
    pub open spec fn same_model(self, other: SimplePhysicsSystem) -> bool {
        match (self, other) {
            (SimplePhysicsSystem::RigidPendulum(_), SimplePhysicsSystem::RigidPendulum(_)) => true,
            (SimplePhysicsSystem::SpringPendulum(_), SimplePhysicsSystem::SpringPendulum(_)) => {
                true
            },
            (SimplePhysicsSystem::RigidPendulum(_), SimplePhysicsSystem::SpringPendulum(_)) => {
                false
            },
            (SimplePhysicsSystem::SpringPendulum(_), SimplePhysicsSystem::RigidPendulum(_)) => {
                false
            },
        }
    }

    /// The model is in its rest state, with zero velocity.
    pub open spec fn at_rest(self) -> bool {
        match self {
            SimplePhysicsSystem::RigidPendulum(s) => s.at_rest(),
            SimplePhysicsSystem::SpringPendulum(s) => s.at_rest(),
        }
    }

    /// Every number of the state is finite.
    pub open spec fn finite(self) -> bool {
        match self {
            SimplePhysicsSystem::RigidPendulum(s) => s.finite(),
            SimplePhysicsSystem::SpringPendulum(s) => s.finite(),
        }
    }

    /// A rigid pendulum at rest.
    pub fn new_rigid_pendulum() -> (r: SimplePhysicsSystem)
        ensures
            r == SimplePhysicsSystem::RigidPendulum(
                RigidPendulumSystem {
                    angle: Scalar { bits: ZERO_BITS },
                    angular_velocity: Scalar { bits: ZERO_BITS },
                },
            ),
            r.at_rest(),
            r.finite(),
    {
        SimplePhysicsSystem::RigidPendulum(
            RigidPendulumSystem {
                angle: Scalar::new_zero(),
                angular_velocity: Scalar::new_zero(),
            },
        )
    }

    /// A spring pendulum at rest.
    pub fn new_spring_pendulum() -> (r: SimplePhysicsSystem)
        ensures
            r == SimplePhysicsSystem::SpringPendulum(
                SpringPendulumSystem {
                    displacement: Vector2 {
                        x: Scalar { bits: ZERO_BITS },
                        y: Scalar { bits: ZERO_BITS },
                    },
                    velocity: Vector2 {
                        x: Scalar { bits: ZERO_BITS },
                        y: Scalar { bits: ZERO_BITS },
                    },
                },
            ),
            r.at_rest(),
            r.finite(),
    {
        SimplePhysicsSystem::SpringPendulum(
            SpringPendulumSystem {
                displacement: Vector2::new_zero(),
                velocity: Vector2::new_zero(),
            },
        )
    }

    pub fn is_same_model(&self, other: &SimplePhysicsSystem) -> (r: bool)
        ensures
            r == self.same_model(*other),
    {
        match (self, other) {
            (SimplePhysicsSystem::RigidPendulum(_), SimplePhysicsSystem::RigidPendulum(_)) => true,
            (SimplePhysicsSystem::SpringPendulum(_), SimplePhysicsSystem::SpringPendulum(_)) => {
                true
            },
            (SimplePhysicsSystem::RigidPendulum(_), SimplePhysicsSystem::SpringPendulum(_)) => {
                false
            },
            (SimplePhysicsSystem::SpringPendulum(_), SimplePhysicsSystem::RigidPendulum(_)) => {
                false
            },
        }
    }

    pub fn is_finite(&self) -> (r: bool)
        ensures
            r == self.finite(),
    {
        match self {
            SimplePhysicsSystem::RigidPendulum(s) => s.is_finite(),
            SimplePhysicsSystem::SpringPendulum(s) => s.is_finite(),
        }
    }

    /// Takes over the state that an integration step gave, where it is a
    /// state of this model. A state of the other model is refused, and the
    /// model stays as it is: a driver keeps the model it was made with.
    pub fn tick(&mut self, next: &SimplePhysicsSystem) -> (taken: bool)
        ensures
            taken == old(self).same_model(*next),
            taken ==> *final(self) == *next,
            !taken ==> *final(self) == *old(self),
            final(self).same_model(*old(self)),
    {
        if self.is_same_model(next) {
            *self = *next;
            true
        } else {
            false
        }
    }
}

} // verus!
