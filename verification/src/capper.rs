//! The velocity capper: after every tick, no vehicle is faster than its
//! configured maxima, neither along an axis nor in its turning.

use vstd::prelude::*;
use crate::fixed::Fixed;
use crate::fixed::magnitude;
use crate::integrator::Velocity;
use crate::integrator::VelocityMaximum;
use crate::steering::SteeringParameters;

verus! {

/// The largest velocities of one vehicle.
#[derive(Clone, Copy, PartialEq, Eq, Structural, Debug)]
pub struct MaximumVelocity {
    /// Largest speed on each axis.
    pub linear: VelocityMaximum,
    /// Largest angular speed.
    pub angular: Fixed,
}

impl MaximumVelocity {
    /// No maximum is negative.
    pub open spec fn wf(self) -> bool {
        self.linear.wf() && self.angular@ >= 0
    }

    /// The angular velocity limited to the angular maximum.
    pub open spec fn spec_cap_angular(self, angular: Fixed) -> Fixed
        recommends
            self.wf(),
    {
        angular.spec_clamp_symmetric(self.angular)
    }

    /// Whether no maximum is negative.
    pub fn is_valid(&self) -> (ok: bool)
        ensures
            ok == self.wf(),
    {
        self.linear.is_valid() && self.angular.raw >= 0
    }

    /// Caps a linear and an angular velocity, each component on its own.
    /// What is within its maximum stays as it is.
    pub fn cap(&self, linear: Velocity, angular: Fixed) -> (r: (Velocity, Fixed))
        requires
            self.wf(),
        ensures
            r.0 == self.linear.spec_cap(linear),
            r.1 == self.spec_cap_angular(angular),
            magnitude(r.0.0.x@) <= self.linear.0.x@,
            magnitude(r.0.0.y@) <= self.linear.0.y@,
            magnitude(r.1@) <= self.angular@,
            linear.0.within_box(self.linear.0) ==> r.0 == linear,
            magnitude(angular@) <= self.angular@ ==> r.1 == angular,
    {
        (self.linear.cap(linear), angular.clamp_symmetric(self.angular))
    }
}

impl SteeringParameters {
    /// The maxima of a chaser.
    pub open spec fn spec_maximum(self) -> MaximumVelocity {
        MaximumVelocity {
            linear: VelocityMaximum(self.max_linear_velocity),
            angular: self.max_angular_velocity,
        }
    }

    /// The maxima of a chaser.
    pub fn maximum(&self) -> (r: MaximumVelocity)
        ensures
            r == self.spec_maximum(),
            self.wf() ==> r.wf(),
    {
        MaximumVelocity {
            linear: VelocityMaximum(self.max_linear_velocity),
            angular: self.max_angular_velocity,
        }
    }
}

/// After the cap, no axis of a velocity exceeds its maximum, whatever the
/// velocity was.
pub proof fn lemma_capped_within_maximum(maximum: VelocityMaximum, velocity: Velocity)
    requires
        maximum.wf(),
    ensures
        magnitude(maximum.spec_cap(velocity).0.x@) <= maximum.0.x@,
        magnitude(maximum.spec_cap(velocity).0.y@) <= maximum.0.y@,
{
}

/// Capping twice is capping once, and a velocity within the maximum is not
/// changed.
pub proof fn lemma_cap_is_idempotent(maximum: VelocityMaximum, velocity: Velocity)
    requires
        maximum.wf(),
    ensures
        maximum.spec_cap(maximum.spec_cap(velocity)) == maximum.spec_cap(velocity),
        velocity.0.within_box(maximum.0) ==> maximum.spec_cap(velocity) == velocity,
{
}

/// After the cap, an angular velocity does not exceed the angular maximum.
pub proof fn lemma_capped_angular_within_maximum(maximum: MaximumVelocity, angular: Fixed)
    requires
        maximum.wf(),
    ensures
        magnitude(maximum.spec_cap_angular(angular)@) <= maximum.angular@,
{
}

} // verus!
