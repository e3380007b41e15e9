//! The steering law of a chaser: the force that makes it close in on its
//! target from afar and circle it from near.
//!
//! Two candidate forces are computed from the offset to the target. The
//! chase force pushes along each axis toward the target, harder where the
//! chaser is not yet moving that way. The surround force is the same kind of
//! push turned by a quarter turn, so that it drives the chaser round the
//! target. The two are blended by distance and the result is capped on each
//! axis.
//!
//! The push on an axis follows the sign of the offset on that axis, and the
//! sign of zero is zero: a chaser that is exactly level with its target on
//! one axis gets no chase force on that axis.

use vstd::prelude::*;
use crate::angle::QUARTER_TURN;
use crate::angle::spec_turn_toward;
use crate::angle::turn_toward;
use crate::fixed::Fixed;
use crate::fixed::lemma_weighted_mean_between;
use crate::fixed::sign;
use crate::vec2::Vec2;

verus! {

/// The way the surround force turns a chaser round its target.
#[derive(Clone, Copy, PartialEq, Eq, Structural, Debug)]
pub enum Orbit {
    CounterClockwise,
    Clockwise,
}

/// What one chaser is configured with. Fixed when the chaser is made.
#[derive(Clone, Copy, PartialEq, Eq, Structural, Debug)]
pub struct SteeringParameters {
    /// Offset in radians added to the heading while the target is within
    /// attack range.
    pub attack_angle: Fixed,
    /// Multiplier on the magnitude of both candidate forces.
    pub acceleration_factor: Fixed,
    /// Largest speed on each axis.
    pub max_linear_velocity: Vec2,
    /// Largest angular speed.
    pub max_angular_velocity: Fixed,
}

impl SteeringParameters {
    /// The maxima are not negative.
    pub open spec fn wf(self) -> bool {
        &&& self.max_linear_velocity.x@ >= 0
        &&& self.max_linear_velocity.y@ >= 0
        &&& self.max_angular_velocity@ >= 0
    }

    /// Whether the maxima are not negative.
    pub fn is_valid(&self) -> (ok: bool)
        ensures
            ok == self.wf(),
    {
        self.max_linear_velocity.x.raw >= 0 && self.max_linear_velocity.y.raw >= 0
            && self.max_angular_velocity.raw >= 0
    }
}

/// The constants of the steering law, shared by all chasers.
#[derive(Clone, Copy, PartialEq, Eq, Structural, Debug)]
pub struct SteeringPolicy {
    /// Magnitude of the chase force on one axis, before the chaser's factor.
    pub chase_magnitude: Fixed,
    /// Magnitude of the surround force on one axis, before the chaser's factor.
    pub surround_magnitude: Fixed,
    /// Multiplier on the chase force of an axis on which the chaser's
    /// velocity does not have the sign of the offset to the target.
    pub reverse_boost: Fixed,
    /// Distance from which on the force is the chase force alone.
    pub blend_distance: Fixed,
    /// Largest magnitude of the final force on one axis.
    pub force_cap: Fixed,
    /// Distance below which a chaser adds its attack angle to its heading.
    pub attack_range: Fixed,
    /// Direction of the quarter turn that makes the surround force.
    pub orbit: Orbit,
}

impl SteeringPolicy {
    /// The blend distance is positive and the cap is not negative.
    pub open spec fn wf(self) -> bool {
        &&& self.blend_distance@ > 0
        &&& self.force_cap@ >= 0
    }

    /// The cap as a box round the origin.
    pub open spec fn cap_box(self) -> Vec2 {
        Vec2 { x: self.force_cap, y: self.force_cap }
    }

    /// Chase force on one axis: the magnitude times the chaser's factor,
    /// times the boost where the sign of the velocity differs from the sign
    /// of the offset, in the direction of the offset.
    pub open spec fn chase_axis(self, factor: Fixed, delta: Fixed, velocity: Fixed) -> Fixed {
        let base = self.chase_magnitude.spec_mul(factor);
        let push = if sign(velocity@) != sign(delta@) {
            base.spec_mul(self.reverse_boost)
        } else {
            base
        };
        push.spec_directed(delta)
    }

    /// Chase force for the offset `delta` to the target.
    pub open spec fn chase_force(self, parameters: SteeringParameters, delta: Vec2, velocity: Vec2) -> Vec2 {
        Vec2 {
            x: self.chase_axis(parameters.acceleration_factor, delta.x, velocity.x),
            y: self.chase_axis(parameters.acceleration_factor, delta.y, velocity.y),
        }
    }

    /// The push of the surround force before it is turned: the magnitude
    /// times the chaser's factor, on each axis in the direction of the offset.
    pub open spec fn surround_push(self, parameters: SteeringParameters, delta: Vec2) -> Vec2 {
        let base = self.surround_magnitude.spec_mul(parameters.acceleration_factor);
        Vec2 { x: base.spec_directed(delta.x), y: base.spec_directed(delta.y) }
    }

    /// Surround force for the offset `delta` to the target: the push turned
    /// by a quarter turn in the direction of the orbit.
    pub open spec fn surround_force(self, parameters: SteeringParameters, delta: Vec2) -> Vec2 {
        match self.orbit {
            Orbit::CounterClockwise => self.surround_push(parameters, delta).spec_perp(),
            Orbit::Clockwise => self.surround_push(parameters, delta).spec_perp_clockwise(),
        }
    }

    /// The parts of the blend distance that the chase force gets at the
    /// given distance: the distance itself, at most the blend distance.
    pub open spec fn blend_weight(self, distance: Fixed) -> Fixed {
        distance.spec_min(self.blend_distance)
    }

    /// The steering force of a chaser at `position` with `velocity` on a
    /// target at `target`: the surround force and the chase force blended by
    /// distance, then capped on each axis.
    pub open spec fn spec_force(
        self,
        parameters: SteeringParameters,
        position: Vec2,
        velocity: Vec2,
        target: Vec2,
    ) -> Vec2 {
        let delta = target.spec_sub(position);
        let weight = self.blend_weight(delta.spec_length());
        self.surround_force(parameters, delta).spec_blend(
            self.chase_force(parameters, delta, velocity),
            weight,
            self.blend_distance,
        ).spec_clamp_box(self.cap_box())
    }

    /// The heading that a chaser wants: the bearing of its target less a
    /// quarter turn, plus its attack angle while the target is nearer than
    /// the attack range.
    pub open spec fn spec_desired_heading(
        self,
        parameters: SteeringParameters,
        bearing: Fixed,
        distance: Fixed,
    ) -> Fixed {
        let offset = if distance@ < self.attack_range@ {
            parameters.attack_angle
        } else {
            Fixed { raw: 0 }
        };
        bearing.spec_sub(Fixed { raw: QUARTER_TURN }).spec_add(offset)
    }

    /// The heading of a chaser after one tick: the heading `current` turned
    /// toward the wanted heading by the part `fraction` of the shorter arc.
    pub open spec fn spec_heading(
        self,
        parameters: SteeringParameters,
        current: Fixed,
        bearing: Fixed,
        position: Vec2,
        target: Vec2,
        fraction: Fixed,
    ) -> Fixed {
        spec_turn_toward(
            current,
            self.spec_desired_heading(parameters, bearing, position.spec_distance(target)),
            fraction,
        )
    }

    /// Whether the constants are usable: see [`SteeringPolicy::wf`].
    pub fn is_valid(&self) -> (ok: bool)
        ensures
            ok == self.wf(),
    {
        self.blend_distance.raw > 0 && self.force_cap.raw >= 0
    }

    /// Chase force on one axis.
    fn chase_on_axis(&self, factor: Fixed, delta: Fixed, velocity: Fixed) -> (r: Fixed)
        ensures
            r == self.chase_axis(factor, delta, velocity),
    {
        let base = self.chase_magnitude.saturating_mul(factor);
        let push = if velocity.signum() != delta.signum() {
            base.saturating_mul(self.reverse_boost)
        } else {
            base
        };
        push.directed(delta)
    }

    /// Chase force for the offset `delta` to the target.
    pub fn chase(&self, parameters: &SteeringParameters, delta: Vec2, velocity: Vec2) -> (r: Vec2)
        ensures
            r == self.chase_force(*parameters, delta, velocity),
    {
        Vec2 {
            x: self.chase_on_axis(parameters.acceleration_factor, delta.x, velocity.x),
            y: self.chase_on_axis(parameters.acceleration_factor, delta.y, velocity.y),
        }
    }

    /// Surround force for the offset `delta` to the target.
    pub fn surround(&self, parameters: &SteeringParameters, delta: Vec2) -> (r: Vec2)
        ensures
            r == self.surround_force(*parameters, delta),
    {
        let base = self.surround_magnitude.saturating_mul(parameters.acceleration_factor);
        let push = Vec2 { x: base.directed(delta.x), y: base.directed(delta.y) };
        match self.orbit {
            Orbit::CounterClockwise => push.perp(),
            Orbit::Clockwise => push.perp_clockwise(),
        }
    }

    /// The heading that a chaser wants, from the bearing of its target (the
    /// angle of the offset to the target, which the caller measures) and the
    /// distance to it.
    pub fn desired_heading(
        &self,
        parameters: &SteeringParameters,
        bearing: Fixed,
        distance: Fixed,
    ) -> (r: Fixed)
        ensures
            r == self.spec_desired_heading(*parameters, bearing, distance),
    {
        let offset = if distance.raw < self.attack_range.raw {
            parameters.attack_angle
        } else {
            Fixed { raw: 0 }
        };
        bearing.saturating_sub(Fixed { raw: QUARTER_TURN }).saturating_add(offset)
    }

    /// The heading of a chaser after one tick. `bearing` is the angle of the
    /// offset from `position` to `target`, which the caller measures;
    /// `fraction` is the part of the shorter arc to cover, the elapsed time
    /// times the turn rate.
    pub fn heading(
        &self,
        parameters: &SteeringParameters,
        current: Fixed,
        bearing: Fixed,
        position: Vec2,
        target: Vec2,
        fraction: Fixed,
    ) -> (r: Fixed)
        ensures
            r == self.spec_heading(*parameters, current, bearing, position, target, fraction),
            fraction@ == 0 ==> r == current,
    {
        let distance = position.distance(target);
        let desired = self.desired_heading(parameters, bearing, distance);
        turn_toward(current, desired, fraction)
    }

    /// The steering force of a chaser at `position` with `velocity` on a
    /// target at `target`. Its magnitude on each axis is at most the cap.
    pub fn force(
        &self,
        parameters: &SteeringParameters,
        position: Vec2,
        velocity: Vec2,
        target: Vec2,
    ) -> (r: Vec2)
        requires
            self.wf(),
        ensures
            r == self.spec_force(*parameters, position, velocity, target),
            r.within_box(self.cap_box()),
    {
        let delta = target.saturating_sub(position);
        let weight = delta.length().min(self.blend_distance);
        let surround = self.surround(parameters, delta);
        let chase = self.chase(parameters, delta, velocity);
        let blended = surround.blend(chase, weight, self.blend_distance);
        blended.clamp_box(Vec2 { x: self.force_cap, y: self.force_cap })
    }
}

/// From the blend distance on, the steering force is the chase force alone,
/// capped; where the chase force is within the cap, it is the chase force
/// itself.
pub proof fn lemma_far_force_is_chase(
    policy: SteeringPolicy,
    parameters: SteeringParameters,
    position: Vec2,
    velocity: Vec2,
    target: Vec2,
)
    requires
        policy.wf(),
        position.spec_distance(target)@ >= policy.blend_distance@,
    ensures
        policy.spec_force(parameters, position, velocity, target) == policy.chase_force(
            parameters,
            target.spec_sub(position),
            velocity,
        ).spec_clamp_box(policy.cap_box()),
        policy.chase_force(parameters, target.spec_sub(position), velocity).within_box(
            policy.cap_box(),
        ) ==> policy.spec_force(parameters, position, velocity, target) == policy.chase_force(
            parameters,
            target.spec_sub(position),
            velocity,
        ),
{
    let delta = target.spec_sub(position);
    let surround = policy.surround_force(parameters, delta);
    let chase = policy.chase_force(parameters, delta, velocity);
    let total = policy.blend_distance;
    lemma_weighted_mean_between(surround.x@, chase.x@, total@, total@);
    lemma_weighted_mean_between(surround.y@, chase.y@, total@, total@);
    assert(surround.spec_blend(chase, total, total) == chase);
}

/// At distance zero the steering force is the surround force alone, capped;
/// where the surround force is within the cap, it is the surround force
/// itself.
pub proof fn lemma_near_force_is_surround(
    policy: SteeringPolicy,
    parameters: SteeringParameters,
    position: Vec2,
    velocity: Vec2,
    target: Vec2,
)
    requires
        policy.wf(),
        position.spec_distance(target)@ == 0,
    ensures
        policy.spec_force(parameters, position, velocity, target) == policy.surround_force(
            parameters,
            target.spec_sub(position),
        ).spec_clamp_box(policy.cap_box()),
        policy.surround_force(parameters, target.spec_sub(position)).within_box(policy.cap_box())
            ==> policy.spec_force(parameters, position, velocity, target) == policy.surround_force(
            parameters,
            target.spec_sub(position),
        ),
{
    let delta = target.spec_sub(position);
    let surround = policy.surround_force(parameters, delta);
    let chase = policy.chase_force(parameters, delta, velocity);
    let total = policy.blend_distance;
    let weight = policy.blend_weight(delta.spec_length());
    assert(weight@ == 0);
    lemma_weighted_mean_between(surround.x@, chase.x@, 0, total@);
    lemma_weighted_mean_between(surround.y@, chase.y@, 0, total@);
    assert(surround.spec_blend(chase, weight, total) == surround);
}

/// Whatever the inputs, the steering force of a usable policy is within the
/// cap on each axis.
pub proof fn lemma_force_within_cap(
    policy: SteeringPolicy,
    parameters: SteeringParameters,
    position: Vec2,
    velocity: Vec2,
    target: Vec2,
)
    requires
        policy.wf(),
    ensures
        policy.spec_force(parameters, position, velocity, target).within_box(policy.cap_box()),
{
}

/// On an axis on which the chaser is level with its target the chase force
/// is zero, whatever the velocity.
pub proof fn lemma_level_axis_has_no_chase(
    policy: SteeringPolicy,
    parameters: SteeringParameters,
    delta: Vec2,
    velocity: Vec2,
)
    ensures
        delta.x@ == 0 ==> policy.chase_force(parameters, delta, velocity).x@ == 0,
        delta.y@ == 0 ==> policy.chase_force(parameters, delta, velocity).y@ == 0,
{
}

/// The surround force has no part along the direction to the target: its
/// dot product with the signs of the offset is zero. This holds unless the
/// magnitude times the chaser's factor is the lowest representable number,
/// whose negation saturates.
pub proof fn lemma_surround_is_perpendicular(
    policy: SteeringPolicy,
    parameters: SteeringParameters,
    delta: Vec2,
)
    requires
        policy.surround_magnitude.spec_mul(parameters.acceleration_factor)@ > i64::MIN,
    ensures
        sign(delta.x@) * policy.surround_force(parameters, delta).x@ + sign(delta.y@)
            * policy.surround_force(parameters, delta).y@ == 0,
{
    let base = policy.surround_magnitude.spec_mul(parameters.acceleration_factor);
    let push = policy.surround_push(parameters, delta);
    let force = policy.surround_force(parameters, delta);
    let sx = sign(delta.x@);
    let sy = sign(delta.y@);
    assert(push.x@ == sx * base@ && push.y@ == sy * base@) by (nonlinear_arith)
        requires
            -1 <= sx <= 1,
            -1 <= sy <= 1,
            i64::MIN < base@ <= i64::MAX,
            push.x@ == crate::fixed::saturate(sx * base@),
            push.y@ == crate::fixed::saturate(sy * base@),
    ;
    assert(i64::MIN < push.x@ && i64::MIN < push.y@) by (nonlinear_arith)
        requires
            -1 <= sx <= 1,
            -1 <= sy <= 1,
            i64::MIN < base@ <= i64::MAX,
            push.x@ == sx * base@,
            push.y@ == sy * base@,
    ;
    assert(push.x.spec_neg()@ == -push.x@);
    assert(push.y.spec_neg()@ == -push.y@);
    assert(sx * force.x@ + sy * force.y@ == 0) by (nonlinear_arith)
        requires
            -1 <= sx <= 1,
            -1 <= sy <= 1,
            push.x@ == sx * base@,
            push.y@ == sy * base@,
            (force.x@ == -push.y@ && force.y@ == push.x@) || (force.x@ == push.y@ && force.y@
                == -push.x@),
    ;
}

} // verus!
