//! The player's input mapping: from the directions that are held to a
//! thrust, and to whether drag is in force.
//!
//! On each axis the player is in one of two states, decided anew on every
//! tick from the held directions alone: thrusting or coasting. Thrust against
//! a velocity that is faster than the threshold the other way is boosted, so
//! that the vehicle stops and turns round quickly.

use vstd::prelude::*;
use crate::fixed::Fixed;
use crate::integrator::Acceleration;
use crate::integrator::Body;
use crate::integrator::Velocity;
use crate::vec2::Vec2;

verus! {

/// The directions that are held on one tick.
#[derive(Clone, Copy, PartialEq, Eq, Structural, Debug)]
pub struct DirectionalInput {
    pub up: bool,
    pub right: bool,
    pub down: bool,
    pub left: bool,
}

/// The constants of the input mapping.
#[derive(Clone, Copy, PartialEq, Eq, Structural, Debug)]
pub struct Controls {
    /// Magnitude of the thrust on one axis.
    pub sensitivity: Fixed,
    /// Multiplier on thrust that works against the velocity.
    pub reverse_boost: Fixed,
    /// Speed against the thrust beyond which the boost applies.
    pub reverse_threshold: Fixed,
}

/// What the input asks for on one tick.
#[derive(Clone, Copy, PartialEq, Eq, Structural, Debug)]
pub struct Command {
    /// Thrust on each axis.
    pub force: Vec2,
    /// Whether any direction is held.
    pub thrusting: bool,
}

impl DirectionalInput {
    /// Whether any direction is held.
    pub open spec fn spec_any(self) -> bool {
        self.up || self.right || self.down || self.left
    }

    /// No direction held.
    pub fn none() -> (r: DirectionalInput)
        ensures
            r == (DirectionalInput { up: false, right: false, down: false, left: false }),
    {
        DirectionalInput { up: false, right: false, down: false, left: false }
    }

    /// Whether any direction is held.
    pub fn any(&self) -> (r: bool)
        ensures
            r == self.spec_any(),
    {
        self.up || self.right || self.down || self.left
    }
}

impl Controls {
    /// Thrust on one axis. `forward` is the held direction along the axis
    /// (up or right), `backward` the one against it (down or left), which
    /// wins where both are held. The thrust is boosted where the velocity on
    /// the axis runs against it faster than the threshold.
    pub open spec fn axis_force(self, forward: bool, backward: bool, velocity: Fixed) -> Fixed {
        if backward {
            if velocity@ > self.reverse_threshold@ {
                self.sensitivity.spec_mul(self.reverse_boost).spec_neg()
            } else {
                self.sensitivity.spec_neg()
            }
        } else if forward {
            if velocity@ < -self.reverse_threshold@ {
                self.sensitivity.spec_mul(self.reverse_boost)
            } else {
                self.sensitivity
            }
        } else {
            Fixed { raw: 0 }
        }
    }

    /// What the input asks for from a vehicle with the given velocity.
    pub open spec fn spec_command(self, input: DirectionalInput, velocity: Velocity) -> Command {
        Command {
            force: Vec2 {
                x: self.axis_force(input.right, input.left, velocity.0.x),
                y: self.axis_force(input.up, input.down, velocity.0.y),
            },
            thrusting: input.spec_any(),
        }
    }

    /// The body after the input is applied: its acceleration is the thrust,
    /// and its drag, if it has any, is off while a direction is held and at
    /// its recommended value otherwise.
    pub open spec fn spec_player_input(self, body: Body, input: DirectionalInput) -> Body {
        let command = self.spec_command(input, body.velocity);
        Body {
            acceleration: Some(Acceleration(command.force)),
            drag: match body.drag {
                Some(drag) => Some(drag.spec_with_thrust(command.thrusting)),
                None => None,
            },
            ..body
        }
    }

    /// Thrust on one axis.
    fn force_on_axis(&self, forward: bool, backward: bool, velocity: Fixed) -> (r: Fixed)
        ensures
            r == self.axis_force(forward, backward, velocity),
    {
        if backward {
            if velocity.raw > self.reverse_threshold.raw {
                self.sensitivity.saturating_mul(self.reverse_boost).saturating_neg()
            } else {
                self.sensitivity.saturating_neg()
            }
        } else if forward {
            if velocity.raw as i128 + (self.reverse_threshold.raw as i128) < 0 {
                self.sensitivity.saturating_mul(self.reverse_boost)
            } else {
                self.sensitivity
            }
        } else {
            Fixed { raw: 0 }
        }
    }

    /// What the input asks for from a vehicle with the given velocity: the
    /// thrust on each axis and whether the vehicle is thrusting.
    pub fn command(&self, input: DirectionalInput, velocity: Velocity) -> (r: Command)
        ensures
            r == self.spec_command(input, velocity),
            !input.spec_any() ==> r.force@ == (0int, 0int),
    {
        Command {
            force: Vec2 {
                x: self.force_on_axis(input.right, input.left, velocity.0.x),
                y: self.force_on_axis(input.up, input.down, velocity.0.y),
            },
            thrusting: input.any(),
        }
    }
}

/// Applies the held directions to the player's body: sets its acceleration
/// to the thrust, and switches its drag off while a direction is held and
/// back to its recommended value otherwise.
pub fn player_input(body: &mut Body, input: DirectionalInput, controls: &Controls)
    ensures
        *final(body) == controls.spec_player_input(*old(body), input),
        old(body).wf() ==> final(body).wf(),
{
    let command = controls.command(input, body.velocity);
    body.acceleration = Some(Acceleration(command.force));
    body.drag = match body.drag {
        Some(drag) => Some(drag.with_thrust(command.thrusting)),
        None => None,
    };
}

} // verus!
