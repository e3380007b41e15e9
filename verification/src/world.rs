//! The whole scene: one player, its chasers, and the fixed tick that moves
//! them.
//!
//! A tick maps the held directions to the player's thrust, steers every
//! chaser on the place where the player stands at the start of the tick,
//! runs the integrator on every body and caps every velocity. The next state
//! is a function of the state, the input and the elapsed time, so a run is
//! determined by its first state and its inputs.

use vstd::prelude::*;
use crate::fixed::Fixed;
use crate::input::Controls;
use crate::input::DirectionalInput;
use crate::input::player_input;
use crate::integrator::Acceleration;
use crate::integrator::Body;
use crate::integrator::Velocity;
use crate::integrator::VelocityMaximum;
use crate::steering::SteeringParameters;
use crate::steering::SteeringPolicy;
use crate::vec2::Vec2;

verus! {

/// A chaser: a body and what steers it.
#[derive(Clone, Copy, PartialEq, Eq, Debug)]
pub struct Chaser {
    pub body: Body,
    pub parameters: SteeringParameters,
}

impl Chaser {
    /// The body and the parameters are valid.
    pub open spec fn wf(self) -> bool {
        self.body.wf() && self.parameters.wf()
    }

    /// The chaser with the steering force on `target` as its acceleration.
    pub open spec fn spec_steered(self, policy: SteeringPolicy, target: Vec2) -> Chaser {
        Chaser {
            body: Body {
                acceleration: Some(
                    Acceleration(
                        policy.spec_force(
                            self.parameters,
                            self.body.position,
                            self.body.velocity.0,
                            target,
                        ),
                    ),
                ),
                ..self.body
            },
            ..self
        }
    }

    /// The chaser after the integrator has moved its body and its velocity
    /// has been capped by its parameters.
    pub open spec fn spec_moved(self, dt: Fixed) -> Chaser {
        let body = self.body.spec_step(dt);
        Chaser {
            body: Body {
                velocity: VelocityMaximum(self.parameters.max_linear_velocity).spec_cap(
                    body.velocity,
                ),
                ..body
            },
            ..self
        }
    }

    /// The chaser has an acceleration, and it is within the cap of `policy`
    /// on each axis.
    pub open spec fn force_within_cap(self, policy: SteeringPolicy) -> bool {
        self.body.acceleration matches Some(force) && force.0.within_box(policy.cap_box())
    }

    /// The velocity is within the maxima of the parameters.
    pub open spec fn within_maximum(self) -> bool {
        self.body.velocity.0.within_box(self.parameters.max_linear_velocity)
    }

    /// A chaser at rest at the origin. Its body takes its maximum from the
    /// parameters and has no drag.
    pub fn new(parameters: SteeringParameters) -> (r: Chaser)
        ensures
            r.parameters == parameters,
            r.body == (Body {
                velocity_max: Some(VelocityMaximum(parameters.max_linear_velocity)),
                acceleration: Some(Acceleration(Vec2 { x: Fixed { raw: 0 }, y: Fixed { raw: 0 } })),
                ..Body::spec_at(Vec2 { x: Fixed { raw: 0 }, y: Fixed { raw: 0 } })
            }),
            parameters.wf() ==> r.wf(),
    {
        let origin = Vec2::zero();
        let rest = Body::at(origin);
        Chaser {
            body: Body {
                velocity_max: Some(VelocityMaximum(parameters.max_linear_velocity)),
                acceleration: Some(Acceleration(origin)),
                ..rest
            },
            parameters,
        }
    }

    /// The same chaser at `position`.
    pub fn with_position(self, position: Vec2) -> (r: Chaser)
        ensures
            r == (Chaser { body: Body { position, ..self.body }, ..self }),
    {
        Chaser { body: Body { position, ..self.body }, ..self }
    }

    /// Whether the body and the parameters are valid.
    pub fn is_valid(&self) -> (ok: bool)
        ensures
            ok == self.wf(),
    {
        self.body.is_valid() && self.parameters.is_valid()
    }

    /// Sets the acceleration of the chaser to the steering force on `target`.
    pub fn steer(self, policy: &SteeringPolicy, target: Vec2) -> (r: Chaser)
        requires
            policy.wf(),
        ensures
            r == self.spec_steered(*policy, target),
            r.force_within_cap(*policy),
    {
        let force = policy.force(&self.parameters, self.body.position, self.body.velocity.0, target);
        Chaser { body: Body { acceleration: Some(Acceleration(force)), ..self.body }, ..self }
    }

    /// Moves the body by one tick of the integrator and caps its velocity by
    /// the parameters.
    pub fn advance(self, dt: Fixed) -> (r: Chaser)
        requires
            self.wf(),
            dt@ >= 0,
        ensures
            r == self.spec_moved(dt),
            r.wf(),
            r.within_maximum(),
    {
        let body = self.body.step(dt);
        let capped = VelocityMaximum(self.parameters.max_linear_velocity).cap(body.velocity);
        Chaser { body: Body { velocity: capped, ..body }, ..self }
    }
}

/// Steers every chaser on `target`: sets the acceleration of each to its
/// steering force, which is within the cap of the policy on each axis.
pub fn update_chasers(chasers: &mut Vec<Chaser>, target: Vec2, policy: &SteeringPolicy)
    requires
        policy.wf(),
    ensures
        final(chasers)@.len() == old(chasers)@.len(),
        forall|i: int|
            0 <= i < old(chasers)@.len() ==> final(chasers)@[i] == old(chasers)@[i].spec_steered(
                *policy,
                target,
            ),
        forall|i: int|
            0 <= i < final(chasers)@.len() ==> (#[trigger] final(chasers)@[i]).force_within_cap(
                *policy,
            ),
{
    let ghost before = chasers@;
    let mut i: usize = 0;
    while i < chasers.len()
        invariant
            policy.wf(),
            chasers@.len() == before.len(),
            i <= chasers@.len(),
            forall|j: int| 0 <= j < i ==> chasers@[j] == before[j].spec_steered(*policy, target),
            forall|j: int| 0 <= j < i ==> (#[trigger] chasers@[j]).force_within_cap(*policy),
            forall|j: int| i <= j < chasers@.len() ==> chasers@[j] == before[j],
        decreases chasers@.len() - i,
    {
        let chaser = chasers[i];
        chasers.set(i, chaser.steer(policy, target));
        i += 1;
    }
}

/// The scene.
pub struct World {
    pub player: Body,
    pub chasers: Vec<Chaser>,
    pub policy: SteeringPolicy,
    pub controls: Controls,
}

/// The scene as a value: the chasers as a sequence.
pub struct Scene {
    pub player: Body,
    pub chasers: Seq<Chaser>,
    pub policy: SteeringPolicy,
    pub controls: Controls,
}

impl View for World {
    type V = Scene;

    open spec fn view(&self) -> Scene {
        Scene {
            player: self.player,
            chasers: self.chasers@,
            policy: self.policy,
            controls: self.controls,
        }
    }
}

impl Scene {
    /// The player, every chaser and the policy are valid.
    pub open spec fn wf(self) -> bool {
        &&& self.player.wf()
        &&& self.policy.wf()
        &&& forall|i: int| 0 <= i < self.chasers.len() ==> (#[trigger] self.chasers[i]).wf()
    }

    /// Every velocity is within its maximum.
    pub open spec fn within_maxima(self) -> bool {
        &&& self.player.within_maximum()
        &&& forall|i: int|
            0 <= i < self.chasers.len() ==> (#[trigger] self.chasers[i]).within_maximum()
    }

    /// The force on every chaser is within the cap of the policy.
    pub open spec fn forces_within_cap(self) -> bool {
        forall|i: int|
            0 <= i < self.chasers.len() ==> (#[trigger] self.chasers[i]).force_within_cap(
                self.policy,
            )
    }

    /// The scene after one tick with the directions `input` held for the
    /// time `dt`.
    pub open spec fn tick(self, input: DirectionalInput, dt: Fixed) -> Scene {
        let target = self.player.position;
        Scene {
            player: self.controls.spec_player_input(self.player, input).spec_step(dt),
            chasers: Seq::new(
                self.chasers.len(),
                |i: int| self.chasers[i].spec_steered(self.policy, target).spec_moved(dt),
            ),
            ..self
        }
    }

    /// The scene after one tick for each of `inputs`, in order.
    pub open spec fn run(self, inputs: Seq<DirectionalInput>, dt: Fixed) -> Scene
        decreases inputs.len(),
    {
        if inputs.len() == 0 {
            self
        } else {
            self.run(inputs.drop_last(), dt).tick(inputs.last(), dt)
        }
    }
}

impl World {
    /// A scene with the given player and no chasers yet.
    pub fn new(player: Body, policy: SteeringPolicy, controls: Controls) -> (r: World)
        ensures
            r@ == (Scene { player, chasers: Seq::empty(), policy, controls }),
    {
        World { player, chasers: Vec::new(), policy, controls }
    }

    /// Adds a chaser to the scene.
    pub fn spawn(&mut self, chaser: Chaser)
        ensures
            final(self)@ == (Scene { chasers: old(self)@.chasers.push(chaser), ..old(self)@ }),
    {
        self.chasers.push(chaser);
    }

    /// Whether the player, every chaser and the policy are valid.
    pub fn is_valid(&self) -> (ok: bool)
        ensures
            ok == self@.wf(),
    {
        if !self.player.is_valid() || !self.policy.is_valid() {
            return false;
        }
        let mut i: usize = 0;
        while i < self.chasers.len()
            invariant
                i <= self.chasers@.len(),
                forall|j: int| 0 <= j < i ==> (#[trigger] self.chasers@[j]).wf(),
            decreases self.chasers@.len() - i,
        {
            if !self.chasers[i].is_valid() {
                assert(!self@.chasers[i as int].wf());
                return false;
            }
            i += 1;
        }
        true
    }

    /// One tick: the input is mapped to the player's thrust, every chaser is
    /// steered on the place where the player stands, every body is moved
    /// and every velocity is capped. Afterwards every velocity is within its
    /// maximum and the force on every chaser is within the cap.
    pub fn tick(&mut self, input: DirectionalInput, dt: Fixed)
        requires
            old(self)@.wf(),
            dt@ >= 0,
        ensures
            final(self)@ == old(self)@.tick(input, dt),
            final(self)@.wf(),
            final(self)@.within_maxima(),
            final(self)@.forces_within_cap(),
    {
        let ghost before = self@;
        let target = self.player.position;
        player_input(&mut self.player, input, &self.controls);
        self.player = self.player.step(dt);
        update_chasers(&mut self.chasers, target, &self.policy);
        let mut i: usize = 0;
        while i < self.chasers.len()
            invariant
                dt@ >= 0,
                before.wf(),
                self.policy == before.policy,
                self.controls == before.controls,
                self.player == before.controls.spec_player_input(before.player, input).spec_step(dt),
                self.player.wf(),
                self.player.within_maximum(),
                self.chasers@.len() == before.chasers.len(),
                i <= self.chasers@.len(),
                forall|j: int|
                    0 <= j < i ==> self.chasers@[j] == before.chasers[j].spec_steered(
                        before.policy,
                        target,
                    ).spec_moved(dt),
                forall|j: int|
                    i <= j < self.chasers@.len() ==> self.chasers@[j]
                        == before.chasers[j].spec_steered(before.policy, target),
                forall|j: int|
                    0 <= j < self.chasers@.len() ==> (#[trigger] self.chasers@[j]).force_within_cap(
                        before.policy,
                    ),
                forall|j: int| 0 <= j < i ==> (#[trigger] self.chasers@[j]).wf(),
                forall|j: int| 0 <= j < i ==> (#[trigger] self.chasers@[j]).within_maximum(),
            decreases self.chasers@.len() - i,
        {
            let chaser = self.chasers[i];
            assert(before.chasers[i as int].wf());
            self.chasers.set(i, chaser.advance(dt));
            i += 1;
        }
        assert(self@.chasers =~= before.tick(input, dt).chasers);
    }

    /// One tick for each of `inputs`, in order.
    pub fn simulate(&mut self, inputs: &Vec<DirectionalInput>, dt: Fixed)
        requires
            old(self)@.wf(),
            dt@ >= 0,
        ensures
            final(self)@ == old(self)@.run(inputs@, dt),
            final(self)@.wf(),
            inputs@.len() > 0 ==> final(self)@.within_maxima(),
            inputs@.len() > 0 ==> final(self)@.forces_within_cap(),
    {
        let ghost before = self@;
        let mut i: usize = 0;
        assert(inputs@.take(0) =~= Seq::empty());
        while i < inputs.len()
            invariant
                dt@ >= 0,
                i <= inputs@.len(),
                self@ == before.run(inputs@.take(i as int), dt),
                self@.wf(),
                i > 0 ==> self@.within_maxima(),
                i > 0 ==> self@.forces_within_cap(),
            decreases inputs@.len() - i,
        {
            assert(inputs@.take(i + 1).drop_last() =~= inputs@.take(i as int));
            assert(inputs@.take(i + 1).last() == inputs@[i as int]);
            self.tick(inputs[i], dt);
            i += 1;
        }
        assert(inputs@.take(i as int) =~= inputs@);
    }
}

/// Equal scenes and equal inputs give equal runs: a trajectory is determined
/// by its first state, its inputs and the length of the tick.
pub proof fn lemma_run_is_determined(
    first: Scene,
    second: Scene,
    inputs: Seq<DirectionalInput>,
    again: Seq<DirectionalInput>,
    dt: Fixed,
)
    requires
        first.player == second.player,
        first.chasers =~= second.chasers,
        first.policy == second.policy,
        first.controls == second.controls,
        inputs =~= again,
    ensures
        first.run(inputs, dt) == second.run(again, dt),
{
}

/// A run over two stretches of input is the run over the second stretch
/// from where the first one ended.
pub proof fn lemma_run_continues(
    scene: Scene,
    earlier: Seq<DirectionalInput>,
    later: Seq<DirectionalInput>,
    dt: Fixed,
)
    ensures
        scene.run(earlier + later, dt) == scene.run(earlier, dt).run(later, dt),
    decreases later.len(),
{
    if later.len() == 0 {
        assert(earlier + later =~= earlier);
    } else {
        lemma_run_continues(scene, earlier, later.drop_last(), dt);
        assert((earlier + later).drop_last() =~= earlier + later.drop_last());
        assert((earlier + later).last() == later.last());
    }
}

} // verus!
