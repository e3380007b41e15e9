//! The explicit Euler integrator: the motion of bodies that no outside
//! physics engine moves.
//!
//! One tick runs four steps in a fixed order: drag, acceleration,
//! integration of the position, and the cap on the velocity. Each step is a
//! function of the body and the elapsed time alone, so equal states give
//! equal trajectories.

use vstd::prelude::*;
use vstd::arithmetic::div_mod::lemma_div_is_ordered_by_denominator;
use vstd::arithmetic::div_mod::lemma_div_multiples_vanish;
use crate::fixed::Fixed;
use crate::fixed::SCALE;
use crate::fixed::lemma_trunc_div_exact;
use crate::fixed::magnitude;
use crate::fixed::scaled_quotient;
use crate::vec2::Vec2;

verus! {

/// Linear velocity, in units per second.
#[derive(Clone, Copy, PartialEq, Eq, Structural, Debug)]
pub struct Velocity(pub Vec2);

/// Largest speed on each axis.
#[derive(Clone, Copy, PartialEq, Eq, Structural, Debug)]
pub struct VelocityMaximum(pub Vec2);

/// Acceleration, in units per second squared.
#[derive(Clone, Copy, PartialEq, Eq, Structural, Debug)]
pub struct Acceleration(pub Vec2);

/// Drag coefficients of a body: the one to use while nothing thrusts, and
/// the one in force now.
#[derive(Clone, Copy, PartialEq, Eq, Structural, Debug)]
pub struct Drag {
    pub recommend: Fixed,
    pub actual: Fixed,
}

impl VelocityMaximum {
    /// No maximum is negative.
    pub open spec fn wf(self) -> bool {
        self.0.x@ >= 0 && self.0.y@ >= 0
    }

    /// The velocity with each axis limited on its own to the maximum of
    /// that axis.
    pub open spec fn spec_cap(self, velocity: Velocity) -> Velocity
        recommends
            self.wf(),
    {
        Velocity(velocity.0.spec_clamp_box(self.0))
    }

    /// Whether no maximum is negative.
    pub fn is_valid(&self) -> (ok: bool)
        ensures
            ok == self.wf(),
    {
        self.0.x.raw >= 0 && self.0.y.raw >= 0
    }

    /// The maxima `x` and `y`, unless one of them is negative.
    pub fn new(x: Fixed, y: Fixed) -> (r: Option<VelocityMaximum>)
        ensures
            x@ >= 0 && y@ >= 0 ==> r == Some(VelocityMaximum(Vec2 { x, y })),
            x@ < 0 || y@ < 0 ==> r.is_none(),
    {
        if x.raw >= 0 && y.raw >= 0 {
            Some(VelocityMaximum(Vec2 { x, y }))
        } else {
            None
        }
    }

    /// Caps a velocity: each axis is limited on its own, so the result lies
    /// in a box, not in a circle.
    pub fn cap(&self, velocity: Velocity) -> (r: Velocity)
        requires
            self.wf(),
        ensures
            r == self.spec_cap(velocity),
            magnitude(r.0.x@) <= self.0.x@,
            magnitude(r.0.y@) <= self.0.y@,
            velocity.0.within_box(self.0) ==> r == velocity,
    {
        Velocity(velocity.0.clamp_box(self.0))
    }
}

impl Drag {
    /// No coefficient is negative.
    pub open spec fn wf(self) -> bool {
        self.recommend@ >= 0 && self.actual@ >= 0
    }

    /// The coefficients while thrust is on or off: drag is off while
    /// something thrusts, and back at the recommended value otherwise.
    pub open spec fn spec_with_thrust(self, thrusting: bool) -> Drag {
        Drag {
            recommend: self.recommend,
            actual: if thrusting {
                Fixed { raw: 0 }
            } else {
                self.recommend
            },
        }
    }

    /// What a velocity is divided by over the time `dt`: one plus the
    /// coefficient in force times `dt`.
    pub open spec fn divisor(self, dt: Fixed) -> Fixed {
        Fixed { raw: SCALE }.spec_add(self.actual.spec_mul(dt))
    }

    /// The velocity after drag has acted for the time `dt`.
    pub open spec fn spec_decay(self, velocity: Velocity, dt: Fixed) -> Velocity
        recommends
            self.wf(),
            dt@ >= 0,
    {
        Velocity(
            Vec2 {
                x: velocity.0.x.spec_div(self.divisor(dt)),
                y: velocity.0.y.spec_div(self.divisor(dt)),
            },
        )
    }

    /// Whether no coefficient is negative.
    pub fn is_valid(&self) -> (ok: bool)
        ensures
            ok == self.wf(),
    {
        self.recommend.raw >= 0 && self.actual.raw >= 0
    }

    /// Drag with the recommended coefficient in force, unless it is negative.
    pub fn new(recommend: Fixed) -> (r: Option<Drag>)
        ensures
            recommend@ >= 0 ==> r == Some(Drag { recommend, actual: recommend }),
            recommend@ < 0 ==> r.is_none(),
    {
        if recommend.raw >= 0 {
            Some(Drag { recommend, actual: recommend })
        } else {
            None
        }
    }

    /// The coefficients while thrust is on or off.
    pub fn with_thrust(self, thrusting: bool) -> (r: Drag)
        ensures
            r == self.spec_with_thrust(thrusting),
            self.wf() ==> r.wf(),
    {
        Drag {
            recommend: self.recommend,
            actual: if thrusting {
                Fixed { raw: 0 }
            } else {
                self.recommend
            },
        }
    }

    /// The velocity after drag has acted for the time `dt`: each axis is
    /// divided by one plus the coefficient times `dt`.
    pub fn decay(&self, velocity: Velocity, dt: Fixed) -> (r: Velocity)
        requires
            self.wf(),
            dt@ >= 0,
        ensures
            r == self.spec_decay(velocity, dt),
            magnitude(r.0.x@) <= magnitude(velocity.0.x@),
            magnitude(r.0.y@) <= magnitude(velocity.0.y@),
            self.actual@ == 0 ==> r == velocity,
    {
        proof {
            lemma_decay_never_speeds_up(*self, velocity, dt);
            if self.actual@ == 0 {
                lemma_zero_drag_keeps_velocity(*self, velocity, dt);
            }
        }
        let divisor = Fixed { raw: SCALE }.saturating_add(self.actual.saturating_mul(dt));
        Velocity(
            Vec2 { x: velocity.0.x.saturating_div(divisor), y: velocity.0.y.saturating_div(divisor) },
        )
    }
}

/// A body that the integrator moves. A body without acceleration, maximum
/// or drag skips the step that reads it.
#[derive(Clone, Copy, PartialEq, Eq, Debug)]
pub struct Body {
    pub position: Vec2,
    pub velocity: Velocity,
    pub acceleration: Option<Acceleration>,
    pub velocity_max: Option<VelocityMaximum>,
    pub drag: Option<Drag>,
}

impl Body {
    /// The maximum and the drag, where the body has them, are valid.
    pub open spec fn wf(self) -> bool {
        &&& self.velocity_max matches Some(maximum) ==> maximum.wf()
        &&& self.drag matches Some(drag) ==> drag.wf()
    }

    /// The body after the drag step: its velocity decayed, if it has drag.
    pub open spec fn spec_step_drag(self, dt: Fixed) -> Body {
        match self.drag {
            Some(drag) => Body { velocity: drag.spec_decay(self.velocity, dt), ..self },
            None => self,
        }
    }

    /// The body after the acceleration step: if it has an acceleration, its
    /// velocity plus the acceleration times `dt`, capped if it has a maximum.
    pub open spec fn spec_step_acceleration(self, dt: Fixed) -> Body {
        match self.acceleration {
            Some(acceleration) => {
                let faster = Velocity(self.velocity.0.spec_add(acceleration.0.spec_scale(dt)));
                match self.velocity_max {
                    Some(maximum) => Body { velocity: maximum.spec_cap(faster), ..self },
                    None => Body { velocity: faster, ..self },
                }
            },
            None => self,
        }
    }

    /// The body after the integration step: its position plus its velocity
    /// times `dt`.
    pub open spec fn spec_step_position(self, dt: Fixed) -> Body {
        Body { position: self.position.spec_add(self.velocity.0.spec_scale(dt)), ..self }
    }

    /// The body after the capping step: its velocity capped, if it has a
    /// maximum.
    pub open spec fn spec_step_cap(self) -> Body {
        match self.velocity_max {
            Some(maximum) => Body { velocity: maximum.spec_cap(self.velocity), ..self },
            None => self,
        }
    }

    /// The body after one tick: drag, then acceleration, then integration,
    /// then the cap.
    pub open spec fn spec_step(self, dt: Fixed) -> Body {
        self.spec_step_drag(dt).spec_step_acceleration(dt).spec_step_position(dt).spec_step_cap()
    }

    /// The velocity is within the maximum, if the body has one.
    pub open spec fn within_maximum(self) -> bool {
        self.velocity_max matches Some(maximum) ==> self.velocity.0.within_box(maximum.0)
    }

    /// A body at rest at `position`, with nothing that acts on it.
    pub open spec fn spec_at(position: Vec2) -> Body {
        Body {
            position,
            velocity: Velocity(Vec2 { x: Fixed { raw: 0 }, y: Fixed { raw: 0 } }),
            acceleration: None,
            velocity_max: None,
            drag: None,
        }
    }

    /// A body at rest at `position`, with nothing that acts on it.
    pub fn at(position: Vec2) -> (r: Body)
        ensures
            r == Body::spec_at(position),
            r.wf(),
    {
        Body {
            position,
            velocity: Velocity(Vec2 { x: Fixed { raw: 0 }, y: Fixed { raw: 0 } }),
            acceleration: None,
            velocity_max: None,
            drag: None,
        }
    }

    /// Whether the maximum and the drag, where the body has them, are valid.
    pub fn is_valid(&self) -> (ok: bool)
        ensures
            ok == self.wf(),
    {
        let maximum_ok = match self.velocity_max {
            Some(maximum) => maximum.is_valid(),
            None => true,
        };
        let drag_ok = match self.drag {
            Some(drag) => drag.is_valid(),
            None => true,
        };
        maximum_ok && drag_ok
    }

    /// The drag step of one body.
    pub fn step_drag(self, dt: Fixed) -> (r: Body)
        requires
            self.wf(),
            dt@ >= 0,
        ensures
            r == self.spec_step_drag(dt),
    {
        match self.drag {
            Some(drag) => Body { velocity: drag.decay(self.velocity, dt), ..self },
            None => self,
        }
    }

    /// The acceleration step of one body.
    pub fn step_acceleration(self, dt: Fixed) -> (r: Body)
        requires
            self.wf(),
        ensures
            r == self.spec_step_acceleration(dt),
    {
        match self.acceleration {
            Some(acceleration) => {
                let faster = Velocity(self.velocity.0.saturating_add(acceleration.0.scale(dt)));
                match self.velocity_max {
                    Some(maximum) => Body { velocity: maximum.cap(faster), ..self },
                    None => Body { velocity: faster, ..self },
                }
            },
            None => self,
        }
    }

    /// The integration step of one body.
    pub fn step_position(self, dt: Fixed) -> (r: Body)
        ensures
            r == self.spec_step_position(dt),
    {
        Body { position: self.position.saturating_add(self.velocity.0.scale(dt)), ..self }
    }

    /// The capping step of one body.
    pub fn step_cap(self) -> (r: Body)
        requires
            self.wf(),
        ensures
            r == self.spec_step_cap(),
            r.within_maximum(),
    {
        match self.velocity_max {
            Some(maximum) => Body { velocity: maximum.cap(self.velocity), ..self },
            None => self,
        }
    }

    /// One tick of one body: drag, then acceleration, then integration, then
    /// the cap. Afterwards the velocity is within the maximum.
    pub fn step(self, dt: Fixed) -> (r: Body)
        requires
            self.wf(),
            dt@ >= 0,
        ensures
            r == self.spec_step(dt),
            r.wf(),
            r.within_maximum(),
    {
        self.step_drag(dt).step_acceleration(dt).step_position(dt).step_cap()
    }
}

/// Whether every body is valid: what the systems below ask of their bodies.
pub fn all_valid(bodies: &Vec<Body>) -> (ok: bool)
    ensures
        ok == forall|i: int| 0 <= i < bodies@.len() ==> (#[trigger] bodies@[i]).wf(),
{
    let mut i: usize = 0;
    while i < bodies.len()
        invariant
            i <= bodies@.len(),
            forall|j: int| 0 <= j < i ==> (#[trigger] bodies@[j]).wf(),
        decreases bodies@.len() - i,
    {
        if !bodies[i].is_valid() {
            assert(!bodies@[i as int].wf());
            return false;
        }
        i += 1;
    }
    true
}

/// Moves every body by its velocity times `dt`.
pub fn apply_velocity(bodies: &mut Vec<Body>, dt: Fixed)
    ensures
        final(bodies)@.len() == old(bodies)@.len(),
        forall|i: int|
            0 <= i < old(bodies)@.len() ==> final(bodies)@[i] == old(bodies)@[i].spec_step_position(
                dt,
            ),
{
    let ghost before = bodies@;
    let mut i: usize = 0;
    while i < bodies.len()
        invariant
            bodies@.len() == before.len(),
            i <= bodies@.len(),
            forall|j: int| 0 <= j < i ==> bodies@[j] == before[j].spec_step_position(dt),
            forall|j: int| i <= j < bodies@.len() ==> bodies@[j] == before[j],
        decreases bodies@.len() - i,
    {
        let body = bodies[i];
        bodies.set(i, body.step_position(dt));
        i += 1;
    }
}

/// Lets drag act for the time `dt` on every body that has drag.
pub fn apply_drag(bodies: &mut Vec<Body>, dt: Fixed)
    requires
        forall|i: int| 0 <= i < old(bodies)@.len() ==> old(bodies)@[i].wf(),
        dt@ >= 0,
    ensures
        final(bodies)@.len() == old(bodies)@.len(),
        forall|i: int|
            0 <= i < old(bodies)@.len() ==> final(bodies)@[i] == old(bodies)@[i].spec_step_drag(dt),
{
    let ghost before = bodies@;
    let mut i: usize = 0;
    while i < bodies.len()
        invariant
            bodies@.len() == before.len(),
            i <= bodies@.len(),
            dt@ >= 0,
            forall|j: int| 0 <= j < before.len() ==> before[j].wf(),
            forall|j: int| 0 <= j < i ==> bodies@[j] == before[j].spec_step_drag(dt),
            forall|j: int| i <= j < bodies@.len() ==> bodies@[j] == before[j],
        decreases bodies@.len() - i,
    {
        let body = bodies[i];
        bodies.set(i, body.step_drag(dt));
        i += 1;
    }
}

/// Adds to the velocity of every body that has an acceleration the
/// acceleration times `dt`, and caps the sum where the body has a maximum.
pub fn apply_acceleration(bodies: &mut Vec<Body>, dt: Fixed)
    requires
        forall|i: int| 0 <= i < old(bodies)@.len() ==> old(bodies)@[i].wf(),
    ensures
        final(bodies)@.len() == old(bodies)@.len(),
        forall|i: int|
            0 <= i < old(bodies)@.len() ==> final(bodies)@[i]
                == old(bodies)@[i].spec_step_acceleration(dt),
{
    let ghost before = bodies@;
    let mut i: usize = 0;
    while i < bodies.len()
        invariant
            bodies@.len() == before.len(),
            i <= bodies@.len(),
            forall|j: int| 0 <= j < before.len() ==> before[j].wf(),
            forall|j: int| 0 <= j < i ==> bodies@[j] == before[j].spec_step_acceleration(dt),
            forall|j: int| i <= j < bodies@.len() ==> bodies@[j] == before[j],
        decreases bodies@.len() - i,
    {
        let body = bodies[i];
        bodies.set(i, body.step_acceleration(dt));
        i += 1;
    }
}

/// Caps the velocity of every body that has a maximum.
pub fn enforce_velocity_maximum(bodies: &mut Vec<Body>)
    requires
        forall|i: int| 0 <= i < old(bodies)@.len() ==> old(bodies)@[i].wf(),
    ensures
        final(bodies)@.len() == old(bodies)@.len(),
        forall|i: int|
            0 <= i < old(bodies)@.len() ==> final(bodies)@[i] == old(bodies)@[i].spec_step_cap(),
        forall|i: int| 0 <= i < final(bodies)@.len() ==> final(bodies)@[i].within_maximum(),
{
    let ghost before = bodies@;
    let mut i: usize = 0;
    while i < bodies.len()
        invariant
            bodies@.len() == before.len(),
            i <= bodies@.len(),
            forall|j: int| 0 <= j < before.len() ==> before[j].wf(),
            forall|j: int| 0 <= j < i ==> bodies@[j] == before[j].spec_step_cap(),
            forall|j: int| 0 <= j < i ==> bodies@[j].within_maximum(),
            forall|j: int| i <= j < bodies@.len() ==> bodies@[j] == before[j],
        decreases bodies@.len() - i,
    {
        let body = bodies[i];
        bodies.set(i, body.step_cap());
        i += 1;
    }
}

/// One tick of every body: drag, then acceleration, then integration, then
/// the cap, each step on all bodies before the next. Afterwards every
/// velocity is within its maximum.
pub fn tick(bodies: &mut Vec<Body>, dt: Fixed)
    requires
        forall|i: int| 0 <= i < old(bodies)@.len() ==> old(bodies)@[i].wf(),
        dt@ >= 0,
    ensures
        final(bodies)@.len() == old(bodies)@.len(),
        forall|i: int|
            0 <= i < old(bodies)@.len() ==> final(bodies)@[i] == old(bodies)@[i].spec_step(dt),
        forall|i: int| 0 <= i < final(bodies)@.len() ==> final(bodies)@[i].wf(),
        forall|i: int| 0 <= i < final(bodies)@.len() ==> final(bodies)@[i].within_maximum(),
{
    apply_drag(bodies, dt);
    apply_acceleration(bodies, dt);
    apply_velocity(bodies, dt);
    enforce_velocity_maximum(bodies);
}

/// The divisor of a valid drag over a time that is not negative is at least one.
pub proof fn lemma_divisor_at_least_one(drag: Drag, dt: Fixed)
    requires
        drag.wf(),
        dt@ >= 0,
    ensures
        drag.divisor(dt)@ >= SCALE,
{
    assert(drag.actual@ * dt@ >= 0) by (nonlinear_arith)
        requires
            drag.actual@ >= 0,
            dt@ >= 0,
    ;
    vstd::arithmetic::div_mod::lemma_div_pos_is_pos(drag.actual@ * dt@, SCALE as int);
}

/// A raw value divided by a divisor of at least one does not grow, and
/// divided by exactly one it stays.
pub proof fn lemma_quotient_shrinks(value: int, divisor: int)
    requires
        divisor >= SCALE,
    ensures
        magnitude(scaled_quotient(value, divisor)) <= magnitude(value),
        divisor == SCALE ==> scaled_quotient(value, divisor) == value,
{
    let m = magnitude(value);
    assert(magnitude(value * SCALE) == m * SCALE) by (nonlinear_arith)
        requires
            m == magnitude(value),
    ;
    assert(m * SCALE >= 0) by (nonlinear_arith)
        requires
            m >= 0,
    ;
    lemma_div_is_ordered_by_denominator(m * SCALE, SCALE as int, divisor);
    lemma_div_multiples_vanish(m, SCALE as int);
    assert(SCALE * m == m * SCALE) by (nonlinear_arith);
    vstd::arithmetic::div_mod::lemma_div_pos_is_pos(m * SCALE, divisor);
    if divisor == SCALE {
        lemma_trunc_div_exact(value, SCALE as int);
    }
}

/// Drag never speeds a body up on any axis.
pub proof fn lemma_decay_never_speeds_up(drag: Drag, velocity: Velocity, dt: Fixed)
    requires
        drag.wf(),
        dt@ >= 0,
    ensures
        magnitude(drag.spec_decay(velocity, dt).0.x@) <= magnitude(velocity.0.x@),
        magnitude(drag.spec_decay(velocity, dt).0.y@) <= magnitude(velocity.0.y@),
{
    lemma_divisor_at_least_one(drag, dt);
    lemma_quotient_shrinks(velocity.0.x@, drag.divisor(dt)@);
    lemma_quotient_shrinks(velocity.0.y@, drag.divisor(dt)@);
}

/// With a drag coefficient of zero, drag leaves the velocity as it is,
/// whatever time elapses.
pub proof fn lemma_zero_drag_keeps_velocity(drag: Drag, velocity: Velocity, dt: Fixed)
    requires
        drag.actual@ == 0,
    ensures
        drag.spec_decay(velocity, dt) == velocity,
{
    assert(drag.actual@ * dt@ == 0) by (nonlinear_arith)
        requires
            drag.actual@ == 0,
    ;
    assert(drag.divisor(dt)@ == SCALE);
    lemma_quotient_shrinks(velocity.0.x@, SCALE as int);
    lemma_quotient_shrinks(velocity.0.y@, SCALE as int);
}

/// A body that coasts keeps its velocity over a tick: with no drag in
/// force and no acceleration, a velocity that is within the maximum is the
/// same after the tick, whatever time elapses.
pub proof fn lemma_coasting_keeps_velocity(body: Body, dt: Fixed)
    requires
        body.drag matches Some(drag) ==> drag.actual@ == 0,
        body.acceleration matches Some(acceleration) ==> acceleration.0@ == (0int, 0int),
        body.within_maximum(),
    ensures
        body.spec_step(dt).velocity == body.velocity,
{
    if let Some(drag) = body.drag {
        lemma_zero_drag_keeps_velocity(drag, body.velocity, dt);
    }
    assert(body.spec_step_drag(dt).velocity == body.velocity);
    if let Some(acceleration) = body.acceleration {
        assert(acceleration.0.x@ * dt@ == 0 && acceleration.0.y@ * dt@ == 0) by (nonlinear_arith)
            requires
                acceleration.0.x@ == 0,
                acceleration.0.y@ == 0,
        ;
        assert(acceleration.0.spec_scale(dt)@ == (0int, 0int));
    }
    assert(body.spec_step_drag(dt).spec_step_acceleration(dt).velocity == body.velocity);
}

} // verus!
