//! The classical fourth-order Runge-Kutta scheme for a pair of coupled
//! first-order equations: position changes by velocity, velocity by
//! acceleration.

use crate::scalar::lawful;
use crate::scalar::literal;
use crate::scalar::Scalar;
use crate::vector::scale;
use crate::vector::scale_req;
use crate::vector::scale_spec;
use crate::vector::Vector3;
use vstd::prelude::*;
use vstd::std_specs::ops::AddSpec;
use vstd::std_specs::ops::DivSpec;
use vstd::std_specs::ops::MulSpec;

verus! {

/// The operands of every operator in [`half_step`] are admitted.
pub open spec fn half_step_req<T: Scalar>(dt: T, x: Vector3<T>, dx: Vector3<T>) -> bool {
    &&& dx.mul_req(dt)
    &&& dx.mul_spec(dt).div_req(literal::<T>(2))
    &&& x.add_req(dx.mul_spec(dt).div_spec(literal::<T>(2)))
}

/// `x + dx * dt / 2`: the state half a step ahead along the slope `dx`.
pub open spec fn half_step<T: Scalar>(dt: T, x: Vector3<T>, dx: Vector3<T>) -> Vector3<T> {
    x.add_spec(dx.mul_spec(dt).div_spec(literal::<T>(2)))
}

/// The operands of every operator in [`full_step`] are admitted.
pub open spec fn full_step_req<T: Scalar>(dt: T, x: Vector3<T>, dx: Vector3<T>) -> bool {
    &&& dx.mul_req(dt)
    &&& x.add_req(dx.mul_spec(dt))
}

/// `x + dx * dt`: the state a whole step ahead along the slope `dx`.
pub open spec fn full_step<T: Scalar>(dt: T, x: Vector3<T>, dx: Vector3<T>) -> Vector3<T> {
    x.add_spec(dx.mul_spec(dt))
}

/// The operands of every operator in [`weighted_sum`] are admitted.
pub open spec fn weighted_sum_req<T: Scalar>(
    dt: T,
    x1: Vector3<T>,
    x2: Vector3<T>,
    x3: Vector3<T>,
    x4: Vector3<T>,
) -> bool {
    let two = literal::<T>(2);
    let six = literal::<T>(6);
    let d2 = scale_spec(two, x2);
    let d3 = scale_spec(two, x3);
    &&& dt.div_req(six)
    &&& scale_req(two, x2)
    &&& x1.add_req(d2)
    &&& scale_req(two, x3)
    &&& x1.add_spec(d2).add_req(d3)
    &&& x1.add_spec(d2).add_spec(d3).add_req(x4)
    &&& scale_req(dt.div_spec(six), x1.add_spec(d2).add_spec(d3).add_spec(x4))
}

/// `dt / 6 * (x1 + 2 * x2 + 2 * x3 + x4)`: the increment over one step from
/// the four slopes, summed from the left.
pub open spec fn weighted_sum<T: Scalar>(
    dt: T,
    x1: Vector3<T>,
    x2: Vector3<T>,
    x3: Vector3<T>,
    x4: Vector3<T>,
) -> Vector3<T> {
    let two = literal::<T>(2);
    let six = literal::<T>(6);
    scale_spec(
        dt.div_spec(six),
        x1.add_spec(scale_spec(two, x2)).add_spec(scale_spec(two, x3)).add_spec(x4),
    )
}

/// The slopes and intermediate states of one step of a system, in the order
/// in which the scheme computes them.
pub struct Stages<T> {
    /// Velocity and acceleration at the start of the step.
    pub v1: Vector3<T>,
    pub a1: Vector3<T>,
    /// Position and velocity half a step ahead along the first slopes.
    pub x1: Vector3<T>,
    pub u1: Vector3<T>,
    /// Velocity and acceleration there, at mid-step.
    pub v2: Vector3<T>,
    pub a2: Vector3<T>,
    /// Position and velocity half a step ahead along the second slopes.
    pub x2: Vector3<T>,
    pub u2: Vector3<T>,
    /// Velocity and acceleration there, at mid-step.
    pub v3: Vector3<T>,
    pub a3: Vector3<T>,
    /// Position and velocity a whole step ahead along the third slopes.
    pub x3: Vector3<T>,
    pub u3: Vector3<T>,
    /// Velocity and acceleration there, at the end of the step.
    pub v4: Vector3<T>,
    pub a4: Vector3<T>,
}

/// What the scheme integrates: a step size, the position and the velocity
/// that a step starts from, and the two rate functions with the arguments
/// that each admits.
#[verifier::reject_recursive_types(T)]
pub struct System<T> {
    /// The step size.
    pub dt: T,
    pub position: Vector3<T>,
    pub velocity: Vector3<T>,
    /// The rate of change of position at a time, a position and a velocity.
    pub velocity_at: spec_fn(T, Vector3<T>, Vector3<T>) -> Vector3<T>,
    /// The arguments for which that rate can be computed.
    pub velocity_req: spec_fn(T, Vector3<T>, Vector3<T>) -> bool,
    /// The rate of change of velocity at a time, a position and a velocity.
    pub accel_at: spec_fn(T, Vector3<T>, Vector3<T>) -> Vector3<T>,
    /// The arguments for which that rate can be computed.
    pub accel_req: spec_fn(T, Vector3<T>, Vector3<T>) -> bool,
}

impl<T: Scalar> System<T> {
    /// The slopes and intermediate states of the step from time `t`.
    pub open spec fn stages(self, t: T) -> Stages<T> {
        let dt = self.dt;
        let x = self.position;
        let u = self.velocity;
        let t_mid = t.add_spec(dt.div_spec(literal::<T>(2)));
        let t_end = t.add_spec(dt);
        let v1 = (self.velocity_at)(t, x, u);
        let a1 = (self.accel_at)(t, x, u);
        let x1 = half_step(dt, x, v1);
        let u1 = half_step(dt, u, a1);
        let v2 = (self.velocity_at)(t_mid, x1, u1);
        let a2 = (self.accel_at)(t_mid, x1, u1);
        let x2 = half_step(dt, x, v2);
        let u2 = half_step(dt, u, a2);
        let v3 = (self.velocity_at)(t_mid, x2, u2);
        let a3 = (self.accel_at)(t_mid, x2, u2);
        let x3 = full_step(dt, x, v3);
        let u3 = full_step(dt, u, a3);
        let v4 = (self.velocity_at)(t_end, x3, u3);
        let a4 = (self.accel_at)(t_end, x3, u3);
        Stages { v1, a1, x1, u1, v2, a2, x2, u2, v3, a3, x3, u3, v4, a4 }
    }

    /// The increments of position and of velocity over the step from time
    /// `t`.
    pub open spec fn rk4(self, t: T) -> (Vector3<T>, Vector3<T>) {
        let k = self.stages(t);
        (
            weighted_sum(self.dt, k.v1, k.v2, k.v3, k.v4),
            weighted_sum(self.dt, k.a1, k.a2, k.a3, k.a4),
        )
    }

    /// Every operation of the step from time `t` is admitted: the two rate
    /// functions at each of the four points, and the operands of each
    /// operator on the way.
    pub open spec fn rk4_req(self, t: T) -> bool {
        let dt = self.dt;
        let x = self.position;
        let u = self.velocity;
        let two = literal::<T>(2);
        let t_mid = t.add_spec(dt.div_spec(two));
        let t_end = t.add_spec(dt);
        let k = self.stages(t);
        &&& (self.velocity_req)(t, x, u)
        &&& (self.accel_req)(t, x, u)
        &&& half_step_req(dt, x, k.v1)
        &&& half_step_req(dt, u, k.a1)
        &&& dt.div_req(two)
        &&& t.add_req(dt.div_spec(two))
        &&& (self.velocity_req)(t_mid, k.x1, k.u1)
        &&& (self.accel_req)(t_mid, k.x1, k.u1)
        &&& half_step_req(dt, x, k.v2)
        &&& half_step_req(dt, u, k.a2)
        &&& (self.velocity_req)(t_mid, k.x2, k.u2)
        &&& (self.accel_req)(t_mid, k.x2, k.u2)
        &&& full_step_req(dt, x, k.v3)
        &&& full_step_req(dt, u, k.a3)
        &&& t.add_req(dt)
        &&& (self.velocity_req)(t_end, k.x3, k.u3)
        &&& (self.accel_req)(t_end, k.x3, k.u3)
        &&& weighted_sum_req(dt, k.v1, k.v2, k.v3, k.v4)
        &&& weighted_sum_req(dt, k.a1, k.a2, k.a3, k.a4)
    }
}

/// A state that the scheme can advance: it stands for a [`System`] and keeps
/// the increments of its last step.
///
/// An implementor says in `system` and `increments` what it stands for, and
/// the contracts of the three methods it writes are stated over the two.
/// Where it leaves them out, it stands for an unknown system, of which
/// nothing can be proved.
pub trait RungeKutta4th<T: Scalar> {
    /// The system that the state stands for.
    open spec fn system(&self) -> System<T> {
        arbitrary()
    }

    /// The increments of position and of velocity that the last step stored.
    open spec fn increments(&self) -> (Vector3<T>, Vector3<T>) {
        arbitrary()
    }

    /// Advances one step from time `t`: stores the increments of the scheme
    /// and leaves the system as it was.
    fn time_evolution_core(&mut self, t: T)
        requires
            lawful::<T>(),
            old(self).system().rk4_req(t),
        ensures
            final(self).increments() == old(self).system().rk4(t),
            final(self).system() == old(self).system(),
    ;

    /// The rate of change of position.
    fn to_velocity(&self, time: T, position: &Vector3<T>, velocity: &Vector3<T>) -> (r: Vector3<T>)
        requires
            lawful::<T>(),
            (self.system().velocity_req)(time, *position, *velocity),
        ensures
            r == (self.system().velocity_at)(time, *position, *velocity),
    ;

    /// The rate of change of velocity.
    fn to_accel(&self, time: T, position: &Vector3<T>, velocity: &Vector3<T>) -> (r: Vector3<T>)
        requires
            lawful::<T>(),
            (self.system().accel_req)(time, *position, *velocity),
        ensures
            r == (self.system().accel_at)(time, *position, *velocity),
    ;

    /// The state for the second evaluation: `x + dx * dt / 2`.
    fn step1st(dt: T, x: &Vector3<T>, dx: &Vector3<T>) -> (r: Vector3<T>)
        requires
            lawful::<T>(),
            half_step_req(dt, *x, *dx),
        ensures
            r == half_step(dt, *x, *dx),
    {
        x + dx * dt / T::from(2i8)
    }

    /// The state for the third evaluation: `x + dx * dt / 2`.
    fn step2nd(dt: T, x: &Vector3<T>, dx: &Vector3<T>) -> (r: Vector3<T>)
        requires
            lawful::<T>(),
            half_step_req(dt, *x, *dx),
        ensures
            r == half_step(dt, *x, *dx),
    {
        x + dx * dt / T::from(2i8)
    }

    /// The state for the fourth evaluation: `x + dx * dt`.
    fn step3rd(dt: T, x: &Vector3<T>, dx: &Vector3<T>) -> (r: Vector3<T>)
        requires
            lawful::<T>(),
            full_step_req(dt, *x, *dx),
        ensures
            r == full_step(dt, *x, *dx),
    {
        x + dx * dt
    }

    /// The increment over the step: `dt / 6 * (x1 + 2 * x2 + 2 * x3 + x4)`.
    fn step4th(dt: T, x1: &Vector3<T>, x2: &Vector3<T>, x3: &Vector3<T>, x4: &Vector3<T>) -> (r:
        Vector3<T>)
        requires
            lawful::<T>(),
            weighted_sum_req(dt, *x1, *x2, *x3, *x4),
        ensures
            r == weighted_sum(dt, *x1, *x2, *x3, *x4),
    {
        scale(dt / T::from(6i8), &(x1 + scale(T::from(2i8), x2) + scale(T::from(2i8), x3) + x4))
    }
}

/// A step can be repeated. Where `s1` is what a step from time `t` left of
/// `s0`, a second step from the same time, with no increments applied in
/// between, is admitted if the first was and computes the same increments.
pub proof fn lemma_step_repeatable<T: Scalar, S: RungeKutta4th<T>>(s0: S, s1: S, t: T)
    requires
        s1.increments() == s0.system().rk4(t),
        s1.system() == s0.system(),
    ensures
        s1.system().rk4_req(t) == s0.system().rk4_req(t),
        s1.system().rk4(t) == s1.increments(),
{
}

} // verus!
