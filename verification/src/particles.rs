//! A point mass in a uniform field along the z axis.

use crate::rk4th::RungeKutta4th;
use crate::rk4th::System;
use crate::scalar::lawful;
use crate::scalar::literal;
use crate::scalar::Scalar;
use crate::vector::Vector3;
use vstd::prelude::*;
use vstd::std_specs::convert::FromSpec;
use vstd::std_specs::ops::AddSpec;

verus! {

/// One simulated point mass.
///
/// `delta_time`, `weight` and `gravity` are set once, at construction.
/// `position` and `velocity` are the state at the current time. A step
/// stores its increments in `delta_position` and `delta_velocity` and leaves
/// the state alone; [`Particle::commit`] adds them to the state.
///
/// The field acts on the velocity directly, whatever the mass: `weight` is
/// carried along and enters no formula.
#[derive(Debug)]
pub struct Particle<T> {
    pub delta_time: T,
    pub weight: T,
    pub gravity: T,
    pub position: Vector3<T>,
    pub velocity: Vector3<T>,
    pub delta_position: Vector3<T>,
    pub delta_velocity: Vector3<T>,
}

impl<T: Scalar> Particle<T> {
    /// The particle at rest at the origin, with no increments stored.
    pub open spec fn new_spec(delta_time: T, weight: T, gravity: T) -> Self {
        Particle {
            delta_time,
            weight,
            gravity,
            position: Vector3::zeros_spec(),
            velocity: Vector3::zeros_spec(),
            delta_position: Vector3::zeros_spec(),
            delta_velocity: Vector3::zeros_spec(),
        }
    }

    /// The particle after a step from time `t`: the increments of the scheme
    /// are stored, and nothing else has changed.
    pub open spec fn evolved(self, t: T) -> Self {
        let (delta_position, delta_velocity) = self.system().rk4(t);
        Particle { delta_position, delta_velocity, ..self }
    }

    /// The two sums of [`Self::committed`] are admitted.
    pub open spec fn commit_req(self) -> bool {
        &&& self.position.add_req(self.delta_position)
        &&& self.velocity.add_req(self.delta_velocity)
    }

    /// The particle with the stored increments added to its state.
    pub open spec fn committed(self) -> Self {
        Particle {
            position: self.position.add_spec(self.delta_position),
            velocity: self.velocity.add_spec(self.delta_velocity),
            ..self
        }
    }

    /// Every step and every sum of [`Self::run`] is admitted.
    pub open spec fn run_req(self, times: Seq<T>) -> bool
        decreases times.len(),
    {
        times.len() > 0 ==> {
            let before = self.run(times.drop_last());
            &&& self.run_req(times.drop_last())
            &&& before.system().rk4_req(times.last())
            &&& before.evolved(times.last()).commit_req()
        }
    }

    /// The particle after one step from each of `times` in turn, each step
    /// followed by adding its increments to the state.
    pub open spec fn run(self, times: Seq<T>) -> Self
        decreases times.len(),
    {
        if times.len() == 0 {
            self
        } else {
            self.run(times.drop_last()).evolved(times.last()).committed()
        }
    }

    /// A step leaves what it started from alone, so a second step from the
    /// same time is admitted if the first was and changes nothing more.
    pub proof fn lemma_evolved_twice(self, t: T)
        ensures
            self.evolved(t).system().rk4_req(t) == self.system().rk4_req(t),
            self.evolved(t).evolved(t) == self.evolved(t),
    {
    }

    pub fn new(delta_time: T, weight: T, gravity: T) -> (p: Self)
        ensures
            T::obeys_from_spec() ==> p == Self::new_spec(delta_time, weight, gravity),
            p.delta_time == delta_time,
            p.weight == weight,
            p.gravity == gravity,
    {
        Self {
            delta_time: delta_time,
            weight: weight,
            gravity: gravity,
            position: Vector3::zeros(),
            velocity: Vector3::zeros(),
            delta_position: Vector3::zeros(),
            delta_velocity: Vector3::zeros(),
        }
    }

    /// Advances one step from `time`: stores the increments of position and
    /// of velocity, and does not apply them.
    pub fn time_evolution(&mut self, time: T)
        requires
            lawful::<T>(),
            old(self).system().rk4_req(time),
        ensures
            *final(self) == old(self).evolved(time),
    {
        self.time_evolution_core(time);
    }

    /// Adds the stored increments to position and velocity.
    pub fn commit(&mut self)
        requires
            lawful::<T>(),
            old(self).commit_req(),
        ensures
            *final(self) == old(self).committed(),
    {
        self.position = self.position + self.delta_position;
        self.velocity = self.velocity + self.delta_velocity;
    }
}

impl<T: Scalar> RungeKutta4th<T> for Particle<T> {
    /// Position changes by the velocity itself. Velocity changes by
    /// `gravity` along z, wherever and however fast the particle is. Both
    /// rates can be computed for every argument.
    open spec fn system(&self) -> System<T> {
        System {
            dt: self.delta_time,
            position: self.position,
            velocity: self.velocity,
            velocity_at: |time: T, position: Vector3<T>, velocity: Vector3<T>| velocity,
            velocity_req: |time: T, position: Vector3<T>, velocity: Vector3<T>| true,
            accel_at: |time: T, position: Vector3<T>, velocity: Vector3<T>|
                Vector3 { x: literal::<T>(0), y: literal::<T>(0), z: self.gravity },
            accel_req: |time: T, position: Vector3<T>, velocity: Vector3<T>| true,
        }
    }

    open spec fn increments(&self) -> (Vector3<T>, Vector3<T>) {
        (self.delta_position, self.delta_velocity)
    }

    fn time_evolution_core(&mut self, t: T)
        ensures
            *final(self) == old(self).evolved(t),
    {
        let dt = self.delta_time;

        // 1st
        let v1 = self.to_velocity(t, &self.position, &self.velocity);
        let a1 = self.to_accel(t, &self.position, &self.velocity);
        let v1a = Self::step1st(dt, &self.position, &v1);
        let a1a = Self::step1st(dt, &self.velocity, &a1);

        // 2nd
        let v2 = self.to_velocity(t + dt / T::from(2i8), &v1a, &a1a);
        let a2 = self.to_accel(t + dt / T::from(2i8), &v1a, &a1a);
        let v2a = Self::step2nd(dt, &self.position, &v2);
        let a2a = Self::step2nd(dt, &self.velocity, &a2);

        // 3rd
        let v3 = self.to_velocity(t + dt / T::from(2i8), &v2a, &a2a);
        let a3 = self.to_accel(t + dt / T::from(2i8), &v2a, &a2a);
        let v3a = Self::step3rd(dt, &self.position, &v3);
        let a3a = Self::step3rd(dt, &self.velocity, &a3);

        // 4th
        let v4 = self.to_velocity(t + dt, &v3a, &a3a);
        let a4 = self.to_accel(t + dt, &v3a, &a3a);
        self.delta_position = Self::step4th(dt, &v1, &v2, &v3, &v4);
        self.delta_velocity = Self::step4th(dt, &a1, &a2, &a3, &a4);
    }

    fn to_velocity(&self, _t: T, _position: &Vector3<T>, velocity: &Vector3<T>) -> Vector3<T> {
        return velocity.clone();
    }

    fn to_accel(&self, _t: T, _position: &Vector3<T>, _velocity: &Vector3<T>) -> Vector3<T> {
        return Vector3::new(T::from(0i8), T::from(0i8), self.gravity);
    }
}

} // verus!
