//! What holds when the scalar is `i64`.
//!
//! The operators of `i64` are exact while they do not overflow, and division
//! is exact where the divisor divides. On such operands the arithmetic of the
//! vectors and of the integration scheme is that of the integers, and the
//! facts below follow.

use crate::particles::Particle;
use crate::rk4th::RungeKutta4th;
use crate::scalar::lawful;
use crate::vector::distance_sq_req;
use crate::vector::distance_sq_spec;
use crate::vector::scale_req;
use crate::vector::scale_spec;
use crate::vector::Vector3;
use vstd::prelude::*;
use vstd::std_specs::ops::AddSpec;
use vstd::std_specs::ops::DivSpec;
use vstd::std_specs::ops::MulSpec;
use vstd::std_specs::ops::SubSpec;

verus! {

/// The operators of `i64` are lawful, so every contract of the crate binds
/// for it.
pub proof fn lemma_lawful()
    ensures
        lawful::<i64>(),
{
}

/// Vector addition commutes: `a + b == b + a`, and the one sum is admitted
/// exactly when the other is.
pub proof fn lemma_plus_commutes(a: Vector3<i64>, b: Vector3<i64>)
    ensures
        a.add_req(b) == b.add_req(a),
        a.add_spec(b) == b.add_spec(a),
{
}

/// Scaling from the left and from the right agree: `s * v == v * s`, and the
/// one product is admitted exactly when the other is.
pub proof fn lemma_scale_commutes(s: i64, v: Vector3<i64>)
    ensures
        scale_req(s, v) == v.mul_req(s),
        scale_spec(s, v) == v.mul_spec(s),
{
    assert(s * v.x == v.x * s && s * v.y == v.y * s && s * v.z == v.z * s) by (nonlinear_arith);
}

/// The inner product commutes: `dot(a, b) == dot(b, a)`, and the one is
/// admitted exactly when the other is.
pub proof fn lemma_dot_commutes(a: Vector3<i64>, b: Vector3<i64>)
    ensures
        a.dot_req(b) == b.dot_req(a),
        a.dot_spec(b) == b.dot_spec(a),
{
    assert(a.x * b.x == b.x * a.x && a.y * b.y == b.y * a.y && a.z * b.z == b.z * a.z)
        by (nonlinear_arith);
}

/// The squared distance of a vector from itself is admitted and is zero.
pub proof fn lemma_distance_sq_to_self(a: Vector3<i64>)
    ensures
        distance_sq_req(a, a),
        distance_sq_spec(a, a) == 0,
{
    let d = a.sub_spec(a);
    assert(d.x == 0 && d.y == 0 && d.z == 0);
    assert(d.x * d.x == 0 && d.y * d.y == 0 && d.z * d.z == 0) by (nonlinear_arith)
        requires
            d.x == 0 && d.y == 0 && d.z == 0,
    ;
}

/// The squared distance is symmetric: where it is admitted from `a` to `b`,
/// it is admitted from `b` to `a` and is the same number. The distance is
/// the root of that number, so it is the same both ways as well.
pub proof fn lemma_distance_sq_symmetric(a: Vector3<i64>, b: Vector3<i64>)
    requires
        distance_sq_req(a, b),
    ensures
        distance_sq_req(b, a),
        distance_sq_spec(a, b) == distance_sq_spec(b, a),
{
    lemma_square_of_difference(a.x, b.x);
    lemma_square_of_difference(a.y, b.y);
    lemma_square_of_difference(a.z, b.z);
}

/// Where `(p - q)^2` fits, `q - p` fits and has the same square.
proof fn lemma_square_of_difference(p: i64, q: i64)
    requires
        i64::MIN <= p - q <= i64::MAX,
        i64::MIN <= (p - q) * (p - q) <= i64::MAX,
    ensures
        i64::MIN <= q - p <= i64::MAX,
        (q - p) * (q - p) == (p - q) * (p - q),
{
    assert((q - p) * (q - p) == (p - q) * (p - q)) by (nonlinear_arith);
    if p - q == i64::MIN {
        assert((p - q) * (p - q) > i64::MAX) by (nonlinear_arith)
            requires
                p - q == -0x8000_0000_0000_0000,
        ;
    }
}

/// One step under constant acceleration is exact. Where the step size is a
/// multiple of six, so that every division of the scheme comes out even, a
/// step from any state and any time stores the increments of uniformly
/// accelerated motion: `g * dt` for the velocity along z, and
/// `v * dt + g * dt * dt / 2` for the position, the last term along z only.
pub proof fn lemma_step_under_gravity(p: Particle<i64>, t: i64)
    requires
        p.system().rk4_req(t),
        p.delta_time % 6 == 0,
    ensures
        p.evolved(t).delta_velocity.x == 0,
        p.evolved(t).delta_velocity.y == 0,
        p.evolved(t).delta_velocity.z == p.gravity * p.delta_time,
        p.evolved(t).delta_position.x == p.velocity.x * p.delta_time,
        p.evolved(t).delta_position.y == p.velocity.y * p.delta_time,
        p.evolved(t).delta_position.z == p.velocity.z * p.delta_time + p.gravity * p.delta_time
            * p.delta_time / 2,
{
    let dt = p.delta_time;
    let g = p.gravity;
    let vz = p.velocity.z;
    let k = p.system().stages(t);
    lemma_slopes(dt, 0, p.velocity.x);
    lemma_slopes(dt, 0, p.velocity.y);
    lemma_slopes(dt, g, vz);
    assert(k.v2.z == vz + g * dt / 2);
    assert(k.v3.z == vz + g * dt / 2);
    assert(k.v4.z == vz + g * dt);
}

/// The first step from rest is exact: a particle that was just made, with
/// acceleration `g` and step size `dt`, stores `g * dt` for the velocity and
/// `g * dt * dt / 2` for the position, both along z, and zero elsewhere. It
/// holds where six divides `dt`, so that every division of the scheme comes
/// out even, and where `g` is zero.
pub proof fn lemma_first_step_from_rest(dt: i64, weight: i64, g: i64, t: i64)
    requires
        Particle::new_spec(dt, weight, g).system().rk4_req(t),
        g == 0 || dt % 6 == 0,
    ensures
        ({
            let p = Particle::new_spec(dt, weight, g).evolved(t);
            &&& p.delta_velocity.x == 0
            &&& p.delta_velocity.y == 0
            &&& p.delta_velocity.z == g * dt
            &&& p.delta_position.x == 0
            &&& p.delta_position.y == 0
            &&& p.delta_position.z == g * dt * dt / 2
        }),
{
    let p = Particle::new_spec(dt, weight, g);
    if dt % 6 == 0 {
        lemma_step_under_gravity(p, t);
        assert(0 * dt == 0);
    } else {
        lemma_step_weightless(p, t);
        assert(g * dt * dt == 0) by (nonlinear_arith)
            requires
                g == 0,
        ;
    }
}

/// Free fall from rest is exact over any number of steps: after `n` steps,
/// each followed by adding its increments, the velocity is `g * (n * dt)`
/// and the position is `g * (n * dt) * (n * dt) / 2`, both along z, and zero
/// elsewhere. The times that the steps start from do not matter. It holds
/// where six divides `dt` and where `g` is zero.
pub proof fn lemma_free_fall(dt: i64, weight: i64, g: i64, times: Seq<i64>)
    requires
        Particle::new_spec(dt, weight, g).run_req(times),
        g == 0 || dt % 6 == 0,
    ensures
        ({
            let p = Particle::new_spec(dt, weight, g).run(times);
            let n = times.len();
            &&& p.delta_time == dt
            &&& p.gravity == g
            &&& p.velocity.x == 0
            &&& p.velocity.y == 0
            &&& p.velocity.z == g * (n * dt)
            &&& p.position.x == 0
            &&& p.position.y == 0
            &&& p.position.z == g * (n * dt) * (n * dt) / 2
        }),
    decreases times.len(),
{
    let start = Particle::new_spec(dt, weight, g);
    if times.len() == 0 {
        assert(g * (0 * dt) == 0);
        assert(g * (0 * dt) * (0 * dt) == 0);
    } else {
        let n: int = times.len() - 1;
        let t = times.last();
        let q = start.run(times.drop_last());
        lemma_free_fall(dt, weight, g, times.drop_last());
        if dt % 6 == 0 {
            lemma_step_under_gravity(q, t);
            lemma_fall_sums(dt, g, n);
            assert(0 * dt == 0);
        } else {
            assert(g * (n * dt) == 0 && g * ((n + 1) * dt) == 0) by (nonlinear_arith)
                requires
                    g == 0,
            ;
            assert(g * (n * dt) * (n * dt) == 0 && g * ((n + 1) * dt) * ((n + 1) * dt) == 0)
                by (nonlinear_arith)
                requires
                    g == 0,
            ;
            lemma_step_weightless(q, t);
        }
    }
}

/// Without acceleration a particle at rest stays at rest: a step stores no
/// increment, whatever the step size.
proof fn lemma_step_weightless(p: Particle<i64>, t: i64)
    requires
        p.system().rk4_req(t),
        p.gravity == 0,
        p.velocity.x == 0 && p.velocity.y == 0 && p.velocity.z == 0,
    ensures
        p.evolved(t).delta_velocity.x == 0,
        p.evolved(t).delta_velocity.y == 0,
        p.evolved(t).delta_velocity.z == 0,
        p.evolved(t).delta_position.x == 0,
        p.evolved(t).delta_position.y == 0,
        p.evolved(t).delta_position.z == 0,
{
    let k = p.system().stages(t);
    let w = p.delta_time.div_spec(6i64);
    assert(k.v2.z == 0 && k.v3.z == 0 && k.v4.z == 0);
    assert(w * 0 == 0);
}

/// The sums of one more step of free fall: from velocity `g * (n * dt)` and
/// position `g * (n * dt) * (n * dt) / 2`, the increments of a step lead to
/// the same formulas at `n + 1`.
proof fn lemma_fall_sums(dt: i64, g: i64, n: int)
    requires
        dt % 6 == 0,
    ensures
        g * (n * dt) + g * dt == g * ((n + 1) * dt),
        g * (n * dt) * (n * dt) / 2 + (g * (n * dt) * dt + g * dt * dt / 2) == g * ((n + 1) * dt)
            * ((n + 1) * dt) / 2,
{
    let w: int = dt / 6;
    assert(dt == 6 * w);
    assert(g * (n * dt) + g * dt == g * ((n + 1) * dt)) by (nonlinear_arith);
    assert(g * (n * dt) * (n * dt) == 2 * (18 * (g * n * n * w * w))) by (nonlinear_arith)
        requires
            dt == 6 * w,
    ;
    assert(g * dt * dt == 2 * (18 * (g * w * w))) by (nonlinear_arith)
        requires
            dt == 6 * w,
    ;
    assert(g * ((n + 1) * dt) * ((n + 1) * dt) == 2 * (18 * (g * (n + 1) * (n + 1) * w * w)))
        by (nonlinear_arith)
        requires
            dt == 6 * w,
    ;
    assert(18 * (g * n * n * w * w) + (g * (n * dt) * dt + 18 * (g * w * w)) == 18 * (g * (n + 1)
        * (n + 1) * w * w)) by (nonlinear_arith)
        requires
            dt == 6 * w,
    ;
}

/// The arithmetic of one component of a step: with acceleration `a` and
/// velocity `v`, and a step size `dt` that six divides, the weighted sums of
/// the scheme are `a * dt` and `v * dt + a * dt * dt / 2`, and the halves on
/// the way are exact.
proof fn lemma_slopes(dt: i64, a: i64, v: i64)
    requires
        dt % 6 == 0,
    ensures
        (a * dt) % 2 == 0,
        (v * dt) % 2 == 0,
        (a * dt * dt) % 2 == 0,
        (dt / 6) * (a + 2 * a + 2 * a + a) == a * dt,
        (dt / 6) * (v + 2 * (v + a * dt / 2) + 2 * (v + a * dt / 2) + (v + a * dt)) == v * dt + a
            * dt * dt / 2,
{
    let w: int = dt / 6;
    assert(dt == 6 * w);
    assert(a * dt == 2 * (3 * (a * w))) by (nonlinear_arith)
        requires
            dt == 6 * w,
    ;
    assert(v * dt == 2 * (3 * (v * w))) by (nonlinear_arith)
        requires
            dt == 6 * w,
    ;
    assert(a * dt * dt == 2 * (18 * (a * w * w))) by (nonlinear_arith)
        requires
            dt == 6 * w,
    ;
    assert(w * (a + 2 * a + 2 * a + a) == a * dt) by (nonlinear_arith)
        requires
            dt == 6 * w,
    ;
    let h: int = a * dt / 2;
    assert(h == 3 * (a * w));
    assert(a * dt * dt / 2 == 18 * (a * w * w));
    assert(w * (v + 2 * (v + h) + 2 * (v + h) + (v + a * dt)) == v * dt + 18 * (a * w * w))
        by (nonlinear_arith)
        requires
            dt == 6 * w,
            h == 3 * (a * w),
    ;
}

} // verus!
