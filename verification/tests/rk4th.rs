use pendulum_learn::particles::Particle;
use pendulum_learn::rk4th::RungeKutta4th;
use pendulum_learn::vector::Vector3;

#[derive(Debug)]
struct Spring {
    stiffness: f64,
    delta_time: f64,
    position: Vector3<f64>,
    velocity: Vector3<f64>,
    delta_position: Vector3<f64>,
    delta_velocity: Vector3<f64>,
}

impl RungeKutta4th<f64> for Spring {
    fn time_evolution_core(&mut self, t: f64) {
        let dt = self.delta_time;
        let v1 = self.to_velocity(t, &self.position, &self.velocity);
        let a1 = self.to_accel(t, &self.position, &self.velocity);
        let x1 = Self::step1st(dt, &self.position, &v1);
        let u1 = Self::step1st(dt, &self.velocity, &a1);
        let v2 = self.to_velocity(t + dt / 2., &x1, &u1);
        let a2 = self.to_accel(t + dt / 2., &x1, &u1);
        let x2 = Self::step2nd(dt, &self.position, &v2);
        let u2 = Self::step2nd(dt, &self.velocity, &a2);
        let v3 = self.to_velocity(t + dt / 2., &x2, &u2);
        let a3 = self.to_accel(t + dt / 2., &x2, &u2);
        let x3 = Self::step3rd(dt, &self.position, &v3);
        let u3 = Self::step3rd(dt, &self.velocity, &a3);
        let v4 = self.to_velocity(t + dt, &x3, &u3);
        let a4 = self.to_accel(t + dt, &x3, &u3);
        self.delta_position = Self::step4th(dt, &v1, &v2, &v3, &v4);
        self.delta_velocity = Self::step4th(dt, &a1, &a2, &a3, &a4);
    }

    fn to_velocity(&self, _t: f64, _x: &Vector3<f64>, v: &Vector3<f64>) -> Vector3<f64> {
        *v
    }

    fn to_accel(&self, _t: f64, x: &Vector3<f64>, _v: &Vector3<f64>) -> Vector3<f64> {
        *x * -self.stiffness
    }
}

#[test]
fn rungekutta4th_step1st() {
    let v = Particle::<f64>::step1st(4., &Vector3::new(1., 2., 3.), &Vector3::new(10., 20., 30.));
    assert_eq!(v.x, 21.);
    assert_eq!(v.y, 42.);
    assert_eq!(v.z, 63.);
}

#[test]
fn rungekutta4th_step2nd() {
    let v = Particle::<f64>::step2nd(4., &Vector3::new(1., 2., 3.), &Vector3::new(10., 20., 30.));
    assert_eq!(v.x, 21.);
    assert_eq!(v.y, 42.);
    assert_eq!(v.z, 63.);
}

#[test]
fn rungekutta4th_step3rd() {
    let v = Particle::<f64>::step3rd(2., &Vector3::new(1., 2., 3.), &Vector3::new(10., 20., 30.));
    assert_eq!(v.x, 21.);
    assert_eq!(v.y, 42.);
    assert_eq!(v.z, 63.);
}

#[test]
fn rungekutta4th_step4th() {
    let v = Particle::<f64>::step4th(
        6.,
        &Vector3::new(1., 2., 3.),
        &Vector3::new(10., 20., 30.),
        &Vector3::new(100., 200., 300.),
        &Vector3::new(1000., 2000., 3000.),
    );
    assert_eq!(v.x, 1221.);
    assert_eq!(v.y, 2442.);
    assert_eq!(v.z, 3663.);
}

#[test]
fn stages_on_integers() {
    let x = Vector3::new(1i64, 2, 3);
    let dx = Vector3::new(10i64, 20, 30);
    let v = Particle::<i64>::step1st(4, &x, &dx);
    assert_eq!((v.x, v.y, v.z), (21, 42, 63));
    let v = Particle::<i64>::step2nd(4, &x, &dx);
    assert_eq!((v.x, v.y, v.z), (21, 42, 63));
    let v = Particle::<i64>::step3rd(2, &x, &dx);
    assert_eq!((v.x, v.y, v.z), (21, 42, 63));
    let v = Particle::<i64>::step4th(
        6,
        &x,
        &dx,
        &Vector3::new(100, 200, 300),
        &Vector3::new(1000, 2000, 3000),
    );
    assert_eq!((v.x, v.y, v.z), (1221, 2442, 3663));
}

#[test]
fn half_steps_differ_from_the_full_step() {
    let x = Vector3::new(1., 2., 3.);
    let dx = Vector3::new(10., 20., 30.);
    let h = Particle::<f64>::step1st(1., &x, &dx);
    assert_eq!((h.x, h.y, h.z), (6., 12., 18.));
    let h = Particle::<f64>::step2nd(1., &x, &dx);
    assert_eq!((h.x, h.y, h.z), (6., 12., 18.));
    let f = Particle::<f64>::step3rd(1., &x, &dx);
    assert_eq!((f.x, f.y, f.z), (11., 22., 33.));
}

#[test]
fn weighted_sum_weighs_the_middle_slopes_twice() {
    let one = Vector3::new(6., 0., 0.);
    let zero = Vector3::new(0., 0., 0.);
    let w = Particle::<f64>::step4th(1., &one, &zero, &zero, &zero);
    assert_eq!(w.x, 1.);
    let w = Particle::<f64>::step4th(1., &zero, &one, &zero, &zero);
    assert_eq!(w.x, 2.);
    let w = Particle::<f64>::step4th(1., &zero, &zero, &one, &zero);
    assert_eq!(w.x, 2.);
    let w = Particle::<f64>::step4th(1., &zero, &zero, &zero, &one);
    assert_eq!(w.x, 1.);
}

#[test]
fn another_system_uses_the_same_stages() {
    let mut s = Spring {
        stiffness: 1.,
        delta_time: 0.01,
        position: Vector3::new(1., 0., 0.),
        velocity: Vector3::new(0., 0., 0.),
        delta_position: Vector3::zeros(),
        delta_velocity: Vector3::zeros(),
    };
    let mut t = 0.;
    for _ in 0..100 {
        s.time_evolution_core(t);
        s.position = s.position + s.delta_position;
        s.velocity = s.velocity + s.delta_velocity;
        t += s.delta_time;
    }
    assert!((s.position.x - 1f64.cos()).abs() < 1e-9);
    assert!((s.velocity.x + 1f64.sin()).abs() < 1e-9);
    assert_eq!(s.position.y, 0.);
    assert_eq!(s.position.z, 0.);
}
