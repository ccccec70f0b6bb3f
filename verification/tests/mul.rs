use pendulum_learn::vector::scale;
use pendulum_learn::vector::Vector3;

#[test]
fn vector_mul_vector_should_return_vector() {
    let (x1, y1, z1) = (1., 2., 3.);
    let (x2, y2, z2) = (10., 20., 30.);
    let src1 = Vector3::new(x1, y1, z1);
    let src2 = Vector3::new(x2, y2, z2);
    let dst = src1 * src2;
    assert_eq!(dst.x, x1 * x2);
    assert_eq!(dst.y, y1 * y2);
    assert_eq!(dst.z, z1 * z2);
}

#[test]
fn vector_mul_ref_vector_should_return_vector() {
    let (x1, y1, z1) = (1., 2., 3.);
    let (x2, y2, z2) = (10., 20., 30.);
    let src1 = Vector3::new(x1, y1, z1);
    let src2 = Vector3::new(x2, y2, z2);
    let dst = src1 * &src2;
    assert_eq!(dst.x, x1 * x2);
    assert_eq!(dst.y, y1 * y2);
    assert_eq!(dst.z, z1 * z2);
}

#[test]
fn ref_vector_mul_vector_should_return_vector() {
    let (x1, y1, z1) = (1., 2., 3.);
    let (x2, y2, z2) = (10., 20., 30.);
    let src1 = Vector3::new(x1, y1, z1);
    let src2 = Vector3::new(x2, y2, z2);
    let dst = &src1 * src2;
    assert_eq!(dst.x, x1 * x2);
    assert_eq!(dst.y, y1 * y2);
    assert_eq!(dst.z, z1 * z2);
}

#[test]
fn ref_vector_mul_ref_vector_should_return_vector() {
    let (x1, y1, z1) = (1., 2., 3.);
    let (x2, y2, z2) = (10., 20., 30.);
    let src1 = Vector3::new(x1, y1, z1);
    let src2 = Vector3::new(x2, y2, z2);
    let dst = &src1 * &src2;
    assert_eq!(dst.x, x1 * x2);
    assert_eq!(dst.y, y1 * y2);
    assert_eq!(dst.z, z1 * z2);
}

#[test]
fn vector_mul_f64_should_return_vector() {
    let f = 10.;
    let (x1, y1, z1) = (1., 2., 3.);
    let src = Vector3::new(x1, y1, z1);
    let dst = src * f;
    assert_eq!(dst.x, x1 * f);
    assert_eq!(dst.y, y1 * f);
    assert_eq!(dst.z, z1 * f);
}

#[test]
fn ref_vector_mul_f64_should_return_vector() {
    let f = 10.;
    let (x1, y1, z1) = (1., 2., 3.);
    let src = Vector3::new(x1, y1, z1);
    let dst = &src * f;
    assert_eq!(dst.x, x1 * f);
    assert_eq!(dst.y, y1 * f);
    assert_eq!(dst.z, z1 * f);
}

#[test]
fn f64_mul_vector_should_return_vector() {
    let f = 10.;
    let (x1, y1, z1) = (1., 2., 3.);
    let src = Vector3::new(x1, y1, z1);
    let dst = scale(f, &src);
    assert_eq!(dst.x, f * x1);
    assert_eq!(dst.y, f * y1);
    assert_eq!(dst.z, f * z1);
}

#[test]
fn f64_mul_ref_vector_should_return_vector() {
    let f = 10.;
    let (x1, y1, z1) = (1., 2., 3.);
    let src = Vector3::new(x1, y1, z1);
    let dst = scale(f, &src);
    assert_eq!(dst.x, f * x1);
    assert_eq!(dst.y, f * y1);
    assert_eq!(dst.z, f * z1);
}

#[test]
fn products_are_exact_on_small_values() {
    let a = Vector3::new(1., 2., 3.);
    let b = Vector3::new(10., 20., 30.);
    let p = a * b;
    assert_eq!((p.x, p.y, p.z), (10., 40., 90.));
    let p = a * 10.;
    assert_eq!((p.x, p.y, p.z), (10., 20., 30.));
    let p = scale(10., &a);
    assert_eq!((p.x, p.y, p.z), (10., 20., 30.));
}
