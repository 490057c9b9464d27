use raytracer::fx::Fx;
use raytracer::fx::fx_div;
use raytracer::vector3::MatrixCross;
use raytracer::vector3::MatrixDot;
use raytracer::vector3::Vector3;
use raytracer::vector3::near_zero;

fn v(x: i32, y: i32, z: i32) -> Vector3 {
    Vector3 { x: Fx::from_int(x), y: Fx::from_int(y), z: Fx::from_int(z) }
}

#[test]
fn should_calc_norm_correctly() {
    // simple
    let vec1 = v(0, 3, 4);
    assert_eq!(vec1.norm_squared(), Fx::from_int(25));
    assert_eq!(vec1.norm(), Fx::from_int(5));

    // negative property
    let vec2 = v(5, -1, -2);
    assert_eq!(vec2.norm_squared(), Fx::from_int(30));
    // the fixed-point square root of 30, truncated to 1/65536 units
    assert_eq!(vec2.norm().bits, 358955);

    // zero
    let vec3 = v(0, 0, 0);
    assert_eq!(vec3.norm(), Fx::zero());
    assert_eq!(vec3.norm_squared(), Fx::zero());
}

#[test]
fn should_calc_unit_correctly() {
    // simple
    let vec1 = v(0, -3, 4);

    let five = Fx::from_int(5);
    let expected = Vector3 {
        x: fx_div(Fx::from_int(0), five),
        y: fx_div(Fx::from_int(-3), five),
        z: fx_div(Fx::from_int(4), five),
    };
    let actual = vec1.to_unit();
    assert_eq!(actual.x, expected.x);
    assert_eq!(actual.y, expected.y);
    assert_eq!(actual.z, expected.z);
}

#[test]
fn dot_and_cross_products() {
    let a = v(1, 2, 3);
    let b = v(4, 5, 6);
    assert_eq!(a.dot(&b), Fx::from_int(32));

    let x = v(1, 0, 0);
    let y = v(0, 1, 0);
    assert_eq!(x.cross(&y), v(0, 0, 1));
    assert_eq!(y.cross(&x), v(0, 0, -1));
}

#[test]
fn componentwise_arithmetic() {
    let a = v(1, 2, 3);
    let b = v(4, 5, 6);
    assert_eq!(a.vadd(b), v(5, 7, 9));
    assert_eq!(b.vsub(a), v(3, 3, 3));
    assert_eq!(a.vmul(b), v(4, 10, 18));
    assert_eq!(a.vneg(), v(-1, -2, -3));
    assert_eq!(a.scale(Fx::from_int(2)), v(2, 4, 6));
    assert_eq!(b.div_scalar(Fx::from_int(2)), Vector3 {
        x: Fx::from_int(2),
        y: Fx::from_bits(2 * 65536 + 32768),
        z: Fx::from_int(3),
    });
}

#[test]
fn should_throw_error_when_to_unit_with_zero_vec() {
    // fixed-point scalars have no not-a-number: the library defines division
    // by zero of a zero numerator as zero, so normalizing the zero vector
    // yields the zero vector instead of a vector of invalid components
    let vec1 = v(0, 0, 0);

    let actual = vec1.to_unit();
    assert_eq!(actual, Vector3::zero());
}

#[test]
fn componentwise_square_root() {
    let a = v(4, 9, 16);
    assert_eq!(a.sqrt(), v(2, 3, 4));
}

#[test]
fn near_zero_detects_exact_cancellation() {
    assert!(near_zero(&Vector3::zero()));
    assert!(!near_zero(&Vector3 {
        x: Fx::from_bits(1),
        y: Fx::zero(),
        z: Fx::zero(),
    }));
    assert!(!near_zero(&v(0, 1, 0)));
}
