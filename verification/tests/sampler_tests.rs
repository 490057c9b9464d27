use raytracer::fx::Fx;
use raytracer::sampler::Sampler;
use raytracer::triangle::Triangle;
use raytracer::vector3::Vector3;

fn v(x: i32, y: i32, z: i32) -> Vector3 {
    Vector3 { x: Fx::from_int(x), y: Fx::from_int(y), z: Fx::from_int(z) }
}

#[test]
fn seeded_sampler_is_reproducible_and_in_range() {
    let mut a = Sampler::seeded(99);
    let mut b = Sampler::seeded(99);
    for _ in 0..32 {
        let ua = a.next_unit();
        let ub = b.next_unit();
        assert_eq!(ua, ub);
        assert!(0 <= ua.bits && ua.bits < 65536);
    }
}

#[test]
fn range_draws_stay_in_range() {
    let mut s = Sampler::seeded(4);
    let lo = Fx::from_int(-1);
    let hi = Fx::one();
    for _ in 0..32 {
        let d = s.next_range(lo, hi);
        assert!(lo.bits <= d.bits && d.bits < hi.bits);
    }
}

#[test]
fn unit_disk_draws_lie_in_the_disk() {
    let mut s = Sampler::seeded(5);
    for _ in 0..16 {
        let p = Vector3::random_in_unit_disk(&mut s);
        assert!(p.norm_squared().bits < 65536);
        assert_eq!(p.z, Fx::zero());
    }
}

#[test]
fn random_unit_vectors_have_unit_norm() {
    let mut s = Sampler::seeded(6);
    for _ in 0..16 {
        let u = Vector3::random_unit_vector(&mut s);
        let n = u.norm_squared().bits;
        assert!((n - 65536).abs() <= 1000, "norm squared was {n}");
    }
}

#[test]
fn triangle_gravity_center_is_the_mean() {
    let t = Triangle { points: [v(0, 0, 0), v(3, 0, 0), v(0, 3, 0)], normal: v(0, 0, 1) };
    assert_eq!(t.gravity_center(), v(1, 1, 0));
}
