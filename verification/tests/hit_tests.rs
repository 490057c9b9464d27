use raytracer::fx::Fx;
use raytracer::hittable::Hittable;
use raytracer::hittables::Hittables;
use raytracer::hittables::Object;
use raytracer::interval::Interval;
use raytracer::plane::InfinitePlane;
use raytracer::ray::Ray;
use raytracer::sphere::Sphere;
use raytracer::vector3::MatrixDot;
use raytracer::vector3::Vector3;

fn v(x: i32, y: i32, z: i32) -> Vector3 {
    Vector3 { x: Fx::from_int(x), y: Fx::from_int(y), z: Fx::from_int(z) }
}

fn trace_domain() -> Interval {
    Interval { min: Fx::from_bits(65), max: Fx::infinity() }
}

#[test]
fn ray_evaluates_points_along_itself() {
    let default_ray = Ray::new();
    assert_eq!(default_ray.origin, v(0, 0, 0));
    assert_eq!(default_ray.direction, v(1, 0, 0));

    let ray = Ray { origin: v(1, 2, 3), direction: v(1, 0, 0) };
    assert_eq!(ray.at(Fx::from_int(2)), v(3, 2, 3));
    assert_eq!(ray.at(Fx::zero()), ray.origin);

    let domain = Interval::from((Fx::zero(), Fx::from_int(9)));
    assert_eq!(domain.min, Fx::zero());
    assert_eq!(domain.max, Fx::from_int(9));
}

#[test]
fn sphere_hit_toward_center() {
    // origin outside the sphere, aimed at its center
    let s = Sphere { r: Fx::from_int(1), center: v(0, 0, 0), material_id: 0 };
    let ray = Ray { origin: v(0, 0, 2), direction: v(0, 0, -1) };
    let hit = s.hit(&ray, trace_domain()).expect("must hit");
    assert!(hit.t.bits > 0);
    assert_eq!(hit.t, Fx::from_int(1));
    assert_eq!(hit.point, v(0, 0, 1));
    // the hit point lies at distance r from the center
    assert_eq!(hit.point.vsub(s.center).norm(), Fx::from_int(1));
    assert!(hit.front_face);
    assert_eq!(hit.norm, v(0, 0, 1));
}

#[test]
fn sphere_tangent_gives_single_root() {
    // ray grazing the sphere: zero discriminant, both roots coincide
    let s = Sphere { r: Fx::from_int(1), center: v(0, 0, 0), material_id: 0 };
    let ray = Ray { origin: v(0, 1, 2), direction: v(0, 0, -1) };
    let hit = s.hit(&ray, trace_domain()).expect("tangent ray must report its single root");
    assert_eq!(hit.t, Fx::from_int(2));
    // past that single root nothing remains
    let past = Interval { min: Fx::from_int(3), max: Fx::infinity() };
    assert!(s.hit(&ray, past).is_none());
}

#[test]
fn sphere_miss_reports_nothing() {
    // negative discriminant: no intersection at all
    let s = Sphere { r: Fx::from_int(1), center: v(0, 0, 0), material_id: 0 };
    let ray = Ray { origin: v(0, 5, 2), direction: v(0, 0, -1) };
    assert!(s.hit(&ray, trace_domain()).is_none());
    assert!(s.hit(&ray, Interval::universe()).is_none());
}

#[test]
fn hit_normal_always_opposes_ray() {
    let s = Sphere { r: Fx::from_int(1), center: v(0, 0, 0), material_id: 0 };
    // from inside the sphere: the outward normal is flipped
    let ray = Ray { origin: v(0, 0, 0), direction: v(0, 0, -1) };
    let hit = s.hit(&ray, trace_domain()).expect("must hit from inside");
    assert!(!hit.front_face);
    assert_eq!(hit.norm, v(0, 0, 1));
    assert!(ray.direction.dot(&hit.norm).bits <= 0);

    // from outside: the outward normal is kept
    let ray2 = Ray { origin: v(0, 0, 2), direction: v(0, 0, -1) };
    let hit2 = s.hit(&ray2, trace_domain()).expect("must hit from outside");
    assert!(hit2.front_face);
    assert!(ray2.direction.dot(&hit2.norm).bits <= 0);
}

#[test]
fn scene_returns_nearest_hit() {
    let near = Sphere { r: Fx::from_int(1), center: v(0, 0, -5), material_id: 0 };
    let far = Sphere { r: Fx::from_int(1), center: v(0, 0, -10), material_id: 1 };
    let ray = Ray { origin: v(0, 0, 0), direction: v(0, 0, -1) };

    let mut scene = Hittables::new();
    scene.insert(Object::Sphere(near));
    scene.insert(Object::Sphere(far));
    let hit = scene.hit(&ray, trace_domain()).expect("scene must hit");
    assert_eq!(hit.t, Fx::from_int(4));
    assert_eq!(hit.material_id, 0);

    // insertion order must not matter
    let mut swapped = Hittables::new();
    swapped.insert(Object::Sphere(far));
    swapped.insert(Object::Sphere(near));
    let hit2 = swapped.hit(&ray, trace_domain()).expect("scene must hit");
    assert_eq!(hit2.t, Fx::from_int(4));
    assert_eq!(hit2.material_id, 0);

    // equals the minimum of the individual hits
    let t_near = near.hit(&ray, trace_domain()).expect("near hits").t;
    let t_far = far.hit(&ray, trace_domain()).expect("far hits").t;
    assert!(t_near.bits <= t_far.bits);
    assert_eq!(hit.t, t_near);
}

#[test]
fn scene_mixes_primitive_kinds() {
    let sphere = Sphere { r: Fx::from_int(1), center: v(0, 0, -5), material_id: 0 };
    let wall = InfinitePlane { origin: v(0, 0, -8), normal: v(0, 0, 1), material_id: 1 };
    let ray = Ray { origin: v(0, 0, 0), direction: v(0, 0, -1) };

    let mut scene = Hittables::new();
    scene.insert(Object::InfinitePlane(wall));
    scene.insert(Object::Sphere(sphere));
    let hit = scene.hit(&ray, trace_domain()).expect("scene must hit");
    assert_eq!(hit.t, Fx::from_int(4));
    assert_eq!(hit.material_id, 0);

    // a ray past the sphere reaches the wall
    let side_ray = Ray { origin: v(0, 3, 0), direction: v(0, 0, -1) };
    let wall_hit = scene.hit(&side_ray, trace_domain()).expect("wall must catch it");
    assert_eq!(wall_hit.t, Fx::from_int(8));
    assert_eq!(wall_hit.material_id, 1);
}

#[test]
fn scene_of_disjoint_objects_misses_between_them() {
    let near = Sphere { r: Fx::from_int(1), center: v(0, 0, -5), material_id: 0 };
    let far = Sphere { r: Fx::from_int(1), center: v(0, 0, -10), material_id: 1 };
    let ray = Ray { origin: v(0, 5, 0), direction: v(0, 0, -1) };
    let mut scene = Hittables::new();
    scene.insert(Object::Sphere(near));
    scene.insert(Object::Sphere(far));
    assert!(scene.hit(&ray, trace_domain()).is_none());
}
