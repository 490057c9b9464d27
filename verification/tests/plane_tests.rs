use raytracer::fx::Fx;
use raytracer::geometry::Axes3D;
use raytracer::geometry::CoordinateSystem;
use raytracer::hittable::Hittable;
use raytracer::interval::Interval;
use raytracer::plane::InfinitePlane;
use raytracer::plane::Plane;
use raytracer::ray::Ray;
use raytracer::vector3::MatrixDot;
use raytracer::vector3::Vector3;

fn v(x: i32, y: i32, z: i32) -> Vector3 {
    Vector3 { x: Fx::from_int(x), y: Fx::from_int(y), z: Fx::from_int(z) }
}

fn trace_domain() -> Interval {
    Interval { min: Fx::from_bits(65), max: Fx::infinity() }
}

fn floor_plane() -> Plane {
    Plane {
        coordinate: CoordinateSystem {
            axes: Axes3D { u: v(1, 0, 0), v: v(0, 1, 0), w: v(0, 0, 1) },
            origin: v(0, 0, 0),
        },
        material_id: 0,
        width: Fx::from_int(4),
        height: Fx::from_int(4),
    }
}

#[test]
fn plane_hit_inside_extent() {
    let p = floor_plane();
    let ray = Ray { origin: v(0, 2, 0), direction: v(0, -1, 0) };
    let hit = p.hit(&ray, trace_domain()).expect("must hit the rectangle");
    assert_eq!(hit.t, Fx::from_int(2));
    assert_eq!(hit.point, v(0, 0, 0));
    assert!(hit.front_face);
    assert_eq!(hit.norm, v(0, 1, 0));
    assert!(ray.direction.dot(&hit.norm).bits <= 0);
}

#[test]
fn plane_miss_outside_extent() {
    let p = floor_plane();
    let ray = Ray { origin: v(5, 2, 0), direction: v(0, -1, 0) };
    assert!(p.hit(&ray, trace_domain()).is_none());
}

#[test]
fn plane_rejects_parallel_ray() {
    let p = floor_plane();
    let ray = Ray { origin: v(0, 2, 0), direction: v(1, 0, 0) };
    assert!(p.hit(&ray, trace_domain()).is_none());
}

#[test]
fn infinite_plane_hits_everywhere_and_flips_normal() {
    let p = InfinitePlane { origin: v(0, 0, 0), normal: v(0, 1, 0), material_id: 0 };
    let ray = Ray { origin: v(5, 2, 0), direction: v(0, -1, 0) };
    let hit = p.hit(&ray, trace_domain()).expect("unbounded plane must hit");
    assert_eq!(hit.t, Fx::from_int(2));
    assert_eq!(hit.point, v(5, 0, 0));
    assert!(hit.front_face);

    // approaching from below, the stored normal is flipped
    let ray_up = Ray { origin: v(0, -2, 0), direction: v(0, 1, 0) };
    let hit_up = p.hit(&ray_up, trace_domain()).expect("must hit from below");
    assert!(!hit_up.front_face);
    assert_eq!(hit_up.norm, v(0, -1, 0));
    assert!(ray_up.direction.dot(&hit_up.norm).bits <= 0);
}
