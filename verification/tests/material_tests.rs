use raytracer::fx::Fx;
use raytracer::fx::fx_div;
use raytracer::hittable::HitRecord;
use raytracer::materials::DiElectric;
use raytracer::materials::Lambertian;
use raytracer::materials::Material;
use raytracer::materials::MaterialKind;
use raytracer::materials::Materials;
use raytracer::materials::Metal;
use raytracer::materials::reflect;
use raytracer::ray::Ray;
use raytracer::sampler::Sampler;
use raytracer::vector3::Vector3;

fn v(x: i32, y: i32, z: i32) -> Vector3 {
    Vector3 { x: Fx::from_int(x), y: Fx::from_int(y), z: Fx::from_int(z) }
}

fn record_at_origin(norm: Vector3, front_face: bool) -> HitRecord {
    HitRecord { point: v(0, 0, 0), norm, front_face, t: Fx::one(), material_id: 0 }
}

#[test]
fn lambertian_falls_back_to_normal_on_degenerate_direction() {
    // the drawn unit direction exactly cancels the normal
    let m = Lambertian { albedo: v(1, 0, 0) };
    let hit = record_at_origin(v(0, 1, 0), true);
    let sc = m.scatter_with(&hit, v(0, -1, 0));
    assert_eq!(sc.ray.direction, v(0, 1, 0));
    assert_eq!(sc.ray.origin, hit.point);
    assert_eq!(sc.attenuation, m.albedo);
}

#[test]
fn lambertian_adds_drawn_direction_to_normal() {
    let m = Lambertian { albedo: v(1, 0, 0) };
    let hit = record_at_origin(v(0, 1, 0), true);
    let sc = m.scatter_with(&hit, v(1, 0, 0));
    assert_eq!(sc.ray.direction, v(1, 1, 0));
}

#[test]
fn metal_mirrors_the_incoming_direction() {
    let m = Metal { albedo: v(1, 1, 1), fuzzy: Fx::zero() };
    let hit = record_at_origin(v(0, 0, 1), true);
    let ray = Ray { origin: v(0, 0, 2), direction: v(0, 0, -1) };
    let sc = m.scatter_with(&ray, &hit, v(1, 0, 0));
    // fuzz is zero, so the drawn perturbation is ignored
    assert_eq!(sc.ray.direction, v(0, 0, 1));
    assert_eq!(sc.attenuation, m.albedo);
}

#[test]
fn dielectric_refracts_straight_through() {
    // head-on entry: refraction leaves the direction unchanged
    let m = DiElectric { index_of_refraction: Fx::from_bits(98304) };
    let hit = record_at_origin(v(0, 0, 1), true);
    let ray = Ray { origin: v(0, 0, 2), direction: v(0, 0, -1) };
    // a drawn chance above the head-on Schlick reflectance (about 0.04)
    let sc = m.scatter_with(&ray, &hit, Fx::from_bits(32768));
    assert_eq!(sc.ray.direction, v(0, 0, -1));
    assert_eq!(sc.attenuation, v(1, 1, 1));
}

#[test]
fn dielectric_reflects_when_chance_is_below_reflectance() {
    let m = DiElectric { index_of_refraction: Fx::from_bits(98304) };
    let hit = record_at_origin(v(0, 0, 1), true);
    let ray = Ray { origin: v(0, 0, 2), direction: v(0, 0, -1) };
    // a drawn chance of zero always reflects
    let sc = m.scatter_with(&ray, &hit, Fx::zero());
    let expected = reflect(&ray.direction.to_unit(), &hit.norm);
    assert_eq!(sc.ray.direction, expected);
}

#[test]
fn materials_always_scatter_from_the_hit_point() {
    let mut sampler = Sampler::seeded(11);
    let hit = record_at_origin(v(0, 1, 0), true);
    let ray = Ray { origin: v(0, 2, 0), direction: v(0, -1, 0) };
    let kinds = [
        MaterialKind::Lambertian(Lambertian { albedo: v(1, 0, 0) }),
        MaterialKind::Metal(Metal { albedo: v(1, 1, 1), fuzzy: Fx::zero() }),
        MaterialKind::DiElectric(DiElectric { index_of_refraction: Fx::from_bits(98304) }),
    ];
    for kind in kinds {
        let sc = kind.scatter(&ray, &hit, &mut sampler).expect("these materials always scatter");
        assert_eq!(sc.ray.origin, hit.point);
    }
}

#[test]
fn registry_hands_out_dense_handles() {
    let mut materials = Materials::new();
    let a = materials.insert(MaterialKind::Lambertian(Lambertian { albedo: v(1, 0, 0) }));
    let b = materials.insert(MaterialKind::Metal(Metal { albedo: v(1, 1, 1), fuzzy: Fx::zero() }));
    assert_eq!(a.id, 0);
    assert_eq!(b.id, 1);
    match materials.index(a.id) {
        MaterialKind::Lambertian(l) => assert_eq!(l.albedo, v(1, 0, 0)),
        _ => panic!("wrong material behind handle"),
    }
    // half of one: a division carried by the fixed-point scalar
    assert_eq!(fx_div(Fx::one(), Fx::from_int(2)), Fx::from_bits(32768));
}
