//! Materials: given a hit, each decides how the ray continues and which
//! color filter the bounce applies. Diffuse, metallic and glass behaviors,
//! and the registry that primitives reference by handle.

use vstd::prelude::*;
use crate::color::Color;
use crate::fx::Fx;
use crate::fx::SCALE;
use crate::fx::s_add;
use crate::fx::s_sub;
use crate::fx::s_mul;
use crate::fx::s_div;
use crate::fx::s_neg;
use crate::fx::s_min;
use crate::fx::s_abs;
use crate::fx::s_sqrt;
use crate::fx::fx_add;
use crate::fx::fx_sub;
use crate::fx::fx_mul;
use crate::fx::fx_div;
use crate::fx::fx_min;
use crate::fx::fx_abs;
use crate::fx::fx_sqrt;
use crate::hittable::HitRecord;
use crate::ray::Ray;
use crate::sampler::Sampler;
use crate::sampler::is_unit_draw;
use crate::vector3::MatrixDot;
use crate::vector3::Vector3;
use crate::vector3::sv_add;
use crate::vector3::sv_sub;
use crate::vector3::sv_neg;
use crate::vector3::sv_dot;
use crate::vector3::sv_scale;
use crate::vector3::sv_norm_squared;
use crate::vector3::sv_to_unit;
use crate::vector3::spec_near_zero;
use crate::vector3::near_zero;

verus! {

/// A material's decision to continue a ray: the outgoing ray and the color
/// filter applied to whatever light it gathers.
#[derive(Clone, Copy, PartialEq, Eq, Structural, Debug)]
pub struct Scatter {
    pub attenuation: Color,
    pub ray: Ray,
}

/// Mirror reflection `v - 2 (v . n) n`.
pub open spec fn spec_reflect(v: Vector3, n: Vector3) -> Vector3 {
    sv_sub(v, sv_scale(n, s_mul(Fx::spec_from_int(2), sv_dot(v, n))))
}

pub fn reflect(v: &Vector3, n: &Vector3) -> (r: Vector3)
    ensures
        r == spec_reflect(*v, *n),
{
    v.vsub(n.scale(fx_mul(Fx::from_int(2), v.dot(n))))
}

/// Cosine of the angle between the reversed unit direction and the normal,
/// capped at one.
pub open spec fn spec_cos_theta(uv: Vector3, n: Vector3) -> Fx {
    s_min(sv_dot(sv_neg(uv), n), Fx::spec_one())
}

/// Snell refraction of a unit direction through a surface with the given
/// ratio of refraction indices.
pub open spec fn spec_refract(uv: Vector3, n: Vector3, ratio: Fx) -> Vector3 {
    let cos_theta = spec_cos_theta(uv, n);
    let r_out_perp = sv_scale(sv_add(uv, sv_scale(n, cos_theta)), ratio);
    let k = s_sub(Fx::spec_one(), sv_norm_squared(r_out_perp));
    let r_out_parallel = sv_scale(n, s_neg(s_sqrt(s_abs(k))));
    sv_add(r_out_perp, r_out_parallel)
}

pub fn refract(uv: &Vector3, n: &Vector3, ratio: Fx) -> (r: Vector3)
    ensures
        r == spec_refract(*uv, *n, ratio),
{
    let one = Fx::one();
    let cos_theta = fx_min(uv.vneg().dot(n), one);
    let r_out_perp = uv.vadd(n.scale(cos_theta)).scale(ratio);
    let k = fx_sub(one, r_out_perp.norm_squared());
    let r_out_parallel = n.scale(crate::fx::fx_neg(fx_sqrt(fx_abs(k))));
    r_out_perp.vadd(r_out_parallel)
}

/// Fifth power, by repeated multiplication.
pub open spec fn spec_pow5(x: Fx) -> Fx {
    s_mul(s_mul(s_mul(s_mul(x, x), x), x), x)
}

/// Schlick's approximation of reflectance:
/// `r0 + (1 - r0) (1 - cos)^5` with `r0 = ((1 - ratio) / (1 + ratio))^2`.
pub open spec fn spec_reflectance(cos_theta: Fx, ratio: Fx) -> Fx {
    let one = Fx::spec_one();
    let r0 = s_div(s_sub(one, ratio), s_add(one, ratio));
    let r0sq = s_mul(r0, r0);
    s_add(r0sq, s_mul(s_sub(one, r0sq), spec_pow5(s_sub(one, cos_theta))))
}

pub fn reflectance(cos_theta: Fx, ratio: Fx) -> (r: Fx)
    ensures
        r == spec_reflectance(cos_theta, ratio),
{
    let one = Fx::one();
    let r0 = fx_div(fx_sub(one, ratio), fx_add(one, ratio));
    let r0sq = fx_mul(r0, r0);
    let p = fx_sub(one, cos_theta);
    let p5 = fx_mul(fx_mul(fx_mul(fx_mul(p, p), p), p), p);
    fx_add(r0sq, fx_mul(fx_sub(one, r0sq), p5))
}

/// Total internal reflection test: `ratio * sin > 1` with
/// `sin = sqrt(1 - cos^2)`.
pub open spec fn spec_cannot_refract(uv: Vector3, n: Vector3, ratio: Fx) -> bool {
    let cos = spec_cos_theta(uv, n);
    let sin = s_sqrt(s_sub(Fx::spec_one(), s_mul(cos, cos)));
    s_mul(ratio, sin).bits > SCALE
}

/// The glass decision: reflect when refraction is impossible or the drawn
/// chance falls below the Schlick reflectance, refract otherwise.
pub open spec fn spec_refract_or_reflect(uv: Vector3, n: Vector3, ratio: Fx, chance: Fx) -> Vector3 {
    if spec_cannot_refract(uv, n, ratio) || chance.bits < spec_reflectance(
        spec_cos_theta(uv, n),
        ratio,
    ).bits {
        spec_reflect(uv, n)
    } else {
        spec_refract(uv, n, ratio)
    }
}

pub fn refract_or_reflect(uv: &Vector3, n: &Vector3, ratio: Fx, chance: Fx) -> (r: Vector3)
    ensures
        r == spec_refract_or_reflect(*uv, *n, ratio, chance),
{
    let one = Fx::one();
    let cos = fx_min(uv.vneg().dot(n), one);
    let sin = fx_sqrt(fx_sub(one, fx_mul(cos, cos)));
    let cannot_refract = fx_mul(ratio, sin).bits > SCALE;
    if cannot_refract || chance.bits < reflectance(cos, ratio).bits {
        reflect(uv, n)
    } else {
        refract(uv, n, ratio)
    }
}

/// The capability every material offers: decide a bounce. These materials
/// always scatter, the bounce starts at the hit point, the filter is the
/// material's own attenuation, and the outgoing direction is the material's
/// formula applied to some admissible random draw.
pub trait Material {
    spec fn spec_attenuation(&self, hit: HitRecord) -> Color;

    /// `sc` is a bounce this material can decide for the given ray and hit:
    /// right attenuation, right origin, and a direction that the material's
    /// scattering formula yields for some admissible draw.
    spec fn spec_admissible_scatter(&self, ray: Ray, hit: HitRecord, sc: Scatter) -> bool;

    fn scatter(&self, ray: &Ray, hit_record: &HitRecord, sampler: &mut Sampler) -> (r: Option<
        Scatter,
    >)
        ensures
            r is Some,
            r matches Some(sc) ==> (sc.attenuation == self.spec_attenuation(*hit_record)
                && sc.ray.origin == hit_record.point),
            r matches Some(sc) ==> self.spec_admissible_scatter(*ray, *hit_record, sc),
    ;
}

/// The diffuse bounce direction for a drawn unit vector: the drawn vector
/// plus the normal, or the normal itself when the sum cancels to zero.
pub open spec fn spec_lambertian_direction(random_unit: Vector3, norm: Vector3) -> Vector3 {
    if spec_near_zero(sv_add(random_unit, norm)) {
        norm
    } else {
        sv_add(random_unit, norm)
    }
}

/// Diffuse scattering: bounce in a random direction biased by the normal.
#[derive(Clone, Copy, PartialEq, Eq, Structural, Debug)]
pub struct Lambertian {
    pub albedo: Color,
}

impl Lambertian {
    /// The deterministic part of the diffuse bounce, with the random unit
    /// direction already drawn: the direction is the drawn vector plus the
    /// normal, or the normal itself when the sum cancels to zero.
    pub fn scatter_with(&self, hit_record: &HitRecord, random_unit: Vector3) -> (r: Scatter)
        ensures
            r.attenuation == self.albedo,
            r.ray.origin == hit_record.point,
            spec_near_zero(sv_add(random_unit, hit_record.norm)) ==> r.ray.direction
                == hit_record.norm,
            !spec_near_zero(sv_add(random_unit, hit_record.norm)) ==> r.ray.direction == sv_add(
                random_unit,
                hit_record.norm,
            ),
    {
        let candidate = random_unit.vadd(hit_record.norm);
        let scatter_direction = if near_zero(&candidate) {
            hit_record.norm
        } else {
            candidate
        };
        Scatter {
            attenuation: self.albedo,
            ray: Ray { origin: hit_record.point, direction: scatter_direction },
        }
    }
}

impl Material for Lambertian {
    open spec fn spec_attenuation(&self, hit: HitRecord) -> Color {
        self.albedo
    }

    open spec fn spec_admissible_scatter(&self, ray: Ray, hit: HitRecord, sc: Scatter) -> bool {
        &&& sc.attenuation == self.albedo
        &&& sc.ray.origin == hit.point
        &&& exists|v: Vector3| sc.ray.direction == spec_lambertian_direction(sv_to_unit(v), hit.norm)
    }

    fn scatter(&self, ray: &Ray, hit_record: &HitRecord, sampler: &mut Sampler) -> (r: Option<
        Scatter,
    >) {
        let random_unit = Vector3::random_unit_vector(sampler);
        let sc = self.scatter_with(hit_record, random_unit);
        proof {
            let v = choose|v: Vector3| random_unit == sv_to_unit(v);
            assert(sc.ray.direction == spec_lambertian_direction(sv_to_unit(v), hit_record.norm));
        }
        Some(sc)
    }
}

/// Specular scattering: mirror reflection perturbed by a fuzz factor.
#[derive(Clone, Copy, PartialEq, Eq, Structural, Debug)]
pub struct Metal {
    pub albedo: Color,
    pub fuzzy: Fx,
}

impl Metal {
    /// The deterministic part of the metallic bounce, with the fuzz
    /// perturbation already drawn.
    pub fn scatter_with(&self, ray: &Ray, hit_record: &HitRecord, random_unit: Vector3) -> (r:
        Scatter)
        ensures
            r.attenuation == self.albedo,
            r.ray.origin == hit_record.point,
            r.ray.direction == sv_add(
                spec_reflect(sv_to_unit(ray.direction), hit_record.norm),
                sv_scale(random_unit, self.fuzzy),
            ),
    {
        let reflected = reflect(&ray.direction.to_unit(), &hit_record.norm).vadd(
            random_unit.scale(self.fuzzy),
        );
        Scatter {
            attenuation: self.albedo,
            ray: Ray { origin: hit_record.point, direction: reflected },
        }
    }
}

impl Material for Metal {
    open spec fn spec_attenuation(&self, hit: HitRecord) -> Color {
        self.albedo
    }

    open spec fn spec_admissible_scatter(&self, ray: Ray, hit: HitRecord, sc: Scatter) -> bool {
        &&& sc.attenuation == self.albedo
        &&& sc.ray.origin == hit.point
        &&& exists|v: Vector3|
            sc.ray.direction == sv_add(
                spec_reflect(sv_to_unit(ray.direction), hit.norm),
                sv_scale(sv_to_unit(v), self.fuzzy),
            )
    }

    fn scatter(&self, ray: &Ray, hit_record: &HitRecord, sampler: &mut Sampler) -> (r: Option<
        Scatter,
    >) {
        let random_unit = Vector3::random_unit_vector(sampler);
        let sc = self.scatter_with(ray, hit_record, random_unit);
        proof {
            let v = choose|v: Vector3| random_unit == sv_to_unit(v);
            assert(sc.ray.direction == sv_add(
                spec_reflect(sv_to_unit(ray.direction), hit_record.norm),
                sv_scale(sv_to_unit(v), self.fuzzy),
            ));
        }
        Some(sc)
    }
}

/// Glass: refracts or reflects by Snell's law, Schlick reflectance and a
/// random draw; absorbs nothing, so its filter is white.
#[derive(Clone, Copy, PartialEq, Eq, Structural, Debug)]
pub struct DiElectric {
    pub index_of_refraction: Fx,
}

/// The white attenuation glass applies.
pub open spec fn spec_white() -> Color {
    Vector3 { x: Fx::spec_one(), y: Fx::spec_one(), z: Fx::spec_one() }
}

impl DiElectric {
    /// The ratio of refraction indices the bounce uses: inverted when the
    /// ray enters through the front face.
    pub open spec fn spec_ratio(&self, front_face: bool) -> Fx {
        if front_face {
            s_div(Fx::spec_one(), self.index_of_refraction)
        } else {
            self.index_of_refraction
        }
    }

    /// The deterministic part of the glass bounce, with the reflect-or-refract
    /// chance already drawn.
    pub fn scatter_with(&self, ray: &Ray, hit_record: &HitRecord, chance: Fx) -> (r: Scatter)
        ensures
            r.attenuation == spec_white(),
            r.ray.origin == hit_record.point,
            r.ray.direction == spec_refract_or_reflect(
                sv_to_unit(ray.direction),
                hit_record.norm,
                self.spec_ratio(hit_record.front_face),
                chance,
            ),
    {
        let refraction_ratio = if hit_record.front_face {
            fx_div(Fx::one(), self.index_of_refraction)
        } else {
            self.index_of_refraction
        };
        let unit_direction = ray.direction.to_unit();
        let scattered_direction = refract_or_reflect(
            &unit_direction,
            &hit_record.norm,
            refraction_ratio,
            chance,
        );
        let one = Fx::one();
        Scatter {
            attenuation: Vector3 { x: one, y: one, z: one },
            ray: Ray { origin: hit_record.point, direction: scattered_direction },
        }
    }
}

impl Material for DiElectric {
    open spec fn spec_attenuation(&self, hit: HitRecord) -> Color {
        spec_white()
    }

    open spec fn spec_admissible_scatter(&self, ray: Ray, hit: HitRecord, sc: Scatter) -> bool {
        &&& sc.attenuation == spec_white()
        &&& sc.ray.origin == hit.point
        &&& exists|chance: Fx|
            is_unit_draw(chance) && sc.ray.direction == spec_refract_or_reflect(
                sv_to_unit(ray.direction),
                hit.norm,
                self.spec_ratio(hit.front_face),
                chance,
            )
    }

    fn scatter(&self, ray: &Ray, hit_record: &HitRecord, sampler: &mut Sampler) -> (r: Option<
        Scatter,
    >) {
        let chance = sampler.next_unit();
        let sc = self.scatter_with(ray, hit_record, chance);
        proof {
            assert(is_unit_draw(chance) && sc.ray.direction == spec_refract_or_reflect(
                sv_to_unit(ray.direction),
                hit_record.norm,
                self.spec_ratio(hit_record.front_face),
                chance,
            ));
        }
        Some(sc)
    }
}

/// The closed set of material behaviors a scene can register.
#[derive(Clone, Copy, PartialEq, Eq, Structural, Debug)]
pub enum MaterialKind {
    Lambertian(Lambertian),
    Metal(Metal),
    DiElectric(DiElectric),
}

impl Material for MaterialKind {
    open spec fn spec_attenuation(&self, hit: HitRecord) -> Color {
        match *self {
            MaterialKind::Lambertian(m) => m.spec_attenuation(hit),
            MaterialKind::Metal(m) => m.spec_attenuation(hit),
            MaterialKind::DiElectric(m) => m.spec_attenuation(hit),
        }
    }

    open spec fn spec_admissible_scatter(&self, ray: Ray, hit: HitRecord, sc: Scatter) -> bool {
        match *self {
            MaterialKind::Lambertian(m) => m.spec_admissible_scatter(ray, hit, sc),
            MaterialKind::Metal(m) => m.spec_admissible_scatter(ray, hit, sc),
            MaterialKind::DiElectric(m) => m.spec_admissible_scatter(ray, hit, sc),
        }
    }

    fn scatter(&self, ray: &Ray, hit_record: &HitRecord, sampler: &mut Sampler) -> (r: Option<
        Scatter,
    >) {
        match self {
            MaterialKind::Lambertian(m) => m.scatter(ray, hit_record, sampler),
            MaterialKind::Metal(m) => m.scatter(ray, hit_record, sampler),
            MaterialKind::DiElectric(m) => m.scatter(ray, hit_record, sampler),
        }
    }
}

/// A registered material together with the handle primitives reference it by.
#[derive(Clone, Copy, PartialEq, Eq, Structural, Debug)]
pub struct MaterialContainer {
    pub material: MaterialKind,
    pub id: usize,
}

/// The material registry: an arena whose indices are the handles stored in
/// the scene's primitives.
pub struct Materials {
    pub materials: Vec<MaterialKind>,
}

impl Materials {
    pub fn new() -> (r: Materials)
        ensures
            r.materials@ =~= Seq::<MaterialKind>::empty(),
    {
        Materials { materials: Vec::new() }
    }

    /// Register a material; the returned container carries its handle.
    pub fn insert(&mut self, material: MaterialKind) -> (c: MaterialContainer)
        ensures
            final(self).materials@ == old(self).materials@.push(material),
            c.material == material,
            c.id == old(self).materials@.len(),
    {
        let id = self.materials.len();
        self.materials.push(material);
        MaterialContainer { material, id }
    }

    /// Resolve a handle; a registered scene never holds a dangling one.
    pub fn index(&self, id: usize) -> (r: &MaterialKind)
        requires
            id < self.materials@.len(),
        ensures
            *r == self.materials@[id as int],
    {
        &self.materials[id]
    }
}

} // verus!
