//! The camera and renderer: viewport and defocus-disk geometry derived once
//! per render, per-pixel ray sampling with antialiasing jitter, the
//! depth-limited recursive color integrator, and the raster loop that
//! averages samples into pixels.

use vstd::prelude::*;
use crate::color::Color;
use crate::color::Rgb;
use crate::color::get_rgb;
use crate::color::spec_gamma_channel;
use crate::framebuffer::Image;
use crate::framebuffer::pixel_entry;
use crate::framebuffer::spec_pixel;
use crate::fx::Fx;
use crate::fx::SCALE;
use crate::fx::s_add;
use crate::fx::s_sub;
use crate::fx::s_mul;
use crate::fx::s_div;
use crate::fx::fx_add;
use crate::fx::fx_sub;
use crate::fx::fx_mul;
use crate::fx::fx_div;
use crate::materials::Scatter;
use crate::hittables::spec_scene_hit;
use crate::hittables::lemma_scene_hit_material_bound;
use crate::geometry::Axes2D;
use crate::geometry::Axes3D;
use crate::geometry::CoordinateSystem;
use crate::interval::Interval;
use crate::materials::Material;
use crate::materials::spec_white;
use crate::ray::Ray;
use crate::sampler::Sampler;
use crate::trig::spec_deg_to_rad;
use crate::trig::spec_tan;
use crate::trig::deg_to_rad;
use crate::trig::tan;
use crate::vector3::MatrixCross;
use crate::vector3::Point3;
use crate::vector3::Vector3;
use crate::vector3::sv_add;
use crate::vector3::sv_sub;
use crate::vector3::sv_mul;
use crate::vector3::sv_neg;
use crate::vector3::sv_scale;
use crate::vector3::sv_div_scalar;
use crate::vector3::sv_cross;
use crate::vector3::sv_norm_squared;
use crate::vector3::sv_to_unit;
use crate::world::World;

verus! {

#[derive(Clone, Copy, PartialEq, Eq, Structural, Debug)]
pub struct CameraGeometryParam {
    pub center: Point3,
    pub lookat: Point3,
    pub up: Vector3,
}

#[derive(Clone, Copy, PartialEq, Eq, Structural, Debug)]
pub struct CameraOpticalParam {
    pub focus_dist: Fx,
    pub vfov_deg: Fx,
    pub defocus_angle: Fx,
}

#[derive(Clone, Copy, PartialEq, Eq, Structural, Debug)]
pub struct ImageSize {
    pub aspect_ratio: Fx,
    pub width: u32,
}

#[derive(Clone, Copy, PartialEq, Eq, Structural, Debug)]
pub struct Rect {
    pub width: u32,
    pub height: u32,
}

/// The immutable derived geometry a render shares across all pixels.
#[derive(Clone, Copy, PartialEq, Eq, Structural, Debug)]
pub struct RenderingParameters {
    pub camera_coord: CoordinateSystem,
    pub viewport_coord: CoordinateSystem,
    pub image_coord: CoordinateSystem,
    pub defocus_disk_axes: Axes2D,
    pub image_rect: Rect,
}

#[derive(Clone, Copy, PartialEq, Eq, Structural, Debug)]
pub struct Camera {
    // geometric params
    pub geometry: CameraGeometryParam,
    // image params
    pub image_size: ImageSize,
    // optical params
    pub optical_params: CameraOpticalParam,
    // render params
    pub samples_per_pixel: u32,
    pub max_depth: i32,
    pub max_workers: usize,
}

/// Antialiasing jitter within a pixel's footprint: a draw from `[-0.5, 0.5)`.
pub open spec fn is_jitter_draw(j: Fx) -> bool {
    -32768 <= j.bits < 32768
}

/// A point inside the unit disk of the `x`-`y` plane.
pub open spec fn spec_in_disk(v: Vector3) -> bool {
    sv_norm_squared(v).bits < SCALE && v.z.bits == 0
}

/// The offset within a pixel's footprint for the given jitter draws.
pub fn pixel_sample_square(axes: Axes3D, jx: Fx, jy: Fx) -> (r: Vector3)
    ensures
        r == sv_add(sv_scale(axes.u, jx), sv_scale(axes.v, jy)),
{
    axes.u.scale(jx).vadd(axes.v.scale(jy))
}

/// The defocus-disk point for a drawn disk sample.
pub fn defocus_disk_sample(center: Vector3, defocus_disk_axes: Axes2D, disk: Vector3) -> (r: Point3)
    ensures
        r == sv_add(
            sv_add(center, sv_scale(defocus_disk_axes.u, disk.x)),
            sv_scale(defocus_disk_axes.v, disk.y),
        ),
{
    center.vadd(defocus_disk_axes.u.scale(disk.x)).vadd(defocus_disk_axes.v.scale(disk.y))
}

impl Camera {
    /// Pixel rows: the width divided by the aspect ratio, at least one.
    pub open spec fn spec_image_height(&self) -> u32 {
        let raw = s_div(
            Fx::spec_from_u32(self.image_size.width),
            self.image_size.aspect_ratio,
        ).spec_to_u32_trunc();
        if raw >= 1 {
            raw
        } else {
            1u32
        }
    }

    /// The derived rendering geometry: camera basis from center, look-at and
    /// up; viewport extents from field of view and focus distance; per-pixel
    /// deltas; the upper-left pixel center; and the defocus-disk axes. Kept
    /// opaque so render-loop proofs do not unfold the whole derivation.
    #[verifier::opaque]
    pub open spec fn spec_initialize(&self) -> RenderingParameters {
        let center = self.geometry.center;
        let image_width = self.image_size.width;
        let image_height = self.spec_image_height();
        let h = spec_tan(
            s_div(spec_deg_to_rad(self.optical_params.vfov_deg), Fx::spec_from_int(2)),
        );
        let viewport_height = s_mul(
            s_mul(Fx::spec_from_int(2), h),
            self.optical_params.focus_dist,
        );
        let viewport_width = s_mul(
            viewport_height,
            s_div(Fx::spec_from_u32(image_width), Fx::spec_from_u32(image_height)),
        );
        let coord_w = sv_to_unit(sv_sub(center, self.geometry.lookat));
        let coord_u = sv_to_unit(sv_cross(self.geometry.up, coord_w));
        let coord_v = sv_cross(coord_w, coord_u);
        let viewport_u = sv_scale(coord_u, viewport_width);
        let viewport_v = sv_scale(sv_neg(coord_v), viewport_height);
        let pixel_delta_u = sv_div_scalar(viewport_u, Fx::spec_from_u32(image_width));
        let pixel_delta_v = sv_div_scalar(viewport_v, Fx::spec_from_u32(image_height));
        let viewport_upper_left = sv_sub(
            sv_sub(
                sv_sub(center, sv_scale(coord_w, self.optical_params.focus_dist)),
                sv_div_scalar(viewport_u, Fx::spec_from_int(2)),
            ),
            sv_div_scalar(viewport_v, Fx::spec_from_int(2)),
        );
        let pixel00_loc = sv_add(
            viewport_upper_left,
            sv_scale(sv_add(pixel_delta_u, pixel_delta_v), Fx { bits: 32768 }),
        );
        let defocus_radius = s_mul(
            self.optical_params.focus_dist,
            spec_tan(
                spec_deg_to_rad(s_div(self.optical_params.defocus_angle, Fx::spec_from_int(2))),
            ),
        );
        RenderingParameters {
            camera_coord: CoordinateSystem {
                axes: Axes3D { u: coord_u, v: coord_v, w: coord_w },
                origin: center,
            },
            viewport_coord: CoordinateSystem {
                axes: Axes3D { u: viewport_u, v: viewport_v, w: Vector3::spec_zero() },
                origin: viewport_upper_left,
            },
            image_coord: CoordinateSystem {
                axes: Axes3D { u: pixel_delta_u, v: pixel_delta_v, w: Vector3::spec_zero() },
                origin: pixel00_loc,
            },
            defocus_disk_axes: Axes2D {
                u: sv_scale(coord_u, defocus_radius),
                v: sv_scale(coord_v, defocus_radius),
            },
            image_rect: Rect { width: image_width, height: image_height },
        }
    }

    pub fn initialize(&self) -> (rp: RenderingParameters)
        ensures
            rp == self.spec_initialize(),
    {
        proof {
            reveal(Camera::spec_initialize);
        }
        let two = Fx::from_int(2);
        let half = Fx { bits: 32768 };
        let center = self.geometry.center;
        let image_width = self.image_size.width;
        let raw_height = fx_div(
            Fx::from_u32(image_width),
            self.image_size.aspect_ratio,
        ).to_u32_trunc();
        let image_height = if raw_height >= 1 {
            raw_height
        } else {
            1
        };

        // Determine viewport dimensions.
        let h = tan(fx_div(deg_to_rad(self.optical_params.vfov_deg), two));
        let viewport_height = fx_mul(fx_mul(two, h), self.optical_params.focus_dist);
        let viewport_width = fx_mul(
            viewport_height,
            fx_div(Fx::from_u32(image_width), Fx::from_u32(image_height)),
        );

        let coord_w = center.vsub(self.geometry.lookat).to_unit();
        let coord_u = self.geometry.up.cross(&coord_w).to_unit();
        let coord_v = coord_w.cross(&coord_u);

        let viewport_u = coord_u.scale(viewport_width);
        let viewport_v = coord_v.vneg().scale(viewport_height);

        let pixel_delta_u = viewport_u.div_scalar(Fx::from_u32(image_width));
        let pixel_delta_v = viewport_v.div_scalar(Fx::from_u32(image_height));

        // The location of the upper left pixel.
        let viewport_upper_left = center
            .vsub(coord_w.scale(self.optical_params.focus_dist))
            .vsub(viewport_u.div_scalar(two))
            .vsub(viewport_v.div_scalar(two));
        let pixel00_loc = viewport_upper_left.vadd(pixel_delta_u.vadd(pixel_delta_v).scale(half));

        // The camera defocus disk basis vectors.
        let defocus_radius = fx_mul(
            self.optical_params.focus_dist,
            tan(deg_to_rad(fx_div(self.optical_params.defocus_angle, two))),
        );

        RenderingParameters {
            camera_coord: CoordinateSystem {
                axes: Axes3D { u: coord_u, v: coord_v, w: coord_w },
                origin: center,
            },
            viewport_coord: CoordinateSystem {
                axes: Axes3D { u: viewport_u, v: viewport_v, w: Vector3::zero() },
                origin: viewport_upper_left,
            },
            image_coord: CoordinateSystem {
                axes: Axes3D { u: pixel_delta_u, v: pixel_delta_v, w: Vector3::zero() },
                origin: pixel00_loc,
            },
            defocus_disk_axes: Axes2D {
                u: coord_u.scale(defocus_radius),
                v: coord_v.scale(defocus_radius),
            },
            image_rect: Rect { width: image_width, height: image_height },
        }
    }

    /// The camera ray for pixel `(x, y)` with the sampling draws given:
    /// jittered pixel center, origin on the defocus disk when the aperture
    /// is open, unit direction.
    pub open spec fn spec_ray_for(
        &self,
        x: u32,
        y: u32,
        rp: RenderingParameters,
        jx: Fx,
        jy: Fx,
        disk: Vector3,
    ) -> Ray {
        let ic = rp.image_coord;
        let pixel_center = sv_add(
            sv_add(ic.origin, sv_scale(ic.axes.u, Fx::spec_from_u32(x))),
            sv_scale(ic.axes.v, Fx::spec_from_u32(y)),
        );
        let pixel_sample = sv_add(
            pixel_center,
            sv_add(sv_scale(ic.axes.u, jx), sv_scale(ic.axes.v, jy)),
        );
        let ray_origin = if self.optical_params.defocus_angle.bits <= 0 {
            self.geometry.center
        } else {
            sv_add(
                sv_add(self.geometry.center, sv_scale(rp.defocus_disk_axes.u, disk.x)),
                sv_scale(rp.defocus_disk_axes.v, disk.y),
            )
        };
        Ray { origin: ray_origin, direction: sv_to_unit(sv_sub(pixel_sample, ray_origin)) }
    }

    /// The deterministic part of ray generation, with all draws given.
    pub fn get_ray_with(
        &self,
        x: u32,
        y: u32,
        rendering_params: RenderingParameters,
        jx: Fx,
        jy: Fx,
        disk: Vector3,
    ) -> (r: Ray)
        ensures
            r == self.spec_ray_for(x, y, rendering_params, jx, jy, disk),
    {
        let image_coord = rendering_params.image_coord;
        let pixel_center = image_coord.origin
            .vadd(image_coord.axes.u.scale(Fx::from_u32(x)))
            .vadd(image_coord.axes.v.scale(Fx::from_u32(y)));
        let pixel_sample = pixel_center.vadd(pixel_sample_square(image_coord.axes, jx, jy));

        let ray_origin = if self.optical_params.defocus_angle.bits <= 0 {
            self.geometry.center
        } else {
            defocus_disk_sample(
                self.geometry.center,
                rendering_params.defocus_disk_axes,
                disk,
            )
        };
        let ray_direction = pixel_sample.vsub(ray_origin).to_unit();
        Ray { origin: ray_origin, direction: ray_direction }
    }

    /// `r` is the ray for `(x, y)` under some admissible jitter and disk draws.
    pub open spec fn spec_sampled_ray(
        &self,
        x: u32,
        y: u32,
        rp: RenderingParameters,
        r: Ray,
        jx: Fx,
        jy: Fx,
        disk: Vector3,
    ) -> bool {
        is_jitter_draw(jx) && is_jitter_draw(jy) && spec_in_disk(disk) && r == self.spec_ray_for(
            x,
            y,
            rp,
            jx,
            jy,
            disk,
        )
    }

    /// A randomly-sampled camera ray for the pixel at `(x, y)`, originating
    /// from the camera defocus disk when the aperture is open.
    pub fn get_ray(
        &self,
        x: u32,
        y: u32,
        rendering_params: RenderingParameters,
        sampler: &mut Sampler,
    ) -> (r: Ray)
        ensures
            exists|jx: Fx, jy: Fx, disk: Vector3|
                self.spec_sampled_ray(x, y, rendering_params, r, jx, jy, disk),
    {
        let half_neg = Fx { bits: -32768 };
        let jx = fx_add(half_neg, sampler.next_unit());
        let jy = fx_add(half_neg, sampler.next_unit());
        let disk = if self.optical_params.defocus_angle.bits <= 0 {
            Vector3::zero()
        } else {
            Vector3::random_in_unit_disk(sampler)
        };
        let r = self.get_ray_with(x, y, rendering_params, jx, jy, disk);
        proof {
            assert(spec_in_disk(disk));
            assert(self.spec_sampled_ray(x, y, rendering_params, r, jx, jy, disk));
        }
        r
    }
}

pub open spec fn spec_black() -> Color {
    Vector3::spec_zero()
}

pub open spec fn spec_sky_blue() -> Color {
    Vector3 { x: Fx { bits: 32768 }, y: Fx { bits: 45875 }, z: Fx { bits: 65536 } }
}

/// The background gradient: white blended toward sky blue by the unit
/// direction's vertical component, `alpha = (dir.y + 1) / 2`.
pub open spec fn spec_background(ray: Ray) -> Color {
    let dir = sv_to_unit(ray.direction);
    let alpha = s_mul(Fx { bits: 32768 }, s_add(dir.y, Fx::spec_one()));
    sv_add(
        sv_scale(spec_white(), s_sub(Fx::spec_one(), alpha)),
        sv_scale(spec_sky_blue(), alpha),
    )
}

pub fn ray_color_background(r: &Ray) -> (c: Color)
    ensures
        c == spec_background(*r),
{
    let one = Fx::one();
    let dir = r.direction.to_unit();
    let alpha = fx_mul(Fx { bits: 32768 }, fx_add(dir.y, one));
    let white = Vector3 { x: one, y: one, z: one };
    let sky = Vector3 { x: Fx { bits: 32768 }, y: Fx { bits: 45875 }, z: Fx { bits: 65536 } };
    white.scale(fx_sub(one, alpha)).vadd(sky.scale(alpha))
}

/// The ray-parameter domain a bounce is traced over: an epsilon lower bound
/// avoids re-intersecting the originating surface.
pub open spec fn spec_acne_interval() -> Interval {
    Interval { min: Fx { bits: 65 }, max: Fx::spec_infinity() }
}

/// `c` is an outcome the integrator can produce for this ray and depth:
/// black once the depth budget is spent; the exact background gradient on a
/// miss; and on a hit, an admissible scatter of the nearest hit's material,
/// recursively traced one level shallower and filtered by its attenuation.
/// Kept opaque so render-loop proofs do not unfold the transport recursion.
#[verifier::opaque]
pub open spec fn spec_admissible_ray_color(ray: Ray, world: World, depth: int, c: Color) -> bool
    decreases depth,
{
    if depth <= 0 {
        c == spec_black()
    } else {
        match spec_scene_hit(world.objects.objects@, ray, spec_acne_interval()) {
            Some(h) => exists|sc: Scatter, bounce: Color|
                world.materials.materials@[h.material_id as int].spec_admissible_scatter(ray, h, sc)
                    && spec_admissible_ray_color(sc.ray, world, depth - 1, bounce) && c == sv_mul(
                    bounce,
                    sc.attenuation,
                ),
            None => c == spec_background(ray),
        }
    }
}

/// Depth-limited recursive light transport: black once the depth budget is
/// spent; otherwise the nearest hit's material decides the bounce, and the
/// gathered light is filtered by its attenuation; a miss yields the
/// background gradient.
pub fn ray_color(ray: &Ray, world: &World, depth: i32, sampler: &mut Sampler) -> (c: Color)
    requires
        world.wf(),
    ensures
        depth <= 0 ==> c == spec_black(),
        depth > 0 && spec_scene_hit(world.objects.objects@, *ray, spec_acne_interval()) is None
            ==> c == spec_background(*ray),
        spec_admissible_ray_color(*ray, *world, depth as int, c),
    decreases depth,
{
    proof {
        reveal(spec_admissible_ray_color);
    }
    if depth <= 0 {
        return Vector3::zero();
    }

    let acne = Interval { min: Fx { bits: 65 }, max: Fx::infinity() };
    match world.objects.hit(ray, acne) {
        Some(result) => {
            proof {
                lemma_scene_hit_material_bound(
                    world.objects.objects@,
                    *ray,
                    acne,
                    world.materials.materials@.len() as int,
                );
            }
            let material = *world.materials.index(result.material_id);
            match material.scatter(ray, &result, sampler) {
                Some(scattered) => {
                    let bounce = ray_color(&scattered.ray, world, depth - 1, sampler);
                    let c = bounce.vmul(scattered.attenuation);
                    proof {
                        assert(world.materials.materials@[
                            result.material_id as int
                        ].spec_admissible_scatter(*ray, result, scattered)
                            && spec_admissible_ray_color(
                            scattered.ray,
                            *world,
                            depth as int - 1,
                            bounce,
                        ) && c == sv_mul(bounce, scattered.attenuation));
                    }
                    c
                },
                None => Vector3::zero(),
            }
        },
        None => ray_color_background(ray),
    }
}

/// Sum of sample colors, in the order they were gathered.
pub open spec fn spec_color_sum(samples: Seq<Color>) -> Color
    decreases samples.len(),
{
    if samples.len() == 0 {
        Vector3::spec_zero()
    } else {
        sv_add(spec_color_sum(samples.drop_last()), samples.last())
    }
}

/// The pixel for a batch of sample colors: the gamma-corrected quantization
/// of their unweighted average.
pub open spec fn spec_quantized_average(samples: Seq<Color>, n: u32) -> Rgb {
    let avg = sv_div_scalar(spec_color_sum(samples), Fx::spec_from_u32(n));
    Rgb {
        r: spec_gamma_channel(avg.x),
        g: spec_gamma_channel(avg.y),
        b: spec_gamma_channel(avg.z),
    }
}

impl Camera {
    /// `c` is an admissible color for one sample of pixel `(x, y)`: an
    /// admissible camera ray for the pixel, traced to an admissible
    /// integrator outcome at the camera's depth budget.
    pub open spec fn spec_admissible_sample(&self, world: World, x: u32, y: u32, c: Color) -> bool {
        exists|r: Ray, jx: Fx, jy: Fx, disk: Vector3|
            self.spec_sampled_ray(x, y, self.spec_initialize(), r, jx, jy, disk)
                && spec_admissible_ray_color(r, world, self.max_depth as int, c)
    }

    /// `p` is the pixel that the given batch of admissible sample colors for
    /// `(x, y)` averages to.
    pub open spec fn spec_pixel_from_samples(
        &self,
        world: World,
        x: u32,
        y: u32,
        p: Rgb,
        samples: Seq<Color>,
    ) -> bool {
        &&& samples.len() == self.samples_per_pixel
        &&& forall|k: int|
            0 <= k < samples.len() ==> self.spec_admissible_sample(
                world,
                x,
                y,
                #[trigger] samples[k],
            )
        &&& p == spec_quantized_average(samples, self.samples_per_pixel)
    }
}

/// The rendering capability: produce an image of the stated dimensions from
/// a renderable world, each pixel the gamma-corrected quantization of the
/// unweighted average of its per-pixel sample colors.
pub trait Renderer {
    spec fn spec_can_render(&self, world: World) -> bool;

    spec fn spec_width(&self) -> u32;

    spec fn spec_height(&self) -> u32;

    /// `p` can be the rendered pixel at `(x, y)`: the quantized unweighted
    /// average of a full batch of admissible sample colors for that pixel.
    spec fn spec_admissible_pixel(&self, world: World, x: u32, y: u32, p: Rgb) -> bool;

    fn render(&self, world: &World, sampler: &mut Sampler) -> (img: Image)
        requires
            self.spec_can_render(*world),
        ensures
            img.width == self.spec_width(),
            img.height == self.spec_height(),
            img.wf(),
            forall|x: u32, y: u32|
                x < img.width && y < img.height ==> self.spec_admissible_pixel(
                    *world,
                    x,
                    y,
                    #[trigger] spec_pixel(img, x, y),
                ),
    ;
}

impl Renderer for Camera {
    open spec fn spec_can_render(&self, world: World) -> bool {
        world.wf() && self.samples_per_pixel >= 1
    }

    open spec fn spec_width(&self) -> u32 {
        self.image_size.width
    }

    open spec fn spec_height(&self) -> u32 {
        self.spec_image_height()
    }

    open spec fn spec_admissible_pixel(&self, world: World, x: u32, y: u32, p: Rgb) -> bool {
        exists|samples: Seq<Color>| self.spec_pixel_from_samples(world, x, y, p, samples)
    }

    /// Raster-order rendering: for each pixel, average the colors of
    /// independently sampled rays, gamma-correct and quantize.
    #[verifier::rlimit(100)]
    #[verifier::spinoff_prover]
    fn render(&self, world: &World, sampler: &mut Sampler) -> (img: Image) {
        let render_params = self.initialize();
        let image_width = render_params.image_rect.width;
        let image_height = render_params.image_rect.height;
        proof {
            reveal(Camera::spec_initialize);
            assert(image_width == self.image_size.width);
            assert(image_height == self.spec_image_height());
        }

        let mut pixels: Vec<Rgb> = Vec::new();
        let mut y: u32 = 0;
        while y < image_height
            invariant
                y <= image_height,
                pixels@.len() == y * image_width,
                world.wf(),
                self.samples_per_pixel >= 1,
                render_params == self.spec_initialize(),
                forall|xx: u32, yy: u32|
                    yy < y && xx < image_width ==> self.spec_admissible_pixel(
                        *world,
                        xx,
                        yy,
                        #[trigger] pixel_entry(pixels@, image_width, xx, yy),
                    ),
            decreases image_height - y,
        {
            let mut x: u32 = 0;
            while x < image_width
                invariant
                    x <= image_width,
                    y < image_height,
                    pixels@.len() == y * image_width + x,
                    world.wf(),
                    self.samples_per_pixel >= 1,
                    render_params == self.spec_initialize(),
                    forall|xx: u32, yy: u32|
                        yy < y && xx < image_width ==> self.spec_admissible_pixel(
                            *world,
                            xx,
                            yy,
                            #[trigger] pixel_entry(pixels@, image_width, xx, yy),
                        ),
                    forall|xx: u32|
                        xx < x ==> self.spec_admissible_pixel(
                            *world,
                            xx,
                            y,
                            #[trigger] pixel_entry(pixels@, image_width, xx, y),
                        ),
                decreases image_width - x,
            {
                let mut color: Color = Vector3::zero();
                let ghost mut samples: Seq<Color> = Seq::empty();
                let mut s: u32 = 0;
                while s < self.samples_per_pixel
                    invariant
                        world.wf(),
                        render_params == self.spec_initialize(),
                        s <= self.samples_per_pixel,
                        samples.len() == s,
                        color == spec_color_sum(samples),
                        forall|k: int|
                            0 <= k < samples.len() ==> self.spec_admissible_sample(
                                *world,
                                x,
                                y,
                                #[trigger] samples[k],
                            ),
                    decreases self.samples_per_pixel - s,
                {
                    let ray = self.get_ray(x, y, render_params, sampler);
                    let sample = ray_color(&ray, world, self.max_depth, sampler);
                    let ghost prev_samples = samples;
                    let ghost prev_color = color;
                    color = color.vadd(sample);
                    proof {
                        let (jx, jy, disk) = choose|jx: Fx, jy: Fx, disk: Vector3|
                            self.spec_sampled_ray(x, y, render_params, ray, jx, jy, disk);
                        assert(self.spec_sampled_ray(
                            x,
                            y,
                            self.spec_initialize(),
                            ray,
                            jx,
                            jy,
                            disk,
                        ));
                        assert(self.spec_admissible_sample(*world, x, y, sample));
                        samples = samples.push(sample);
                        assert(samples.drop_last() =~= prev_samples);
                        assert(samples.last() == sample);
                        assert(color == spec_color_sum(samples));
                    }
                    s = s + 1;
                }
                let avg = color.div_scalar(Fx::from_u32(self.samples_per_pixel));
                let rgb = get_rgb(&avg);
                let ghost prev_pixels = pixels@;
                pixels.push(rgb);
                proof {
                    assert(rgb == spec_quantized_average(samples, self.samples_per_pixel));
                    assert(self.spec_pixel_from_samples(*world, x, y, rgb, samples));
                    assert(self.spec_admissible_pixel(*world, x, y, rgb));

                    // earlier rows are untouched by the push
                    assert forall|xx: u32, yy: u32|
                        yy < y && xx < image_width implies self.spec_admissible_pixel(
                        *world,
                        xx,
                        yy,
                        pixel_entry(pixels@, image_width, xx, yy),
                    ) by {
                        vstd::arithmetic::mul::lemma_mul_inequality(
                            yy as int + 1,
                            y as int,
                            image_width as int,
                        );
                        assert((yy as int + 1) * image_width == yy * image_width + image_width)
                            by (nonlinear_arith);
                        assert(yy * image_width + xx < prev_pixels.len());
                        assert(pixel_entry(pixels@, image_width, xx, yy) == pixel_entry(
                            prev_pixels,
                            image_width,
                            xx,
                            yy,
                        ));
                    }
                    // earlier pixels of this row are untouched too
                    assert forall|xx: u32| xx < x + 1 implies self.spec_admissible_pixel(
                        *world,
                        xx,
                        y,
                        pixel_entry(pixels@, image_width, xx, y),
                    ) by {
                        if xx < x {
                            assert(y * image_width + xx < prev_pixels.len());
                            assert(pixel_entry(pixels@, image_width, xx, y) == pixel_entry(
                                prev_pixels,
                                image_width,
                                xx,
                                y,
                            ));
                        } else {
                            assert(y * image_width + xx == prev_pixels.len());
                            assert(pixel_entry(pixels@, image_width, xx, y) == rgb);
                        }
                    }
                }
                x = x + 1;
            }
            proof {
                assert((y as int + 1) * image_width == y * image_width + image_width)
                    by (nonlinear_arith);
                assert forall|xx: u32, yy: u32|
                    yy < y + 1 && xx < image_width implies self.spec_admissible_pixel(
                    *world,
                    xx,
                    yy,
                    pixel_entry(pixels@, image_width, xx, yy),
                ) by {
                    if yy < y {
                        assert(self.spec_admissible_pixel(
                            *world,
                            xx,
                            yy,
                            pixel_entry(pixels@, image_width, xx, yy),
                        ));
                    } else {
                        assert(self.spec_admissible_pixel(
                            *world,
                            xx,
                            y,
                            pixel_entry(pixels@, image_width, xx, y),
                        ));
                    }
                }
            }
            y = y + 1;
        }
        proof {
            assert(image_height * image_width == image_width * image_height)
                by (nonlinear_arith);
        }
        let img = Image { width: image_width, height: image_height, pixels };
        proof {
            assert forall|x: u32, y: u32|
                x < img.width && y < img.height implies self.spec_admissible_pixel(
                *world,
                x,
                y,
                spec_pixel(img, x, y),
            ) by {
                assert(spec_pixel(img, x, y) == pixel_entry(img.pixels@, image_width, x, y));
            }
        }
        img
    }
}

} // verus!
