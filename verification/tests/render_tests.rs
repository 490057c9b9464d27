use raytracer::camera::Camera;
use raytracer::camera::CameraGeometryParam;
use raytracer::camera::CameraOpticalParam;
use raytracer::camera::ImageSize;
use raytracer::camera::Renderer;
use raytracer::camera::ray_color;
use raytracer::fx::Fx;
use raytracer::hittables::Hittables;
use raytracer::hittables::Object;
use raytracer::materials::Lambertian;
use raytracer::materials::MaterialKind;
use raytracer::materials::Materials;
use raytracer::ray::Ray;
use raytracer::sampler::Sampler;
use raytracer::sphere::Sphere;
use raytracer::vector3::Vector3;
use raytracer::world::World;

fn v(x: i32, y: i32, z: i32) -> Vector3 {
    Vector3 { x: Fx::from_int(x), y: Fx::from_int(y), z: Fx::from_int(z) }
}

/// A ground sphere far below the camera and one red foreground sphere.
fn test_world() -> World {
    let mut materials = Materials::new();
    let ground = materials.insert(MaterialKind::Lambertian(Lambertian {
        albedo: Vector3 {
            x: Fx::from_bits(32768),
            y: Fx::from_bits(32768),
            z: Fx::from_bits(32768),
        },
    }));
    let red = materials.insert(MaterialKind::Lambertian(Lambertian {
        albedo: Vector3 { x: Fx::from_bits(58982), y: Fx::from_bits(6553), z: Fx::from_bits(6553) },
    }));

    let mut objects = Hittables::new();
    objects.insert(Object::Sphere(Sphere {
        r: Fx::from_int(100),
        center: Vector3 { x: Fx::zero(), y: Fx::from_bits(-6586368), z: Fx::from_int(-1) },
        material_id: ground.id,
    }));
    objects.insert(Object::Sphere(Sphere {
        r: Fx::from_bits(32768),
        center: v(0, 0, -1),
        material_id: red.id,
    }));
    World { objects, materials }
}

fn test_camera() -> Camera {
    Camera {
        geometry: CameraGeometryParam {
            center: v(0, 0, 0),
            lookat: v(0, 0, -1),
            up: v(0, 1, 0),
        },
        image_size: ImageSize {
            // four thirds
            aspect_ratio: Fx::from_bits(87381),
            width: 20,
        },
        optical_params: CameraOpticalParam {
            focus_dist: Fx::one(),
            vfov_deg: Fx::from_int(90),
            defocus_angle: Fx::zero(),
        },
        samples_per_pixel: 4,
        max_depth: 5,
        max_workers: 1,
    }
}

#[test]
fn ray_color_depth_zero_is_black() {
    let world = test_world();
    let mut sampler = Sampler::seeded(3);
    let ray = Ray { origin: v(0, 0, 0), direction: v(0, 0, -1) };
    let c = ray_color(&ray, &world, 0, &mut sampler);
    assert_eq!(c, v(0, 0, 0));
    let c2 = ray_color(&ray, &world, -3, &mut sampler);
    assert_eq!(c2, v(0, 0, 0));
}

#[test]
fn ray_color_miss_returns_background_gradient() {
    let world = test_world();
    let mut sampler = Sampler::seeded(3);
    // straight up: the gradient's pure sky end
    let ray = Ray { origin: v(0, 0, 0), direction: v(0, 1, 0) };
    let c = ray_color(&ray, &world, 5, &mut sampler);
    assert_eq!(
        c,
        Vector3 { x: Fx::from_bits(32768), y: Fx::from_bits(45875), z: Fx::from_bits(65536) },
    );
}

#[test]
fn render_produces_expected_dimensions_and_shape() {
    let world = test_world();
    let camera = test_camera();
    let mut sampler = Sampler::seeded(12345);
    let img = camera.render(&world, &mut sampler);

    // dimensions follow the configured width and aspect ratio
    assert_eq!(img.width, 20);
    assert_eq!(img.height, 15);
    assert_eq!(img.pixels.len(), 300);

    // the top rows show the background gradient: blue-dominant and bright
    let top = img.pixel(10, 0);
    assert!(top.b >= top.g && top.g >= top.r);
    assert!(top.b >= 200);

    // the center pixels show the red foreground sphere
    let center = img.pixel(10, 7);
    assert!(center.r > center.b);

    // a seeded render is reproducible
    let mut sampler2 = Sampler::seeded(12345);
    let img2 = camera.render(&world, &mut sampler2);
    assert_eq!(img2.pixel(10, 7), center);
}
