use raytracer::hittable::HitRecord;
use raytracer::hittable::Hittable;
use raytracer::hittable_list::HittableList;
use raytracer::material::Material;
use raytracer::ray::Ray;
use raytracer::scalar::Scalar;
use raytracer::sphere::Sphere;
use raytracer::utils::color;
use raytracer::utils::Radiance;
use raytracer::utils::SELF_HIT_MARGIN_BITS;
use raytracer::vec3::Vec3;
use std::ops::Range;

fn num(x: f32) -> Scalar {
    Scalar::from_bits(x.to_bits())
}

fn val(s: Scalar) -> f32 {
    f32::from_bits(s.to_bits())
}

fn vec(x: f32, y: f32, z: f32) -> Vec3 {
    Vec3::new(num(x), num(y), num(z))
}

fn arr(v: Vec3) -> [f32; 3] {
    [val(v.x()), val(v.y()), val(v.z())]
}

fn range(start: f32, end: f32) -> Range<Scalar> {
    Range { start: num(start), end: num(end) }
}

fn dot(a: [f32; 3], b: [f32; 3]) -> f32 {
    a[0] * b[0] + a[1] * b[1] + a[2] * b[2]
}

/// A sphere as geometry: the arithmetic done here, the decisions by the
/// library.
struct Ball(Sphere);

impl Hittable for Ball {
    fn hit(&self, r: &Ray, ray_t: Range<Scalar>) -> Option<HitRecord> {
        let (o, d, c) = (arr(r.origin()), arr(r.direction()), arr(self.0.center));
        let radius = val(self.0.radius);
        let oc = [o[0] - c[0], o[1] - c[1], o[2] - c[2]];
        let a = dot(d, d);
        let half_b = dot(oc, d);
        let discriminant = half_b * half_b - a * (dot(oc, oc) - radius * radius);
        let sqrtd = discriminant.sqrt();
        let near = (-half_b - sqrtd) / a;
        let far = (-half_b + sqrtd) / a;
        let root = val(Sphere::select_root(num(discriminant), num(near), num(far), &ray_t)?);
        let p = [o[0] + root * d[0], o[1] + root * d[1], o[2] + root * d[2]];
        let outward = [(p[0] - c[0]) / radius, (p[1] - c[1]) / radius, (p[2] - c[2]) / radius];
        Some(HitRecord::oriented(
            vec(p[0], p[1], p[2]),
            num(root),
            vec(outward[0], outward[1], outward[2]),
            num(dot(d, outward)),
            self.0.material,
        ))
    }
}

/// Geometry that a ray meets at one fixed parameter, wherever the ray is,
/// and that counts how often it is asked.
struct Sheet {
    t: f32,
}

impl Hittable for Sheet {
    fn hit(&self, r: &Ray, ray_t: Range<Scalar>) -> Option<HitRecord> {
        if val(ray_t.start) < self.t && self.t < val(ray_t.end) {
            Some(HitRecord::oriented(
                r.origin(),
                num(self.t),
                vec(0.0, 0.0, 1.0),
                num(-1.0),
                Material::default(),
            ))
        } else {
            None
        }
    }
}

fn ball(z: f32, radius: f32, shade: f32) -> Box<dyn Hittable> {
    let material = Material::Lambertian { albedo: vec(shade, shade, shade) };
    Box::new(Ball(Sphere::new(vec(0.0, 0.0, z), num(radius), material)))
}

fn shade_of(rec: &HitRecord) -> f32 {
    match rec.material {
        Material::Lambertian { albedo } => val(albedo.x()),
        _ => panic!("another material"),
    }
}

fn down_the_axis() -> Ray {
    Ray::ray(vec(0.0, 0.0, 0.0), vec(0.0, 0.0, -1.0))
}

#[test]
fn an_empty_scene_is_never_hit() {
    let world = HittableList::new(Vec::new());
    assert!(world.hit(&down_the_axis(), range(0.001, f32::INFINITY)).is_none());
    assert!(HittableList::new(vec![]).objects.is_empty());
}

#[test]
fn the_nearer_of_two_spheres_is_reported_far_one_first() {
    let mut world = HittableList::new(Vec::new());
    world.add(ball(-5.0, 1.0, 0.25));
    world.add(ball(-2.0, 0.5, 0.75));
    let rec = world.hit(&down_the_axis(), range(0.001, f32::INFINITY)).unwrap();
    assert_eq!(val(rec.t), 1.5);
    assert_eq!(shade_of(&rec), 0.75);
    assert_eq!(arr(rec.p), [0.0, 0.0, -1.5]);
}

#[test]
fn the_nearer_of_two_spheres_is_reported_near_one_first() {
    let world = HittableList::new(vec![ball(-2.0, 0.5, 0.75), ball(-5.0, 1.0, 0.25)]);
    let rec = world.hit(&down_the_axis(), range(0.001, f32::INFINITY)).unwrap();
    assert_eq!(val(rec.t), 1.5);
    assert_eq!(shade_of(&rec), 0.75);
}

#[test]
fn the_nearer_of_two_overlapping_spheres_is_reported() {
    let world = HittableList::new(vec![ball(-2.0, 1.0, 0.25), ball(-1.5, 1.0, 0.75)]);
    let rec = world.hit(&down_the_axis(), range(0.001, f32::INFINITY)).unwrap();
    assert_eq!(val(rec.t), 0.5);
    assert_eq!(shade_of(&rec), 0.75);
}

#[test]
fn of_two_hits_at_the_same_parameter_the_first_is_kept() {
    let world = HittableList::new(vec![ball(-2.0, 0.5, 0.25), ball(-2.5, 1.0, 0.75)]);
    let rec = world.hit(&down_the_axis(), range(0.001, f32::INFINITY)).unwrap();
    assert_eq!(val(rec.t), 1.5);
    assert_eq!(shade_of(&rec), 0.25);
}

#[test]
fn what_lies_outside_the_interval_is_not_reported() {
    let world = HittableList::new(vec![ball(-5.0, 1.0, 0.25), ball(-2.0, 0.5, 0.75)]);
    assert!(world.hit(&down_the_axis(), range(0.001, 1.5)).is_none());
    let rec = world.hit(&down_the_axis(), range(2.5, f32::INFINITY)).unwrap();
    assert_eq!(val(rec.t), 4.0);
    let rec = world.hit(&down_the_axis(), range(1.5, 4.0)).unwrap();
    assert_eq!(val(rec.t), 2.5);
    assert!(!rec.front_face);
}

#[test]
fn nearer_of_two_sheets_is_kept() {
    let mut world = HittableList::new(Vec::new());
    world.add(Box::new(Sheet { t: 5.0 }));
    world.add(Box::new(Sheet { t: 2.0 }));
    world.add(Box::new(Sheet { t: 3.0 }));
    let rec = world.hit(&down_the_axis(), range(0.001, f32::INFINITY));
    assert_eq!(val(rec.unwrap().t), 2.0);
}

#[test]
fn a_scene_is_geometry_too() {
    let inner = HittableList::new(vec![ball(-2.0, 0.5, 0.75)]);
    let world = HittableList::new(vec![ball(-5.0, 1.0, 0.25), Box::new(inner)]);
    let rec = world.hit(&down_the_axis(), range(0.001, f32::INFINITY)).unwrap();
    assert_eq!(val(rec.t), 1.5);
}

#[test]
fn the_margin_is_one_thousandth() {
    assert_eq!(SELF_HIT_MARGIN_BITS, 0.001f32.to_bits());
}

#[test]
fn with_no_bounce_left_a_ray_brings_black() {
    let world = HittableList::new(vec![ball(-1.0, 0.5, 0.5)]);
    assert!(matches!(color(&down_the_axis(), 0, &world), Radiance::Black));
    assert!(matches!(color(&down_the_axis(), -3, &world), Radiance::Black));
    assert!(matches!(color(&down_the_axis(), i32::MIN, &world), Radiance::Black));
    let empty = HittableList::new(Vec::new());
    assert!(matches!(color(&down_the_axis(), 0, &empty), Radiance::Black));
}

#[test]
fn a_ray_that_misses_brings_the_background() {
    let world = HittableList::new(vec![ball(-1.0, 0.5, 0.5)]);
    let up = Ray::ray(vec(0.0, 0.0, 0.0), vec(0.0, 1.0, 0.0));
    assert!(matches!(color(&up, 1, &world), Radiance::Background));
    let empty = HittableList::new(Vec::new());
    assert!(matches!(color(&down_the_axis(), 50, &empty), Radiance::Background));
}

#[test]
fn a_ray_that_hits_goes_on_with_one_bounce_fewer() {
    let world = HittableList::new(vec![ball(-1.0, 0.5, 0.5)]);
    match color(&down_the_axis(), 50, &world) {
        Radiance::Surface { rec, depth } => {
            assert_eq!(depth, 49);
            assert_eq!(val(rec.t), 0.5);
            assert!(rec.front_face);
        }
        _ => panic!("the sphere was missed"),
    }
    assert!(matches!(color(&down_the_axis(), 1, &world), Radiance::Surface { depth: 0, .. }));
    assert!(matches!(
        color(&down_the_axis(), i32::MAX, &world),
        Radiance::Surface { depth: 2147483646, .. }
    ));
}

#[test]
fn a_hit_below_the_margin_is_ignored() {
    let world = HittableList::new(vec![Box::new(Sheet { t: 0.0005 }) as Box<dyn Hittable>]);
    assert!(matches!(color(&down_the_axis(), 5, &world), Radiance::Background));
    let world = HittableList::new(vec![Box::new(Sheet { t: 0.001 }) as Box<dyn Hittable>]);
    assert!(matches!(color(&down_the_axis(), 5, &world), Radiance::Background));
    let world = HittableList::new(vec![Box::new(Sheet { t: 0.002 }) as Box<dyn Hittable>]);
    assert!(matches!(color(&down_the_axis(), 5, &world), Radiance::Surface { .. }));
}

#[test]
fn the_centre_of_the_image_differs_from_its_corners() {
    let world = HittableList::new(vec![ball(-1.0, 0.5, 0.5)]);
    let centre = Ray::ray(vec(0.0, 0.0, 0.0), vec(0.0, 0.0, -1.0));
    assert!(matches!(color(&centre, 1, &world), Radiance::Surface { .. }));
    for (x, y) in [(-1.7, 1.0), (1.7, 1.0), (-1.7, -1.0), (1.7, -1.0)] {
        let corner = Ray::ray(vec(0.0, 0.0, 0.0), vec(x, y, -1.0));
        assert!(matches!(color(&corner, 1, &world), Radiance::Background));
    }
}
