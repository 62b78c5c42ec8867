use raytracer::camera::clamp;
use raytracer::camera::intensity;
use raytracer::camera::Camera;
use raytracer::camera::Viewport;
use raytracer::camera::MAX_INTENSITY_BITS;
use raytracer::scalar::Scalar;
use raytracer::vec3::Vec3;
use std::ops::Range;

fn num(x: f32) -> Scalar {
    Scalar::from_bits(x.to_bits())
}

fn val(s: Scalar) -> f32 {
    f32::from_bits(s.to_bits())
}

fn vec(x: f32, y: f32, z: f32) -> Vec3 {
    Vec3::new(num(x), num(y), num(z))
}

fn arr(v: Vec3) -> [f32; 3] {
    [val(v.x()), val(v.y()), val(v.z())]
}

fn viewport() -> Viewport {
    Viewport {
        pixel00_loc: vec(-1.0, 1.0, -1.0),
        pixel_delta_u: vec(0.5, 0.0, 0.0),
        pixel_delta_v: vec(0.0, -0.5, 0.0),
        u: vec(1.0, 0.0, 0.0),
        v: vec(0.0, 1.0, 0.0),
        w: vec(0.0, 0.0, 1.0),
        defocus_disk_u: vec(0.0, 0.0, 0.0),
        defocus_disk_v: vec(0.0, 0.0, 0.0),
    }
}

fn camera(width: i32, aspect: f32) -> Camera {
    let mut cam = Camera::default();
    cam.image_width = width;
    cam.aspect_ratio = num(aspect);
    cam.lookfrom = vec(13.0, 2.0, 3.0);
    let quotient = (cam.image_size(0).0 as f32 / aspect) as i32;
    cam.initialize(quotient, viewport());
    cam
}

/// One channel from the sum of the samples to the number that is written.
fn quantize(sum: f32, samples: i32) -> i32 {
    let scaled = sum * (1.0 / samples as f32);
    let gamma = scaled.sqrt();
    (255.99 * val(clamp(&intensity(), num(gamma)))) as i32
}

#[test]
fn clamp_holds_a_value_inside_the_range() {
    let r = Range { start: num(0.0), end: num(0.999) };
    assert_eq!(val(clamp(&r, num(0.5))), 0.5);
    assert_eq!(val(clamp(&r, num(-0.5))), 0.0);
    assert_eq!(val(clamp(&r, num(1.0))), 0.999);
    assert_eq!(val(clamp(&r, num(0.999))), 0.999);
    assert_eq!(val(clamp(&r, num(0.0))), 0.0);
    assert_eq!(val(clamp(&r, num(f32::INFINITY))), 0.999);
    assert_eq!(val(clamp(&r, num(f32::NEG_INFINITY))), 0.0);
    assert!(val(clamp(&r, num(f32::NAN))).is_nan());
}

#[test]
fn the_range_of_intensities_ends_below_one() {
    assert_eq!(MAX_INTENSITY_BITS, 0.999f32.to_bits());
    assert_eq!(val(intensity().start), 0.0);
    assert_eq!(val(intensity().end), 0.999);
}

#[test]
fn white_is_written_as_255_and_black_as_0() {
    assert_eq!(quantize(1.0, 1), 255);
    assert_eq!(quantize(0.0, 1), 0);
    assert_eq!(quantize(500.0, 500), 255);
    assert_eq!(quantize(0.0, 500), 0);
    assert_eq!(quantize(0.25, 1), 127);
    assert_eq!(quantize(7.0, 1), 255);
    assert_eq!(quantize(-1.0, 1), 0);
}

#[test]
fn a_new_camera_is_a_pinhole_that_is_not_ready() {
    let cam = Camera::default();
    assert!(cam.derived.is_none());
    assert!(cam.pinhole());
    assert_eq!(cam.image_width, 0);
    assert_eq!(cam.samples_per_pixel, 0);
    assert_eq!(cam.max_depth, 0);
    assert_eq!(val(cam.defocus_angle), 0.0);
}

#[test]
fn the_image_has_at_least_one_pixel_each_way() {
    let mut cam = Camera::default();
    assert_eq!(cam.image_size(0), (1, 1));
    assert_eq!(cam.image_size(-7), (1, 1));
    cam.image_width = 400;
    assert_eq!(cam.image_size(225), (400, 225));
    assert_eq!(cam.image_size(0), (400, 1));
    cam.image_width = -5;
    assert_eq!(cam.image_size(3), (1, 3));
}

#[test]
fn initialize_derives_size_and_centre_and_keeps_the_settings() {
    let cam = camera(400, 16.0 / 9.0);
    let d = cam.derived.unwrap();
    assert_eq!((d.image_width, d.image_height), (400, 225));
    assert_eq!(arr(d.center), [13.0, 2.0, 3.0]);
    assert_eq!(arr(d.viewport.pixel00_loc), [-1.0, 1.0, -1.0]);
    assert_eq!(arr(d.viewport.pixel_delta_v), [0.0, -0.5, 0.0]);
    assert_eq!(cam.image_width, 400);
    assert_eq!(arr(cam.lookfrom), [13.0, 2.0, 3.0]);
    let flat = camera(2, 100.0);
    assert_eq!(flat.derived.unwrap().image_height, 1);
    let none = camera(0, 1.0);
    let d = none.derived.unwrap();
    assert_eq!((d.image_width, d.image_height), (1, 1));
}

#[test]
fn rays_start_at_the_centre_unless_the_lens_is_open() {
    let mut cam = camera(4, 2.0);
    let sample = vec(9.0, 9.0, 9.0);
    assert!(cam.pinhole());
    assert_eq!(arr(cam.ray_origin(sample)), [13.0, 2.0, 3.0]);
    cam.defocus_angle = num(-1.0);
    assert_eq!(arr(cam.ray_origin(sample)), [13.0, 2.0, 3.0]);
    cam.defocus_angle = num(0.6);
    assert!(!cam.pinhole());
    assert_eq!(arr(cam.ray_origin(sample)), [9.0, 9.0, 9.0]);
}

#[test]
fn pixels_leave_row_by_row_from_the_top() {
    let cam = camera(3, 1.5);
    assert_eq!(cam.pixel_count(), 6);
    let order: Vec<(i32, i32)> = (0..6).map(|k| cam.pixel_at(k)).collect();
    assert_eq!(order, vec![(0, 0), (1, 0), (2, 0), (0, 1), (1, 1), (2, 1)]);
    let wide = camera(1200, 16.0 / 9.0);
    assert_eq!(wide.pixel_count(), 1200 * 675);
    assert_eq!(wide.pixel_at(0), (0, 0));
    assert_eq!(wide.pixel_at(1199), (1199, 0));
    assert_eq!(wide.pixel_at(1200), (0, 1));
    assert_eq!(wide.pixel_at(1200 * 675 - 1), (1199, 674));
}

#[test]
fn a_pixel_is_written_as_one_line() {
    let mut out = Vec::new();
    Camera::write_color(&mut out, [255, 0, 7]);
    assert_eq!(out, b"255 0 7\n".to_vec());
    Camera::write_color(&mut out, [10, 100, 199]);
    assert_eq!(out, b"255 0 7\n10 100 199\n".to_vec());
    let mut out = Vec::new();
    Camera::write_color(&mut out, [-1, i32::MAX, i32::MIN]);
    assert_eq!(out, b"-1 2147483647 -2147483648\n".to_vec());
}

#[test]
fn the_image_is_a_header_and_a_line_for_each_pixel() {
    let cam = camera(3, 1.5);
    let colors = vec![[255, 255, 255], [0, 0, 0], [1, 2, 3], [40, 50, 60], [127, 128, 129], [9, 99, 199]];
    let text = String::from_utf8(cam.render(&colors)).unwrap();
    assert_eq!(
        text,
        "P3\n3 2\n255\n255 255 255\n0 0 0\n1 2 3\n40 50 60\n127 128 129\n9 99 199\n"
    );
    let one = camera(1, 1.0);
    assert_eq!(one.render(&vec![[12, 34, 56]]), b"P3\n1 1\n255\n12 34 56\n".to_vec());
    let wide = camera(1200, 16.0 / 9.0);
    let text = wide.render(&vec![[0, 0, 0]; 1200 * 675]);
    assert!(text.starts_with(b"P3\n1200 675\n255\n0 0 0\n"));
    assert_eq!(text.len(), 16 + 6 * 1200 * 675);
}
