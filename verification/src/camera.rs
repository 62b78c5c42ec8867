//! The camera: its settings, the size and order of the image, and the text
//! in which the image leaves.
use vstd::prelude::*;
use std::ops::Range;
use crate::scalar::Scalar;
use crate::vec3::Vec3;

verus! {

/// Bit pattern of the largest intensity that is written: 0.999, rounded to
/// single precision.
pub const MAX_INTENSITY_BITS: u32 = 0x3f7f_be77;

/// `val` held inside `rng`: the start where `val` is below it, the end where
/// `val` is above it, and `val` itself otherwise. What is not a number is
/// neither below nor above and stays as it is.
pub open spec fn spec_clamp(rng: Range<Scalar>, val: Scalar) -> Scalar {
    if val.spec_lt(rng.start) {
        rng.start
    } else if val.spec_gt(rng.end) {
        rng.end
    } else {
        val
    }
}

/// Holds `val` inside `rng`: see `spec_clamp`.
pub fn clamp(rng: &Range<Scalar>, val: Scalar) -> (r: Scalar)
    ensures
        r == spec_clamp(*rng, val),
        !val.spec_is_nan() && rng.start.spec_le(rng.end) ==> rng.start.spec_le(r) && r.spec_le(
            rng.end,
        ),
{
    if val.lt(rng.start) {
        rng.start
    } else if val.gt(rng.end) {
        rng.end
    } else {
        val
    }
}

/// The range of intensities that are written: from zero to
/// `MAX_INTENSITY_BITS`.
pub fn intensity() -> (rng: Range<Scalar>)
    ensures
        rng.start.bits == 0,
        rng.end.bits == MAX_INTENSITY_BITS,
{
    Range { start: Scalar::zero(), end: Scalar::from_bits(MAX_INTENSITY_BITS) }
}

/// The decimal digits of `n` as ASCII, most significant first.
pub open spec fn digits(n: nat) -> Seq<u8>
    decreases n,
{
    if n < 10 {
        seq![(48 + n) as u8]
    } else {
        digits(n / 10).push((48 + n % 10) as u8)
    }
}

/// `n` in decimal as ASCII, with a minus sign before a negative number.
pub open spec fn decimal(n: int) -> Seq<u8> {
    if n < 0 {
        seq![45u8] + digits((-n) as nat)
    } else {
        digits(n as nat)
    }
}

/// The line of one pixel: red, green and blue in decimal, a space between
/// them and a line feed behind.
pub open spec fn pixel_line(color: [i32; 3]) -> Seq<u8> {
    decimal(color[0] as int) + seq![32u8] + decimal(color[1] as int) + seq![32u8] + decimal(
        color[2] as int,
    ) + seq![10u8]
}

/// The three lines before the pixels: the mark of a plain pixel map, a
/// capital P and the digit three; then width and height; then the largest
/// value of a channel, 255.
pub open spec fn header(width: int, height: int) -> Seq<u8> {
    seq![80u8, 51u8, 10u8] + decimal(width) + seq![32u8] + decimal(height) + seq![
        10u8,
        50u8,
        53u8,
        53u8,
        10u8,
    ]
}

/// The lines of the first `n` of `colors`, one behind the other.
pub open spec fn pixel_lines(colors: Seq<[i32; 3]>, n: nat) -> Seq<u8>
    decreases n,
{
    if n == 0 {
        Seq::<u8>::empty()
    } else {
        pixel_lines(colors, (n - 1) as nat) + pixel_line(colors[n - 1])
    }
}

fn push_digits(out: &mut Vec<u8>, n: u64)
    ensures
        final(out)@ == old(out)@ + digits(n as nat),
    decreases n,
{
    if n >= 10 {
        push_digits(out, n / 10);
    }
    let d: u8 = (48 + n % 10) as u8;
    out.push(d);
    assert(final(out)@ =~= old(out)@ + digits(n as nat));
}

fn push_decimal(out: &mut Vec<u8>, n: i32)
    ensures
        final(out)@ == old(out)@ + decimal(n as int),
{
    if n < 0 {
        out.push(45u8);
        let m: u64 = (-(n as i64)) as u64;
        push_digits(out, m);
        assert(final(out)@ =~= old(out)@ + decimal(n as int));
    } else {
        push_digits(out, n as u64);
    }
}

/// What `initialize` derives from the settings by arithmetic: the place of
/// the first pixel, the steps from pixel to pixel, the camera's frame and
/// the two radii of the defocus disk.
#[derive(Clone, Copy, Debug)]
pub struct Viewport {
    pub pixel00_loc: Vec3,
    pub pixel_delta_u: Vec3,
    pub pixel_delta_v: Vec3,
    pub u: Vec3,
    pub v: Vec3,
    pub w: Vec3,
    pub defocus_disk_u: Vec3,
    pub defocus_disk_v: Vec3,
}

/// What a camera knows once it is initialized.
#[derive(Clone, Copy, Debug)]
pub struct Derived {
    pub image_width: i32,
    pub image_height: i32,
    pub center: Vec3,
    pub viewport: Viewport,
}

/// A camera. Its settings are set by the caller; what is derived from them
/// is absent until `initialize` has run, so that it cannot be read before.
#[derive(Clone, Copy, Debug)]
pub struct Camera {
    /// Ratio of image width over height.
    pub aspect_ratio: Scalar,
    /// Rendered image width in pixels.
    pub image_width: i32,
    /// Count of random samples for each pixel.
    pub samples_per_pixel: i32,
    /// Maximum number of ray bounces into the scene.
    pub max_depth: i32,
    /// Vertical view angle in degrees.
    pub vfov: Scalar,
    /// Point the camera is looking from.
    pub lookfrom: Vec3,
    /// Point the camera is looking at.
    pub lookat: Vec3,
    /// Camera-relative "up" direction.
    pub vup: Vec3,
    /// Variation angle of rays through each pixel; zero makes a pinhole.
    pub defocus_angle: Scalar,
    /// Distance from `lookfrom` to the plane of perfect focus.
    pub focus_dist: Scalar,
    /// What `initialize` has derived, if it has run.
    pub derived: Option<Derived>,
}

/// An image has at least one pixel each way.
pub open spec fn at_least_one(n: i32) -> i32 {
    if n < 1 {
        1
    } else {
        n
    }
}

impl Camera {
    /// `initialize` has run.
    pub open spec fn is_initialized(self) -> bool {
        self.derived is Some
    }

    /// Width of the image in pixels, once initialized.
    pub open spec fn width(self) -> int {
        self.derived->0.image_width as int
    }

    /// Height of the image in pixels, once initialized.
    pub open spec fn height(self) -> int {
        self.derived->0.image_height as int
    }

    /// The camera is initialized and its image has at least one pixel each
    /// way.
    pub open spec fn wf(self) -> bool {
        &&& self.is_initialized()
        &&& self.width() >= 1
        &&& self.height() >= 1
    }

    /// The size of the image: the width that was set, and `quotient`, which
    /// is that width divided by the aspect ratio and truncated; each raised
    /// to one where it is below.
    pub fn image_size(&self, quotient: i32) -> (size: (i32, i32))
        ensures
            size.0 == at_least_one(self.image_width),
            size.1 == at_least_one(quotient),
            size.0 >= 1,
            size.1 >= 1,
    {
        let w: i32 = if self.image_width < 1 {
            1
        } else {
            self.image_width
        };
        let h: i32 = if quotient < 1 {
            1
        } else {
            quotient
        };
        (w, h)
    }

    /// Makes the camera ready: stores the size of the image as `image_size`
    /// gives it, the centre, which is the point looked from, and `viewport`.
    /// The settings stay as they are.
    pub fn initialize(&mut self, quotient: i32, viewport: Viewport)
        ensures
            final(self).wf(),
            final(self).derived == Some(
                Derived {
                    image_width: at_least_one(old(self).image_width),
                    image_height: at_least_one(quotient),
                    center: old(self).lookfrom,
                    viewport,
                },
            ),
            *final(self) == (Camera { derived: final(self).derived, ..*old(self) }),
    {
        let size = self.image_size(quotient);
        self.derived = Some(
            Derived {
                image_width: size.0,
                image_height: size.1,
                center: self.lookfrom,
                viewport,
            },
        );
    }

    /// Whether every ray starts at the centre: the defocus angle is zero or
    /// below.
    pub fn pinhole(&self) -> (r: bool)
        ensures
            r == self.defocus_angle.spec_le(Scalar { bits: 0 }),
    {
        self.defocus_angle.le(Scalar::zero())
    }

    /// Where a ray starts: at the centre for a pinhole, else at
    /// `disk_sample`, a random point of the defocus disk.
    pub fn ray_origin(&self, disk_sample: Vec3) -> (origin: Vec3)
        requires
            self.is_initialized(),
        ensures
            origin == (if self.defocus_angle.spec_le(Scalar { bits: 0 }) {
                self.derived->0.center
            } else {
                disk_sample
            }),
    {
        match self.derived {
            Some(d) => {
                if self.pinhole() {
                    d.center
                } else {
                    disk_sample
                }
            },
            None => disk_sample,
        }
    }

    /// Number of pixels of the image.
    pub fn pixel_count(&self) -> (n: u64)
        requires
            self.wf(),
        ensures
            n == self.width() * self.height(),
    {
        match self.derived {
            Some(d) => {
                let w: u64 = d.image_width as u64;
                let h: u64 = d.image_height as u64;
                assert(w * h <= 0x7fff_ffff * 0x7fff_ffff) by (nonlinear_arith)
                    requires
                        0 <= w <= 0x7fff_ffff,
                        0 <= h <= 0x7fff_ffff,
                ;
                w * h
            },
            None => 0,
        }
    }

    /// Column and row of the `k`-th pixel that leaves. Pixels leave row by
    /// row from the top row down, and from left to right within a row.
    pub fn pixel_at(&self, k: u64) -> (at: (i32, i32))
        requires
            self.wf(),
            k < self.width() * self.height(),
        ensures
            at.0 == k as int % self.width(),
            at.1 == k as int / self.width(),
            0 <= at.0 < self.width(),
            0 <= at.1 < self.height(),
    {
        match self.derived {
            Some(d) => {
                let w: u64 = d.image_width as u64;
                let h: u64 = d.image_height as u64;
                assert(k / w < h) by (nonlinear_arith)
                    requires
                        k < w * h,
                        w >= 1,
                ;
                ((k % w) as i32, (k / w) as i32)
            },
            None => (0, 0),
        }
    }

    /// Appends the line of one pixel to `out`.
    pub fn write_color(out: &mut Vec<u8>, color: [i32; 3])
        ensures
            final(out)@ == old(out)@ + pixel_line(color),
    {
        push_decimal(out, color[0]);
        out.push(32u8);
        push_decimal(out, color[1]);
        out.push(32u8);
        push_decimal(out, color[2]);
        out.push(10u8);
        assert(final(out)@ =~= old(out)@ + pixel_line(color));
    }

    /// The image as text: the header, then one line for each pixel in the
    /// order in which `colors` holds them, which is that of `pixel_at`.
    pub fn render(&self, colors: &Vec<[i32; 3]>) -> (out: Vec<u8>)
        requires
            self.wf(),
            colors@.len() == self.width() * self.height(),
        ensures
            out@ == header(self.width(), self.height()) + pixel_lines(colors@, colors@.len()),
    {
        let mut out: Vec<u8> = Vec::new();
        let (w, h) = match self.derived {
            Some(d) => (d.image_width, d.image_height),
            None => (1, 1),
        };
        out.push(80u8);
        out.push(51u8);
        out.push(10u8);
        push_decimal(&mut out, w);
        out.push(32u8);
        push_decimal(&mut out, h);
        out.push(10u8);
        out.push(50u8);
        out.push(53u8);
        out.push(53u8);
        out.push(10u8);
        assert(out@ =~= header(self.width(), self.height()));
        let mut k: usize = 0;
        while k < colors.len()
            invariant
                k <= colors@.len(),
                out@ == header(self.width(), self.height()) + pixel_lines(colors@, k as nat),
            decreases colors@.len() - k,
        {
            Camera::write_color(&mut out, colors[k]);
            k = k + 1;
            assert(out@ =~= header(self.width(), self.height()) + pixel_lines(colors@, k as nat));
        }
        out
    }
}

impl Default for Camera {
    /// A camera with every setting zero and nothing derived. A defocus angle
    /// of zero makes it a pinhole.
    fn default() -> (c: Camera)
        ensures
            !c.is_initialized(),
            c.image_width == 0,
            c.samples_per_pixel == 0,
            c.max_depth == 0,
            c.aspect_ratio.bits == 0,
            c.vfov.bits == 0,
            c.defocus_angle.bits == 0,
            c.focus_dist.bits == 0,
    {
        Camera {
            aspect_ratio: Scalar::zero(),
            image_width: 0,
            samples_per_pixel: 0,
            max_depth: 0,
            vfov: Scalar::zero(),
            lookfrom: Vec3::default(),
            lookat: Vec3::default(),
            vup: Vec3::default(),
            defocus_angle: Scalar::zero(),
            focus_dist: Scalar::zero(),
            derived: None,
        }
    }
}

} // verus!
