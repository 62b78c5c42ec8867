//! A half-line: where it starts and which way it goes.
use vstd::prelude::*;
use crate::vec3::Vec3;

verus! {

/// A ray, made anew for each camera sample and each scatter event and never
/// changed afterwards.
#[derive(Clone, Copy, Debug)]
pub struct Ray {
    pub orig: Vec3,
    pub dir: Vec3,
}

impl Ray {
    /// The ray from `a` along `b`.
    pub fn ray(a: Vec3, b: Vec3) -> (r: Ray)
        ensures
            r.orig == a,
            r.dir == b,
    {
        Ray { orig: a, dir: b }
    }

    /// Where the ray starts.
    pub fn origin(self) -> (o: Vec3)
        ensures
            o == self.orig,
    {
        self.orig
    }

    /// Which way the ray goes. Not normalised.
    pub fn direction(self) -> (d: Vec3)
        ensures
            d == self.dir,
    {
        self.dir
    }
}

impl Default for Ray {
    /// The ray from the origin with the zero direction.
    fn default() -> (r: Ray)
        ensures
            r.orig.e[0].bits == 0,
            r.orig.e[1].bits == 0,
            r.orig.e[2].bits == 0,
            r.dir.e[0].bits == 0,
            r.dir.e[1].bits == 0,
            r.dir.e[2].bits == 0,
    {
        Ray { orig: Vec3::default(), dir: Vec3::default() }
    }
}

} // verus!
