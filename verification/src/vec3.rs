//! Three numbers: a position, a direction or a colour.
use vstd::prelude::*;
use vstd::std_specs::ops::NegSpecImpl;
use std::ops::Neg;
use crate::scalar::Scalar;
use crate::scalar::ONE_BITS;

verus! {

/// Bit pattern of the bound under which a component counts as zero: ten to
/// the power -8, rounded to single precision.
pub const NEAR_ZERO_BITS: u32 = 0x322b_cc77;

/// A vector of three components. The same type serves as a point, as a
/// direction and as a colour with red, green and blue in that order.
#[derive(Clone, Copy, Debug)]
pub struct Vec3 {
    pub e: [Scalar; 3],
}

impl Vec3 {
    /// First component.
    pub open spec fn spec_x(self) -> Scalar {
        self.e[0]
    }

    /// Second component.
    pub open spec fn spec_y(self) -> Scalar {
        self.e[1]
    }

    /// Third component.
    pub open spec fn spec_z(self) -> Scalar {
        self.e[2]
    }

    /// Every component is a number of magnitude below the bound
    /// `NEAR_ZERO_BITS`.
    pub open spec fn spec_near_zero(self) -> bool {
        let s = Scalar { bits: NEAR_ZERO_BITS };
        &&& self.e[0].spec_abs().spec_lt(s)
        &&& self.e[1].spec_abs().spec_lt(s)
        &&& self.e[2].spec_abs().spec_lt(s)
    }

    /// The vector with every component's sign flipped.
    pub open spec fn negated(self) -> Vec3 {
        Vec3 { e: [self.e[0].spec_neg(), self.e[1].spec_neg(), self.e[2].spec_neg()] }
    }

    /// The vector with the given components.
    pub open spec fn spec_new(e0: Scalar, e1: Scalar, e2: Scalar) -> Vec3 {
        Vec3 { e: [e0, e1, e2] }
    }

    /// The vector with the given components.
    #[verifier::when_used_as_spec(spec_new)]
    pub fn new(e0: Scalar, e1: Scalar, e2: Scalar) -> (v: Vec3)
        ensures
            v == Vec3::spec_new(e0, e1, e2),
            v.e[0] == e0,
            v.e[1] == e1,
            v.e[2] == e2,
    {
        Vec3 { e: [e0, e1, e2] }
    }

    /// First component.
    #[verifier::when_used_as_spec(spec_x)]
    pub fn x(self) -> (c: Scalar)
        ensures
            c == self.e[0],
    {
        self.e[0]
    }

    /// Second component.
    #[verifier::when_used_as_spec(spec_y)]
    pub fn y(self) -> (c: Scalar)
        ensures
            c == self.e[1],
    {
        self.e[1]
    }

    /// Third component.
    #[verifier::when_used_as_spec(spec_z)]
    pub fn z(self) -> (c: Scalar)
        ensures
            c == self.e[2],
    {
        self.e[2]
    }

    /// Red: the first component of a colour.
    #[verifier::when_used_as_spec(spec_x)]
    pub fn r(self) -> (c: Scalar)
        ensures
            c == self.e[0],
    {
        self.e[0]
    }

    /// Green: the second component of a colour.
    #[verifier::when_used_as_spec(spec_y)]
    pub fn g(self) -> (c: Scalar)
        ensures
            c == self.e[1],
    {
        self.e[1]
    }

    /// Blue: the third component of a colour.
    #[verifier::when_used_as_spec(spec_z)]
    pub fn b(self) -> (c: Scalar)
        ensures
            c == self.e[2],
    {
        self.e[2]
    }

    /// Whether a point drawn from the cube around the origin is kept as a
    /// point of the unit ball, or of the unit disk: its squared length, which
    /// is `length_squared`, is below one. A draw that fails is made again.
    pub fn inside_unit_sphere(length_squared: Scalar) -> (r: bool)
        ensures
            r == length_squared.spec_lt(Scalar { bits: ONE_BITS }),
    {
        length_squared.lt(Scalar::one())
    }

    /// Turns a unit vector into the hemisphere around a normal, given
    /// `facing`, its dot product with that normal: the vector itself where
    /// `facing` is above zero, its opposite otherwise.
    pub fn on_hemisphere(self, facing: Scalar) -> (r: Vec3)
        ensures
            r == (if facing.spec_gt(Scalar { bits: 0 }) {
                self
            } else {
                self.negated()
            }),
    {
        if facing.gt(Scalar::zero()) {
            self
        } else {
            self.neg()
        }
    }

    /// Whether the vector is close to zero in all three dimensions.
    #[verifier::when_used_as_spec(spec_near_zero)]
    pub fn near_zero(self) -> (r: bool)
        ensures
            r == self.spec_near_zero(),
    {
        let s: Scalar = Scalar::from_bits(NEAR_ZERO_BITS);
        self.e[0].abs().lt(s) && self.e[1].abs().lt(s) && self.e[2].abs().lt(s)
    }
}

impl Neg for Vec3 {
    type Output = Vec3;

    /// The opposite vector.
    fn neg(self) -> (r: Vec3) {
        Vec3 { e: [self.e[0].neg(), self.e[1].neg(), self.e[2].neg()] }
    }
}

impl NegSpecImpl for Vec3 {
    open spec fn obeys_neg_spec() -> bool {
        true
    }

    open spec fn neg_req(self) -> bool {
        true
    }

    open spec fn neg_spec(self) -> Vec3 {
        self.negated()
    }
}

impl Default for Vec3 {
    /// The zero vector.
    fn default() -> (v: Vec3)
        ensures
            v.e[0].bits == 0,
            v.e[1].bits == 0,
            v.e[2].bits == 0,
    {
        Vec3 { e: [Scalar { bits: 0 }, Scalar { bits: 0 }, Scalar { bits: 0 }] }
    }
}

} // verus!
