//! Plain-value forms of the types that cross the host boundary.
//!
//! The host hands the backend raw scalars; every value here is an exact,
//! bit-level stand-in. Vector and matrix components are carried as the IEEE
//! 754 bit patterns of the host's floats: the backend never computes on them,
//! it only stores and forwards them, so the bits are the whole story.

use vstd::prelude::*;

verus! {

/// An option in the flat two-variant form used at the boundary.
#[derive(Clone, Copy, PartialEq, Eq, Debug)]
pub enum ForeignOption<T> {
    /// No value.
    Nothing,
    /// Some value `T`.
    Just(T),
}

impl<T> ForeignOption<T> {
    /// The `Option` this boundary value stands for.
    pub open spec fn option_spec(self) -> Option<T> {
        match self {
            ForeignOption::Nothing => None,
            ForeignOption::Just(inner) => Some(inner),
        }
    }

    /// Converts to the library-side option.
    pub fn into_option(self) -> (r: Option<T>)
        ensures
            r == self.option_spec(),
    {
        match self {
            ForeignOption::Nothing => None,
            ForeignOption::Just(inner) => Some(inner),
        }
    }

    /// Converts from the library-side option.
    pub fn from_option(option: Option<T>) -> (r: Self)
        ensures
            r.option_spec() == option,
    {
        match option {
            None => ForeignOption::Nothing,
            Some(inner) => ForeignOption::Just(inner),
        }
    }
}

/// A two-element tuple in boundary form.
#[derive(Clone, Copy, PartialEq, Eq, Debug)]
pub struct ForeignPair<T, U>(pub T, pub U);

impl<T, U> ForeignPair<T, U> {
    /// Converts to a plain tuple.
    pub fn into_tuple(self) -> (r: (T, U))
        ensures
            r.0 == self.0,
            r.1 == self.1,
    {
        (self.0, self.1)
    }

    /// Converts from a plain tuple.
    pub fn from_tuple(tuple: (T, U)) -> (r: Self)
        ensures
            r.0 == tuple.0,
            r.1 == tuple.1,
    {
        ForeignPair(tuple.0, tuple.1)
    }
}

/// Whether a host pointer, given as its address, is non-null and aligned for
/// a type of the given alignment. This is the backend's whole pointer check:
/// anything further is the host's responsibility.
pub fn is_aligned_and_not_null(addr: usize, align: usize) -> (r: bool)
    requires
        align > 0,
    ensures
        r == (addr != 0 && addr % align == 0),
{
    addr != 0 && addr % align == 0
}

/// A two-component vector as float bit patterns.
#[derive(Clone, Copy, PartialEq, Eq, Structural, Debug)]
pub struct ForeignVec2 {
    pub x: u32,
    pub y: u32,
}

/// A four-component vector as float bit patterns.
#[derive(Clone, Copy, PartialEq, Eq, Structural, Debug)]
pub struct ForeignVec4 {
    pub x: u32,
    pub y: u32,
    pub z: u32,
    pub w: u32,
}

/// A column-major 4x4 matrix as float bit patterns.
#[derive(Clone, Copy, PartialEq, Eq, Structural, Debug)]
pub struct ForeignMat4 {
    pub x_axis: ForeignVec4,
    pub y_axis: ForeignVec4,
    pub z_axis: ForeignVec4,
    pub w_axis: ForeignVec4,
}

/// Bit pattern of the float 0.0.
pub const F32_ZERO_BITS: u32 = 0;

/// Bit pattern of the float 1.0.
pub const F32_ONE_BITS: u32 = 0x3F80_0000;

impl ForeignVec2 {
    /// The zero vector.
    pub open spec fn zero_spec() -> ForeignVec2 {
        ForeignVec2 { x: F32_ZERO_BITS, y: F32_ZERO_BITS }
    }

    /// Builds the zero vector.
    pub fn zero() -> (r: ForeignVec2)
        ensures
            r == Self::zero_spec(),
    {
        ForeignVec2 { x: F32_ZERO_BITS, y: F32_ZERO_BITS }
    }
}

impl ForeignVec4 {
    /// The all-ones vector, the neutral overlay color.
    pub open spec fn one_spec() -> ForeignVec4 {
        ForeignVec4 { x: F32_ONE_BITS, y: F32_ONE_BITS, z: F32_ONE_BITS, w: F32_ONE_BITS }
    }

    /// Builds the all-ones vector.
    pub fn one() -> (r: ForeignVec4)
        ensures
            r == Self::one_spec(),
    {
        ForeignVec4 { x: F32_ONE_BITS, y: F32_ONE_BITS, z: F32_ONE_BITS, w: F32_ONE_BITS }
    }
}

impl ForeignMat4 {
    /// The identity matrix.
    pub open spec fn identity_spec() -> ForeignMat4 {
        ForeignMat4 {
            x_axis: ForeignVec4 { x: F32_ONE_BITS, y: F32_ZERO_BITS, z: F32_ZERO_BITS, w: F32_ZERO_BITS },
            y_axis: ForeignVec4 { x: F32_ZERO_BITS, y: F32_ONE_BITS, z: F32_ZERO_BITS, w: F32_ZERO_BITS },
            z_axis: ForeignVec4 { x: F32_ZERO_BITS, y: F32_ZERO_BITS, z: F32_ONE_BITS, w: F32_ZERO_BITS },
            w_axis: ForeignVec4 { x: F32_ZERO_BITS, y: F32_ZERO_BITS, z: F32_ZERO_BITS, w: F32_ONE_BITS },
        }
    }

    /// Builds the identity matrix.
    pub fn identity() -> (r: ForeignMat4)
        ensures
            r == Self::identity_spec(),
    {
        ForeignMat4 {
            x_axis: ForeignVec4 { x: F32_ONE_BITS, y: F32_ZERO_BITS, z: F32_ZERO_BITS, w: F32_ZERO_BITS },
            y_axis: ForeignVec4 { x: F32_ZERO_BITS, y: F32_ONE_BITS, z: F32_ZERO_BITS, w: F32_ZERO_BITS },
            z_axis: ForeignVec4 { x: F32_ZERO_BITS, y: F32_ZERO_BITS, z: F32_ONE_BITS, w: F32_ZERO_BITS },
            w_axis: ForeignVec4 { x: F32_ZERO_BITS, y: F32_ZERO_BITS, z: F32_ZERO_BITS, w: F32_ONE_BITS },
        }
    }
}

/// Text styles the host may ask the immediate-mode GUI to use.
#[derive(Clone, Copy, PartialEq, Eq, Structural, Debug)]
pub enum ForeignTextStyle {
    Small,
    Body,
    Button,
    Heading,
    Monospace,
}

/// An RGBA color unpacked from the host's `0xAARRGGBB` integer form into
/// its four channel bytes `(red, green, blue, alpha)`.
pub fn int_to_color(rgba: u32) -> (r: (u8, u8, u8, u8))
    ensures
        r.0 == (rgba >> 16) & 0xFF,
        r.1 == (rgba >> 8) & 0xFF,
        r.2 == rgba & 0xFF,
        r.3 == (rgba >> 24) & 0xFF,
{
    proof {
        assert((rgba >> 16) & 0xFF < 256 && (rgba >> 8) & 0xFF < 256 && rgba & 0xFF < 256
            && (rgba >> 24) & 0xFF < 256) by (bit_vector);
    }
    (
        ((rgba >> 16) & 0xFF) as u8,
        ((rgba >> 8) & 0xFF) as u8,
        (rgba & 0xFF) as u8,
        ((rgba >> 24) & 0xFF) as u8,
    )
}

} // verus!
