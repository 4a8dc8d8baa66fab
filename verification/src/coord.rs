use vstd::prelude::*;

verus! {

/// A two-dimensional coordinate, each component stored as the IEEE-754
/// bit pattern of a binary64 number.
///
/// The geometry logic of this crate never does arithmetic on coordinates; it
/// only copies them and compares them for IEEE-754 equality, so the bit
/// pattern is all it needs to hold. The unverified adapters convert between
/// this form and the engines' floating-point form at the boundary.
#[derive(Clone, Copy, Debug, PartialEq, Eq, Structural)]
pub struct Coord {
    /// Bit pattern of the x (easting / longitude) component.
    pub x: u64,
    /// Bit pattern of the y (northing / latitude) component.
    pub y: u64,
}

/// Whether a binary64 bit pattern encodes a NaN: all exponent bits set and a
/// non-zero mantissa.
pub open spec fn f64_bits_nan(bits: u64) -> bool {
    bits & 0x7ff0_0000_0000_0000u64 == 0x7ff0_0000_0000_0000u64
        && bits & 0x000f_ffff_ffff_ffffu64 != 0u64
}

/// Whether a binary64 bit pattern encodes a zero of either sign.
pub open spec fn f64_bits_zero(bits: u64) -> bool {
    bits & 0x7fff_ffff_ffff_ffffu64 == 0u64
}

/// IEEE-754 equality of two binary64 numbers given by their bit patterns:
/// NaN equals nothing, the two zeros equal each other, and every other
/// number equals exactly the bit pattern it is.
pub open spec fn f64_bits_eq(a: u64, b: u64) -> bool {
    !f64_bits_nan(a) && !f64_bits_nan(b)
        && (a == b || (f64_bits_zero(a) && f64_bits_zero(b)))
}

/// Coordinate equality as the application's geometry types define it:
/// IEEE-754 equality on both components.
pub open spec fn coord_eq(a: Coord, b: Coord) -> bool {
    f64_bits_eq(a.x, b.x) && f64_bits_eq(a.y, b.y)
}

/// Decides IEEE-754 equality of two binary64 bit patterns.
pub fn f64_bits_equal(a: u64, b: u64) -> (r: bool)
    ensures
        r == f64_bits_eq(a, b),
{
    let a_nan = a & 0x7ff0_0000_0000_0000u64 == 0x7ff0_0000_0000_0000u64
        && a & 0x000f_ffff_ffff_ffffu64 != 0u64;
    let b_nan = b & 0x7ff0_0000_0000_0000u64 == 0x7ff0_0000_0000_0000u64
        && b & 0x000f_ffff_ffff_ffffu64 != 0u64;
    let both_zero = a & 0x7fff_ffff_ffff_ffffu64 == 0u64
        && b & 0x7fff_ffff_ffff_ffffu64 == 0u64;
    !a_nan && !b_nan && (a == b || both_zero)
}

/// Decides coordinate equality: IEEE-754 equality on both components.
pub fn coords_equal(a: &Coord, b: &Coord) -> (r: bool)
    ensures
        r == coord_eq(*a, *b),
{
    f64_bits_equal(a.x, b.x) && f64_bits_equal(a.y, b.y)
}

} // verus!
