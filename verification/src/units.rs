//! Units of measurement: a scalar with the tag of its unit.
//!
//! A scalar is an IEEE 754 single. Here it is held by its 32 bits, which is
//! what travels: arithmetic on the number that the bits stand for is left to
//! the caller.

use std::marker::PhantomData;
use vstd::prelude::*;

verus! {

/// Tag of an angle in radians.
#[derive(Debug, Copy, Clone, PartialEq, Eq, PartialOrd)]
pub struct Radian;

/// Tag of a length in millimetres.
#[derive(Debug, Copy, Clone, PartialEq, Eq, PartialOrd)]
pub struct Millimeter;

/// Tag of an area in square millimetres.
#[derive(Debug, Copy, Clone, PartialEq, Eq, PartialOrd)]
pub struct SquareMillimeter;

/// Tag of a time in seconds.
#[derive(Debug, Copy, Clone, PartialEq, Eq, PartialOrd)]
pub struct Second;

/// Tag of an angular velocity in radians per second.
#[derive(Debug, Copy, Clone, PartialEq, Eq, PartialOrd)]
pub struct RadianPerSecond;

/// A scalar of the unit `Unit`, held by the bits of its IEEE 754 single. Two
/// are equal where their bits are.
#[derive(Debug, PartialEq, Eq)]
pub struct WithUnit<Unit> {
    bits: u32,
    unit: PhantomData<Unit>,
}

/// An angle in radians.
pub type Radians = WithUnit<Radian>;

/// A length in millimetres.
pub type Millimeters = WithUnit<Millimeter>;

/// An area in square millimetres.
pub type SquareMillimeters = WithUnit<SquareMillimeter>;

/// A time in seconds.
pub type Seconds = WithUnit<Second>;

/// An angular velocity in radians per second.
pub type RadiansPerSecond = WithUnit<RadianPerSecond>;

impl<Unit> View for WithUnit<Unit> {
    type V = u32;

    closed spec fn view(&self) -> u32 {
        self.bits
    }
}

impl<Unit> WithUnit<Unit> {
    /// The scalar that `bits` hold.
    pub fn new(bits: u32) -> (scalar: Self)
        ensures
            scalar@ == bits,
    {
        WithUnit { bits, unit: PhantomData }
    }

    /// The bits that hold the scalar.
    pub fn to_bits(&self) -> (bits: u32)
        ensures
            bits == self@,
    {
        self.bits
    }
}

impl<Unit> Clone for WithUnit<Unit> {
    fn clone(&self) -> (copy: Self)
        ensures
            copy@ == self@,
    {
        WithUnit { bits: self.bits, unit: PhantomData }
    }
}

impl<Unit> Copy for WithUnit<Unit> {
}

} // verus!
