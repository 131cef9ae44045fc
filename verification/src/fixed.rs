//! Fixed-point numbers, stored as an integer count of their smallest step (epsilons).
use vstd::prelude::*;

verus! {

/// Signed fixed-point number with 8 integer bits and 8 fractional bits.
#[derive(Clone, Copy, Debug, PartialEq, Eq, Structural)]
pub struct Sfixed8P8 {
    pub epsilons: i16,
}

/// Unsigned fixed-point number with 8 integer bits and 8 fractional bits.
#[derive(Clone, Copy, Debug, PartialEq, Eq, Structural)]
pub struct Ufixed8P8 {
    pub epsilons: u16,
}

/// Signed fixed-point number with 16 integer bits and 16 fractional bits.
#[derive(Clone, Copy, Debug, PartialEq, Eq, Structural)]
pub struct Sfixed16P16 {
    pub epsilons: i32,
}

/// Signed 8.8 fixed-point number.
pub type Fixed8P8 = Sfixed8P8;

/// Signed 16.16 fixed-point number.
pub type Fixed16P16 = Sfixed16P16;

impl DeepView for Sfixed8P8 {
    type V = Sfixed8P8;
    open spec fn deep_view(&self) -> Sfixed8P8 { *self }
}

impl DeepView for Ufixed8P8 {
    type V = Ufixed8P8;
    open spec fn deep_view(&self) -> Ufixed8P8 { *self }
}

impl DeepView for Sfixed16P16 {
    type V = Sfixed16P16;
    open spec fn deep_view(&self) -> Sfixed16P16 { *self }
}

impl Sfixed8P8 {
    pub fn from_epsilons(epsilons: i16) -> (r: Sfixed8P8)
        ensures r.epsilons == epsilons,
    {
        Sfixed8P8 { epsilons }
    }

    /// The value `1.0` (256 epsilons).
    pub fn one() -> (r: Sfixed8P8)
        ensures r.epsilons == 256,
    {
        Sfixed8P8 { epsilons: 256 }
    }
}

impl Ufixed8P8 {
    pub fn from_epsilons(epsilons: u16) -> (r: Ufixed8P8)
        ensures r.epsilons == epsilons,
    {
        Ufixed8P8 { epsilons }
    }
}

impl Sfixed16P16 {
    pub fn from_epsilons(epsilons: i32) -> (r: Sfixed16P16)
        ensures r.epsilons == epsilons,
    {
        Sfixed16P16 { epsilons }
    }

    /// The value `1.0` (65536 epsilons).
    pub fn one() -> (r: Sfixed16P16)
        ensures r.epsilons == 65536,
    {
        Sfixed16P16 { epsilons: 65536 }
    }

    /// The value `0.0`.
    pub fn zero() -> (r: Sfixed16P16)
        ensures r.epsilons == 0,
    {
        Sfixed16P16 { epsilons: 0 }
    }
}

} // verus!
