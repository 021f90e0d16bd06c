//! Units of time and frequency used throughout the clock tree.

use vstd::prelude::*;

verus! {

/// Bits per second.
#[derive(Clone, Copy, Debug, PartialEq, Eq, Structural)]
pub struct Bps(pub u32);

/// A frequency in Hertz.
#[derive(Clone, Copy, Debug, PartialEq, Eq, Structural)]
pub struct Hertz(pub u32);

/// A period in milliseconds.
#[derive(Clone, Copy, Debug, PartialEq, Eq, Structural)]
pub struct MilliSeconds(pub u32);

/// Builds a `Hertz` value from a count of megahertz.
pub fn mhz(value: u32) -> (r: Hertz)
    requires
        value * 1_000_000 <= u32::MAX,
    ensures
        r.0 == value * 1_000_000,
{
    Hertz(value * 1_000_000)
}

} // verus!
