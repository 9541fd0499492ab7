//! Units of frequency.

use vstd::prelude::*;

verus! {

/// A frequency in hertz.
///
/// All drivers take their requested rate, and all clock-tree queries report
/// their derived rate, as a plain number of hertz.
#[derive(Clone, Copy, Debug, PartialEq, Eq, Structural)]
pub struct Hertz(pub u32);

impl Hertz {
    /// Builds a frequency from a count of hertz.
    pub fn hz(v: u32) -> (r: Hertz)
        ensures
            r.0 == v,
    {
        Hertz(v)
    }

    /// Builds a frequency from a count of kilohertz.
    pub fn khz(v: u32) -> (r: Hertz)
        requires
            v * 1000 <= u32::MAX,
        ensures
            r.0 == v * 1000,
    {
        Hertz(v * 1000)
    }

    /// Builds a frequency from a count of megahertz.
    pub fn mhz(v: u32) -> (r: Hertz)
        requires
            v * 1_000_000 <= u32::MAX,
        ensures
            r.0 == v * 1_000_000,
    {
        Hertz(v * 1_000_000)
    }
}

} // verus!
