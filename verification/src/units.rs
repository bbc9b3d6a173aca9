//! Lengths and scale factors as integers.
//!
//! A length is a count of thousandths of a pixel, a scale factor a count of
//! thousandths, so that the usual factors (1.25, 1.5, 2) and line heights
//! (1.15) are exact and every result is the same on every machine.

use vstd::prelude::*;

verus! {

/// Units in one pixel.
pub const UNITS_PER_PIXEL: u64 = 1000;

/// The largest length that can be held; longer ones are cut to it.
pub open spec fn max_length() -> int {
    u64::MAX as int
}

/// `value` cut to the range of a length.
pub open spec fn clip(value: int) -> int {
    if value < 0 {
        0
    } else if value > max_length() {
        max_length()
    } else {
        value
    }
}

/// `value`, a count of pixels, cut to the range of `i32`.
pub open spec fn clip_i32(value: int) -> int {
    if value < i32::MIN {
        i32::MIN as int
    } else if value > i32::MAX {
        i32::MAX as int
    } else {
        value
    }
}

/// The logical length, in units, of `physical` whole pixels under a scale of
/// `scale` thousandths: `physical / (scale / 1000)`, rounded down to a unit.
pub open spec fn logical_length(physical: int, scale: int) -> int {
    physical * 1000 * 1000 / scale
}

/// The physical length, in units, of `logical` units under a scale of `scale`
/// thousandths: `logical * (scale / 1000)`, rounded down to a unit.
pub open spec fn physical_length(logical: int, scale: int) -> int {
    logical * scale / 1000
}

/// Whole pixels in `units`, rounded down.
pub open spec fn whole_pixels(units: int) -> int {
    units / 1000
}

/// `value` cut to the range of `i32`.
pub fn clip_to_i32(value: i64) -> (clipped: i32)
    ensures
        clipped == clip_i32(value as int),
{
    if value > i32::MAX as i64 {
        i32::MAX
    } else if value < i32::MIN as i64 {
        i32::MIN
    } else {
        value as i32
    }
}

/// The whole pixels in `units`, cut to the range of `i32`.
pub fn pixels_i32(units: u64) -> (pixels: i32)
    ensures
        pixels == clip_i32(whole_pixels(units as int)),
{
    let whole: u64 = units / 1000;
    if whole > i32::MAX as u64 {
        i32::MAX
    } else {
        whole as i32
    }
}

/// How many physical pixels make one logical pixel, in thousandths. Never zero.
#[derive(Clone, Copy, Debug, PartialEq, Eq, Structural)]
pub struct ScaleFactor {
    per_mille: u32,
}

impl ScaleFactor {
    /// The factor in thousandths.
    pub closed spec fn value(&self) -> int {
        self.per_mille as int
    }

    /// A scale factor is positive.
    pub open spec fn wf(&self) -> bool {
        0 < self.value() <= u32::MAX
    }

    /// The factor of `per_mille` thousandths, unless that is zero.
    pub fn new(per_mille: u32) -> (scale: Option<ScaleFactor>)
        ensures
            per_mille == 0 ==> scale is None,
            per_mille > 0 ==> (scale matches Some(s) && s.value() == per_mille && s.wf()),
    {
        if per_mille == 0 {
            None
        } else {
            Some(ScaleFactor { per_mille })
        }
    }

    /// One physical pixel per logical pixel.
    pub fn identity() -> (scale: ScaleFactor)
        ensures
            scale.value() == 1000,
            scale.wf(),
    {
        ScaleFactor { per_mille: 1000 }
    }

    /// The factor in thousandths.
    pub fn per_mille(&self) -> (value: u32)
        ensures
            value == self.value(),
    {
        self.per_mille
    }

    /// The logical length of `physical` whole pixels.
    pub fn to_logical(&self, physical: u32) -> (units: u64)
        requires
            self.wf(),
        ensures
            units == logical_length(physical as int, self.value()),
            units <= 1_000_000 * (physical as int),
    {
        let scaled: u64 = (physical as u64) * 1_000_000;
        let divisor: u64 = self.per_mille as u64;
        let units: u64 = scaled / divisor;
        assert(units <= scaled) by (nonlinear_arith)
            requires
                divisor >= 1,
                units == scaled / divisor,
        ;
        units
    }

    /// The physical length of `logical` units, cut to the largest length.
    pub fn to_physical(&self, logical: u128) -> (units: u64)
        requires
            self.wf(),
        ensures
            units == clip(physical_length(logical as int, self.value())),
    {
        let factor: u128 = self.per_mille as u128;
        assert(logical * factor >= 0) by (nonlinear_arith)
            requires
                logical >= 0,
                factor >= 0,
        ;
        match logical.checked_mul(factor) {
            Some(product) => {
                let quotient: u128 = product / 1000;
                if quotient > u64::MAX as u128 {
                    u64::MAX
                } else {
                    quotient as u64
                }
            },
            None => {
                let ghost product: int = logical * factor;
                assert(product / 1000 > u64::MAX);
                u64::MAX
            },
        }
    }
}

} // verus!
