use vstd::prelude::*;

verus! {

/// The denominator of every `Ratio`. A draw is divided by this value before it
/// is stretched over a range; a draw may be up to about twice as large.
pub const NORMALIZER: u32 = 0x7FFF_FFFF;

/// An exact rational quantity `numerator / NORMALIZER`: a diameter or an
/// orbital radius.
#[derive(Debug, Clone, Copy, PartialEq, Eq, Structural)]
pub struct Ratio {
    pub numerator: i128,
}

/// The numerator of `min + (value / NORMALIZER) * (max - min)`.
pub open spec fn scaled(value: u32, min: u32, max: u32) -> int {
    min * NORMALIZER + value * (max - min)
}

/// `value`, held to the range of a numerator.
pub open spec fn saturated(value: int) -> int {
    if value > i128::MAX {
        i128::MAX as int
    } else if value < i128::MIN {
        i128::MIN as int
    } else {
        value
    }
}

/// Whether `numerator / NORMALIZER` lies in `[min, max)`.
pub open spec fn within(numerator: int, min: u32, max: u32) -> bool {
    min * NORMALIZER <= numerator < max * NORMALIZER
}

/// A scaled value is far from the ends of the range of a numerator, and so
/// are its two parts.
pub proof fn lemma_scaled_bounds(value: u32, min: u32, max: u32)
    ensures
        0 <= min * NORMALIZER < 0x1_0000_0000_0000_0000,
        -0x1_0000_0000_0000_0000 < value * (max - min) < 0x1_0000_0000_0000_0000,
        -0x1_0000_0000_0000_0000 < scaled(value, min, max) < 0x2_0000_0000_0000_0000,
{
    let width = max - min;
    assert(-0x1_0000_0000 < width < 0x1_0000_0000);
    assert(-0x1_0000_0000_0000_0000 < value * width < 0x1_0000_0000_0000_0000)
        by (nonlinear_arith)
        requires
            0 <= value < 0x1_0000_0000,
            -0x1_0000_0000 < width < 0x1_0000_0000,
    ;
    assert(0 <= min * NORMALIZER < 0x1_0000_0000_0000_0000) by (nonlinear_arith)
        requires
            0 <= min < 0x1_0000_0000,
            NORMALIZER == 0x7FFF_FFFF,
    ;
}

/// A value below the normalizer is scaled into `[min, max)`. One from the
/// normalizer on is scaled to `max` or beyond it, by little more than the
/// width of the range at most.
pub proof fn lemma_scaled_range(value: u32, min: u32, max: u32)
    requires
        min < max,
    ensures
        min * NORMALIZER <= scaled(value, min, max),
        value < NORMALIZER <==> within(scaled(value, min, max), min, max),
        scaled(value, min, max) <= (2 * max - min) * NORMALIZER + (max - min),
{
    let width = max - min;
    assert(value * width <= (2 * NORMALIZER + 1) * width) by (nonlinear_arith)
        requires
            value <= 2 * NORMALIZER + 1,
            0 < width,
    ;
    assert((2 * max - min) * NORMALIZER + width == min * NORMALIZER + (2 * NORMALIZER + 1)
        * width) by (nonlinear_arith)
        requires
            width == max - min,
    ;
    assert(0 <= value * width) by (nonlinear_arith)
        requires
            0 <= value,
            0 < width,
    ;
    assert(value < NORMALIZER <==> value * width < NORMALIZER * width) by (nonlinear_arith)
        requires
            0 < width,
    ;
    assert(max * NORMALIZER == min * NORMALIZER + NORMALIZER * width) by (nonlinear_arith)
        requires
            width == max - min,
    ;
}

impl View for Ratio {
    type V = int;

    open spec fn view(&self) -> int {
        self.numerator as int
    }
}

impl Ratio {
    pub fn zero() -> (ratio: Ratio)
        ensures
            ratio@ == 0,
    {
        Ratio { numerator: 0 }
    }

    /// Stretches a draw over `[min, max)`.
    pub fn scale(value: u32, min: u32, max: u32) -> (ratio: Ratio)
        ensures
            ratio@ == scaled(value, min, max),
    {
        proof {
            lemma_scaled_bounds(value, min, max);
        }
        let width: i128 = max as i128 - min as i128;
        let base: i128 = min as i128 * NORMALIZER as i128;
        let stretch: i128 = value as i128 * width;
        Ratio { numerator: base + stretch }
    }

    /// The sum of two quantities, held to the range of a numerator.
    pub fn plus(self, other: Ratio) -> (sum: Ratio)
        ensures
            sum@ == saturated(self@ + other@),
    {
        match self.numerator.checked_add(other.numerator) {
            Some(numerator) => Ratio { numerator },
            None => if other.numerator > 0 {
                Ratio { numerator: i128::MAX }
            } else {
                Ratio { numerator: i128::MIN }
            },
        }
    }
}

} // verus!
