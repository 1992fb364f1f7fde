//! Linear rescale-and-clamp primitive: every physical measurement becomes a
//! normalized parameter through `convert_range`.

use vstd::prelude::*;

verus! {

use vstd::arithmetic::div_mod::{
    lemma_div_is_ordered, lemma_div_multiples_vanish, lemma_div_pos_is_pos,
};
use vstd::arithmetic::mul::{lemma_mul_inequality, lemma_mul_upper_bound};

/// Fixed-point unit: one whole unit (one semitone, one millimetre, full
/// pinch strength) counts this many steps.
pub const UNIT: i64 = 1_000_000;

/// Largest magnitude a coordinate, range endpoint or parameter value may
/// have. Far above anything a sensor or the note range produces; it keeps
/// the 128-bit intermediate products of the mapper exact.
pub const COORD_LIMIT: i64 = 1_000_000_000_000;

/// Inclusive endpoints of a one-dimensional parameter domain. `start` may
/// exceed `end`: sensor axes are routinely inverted, and the mapper honours
/// the direction of the domain.
#[derive(Clone, Copy, Debug, PartialEq, Eq, Structural)]
pub struct Interval {
    pub start: i64,
    pub end: i64,
}

impl Interval {
    /// Both endpoints within the coordinate limit.
    pub open spec fn bounded(self) -> bool {
        &&& -COORD_LIMIT <= self.start <= COORD_LIMIT
        &&& -COORD_LIMIT <= self.end <= COORD_LIMIT
    }

    /// An output domain must be properly ordered.
    pub open spec fn proper(self) -> bool {
        self.start <= self.end
    }
}

/// Exact value of the rescale-and-clamp map. The input value is carried
/// linearly from `input` onto `output` and clamped into `output`; a
/// zero-width input domain maps everything to `output.start` (the fail-safe
/// policy for a degenerate domain: no arithmetic is undefined). Division
/// appears only with a positive divisor and a non-negative dividend, so the
/// floor rounding is exact whenever the domains have equal width.
pub open spec fn convert_range_spec(value: int, input: Interval, output: Interval) -> int {
    if input.start == input.end {
        output.start as int
    } else {
        let num = if input.start < input.end {
            value - input.start
        } else {
            input.start - value
        };
        let den = if input.start < input.end {
            input.end - input.start
        } else {
            input.start - input.end
        };
        if num <= 0 {
            output.start as int
        } else if num >= den {
            output.end as int
        } else {
            output.start + (num * (output.end - output.start)) / den
        }
    }
}

/// The output of the rescale-and-clamp map lies inside the output domain,
/// whether or not the value lay inside the input domain.
pub proof fn lemma_convert_range_bounds(value: int, input: Interval, output: Interval)
    requires
        output.proper(),
    ensures
        output.start <= convert_range_spec(value, input, output) <= output.end,
{
    if input.start != input.end {
        let num = if input.start < input.end {
            value - input.start
        } else {
            input.start - value
        };
        let den = if input.start < input.end {
            input.end - input.start
        } else {
            input.start - input.end
        };
        if 0 < num < den {
            let span = output.end - output.start;
            lemma_div_pos_is_pos(num * span, den);
            lemma_mul_inequality(num, den, span);
            lemma_div_is_ordered(num * span, den * span, den);
            lemma_div_multiples_vanish(span, den);
        }
    }
}

/// When the two domains coincide, the map is the identity on values inside
/// the domain.
pub proof fn lemma_convert_range_identity(value: int, domain: Interval)
    requires
        domain.start <= value <= domain.end,
    ensures
        convert_range_spec(value, domain, domain) == value,
{
    if domain.start != domain.end {
        let num = value - domain.start;
        let den = domain.end - domain.start;
        if 0 < num < den {
            lemma_div_multiples_vanish(num, den);
        }
    }
}

/// Linear rescale from `input` onto `output`, clamped into `output`.
/// A zero-width input domain yields `output.start`.
pub fn convert_range(value: i64, input: Interval, output: Interval) -> (r: i64)
    requires
        output.proper(),
        output.bounded(),
        input.bounded(),
        -COORD_LIMIT <= value <= COORD_LIMIT,
    ensures
        r == convert_range_spec(value as int, input, output),
        output.start <= r <= output.end,
{
    proof {
        lemma_convert_range_bounds(value as int, input, output);
    }
    if input.start == input.end {
        return output.start;
    }
    let (num, den): (i128, i128) = if input.start < input.end {
        (value as i128 - input.start as i128, input.end as i128 - input.start as i128)
    } else {
        (input.start as i128 - value as i128, input.start as i128 - input.end as i128)
    };
    if num <= 0 {
        output.start
    } else if num >= den {
        output.end
    } else {
        let span = output.end as i128 - output.start as i128;
        proof {
            lemma_mul_upper_bound(num as int, 2 * COORD_LIMIT as int, span as int, 2 * COORD_LIMIT as int);
        }
        let q: u128 = ((num as u128) * (span as u128)) / (den as u128);
        proof {
            lemma_div_pos_is_pos(num * span, den as int);
            lemma_mul_inequality(num as int, den as int, span as int);
            lemma_div_is_ordered(num * span, den * span, den as int);
            lemma_div_multiples_vanish(span as int, den as int);
        }
        output.start + (q as i64)
    }
}

} // verus!
