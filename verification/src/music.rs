//! Music-theory pipeline: the smooth-stairs quantizer, the scale builder
//! and chord derivation.
//!
//! Notes are MIDI semitones (`u8`); a pitch travelling through the mapper
//! is an `i64` counting millionths of a semitone (`UNIT` per semitone).

use vstd::prelude::*;

verus! {

use crate::range::{COORD_LIMIT, UNIT};
use vstd::arithmetic::div_mod::{
    lemma_div_is_ordered, lemma_div_pos_is_pos, lemma_fundamental_div_mod,
    lemma_fundamental_div_mod_converse, lemma_mod_add_multiples_vanish, lemma_small_mod,
    lemma_sub_mod_noop,
};
use vstd::arithmetic::mul::lemma_mul_upper_bound;

/// Fixed-point position of a note on the pitch axis.
pub open spec fn note_pos(n: u8) -> int {
    n * (UNIT as int)
}

/// A strictly ascending, duplicate-free sequence of notes.
pub open spec fn ascending(s: Seq<u8>) -> bool {
    forall|i: int, j: int| 0 <= i < j < s.len() ==> s[i] < s[j]
}

/// One application of the smooth-step curve `f(x) = x^2 (3 - 2 x)` to the
/// position `n` inside a window of width `w`, both in fixed point: the
/// exact value is `n^2 (3 w - 2 n) / w^2`. The quotient is rounded toward
/// the boundary the value already leans toward (down below the midpoint,
/// up above it), so one application never pulls a value across the midpoint
/// and always moves it strictly nearer its boundary unless it sits exactly
/// on the midpoint or a boundary.
pub open spec fn smooth_once_spec(n: int, w: int) -> int {
    let g = n * n * (3 * w - 2 * n);
    let d = w * w;
    if 2 * n <= w {
        g / d
    } else {
        (g + d - 1) / d
    }
}

/// The smooth-step curve applied `k` times over.
pub open spec fn iter_smooth(n: int, w: int, k: nat) -> int
    decreases k,
{
    if k == 0 {
        n
    } else {
        smooth_once_spec(iter_smooth(n, w, (k - 1) as nat), w)
    }
}

/// Distance from a window position to the nearer window boundary.
pub open spec fn boundary_distance(n: int, w: int) -> int {
    if n <= w - n {
        n
    } else {
        w - n
    }
}

// The cubic numerator `g(n) = n^2 (3 w - 2 n)` drives every property of the
// smooth step; the four lemmas below pin its behaviour on `[0, w]`.

proof fn lemma_g_monotone(n1: int, n2: int, w: int) by (nonlinear_arith)
    requires
        0 <= n1 <= n2 <= w,
    ensures
        n1 * n1 * (3 * w - 2 * n1) <= n2 * n2 * (3 * w - 2 * n2),
{
    assert(n2 * n2 * (3 * w - 2 * n2) - n1 * n1 * (3 * w - 2 * n1) == (n2 - n1) * (3 * w * (n1
        + n2) - 2 * (n1 * n1 + n1 * n2 + n2 * n2)));
    assert(3 * w * (n1 + n2) - 2 * (n1 * n1 + n1 * n2 + n2 * n2) >= 3 * n2 * (n1 + n2) - 2 * (n1
        * n1 + n1 * n2 + n2 * n2));
    assert(3 * n2 * (n1 + n2) - 2 * (n1 * n1 + n1 * n2 + n2 * n2) == (n1 * n2 - n1 * n1) + (n2
        * n2 - n1 * n1) >= 0);
}

proof fn lemma_g_range(n: int, w: int) by (nonlinear_arith)
    requires
        0 <= n <= w,
    ensures
        0 <= n * n * (3 * w - 2 * n) <= w * w * w,
{
    assert(w * w * w - n * n * (3 * w - 2 * n) == (w - n) * (w - n) * (w + 2 * n) >= 0);
}

proof fn lemma_g_below_midpoint(n: int, w: int) by (nonlinear_arith)
    requires
        0 < n,
        2 * n < w,
    ensures
        n * n * (3 * w - 2 * n) < n * (w * w),
{
    assert(n * (w * w) - n * n * (3 * w - 2 * n) == n * ((2 * n - w) * (n - w)));
    assert((2 * n - w) * (n - w) > 0);
}

proof fn lemma_g_above_midpoint(n: int, w: int) by (nonlinear_arith)
    requires
        w < 2 * n,
        n < w,
    ensures
        n * n * (3 * w - 2 * n) > n * (w * w),
{
    assert(n * n * (3 * w - 2 * n) - n * (w * w) == n * ((2 * n - w) * (w - n)));
    assert((2 * n - w) * (w - n) > 0);
}

// Division helpers: translate bounds on the numerator into bounds on the
// rounded quotient.

proof fn lemma_floor_lt(g: int, d: int, n: int)
    requires
        0 < d,
        0 < n,
        g < n * d,
        0 <= g,
    ensures
        g / d < n,
{
    assert((n - 1) * d == n * d - d) by (nonlinear_arith);
    lemma_div_is_ordered(g, n * d - 1, d);
    lemma_fundamental_div_mod_converse(n * d - 1, d, n - 1, d - 1);
}

proof fn lemma_ceil_gt(g: int, d: int, n: int)
    requires
        0 < d,
        g > n * d,
        0 <= n,
    ensures
        (g + d - 1) / d > n,
{
    assert((n + 1) * d == n * d + d) by (nonlinear_arith);
    lemma_div_is_ordered((n + 1) * d, g + d - 1, d);
    lemma_fundamental_div_mod_converse((n + 1) * d, d, n + 1, 0);
}

proof fn lemma_exact_div(n: int, d: int)
    requires
        0 < d,
        0 <= n,
    ensures
        (n * d) / d == n,
        (n * d + d - 1) / d == n,
{
    lemma_fundamental_div_mod_converse(n * d, d, n, 0);
    lemma_fundamental_div_mod_converse(n * d + d - 1, d, n, d - 1);
}

/// One smooth step keeps the window: the result stays in `[0, w]`.
pub proof fn lemma_smooth_once_range(n: int, w: int)
    requires
        0 < w,
        0 <= n <= w,
    ensures
        0 <= smooth_once_spec(n, w) <= w,
{
    let g = n * n * (3 * w - 2 * n);
    let d = w * w;
    lemma_g_range(n, w);
    assert(w * w * w == w * d) by (nonlinear_arith)
        requires d == w * w;
    assert(0 < d) by (nonlinear_arith)
        requires 0 < w, d == w * w;
    lemma_div_pos_is_pos(g, d);
    if 2 * n <= w {
        lemma_div_is_ordered(g, w * d, d);
        lemma_exact_div(w, d);
    } else {
        lemma_div_pos_is_pos(g + d - 1, d);
        lemma_div_is_ordered(g + d - 1, w * d + d - 1, d);
        lemma_exact_div(w, d);
    }
}

/// The smooth step fixes both boundaries and the exact midpoint:
/// `f(0) = 0`, `f(w) = w`, and `f(w/2) = w/2` when `w` is even.
pub proof fn lemma_smooth_once_fixed_points(w: int)
    requires
        0 < w,
    ensures
        smooth_once_spec(0, w) == 0,
        smooth_once_spec(w, w) == w,
        w % 2 == 0 ==> smooth_once_spec(w / 2, w) == w / 2,
{
    let d = w * w;
    assert(0 < d) by (nonlinear_arith)
        requires 0 < w, d == w * w;
    // f(0): numerator is 0.
    assert(0 * 0 * (3 * w - 2 * 0) == 0) by (nonlinear_arith);
    lemma_div_pos_is_pos(0, d);
    lemma_div_is_ordered(0, 0, d);
    assert(0int / d == 0) by {
        lemma_exact_div(0, d);
    }
    // f(w): numerator is w^3 == w * d, and the ceiling branch applies.
    assert(w * w * (3 * w - 2 * w) == w * d) by (nonlinear_arith)
        requires d == w * w;
    lemma_exact_div(w, d);
    // f(w/2) for even w: numerator is (w/2) * d exactly.
    if w % 2 == 0 {
        let h = w / 2;
        lemma_fundamental_div_mod(w, 2);
        assert(w == 2 * h);
        assert(h * h * (3 * w - 2 * h) == h * d) by (nonlinear_arith)
            requires w == 2 * h, d == w * w;
        lemma_exact_div(h, d);
    }
}

/// Below the midpoint the smooth step moves a value strictly down, and it
/// stays below the midpoint; above the midpoint, strictly up, staying
/// above. This is the one-step heart of the quantizer's stickiness.
pub proof fn lemma_smooth_once_sticks(n: int, w: int)
    requires
        0 < w,
        0 <= n <= w,
    ensures
        0 < n && 2 * n < w ==> 0 <= smooth_once_spec(n, w) < n && 2 * smooth_once_spec(n, w) < w,
        n < w && 2 * n > w ==> n < smooth_once_spec(n, w) <= w && 2 * smooth_once_spec(n, w) > w,
{
    let g = n * n * (3 * w - 2 * n);
    let d = w * w;
    assert(0 < d) by (nonlinear_arith)
        requires 0 < w, d == w * w;
    lemma_smooth_once_range(n, w);
    if 0 < n && 2 * n < w {
        lemma_g_range(n, w);
        lemma_g_below_midpoint(n, w);
        assert(n * (w * w) == n * d) by (nonlinear_arith)
            requires d == w * w;
        lemma_floor_lt(g, d, n);
    }
    if n < w && 2 * n > w {
        lemma_g_above_midpoint(n, w);
        assert(n * (w * w) == n * d) by (nonlinear_arith)
            requires d == w * w;
        lemma_ceil_gt(g, d, n);
    }
}

/// The smooth step is monotonically non-decreasing on the window.
pub proof fn lemma_smooth_once_monotone(n1: int, n2: int, w: int)
    requires
        0 < w,
        0 <= n1 <= n2 <= w,
    ensures
        smooth_once_spec(n1, w) <= smooth_once_spec(n2, w),
{
    let g1 = n1 * n1 * (3 * w - 2 * n1);
    let g2 = n2 * n2 * (3 * w - 2 * n2);
    let d = w * w;
    assert(0 < d) by (nonlinear_arith)
        requires 0 < w, d == w * w;
    lemma_g_monotone(n1, n2, w);
    if 2 * n2 <= w {
        // both on the floor branch
        lemma_div_is_ordered(g1, g2, d);
    } else if 2 * n1 > w {
        // both on the ceiling branch
        lemma_div_is_ordered(g1 + d - 1, g2 + d - 1, d);
    } else {
        // floor below, ceiling above: ceiling of the larger numerator
        // dominates the floor of the smaller one
        lemma_div_is_ordered(g1, g2, d);
        lemma_div_is_ordered(g2, g2 + d - 1, d);
    }
}


/// Every iterate of the smooth step stays inside the window.
pub proof fn lemma_iter_range(n: int, w: int, k: nat)
    requires
        0 < w,
        0 <= n <= w,
    ensures
        0 <= iter_smooth(n, w, k) <= w,
    decreases k,
{
    if k > 0 {
        lemma_iter_range(n, w, (k - 1) as nat);
        lemma_smooth_once_range(iter_smooth(n, w, (k - 1) as nat), w);
    }
}

/// Iterates never cross the midpoint: starting below it they stay below it
/// and never rise; starting above, above and never fall; the exact midpoint
/// is a fixed point.
pub proof fn lemma_iter_side(n: int, w: int, k: nat)
    requires
        0 < w,
        0 <= n <= w,
    ensures
        2 * n < w ==> iter_smooth(n, w, k) <= n && 2 * iter_smooth(n, w, k) < w,
        2 * n > w ==> iter_smooth(n, w, k) >= n && 2 * iter_smooth(n, w, k) > w,
        2 * n == w ==> iter_smooth(n, w, k) == n,
    decreases k,
{
    if k > 0 {
        let m = iter_smooth(n, w, (k - 1) as nat);
        lemma_iter_side(n, w, (k - 1) as nat);
        lemma_iter_range(n, w, (k - 1) as nat);
        lemma_smooth_once_fixed_points(w);
        lemma_smooth_once_sticks(m, w);
        if 2 * n == w {
            vstd::arithmetic::div_mod::lemma_fundamental_div_mod_converse(w, 2, n, 0);
        }
    }
}

/// Raising the quantization strength by one never moves the value farther
/// from the nearer boundary of its window.
pub proof fn lemma_strength_non_increasing(n: int, w: int, k: nat)
    requires
        0 < w,
        0 <= n <= w,
    ensures
        boundary_distance(iter_smooth(n, w, (k + 1) as nat), w) <= boundary_distance(
            iter_smooth(n, w, k),
            w,
        ),
{
    let m = iter_smooth(n, w, k);
    lemma_iter_range(n, w, k);
    lemma_iter_side(n, w, k);
    lemma_iter_side(n, w, (k + 1) as nat);
    lemma_smooth_once_fixed_points(w);
    lemma_smooth_once_sticks(m, w);
    assert(iter_smooth(n, w, (k + 1) as nat) == smooth_once_spec(m, w));
}

/// For a value strictly inside its window, off the exact midpoint, and not
/// yet driven onto a boundary, each further strength level moves it
/// strictly closer to the nearer boundary.
pub proof fn lemma_strength_strictly_closer(n: int, w: int, k: nat)
    requires
        0 < w,
        0 < n < w,
        2 * n != w,
        iter_smooth(n, w, k) != 0,
        iter_smooth(n, w, k) != w,
    ensures
        boundary_distance(iter_smooth(n, w, (k + 1) as nat), w) < boundary_distance(
            iter_smooth(n, w, k),
            w,
        ),
{
    let m = iter_smooth(n, w, k);
    lemma_iter_range(n, w, k);
    lemma_iter_side(n, w, k);
    lemma_iter_side(n, w, (k + 1) as nat);
    lemma_smooth_once_sticks(m, w);
    assert(iter_smooth(n, w, (k + 1) as nat) == smooth_once_spec(m, w));
}

/// Widest quantization window: the whole MIDI note axis in fixed point.
pub const MAX_WINDOW: i64 = 255_000_000;

/// One exact application of the smooth-step curve inside a window of width
/// `w`, with the directed rounding of `smooth_once_spec`.
fn smooth_once(n: u64, w: u64) -> (r: u64)
    requires
        0 < w <= MAX_WINDOW,
        n <= w,
    ensures
        r == smooth_once_spec(n as int, w as int),
        r <= w,
{
    proof {
        lemma_smooth_once_range(n as int, w as int);
    }
    let n1 = n as u128;
    let w1 = w as u128;
    proof {
        lemma_mul_upper_bound(n1 as int, 255_000_000, n1 as int, 255_000_000);
        lemma_mul_upper_bound(w1 as int, 255_000_000, w1 as int, 255_000_000);
    }
    let a: u128 = n1 * n1;
    let b: u128 = 3 * w1 - 2 * n1;
    proof {
        lemma_mul_upper_bound(a as int, 255_000_000int * 255_000_000, b as int, 765_000_000int);
    }
    let g: u128 = a * b;
    let d: u128 = w1 * w1;
    proof {
        assert(0 < d) by (nonlinear_arith)
            requires 0 < w1, d == w1 * w1;
    }
    let q: u128 = g / d;
    let rem: u128 = g % d;
    proof {
        lemma_fundamental_div_mod(g as int, d as int);
        assert(q * d == d * q) by (nonlinear_arith);
        assert((q + 1) * d == q * d + d) by (nonlinear_arith);
        if 2 * n > w {
            if rem > 0 {
                lemma_fundamental_div_mod_converse(
                    g + d - 1,
                    d as int,
                    q as int + 1,
                    rem as int - 1,
                );
            } else {
                lemma_fundamental_div_mod_converse(g + d - 1, d as int, q as int, d as int - 1);
            }
        }
    }
    if 2 * n > w && rem > 0 {
        (q + 1) as u64
    } else {
        q as u64
    }
}

/// Index of the first scale window `[scale[i], scale[i + 1])` containing
/// `value`, searching from position `i`.
pub open spec fn win_find_from(scale: Seq<u8>, value: int, i: nat) -> Option<int>
    decreases scale.len() - i,
{
    if i + 1 >= scale.len() {
        None
    } else if note_pos(scale[i as int]) <= value < note_pos(scale[i as int + 1]) {
        Some(i as int)
    } else {
        win_find_from(scale, value, i + 1)
    }
}

/// Index of the scale window containing `value`, if any.
pub open spec fn win_find(scale: Seq<u8>, value: int) -> Option<int> {
    win_find_from(scale, value, 0)
}

/// Exact value of the smooth-stairs quantizer: inside a scale window the
/// smooth step is applied `strength` times; outside every window the value
/// passes through unchanged.
pub open spec fn quantize_spec(value: int, scale: Seq<u8>, strength: nat) -> int {
    match win_find(scale, value) {
        Some(i) => {
            let lo = note_pos(scale[i]);
            let hi = note_pos(scale[i + 1]);
            lo + iter_smooth(value - lo, hi - lo, strength)
        },
        None => value,
    }
}

/// A value contained in no scale window is found by no suffix search.
pub proof fn lemma_win_find_none(scale: Seq<u8>, value: int, i: nat)
    requires
        forall|j: int|
            0 <= j < scale.len() - 1 ==> !(note_pos(#[trigger] scale[j]) <= value < note_pos(
                scale[j + 1],
            )),
    ensures
        win_find_from(scale, value, i) is None,
    decreases scale.len() - i,
{
    if i + 1 < scale.len() {
        lemma_win_find_none(scale, value, i + 1);
    }
}

/// A pitch that lies outside every scale window is returned unchanged by
/// the quantizer, whatever the strength.
pub proof fn lemma_quantize_outside(value: int, scale: Seq<u8>, strength: nat)
    requires
        forall|j: int|
            0 <= j < scale.len() - 1 ==> !(note_pos(#[trigger] scale[j]) <= value < note_pos(
                scale[j + 1],
            )),
    ensures
        quantize_spec(value, scale, strength) == value,
{
    lemma_win_find_none(scale, value, 0);
}

/// A successful window search really did find an enclosing window.
pub proof fn lemma_win_find_window(scale: Seq<u8>, value: int, i: nat)
    ensures
        win_find_from(scale, value, i) matches Some(j) ==> i <= j < scale.len() - 1
            && note_pos(scale[j]) <= value < note_pos(scale[j + 1]),
    decreases scale.len() - i,
{
    if i + 1 < scale.len() {
        lemma_win_find_window(scale, value, i + 1);
    }
}

/// The quantized value never leaves the window that produced it.
pub proof fn lemma_quantize_in_window(value: int, scale: Seq<u8>, strength: nat, i: int)
    requires
        win_find(scale, value) == Some(i),
    ensures
        0 <= i < scale.len() - 1,
        note_pos(scale[i]) <= quantize_spec(value, scale, strength) <= note_pos(scale[i + 1]),
{
    lemma_win_find_window(scale, value, 0);
    let lo = note_pos(scale[i]);
    let hi = note_pos(scale[i + 1]);
    lemma_iter_range(value - lo, hi - lo, strength);
}

/// Smooth-stairs quantizer: pulls a raw pitch toward the nearest boundary
/// of its enclosing scale window by applying the smooth-step curve
/// `strength` times; strength `0` and pitches outside every window are
/// explicit identities.
pub fn smoothstairs(value: i64, strength: usize, scale: &Vec<u8>) -> (r: i64)
    requires
        ascending(scale@),
        -COORD_LIMIT <= value <= COORD_LIMIT,
    ensures
        r == quantize_spec(value as int, scale@, strength as nat),
        strength == 0 ==> r == value,
{
    let len = scale.len();
    let mut i: usize = 0;
    while len >= 1 && i < len - 1
        invariant
            ascending(scale@),
            -COORD_LIMIT <= value <= COORD_LIMIT,
            len == scale@.len(),
            i <= len,
            len >= 1 ==> i < len,
            win_find(scale@, value as int) == win_find_from(scale@, value as int, i as nat),
        decreases len - i,
    {
        let lo: i64 = scale[i] as i64 * UNIT;
        let hi: i64 = scale[i + 1] as i64 * UNIT;
        if lo <= value && value < hi {
            let w: u64 = (hi - lo) as u64;
            let n0: u64 = (value - lo) as u64;
            let ghost start = n0 as int;
            let mut n: u64 = n0;
            let mut t: usize = 0;
            proof {
                lemma_iter_range(start, w as int, 0);
            }
            while t < strength
                invariant
                    0 < w <= MAX_WINDOW,
                    n == iter_smooth(start, w as int, t as nat),
                    0 <= start <= w,
                    n <= w,
                    t <= strength,
                decreases strength - t,
            {
                n = smooth_once(n, w);
                t = t + 1;
                proof {
                    lemma_iter_range(start, w as int, t as nat);
                }
            }
            return lo + n as i64;
        }
        i = i + 1;
    }
    value
}

/// Scale-degree offset of a note from the root pitch class: the residue of
/// `n - pc` modulo an octave, a value in `0..12`.
pub open spec fn degree_offset(pc: int, n: int) -> int {
    (n - pc) % 12
}

/// Whether a note fits the interval pattern rooted at pitch class `pc`.
pub open spec fn in_pattern(pc: int, intervals: Seq<u8>, n: int) -> bool {
    intervals.contains(degree_offset(pc, n) as u8)
}

/// The scale derived from a root pitch class and an interval pattern:
/// every note of `[lo, hi]` whose offset from the root lies in the
/// pattern, in ascending order. This is the interval pattern tiled across
/// octaves and truncated to the playable range.
pub open spec fn scale_seq(pc: int, intervals: Seq<u8>, lo: int, hi: int) -> Seq<u8>
    decreases hi + 1 - lo,
{
    if lo > hi {
        Seq::empty()
    } else if in_pattern(pc, intervals, lo) {
        seq![lo as u8] + scale_seq(pc, intervals, lo + 1, hi)
    } else {
        scale_seq(pc, intervals, lo + 1, hi)
    }
}

/// The scale is strictly ascending (hence duplicate-free), lies inside
/// `[lo, hi]`, and holds exactly the notes of `[lo, hi]` that fit the
/// pattern: the boundary notes appear exactly when musically present.
pub proof fn lemma_scale_seq_characterization(pc: int, intervals: Seq<u8>, lo: int, hi: int)
    requires
        0 <= lo,
        hi <= 255,
    ensures
        ascending(scale_seq(pc, intervals, lo, hi)),
        forall|k: int|
            0 <= k < scale_seq(pc, intervals, lo, hi).len() ==> lo <= #[trigger] scale_seq(
                pc,
                intervals,
                lo,
                hi,
            )[k] <= hi && in_pattern(pc, intervals, scale_seq(pc, intervals, lo, hi)[k] as int),
        forall|n: int|
            lo <= n <= hi && in_pattern(pc, intervals, n) ==> scale_seq(
                pc,
                intervals,
                lo,
                hi,
            ).contains(n as u8),
    decreases hi + 1 - lo,
{
    if lo <= hi {
        lemma_scale_seq_characterization(pc, intervals, lo + 1, hi);
        let tail = scale_seq(pc, intervals, lo + 1, hi);
        let whole = scale_seq(pc, intervals, lo, hi);
        if in_pattern(pc, intervals, lo) {
            assert(whole[0] == lo as u8);
            assert(forall|k: int| 1 <= k < whole.len() ==> whole[k] == tail[k - 1]);
        }
        assert forall|n: int|
            lo <= n <= hi && in_pattern(pc, intervals, n) implies whole.contains(n as u8) by {
            if n == lo {
                assert(whole[0] == n as u8);
            } else {
                assert(tail.contains(n as u8));
                let j = choose|j: int| 0 <= j < tail.len() && tail[j] == n as u8;
                if in_pattern(pc, intervals, lo) {
                    assert(whole[j + 1] == n as u8);
                } else {
                    assert(whole[j] == n as u8);
                }
            }
        }
    }
}

/// Membership test over a note or interval list.
pub fn contains_note(intervals: &Vec<u8>, x: u8) -> (r: bool)
    ensures
        r == intervals@.contains(x),
{
    let mut k: usize = 0;
    while k < intervals.len()
        invariant
            k <= intervals@.len(),
            forall|j: int| 0 <= j < k ==> intervals@[j] != x,
        decreases intervals@.len() - k,
    {
        if intervals[k] == x {
            return true;
        }
        k = k + 1;
    }
    false
}

/// Derives the ordered set of musically valid notes from a root note and
/// an interval pattern, bounded to the playable range `[lo, hi]`.
pub fn build_scale(root: u8, intervals: &Vec<u8>, lo: u8, hi: u8) -> (r: Vec<u8>)
    ensures
        r@ == scale_seq(root as int % 12, intervals@, lo as int, hi as int),
{
    let pc: u8 = root % 12;
    let mut out: Vec<u8> = Vec::new();
    let mut n: u16 = lo as u16;
    while n <= hi as u16
        invariant
            pc == root as int % 12,
            pc < 12,
            lo <= n,
            n == lo as u16 || n <= hi as u16 + 1,
            out@ + scale_seq(pc as int, intervals@, n as int, hi as int) == scale_seq(
                pc as int,
                intervals@,
                lo as int,
                hi as int,
            ),
        decreases hi as int + 1 - n,
    {
        let note: u8 = n as u8;
        let off: u8 = (note % 12 + 12 - pc) % 12;
        proof {
            lemma_small_mod(pc as nat, 12);
            lemma_sub_mod_noop(note as int, pc as int, 12);
            lemma_mod_add_multiples_vanish(note as int % 12 - pc as int, 12);
            assert(off as int == degree_offset(pc as int, note as int));
        }
        let ghost prev = out@;
        let ghost rest = scale_seq(pc as int, intervals@, n as int, hi as int);
        let ghost rest1 = scale_seq(pc as int, intervals@, n as int + 1, hi as int);
        if contains_note(intervals, off) {
            out.push(note);
            proof {
                assert(rest == seq![note] + rest1);
                assert(out@ + rest1 =~= prev + rest);
            }
        } else {
            proof {
                assert(rest == rest1);
            }
        }
        n = n + 1;
    }
    proof {
        assert(out@ + scale_seq(pc as int, intervals@, n as int, hi as int) =~= out@);
    }
    out
}

/// Absolute distance between two positions on the pitch axis.
pub open spec fn abs_dist(a: int, b: int) -> int {
    if a >= b {
        a - b
    } else {
        b - a
    }
}

/// Index of the scale note nearest to `value` among the first `m` notes,
/// ties resolved toward the lower index.
pub open spec fn closest_idx_upto(s: Seq<u8>, value: int, m: nat) -> int
    decreases m,
{
    if m <= 1 {
        0
    } else {
        let p = closest_idx_upto(s, value, (m - 1) as nat);
        if abs_dist(note_pos(s[m - 1]), value) < abs_dist(note_pos(s[p]), value) {
            m - 1
        } else {
            p
        }
    }
}

/// Index of the scale note nearest to `value`.
pub open spec fn closest_idx(s: Seq<u8>, value: int) -> int {
    closest_idx_upto(s, value, s.len())
}

/// The nearest index is a real index and no earlier note is nearer.
pub proof fn lemma_closest_idx_minimal(s: Seq<u8>, value: int, m: nat)
    requires
        1 <= m <= s.len(),
    ensures
        0 <= closest_idx_upto(s, value, m) < m,
        forall|j: int|
            0 <= j < m ==> abs_dist(note_pos(s[closest_idx_upto(s, value, m)]), value) <= abs_dist(
                note_pos(#[trigger] s[j]),
                value,
            ),
    decreases m,
{
    if m > 1 {
        lemma_closest_idx_minimal(s, value, (m - 1) as nat);
    }
}

/// The chord tone a fixed number of scale degrees away from the scale
/// position of an (already quantized) note: the note at `closest + offset`
/// in the candidate scale, or no note when that index leaves the scale.
pub open spec fn chord_tone(s: Seq<u8>, value: int, offset: int) -> Option<u8> {
    if s.len() == 0 {
        None
    } else {
        let i = closest_idx(s, value);
        if 0 <= i + offset < s.len() {
            Some(s[i + offset])
        } else {
            None
        }
    }
}

/// A chord tone, when produced, is always a note of the candidate scale;
/// an out-of-bounds degree offset produces no note at all.
pub proof fn lemma_chord_tone_valid(s: Seq<u8>, value: int, offset: int)
    ensures
        chord_tone(s, value, offset) matches Some(x) ==> s.contains(x),
        offset >= s.len() || offset <= -(s.len() as int) ==> chord_tone(s, value, offset) is None,
{
    if s.len() > 0 {
        lemma_closest_idx_minimal(s, value, s.len());
        let i = closest_idx(s, value);
        if 0 <= i + offset < s.len() {
            assert(s[i + offset] == s.index(i + offset));
        }
    }
}

/// The note of the scale closest to a pitch, used to anchor the tuner
/// display and chord derivation; no note when the scale is empty.
pub fn closest_in_scale(value: i64, scale: &Vec<u8>) -> (r: Option<u8>)
    requires
        -COORD_LIMIT <= value <= COORD_LIMIT,
    ensures
        r is None <==> scale@.len() == 0,
        r matches Some(x) ==> x == scale@[closest_idx(scale@, value as int)],
        r matches Some(x) ==> forall|j: int|
            0 <= j < scale@.len() ==> abs_dist(note_pos(x), value as int) <= abs_dist(
                note_pos(#[trigger] scale@[j]),
                value as int,
            ),
{
    if scale.len() == 0 {
        return None;
    }
    proof {
        lemma_closest_idx_minimal(scale@, value as int, scale@.len());
    }
    let mut best: usize = 0;
    let mut m: usize = 1;
    while m < scale.len()
        invariant
            1 <= m <= scale@.len(),
            -COORD_LIMIT <= value <= COORD_LIMIT,
            best == closest_idx_upto(scale@, value as int, m as nat),
            0 <= best < m,
        decreases scale@.len() - m,
    {
        proof {
            lemma_closest_idx_minimal(scale@, value as int, m as nat);
            lemma_closest_idx_minimal(scale@, value as int, (m + 1) as nat);
        }
        let cand: i64 = scale[m] as i64 * UNIT;
        let cur: i64 = scale[best] as i64 * UNIT;
        let cand_d: i64 = if cand >= value { cand - value } else { value - cand };
        let cur_d: i64 = if cur >= value { cur - value } else { value - cur };
        if cand_d < cur_d {
            best = m;
        }
        m = m + 1;
    }
    Some(scale[best])
}

/// Harmonized voice derivation: returns the note `offset` scale degrees
/// away from the scale position of `note`, or no note when the offset
/// falls outside the candidate scale.
pub fn auto_chord(note: i64, scale: &Vec<u8>, offset: i64) -> (r: Option<u8>)
    requires
        -COORD_LIMIT <= note <= COORD_LIMIT,
    ensures
        r == chord_tone(scale@, note as int, offset as int),
{
    if scale.len() == 0 {
        return None;
    }
    let mut best: usize = 0;
    let mut m: usize = 1;
    while m < scale.len()
        invariant
            1 <= m <= scale@.len(),
            -COORD_LIMIT <= note <= COORD_LIMIT,
            best == closest_idx_upto(scale@, note as int, m as nat),
            0 <= best < m,
        decreases scale@.len() - m,
    {
        proof {
            lemma_closest_idx_minimal(scale@, note as int, m as nat);
            lemma_closest_idx_minimal(scale@, note as int, (m + 1) as nat);
        }
        let cand: i64 = scale[m] as i64 * UNIT;
        let cur: i64 = scale[best] as i64 * UNIT;
        let cand_d: i64 = if cand >= note { cand - note } else { note - cand };
        let cur_d: i64 = if cur >= note { cur - note } else { note - cur };
        if cand_d < cur_d {
            best = m;
        }
        m = m + 1;
    }
    let target: i128 = best as i128 + offset as i128;
    if 0 <= target && target < scale.len() as i128 {
        Some(scale[target as usize])
    } else {
        None
    }
}

/// Progressive stickiness of the quantizer, for a raw pitch inside some
/// scale window: each further strength level leaves the quantized pitch
/// no farther from the nearer window boundary, and strictly closer as
/// long as the pitch neither sits exactly on the window midpoint nor has
/// already been driven onto a boundary. (At the exact midpoint the smooth
/// step is a fixed point, so the pitch stays put at every strength.)
pub proof fn lemma_quantizer_stickiness(value: int, scale: Seq<u8>, k: nat, i: int)
    requires
        win_find(scale, value) == Some(i),
    ensures
        0 <= i < scale.len() - 1,
        boundary_distance(
            quantize_spec(value, scale, (k + 1) as nat) - note_pos(scale[i]),
            note_pos(scale[i + 1]) - note_pos(scale[i]),
        ) <= boundary_distance(
            quantize_spec(value, scale, k) - note_pos(scale[i]),
            note_pos(scale[i + 1]) - note_pos(scale[i]),
        ),
        ({
            let lo = note_pos(scale[i]);
            let hi = note_pos(scale[i + 1]);
            2 * (value - lo) != hi - lo && quantize_spec(value, scale, k) != lo && quantize_spec(
                value,
                scale,
                k,
            ) != hi ==> boundary_distance(
                quantize_spec(value, scale, (k + 1) as nat) - lo,
                hi - lo,
            ) < boundary_distance(quantize_spec(value, scale, k) - lo, hi - lo)
        }),
{
    lemma_win_find_window(scale, value, 0);
    let lo = note_pos(scale[i]);
    let hi = note_pos(scale[i + 1]);
    let w = hi - lo;
    let n0 = value - lo;
    lemma_strength_non_increasing(n0, w, k);
    if 2 * n0 != w && quantize_spec(value, scale, k) != lo && quantize_spec(value, scale, k)
        != hi {
        lemma_iter_range(n0, w, k);
        if n0 == 0 {
            lemma_iter_side(n0, w, k);
        } else {
            lemma_strength_strictly_closer(n0, w, k);
        }
    }
}

} // verus!
