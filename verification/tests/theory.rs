//! Range mapper, quantizer and scale builder behaviour on concrete values.

use theremotion::music::{auto_chord, build_scale, closest_in_scale, smoothstairs};
use theremotion::range::{convert_range, Interval, UNIT};
use theremotion::settings::{
    blues_intervals, chromatic_intervals, major_intervals, Settings,
};

fn iv(start: i64, end: i64) -> Interval {
    Interval { start, end }
}

#[test]
fn convert_range_linear_midpoint() {
    // 5 mm inside [0 mm, 10 mm] lands in the middle of [0, 1].
    let r = convert_range(5 * UNIT, iv(0, 10 * UNIT), iv(0, UNIT));
    assert_eq!(r, 500_000);
}

#[test]
fn convert_range_clamps_both_sides() {
    // Out-of-domain readings are still clamped into the output range.
    let out = iv(100, 200);
    assert_eq!(convert_range(-5 * UNIT, iv(0, 10 * UNIT), out), 100);
    assert_eq!(convert_range(15 * UNIT, iv(0, 10 * UNIT), out), 200);
}

#[test]
fn convert_range_inside_domain_stays_inside() {
    let out = iv(-3 * UNIT, 7 * UNIT);
    let mut v: i64 = 0;
    while v <= 10 * UNIT {
        let r = convert_range(v, iv(0, 10 * UNIT), out);
        assert!(out.start <= r && r <= out.end);
        v += 123_456;
    }
}

#[test]
fn convert_range_identity_on_matching_domains() {
    let dom = iv(2 * UNIT, 9 * UNIT);
    assert_eq!(convert_range(4_567_890, dom, dom), 4_567_890);
    assert_eq!(convert_range(2 * UNIT, dom, dom), 2 * UNIT);
    assert_eq!(convert_range(9 * UNIT, dom, dom), 9 * UNIT);
}

#[test]
fn convert_range_reversed_input_inverts_axis() {
    let input = iv(100 * UNIT, -100 * UNIT);
    let out = iv(0, UNIT);
    assert_eq!(convert_range(100 * UNIT, input, out), 0);
    assert_eq!(convert_range(-100 * UNIT, input, out), UNIT);
    assert_eq!(convert_range(0, input, out), 500_000);
}

#[test]
fn convert_range_degenerate_domain_yields_output_start() {
    // The documented fail-safe policy for a zero-width input domain.
    assert_eq!(convert_range(123, iv(5, 5), iv(10, 20)), 10);
    assert_eq!(convert_range(5, iv(5, 5), iv(10, 20)), 10);
}

#[test]
fn smoothstep_fixes_boundaries_and_midpoint() {
    // f(0) = 0, f(1) = 1 (next window's 0), f(0.5) = 0.5, at full strength.
    let scale: Vec<u8> = vec![60, 61, 62];
    assert_eq!(smoothstairs(60_000_000, 5, &scale), 60_000_000);
    assert_eq!(smoothstairs(61_000_000, 5, &scale), 61_000_000);
    assert_eq!(smoothstairs(60_500_000, 5, &scale), 60_500_000);
}

#[test]
fn smoothstep_exact_value_one_iteration() {
    let scale: Vec<u8> = vec![60, 61];
    // x = 0.25: x^2 (3 - 2x) = 0.15625, rounded down (toward the lower
    // boundary the value leans toward).
    assert_eq!(smoothstairs(60_250_000, 1, &scale), 60_156_250);
    // x = 0.75: 0.84375 exactly, leaning toward the upper boundary.
    assert_eq!(smoothstairs(60_750_000, 1, &scale), 60_843_750);
}

#[test]
fn smoothstep_is_monotone_across_a_window() {
    let scale: Vec<u8> = vec![60, 61];
    let mut prev = smoothstairs(60_000_000, 1, &scale);
    let mut v: i64 = 60_000_000;
    while v < 61_000_000 {
        let q = smoothstairs(v, 1, &scale);
        assert!(q >= prev);
        prev = q;
        v += 10_000;
    }
}

#[test]
fn quantizer_strength_zero_is_identity() {
    let scale: Vec<u8> = vec![60, 61, 62];
    assert_eq!(smoothstairs(60_250_000, 0, &scale), 60_250_000);
    assert_eq!(smoothstairs(61_731_000, 0, &scale), 61_731_000);
}

#[test]
fn quantizer_strength_moves_strictly_closer() {
    let scale: Vec<u8> = vec![60, 61];
    let raw = 60_250_000;
    let mut prev_dist = i64::MAX;
    for strength in 0..=5 {
        let q = smoothstairs(raw, strength, &scale);
        assert!(60_000_000 <= q && q <= 61_000_000);
        let dist = (q - 60_000_000).min(61_000_000 - q);
        assert!(dist < prev_dist, "strength {} did not move closer", strength);
        prev_dist = dist;
    }
}

#[test]
fn quantizer_outside_scale_passes_through() {
    let scale: Vec<u8> = vec![60, 61, 62];
    assert_eq!(smoothstairs(10_000_000, 5, &scale), 10_000_000);
    assert_eq!(smoothstairs(90_000_000, 5, &scale), 90_000_000);
    let empty: Vec<u8> = vec![];
    assert_eq!(smoothstairs(60_500_000, 5, &empty), 60_500_000);
}

#[test]
fn end_to_end_chromatic_convergence() {
    // Root C4 (semitone 60), chromatic scale, raw pitch 60.5 at strength 5:
    // the result stays inside the enclosing semitone window and is no
    // farther from the nearer boundary than at strength 1. (60.5 is the
    // exact window midpoint, a fixed point of the smooth step, so the
    // distance cannot shrink strictly there; just off the midpoint it
    // must.)
    let settings = Settings {
        root_pitch: 0,
        root_octave: 4,
        scale: chromatic_intervals(),
        drone: None,
        note_range_lo: 48,
        note_range_hi: 72,
    };
    let scale = settings.scale_notes();
    assert!(scale.contains(&60) && scale.contains(&61));

    let dist = |q: i64| (q - 60_000_000).min(61_000_000 - q);

    let q1 = smoothstairs(60_500_000, 1, &scale);
    let q5 = smoothstairs(60_500_000, 5, &scale);
    assert!(60_000_000 <= q5 && q5 <= 61_000_000);
    assert!(dist(q5) <= dist(q1));

    let q1 = smoothstairs(60_400_000, 1, &scale);
    let q5 = smoothstairs(60_400_000, 5, &scale);
    assert!(60_000_000 <= q5 && q5 <= 61_000_000);
    assert!(dist(q5) < dist(q1));
}

#[test]
fn build_scale_major_with_bounds() {
    // C major over [58, 72]: ascending, duplicate-free, and both edges
    // included exactly when musically present.
    let scale = build_scale(60, &major_intervals(), 58, 72);
    assert_eq!(scale, vec![59, 60, 62, 64, 65, 67, 69, 71, 72]);
}

#[test]
fn build_scale_is_ascending_without_duplicates() {
    let scale = build_scale(62, &blues_intervals(), 0, 127);
    for w in scale.windows(2) {
        assert!(w[0] < w[1]);
    }
}

#[test]
fn build_scale_edge_cases() {
    let empty: Vec<u8> = vec![];
    assert_eq!(build_scale(60, &empty, 0, 127), vec![]);
    assert_eq!(build_scale(60, &chromatic_intervals(), 60, 60), vec![60]);
    assert_eq!(build_scale(60, &major_intervals(), 61, 61), vec![]);
}

#[test]
fn auto_chord_derives_scale_degrees() {
    let scale = build_scale(60, &major_intervals(), 60, 72);
    assert_eq!(scale, vec![60, 62, 64, 65, 67, 69, 71, 72]);
    assert_eq!(auto_chord(60_000_000, &scale, 2), Some(64));
    assert_eq!(auto_chord(60_000_000, &scale, 4), Some(67));
    assert_eq!(auto_chord(60_400_000, &scale, 2), Some(64));
}

#[test]
fn auto_chord_out_of_bounds_offset_yields_no_note() {
    let scale = build_scale(60, &major_intervals(), 60, 72);
    assert_eq!(auto_chord(60_000_000, &scale, 100), None);
    assert_eq!(auto_chord(60_000_000, &scale, -1), None);
    assert_eq!(auto_chord(72_000_000, &scale, 1), None);
    let empty: Vec<u8> = vec![];
    assert_eq!(auto_chord(60_000_000, &empty, 0), None);
}

#[test]
fn closest_in_scale_picks_nearest_with_low_tie() {
    let scale: Vec<u8> = vec![60, 62, 64];
    assert_eq!(closest_in_scale(60_100_000, &scale), Some(60));
    assert_eq!(closest_in_scale(63_900_000, &scale), Some(64));
    // Equidistant between 60 and 62: the lower index wins.
    assert_eq!(closest_in_scale(61_000_000, &scale), Some(60));
    let empty: Vec<u8> = vec![];
    assert_eq!(closest_in_scale(60_000_000, &empty), None);
}

#[test]
fn settings_default_is_well_formed() {
    let s = Settings::default();
    assert_eq!(s.root_pitch, 0);
    assert_eq!(s.root_octave, 3);
    assert_eq!(s.scale, vec![0, 2, 4, 5, 7, 9, 11]);
    assert_eq!(s.drone, None);
    assert_eq!((s.note_range_lo, s.note_range_hi), (36, 84));
    assert_eq!(s.root_semitone(), 48);
}

#[test]
fn preset_patterns() {
    assert_eq!(chromatic_intervals(), (0u8..12).collect::<Vec<u8>>());
    assert_eq!(blues_intervals(), vec![0, 3, 5, 6, 7, 10]);
}
