//! Hand-to-control mapping: the gesture vocabulary. A pure step function
//! of (previous snapshot, current hand samples, current settings) that
//! produces the next snapshot.

use vstd::prelude::*;

verus! {

use crate::controls::{strength_range, Controls};
use crate::music::{
    chord_tone, lemma_chord_tone_valid, lemma_scale_seq_characterization, note_pos, quantize_spec,
};
use crate::range::{convert_range_spec, Interval, COORD_LIMIT, UNIT};
use crate::settings::Settings;

/// One hand-pose sample from the tracking sensor, in fixed point: palm
/// position and velocity in millimetres, the palm orientation normal in
/// units, pinch strength in `[0, 1]`, and the tracked fingertip's vertical
/// position. Created each poll cycle and discarded after one mapping step.
#[derive(Clone, Copy, Debug)]
pub struct HandSample {
    pub palm_x: i64,
    pub palm_y: i64,
    pub palm_z: i64,
    pub normal_x: i64,
    pub normal_y: i64,
    pub normal_z: i64,
    pub velocity_x: i64,
    pub velocity_y: i64,
    pub velocity_z: i64,
    pub pinch: i64,
    pub index_tip_y: i64,
}

impl HandSample {
    pub open spec fn wf(self) -> bool {
        &&& -COORD_LIMIT <= self.palm_x <= COORD_LIMIT
        &&& -COORD_LIMIT <= self.palm_y <= COORD_LIMIT
        &&& -COORD_LIMIT <= self.palm_z <= COORD_LIMIT
        &&& -COORD_LIMIT <= self.normal_x <= COORD_LIMIT
        &&& -COORD_LIMIT <= self.normal_y <= COORD_LIMIT
        &&& -COORD_LIMIT <= self.normal_z <= COORD_LIMIT
        &&& -COORD_LIMIT <= self.velocity_x <= COORD_LIMIT
        &&& -COORD_LIMIT <= self.velocity_y <= COORD_LIMIT
        &&& -COORD_LIMIT <= self.velocity_z <= COORD_LIMIT
        &&& 0 <= self.pinch <= UNIT
        &&& -COORD_LIMIT <= self.index_tip_y <= COORD_LIMIT
    }
}

/// Pluck heuristic: a pinch beyond this strength arms the gesture; the
/// gate fires while the palm normal points upward (its vertical component
/// is positive). This is the pinch-plus-orientation-sign policy, chosen
/// over the velocity-threshold alternative for its stability.
pub const PLUCK_PINCH_MIN: i64 = 900_000;

/// Fixed volume of the drone voice while a drone note is configured.
pub const DRONE_VOLUME: i64 = 200_000;

// The gesture input domains: which span of each physical measurement is
// carried onto a control's range. A reversed domain inverts the axis.

/// Left palm sideways position driving the detune blend.
pub open spec fn detune_domain() -> Interval {
    Interval { start: (-200 * UNIT) as i64, end: (-50 * UNIT) as i64 }
}

/// Left fingertip height driving the pitch.
pub open spec fn note_domain() -> Interval {
    Interval { start: (100 * UNIT) as i64, end: (600 * UNIT) as i64 }
}

/// Pinch strength driving the quantization strength.
pub open spec fn strength_domain() -> Interval {
    Interval { start: 0, end: UNIT }
}

/// Left palm depth driving the secondary oscillator blend (inverted).
pub open spec fn supersaw_domain() -> Interval {
    Interval { start: (100 * UNIT) as i64, end: (-100 * UNIT) as i64 }
}

/// Right palm height driving the voice volumes.
pub open spec fn volume_domain() -> Interval {
    Interval { start: (300 * UNIT) as i64, end: (400 * UNIT) as i64 }
}

/// Right palm sideways position driving the filter cutoff.
pub open spec fn cutoff_domain() -> Interval {
    Interval { start: (50 * UNIT) as i64, end: (200 * UNIT) as i64 }
}

/// Right palm depth driving the filter resonance (inverted).
pub open spec fn resonance_domain() -> Interval {
    Interval { start: (100 * UNIT) as i64, end: (-100 * UNIT) as i64 }
}

/// Vertical component of the right palm normal driving the pluck damping
/// (inverted).
pub open spec fn damping_domain() -> Interval {
    Interval { start: 0, end: (-UNIT) as i64 }
}

/// Configuration (paths and valid ranges) carries over unchanged from one
/// snapshot to the next; only values and advisories move.
pub open spec fn same_shape(prev: Controls, r: Controls) -> bool {
    &&& r.note1.path == prev.note1.path
    &&& r.vol1.path == prev.vol1.path && r.vol1.range == prev.vol1.range
    &&& r.lead2.note.path == prev.lead2.note.path && r.lead2.note.range == prev.lead2.note.range
    &&& r.lead2.volume.path == prev.lead2.volume.path && r.lead2.volume.range
        == prev.lead2.volume.range
    &&& r.lead3.note.path == prev.lead3.note.path && r.lead3.note.range == prev.lead3.note.range
    &&& r.lead3.volume.path == prev.lead3.volume.path && r.lead3.volume.range
        == prev.lead3.volume.range
    &&& r.lead4.note.path == prev.lead4.note.path && r.lead4.note.range == prev.lead4.note.range
    &&& r.lead4.volume.path == prev.lead4.volume.path && r.lead4.volume.range
        == prev.lead4.volume.range
    &&& r.cutoff_note.path == prev.cutoff_note.path && r.cutoff_note.range
        == prev.cutoff_note.range
    &&& r.resonance.path == prev.resonance.path && r.resonance.range == prev.resonance.range
    &&& r.supersaw.path == prev.supersaw.path && r.supersaw.range == prev.supersaw.range
    &&& r.detune.path == prev.detune.path && r.detune.range == prev.detune.range
    &&& r.pluck.path == prev.pluck.path
    &&& r.pluck_note.path == prev.pluck_note.path && r.pluck_note.range == prev.pluck_note.range
    &&& r.pluck_gain.path == prev.pluck_gain.path && r.pluck_gain.range == prev.pluck_gain.range
    &&& r.pluck_damping.path == prev.pluck_damping.path && r.pluck_damping.range
        == prev.pluck_damping.range
    &&& r.drone_volume.path == prev.drone_volume.path && r.drone_volume.range
        == prev.drone_volume.range
    &&& r.drone_note.path == prev.drone_note.path && r.drone_note.range == prev.drone_note.range
}

/// A chord voice either takes the derived chord tone or, when the scale
/// degree offset leaves the candidate scale, holds its previous pitch.
pub open spec fn chord_voice(
    voice: int,
    prev_voice: int,
    settings: Settings,
    lead_note: int,
    offset: int,
) -> bool {
    match chord_tone(settings.full_scale_spec(), lead_note, offset) {
        Some(n) => voice == note_pos(n),
        None => voice == prev_voice,
    }
}

/// The gesture vocabulary, field by field: what one mapping step computes
/// from the previous snapshot, the hand samples of this cycle and the
/// current settings.
pub open spec fn tracks(
    prev: Controls,
    left: Option<HandSample>,
    right: Option<HandSample>,
    settings: Settings,
    r: Controls,
) -> bool {
    // Configuration is static.
    &&& same_shape(prev, r)
    // A mapping step only runs on a fresh frame, so no poll error stands.
    &&& r.error is None
    // The advisory: exactly when no hand at all is in view, and never
    // empty then.
    &&& (left is None && right is None) <==> r.warning is Some
    &&& (r.warning matches Some(w) ==> w@.len() > 0)
    // The pluck gate is forced false every cycle it is not actively
    // re-triggered by the pluck gesture of the right hand.
    &&& r.pluck.value == match right {
        Some(h) => h.pinch > PLUCK_PINCH_MIN && h.normal_y > 0,
        None => false,
    }
    // Drone: configured pitch at fixed volume, independent of tracking;
    // silent (and pitch held) when not configured.
    &&& match settings.drone {
        Some(d) => r.drone_note.value == note_pos(d) && r.drone_volume.value == DRONE_VOLUME,
        None => r.drone_note.value == prev.drone_note.value && r.drone_volume.value == 0,
    }
    // Left hand: pitch, quantization strength, chord voices and timbre.
    &&& match left {
        Some(h) => {
            &&& r.detune.value == convert_range_spec(
                h.palm_x as int,
                detune_domain(),
                prev.detune.range,
            )
            &&& r.supersaw.value == convert_range_spec(
                h.palm_z as int,
                supersaw_domain(),
                prev.supersaw.range,
            )
            &&& r.note1.raw_value == convert_range_spec(
                h.index_tip_y as int,
                note_domain(),
                Interval {
                    start: (settings.note_range_lo * (UNIT as int)) as i64,
                    end: (settings.note_range_hi * (UNIT as int)) as i64,
                },
            )
            &&& r.note1.autotune == convert_range_spec(
                h.pinch as int,
                strength_domain(),
                strength_range(),
            ) / (UNIT as int)
            &&& r.note1.value == quantize_spec(
                r.note1.raw_value as int,
                settings.restricted_scale_spec(),
                r.note1.autotune as nat,
            )
            &&& r.pluck_note.value == r.note1.value
            &&& chord_voice(
                r.lead2.note.value as int,
                prev.lead2.note.value as int,
                settings,
                r.note1.value as int,
                2,
            )
            &&& chord_voice(
                r.lead3.note.value as int,
                prev.lead3.note.value as int,
                settings,
                r.note1.value as int,
                4,
            )
            &&& chord_voice(
                r.lead4.note.value as int,
                prev.lead4.note.value as int,
                settings,
                r.note1.value as int,
                6,
            )
        },
        None => {
            &&& r.detune.value == prev.detune.value
            &&& r.supersaw.value == prev.supersaw.value
            &&& r.note1 == prev.note1
            &&& r.pluck_note.value == prev.pluck_note.value
            &&& r.lead2.note.value == prev.lead2.note.value
            &&& r.lead3.note.value == prev.lead3.note.value
            &&& r.lead4.note.value == prev.lead4.note.value
        },
    }
    // Right hand: volume for every voice, filter, pluck damping.
    &&& match right {
        Some(h) => {
            &&& r.vol1.value == convert_range_spec(
                h.palm_y as int,
                volume_domain(),
                prev.vol1.range,
            )
            &&& r.lead2.volume.value == convert_range_spec(
                h.palm_y as int,
                volume_domain(),
                prev.lead2.volume.range,
            )
            &&& r.lead3.volume.value == convert_range_spec(
                h.palm_y as int,
                volume_domain(),
                prev.lead3.volume.range,
            )
            &&& r.lead4.volume.value == convert_range_spec(
                h.palm_y as int,
                volume_domain(),
                prev.lead4.volume.range,
            )
            &&& r.cutoff_note.value == convert_range_spec(
                h.palm_x as int,
                cutoff_domain(),
                prev.cutoff_note.range,
            )
            &&& r.resonance.value == convert_range_spec(
                h.palm_z as int,
                resonance_domain(),
                prev.resonance.range,
            )
            &&& r.pluck_damping.value == convert_range_spec(
                h.normal_y as int,
                damping_domain(),
                prev.pluck_damping.range,
            )
        },
        None => {
            &&& r.vol1.value == prev.vol1.value
            &&& r.lead2.volume.value == prev.lead2.volume.value
            &&& r.lead3.volume.value == prev.lead3.volume.value
            &&& r.lead4.volume.value == prev.lead4.volume.value
            &&& r.cutoff_note.value == prev.cutoff_note.value
            &&& r.resonance.value == prev.resonance.value
            &&& r.pluck_damping.value == prev.pluck_damping.value
        },
    }
    // Controls no gesture drives this cycle hold their last state.
    &&& r.pluck_gain.value == prev.pluck_gain.value
}

/// One mapping step: pure in its inputs, total over every combination of
/// present and absent hands. An absent hand sustains its controls' last
/// state; with no hand at all the snapshot carries an advisory warning and
/// every parameter over, except the pluck gate, which is forced false.
#[verifier::rlimit(100)]
pub fn map_hands(
    prev: &Controls,
    left: Option<HandSample>,
    right: Option<HandSample>,
    settings: &Settings,
) -> (r: Controls)
    requires
        prev.wf(),
        settings.wf(),
        match left {
            Some(h) => h.wf(),
            None => true,
        },
        match right {
            Some(h) => h.wf(),
            None => true,
        },
    ensures
        r.wf(),
        tracks(*prev, left, right, *settings, r),
{
    let mut r = prev.duplicate();
    r.warning = None;
    r.error = None;
    r.pluck.value = false;

    match settings.drone {
        Some(d) => {
            r.drone_note.value = d as i64 * UNIT;
            r.drone_volume.value = DRONE_VOLUME;
        },
        None => {
            r.drone_volume.value = 0;
        },
    }

    match left {
        Some(h) => {
            r.detune.set_scaled(h.palm_x, Interval { start: -200 * UNIT, end: -50 * UNIT });
            r.supersaw.set_scaled(h.palm_z, Interval { start: 100 * UNIT, end: -100 * UNIT });
            r.note1.set_scaled(
                h.index_tip_y,
                Interval { start: 100 * UNIT, end: 600 * UNIT },
                h.pinch,
                Interval { start: 0, end: UNIT },
                settings,
            );
            r.pluck_note.value = r.note1.value;
            let full = settings.full_scale();
            proof {
                lemma_scale_seq_characterization(
                    settings.root_pitch as int,
                    settings.scale@,
                    0,
                    127,
                );
                lemma_chord_tone_valid(full@, r.note1.value as int, 2);
                lemma_chord_tone_valid(full@, r.note1.value as int, 4);
                lemma_chord_tone_valid(full@, r.note1.value as int, 6);
            }
            match crate::music::auto_chord(r.note1.value, &full, 2) {
                Some(n) => {
                    proof {
                        let j = choose|j: int| 0 <= j < full@.len() && full@[j] == n;
                    }
                    r.lead2.note.value = n as i64 * UNIT;
                },
                None => {},
            }
            match crate::music::auto_chord(r.note1.value, &full, 4) {
                Some(n) => {
                    proof {
                        let j = choose|j: int| 0 <= j < full@.len() && full@[j] == n;
                    }
                    r.lead3.note.value = n as i64 * UNIT;
                },
                None => {},
            }
            match crate::music::auto_chord(r.note1.value, &full, 6) {
                Some(n) => {
                    proof {
                        let j = choose|j: int| 0 <= j < full@.len() && full@[j] == n;
                    }
                    r.lead4.note.value = n as i64 * UNIT;
                },
                None => {},
            }
        },
        None => {},
    }

    match right {
        Some(h) => {
            r.vol1.set_scaled(h.palm_y, Interval { start: 300 * UNIT, end: 400 * UNIT });
            r.lead2.volume.set_scaled(h.palm_y, Interval { start: 300 * UNIT, end: 400 * UNIT });
            r.lead3.volume.set_scaled(h.palm_y, Interval { start: 300 * UNIT, end: 400 * UNIT });
            r.lead4.volume.set_scaled(h.palm_y, Interval { start: 300 * UNIT, end: 400 * UNIT });
            r.cutoff_note.set_scaled(h.palm_x, Interval { start: 50 * UNIT, end: 200 * UNIT });
            r.resonance.set_scaled(h.palm_z, Interval { start: 100 * UNIT, end: -100 * UNIT });
            if h.pinch > PLUCK_PINCH_MIN {
                r.pluck.value = h.normal_y > 0;
            }
            r.pluck_damping.set_scaled(h.normal_y, Interval { start: 0, end: -UNIT });
        },
        None => {},
    }

    if left.is_none() && right.is_none() {
        r.warning = Some("No hand in view".to_owned());
        proof {
            reveal_strlit("No hand in view");
        }
    }
    r
}

} // verus!
