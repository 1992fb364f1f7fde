//! The control snapshot: every instrument parameter at one instant, plus
//! advisory messages, and the fixed update schema handed to the audio
//! parameter sink.

use vstd::prelude::*;

verus! {

use crate::music::{
    lemma_quantize_in_window, lemma_scale_seq_characterization, quantize_spec, win_find,
};
use crate::range::{convert_range, convert_range_spec, Interval, COORD_LIMIT, UNIT};
use crate::settings::Settings;
use vstd::arithmetic::div_mod::{lemma_div_by_multiple, lemma_div_is_ordered, lemma_div_pos_is_pos};

/// Highest pitch the instrument can hold, in fixed point.
pub const PITCH_LIMIT: i64 = 127_000_000;

/// One update for the audio parameter sink: the control's path in the
/// synthesis engine and its fixed-point value.
pub struct ParamUpdate {
    pub path: String,
    pub value: i64,
}

/// A continuous control; its value always lies inside its valid range.
pub struct Control {
    pub value: i64,
    pub range: Interval,
    pub path: String,
}

impl Control {
    pub open spec fn wf(self) -> bool {
        &&& self.range.proper()
        &&& self.range.bounded()
        &&& self.range.start <= self.value <= self.range.end
    }

    /// Rescales a raw measurement from `value_range` into this control's
    /// valid range and stores it; the stored value never leaves the range.
    pub fn set_scaled(&mut self, value: i64, value_range: Interval)
        requires
            old(self).wf(),
            value_range.bounded(),
            -COORD_LIMIT <= value <= COORD_LIMIT,
        ensures
            final(self).wf(),
            final(self).value == convert_range_spec(value as int, value_range, old(self).range),
            final(self).range == old(self).range,
            final(self).path == old(self).path,
    {
        self.value = convert_range(value, value_range, self.range);
    }

    /// An exact copy, for handing across a thread boundary.
    pub fn duplicate(&self) -> (r: Control)
        ensures
            r == *self,
    {
        Control { value: self.value, range: self.range, path: self.path.clone() }
    }
}

/// An on-off control.
pub struct BoolControl {
    pub value: bool,
    pub path: String,
}

impl BoolControl {
    /// An exact copy, for handing across a thread boundary.
    pub fn duplicate(&self) -> (r: BoolControl)
        ensures
            r == *self,
    {
        BoolControl { value: self.value, path: self.path.clone() }
    }
}

/// The pitch control: carries the raw (pre-quantization) pitch and the
/// quantization strength beside the quantized value, for diagnostics and
/// display.
pub struct NoteControl {
    pub value: i64,
    pub path: String,
    pub raw_value: i64,
    pub autotune: usize,
}

/// The domain a quantization strength is rescaled into: 0 through 5.
pub open spec fn strength_range() -> Interval {
    Interval { start: 0, end: (5 * UNIT) as i64 }
}

impl NoteControl {
    pub open spec fn wf(self) -> bool {
        &&& 0 <= self.value <= PITCH_LIMIT
        &&& 0 <= self.raw_value <= PITCH_LIMIT
        &&& self.autotune <= 5
    }

    /// Rescales a raw measurement into the configured note range, derives
    /// the quantization strength from a second measurement, and stores the
    /// quantized pitch: the raw pitch pulled toward its scale window
    /// boundary `autotune` times.
    pub fn set_scaled(
        &mut self,
        value: i64,
        value_range: Interval,
        autotune_value: i64,
        autotune_range: Interval,
        settings: &Settings,
    )
        requires
            old(self).wf(),
            settings.wf(),
            value_range.bounded(),
            autotune_range.bounded(),
            -COORD_LIMIT <= value <= COORD_LIMIT,
            -COORD_LIMIT <= autotune_value <= COORD_LIMIT,
        ensures
            final(self).wf(),
            final(self).path == old(self).path,
            final(self).raw_value == convert_range_spec(
                value as int,
                value_range,
                Interval {
                    start: (settings.note_range_lo * (UNIT as int)) as i64,
                    end: (settings.note_range_hi * (UNIT as int)) as i64,
                },
            ),
            final(self).autotune == convert_range_spec(
                autotune_value as int,
                autotune_range,
                strength_range(),
            ) / (UNIT as int),
            final(self).value == quantize_spec(
                final(self).raw_value as int,
                settings.restricted_scale_spec(),
                final(self).autotune as nat,
            ),
    {
        let range = settings.note_range();
        self.raw_value = convert_range(value, value_range, range);
        let amt: i64 = convert_range(
            autotune_value,
            autotune_range,
            Interval { start: 0, end: 5 * UNIT },
        );
        proof {
            lemma_div_pos_is_pos(amt as int, UNIT as int);
            lemma_div_is_ordered(amt as int, 5 * UNIT as int, UNIT as int);
            lemma_div_by_multiple(5, UNIT as int);
        }
        self.autotune = (amt as u64 / (UNIT as u64)) as usize;
        let scale = settings.scale_notes();
        proof {
            lemma_scale_seq_characterization(
                settings.root_pitch as int,
                settings.scale@,
                settings.note_range_lo as int,
                settings.note_range_hi as int,
            );
        }
        self.value = crate::music::smoothstairs(self.raw_value, self.autotune, &scale);
        proof {
            let ghost s = settings.restricted_scale_spec();
            let ghost w = win_find(s, self.raw_value as int);
            match w {
                Some(i) => {
                    lemma_quantize_in_window(
                        self.raw_value as int,
                        s,
                        self.autotune as nat,
                        i,
                    );
                },
                None => {},
            }
        }
    }

    /// An exact copy, for handing across a thread boundary.
    pub fn duplicate(&self) -> (r: NoteControl)
        ensures
            r == *self,
    {
        NoteControl {
            value: self.value,
            path: self.path.clone(),
            raw_value: self.raw_value,
            autotune: self.autotune,
        }
    }
}

/// A harmonized voice: a pitch control and its own volume control.
pub struct NoteControl2 {
    pub note: Control,
    pub volume: Control,
}

impl NoteControl2 {
    pub open spec fn wf(self) -> bool {
        self.note.wf() && self.volume.wf()
    }

    /// An exact copy, for handing across a thread boundary.
    pub fn duplicate(&self) -> (r: NoteControl2)
        ensures
            r == *self,
    {
        NoteControl2 { note: self.note.duplicate(), volume: self.volume.duplicate() }
    }
}

/// The complete instrument state at one instant: every control plus the
/// advisory `warning` and `error` messages. Immutable once built; cloned
/// whole when crossing a thread boundary, so a consumer never observes a
/// mix of fields computed from two different hand samples.
pub struct Controls {
    /// Pitch of the main voice.
    pub note1: NoteControl,
    /// Volume of the main voice.
    pub vol1: Control,
    /// First chord voice (two scale degrees up).
    pub lead2: NoteControl2,
    /// Second chord voice (four scale degrees up).
    pub lead3: NoteControl2,
    /// Third chord voice (six scale degrees up).
    pub lead4: NoteControl2,
    /// Filter cutoff.
    pub cutoff_note: Control,
    /// Filter resonance.
    pub resonance: Control,
    /// Secondary oscillator blend volume.
    pub supersaw: Control,
    /// Secondary oscillator detune.
    pub detune: Control,
    /// Pluck gate.
    pub pluck: BoolControl,
    /// Pluck pitch.
    pub pluck_note: Control,
    /// Pluck gain.
    pub pluck_gain: Control,
    /// Pluck damping.
    pub pluck_damping: Control,
    /// Drone volume.
    pub drone_volume: Control,
    /// Drone pitch.
    pub drone_note: Control,
    /// Advisory message (for instance: no hand in view).
    pub warning: Option<String>,
    /// Failure description of the last poll cycle, if it failed.
    pub error: Option<String>,
}

/// A normalized range: zero through one unit.
pub open spec fn unit_range() -> Interval {
    Interval { start: 0, end: UNIT }
}

/// The full pitch axis as a range.
pub open spec fn pitch_range() -> Interval {
    Interval { start: 0, end: PITCH_LIMIT }
}

impl Controls {
    /// Every control is valid and every pitch control spans the pitch
    /// axis, so that any note of any scale can be written to it directly.
    pub open spec fn wf(self) -> bool {
        &&& self.note1.wf()
        &&& self.vol1.wf()
        &&& self.lead2.wf()
        &&& self.lead3.wf()
        &&& self.lead4.wf()
        &&& self.cutoff_note.wf()
        &&& self.resonance.wf()
        &&& self.supersaw.wf()
        &&& self.detune.wf()
        &&& self.pluck_note.wf()
        &&& self.pluck_gain.wf()
        &&& self.pluck_damping.wf()
        &&& self.drone_volume.wf()
        &&& self.drone_note.wf()
        &&& self.lead2.note.range == pitch_range()
        &&& self.lead3.note.range == pitch_range()
        &&& self.lead4.note.range == pitch_range()
        &&& self.pluck_note.range == pitch_range()
        &&& self.drone_note.range == pitch_range()
        &&& self.drone_volume.range == unit_range()
    }

    /// The static configuration table: every control with its path in the
    /// synthesis engine, its valid range and its initial value, resolved
    /// once at startup and never looked up again on the per-cycle path.
    pub fn new() -> (r: Controls)
        ensures
            r.wf(),
            r.warning is None,
            r.error is None,
            r.pluck.value == false,
            r.note1.path@ == "lead/note1"@,
            r.vol1.path@ == "lead/vol1"@,
            r.lead2.note.path@ == "lead/note2"@,
            r.lead2.volume.path@ == "lead/vol2"@,
            r.lead3.note.path@ == "lead/note3"@,
            r.lead3.volume.path@ == "lead/vol3"@,
            r.lead4.note.path@ == "lead/note4"@,
            r.lead4.volume.path@ == "lead/vol4"@,
            r.cutoff_note.path@ == "lead/filter/cutoff_note"@,
            r.resonance.path@ == "lead/filter/res"@,
            r.supersaw.path@ == "lead/supersaw/volume"@,
            r.detune.path@ == "lead/supersaw/detune"@,
            r.pluck.path@ == "pluck/gate"@,
            r.pluck_note.path@ == "pluck/note"@,
            r.pluck_gain.path@ == "pluck/gain"@,
            r.pluck_damping.path@ == "pluck/damping"@,
            r.drone_volume.path@ == "drone/volume"@,
            r.drone_note.path@ == "drone/note"@,
            r.vol1.range == unit_range(),
            r.lead2.volume.range == unit_range(),
            r.lead3.volume.range == unit_range(),
            r.lead4.volume.range == unit_range(),
            r.cutoff_note.range == pitch_range(),
            r.resonance.range == unit_range(),
            r.supersaw.range == unit_range(),
            r.detune.range == unit_range(),
            r.pluck_gain.range == unit_range(),
            r.pluck_damping.range == unit_range(),
            r.drone_volume.value == 0,
    {
        let middle: i64 = 60 * UNIT;
        Controls {
            note1: NoteControl {
                value: middle,
                path: "lead/note1".to_owned(),
                raw_value: middle,
                autotune: 0,
            },
            vol1: Control {
                value: 0,
                range: Interval { start: 0, end: UNIT },
                path: "lead/vol1".to_owned(),
            },
            lead2: NoteControl2 {
                note: Control {
                    value: middle,
                    range: Interval { start: 0, end: PITCH_LIMIT },
                    path: "lead/note2".to_owned(),
                },
                volume: Control {
                    value: 0,
                    range: Interval { start: 0, end: UNIT },
                    path: "lead/vol2".to_owned(),
                },
            },
            lead3: NoteControl2 {
                note: Control {
                    value: middle,
                    range: Interval { start: 0, end: PITCH_LIMIT },
                    path: "lead/note3".to_owned(),
                },
                volume: Control {
                    value: 0,
                    range: Interval { start: 0, end: UNIT },
                    path: "lead/vol3".to_owned(),
                },
            },
            lead4: NoteControl2 {
                note: Control {
                    value: middle,
                    range: Interval { start: 0, end: PITCH_LIMIT },
                    path: "lead/note4".to_owned(),
                },
                volume: Control {
                    value: 0,
                    range: Interval { start: 0, end: UNIT },
                    path: "lead/vol4".to_owned(),
                },
            },
            cutoff_note: Control {
                value: middle,
                range: Interval { start: 0, end: PITCH_LIMIT },
                path: "lead/filter/cutoff_note".to_owned(),
            },
            resonance: Control {
                value: 0,
                range: Interval { start: 0, end: UNIT },
                path: "lead/filter/res".to_owned(),
            },
            supersaw: Control {
                value: 0,
                range: Interval { start: 0, end: UNIT },
                path: "lead/supersaw/volume".to_owned(),
            },
            detune: Control {
                value: 0,
                range: Interval { start: 0, end: UNIT },
                path: "lead/supersaw/detune".to_owned(),
            },
            pluck: BoolControl { value: false, path: "pluck/gate".to_owned() },
            pluck_note: Control {
                value: middle,
                range: Interval { start: 0, end: PITCH_LIMIT },
                path: "pluck/note".to_owned(),
            },
            pluck_gain: Control {
                value: 0,
                range: Interval { start: 0, end: UNIT },
                path: "pluck/gain".to_owned(),
            },
            pluck_damping: Control {
                value: 0,
                range: Interval { start: 0, end: UNIT },
                path: "pluck/damping".to_owned(),
            },
            drone_volume: Control {
                value: 0,
                range: Interval { start: 0, end: UNIT },
                path: "drone/volume".to_owned(),
            },
            drone_note: Control {
                value: middle,
                range: Interval { start: 0, end: PITCH_LIMIT },
                path: "drone/note".to_owned(),
            },
            warning: None,
            error: None,
        }
    }

    /// An exact copy, for handing across a thread boundary.
    pub fn duplicate(&self) -> (r: Controls)
        ensures
            r == *self,
    {
        Controls {
            note1: self.note1.duplicate(),
            vol1: self.vol1.duplicate(),
            lead2: self.lead2.duplicate(),
            lead3: self.lead3.duplicate(),
            lead4: self.lead4.duplicate(),
            cutoff_note: self.cutoff_note.duplicate(),
            resonance: self.resonance.duplicate(),
            supersaw: self.supersaw.duplicate(),
            detune: self.detune.duplicate(),
            pluck: self.pluck.duplicate(),
            pluck_note: self.pluck_note.duplicate(),
            pluck_gain: self.pluck_gain.duplicate(),
            pluck_damping: self.pluck_damping.duplicate(),
            drone_volume: self.drone_volume.duplicate(),
            drone_note: self.drone_note.duplicate(),
            warning: match &self.warning {
                Some(w) => Some(w.clone()),
                None => None,
            },
            error: match &self.error {
                Some(e) => Some(e.clone()),
                None => None,
            },
        }
    }

    /// The fixed update schema, in the order the synthesis engine is fed:
    /// each control's path paired with its fixed-point value, the pluck
    /// gate encoded as zero or one unit.
    pub open spec fn schema_spec(self) -> Seq<ParamUpdate> {
        seq![
            ParamUpdate { path: self.note1.path, value: self.note1.value },
            ParamUpdate { path: self.vol1.path, value: self.vol1.value },
            ParamUpdate { path: self.lead2.note.path, value: self.lead2.note.value },
            ParamUpdate { path: self.lead2.volume.path, value: self.lead2.volume.value },
            ParamUpdate { path: self.lead3.note.path, value: self.lead3.note.value },
            ParamUpdate { path: self.lead3.volume.path, value: self.lead3.volume.value },
            ParamUpdate { path: self.lead4.note.path, value: self.lead4.note.value },
            ParamUpdate { path: self.lead4.volume.path, value: self.lead4.volume.value },
            ParamUpdate { path: self.cutoff_note.path, value: self.cutoff_note.value },
            ParamUpdate { path: self.resonance.path, value: self.resonance.value },
            ParamUpdate { path: self.supersaw.path, value: self.supersaw.value },
            ParamUpdate { path: self.detune.path, value: self.detune.value },
            ParamUpdate {
                path: self.pluck.path,
                value: if self.pluck.value {
                    UNIT
                } else {
                    0
                },
            },
            ParamUpdate { path: self.pluck_note.path, value: self.pluck_note.value },
            ParamUpdate { path: self.pluck_gain.path, value: self.pluck_gain.value },
            ParamUpdate { path: self.pluck_damping.path, value: self.pluck_damping.value },
            ParamUpdate { path: self.drone_volume.path, value: self.drone_volume.value },
            ParamUpdate { path: self.drone_note.path, value: self.drone_note.value },
        ]
    }

    /// Serializes the snapshot into the fixed update schema for the audio
    /// parameter sink.
    pub fn updates(&self) -> (r: Vec<ParamUpdate>)
        ensures
            r@ == self.schema_spec(),
    {
        let mut out: Vec<ParamUpdate> = Vec::new();
        out.push(ParamUpdate { path: self.note1.path.clone(), value: self.note1.value });
        out.push(ParamUpdate { path: self.vol1.path.clone(), value: self.vol1.value });
        out.push(ParamUpdate { path: self.lead2.note.path.clone(), value: self.lead2.note.value });
        out.push(
            ParamUpdate { path: self.lead2.volume.path.clone(), value: self.lead2.volume.value },
        );
        out.push(ParamUpdate { path: self.lead3.note.path.clone(), value: self.lead3.note.value });
        out.push(
            ParamUpdate { path: self.lead3.volume.path.clone(), value: self.lead3.volume.value },
        );
        out.push(ParamUpdate { path: self.lead4.note.path.clone(), value: self.lead4.note.value });
        out.push(
            ParamUpdate { path: self.lead4.volume.path.clone(), value: self.lead4.volume.value },
        );
        out.push(
            ParamUpdate { path: self.cutoff_note.path.clone(), value: self.cutoff_note.value },
        );
        out.push(ParamUpdate { path: self.resonance.path.clone(), value: self.resonance.value });
        out.push(ParamUpdate { path: self.supersaw.path.clone(), value: self.supersaw.value });
        out.push(ParamUpdate { path: self.detune.path.clone(), value: self.detune.value });
        out.push(
            ParamUpdate {
                path: self.pluck.path.clone(),
                value: if self.pluck.value {
                    UNIT
                } else {
                    0
                },
            },
        );
        out.push(ParamUpdate { path: self.pluck_note.path.clone(), value: self.pluck_note.value });
        out.push(ParamUpdate { path: self.pluck_gain.path.clone(), value: self.pluck_gain.value });
        out.push(
            ParamUpdate {
                path: self.pluck_damping.path.clone(),
                value: self.pluck_damping.value,
            },
        );
        out.push(
            ParamUpdate { path: self.drone_volume.path.clone(), value: self.drone_volume.value },
        );
        out.push(ParamUpdate { path: self.drone_note.path.clone(), value: self.drone_note.value });
        proof {
            assert(out@ =~= self.schema_spec());
        }
        out
    }
}

} // verus!
