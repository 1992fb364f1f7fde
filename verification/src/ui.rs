//! View models for the interactive surface: what each tab shows, computed
//! from the latest snapshot and the settings. The drawing itself happens
//! outside the library; everything a tab displays is derived here, with
//! its contract.

use vstd::prelude::*;

verus! {

use crate::controls::Controls;
use crate::music::{
    closest_idx, closest_in_scale, contains_note, lemma_scale_seq_characterization, quantize_spec,
    smoothstairs,
};
use crate::range::COORD_LIMIT;
use crate::settings::Settings;

/// The tabs of the interactive surface.
#[derive(Clone, Copy, Debug, PartialEq, Eq, Structural)]
pub enum MainTab {
    Play,
    RootEdit,
    ScaleEdit,
    Instructions,
}

/// Sampling step of the quantizer curve display: a tenth of a semitone.
pub const PLOT_STEP: i64 = 100_000;

/// One point of the quantizer curve: a raw pitch and its quantized image.
#[derive(Clone, Copy, Debug, PartialEq, Eq, Structural)]
pub struct PlotPoint {
    pub raw: i64,
    pub quantized: i64,
}

/// One mark on the tuner's note axis: a note and whether the active scale
/// holds it (marked notes get the heavier grid line).
#[derive(Clone, Copy, Debug, PartialEq, Eq, Structural)]
pub struct NoteMark {
    pub note: u8,
    pub in_scale: bool,
}

/// View model of the play tab: the quantizer curve around the playable
/// range, the tuner, and the continuous control values on display.
pub struct TabPlay {
    /// The quantizer curve at the current strength, sampled every tenth
    /// of a semitone across the playable range.
    pub autotune_curve: Vec<PlotPoint>,
    /// The scale note nearest to the raw pitch, anchoring the tuner.
    pub tuner_note: Option<u8>,
    /// The notes around the tuner anchor, marked when the scale holds them.
    pub tuner_marks: Vec<NoteMark>,
    /// Raw (pre-quantization) pitch.
    pub raw_note: i64,
    /// Quantized pitch.
    pub note: i64,
    /// Main voice volume.
    pub volume: i64,
    /// Filter cutoff.
    pub cutoff: i64,
    /// Filter resonance.
    pub resonance: i64,
}

impl TabPlay {
    /// Derives the play tab's display data from the latest snapshot and
    /// the settings.
    pub fn new(controls: &Controls, settings: &Settings) -> (r: TabPlay)
        requires
            controls.wf(),
            settings.wf(),
        ensures
            r.raw_note == controls.note1.raw_value,
            r.note == controls.note1.value,
            r.volume == controls.vol1.value,
            r.cutoff == controls.cutoff_note.value,
            r.resonance == controls.resonance.value,
            r.autotune_curve@.len() == (settings.note_range_hi - settings.note_range_lo) * 10,
            forall|k: int|
                0 <= k < r.autotune_curve@.len() ==> (#[trigger] r.autotune_curve@[k]).raw == (
                settings.note_range_lo * 10 + k) * (PLOT_STEP as int)
                    && r.autotune_curve@[k].quantized == quantize_spec(
                    r.autotune_curve@[k].raw as int,
                    settings.restricted_scale_spec(),
                    controls.note1.autotune as nat,
                ),
            r.tuner_note is None <==> settings.restricted_scale_spec().len() == 0,
            r.tuner_note matches Some(x) ==> x == settings.restricted_scale_spec()[closest_idx(
                settings.restricted_scale_spec(),
                controls.note1.raw_value as int,
            )],
            forall|j: int|
                0 <= j < r.tuner_marks@.len() ==> (#[trigger] r.tuner_marks@[j]).in_scale
                    == settings.restricted_scale_spec().contains(r.tuner_marks@[j].note),
    {
        let scale = settings.scale_notes();
        proof {
            lemma_scale_seq_characterization(
                settings.root_pitch as int,
                settings.scale@,
                settings.note_range_lo as int,
                settings.note_range_hi as int,
            );
        }
        let lo: i64 = settings.note_range_lo as i64 * 10;
        let hi: i64 = settings.note_range_hi as i64 * 10;
        let mut curve: Vec<PlotPoint> = Vec::new();
        let mut k: i64 = lo;
        while k < hi
            invariant
                lo <= k,
                k == lo || k <= hi,
                lo == settings.note_range_lo * 10,
                hi == settings.note_range_hi * 10,
                hi <= 1270,
                curve@.len() == k - lo,
                scale@ == settings.restricted_scale_spec(),
                crate::music::ascending(scale@),
                controls.note1.autotune <= 5,
                forall|j: int|
                    0 <= j < curve@.len() ==> (#[trigger] curve@[j]).raw == (lo + j) * (
                    PLOT_STEP as int) && curve@[j].quantized == quantize_spec(
                        curve@[j].raw as int,
                        scale@,
                        controls.note1.autotune as nat,
                    ),
            decreases hi - k,
        {
            let raw: i64 = k * PLOT_STEP;
            let quantized = smoothstairs(raw, controls.note1.autotune, &scale);
            curve.push(PlotPoint { raw, quantized });
            k = k + 1;
        }
        let tuner_note = closest_in_scale(controls.note1.raw_value, &scale);
        let mut marks: Vec<NoteMark> = Vec::new();
        match tuner_note {
            Some(center) => {
                let from: u8 = if center >= 2 {
                    center - 2
                } else {
                    0
                };
                let to: u8 = if center <= 125 {
                    center + 2
                } else {
                    127
                };
                let mut n: u8 = from;
                while n <= to
                    invariant
                        from <= n,
                        n == from || n <= to + 1,
                        to <= 127,
                        scale@ == settings.restricted_scale_spec(),
                        forall|j: int|
                            0 <= j < marks@.len() ==> (#[trigger] marks@[j]).in_scale == scale@
                                .contains(marks@[j].note),
                    decreases 127 - n,
                {
                    let in_scale = contains_note(&scale, n);
                    marks.push(NoteMark { note: n, in_scale });
                    if n == 127 {
                        break ;
                    }
                    n = n + 1;
                }
            },
            None => {},
        }
        TabPlay {
            autotune_curve: curve,
            tuner_note,
            tuner_marks: marks,
            raw_note: controls.note1.raw_value,
            note: controls.note1.value,
            volume: controls.vol1.value,
            cutoff: controls.cutoff_note.value,
            resonance: controls.resonance.value,
        }
    }
}

/// View model of the instructions tab: the keyboard it draws — the active
/// voice pitches over the notes of the current scale.
pub struct TabInstructions {
    /// Pitches of the main voice and the three chord voices.
    pub voice_notes: Vec<i64>,
    /// The notes of the scale restricted to the playable range.
    pub scale: Vec<u8>,
}

impl TabInstructions {
    /// Derives the instructions tab's display data.
    pub fn new(controls: &Controls, settings: &Settings) -> (r: TabInstructions)
        requires
            controls.wf(),
            settings.wf(),
        ensures
            r.voice_notes@ == seq![
                controls.note1.value,
                controls.lead2.note.value,
                controls.lead3.note.value,
                controls.lead4.note.value,
            ],
            r.scale@ == settings.restricted_scale_spec(),
    {
        let mut voice_notes: Vec<i64> = Vec::new();
        voice_notes.push(controls.note1.value);
        voice_notes.push(controls.lead2.note.value);
        voice_notes.push(controls.lead3.note.value);
        voice_notes.push(controls.lead4.note.value);
        proof {
            assert(voice_notes@ =~= seq![
                controls.note1.value,
                controls.lead2.note.value,
                controls.lead3.note.value,
                controls.lead4.note.value,
            ]);
        }
        TabInstructions { voice_notes, scale: settings.scale_notes() }
    }
}

} // verus!
