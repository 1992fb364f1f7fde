//! Musical configuration: root note, scale pattern, drone and note range.
//! Mutated only by the interactive surface; the sensor worker holds a
//! read-only copy refreshed between poll cycles.

use vstd::prelude::*;

verus! {

use crate::music::{ascending, build_scale, scale_seq};
use crate::range::{Interval, UNIT};
use vstd::arithmetic::div_mod::{lemma_mod_multiples_vanish, lemma_small_mod};

/// Musical configuration record.
#[derive(Clone, Debug, PartialEq, Eq)]
pub struct Settings {
    /// Pitch class of the root note: 0 (C) up to 11 (B).
    pub root_pitch: u8,
    /// Octave of the root note, -1 through 6.
    pub root_octave: i8,
    /// Ascending semitone offsets from the root, each inside one octave.
    pub scale: Vec<u8>,
    /// Optional drone note, as an absolute MIDI semitone.
    pub drone: Option<u8>,
    /// Lower bound of the playable note range (MIDI semitone).
    pub note_range_lo: u8,
    /// Upper bound of the playable note range (MIDI semitone).
    pub note_range_hi: u8,
}

impl Settings {
    /// Configuration validity: pitch class and offsets inside one octave,
    /// octave on the keyboard, ascending pattern, a proper note range on
    /// the MIDI axis.
    pub open spec fn wf(self) -> bool {
        &&& self.root_pitch < 12
        &&& -1 <= self.root_octave <= 6
        &&& ascending(self.scale@)
        &&& forall|k: int| 0 <= k < self.scale@.len() ==> self.scale@[k] < 12
        &&& self.note_range_lo <= self.note_range_hi
        &&& self.note_range_hi <= 127
        &&& match self.drone {
            Some(d) => d <= 127,
            None => true,
        }
    }

    /// Absolute MIDI semitone of the root note.
    pub open spec fn root_semitone_spec(self) -> int {
        (self.root_octave + 1) * 12 + self.root_pitch
    }

    /// The scale restricted to the playable range: the quantizer's windows.
    pub open spec fn restricted_scale_spec(self) -> Seq<u8> {
        scale_seq(
            self.root_pitch as int,
            self.scale@,
            self.note_range_lo as int,
            self.note_range_hi as int,
        )
    }

    /// The candidate scale across the whole instrument range, for chords.
    pub open spec fn full_scale_spec(self) -> Seq<u8> {
        scale_seq(self.root_pitch as int, self.scale@, 0, 127)
    }

    pub fn root_semitone(&self) -> (r: u8)
        requires
            self.wf(),
        ensures
            r == self.root_semitone_spec(),
            r <= 95,
    {
        ((self.root_octave + 1) as u8) * 12 + self.root_pitch
    }

    /// The playable pitch window in fixed point.
    pub fn note_range(&self) -> (r: Interval)
        requires
            self.wf(),
        ensures
            r.start == self.note_range_lo * (UNIT as int),
            r.end == self.note_range_hi * (UNIT as int),
            r.proper(),
            r.bounded(),
            0 <= r.start,
    {
        Interval {
            start: self.note_range_lo as i64 * UNIT,
            end: self.note_range_hi as i64 * UNIT,
        }
    }

    /// Derives the quantizer's note set from the configuration.
    pub fn scale_notes(&self) -> (r: Vec<u8>)
        requires
            self.wf(),
        ensures
            r@ == self.restricted_scale_spec(),
    {
        let root = self.root_semitone();
        proof {
            lemma_mod_multiples_vanish(
                self.root_octave as int + 1,
                self.root_pitch as int,
                12,
            );
            lemma_small_mod(self.root_pitch as nat, 12);
        }
        build_scale(root, &self.scale, self.note_range_lo, self.note_range_hi)
    }

    /// Derives the full candidate scale for chord voices.
    pub fn full_scale(&self) -> (r: Vec<u8>)
        requires
            self.wf(),
        ensures
            r@ == self.full_scale_spec(),
    {
        let root = self.root_semitone();
        proof {
            lemma_mod_multiples_vanish(
                self.root_octave as int + 1,
                self.root_pitch as int,
                12,
            );
            lemma_small_mod(self.root_pitch as nat, 12);
        }
        build_scale(root, &self.scale, 0, 127)
    }
}

impl Default for Settings {
    /// Startup configuration: C major rooted at C3, no drone, a playable
    /// window of four octaves around the middle of the keyboard.
    fn default() -> (r: Settings)
        ensures
            r.wf(),
            r.root_pitch == 0,
            r.root_octave == 3,
            r.scale@ == major_intervals_spec(),
            r.drone is None,
            r.note_range_lo == 36,
            r.note_range_hi == 84,
    {
        Settings {
            root_pitch: 0,
            root_octave: 3,
            scale: major_intervals(),
            drone: None,
            note_range_lo: 36,
            note_range_hi: 84,
        }
    }
}

/// The major scale pattern.
pub open spec fn major_intervals_spec() -> Seq<u8> {
    seq![0u8, 2u8, 4u8, 5u8, 7u8, 9u8, 11u8]
}

/// Chromatic scale: every semitone.
pub fn chromatic_intervals() -> (r: Vec<u8>)
    ensures
        r@ == seq![0u8, 1u8, 2u8, 3u8, 4u8, 5u8, 6u8, 7u8, 8u8, 9u8, 10u8, 11u8],
{
    let mut v: Vec<u8> = Vec::new();
    let mut k: u8 = 0;
    while k < 12
        invariant
            k <= 12,
            v@.len() == k,
            forall|j: int| 0 <= j < k ==> v@[j] == j,
        decreases 12 - k,
    {
        v.push(k);
        k = k + 1;
    }
    proof {
        assert(v@ =~= seq![0u8, 1u8, 2u8, 3u8, 4u8, 5u8, 6u8, 7u8, 8u8, 9u8, 10u8, 11u8]);
    }
    v
}

/// Major scale.
pub fn major_intervals() -> (r: Vec<u8>)
    ensures
        r@ == major_intervals_spec(),
{
    let mut v: Vec<u8> = Vec::new();
    v.push(0);
    v.push(2);
    v.push(4);
    v.push(5);
    v.push(7);
    v.push(9);
    v.push(11);
    proof {
        assert(v@ =~= major_intervals_spec());
    }
    v
}

/// Natural minor scale.
pub fn natural_minor_intervals() -> (r: Vec<u8>)
    ensures
        r@ == seq![0u8, 2u8, 3u8, 5u8, 7u8, 8u8, 10u8],
{
    let mut v: Vec<u8> = Vec::new();
    v.push(0);
    v.push(2);
    v.push(3);
    v.push(5);
    v.push(7);
    v.push(8);
    v.push(10);
    proof {
        assert(v@ =~= seq![0u8, 2u8, 3u8, 5u8, 7u8, 8u8, 10u8]);
    }
    v
}

/// Harmonic minor scale.
pub fn harmonic_minor_intervals() -> (r: Vec<u8>)
    ensures
        r@ == seq![0u8, 2u8, 3u8, 5u8, 7u8, 8u8, 11u8],
{
    let mut v: Vec<u8> = Vec::new();
    v.push(0);
    v.push(2);
    v.push(3);
    v.push(5);
    v.push(7);
    v.push(8);
    v.push(11);
    proof {
        assert(v@ =~= seq![0u8, 2u8, 3u8, 5u8, 7u8, 8u8, 11u8]);
    }
    v
}

/// Melodic minor scale (ascending form).
pub fn melodic_minor_intervals() -> (r: Vec<u8>)
    ensures
        r@ == seq![0u8, 2u8, 3u8, 5u8, 7u8, 9u8, 11u8],
{
    let mut v: Vec<u8> = Vec::new();
    v.push(0);
    v.push(2);
    v.push(3);
    v.push(5);
    v.push(7);
    v.push(9);
    v.push(11);
    proof {
        assert(v@ =~= seq![0u8, 2u8, 3u8, 5u8, 7u8, 9u8, 11u8]);
    }
    v
}

/// Dorian mode.
pub fn dorian_intervals() -> (r: Vec<u8>)
    ensures
        r@ == seq![0u8, 2u8, 3u8, 5u8, 7u8, 9u8, 10u8],
{
    let mut v: Vec<u8> = Vec::new();
    v.push(0);
    v.push(2);
    v.push(3);
    v.push(5);
    v.push(7);
    v.push(9);
    v.push(10);
    proof {
        assert(v@ =~= seq![0u8, 2u8, 3u8, 5u8, 7u8, 9u8, 10u8]);
    }
    v
}

/// Blues scale.
pub fn blues_intervals() -> (r: Vec<u8>)
    ensures
        r@ == seq![0u8, 3u8, 5u8, 6u8, 7u8, 10u8],
{
    let mut v: Vec<u8> = Vec::new();
    v.push(0);
    v.push(3);
    v.push(5);
    v.push(6);
    v.push(7);
    v.push(10);
    proof {
        assert(v@ =~= seq![0u8, 3u8, 5u8, 6u8, 7u8, 10u8]);
    }
    v
}

/// Freygish (Phrygian dominant) scale.
pub fn freygish_intervals() -> (r: Vec<u8>)
    ensures
        r@ == seq![0u8, 1u8, 4u8, 5u8, 7u8, 8u8, 10u8],
{
    let mut v: Vec<u8> = Vec::new();
    v.push(0);
    v.push(1);
    v.push(4);
    v.push(5);
    v.push(7);
    v.push(8);
    v.push(10);
    proof {
        assert(v@ =~= seq![0u8, 1u8, 4u8, 5u8, 7u8, 8u8, 10u8]);
    }
    v
}

/// Altered Dorian (Ukrainian Dorian) scale.
pub fn altered_dorian_intervals() -> (r: Vec<u8>)
    ensures
        r@ == seq![0u8, 2u8, 3u8, 6u8, 7u8, 9u8, 10u8],
{
    let mut v: Vec<u8> = Vec::new();
    v.push(0);
    v.push(2);
    v.push(3);
    v.push(6);
    v.push(7);
    v.push(9);
    v.push(10);
    proof {
        assert(v@ =~= seq![0u8, 2u8, 3u8, 6u8, 7u8, 9u8, 10u8]);
    }
    v
}

} // verus!
