//! Snapshot model, hand-to-control mapping, worker cycles and the
//! coalescing channels, exercised end to end with the real channel crate.

use theremotion::channel::{
    coalesce, latest_settings, latest_snapshot, publish_snapshot, send_settings,
    settings_channel, snapshot_channel,
};
use theremotion::controls::Controls;
use theremotion::mapper::{map_hands, HandSample};
use theremotion::range::UNIT;
use theremotion::settings::{chromatic_intervals, Settings};
use theremotion::ui::{MainTab, TabInstructions, TabPlay};
use theremotion::worker::{PollEvent, SensorWorker, WorkerPhase};

fn still_hand() -> HandSample {
    HandSample {
        palm_x: 0,
        palm_y: 0,
        palm_z: 0,
        normal_x: 0,
        normal_y: 0,
        normal_z: -UNIT,
        velocity_x: 0,
        velocity_y: 0,
        velocity_z: 0,
        pinch: 0,
        index_tip_y: 350 * UNIT,
    }
}

#[test]
fn configuration_table_schema() {
    let c = Controls::new();
    let updates = c.updates();
    assert_eq!(updates.len(), 18);
    assert_eq!(updates[0].path, "lead/note1");
    assert_eq!(updates[1].path, "lead/vol1");
    assert_eq!(updates[12].path, "pluck/gate");
    assert_eq!(updates[12].value, 0);
    assert_eq!(updates[17].path, "drone/note");
    let mut plucked = Controls::new();
    plucked.pluck.value = true;
    assert_eq!(plucked.updates()[12].value, UNIT);
}

#[test]
fn no_hands_holds_state_and_warns() {
    // A cycle with zero hand samples: non-empty warning, every parameter
    // carried over, the pluck gate forced false.
    let mut prev = Controls::new();
    prev.pluck.value = true;
    prev.vol1.value = 700_000;
    prev.detune.value = 300_000;
    let settings = Settings::default();
    let next = map_hands(&prev, None, None, &settings);
    let warning = next.warning.expect("a warning is owed with no hand in view");
    assert!(!warning.is_empty());
    assert!(!next.pluck.value);
    assert_eq!(next.vol1.value, prev.vol1.value);
    assert_eq!(next.detune.value, prev.detune.value);
    assert_eq!(next.note1.value, prev.note1.value);
    assert_eq!(next.note1.raw_value, prev.note1.raw_value);
    assert_eq!(next.cutoff_note.value, prev.cutoff_note.value);
    assert_eq!(next.resonance.value, prev.resonance.value);
    assert_eq!(next.supersaw.value, prev.supersaw.value);
    assert_eq!(next.pluck_gain.value, prev.pluck_gain.value);
    assert_eq!(next.error, None);
}

#[test]
fn left_hand_drives_pitch_and_chord() {
    // Fingertip at 350 mm maps onto the exact middle of the default note
    // range [36, 84]: semitone 60, which C major holds, so the quantized
    // pitch is 60 exactly and the chord voices sit 2, 4 and 6 scale
    // degrees up: E (64), G (67) and B (71).
    let prev = Controls::new();
    let settings = Settings::default();
    let next = map_hands(&prev, Some(still_hand()), None, &settings);
    assert_eq!(next.warning, None);
    assert_eq!(next.note1.raw_value, 60 * UNIT);
    assert_eq!(next.note1.autotune, 0);
    assert_eq!(next.note1.value, 60 * UNIT);
    assert_eq!(next.pluck_note.value, 60 * UNIT);
    assert_eq!(next.lead2.note.value, 64 * UNIT);
    assert_eq!(next.lead3.note.value, 67 * UNIT);
    assert_eq!(next.lead4.note.value, 71 * UNIT);
    // The right hand was absent: its controls held their state.
    assert_eq!(next.vol1.value, prev.vol1.value);
    assert_eq!(next.resonance.value, prev.resonance.value);
}

#[test]
fn left_pinch_raises_quantization_strength() {
    let prev = Controls::new();
    let settings = Settings::default();
    let mut hand = still_hand();
    hand.pinch = UNIT;
    let next = map_hands(&prev, Some(hand), None, &settings);
    assert_eq!(next.note1.autotune, 5);
}

#[test]
fn right_hand_drives_volume_filter_and_pluck() {
    let prev = Controls::new();
    let settings = Settings::default();
    let mut hand = still_hand();
    hand.palm_y = 350 * UNIT;
    hand.palm_x = 125 * UNIT;
    hand.palm_z = 0;
    hand.pinch = 950_000;
    hand.normal_y = 500_000;
    let next = map_hands(&prev, None, Some(hand), &settings);
    // Palm height in the middle of [300, 400] mm: volume 0.5 on every voice.
    assert_eq!(next.vol1.value, 500_000);
    assert_eq!(next.lead2.volume.value, 500_000);
    assert_eq!(next.lead3.volume.value, 500_000);
    assert_eq!(next.lead4.volume.value, 500_000);
    // Palm sideways in the middle of [50, 200] mm: cutoff mid-range.
    assert_eq!(next.cutoff_note.value, 127 * UNIT / 2);
    // Palm depth 0 in the inverted [100, -100] domain: resonance 0.5.
    assert_eq!(next.resonance.value, 500_000);
    // A deep pinch with the palm normal pointing up plucks.
    assert!(next.pluck.value);
    // Palm normal up (positive) leaves the inverted damping domain at its
    // start: damping 0.
    assert_eq!(next.pluck_damping.value, 0);
}

#[test]
fn pluck_needs_pinch_and_upward_normal() {
    let prev = Controls::new();
    let settings = Settings::default();
    let mut weak_pinch = still_hand();
    weak_pinch.pinch = 800_000;
    weak_pinch.normal_y = 500_000;
    assert!(!map_hands(&prev, None, Some(weak_pinch), &settings).pluck.value);
    let mut palm_down = still_hand();
    palm_down.pinch = 950_000;
    palm_down.normal_y = -500_000;
    assert!(!map_hands(&prev, None, Some(palm_down), &settings).pluck.value);
}

#[test]
fn drone_settings_drive_drone_controls() {
    let prev = Controls::new();
    let mut settings = Settings::default();
    settings.drone = Some(57);
    let next = map_hands(&prev, None, None, &settings);
    assert_eq!(next.drone_note.value, 57 * UNIT);
    assert_eq!(next.drone_volume.value, 200_000);
    settings.drone = None;
    let silent = map_hands(&next, None, None, &settings);
    assert_eq!(silent.drone_volume.value, 0);
    assert_eq!(silent.drone_note.value, next.drone_note.value);
}

#[test]
fn worker_tracking_cycle_publishes_mapped_snapshot() {
    let mut worker = SensorWorker::new(Settings::default());
    worker.connected();
    let event = PollEvent::Tracking { left: Some(still_hand()), right: None };
    let snapshot = worker.cycle(None, event);
    assert_eq!(snapshot.note1.value, 60 * UNIT);
    assert_eq!(snapshot.error, None);
    assert_eq!(snapshot.warning, None);
    assert_eq!(worker.controls.note1.value, 60 * UNIT);
}

#[test]
fn worker_timeout_freezes_parameters_and_reports() {
    let mut worker = SensorWorker::new(Settings::default());
    worker.connected();
    let before = worker.cycle(
        None,
        PollEvent::Tracking { left: Some(still_hand()), right: None },
    );
    let snapshot = worker.cycle(None, PollEvent::Timeout);
    let error = snapshot.error.clone().expect("a timeout is observable");
    assert!(!error.is_empty());
    assert_eq!(snapshot.warning, None);
    assert_eq!(snapshot.note1.value, before.note1.value);
    assert_eq!(snapshot.vol1.value, before.vol1.value);
}

#[test]
fn worker_fault_carries_its_description() {
    let mut worker = SensorWorker::new(Settings::default());
    worker.connected();
    let snapshot = worker.cycle(None, PollEvent::Fault("sensor unplugged".to_owned()));
    assert_eq!(snapshot.error.as_deref(), Some("sensor unplugged"));
}

#[test]
fn worker_absorbs_newest_settings() {
    let mut worker = SensorWorker::new(Settings::default());
    worker.connected();
    let mut updated = Settings::default();
    updated.root_octave = 4;
    updated.scale = chromatic_intervals();
    worker.cycle(Some(updated.clone()), PollEvent::Timeout);
    assert_eq!(worker.settings, updated);
}

#[test]
fn coalesce_keeps_only_the_newest() {
    assert_eq!(coalesce::<u8>(vec![]), None);
    assert_eq!(coalesce(vec![1, 2, 3, 4, 5]), Some(5));
}

#[test]
fn settings_channel_coalesces_to_the_last_sent() {
    // Five updates before one drain: exactly the last one is applied, not
    // an average and not a queue of five.
    let (tx, rx) = settings_channel();
    for octave in 0..5 {
        let mut s = Settings::default();
        s.root_octave = octave;
        assert!(send_settings(&tx, s));
    }
    let kept = latest_settings(&rx).expect("five updates were pending");
    assert_eq!(kept.root_octave, 4);
    // The older four were discarded, never queued.
    assert_eq!(latest_settings(&rx), None);
}

#[test]
fn snapshot_channel_skips_stale_snapshots() {
    let (tx, rx) = snapshot_channel();
    let mut c = Controls::new();
    c.vol1.value = 111_111;
    assert!(publish_snapshot(&tx, c.duplicate()));
    c.vol1.value = 222_222;
    assert!(publish_snapshot(&tx, c));
    let seen = latest_snapshot(&rx).expect("snapshots were pending");
    assert_eq!(seen.vol1.value, 222_222);
    assert!(latest_snapshot(&rx).is_none());
}

#[test]
fn play_tab_view_model() {
    let controls = Controls::new();
    let settings = Settings::default();
    let tab = TabPlay::new(&controls, &settings);
    assert_eq!(tab.autotune_curve.len(), (84 - 36) * 10);
    assert_eq!(tab.autotune_curve[0].raw, 36 * UNIT);
    // Strength 0: the curve is the identity.
    assert_eq!(tab.autotune_curve[0].quantized, 36 * UNIT);
    assert_eq!(tab.raw_note, controls.note1.raw_value);
    assert_eq!(tab.note, controls.note1.value);
    // C major holds 60 (the raw pitch of a fresh table).
    assert_eq!(tab.tuner_note, Some(60));
    assert!(tab.tuner_marks.iter().any(|m| m.note == 60 && m.in_scale));
    assert!(tab.tuner_marks.iter().any(|m| m.note == 61 && !m.in_scale));
}

#[test]
fn instructions_tab_view_model() {
    let controls = Controls::new();
    let settings = Settings::default();
    let tab = TabInstructions::new(&controls, &settings);
    assert_eq!(tab.voice_notes.len(), 4);
    assert_eq!(tab.voice_notes[0], controls.note1.value);
    assert_eq!(tab.scale, settings.scale_notes());
}

#[test]
fn main_tab_selection() {
    let tab = MainTab::Play;
    assert_ne!(tab, MainTab::Instructions);
    assert_eq!(MainTab::RootEdit, MainTab::RootEdit);
    assert_ne!(MainTab::ScaleEdit, MainTab::Play);
}

#[test]
fn worker_phase_transitions_once() {
    // Connecting precedes polling; a successful connection is the only
    // way forward, and failure to connect is fatal at startup.
    let mut worker = SensorWorker::new(Settings::default());
    assert_eq!(worker.phase, WorkerPhase::Connecting);
    worker.connected();
    assert_eq!(worker.phase, WorkerPhase::Polling);
}
