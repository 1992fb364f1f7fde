//! The sensor worker state machine: the one owner of the hardware
//! connection's events, the one consumer of hand samples and the one
//! producer of fresh control snapshots.

use vstd::prelude::*;

verus! {

use crate::controls::Controls;
use crate::mapper::{map_hands, tracks, HandSample};
use crate::settings::Settings;

/// What one poll of the tracking hardware yielded. The hardware driver
/// itself lives outside this library; each cycle it is reduced to one of
/// these three plain events.
pub enum PollEvent {
    /// A fresh tracking frame, with whichever hands are in view.
    Tracking { left: Option<HandSample>, right: Option<HandSample> },
    /// No frame arrived within the poll timeout; recoverable.
    Timeout,
    /// The transport failed; the description travels in the snapshot.
    Fault(String),
}

impl PollEvent {
    pub open spec fn wf(self) -> bool {
        match self {
            PollEvent::Tracking { left, right } => {
                &&& match left {
                    Some(h) => h.wf(),
                    None => true,
                }
                &&& match right {
                    Some(h) => h.wf(),
                    None => true,
                }
            },
            PollEvent::Timeout => true,
            PollEvent::Fault(_) => true,
        }
    }
}

/// The worker's two phases: it connects once — failure to connect is
/// fatal at startup, hardware presence is a precondition — then polls
/// forever.
#[derive(Clone, Copy, Debug, PartialEq, Eq, Structural)]
pub enum WorkerPhase {
    Connecting,
    Polling,
}

/// A failed snapshot: every musical parameter frozen at its previous
/// value, the warning cleared, and the failure description in `error`.
pub open spec fn frozen_with_error(prev: Controls, r: Controls) -> bool {
    r == (Controls { warning: None, error: r.error, ..prev })
}

/// The mapping-loop state: the worker's phase, the last snapshot and the
/// worker's read-only settings copy, refreshed between polls.
pub struct SensorWorker {
    pub phase: WorkerPhase,
    pub controls: Controls,
    pub settings: Settings,
}

impl SensorWorker {
    pub open spec fn wf(self) -> bool {
        self.controls.wf() && self.settings.wf()
    }

    /// A fresh worker over the startup configuration table.
    pub fn new(settings: Settings) -> (r: SensorWorker)
        requires
            settings.wf(),
        ensures
            r.wf(),
            r.settings == settings,
            r.controls.warning is None,
            r.controls.error is None,
            r.controls.pluck.value == false,
            r.phase == WorkerPhase::Connecting,
    {
        SensorWorker { phase: WorkerPhase::Connecting, controls: Controls::new(), settings }
    }

    /// The hardware connection was established: the worker enters its
    /// polling phase. There is no way back, and no retry path exists: a
    /// connection that cannot be established at startup is fatal.
    pub fn connected(&mut self)
        requires
            old(self).wf(),
        ensures
            final(self).wf(),
            final(self).phase == WorkerPhase::Polling,
            final(self).controls == old(self).controls,
            final(self).settings == old(self).settings,
    {
        self.phase = WorkerPhase::Polling;
    }

    /// One polling cycle: (a) absorb the newest pending settings update,
    /// if any; (b) consume the poll event; (c) return the snapshot to
    /// publish, which is exactly the state kept for the next cycle. On a
    /// tracking frame the prior advisories are cleared and the mapper
    /// runs; on a timeout or fault every musical parameter stays at its
    /// last value and the failure is written into `error`, so the failure
    /// is observable while nothing downstream sees an invalid parameter.
    pub fn cycle(&mut self, newest_settings: Option<Settings>, event: PollEvent) -> (snapshot:
        Controls)
        requires
            old(self).wf(),
            old(self).phase == WorkerPhase::Polling,
            match newest_settings {
                Some(s) => s.wf(),
                None => true,
            },
            event.wf(),
        ensures
            final(self).wf(),
            final(self).phase == WorkerPhase::Polling,
            snapshot == final(self).controls,
            final(self).settings == match newest_settings {
                Some(s) => s,
                None => old(self).settings,
            },
            match event {
                PollEvent::Tracking { left, right } => tracks(
                    old(self).controls,
                    left,
                    right,
                    final(self).settings,
                    snapshot,
                ),
                PollEvent::Timeout => frozen_with_error(old(self).controls, snapshot)
                    && (snapshot.error matches Some(e) && e@.len() > 0),
                PollEvent::Fault(m) => frozen_with_error(old(self).controls, snapshot)
                    && snapshot.error == Some(m),
            },
    {
        match newest_settings {
            Some(s) => {
                self.settings = s;
            },
            None => {},
        }
        match event {
            PollEvent::Tracking { left, right } => {
                self.controls = map_hands(&self.controls, left, right, &self.settings);
            },
            PollEvent::Timeout => {
                self.controls.warning = None;
                self.controls.error = Some("no tracking frame within the poll timeout".to_owned());
                proof {
                    reveal_strlit("no tracking frame within the poll timeout");
                }
            },
            PollEvent::Fault(m) => {
                self.controls.warning = None;
                self.controls.error = Some(m);
            },
        }
        self.controls.duplicate()
    }
}

} // verus!
