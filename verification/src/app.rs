//! The application-level controller: the snapshot countdown, the two
//! toggle-driven state changes, and the closed set of named application
//! actions the menu dispatches.

use vstd::prelude::*;

use crate::clock::Timestamp;
use crate::pipeline::Pipeline;
use crate::pipeline::PipelineModel;
use crate::pipeline::SnapshotAction;
use crate::pipeline::StartRecordingAction;
use crate::pipeline::StopRecordingAction;
use crate::pipeline::start_recording_action_ok;
use crate::pipeline::stop_recording_action_ok;
use crate::pipeline::take_snapshot_action_ok;
use crate::settings::Settings;
use crate::text::decimal_seq;
use crate::text::decimal_string;

verus! {

/// State of the snapshot toggle.
#[derive(Copy, Clone, Debug, PartialEq, Eq, Structural)]
pub enum SnapshotState {
    Idle,
    TimerRunning,
}

impl From<bool> for SnapshotState {
    /// `true` is the pressed toggle, `false` the released one.
    fn from(v: bool) -> (r: SnapshotState) {
        if v {
            SnapshotState::TimerRunning
        } else {
            SnapshotState::Idle
        }
    }
}

impl vstd::std_specs::convert::FromSpecImpl<bool> for SnapshotState {
    open spec fn obeys_from_spec() -> bool {
        true
    }

    open spec fn from_spec(v: bool) -> SnapshotState {
        if v {
            SnapshotState::TimerRunning
        } else {
            SnapshotState::Idle
        }
    }
}

/// State of the record toggle.
#[derive(Copy, Clone, Debug, PartialEq, Eq, Structural)]
pub enum RecordState {
    Idle,
    Recording,
}

impl From<bool> for RecordState {
    /// `true` is the pressed toggle, `false` the released one.
    fn from(v: bool) -> (r: RecordState) {
        if v {
            RecordState::Recording
        } else {
            RecordState::Idle
        }
    }
}

impl vstd::std_specs::convert::FromSpecImpl<bool> for RecordState {
    open spec fn obeys_from_spec() -> bool {
        true
    }

    open spec fn from_spec(v: bool) -> RecordState {
        if v {
            RecordState::Recording
        } else {
            RecordState::Idle
        }
    }
}

/// The countdown: how many ticks remain until the snapshot fires. The
/// caller owns the recurring one-second tick source and removes it when the
/// timer is dropped.
#[derive(Copy, Clone, Debug, PartialEq, Eq, Structural)]
pub struct SnapshotTimer {
    pub remaining: u32,
}

impl SnapshotTimer {
    pub fn new(remaining: u32) -> (t: SnapshotTimer)
        requires
            remaining > 0,
        ensures
            t.remaining == remaining,
    {
        SnapshotTimer { remaining }
    }

    /// One second has passed; counts down and reports what remains.
    pub fn tick(&mut self) -> (r: u32)
        requires
            old(self).remaining > 0,
        ensures
            final(self).remaining == old(self).remaining - 1,
            r == final(self).remaining,
    {
        self.remaining = self.remaining - 1;
        self.remaining
    }
}

/// The closed set of named application actions the menu and the toggles
/// trigger.
#[derive(Copy, Clone, Debug, PartialEq, Eq, Structural)]
pub enum Action {
    Settings,
    About,
    Quit,
    Snapshot(SnapshotState),
    Record(RecordState),
}

impl Action {
    /// The bare action name.
    pub open spec fn spec_name(self) -> Seq<char> {
        match self {
            Action::Settings => "settings"@,
            Action::About => "about"@,
            Action::Quit => "quit"@,
            Action::Snapshot(_) => "snapshot"@,
            Action::Record(_) => "record"@,
        }
    }

    pub fn name(&self) -> (r: &'static str)
        ensures
            r@ == self.spec_name(),
    {
        match self {
            Action::Settings => "settings",
            Action::About => "about",
            Action::Quit => "quit",
            Action::Snapshot(_) => "snapshot",
            Action::Record(_) => "record",
        }
    }

    /// The name under the application prefix, as menu models refer to it.
    pub open spec fn spec_full_name(self) -> Seq<char> {
        match self {
            Action::Settings => "app.settings"@,
            Action::About => "app.about"@,
            Action::Quit => "app.quit"@,
            Action::Snapshot(_) => "app.snapshot"@,
            Action::Record(_) => "app.record"@,
        }
    }

    pub fn full_name(&self) -> (r: &'static str)
        ensures
            r@ == self.spec_full_name(),
    {
        match self {
            Action::Settings => "app.settings",
            Action::About => "app.about",
            Action::Quit => "app.quit",
            Action::Snapshot(_) => "app.snapshot",
            Action::Record(_) => "app.record",
        }
    }
}

/// Mathematical image of an [`App`].
pub struct AppModel {
    pub pipeline: PipelineModel,
    /// Remaining countdown ticks, while a countdown runs.
    pub countdown: Option<u32>,
    /// Whether the countdown overlay is shown.
    pub overlay_visible: bool,
}

impl AppModel {
    /// A running countdown always has ticks left and never more than the
    /// configurable maximum, and the overlay is shown exactly while one
    /// runs.
    pub open spec fn wf(self) -> bool {
        &&& (self.countdown matches Some(r) ==> 0 < r <= crate::settings::MAX_TIMER_LENGTH)
        &&& self.overlay_visible <==> self.countdown is Some
    }

    /// A released snapshot toggle: the countdown, if any, is canceled and
    /// the overlay hidden; no snapshot fires.
    pub open spec fn spec_cancel_countdown(self) -> AppModel {
        AppModel { countdown: None, overlay_visible: false, ..self }
    }

    /// A pressed snapshot toggle: with a zero timer length the snapshot
    /// fires immediately and no countdown ever starts; otherwise a
    /// countdown starts and the overlay shows it.
    pub open spec fn spec_press_snapshot(
        self,
        timer_length: u32,
        format: crate::formats::SnapshotFormat,
        dir: Seq<char>,
        ts: Timestamp,
        frame_available: bool,
    ) -> AppModel {
        if timer_length == 0 {
            AppModel {
                pipeline: self.pipeline.spec_take_snapshot(format, dir, ts, frame_available),
                countdown: None,
                overlay_visible: false,
            }
        } else {
            AppModel { countdown: Some(timer_length), overlay_visible: true, ..self }
        }
    }

    /// One tick: the count goes down and the overlay shows it; at zero the
    /// countdown ends, the overlay hides and the snapshot fires.
    pub open spec fn spec_tick(
        self,
        format: crate::formats::SnapshotFormat,
        dir: Seq<char>,
        ts: Timestamp,
        frame_available: bool,
    ) -> AppModel {
        match self.countdown {
            Some(r0) => if r0 > 1 {
                AppModel { countdown: Some((r0 - 1) as u32), overlay_visible: true, ..self }
            } else {
                AppModel {
                    pipeline: self.pipeline.spec_take_snapshot(format, dir, ts, frame_available),
                    countdown: None,
                    overlay_visible: false,
                }
            },
            None => self,
        }
    }
}

/// What the caller must do after a snapshot-toggle change.
#[derive(Debug, Clone, PartialEq, Eq)]
pub enum SnapshotToggleAction {
    /// Hide the overlay and remove the tick source, if one ran; no snapshot
    /// fires.
    CountdownCanceled,
    /// Reset the toggle to its released state — a zero-length countdown is a
    /// momentary action, not a mode — and perform the snapshot action.
    Immediate { snapshot: SnapshotAction },
    /// Show the overlay with this text and tick once a second.
    CountdownStarted { overlay_text: String },
}

/// What the caller must do after a countdown tick.
#[derive(Debug, Clone, PartialEq, Eq)]
pub enum TickAction {
    /// Keep ticking; show this text in the overlay.
    Continue { overlay_text: String },
    /// The countdown reached zero: hide the overlay, remove the tick
    /// source, reset the snapshot toggle, and perform the snapshot action.
    Fire { snapshot: SnapshotAction },
}

/// What the caller must do after a record-toggle change.
#[derive(Debug, Clone, PartialEq, Eq)]
pub enum RecordToggleAction {
    Start(StartRecordingAction),
    Stop(StopRecordingAction),
}

/// The application-level controller: the session controller plus the
/// countdown state the snapshot toggle drives.
#[derive(Debug, Clone, PartialEq, Eq)]
pub struct App {
    pub pipeline: Pipeline,
    pub timer: Option<SnapshotTimer>,
    pub overlay_visible: bool,
}

impl View for App {
    type V = AppModel;

    open spec fn view(&self) -> AppModel {
        AppModel {
            pipeline: self.pipeline@,
            countdown: match self.timer {
                Some(t) => Some(t.remaining),
                None => None,
            },
            overlay_visible: self.overlay_visible,
        }
    }
}

impl App {
    /// A freshly started application: a stopped graph, no countdown, the
    /// overlay hidden.
    pub fn new() -> (a: App)
        ensures
            a@.pipeline == PipelineModel::init(),
            a@.countdown is None,
            !a@.overlay_visible,
            a@.wf(),
    {
        App { pipeline: Pipeline::new(), timer: None, overlay_visible: false }
    }

    /// The snapshot toggle changed. Releasing it cancels any countdown
    /// without ever firing a snapshot. Pressing it with a zero timer length
    /// fires the snapshot immediately, entering no countdown; with a
    /// positive length it starts the countdown at that length.
    pub fn on_snapshot_state_changed(
        &mut self,
        new_state: SnapshotState,
        settings: &Settings,
        ts: &Timestamp,
        frame_available: bool,
    ) -> (r: SnapshotToggleAction)
        requires
            old(self)@.wf(),
            ts.wf(),
            settings@.wf(),
        ensures
            final(self)@.wf(),
            new_state is Idle ==> final(self)@ == old(self)@.spec_cancel_countdown(),
            new_state is Idle ==> r is CountdownCanceled,
            new_state is TimerRunning ==> final(self)@ == old(self)@.spec_press_snapshot(
                settings@.timer_length,
                settings@.snapshot_format,
                settings@.snapshot_directory,
                *ts,
                frame_available,
            ),
            new_state is TimerRunning && settings@.timer_length == 0 ==> (r
                matches SnapshotToggleAction::Immediate { snapshot } && take_snapshot_action_ok(
                old(self)@.pipeline,
                settings@.snapshot_format,
                settings@.snapshot_directory,
                *ts,
                frame_available,
                snapshot,
            )),
            new_state is TimerRunning && settings@.timer_length > 0 ==> (r
                matches SnapshotToggleAction::CountdownStarted { overlay_text } && overlay_text@
                == decimal_seq(settings@.timer_length as nat)),
    {
        match new_state {
            SnapshotState::Idle => {
                self.timer = None;
                self.overlay_visible = false;
                SnapshotToggleAction::CountdownCanceled
            },
            SnapshotState::TimerRunning => {
                if settings.timer_length == 0 {
                    self.timer = None;
                    self.overlay_visible = false;
                    let snapshot = self.pipeline.take_snapshot(
                        settings.snapshot_format,
                        settings.snapshot_directory.as_str(),
                        ts,
                        frame_available,
                    );
                    SnapshotToggleAction::Immediate { snapshot }
                } else {
                    self.timer = Some(SnapshotTimer::new(settings.timer_length));
                    self.overlay_visible = true;
                    SnapshotToggleAction::CountdownStarted {
                        overlay_text: decimal_string(settings.timer_length),
                    }
                }
            },
        }
    }

    /// One second of a running countdown passed. While ticks remain the
    /// overlay text is the new count; at zero the countdown ends and the
    /// snapshot fires.
    pub fn on_timer_tick(&mut self, settings: &Settings, ts: &Timestamp, frame_available: bool) -> (r:
        TickAction)
        requires
            old(self)@.wf(),
            old(self)@.countdown is Some,
            ts.wf(),
            settings@.wf(),
        ensures
            final(self)@.wf(),
            final(self)@ == old(self)@.spec_tick(
                settings@.snapshot_format,
                settings@.snapshot_directory,
                *ts,
                frame_available,
            ),
            old(self)@.countdown matches Some(r0) ==> (if r0 > 1 {
                r matches TickAction::Continue { overlay_text } && overlay_text@ == decimal_seq(
                    (r0 - 1) as nat,
                )
            } else {
                r matches TickAction::Fire { snapshot } && take_snapshot_action_ok(
                    old(self)@.pipeline,
                    settings@.snapshot_format,
                    settings@.snapshot_directory,
                    *ts,
                    frame_available,
                    snapshot,
                )
            }),
    {
        let remaining = match &mut self.timer {
            Some(t) => t.tick(),
            None => 0,
        };
        if remaining == 0 {
            self.timer = None;
            self.overlay_visible = false;
            let snapshot = self.pipeline.take_snapshot(
                settings.snapshot_format,
                settings.snapshot_directory.as_str(),
                ts,
                frame_available,
            );
            TickAction::Fire { snapshot }
        } else {
            TickAction::Continue { overlay_text: decimal_string(remaining) }
        }
    }

    /// The record toggle changed: pressing it starts a recording session,
    /// releasing it stops one.
    pub fn on_record_state_changed(
        &mut self,
        new_state: RecordState,
        settings: &Settings,
        ts: &Timestamp,
    ) -> (r: RecordToggleAction)
        requires
            old(self)@.wf(),
            ts.wf(),
            old(self)@.pipeline.next_branch_id < u64::MAX,
        ensures
            final(self)@.wf(),
            final(self)@.countdown == old(self)@.countdown,
            final(self)@.overlay_visible == old(self)@.overlay_visible,
            new_state is Recording ==> final(self)@.pipeline == old(
                self,
            )@.pipeline.spec_start_recording(
                settings@.record_format,
                settings@.record_directory,
                *ts,
            ),
            new_state is Recording ==> (r matches RecordToggleAction::Start(a)
                && start_recording_action_ok(
                old(self)@.pipeline,
                settings@.record_format,
                settings@.record_directory,
                *ts,
                a,
            )),
            new_state is Idle ==> final(self)@.pipeline == old(self)@.pipeline.spec_stop_recording(),
            new_state is Idle ==> (r matches RecordToggleAction::Stop(a)
                && stop_recording_action_ok(old(self)@.pipeline, a)),
    {
        match new_state {
            RecordState::Recording => {
                let a = self.pipeline.start_recording(
                    settings.record_format,
                    settings.record_directory.as_str(),
                    ts,
                );
                RecordToggleAction::Start(a)
            },
            RecordState::Idle => {
                let a = self.pipeline.stop_recording();
                RecordToggleAction::Stop(a)
            },
        }
    }
}

} // verus!
