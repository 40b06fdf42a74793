//! The media-session controller.
//!
//! The live graph (capture source, branch point, display sink) runs in the
//! outside media engine; this type tracks its state and decides every
//! structural change: attaching the recording branch, detaching it through
//! an end-of-stream drain, and sequencing the asynchronous snapshot
//! conversion. The caller performs each returned action on the engine and
//! reports the outcome back as an event; every decision in between is
//! verified.
//!
//! The recording branch walks `Requested -> Linked -> Draining -> removed`,
//! and is removed only when the forwarded end-of-stream notification for
//! that branch is observed, never synchronously on the stop request.

use vstd::prelude::*;

use crate::clock::Timestamp;
use crate::formats::RecordFormat;
use crate::formats::SnapshotFormat;
use crate::paths::spec_joined;
use crate::paths::spec_recording_file_name;
use crate::paths::spec_snapshot_file_name;
use crate::paths::recording_file_path;
use crate::paths::snapshot_file_path;

verus! {

/// State of the always-running capture/display graph.
#[derive(Copy, Clone, Debug, PartialEq, Eq, Structural)]
pub enum GraphState {
    /// Built but not yet started.
    Stopped,
    /// Live: frames flow from the capture source to the display sink.
    Playing,
    /// Shut down at application exit.
    Null,
}

/// Lifecycle phase of the one recording branch.
#[derive(Copy, Clone, Debug, PartialEq, Eq, Structural)]
pub enum BranchPhase {
    /// A sub-graph description has been handed out; the engine has not yet
    /// reported whether the branch could be built, started and linked.
    Requested,
    /// Linked to the branch point and receiving buffers.
    Linked,
    /// Stop was requested; the branch drains until its end-of-stream is
    /// observed.
    Draining,
}

/// The at-most-one recording branch.
#[derive(Debug, Clone, PartialEq, Eq)]
pub struct RecordingBranch {
    /// Identity under which the branch's forwarded end-of-stream is matched.
    pub id: u64,
    pub phase: BranchPhase,
    /// Path of the media file the branch writes.
    pub location: String,
}

/// Mathematical image of a [`RecordingBranch`].
pub struct RecordingBranchModel {
    pub id: u64,
    pub phase: BranchPhase,
    pub location: Seq<char>,
}

/// Mathematical image of a [`Pipeline`].
pub struct PipelineModel {
    pub graph: GraphState,
    pub recording: Option<RecordingBranchModel>,
    /// Target path of the one in-flight snapshot conversion, if any.
    pub snapshot: Option<Seq<char>>,
    pub next_branch_id: u64,
}

impl View for RecordingBranch {
    type V = RecordingBranchModel;

    open spec fn view(&self) -> RecordingBranchModel {
        RecordingBranchModel { id: self.id, phase: self.phase, location: self.location@ }
    }
}

/// The session controller; see the module documentation.
#[derive(Debug, Clone, PartialEq, Eq)]
pub struct Pipeline {
    pub graph: GraphState,
    pub recording: Option<RecordingBranch>,
    pub snapshot: Option<String>,
    pub next_branch_id: u64,
}

impl View for Pipeline {
    type V = PipelineModel;

    open spec fn view(&self) -> PipelineModel {
        PipelineModel {
            graph: self.graph,
            recording: match self.recording {
                Some(b) => Some(b@),
                None => None,
            },
            snapshot: match self.snapshot {
                Some(s) => Some(s@),
                None => None,
            },
            next_branch_id: self.next_branch_id,
        }
    }
}

/// The engine refused a graph state change.
#[derive(Copy, Clone, Debug, PartialEq, Eq, Structural)]
pub struct StateChangeError;

/// How the engine answered an attach request.
#[derive(Copy, Clone, Debug, PartialEq, Eq, Structural)]
pub enum AttachOutcome {
    /// The sub-graph was built, started and linked to the branch point.
    Linked,
    /// The textual sub-graph description could not be built.
    BuildFailed,
    /// The sub-graph refused to start playing (checked before linking, so
    /// the failure never perturbs the live graph).
    StartFailed,
    /// Linking the branch point to the sub-graph failed after the sub-graph
    /// was added; the caller must roll the sub-graph back.
    LinkFailed,
}

/// Why a recording could not be started.
#[derive(Copy, Clone, Debug, PartialEq, Eq, Structural)]
pub enum RecordError {
    BuildError,
    StartError,
    LinkError,
}

/// What the caller must do after a start-recording request.
#[derive(Debug, Clone, PartialEq, Eq)]
pub enum StartRecordingAction {
    /// A branch already exists (possibly still draining): do nothing to the
    /// graph and reset the record toggle.
    AlreadyRecording,
    /// Build `description`, point its file sink at `location`, start it,
    /// then link it to the branch point; report the result through
    /// [`Pipeline::on_attach_outcome`].
    Attach { id: u64, description: String, location: String },
}

/// What the caller must do after a stop-recording request.
#[derive(Debug, Clone, PartialEq, Eq)]
pub enum StopRecordingAction {
    /// Nothing is recording (or the branch is already draining).
    NoOp,
    /// Install an idle probe on the branch's source pad, unlink and release
    /// the pad when it fires, and send end-of-stream into the sub-graph from
    /// a deferred call; the drain completion comes back as a forwarded
    /// end-of-stream message.
    Detach { id: u64 },
}

/// What the caller must do after a snapshot request.
#[derive(Debug, Clone, PartialEq, Eq)]
pub enum SnapshotAction {
    /// No frame has been captured yet: a silent no-op.
    NoFrame,
    /// A previous conversion is still in flight: ignore the request.
    Busy,
    /// Convert the captured frame to `media_type` with the given timeout and
    /// report the result through [`Pipeline::on_snapshot_conversion`].
    Convert { media_type: String, location: String, timeout_seconds: u32 },
}

/// What the caller must do when a snapshot conversion finishes.
#[derive(Debug, Clone, PartialEq, Eq)]
pub enum SnapshotCompletion {
    /// Conversion succeeded: open `location` and write the converted bytes.
    WriteFile { location: String },
    /// Conversion failed: report a non-fatal warning.
    ConversionFailed,
}

/// A notification delivered by the engine's bus, already on the UI thread.
#[derive(Debug, Clone, PartialEq, Eq)]
pub enum BusMessage {
    /// An engine-level error.
    Error { text: String },
    /// A self-posted warning, used by completion callbacks on engine
    /// threads to request a dialog on the UI thread.
    ApplicationWarning { text: String },
    /// A forwarded end-of-stream from the sub-graph identified by `src_id`.
    ForwardedEos { src_id: u64 },
    /// Anything else.
    Other,
}

/// What the caller must do with a bus notification.
#[derive(Debug, Clone, PartialEq, Eq)]
pub enum MessageAction {
    /// Show an error dialog; quit afterwards when `fatal`.
    ErrorDialog { fatal: bool, text: String },
    /// Show a non-fatal warning dialog.
    WarningDialog { text: String },
    /// The branch has fully drained: remove the sub-graph from the graph
    /// and set its state to null.
    RemoveBranch { id: u64 },
    Ignore,
}

impl PipelineModel {
    /// The freshly built graph: stopped, no branch, no conversion.
    pub open spec fn init() -> PipelineModel {
        PipelineModel {
            graph: GraphState::Stopped,
            recording: None,
            snapshot: None,
            next_branch_id: 0,
        }
    }

    /// A start request: on success the graph is playing, whatever it was.
    pub open spec fn spec_start(self, engine_ok: bool) -> PipelineModel {
        if engine_ok {
            PipelineModel { graph: GraphState::Playing, ..self }
        } else {
            self
        }
    }

    /// A stop request: on success the graph is null, whatever it was.
    pub open spec fn spec_stop(self, engine_ok: bool) -> PipelineModel {
        if engine_ok {
            PipelineModel { graph: GraphState::Null, ..self }
        } else {
            self
        }
    }

    /// A start-recording request: refused while any branch exists, else a
    /// new branch in the `Requested` phase.
    pub open spec fn spec_start_recording(
        self,
        format: RecordFormat,
        dir: Seq<char>,
        ts: Timestamp,
    ) -> PipelineModel {
        if self.recording is Some {
            self
        } else {
            PipelineModel {
                recording: Some(
                    RecordingBranchModel {
                        id: self.next_branch_id,
                        phase: BranchPhase::Requested,
                        location: spec_joined(dir, spec_recording_file_name(format, ts)),
                    },
                ),
                next_branch_id: (self.next_branch_id + 1) as u64,
                ..self
            }
        }
    }

    /// The engine's answer to an attach: the requested branch becomes
    /// linked, or disappears.
    pub open spec fn spec_attach_outcome(self, outcome: AttachOutcome) -> PipelineModel {
        match outcome {
            AttachOutcome::Linked => PipelineModel {
                recording: match self.recording {
                    Some(b) => Some(RecordingBranchModel { phase: BranchPhase::Linked, ..b }),
                    None => None,
                },
                ..self
            },
            _ => PipelineModel { recording: None, ..self },
        }
    }

    /// A stop-recording request: a linked branch starts draining; anything
    /// else is left alone.
    pub open spec fn spec_stop_recording(self) -> PipelineModel {
        match self.recording {
            Some(b) => if b.phase is Linked {
                PipelineModel {
                    recording: Some(RecordingBranchModel { phase: BranchPhase::Draining, ..b }),
                    ..self
                }
            } else {
                self
            },
            None => self,
        }
    }

    /// A snapshot request: starts the one conversion when a frame exists
    /// and none is in flight.
    pub open spec fn spec_take_snapshot(
        self,
        format: SnapshotFormat,
        dir: Seq<char>,
        ts: Timestamp,
        frame_available: bool,
    ) -> PipelineModel {
        if frame_available && self.snapshot is None {
            PipelineModel {
                snapshot: Some(spec_joined(dir, spec_snapshot_file_name(format, ts))),
                ..self
            }
        } else {
            self
        }
    }

    /// A finished conversion: the session ends, success or not.
    pub open spec fn spec_conversion_done(self) -> PipelineModel {
        PipelineModel { snapshot: None, ..self }
    }

    /// A forwarded end-of-stream: removes the draining branch it belongs
    /// to; anything else is ignored.
    pub open spec fn spec_on_eos(self, src_id: u64) -> PipelineModel {
        match self.recording {
            Some(b) => if b.id == src_id && b.phase is Draining {
                PipelineModel { recording: None, ..self }
            } else {
                self
            },
            None => self,
        }
    }
}

/// What [`Pipeline::start_recording`] hands back, as a function of the state
/// it was called in.
pub open spec fn start_recording_action_ok(
    m: PipelineModel,
    format: RecordFormat,
    dir: Seq<char>,
    ts: Timestamp,
    r: StartRecordingAction,
) -> bool {
    &&& m.recording is Some ==> r is AlreadyRecording
    &&& m.recording is None ==> (r matches StartRecordingAction::Attach { id, description, location }
        && id == m.next_branch_id && description@ == format.spec_bin_description() && location@
        == spec_joined(dir, spec_recording_file_name(format, ts)))
}

/// What [`Pipeline::stop_recording`] hands back, as a function of the state
/// it was called in.
pub open spec fn stop_recording_action_ok(m: PipelineModel, r: StopRecordingAction) -> bool {
    match m.recording {
        Some(b) => if b.phase is Linked {
            r == (StopRecordingAction::Detach { id: b.id })
        } else {
            r is NoOp
        },
        None => r is NoOp,
    }
}

/// What [`Pipeline::take_snapshot`] hands back, as a function of the state
/// it was called in.
pub open spec fn take_snapshot_action_ok(
    m: PipelineModel,
    format: SnapshotFormat,
    dir: Seq<char>,
    ts: Timestamp,
    frame_available: bool,
    r: SnapshotAction,
) -> bool {
    &&& !frame_available ==> r is NoFrame
    &&& frame_available && m.snapshot is Some ==> r is Busy
    &&& frame_available && m.snapshot is None ==> (r matches SnapshotAction::Convert {
        media_type,
        location,
        timeout_seconds,
    } && media_type@ == format.spec_media_type() && location@ == spec_joined(
        dir,
        spec_snapshot_file_name(format, ts),
    ) && timeout_seconds == 5)
}

impl Pipeline {
    /// Textual description of the fixed live topology: capture source, a
    /// fan-out branch point, and a queue/convert/display chain.
    pub fn launch_description() -> (r: &'static str)
        ensures
            r@ == "autovideosrc ! tee name=tee ! queue ! videoconvert ! gtksink name=sink"@,
    {
        "autovideosrc ! tee name=tee ! queue ! videoconvert ! gtksink name=sink"
    }

    /// A freshly built graph.
    pub fn new() -> (p: Pipeline)
        ensures
            p@ == PipelineModel::init(),
    {
        Pipeline { graph: GraphState::Stopped, recording: None, snapshot: None, next_branch_id: 0 }
    }

    /// Records the engine's answer to a request to enter the playing state.
    /// Idempotent: a second successful start changes nothing further.
    pub fn start(&mut self, engine_ok: bool) -> (r: Result<(), StateChangeError>)
        ensures
            final(self)@ == old(self)@.spec_start(engine_ok),
            r is Ok <==> engine_ok,
    {
        if engine_ok {
            self.graph = GraphState::Playing;
            Ok(())
        } else {
            Err(StateChangeError)
        }
    }

    /// Records the engine's answer to a request to enter the null state.
    /// Idempotent: a second successful stop changes nothing further.
    pub fn stop(&mut self, engine_ok: bool) -> (r: Result<(), StateChangeError>)
        ensures
            final(self)@ == old(self)@.spec_stop(engine_ok),
            r is Ok <==> engine_ok,
    {
        if engine_ok {
            self.graph = GraphState::Null;
            Ok(())
        } else {
            Err(StateChangeError)
        }
    }

    /// Starts a recording session: while any branch exists — linked or
    /// still draining — the request is refused and nothing changes, so
    /// there is never more than one branch; otherwise the sub-graph for
    /// `format` is to be attached, writing into `dir`.
    pub fn start_recording(&mut self, format: RecordFormat, dir: &str, ts: &Timestamp) -> (r:
        StartRecordingAction)
        requires
            ts.wf(),
            old(self)@.next_branch_id < u64::MAX,
        ensures
            final(self)@ == old(self)@.spec_start_recording(format, dir@, *ts),
            start_recording_action_ok(old(self)@, format, dir@, *ts, r),
    {
        if self.recording.is_some() {
            return StartRecordingAction::AlreadyRecording;
        }
        let id = self.next_branch_id;
        let location = recording_file_path(dir, format, ts);
        self.recording = Some(
            RecordingBranch { id, phase: BranchPhase::Requested, location: location.clone() },
        );
        self.next_branch_id = id + 1;
        StartRecordingAction::Attach {
            id,
            description: String::from_str(format.bin_description()),
            location,
        }
    }

    /// Records the engine's answer to the attach. On `Linked` the session
    /// is live; on any failure it is gone and the error says why. Only a
    /// link failure needs a rollback, the caller removing and stopping the
    /// sub-graph it had already added.
    pub fn on_attach_outcome(&mut self, outcome: AttachOutcome) -> (r: Result<(), RecordError>)
        requires
            old(self)@.recording matches Some(b) && b.phase is Requested,
        ensures
            final(self)@ == old(self)@.spec_attach_outcome(outcome),
            match outcome {
                AttachOutcome::Linked => r is Ok,
                AttachOutcome::BuildFailed => r == Err::<(), RecordError>(RecordError::BuildError),
                AttachOutcome::StartFailed => r == Err::<(), RecordError>(RecordError::StartError),
                AttachOutcome::LinkFailed => r == Err::<(), RecordError>(RecordError::LinkError),
            },
    {
        match outcome {
            AttachOutcome::Linked => {
                match &mut self.recording {
                    Some(b) => {
                        b.phase = BranchPhase::Linked;
                    },
                    None => {},
                }
                Ok(())
            },
            AttachOutcome::BuildFailed => {
                self.recording = None;
                Err(RecordError::BuildError)
            },
            AttachOutcome::StartFailed => {
                self.recording = None;
                Err(RecordError::StartError)
            },
            AttachOutcome::LinkFailed => {
                self.recording = None;
                Err(RecordError::LinkError)
            },
        }
    }

    /// Whether a failed attach left a sub-graph in the live graph that the
    /// caller must remove and stop.
    pub fn needs_rollback(error: &RecordError) -> (r: bool)
        ensures
            r == (error is LinkError),
    {
        match error {
            RecordError::LinkError => true,
            _ => false,
        }
    }

    /// Stops the recording session. A linked branch starts draining and is
    /// kept until its end-of-stream is observed; with no branch, or one
    /// already draining, this is a no-op — a second stop request never cuts
    /// a drain short.
    pub fn stop_recording(&mut self) -> (r: StopRecordingAction)
        ensures
            final(self)@ == old(self)@.spec_stop_recording(),
            stop_recording_action_ok(old(self)@, r),
    {
        match &mut self.recording {
            Some(b) => {
                if matches!(b.phase, BranchPhase::Linked) {
                    let id = b.id;
                    b.phase = BranchPhase::Draining;
                    StopRecordingAction::Detach { id }
                } else {
                    StopRecordingAction::NoOp
                }
            },
            None => StopRecordingAction::NoOp,
        }
    }

    /// Takes a snapshot of the current frame into `dir`. Without a captured
    /// frame the request is a silent no-op: no conversion, no file, no
    /// error. While a conversion is in flight a new request is refused.
    /// Otherwise the frame is to be converted to `format` with a bounded
    /// timeout.
    pub fn take_snapshot(
        &mut self,
        format: SnapshotFormat,
        dir: &str,
        ts: &Timestamp,
        frame_available: bool,
    ) -> (r: SnapshotAction)
        requires
            ts.wf(),
        ensures
            final(self)@ == old(self)@.spec_take_snapshot(format, dir@, *ts, frame_available),
            take_snapshot_action_ok(old(self)@, format, dir@, *ts, frame_available, r),
    {
        if !frame_available {
            return SnapshotAction::NoFrame;
        }
        if self.snapshot.is_some() {
            return SnapshotAction::Busy;
        }
        let location = snapshot_file_path(dir, format, ts);
        self.snapshot = Some(location.clone());
        SnapshotAction::Convert {
            media_type: String::from_str(format.media_type()),
            location,
            timeout_seconds: 5,
        }
    }

    /// Records the end of the one in-flight conversion: on success the
    /// converted bytes are to be written to the session's file; on failure
    /// a non-fatal warning is to be reported. Either way the session ends.
    pub fn on_snapshot_conversion(&mut self, ok: bool) -> (r: SnapshotCompletion)
        requires
            old(self)@.snapshot is Some,
        ensures
            final(self)@ == old(self)@.spec_conversion_done(),
            ok ==> (r matches SnapshotCompletion::WriteFile { location } && old(
                self,
            )@.snapshot matches Some(l) && location@ == l),
            !ok ==> r is ConversionFailed,
    {
        let session = self.snapshot.take();
        if ok {
            match session {
                Some(location) => SnapshotCompletion::WriteFile { location },
                None => SnapshotCompletion::ConversionFailed,
            }
        } else {
            SnapshotCompletion::ConversionFailed
        }
    }

    /// Dispatches one bus notification. Engine errors become dialogs —
    /// fatal while the graph has not yet reached the playing state, since a
    /// failed session startup terminates the application, non-fatal during
    /// normal operation. Self-posted warnings become non-fatal dialogs. A
    /// forwarded end-of-stream removes exactly the draining branch it
    /// identifies; any other notification is ignored.
    pub fn on_pipeline_message(&mut self, msg: &BusMessage) -> (r: MessageAction)
        ensures
            msg matches BusMessage::ForwardedEos { src_id } ==> final(self)@ == old(
                self,
            )@.spec_on_eos(*src_id),
            !(msg is ForwardedEos) ==> final(self)@ == old(self)@,
            msg matches BusMessage::Error { text } ==> r matches MessageAction::ErrorDialog {
                fatal,
                text: shown,
            } && fatal == !(old(self)@.graph is Playing) && shown@ == text@,
            msg matches BusMessage::ApplicationWarning { text }
                ==> r matches MessageAction::WarningDialog { text: shown } && shown@ == text@,
            msg matches BusMessage::ForwardedEos { src_id } ==> if old(
                self,
            )@.recording matches Some(b) && b.id == *src_id && b.phase is Draining {
                r == (MessageAction::RemoveBranch { id: *src_id })
            } else {
                r is Ignore
            },
            msg is Other ==> r is Ignore,
    {
        match msg {
            BusMessage::Error { text } => {
                let fatal = !matches!(self.graph, GraphState::Playing);
                MessageAction::ErrorDialog { fatal, text: text.clone() }
            },
            BusMessage::ApplicationWarning { text } => {
                MessageAction::WarningDialog { text: text.clone() }
            },
            BusMessage::ForwardedEos { src_id } => {
                let matched = match &self.recording {
                    Some(b) => b.id == *src_id && matches!(b.phase, BranchPhase::Draining),
                    None => false,
                };
                if matched {
                    self.recording = None;
                    MessageAction::RemoveBranch { id: *src_id }
                } else {
                    MessageAction::Ignore
                }
            },
            BusMessage::Other => MessageAction::Ignore,
        }
    }
}

} // verus!
