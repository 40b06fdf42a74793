//! The controller's laws: properties that span several operations, stated
//! over the spec transitions of [`crate::pipeline`] and [`crate::app`] and
//! proved once and for all.

use vstd::prelude::*;

use crate::app::AppModel;
use crate::clock::Timestamp;
use crate::formats::RecordFormat;
use crate::formats::SnapshotFormat;
use crate::paths::spec_joined;
use crate::paths::spec_snapshot_file_name;
use crate::pipeline::PipelineModel;

verus! {

/// Starting is idempotent: one successful start leaves the graph playing,
/// and a second changes nothing at all.
pub proof fn lemma_start_idempotent(m: PipelineModel)
    ensures
        m.spec_start(true).graph is Playing,
        m.spec_start(true).spec_start(true) == m.spec_start(true),
{
}

/// Stopping is idempotent: one successful stop leaves the graph null, and a
/// second changes nothing at all.
pub proof fn lemma_stop_idempotent(m: PipelineModel)
    ensures
        m.spec_stop(true).graph is Null,
        m.spec_stop(true).spec_stop(true) == m.spec_stop(true),
{
}

/// There is never a second recording branch: while one exists — requested,
/// linked, or still draining — a start-recording request changes nothing.
/// (That the branch count never exceeds one is structural: the state holds
/// at most one branch.)
pub proof fn lemma_no_second_branch(
    m: PipelineModel,
    format: RecordFormat,
    dir: Seq<char>,
    ts: Timestamp,
)
    requires
        m.recording is Some,
    ensures
        m.spec_start_recording(format, dir, ts) == m,
{
}

/// Stopping a recording and immediately requesting a new one, before the
/// drain completes, perturbs nothing: the graph state is untouched — the
/// live preview keeps flowing — the draining branch stays exactly as it is,
/// and the new request attaches nothing.
pub proof fn lemma_restart_before_drain(
    m: PipelineModel,
    format: RecordFormat,
    dir: Seq<char>,
    ts: Timestamp,
)
    requires
        m.recording matches Some(b) && b.phase is Linked,
    ensures
        ({
            let m1 = m.spec_stop_recording();
            let m2 = m1.spec_start_recording(format, dir, ts);
            &&& m1.graph == m.graph
            &&& (m1.recording matches Some(b1) && m.recording matches Some(b0) && b1.id == b0.id
                && b1.location == b0.location && b1.phase is Draining)
            &&& m2 == m1
        }),
{
}

/// The full recording lifecycle, chained over the spec transitions: a
/// request on an idle session attaches one branch under a fresh identity;
/// a successful attach links it; the stop request drains it; and the
/// forwarded end-of-stream for exactly that identity removes it. The graph
/// state — the live preview — is untouched at every step, and at the end
/// the session is idle again.
pub proof fn lemma_record_lifecycle(
    m: PipelineModel,
    format: RecordFormat,
    dir: Seq<char>,
    ts: Timestamp,
)
    requires
        m.recording is None,
    ensures
        ({
            let id = m.next_branch_id;
            let m1 = m.spec_start_recording(format, dir, ts);
            let m2 = m1.spec_attach_outcome(crate::pipeline::AttachOutcome::Linked);
            let m3 = m2.spec_stop_recording();
            let m4 = m3.spec_on_eos(id);
            &&& (m1.recording matches Some(b) && b.id == id && b.phase is Requested)
            &&& (m2.recording matches Some(b) && b.id == id && b.phase is Linked)
            &&& (m3.recording matches Some(b) && b.id == id && b.phase is Draining)
            &&& m4.recording is None
            &&& m1.graph == m.graph && m2.graph == m.graph && m3.graph == m.graph && m4.graph
                == m.graph
        }),
{
}

/// A forwarded end-of-stream is matched by identity: one that does not name
/// the draining branch — or arrives while the branch is not draining, or
/// while none exists — removes nothing.
pub proof fn lemma_eos_needs_matching_identity(m: PipelineModel, src_id: u64)
    requires
        match m.recording {
            Some(b) => !(b.id == src_id && b.phase is Draining),
            None => true,
        },
    ensures
        m.spec_on_eos(src_id) == m,
{
}

/// A snapshot request with no available frame changes nothing: no
/// conversion starts, so no file is created and no error is raised.
pub proof fn lemma_snapshot_without_frame_is_noop(
    m: PipelineModel,
    format: SnapshotFormat,
    dir: Seq<char>,
    ts: Timestamp,
)
    ensures
        m.spec_take_snapshot(format, dir, ts, false) == m,
{
}

/// Releasing the snapshot toggle cancels the countdown without firing: the
/// session state is untouched — no conversion starts — the countdown is
/// gone and the overlay is hidden.
pub proof fn lemma_cancel_never_snapshots(a: AppModel)
    ensures
        a.spec_cancel_countdown().pipeline == a.pipeline,
        a.spec_cancel_countdown().countdown is None,
        !a.spec_cancel_countdown().overlay_visible,
{
}

/// The state after `k` one-second ticks.
pub open spec fn spec_run_ticks(
    a: AppModel,
    k: nat,
    format: SnapshotFormat,
    dir: Seq<char>,
    ts: Timestamp,
    frame_available: bool,
) -> AppModel
    decreases k,
{
    if k == 0 {
        a
    } else {
        spec_run_ticks(
            a.spec_tick(format, dir, ts, frame_available),
            (k - 1) as nat,
            format,
            dir,
            ts,
            frame_available,
        )
    }
}

/// A countdown of `n` ticks, canceled after any `k < n` of them, never
/// fires a snapshot: throughout the ticks the session state is untouched
/// and the count reads `n - k`, and the cancellation leaves the session
/// state untouched too, with the countdown gone and the overlay hidden.
pub proof fn lemma_cancel_during_countdown(
    a: AppModel,
    n: u32,
    k: nat,
    format: SnapshotFormat,
    dir: Seq<char>,
    ts: Timestamp,
    frame_available: bool,
)
    requires
        a.wf(),
        a.countdown == Some(n),
        k < n,
    ensures
        ({
            let b = spec_run_ticks(a, k, format, dir, ts, frame_available);
            &&& b.wf()
            &&& b.pipeline == a.pipeline
            &&& b.countdown == Some((n - k) as u32)
            &&& b.spec_cancel_countdown().pipeline == a.pipeline
            &&& b.spec_cancel_countdown().countdown is None
            &&& !b.spec_cancel_countdown().overlay_visible
        }),
    decreases k,
{
    if k > 0 {
        let a1 = a.spec_tick(format, dir, ts, frame_available);
        assert(a1.countdown == Some((n - 1) as u32));
        lemma_cancel_during_countdown(
            a1,
            (n - 1) as u32,
            (k - 1) as nat,
            format,
            dir,
            ts,
            frame_available,
        );
    }
}

/// A countdown of length zero never enters the counting state: no countdown
/// starts, the overlay stays hidden, and the snapshot fires immediately —
/// exactly one conversion is in flight afterwards whenever a frame is
/// available and none was already in flight.
pub proof fn lemma_zero_length_fires_immediately(
    a: AppModel,
    format: SnapshotFormat,
    dir: Seq<char>,
    ts: Timestamp,
    frame_available: bool,
)
    ensures
        ({
            let b = a.spec_press_snapshot(0, format, dir, ts, frame_available);
            &&& b.countdown is None
            &&& !b.overlay_visible
            &&& b.pipeline == a.pipeline.spec_take_snapshot(format, dir, ts, frame_available)
            &&& frame_available && a.pipeline.snapshot is None ==> b.pipeline.snapshot == Some(
                spec_joined(dir, spec_snapshot_file_name(format, ts)),
            )
            &&& !frame_available ==> b.pipeline == a.pipeline
        }),
{
}

/// A countdown of positive length starts counting and touches nothing else:
/// the session state is unchanged — no snapshot fires at the press — and the
/// overlay shows the full count.
pub proof fn lemma_positive_length_starts_countdown(
    a: AppModel,
    timer_length: u32,
    format: SnapshotFormat,
    dir: Seq<char>,
    ts: Timestamp,
    frame_available: bool,
)
    requires
        timer_length > 0,
    ensures
        ({
            let b = a.spec_press_snapshot(timer_length, format, dir, ts, frame_available);
            &&& b.countdown == Some(timer_length)
            &&& b.overlay_visible
            &&& b.pipeline == a.pipeline
        }),
{
}

} // verus!
