//! The application-level controller: countdown behavior, toggle handling
//! and the named-action dispatch table.

use cameraview::app::Action;
use cameraview::app::App;
use cameraview::app::RecordState;
use cameraview::app::RecordToggleAction;
use cameraview::app::SnapshotState;
use cameraview::app::SnapshotTimer;
use cameraview::app::SnapshotToggleAction;
use cameraview::app::TickAction;
use cameraview::clock::Timestamp;
use cameraview::formats::RecordFormat;
use cameraview::formats::SnapshotFormat;
use cameraview::pipeline::SnapshotAction;
use cameraview::pipeline::StartRecordingAction;
use cameraview::pipeline::StopRecordingAction;
use cameraview::settings::Settings;

fn ts() -> Timestamp {
    Timestamp { year: 2019, month: 8, day: 24, hour: 14, minute: 30, second: 5 }
}

fn settings_with_timer(timer_length: u32) -> Settings {
    Settings::new(
        "/pics".to_string(),
        SnapshotFormat::JPEG,
        timer_length,
        "/videos".to_string(),
        RecordFormat::H264Mp4,
    )
}

#[test]
fn countdown_of_five_canceled_at_three_never_snapshots() {
    let mut app = App::new();
    let settings = settings_with_timer(5);
    let when = ts();
    match app.on_snapshot_state_changed(SnapshotState::TimerRunning, &settings, &when, true) {
        SnapshotToggleAction::CountdownStarted { overlay_text } => assert_eq!(overlay_text, "5"),
        other => panic!("countdown did not start: {:?}", other),
    }
    assert!(app.overlay_visible);
    match app.on_timer_tick(&settings, &when, true) {
        TickAction::Continue { overlay_text } => assert_eq!(overlay_text, "4"),
        TickAction::Fire { .. } => panic!("fired early"),
    }
    match app.on_timer_tick(&settings, &when, true) {
        TickAction::Continue { overlay_text } => assert_eq!(overlay_text, "3"),
        TickAction::Fire { .. } => panic!("fired early"),
    }
    match app.on_snapshot_state_changed(SnapshotState::Idle, &settings, &when, true) {
        SnapshotToggleAction::CountdownCanceled => {}
        other => panic!("cancel mishandled: {:?}", other),
    }
    assert!(app.timer.is_none());
    assert!(!app.overlay_visible);
    assert!(app.pipeline.snapshot.is_none(), "a snapshot conversion was started");
}

#[test]
fn zero_length_fires_immediately_without_counting() {
    let mut app = App::new();
    let settings = settings_with_timer(0);
    let when = ts();
    match app.on_snapshot_state_changed(SnapshotState::TimerRunning, &settings, &when, true) {
        SnapshotToggleAction::Immediate { snapshot } => match snapshot {
            SnapshotAction::Convert { media_type, location, timeout_seconds } => {
                assert_eq!(media_type, "image/jpeg");
                assert_eq!(location, "/pics/Snapshot 2019-08-24 14:30:05.jpg");
                assert_eq!(timeout_seconds, 5);
            }
            other => panic!("no conversion: {:?}", other),
        },
        other => panic!("did not fire immediately: {:?}", other),
    }
    assert!(app.timer.is_none(), "a countdown was entered");
    assert!(!app.overlay_visible);
    assert!(app.pipeline.snapshot.is_some());
}

#[test]
fn zero_length_with_no_frame_is_noop() {
    let mut app = App::new();
    let settings = settings_with_timer(0);
    match app.on_snapshot_state_changed(SnapshotState::TimerRunning, &settings, &ts(), false) {
        SnapshotToggleAction::Immediate { snapshot } => {
            assert_eq!(snapshot, SnapshotAction::NoFrame)
        }
        other => panic!("did not fire immediately: {:?}", other),
    }
    assert!(app.pipeline.snapshot.is_none());
}

#[test]
fn countdown_runs_to_zero_and_fires() {
    let mut app = App::new();
    let settings = settings_with_timer(2);
    let when = ts();
    app.on_snapshot_state_changed(SnapshotState::TimerRunning, &settings, &when, true);
    match app.on_timer_tick(&settings, &when, true) {
        TickAction::Continue { overlay_text } => assert_eq!(overlay_text, "1"),
        TickAction::Fire { .. } => panic!("fired early"),
    }
    match app.on_timer_tick(&settings, &when, true) {
        TickAction::Fire { snapshot } => match snapshot {
            SnapshotAction::Convert { location, .. } => {
                assert_eq!(location, "/pics/Snapshot 2019-08-24 14:30:05.jpg");
            }
            other => panic!("no conversion: {:?}", other),
        },
        TickAction::Continue { .. } => panic!("did not fire at zero"),
    }
    assert!(app.timer.is_none());
    assert!(!app.overlay_visible);
}

#[test]
fn cancel_with_no_countdown_still_hides_overlay() {
    let mut app = App::new();
    let settings = settings_with_timer(5);
    match app.on_snapshot_state_changed(SnapshotState::Idle, &settings, &ts(), true) {
        SnapshotToggleAction::CountdownCanceled => {}
        other => panic!("cancel mishandled: {:?}", other),
    }
    assert!(app.timer.is_none());
    assert!(!app.overlay_visible);
}

#[test]
fn record_toggle_starts_and_stops() {
    let mut app = App::new();
    let settings = settings_with_timer(3);
    let when = ts();
    app.pipeline.start(true).unwrap();
    match app.on_record_state_changed(RecordState::Recording, &settings, &when) {
        RecordToggleAction::Start(StartRecordingAction::Attach { location, .. }) => {
            assert_eq!(location, "/videos/Recording 2019-08-24 14:30:05.mp4");
        }
        other => panic!("recording not started: {:?}", other),
    }
    app.pipeline
        .on_attach_outcome(cameraview::pipeline::AttachOutcome::Linked)
        .unwrap();
    match app.on_record_state_changed(RecordState::Idle, &settings, &when) {
        RecordToggleAction::Stop(StopRecordingAction::Detach { id }) => assert_eq!(id, 0),
        other => panic!("recording not stopped: {:?}", other),
    }
}

#[test]
fn record_toggle_while_recording_is_refused() {
    let mut app = App::new();
    let settings = settings_with_timer(3);
    let when = ts();
    app.on_record_state_changed(RecordState::Recording, &settings, &when);
    app.pipeline
        .on_attach_outcome(cameraview::pipeline::AttachOutcome::Linked)
        .unwrap();
    match app.on_record_state_changed(RecordState::Recording, &settings, &when) {
        RecordToggleAction::Start(StartRecordingAction::AlreadyRecording) => {}
        other => panic!("second recording not refused: {:?}", other),
    }
}

#[test]
fn snapshot_timer_counts_down() {
    let mut t = SnapshotTimer::new(3);
    assert_eq!(t.tick(), 2);
    assert_eq!(t.tick(), 1);
    assert_eq!(t.tick(), 0);
}

#[test]
fn toggle_states_from_bool() {
    assert_eq!(SnapshotState::from(true), SnapshotState::TimerRunning);
    assert_eq!(SnapshotState::from(false), SnapshotState::Idle);
    assert_eq!(RecordState::from(true), RecordState::Recording);
    assert_eq!(RecordState::from(false), RecordState::Idle);
}

#[test]
fn action_names_are_fixed() {
    assert_eq!(Action::Settings.name(), "settings");
    assert_eq!(Action::About.name(), "about");
    assert_eq!(Action::Quit.name(), "quit");
    assert_eq!(Action::Snapshot(SnapshotState::Idle).name(), "snapshot");
    assert_eq!(Action::Record(RecordState::Idle).name(), "record");
    assert_eq!(Action::Settings.full_name(), "app.settings");
    assert_eq!(Action::About.full_name(), "app.about");
    assert_eq!(Action::Quit.full_name(), "app.quit");
    assert_eq!(Action::Snapshot(SnapshotState::TimerRunning).full_name(), "app.snapshot");
    assert_eq!(Action::Record(RecordState::Recording).full_name(), "app.record");
}
