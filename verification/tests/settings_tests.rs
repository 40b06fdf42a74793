//! Settings: defaults, clamping, the persisted document and its round
//! trip, format names, timestamps and file naming.

use cameraview::application_name;
use cameraview::clock::Timestamp;
use cameraview::clock::now;
use cameraview::formats::RecordFormat;
use cameraview::formats::SnapshotFormat;
use cameraview::formats::eq_ignore_ascii_case;
use cameraview::paths::recording_file_path;
use cameraview::paths::snapshot_file_path;
use cameraview::settings::DEFAULT_TIMER_LENGTH;
use cameraview::settings::MAX_TIMER_LENGTH;
use cameraview::settings::Settings;
use cameraview::text::decimal_string;

#[test]
fn defaults_match_documented_values() {
    let s = Settings::default();
    assert_eq!(s.snapshot_directory, ".");
    assert_eq!(s.snapshot_format, SnapshotFormat::JPEG);
    assert_eq!(s.timer_length, DEFAULT_TIMER_LENGTH);
    assert_eq!(s.timer_length, 3);
    assert_eq!(s.record_directory, ".");
    assert_eq!(s.record_format, RecordFormat::H264Mp4);
    assert_eq!(SnapshotFormat::default(), SnapshotFormat::JPEG);
    assert_eq!(RecordFormat::default(), RecordFormat::H264Mp4);
}

#[test]
fn new_clamps_timer_length() {
    let s = Settings::new(
        "/p".to_string(),
        SnapshotFormat::PNG,
        99,
        "/v".to_string(),
        RecordFormat::Vp8WebM,
    );
    assert_eq!(s.timer_length, MAX_TIMER_LENGTH);
    let s = Settings::new(
        "/p".to_string(),
        SnapshotFormat::PNG,
        15,
        "/v".to_string(),
        RecordFormat::Vp8WebM,
    );
    assert_eq!(s.timer_length, 15);
}

#[test]
fn emitted_document_has_fixed_shape() {
    let s = Settings::new(
        "/home/user/Pictures".to_string(),
        SnapshotFormat::JPEG,
        3,
        "/home/user/Videos".to_string(),
        RecordFormat::H264Mp4,
    );
    let expected = "snapshot_directory = \"/home/user/Pictures\"\n\
                    snapshot_format = \"JPEG\"\n\
                    timer_length = 3\n\
                    record_directory = \"/home/user/Videos\"\n\
                    record_format = \"H264Mp4\"\n";
    assert_eq!(s.to_text(), expected);
}

#[test]
fn settings_round_trip_over_both_enum_domains() {
    let snapshot_formats = [SnapshotFormat::JPEG, SnapshotFormat::PNG];
    let record_formats = [RecordFormat::H264Mp4, RecordFormat::Vp8WebM];
    let timers: [u32; 4] = [0, 1, 10, 15];
    for &sf in &snapshot_formats {
        for &rf in &record_formats {
            for &t in &timers {
                let s = Settings::new(
                    "/home/someone/My Pictures".to_string(),
                    sf,
                    t,
                    "/data/videos".to_string(),
                    rf,
                );
                let text = s.to_text();
                let back = Settings::from_text(&text).expect("emitted document rejected");
                assert_eq!(back, s);
            }
        }
    }
}

#[test]
fn round_trip_keeps_unusual_directories() {
    let s = Settings::new(
        "".to_string(),
        SnapshotFormat::PNG,
        7,
        "/tabs\tand spaces/x".to_string(),
        RecordFormat::Vp8WebM,
    );
    let back = Settings::from_text(&s.to_text()).expect("emitted document rejected");
    assert_eq!(back, s);
}

#[test]
fn clamped_timer_round_trips_as_clamped() {
    let s = Settings::new(
        "/p".to_string(),
        SnapshotFormat::JPEG,
        1000,
        "/v".to_string(),
        RecordFormat::H264Mp4,
    );
    assert_eq!(s.timer_length, 15);
    let back = Settings::from_text(&s.to_text()).unwrap();
    assert_eq!(back.timer_length, 15);
}

#[test]
fn corrupt_documents_are_rejected() {
    assert!(Settings::from_text("").is_none());
    assert!(Settings::from_text("garbage").is_none());
    assert!(Settings::from_text("snapshot_directory = \"/p\"\n").is_none());
    let bad_format = "snapshot_directory = \"/p\"\n\
                      snapshot_format = \"BMP\"\n\
                      timer_length = 3\n\
                      record_directory = \"/v\"\n\
                      record_format = \"H264Mp4\"\n";
    assert!(Settings::from_text(bad_format).is_none());
    let bad_timer = "snapshot_directory = \"/p\"\n\
                     snapshot_format = \"JPEG\"\n\
                     timer_length = 16\n\
                     record_directory = \"/v\"\n\
                     record_format = \"H264Mp4\"\n";
    assert!(Settings::from_text(bad_timer).is_none());
    let no_digits = "snapshot_directory = \"/p\"\n\
                     snapshot_format = \"JPEG\"\n\
                     timer_length = xx\n\
                     record_directory = \"/v\"\n\
                     record_format = \"H264Mp4\"\n";
    assert!(Settings::from_text(no_digits).is_none());
    let trailing = "snapshot_directory = \"/p\"\n\
                    snapshot_format = \"JPEG\"\n\
                    timer_length = 3\n\
                    record_directory = \"/v\"\n\
                    record_format = \"H264Mp4\"\nextra";
    assert!(Settings::from_text(trailing).is_none());
}

#[test]
fn format_names_parse_case_insensitively() {
    assert_eq!(SnapshotFormat::of_name("jpeg"), Some(SnapshotFormat::JPEG));
    assert_eq!(SnapshotFormat::of_name("JPEG"), Some(SnapshotFormat::JPEG));
    assert_eq!(SnapshotFormat::of_name("JpEg"), Some(SnapshotFormat::JPEG));
    assert_eq!(SnapshotFormat::of_name("png"), Some(SnapshotFormat::PNG));
    assert_eq!(SnapshotFormat::of_name("PNG"), Some(SnapshotFormat::PNG));
    assert_eq!(SnapshotFormat::of_name("bmp"), None);
    assert_eq!(RecordFormat::of_name("h264/mp4"), Some(RecordFormat::H264Mp4));
    assert_eq!(RecordFormat::of_name("H264/MP4"), Some(RecordFormat::H264Mp4));
    assert_eq!(RecordFormat::of_name("vp8/webm"), Some(RecordFormat::Vp8WebM));
    assert_eq!(RecordFormat::of_name("VP8/WebM"), Some(RecordFormat::Vp8WebM));
    assert_eq!(RecordFormat::of_name("ogg"), None);
}

#[test]
fn ascii_case_comparison() {
    assert!(eq_ignore_ascii_case("H264/MP4", "h264/mp4"));
    assert!(!eq_ignore_ascii_case("png", "pngs"));
    assert!(!eq_ignore_ascii_case("png", "pn"));
}

#[test]
fn extensions_and_media_types() {
    assert_eq!(SnapshotFormat::JPEG.extension(), "jpg");
    assert_eq!(SnapshotFormat::PNG.extension(), "png");
    assert_eq!(SnapshotFormat::JPEG.media_type(), "image/jpeg");
    assert_eq!(SnapshotFormat::PNG.media_type(), "image/png");
    assert_eq!(RecordFormat::H264Mp4.extension(), "mp4");
    assert_eq!(RecordFormat::Vp8WebM.extension(), "webm");
}

#[test]
fn file_names_pad_every_field() {
    let when = Timestamp { year: 987, month: 1, day: 2, hour: 3, minute: 4, second: 5 };
    assert_eq!(
        snapshot_file_path("/p", SnapshotFormat::PNG, &when),
        "/p/Snapshot 0987-01-02 03:04:05.png"
    );
    assert_eq!(
        recording_file_path("/v", RecordFormat::Vp8WebM, &when),
        "/v/Recording 0987-01-02 03:04:05.webm"
    );
}

#[test]
fn timestamp_rejects_out_of_range_fields() {
    assert!(Timestamp::from_parts(2019, 8, 24, 14, 30, 5).is_some());
    assert!(Timestamp::from_parts(-1, 8, 24, 14, 30, 5).is_none());
    assert!(Timestamp::from_parts(10000, 8, 24, 14, 30, 5).is_none());
    assert!(Timestamp::from_parts(2019, 0, 24, 14, 30, 5).is_none());
    assert!(Timestamp::from_parts(2019, 13, 24, 14, 30, 5).is_none());
    assert!(Timestamp::from_parts(2019, 8, 0, 14, 30, 5).is_none());
    assert!(Timestamp::from_parts(2019, 8, 32, 14, 30, 5).is_none());
    assert!(Timestamp::from_parts(2019, 8, 24, 24, 30, 5).is_none());
    assert!(Timestamp::from_parts(2019, 8, 24, 14, 60, 5).is_none());
    assert!(Timestamp::from_parts(2019, 8, 24, 14, 30, 60).is_none());
}

#[test]
fn clock_reports_a_live_calendar_date() {
    let t = now().expect("wall clock out of representable range");
    assert!(t.year >= 2020, "clock reports year {}", t.year);
    assert!((1..=12).contains(&t.month));
    assert!((1..=31).contains(&t.day));
    assert!(t.hour <= 23);
    assert!(t.minute <= 59);
    assert!(t.second <= 59);
}

#[test]
fn decimal_rendering_is_unpadded() {
    assert_eq!(decimal_string(0), "0");
    assert_eq!(decimal_string(9), "9");
    assert_eq!(decimal_string(10), "10");
    assert_eq!(decimal_string(15), "15");
}

#[test]
fn application_name_is_fixed() {
    assert_eq!(application_name(), "com.github.gtk-rs.cameraview");
}
