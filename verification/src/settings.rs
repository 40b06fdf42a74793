//! The persisted configuration: output directories, output formats and the
//! countdown length.

use vstd::prelude::*;

use crate::formats::RecordFormat;
use crate::formats::SnapshotFormat;

verus! {

/// Largest accepted countdown length, in seconds.
pub const MAX_TIMER_LENGTH: u32 = 15;

/// Countdown length used when nothing is configured, in seconds.
pub const DEFAULT_TIMER_LENGTH: u32 = 3;

/// The application's configuration record.
#[derive(Debug, Clone, PartialEq, Eq)]
pub struct Settings {
    /// Directory snapshots are written into.
    pub snapshot_directory: String,
    /// Format snapshots are saved in.
    pub snapshot_format: SnapshotFormat,
    /// Countdown length in seconds, 0 ..= [`MAX_TIMER_LENGTH`].
    pub timer_length: u32,
    /// Directory recordings are written into.
    pub record_directory: String,
    /// Format recordings are saved in.
    pub record_format: RecordFormat,
}

/// Mathematical image of [`Settings`].
pub struct SettingsModel {
    pub snapshot_directory: Seq<char>,
    pub snapshot_format: SnapshotFormat,
    pub timer_length: u32,
    pub record_directory: Seq<char>,
    pub record_format: RecordFormat,
}

impl View for Settings {
    type V = SettingsModel;

    open spec fn view(&self) -> SettingsModel {
        SettingsModel {
            snapshot_directory: self.snapshot_directory@,
            snapshot_format: self.snapshot_format,
            timer_length: self.timer_length,
            record_directory: self.record_directory@,
            record_format: self.record_format,
        }
    }
}

impl SettingsModel {
    /// The timer length is within the accepted range.
    pub open spec fn wf(self) -> bool {
        self.timer_length <= MAX_TIMER_LENGTH
    }
}

impl Settings {
    /// Builds a configuration record, clamping the timer length into its
    /// accepted range.
    pub fn new(
        snapshot_directory: String,
        snapshot_format: SnapshotFormat,
        timer_length: u32,
        record_directory: String,
        record_format: RecordFormat,
    ) -> (s: Settings)
        ensures
            s@.wf(),
            s@.snapshot_directory == snapshot_directory@,
            s@.snapshot_format == snapshot_format,
            s@.timer_length == if timer_length > MAX_TIMER_LENGTH {
                MAX_TIMER_LENGTH
            } else {
                timer_length
            },
            s@.record_directory == record_directory@,
            s@.record_format == record_format,
    {
        let clamped = if timer_length > MAX_TIMER_LENGTH {
            MAX_TIMER_LENGTH
        } else {
            timer_length
        };
        Settings {
            snapshot_directory,
            snapshot_format,
            timer_length: clamped,
            record_directory,
            record_format,
        }
    }
}

impl Default for Settings {
    /// The built-in defaults. The directories fall back to the current
    /// directory; the surrounding application substitutes the platform's
    /// pictures and videos directories where it knows them.
    fn default() -> (s: Settings)
        ensures
            s@.wf(),
            s@.snapshot_directory == "."@,
            s@.snapshot_format == SnapshotFormat::JPEG,
            s@.timer_length == DEFAULT_TIMER_LENGTH,
            s@.record_directory == "."@,
            s@.record_format == RecordFormat::H264Mp4,
    {
        Settings {
            snapshot_directory: String::from_str("."),
            snapshot_format: SnapshotFormat::JPEG,
            timer_length: DEFAULT_TIMER_LENGTH,
            record_directory: String::from_str("."),
            record_format: RecordFormat::H264Mp4,
        }
    }
}

} // verus!
