//! Names and paths of the files the application writes: one media file per
//! recording session, one image file per snapshot.

use vstd::prelude::*;

use crate::clock::Timestamp;
use crate::formats::RecordFormat;
use crate::formats::SnapshotFormat;

verus! {

/// `Snapshot <YYYY-MM-DD HH:MM:SS>.<ext>`
pub open spec fn spec_snapshot_file_name(format: SnapshotFormat, ts: Timestamp) -> Seq<char> {
    "Snapshot "@ + ts.spec_text() + "."@ + format.spec_extension()
}

/// `Recording <YYYY-MM-DD HH:MM:SS>.<ext>`
pub open spec fn spec_recording_file_name(format: RecordFormat, ts: Timestamp) -> Seq<char> {
    "Recording "@ + ts.spec_text() + "."@ + format.spec_extension()
}

/// A file name under a directory, joined with `/`.
pub open spec fn spec_joined(dir: Seq<char>, name: Seq<char>) -> Seq<char> {
    dir + "/"@ + name
}

pub fn snapshot_file_name(format: SnapshotFormat, ts: &Timestamp) -> (r: String)
    requires
        ts.wf(),
    ensures
        r@ == spec_snapshot_file_name(format, *ts),
{
    let mut r = String::from_str("Snapshot ");
    let t = ts.text();
    r.append(t.as_str());
    r.append(".");
    r.append(format.extension());
    proof {
        assert(r@ =~= spec_snapshot_file_name(format, *ts));
    }
    r
}

pub fn recording_file_name(format: RecordFormat, ts: &Timestamp) -> (r: String)
    requires
        ts.wf(),
    ensures
        r@ == spec_recording_file_name(format, *ts),
{
    let mut r = String::from_str("Recording ");
    let t = ts.text();
    r.append(t.as_str());
    r.append(".");
    r.append(format.extension());
    proof {
        assert(r@ =~= spec_recording_file_name(format, *ts));
    }
    r
}

/// The full path of a snapshot written under `dir`.
pub fn snapshot_file_path(dir: &str, format: SnapshotFormat, ts: &Timestamp) -> (r: String)
    requires
        ts.wf(),
    ensures
        r@ == spec_joined(dir@, spec_snapshot_file_name(format, *ts)),
{
    let mut r = String::from_str(dir);
    r.append("/");
    let name = snapshot_file_name(format, ts);
    r.append(name.as_str());
    proof {
        assert(r@ =~= spec_joined(dir@, spec_snapshot_file_name(format, *ts)));
    }
    r
}

/// The full path of a recording written under `dir`.
pub fn recording_file_path(dir: &str, format: RecordFormat, ts: &Timestamp) -> (r: String)
    requires
        ts.wf(),
    ensures
        r@ == spec_joined(dir@, spec_recording_file_name(format, *ts)),
{
    let mut r = String::from_str(dir);
    r.append("/");
    let name = recording_file_name(format, ts);
    r.append(name.as_str());
    proof {
        assert(r@ =~= spec_joined(dir@, spec_recording_file_name(format, *ts)));
    }
    r
}

} // verus!
