//! The two snapshot formats and the two recording formats, with the exact
//! strings the rest of the controller derives from them: file extensions,
//! image media types, sub-graph descriptions, and the names under which the
//! formats appear in the settings file and in the UI.

use vstd::prelude::*;

verus! {

/// Output format for still snapshots.
#[derive(Copy, Clone, Debug, PartialEq, Eq, Structural)]
pub enum SnapshotFormat {
    JPEG,
    PNG,
}

/// Container/codec pair for recordings.
#[derive(Copy, Clone, Debug, PartialEq, Eq, Structural)]
pub enum RecordFormat {
    H264Mp4,
    Vp8WebM,
}

/// ASCII lower-casing of one character; everything outside `A`..`Z` is kept.
pub open spec fn lower_char(c: char) -> char {
    match c {
        'A' => 'a',
        'B' => 'b',
        'C' => 'c',
        'D' => 'd',
        'E' => 'e',
        'F' => 'f',
        'G' => 'g',
        'H' => 'h',
        'I' => 'i',
        'J' => 'j',
        'K' => 'k',
        'L' => 'l',
        'M' => 'm',
        'N' => 'n',
        'O' => 'o',
        'P' => 'p',
        'Q' => 'q',
        'R' => 'r',
        'S' => 's',
        'T' => 't',
        'U' => 'u',
        'V' => 'v',
        'W' => 'w',
        'X' => 'x',
        'Y' => 'y',
        'Z' => 'z',
        _ => c,
    }
}

/// ASCII lower-casing of a character sequence.
pub open spec fn lower(s: Seq<char>) -> Seq<char> {
    s.map_values(|c: char| lower_char(c))
}

fn lower_char_exec(c: char) -> (r: char)
    ensures
        r == lower_char(c),
{
    match c {
        'A' => 'a',
        'B' => 'b',
        'C' => 'c',
        'D' => 'd',
        'E' => 'e',
        'F' => 'f',
        'G' => 'g',
        'H' => 'h',
        'I' => 'i',
        'J' => 'j',
        'K' => 'k',
        'L' => 'l',
        'M' => 'm',
        'N' => 'n',
        'O' => 'o',
        'P' => 'p',
        'Q' => 'q',
        'R' => 'r',
        'S' => 's',
        'T' => 't',
        'U' => 'u',
        'V' => 'v',
        'W' => 'w',
        'X' => 'x',
        'Y' => 'y',
        'Z' => 'z',
        _ => c,
    }
}

/// Whether two strings are equal up to ASCII case.
pub fn eq_ignore_ascii_case(s: &str, t: &str) -> (r: bool)
    ensures
        r == (lower(s@) == lower(t@)),
{
    let n = s.unicode_len();
    let m = t.unicode_len();
    if n != m {
        proof {
            assert(lower(s@).len() == s@.len());
            assert(lower(t@).len() == t@.len());
        }
        return false;
    }
    let mut i: usize = 0;
    while i < n
        invariant
            n == s@.len(),
            n == t@.len(),
            i <= n,
            forall|j: int| 0 <= j < i ==> lower_char(s@[j]) == lower_char(t@[j]),
        decreases n - i,
    {
        let a = lower_char_exec(s.get_char(i));
        let b = lower_char_exec(t.get_char(i));
        if a != b {
            proof {
                assert(lower(s@)[i as int] != lower(t@)[i as int]);
            }
            return false;
        }
        i += 1;
    }
    proof {
        assert(lower(s@) =~= lower(t@));
    }
    true
}

impl SnapshotFormat {
    /// File extension of snapshot files in this format.
    pub open spec fn spec_extension(self) -> Seq<char> {
        match self {
            SnapshotFormat::JPEG => "jpg"@,
            SnapshotFormat::PNG => "png"@,
        }
    }

    pub fn extension(&self) -> (r: &'static str)
        ensures
            r@ == self.spec_extension(),
    {
        match self {
            SnapshotFormat::JPEG => "jpg",
            SnapshotFormat::PNG => "png",
        }
    }

    /// Media type handed to the engine's sample converter.
    pub open spec fn spec_media_type(self) -> Seq<char> {
        match self {
            SnapshotFormat::JPEG => "image/jpeg"@,
            SnapshotFormat::PNG => "image/png"@,
        }
    }

    pub fn media_type(&self) -> (r: &'static str)
        ensures
            r@ == self.spec_media_type(),
    {
        match self {
            SnapshotFormat::JPEG => "image/jpeg",
            SnapshotFormat::PNG => "image/png",
        }
    }

    /// Name of the variant as stored in the settings file.
    pub open spec fn spec_variant_name(self) -> Seq<char> {
        match self {
            SnapshotFormat::JPEG => "JPEG"@,
            SnapshotFormat::PNG => "PNG"@,
        }
    }

    pub fn variant_name(&self) -> (r: &'static str)
        ensures
            r@ == self.spec_variant_name(),
    {
        match self {
            SnapshotFormat::JPEG => "JPEG",
            SnapshotFormat::PNG => "PNG",
        }
    }

    /// The format a user-facing name denotes, up to ASCII case; `None` for
    /// anything that is not one of the two recognized names.
    pub open spec fn spec_of_name(s: Seq<char>) -> Option<SnapshotFormat> {
        if lower(s) == "jpeg"@ {
            Some(SnapshotFormat::JPEG)
        } else if lower(s) == "png"@ {
            Some(SnapshotFormat::PNG)
        } else {
            None
        }
    }

    pub fn of_name(s: &str) -> (r: Option<SnapshotFormat>)
        ensures
            r == Self::spec_of_name(s@),
    {
        proof {
            reveal_strlit("jpeg");
            reveal_strlit("png");
            assert(lower("jpeg"@) =~= "jpeg"@);
            assert(lower("png"@) =~= "png"@);
        }
        if eq_ignore_ascii_case(s, "jpeg") {
            Some(SnapshotFormat::JPEG)
        } else if eq_ignore_ascii_case(s, "png") {
            Some(SnapshotFormat::PNG)
        } else {
            None
        }
    }
}

impl Default for SnapshotFormat {
    /// The default snapshot format.
    fn default() -> (r: Self)
        ensures
            r == SnapshotFormat::JPEG,
    {
        SnapshotFormat::JPEG
    }
}

impl RecordFormat {
    /// File extension of recording files in this format.
    pub open spec fn spec_extension(self) -> Seq<char> {
        match self {
            RecordFormat::H264Mp4 => "mp4"@,
            RecordFormat::Vp8WebM => "webm"@,
        }
    }

    pub fn extension(&self) -> (r: &'static str)
        ensures
            r@ == self.spec_extension(),
    {
        match self {
            RecordFormat::H264Mp4 => "mp4",
            RecordFormat::Vp8WebM => "webm",
        }
    }

    /// Textual description of the recording sub-graph (encoder, muxer and
    /// file writer) that the engine builds for this format.
    pub open spec fn spec_bin_description(self) -> Seq<char> {
        match self {
            RecordFormat::H264Mp4 => "queue ! videoconvert ! x264enc tune=zerolatency ! video/x-h264,profile=baseline ! mp4mux ! filesink name=sink"@,
            RecordFormat::Vp8WebM => "queue ! videoconvert ! vp8enc deadline=1 ! webmmux ! filesink name=sink"@,
        }
    }

    pub fn bin_description(&self) -> (r: &'static str)
        ensures
            r@ == self.spec_bin_description(),
    {
        match self {
            RecordFormat::H264Mp4 => "queue ! videoconvert ! x264enc tune=zerolatency ! video/x-h264,profile=baseline ! mp4mux ! filesink name=sink",
            RecordFormat::Vp8WebM => "queue ! videoconvert ! vp8enc deadline=1 ! webmmux ! filesink name=sink",
        }
    }

    /// Name of the variant as stored in the settings file.
    pub open spec fn spec_variant_name(self) -> Seq<char> {
        match self {
            RecordFormat::H264Mp4 => "H264Mp4"@,
            RecordFormat::Vp8WebM => "Vp8WebM"@,
        }
    }

    pub fn variant_name(&self) -> (r: &'static str)
        ensures
            r@ == self.spec_variant_name(),
    {
        match self {
            RecordFormat::H264Mp4 => "H264Mp4",
            RecordFormat::Vp8WebM => "Vp8WebM",
        }
    }

    /// The format a user-facing name denotes, up to ASCII case; `None` for
    /// anything that is not one of the two recognized names.
    pub open spec fn spec_of_name(s: Seq<char>) -> Option<RecordFormat> {
        if lower(s) == "h264/mp4"@ {
            Some(RecordFormat::H264Mp4)
        } else if lower(s) == "vp8/webm"@ {
            Some(RecordFormat::Vp8WebM)
        } else {
            None
        }
    }

    pub fn of_name(s: &str) -> (r: Option<RecordFormat>)
        ensures
            r == Self::spec_of_name(s@),
    {
        proof {
            reveal_strlit("h264/mp4");
            reveal_strlit("vp8/webm");
            assert(lower("h264/mp4"@) =~= "h264/mp4"@);
            assert(lower("vp8/webm"@) =~= "vp8/webm"@);
        }
        if eq_ignore_ascii_case(s, "h264/mp4") {
            Some(RecordFormat::H264Mp4)
        } else if eq_ignore_ascii_case(s, "vp8/webm") {
            Some(RecordFormat::Vp8WebM)
        } else {
            None
        }
    }
}

impl Default for RecordFormat {
    /// The default recording format.
    fn default() -> (r: Self)
        ensures
            r == RecordFormat::H264Mp4,
    {
        RecordFormat::H264Mp4
    }
}

} // verus!
