//! The persisted form of [`Settings`]: a small key-value text document,
//! written and read here, carried to and from disk by the surrounding
//! application. Both directions are verified, and parsing inverts emitting.
//!
//! The document holds one line per field, in a fixed order:
//!
//! ```text
//! snapshot_directory = "..."
//! snapshot_format = "JPEG"
//! timer_length = 3
//! record_directory = "..."
//! record_format = "H264Mp4"
//! ```
//!
//! A document that deviates from this shape in any way is rejected; the
//! caller then falls back to the defaults.

use vstd::prelude::*;

use crate::formats::RecordFormat;
use crate::formats::SnapshotFormat;
use crate::settings::MAX_TIMER_LENGTH;
use crate::settings::Settings;
use crate::settings::SettingsModel;
use crate::text::decimal_seq;
use crate::text::decimal_string;
use crate::text::digit_char;

verus! {

/// Strips `p` off the front of `s`.
pub open spec fn parse_prefix(s: Seq<char>, p: Seq<char>) -> Option<Seq<char>> {
    if p.len() <= s.len() && s.subrange(0, p.len() as int) == p {
        Some(s.subrange(p.len() as int, s.len() as int))
    } else {
        None
    }
}

/// Index of the first occurrence of `c` in `s`.
pub open spec fn find_char(s: Seq<char>, c: char) -> Option<int>
    decreases s.len(),
{
    if s.len() == 0 {
        None
    } else if s[0] == c {
        Some(0)
    } else {
        match find_char(s.subrange(1, s.len() as int), c) {
            Some(i) => Some(i + 1),
            None => None,
        }
    }
}

/// Takes a quoted value's content up to its closing quote, which must be
/// followed by a line break: the remainder starts after that break.
pub open spec fn parse_string_line(s: Seq<char>) -> Option<(Seq<char>, Seq<char>)> {
    match find_char(s, '"') {
        Some(i) => if i + 1 < s.len() && s[i + 1] == '\n' {
            Some((s.subrange(0, i), s.subrange(i + 2, s.len() as int)))
        } else {
            None
        },
        None => None,
    }
}

/// Numeric value of a decimal digit; ten for anything else.
pub open spec fn digit_val(c: char) -> nat {
    if c == '0' {
        0
    } else if c == '1' {
        1
    } else if c == '2' {
        2
    } else if c == '3' {
        3
    } else if c == '4' {
        4
    } else if c == '5' {
        5
    } else if c == '6' {
        6
    } else if c == '7' {
        7
    } else if c == '8' {
        8
    } else if c == '9' {
        9
    } else {
        10
    }
}

pub open spec fn all_digits(s: Seq<char>) -> bool {
    forall|i: int| 0 <= i < s.len() ==> digit_val(s[i]) < 10
}

/// Value of a decimal numeral.
pub open spec fn digits_val(s: Seq<char>) -> nat
    decreases s.len(),
{
    if s.len() == 0 {
        0
    } else {
        digits_val(s.drop_last()) * 10 + digit_val(s.last())
    }
}

/// Takes a line holding one or two decimal digits up to a line break, worth
/// at most [`MAX_TIMER_LENGTH`]: the remainder starts after the break.
pub open spec fn parse_number_line(s: Seq<char>) -> Option<(u32, Seq<char>)> {
    match find_char(s, '\n') {
        Some(i) => if 1 <= i <= 2 && all_digits(s.subrange(0, i)) && digits_val(
            s.subrange(0, i),
        ) <= MAX_TIMER_LENGTH {
            Some((digits_val(s.subrange(0, i)) as u32, s.subrange(i + 1, s.len() as int)))
        } else {
            None
        },
        None => None,
    }
}

/// The snapshot format a stored variant name denotes.
pub open spec fn spec_snapshot_format_of_variant(s: Seq<char>) -> Option<SnapshotFormat> {
    if s == "JPEG"@ {
        Some(SnapshotFormat::JPEG)
    } else if s == "PNG"@ {
        Some(SnapshotFormat::PNG)
    } else {
        None
    }
}

/// The recording format a stored variant name denotes.
pub open spec fn spec_record_format_of_variant(s: Seq<char>) -> Option<RecordFormat> {
    if s == "H264Mp4"@ {
        Some(RecordFormat::H264Mp4)
    } else if s == "Vp8WebM"@ {
        Some(RecordFormat::Vp8WebM)
    } else {
        None
    }
}

/// The document emitted for a configuration record.
pub open spec fn spec_emit(m: SettingsModel) -> Seq<char> {
    "snapshot_directory = \""@ + m.snapshot_directory + "\"\n"@ + "snapshot_format = \""@
        + m.snapshot_format.spec_variant_name() + "\"\n"@ + "timer_length = "@ + decimal_seq(
        m.timer_length as nat,
    ) + "\n"@ + "record_directory = \""@ + m.record_directory + "\"\n"@ + "record_format = \""@
        + m.record_format.spec_variant_name() + "\"\n"@
}

/// The configuration record a document denotes, if it has exactly the
/// emitted shape.
pub open spec fn spec_parse(t: Seq<char>) -> Option<SettingsModel> {
    match parse_prefix(t, "snapshot_directory = \""@) {
        Some(t1) => match parse_string_line(t1) {
            Some((snapshot_directory, t2)) => match parse_prefix(t2, "snapshot_format = \""@) {
                Some(t3) => match parse_string_line(t3) {
                    Some((sfmt_name, t4)) => match spec_snapshot_format_of_variant(sfmt_name) {
                        Some(snapshot_format) => match parse_prefix(t4, "timer_length = "@) {
                            Some(t5) => match parse_number_line(t5) {
                                Some((timer_length, t6)) => match parse_prefix(
                                    t6,
                                    "record_directory = \""@,
                                ) {
                                    Some(t7) => match parse_string_line(t7) {
                                        Some((record_directory, t8)) => match parse_prefix(
                                            t8,
                                            "record_format = \""@,
                                        ) {
                                            Some(t9) => match parse_string_line(t9) {
                                                Some((rfmt_name, t10)) => match
                                                    spec_record_format_of_variant(rfmt_name) {
                                                    Some(record_format) => if t10.len() == 0 {
                                                        Some(
                                                            SettingsModel {
                                                                snapshot_directory,
                                                                snapshot_format,
                                                                timer_length,
                                                                record_directory,
                                                                record_format,
                                                            },
                                                        )
                                                    } else {
                                                        None
                                                    },
                                                    None => None,
                                                },
                                                None => None,
                                            },
                                            None => None,
                                        },
                                        None => None,
                                    },
                                    None => None,
                                },
                                None => None,
                            },
                            None => None,
                        },
                        None => None,
                    },
                    None => None,
                },
                None => None,
            },
            None => None,
        },
        None => None,
    }
}

proof fn lemma_find_char_found(s: Seq<char>, c: char, i: int)
    requires
        0 <= i < s.len(),
        s[i] == c,
        forall|j: int| 0 <= j < i ==> s[j] != c,
    ensures
        find_char(s, c) == Some(i),
    decreases i,
{
    if i > 0 {
        let t = s.subrange(1, s.len() as int);
        assert(forall|j: int| 0 <= j < i - 1 ==> t[j] != c);
        assert(t[i - 1] == c);
        lemma_find_char_found(t, c, i - 1);
    }
}

proof fn lemma_find_char_none(s: Seq<char>, c: char)
    requires
        forall|j: int| 0 <= j < s.len() ==> s[j] != c,
    ensures
        find_char(s, c) is None,
    decreases s.len(),
{
    if s.len() > 0 {
        lemma_find_char_none(s.subrange(1, s.len() as int), c);
    }
}

fn find_char_exec(s: &str, c: char) -> (r: Option<usize>)
    ensures
        match r {
            Some(i) => i < s@.len() && find_char(s@, c) == Some(i as int),
            None => find_char(s@, c) is None,
        },
{
    let n = s.unicode_len();
    let mut i: usize = 0;
    while i < n
        invariant
            i <= n,
            n == s@.len(),
            forall|j: int| 0 <= j < i ==> s@[j] != c,
        decreases n - i,
    {
        if s.get_char(i) == c {
            proof {
                lemma_find_char_found(s@, c, i as int);
            }
            return Some(i);
        }
        i += 1;
    }
    proof {
        lemma_find_char_none(s@, c);
    }
    None
}

fn strip_prefix<'a>(s: &'a str, p: &str) -> (r: Option<&'a str>)
    ensures
        match r {
            Some(rest) => parse_prefix(s@, p@) == Some(rest@),
            None => parse_prefix(s@, p@) is None,
        },
{
    let n = s.unicode_len();
    let m = p.unicode_len();
    if m > n {
        return None;
    }
    let mut i: usize = 0;
    while i < m
        invariant
            i <= m,
            m == p@.len(),
            n == s@.len(),
            m <= n,
            forall|j: int| 0 <= j < i ==> s@[j] == p@[j],
        decreases m - i,
    {
        if s.get_char(i) != p.get_char(i) {
            proof {
                assert(s@.subrange(0, m as int)[i as int] == s@[i as int]);
            }
            return None;
        }
        i += 1;
    }
    proof {
        assert(s@.subrange(0, m as int) =~= p@);
    }
    Some(s.substring_char(m, n))
}

fn take_string_line<'a>(s: &'a str) -> (r: Option<(String, &'a str)>)
    ensures
        match r {
            Some(pair) => parse_string_line(s@) == Some((pair.0@, pair.1@)),
            None => parse_string_line(s@) is None,
        },
{
    let n = s.unicode_len();
    let qi = match find_char_exec(s, '"') {
        Some(i) => i,
        None => {
            return None;
        },
    };
    if qi + 1 >= n {
        return None;
    }
    if s.get_char(qi + 1) != '\n' {
        return None;
    }
    let content = String::from_str(s.substring_char(0, qi));
    let rest = s.substring_char(qi + 2, n);
    Some((content, rest))
}

fn digit_val_exec(c: char) -> (r: u32)
    ensures
        r == digit_val(c),
{
    if c == '0' {
        0
    } else if c == '1' {
        1
    } else if c == '2' {
        2
    } else if c == '3' {
        3
    } else if c == '4' {
        4
    } else if c == '5' {
        5
    } else if c == '6' {
        6
    } else if c == '7' {
        7
    } else if c == '8' {
        8
    } else if c == '9' {
        9
    } else {
        10
    }
}

fn take_number_line<'a>(s: &'a str) -> (r: Option<(u32, &'a str)>)
    ensures
        match r {
            Some(pair) => parse_number_line(s@) == Some((pair.0, pair.1@)),
            None => parse_number_line(s@) is None,
        },
{
    let n = s.unicode_len();
    let ni = match find_char_exec(s, '\n') {
        Some(i) => i,
        None => {
            return None;
        },
    };
    if ni < 1 || ni > 2 {
        return None;
    }
    let ghost digits = s@.subrange(0, ni as int);
    let d0 = digit_val_exec(s.get_char(0));
    if d0 >= 10 {
        proof {
            assert(digits[0] == s@[0]);
        }
        return None;
    }
    let v: u32;
    if ni == 1 {
        v = d0;
        proof {
            assert(digits =~= seq![s@[0]]);
            assert(digits.drop_last() =~= Seq::<char>::empty());
            assert(digits_val(Seq::<char>::empty()) == 0);
            assert(digits_val(digits) == digit_val(s@[0]));
            assert(all_digits(digits));
        }
    } else {
        let d1 = digit_val_exec(s.get_char(1));
        if d1 >= 10 {
            proof {
                assert(digits[1] == s@[1]);
            }
            return None;
        }
        v = d0 * 10 + d1;
        proof {
            assert(digits =~= seq![s@[0], s@[1]]);
            assert(digits.drop_last() =~= seq![s@[0]]);
            assert(seq![s@[0]].drop_last() =~= Seq::<char>::empty());
            assert(digits_val(Seq::<char>::empty()) == 0);
            assert(digits_val(seq![s@[0]]) == digit_val(s@[0]));
            assert(digits_val(digits) == digit_val(s@[0]) * 10 + digit_val(s@[1]));
            assert(all_digits(digits));
        }
    }
    if v > MAX_TIMER_LENGTH {
        return None;
    }
    let rest = s.substring_char(ni + 1, n);
    Some((v, rest))
}

fn str_eq(a: &str, b: &str) -> (r: bool)
    ensures
        r == (a@ == b@),
{
    let n = a.unicode_len();
    let m = b.unicode_len();
    if n != m {
        return false;
    }
    let mut i: usize = 0;
    while i < n
        invariant
            i <= n,
            n == a@.len(),
            n == b@.len(),
            forall|j: int| 0 <= j < i ==> a@[j] == b@[j],
        decreases n - i,
    {
        if a.get_char(i) != b.get_char(i) {
            return false;
        }
        i += 1;
    }
    proof {
        assert(a@ =~= b@);
    }
    true
}

fn snapshot_format_of_variant(s: &str) -> (r: Option<SnapshotFormat>)
    ensures
        r == spec_snapshot_format_of_variant(s@),
{
    if str_eq(s, "JPEG") {
        Some(SnapshotFormat::JPEG)
    } else if str_eq(s, "PNG") {
        Some(SnapshotFormat::PNG)
    } else {
        None
    }
}

fn record_format_of_variant(s: &str) -> (r: Option<RecordFormat>)
    ensures
        r == spec_record_format_of_variant(s@),
{
    if str_eq(s, "H264Mp4") {
        Some(RecordFormat::H264Mp4)
    } else if str_eq(s, "Vp8WebM") {
        Some(RecordFormat::Vp8WebM)
    } else {
        None
    }
}

impl Settings {
    /// Renders the record as its persisted document.
    pub fn to_text(&self) -> (r: String)
        requires
            self@.wf(),
        ensures
            r@ == spec_emit(self@),
    {
        let mut r = String::from_str("snapshot_directory = \"");
        r.append(self.snapshot_directory.as_str());
        r.append("\"\n");
        r.append("snapshot_format = \"");
        r.append(self.snapshot_format.variant_name());
        r.append("\"\n");
        r.append("timer_length = ");
        let timer = decimal_string(self.timer_length);
        r.append(timer.as_str());
        r.append("\n");
        r.append("record_directory = \"");
        r.append(self.record_directory.as_str());
        r.append("\"\n");
        r.append("record_format = \"");
        r.append(self.record_format.variant_name());
        r.append("\"\n");
        proof {
            assert(r@ =~= spec_emit(self@));
        }
        r
    }

    /// Reads a persisted document back. `None` for anything that does not
    /// have exactly the emitted shape; the caller then falls back to the
    /// defaults.
    pub fn from_text(s: &str) -> (r: Option<Settings>)
        ensures
            match r {
                Some(st) => spec_parse(s@) == Some(st@) && st@.wf(),
                None => spec_parse(s@) is None,
            },
    {
        let t1 = match strip_prefix(s, "snapshot_directory = \"") {
            Some(x) => x,
            None => {
                return None;
            },
        };
        let (snapshot_directory, t2) = match take_string_line(t1) {
            Some(x) => x,
            None => {
                return None;
            },
        };
        let t3 = match strip_prefix(t2, "snapshot_format = \"") {
            Some(x) => x,
            None => {
                return None;
            },
        };
        let (sfmt_name, t4) = match take_string_line(t3) {
            Some(x) => x,
            None => {
                return None;
            },
        };
        let snapshot_format = match snapshot_format_of_variant(sfmt_name.as_str()) {
            Some(x) => x,
            None => {
                return None;
            },
        };
        let t5 = match strip_prefix(t4, "timer_length = ") {
            Some(x) => x,
            None => {
                return None;
            },
        };
        let (timer_length, t6) = match take_number_line(t5) {
            Some(x) => x,
            None => {
                return None;
            },
        };
        let t7 = match strip_prefix(t6, "record_directory = \"") {
            Some(x) => x,
            None => {
                return None;
            },
        };
        let (record_directory, t8) = match take_string_line(t7) {
            Some(x) => x,
            None => {
                return None;
            },
        };
        let t9 = match strip_prefix(t8, "record_format = \"") {
            Some(x) => x,
            None => {
                return None;
            },
        };
        let (rfmt_name, t10) = match take_string_line(t9) {
            Some(x) => x,
            None => {
                return None;
            },
        };
        let record_format = match record_format_of_variant(rfmt_name.as_str()) {
            Some(x) => x,
            None => {
                return None;
            },
        };
        if !t10.is_empty() {
            return None;
        }
        Some(
            Settings {
                snapshot_directory,
                snapshot_format,
                timer_length,
                record_directory,
                record_format,
            },
        )
    }
}

proof fn lemma_parse_prefix_of_concat(p: Seq<char>, rest: Seq<char>)
    ensures
        parse_prefix(p + rest, p) == Some(rest),
{
    assert((p + rest).subrange(0, p.len() as int) =~= p);
    assert((p + rest).subrange(p.len() as int, (p + rest).len() as int) =~= rest);
}

proof fn lemma_parse_string_line_of_concat(content: Seq<char>, rest: Seq<char>)
    requires
        forall|i: int| 0 <= i < content.len() ==> content[i] != '"',
    ensures
        parse_string_line(content + "\"\n"@ + rest) == Some((content, rest)),
{
    reveal_strlit("\"\n");
    let s = content + "\"\n"@ + rest;
    let cl = content.len() as int;
    assert(s[cl] == '"');
    assert(forall|j: int| 0 <= j < cl ==> s[j] != '"');
    lemma_find_char_found(s, '"', cl);
    assert(s[cl + 1] == '\n');
    assert(s.subrange(0, cl) =~= content);
    assert(s.subrange(cl + 2, s.len() as int) =~= rest);
}

proof fn lemma_parse_number_line_of_concat(v: u32, rest: Seq<char>)
    requires
        v <= MAX_TIMER_LENGTH,
    ensures
        parse_number_line(decimal_seq(v as nat) + "\n"@ + rest) == Some((v, rest)),
{
    reveal_strlit("\n");
    let ds = decimal_seq(v as nat);
    let s = ds + "\n"@ + rest;
    let dl = ds.len() as int;
    assert(digits_val(Seq::<char>::empty()) == 0);
    if v < 10 {
        assert(ds =~= seq![digit_char(v as nat)]);
        assert(ds.drop_last() =~= Seq::<char>::empty());
        assert(digits_val(ds) == digit_val(digit_char(v as nat)));
    } else {
        assert(ds =~= seq![digit_char((v as nat) / 10), digit_char((v as nat) % 10)]);
        assert(ds.drop_last() =~= seq![digit_char((v as nat) / 10)]);
        assert(seq![digit_char((v as nat) / 10)].drop_last() =~= Seq::<char>::empty());
        assert(digits_val(seq![digit_char((v as nat) / 10)]) == digit_val(
            digit_char((v as nat) / 10),
        ));
        assert(digits_val(ds) == digit_val(digit_char((v as nat) / 10)) * 10 + digit_val(
            digit_char((v as nat) % 10),
        ));
        assert(digits_val(ds) == v);
    }
    assert(s[dl] == '\n');
    assert(forall|j: int| 0 <= j < dl ==> s[j] != '\n');
    lemma_find_char_found(s, '\n', dl);
    assert(s.subrange(0, dl) =~= ds);
    assert(all_digits(ds));
    assert(s.subrange(dl + 1, s.len() as int) =~= rest);
}

/// Round trip: a well-formed configuration record, saved and loaded again,
/// comes back identical — for any directories, formats and timer length,
/// provided the directory paths hold no quote character, which the quoted
/// document form cannot carry.
#[verifier::rlimit(100)]
pub proof fn lemma_settings_round_trip(m: SettingsModel)
    requires
        m.wf(),
        forall|i: int| 0 <= i < m.snapshot_directory.len() ==> m.snapshot_directory[i] != '"',
        forall|i: int| 0 <= i < m.record_directory.len() ==> m.record_directory[i] != '"',
    ensures
        spec_parse(spec_emit(m)) == Some(m),
{
    reveal_strlit("JPEG");
    reveal_strlit("PNG");
    reveal_strlit("H264Mp4");
    reveal_strlit("Vp8WebM");
    let sname = m.snapshot_format.spec_variant_name();
    let rname = m.record_format.spec_variant_name();
    let rest5 = Seq::<char>::empty();
    let t9 = rname + "\"\n"@ + rest5;
    let rest4 = "record_format = \""@ + t9;
    let t7 = m.record_directory + "\"\n"@ + rest4;
    let rest3 = "record_directory = \""@ + t7;
    let t5 = decimal_seq(m.timer_length as nat) + "\n"@ + rest3;
    let rest2 = "timer_length = "@ + t5;
    let t3 = sname + "\"\n"@ + rest2;
    let rest1 = "snapshot_format = \""@ + t3;
    let t1 = m.snapshot_directory + "\"\n"@ + rest1;
    let t = spec_emit(m);
    assert(t =~= "snapshot_directory = \""@ + t1);
    lemma_parse_prefix_of_concat("snapshot_directory = \""@, t1);
    lemma_parse_string_line_of_concat(m.snapshot_directory, rest1);
    lemma_parse_prefix_of_concat("snapshot_format = \""@, t3);
    assert(forall|i: int| 0 <= i < sname.len() ==> sname[i] != '"');
    lemma_parse_string_line_of_concat(sname, rest2);
    assert(spec_snapshot_format_of_variant(sname) == Some(m.snapshot_format)) by {
        assert(("JPEG"@).len() == 4);
        assert(("PNG"@).len() == 3);
    }
    lemma_parse_prefix_of_concat("timer_length = "@, t5);
    lemma_parse_number_line_of_concat(m.timer_length, rest3);
    lemma_parse_prefix_of_concat("record_directory = \""@, t7);
    lemma_parse_string_line_of_concat(m.record_directory, rest4);
    lemma_parse_prefix_of_concat("record_format = \""@, t9);
    assert(forall|i: int| 0 <= i < rname.len() ==> rname[i] != '"');
    lemma_parse_string_line_of_concat(rname, rest5);
    assert(spec_record_format_of_variant(rname) == Some(m.record_format)) by {
        assert(("H264Mp4"@)[0] == 'H');
        assert(("Vp8WebM"@)[0] == 'V');
    }
    assert(spec_parse(t) == Some(m));
}

} // verus!
