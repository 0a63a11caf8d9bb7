//! The tag decoder: one bracketed header line becomes a typed tag or a
//! typed, recoverable error.
//!
//! A line must begin with `[` and end with `]`, and the enclosed text must
//! hold whitespace to split on: it splits on its first whitespace run into
//! a key and a raw value, and surrounding quotes are stripped from the
//! value.  The key selects one of the known
//! tag kinds; date, time and rating keys convert their value further, and
//! a value that fails its conversion is reported as an error for that line
//! alone, never as a fault of the whole parse.

use vstd::prelude::*;

use crate::calendar::{
    chrono_parse_date, chrono_parse_time, chrono_parse_time_tz, spec_chrono_date, spec_chrono_time,
    spec_chrono_time_tz, Date, Time,
};
use crate::chars::{find_ws, skip_ws, spec_find_ws, spec_skip_ws, str_eq};
use crate::numbers::{parse_i16, parse_u16, spec_parse_i16, spec_parse_u16};

verus! {

/// Why a line could not become a [`Tag`].
#[derive(Debug, Hash, PartialEq, Eq)]
pub enum TagError {
    /// The line does not begin with `[`.
    NoOpeningSquareBracket,
    /// The line begins with `[` but does not end with `]`.
    NoClosingSquareBracket,
    /// The bracket-stripped text holds no whitespace, so the line lacks
    /// the key/value structure altogether.
    NoKeyValueSeparator,
    /// The key is not one of the known tag keys; carries the key and the
    /// quote-stripped raw value.
    UnknownTag(String, String),
    /// The key is known but its value failed the key's typed conversion;
    /// carries the key and the quote-stripped raw value.
    InvalidValue(String, String),
}

/// A decoded PGN header tag: a closed set of known keys, each with a
/// semantically typed payload.
#[derive(Debug, Hash, PartialEq, Eq)]
pub enum Tag {
    Event(String),
    Site(String),
    Date(Date),
    Round(String),
    White(String),
    Black(String),
    Result(String),
    UTCDate(Date),
    Eco(String),
    WhiteElo(u16),
    BlackElo(u16),
    Annotator(String),
    WhiteRatingDiff(i16),
    BlackRatingDiff(i16),
    Variant(String),
    TimeControl(String),
    Opening(String),
    Termination(String),
    EndTime(Time),
    UTCTime(Time),
}

/// The mathematical value of a [`TagError`].
pub enum TagErrorView {
    NoOpeningSquareBracket,
    NoClosingSquareBracket,
    NoKeyValueSeparator,
    UnknownTag(Seq<char>, Seq<char>),
    InvalidValue(Seq<char>, Seq<char>),
}

/// The mathematical value of a [`Tag`]: text payloads as character
/// sequences, dates and times as integer triples, ratings as integers.
pub enum TagView {
    Event(Seq<char>),
    Site(Seq<char>),
    Date((int, int, int)),
    Round(Seq<char>),
    White(Seq<char>),
    Black(Seq<char>),
    Result(Seq<char>),
    UTCDate((int, int, int)),
    Eco(Seq<char>),
    WhiteElo(int),
    BlackElo(int),
    Annotator(Seq<char>),
    WhiteRatingDiff(int),
    BlackRatingDiff(int),
    Variant(Seq<char>),
    TimeControl(Seq<char>),
    Opening(Seq<char>),
    Termination(Seq<char>),
    EndTime((int, int, int)),
    UTCTime((int, int, int)),
}

impl View for TagError {
    type V = TagErrorView;

    open spec fn view(&self) -> TagErrorView {
        match self {
            TagError::NoOpeningSquareBracket => TagErrorView::NoOpeningSquareBracket,
            TagError::NoClosingSquareBracket => TagErrorView::NoClosingSquareBracket,
            TagError::NoKeyValueSeparator => TagErrorView::NoKeyValueSeparator,
            TagError::UnknownTag(k, v) => TagErrorView::UnknownTag(k@, v@),
            TagError::InvalidValue(k, v) => TagErrorView::InvalidValue(k@, v@),
        }
    }
}

impl View for Tag {
    type V = TagView;

    open spec fn view(&self) -> TagView {
        match self {
            Tag::Event(s) => TagView::Event(s@),
            Tag::Site(s) => TagView::Site(s@),
            Tag::Date(d) => TagView::Date((d.year as int, d.month as int, d.day as int)),
            Tag::Round(s) => TagView::Round(s@),
            Tag::White(s) => TagView::White(s@),
            Tag::Black(s) => TagView::Black(s@),
            Tag::Result(s) => TagView::Result(s@),
            Tag::UTCDate(d) => TagView::UTCDate((d.year as int, d.month as int, d.day as int)),
            Tag::Eco(s) => TagView::Eco(s@),
            Tag::WhiteElo(n) => TagView::WhiteElo(*n as int),
            Tag::BlackElo(n) => TagView::BlackElo(*n as int),
            Tag::Annotator(s) => TagView::Annotator(s@),
            Tag::WhiteRatingDiff(n) => TagView::WhiteRatingDiff(*n as int),
            Tag::BlackRatingDiff(n) => TagView::BlackRatingDiff(*n as int),
            Tag::Variant(s) => TagView::Variant(s@),
            Tag::TimeControl(s) => TagView::TimeControl(s@),
            Tag::Opening(s) => TagView::Opening(s@),
            Tag::Termination(s) => TagView::Termination(s@),
            Tag::EndTime(t) => TagView::EndTime(
                (t.hour as int, t.minute as int, t.second as int),
            ),
            Tag::UTCTime(t) => TagView::UTCTime(
                (t.hour as int, t.minute as int, t.second as int),
            ),
        }
    }
}

/// The mathematical value of one line's decoding outcome.
pub open spec fn spec_tag_result_view(r: Result<Tag, TagError>) -> Result<TagView, TagErrorView> {
    match r {
        Ok(t) => Ok(t@),
        Err(e) => Err(e@),
    }
}

/// The value with one surrounding quote character stripped from each end:
/// a leading `"` is dropped, then a trailing `"` of what remains.
pub open spec fn spec_strip_quotes(s: Seq<char>) -> Seq<char> {
    let a = if s.len() > 0 && s[0] == '"' {
        s.drop_first()
    } else {
        s
    };
    if a.len() > 0 && a.last() == '"' {
        a.drop_last()
    } else {
        a
    }
}

/// The key of the bracket-stripped line: everything before its first
/// whitespace character (the whole text if there is none).
pub open spec fn spec_key_of(inner: Seq<char>) -> Seq<char> {
    inner.take(spec_find_ws(inner, 0))
}

/// The raw value of the bracket-stripped line: everything after the
/// whitespace run that follows the key (empty if there is none).
pub open spec fn spec_raw_value_of(inner: Seq<char>) -> Seq<char> {
    inner.skip(spec_skip_ws(inner, spec_find_ws(inner, 0)))
}

/// What a key and its quote-stripped value decode to: the known keys map
/// to their tag kind, converting the value where the kind asks for a date,
/// a time or a rating; an unknown key is an error carrying both parts.
pub open spec fn spec_dispatch(key: Seq<char>, value: Seq<char>) -> Result<
    TagView,
    TagErrorView,
> {
    if key == "Event"@ {
        Ok(TagView::Event(value))
    } else if key == "Site"@ {
        Ok(TagView::Site(value))
    } else if key == "Date"@ {
        match spec_chrono_date(value) {
            Some(d) => Ok(TagView::Date(d)),
            None => Err(TagErrorView::InvalidValue(key, value)),
        }
    } else if key == "UTCDate"@ {
        match spec_chrono_date(value) {
            Some(d) => Ok(TagView::UTCDate(d)),
            None => Err(TagErrorView::InvalidValue(key, value)),
        }
    } else if key == "Round"@ {
        Ok(TagView::Round(value))
    } else if key == "White"@ {
        Ok(TagView::White(value))
    } else if key == "Black"@ {
        Ok(TagView::Black(value))
    } else if key == "Result"@ {
        Ok(TagView::Result(value))
    } else if key == "WhiteElo"@ {
        match spec_parse_u16(value) {
            Some(n) => Ok(TagView::WhiteElo(n as int)),
            None => Err(TagErrorView::InvalidValue(key, value)),
        }
    } else if key == "BlackElo"@ {
        match spec_parse_u16(value) {
            Some(n) => Ok(TagView::BlackElo(n as int)),
            None => Err(TagErrorView::InvalidValue(key, value)),
        }
    } else if key == "ECO"@ {
        Ok(TagView::Eco(value))
    } else if key == "Annotator"@ {
        Ok(TagView::Annotator(value))
    } else if key == "WhiteRatingDiff"@ {
        match spec_parse_i16(value) {
            Some(n) => Ok(TagView::WhiteRatingDiff(n as int)),
            None => Err(TagErrorView::InvalidValue(key, value)),
        }
    } else if key == "BlackRatingDiff"@ {
        match spec_parse_i16(value) {
            Some(n) => Ok(TagView::BlackRatingDiff(n as int)),
            None => Err(TagErrorView::InvalidValue(key, value)),
        }
    } else if key == "Variant"@ {
        Ok(TagView::Variant(value))
    } else if key == "TimeControl"@ {
        Ok(TagView::TimeControl(value))
    } else if key == "Opening"@ {
        Ok(TagView::Opening(value))
    } else if key == "Termination"@ {
        Ok(TagView::Termination(value))
    } else if key == "EndTime"@ {
        match spec_chrono_time_tz(value) {
            Some(t) => Ok(TagView::EndTime(t)),
            None => Err(TagErrorView::InvalidValue(key, value)),
        }
    } else if key == "UTCTime"@ {
        match spec_chrono_time(value) {
            Some(t) => Ok(TagView::UTCTime(t)),
            None => Err(TagErrorView::InvalidValue(key, value)),
        }
    } else {
        Err(TagErrorView::UnknownTag(key, value))
    }
}

/// What one line decodes to.  The opening-bracket check precedes the
/// closing-bracket check; then the brackets are stripped, the text must
/// split on whitespace into key and value — with no whitespace at all the
/// line lacks that structure and is a recoverable error — and the key
/// dispatches.
pub open spec fn spec_decode_tag(line: Seq<char>) -> Result<TagView, TagErrorView> {
    if line.len() == 0 || line[0] != '[' {
        Err(TagErrorView::NoOpeningSquareBracket)
    } else if line.last() != ']' {
        Err(TagErrorView::NoClosingSquareBracket)
    } else {
        let inner = line.subrange(1, line.len() - 1);
        if spec_find_ws(inner, 0) == inner.len() {
            Err(TagErrorView::NoKeyValueSeparator)
        } else {
            spec_dispatch(spec_key_of(inner), spec_strip_quotes(spec_raw_value_of(inner)))
        }
    }
}

impl Tag {
    /// Decodes one header line, exactly as [`spec_decode_tag`] describes.
    pub fn try_from(value: &str) -> (r: Result<Tag, TagError>)
        ensures
            spec_tag_result_view(r) == spec_decode_tag(value@),
    {
        let n = value.unicode_len();
        if n == 0 || value.get_char(0) != '[' {
            return Err(TagError::NoOpeningSquareBracket);
        }
        if value.get_char(n - 1) != ']' {
            return Err(TagError::NoClosingSquareBracket);
        }
        let inner = value.substring_char(1, n - 1);
        let ni = inner.unicode_len();
        let k = find_ws(inner, 0);
        if k == ni {
            return Err(TagError::NoKeyValueSeparator);
        }
        let vstart = skip_ws(inner, k);
        let key = inner.substring_char(0, k);
        let raw = inner.substring_char(vstart, ni);
        proof {
            assert(key@ =~= spec_key_of(inner@));
            assert(raw@ =~= spec_raw_value_of(inner@));
        }
        let rn = raw.unicode_len();
        let qstart: usize = if rn > 0 && raw.get_char(0) == '"' {
            1
        } else {
            0
        };
        let qend: usize = if rn > qstart && raw.get_char(rn - 1) == '"' {
            rn - 1
        } else {
            rn
        };
        let val = raw.substring_char(qstart, qend);
        proof {
            assert(val@ =~= spec_strip_quotes(raw@));
        }
        dispatch(key, val)
    }
}

/// Selects the tag kind for a key and converts the quote-stripped value,
/// exactly as [`spec_dispatch`] describes.
fn dispatch(key: &str, val: &str) -> (r: Result<Tag, TagError>)
    ensures
        spec_tag_result_view(r) == spec_dispatch(key@, val@),
{
    if str_eq(key, "Event") {
        Ok(Tag::Event(String::from_str(val)))
    } else if str_eq(key, "Site") {
        Ok(Tag::Site(String::from_str(val)))
    } else if str_eq(key, "Date") {
        match chrono_parse_date(val) {
            Some(d) => Ok(Tag::Date(d)),
            None => Err(TagError::InvalidValue(String::from_str(key), String::from_str(val))),
        }
    } else if str_eq(key, "UTCDate") {
        match chrono_parse_date(val) {
            Some(d) => Ok(Tag::UTCDate(d)),
            None => Err(TagError::InvalidValue(String::from_str(key), String::from_str(val))),
        }
    } else if str_eq(key, "Round") {
        Ok(Tag::Round(String::from_str(val)))
    } else if str_eq(key, "White") {
        Ok(Tag::White(String::from_str(val)))
    } else if str_eq(key, "Black") {
        Ok(Tag::Black(String::from_str(val)))
    } else if str_eq(key, "Result") {
        Ok(Tag::Result(String::from_str(val)))
    } else if str_eq(key, "WhiteElo") {
        match parse_u16(val) {
            Some(n) => Ok(Tag::WhiteElo(n)),
            None => Err(TagError::InvalidValue(String::from_str(key), String::from_str(val))),
        }
    } else if str_eq(key, "BlackElo") {
        match parse_u16(val) {
            Some(n) => Ok(Tag::BlackElo(n)),
            None => Err(TagError::InvalidValue(String::from_str(key), String::from_str(val))),
        }
    } else if str_eq(key, "ECO") {
        Ok(Tag::Eco(String::from_str(val)))
    } else if str_eq(key, "Annotator") {
        Ok(Tag::Annotator(String::from_str(val)))
    } else if str_eq(key, "WhiteRatingDiff") {
        match parse_i16(val) {
            Some(n) => Ok(Tag::WhiteRatingDiff(n)),
            None => Err(TagError::InvalidValue(String::from_str(key), String::from_str(val))),
        }
    } else if str_eq(key, "BlackRatingDiff") {
        match parse_i16(val) {
            Some(n) => Ok(Tag::BlackRatingDiff(n)),
            None => Err(TagError::InvalidValue(String::from_str(key), String::from_str(val))),
        }
    } else if str_eq(key, "Variant") {
        Ok(Tag::Variant(String::from_str(val)))
    } else if str_eq(key, "TimeControl") {
        Ok(Tag::TimeControl(String::from_str(val)))
    } else if str_eq(key, "Opening") {
        Ok(Tag::Opening(String::from_str(val)))
    } else if str_eq(key, "Termination") {
        Ok(Tag::Termination(String::from_str(val)))
    } else if str_eq(key, "EndTime") {
        match chrono_parse_time_tz(val) {
            Some(t) => Ok(Tag::EndTime(t)),
            None => Err(TagError::InvalidValue(String::from_str(key), String::from_str(val))),
        }
    } else if str_eq(key, "UTCTime") {
        match chrono_parse_time(val) {
            Some(t) => Ok(Tag::UTCTime(t)),
            None => Err(TagError::InvalidValue(String::from_str(key), String::from_str(val))),
        }
    } else {
        Err(TagError::UnknownTag(String::from_str(key), String::from_str(val)))
    }
}

} // verus!
