//! Millisecond timestamps and their RFC 3339 text.

use mongodb::bson::DateTime;
use vstd::prelude::*;
use vstd::string::StrSliceExecFns;

verus! {

/// Milliseconds since the Unix epoch of 0000-01-01T00:00:00.000Z, the
/// earliest instant whose RFC 3339 text has a four-digit year.
pub const MIN_TEXT_MILLIS: i64 = -62167219200000;

/// Milliseconds since the Unix epoch of 9999-12-31T23:59:59.999Z, the latest
/// instant whose RFC 3339 text has a four-digit year.
pub const MAX_TEXT_MILLIS: i64 = 253402300799999;

/// An instant, as whole milliseconds since the Unix epoch (UTC).
#[derive(Clone, Copy, Debug, PartialEq, Eq, Hash)]
pub struct Timestamp {
    pub millis: i64,
}

impl View for Timestamp {
    type V = i64;

    open spec fn view(&self) -> i64 {
        self.millis
    }
}

/// The instant lies within the years 0000 to 9999, which RFC 3339 text can
/// carry.
pub open spec fn in_text_range(millis: i64) -> bool {
    MIN_TEXT_MILLIS <= millis <= MAX_TEXT_MILLIS
}

/// A decimal digit.
pub open spec fn is_digit(c: char) -> bool {
    '0' <= c && c <= '9'
}

/// The text carries a fraction of a second finer than a millisecond: four or
/// more digits after the point that follows the seconds.
pub open spec fn finer_than_millis(s: Seq<char>) -> bool {
    s.len() > 23 && s[19] == '.' && is_digit(s[20]) && is_digit(s[21]) && is_digit(s[22])
        && is_digit(s[23])
}

/// The text has the shape this library accepts beyond what the parser checks:
/// `T` (or `t`) between date and time, and no fraction finer than a
/// millisecond.
pub open spec fn in_text_profile(s: Seq<char>) -> bool {
    s.len() > 10 && (s[10] == 'T' || s[10] == 't') && !finer_than_millis(s)
}

/// What bson's RFC 3339 formatter writes for an instant, if it writes anything.
pub uninterp spec fn rfc3339_text(millis: i64) -> Option<Seq<char>>;

/// What bson's RFC 3339 parser reads from a text, in milliseconds, if it
/// accepts the text.
pub uninterp spec fn rfc3339_millis(s: Seq<char>) -> Option<i64>;

/// Relies on bson's `DateTime::try_to_rfc3339_string` (the time crate's
/// RFC 3339 format, offset `Z`); the text depends on the instant alone.
/// Within the years 0000 to 9999 it always formats; it writes
/// `YYYY-MM-DDTHH:MM:SS`, then a point and the non-zero sub-second digits
/// with trailing zeros removed (at most three for whole milliseconds), then
/// `Z`; and bson's parser reads that text back as the same millisecond.
#[verifier::external_body]
fn format_rfc3339(millis: i64) -> (r: Option<String>)
    ensures
        r is Some <==> rfc3339_text(millis) is Some,
        r matches Some(s) ==> rfc3339_text(millis) == Some(s@),
        in_text_range(millis) ==> r is Some,
        in_text_range(millis) ==> (r matches Some(s) ==> in_text_profile(s@)),
        in_text_range(millis) ==> (r matches Some(s) ==> rfc3339_millis(s@) == Some(millis)),
{
    DateTime::from_millis(millis).try_to_rfc3339_string().ok()
}

/// Relies on bson's `DateTime::parse_rfc3339_str` (the time crate's RFC 3339
/// parser, then truncation to milliseconds); the result depends on the text
/// alone, and empty text is refused.
#[verifier::external_body]
fn parse_rfc3339(s: &str) -> (r: Option<i64>)
    ensures
        r == rfc3339_millis(s@),
        s@.len() == 0 ==> r is None,
{
    DateTime::parse_rfc3339_str(s).ok().map(|d| d.timestamp_millis())
}

/// The text of an instant: what the formatter writes, where the instant
/// lies within the years 0000 to 9999 and the text is in the accepted
/// profile and reads back as the same instant; else `None`.
pub open spec fn timestamp_text(millis: i64) -> Option<Seq<char>> {
    if in_text_range(millis) && rfc3339_text(millis) is Some && in_text_profile(
        rfc3339_text(millis)->Some_0,
    ) && rfc3339_millis(rfc3339_text(millis)->Some_0) == Some(millis) {
        rfc3339_text(millis)
    } else {
        None
    }
}

/// The instant read from a text: what the parser reads, where the text is in
/// the accepted profile; else `None`.
pub open spec fn timestamp_of_text(s: Seq<char>) -> Option<i64> {
    if in_text_profile(s) {
        rfc3339_millis(s)
    } else {
        None
    }
}

impl Timestamp {
    /// The instant the given number of milliseconds after the Unix epoch.
    pub fn from_millis(millis: i64) -> (r: Timestamp)
        ensures
            r.millis == millis,
    {
        Timestamp { millis }
    }

    /// Whether the text has the accepted separator and no fraction finer
    /// than a millisecond.
    pub fn is_in_text_profile(s: &str) -> (r: bool)
        ensures
            r == in_text_profile(s@),
    {
        let n = s.unicode_len();
        if n <= 10 {
            return false;
        }
        let sep = s.get_char(10);
        if sep != 'T' && sep != 't' {
            return false;
        }
        if n > 23 && s.get_char(19) == '.' {
            let c20 = s.get_char(20);
            let c21 = s.get_char(21);
            let c22 = s.get_char(22);
            let c23 = s.get_char(23);
            if '0' <= c20 && c20 <= '9' && '0' <= c21 && c21 <= '9' && '0' <= c22 && c22 <= '9'
                && '0' <= c23 && c23 <= '9' {
                return false;
            }
        }
        true
    }

    /// Milliseconds since the Unix epoch.
    pub fn timestamp_millis(&self) -> (r: i64)
        ensures
            r == self.millis,
    {
        self.millis
    }

    /// The RFC 3339 text of this instant; `None` exactly where it lies
    /// outside the years 0000 to 9999.
    pub fn to_rfc3339(&self) -> (r: Option<String>)
        ensures
            r is Some <==> timestamp_text(self.millis) is Some,
            r matches Some(s) ==> timestamp_text(self.millis) == Some(s@),
            r is Some <==> in_text_range(self.millis),
    {
        if self.millis < MIN_TEXT_MILLIS || self.millis > MAX_TEXT_MILLIS {
            None
        } else {
            format_rfc3339(self.millis)
        }
    }

    /// Reads an RFC 3339 text; `None` where it is outside the accepted
    /// profile (another date/time separator, a fraction finer than a
    /// millisecond) or the parser refuses it.
    pub fn parse_rfc3339(s: &str) -> (r: Option<Timestamp>)
        ensures
            r is Some <==> timestamp_of_text(s@) is Some,
            r matches Some(t) ==> timestamp_of_text(s@) == Some(t.millis),
    {
        if !Self::is_in_text_profile(s) {
            return None;
        }
        match parse_rfc3339(s) {
            Some(millis) => Some(Timestamp { millis }),
            None => None,
        }
    }
}

} // verus!
