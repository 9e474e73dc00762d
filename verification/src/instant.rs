//! Points in time, and their text in the form of RFC 3339.

use crate::text::text_view;
use vstd::prelude::*;

verus! {

/// A point in time: the whole seconds since 1970-01-01T00:00:00Z, and the nanoseconds that
/// have passed since that second began.
#[derive(Clone, Copy, Debug, PartialEq, Eq, Structural)]
pub struct UtcInstant {
    pub secs: i64,
    pub nanos: u32,
}

/// The point in time that an RFC 3339 text names, as seconds and nanoseconds; `None` for a
/// text that is no RFC 3339 date and time.
pub uninterp spec fn rfc3339_instant(text: Seq<char>) -> Option<(int, int)>;

/// The RFC 3339 text, in UTC, of the point in time at `secs` seconds and `nanos`
/// nanoseconds; `None` for a point that no calendar date stands for.
pub uninterp spec fn rfc3339_text(secs: int, nanos: int) -> Option<Seq<char>>;

/// The reason that the parser of RFC 3339 gives for refusing `text`, in its own words. It
/// has a meaning only where `rfc3339_instant(text)` is `None`.
pub uninterp spec fn rfc3339_refusal(text: Seq<char>) -> Seq<char>;

/// The reason given for a date and time that is read but that no calendar date in UTC
/// stands for.
pub open spec fn out_of_range() -> Seq<char> {
    "date is out of range"@
}

/// What reading `text` as a date and time in RFC 3339 comes to: the text of the same point
/// in time in UTC, or the reason why there is none.
pub open spec fn rfc3339_read(text: Seq<char>) -> Result<Seq<char>, Seq<char>> {
    match rfc3339_instant(text) {
        Some((secs, nanos)) => match rfc3339_text(secs, nanos) {
            Some(in_utc) => Ok(in_utc),
            None => Err(out_of_range()),
        },
        None => Err(rfc3339_refusal(text)),
    }
}

/// The RFC 3339 text, in UTC, of the point in time that the RFC 3339 text `text` names.
pub open spec fn rfc3339_in_utc(text: Seq<char>) -> Option<Seq<char>> {
    match rfc3339_read(text) {
        Ok(in_utc) => Some(in_utc),
        Err(_) => None,
    }
}

/// The characters of a text that was read, or of the reason why none was.
pub open spec fn read_view(r: Result<String, String>) -> Result<Seq<char>, Seq<char>> {
    match r {
        Ok(text) => Ok(text@),
        Err(reason) => Err(reason@),
    }
}

/// Reads an RFC 3339 date and time with `chrono::DateTime::parse_from_rfc3339`. A text that
/// is read gives the point in time as `timestamp` and `timestamp_subsec_nanos` give it; one
/// that is refused gives the parser's error as its `Display` writes it. The contract names
/// both results and claims nothing else of them.
#[verifier::external_body]
pub(crate) fn parse_rfc3339(text: &str) -> (r: Result<UtcInstant, String>)
    ensures
        match r {
            Ok(at) => rfc3339_instant(text@) == Some((at.secs as int, at.nanos as int)),
            Err(reason) => rfc3339_instant(text@) is None && reason@ == rfc3339_refusal(text@),
        },
{
    match chrono::DateTime::parse_from_rfc3339(text) {
        Ok(parsed) => Ok(
            UtcInstant { secs: parsed.timestamp(), nanos: parsed.timestamp_subsec_nanos() },
        ),
        Err(refusal) => Err(refusal.to_string()),
    }
}

/// Writes a point in time with `chrono::DateTime::to_rfc3339`, after
/// `chrono::DateTime::from_timestamp` has turned the seconds and nanoseconds into a date and
/// time in UTC. The contract names the text and claims nothing else of it.
#[verifier::external_body]
pub(crate) fn format_rfc3339(at: UtcInstant) -> (r: Option<String>)
    ensures
        text_view(r) == rfc3339_text(at.secs as int, at.nanos as int),
{
    match chrono::DateTime::from_timestamp(at.secs, at.nanos) {
        Some(moment) => Some(moment.to_rfc3339()),
        None => None,
    }
}

impl UtcInstant {
    /// The nanoseconds from 1970-01-01T00:00:00Z to this point.
    pub open spec fn total_nanos(self) -> int {
        self.secs * 1_000_000_000 + self.nanos
    }

    /// The seconds and nanoseconds of the point `millis` milliseconds before this one, the
    /// nanoseconds below a full second.
    pub open spec fn before(self, millis: int) -> (int, int) {
        let total = self.total_nanos() - millis * 1_000_000;
        (total / 1_000_000_000, total % 1_000_000_000)
    }

    /// The point `millis` milliseconds before this one; `None` where its seconds leave the
    /// range of `i64`.
    pub fn minus_millis(self, millis: u64) -> (r: Option<UtcInstant>)
        ensures
            match r {
                Some(at) => (at.secs as int, at.nanos as int) == self.before(millis as int),
                None => self.before(millis as int).0 < i64::MIN || self.before(millis as int).0
                    > i64::MAX,
            },
    {
        let whole: u64 = millis / 1000;
        let part: u64 = (millis % 1000) * 1_000_000;
        // One second is lent to the nanoseconds, so that nothing falls below zero.
        let have: u64 = self.nanos as u64 + 1_000_000_000;
        let left: u64 = have - part;
        let carried: u64 = left / 1_000_000_000;
        let nanos: u64 = left % 1_000_000_000;
        let secs: i128 = self.secs as i128 - whole as i128 - 1 + carried as i128;
        proof {
            let total = self.total_nanos() - millis * 1_000_000;
            assert(total == secs * 1_000_000_000 + nanos) by (nonlinear_arith)
                requires
                    total == self.secs * 1_000_000_000 + self.nanos - millis * 1_000_000,
                    millis == whole * 1000 + (millis % 1000),
                    part == (millis % 1000) * 1_000_000,
                    left == self.nanos + 1_000_000_000 - part,
                    left == carried * 1_000_000_000 + nanos,
                    secs == self.secs - whole - 1 + carried,
            ;
            vstd::arithmetic::div_mod::lemma_fundamental_div_mod_converse(
                total,
                1_000_000_000,
                secs as int,
                nanos as int,
            );
        }
        if secs < i64::MIN as i128 || secs > i64::MAX as i128 {
            None
        } else {
            Some(UtcInstant { secs: secs as i64, nanos: nanos as u32 })
        }
    }
}

/// The text of the point in time `at` in UTC where `written` holds one, else the reason
/// why there is none.
pub fn written_or_out_of_range(written: Option<String>) -> (r: Result<String, String>)
    ensures
        read_view(r) == match written {
            Some(in_utc) => Ok::<Seq<char>, Seq<char>>(in_utc@),
            None => Err::<Seq<char>, Seq<char>>(out_of_range()),
        },
{
    match written {
        Some(in_utc) => Ok(in_utc),
        None => Err(String::from_str("date is out of range")),
    }
}

/// Rewrites an RFC 3339 date and time as the same point in UTC. Where `text` is no such
/// date and time, the reason is returned in the words of the parser.
pub fn normalize_rfc3339(text: &str) -> (r: Result<String, String>)
    ensures
        read_view(r) == rfc3339_read(text@),
{
    match parse_rfc3339(text) {
        Ok(at) => written_or_out_of_range(format_rfc3339(at)),
        Err(reason) => Err(reason),
    }
}

} // verus!
