//! Observation timestamps: the date string cleaned and parsed into plain
//! calendar fields, and the current local date turned into epoch
//! milliseconds. The calendar work itself is done by the chrono crate
//! behind trusted wrappers; everything around it is verified.

use vstd::prelude::*;
use vstd::string::StrSliceExecFns;

use chrono::Datelike;
use chrono::TimeZone;

use crate::observation::AqiError;

verus! {

/// `s` with every leading `c` removed.
pub open spec fn spec_trim_leading(s: Seq<char>, c: char) -> Seq<char>
    decreases s.len(),
{
    if s.len() > 0 && s[0] == c {
        spec_trim_leading(s.skip(1), c)
    } else {
        s
    }
}

/// `s` with every trailing `c` removed.
pub open spec fn spec_trim_trailing(s: Seq<char>, c: char) -> Seq<char>
    decreases s.len(),
{
    if s.len() > 0 && s.last() == c {
        spec_trim_trailing(s.drop_last(), c)
    } else {
        s
    }
}

/// `s` with every leading and trailing `c` removed.
pub open spec fn spec_trim(s: Seq<char>, c: char) -> Seq<char> {
    spec_trim_trailing(spec_trim_leading(s, c), c)
}

proof fn lemma_trim_leading_skip(s: Seq<char>, c: char, lo: int)
    requires
        0 <= lo <= s.len(),
        forall|j: int| 0 <= j < lo ==> s[j] == c,
        lo == s.len() || s[lo] != c,
    ensures
        spec_trim_leading(s, c) == s.skip(lo),
    decreases lo,
{
    if lo == 0 {
        assert(s.skip(0) =~= s);
    } else {
        assert(s[0] == c);
        let t = s.skip(1);
        assert forall|j: int| 0 <= j < lo - 1 implies t[j] == c by {
            assert(t[j] == s[j + 1]);
        }
        assert(lo - 1 == t.len() || t[lo - 1] != c);
        lemma_trim_leading_skip(t, c, lo - 1);
        assert(t.skip(lo - 1) =~= s.skip(lo));
    }
}

proof fn lemma_trim_trailing_take(s: Seq<char>, c: char, hi: int)
    requires
        0 <= hi <= s.len(),
        forall|j: int| hi <= j < s.len() ==> s[j] == c,
        hi == 0 || s[hi - 1] != c,
    ensures
        spec_trim_trailing(s, c) == s.take(hi),
    decreases s.len(),
{
    if hi == s.len() {
        assert(s.take(hi) =~= s);
        assert(s.len() == 0 || s.last() != c);
    } else {
        assert(s.last() == c);
        lemma_trim_trailing_take(s.drop_last(), c, hi);
        assert(s.drop_last().take(hi) =~= s.take(hi));
    }
}

/// Removes every leading and trailing `c`, exactly as `spec_trim`
/// describes.
pub fn trim_char<'a>(s: &'a str, c: char) -> (r: &'a str)
    ensures
        r@ == spec_trim(s@, c),
{
    let len: usize = s.unicode_len();
    let mut lo: usize = 0;
    while lo < len && s.get_char(lo) == c
        invariant
            lo <= len,
            len == s@.len(),
            forall|j: int| 0 <= j < lo ==> s@[j] == c,
        decreases len - lo,
    {
        lo = lo + 1;
    }
    let mut hi: usize = len;
    while hi > lo && s.get_char(hi - 1) == c
        invariant
            lo <= hi <= len,
            len == s@.len(),
            forall|j: int| hi <= j < len ==> s@[j] == c,
        decreases hi,
    {
        hi = hi - 1;
    }
    let r = s.substring_char(lo, hi);
    proof {
        lemma_trim_leading_skip(s@, c, lo as int);
        let t = s@.skip(lo as int);
        assert forall|j: int| hi - lo <= j < t.len() implies t[j] == c by {
            assert(t[j] == s@[j + lo]);
        }
        if hi > lo {
            assert(t[hi - lo - 1] == s@[hi - 1]);
        }
        lemma_trim_trailing_take(t, c, hi - lo);
        assert(t.take(hi - lo) =~= s@.subrange(lo as int, hi as int));
    }
    r
}

/// What chrono's date-only parse returns on a given string: either the
/// year, month and day it read, or nothing. A function of the string alone.
pub uninterp spec fn parsed_ymd(s: Seq<char>) -> Option<(int, int, int)>;

/// Relies on chrono's NaiveDate::parse_from_str with the "%Y-%m-%d"
/// format: the outcome depends on the input string alone, and a parsed
/// month always lies in 1..=12 and a parsed day in 1..=31.
#[verifier::external_body]
fn parse_ymd(s: &str) -> (r: Option<(i32, u32, u32)>)
    ensures
        match r {
            Some(d) => parsed_ymd(s@) == Some((d.0 as int, d.1 as int, d.2 as int)) && 1 <= d.1
                <= 12 && 1 <= d.2 <= 31,
            None => parsed_ymd(s@) is None,
        },
{
    match chrono::NaiveDate::parse_from_str(s, "%Y-%m-%d") {
        Ok(d) => Some((d.year(), d.month(), d.day())),
        Err(_) => None,
    }
}

/// Relies on chrono's Local::now and its calendar accessors: whatever
/// instant now is, the month lies in 1..=12 and the day in 1..=31.
#[verifier::external_body]
fn local_today() -> (r: (i32, u32, u32))
    ensures
        1 <= r.1 <= 12,
        1 <= r.2 <= 31,
{
    let now = chrono::Local::now();
    (now.year(), now.month(), now.day())
}

/// Relies on chrono's NaiveDate::from_ymd_opt, NaiveDate::and_hms_opt,
/// TimeZone::from_local_datetime on Local, and DateTime::timestamp_millis:
/// the milliseconds since the Unix epoch of the given local wall-clock
/// time, or nothing where the fields make no valid date and hour or the
/// local time zone gives that wall time no unique instant. The value
/// depends on the machine's time zone, so nothing more is promised of it.
#[verifier::external_body]
fn local_timestamp_millis(year: i32, month: u32, day: u32, hour: u32) -> (r: Option<i64>)
{
    chrono::NaiveDate::from_ymd_opt(year, month, day)
        .and_then(|d| d.and_hms_opt(hour, 0, 0))
        .and_then(|t| chrono::Local.from_local_datetime(&t).single())
        .map(|dt| dt.timestamp_millis())
}

/// A wall-clock timestamp in the machine's local time zone, as plain
/// calendar fields.
pub struct LocalStamp {
    pub year: i32,
    pub month: u32,
    pub day: u32,
    pub hour: u32,
}

impl LocalStamp {
    /// The fields form a plausible calendar time.
    pub open spec fn wf(&self) -> bool {
        1 <= self.month <= 12 && 1 <= self.day <= 31 && self.hour < 24
    }
}

/// Cleans an observation's date string (stray spaces and NUL padding
/// around it) and parses it, together with the observed hour, into a local
/// timestamp. Fails exactly when the cleaned string is not a date.
pub fn get_metric_datetime(date: &str, hour: u32) -> (r: Result<LocalStamp, AqiError>)
    requires
        hour < 24,
    ensures
        match r {
            Ok(stamp) => stamp.wf() && stamp.hour == hour && parsed_ymd(
                spec_trim(spec_trim(date@, ' '), '\0'),
            ) == Some((stamp.year as int, stamp.month as int, stamp.day as int)),
            Err(e) => parsed_ymd(spec_trim(spec_trim(date@, ' '), '\0')) is None
                && e.spec_message() == "observation date is not a calendar date"@,
        },
{
    let trimmed = trim_char(trim_char(date, ' '), '\0');
    match parse_ymd(trimmed) {
        Some(d) => Ok(LocalStamp { year: d.0, month: d.1, day: d.2, hour }),
        None => Err(AqiError::new("observation date is not a calendar date")),
    }
}

/// Milliseconds since the Unix epoch of today's local date at the given
/// hour, or nothing where the local time zone gives that wall time no
/// unique instant. The value depends on the clock and the machine's time
/// zone, so nothing is promised of it.
pub fn get_metric_timestamp(hour: u32) -> (r: Option<i64>)
    requires
        hour < 24,
{
    let today = local_today();
    local_timestamp_millis(today.0, today.1, today.2, hour)
}

} // verus!
