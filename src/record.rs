//! The session record: one expiry instant as `YYYY-MM-DD HH:MM:SS` text, and
//! the check that decides from it whether access is currently granted.

use vstd::prelude::*;
use chrono::{Datelike, NaiveDate, NaiveDateTime, Timelike};
use crate::stamp::{Stamp, seconds_between, year_start};

verus! {

pub open spec fn digit_char(n: int) -> char {
    if n == 0 { '0' }
    else if n == 1 { '1' }
    else if n == 2 { '2' }
    else if n == 3 { '3' }
    else if n == 4 { '4' }
    else if n == 5 { '5' }
    else if n == 6 { '6' }
    else if n == 7 { '7' }
    else if n == 8 { '8' }
    else { '9' }
}

/// The text of a stamp in the record format, for years 0 to 9999.
pub open spec fn stamp_text(t: Stamp) -> Seq<char> {
    let y = t.year as int;
    let (mo, d, h) = (t.month as int, t.day as int, t.hour as int);
    let (mi, se) = (t.minute as int, t.second as int);
    seq![
        digit_char(y / 1000), digit_char((y / 100) % 10), digit_char((y / 10) % 10),
        digit_char(y % 10), '-',
        digit_char(mo / 10), digit_char(mo % 10), '-',
        digit_char(d / 10), digit_char(d % 10), ' ',
        digit_char(h / 10), digit_char(h % 10), ':',
        digit_char(mi / 10), digit_char(mi % 10), ':',
        digit_char(se / 10), digit_char(se % 10),
    ]
}

/// A stamp that the record format can hold: four-digit years.
pub open spec fn in_record_range(t: Stamp) -> bool {
    t.wf() && 0 <= t.year <= 9999
}

/// An instant that the record format can hold: years 0 to 9999.
pub open spec fn recordable_instant(x: int) -> bool {
    year_start(0) <= x < year_start(10000)
}

/// Unicode's White_Space characters.
pub open spec fn is_white_space(c: char) -> bool {
    let u = c as u32;
    ||| 9 <= u <= 13
    ||| u == 32
    ||| u == 0x85
    ||| u == 0xA0
    ||| u == 0x1680
    ||| 0x2000 <= u <= 0x200A
    ||| u == 0x2028
    ||| u == 0x2029
    ||| u == 0x202F
    ||| u == 0x205F
    ||| u == 0x3000
}

pub open spec fn trim_start(s: Seq<char>) -> Seq<char>
    decreases s.len(),
{
    if s.len() > 0 && is_white_space(s[0]) {
        trim_start(s.drop_first())
    } else {
        s
    }
}

pub open spec fn trim_end(s: Seq<char>) -> Seq<char>
    decreases s.len(),
{
    if s.len() > 0 && is_white_space(s.last()) {
        trim_end(s.drop_last())
    } else {
        s
    }
}

/// The text without leading and trailing white space.
pub open spec fn trimmed(s: Seq<char>) -> Seq<char> {
    trim_end(trim_start(s))
}

/// The expiry that a record's text holds, if it is a stamp in the record
/// format, white space around it aside.
pub open spec fn record_stamp(s: Seq<char>) -> Option<Stamp> {
    if exists|t: Stamp| in_record_range(t) && stamp_text(t) == trimmed(s) {
        Some(choose|t: Stamp| in_record_range(t) && stamp_text(t) == trimmed(s))
    } else {
        None
    }
}

/// Relies on `str::trim`: white space, in Unicode's sense, removed from both ends.
#[verifier::external_body]
pub(crate) fn str_trim<'a>(s: &'a str) -> (r: &'a str)
    ensures
        r@ == trimmed(s@),
{
    s.trim()
}

/// Relies on chrono's `NaiveDateTime::format` with `%Y-%m-%d %H:%M:%S`: four
/// zero-padded year digits for years 0 to 9999, two for each other field.
#[verifier::external_body]
fn format_naive(t: Stamp) -> (r: String)
    requires
        t.wf(),
    ensures
        0 <= t.year <= 9999 ==> r@ == stamp_text(t),
{
    let d = NaiveDate::from_ymd_opt(t.year, t.month, t.day).unwrap();
    let n: NaiveDateTime = d.and_hms_opt(t.hour, t.minute, t.second).unwrap();
    n.format("%Y-%m-%d %H:%M:%S").to_string()
}

/// Relies on chrono's `NaiveDateTime::parse_from_str` with `%Y-%m-%d %H:%M:%S`:
/// what it accepts is a real date-time in chrono's range, and the text of any
/// such stamp with a four-digit year is accepted as that stamp.
#[verifier::external_body]
fn parse_naive(s: &str) -> (r: Option<Stamp>)
    ensures
        r matches Some(u) ==> u.wf(),
        forall|t: Stamp| #[trigger] in_record_range(t) && stamp_text(t) == s@ ==> r == Some(t),
{
    NaiveDateTime::parse_from_str(s, "%Y-%m-%d %H:%M:%S").ok().map(|u| Stamp {
        year: u.year(),
        month: u.month(),
        day: u.day(),
        hour: u.hour(),
        minute: u.minute(),
        second: u.second(),
    })
}

proof fn lemma_digit_char_injective(a: int, b: int)
    requires
        0 <= a < 10,
        0 <= b < 10,
        digit_char(a) == digit_char(b),
    ensures
        a == b,
{
}

proof fn lemma_two_digits(a: int, b: int)
    requires
        0 <= a < 100,
        0 <= b < 100,
        digit_char(a / 10) == digit_char(b / 10),
        digit_char(a % 10) == digit_char(b % 10),
    ensures
        a == b,
{
    lemma_digit_char_injective(a / 10, b / 10);
    lemma_digit_char_injective(a % 10, b % 10);
}

/// Different stamps of the record range have different texts.
pub proof fn lemma_stamp_text_injective(a: Stamp, b: Stamp)
    requires
        in_record_range(a),
        in_record_range(b),
        stamp_text(a) == stamp_text(b),
    ensures
        a == b,
{
    let (ta, tb) = (stamp_text(a), stamp_text(b));
    assert(ta[0] == tb[0] && ta[1] == tb[1] && ta[2] == tb[2] && ta[3] == tb[3]);
    assert(ta[5] == tb[5] && ta[6] == tb[6] && ta[8] == tb[8] && ta[9] == tb[9]);
    assert(ta[11] == tb[11] && ta[12] == tb[12] && ta[14] == tb[14] && ta[15] == tb[15]);
    assert(ta[17] == tb[17] && ta[18] == tb[18]);
    let (ya, yb) = (a.year as int, b.year as int);
    lemma_digit_char_injective(ya / 1000, yb / 1000);
    lemma_digit_char_injective((ya / 100) % 10, (yb / 100) % 10);
    lemma_digit_char_injective((ya / 10) % 10, (yb / 10) % 10);
    lemma_digit_char_injective(ya % 10, yb % 10);
    assert(ya == yb);
    lemma_two_digits(a.month as int, b.month as int);
    lemma_two_digits(a.day as int, b.day as int);
    lemma_two_digits(a.hour as int, b.hour as int);
    lemma_two_digits(a.minute as int, b.minute as int);
    lemma_two_digits(a.second as int, b.second as int);
}

/// A stamp's text has no white space at its ends.
pub proof fn lemma_stamp_text_trimmed(t: Stamp)
    ensures
        trimmed(stamp_text(t)) == stamp_text(t),
{
    let s = stamp_text(t);
    assert(!is_white_space(s[0]));
    assert(trim_start(s) == s);
    assert(!is_white_space(s.last()));
}

/// The record text for an expiry.
pub fn format_record(t: Stamp) -> (r: String)
    requires
        in_record_range(t),
    ensures
        r@ == stamp_text(t),
{
    format_naive(t)
}

/// The expiry held by a record's text, or `None` for text that is not exactly
/// one stamp in the record format (white space around it aside).
pub fn parse_record(text: &str) -> (r: Option<Stamp>)
    ensures
        r == record_stamp(text@),
{
    let body = str_trim(text);
    match parse_naive(body) {
        Some(t) => {
            if 0 <= t.year && t.year <= 9999 {
                let back = format_naive(t);
                if back == body.to_owned() {
                    proof {
                        let c = choose|c: Stamp| in_record_range(c) && stamp_text(c) == trimmed(text@);
                        lemma_stamp_text_injective(c, t);
                    }
                    return Some(t);
                }
            }
            None
        },
        None => None,
    }
}

/// Formatting an expiry and reading the text back gives the same instant.
pub proof fn lemma_record_round_trip(t: Stamp)
    requires
        in_record_range(t),
    ensures
        record_stamp(stamp_text(t)) == Some(t),
{
    lemma_stamp_text_trimmed(t);
    let c = choose|c: Stamp| in_record_range(c) && stamp_text(c) == trimmed(stamp_text(t));
    lemma_stamp_text_injective(c, t);
}

/// What the session record says at a given moment.
#[derive(Clone, Copy, Debug, PartialEq, Eq, Structural)]
pub enum SessionStatus {
    /// A well-formed expiry strictly in the future: access stays granted.
    Active { expires_at: Stamp },
    /// No record: access is not granted and nothing needs undoing.
    Missing,
    /// An expiry that has passed, or text that is no expiry: access must be
    /// revoked now.
    Lapsed,
}

pub open spec fn record_view(record: Option<&str>) -> Option<Seq<char>> {
    match record {
        Some(s) => Some(s@),
        None => None,
    }
}

/// The status of a session record read at `now`.
pub open spec fn session_status(record: Option<Seq<char>>, now: Stamp) -> SessionStatus {
    match record {
        None => SessionStatus::Missing,
        Some(text) => match record_stamp(text) {
            Some(e) => if e.instant() > now.instant() {
                SessionStatus::Active { expires_at: e }
            } else {
                SessionStatus::Lapsed
            },
            None => SessionStatus::Lapsed,
        },
    }
}

/// Decides from the record's contents (`None` when there is no record)
/// whether access is granted at `now`.
pub fn check_session(record: Option<&str>, now: Stamp) -> (r: SessionStatus)
    requires
        now.wf(),
    ensures
        r == session_status(record_view(record), now),
{
    match record {
        None => SessionStatus::Missing,
        Some(text) => match parse_record(text) {
            Some(e) => {
                if seconds_between(e, now) > 0 {
                    SessionStatus::Active { expires_at: e }
                } else {
                    SessionStatus::Lapsed
                }
            },
            None => SessionStatus::Lapsed,
        },
    }
}

} // verus!
