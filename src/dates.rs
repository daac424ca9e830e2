//! Normalization of the many publish-date encodings found in feeds into one
//! canonical UTC instant.

use chrono::{DateTime, Datelike, NaiveDate, Utc};
use vstd::prelude::*;

verus! {

/// A canonical UTC instant: whole seconds since the Unix epoch and the
/// nanoseconds past that second.
#[derive(Clone, Copy, Debug, PartialEq, Eq, Structural)]
pub struct UtcInstant {
    pub secs: i64,
    pub nanos: u32,
}

/// What chrono's RFC 2822 reader yields for a text, as UTC seconds and nanoseconds.
pub uninterp spec fn rfc2822_instant(s: Seq<char>) -> Option<(i64, u32)>;

/// What chrono's RFC 3339 reader yields for a text, as UTC seconds and nanoseconds.
pub uninterp spec fn rfc3339_instant(s: Seq<char>) -> Option<(i64, u32)>;

/// What chrono's pattern reader for zoned date-times yields for a text and a pattern.
pub uninterp spec fn pattern_instant(s: Seq<char>, pattern: Seq<char>) -> Option<(i64, u32)>;

/// What chrono's pattern reader for calendar dates yields for a text and a
/// pattern, as year, month and day.
pub uninterp spec fn pattern_date(s: Seq<char>, pattern: Seq<char>) -> Option<(i32, u32, u32)>;

/// Relies on chrono's `DateTime::parse_from_rfc2822`, read back in UTC.
#[verifier::external_body]
fn read_rfc2822(s: &str) -> (r: Option<(i64, u32)>)
    ensures
        r == rfc2822_instant(s@),
{
    match DateTime::parse_from_rfc2822(s) {
        Ok(dt) => Some((dt.with_timezone(&Utc).timestamp(), dt.timestamp_subsec_nanos())),
        Err(_) => None,
    }
}

/// Relies on chrono's `DateTime::parse_from_rfc3339`, read back in UTC.
#[verifier::external_body]
fn read_rfc3339(s: &str) -> (r: Option<(i64, u32)>)
    ensures
        r == rfc3339_instant(s@),
{
    match DateTime::parse_from_rfc3339(s) {
        Ok(dt) => Some((dt.with_timezone(&Utc).timestamp(), dt.timestamp_subsec_nanos())),
        Err(_) => None,
    }
}

/// Relies on chrono's `DateTime::parse_from_str`, read back in UTC.
#[verifier::external_body]
fn read_with_pattern(s: &str, pattern: &str) -> (r: Option<(i64, u32)>)
    ensures
        r == pattern_instant(s@, pattern@),
{
    match DateTime::parse_from_str(s, pattern) {
        Ok(dt) => Some((dt.with_timezone(&Utc).timestamp(), dt.timestamp_subsec_nanos())),
        Err(_) => None,
    }
}

/// Relies on chrono's `NaiveDate::parse_from_str`; chrono documents months
/// as 1 to 12 and days of the month as 1 to 31.
#[verifier::external_body]
fn read_date_with_pattern(s: &str, pattern: &str) -> (r: Option<(i32, u32, u32)>)
    ensures
        r == pattern_date(s@, pattern@),
        r matches Some((y, m, d)) ==> 1 <= m <= 12 && 1 <= d <= 31,
{
    match NaiveDate::parse_from_str(s, pattern) {
        Ok(d) => Some((d.year(), d.month(), d.day())),
        Err(_) => None,
    }
}


/// The zoned date-time patterns tried, in order, after RFC 2822 and RFC 3339.
pub open spec fn instant_patterns() -> Seq<Seq<char>> {
    seq![
        "%a, %d %b %Y %H:%M:%S GMT"@,
        "%a, %d %b %Y %H:%M:%S %z"@,
        "%a, %d %b %Y %H:%M:%S %Z"@,
        "%a, %e %b %Y %H:%M:%S %Z"@,
        "%a, %e %b %Y %H:%M:%S GMT"@,
    ]
}

/// The date-only patterns tried, in order, last of all.
pub open spec fn date_patterns() -> Seq<Seq<char>> {
    seq!["%a, %d %b %Y"@, "%a, %e %b %Y"@, "%Y-%m-%d"@]
}

/// The views of a list of patterns.
pub open spec fn pattern_views(ps: Seq<&str>) -> Seq<Seq<char>> {
    ps.map_values(|p: &str| p@)
}

/// The first pattern from index `i` on that reads `s` as a zoned date-time.
pub open spec fn first_pattern_instant(s: Seq<char>, ps: Seq<Seq<char>>, i: int) -> Option<(i64, u32)>
    decreases ps.len() - i,
{
    if i < 0 || i >= ps.len() {
        None
    } else {
        match pattern_instant(s, ps[i]) {
            Some(v) => Some(v),
            None => first_pattern_instant(s, ps, i + 1),
        }
    }
}

/// The first pattern from index `i` on that reads `s` as a calendar date.
pub open spec fn first_pattern_date(s: Seq<char>, ps: Seq<Seq<char>>, i: int) -> Option<(i32, u32, u32)>
    decreases ps.len() - i,
{
    if i < 0 || i >= ps.len() {
        None
    } else {
        match pattern_date(s, ps[i]) {
            Some(v) => Some(v),
            None => first_pattern_date(s, ps, i + 1),
        }
    }
}

pub open spec fn gmt_suffix() -> Seq<char> {
    seq![' ', 'G', 'M', 'T']
}

pub open spec fn zero_offset() -> Seq<char> {
    seq!['+', '0', '0', '0', '0']
}

/// `s` ends with a space and the zone name "GMT".
pub open spec fn ends_with_gmt(s: Seq<char>) -> bool {
    s.len() >= 4 && s.subrange(s.len() - 4, s.len() as int) == gmt_suffix()
}

/// `s` with a trailing "GMT" written as the numeric offset "+0000".
pub open spec fn gmt_as_offset(s: Seq<char>) -> Seq<char> {
    if ends_with_gmt(s) {
        s.subrange(0, s.len() - 3) + zero_offset()
    } else {
        s
    }
}

pub open spec fn is_leap_year(y: int) -> bool {
    (y % 4 == 0 && y % 100 != 0) || y % 400 == 0
}

/// The leap years among the years 1 to `y` (negated, below year 1).
pub open spec fn leap_years_through(y: int) -> int {
    y / 4 - y / 100 + y / 400
}

/// Days from 1970-01-01 to the first of January of year `y`.
pub open spec fn days_before_year(y: int) -> int {
    365 * (y - 1970) + leap_years_through(y - 1) - leap_years_through(1969)
}

/// Days in the months of year `y` before month `m`.
pub open spec fn days_before_month(y: int, m: int) -> int {
    let common: int = if m <= 1 {
        0
    } else if m == 2 {
        31
    } else if m == 3 {
        59
    } else if m == 4 {
        90
    } else if m == 5 {
        120
    } else if m == 6 {
        151
    } else if m == 7 {
        181
    } else if m == 8 {
        212
    } else if m == 9 {
        243
    } else if m == 10 {
        273
    } else if m == 11 {
        304
    } else {
        334
    };
    common + if m > 2 && is_leap_year(y) { 1int } else { 0int }
}

/// Days from the Unix epoch to the given calendar date.
pub open spec fn days_since_epoch(y: int, m: int, d: int) -> int {
    days_before_year(y) + days_before_month(y, m) + d - 1
}

/// Midnight UTC at the start of the given calendar date.
pub open spec fn midnight_utc(date: (i32, u32, u32)) -> UtcInstant {
    UtcInstant {
        secs: (86400 * days_since_epoch(date.0 as int, date.1 as int, date.2 as int)) as i64,
        nanos: 0,
    }
}

pub open spec fn instant_of(v: (i64, u32)) -> UtcInstant {
    UtcInstant { secs: v.0, nanos: v.1 }
}

/// The canonical instant of a raw date text: the first of RFC 2822, RFC 3339,
/// the zoned patterns and the date-only patterns (read as midnight UTC) that
/// accepts the text with a trailing "GMT" written as "+0000".
pub open spec fn normalized(raw: Seq<char>) -> Option<UtcInstant> {
    let s = gmt_as_offset(raw);
    match rfc2822_instant(s) {
        Some(v) => Some(instant_of(v)),
        None => match rfc3339_instant(s) {
            Some(v) => Some(instant_of(v)),
            None => match first_pattern_instant(s, instant_patterns(), 0) {
                Some(v) => Some(instant_of(v)),
                None => match first_pattern_date(s, date_patterns(), 0) {
                    Some(d) => Some(midnight_utc(d)),
                    None => None,
                },
            },
        },
    }
}

fn instant_pattern_list() -> (r: Vec<&'static str>)
    ensures
        pattern_views(r@) == instant_patterns(),
{
    let r = vec![
        "%a, %d %b %Y %H:%M:%S GMT",
        "%a, %d %b %Y %H:%M:%S %z",
        "%a, %d %b %Y %H:%M:%S %Z",
        "%a, %e %b %Y %H:%M:%S %Z",
        "%a, %e %b %Y %H:%M:%S GMT",
    ];
    assert(pattern_views(r@) =~= instant_patterns());
    r
}

fn date_pattern_list() -> (r: Vec<&'static str>)
    ensures
        pattern_views(r@) == date_patterns(),
{
    let r = vec!["%a, %d %b %Y", "%a, %e %b %Y", "%Y-%m-%d"];
    assert(pattern_views(r@) =~= date_patterns());
    r
}

fn read_first_pattern_instant(s: &str, ps: &Vec<&str>) -> (r: Option<(i64, u32)>)
    ensures
        r == first_pattern_instant(s@, pattern_views(ps@), 0),
{
    let ghost views = pattern_views(ps@);
    let mut i: usize = 0;
    while i < ps.len()
        invariant
            i <= ps.len(),
            views == pattern_views(ps@),
            first_pattern_instant(s@, views, 0) == first_pattern_instant(s@, views, i as int),
        decreases ps.len() - i,
    {
        let got = read_with_pattern(s, ps[i]);
        if got.is_some() {
            return got;
        }
        i = i + 1;
    }
    None
}

fn read_first_pattern_date(s: &str, ps: &Vec<&str>) -> (r: Option<(i32, u32, u32)>)
    ensures
        r == first_pattern_date(s@, pattern_views(ps@), 0),
        r matches Some((y, m, d)) ==> 1 <= m <= 12 && 1 <= d <= 31,
{
    let ghost views = pattern_views(ps@);
    let mut i: usize = 0;
    while i < ps.len()
        invariant
            i <= ps.len(),
            views == pattern_views(ps@),
            first_pattern_date(s@, views, 0) == first_pattern_date(s@, views, i as int),
        decreases ps.len() - i,
    {
        let got = read_date_with_pattern(s, ps[i]);
        if got.is_some() {
            return got;
        }
        i = i + 1;
    }
    None
}


/// `raw` with a trailing " GMT" written as " +0000".
fn rewrite_gmt(raw: &str) -> (r: String)
    ensures
        r@ == gmt_as_offset(raw@),
{
    let n = raw.unicode_len();
    if n >= 4 && raw.get_char(n - 4) == ' ' && raw.get_char(n - 3) == 'G' && raw.get_char(n - 2)
        == 'M' && raw.get_char(n - 1) == 'T' {
        assert(raw@.subrange(n - 4, n as int) =~= gmt_suffix());
        let mut r = String::from_str(raw.substring_char(0, n - 3));
        r.append("+0000");
        proof {
            reveal_strlit("+0000");
        }
        assert(r@ =~= gmt_as_offset(raw@));
        r
    } else {
        assert(!ends_with_gmt(raw@)) by {
            if ends_with_gmt(raw@) {
                let tail = raw@.subrange(n - 4, n as int);
                assert(tail[0] == raw@[n - 4]);
                assert(tail[1] == raw@[n - 3]);
                assert(tail[2] == raw@[n - 2]);
                assert(tail[3] == raw@[n - 1]);
            }
        }
        String::from_str(raw)
    }
}

/// The leap years among the years 1 to `y`, by floor division.
fn count_leap_years(y: i64) -> (r: i64)
    requires
        -4_000_000_000 <= y <= 4_000_000_000,
    ensures
        r == leap_years_through(y as int),
{
    if y >= 0 {
        y / 4 - y / 100 + y / 400
    } else {
        let p = -y;
        assert((y as int) / 4 == -((p as int + 3) / 4));
        assert((y as int) / 100 == -((p as int + 99) / 100));
        assert((y as int) / 400 == -((p as int + 399) / 400));
        -((p + 3) / 4) + (p + 99) / 100 - (p + 399) / 400
    }
}

/// Midnight UTC at the start of a calendar date.
fn midnight_of(date: (i32, u32, u32)) -> (r: UtcInstant)
    requires
        1 <= date.1 <= 12,
        1 <= date.2 <= 31,
    ensures
        r == midnight_utc(date),
{
    let (y, m, d) = date;
    let y = y as i64;
    let leap = (y % 4 == 0 && y % 100 != 0) || y % 400 == 0;
    assert(leap == is_leap_year(y as int)) by {
        if y < 0 {
            assert((y % 4 == 0) == ((y as int) % 4 == 0));
            assert((y % 100 == 0) == ((y as int) % 100 == 0));
            assert((y % 400 == 0) == ((y as int) % 400 == 0));
        }
    }
    let common: i64 = if m <= 1 {
        0
    } else if m == 2 {
        31
    } else if m == 3 {
        59
    } else if m == 4 {
        90
    } else if m == 5 {
        120
    } else if m == 6 {
        151
    } else if m == 7 {
        181
    } else if m == 8 {
        212
    } else if m == 9 {
        243
    } else if m == 10 {
        273
    } else if m == 11 {
        304
    } else {
        334
    };
    let month_days = if m > 2 && leap { common + 1 } else { common };
    let year_days = 365 * (y - 1970) + count_leap_years(y - 1) - count_leap_years(1969);
    let days = year_days + month_days + d as i64 - 1;
    UtcInstant { secs: 86400 * days, nanos: 0 }
}

/// Normalizes a raw publish-date text into a canonical UTC instant, or
/// nothing where no supported encoding reads it.
pub fn parse_date(dt: &str) -> (r: Option<UtcInstant>)
    ensures
        r == normalized(dt@),
{
    let s = rewrite_gmt(dt);
    let s = s.as_str();
    if let Some(v) = read_rfc2822(s) {
        return Some(UtcInstant { secs: v.0, nanos: v.1 });
    }
    if let Some(v) = read_rfc3339(s) {
        return Some(UtcInstant { secs: v.0, nanos: v.1 });
    }
    if let Some(v) = read_first_pattern_instant(s, &instant_pattern_list()) {
        return Some(UtcInstant { secs: v.0, nanos: v.1 });
    }
    match read_first_pattern_date(s, &date_pattern_list()) {
        Some(d) => Some(midnight_of(d)),
        None => None,
    }
}

/// A trailing "GMT" zone reads exactly as the numeric offset "+0000".
pub proof fn lemma_gmt_reads_as_zero_offset(prefix: Seq<char>)
    ensures
        normalized(prefix + gmt_suffix()) == normalized(prefix + seq![' '] + zero_offset()),
{
    let g = prefix + gmt_suffix();
    let z = prefix + seq![' '] + zero_offset();
    assert(g.subrange(g.len() - 4, g.len() as int) =~= gmt_suffix());
    assert(g.subrange(0, g.len() - 3) =~= prefix + seq![' ']);
    assert(gmt_as_offset(g) =~= z);
    assert(z[z.len() - 1] == '0');
    if ends_with_gmt(z) {
        assert(z.subrange(z.len() - 4, z.len() as int)[3] == z[z.len() - 1]);
    }
    assert(gmt_as_offset(z) == z);
}

/// The message logged for a date text that no supported encoding reads.
pub fn date_parse_error(date: &str) -> (r: String)
    ensures
        r@ == "Failed to parse date and time: '"@ + date@ + "'"@,
{
    let mut r = String::from_str("Failed to parse date and time: '");
    r.append(date);
    r.append("'");
    r
}

} // verus!
