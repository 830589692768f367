//! Capture-date classification: turns an optional UNIX modification
//! timestamp into the date segment of the destination path, `YYYY.MM.DD` in
//! UTC, or the sentinel `no date` when no valid timestamp is available.

use vstd::prelude::*;
use vstd::string::*;
use crate::text::{spec_dec, dec_string};
use chrono::Datelike;

verus! {

/// The UTC calendar date `(year, month, day)` of a UNIX timestamp, or `None`
/// when the timestamp lies outside the representable calendar range.
pub uninterp spec fn utc_ymd_of(secs: int) -> Option<(int, int, int)>;

/// Relies on `chrono::DateTime::<Utc>::from_timestamp` and on
/// `chrono::Datelike`'s `year`, `month` and `day`: the UTC calendar date is a
/// function of the timestamp alone; `from_timestamp` returns `None` exactly
/// on out-of-range seconds, `month` ranges over 1 to 12 and `day` over 1 to
/// 31.
#[verifier::external_body]
fn utc_ymd(secs: i64) -> (r: Option<(i64, u32, u32)>)
    ensures
        r is Some <==> utc_ymd_of(secs as int) is Some,
        r matches Some(t) ==> (utc_ymd_of(secs as int) matches Some(q) && t.0 as int == q.0
            && t.1 as int == q.1 && t.2 as int == q.2 && 1 <= t.1 <= 12 && 1 <= t.2 <= 31),
{
    let dt = chrono::DateTime::<chrono::Utc>::from_timestamp(secs, 0)?;
    Some((dt.year() as i64, dt.month(), dt.day()))
}

/// A number zero-padded on the left to two digits.
pub open spec fn spec_pad2(n: int) -> Seq<char> {
    if n < 10 {
        seq!['0'] + spec_dec(n)
    } else {
        spec_dec(n)
    }
}

/// A number zero-padded on the left to four digits.
pub open spec fn spec_pad4(n: int) -> Seq<char> {
    if n < 10 {
        seq!['0', '0', '0'] + spec_dec(n)
    } else if n < 100 {
        seq!['0', '0'] + spec_dec(n)
    } else if n < 1000 {
        seq!['0'] + spec_dec(n)
    } else {
        spec_dec(n)
    }
}

/// The year part of the date segment: zero-padded to four digits, with a
/// leading sign outside the years 0 to 9999.
pub open spec fn spec_year(y: int) -> Seq<char> {
    if y < 0 {
        seq!['-'] + spec_pad4(-y)
    } else if y > 9999 {
        seq!['+'] + spec_dec(y)
    } else {
        spec_pad4(y)
    }
}

/// The full date segment `YYYY.MM.DD`.
pub open spec fn spec_date_seq(y: int, m: int, d: int) -> Seq<char> {
    spec_year(y) + seq!['.'] + spec_pad2(m) + seq!['.'] + spec_pad2(d)
}

/// The sentinel date segment used when no valid timestamp is available.
pub open spec fn no_date_seq() -> Seq<char> {
    seq!['n', 'o', ' ', 'd', 'a', 't', 'e']
}

/// The date segment for an optional modification timestamp: the formatted
/// UTC date when the timestamp is present and representable, the sentinel
/// otherwise.
pub open spec fn spec_capture_date(modified_secs: Option<i64>) -> Seq<char> {
    match modified_secs {
        None => no_date_seq(),
        Some(s) => match utc_ymd_of(s as int) {
            None => no_date_seq(),
            Some(q) => spec_date_seq(q.0, q.1, q.2),
        },
    }
}

fn pad2(n: u64) -> (r: String)
    ensures
        r@ == spec_pad2(n as int),
{
    if n < 10 {
        proof {
            reveal_strlit("0");
            assert("0"@ =~= seq!['0']);
        }
        String::from_str("0").concat(dec_string(n).as_str())
    } else {
        dec_string(n)
    }
}

fn pad4(n: u64) -> (r: String)
    ensures
        r@ == spec_pad4(n as int),
{
    proof {
        reveal_strlit("000");
        reveal_strlit("00");
        reveal_strlit("0");
        assert("000"@ =~= seq!['0', '0', '0']);
        assert("00"@ =~= seq!['0', '0']);
        assert("0"@ =~= seq!['0']);
    }
    if n < 10 {
        String::from_str("000").concat(dec_string(n).as_str())
    } else if n < 100 {
        String::from_str("00").concat(dec_string(n).as_str())
    } else if n < 1000 {
        String::from_str("0").concat(dec_string(n).as_str())
    } else {
        dec_string(n)
    }
}

fn year_string(y: i64) -> (r: String)
    ensures
        r@ == spec_year(y as int),
{
    if y < 0 {
        let mag: u64 = ((-(y + 1)) as u64) + 1;
        assert(mag as int == -(y as int));
        proof {
            reveal_strlit("-");
            assert("-"@ =~= seq!['-']);
        }
        String::from_str("-").concat(pad4(mag).as_str())
    } else if y > 9999 {
        proof {
            reveal_strlit("+");
            assert("+"@ =~= seq!['+']);
        }
        String::from_str("+").concat(dec_string(y as u64).as_str())
    } else {
        pad4(y as u64)
    }
}

/// Formats a calendar date as the `YYYY.MM.DD` date segment.
pub fn format_ymd(y: i64, m: u32, d: u32) -> (r: String)
    ensures
        r@ == spec_date_seq(y as int, m as int, d as int),
{
    proof {
        reveal_strlit(".");
        assert("."@ =~= seq!['.']);
    }
    let mut r = year_string(y);
    r.append(".");
    r.append(pad2(m as u64).as_str());
    r.append(".");
    r.append(pad2(d as u64).as_str());
    r
}

/// The sentinel date segment as a string.
pub fn no_date_string() -> (r: String)
    ensures
        r@ == no_date_seq(),
{
    proof {
        reveal_strlit("no date");
        assert("no date"@ =~= no_date_seq());
    }
    String::from_str("no date")
}

/// The date segment for a file: the UTC date of its modification timestamp
/// as `YYYY.MM.DD`, or `no date` when the timestamp is absent or not
/// representable.
pub fn capture_date(modified_secs: Option<i64>) -> (r: String)
    ensures
        r@ == spec_capture_date(modified_secs),
{
    match modified_secs {
        None => no_date_string(),
        Some(s) => match utc_ymd(s) {
            None => no_date_string(),
            Some((y, m, d)) => format_ymd(y, m, d),
        },
    }
}

} // verus!
