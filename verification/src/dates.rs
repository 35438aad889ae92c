//! Calendar conversions for transaction dates: Gregorian timestamps
//! parsed and converted to the Persian (Jalali/Shamsi) calendar.

use vstd::prelude::*;

use crate::strutil::dec_rep;
use crate::strutil::push_char;
use crate::strutil::u64_to_string;

verus! {

/// The calendar date that `chrono` parses out of a
/// `YYYY-MM-DD HH:MM:SS` string; the result depends on the characters
/// alone.
pub uninterp spec fn gregorian_ymd_of(s: Seq<char>) -> Option<(i32, u32, u32)>;

/// Relies on `chrono::NaiveDate::parse_from_str` with the format
/// `%Y-%m-%d %H:%M:%S`: a deterministic parse of the date part.
#[verifier::external_body]
pub fn parse_gregorian_datetime(s: &str) -> (r: Option<(i32, u32, u32)>)
    ensures
        r == gregorian_ymd_of(s@),
{
    match chrono::NaiveDate::parse_from_str(s, "%Y-%m-%d %H:%M:%S") {
        Ok(d) => Some((chrono::Datelike::year(&d), chrono::Datelike::month(&d), chrono::Datelike::day(&d))),
        Err(_) => None,
    }
}

/// The Persian calendar date for a Gregorian year, month and day; the
/// result depends on the three numbers alone.
pub uninterp spec fn parsi_ymd_of(y: i32, m: u32, d: u32) -> Option<(i32, u32, u32)>;

/// Relies on `parsidate::ParsiDate::from_gregorian` (the arguments
/// converted through `chrono::NaiveDate::from_ymd_opt`): the
/// deterministic Gregorian-to-Persian calendar conversion.
#[verifier::external_body]
pub fn gregorian_to_parsi(y: i32, m: u32, d: u32) -> (r: Option<(i32, u32, u32)>)
    ensures
        r == parsi_ymd_of(y, m, d),
{
    chrono::NaiveDate::from_ymd_opt(y, m, d)
        .and_then(|g| parsidate::ParsiDate::from_gregorian(g).ok())
        .map(|p| (p.year(), p.month(), p.day()))
}

/// A month or day number, zero-padded to two digits.
pub open spec fn pad2(n: nat) -> Seq<char> {
    if n < 10 {
        seq!['0'] + dec_rep(n)
    } else {
        dec_rep(n)
    }
}

/// A Persian date rendered as `Y/MM/DD`, the year unpadded and month
/// and day zero-padded to two digits.
pub open spec fn rendered_parsi_date(y: nat, m: nat, d: nat) -> Seq<char> {
    dec_rep(y) + seq!['/'] + pad2(m) + seq!['/'] + pad2(d)
}

/// Renders a nonnegative Persian date as `Y/MM/DD`.
pub fn render_parsi_date(y: u32, m: u32, d: u32) -> (r: String)
    ensures
        r@ == rendered_parsi_date(y as nat, m as nat, d as nat),
{
    let mut out = u64_to_string(y as u64);
    push_char(&mut out, '/');
    if m < 10 {
        push_char(&mut out, '0');
    }
    out.append(u64_to_string(m as u64).as_str());
    push_char(&mut out, '/');
    if d < 10 {
        push_char(&mut out, '0');
    }
    out.append(u64_to_string(d as u64).as_str());
    proof {
        assert(out@ =~= rendered_parsi_date(y as nat, m as nat, d as nat));
    }
    out
}

/// The Persian display form of a stored transaction timestamp: the
/// converted date where the string parses and converts, the string
/// itself where it does not.
pub open spec fn shamsi_display_of(s: Seq<char>) -> Seq<char> {
    if s.len() == 0 {
        s
    } else {
        match gregorian_ymd_of(s) {
            Some((y, m, d)) => match parsi_ymd_of(y, m, d) {
                Some((py, pm, pd)) => if py >= 0 {
                    rendered_parsi_date(py as nat, pm as nat, pd as nat)
                } else {
                    s
                },
                None => s,
            },
            None => s,
        }
    }
}

/// Formats a stored `YYYY-MM-DD HH:MM:SS` timestamp as a Persian
/// calendar date `Y/MM/DD`; anything that does not parse or convert
/// is returned unchanged.
pub fn format_date_shamsi(date: &str) -> (r: String)
    ensures
        r@ == shamsi_display_of(date@),
{
    if date.is_empty() {
        return date.to_owned();
    }
    match parse_gregorian_datetime(date) {
        Some((y, m, d)) => match gregorian_to_parsi(y, m, d) {
            Some((py, pm, pd)) => if py >= 0 {
                render_parsi_date(py as u32, pm, pd)
            } else {
                date.to_owned()
            },
            None => date.to_owned(),
        },
        None => date.to_owned(),
    }
}

} // verus!
