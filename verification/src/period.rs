//! Journal periods: a calendar date as plain values, the configurable
//! granularity, and the period and sub-period labels derived from a date.

use chrono::Datelike;
use vstd::prelude::*;

verus! {

/// A calendar date, held as plain values.
pub struct Date {
    pub year: u16,
    pub month: u8,
    pub day: u8,
}

/// A well-formed date: a four-digit year and calendar month and day ranges.
pub open spec fn date_wf(d: Date) -> bool {
    d.year <= 9999 && 1 <= d.month <= 12 && 1 <= d.day <= 31
}

/// How coarsely entries are grouped into pages: one page per day, or one
/// page per month.
pub enum Granularity {
    Day,
    Month,
}

/// The decimal digit for a value below ten.
pub open spec fn digit_char(n: int) -> char {
    if n == 0 {
        '0'
    } else if n == 1 {
        '1'
    } else if n == 2 {
        '2'
    } else if n == 3 {
        '3'
    } else if n == 4 {
        '4'
    } else if n == 5 {
        '5'
    } else if n == 6 {
        '6'
    } else if n == 7 {
        '7'
    } else if n == 8 {
        '8'
    } else {
        '9'
    }
}

fn digit(n: u16) -> (r: char)
    requires
        n < 10,
    ensures
        r == digit_char(n as int),
{
    match n {
        0 => '0',
        1 => '1',
        2 => '2',
        3 => '3',
        4 => '4',
        5 => '5',
        6 => '6',
        7 => '7',
        8 => '8',
        _ => '9',
    }
}

/// The English month name for a month number.
pub open spec fn month_name_spec(m: int) -> Seq<char> {
    if m == 1 {
        "January"@
    } else if m == 2 {
        "February"@
    } else if m == 3 {
        "March"@
    } else if m == 4 {
        "April"@
    } else if m == 5 {
        "May"@
    } else if m == 6 {
        "June"@
    } else if m == 7 {
        "July"@
    } else if m == 8 {
        "August"@
    } else if m == 9 {
        "September"@
    } else if m == 10 {
        "October"@
    } else if m == 11 {
        "November"@
    } else {
        "December"@
    }
}

fn month_name(m: u8) -> (r: &'static str)
    requires
        1 <= m <= 12,
    ensures
        r@ == month_name_spec(m as int),
{
    match m {
        1 => "January",
        2 => "February",
        3 => "March",
        4 => "April",
        5 => "May",
        6 => "June",
        7 => "July",
        8 => "August",
        9 => "September",
        10 => "October",
        11 => "November",
        _ => "December",
    }
}

/// The year written with four digits.
pub open spec fn year4_spec(y: int) -> Seq<char> {
    seq![
        digit_char(y / 1000),
        digit_char((y / 100) % 10),
        digit_char((y / 10) % 10),
        digit_char(y % 10),
    ]
}

/// The day of month, space-padded to width two.
pub open spec fn day_padded_spec(d: int) -> Seq<char> {
    if d < 10 {
        seq![' ', digit_char(d)]
    } else {
        seq![digit_char(d / 10), digit_char(d % 10)]
    }
}

/// The label of one specific day: month name, space-padded day, year.
pub open spec fn day_label_spec(d: Date) -> Seq<char> {
    month_name_spec(d.month as int) + " "@ + day_padded_spec(d.day as int) + ", "@ + year4_spec(
        d.year as int,
    )
}

/// The title of the page a date's entries belong to, by granularity.
pub open spec fn period_label_spec(g: Granularity, d: Date) -> Seq<char> {
    match g {
        Granularity::Day => day_label_spec(d),
        Granularity::Month => month_name_spec(d.month as int) + " "@ + year4_spec(d.year as int),
    }
}

fn append_year4(out: &mut String, y: u16)
    requires
        y <= 9999,
    ensures
        final(out)@ == old(out)@ + year4_spec(y as int),
{
    crate::text::push_char(out, digit(y / 1000));
    crate::text::push_char(out, digit((y / 100) % 10));
    crate::text::push_char(out, digit((y / 10) % 10));
    crate::text::push_char(out, digit(y % 10));
    proof {
        assert(out@ =~= old(out)@ + year4_spec(y as int));
    }
}

fn append_day_padded(out: &mut String, d: u8)
    requires
        1 <= d <= 31,
    ensures
        final(out)@ == old(out)@ + day_padded_spec(d as int),
{
    if d < 10 {
        crate::text::push_char(out, ' ');
        crate::text::push_char(out, digit(d as u16));
    } else {
        crate::text::push_char(out, digit((d / 10) as u16));
        crate::text::push_char(out, digit((d % 10) as u16));
    }
    proof {
        assert(out@ =~= old(out)@ + day_padded_spec(d as int));
    }
}

/// The sub-period label that marks one day inside a page.
pub fn day_label(d: &Date) -> (r: String)
    requires
        date_wf(*d),
    ensures
        r@ == day_label_spec(*d),
{
    let mut r = String::from_str(month_name(d.month));
    r.append(" ");
    append_day_padded(&mut r, d.day);
    r.append(", ");
    append_year4(&mut r, d.year);
    proof {
        assert(r@ =~= day_label_spec(*d));
    }
    r
}

/// The period label a date falls under: the title of its page.
pub fn period_label(g: &Granularity, d: &Date) -> (r: String)
    requires
        date_wf(*d),
    ensures
        r@ == period_label_spec(*g, *d),
{
    match g {
        Granularity::Day => day_label(d),
        Granularity::Month => {
            let mut r = String::from_str(month_name(d.month));
            r.append(" ");
            append_year4(&mut r, d.year);
            proof {
                assert(r@ =~= period_label_spec(*g, *d));
            }
            r
        },
    }
}

/// Relies on chrono's `Utc::now` and `Datelike`: the month ranges over
/// 1 to 12 and the day over 1 to 31.
#[verifier::external_body]
fn today_utc_raw() -> (r: (i64, u8, u8))
    ensures
        1 <= r.1 <= 12,
        1 <= r.2 <= 31,
{
    let now = chrono::Utc::now();
    (now.year() as i64, now.month() as u8, now.day() as u8)
}

/// Builds a date from raw clock parts: exactly the years that fit four
/// digits are accepted, and the fields are taken as given.
pub fn date_from_parts(y: i64, m: u8, d: u8) -> (r: Option<Date>)
    requires
        1 <= m <= 12,
        1 <= d <= 31,
    ensures
        (r is Some) == (0 <= y <= 9999),
        r is Some ==> r->0 == (Date { year: y as u16, month: m, day: d }),
{
    if 0 <= y && y <= 9999 {
        Some(Date { year: y as u16, month: m, day: d })
    } else {
        None
    }
}

/// The current date in UTC; `None` for a clock year outside four digits.
pub fn today_date() -> (r: Option<Date>)
    ensures
        r is Some ==> date_wf(r->0),
{
    let (y, m, d) = today_utc_raw();
    date_from_parts(y, m, d)
}

/// Relies on chrono's `Utc::now().to_rfc3339()` for the creation timestamp
/// a new page is stamped with.
#[verifier::external_body]
fn now_rfc3339() -> (r: String) {
    chrono::Utc::now().to_rfc3339()
}

/// Builds the create-page body for a new page, stamped with the current
/// time; the title and collection parts are rendered exactly.
pub fn create_page_payload_now(title: &str, db: &str) -> (r: String)
    ensures
        exists|ts: Seq<char>|
            r@ == crate::wire::create_page_payload_spec(title@, db@, ts),
{
    let ts = now_rfc3339();
    let r = crate::wire::create_page_payload(title, db, ts.as_str());
    proof {
        assert(r@ == crate::wire::create_page_payload_spec(title@, db@, ts@));
    }
    r
}

} // verus!
