//! Names and headers of the dated notes and their statistics files.

use vstd::prelude::*;

verus! {

/// Whether `year` has a 29th of February.
pub open spec fn is_leap(year: int) -> bool {
    (year % 4 == 0 && year % 100 != 0) || year % 400 == 0
}

/// Number of days of `month` in `year`.
pub open spec fn days_in_month(year: int, month: int) -> int {
    if month == 2 {
        if is_leap(year) {
            29
        } else {
            28
        }
    } else if month == 4 || month == 6 || month == 9 || month == 11 {
        30
    } else {
        31
    }
}

/// The decimal digit `d`.
pub open spec fn digit(d: int) -> char {
    seq!['0', '1', '2', '3', '4', '5', '6', '7', '8', '9'][d]
}

/// The last `width` decimal digits of `n`, zero-padded.
pub open spec fn padded(n: int, width: nat) -> Seq<char>
    decreases width,
{
    if width == 0 {
        seq![]
    } else {
        padded(n / 10, (width - 1) as nat).push(digit(n % 10))
    }
}

/// `YYYY-MM-DD`.
pub open spec fn iso_text(year: int, month: int, day: int) -> Seq<char> {
    padded(year, 4) + seq!['-'] + padded(month, 2) + seq!['-'] + padded(day, 2)
}

/// The long form of a date that chrono's `%A, %B %d, %Y` writes, such as
/// `Monday, October 19, 2026`.
pub uninterp spec fn long_date_text(year: int, month: int, day: int) -> Seq<char>;

/// Relies on chrono's `NaiveDate::from_ymd_opt`, which accepts every real
/// calendar day of the years 1 to 9999, and on its `%Y-%m-%d` format, which
/// writes such a year as four zero-padded digits and month and day as two.
#[verifier::external_body]
fn iso_date(year: i32, month: u32, day: u32) -> (r: Option<Vec<char>>)
    ensures
        1 <= year <= 9999 && 1 <= month <= 12 && 1 <= day <= days_in_month(year as int, month as int)
            ==> r.is_some() && r.unwrap()@ == iso_text(year as int, month as int, day as int),
{
    match chrono::NaiveDate::from_ymd_opt(year, month, day) {
        Some(d) => Some(d.format("%Y-%m-%d").to_string().chars().collect()),
        None => None,
    }
}

/// Relies on chrono's `NaiveDate::from_ymd_opt`, which accepts every real
/// calendar day of the years 1 to 9999, and on its `%A, %B %d, %Y` format,
/// whose text depends on the date alone.
#[verifier::external_body]
fn long_date(year: i32, month: u32, day: u32) -> (r: Option<Vec<char>>)
    ensures
        1 <= year <= 9999 && 1 <= month <= 12 && 1 <= day <= days_in_month(year as int, month as int)
            ==> r.is_some() && r.unwrap()@ == long_date_text(year as int, month as int, day as int),
{
    match chrono::NaiveDate::from_ymd_opt(year, month, day) {
        Some(d) => Some(d.format("%A, %B %d, %Y").to_string().chars().collect()),
        None => None,
    }
}

/// A calendar day of the years 1 to 9999.
#[derive(Clone, Copy, Debug, PartialEq, Eq, Structural)]
pub struct Date {
    pub year: i32,
    pub month: u32,
    pub day: u32,
}

impl Date {
    pub open spec fn wf(&self) -> bool {
        &&& 1 <= self.year <= 9999
        &&& 1 <= self.month <= 12
        &&& 1 <= self.day <= days_in_month(self.year as int, self.month as int)
    }

    /// The date, when it is a real calendar day of the years 1 to 9999.
    pub fn new(year: i32, month: u32, day: u32) -> (r: Option<Date>)
        ensures
            match r {
                Some(d) => d.wf() && d.year == year && d.month == month && d.day == day,
                None => !(Date { year, month, day }).wf(),
            },
    {
        if year < 1 || year > 9999 || month < 1 || month > 12 || day < 1 {
            return None;
        }
        let leap = (year % 4 == 0 && year % 100 != 0) || year % 400 == 0;
        let last: u32 = if month == 2 {
            if leap {
                29
            } else {
                28
            }
        } else if month == 4 || month == 6 || month == 9 || month == 11 {
            30
        } else {
            31
        };
        if day > last {
            None
        } else {
            Some(Date { year, month, day })
        }
    }

    /// `YYYY-MM-DD`.
    pub fn iso(&self) -> (r: Vec<char>)
        requires
            self.wf(),
        ensures
            r@ == iso_text(self.year as int, self.month as int, self.day as int),
    {
        match iso_date(self.year, self.month, self.day) {
            Some(text) => text,
            None => Vec::new(),
        }
    }
}

/// `text` followed by the characters of `tail`.
fn with_tail(text: Vec<char>, tail: &Vec<char>) -> (r: Vec<char>)
    ensures
        r@ == text@ + tail@,
{
    let mut r = text;
    let ghost head = r@;
    let mut i: usize = 0;
    while i < tail.len()
        invariant
            i <= tail.len(),
            r@ == head + tail@.subrange(0, i as int),
        decreases tail.len() - i,
    {
        r.push(tail[i]);
        assert(r@ =~= head + tail@.subrange(0, i + 1));
        i += 1;
    }
    assert(tail@.subrange(0, tail.len() as int) =~= tail@);
    r
}

/// File name of the note of `date`: `YYYY-MM-DD.md`.
pub fn note_file_name(date: &Date) -> (r: Vec<char>)
    requires
        date.wf(),
    ensures
        r@ == iso_text(date.year as int, date.month as int, date.day as int) + seq!['.', 'm', 'd'],
{
    with_tail(date.iso(), &vec!['.', 'm', 'd'])
}

/// File name of the typing statistics of `date`: `.stats-YYYY-MM-DD.toml`.
pub fn stats_file_name(date: &Date) -> (r: Vec<char>)
    requires
        date.wf(),
    ensures
        r@ == seq!['.', 's', 't', 'a', 't', 's', '-'] + iso_text(
            date.year as int,
            date.month as int,
            date.day as int,
        ) + seq!['.', 't', 'o', 'm', 'l'],
{
    let head = with_tail(vec!['.', 's', 't', 'a', 't', 's', '-'], &date.iso());
    with_tail(head, &vec!['.', 't', 'o', 'm', 'l'])
}

/// The opening text of a new note: a heading with the long date, then a
/// blank line.
pub fn note_header(date: &Date) -> (r: Vec<char>)
    requires
        date.wf(),
    ensures
        r@ == seq!['#', ' '] + long_date_text(date.year as int, date.month as int, date.day as int)
            + seq!['\n', '\n'],
{
    let long = match long_date(date.year, date.month, date.day) {
        Some(text) => text,
        None => Vec::new(),
    };
    let head = with_tail(vec!['#', ' '], &long);
    with_tail(head, &vec!['\n', '\n'])
}

} // verus!
