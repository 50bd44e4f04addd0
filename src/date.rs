use vstd::prelude::*;

verus! {

pub open spec fn is_digit(c: char) -> bool {
    '0' <= c <= '9'
}

/// A date written day-month-year: two digits of day, '-', two digits of
/// month, '-', then a year of at least four characters.
pub open spec fn is_day_month_year(s: Seq<char>) -> bool {
    &&& s.len() >= 10
    &&& is_digit(s[0])
    &&& is_digit(s[1])
    &&& s[2] == '-'
    &&& is_digit(s[3])
    &&& is_digit(s[4])
    &&& s[5] == '-'
}

/// Relies on chrono's `Local::now` and its `%d-%m-%Y` formatting, which
/// writes day and month as two zero-padded digits and the year as at least
/// four characters. Which date it is depends on the clock.
#[verifier::external_body]
fn today() -> (r: String)
    ensures
        is_day_month_year(r@),
{
    chrono::Local::now().format("%d-%m-%Y").to_string()
}

/// The travel date of a search: the one given, else today's.
pub fn travel_date(date: Option<String>) -> (r: String)
    ensures
        match date {
            Some(d) => r == d,
            None => is_day_month_year(r@),
        },
{
    match date {
        Some(d) => d,
        None => today(),
    }
}

} // verus!
