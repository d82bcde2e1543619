//! Stored times written as text.

use vstd::prelude::*;

verus! {

/// A time, given in microseconds, written as day, month and year, the word
/// `в`, hours and minutes; nothing for a time beyond the calendar.
pub uninterp spec fn moment_text(micros: int) -> Option<Seq<char>>;

/// A time, given in microseconds, written as date and time of day in the
/// plain form of the calendar, with the fraction of the second where there
/// is one; nothing for a time beyond the calendar.
pub uninterp spec fn plain_moment_text(micros: int) -> Option<Seq<char>>;

/// `chrono::NaiveDateTime::format` with the pattern `%d-%m-%Y в %H:%M`, on
/// the time that `chrono::DateTime::from_timestamp_micros` makes of the
/// microseconds: the text depends on the microseconds alone, and there is
/// none where they lie beyond the years that the calendar can hold.
#[verifier::external_body]
fn format_moment(micros: i64) -> (text: Option<String>)
    ensures
        match text {
            Some(t) => moment_text(micros as int) == Some(t@),
            None => moment_text(micros as int) is None,
        },
{
    match chrono::DateTime::from_timestamp_micros(micros) {
        Some(moment) => Some(moment.naive_utc().format("%d-%m-%Y в %H:%M").to_string()),
        None => None,
    }
}

/// `chrono::NaiveDateTime`'s `Display`, on the time that
/// `chrono::DateTime::from_timestamp_micros` makes of the microseconds: the
/// text depends on the microseconds alone, and there is none where they lie
/// beyond the years that the calendar can hold.
#[verifier::external_body]
fn format_plain_moment(micros: i64) -> (text: Option<String>)
    ensures
        match text {
            Some(t) => plain_moment_text(micros as int) == Some(t@),
            None => plain_moment_text(micros as int) is None,
        },
{
    match chrono::DateTime::from_timestamp_micros(micros) {
        Some(moment) => Some(moment.naive_utc().to_string()),
        None => None,
    }
}

/// The text shown for a written time: the text itself, and the empty text
/// where there is none.
pub open spec fn shown_text(written: Option<Seq<char>>) -> Seq<char> {
    match written {
        Some(text) => text,
        None => Seq::empty(),
    }
}

/// Chooses the text shown for a written time.
pub fn text_or_empty(written: Option<String>) -> (text: String)
    ensures
        text@ == shown_text(
            match written {
                Some(t) => Some(t@),
                None => None,
            },
        ),
{
    match written {
        Some(text) => text,
        None => String::new(),
    }
}

/// Writes the time at which something was created, as pages show it.
pub fn created_text(micros: i64) -> (text: String)
    ensures
        text@ == shown_text(moment_text(micros as int)),
{
    text_or_empty(format_moment(micros))
}

/// Writes the time at which something was created, in the plain form.
pub fn plain_created_text(micros: i64) -> (text: String)
    ensures
        text@ == shown_text(plain_moment_text(micros as int)),
{
    text_or_empty(format_plain_moment(micros))
}

} // verus!
