//! Small types shared by the catalogue and the library endpoints.
use vstd::prelude::*;
use chrono::Datelike;
use crate::text::opt_text;

verus! {

/// The body of an answer that carries no data.
#[derive(Debug, PartialEq, Eq)]
pub struct EmptyResponse {}

/// The order in which a book group lists its books.
#[derive(Clone, Copy, Debug, PartialEq, Eq, Structural)]
pub enum Sort {
    Relevance,
    PublishedDate,
    Rating,
    Title,
    Authors,
    Volume,
    Nest,
}

/// The value of the `sort` query parameter for each order.
pub open spec fn sort_name(sort: Sort) -> Seq<char> {
    match sort {
        Sort::Relevance => "relevance"@,
        Sort::PublishedDate => "published_date"@,
        Sort::Rating => "average_rating"@,
        Sort::Title => "title"@,
        Sort::Authors => "authors"@,
        Sort::Volume => "volume"@,
        Sort::Nest => "NEST"@,
    }
}

impl From<Sort> for &str {
    fn from(value: Sort) -> (name: Self) {
        match value {
            Sort::Relevance => "relevance",
            Sort::PublishedDate => "published_date",
            Sort::Rating => "average_rating",
            Sort::Title => "title",
            Sort::Authors => "authors",
            Sort::Volume => "volume",
            Sort::Nest => "NEST",
        }
    }
}

impl vstd::std_specs::convert::FromSpecImpl<Sort> for &str {
    open spec fn obeys_from_spec() -> bool {
        true
    }

    open spec fn from_spec(value: Sort) -> Self {
        match value {
            Sort::Relevance => "relevance",
            Sort::PublishedDate => "published_date",
            Sort::Rating => "average_rating",
            Sort::Title => "title",
            Sort::Authors => "authors",
            Sort::Volume => "volume",
            Sort::Nest => "NEST",
        }
    }
}

impl Sort {
    /// The value of the `sort` query parameter for this order.
    pub fn as_str(self) -> (name: &'static str)
        ensures
            name@ == sort_name(self),
    {
        self.into()
    }
}

/// The pattern in which a completion date is sent to the service.
pub const COMPLETED_DATE_FORMAT: &'static str = "%Y-%m-%d %H:%M:%S %z";

/// An instant in UTC: whole seconds since 1970-01-01 00:00:00 and the
/// nanoseconds into that second.
#[derive(Clone, Copy, Debug, PartialEq, Eq, Structural)]
pub struct DateTime {
    pub secs: i64,
    pub nanos: u32,
}

/// The calendar year in which the instant falls in UTC, as chrono reckons
/// it, where its calendar reaches that far.
pub uninterp spec fn utc_year(secs: i64, nanos: u32) -> Option<i32>;

/// The instant written in UTC after a `strftime` pattern, as chrono writes
/// it, where its calendar reaches that far.
pub uninterp spec fn utc_text(secs: i64, nanos: u32, pattern: Seq<char>) -> Option<Seq<char>>;

/// Calls `chrono::DateTime::from_timestamp` and, on the instant it gives,
/// `chrono::Datelike::year`.
///
/// Trusted: the answer is a function of the two numbers alone; it is `None`
/// exactly when chrono has no `DateTime<Utc>` for them.
#[verifier::external_body]
fn year_of(secs: i64, nanos: u32) -> (year: Option<i32>)
    ensures
        year == utc_year(secs, nanos),
{
    match chrono::DateTime::from_timestamp(secs, nanos) {
        Some(moment) => Some(moment.year()),
        None => None,
    }
}

/// Calls `chrono::DateTime::from_timestamp` and, on the instant it gives,
/// `chrono::DateTime::format` with `pattern`.
///
/// Trusted: the text is a function of the two numbers and the pattern alone;
/// it is `None` exactly when chrono has no `DateTime<Utc>` for the numbers.
/// Only the completion-date pattern is admitted, which chrono can render.
#[verifier::external_body]
fn format_utc(secs: i64, nanos: u32, pattern: &str) -> (text: Option<String>)
    requires
        pattern@ == COMPLETED_DATE_FORMAT@,
    ensures
        opt_text(text) == utc_text(secs, nanos, pattern@),
{
    match chrono::DateTime::from_timestamp(secs, nanos) {
        Some(moment) => Some(moment.format(pattern).to_string()),
        None => None,
    }
}

impl DateTime {
    /// The calendar year of this instant, or `None` beyond the calendar.
    pub fn year(&self) -> (year: Option<i32>)
        ensures
            year == utc_year(self.secs, self.nanos),
    {
        year_of(self.secs, self.nanos)
    }

    /// This instant as a completion date, `YYYY-MM-DD HH:MM:SS +0000`, or
    /// `None` beyond the calendar.
    pub fn completed_text(&self) -> (text: Option<String>)
        ensures
            opt_text(text) == utc_text(self.secs, self.nanos, COMPLETED_DATE_FORMAT@),
    {
        format_utc(self.secs, self.nanos, COMPLETED_DATE_FORMAT)
    }
}

} // verus!
