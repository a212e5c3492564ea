//! Calendar dates read from the `Updated` field, and the rule that decides
//! whether the remote file is newer than the local one.
use chrono::Datelike;
use vstd::prelude::*;

verus! {

/// The layout of the `Updated` field: a four-digit year, month and day.
pub const DATE_FORMAT: &'static str = "%Y-%m-%d";

/// A calendar date as chrono reports it: year, month (1 to 12) and day of month
/// (1 to 31).
#[derive(Clone, Copy, Debug, PartialEq, Eq, Structural)]
pub struct Date {
    pub year: i32,
    pub month: u32,
    pub day: u32,
}

/// Why a date could not be read from a configuration.
#[derive(Clone, Debug, PartialEq, Eq)]
pub enum DateError {
    /// The remote configuration has no `Main.Updated` value.
    MissingField,
    /// A `Main.Updated` value is not a date in the expected layout.
    DateFormat { raw: String, cause: String },
}

/// What chrono's `NaiveDate::parse_from_str(s, fmt)` yields, as year, month and
/// day; `None` where it reports a parse error.
pub uninterp spec fn parsed_date_of(s: Seq<char>, fmt: Seq<char>) -> Option<(i32, u32, u32)>;

/// Relies on chrono's `NaiveDate::parse_from_str` to read `s` in the layout
/// `fmt`, and on `Datelike::{year, month, day}` (month 1 to 12, day 1 to 31) to
/// take the date apart. The error is chrono's message.
#[verifier::external_body]
fn chrono_parse_date(s: &str, fmt: &str) -> (r: Result<(i32, u32, u32), String>)
    ensures
        match r {
            Ok(t) => parsed_date_of(s@, fmt@) == Some(t) && 1 <= t.1 <= 12 && 1 <= t.2 <= 31,
            Err(_) => parsed_date_of(s@, fmt@) is None,
        },
{
    match chrono::NaiveDate::parse_from_str(s, fmt) {
        Ok(d) => Ok((d.year(), d.month(), d.day())),
        Err(e) => Err(e.to_string()),
    }
}

impl Date {
    /// The key by which dates are ordered: chronological order is the
    /// lexicographic order of (year, month, day).
    pub open spec fn key(self) -> (int, int, int) {
        (self.year as int, self.month as int, self.day as int)
    }

    /// `self` falls strictly after `other` in the calendar.
    pub open spec fn after(self, other: Date) -> bool {
        ||| self.year > other.year
        ||| self.year == other.year && self.month > other.month
        ||| self.year == other.year && self.month == other.month && self.day > other.day
    }

    /// The date that `s` holds in the `Updated` layout, if it holds one.
    pub open spec fn read(s: Seq<char>) -> Option<Date> {
        match parsed_date_of(s, DATE_FORMAT@) {
            Some(t) => Some(Date { year: t.0, month: t.1, day: t.2 }),
            None => None,
        }
    }

    /// Reads a date in the `Updated` layout (`YYYY-MM-DD`); the error carries
    /// the text that was read and chrono's reason.
    pub fn parse(s: &String) -> (r: Result<Date, DateError>)
        ensures
            match Date::read(s@) {
                Some(d) => r == Ok::<Date, DateError>(d) && 1 <= d.month <= 12 && 1 <= d.day <= 31,
                None => r matches Err(DateError::DateFormat { raw, .. }) && raw@ == s@,
            },
    {
        match chrono_parse_date(s.as_str(), DATE_FORMAT) {
            Ok(t) => Ok(Date { year: t.0, month: t.1, day: t.2 }),
            Err(cause) => Err(DateError::DateFormat { raw: s.clone(), cause }),
        }
    }

    /// Whether `self` falls strictly after `other`.
    pub fn is_after(&self, other: &Date) -> (r: bool)
        ensures
            r == self.after(*other),
    {
        self.year > other.year || (self.year == other.year && (self.month > other.month || (
        self.month == other.month && self.day > other.day)))
    }
}

/// Whether the remote file must replace the local one. A local file without a
/// trustworthy date counts as older than every remote date.
pub open spec fn update_needed(remote: Date, local: Option<Date>) -> bool {
    match local {
        Some(l) => remote.after(l),
        None => true,
    }
}

/// Decides an update from the remote date and the local date, `None` standing
/// for a local file whose date is missing or unreadable.
pub fn needs_update(remote: Date, local: Option<Date>) -> (r: bool)
    ensures
        r == update_needed(remote, local),
{
    match local {
        Some(l) => remote.is_after(&l),
        None => true,
    }
}

/// An update is needed exactly when the remote date is later; never for equal
/// dates, and never in both directions between two dates.
pub proof fn lemma_update_order(r: Date, l: Date)
    ensures
        update_needed(r, Some(l)) <==> r.after(l),
        update_needed(r, Some(l)) <==> r.key() != l.key() && !l.after(r),
        !update_needed(r, Some(r)),
        !(update_needed(r, Some(l)) && update_needed(l, Some(r))),
        r.key() == l.key() ==> r == l,
{
}

/// A local file without a date is always replaced, whatever the remote date.
pub proof fn lemma_missing_local_date(remote: Date)
    ensures
        update_needed(remote, None),
{
}

} // verus!
