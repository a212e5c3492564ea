//! The run's options, configuration snapshots read from INI text, and the
//! comparison of their `Main.Updated` dates.
use crate::date::{needs_update, update_needed, Date, DateError};
use configparser::ini::Ini;
use vstd::prelude::*;

verus! {

/// The INI section that holds the date.
pub const DATE_SECTION: &'static str = "Main";

/// The key, inside [`DATE_SECTION`], that holds the date.
pub const DATE_KEY: &'static str = "Updated";

/// The options of one run.
pub struct Config {
    /// Do not wait for a key press before exiting.
    pub quiet: bool,
    /// Where the current configuration is fetched from.
    pub url: Option<String>,
    /// The local configuration file.
    pub position: Option<String>,
    /// Only restart the services, without looking for an update.
    pub reboot: bool,
}

/// The part of a parsed configuration that the update consults: the value of
/// `Main.Updated`, if the text has one.
#[derive(Clone, Debug, PartialEq, Eq)]
pub struct ConfigSnapshot {
    pub updated: Option<String>,
}

/// The view of an optional string.
pub open spec fn opt_view(o: Option<String>) -> Option<Seq<char>> {
    match o {
        Some(s) => Some(s@),
        None => None,
    }
}

/// What configparser yields for `text`, read by an `Ini::new()` and then asked
/// for `key` in `section`: `None` where reading fails, else the looked-up value.
pub uninterp spec fn ini_value_of(text: Seq<char>, section: Seq<char>, key: Seq<char>) -> Option<
    Option<Seq<char>>,
>;

/// Relies on configparser's `Ini::new`, `Ini::read` and `Ini::get`: the text is
/// parsed with the default options, then one value is looked up. The outcome
/// depends on the three strings alone; the error is configparser's message.
#[verifier::external_body]
fn ini_lookup(text: &String, section: &str, key: &str) -> (r: Result<Option<String>, String>)
    ensures
        match r {
            Ok(v) => ini_value_of(text@, section@, key@) == Some(opt_view(v)),
            Err(_) => ini_value_of(text@, section@, key@) is None,
        },
{
    let mut ini = Ini::new();
    match ini.read(text.clone()) {
        Ok(_) => Ok(ini.get(section, key)),
        Err(e) => Err(e),
    }
}

/// The `Main.Updated` value of `text`, or `None` where the text does not parse.
pub open spec fn snapshot_of(text: Seq<char>) -> Option<Option<Seq<char>>> {
    ini_value_of(text, DATE_SECTION@, DATE_KEY@)
}

/// The date an optional `Main.Updated` value holds: `None` where the value is
/// missing or unreadable.
pub open spec fn field_date(v: Option<Seq<char>>) -> Option<Date> {
    match v {
        Some(s) => Date::read(s),
        None => None,
    }
}

/// The local date that the comparison uses: `None` where it is missing or
/// unreadable.
pub open spec fn local_date(local: ConfigSnapshot) -> Option<Date> {
    field_date(opt_view(local.updated))
}

/// The outcome `r` of comparing `remote` with `local`. A remote date is
/// required; a missing or unreadable local date counts as older than any.
pub open spec fn compare_result(
    remote: ConfigSnapshot,
    local: ConfigSnapshot,
    r: Result<bool, DateError>,
) -> bool {
    match remote.updated {
        None => r == Err::<bool, DateError>(DateError::MissingField),
        Some(s) => match Date::read(s@) {
            None => r matches Err(DateError::DateFormat { raw, .. }) && raw@ == s@,
            Some(d) => r == Ok::<bool, DateError>(update_needed(d, local_date(local))),
        },
    }
}

impl Config {
    /// Parses configuration text and keeps its `Main.Updated` value; the error
    /// is the parser's message.
    pub fn ini(req: &String) -> (r: Result<ConfigSnapshot, String>)
        ensures
            match snapshot_of(req@) {
                Some(v) => r matches Ok(c) && opt_view(c.updated) == v,
                None => r is Err,
            },
    {
        match ini_lookup(req, DATE_SECTION, DATE_KEY) {
            Ok(v) => Ok(ConfigSnapshot { updated: v }),
            Err(e) => Err(e),
        }
    }

    /// Whether `new` is a later configuration than `local`, by their
    /// `Main.Updated` dates.
    pub fn compare_date(new: &ConfigSnapshot, local: &ConfigSnapshot) -> (r: Result<bool, DateError>)
        ensures
            compare_result(*new, *local, r),
    {
        let remote = match &new.updated {
            None => {
                return Err(DateError::MissingField);
            },
            Some(s) => match Date::parse(s) {
                Ok(d) => d,
                Err(e) => {
                    return Err(e);
                },
            },
        };
        let local_date: Option<Date> = match &local.updated {
            None => None,
            Some(s) => match Date::parse(s) {
                Ok(d) => Some(d),
                Err(_) => None,
            },
        };
        Ok(needs_update(remote, local_date))
    }
}

/// A local configuration without a `Main.Updated` value is replaced by any
/// remote one whose date reads.
pub proof fn lemma_missing_local_field(
    remote: ConfigSnapshot,
    local: ConfigSnapshot,
    r: Result<bool, DateError>,
)
    requires
        local.updated is None,
        remote.updated matches Some(s) && Date::read(s@) is Some,
        compare_result(remote, local, r),
    ensures
        r == Ok::<bool, DateError>(true),
{
}

} // verus!
