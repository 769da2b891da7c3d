//! Which zone a machine is set to, told from what its configuration shows.
//!
//! Looking at the machine is the caller's part. What was found there comes in
//! as a `ZoneSetting`; what it means is decided here, and every way in which
//! it can mean nothing is an error value of its own.

use crate::catalog::{iana_names, Catalog, Zone};
use crate::text::has_prefix;
use vstd::prelude::*;
use vstd::string::*;

verus! {

/// The directory under which a link to a zone's data names the zone.
pub const ZONEINFO_DIR: &'static str = "/var/db/timezone/zoneinfo/";

/// What a machine's configuration shows of its zone.
#[derive(Debug, PartialEq, Eq)]
pub enum ZoneSetting {
    /// The text of the file that holds the zone's name.
    NameFile(String),
    /// The target of the link that points at the zone's data.
    DataLink(String),
    /// Neither the file nor the link is there.
    Absent,
}

/// Why a machine's configuration names no zone.
#[derive(Clone, Copy, Debug, PartialEq, Eq)]
pub enum CurrentTzError {
    /// Nothing on the machine tells its zone.
    NotConfigured,
    /// The link points outside the directory of zone data.
    LinkOutsideZoneinfo,
    /// The name found is not one of the catalog.
    UnknownZone,
}

/// The name that a setting gives, before it is looked up.
pub open spec fn configured_name(setting: ZoneSetting) -> Result<Seq<char>, CurrentTzError> {
    match setting {
        ZoneSetting::NameFile(text) => Ok(text@),
        ZoneSetting::DataLink(target) => if has_prefix(target@, ZONEINFO_DIR@) {
            Ok(target@.skip(ZONEINFO_DIR@.len() as int))
        } else {
            Err(CurrentTzError::LinkOutsideZoneinfo)
        },
        ZoneSetting::Absent => Err(CurrentTzError::NotConfigured),
    }
}

/// The zone that a setting names in a catalog: the configured name, taken
/// letter for letter, where the catalog lists it.
pub open spec fn current_zone(names: Seq<Seq<char>>, setting: ZoneSetting) -> Result<
    Seq<char>,
    CurrentTzError,
> {
    match configured_name(setting) {
        Ok(name) => if names.contains(name) {
            Ok(name)
        } else {
            Err(CurrentTzError::UnknownZone)
        },
        Err(error) => Err(error),
    }
}

/// What follows `prefix` in `text`, where `text` begins with it.
pub fn strip_prefix<'a>(text: &'a str, prefix: &str) -> (rest: Option<&'a str>)
    ensures
        match rest {
            Some(rest) => has_prefix(text@, prefix@) && rest@ == text@.skip(prefix@.len() as int),
            None => !has_prefix(text@, prefix@),
        },
{
    let len = text.unicode_len();
    let prefix_len = prefix.unicode_len();
    if len < prefix_len {
        return None;
    }
    let mut at: usize = 0;
    while at < prefix_len
        invariant
            at <= prefix_len <= len,
            len == text@.len(),
            prefix_len == prefix@.len(),
            forall|i: int| 0 <= i < at ==> text@[i] == prefix@[i],
        decreases prefix_len - at,
    {
        if text.get_char(at) != prefix.get_char(at) {
            assert(text@.subrange(0, prefix@.len() as int)[at as int] != prefix@[at as int]);
            return None;
        }
        at += 1;
    }
    assert(text@.subrange(0, prefix@.len() as int) =~= prefix@);
    let rest = text.substring_char(prefix_len, len);
    assert(rest@ =~= text@.skip(prefix@.len() as int));
    Some(rest)
}

/// The zone that a setting names in `catalog`.
pub fn current_tz_in(catalog: &Catalog, setting: &ZoneSetting) -> (zone: Result<
    Zone,
    CurrentTzError,
>)
    ensures
        match zone {
            Ok(zone) => current_zone(catalog@, *setting) == Ok::<Seq<char>, CurrentTzError>(zone@),
            Err(error) => current_zone(catalog@, *setting) == Err::<Seq<char>, CurrentTzError>(
                error,
            ),
        },
{
    let name: &str = match setting {
        ZoneSetting::NameFile(text) => text.as_str(),
        ZoneSetting::DataLink(target) => match strip_prefix(target.as_str(), ZONEINFO_DIR) {
            Some(rest) => rest,
            None => {
                return Err(CurrentTzError::LinkOutsideZoneinfo);
            },
        },
        ZoneSetting::Absent => {
            return Err(CurrentTzError::NotConfigured);
        },
    };
    match catalog.find(name) {
        Some(zone) => Ok(zone),
        None => Err(CurrentTzError::UnknownZone),
    }
}

/// The zone of the time zone database that a setting names.
pub fn current_tz(setting: &ZoneSetting) -> (zone: Result<Zone, CurrentTzError>)
    ensures
        match zone {
            Ok(zone) => current_zone(iana_names(), *setting) == Ok::<Seq<char>, CurrentTzError>(
                zone@,
            ),
            Err(error) => current_zone(iana_names(), *setting) == Err::<Seq<char>, CurrentTzError>(
                error,
            ),
        },
{
    current_tz_in(&Catalog::iana(), setting)
}

} // verus!
