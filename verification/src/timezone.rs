//! Time zones of banks.
//!
//! A bank names the time zone in which its dates are meant. The library only
//! carries the zone; which names are zones is the `chrono-tz` crate's knowledge.

use vstd::prelude::*;

verus! {

/// The name under which `chrono-tz` knows the zone that a text names, or
/// `None` where the text names no zone.
pub uninterp spec fn zone_name(text: Seq<char>) -> Option<Seq<char>>;

/// A time zone, held by its name in the time zone database.
#[derive(Clone, Debug)]
pub struct Timezone {
    name: String,
}

impl View for Timezone {
    type V = Seq<char>;

    closed spec fn view(&self) -> Seq<char> {
        self.name@
    }
}

impl Timezone {
    /// The zone that a text names, if it names one.
    pub fn parse(text: &str) -> (zone: Option<Timezone>)
        ensures
            match zone_name(text@) {
                Some(name) => zone matches Some(z) && z@ == name,
                None => zone is None,
            },
    {
        match known_zone(text) {
            Some(name) => Some(Timezone { name }),
            None => None,
        }
    }

    /// The zone that is taken where none is given: Coordinated Universal Time.
    pub fn utc() -> (zone: Timezone)
        ensures
            zone@ == "UTC"@,
    {
        Timezone { name: default_zone() }
    }

    /// The zone's name.
    pub fn name(&self) -> (name: &str)
        ensures
            name@ == self@,
    {
        self.name.as_str()
    }
}

/// `chrono_tz::Tz`'s `FromStr`, then `Tz::name`: the zone's name, `None` where
/// the text names no zone.
#[verifier::external_body]
fn known_zone(text: &str) -> (name: Option<String>)
    ensures
        match zone_name(text@) {
            Some(n) => name matches Some(s) && s@ == n,
            None => name is None,
        },
{
    match <chrono_tz::Tz as std::str::FromStr>::from_str(text) {
        Ok(zone) => Some(zone.name().to_string()),
        Err(_) => None,
    }
}

/// `chrono_tz::Tz`'s `Default`, then `Tz::name`: the default zone is
/// `Tz::UTC`, whose name is `UTC`.
#[verifier::external_body]
fn default_zone() -> (name: String)
    ensures
        name@ == "UTC"@,
{
    <chrono_tz::Tz as Default>::default().name().to_string()
}

} // verus!
