//! Forecast sites.

use crate::decimal::{append_decimal, decimal};
use vstd::prelude::*;
use vstd::string::*;

verus! {

/// Which sites a request is about.
#[derive(Clone, Copy, Debug, PartialEq, Eq, Structural)]
pub enum LocationId {
    All,
    Location(u32),
}

/// The text a location id takes in an address: `all`, or the site's number.
pub open spec fn location_text(id: LocationId) -> Seq<char> {
    match id {
        LocationId::All => "all"@,
        LocationId::Location(n) => decimal(n as nat),
    }
}

impl LocationId {
    /// The id as it stands in an address: `all`, or the site's number.
    pub fn to_text(&self) -> (r: String)
        ensures
            r@ == location_text(*self),
    {
        let mut r = String::new();
        match self {
            LocationId::All => r.append("all"),
            LocationId::Location(n) => append_decimal(&mut r, *n),
        }
        assert(r@ =~= location_text(*self));
        r
    }
}

/// One entry of the site list.
#[derive(Clone, Debug)]
pub struct Location {
    pub id: String,
    pub name: String,
    pub latitude: String,
    pub longitude: String,
    pub elevation: Option<String>,
    pub region: Option<String>,
    pub unitary_auth_area: Option<String>,
}

/// The reply to a request for the site list.
#[derive(Clone, Debug)]
pub struct LocationsResponse {
    pub locations: Locations,
}

/// The sites of the site list.
#[derive(Clone, Debug)]
pub struct Locations {
    pub location: Vec<Location>,
}

} // verus!
