//! The Met Office DataPoint forecast service: its records, and the addresses
//! they are fetched from. Fetching and decoding are left to the caller.

pub mod forecast;
pub mod location;
pub mod sane;

use crate::decimal::append_decimal;
use vstd::prelude::*;
use vstd::string::*;

pub use forecast::Resolution;
pub use location::{location_text, Location, LocationId};

verus! {

/// A client of the service, holding its key.
pub struct MetApi {
    pub api_key: String,
}

impl MetApi {
    /// A client that uses `api_key`.
    pub fn new(api_key: String) -> (r: MetApi)
        ensures
            r.api_key@ == api_key@,
    {
        MetApi { api_key }
    }

    /// The address of the list of forecast sites.
    pub fn forecast_site_list_uri(&self) -> (r: String)
        ensures
            r@ == "http://datapoint.metoffice.gov.uk/public/data/val/wxfcs/all/json/sitelist?key="@
                + self.api_key@,
    {
        let mut r = String::from_str(
            "http://datapoint.metoffice.gov.uk/public/data/val/wxfcs/all/json/sitelist?key=",
        );
        r.append(self.api_key.as_str());
        r
    }

    /// The address of the forecast capabilities.
    pub fn forecast_capabilities_uri(&self) -> (r: String)
        ensures
            r@
                == "http://datapoint.metoffice.gov.uk/public/data/val/wxfcs/all/json/capabilities?key="@
                + self.api_key@,
    {
        let mut r = String::from_str(
            "http://datapoint.metoffice.gov.uk/public/data/val/wxfcs/all/json/capabilities?key=",
        );
        r.append(self.api_key.as_str());
        r
    }

    /// The address of the three-hourly forecast for a location.
    pub fn forecast_uri(&self, location_id: &LocationId) -> (r: String)
        ensures
            r@ == "http://datapoint.metoffice.gov.uk/public/data/val/wxfcs/all/json/"@
                + location_text(*location_id) + "?res=3hourly&key="@ + self.api_key@,
    {
        let mut r = String::from_str(
            "http://datapoint.metoffice.gov.uk/public/data/val/wxfcs/all/json/",
        );
        match location_id {
            LocationId::All => r.append("all"),
            LocationId::Location(n) => append_decimal(&mut r, *n),
        }
        r.append("?res=3hourly&key=");
        r.append(self.api_key.as_str());
        assert(r@ =~= "http://datapoint.metoffice.gov.uk/public/data/val/wxfcs/all/json/"@
            + location_text(*location_id) + "?res=3hourly&key="@ + self.api_key@);
        r
    }
}

} // verus!
