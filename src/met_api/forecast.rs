//! The records of a forecast reply.

use vstd::prelude::*;

verus! {

/// The time step of a forecast.
#[derive(Clone, Copy, Debug, PartialEq, Eq, Structural)]
pub enum Resolution {
    ThreeHourly,
    Daily,
}

impl Resolution {
    /// The resolution as it stands in an address.
    pub fn as_str(&self) -> (r: &'static str)
        ensures
            r@ == match *self {
                Resolution::ThreeHourly => "3hourly"@,
                Resolution::Daily => "daily"@,
            },
    {
        match self {
            Resolution::ThreeHourly => "3hourly",
            Resolution::Daily => "daily",
        }
    }
}

/// A forecast reply.
#[derive(Clone, Debug)]
pub struct ForecastResponse {
    pub site_rep: SiteRep,
}

/// The report of a forecast reply: what is measured, and the data.
#[derive(Clone, Debug)]
pub struct SiteRep {
    pub wx: Params,
    pub dv: Dv,
}

/// The quantities a report gives.
#[derive(Clone, Debug)]
pub struct Params {
    pub param: Vec<Param>,
}

/// One quantity: its code, its units and what it is.
#[derive(Clone, Debug)]
pub struct Param {
    pub name: String,
    pub units: String,
    pub description: String,
}

/// The data of a report, for one location.
#[derive(Clone, Debug)]
pub struct Dv {
    pub data_date: String,
    pub data_type: String,
    pub location: ForecastLocation,
}

/// A forecast location and its periods.
#[derive(Clone, Debug)]
pub struct ForecastLocation {
    pub i: String,
    pub lat: String,
    pub lon: String,
    pub name: String,
    pub country: String,
    pub continent: String,
    pub period: Vec<ForecastPeriod>,
}

/// One period of a forecast, and its time steps.
#[derive(Clone, Debug)]
pub struct ForecastPeriod {
    pub period_type: String,
    pub value: String,
    pub rep: Vec<Rep>,
}

/// The forecast for one time step, by the service's one- and two-letter
/// codes; `dollar` holds the minutes after midnight.
#[derive(Clone, Debug)]
pub struct Rep {
    pub pp: String,
    pub s: String,
    pub d: String,
    pub w: String,
    pub h: String,
    pub t: String,
    pub dollar: String,
    pub g: String,
    pub u: String,
    pub v: String,
    pub f: String,
}

} // verus!
