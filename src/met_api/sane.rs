//! Forecast records under readable names.

use crate::decimal::{parsed_u32, parse_u32};
use crate::error::FlowerError;
use crate::met_api::forecast::{ForecastLocation, Rep};
use vstd::prelude::*;
use vstd::string::*;

verus! {

/// A forecast location with its numeric id.
#[derive(Clone, Debug)]
pub struct SaneLocation {
    pub id: u32,
    pub name: String,
    pub latitude: String,
    pub longitude: String,
}

impl SaneLocation {
    /// Takes the location over; refused when its id is not a `u32`.
    pub fn from_forecast_location(forecast_location: ForecastLocation) -> (r: Result<
        SaneLocation,
        FlowerError,
    >)
        ensures
            match parsed_u32(forecast_location.i@) {
                Some(id) => r matches Ok(l) && l.id == id && l.name == forecast_location.name
                    && l.latitude == forecast_location.lat && l.longitude
                    == forecast_location.lon,
                None => r matches Err(FlowerError::InvalidNumber(text)) && text@
                    == forecast_location.i@,
            },
    {
        match parse_u32(forecast_location.i.as_str()) {
            Some(id) => Ok(
                SaneLocation {
                    id,
                    name: forecast_location.name,
                    latitude: forecast_location.lat,
                    longitude: forecast_location.lon,
                },
            ),
            None => Err(FlowerError::InvalidNumber(forecast_location.i)),
        }
    }
}

/// The forecast for one time step, under readable names.
#[derive(Clone, Debug)]
pub struct SaneForecastUnit {
    pub feels_like_temperature: String,
    pub wind_gust: String,
    pub screen_relative_humidity: String,
    pub temperature: String,
    pub visibility: String,
    pub wind_direction: String,
    pub wind_speed: String,
    pub max_uv_index: String,
    pub weather_type: String,
    pub precipitation_probability: String,
}

/// The readable form of a time step.
pub open spec fn sane_unit(rep: Rep) -> SaneForecastUnit {
    SaneForecastUnit {
        feels_like_temperature: rep.f,
        wind_gust: rep.g,
        screen_relative_humidity: rep.h,
        temperature: rep.t,
        visibility: rep.v,
        wind_direction: rep.d,
        wind_speed: rep.s,
        max_uv_index: rep.u,
        weather_type: rep.w,
        precipitation_probability: rep.pp,
    }
}

impl From<Rep> for SaneForecastUnit {
    fn from(rep: Rep) -> (r: SaneForecastUnit) {
        SaneForecastUnit {
            feels_like_temperature: rep.f,
            wind_gust: rep.g,
            screen_relative_humidity: rep.h,
            temperature: rep.t,
            visibility: rep.v,
            wind_direction: rep.d,
            wind_speed: rep.s,
            max_uv_index: rep.u,
            weather_type: rep.w,
            precipitation_probability: rep.pp,
        }
    }
}

impl vstd::std_specs::convert::FromSpecImpl<Rep> for SaneForecastUnit {
    open spec fn obeys_from_spec() -> bool {
        true
    }

    open spec fn from_spec(rep: Rep) -> SaneForecastUnit {
        sane_unit(rep)
    }
}

} // verus!
