use flower::error::FlowerError;
use flower::met_api::forecast::{ForecastLocation, Rep, Resolution};
use flower::met_api::sane::{SaneForecastUnit, SaneLocation};
use flower::met_api::{LocationId, MetApi};

fn exeter(id: &str) -> ForecastLocation {
    ForecastLocation {
        i: id.to_string(),
        lat: "50.7179".to_string(),
        lon: "-3.5327".to_string(),
        name: "EXETER".to_string(),
        country: "ENGLAND".to_string(),
        continent: "EUROPE".to_string(),
        period: Vec::new(),
    }
}

#[test]
fn location_ids_as_text() {
    assert_eq!(LocationId::All.to_text(), "all");
    assert_eq!(LocationId::Location(310069).to_text(), "310069");
    assert_eq!(Resolution::ThreeHourly.as_str(), "3hourly");
    assert_eq!(Resolution::Daily.as_str(), "daily");
}

#[test]
fn request_addresses() {
    let api = MetApi::new("k1".to_string());
    assert_eq!(api.forecast_site_list_uri(), "http://datapoint.metoffice.gov.uk/public/data/val/wxfcs/all/json/sitelist?key=k1");
    assert_eq!(api.forecast_capabilities_uri(), "http://datapoint.metoffice.gov.uk/public/data/val/wxfcs/all/json/capabilities?key=k1");
    assert_eq!(api.forecast_uri(&LocationId::Location(310069)), "http://datapoint.metoffice.gov.uk/public/data/val/wxfcs/all/json/310069?res=3hourly&key=k1");
    assert_eq!(api.forecast_uri(&LocationId::All), "http://datapoint.metoffice.gov.uk/public/data/val/wxfcs/all/json/all?res=3hourly&key=k1");
}

#[test]
fn sane_location_parses_id() {
    let l = SaneLocation::from_forecast_location(exeter("310069")).unwrap();
    assert_eq!(l.id, 310069);
    assert_eq!(l.name, "EXETER");
    assert_eq!(l.latitude, "50.7179");
    assert_eq!(l.longitude, "-3.5327");
    match SaneLocation::from_forecast_location(exeter("31x")) {
        Err(FlowerError::InvalidNumber(t)) => assert_eq!(t, "31x"),
        other => panic!("unexpected {:?}", other),
    }
}

#[test]
fn sane_unit_renames_codes() {
    let rep = Rep {
        pp: "16".to_string(),
        s: "13".to_string(),
        d: "SSE".to_string(),
        w: "7".to_string(),
        h: "80".to_string(),
        t: "11".to_string(),
        dollar: "540".to_string(),
        g: "29".to_string(),
        u: "1".to_string(),
        v: "VG".to_string(),
        f: "8".to_string(),
    };
    let unit: SaneForecastUnit = rep.into();
    assert_eq!(unit.feels_like_temperature, "8");
    assert_eq!(unit.wind_gust, "29");
    assert_eq!(unit.screen_relative_humidity, "80");
    assert_eq!(unit.temperature, "11");
    assert_eq!(unit.visibility, "VG");
    assert_eq!(unit.wind_direction, "SSE");
    assert_eq!(unit.wind_speed, "13");
    assert_eq!(unit.max_uv_index, "1");
    assert_eq!(unit.weather_type, "7");
    assert_eq!(unit.precipitation_probability, "16");
}
