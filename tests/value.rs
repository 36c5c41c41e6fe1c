use flower::error::FlowerError;
use flower::pollen::PollenCount;
use flower::value::LedValue;

#[test]
fn intensity_above_limit_is_refused() {
    assert!(matches!(LedValue::new(32, 1, 2, 3), Err(FlowerError::InvalidIntensity(32))));
    assert!(matches!(LedValue::new(255, 0, 0, 0), Err(FlowerError::InvalidIntensity(255))));
}

#[test]
fn intensity_at_limit_is_accepted() {
    let v = LedValue::new(31, 1, 2, 3).unwrap();
    assert_eq!(v.as_array(), [255, 3, 2, 1]);
}

#[test]
fn message_bytes_are_marker_blue_green_red() {
    assert_eq!(LedValue::new(0, 10, 20, 30).unwrap().as_array(), [224, 30, 20, 10]);
    assert_eq!(LedValue::low_yellow().as_array(), [225, 0, 150, 255]);
    assert_eq!(LedValue::off().as_array(), [224, 255, 255, 255]);
    assert_eq!(LedValue::default().as_array(), [224, 255, 255, 255]);
}

#[test]
fn background_follows_pollen_category() {
    assert_eq!(LedValue::for_pollen(Some(PollenCount::High)), LedValue::low_red());
    assert_eq!(LedValue::for_pollen(Some(PollenCount::Medium)), LedValue::low_yellow());
    assert_eq!(LedValue::for_pollen(Some(PollenCount::Low)), LedValue::low_green());
    assert_eq!(LedValue::for_pollen(None), LedValue::off());
    let from: LedValue = Some(PollenCount::High).into();
    assert_eq!(from.as_array(), [225, 0, 0, 255]);
}
