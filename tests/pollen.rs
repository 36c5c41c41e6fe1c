use flower::error::FlowerError;
use flower::pollen::{pollen_count_from_attribute, pollen_count_from_html, PollenCount};

#[test]
fn category_codes() {
    assert_eq!(PollenCount::from_code("h").unwrap(), PollenCount::High);
    assert_eq!(PollenCount::from_code("m").unwrap(), PollenCount::Medium);
    assert_eq!(PollenCount::from_code("l").unwrap(), PollenCount::Low);
    let err = PollenCount::from_code("vh").unwrap_err();
    assert_eq!(err.0, "vh");
    assert_eq!(err.message(), "Could not parse pollen count: vh");
    assert!(PollenCount::from_code("").is_err());
    assert!(PollenCount::from_code("H").is_err());
}

#[test]
fn category_names() {
    assert_eq!(PollenCount::High.name(), "High");
    assert_eq!(PollenCount::Medium.name(), "Medium");
    assert_eq!(PollenCount::Low.name(), "Low");
}

#[test]
fn category_from_attribute() {
    assert!(matches!(pollen_count_from_attribute(None), Err(FlowerError::CategoryMissing)));
    assert!(matches!(pollen_count_from_attribute(Some("l".to_string())), Ok(PollenCount::Low)));
    match pollen_count_from_attribute(Some("x".to_string())) {
        Err(FlowerError::Pollen(e)) => assert_eq!(e.0, "x"),
        other => panic!("unexpected {:?}", other),
    }
}

const PAGE: &str = r#"<html><body>
<div id="ne"><table><tr><td><div><span data-category="l">Low</span></div></td></tr></table></div>
<div id="se"><table><tbody><tr>
<td><div><span data-category="h">High</span></div></td>
<td><div><span data-category="m">Moderate</span></div></td>
</tr></tbody></table></div>
</body></html>"#;

#[test]
fn page_gives_first_span_of_section() {
    assert_eq!(pollen_count_from_html(PAGE).unwrap(), PollenCount::High);
}

#[test]
fn page_without_section() {
    let page = r#"<html><body><div id="ne"><span data-category="l"></span></div></body></html>"#;
    assert!(matches!(pollen_count_from_html(page), Err(FlowerError::SectionMissing)));
    assert!(matches!(pollen_count_from_html(""), Err(FlowerError::SectionMissing)));
}

#[test]
fn page_without_span() {
    let page = r#"<html><body><div id="se"><p>none</p></div><span data-category="l"></span></body></html>"#;
    assert!(matches!(pollen_count_from_html(page), Err(FlowerError::TodayMissing)));
}

#[test]
fn page_without_attribute() {
    let page = r#"<div id="se"><span class="x">?</span><span data-category="l"></span></div>"#;
    assert!(matches!(pollen_count_from_html(page), Err(FlowerError::CategoryMissing)));
}

#[test]
fn page_with_unknown_code() {
    let page = r#"<div id="se"><span data-category="vh">Very high</span></div>"#;
    match pollen_count_from_html(page) {
        Err(FlowerError::Pollen(e)) => assert_eq!(e.0, "vh"),
        other => panic!("unexpected {:?}", other),
    }
}
