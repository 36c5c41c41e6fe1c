use flower::config::Config;
use flower::error::{ErrorHandler, FlowerError};

fn s(text: &str) -> Option<String> {
    Some(text.to_string())
}

#[test]
fn defaults_apply_to_missing_settings() {
    let c = Config::from_settings(s("SECRET-REDACTED"), None, None, None, None, None).unwrap();
    assert_eq!(c.display_size, 24);
    assert_eq!(c.marker_offset, 12);
    assert_eq!(c.grace_seconds, 10);
    assert_eq!(c.refresh_seconds, 3600);
    assert_eq!(c.max_failures, 5);
    assert_eq!(c.notification_key, "SECRET-REDACTED");
}

#[test]
fn given_settings_are_read() {
    let c = Config::from_settings(s("k"), s("60"), s("0"), s("30"), s("600"), s("3")).unwrap();
    assert_eq!((c.display_size, c.marker_offset, c.grace_seconds, c.refresh_seconds, c.max_failures), (60, 0, 30, 600, 3));
}

#[test]
fn missing_key_is_refused() {
    assert!(matches!(Config::from_settings(None, s("x"), None, None, None, None), Err(FlowerError::MissingKey)));
}

#[test]
fn malformed_setting_is_refused() {
    match Config::from_settings(s("k"), None, None, s("ten"), None, None) {
        Err(FlowerError::InvalidNumber(t)) => assert_eq!(t, "ten"),
        other => panic!("unexpected {:?}", other),
    }
}

#[test]
fn empty_display_is_refused() {
    assert!(matches!(Config::from_settings(s("k"), s("0"), s("bad"), None, None, None), Err(FlowerError::EmptyDisplay)));
}

#[test]
fn hook_address_ends_with_key() {
    let h = ErrorHandler::new("abc123");
    assert_eq!(h.hook_uri(), "https://maker.ifttt.com/trigger/flower/with/key/abc123");
}
