//! The settings a run starts with. Each is given as text, or left out for
//! its default; the key of the notification hook is required.

use crate::decimal::{parse_u32, parsed_u32};
use crate::error::FlowerError;
use vstd::prelude::*;

verus! {

/// Lights on the ring, unless configured.
pub const DEFAULT_DISPLAY_SIZE: u32 = 24;

/// Lights between the first light and the twelve o'clock position, unless
/// configured.
pub const DEFAULT_MARKER_OFFSET: u32 = 12;

/// Seconds the display stays awake after motion is lost, unless configured.
pub const DEFAULT_GRACE_SECONDS: u32 = 10;

/// Seconds between refreshes of the pollen forecast, unless configured.
pub const DEFAULT_REFRESH_SECONDS: u32 = 3600;

/// Failed runs in a row after which the process gives up, unless configured.
pub const DEFAULT_MAX_FAILURES: u32 = 5;

/// The settings of the process.
#[derive(Clone, Debug)]
pub struct Config {
    pub display_size: u32,
    pub marker_offset: u32,
    pub grace_seconds: u32,
    pub refresh_seconds: u32,
    pub max_failures: u32,
    pub notification_key: String,
}

/// The value of a setting: its default when it is left out, else the number
/// its text spells, if it spells one.
pub open spec fn setting_value(text: Option<String>, default: u32) -> Option<u32> {
    match text {
        None => Some(default),
        Some(t) => parsed_u32(t@),
    }
}

/// Reads one numeric setting; a text that spells no number is refused.
pub fn read_setting(text: Option<String>, default: u32) -> (r: Result<u32, FlowerError>)
    ensures
        match setting_value(text, default) {
            Some(v) => r == Ok::<u32, FlowerError>(v),
            None => r matches Err(FlowerError::InvalidNumber(t)) && text matches Some(given)
                && t@ == given@,
        },
{
    match text {
        None => Ok(default),
        Some(t) => match parse_u32(t.as_str()) {
            Some(v) => Ok(v),
            None => Err(FlowerError::InvalidNumber(t)),
        },
    }
}

impl Config {
    /// The settings from their texts. Refused, before anything runs, when
    /// the key is missing, when a given setting spells no number, or when
    /// the display has no lights; the first of these in that order decides
    /// the error.
    pub fn from_settings(
        notification_key: Option<String>,
        display_size: Option<String>,
        marker_offset: Option<String>,
        grace_seconds: Option<String>,
        refresh_seconds: Option<String>,
        max_failures: Option<String>,
    ) -> (r: Result<Config, FlowerError>)
        ensures
            r is Ok <==> notification_key is Some && setting_value(
                display_size,
                DEFAULT_DISPLAY_SIZE,
            ) is Some && setting_value(marker_offset, DEFAULT_MARKER_OFFSET) is Some
                && setting_value(grace_seconds, DEFAULT_GRACE_SECONDS) is Some && setting_value(
                refresh_seconds,
                DEFAULT_REFRESH_SECONDS,
            ) is Some && setting_value(max_failures, DEFAULT_MAX_FAILURES) is Some
                && setting_value(display_size, DEFAULT_DISPLAY_SIZE) != Some(0u32),
            r matches Ok(c) ==> c.notification_key == notification_key->0 && Some(c.display_size)
                == setting_value(display_size, DEFAULT_DISPLAY_SIZE) && Some(c.marker_offset)
                == setting_value(marker_offset, DEFAULT_MARKER_OFFSET) && Some(c.grace_seconds)
                == setting_value(grace_seconds, DEFAULT_GRACE_SECONDS) && Some(c.refresh_seconds)
                == setting_value(refresh_seconds, DEFAULT_REFRESH_SECONDS) && Some(c.max_failures)
                == setting_value(max_failures, DEFAULT_MAX_FAILURES),
            notification_key is None ==> r matches Err(FlowerError::MissingKey),
            notification_key is Some && setting_value(display_size, DEFAULT_DISPLAY_SIZE) == Some(
                0u32,
            ) ==> r matches Err(FlowerError::EmptyDisplay),
            r matches Err(FlowerError::InvalidNumber(t)) ==> (display_size matches Some(s)
                && t@ == s@ && parsed_u32(s@) is None) || (marker_offset matches Some(s) && t@
                == s@ && parsed_u32(s@) is None) || (grace_seconds matches Some(s) && t@ == s@
                && parsed_u32(s@) is None) || (refresh_seconds matches Some(s) && t@ == s@
                && parsed_u32(s@) is None) || (max_failures matches Some(s) && t@ == s@
                && parsed_u32(s@) is None),
    {
        let key = match notification_key {
            Some(k) => k,
            None => return Err(FlowerError::MissingKey),
        };
        let size = match read_setting(display_size, DEFAULT_DISPLAY_SIZE) {
            Ok(v) => v,
            Err(e) => return Err(e),
        };
        if size == 0 {
            return Err(FlowerError::EmptyDisplay);
        }
        let offset = match read_setting(marker_offset, DEFAULT_MARKER_OFFSET) {
            Ok(v) => v,
            Err(e) => return Err(e),
        };
        let grace = match read_setting(grace_seconds, DEFAULT_GRACE_SECONDS) {
            Ok(v) => v,
            Err(e) => return Err(e),
        };
        let refresh = match read_setting(refresh_seconds, DEFAULT_REFRESH_SECONDS) {
            Ok(v) => v,
            Err(e) => return Err(e),
        };
        let failures = match read_setting(max_failures, DEFAULT_MAX_FAILURES) {
            Ok(v) => v,
            Err(e) => return Err(e),
        };
        Ok(
            Config {
                display_size: size,
                marker_offset: offset,
                grace_seconds: grace,
                refresh_seconds: refresh,
                max_failures: failures,
                notification_key: key,
            },
        )
    }
}

} // verus!
