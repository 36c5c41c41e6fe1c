//! The colour and intensity of one light.

use crate::error::FlowerError;
use crate::pollen::PollenCount;
use vstd::prelude::*;

verus! {

/// The largest intensity a light takes.
pub const MAX_INTENSITY: u8 = 31;

/// The marker that the first byte of every light's message carries above its
/// intensity.
pub const INTENSITY_MARKER: u8 = 224;

/// One light: an intensity of at most `MAX_INTENSITY` and a colour.
#[derive(Clone, Copy, Debug, PartialEq, Eq, Structural)]
pub struct LedValue {
    brightness: u8,
    blue: u8,
    green: u8,
    red: u8,
}

impl LedValue {
    #[verifier::type_invariant]
    spec fn intensity_in_range(self) -> bool {
        self.brightness <= MAX_INTENSITY
    }

    /// Intensity, red, green and blue, in that order.
    pub closed spec fn components(self) -> (u8, u8, u8, u8) {
        (self.brightness, self.red, self.green, self.blue)
    }

    /// Whether the light has the given intensity, red, green and blue.
    pub open spec fn is(self, brightness: u8, red: u8, green: u8, blue: u8) -> bool {
        self.components() == (brightness, red, green, blue)
    }

    /// A light of the given intensity and colour; an intensity above
    /// `MAX_INTENSITY` is refused, never clamped.
    pub fn new(brightness: u8, red: u8, green: u8, blue: u8) -> (r: Result<LedValue, FlowerError>)
        ensures
            brightness <= MAX_INTENSITY ==> (r matches Ok(v) && v.is(brightness, red, green, blue)),
            brightness > MAX_INTENSITY ==> (r matches Err(FlowerError::InvalidIntensity(b))
                && b == brightness),
    {
        if brightness > MAX_INTENSITY {
            Err(FlowerError::InvalidIntensity(brightness))
        } else {
            Ok(LedValue { brightness, red, green, blue })
        }
    }

    /// The four bytes that drive the light: the intensity with the marker
    /// bits set, then blue, green and red.
    pub fn as_array(&self) -> (r: [u8; 4])
        ensures
            r@ == seq![
                (self.components().0 + INTENSITY_MARKER) as u8,
                self.components().3,
                self.components().2,
                self.components().1,
            ],
            self.components().0 + INTENSITY_MARKER <= u8::MAX,
    {
        proof {
            use_type_invariant(self);
        }
        let brightness = self.brightness + INTENSITY_MARKER;
        let r = [brightness, self.blue, self.green, self.red];
        assert(r@ =~= seq![brightness, self.blue, self.green, self.red]);
        r
    }

    /// Dark white: the colour of every light until something is drawn.
    pub closed spec fn off_spec() -> LedValue {
        LedValue { brightness: 0, red: 255, green: 255, blue: 255 }
    }

    /// Dark white: the colour of every light until something is drawn.
    pub fn off() -> (r: LedValue)
        ensures
            r.is(0, 255, 255, 255),
            r == LedValue::off_spec(),
    {
        LedValue { brightness: 0, red: 255, green: 255, blue: 255 }
    }

    /// Dim red.
    pub fn low_red() -> (r: LedValue)
        ensures
            r.is(1, 255, 0, 0),
    {
        LedValue { brightness: 1, red: 255, green: 0, blue: 0 }
    }

    /// Dim yellow.
    pub fn low_yellow() -> (r: LedValue)
        ensures
            r.is(1, 255, 150, 0),
    {
        LedValue { brightness: 1, red: 255, green: 150, blue: 0 }
    }

    /// Dim green.
    pub fn low_green() -> (r: LedValue)
        ensures
            r.is(1, 0, 255, 0),
    {
        LedValue { brightness: 1, red: 0, green: 255, blue: 0 }
    }

    /// Dim blue.
    pub fn low_blue() -> (r: LedValue)
        ensures
            r.is(1, 0, 0, 255),
    {
        LedValue { brightness: 1, red: 0, green: 0, blue: 255 }
    }

    /// Dim purple.
    pub fn low_purple() -> (r: LedValue)
        ensures
            r.is(1, 255, 0, 255),
    {
        LedValue { brightness: 1, red: 255, green: 0, blue: 255 }
    }

    /// Dim aqua.
    pub fn low_aqua() -> (r: LedValue)
        ensures
            r.is(1, 0, 255, 255),
    {
        LedValue { brightness: 1, red: 0, green: 255, blue: 255 }
    }

    /// The background for a pollen category: red, yellow or green for high,
    /// medium or low, dark white when the category is unknown.
    pub fn for_pollen(count: Option<PollenCount>) -> (r: LedValue)
        ensures
            r == background_for(count),
            r.components() == background_components(count),
    {
        match count {
            Some(PollenCount::High) => LedValue::low_red(),
            Some(PollenCount::Medium) => LedValue::low_yellow(),
            Some(PollenCount::Low) => LedValue::low_green(),
            None => LedValue::off(),
        }
    }
}

/// The background colour for a pollen category, as intensity and colour.
pub open spec fn background_components(count: Option<PollenCount>) -> (u8, u8, u8, u8) {
    match count {
        Some(PollenCount::High) => (1, 255, 0, 0),
        Some(PollenCount::Medium) => (1, 255, 150, 0),
        Some(PollenCount::Low) => (1, 0, 255, 0),
        None => (0, 255, 255, 255),
    }
}

/// The background light for a pollen category.
pub closed spec fn background_for(count: Option<PollenCount>) -> LedValue {
    let (b, r, g, bl) = background_components(count);
    LedValue { brightness: b, red: r, green: g, blue: bl }
}

/// The background of an unknown category is the dark white of `off`.
pub proof fn lemma_background_of_unknown()
    ensures
        background_for(None) == LedValue::off_spec(),
{
}

/// The background light has the intensity and colour its category gives.
pub proof fn lemma_background_components(count: Option<PollenCount>)
    ensures
        background_for(count).components() == background_components(count),
{
}

impl Default for LedValue {
    fn default() -> (r: LedValue)
        ensures
            r.is(0, 255, 255, 255),
    {
        LedValue::off()
    }
}

impl From<Option<PollenCount>> for LedValue {
    fn from(count: Option<PollenCount>) -> (r: LedValue) {
        LedValue::for_pollen(count)
    }
}

impl vstd::std_specs::convert::FromSpecImpl<Option<PollenCount>> for LedValue {
    open spec fn obeys_from_spec() -> bool {
        true
    }

    open spec fn from_spec(count: Option<PollenCount>) -> LedValue {
        background_for(count)
    }
}

} // verus!
