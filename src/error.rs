//! The library's errors.

use crate::pollen::PollenParseError;
use vstd::prelude::*;
use vstd::string::*;

verus! {

/// What can go wrong in the library's own operations.
#[derive(Clone, Debug)]
pub enum FlowerError {
    /// A light's intensity above the largest one the lights take.
    InvalidIntensity(u8),
    /// A light index outside the buffer it was meant for.
    InvalidIndex { index: usize, size: usize },
    /// A frame that does not fit in what is left of the output buffer.
    BufferOverflow { buffered: usize, incoming: usize, capacity: usize },
    /// A selector of the page scraper that the scraper refused.
    InvalidSelector,
    /// The forecast section is absent from the page.
    SectionMissing,
    /// The forecast section holds no entry for today.
    TodayMissing,
    /// Today's entry carries no category attribute.
    CategoryMissing,
    /// The category attribute holds an unknown code.
    Pollen(PollenParseError),
    /// A text that should hold a number does not.
    InvalidNumber(String),
    /// The key of the notification hook is not configured.
    MissingKey,
    /// The display is configured with no lights.
    EmptyDisplay,
}

impl From<PollenParseError> for FlowerError {
    fn from(e: PollenParseError) -> (r: FlowerError) {
        FlowerError::Pollen(e)
    }
}

impl vstd::std_specs::convert::FromSpecImpl<PollenParseError> for FlowerError {
    open spec fn obeys_from_spec() -> bool {
        true
    }

    open spec fn from_spec(e: PollenParseError) -> FlowerError {
        FlowerError::Pollen(e)
    }
}

/// The address of the notification hook, before its key.
pub open spec fn hook_prefix() -> Seq<char> {
    seq![
        'h', 't', 't', 'p', 's', ':', '/', '/', 'm', 'a', 'k', 'e', 'r', '.', 'i', 'f', 't', 't',
        't', '.', 'c', 'o', 'm', '/', 't', 'r', 'i', 'g', 'g', 'e', 'r', '/', 'f', 'l', 'o', 'w',
        'e', 'r', '/', 'w', 'i', 't', 'h', '/', 'k', 'e', 'y', '/',
    ]
}

/// Where failures are reported: a web hook addressed by a key.
pub struct ErrorHandler {
    hook_uri: String,
}

impl ErrorHandler {
    /// The hook's address.
    pub closed spec fn address(&self) -> Seq<char> {
        self.hook_uri@
    }

    /// The handler for the hook of `ifttt_key`.
    pub fn new(ifttt_key: &str) -> (r: ErrorHandler)
        ensures
            r.address() == hook_prefix() + ifttt_key@,
    {
        proof {
            reveal_strlit("https://maker.ifttt.com/trigger/flower/with/key/");
        }
        let mut hook_uri = String::from_str("https://maker.ifttt.com/trigger/flower/with/key/");
        hook_uri.append(ifttt_key);
        assert(hook_uri@ =~= hook_prefix() + ifttt_key@);
        ErrorHandler { hook_uri }
    }

    /// The hook's address.
    pub fn hook_uri(&self) -> (r: &str)
        ensures
            r@ == self.address(),
    {
        self.hook_uri.as_str()
    }
}

} // verus!
