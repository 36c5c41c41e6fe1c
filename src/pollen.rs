//! The ambient pollen category and how it is read from its one-letter code.

use crate::error::FlowerError;
use crate::markup::{
    attribute, attribute_value, first_in_page, first_within, found_in_document, found_within,
    parse_page, parse_pattern, selector_accepted,
};
use vstd::prelude::*;
use vstd::string::*;

verus! {

/// The coarse pollen forecast that sets the background colour of the ring.
#[derive(Clone, Copy, Debug, PartialEq, Eq, Structural)]
pub enum PollenCount {
    High,
    Medium,
    Low,
}

/// A category code that is none of the known ones; it holds the code.
#[derive(Clone, Debug)]
pub struct PollenParseError(pub String);

/// The category that a one-letter code stands for.
pub open spec fn category_of(code: Seq<char>) -> Option<PollenCount> {
    if code == seq!['h'] {
        Some(PollenCount::High)
    } else if code == seq!['m'] {
        Some(PollenCount::Medium)
    } else if code == seq!['l'] {
        Some(PollenCount::Low)
    } else {
        None
    }
}

/// The name under which a category is shown.
pub open spec fn pollen_name(count: PollenCount) -> Seq<char> {
    match count {
        PollenCount::High => seq!['H', 'i', 'g', 'h'],
        PollenCount::Medium => seq!['M', 'e', 'd', 'i', 'u', 'm'],
        PollenCount::Low => seq!['L', 'o', 'w'],
    }
}

impl PollenCount {
    /// Reads a category code: `h`, `m` or `l`; any other text is refused.
    pub fn from_code(value: &str) -> (r: Result<PollenCount, PollenParseError>)
        ensures
            match category_of(value@) {
                Some(c) => r == Ok::<PollenCount, PollenParseError>(c),
                None => r matches Err(e) && e.0@ == value@,
            },
    {
        if value.unicode_len() == 1 {
            let c = value.get_char(0);
            proof {
                assert(value@ =~= seq![c]);
            }
            if c == 'h' {
                return Ok(PollenCount::High);
            } else if c == 'm' {
                return Ok(PollenCount::Medium);
            } else if c == 'l' {
                return Ok(PollenCount::Low);
            }
        }
        proof {
            if value@.len() == 1 {
                assert(value@ =~= seq![value@[0]]);
            }
        }
        Err(PollenParseError(String::from_str(value)))
    }

    /// The category's name: `High`, `Medium` or `Low`.
    pub fn name(&self) -> (r: &'static str)
        ensures
            r@ == pollen_name(*self),
    {
        match self {
            PollenCount::High => {
                proof {
                    reveal_strlit("High");
                }
                "High"
            },
            PollenCount::Medium => {
                proof {
                    reveal_strlit("Medium");
                }
                "Medium"
            },
            PollenCount::Low => {
                proof {
                    reveal_strlit("Low");
                }
                "Low"
            },
        }
    }
}

/// Reads today's category from the value of its category attribute, if the
/// attribute is there.
pub fn pollen_count_from_attribute(code: Option<String>) -> (r: Result<PollenCount, FlowerError>)
    ensures
        code is None ==> r matches Err(FlowerError::CategoryMissing),
        code matches Some(text) ==> match category_of(text@) {
            Some(c) => r == Ok::<PollenCount, FlowerError>(c),
            None => r matches Err(FlowerError::Pollen(e)) && e.0@ == text@,
        },
{
    match code {
        None => Err(FlowerError::CategoryMissing),
        Some(text) => match PollenCount::from_code(text.as_str()) {
            Ok(c) => Ok(c),
            Err(e) => Err(FlowerError::from(e)),
        },
    }
}

/// The selector of the forecast section.
pub open spec fn section_selector() -> Seq<char> {
    seq!['#', 's', 'e']
}

/// The selector of a day's entry within the section.
pub open spec fn entry_selector() -> Seq<char> {
    seq!['s', 'p', 'a', 'n']
}

/// The attribute that holds a day's category code.
pub open spec fn category_attribute() -> Seq<char> {
    seq!['d', 'a', 't', 'a', '-', 'c', 'a', 't', 'e', 'g', 'o', 'r', 'y']
}

/// Reads today's pollen category from the forecast page: the category
/// attribute of the first `span` inside the first element with id `se`.
/// Refused when the scraper refuses a selector, when the element, the span
/// or the attribute is missing, or when the code is unknown.
pub fn pollen_count_from_html(html: &str) -> (r: Result<PollenCount, FlowerError>)
    ensures
        !(selector_accepted(section_selector()) && selector_accepted(entry_selector())) ==> (
        r matches Err(FlowerError::InvalidSelector)),
        selector_accepted(section_selector()) && selector_accepted(entry_selector()) ==> {
            let path = seq![section_selector(), entry_selector()];
            if !found_in_document(html@, section_selector()) {
                r matches Err(FlowerError::SectionMissing)
            } else if !found_within(html@, seq![section_selector()], entry_selector()) {
                r matches Err(FlowerError::TodayMissing)
            } else {
                match attribute_value(html@, path, category_attribute()) {
                    None => r matches Err(FlowerError::CategoryMissing),
                    Some(code) => match category_of(code) {
                        Some(c) => r == Ok::<PollenCount, FlowerError>(c),
                        None => r matches Err(FlowerError::Pollen(e)) && e.0@ == code,
                    },
                }
            }
        },
{
    proof {
        reveal_strlit("#se");
        reveal_strlit("span");
        reveal_strlit("data-category");
        assert("#se"@ =~= section_selector());
        assert("span"@ =~= entry_selector());
        assert("data-category"@ =~= category_attribute());
    }
    let page = parse_page(html);
    let section_pattern = match parse_pattern("#se") {
        Some(p) => p,
        None => return Err(FlowerError::InvalidSelector),
    };
    let entry_pattern = match parse_pattern("span") {
        Some(p) => p,
        None => return Err(FlowerError::InvalidSelector),
    };
    let section = match first_in_page(&page, &section_pattern) {
        Some(f) => f,
        None => return Err(FlowerError::SectionMissing),
    };
    let today = match first_within(&section, &entry_pattern) {
        Some(f) => f,
        None => return Err(FlowerError::TodayMissing),
    };
    assert(today.path() =~= seq![section_selector(), entry_selector()]);
    let code = attribute(&today, "data-category");
    pollen_count_from_attribute(code)
}

impl PollenParseError {
    /// The message that reports the refused code.
    pub fn message(&self) -> (r: String)
        ensures
            r@ == seq![
                'C', 'o', 'u', 'l', 'd', ' ', 'n', 'o', 't', ' ', 'p', 'a', 'r', 's', 'e', ' ',
                'p', 'o', 'l', 'l', 'e', 'n', ' ', 'c', 'o', 'u', 'n', 't', ':', ' ',
            ] + self.0@,
    {
        let mut r = String::from_str("Could not parse pollen count: ");
        proof {
            reveal_strlit("Could not parse pollen count: ");
        }
        r.append(self.0.as_str());
        r
    }
}

} // verus!
