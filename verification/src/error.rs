//! The failure taxonomy of the pipeline.
//!
//! Field-level failures (`AttributeMissing`, `NoNumberFound`,
//! `SelectorNotFound` on a field) abort only the candidate node they occur
//! on; target-level failures (`RequestError`, an entry-selector miss) abort
//! only that target; geocoding failures never discard a record.

use vstd::prelude::*;

verus! {

/// Everything that can go wrong while fetching, extracting, or enriching.
#[derive(Clone, Copy, Debug, PartialEq, Eq, Structural)]
pub enum Error {
    /// The network request failed (connection, timeout, or a non-2xx status).
    RequestError,
    /// A response body could not be decoded. Character decoding is lossy
    /// rather than failing, so this is not normally produced.
    DecodeError,
    /// A selector (entry point or required field) matched nothing.
    SelectorNotFound,
    /// A required attribute is absent from an element.
    AttributeMissing,
    /// No run of digits in the expected locale format exists in the input.
    NoNumberFound,
    /// A number was found but does not fit the library's fixed-point range.
    NumberOutOfRange,
    /// The geocoder returned no match or a malformed response.
    GeocodeError,
    /// A listing only available for a limited time; such rows are skipped.
    LimitedAvailability,
}

/// A field-level failure: it aborts only the candidate node it occurred on,
/// never the whole target.
pub open spec fn field_error(e: Error) -> bool {
    ||| e == Error::SelectorNotFound
    ||| e == Error::AttributeMissing
    ||| e == Error::NoNumberFound
    ||| e == Error::NumberOutOfRange
    ||| e == Error::LimitedAvailability
}

impl Error {
    /// A short description for log sinks.
    pub fn message(&self) -> (r: &'static str)
        ensures
            r@ == self.message_spec(),
    {
        match self {
            Error::RequestError => "request failed",
            Error::DecodeError => "response could not be decoded",
            Error::SelectorNotFound => "selector did not match",
            Error::AttributeMissing => "attribute is missing",
            Error::NoNumberFound => "no number found",
            Error::NumberOutOfRange => "number out of range",
            Error::GeocodeError => "could not geocode location",
            Error::LimitedAvailability => "listing is only available for a limited time",
        }
    }

    /// The description `message` returns for each variant.
    pub open spec fn message_spec(self) -> Seq<char> {
        match self {
            Error::RequestError => "request failed"@,
            Error::DecodeError => "response could not be decoded"@,
            Error::SelectorNotFound => "selector did not match"@,
            Error::AttributeMissing => "attribute is missing"@,
            Error::NoNumberFound => "no number found"@,
            Error::NumberOutOfRange => "number out of range"@,
            Error::GeocodeError => "could not geocode location"@,
            Error::LimitedAvailability => "listing is only available for a limited time"@,
        }
    }
}

} // verus!
