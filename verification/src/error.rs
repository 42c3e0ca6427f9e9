//! The errors of the dashboard and the text that each one shows.

use vstd::prelude::*;
use vstd::string::StringExecFns;

verus! {

/// What can go wrong around the dashboard.
#[derive(Debug)]
pub enum GciError {
    /// Reading or writing failed.
    Io(String),
    /// The configuration could not be used.
    Config(String),
    /// The provider could not be reached, or refused the request.
    ProviderUnavailable(String),
    /// An identifier did not name exactly one instance.
    InstanceNotFound(String),
    /// The provider answered with data that is no instance.
    MalformedResponse(String),
    /// A configured value is out of range.
    InvalidConfiguration(String),
}

#[verifier::external_type_specification]
#[verifier::external_body]
pub struct ExJsonError(serde_json::Error);

/// The detail that an error carries.
pub open spec fn detail_of(e: GciError) -> Seq<char> {
    match e {
        GciError::Io(m) => m@,
        GciError::Config(m) => m@,
        GciError::ProviderUnavailable(m) => m@,
        GciError::InstanceNotFound(m) => m@,
        GciError::MalformedResponse(m) => m@,
        GciError::InvalidConfiguration(m) => m@,
    }
}

/// The words that introduce an error of each kind.
pub open spec fn heading_of(e: GciError) -> Seq<char> {
    match e {
        GciError::Io(_) => "IO error: "@,
        GciError::Config(_) => "Configuration error: "@,
        GciError::ProviderUnavailable(_) => "Provider unavailable: "@,
        GciError::InstanceNotFound(_) => "Instance not found: "@,
        GciError::MalformedResponse(_) => "Malformed response: "@,
        GciError::InvalidConfiguration(_) => "Invalid configuration: "@,
    }
}

/// The text that an error shows: its heading, then its detail.
pub open spec fn text_of(e: GciError) -> Seq<char> {
    heading_of(e) + detail_of(e)
}

/// `serde_json::Error`'s `Display`: the text in which the parser describes
/// the failure. Nothing is claimed of what it says.
#[verifier::external_body]
fn json_error_text(err: &serde_json::Error) -> (r: String) {
    err.to_string()
}

impl GciError {
    /// The text that the error shows.
    pub fn message(&self) -> (r: String)
        ensures
            r@ == text_of(*self),
    {
        match self {
            GciError::Io(m) => String::from_str("IO error: ").concat(m.as_str()),
            GciError::Config(m) => String::from_str("Configuration error: ").concat(m.as_str()),
            GciError::ProviderUnavailable(m) => String::from_str("Provider unavailable: ").concat(
                m.as_str(),
            ),
            GciError::InstanceNotFound(m) => String::from_str("Instance not found: ").concat(
                m.as_str(),
            ),
            GciError::MalformedResponse(m) => String::from_str("Malformed response: ").concat(
                m.as_str(),
            ),
            GciError::InvalidConfiguration(m) => String::from_str("Invalid configuration: ").concat(
                m.as_str(),
            ),
        }
    }

    /// A JSON parser's failure as a malformed response: the detail starts
    /// with `JSON error: ` and goes on with the parser's own words.
    pub fn from_json(err: &serde_json::Error) -> (r: GciError)
        ensures
            r is MalformedResponse,
            detail_of(r).len() >= "JSON error: "@.len(),
            detail_of(r).subrange(0, "JSON error: "@.len() as int) == "JSON error: "@,
    {
        let words = json_error_text(err);
        let detail = String::from_str("JSON error: ").concat(words.as_str());
        proof {
            assert(detail@.subrange(0, "JSON error: "@.len() as int) =~= "JSON error: "@);
        }
        GciError::MalformedResponse(detail)
    }
}

} // verus!
