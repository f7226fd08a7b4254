//! The errors an operation can end with.

use vstd::prelude::*;

verus! {

/// `reqwest::Error`, the failure of the HTTP transport. The library never
/// looks inside one: it only carries it to the caller.
#[verifier::external_type_specification]
#[verifier::external_body]
pub struct ExTransportError(reqwest::Error);

/// Why an operation failed.
#[derive(Debug)]
pub enum HeatzyError {
    /// The transport failed: name resolution, connection, timeout, TLS.
    Network(reqwest::Error),
    /// The login endpoint refused the credentials.
    Auth(String),
    /// The device asked for does not exist.
    NotFound(String),
    /// A mode value outside the six known modes.
    InvalidMode(String),
    /// An operation that needs a token was attempted without one.
    NoToken,
    /// Any other refusal by the API.
    Api(String),
}

/// What `reqwest::Error` writes when it is displayed: the kind of the
/// failure, with the status where the failure is one, and the address of the
/// request where the error holds it.
pub uninterp spec fn transport_text(error: reqwest::Error) -> Seq<char>;

/// What a [`HeatzyError`] says, as mathematical text. Of a transport failure
/// it keeps the text that the transport reports.
pub enum Failure {
    Network(Seq<char>),
    Auth(Seq<char>),
    NotFound(Seq<char>),
    InvalidMode(Seq<char>),
    NoToken,
    Api(Seq<char>),
}

impl View for HeatzyError {
    type V = Failure;

    open spec fn view(&self) -> Failure {
        match self {
            HeatzyError::Network(error) => Failure::Network(transport_text(*error)),
            HeatzyError::Auth(detail) => Failure::Auth(detail@),
            HeatzyError::NotFound(detail) => Failure::NotFound(detail@),
            HeatzyError::InvalidMode(detail) => Failure::InvalidMode(detail@),
            HeatzyError::NoToken => Failure::NoToken,
            HeatzyError::Api(detail) => Failure::Api(detail@),
        }
    }
}

impl Failure {
    /// The detail that the failure carries; empty where it carries none.
    pub open spec fn detail(self) -> Seq<char> {
        match self {
            Failure::Network(detail) => detail,
            Failure::Auth(detail) => detail,
            Failure::NotFound(detail) => detail,
            Failure::InvalidMode(detail) => detail,
            Failure::NoToken => Seq::empty(),
            Failure::Api(detail) => detail,
        }
    }

    /// The one-line description of a failure.
    pub open spec fn message(self) -> Seq<char> {
        match self {
            Failure::Network(detail) => "Network error: "@ + detail,
            Failure::Auth(detail) => "Authentication failed: "@ + detail,
            Failure::NotFound(detail) => "Not found: "@ + detail,
            Failure::InvalidMode(detail) => "Invalid mode: "@ + detail,
            Failure::NoToken => "No authentication token set"@,
            Failure::Api(detail) => "API error: "@ + detail,
        }
    }
}

/// A result with its error replaced by what the error says.
pub open spec fn outcome<T>(r: Result<T, HeatzyError>) -> Result<T, Failure> {
    match r {
        Ok(value) => Ok(value),
        Err(error) => Err(error@),
    }
}

/// Calls the `Display` implementation of `reqwest::Error`, which writes what
/// the error holds and nothing else: the text goes by the name
/// [`transport_text`].
#[verifier::external_body]
fn transport_error_text(error: &reqwest::Error) -> (r: String)
    ensures
        r@ == transport_text(*error),
{
    error.to_string()
}

impl From<reqwest::Error> for HeatzyError {
    /// A failure of the transport is a network error.
    fn from(error: reqwest::Error) -> (r: HeatzyError) {
        HeatzyError::Network(error)
    }
}

impl vstd::std_specs::convert::FromSpecImpl<reqwest::Error> for HeatzyError {
    open spec fn obeys_from_spec() -> bool {
        true
    }

    open spec fn from_spec(error: reqwest::Error) -> HeatzyError {
        HeatzyError::Network(error)
    }
}

impl HeatzyError {
    /// The one-line description of this error. For a transport failure it is
    /// `Network error: ` followed by what the transport reports.
    pub fn to_string(&self) -> (r: String)
        ensures
            r@ == self@.message(),
    {
        match self {
            HeatzyError::Network(error) => {
                let tail = transport_error_text(error);
                String::from_str("Network error: ").concat(tail.as_str())
            },
            HeatzyError::Auth(detail) => String::from_str("Authentication failed: ").concat(
                detail.as_str(),
            ),
            HeatzyError::NotFound(detail) => String::from_str("Not found: ").concat(
                detail.as_str(),
            ),
            HeatzyError::InvalidMode(detail) => String::from_str("Invalid mode: ").concat(
                detail.as_str(),
            ),
            HeatzyError::NoToken => String::from_str("No authentication token set"),
            HeatzyError::Api(detail) => String::from_str("API error: ").concat(detail.as_str()),
        }
    }
}

} // verus!
