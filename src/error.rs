//! Errors of the model and of the client contract.
use vstd::prelude::*;
use vstd::string::StringExecFns;

verus! {

/// Why a wire value could not be read as a value of the model.
#[derive(Debug, Clone, PartialEq, Eq)]
pub enum DecodeError {
    /// A `type` tag, or an enumerated string, that names no known variant.
    UnknownTag(String),
    /// A required member is absent; holds the member's name.
    MissingField(String),
    /// A member holds a value of the wrong JSON type; holds the member's name.
    InvalidType(String),
    /// A value that must be a JSON object is not one.
    NotAnObject,
}

/// The view of a [`DecodeError`], with its names as character sequences.
pub enum DecodeFault {
    UnknownTag(Seq<char>),
    MissingField(Seq<char>),
    InvalidType(Seq<char>),
    NotAnObject,
}

impl View for DecodeError {
    type V = DecodeFault;

    open spec fn view(&self) -> DecodeFault {
        match self {
            DecodeError::UnknownTag(s) => DecodeFault::UnknownTag(s@),
            DecodeError::MissingField(s) => DecodeFault::MissingField(s@),
            DecodeError::InvalidType(s) => DecodeFault::InvalidType(s@),
            DecodeError::NotAnObject => DecodeFault::NotAnObject,
        }
    }
}

/// A decoding result with its error seen through its view.
pub open spec fn lift<T>(r: Result<T, DecodeError>) -> Result<T, DecodeFault> {
    match r {
        Ok(v) => Ok(v),
        Err(e) => Err(e@),
    }
}

pub(crate) fn missing(name: &str) -> (e: DecodeError)
    ensures
        e@ == DecodeFault::MissingField(name@),
{
    DecodeError::MissingField(name.to_owned())
}

pub(crate) fn invalid(name: &str) -> (e: DecodeError)
    ensures
        e@ == DecodeFault::InvalidType(name@),
{
    DecodeError::InvalidType(name.to_owned())
}

/// Errors that an implementation of the client contract reports.
#[derive(Debug, Clone, PartialEq, Eq)]
pub enum MessageError {
    /// The request never reached the service, or no reply came back.
    RequestFailed(String),
    /// The service answered with an error, or a lower layer gave a description.
    ApiError(String),
}

impl From<String> for MessageError {
    fn from(error: String) -> (r: MessageError)
        ensures
            r == MessageError::ApiError(error),
    {
        MessageError::ApiError(error)
    }
}

impl vstd::std_specs::convert::FromSpecImpl<String> for MessageError {
    open spec fn obeys_from_spec() -> bool {
        true
    }

    open spec fn from_spec(error: String) -> MessageError {
        MessageError::ApiError(error)
    }
}

impl MessageError {
    /// The error's message, as a reader would see it.
    pub fn describe(&self) -> (r: String)
        ensures
            r@ == match self {
                MessageError::RequestFailed(s) => "API request failed: "@ + s@,
                MessageError::ApiError(s) => "API error: "@ + s@,
            },
    {
        match self {
            MessageError::RequestFailed(s) => "API request failed: ".to_owned().concat(s.as_str()),
            MessageError::ApiError(s) => "API error: ".to_owned().concat(s.as_str()),
        }
    }
}

} // verus!
