//! Error taxonomy of the buffer-packing engine and of the directory client.

use vstd::prelude::*;

verus! {

pub type BufferFillResult<T> = Result<T, BufferFillError>;

/// Why a record could not be packed into the caller's buffer.
#[derive(Debug, Clone, Copy, PartialEq, Eq, Structural)]
pub enum BufferFillError {
    /// The buffer cannot hold the record; the caller may retry with a larger one.
    InsufficientBuffer,
    /// A pointer that was needed is null. The packers of this library take
    /// slices and never report it; it is for callers that hold pointers.
    NullPointerError,
    /// A field holds a terminator byte and cannot be stored as a C string.
    ZeroByteInString,
}

pub type GraphInfoResult<T> = Result<T, GraphInfoRetrievalError>;

/// Why the directory could not supply a record.
#[derive(Debug, Clone, PartialEq, Eq)]
pub enum GraphInfoRetrievalError {
    /// The token endpoint answered without an access token.
    NoAccessToken { response: String },
    /// The service answered with a status other than success.
    BadHTTPResponse { status: u16, data: String },
    /// The answer was not JSON, or not of the expected shape.
    BadJSONResponse,
    /// The request never produced an answer; the text describes the transport fault.
    HTTPError(String),
    /// The record's security identifier yields no usable numeric id.
    UnusableImmutableID,
    /// More than one record matched where exactly one was asked for.
    TooManyResults,
    /// No record matched.
    NotFound,
}

/// Mathematical model of a [`GraphInfoRetrievalError`]: strings by their characters.
pub enum GraphError {
    NoAccessToken { response: Seq<char> },
    BadHTTPResponse { status: u16, data: Seq<char> },
    BadJSONResponse,
    HTTPError(Seq<char>),
    UnusableImmutableID,
    TooManyResults,
    NotFound,
}

impl View for GraphInfoRetrievalError {
    type V = GraphError;

    open spec fn view(&self) -> GraphError {
        match *self {
            GraphInfoRetrievalError::NoAccessToken { response } => GraphError::NoAccessToken {
                response: response@,
            },
            GraphInfoRetrievalError::BadHTTPResponse { status, data } => {
                GraphError::BadHTTPResponse { status, data: data@ }
            },
            GraphInfoRetrievalError::BadJSONResponse => GraphError::BadJSONResponse,
            GraphInfoRetrievalError::HTTPError(detail) => GraphError::HTTPError(detail@),
            GraphInfoRetrievalError::UnusableImmutableID => GraphError::UnusableImmutableID,
            GraphInfoRetrievalError::TooManyResults => GraphError::TooManyResults,
            GraphInfoRetrievalError::NotFound => GraphError::NotFound,
        }
    }
}

impl DeepView for GraphInfoRetrievalError {
    type V = GraphError;

    open spec fn deep_view(&self) -> GraphError {
        self@
    }
}

/// What a result of the directory client stands for: a value by its model,
/// an error by its model.
pub open spec fn outcome<T: DeepView>(r: GraphInfoResult<T>) -> Result<T::V, GraphError> {
    match r {
        Ok(value) => Ok(value.deep_view()),
        Err(e) => Err(e@),
    }
}

} // verus!
