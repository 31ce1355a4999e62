//! What can go wrong between the arrival of a request and its response, and
//! what becomes of each fault.

use vstd::prelude::*;
use crate::message::{failure, Response, ResponseView};

verus! {

/// A fault in the handling of one request. `T` is the transport's own error.
#[derive(Debug)]
pub enum Error<T> {
    /// The body stream broke before the body was complete.
    Transport(T),
    /// The JSON codec failed: the body is no request envelope, or the result
    /// could not be written. The text is the codec's description.
    Serde(String),
    /// The context factory failed. The text is its description.
    Context(String),
}

/// A fault as a mathematical value.
pub enum ErrorView<T> {
    Transport(T),
    Serde(Seq<char>),
    Context(Seq<char>),
}

impl<T> View for Error<T> {
    type V = ErrorView<T>;

    open spec fn view(&self) -> ErrorView<T> {
        match self {
            Error::Transport(fault) => ErrorView::Transport(*fault),
            Error::Serde(description) => ErrorView::Serde(description@),
            Error::Context(description) => ErrorView::Context(description@),
        }
    }
}

impl<T: std::fmt::Display> Error<T> {
    /// The description of the fault: the text that the transport's error
    /// displays, or the description that the fault carries.
    pub fn message(&self) -> (text: String)
        ensures
            match self {
                Error::Transport(fault) => vstd::string::to_string_from_display_ensures::<T>(
                    fault,
                    text,
                ),
                Error::Serde(description) => text@ == description@,
                Error::Context(description) => text@ == description@,
            },
    {
        match self {
            Error::Transport(fault) => fault.to_string(),
            Error::Serde(description) => description.clone(),
            Error::Context(description) => description.clone(),
        }
    }
}

/// The view of what a stage of the handler returns.
pub open spec fn outcome_view<T>(outcome: Result<Response, Error<T>>) -> Result<
    ResponseView,
    ErrorView<T>,
> {
    match outcome {
        Ok(response) => Ok(response@),
        Err(error) => Err(error@),
    }
}

/// The view of what the handler returns to the transport.
pub open spec fn reply_view<T>(reply: Result<Response, T>) -> Result<ResponseView, T> {
    match reply {
        Ok(response) => Ok(response@),
        Err(fault) => Err(fault),
    }
}

/// What becomes of an outcome: a response stays as it is; a fault of the
/// codec or of the context factory becomes the failure response that
/// describes it; a fault of the transport stays a fault, and no response is
/// rendered for it.
pub open spec fn converted<T>(outcome: Result<ResponseView, ErrorView<T>>) -> Result<
    ResponseView,
    T,
> {
    match outcome {
        Ok(response) => Ok(response),
        Err(ErrorView::Transport(fault)) => Err(fault),
        Err(ErrorView::Serde(description)) => Ok(failure(description)),
        Err(ErrorView::Context(description)) => Ok(failure(description)),
    }
}

/// Turns every fault but the transport's into a response.
pub fn convert_error<T>(res: Result<Response, Error<T>>) -> (reply: Result<Response, T>)
    ensures
        reply_view(reply) == converted(outcome_view(res)),
{
    match res {
        Err(err) => {
            match err {
                Error::Serde(description) => Ok(Response::failure(description.as_str())),
                Error::Context(description) => Ok(Response::failure(description.as_str())),
                Error::Transport(fault) => Err(fault),
            }
        },
        Ok(v) => Ok(v),
    }
}

} // verus!
