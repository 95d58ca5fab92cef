//! Reading what a server says about a file: its status and the two headers
//! that matter to a fetch.

use vstd::prelude::*;
use crate::error::Error;
use crate::text::{parse_u64, unsigned_value};
use crate::time::{parse_rfc2822, rfc2822_seconds};

verus! {

/// The status that says a request is not implemented.
pub const NOT_IMPLEMENTED: u16 = 501;

/// The status that says a response holds part of the content.
pub const PARTIAL_CONTENT: u16 = 206;

/// The status that says the content was not modified.
pub const NOT_MODIFIED: u16 = 304;

/// The response headers that a fetch consumes, as the server sent them.
#[derive(Debug, PartialEq, Eq)]
pub struct Headers {
    /// The value of `Content-Length`, if the header is present.
    pub content_length: Option<String>,
    /// The value of `Last-Modified`, if the header is present.
    pub last_modified: Option<String>,
}

/// The head of a response: its status and headers.
#[derive(Debug, PartialEq, Eq)]
pub struct Response {
    /// The status code.
    pub status: u16,
    /// The headers.
    pub headers: Headers,
}

/// The length that the headers announce, if they announce one that reads as
/// a number.
pub open spec fn announced_length(headers: Headers) -> Option<u64> {
    match headers.content_length {
        Some(value) => unsigned_value(value@),
        None => None,
    }
}

/// The modification time that the headers announce, if they announce one
/// that reads as a date.
pub open spec fn announced_time(headers: Headers) -> Option<i64> {
    match headers.last_modified {
        Some(value) => rfc2822_seconds(value@),
        None => None,
    }
}

/// What a status means for a request that needs a success.
pub open spec fn checked(response: Response) -> Result<Response, Error> {
    if response.status < 300 {
        Ok(response)
    } else {
        Err(Error::Status(response.status))
    }
}

/// What the outcome of a `HEAD` request means: a response to read, nothing
/// where the server does not implement the request, or a failure.
pub open spec fn head_outcome(outcome: Result<Response, String>) -> Result<Option<Response>, Error> {
    match outcome {
        Err(message) => Err(Error::Client(message)),
        Ok(response) => if response.status < 300 {
            Ok(Some(response))
        } else if response.status == NOT_IMPLEMENTED {
            Ok(None)
        } else {
            Err(Error::Status(response.status))
        },
    }
}

/// What the outcome of a ranged `HEAD` request says about range support.
pub open spec fn range_support(outcome: Result<Response, String>) -> Result<bool, Error> {
    match outcome {
        Err(message) => Err(Error::Client(message)),
        Ok(response) => if response.status == PARTIAL_CONTENT {
            Ok(true)
        } else if response.status < 300 {
            Ok(false)
        } else {
            Err(Error::Status(response.status))
        },
    }
}

/// Reads `Content-Length`; a value that is no number counts as absent.
pub fn content_length(headers: &Headers) -> (length: Option<u64>)
    ensures
        length == announced_length(*headers),
{
    match &headers.content_length {
        Some(value) => parse_u64(value.as_str()),
        None => None,
    }
}

/// Reads `Last-Modified` as seconds since the Unix epoch; a value that is no
/// RFC 2822 date counts as absent.
pub fn last_modified(headers: &Headers) -> (seconds: Option<i64>)
    ensures
        seconds == announced_time(*headers),
{
    match &headers.last_modified {
        Some(value) => parse_rfc2822(value.as_str()),
        None => None,
    }
}

/// Accepts a response whose status is below 300 and turns any other into
/// the error that carries its status.
pub fn validate(response: Response) -> (result: Result<Response, Error>)
    ensures
        result == checked(response),
{
    if response.status < 300 {
        Ok(response)
    } else {
        Err(Error::Status(response.status))
    }
}

/// Judges the outcome of a `HEAD` request: a success is handed on, a server
/// that does not implement the request gives nothing, and every other status
/// or a failure of the client is an error.
pub fn head(outcome: Result<Response, String>) -> (result: Result<Option<Response>, Error>)
    ensures
        result == head_outcome(outcome),
{
    match outcome {
        Err(message) => Err(Error::Client(message)),
        Ok(response) => {
            let status = response.status;
            match validate(response) {
                Ok(response) => Ok(Some(response)),
                Err(error) => {
                    if status == NOT_IMPLEMENTED {
                        Ok(None)
                    } else {
                        Err(error)
                    }
                },
            }
        },
    }
}

/// Judges the outcome of a `HEAD` request that carried a `Range` header: the
/// server supports ranges exactly if it answers with partial content.
pub fn supports_range(outcome: Result<Response, String>) -> (result: Result<bool, Error>)
    ensures
        result == range_support(outcome),
{
    match outcome {
        Err(message) => Err(Error::Client(message)),
        Ok(response) => {
            if response.status == PARTIAL_CONTENT {
                Ok(true)
            } else {
                match validate(response) {
                    Ok(_) => Ok(false),
                    Err(error) => Err(error),
                }
            }
        },
    }
}

/// Turns an outcome that may have missed its deadline into a result: `None`
/// stands for a deadline that passed.
pub fn timed<T>(outcome: Option<T>) -> (result: Result<T, Error>)
    ensures
        result == match outcome {
            Some(value) => Ok::<T, Error>(value),
            None => Err::<T, Error>(Error::TimedOut),
        },
{
    match outcome {
        Some(value) => Ok(value),
        None => Err(Error::TimedOut),
    }
}

} // verus!
