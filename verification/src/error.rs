//! The failures that a fetch can end in.

use vstd::prelude::*;

verus! {

/// Why a fetch failed. Variants that stem from the operating system or from
/// the HTTP client carry the message that came with the failure.
#[derive(Debug, PartialEq, Eq)]
pub enum Error {
    /// The HTTP client failed below the level of a response.
    Client(String),
    /// Copying a fetched part into the destination failed.
    Concatenate(String),
    /// The file to write to could not be created.
    FileCreate(String),
    /// The timestamp of the file at the given path could not be set.
    FileTime(String, String),
    /// The content length did not yield a valid range.
    InvalidRange(String),
    /// A file whose metadata could not be read could not be removed either.
    MetadataRemove(String),
    /// The destination has no file name.
    Nameless,
    /// The fetched part at the given path could not be opened.
    OpenPart(String, String),
    /// The destination has no parent directory.
    Parentless,
    /// A response or a chunk did not arrive in time.
    TimedOut,
    /// Reading from the response or writing to the file failed.
    Write(String),
    /// The partial file could not be renamed to the destination.
    Rename(String),
    /// The server answered with this status, which is no success.
    Status(u16),
}

impl Clone for Error {
    fn clone(&self) -> (copy: Error)
        ensures
            copy == *self,
    {
        match self {
            Error::Client(message) => Error::Client(message.clone()),
            Error::Concatenate(message) => Error::Concatenate(message.clone()),
            Error::FileCreate(message) => Error::FileCreate(message.clone()),
            Error::FileTime(path, message) => Error::FileTime(path.clone(), message.clone()),
            Error::InvalidRange(message) => Error::InvalidRange(message.clone()),
            Error::MetadataRemove(message) => Error::MetadataRemove(message.clone()),
            Error::Nameless => Error::Nameless,
            Error::OpenPart(path, message) => Error::OpenPart(path.clone(), message.clone()),
            Error::Parentless => Error::Parentless,
            Error::TimedOut => Error::TimedOut,
            Error::Write(message) => Error::Write(message.clone()),
            Error::Rename(message) => Error::Rename(message.clone()),
            Error::Status(code) => Error::Status(*code),
        }
    }
}

} // verus!
