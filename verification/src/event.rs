//! What is fetched, and what is reported while it is fetched.

use vstd::prelude::*;
use crate::error::Error;

verus! {

/// A file to fetch.
#[derive(Debug, PartialEq, Eq)]
pub struct Source {
    /// The addresses at which the file can be found, all equivalent.
    pub urls: Vec<String>,
    /// Where the file shall be in the end.
    pub dest: String,
    /// Where the file is written until it is complete, if anywhere else.
    pub part: Option<String>,
}

/// A report on the fetch of the file whose final destination it names.
#[derive(Debug, PartialEq, Eq)]
pub enum FetchEvent {
    /// The length of the file is known.
    ContentLength(String, u64),
    /// The fetch has ended, with this result.
    Fetched(String, Result<(), Error>),
    /// The fetch has begun.
    Fetching(String),
    /// A chunk of this many bytes has been read.
    Progress(String, usize),
    /// The part of this index is being fetched.
    PartFetching(String, u16),
    /// The part of this index has been fetched, or has failed.
    PartFetched(String, u16),
}

impl FetchEvent {
    /// The final destination that the event reports on.
    pub open spec fn subject(self) -> String {
        match self {
            FetchEvent::ContentLength(path, _) => path,
            FetchEvent::Fetched(path, _) => path,
            FetchEvent::Fetching(path) => path,
            FetchEvent::Progress(path, _) => path,
            FetchEvent::PartFetching(path, _) => path,
            FetchEvent::PartFetched(path, _) => path,
        }
    }

    /// The final destination that the event reports on.
    pub fn path(&self) -> (path: &String)
        ensures
            *path == self.subject(),
    {
        match self {
            FetchEvent::ContentLength(path, _) => path,
            FetchEvent::Fetched(path, _) => path,
            FetchEvent::Fetching(path) => path,
            FetchEvent::Progress(path, _) => path,
            FetchEvent::PartFetching(path, _) => path,
            FetchEvent::PartFetched(path, _) => path,
        }
    }
}

} // verus!
