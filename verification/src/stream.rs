//! Fetching one response into one file, chunk by chunk.
//!
//! The download is a state machine: it is told what came of the last thing
//! it ordered, and orders the next. Whoever drives it creates the file, sends
//! the request, reads and writes.

use vstd::prelude::*;
use core::time::Duration;
use crate::error::Error;
use crate::event::FetchEvent;
use crate::fetcher::Fetcher;
use crate::probe::{announced_time, last_modified, Response, NOT_MODIFIED};

verus! {

/// The size of the buffer that a chunk is read into.
pub const CHUNK: usize = 8192;

/// Where a download stands: what it is waiting for.
#[derive(Debug, Clone, Copy, PartialEq, Eq, Structural)]
pub enum Stage {
    /// For the file to be created.
    Creating,
    /// For the file to be brought to its expected length.
    Sizing,
    /// For the head of the response.
    Requesting,
    /// For a chunk of the body.
    Reading,
    /// For a chunk to be written.
    Writing,
    /// For nothing: the download has ended.
    Done,
}

/// A download of one response into one file.
#[derive(Debug, PartialEq, Eq)]
pub struct Download {
    /// The path that is written.
    pub to: String,
    /// The final destination, under which events are reported.
    pub dest: String,
    /// The length that the file is given before anything is written.
    pub length: Option<u64>,
    /// The modification time of the content, in seconds since the Unix
    /// epoch, as far as it is known.
    pub modified: Option<i64>,
    /// What the download is waiting for.
    pub stage: Stage,
}

/// What came of an order.
#[derive(Debug, PartialEq, Eq)]
pub enum Arrival {
    /// The file was created, or could not be.
    Created(Result<(), String>),
    /// The file was given its length, or could not be.
    Sized(Result<(), String>),
    /// The head of the response arrived, or the client failed; `None` where
    /// the deadline passed first.
    Responded(Option<Result<Response, String>>),
    /// That many bytes were read, or reading failed; `None` where the deadline
    /// passed first.
    Read(Option<Result<usize, String>>),
    /// The chunk was written, or could not be.
    Written(Result<(), String>),
}

/// What is to be done next.
#[derive(Debug, PartialEq, Eq)]
pub enum Order {
    /// Create the file to write to, empty.
    Create,
    /// Give the file this length.
    Resize(u64),
    /// Send the request and wait for the head of the response, no longer
    /// than the deadline.
    Send(Option<Duration>),
    /// Read at most [`CHUNK`] bytes of the body, waiting no longer than the
    /// deadline.
    Read(Option<Duration>),
    /// Report the event, if there is one, and append the bytes just read.
    Write(usize, Option<FetchEvent>),
    /// Nothing more: the download has ended with this result.
    Finish(Result<String, Error>),
    /// Nothing new: what arrived was not what the download is waiting for.
    Wait,
}

/// The download that follows on a response head.
pub open spec fn after_response(
    fetcher: Fetcher,
    download: Download,
    outcome: Option<Result<Response, String>>,
) -> (Download, Order) {
    let ended = Download { stage: Stage::Done, ..download };
    match outcome {
        None => (ended, Order::Finish(Err(Error::TimedOut))),
        Some(Err(message)) => (ended, Order::Finish(Err(Error::Client(message)))),
        Some(Ok(response)) => {
            let modified = if download.modified.is_none() {
                announced_time(response.headers)
            } else {
                download.modified
            };
            if response.status == NOT_MODIFIED {
                (Download { modified, ..ended }, Order::Finish(Ok(download.to)))
            } else if response.status < 300 {
                (
                    Download { modified, stage: Stage::Reading, ..download },
                    Order::Read(fetcher.deadline()),
                )
            } else {
                (ended, Order::Finish(Err(Error::Status(response.status))))
            }
        },
    }
}

/// The download that follows on a read.
pub open spec fn after_read(
    fetcher: Fetcher,
    download: Download,
    outcome: Option<Result<usize, String>>,
) -> (Download, Order) {
    let ended = Download { stage: Stage::Done, ..download };
    match outcome {
        None => (ended, Order::Finish(Err(Error::TimedOut))),
        Some(Err(message)) => (ended, Order::Finish(Err(Error::Write(message)))),
        Some(Ok(bytes)) => if bytes == 0 {
            (ended, Order::Finish(Ok(download.to)))
        } else {
            (
                Download { stage: Stage::Writing, ..download },
                Order::Write(bytes, fetcher.reported(FetchEvent::Progress(download.dest, bytes))),
            )
        },
    }
}

/// The download and the order that follow when `arrival` reaches `download`.
pub open spec fn get_step(fetcher: Fetcher, download: Download, arrival: Arrival) -> (
    Download,
    Order,
) {
    let ended = Download { stage: Stage::Done, ..download };
    match (download.stage, arrival) {
        (Stage::Creating, Arrival::Created(Err(message))) => (
            ended,
            Order::Finish(Err(Error::FileCreate(message))),
        ),
        (Stage::Creating, Arrival::Created(Ok(_))) => match download.length {
            Some(length) => (Download { stage: Stage::Sizing, ..download }, Order::Resize(length)),
            None => (
                Download { stage: Stage::Requesting, ..download },
                Order::Send(fetcher.deadline()),
            ),
        },
        (Stage::Sizing, Arrival::Sized(Err(message))) => (
            ended,
            Order::Finish(Err(Error::Write(message))),
        ),
        (Stage::Sizing, Arrival::Sized(Ok(_))) => (
            Download { stage: Stage::Requesting, ..download },
            Order::Send(fetcher.deadline()),
        ),
        (Stage::Requesting, Arrival::Responded(outcome)) => after_response(
            fetcher,
            download,
            outcome,
        ),
        (Stage::Reading, Arrival::Read(outcome)) => after_read(fetcher, download, outcome),
        (Stage::Writing, Arrival::Written(Err(message))) => (
            ended,
            Order::Finish(Err(Error::Write(message))),
        ),
        (Stage::Writing, Arrival::Written(Ok(_))) => (
            Download { stage: Stage::Reading, ..download },
            Order::Read(fetcher.deadline()),
        ),
        _ => (download, Order::Wait),
    }
}

impl Download {
    /// A download that has yet to begin. Its first order is
    /// [`Order::Create`]: the file is created before the request is sent.
    pub fn new(to: String, dest: String, length: Option<u64>, modified: Option<i64>) -> (begun: (
        Download,
        Order,
    ))
        ensures
            begun.0 == (Download { to, dest, length, modified, stage: Stage::Creating }),
            begun.1 == Order::Create,
    {
        (Download { to, dest, length, modified, stage: Stage::Creating }, Order::Create)
    }

    /// Whether the download has ended.
    pub fn is_done(&self) -> (done: bool)
        ensures
            done == (self.stage == Stage::Done),
    {
        self.stage == Stage::Done
    }
}

impl Fetcher {
    /// Takes what came of the last order of a download and gives the next
    /// order.
    ///
    /// The file is created, and given its length where one is expected,
    /// before the request is sent. A response that says the content was not
    /// modified ends the download with success before anything is read; any
    /// other status from 300 on ends it with that status. The modification
    /// time that the response announces is kept unless one is known already.
    /// Then chunks are read until one is empty; each chunk that is not is
    /// reported under the final destination and written. A deadline that
    /// passes, and any failure, ends the download.
    pub fn get(&self, download: &mut Download, arrival: Arrival) -> (order: Order)
        ensures
            (*final(download), order) == get_step(*self, *old(download), arrival),
    {
        match (download.stage, arrival) {
            (Stage::Creating, Arrival::Created(Err(message))) => {
                download.stage = Stage::Done;
                Order::Finish(Err(Error::FileCreate(message)))
            },
            (Stage::Creating, Arrival::Created(Ok(_))) => match download.length {
                Some(length) => {
                    download.stage = Stage::Sizing;
                    Order::Resize(length)
                },
                None => {
                    download.stage = Stage::Requesting;
                    Order::Send(self.patience())
                },
            },
            (Stage::Sizing, Arrival::Sized(Err(message))) => {
                download.stage = Stage::Done;
                Order::Finish(Err(Error::Write(message)))
            },
            (Stage::Sizing, Arrival::Sized(Ok(_))) => {
                download.stage = Stage::Requesting;
                Order::Send(self.patience())
            },
            (Stage::Requesting, Arrival::Responded(outcome)) => match outcome {
                None => {
                    download.stage = Stage::Done;
                    Order::Finish(Err(Error::TimedOut))
                },
                Some(Err(message)) => {
                    download.stage = Stage::Done;
                    Order::Finish(Err(Error::Client(message)))
                },
                Some(Ok(response)) => {
                    if response.status == NOT_MODIFIED || response.status < 300 {
                        if download.modified.is_none() {
                            download.modified = last_modified(&response.headers);
                        }
                    }
                    if response.status == NOT_MODIFIED {
                        download.stage = Stage::Done;
                        Order::Finish(Ok(download.to.clone()))
                    } else if response.status < 300 {
                        download.stage = Stage::Reading;
                        Order::Read(self.patience())
                    } else {
                        download.stage = Stage::Done;
                        Order::Finish(Err(Error::Status(response.status)))
                    }
                },
            },
            (Stage::Reading, Arrival::Read(outcome)) => match outcome {
                None => {
                    download.stage = Stage::Done;
                    Order::Finish(Err(Error::TimedOut))
                },
                Some(Err(message)) => {
                    download.stage = Stage::Done;
                    Order::Finish(Err(Error::Write(message)))
                },
                Some(Ok(bytes)) => {
                    if bytes == 0 {
                        download.stage = Stage::Done;
                        Order::Finish(Ok(download.to.clone()))
                    } else {
                        download.stage = Stage::Writing;
                        Order::Write(
                            bytes,
                            self.report(FetchEvent::Progress(download.dest.clone(), bytes)),
                        )
                    }
                },
            },
            (Stage::Writing, Arrival::Written(Err(message))) => {
                download.stage = Stage::Done;
                Order::Finish(Err(Error::Write(message)))
            },
            (Stage::Writing, Arrival::Written(Ok(_))) => {
                download.stage = Stage::Reading;
                Order::Read(self.patience())
            },
            _ => Order::Wait,
        }
    }
}

/// A download reports nothing but the chunks that it read, each with its
/// size, which is not zero, and under its final destination.
pub proof fn lemma_get_reports(fetcher: Fetcher, download: Download, arrival: Arrival)
    ensures
        get_step(fetcher, download, arrival).1 matches Order::Write(bytes, Some(event))
            ==> fetcher.listened() && bytes > 0 && event == FetchEvent::Progress(
            download.dest,
            bytes,
        ),
{
}

/// A response that says the content was not modified ends the download with
/// success before anything is read.
pub proof fn lemma_not_modified_reads_nothing(
    fetcher: Fetcher,
    download: Download,
    response: Response,
)
    requires
        download.stage == Stage::Requesting,
        response.status == NOT_MODIFIED,
    ensures
        get_step(fetcher, download, Arrival::Responded(Some(Ok(response)))).1 == Order::Finish(
            Ok(download.to),
        ),
        get_step(fetcher, download, Arrival::Responded(Some(Ok(response)))).0.stage == Stage::Done,
{
}

} // verus!
