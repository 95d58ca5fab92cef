//! Fetching one file: whether to fetch at all, and how.
//!
//! A file that is already there and as long and as old as the server says is
//! left alone. Otherwise it is fetched in parts where that was asked for and
//! the server can do it, and in one stream where not.

use vstd::prelude::*;
use crate::error::Error;
use crate::event::FetchEvent;
use crate::fetcher::Fetcher;
use crate::probe::{
    announced_length, announced_time, content_length, head, head_outcome, last_modified,
    range_support, supports_range, Response, NOT_IMPLEMENTED,
};
use crate::range::{range_header, to_string};
use crate::time::{if_modified_since, rfc2822_text, LAST_DATE};

verus! {

/// What the file system says of a file.
#[derive(Debug, PartialEq, Eq)]
pub struct Local {
    /// Its length.
    pub len: u64,
    /// When it was last modified, in seconds since the Unix epoch, or why
    /// that cannot be told.
    pub modified: Result<u64, String>,
}

/// Where a fetch stands: what it is waiting for.
#[derive(Debug, Clone, Copy, PartialEq, Eq, Structural)]
pub enum Point {
    /// To learn whether the destination exists.
    Probing,
    /// For the server's word on a destination that exists.
    Heading,
    /// For the local file's length and age, to hold them against what the
    /// server announced: this length and this modification time.
    Inspecting(u64, i64),
    /// For a local file that cannot be read to be removed.
    Removing,
    /// For the server's word on a file to fetch in parts.
    Sounding,
    /// To learn whether the server serves ranges.
    Ranging,
    /// For the fetch in parts to end.
    Assembling,
    /// For the download to end.
    Streaming,
    /// For the download to end that was started again without a condition.
    Retrying,
    /// For the timestamp of the file to be set.
    Stamping,
    /// For nothing: the fetch has ended.
    Done,
}

/// The fetch of one file.
#[derive(Debug, PartialEq, Eq)]
pub struct Fetch {
    /// The addresses of the file; the first is the one asked.
    pub urls: Vec<String>,
    /// The path to fetch to.
    pub to: String,
    /// The modification time of the content, in seconds since the Unix
    /// epoch, as far as the server has told.
    pub modified: Option<i64>,
    /// The length of the content, as far as it is known.
    pub length: Option<u64>,
    /// The modification time of a local file that differs from the content,
    /// in seconds since the Unix epoch.
    pub since: Option<u64>,
    /// The path that the download wrote, once it has ended.
    pub written: Option<String>,
    /// What the fetch is waiting for.
    pub point: Point,
}

/// What came of a move.
#[derive(Debug, PartialEq, Eq)]
pub enum Reply {
    /// Whether the destination exists.
    Exists(bool),
    /// The answer to a `HEAD` request, or the failure of the client.
    Head(Result<Response, String>),
    /// What the file system says of the destination, or why it says nothing.
    Metadata(Result<Local, String>),
    /// The destination was removed, or could not be.
    Removed(Result<(), String>),
    /// The answer to a `HEAD` request for a range, or the failure of the
    /// client.
    Probed(Result<Response, String>),
    /// How the fetch in parts ended.
    Assembled(Result<(), Error>),
    /// How the download ended, and the modification time that it knew then.
    Streamed(Result<String, Error>, Option<i64>),
    /// The timestamp was set, or could not be.
    Stamped(Result<(), String>),
}

/// What a fetch does next.
#[derive(Debug, PartialEq, Eq)]
pub enum Move {
    /// Look whether the destination exists.
    Exists,
    /// Send a `HEAD` request to this address.
    Head(String),
    /// Read length and modification time of the destination.
    Metadata,
    /// Remove the destination.
    Remove,
    /// Send a `HEAD` request to this address with this `Range` header.
    Probe(String, String),
    /// Fetch the file in parts: its length, the number of parts, and the
    /// modification time to give it.
    Assemble(u64, u16, Option<i64>),
    /// Download from this address into the destination, sending this
    /// `If-Modified-Since` header if there is one; the download starts out
    /// with this modification time.
    Stream(String, Option<String>, Option<i64>),
    /// Set modification and access time of the file at this path to this
    /// many seconds after the Unix epoch.
    Stamp(String, i64),
    /// Nothing more: the fetch has ended with this result.
    Finish(Result<(), Error>),
    /// Nothing new: what arrived was not what the fetch is waiting for.
    Wait,
}

/// A move as a mathematical value: header values are texts.
pub enum MoveModel {
    Exists,
    Head(String),
    Metadata,
    Remove,
    Probe(String, Seq<char>),
    Assemble(u64, u16, Option<i64>),
    Stream(String, Option<Seq<char>>, Option<i64>),
    Stamp(String, i64),
    Finish(Result<(), Error>),
    Wait,
}

impl View for Move {
    type V = MoveModel;

    open spec fn view(&self) -> MoveModel {
        match *self {
            Move::Exists => MoveModel::Exists,
            Move::Head(url) => MoveModel::Head(url),
            Move::Metadata => MoveModel::Metadata,
            Move::Remove => MoveModel::Remove,
            Move::Probe(url, range) => MoveModel::Probe(url, range@),
            Move::Assemble(length, parts, modified) => MoveModel::Assemble(length, parts, modified),
            Move::Stream(url, since, modified) => MoveModel::Stream(
                url,
                match since {
                    Some(date) => Some(date@),
                    None => None,
                },
                modified,
            ),
            Move::Stamp(path, seconds) => MoveModel::Stamp(path, seconds),
            Move::Finish(result) => MoveModel::Finish(result),
            Move::Wait => MoveModel::Wait,
        }
    }
}

/// The answer of a fetch to a reply.
#[derive(Debug, PartialEq, Eq)]
pub struct Answer {
    /// The event to report, if any.
    pub report: Option<FetchEvent>,
    /// What to do next.
    pub action: Move,
}

/// An answer as a mathematical value.
pub struct AnswerModel {
    pub report: Option<FetchEvent>,
    pub action: MoveModel,
}

impl View for Answer {
    type V = AnswerModel;

    open spec fn view(&self) -> AnswerModel {
        AnswerModel { report: self.report, action: self.action@ }
    }
}

/// An answer that reports nothing.
pub open spec fn quiet(action: MoveModel) -> AnswerModel {
    AnswerModel { report: None, action }
}

/// Whether a local file of this length and age is the content that the
/// server announces with this length and modification time.
pub open spec fn is_current(len: u64, seconds: u64, length: u64, modified: i64) -> bool {
    len == length && seconds as int == modified as int
}

/// The `If-Modified-Since` header for a local file of this age, if it has one.
pub open spec fn condition(since: Option<u64>) -> Option<Seq<char>> {
    match since {
        Some(seconds) => if seconds <= LAST_DATE {
            Some(rfc2822_text(seconds))
        } else {
            None
        },
        None => None,
    }
}

impl Fetch {
    /// What every fetch fulfils: it has an address to ask, and where it
    /// asks for ranges it knows a length that is not zero.
    pub open spec fn wf(self) -> bool {
        &&& self.urls@.len() > 0
        &&& self.point == Point::Ranging ==> self.length.is_some() && self.length.unwrap() > 0
    }

    /// The fetch, ended.
    pub open spec fn ended(self) -> Fetch {
        Fetch { point: Point::Done, ..self }
    }

    /// Starts the download in one stream.
    pub open spec fn stream(self) -> (Fetch, AnswerModel) {
        (
            Fetch { point: Point::Streaming, ..self },
            quiet(MoveModel::Stream(self.urls@[0], condition(self.since), self.modified)),
        )
    }

    /// Turns to the download itself: in parts where more than one connection
    /// per file was asked for, which takes the server's word first, and in
    /// one stream where not.
    pub open spec fn download(self, fetcher: Fetcher) -> (Fetch, AnswerModel) {
        if fetcher.connections().is_some() {
            (Fetch { point: Point::Sounding, ..self }, quiet(MoveModel::Head(self.urls@[0])))
        } else {
            self.stream()
        }
    }

    /// Ends a download that went well: the file gets the modification time
    /// of the content where that is known.
    pub open spec fn complete(self, path: String, modified: Option<i64>) -> (Fetch, AnswerModel) {
        match modified {
            Some(seconds) => (
                Fetch { point: Point::Stamping, modified, written: Some(path), ..self },
                quiet(MoveModel::Stamp(path, seconds)),
            ),
            None => (
                Fetch { point: Point::Done, modified, written: Some(path), ..self },
                quiet(MoveModel::Finish(Ok(()))),
            ),
        }
    }

    /// The fetch and the answer that follow when `reply` reaches the fetch.
    pub open spec fn step(self, fetcher: Fetcher, reply: Reply) -> (Fetch, AnswerModel) {
        let idle = (self, quiet(MoveModel::Wait));
        match (self.point, reply) {
            (Point::Probing, Reply::Exists(exists)) => if exists {
                (Fetch { point: Point::Heading, ..self }, quiet(MoveModel::Head(self.urls@[0])))
            } else {
                self.download(fetcher)
            },
            (Point::Heading, Reply::Head(outcome)) => match head_outcome(outcome) {
                Err(error) => (self.ended(), quiet(MoveModel::Finish(Err(error)))),
                Ok(None) => self.download(fetcher),
                Ok(Some(response)) => {
                    let told = Fetch { modified: announced_time(response.headers), ..self };
                    match (announced_length(response.headers), announced_time(response.headers)) {
                        (Some(length), Some(modified)) => (
                            Fetch { point: Point::Inspecting(length, modified), ..told },
                            quiet(MoveModel::Metadata),
                        ),
                        _ => told.download(fetcher),
                    }
                },
            },
            (Point::Inspecting(length, modified), Reply::Metadata(outcome)) => match outcome {
                Err(_) => (Fetch { point: Point::Removing, ..self }, quiet(MoveModel::Remove)),
                Ok(local) => match local.modified {
                    Err(message) => (
                        self.ended(),
                        quiet(MoveModel::Finish(Err(Error::Write(message)))),
                    ),
                    Ok(seconds) => if is_current(local.len, seconds, length, modified) {
                        (self.ended(), quiet(MoveModel::Finish(Ok(()))))
                    } else {
                        (Fetch { since: Some(seconds), length: Some(length), ..self }).download(
                            fetcher,
                        )
                    },
                },
            },
            (Point::Removing, Reply::Removed(outcome)) => match outcome {
                Err(message) => (
                    self.ended(),
                    quiet(MoveModel::Finish(Err(Error::MetadataRemove(message)))),
                ),
                Ok(_) => self.download(fetcher),
            },
            (Point::Sounding, Reply::Head(outcome)) => match head_outcome(outcome) {
                Err(error) => (self.ended(), quiet(MoveModel::Finish(Err(error)))),
                Ok(None) => self.stream(),
                Ok(Some(response)) => {
                    let length = match self.length {
                        Some(length) => Some(length),
                        None => announced_length(response.headers),
                    };
                    let told = Fetch { modified: announced_time(response.headers), length, ..self };
                    match length {
                        Some(length) => if length > 0 {
                            (
                                Fetch { point: Point::Ranging, ..told },
                                quiet(
                                    MoveModel::Probe(
                                        self.urls@[0],
                                        range_header(0, length as nat),
                                    ),
                                ),
                            )
                        } else {
                            told.stream()
                        },
                        None => told.stream(),
                    }
                },
            },
            (Point::Ranging, Reply::Probed(outcome)) => match range_support(outcome) {
                Err(error) => (self.ended(), quiet(MoveModel::Finish(Err(error)))),
                Ok(supported) => match (supported, self.length, fetcher.connections()) {
                    (true, Some(length), Some(parts)) => (
                        Fetch { point: Point::Assembling, ..self },
                        AnswerModel {
                            report: fetcher.reported(FetchEvent::ContentLength(self.to, length)),
                            action: MoveModel::Assemble(length, parts, self.modified),
                        },
                    ),
                    _ => self.stream(),
                },
            },
            (Point::Assembling, Reply::Assembled(result)) => (
                self.ended(),
                quiet(MoveModel::Finish(result)),
            ),
            (Point::Streaming, Reply::Streamed(result, modified)) => match result {
                Ok(path) => self.complete(path, modified),
                Err(error) => if error == Error::Status(NOT_IMPLEMENTED) {
                    (
                        Fetch { point: Point::Retrying, modified, ..self },
                        quiet(MoveModel::Stream(self.urls@[0], None, modified)),
                    )
                } else {
                    (Fetch { modified, ..self.ended() }, quiet(MoveModel::Finish(Err(error))))
                },
            },
            (Point::Retrying, Reply::Streamed(result, modified)) => match result {
                Ok(path) => self.complete(path, modified),
                Err(error) => (
                    Fetch { modified, ..self.ended() },
                    quiet(MoveModel::Finish(Err(error))),
                ),
            },
            (Point::Stamping, Reply::Stamped(outcome)) => match (outcome, self.written) {
                (Err(message), Some(path)) => (
                    self.ended(),
                    quiet(MoveModel::Finish(Err(Error::FileTime(path, message)))),
                ),
                (Err(message), None) => (
                    self.ended(),
                    quiet(MoveModel::Finish(Err(Error::FileTime(self.to, message)))),
                ),
                (Ok(_), _) => (self.ended(), quiet(MoveModel::Finish(Ok(())))),
            },
            _ => idle,
        }
    }
}

impl Fetch {
    /// A fetch of the file at `urls` to the path `to` that has yet to begin.
    /// Its first move is to look whether the destination exists.
    pub fn new(urls: Vec<String>, to: String) -> (begun: (Fetch, Move))
        requires
            urls@.len() > 0,
        ensures
            begun.0 == (Fetch {
                urls,
                to,
                modified: None,
                length: None,
                since: None,
                written: None,
                point: Point::Probing,
            }),
            begun.0.wf(),
            begun.1 == Move::Exists,
    {
        (
            Fetch {
                urls,
                to,
                modified: None,
                length: None,
                since: None,
                written: None,
                point: Point::Probing,
            },
            Move::Exists,
        )
    }

    /// Whether the fetch has ended.
    pub fn is_done(&self) -> (done: bool)
        ensures
            done == (self.point == Point::Done),
    {
        self.point == Point::Done
    }

    /// Starts the download in one stream.
    fn start_stream(&mut self) -> (answer: Answer)
        requires
            old(self).wf(),
        ensures
            (*final(self), answer@) == old(self).stream(),
    {
        let since = match self.since {
            Some(seconds) => if_modified_since(seconds),
            None => None,
        };
        self.point = Point::Streaming;
        Answer { report: None, action: Move::Stream(self.urls[0].clone(), since, self.modified) }
    }

    /// Turns to the download itself.
    fn start_download(&mut self, fetcher: &Fetcher) -> (answer: Answer)
        requires
            old(self).wf(),
        ensures
            (*final(self), answer@) == old(self).download(*fetcher),
    {
        if fetcher.segments().is_some() {
            self.point = Point::Sounding;
            Answer { report: None, action: Move::Head(self.urls[0].clone()) }
        } else {
            self.start_stream()
        }
    }

    /// Ends a download that went well.
    fn finish_download(&mut self, path: String, modified: Option<i64>) -> (answer: Answer)
        ensures
            (*final(self), answer@) == old(self).complete(path, modified),
    {
        self.modified = modified;
        self.written = Some(path.clone());
        match modified {
            Some(seconds) => {
                self.point = Point::Stamping;
                Answer { report: None, action: Move::Stamp(path, seconds) }
            },
            None => {
                self.point = Point::Done;
                Answer { report: None, action: Move::Finish(Ok(())) }
            },
        }
    }

    /// Ends the fetch with a failure.
    fn fail(&mut self, error: Error) -> (answer: Answer)
        ensures
            *final(self) == old(self).ended(),
            answer@ == quiet(MoveModel::Finish(Err(error))),
    {
        self.point = Point::Done;
        Answer { report: None, action: Move::Finish(Err(error)) }
    }
}

/// Whether a local file of this length and age is the content that the
/// server announces with this length and modification time.
pub fn current(len: u64, seconds: u64, length: u64, modified: i64) -> (same: bool)
    ensures
        same == is_current(len, seconds, length, modified),
{
    len == length && modified >= 0 && seconds == modified as u64
}

impl Fetcher {
    /// Takes what came of the last move of a fetch and gives its answer.
    ///
    /// A destination that exists is held against the server's word: where
    /// length and modification time agree the fetch ends at once, and where
    /// they differ the download is made conditional on the local file's age.
    /// A local file that cannot be read is removed. Where more than one
    /// connection per file was asked for, the length is known and not zero,
    /// and the server serves ranges, the file is fetched in parts. Otherwise
    /// it is downloaded in one stream, once more without the condition if
    /// the server says it does not implement the request. The file that was
    /// downloaded gets the modification time of the content.
    pub fn request(&self, fetch: &mut Fetch, reply: Reply) -> (answer: Answer)
        requires
            old(fetch).wf(),
        ensures
            (*final(fetch), answer@) == old(fetch).step(*self, reply),
            final(fetch).wf(),
            answer.action matches Move::Assemble(length, parts, _) ==> length > 0 && parts >= 2
                && self.connections() == Some(parts),
    {
        match (fetch.point, reply) {
            (Point::Probing, Reply::Exists(exists)) => {
                if exists {
                    fetch.point = Point::Heading;
                    Answer { report: None, action: Move::Head(fetch.urls[0].clone()) }
                } else {
                    fetch.start_download(self)
                }
            },
            (Point::Heading, Reply::Head(outcome)) => match head(outcome) {
                Err(error) => fetch.fail(error),
                Ok(None) => fetch.start_download(self),
                Ok(Some(response)) => {
                    let length = content_length(&response.headers);
                    let modified = last_modified(&response.headers);
                    fetch.modified = modified;
                    match (length, modified) {
                        (Some(length), Some(modified)) => {
                            fetch.point = Point::Inspecting(length, modified);
                            Answer { report: None, action: Move::Metadata }
                        },
                        _ => fetch.start_download(self),
                    }
                },
            },
            (Point::Inspecting(length, modified), Reply::Metadata(outcome)) => match outcome {
                Err(_) => {
                    fetch.point = Point::Removing;
                    Answer { report: None, action: Move::Remove }
                },
                Ok(local) => match local.modified {
                    Err(message) => fetch.fail(Error::Write(message)),
                    Ok(seconds) => {
                        if current(local.len, seconds, length, modified) {
                            fetch.point = Point::Done;
                            Answer { report: None, action: Move::Finish(Ok(())) }
                        } else {
                            fetch.since = Some(seconds);
                            fetch.length = Some(length);
                            fetch.start_download(self)
                        }
                    },
                },
            },
            (Point::Removing, Reply::Removed(outcome)) => match outcome {
                Err(message) => fetch.fail(Error::MetadataRemove(message)),
                Ok(_) => fetch.start_download(self),
            },
            (Point::Sounding, Reply::Head(outcome)) => match head(outcome) {
                Err(error) => fetch.fail(error),
                Ok(None) => fetch.start_stream(),
                Ok(Some(response)) => {
                    let length = match fetch.length {
                        Some(length) => Some(length),
                        None => content_length(&response.headers),
                    };
                    fetch.modified = last_modified(&response.headers);
                    fetch.length = length;
                    match length {
                        Some(length) => {
                            if length > 0 {
                                fetch.point = Point::Ranging;
                                Answer {
                                    report: None,
                                    action: Move::Probe(fetch.urls[0].clone(), to_string(0, length)),
                                }
                            } else {
                                fetch.start_stream()
                            }
                        },
                        None => fetch.start_stream(),
                    }
                },
            },
            (Point::Ranging, Reply::Probed(outcome)) => match supports_range(outcome) {
                Err(error) => fetch.fail(error),
                Ok(supported) => match (supported, fetch.length, self.segments()) {
                    (true, Some(length), Some(parts)) => {
                        fetch.point = Point::Assembling;
                        Answer {
                            report: self.report(FetchEvent::ContentLength(fetch.to.clone(), length)),
                            action: Move::Assemble(length, parts, fetch.modified),
                        }
                    },
                    _ => fetch.start_stream(),
                },
            },
            (Point::Assembling, Reply::Assembled(result)) => {
                fetch.point = Point::Done;
                Answer { report: None, action: Move::Finish(result) }
            },
            (Point::Streaming, Reply::Streamed(result, modified)) => match result {
                Ok(path) => fetch.finish_download(path, modified),
                Err(error) => {
                    let unimplemented = match &error {
                        Error::Status(code) => *code == NOT_IMPLEMENTED,
                        _ => false,
                    };
                    fetch.modified = modified;
                    if unimplemented {
                        fetch.point = Point::Retrying;
                        Answer {
                            report: None,
                            action: Move::Stream(fetch.urls[0].clone(), None, modified),
                        }
                    } else {
                        fetch.fail(error)
                    }
                },
            },
            (Point::Retrying, Reply::Streamed(result, modified)) => match result {
                Ok(path) => fetch.finish_download(path, modified),
                Err(error) => {
                    fetch.modified = modified;
                    fetch.fail(error)
                },
            },
            (Point::Stamping, Reply::Stamped(outcome)) => match outcome {
                Err(message) => {
                    let path = match &fetch.written {
                        Some(path) => path.clone(),
                        None => fetch.to.clone(),
                    };
                    fetch.fail(Error::FileTime(path, message))
                },
                Ok(_) => {
                    fetch.point = Point::Done;
                    Answer { report: None, action: Move::Finish(Ok(())) }
                },
            },
            _ => Answer { report: None, action: Move::Wait },
        }
    }
}

impl Fetch {
    /// A file that is current is kept: where the destination exists and has
    /// the length and the modification time that the server announces, the
    /// fetch asks the server and the file system, then ends with success. It
    /// orders no download, so no byte of the content is transferred.
    pub proof fn lemma_current_file_is_kept(
        self,
        fetcher: Fetcher,
        response: Response,
        len: u64,
        seconds: u64,
    )
        requires
            self.wf(),
            self.point == Point::Probing,
            response.status < 300,
            announced_length(response.headers) == Some(len),
            announced_time(response.headers).is_some(),
            announced_time(response.headers).unwrap() as int == seconds as int,
        ensures
            ({
                let asked = self.step(fetcher, Reply::Exists(true));
                let told = asked.0.step(fetcher, Reply::Head(Ok(response)));
                let seen = told.0.step(
                    fetcher,
                    Reply::Metadata(Ok(Local { len, modified: Ok(seconds) })),
                );
                &&& asked.1 == quiet(MoveModel::Head(self.urls@[0]))
                &&& told.1 == quiet(MoveModel::Metadata)
                &&& seen.1 == quiet(MoveModel::Finish(Ok(())))
                &&& seen.0.point == Point::Done
            }),
    {
    }

    /// The file that was downloaded gets the modification time of the
    /// content: a download that ends well with a modification time known is
    /// followed by the order to set exactly that time on the file written,
    /// and the fetch then ends well exactly if the time was set.
    pub proof fn lemma_download_is_stamped(
        self,
        fetcher: Fetcher,
        path: String,
        seconds: i64,
        outcome: Result<(), String>,
    )
        requires
            self.point == Point::Streaming || self.point == Point::Retrying,
        ensures
            ({
                let written = self.step(fetcher, Reply::Streamed(Ok(path), Some(seconds)));
                let stamped = written.0.step(fetcher, Reply::Stamped(outcome));
                &&& written.1 == quiet(MoveModel::Stamp(path, seconds))
                &&& written.0.point == Point::Stamping
                &&& stamped.0.point == Point::Done
                &&& stamped.1 == quiet(
                    MoveModel::Finish(
                        match outcome {
                            Ok(_) => Ok(()),
                            Err(message) => Err(Error::FileTime(path, message)),
                        },
                    ),
                )
            }),
    {
    }

    /// A fetch reports nothing but the length of a file that it is about to
    /// fetch in parts, under the path that it fetches to.
    pub proof fn lemma_reports(self, fetcher: Fetcher, reply: Reply)
        ensures
            self.step(fetcher, reply).1.report matches Some(event) ==> fetcher.listened()
                && self.point == Point::Ranging && self.length.is_some() && event
                == FetchEvent::ContentLength(self.to, self.length.unwrap()),
    {
    }

    /// A fetch that has ended stays ended and orders nothing more.
    pub proof fn lemma_done_is_final(self, fetcher: Fetcher, reply: Reply)
        requires
            self.point == Point::Done,
        ensures
            self.step(fetcher, reply) == (self, quiet(MoveModel::Wait)),
    {
    }
}

impl Fetch {
    /// Whether `reply` is one of the four ways in which a fetch ends well:
    /// the local file is current; the fetch in parts ended well; the download
    /// ended well and no modification time is known; or the timestamp of the
    /// file that was downloaded has been set.
    pub open spec fn ends_well_on(self, reply: Reply) -> bool {
        match (self.point, reply) {
            (Point::Inspecting(length, modified), Reply::Metadata(Ok(local))) => local.modified.is_ok()
                && is_current(local.len, local.modified.unwrap(), length, modified),
            (Point::Assembling, Reply::Assembled(result)) => result.is_ok(),
            (Point::Streaming, Reply::Streamed(result, modified)) => result.is_ok()
                && modified.is_none(),
            (Point::Retrying, Reply::Streamed(result, modified)) => result.is_ok()
                && modified.is_none(),
            (Point::Stamping, Reply::Stamped(outcome)) => outcome.is_ok(),
            _ => false,
        }
    }

    /// A fetch ends well in four ways and no other. In particular a file
    /// that was downloaded with a modification time known is never left
    /// without the attempt to give it that time.
    pub proof fn lemma_ends_well(self, fetcher: Fetcher, reply: Reply)
        ensures
            self.step(fetcher, reply).1.action == MoveModel::Finish(Ok(())) <==> self.ends_well_on(
                reply,
            ),
    {
        match (self.point, reply) {
            (Point::Assembling, Reply::Assembled(Ok(done))) => {
                assert(done == ());
            },
            _ => {},
        }
    }
}

} // verus!
