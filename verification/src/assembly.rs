//! Fetching one file in parts and joining the parts in order.
//!
//! The parts are fetched side by side, each into a file of its own beside
//! the destination, and may be done in any order. They are appended to the
//! destination strictly by index: a part that is done early waits its turn.

use vstd::prelude::*;
use vstd::string::StringExecFns;
use crate::error::Error;
use crate::event::FetchEvent;
use crate::fetcher::Fetcher;
use crate::range::{
    boundary, lemma_boundary_bounds, lemma_boundary_monotone, part_range, range_header, to_string,
};
use crate::text::{decimal, decimal_text};

verus! {

/// What came of appending a part to the destination.
#[derive(Debug, PartialEq, Eq)]
pub enum Joined {
    /// The part could not be opened.
    OpenFailed(String),
    /// Copying the part failed.
    CopyFailed(String),
    /// The part was copied; then it was removed, or could not be.
    Copied(Result<(), String>),
}

/// The result of appending the part at `part_path`: a part that was copied
/// is appended, whether or not it could be removed afterwards.
pub open spec fn concatenated(part_path: String, outcome: Joined) -> Result<(), Error> {
    match outcome {
        Joined::OpenFailed(message) => Err(Error::OpenPart(part_path, message)),
        Joined::CopyFailed(message) => Err(Error::Concatenate(message)),
        Joined::Copied(_) => Ok(()),
    }
}

/// Judges what came of appending the part at `part_path` to the destination.
/// A part that could not be removed after it was copied is no failure.
pub fn concatenate(part_path: String, outcome: Joined) -> (result: Result<(), Error>)
    ensures
        result == concatenated(part_path, outcome),
{
    match outcome {
        Joined::OpenFailed(message) => Err(Error::OpenPart(part_path, message)),
        Joined::CopyFailed(message) => Err(Error::Concatenate(message)),
        Joined::Copied(_) => Ok(()),
    }
}

/// Where an assembly stands: what it is waiting for.
#[derive(Debug, Clone, Copy, PartialEq, Eq, Structural)]
pub enum Phase {
    /// For the destination to be created.
    Creating,
    /// For the next part in turn to be fetched.
    Fetching,
    /// For the part in turn to be appended.
    Joining,
    /// For the timestamp of the destination to be set.
    Stamping,
    /// For nothing: the assembly has ended.
    Done,
}

/// The fetch of one file in parts.
#[derive(Debug, PartialEq, Eq)]
pub struct Assembly {
    /// The destination, which the parts are appended to.
    pub to: String,
    /// The directory of the destination, in which the parts are written.
    pub directory: String,
    /// The file name of the destination.
    pub name: String,
    /// The addresses of the file.
    pub urls: Vec<String>,
    /// The length of the file.
    pub length: u64,
    /// The number of parts.
    pub parts: u16,
    /// The modification time to give the destination, in seconds since the
    /// Unix epoch.
    pub modified: Option<i64>,
    /// For each part, how its fetch ended: with the path of its file or with
    /// a failure. `None` while it is being fetched.
    pub outcomes: Vec<Option<Result<String, Error>>>,
    /// The number of parts appended so far.
    pub joined: u16,
    /// What the assembly is waiting for.
    pub phase: Phase,
}

/// An assembly as a mathematical value.
pub struct AssemblyModel {
    pub to: String,
    pub directory: String,
    pub name: String,
    pub urls: Seq<String>,
    pub length: u64,
    pub parts: u16,
    pub modified: Option<i64>,
    pub outcomes: Seq<Option<Result<String, Error>>>,
    pub joined: u16,
    pub phase: Phase,
}

impl View for Assembly {
    type V = AssemblyModel;

    open spec fn view(&self) -> AssemblyModel {
        AssemblyModel {
            to: self.to,
            directory: self.directory,
            name: self.name,
            urls: self.urls@,
            length: self.length,
            parts: self.parts,
            modified: self.modified,
            outcomes: self.outcomes@,
            joined: self.joined,
            phase: self.phase,
        }
    }
}

/// What came of an order of an assembly.
#[derive(Debug, PartialEq, Eq)]
pub enum Signal {
    /// The destination was created, or could not be.
    Created(Result<(), String>),
    /// The fetch of the part of this index ended, with the path of its file
    /// or with a failure.
    Fetched(u16, Result<String, Error>),
    /// The part in turn was appended, or could not be.
    Joined(Joined),
    /// The timestamp of the destination was set, or could not be.
    Stamped(Result<(), String>),
}

/// What an assembly orders next.
#[derive(Debug, PartialEq, Eq)]
pub enum Task {
    /// Create the destination, empty.
    Create,
    /// Start fetching every part, all at once.
    Dispatch,
    /// Append the part file at this path to the destination, then remove it.
    Join(String),
    /// Set the modification and access time of the destination to this many
    /// seconds after the Unix epoch.
    Stamp(i64),
    /// Nothing more: the assembly has ended with this result.
    Finish(Result<(), Error>),
    /// Nothing new: go on waiting for what is outstanding.
    Wait,
}

/// The answer of an assembly to a signal.
#[derive(Debug, PartialEq, Eq)]
pub struct Step {
    /// The event to report, if any.
    pub report: Option<FetchEvent>,
    /// What to do next.
    pub task: Task,
}

/// The fetch of one part.
#[derive(Debug, PartialEq, Eq)]
pub struct Part {
    /// The index of the part.
    pub index: u16,
    /// The address to fetch it from.
    pub url: String,
    /// The directory of its file.
    pub directory: String,
    /// The name of its file.
    pub name: String,
    /// The offset of its first byte in the whole.
    pub offset: u64,
    /// The number of its bytes.
    pub length: u64,
    /// The value of the `Range` header that asks for it.
    pub range: String,
    /// The event that reports the start of its fetch, if events are reported.
    pub announce: Option<FetchEvent>,
}

/// The name of the file of part `index` beside a destination named `name`.
pub open spec fn part_name(name: Seq<char>, index: u16) -> Seq<char> {
    name + ".part"@ + decimal(index as nat)
}

impl AssemblyModel {
    /// What every assembly fulfils.
    pub open spec fn wf(self) -> bool {
        &&& self.urls.len() > 0
        &&& self.length > 0
        &&& self.parts >= 2
        &&& self.outcomes.len() == self.parts
        &&& self.joined <= self.parts
        &&& self.phase == Phase::Joining ==> self.joined < self.parts
            && self.outcomes[self.joined as int] matches Some(Ok(_))
    }

    /// Whether `part` is the fetch of part `index` of this assembly: from
    /// the address that the index picks in turn among all, into the file
    /// named after the destination and the index, for the range of the part.
    pub open spec fn is_job(self, fetcher: Fetcher, index: u16, part: Part) -> bool {
        &&& part.index == index
        &&& part.url == self.urls[index as int % self.urls.len() as int]
        &&& part.directory == self.directory
        &&& part.name@ == part_name(self.name@, index)
        &&& part_range(self.length as nat, self.parts as nat, index as nat) == Some(
            (part.offset as nat, (part.offset + part.length) as nat),
        )
        &&& part.range@ == range_header(part.offset as nat, (part.offset + part.length) as nat)
        &&& part.announce == fetcher.reported(FetchEvent::PartFetching(self.to, index))
    }

    /// Turns to the part next in turn: it is appended if it is there, the
    /// assembly waits if it is not, and ends if its fetch failed. When no part
    /// is left the timestamp is set, if one is known.
    pub open spec fn proceed(self) -> (AssemblyModel, Task) {
        if self.joined >= self.parts {
            match self.modified {
                Some(seconds) => (
                    AssemblyModel { phase: Phase::Stamping, ..self },
                    Task::Stamp(seconds),
                ),
                None => (AssemblyModel { phase: Phase::Done, ..self }, Task::Finish(Ok(()))),
            }
        } else {
            match self.outcomes[self.joined as int] {
                Some(Ok(path)) => (AssemblyModel { phase: Phase::Joining, ..self }, Task::Join(path)),
                Some(Err(error)) => (
                    AssemblyModel { phase: Phase::Done, ..self },
                    Task::Finish(Err(error)),
                ),
                None => (AssemblyModel { phase: Phase::Fetching, ..self }, Task::Wait),
            }
        }
    }

    /// The assembly and the answer that follow when `signal` reaches it.
    pub open spec fn step(self, fetcher: Fetcher, signal: Signal) -> (AssemblyModel, Step) {
        let ended = AssemblyModel { phase: Phase::Done, ..self };
        let idle = (self, Step { report: None, task: Task::Wait });
        match (self.phase, signal) {
            (Phase::Creating, Signal::Created(Err(message))) => (
                ended,
                Step { report: None, task: Task::Finish(Err(Error::FileCreate(message))) },
            ),
            (Phase::Creating, Signal::Created(Ok(_))) => (
                AssemblyModel { phase: Phase::Fetching, ..self },
                Step { report: None, task: Task::Dispatch },
            ),
            (Phase::Fetching, Signal::Fetched(index, result)) => if index < self.parts
                && self.outcomes[index as int].is_none() {
                let recorded = AssemblyModel {
                    outcomes: self.outcomes.update(index as int, Some(result)),
                    ..self
                };
                let report = fetcher.reported(FetchEvent::PartFetched(self.to, index));
                if index == self.joined {
                    (recorded.proceed().0, Step { report, task: recorded.proceed().1 })
                } else {
                    (recorded, Step { report, task: Task::Wait })
                }
            } else {
                idle
            },
            (Phase::Joining, Signal::Fetched(index, result)) => if index < self.parts
                && self.outcomes[index as int].is_none() {
                (
                    AssemblyModel {
                        outcomes: self.outcomes.update(index as int, Some(result)),
                        ..self
                    },
                    Step {
                        report: fetcher.reported(FetchEvent::PartFetched(self.to, index)),
                        task: Task::Wait,
                    },
                )
            } else {
                idle
            },
            (Phase::Joining, Signal::Joined(outcome)) => match self.outcomes[self.joined as int] {
                Some(Ok(path)) => match concatenated(path, outcome) {
                    Err(error) => (ended, Step { report: None, task: Task::Finish(Err(error)) }),
                    Ok(_) => {
                        let appended = AssemblyModel {
                            joined: (self.joined + 1) as u16,
                            ..self
                        };
                        (appended.proceed().0, Step { report: None, task: appended.proceed().1 })
                    },
                },
                _ => idle,
            },
            (Phase::Stamping, Signal::Stamped(Err(message))) => (
                ended,
                Step { report: None, task: Task::Finish(Err(Error::FileTime(self.to, message))) },
            ),
            (Phase::Stamping, Signal::Stamped(Ok(_))) => (
                ended,
                Step { report: None, task: Task::Finish(Ok(())) },
            ),
            _ => idle,
        }
    }
}

/// Every part of a length above zero ends after the first byte.
proof fn lemma_part_ends_late(length: nat, parts: nat, index: nat)
    requires
        length > 0,
        parts > 0,
        index < parts,
    ensures
        boundary(length, parts, index + 1) >= 1,
        boundary(length, parts, index) <= boundary(length, parts, index + 1),
{
    lemma_boundary_bounds(length, parts, 0);
    lemma_boundary_bounds(length, parts, index);
    lemma_boundary_monotone(length, parts, 1, index + 1);
    if length / parts == 0 && length % parts == 0 {
        assert(length == parts * (length / parts) + length % parts) by (nonlinear_arith)
            requires
                parts > 0,
        ;
    }
}

impl Assembly {
    /// An assembly that has yet to begin, for a destination of which the
    /// directory and the file name are given as far as it has them. Its
    /// first order is to create the destination.
    ///
    /// A destination without a directory, or else without a file name,
    /// cannot be fetched in parts.
    pub fn new(
        length: u64,
        parts: u16,
        urls: Vec<String>,
        to: String,
        parent: Option<String>,
        name: Option<String>,
        modified: Option<i64>,
    ) -> (begun: Result<(Assembly, Task), Error>)
        requires
            urls@.len() > 0,
            length > 0,
            parts >= 2,
        ensures
            parent.is_none() ==> begun == Err::<(Assembly, Task), Error>(Error::Parentless),
            parent.is_some() && name.is_none() ==> begun == Err::<(Assembly, Task), Error>(
                Error::Nameless,
            ),
            parent.is_some() && name.is_some() ==> begun.is_ok() && begun.unwrap().1 == Task::Create
                && begun.unwrap().0@ == (AssemblyModel {
                to,
                directory: parent.unwrap(),
                name: name.unwrap(),
                urls: urls@,
                length,
                parts,
                modified,
                outcomes: Seq::new(parts as nat, |i: int| None),
                joined: 0,
                phase: Phase::Creating,
            }),
            begun.is_ok() ==> begun.unwrap().0@.wf(),
    {
        let directory = match parent {
            Some(directory) => directory,
            None => {
                return Err(Error::Parentless);
            },
        };
        let name = match name {
            Some(name) => name,
            None => {
                return Err(Error::Nameless);
            },
        };
        let mut outcomes: Vec<Option<Result<String, Error>>> = Vec::new();
        let mut index: u16 = 0;
        while index < parts
            invariant
                index <= parts,
                outcomes@.len() == index,
                forall|i: int| 0 <= i < index ==> outcomes@[i].is_none(),
            decreases parts - index,
        {
            outcomes.push(None);
            index = index + 1;
        }
        assert(outcomes@ =~= Seq::new(parts as nat, |i: int| None));
        Ok(
            (
                Assembly {
                    to,
                    directory,
                    name,
                    urls,
                    length,
                    parts,
                    modified,
                    outcomes,
                    joined: 0,
                    phase: Phase::Creating,
                },
                Task::Create,
            ),
        )
    }

    /// The fetch of part `index`.
    fn job(&self, fetcher: &Fetcher, index: u16) -> (part: Part)
        requires
            self@.wf(),
            index < self.parts,
        ensures
            self@.is_job(*fetcher, index, part),
    {
        let slot: usize = (index as usize) % self.urls.len();
        let url = self.urls[slot].clone();
        let mut name = self.name.clone();
        name.append(".part");
        let number = decimal_text(index as u64);
        name.append(number.as_str());
        proof {
            lemma_part_ends_late(self.length as nat, self.parts as nat, index as nat);
        }
        let (offset, offset_to) = match crate::range::calc(
            self.length,
            self.parts as u64,
            index as u64,
        ) {
            Some(range) => range,
            None => (0, 0),
        };
        let range = to_string(offset, offset_to);
        Part {
            index,
            url,
            directory: self.directory.clone(),
            name,
            offset,
            length: offset_to - offset,
            range,
            announce: fetcher.report(FetchEvent::PartFetching(self.to.clone(), index)),
        }
    }

    /// The fetches of all parts, by index. Each is a download of its own
    /// into its own file; all are started at once.
    pub fn jobs(&self, fetcher: &Fetcher) -> (jobs: Vec<Part>)
        requires
            self@.wf(),
        ensures
            jobs@.len() == self.parts,
            forall|i: int| 0 <= i < jobs@.len() ==> self@.is_job(*fetcher, i as u16, #[trigger] jobs@[i]),
    {
        let mut jobs: Vec<Part> = Vec::new();
        let mut index: u16 = 0;
        while index < self.parts
            invariant
                self@.wf(),
                index <= self.parts,
                jobs@.len() == index,
                forall|i: int|
                    0 <= i < jobs@.len() ==> self@.is_job(*fetcher, i as u16, #[trigger] jobs@[i]),
            decreases self.parts - index,
        {
            let part = self.job(fetcher, index);
            jobs.push(part);
            index = index + 1;
        }
        jobs
    }

    /// Turns to the part next in turn.
    fn proceed(&mut self) -> (task: Task)
        requires
            old(self).outcomes@.len() == old(self).parts,
        ensures
            (final(self)@, task) == old(self)@.proceed(),
    {
        if self.joined >= self.parts {
            match self.modified {
                Some(seconds) => {
                    self.phase = Phase::Stamping;
                    Task::Stamp(seconds)
                },
                None => {
                    self.phase = Phase::Done;
                    Task::Finish(Ok(()))
                },
            }
        } else {
            match &self.outcomes[self.joined as usize] {
                Some(Ok(path)) => {
                    let path = path.clone();
                    self.phase = Phase::Joining;
                    Task::Join(path)
                },
                Some(Err(error)) => {
                    let error = error.clone();
                    self.phase = Phase::Done;
                    Task::Finish(Err(error))
                },
                None => {
                    self.phase = Phase::Fetching;
                    Task::Wait
                },
            }
        }
    }

    /// Whether the assembly has ended.
    pub fn is_done(&self) -> (done: bool)
        ensures
            done == (self.phase == Phase::Done),
    {
        self.phase == Phase::Done
    }
}

impl Fetcher {
    /// Takes what came of an order of an assembly and gives its answer.
    ///
    /// Once the destination is created all parts are fetched at once. The
    /// end of each fetch is recorded and reported, whenever it comes. The
    /// parts are appended one at a time and in the order of their indices;
    /// the first failure of a fetch in that order, or of an append, ends the
    /// assembly. When all parts are appended the timestamp of the destination
    /// is set, if one is known.
    pub fn get_many(&self, assembly: &mut Assembly, signal: Signal) -> (step: Step)
        requires
            old(assembly)@.wf(),
        ensures
            (final(assembly)@, step) == old(assembly)@.step(*self, signal),
            final(assembly)@.wf(),
    {
        match (assembly.phase, signal) {
            (Phase::Creating, Signal::Created(Err(message))) => {
                assembly.phase = Phase::Done;
                Step { report: None, task: Task::Finish(Err(Error::FileCreate(message))) }
            },
            (Phase::Creating, Signal::Created(Ok(_))) => {
                assembly.phase = Phase::Fetching;
                Step { report: None, task: Task::Dispatch }
            },
            (Phase::Fetching, Signal::Fetched(index, result)) => {
                if index < assembly.parts && assembly.outcomes[index as usize].is_none() {
                    assembly.outcomes.set(index as usize, Some(result));
                    let report = self.report(FetchEvent::PartFetched(assembly.to.clone(), index));
                    if index == assembly.joined {
                        let task = assembly.proceed();
                        Step { report, task }
                    } else {
                        Step { report, task: Task::Wait }
                    }
                } else {
                    Step { report: None, task: Task::Wait }
                }
            },
            (Phase::Joining, Signal::Fetched(index, result)) => {
                if index < assembly.parts && assembly.outcomes[index as usize].is_none() {
                    assembly.outcomes.set(index as usize, Some(result));
                    Step {
                        report: self.report(FetchEvent::PartFetched(assembly.to.clone(), index)),
                        task: Task::Wait,
                    }
                } else {
                    Step { report: None, task: Task::Wait }
                }
            },
            (Phase::Joining, Signal::Joined(outcome)) => {
                let path = match &assembly.outcomes[assembly.joined as usize] {
                    Some(Ok(path)) => path.clone(),
                    _ => {
                        return Step { report: None, task: Task::Wait };
                    },
                };
                match concatenate(path, outcome) {
                    Err(error) => {
                        assembly.phase = Phase::Done;
                        Step { report: None, task: Task::Finish(Err(error)) }
                    },
                    Ok(_) => {
                        assembly.joined = assembly.joined + 1;
                        let task = assembly.proceed();
                        Step { report: None, task }
                    },
                }
            },
            (Phase::Stamping, Signal::Stamped(Err(message))) => {
                assembly.phase = Phase::Done;
                Step {
                    report: None,
                    task: Task::Finish(Err(Error::FileTime(assembly.to.clone(), message))),
                }
            },
            (Phase::Stamping, Signal::Stamped(Ok(_))) => {
                assembly.phase = Phase::Done;
                Step { report: None, task: Task::Finish(Ok(())) }
            },
            _ => Step { report: None, task: Task::Wait },
        }
    }
}

impl AssemblyModel {
    /// An assembly that has yet to begin.
    pub open spec fn fresh(self) -> bool {
        &&& self.wf()
        &&& self.phase == Phase::Creating
        &&& self.joined == 0
        &&& forall|i: int| 0 <= i < self.outcomes.len() ==> self.outcomes[i].is_none()
    }

    /// Whether `signal` tells that the part in turn has been appended.
    pub open spec fn appends(self, signal: Signal) -> bool {
        &&& self.phase == Phase::Joining
        &&& signal matches Signal::Joined(outcome)
        &&& self.outcomes[self.joined as int] matches Some(Ok(path))
        &&& concatenated(path, outcome).is_ok()
    }

    /// The assembly after a run of signals.
    pub open spec fn run(self, fetcher: Fetcher, signals: Seq<Signal>) -> AssemblyModel
        decreases signals.len(),
    {
        if signals.len() == 0 {
            self
        } else {
            self.run(fetcher, signals.drop_last()).step(fetcher, signals.last()).0
        }
    }

    /// The part files appended to the destination over a run of signals, in
    /// the order in which they were appended.
    pub open spec fn appended(self, fetcher: Fetcher, signals: Seq<Signal>) -> Seq<String>
        decreases signals.len(),
    {
        if signals.len() == 0 {
            Seq::empty()
        } else {
            let before = self.run(fetcher, signals.drop_last());
            let earlier = self.appended(fetcher, signals.drop_last());
            if before.appends(signals.last()) {
                earlier.push(before.outcomes[before.joined as int].unwrap().unwrap())
            } else {
                earlier
            }
        }
    }

    /// A step keeps an assembly well formed, keeps what is recorded of a
    /// part, and counts one part more exactly when one was appended.
    pub proof fn lemma_step(self, fetcher: Fetcher, signal: Signal)
        requires
            self.wf(),
        ensures
            self.step(fetcher, signal).0.wf(),
            forall|i: int|
                0 <= i < self.parts && self.outcomes[i].is_some() ==> self.step(
                    fetcher,
                    signal,
                ).0.outcomes[i] == self.outcomes[i],
            self.step(fetcher, signal).0.joined == if self.appends(signal) {
                self.joined + 1
            } else {
                self.joined as int
            },
    {
    }

    /// Parts are appended in the order of their indices, whatever the order
    /// in which their fetches end: after any run of signals, the files
    /// appended so far are, in this order, the files of parts 0, 1, 2 and so
    /// on, as many as the assembly counts.
    pub proof fn lemma_joined_in_order(self, fetcher: Fetcher, signals: Seq<Signal>)
        requires
            self.fresh(),
        ensures
            self.run(fetcher, signals).wf(),
            self.appended(fetcher, signals).len() == self.run(fetcher, signals).joined,
            forall|i: int|
                0 <= i < self.run(fetcher, signals).joined ==> self.run(
                    fetcher,
                    signals,
                ).outcomes[i] == Some(
                    Ok::<String, Error>(#[trigger] self.appended(fetcher, signals)[i]),
                ),
        decreases signals.len(),
    {
        if signals.len() > 0 {
            let before = self.run(fetcher, signals.drop_last());
            self.lemma_joined_in_order(fetcher, signals.drop_last());
            before.lemma_step(fetcher, signals.last());
        }
    }
}

impl AssemblyModel {
    /// The destination gets the modification time that the assembly was
    /// given: once the last part is appended the order is to set exactly that
    /// time, and the assembly then ends well exactly if it was set.
    pub proof fn lemma_assembly_is_stamped(
        self,
        fetcher: Fetcher,
        seconds: i64,
        copied: Result<(), String>,
        outcome: Result<(), String>,
    )
        requires
            self.wf(),
            self.phase == Phase::Joining,
            self.joined + 1 == self.parts,
            self.modified == Some(seconds),
        ensures
            ({
                let joined = self.step(fetcher, Signal::Joined(Joined::Copied(copied)));
                let stamped = joined.0.step(fetcher, Signal::Stamped(outcome));
                &&& joined.1 == Step { report: None, task: Task::Stamp(seconds) }
                &&& joined.0.phase == Phase::Stamping
                &&& stamped.0.phase == Phase::Done
                &&& stamped.1 == Step {
                    report: None,
                    task: Task::Finish(
                        match outcome {
                            Ok(_) => Ok(()),
                            Err(message) => Err(Error::FileTime(self.to, message)),
                        },
                    ),
                }
            }),
    {
    }

    /// An assembly reports nothing but the end of the fetch of a part,
    /// under its destination.
    pub proof fn lemma_reports(self, fetcher: Fetcher, signal: Signal)
        ensures
            self.step(fetcher, signal).1.report matches Some(event) ==> fetcher.listened() && (
            signal matches Signal::Fetched(index, _) && event == FetchEvent::PartFetched(
                self.to,
                index,
            )),
    {
    }
}

} // verus!
