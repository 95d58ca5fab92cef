//! What is done with a file once its fetch has ended: checking it, bringing
//! it to its destination, and giving it its timestamp.

use vstd::prelude::*;

verus! {

/// What went wrong after a fetch, and with which path.
#[derive(Debug, PartialEq, Eq)]
pub enum FetchErrorKind {
    /// The file at this path does not have the checksum that it should.
    DestinationHash(String),
    /// The file at this path could not be removed.
    Remove(String),
    /// The file could not be renamed.
    Rename { src: String, dst: String },
    /// The timestamp of the file at this path could not be set.
    FileTime(String),
    /// The destination at this path could not be created.
    CreateDestination(String),
    /// The writer to the destination at this path could not be made.
    WriterConstruction(String),
    /// The file at this path could not be opened.
    Open(String),
    /// The file could not be copied.
    Copy { src: String, dst: String },
}

/// One operation on the files of a fetch that has ended.
#[derive(Debug, PartialEq, Eq)]
pub enum Operation {
    /// Tell the listener, if `announce` is set, that the file is being
    /// processed; then hold the file at `path` against `checksum`, computed
    /// with the digest named `digest`.
    Verify { path: String, digest: String, checksum: String, announce: bool },
    /// Remove the file at this path.
    Remove(String),
    /// Rename the file at `src` to `dst`.
    Rename { src: String, dst: String },
    /// Create the file at this path, empty.
    Create(String),
    /// Make the writer that takes what is written to the file at this path.
    ConstructWriter(String),
    /// Open the file at this path for reading.
    Open(String),
    /// Copy what the file at `src` holds into the writer to `dst`.
    Copy { src: String, dst: String },
    /// Set modification and access time of the file at this path to this
    /// many seconds after the Unix epoch.
    SetTimes(String, i64),
}

impl Operation {
    /// The failure that the operation ends in when it cannot be done.
    pub open spec fn failure(self) -> FetchErrorKind {
        match self {
            Operation::Verify { path, .. } => FetchErrorKind::DestinationHash(path),
            Operation::Remove(path) => FetchErrorKind::Remove(path),
            Operation::Rename { src, dst } => FetchErrorKind::Rename { src, dst },
            Operation::Create(path) => FetchErrorKind::CreateDestination(path),
            Operation::ConstructWriter(path) => FetchErrorKind::WriterConstruction(path),
            Operation::Open(path) => FetchErrorKind::Open(path),
            Operation::Copy { src, dst } => FetchErrorKind::Copy { src, dst },
            Operation::SetTimes(path, _) => FetchErrorKind::FileTime(path),
        }
    }

    /// The failure that the operation ends in when it cannot be done.
    pub fn error(&self) -> (kind: FetchErrorKind)
        ensures
            kind == self.failure(),
    {
        match self {
            Operation::Verify { path, .. } => FetchErrorKind::DestinationHash(path.clone()),
            Operation::Remove(path) => FetchErrorKind::Remove(path.clone()),
            Operation::Rename { src, dst } => FetchErrorKind::Rename {
                src: src.clone(),
                dst: dst.clone(),
            },
            Operation::Create(path) => FetchErrorKind::CreateDestination(path.clone()),
            Operation::ConstructWriter(path) => FetchErrorKind::WriterConstruction(path.clone()),
            Operation::Open(path) => FetchErrorKind::Open(path.clone()),
            Operation::Copy { src, dst } => FetchErrorKind::Copy { src: src.clone(), dst: dst.clone() },
            Operation::SetTimes(path, _) => FetchErrorKind::FileTime(path.clone()),
        }
    }
}

/// A checksum that the fetched file is held against.
#[derive(Debug, PartialEq, Eq)]
pub struct Checksum {
    /// The name of the digest.
    pub digest: String,
    /// The value that the digest of the file must have.
    pub value: String,
}

/// A fetch that has ended, or will have, and what remains to be done with
/// the file: it waits at `download_location` and belongs at
/// `final_destination`.
#[derive(Debug, PartialEq, Eq)]
pub struct FetchedState {
    /// Where the file was fetched to.
    pub download_location: String,
    /// Where the file belongs.
    pub final_destination: String,
    /// Whether someone listens to what happens.
    pub progress: bool,
    /// The checksums to hold the file against, in the order in which they
    /// were asked for.
    pub checksums: Vec<Checksum>,
}

/// A fetch with all that follows it laid out.
#[derive(Debug, PartialEq, Eq)]
pub struct CompletedState {
    /// The operations that remain, in order. The first that fails ends
    /// everything, with its failure.
    pub plan: Vec<Operation>,
    /// Where the file is in the end.
    pub destination: String,
}

impl FetchedState {
    /// The checks on a file, one for each checksum. What a fetch yields is
    /// `None` where the file was there already and nothing was fetched, and
    /// then nothing is checked.
    pub open spec fn checks(self, fetched: Option<Option<i64>>) -> Seq<Operation> {
        if fetched.is_some() {
            Seq::new(
                self.checksums@.len(),
                |i: int|
                    Operation::Verify {
                        path: self.download_location,
                        digest: self.checksums@[i].digest,
                        checksum: self.checksums@[i].value,
                        announce: self.progress,
                    },
            )
        } else {
            Seq::empty()
        }
    }

    /// The operations that bring a fetched file to its destination by
    /// renaming it; `exists` says whether there is a file at the destination.
    pub open spec fn moves(self, fetched: Option<Option<i64>>, exists: bool) -> Seq<Operation> {
        if fetched.is_some() && self.download_location@ != self.final_destination@ {
            let rename = Operation::Rename {
                src: self.download_location,
                dst: self.final_destination,
            };
            if exists {
                seq![Operation::Remove(self.final_destination), rename]
            } else {
                seq![rename]
            }
        } else {
            Seq::empty()
        }
    }

    /// The operations that bring a fetched file to its destination through
    /// a writer that processes it.
    pub open spec fn processing(self, fetched: Option<Option<i64>>) -> Seq<Operation> {
        if fetched.is_some() {
            seq![
                Operation::Create(self.final_destination),
                Operation::ConstructWriter(self.final_destination),
                Operation::Open(self.download_location),
                Operation::Copy { src: self.download_location, dst: self.final_destination },
                Operation::Remove(self.download_location),
            ]
        } else {
            Seq::empty()
        }
    }

    /// The operation that gives the destination its timestamp, where the
    /// fetch yields one.
    pub open spec fn stamps(self, fetched: Option<Option<i64>>) -> Seq<Operation> {
        match fetched {
            Some(Some(seconds)) => seq![Operation::SetTimes(self.final_destination, seconds)],
            _ => Seq::empty(),
        }
    }

    /// A fetch to `download_location` of a file that belongs at
    /// `final_destination`, with nothing to check.
    pub fn new(download_location: String, final_destination: String, progress: bool) -> (state:
        FetchedState)
        ensures
            state.download_location == download_location,
            state.final_destination == final_destination,
            state.progress == progress,
            state.checksums@ == Seq::<Checksum>::empty(),
    {
        FetchedState { download_location, final_destination, progress, checksums: Vec::new() }
    }

    /// Asks that the fetched file be held against `checksum`, computed with
    /// the digest named `digest`, after the checks asked for before.
    pub fn with_checksum(self, digest: String, checksum: String) -> (state: FetchedState)
        ensures
            state.download_location == self.download_location,
            state.final_destination == self.final_destination,
            state.progress == self.progress,
            state.checksums@ == self.checksums@.push(Checksum { digest, value: checksum }),
    {
        let mut state = self;
        state.checksums.push(Checksum { digest, value: checksum });
        state
    }

    /// Appends to `plan` the checks on the file.
    fn push_checks(&self, plan: &mut Vec<Operation>, fetched: Option<Option<i64>>)
        ensures
            final(plan)@ == old(plan)@ + self.checks(fetched),
    {
        if fetched.is_none() {
            assert(plan@ + Seq::<Operation>::empty() =~= plan@);
            return ;
        }
        let ghost before = plan@;
        let mut index: usize = 0;
        while index < self.checksums.len()
            invariant
                index <= self.checksums@.len(),
                fetched.is_some(),
                plan@ == before + self.checks(fetched).subrange(0, index as int),
            decreases self.checksums@.len() - index,
        {
            let entry = &self.checksums[index];
            plan.push(
                Operation::Verify {
                    path: self.download_location.clone(),
                    digest: entry.digest.clone(),
                    checksum: entry.value.clone(),
                    announce: self.progress,
                },
            );
            index = index + 1;
            assert(plan@ =~= before + self.checks(fetched).subrange(0, index as int));
        }
        assert(self.checks(fetched).subrange(0, index as int) =~= self.checks(fetched));
    }

    /// Appends to `plan` the operation that sets the timestamp.
    fn push_stamps(&self, plan: &mut Vec<Operation>, fetched: Option<Option<i64>>)
        ensures
            final(plan)@ == old(plan)@ + self.stamps(fetched),
    {
        match fetched {
            Some(Some(seconds)) => {
                plan.push(Operation::SetTimes(self.final_destination.clone(), seconds));
                assert(plan@ =~= old(plan)@ + self.stamps(fetched));
            },
            _ => {
                assert(plan@ =~= old(plan)@ + self.stamps(fetched));
            },
        }
    }

    /// Lays out what follows a fetch that yields `fetched` when the file is
    /// to be renamed to its destination: the checks; then, where something
    /// was fetched to another path than the destination, the removal of a
    /// file that is in the way and the rename; then the timestamp.
    pub fn then_rename(self, fetched: Option<Option<i64>>, exists: bool) -> (completed:
        CompletedState)
        ensures
            completed.destination == self.final_destination,
            completed.plan@ == self.checks(fetched) + self.moves(fetched, exists) + self.stamps(
                fetched,
            ),
    {
        let mut plan: Vec<Operation> = Vec::new();
        self.push_checks(&mut plan, fetched);
        assert(plan@ =~= self.checks(fetched));
        let ghost checked = plan@;
        if fetched.is_some() && self.download_location != self.final_destination {
            if exists {
                plan.push(Operation::Remove(self.final_destination.clone()));
            }
            plan.push(
                Operation::Rename {
                    src: self.download_location.clone(),
                    dst: self.final_destination.clone(),
                },
            );
        }
        assert(plan@ =~= checked + self.moves(fetched, exists));
        self.push_stamps(&mut plan, fetched);
        CompletedState { plan, destination: self.final_destination }
    }

    /// Lays out what follows a fetch that yields `fetched` when the file is
    /// to be processed on its way to the destination: the checks; then, where
    /// something was fetched, creating the destination, making the writer,
    /// opening and copying the fetched file and removing it; then the
    /// timestamp.
    pub fn then_process(self, fetched: Option<Option<i64>>) -> (completed: CompletedState)
        ensures
            completed.destination == self.final_destination,
            completed.plan@ == self.checks(fetched) + self.processing(fetched) + self.stamps(
                fetched,
            ),
    {
        let mut plan: Vec<Operation> = Vec::new();
        self.push_checks(&mut plan, fetched);
        assert(plan@ =~= self.checks(fetched));
        let ghost checked = plan@;
        if fetched.is_some() {
            plan.push(Operation::Create(self.final_destination.clone()));
            plan.push(Operation::ConstructWriter(self.final_destination.clone()));
            plan.push(Operation::Open(self.download_location.clone()));
            plan.push(
                Operation::Copy {
                    src: self.download_location.clone(),
                    dst: self.final_destination.clone(),
                },
            );
            plan.push(Operation::Remove(self.download_location.clone()));
        }
        assert(plan@ =~= checked + self.processing(fetched));
        self.push_stamps(&mut plan, fetched);
        CompletedState { plan, destination: self.final_destination }
    }

    /// Lays out what follows a fetch that yields `fetched` when nothing
    /// more is asked for: the checks.
    pub fn into_future(self, fetched: Option<Option<i64>>) -> (plan: Vec<Operation>)
        ensures
            plan@ == self.checks(fetched),
    {
        let mut plan: Vec<Operation> = Vec::new();
        self.push_checks(&mut plan, fetched);
        assert(plan@ =~= self.checks(fetched));
        plan
    }
}

} // verus!
