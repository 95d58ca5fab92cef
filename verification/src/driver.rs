//! Fetching many files, a bounded number of them at once.
//!
//! The driver takes sources from a stream one by one, as long as it has room
//! for another, and keeps each until its fetch has ended and, where it was
//! written to a partial path, the file has been renamed.

use vstd::prelude::*;
use crate::error::Error;
use crate::event::{FetchEvent, Source};
use crate::fetcher::Fetcher;

verus! {

/// A file that is being fetched.
#[derive(Debug, PartialEq, Eq)]
pub struct Job {
    /// The final destination.
    pub dest: String,
    /// The partial path that is fetched to, if any.
    pub part: Option<String>,
    /// Whether the fetch has ended well and the file is being renamed.
    pub renaming: bool,
}

/// The files that are being fetched, and whether more are to come.
#[derive(Debug, PartialEq, Eq)]
pub struct Driver {
    /// The number of files that may be in flight at once.
    pub limit: usize,
    /// The files in flight, each in the slot under which it is known; a
    /// slot that is `None` is free.
    pub slots: Vec<Option<Job>>,
    /// The number of files in flight.
    pub active: usize,
    /// Whether the stream has been asked for a source and has not answered.
    pub pulling: bool,
    /// Whether the stream has ended.
    pub exhausted: bool,
}

/// A driver as a mathematical value.
pub struct DriverModel {
    pub limit: usize,
    pub slots: Seq<Option<Job>>,
    pub active: usize,
    pub pulling: bool,
    pub exhausted: bool,
}

impl View for Driver {
    type V = DriverModel;

    open spec fn view(&self) -> DriverModel {
        DriverModel {
            limit: self.limit,
            slots: self.slots@,
            active: self.active,
            pulling: self.pulling,
            exhausted: self.exhausted,
        }
    }
}

/// What the driver is told.
#[derive(Debug, PartialEq, Eq)]
pub enum Notice {
    /// The stream gave its next source, or `None` at its end.
    Pulled(Option<Source>),
    /// The fetch of the file in this slot ended.
    Requested(usize, Result<(), Error>),
    /// The file in this slot was renamed to its destination, or could not be.
    Renamed(usize, Result<(), String>),
}

/// Work on one file.
#[derive(Debug, PartialEq, Eq)]
pub enum Work {
    /// Fetch the file of this slot from these addresses to this path.
    Fetch(usize, Vec<String>, String),
    /// Rename the file of this slot from the first path to the second.
    Rename(usize, String, String),
}

/// What the driver waits for.
#[derive(Debug, Clone, Copy, PartialEq, Eq, Structural)]
pub enum Flow {
    /// For the next source of the stream, besides the files in flight.
    Pull,
    /// For the files in flight alone: the stream is left in peace.
    Hold,
    /// For nothing: the stream has ended and no file is in flight.
    Complete,
}

/// The answer of the driver to a notice.
#[derive(Debug, PartialEq, Eq)]
pub struct Turn {
    /// The event to report, if any.
    pub report: Option<FetchEvent>,
    /// The work to start, if any.
    pub work: Option<Work>,
    /// What the driver waits for from now on.
    pub flow: Flow,
}

/// The number of slots that hold a file.
pub open spec fn busy(slots: Seq<Option<Job>>) -> nat
    decreases slots.len(),
{
    if slots.len() == 0 {
        0
    } else {
        busy(slots.drop_last()) + if slots.last().is_some() {
            1nat
        } else {
            0nat
        }
    }
}

/// The first slot that is free; the number of slots where none is.
pub open spec fn first_free(slots: Seq<Option<Job>>) -> nat
    decreases slots.len(),
{
    if slots.len() == 0 || slots[0].is_none() {
        0
    } else {
        1 + first_free(slots.drop_first())
    }
}

/// The slots with `job` in the slot `slot`, which is one of them or the
/// next after them.
pub open spec fn placed(slots: Seq<Option<Job>>, slot: int, job: Job) -> Seq<Option<Job>> {
    if slot < slots.len() {
        slots.update(slot, Some(job))
    } else {
        slots.push(Some(job))
    }
}

/// The result of a fetch that ended well and was followed by a rename.
pub open spec fn renamed(outcome: Result<(), String>) -> Result<(), Error> {
    match outcome {
        Ok(_) => Ok(()),
        Err(message) => Err(Error::Rename(message)),
    }
}

impl DriverModel {
    /// What every driver fulfils: no more slots than files may be in flight,
    /// the count of files in flight is right, and the stream is asked
    /// exactly while it has not ended and there is room for what it gives.
    pub open spec fn wf(self) -> bool {
        &&& self.slots.len() <= self.limit
        &&& self.active == busy(self.slots)
        &&& self.pulling <==> !self.exhausted && self.active < self.limit
    }

    /// The file in `slot`, if the slot holds one.
    pub open spec fn job(self, slot: usize) -> Option<Job> {
        if slot < self.slots.len() {
            self.slots[slot as int]
        } else {
            None
        }
    }

    /// What the driver waits for: the stream while it is being asked,
    /// nothing when the stream has ended and no file is in flight, and the
    /// files in flight otherwise.
    pub open spec fn flow(self) -> Flow {
        if self.pulling {
            Flow::Pull
        } else if self.exhausted && self.active == 0 {
            Flow::Complete
        } else {
            Flow::Hold
        }
    }

    /// Takes in a source that the stream gave. The stream is asked again
    /// if there is room for another file.
    pub open spec fn take_in(self, fetcher: Fetcher, source: Source) -> (DriverModel, Turn) {
        let slot = first_free(self.slots);
        let job = Job { dest: source.dest, part: source.part, renaming: false };
        let active = (self.active + 1) as usize;
        let after = DriverModel {
            slots: placed(self.slots, slot as int, job),
            active,
            pulling: active < self.limit,
            ..self
        };
        (
            after,
            Turn {
                report: fetcher.reported(FetchEvent::Fetching(source.dest)),
                work: Some(
                    Work::Fetch(
                        slot as usize,
                        source.urls,
                        match source.part {
                            Some(part) => part,
                            None => source.dest,
                        },
                    ),
                ),
                flow: after.flow(),
            },
        )
    }

    /// Lets go of the file in `slot`, whose fetch ended with `result`. The
    /// stream is asked again unless it has ended.
    pub open spec fn settle(self, fetcher: Fetcher, slot: usize, job: Job, result: Result<(), Error>) -> (
        DriverModel,
        Turn,
    ) {
        let after = DriverModel {
            slots: self.slots.update(slot as int, None),
            active: (self.active - 1) as usize,
            pulling: !self.exhausted,
            ..self
        };
        (
            after,
            Turn {
                report: fetcher.reported(FetchEvent::Fetched(job.dest, result)),
                work: None,
                flow: after.flow(),
            },
        )
    }

    /// The driver and the answer that follow when `notice` reaches it.
    pub open spec fn step(self, fetcher: Fetcher, notice: Notice) -> (DriverModel, Turn) {
        let idle = (self, Turn { report: None, work: None, flow: self.flow() });
        match notice {
            Notice::Pulled(pulled) => if self.pulling {
                match pulled {
                    Some(source) => self.take_in(fetcher, source),
                    None => {
                        let after = DriverModel { pulling: false, exhausted: true, ..self };
                        (after, Turn { report: None, work: None, flow: after.flow() })
                    },
                }
            } else {
                idle
            },
            Notice::Requested(slot, result) => match self.job(slot) {
                Some(job) => if job.renaming {
                    idle
                } else {
                    match (result, job.part) {
                        (Ok(_), Some(part)) => (
                            DriverModel {
                                slots: self.slots.update(
                                    slot as int,
                                    Some(Job { renaming: true, ..job }),
                                ),
                                ..self
                            },
                            Turn {
                                report: None,
                                work: Some(Work::Rename(slot, part, job.dest)),
                                flow: self.flow(),
                            },
                        ),
                        _ => self.settle(fetcher, slot, job, result),
                    }
                },
                None => idle,
            },
            Notice::Renamed(slot, outcome) => match self.job(slot) {
                Some(job) => if job.renaming {
                    self.settle(fetcher, slot, job, renamed(outcome))
                } else {
                    idle
                },
                None => idle,
            },
        }
    }
}

/// Changing one slot changes the count of busy slots by what the slot held
/// and what it holds now.
pub proof fn lemma_busy_update(slots: Seq<Option<Job>>, slot: int, value: Option<Job>)
    requires
        0 <= slot < slots.len(),
    ensures
        busy(slots.update(slot, value)) + (if slots[slot].is_some() {
            1nat
        } else {
            0nat
        }) == busy(slots) + (if value.is_some() {
            1nat
        } else {
            0nat
        }),
    decreases slots.len(),
{
    let changed = slots.update(slot, value);
    if slot == slots.len() - 1 {
        assert(changed.drop_last() =~= slots.drop_last());
    } else {
        assert(changed.drop_last() =~= slots.drop_last().update(slot, value));
        lemma_busy_update(slots.drop_last(), slot, value);
    }
}

/// A slot more that holds a file is one busy slot more.
pub proof fn lemma_busy_push(slots: Seq<Option<Job>>, job: Job)
    ensures
        busy(slots.push(Some(job))) == busy(slots) + 1,
{
    assert(slots.push(Some(job)).drop_last() =~= slots);
}

/// No more slots are busy than there are, and where all are busy none is free.
pub proof fn lemma_busy_bound(slots: Seq<Option<Job>>)
    ensures
        busy(slots) <= slots.len(),
        busy(slots) == slots.len() ==> forall|i: int|
            0 <= i < slots.len() ==> (#[trigger] slots[i]).is_some(),
    decreases slots.len(),
{
    if slots.len() > 0 {
        lemma_busy_bound(slots.drop_last());
        if busy(slots) == slots.len() {
            assert forall|i: int| 0 <= i < slots.len() implies (#[trigger] slots[i]).is_some() by {
                if i < slots.len() - 1 {
                    assert(slots[i] == slots.drop_last()[i]);
                }
            }
        }
    }
}

/// The first free slot is free, unless it is the one after the last, and
/// every slot before it is busy.
pub proof fn lemma_first_free(slots: Seq<Option<Job>>)
    ensures
        first_free(slots) <= slots.len(),
        first_free(slots) < slots.len() ==> slots[first_free(slots) as int].is_none(),
        forall|i: int| 0 <= i < first_free(slots) ==> (#[trigger] slots[i]).is_some(),
    decreases slots.len(),
{
    if slots.len() > 0 && slots[0].is_some() {
        let rest = slots.drop_first();
        lemma_first_free(rest);
        assert forall|i: int| 0 <= i < first_free(slots) implies (#[trigger] slots[i]).is_some() by {
            if i > 0 {
                assert(slots[i] == rest[i - 1]);
            }
        }
        if first_free(slots) < slots.len() {
            assert(slots[first_free(slots) as int] == rest[first_free(rest) as int]);
        }
    }
}

/// Where every slot is busy, as many are busy as there are.
pub proof fn lemma_busy_full(slots: Seq<Option<Job>>)
    requires
        forall|i: int| 0 <= i < slots.len() ==> (#[trigger] slots[i]).is_some(),
    ensures
        busy(slots) == slots.len(),
    decreases slots.len(),
{
    if slots.len() > 0 {
        let shorter = slots.drop_last();
        assert forall|i: int| 0 <= i < shorter.len() implies (#[trigger] shorter[i]).is_some() by {
            assert(shorter[i] == slots[i]);
        }
        lemma_busy_full(shorter);
    }
}

impl Driver {
    /// A driver under the settings of `fetcher`, with no file in flight. Its
    /// first order is to ask the stream for a source.
    pub fn new(fetcher: &Fetcher) -> (begun: (Driver, Flow))
        ensures
            begun.0@ == (DriverModel {
                limit: fetcher.file_limit(),
                slots: Seq::empty(),
                active: 0,
                pulling: true,
                exhausted: false,
            }),
            begun.0@.wf(),
            begun.1 == begun.0@.flow(),
            begun.1 == Flow::Pull,
    {
        let driver = Driver {
            limit: fetcher.limit(),
            slots: Vec::new(),
            active: 0,
            pulling: true,
            exhausted: false,
        };
        assert(driver.slots@ =~= Seq::empty());
        (driver, Flow::Pull)
    }

    /// The number of files in flight.
    pub fn in_flight(&self) -> (count: usize)
        requires
            self@.wf(),
        ensures
            count == busy(self.slots@),
            count <= self.limit,
    {
        proof {
            lemma_busy_bound(self.slots@);
        }
        self.active
    }

    /// What the driver waits for.
    pub fn flow(&self) -> (flow: Flow)
        ensures
            flow == self@.flow(),
    {
        if self.pulling {
            Flow::Pull
        } else if self.exhausted && self.active == 0 {
            Flow::Complete
        } else {
            Flow::Hold
        }
    }

    /// The first slot that is free.
    fn free_slot(&self) -> (slot: usize)
        ensures
            slot == first_free(self.slots@),
    {
        let mut slot: usize = 0;
        while slot < self.slots.len() && self.slots[slot].is_some()
            invariant
                slot <= self.slots@.len(),
                forall|i: int| 0 <= i < slot ==> (#[trigger] self.slots@[i]).is_some(),
            decreases self.slots@.len() - slot,
        {
            slot = slot + 1;
        }
        proof {
            lemma_first_free(self.slots@);
            let first = first_free(self.slots@) as int;
            if first < slot {
                assert(self.slots@[first].is_some());
            }
            if slot < first {
                assert(self.slots@[slot as int].is_some());
            }
        }
        slot
    }

    /// Takes in a source that the stream gave.
    fn take_in(&mut self, fetcher: &Fetcher, source: Source) -> (turn: Turn)
        requires
            old(self)@.wf(),
            old(self).pulling,
        ensures
            (final(self)@, turn) == old(self)@.take_in(*fetcher, source),
            final(self)@.wf(),
    {
        let slot = self.free_slot();
        proof {
            lemma_first_free(self.slots@);
            lemma_busy_bound(self.slots@);
            if slot == self.slots@.len() {
                lemma_busy_full(self.slots@);
                lemma_busy_push(
                    self.slots@,
                    Job { dest: source.dest, part: source.part, renaming: false },
                );
            } else {
                lemma_busy_update(
                    self.slots@,
                    slot as int,
                    Some(Job { dest: source.dest, part: source.part, renaming: false }),
                );
            }
        }
        let Source { urls, dest, part } = source;
        let to = match &part {
            Some(part) => part.clone(),
            None => dest.clone(),
        };
        let report = fetcher.report(FetchEvent::Fetching(dest.clone()));
        let job = Job { dest, part, renaming: false };
        if slot < self.slots.len() {
            self.slots.set(slot, Some(job));
        } else {
            self.slots.push(Some(job));
        }
        self.active = self.active + 1;
        self.pulling = self.active < self.limit;
        Turn { report, work: Some(Work::Fetch(slot, urls, to)), flow: self.flow() }
    }

    /// Lets go of the file in `slot`, whose fetch ended with `result`.
    fn settle(&mut self, fetcher: &Fetcher, slot: usize, result: Result<(), Error>) -> (turn: Turn)
        requires
            old(self)@.wf(),
            old(self)@.job(slot).is_some(),
        ensures
            (final(self)@, turn) == old(self)@.settle(
                *fetcher,
                slot,
                old(self)@.job(slot).unwrap(),
                result,
            ),
            final(self)@.wf(),
    {
        proof {
            lemma_busy_update(self.slots@, slot as int, None);
            lemma_busy_bound(self.slots@);
        }
        let dest = match &self.slots[slot] {
            Some(job) => job.dest.clone(),
            None => String::new(),
        };
        self.slots.set(slot, None);
        self.active = self.active - 1;
        self.pulling = !self.exhausted;
        Turn { report: fetcher.report(FetchEvent::Fetched(dest, result)), work: None, flow: self.flow() }
    }
}

impl Fetcher {
    /// Takes what the driver is told and gives its answer.
    ///
    /// A source that the stream gives is reported as being fetched and its
    /// fetch is started, to the partial path where it has one. The stream is
    /// asked again as long as fewer files are in flight than may be. A fetch
    /// that ends well for a file with a partial path is followed by the
    /// rename to the destination. When the fetch has failed, or else when
    /// the file is where it belongs or could not be brought there, the result
    /// is reported and the slot is free again. A failure ends nothing but the
    /// file's own fetch. The driver is done when the stream has ended and no
    /// file is in flight.
    pub fn from_stream(&self, driver: &mut Driver, notice: Notice) -> (turn: Turn)
        requires
            old(driver)@.wf(),
        ensures
            (final(driver)@, turn) == old(driver)@.step(*self, notice),
            final(driver)@.wf(),
    {
        match notice {
            Notice::Pulled(pulled) => {
                if !driver.pulling {
                    return Turn { report: None, work: None, flow: driver.flow() };
                }
                match pulled {
                    Some(source) => driver.take_in(self, source),
                    None => {
                        driver.pulling = false;
                        driver.exhausted = true;
                        Turn { report: None, work: None, flow: driver.flow() }
                    },
                }
            },
            Notice::Requested(slot, result) => {
                if slot >= driver.slots.len() {
                    return Turn { report: None, work: None, flow: driver.flow() };
                }
                let (renaming, dest, part) = match &driver.slots[slot] {
                    Some(job) => (
                        job.renaming,
                        job.dest.clone(),
                        match &job.part {
                            Some(part) => Some(part.clone()),
                            None => None,
                        },
                    ),
                    None => {
                        return Turn { report: None, work: None, flow: driver.flow() };
                    },
                };
                if renaming {
                    return Turn { report: None, work: None, flow: driver.flow() };
                }
                match (result, part) {
                    (Ok(_), Some(part)) => {
                        proof {
                            lemma_busy_update(
                                driver.slots@,
                                slot as int,
                                Some(Job { dest, part: Some(part), renaming: true }),
                            );
                        }
                        driver.slots.set(
                            slot,
                            Some(Job { dest: dest.clone(), part: Some(part.clone()), renaming: true }),
                        );
                        Turn {
                            report: None,
                            work: Some(Work::Rename(slot, part, dest)),
                            flow: driver.flow(),
                        }
                    },
                    (result, _) => driver.settle(self, slot, result),
                }
            },
            Notice::Renamed(slot, outcome) => {
                if slot >= driver.slots.len() {
                    return Turn { report: None, work: None, flow: driver.flow() };
                }
                let renaming = match &driver.slots[slot] {
                    Some(job) => job.renaming,
                    None => false,
                };
                if !renaming {
                    return Turn { report: None, work: None, flow: driver.flow() };
                }
                let result = match outcome {
                    Ok(_) => Ok(()),
                    Err(message) => Err(Error::Rename(message)),
                };
                driver.settle(self, slot, result)
            },
        }
    }
}

/// How many of the events report that a fetch has begun.
pub open spec fn begun(events: Seq<FetchEvent>) -> nat
    decreases events.len(),
{
    if events.len() == 0 {
        0
    } else {
        begun(events.drop_last()) + if events.last() is Fetching {
            1nat
        } else {
            0nat
        }
    }
}

/// How many of the events report that a fetch has ended.
pub open spec fn ended(events: Seq<FetchEvent>) -> nat
    decreases events.len(),
{
    if events.len() == 0 {
        0
    } else {
        ended(events.drop_last()) + if events.last() is Fetched {
            1nat
        } else {
            0nat
        }
    }
}

impl DriverModel {
    /// The driver after a run of notices.
    pub open spec fn run(self, fetcher: Fetcher, notices: Seq<Notice>) -> DriverModel
        decreases notices.len(),
    {
        if notices.len() == 0 {
            self
        } else {
            self.run(fetcher, notices.drop_last()).step(fetcher, notices.last()).0
        }
    }

    /// The events that the driver reports over a run of notices, in order.
    pub open spec fn reports(self, fetcher: Fetcher, notices: Seq<Notice>) -> Seq<FetchEvent>
        decreases notices.len(),
    {
        if notices.len() == 0 {
            Seq::empty()
        } else {
            let earlier = self.reports(fetcher, notices.drop_last());
            match self.run(fetcher, notices.drop_last()).step(fetcher, notices.last()).1.report {
                Some(event) => earlier.push(event),
                None => earlier,
            }
        }
    }

    /// A step keeps a driver well formed and its limit as it is, and never
    /// has more files in flight than the limit allows.
    pub proof fn lemma_step(self, fetcher: Fetcher, notice: Notice)
        requires
            self.wf(),
        ensures
            self.step(fetcher, notice).0.wf(),
            self.step(fetcher, notice).0.limit == self.limit,
            busy(self.step(fetcher, notice).0.slots) <= self.limit,
    {
        lemma_busy_bound(self.slots);
        lemma_first_free(self.slots);
        match notice {
            Notice::Pulled(Some(source)) => {
                if self.pulling {
                    let job = Job { dest: source.dest, part: source.part, renaming: false };
                    let slot = first_free(self.slots) as int;
                    if slot == self.slots.len() {
                        lemma_busy_full(self.slots);
                        lemma_busy_push(self.slots, job);
                    } else {
                        lemma_busy_update(self.slots, slot, Some(job));
                    }
                }
            },
            Notice::Pulled(None) => {},
            Notice::Requested(slot, result) => {
                if let Some(job) = self.job(slot) {
                    lemma_busy_update(self.slots, slot as int, None);
                    lemma_busy_update(self.slots, slot as int, Some(Job { renaming: true, ..job }));
                }
            },
            Notice::Renamed(slot, outcome) => {
                if self.job(slot).is_some() {
                    lemma_busy_update(self.slots, slot as int, None);
                }
            },
        }
        lemma_busy_bound(self.step(fetcher, notice).0.slots);
    }

    /// Concurrency is bounded: whatever the driver is told, and in whatever
    /// order, no more files are in flight than the limit allows.
    pub proof fn lemma_bounded(self, fetcher: Fetcher, notices: Seq<Notice>)
        requires
            self.wf(),
        ensures
            self.run(fetcher, notices).wf(),
            self.run(fetcher, notices).limit == self.limit,
            busy(self.run(fetcher, notices).slots) <= self.limit,
        decreases notices.len(),
    {
        lemma_busy_bound(self.slots);
        if notices.len() > 0 {
            self.lemma_bounded(fetcher, notices.drop_last());
            self.run(fetcher, notices.drop_last()).lemma_step(fetcher, notices.last());
        }
    }

    /// Whether the file in `slot` is bound for `dest`.
    pub open spec fn holds(self, slot: usize, dest: String) -> bool {
        self.job(slot) matches Some(job) && job.dest == dest
    }

    /// Whether, on the way to `after`, `turn` takes in a file bound for
    /// `dest`: it starts its fetch, in a slot that was free.
    pub open spec fn takes_in(self, after: DriverModel, turn: Turn, dest: String) -> bool {
        &&& turn.work matches Some(Work::Fetch(slot, _, _))
        &&& self.job(slot).is_none()
        &&& after.holds(slot, dest)
        &&& after.active == self.active + 1
    }

    /// Whether, on the way to `after`, `turn` lets go of a file bound for
    /// `dest`: it frees its slot and starts nothing.
    pub open spec fn lets_go(self, after: DriverModel, turn: Turn, dest: String) -> bool {
        &&& turn.work.is_none()
        &&& after.active + 1 == self.active
        &&& exists|slot: usize| #[trigger] self.holds(slot, dest) && after.job(slot).is_none()
    }

    /// What a turn reports. A file that is taken in is reported as being
    /// fetched by the very turn that starts its fetch in a slot that was
    /// free; a file that is let go is reported as fetched, with its result,
    /// by the turn that frees its slot and starts nothing. The driver reports
    /// nothing else, and where someone listens it reports each of the two.
    pub proof fn lemma_turn_reports(self, fetcher: Fetcher, notice: Notice)
        requires
            self.wf(),
        ensures
            ({
                let (after, turn) = self.step(fetcher, notice);
                &&& turn.report matches Some(event) ==> match event {
                    FetchEvent::Fetching(dest) => self.takes_in(after, turn, dest),
                    FetchEvent::Fetched(dest, _) => self.lets_go(after, turn, dest),
                    _ => false,
                }
                &&& turn.report.is_none() && fetcher.listened() ==> after.active == self.active
                &&& turn.flow == Flow::Complete ==> after.exhausted && after.active == 0
            }),
    {
        self.lemma_step(fetcher, notice);
        lemma_busy_bound(self.slots);
        lemma_first_free(self.slots);
        let (after, turn) = self.step(fetcher, notice);
        match notice {
            Notice::Pulled(Some(source)) => {
                if self.pulling {
                    let slot = first_free(self.slots);
                    assert(after.holds(slot as usize, source.dest));
                }
            },
            Notice::Pulled(None) => {},
            Notice::Requested(slot, result) => {
                if let Some(FetchEvent::Fetched(dest, _)) = turn.report {
                    lemma_busy_update(self.slots, slot as int, None);
                    assert(self.holds(slot, dest) && after.job(slot).is_none());
                }
            },
            Notice::Renamed(slot, outcome) => {
                if let Some(FetchEvent::Fetched(dest, _)) = turn.report {
                    lemma_busy_update(self.slots, slot as int, None);
                    assert(self.holds(slot, dest) && after.job(slot).is_none());
                }
            },
        }
    }

    /// Every file that is begun is ended once: where someone listens, the
    /// fetches reported as begun over a run are as many as those reported
    /// as ended and those still in flight together. When the driver is done
    /// none is in flight, so each file that was begun has been reported as
    /// fetched exactly once.
    pub proof fn lemma_begun_are_ended(self, fetcher: Fetcher, notices: Seq<Notice>)
        requires
            self.wf(),
            fetcher.listened(),
        ensures
            begun(self.reports(fetcher, notices)) + self.active == ended(
                self.reports(fetcher, notices),
            ) + self.run(fetcher, notices).active,
        decreases notices.len(),
    {
        if notices.len() > 0 {
            let before = self.run(fetcher, notices.drop_last());
            let earlier = self.reports(fetcher, notices.drop_last());
            self.lemma_begun_are_ended(fetcher, notices.drop_last());
            self.lemma_bounded(fetcher, notices.drop_last());
            before.lemma_turn_reports(fetcher, notices.last());
            match before.step(fetcher, notices.last()).1.report {
                Some(event) => {
                    assert(earlier.push(event).drop_last() =~= earlier);
                },
                None => {},
            }
        }
    }
}

impl DriverModel {
    /// The slot in which a file begins with this notice, if one does.
    pub open spec fn begins(self, notice: Notice) -> Option<usize> {
        match notice {
            Notice::Pulled(Some(_)) => if self.pulling {
                Some(first_free(self.slots) as usize)
            } else {
                None
            },
            _ => None,
        }
    }

    /// The slot of which the file ends with this notice, if one does.
    pub open spec fn ends(self, notice: Notice) -> Option<usize> {
        match notice {
            Notice::Requested(slot, result) => match self.job(slot) {
                Some(job) => if !job.renaming && !(result.is_ok() && job.part.is_some()) {
                    Some(slot)
                } else {
                    None
                },
                None => None,
            },
            Notice::Renamed(slot, _) => match self.job(slot) {
                Some(job) => if job.renaming {
                    Some(slot)
                } else {
                    None
                },
                None => None,
            },
            _ => None,
        }
    }

    /// One where the slot holds a file, zero where it is free.
    pub open spec fn held(self, slot: usize) -> nat {
        if self.job(slot).is_some() {
            1
        } else {
            0
        }
    }

    /// How many files have begun in `slot` over a run of notices.
    pub open spec fn begun_in(self, fetcher: Fetcher, notices: Seq<Notice>, slot: usize) -> nat
        decreases notices.len(),
    {
        if notices.len() == 0 {
            0
        } else {
            self.begun_in(fetcher, notices.drop_last(), slot) + if self.run(
                fetcher,
                notices.drop_last(),
            ).begins(notices.last()) == Some(slot) {
                1nat
            } else {
                0nat
            }
        }
    }

    /// How many files have ended in `slot` over a run of notices.
    pub open spec fn ended_in(self, fetcher: Fetcher, notices: Seq<Notice>, slot: usize) -> nat
        decreases notices.len(),
    {
        if notices.len() == 0 {
            0
        } else {
            self.ended_in(fetcher, notices.drop_last(), slot) + if self.run(
                fetcher,
                notices.drop_last(),
            ).ends(notices.last()) == Some(slot) {
                1nat
            } else {
                0nat
            }
        }
    }

    /// Whether the turn orders the fetch of the file in `slot`.
    pub open spec fn fetches_in(turn: Turn, slot: usize) -> bool {
        turn.work matches Some(Work::Fetch(place, _, _)) && place == slot
    }

    /// Whether the turn reports that the file bound for `dest` was fetched.
    pub open spec fn reports_end_of(turn: Turn, dest: String) -> bool {
        turn.report matches Some(FetchEvent::Fetched(path, _)) && path == dest
    }

    /// The first and the last word on a file are the driver's. A file
    /// begins in a slot that is free, with the report that it is being
    /// fetched and the order to fetch it, and ends in the slot that holds it,
    /// with the report that it was fetched; no file begins and ends at once,
    /// and the driver reports nothing else. Between the two the slot holds
    /// the file, so whatever its fetch reports comes after the one and before
    /// the other.
    pub proof fn lemma_first_and_last_word(self, fetcher: Fetcher, notice: Notice, slot: usize)
        requires
            self.wf(),
        ensures
            ({
                let (after, turn) = self.step(fetcher, notice);
                &&& self.begins(notice) == Some(slot) ==> self.job(slot).is_none() && after.job(
                    slot,
                ).is_some() && turn.report == fetcher.reported(
                    FetchEvent::Fetching(after.job(slot).unwrap().dest),
                ) && Self::fetches_in(turn, slot)
                &&& self.ends(notice) == Some(slot) ==> self.job(slot).is_some() && after.job(
                    slot,
                ).is_none() && turn.work.is_none() && (fetcher.listened() ==> Self::reports_end_of(
                    turn,
                    self.job(slot).unwrap().dest,
                ))
                &&& self.begins(notice).is_none() || self.ends(notice).is_none()
                &&& self.begins(notice).is_none() && self.ends(notice).is_none()
                    ==> turn.report.is_none()
                &&& self.begins(notice) != Some(slot) && self.ends(notice) != Some(slot)
                    ==> after.held(slot) == self.held(slot) && (after.job(slot).is_some()
                    ==> after.job(slot).unwrap().dest == self.job(slot).unwrap().dest)
            }),
    {
        lemma_first_free(self.slots);
        lemma_busy_bound(self.slots);
        if self.pulling && first_free(self.slots) == self.slots.len() {
            lemma_busy_full(self.slots);
        }
    }

    /// In every slot, files begin and end in turn: over any run of notices
    /// as many files have begun in a slot as have ended in it, and one more
    /// where the slot holds a file in the end that it did not hold at first.
    pub proof fn lemma_begin_and_end_in_turn(
        self,
        fetcher: Fetcher,
        notices: Seq<Notice>,
        slot: usize,
    )
        requires
            self.wf(),
        ensures
            self.begun_in(fetcher, notices, slot) + self.held(slot) == self.ended_in(
                fetcher,
                notices,
                slot,
            ) + self.run(fetcher, notices).held(slot),
        decreases notices.len(),
    {
        if notices.len() > 0 {
            self.lemma_begin_and_end_in_turn(fetcher, notices.drop_last(), slot);
            self.lemma_bounded(fetcher, notices.drop_last());
            self.run(fetcher, notices.drop_last()).lemma_first_and_last_word(
                fetcher,
                notices.last(),
                slot,
            );
        }
    }
}

} // verus!
