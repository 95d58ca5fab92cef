//! The settings of a fetcher.

use vstd::prelude::*;
use core::time::Duration;
use crate::event::FetchEvent;

verus! {

/// How many files are fetched at once where nothing else is asked for.
pub const DEFAULT_CONCURRENT_FILES: usize = 4;

/// The settings under which files are fetched.
pub struct Fetcher {
    concurrent_files: Option<usize>,
    connections_per_file: Option<u16>,
    part_size: Option<u64>,
    timeout: Option<Duration>,
    events: bool,
}

impl Fetcher {
    /// A setting that is present is one that changes something.
    #[verifier::type_invariant]
    spec fn sensible(self) -> bool {
        &&& self.concurrent_files matches Some(files) ==> files > 1
        &&& self.connections_per_file matches Some(connections) ==> connections > 1
        &&& self.part_size matches Some(bytes) ==> bytes > 0
    }

    /// The number of files fetched at once, as it was asked for.
    pub closed spec fn files(self) -> Option<usize> {
        self.concurrent_files
    }

    /// The number of connections per file, as it was asked for.
    pub closed spec fn connections(self) -> Option<u16> {
        self.connections_per_file
    }

    /// The maximum size of a part, as it was asked for.
    pub closed spec fn part_limit(self) -> Option<u64> {
        self.part_size
    }

    /// The time to wait for a response or a chunk, if it is limited.
    pub closed spec fn deadline(self) -> Option<Duration> {
        self.timeout
    }

    /// Whether someone listens to the events.
    pub closed spec fn listened(self) -> bool {
        self.events
    }

    /// The number of files that may be in flight at once.
    pub open spec fn file_limit(self) -> usize {
        match self.files() {
            Some(limit) => limit,
            None => DEFAULT_CONCURRENT_FILES,
        }
    }

    /// What is reported of an event: the event itself where someone listens,
    /// nothing where nobody does.
    pub open spec fn reported(self, event: FetchEvent) -> Option<FetchEvent> {
        if self.listened() {
            Some(event)
        } else {
            None
        }
    }

    /// Settings that ask for nothing: four files at once, one connection per
    /// file, no deadline, no listener.
    pub fn new() -> (fetcher: Fetcher)
        ensures
            fetcher.files().is_none(),
            fetcher.connections().is_none(),
            fetcher.part_limit().is_none(),
            fetcher.deadline().is_none(),
            !fetcher.listened(),
    {
        Fetcher {
            concurrent_files: None,
            connections_per_file: None,
            part_size: None,
            timeout: None,
            events: false,
        }
    }

    /// The number of files to fetch simultaneously; a number below two asks
    /// for nothing.
    pub fn concurrent_files(self, concurrent: usize) -> (fetcher: Fetcher)
        ensures
            fetcher.files() == if concurrent > 1 {
                Some(concurrent)
            } else {
                None
            },
            fetcher.connections() == self.connections(),
            fetcher.part_limit() == self.part_limit(),
            fetcher.deadline() == self.deadline(),
            fetcher.listened() == self.listened(),
    {
        proof {
            use_type_invariant(&self);
        }
        Fetcher {
            concurrent_files: if concurrent > 1 {
                Some(concurrent)
            } else {
                None
            },
            connections_per_file: self.connections_per_file,
            part_size: self.part_size,
            timeout: self.timeout,
            events: self.events,
        }
    }

    /// The number of connections to sustain per file; a number below two
    /// asks for nothing.
    pub fn connections_per_file(self, connections: u16) -> (fetcher: Fetcher)
        ensures
            fetcher.connections() == if connections > 1 {
                Some(connections)
            } else {
                None
            },
            fetcher.files() == self.files(),
            fetcher.part_limit() == self.part_limit(),
            fetcher.deadline() == self.deadline(),
            fetcher.listened() == self.listened(),
    {
        proof {
            use_type_invariant(&self);
        }
        Fetcher {
            concurrent_files: self.concurrent_files,
            connections_per_file: if connections > 1 {
                Some(connections)
            } else {
                None
            },
            part_size: self.part_size,
            timeout: self.timeout,
            events: self.events,
        }
    }

    /// Records that a listener is attached, so that events are reported.
    pub fn events(self) -> (fetcher: Fetcher)
        ensures
            fetcher.listened(),
            fetcher.files() == self.files(),
            fetcher.connections() == self.connections(),
            fetcher.part_limit() == self.part_limit(),
            fetcher.deadline() == self.deadline(),
    {
        proof {
            use_type_invariant(&self);
        }
        Fetcher {
            concurrent_files: self.concurrent_files,
            connections_per_file: self.connections_per_file,
            part_size: self.part_size,
            timeout: self.timeout,
            events: true,
        }
    }

    /// The maximum size of a part; zero asks for nothing.
    pub fn part_size(self, bytes: u64) -> (fetcher: Fetcher)
        ensures
            fetcher.part_limit() == if bytes == 0 {
                None
            } else {
                Some(bytes)
            },
            fetcher.files() == self.files(),
            fetcher.connections() == self.connections(),
            fetcher.deadline() == self.deadline(),
            fetcher.listened() == self.listened(),
    {
        proof {
            use_type_invariant(&self);
        }
        Fetcher {
            concurrent_files: self.concurrent_files,
            connections_per_file: self.connections_per_file,
            part_size: if bytes == 0 {
                None
            } else {
                Some(bytes)
            },
            timeout: self.timeout,
            events: self.events,
        }
    }

    /// The time to wait for a response, and for each chunk, before giving up.
    pub fn timeout(self, duration: Duration) -> (fetcher: Fetcher)
        ensures
            fetcher.deadline() == Some(duration),
            fetcher.files() == self.files(),
            fetcher.connections() == self.connections(),
            fetcher.part_limit() == self.part_limit(),
            fetcher.listened() == self.listened(),
    {
        proof {
            use_type_invariant(&self);
        }
        Fetcher {
            concurrent_files: self.concurrent_files,
            connections_per_file: self.connections_per_file,
            part_size: self.part_size,
            timeout: Some(duration),
            events: self.events,
        }
    }

    /// The number of files that may be in flight at once: what was asked
    /// for, or four.
    pub fn limit(&self) -> (limit: usize)
        ensures
            limit == self.file_limit(),
            limit > 1,
    {
        proof {
            use_type_invariant(self);
        }
        match self.concurrent_files {
            Some(limit) => limit,
            None => DEFAULT_CONCURRENT_FILES,
        }
    }

    /// The number of connections per file, where more than one was asked for.
    pub fn segments(&self) -> (connections: Option<u16>)
        ensures
            connections == self.connections(),
            connections.is_some() ==> connections.unwrap() > 1,
    {
        proof {
            use_type_invariant(self);
        }
        self.connections_per_file
    }

    /// The maximum size of a part, where one was asked for. It is kept for
    /// the caller and decides nothing here.
    pub fn part_bytes(&self) -> (bytes: Option<u64>)
        ensures
            bytes == self.part_limit(),
            bytes.is_some() ==> bytes.unwrap() > 0,
    {
        proof {
            use_type_invariant(self);
        }
        self.part_size
    }

    /// The time to wait for a response or a chunk, if it is limited.
    pub fn patience(&self) -> (deadline: Option<Duration>)
        ensures
            deadline == self.deadline(),
    {
        self.timeout
    }

    /// Wraps an event for the listener, if there is one.
    pub fn report(&self, event: FetchEvent) -> (report: Option<FetchEvent>)
        ensures
            report == self.reported(event),
    {
        if self.events {
            Some(event)
        } else {
            None
        }
    }
}

impl Default for Fetcher {
    fn default() -> (fetcher: Fetcher)
        ensures
            fetcher.files().is_none(),
            fetcher.connections().is_none(),
            fetcher.part_limit().is_none(),
            fetcher.deadline().is_none(),
            !fetcher.listened(),
    {
        Fetcher::new()
    }
}

} // verus!
