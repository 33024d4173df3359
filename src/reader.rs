//! The periodic metric reader: decides when to collect and export a snapshot.
//!
//! A timer task reports the current time; the reader answers whether to
//! collect now. Collection, export and the exporter's shutdown are carried out
//! by the caller.
use vstd::prelude::*;

verus! {

/// Default time between two collections, in milliseconds.
pub const DEFAULT_PERIOD_MS: u64 = 60000;

/// Default bound on one collect-and-export cycle, in milliseconds.
pub const DEFAULT_TIMEOUT_MS: u64 = 30000;

/// What the caller does next.
#[derive(Clone, Copy, Debug, PartialEq, Eq, Structural)]
pub enum ReaderAction {
    /// Nothing to do.
    Wait,
    /// Collect a fresh snapshot and export it.
    Collect,
    /// Collect and export a last snapshot, then shut the exporter down.
    CollectAndShutdown,
}

/// `a + b`, held at the largest value.
pub open spec fn sat_add(a: u64, b: u64) -> u64 {
    if a + b > u64::MAX {
        u64::MAX
    } else {
        (a + b) as u64
    }
}

/// Timer-driven collection schedule of a metric reader.
#[derive(Clone, Copy, Debug)]
pub struct PeriodicReader {
    interval_ms: u64,
    timeout_ms: u64,
    next_collect_ms: u64,
    shut_down: bool,
}

impl PeriodicReader {
    pub closed spec fn interval_spec(&self) -> u64 {
        self.interval_ms
    }

    pub closed spec fn timeout_spec(&self) -> u64 {
        self.timeout_ms
    }

    /// The earliest time at which the next scheduled collection happens.
    pub closed spec fn next_collect(&self) -> u64 {
        self.next_collect_ms
    }

    pub closed spec fn is_shut_down(&self) -> bool {
        self.shut_down
    }

    /// A reader started at `start_ms`; its first collection is one interval later.
    pub fn new(interval_ms: u64, timeout_ms: u64, start_ms: u64) -> (r: PeriodicReader)
        ensures
            r.interval_spec() == interval_ms,
            r.timeout_spec() == timeout_ms,
            r.next_collect() == sat_add(start_ms, interval_ms),
            !r.is_shut_down(),
    {
        PeriodicReader {
            interval_ms,
            timeout_ms,
            next_collect_ms: start_ms.saturating_add(interval_ms),
            shut_down: false,
        }
    }

    /// The timer fired at `now_ms`: collect when the scheduled time has come,
    /// and schedule the next collection one interval after now.
    pub fn tick(&mut self, now_ms: u64) -> (r: ReaderAction)
        ensures
            final(self).interval_spec() == old(self).interval_spec(),
            final(self).timeout_spec() == old(self).timeout_spec(),
            final(self).is_shut_down() == old(self).is_shut_down(),
            (!old(self).is_shut_down() && now_ms >= old(self).next_collect()) ==> {
                &&& r == ReaderAction::Collect
                &&& final(self).next_collect() == sat_add(now_ms, old(self).interval_spec())
            },
            !(!old(self).is_shut_down() && now_ms >= old(self).next_collect()) ==> {
                &&& r == ReaderAction::Wait
                &&& *final(self) == *old(self)
            },
    {
        if self.shut_down || now_ms < self.next_collect_ms {
            return ReaderAction::Wait;
        }
        self.next_collect_ms = now_ms.saturating_add(self.interval_ms);
        ReaderAction::Collect
    }

    /// An out-of-band collection, at once, while the reader runs.
    pub fn force_flush(&self) -> (r: ReaderAction)
        ensures
            r == if self.is_shut_down() {
                ReaderAction::Wait
            } else {
                ReaderAction::Collect
            },
    {
        if self.shut_down {
            ReaderAction::Wait
        } else {
            ReaderAction::Collect
        }
    }

    /// Stops the schedule. The first call asks for a last collection and the
    /// exporter's shutdown; a later one asks for nothing and changes nothing.
    pub fn shutdown(&mut self) -> (r: ReaderAction)
        ensures
            final(self).is_shut_down(),
            old(self).is_shut_down() ==> r == ReaderAction::Wait && *final(self) == *old(self),
            !old(self).is_shut_down() ==> {
                &&& r == ReaderAction::CollectAndShutdown
                &&& final(self).interval_spec() == old(self).interval_spec()
                &&& final(self).timeout_spec() == old(self).timeout_spec()
                &&& final(self).next_collect() == old(self).next_collect()
            },
    {
        if self.shut_down {
            return ReaderAction::Wait;
        }
        self.shut_down = true;
        ReaderAction::CollectAndShutdown
    }

    pub fn interval_ms(&self) -> (r: u64)
        ensures
            r == self.interval_spec(),
    {
        self.interval_ms
    }

    pub fn timeout_ms(&self) -> (r: u64)
        ensures
            r == self.timeout_spec(),
    {
        self.timeout_ms
    }

    pub fn next_collect_ms(&self) -> (r: u64)
        ensures
            r == self.next_collect(),
    {
        self.next_collect_ms
    }

    pub fn is_shutdown(&self) -> (r: bool)
        ensures
            r == self.is_shut_down(),
    {
        self.shut_down
    }
}

} // verus!
