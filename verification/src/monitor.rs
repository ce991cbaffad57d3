//! Throughput: how many calls a server completed in the last interval.

use crate::throughput::{spec_throughput, throughput_between};
use std::sync::atomic::{AtomicUsize, Ordering};
use std::sync::Arc;
use vstd::prelude::*;

verus! {

/// Counts one completed response.
pub fn record_completion(finished: &AtomicUsize) {
    let _ = finished.fetch_add(1, Ordering::Release);
}

/// Publishes a server's throughput. On every tick of a timer it reads the
/// counter of completed responses and stores the difference to its last
/// reading where observers find it.
pub struct ThroughputMaintainer {
    finished: Arc<AtomicUsize>,
    throughput: Arc<AtomicUsize>,
    previous: usize,
}

impl ThroughputMaintainer {
    /// The last reading of the counter.
    pub closed spec fn spec_previous(self) -> usize {
        self.previous
    }

    /// The counter of completed responses that is read.
    pub closed spec fn spec_finished(self) -> Arc<AtomicUsize> {
        self.finished
    }

    /// The place where throughput is published.
    pub closed spec fn spec_published(self) -> Arc<AtomicUsize> {
        self.throughput
    }

    /// A maintainer that reads `finished` and publishes in `throughput`.
    /// Its first reading is compared with zero.
    pub fn new(finished: Arc<AtomicUsize>, throughput: Arc<AtomicUsize>) -> (maintainer: Self)
        ensures
            maintainer.spec_previous() == 0,
            maintainer.spec_finished() == finished,
            maintainer.spec_published() == throughput,
    {
        ThroughputMaintainer { finished, throughput, previous: 0 }
    }

    /// Takes in the reading `current` of the counter: remembers it, and says
    /// how far the counter moved since the reading before.
    pub fn sample(&mut self, current: usize) -> (moved: usize)
        ensures
            moved == spec_throughput(old(self).spec_previous(), current),
            final(self).spec_previous() == current,
            final(self).spec_finished() == old(self).spec_finished(),
            final(self).spec_published() == old(self).spec_published(),
    {
        let moved = throughput_between(self.previous, current);
        self.previous = current;
        moved
    }

    /// The last reading of the counter.
    pub fn previous(&self) -> (reading: usize)
        ensures
            reading == self.spec_previous(),
    {
        self.previous
    }

    /// One tick: reads the counter, publishes how far it moved since the
    /// last reading, and remembers the new reading. Whatever the counter
    /// says, what is published is the distance between the two readings.
    pub fn tick(&mut self) -> (published: usize)
        ensures
            published == spec_throughput(old(self).spec_previous(), final(self).spec_previous()),
    {
        let current = self.finished.load(Ordering::Acquire);
        let published = self.sample(current);
        self.throughput.store(published, Ordering::Release);
        published
    }
}

} // verus!
