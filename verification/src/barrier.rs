//! The completion barrier: a count of the deliveries that are still
//! waiting for their acknowledgement.

use vstd::prelude::*;

verus! {

/// The count after `delta` more deliveries were announced.
pub open spec fn after_add(outstanding: nat, delta: nat) -> nat {
    outstanding + delta
}

/// The count after one acknowledgement. An acknowledgement that finds
/// nothing outstanding changes nothing.
pub open spec fn after_done(outstanding: nat) -> nat {
    if outstanding > 0 {
        (outstanding - 1) as nat
    } else {
        0
    }
}

/// Counts the deliveries in flight. The producer adds to it before each
/// delivery, the consumer takes one off after each, and the producer may
/// go on once the count is back at zero. Callers that share it between
/// threads keep it behind a lock.
#[derive(Debug)]
pub struct WaitGroup {
    counter: usize,
}

impl View for WaitGroup {
    type V = nat;

    closed spec fn view(&self) -> nat {
        self.counter as nat
    }
}

impl WaitGroup {
    /// A barrier with nothing outstanding.
    pub fn new() -> (group: WaitGroup)
        ensures
            group@ == 0,
    {
        WaitGroup { counter: 0 }
    }

    /// Announces `delta` more deliveries.
    pub fn add(&mut self, delta: usize)
        requires
            old(self)@ + delta <= usize::MAX,
        ensures
            final(self)@ == after_add(old(self)@, delta as nat),
    {
        self.counter = self.counter + delta;
    }

    /// Acknowledges one delivery. With nothing outstanding it does nothing.
    pub fn done(&mut self)
        ensures
            final(self)@ == after_done(old(self)@),
    {
        if self.counter > 0 {
            self.counter = self.counter - 1;
        }
    }

    /// One look of a waiter at the barrier: whether everything that was
    /// announced has been acknowledged, so that the waiter may go on.
    pub fn try_wait(&self) -> (drained: bool)
        ensures
            drained == (self@ == 0),
    {
        self.counter == 0
    }

    /// The number of deliveries that are not acknowledged yet.
    pub fn outstanding(&self) -> (count: usize)
        ensures
            count == self@,
    {
        self.counter
    }
}

} // verus!
