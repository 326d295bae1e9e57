//! One round of calls to the listeners of an event on one target.
//!
//! The callbacks to call are fixed when the round begins. Whoever runs the
//! round asks for the next callback, calls it, and reports how the call
//! ended; a failed call is recorded and the round goes on.

use vstd::prelude::*;

verus! {

/// The failure of one callback during a round of calls.
#[derive(Debug)]
pub struct CallbackFailure<E> {
    /// The callback that failed.
    pub callback: u64,
    /// What it failed with.
    pub error: E,
}

/// The callbacks of one round of calls and how far the round has come.
#[derive(Debug)]
pub struct Invocation<E> {
    callbacks: Vec<u64>,
    next: usize,
    failures: Vec<CallbackFailure<E>>,
}

impl<E> Invocation<E> {
    #[verifier::type_invariant]
    spec fn cursor_in_range(&self) -> bool {
        self.next <= self.callbacks@.len()
    }

    /// The callbacks of the round, in calling order.
    pub closed spec fn snapshot(&self) -> Seq<u64> {
        self.callbacks@
    }

    /// How many callbacks have been called and reported.
    pub closed spec fn called(&self) -> int {
        self.next as int
    }

    /// The callbacks still to be called, in calling order.
    pub open spec fn pending(&self) -> Seq<u64> {
        self.snapshot().subrange(self.called(), self.snapshot().len() as int)
    }

    /// The failures reported so far, in the order of the calls.
    pub closed spec fn failures(&self) -> Seq<CallbackFailure<E>> {
        self.failures@
    }

    /// A round that calls `callbacks` in their order.
    pub fn begin(callbacks: Vec<u64>) -> (round: Invocation<E>)
        ensures
            round.snapshot() == callbacks@,
            round.called() == 0,
            round.failures() == Seq::<CallbackFailure<E>>::empty(),
    {
        Invocation { callbacks, next: 0, failures: Vec::new() }
    }

    /// The callback to call now, or `None` when the round is over.
    pub fn next_callback(&self) -> (callback: Option<u64>)
        ensures
            0 <= self.called() <= self.snapshot().len(),
            callback == if self.called() < self.snapshot().len() {
                Some(self.snapshot()[self.called()])
            } else {
                None
            },
    {
        proof {
            use_type_invariant(self);
        }
        if self.next < self.callbacks.len() {
            Some(self.callbacks[self.next])
        } else {
            None
        }
    }

    /// Whether every callback of the round has been called.
    pub fn is_finished(&self) -> (finished: bool)
        ensures
            finished == (self.called() == self.snapshot().len()),
    {
        proof {
            use_type_invariant(self);
        }
        self.next >= self.callbacks.len()
    }

    /// Reports how the call of the current callback ended and moves on to the
    /// next one. A failure is recorded with its callback and does not end the
    /// round. When the round is over already, nothing changes.
    pub fn complete(&mut self, outcome: Result<(), E>)
        ensures
            final(self).snapshot() == old(self).snapshot(),
            old(self).called() < old(self).snapshot().len() ==> {
                &&& final(self).called() == old(self).called() + 1
                &&& final(self).failures() == match outcome {
                    Ok(_) => old(self).failures(),
                    Err(error) => old(self).failures().push(
                        CallbackFailure {
                            callback: old(self).snapshot()[old(self).called()],
                            error,
                        },
                    ),
                }
            },
            old(self).called() >= old(self).snapshot().len() ==> {
                &&& final(self).called() == old(self).called()
                &&& final(self).failures() == old(self).failures()
            },
    {
        proof {
            use_type_invariant(&*self);
        }
        if self.next < self.callbacks.len() {
            let callback = self.callbacks[self.next];
            match outcome {
                Ok(_) => {},
                Err(error) => {
                    let mut failures = Vec::new();
                    std::mem::swap(&mut failures, &mut self.failures);
                    failures.push(CallbackFailure { callback, error });
                    self.failures = failures;
                },
            }
            self.next = self.next + 1;
        }
    }

    /// Ends the round and hands out the failures reported in it, in the
    /// order of the calls.
    pub fn into_failures(self) -> (failures: Vec<CallbackFailure<E>>)
        ensures
            failures@ == self.failures(),
    {
        self.failures
    }
}

} // verus!
