//! The holder as a state machine: what it stores, and what each call does to it.

use vstd::prelude::*;

verus! {

/// What a holder stores: the best candidate offered so far, and whether a
/// consumer has frozen it.
pub struct State<T> {
    pub candidate: Option<T>,
    pub frozen: bool,
}

/// A call that can change a holder.
pub enum Call<T> {
    /// A producer offers a better candidate.
    Update(T),
    /// A consumer reads the candidate and freezes it.
    Commit,
}

impl<T> State<T> {
    /// The state of a new holder: no candidate, not frozen.
    pub open spec fn empty() -> Self {
        State { candidate: None, frozen: false }
    }

    /// A consumer has frozen the candidate.
    pub open spec fn is_final(self) -> bool {
        self.frozen
    }

    /// A commit would find something settled: a candidate, or a freeze.
    pub open spec fn is_ready(self) -> bool {
        self.frozen || self.candidate is Some
    }

    /// An update is taken exactly when the holder is not frozen.
    pub open spec fn accepts(self) -> bool {
        !self.frozen
    }

    /// The state after a producer offers `value`: the candidate is replaced
    /// unless the holder is frozen, in which case nothing changes.
    pub open spec fn update(self, value: T) -> Self {
        if self.frozen {
            self
        } else {
            State { candidate: Some(value), frozen: false }
        }
    }

    /// The state after a commit: frozen, with the candidate untouched.
    pub open spec fn commit(self) -> Self {
        State { candidate: self.candidate, frozen: true }
    }

    /// The state after one call.
    pub open spec fn step(self, call: Call<T>) -> Self {
        match call {
            Call::Update(value) => self.update(value),
            Call::Commit => self.commit(),
        }
    }

    /// The state after a history of calls, applied in order.
    pub open spec fn run(self, calls: Seq<Call<T>>) -> Self
        decreases calls.len(),
    {
        if calls.len() == 0 {
            self
        } else {
            self.run(calls.drop_last()).step(calls.last())
        }
    }
}

/// `copy` is what duplicating `source` may give: absent when `source` is, and
/// otherwise a clone of the value in it.
pub open spec fn duplicate_of<T: Clone>(source: Option<T>, copy: Option<T>) -> bool {
    match source {
        Some(value) => copy is Some && cloned(value, copy->0),
        None => copy is None,
    }
}

} // verus!
