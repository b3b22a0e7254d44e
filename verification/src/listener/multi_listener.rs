//! Waiting on several listeners at once: the listeners run side by side, and
//! listening ends with the first one that fails, or once all have finished.
use vstd::prelude::*;

verus! {

/// Where listening on several transports stands.
pub enum ListenProgress<E> {
    /// Some listeners are still running.
    Waiting,
    /// Listening has ended with this outcome.
    Done(Result<(), E>),
}

/// The progress after one running listener, out of `pending`, has finished
/// with `result`.
pub open spec fn step<E>(pending: nat, result: Result<(), E>) -> ListenProgress<E> {
    match result {
        Err(e) => ListenProgress::Done(Err(e)),
        Ok(()) => if pending <= 1 { ListenProgress::Done(Ok(())) } else { ListenProgress::Waiting },
    }
}

/// One listener's result, written out: an error ends listening with that
/// very error; a success ends it with success when it was the last one
/// pending, and otherwise listening goes on.
pub proof fn lemma_step<E>(pending: nat, result: Result<(), E>)
    ensures
        result matches Err(e) ==> step(pending, result) == ListenProgress::Done(Err::<(), E>(e)),
        result is Ok && pending <= 1 ==> step(pending, result) == ListenProgress::Done(Ok::<(), E>(())),
        result is Ok && pending > 1 ==> step(pending, result) == ListenProgress::<E>::Waiting,
{
}

/// The outcome of listening on `pending` transports whose listeners finish,
/// in this order, with `results`: the first error, or success once all
/// `pending` have succeeded; `None` while some are still running.
pub open spec fn listen_outcome<E>(pending: nat, results: Seq<Result<(), E>>) -> Option<Result<(), E>>
    decreases results.len(),
{
    if pending == 0 {
        Some(Ok(()))
    } else if results.len() == 0 {
        None
    } else {
        match results[0] {
            Err(e) => Some(Err(e)),
            Ok(()) => listen_outcome((pending - 1) as nat, results.skip(1)),
        }
    }
}

/// A set of listeners that run at once.
pub struct MultiListener {
    pending: usize,
}

impl MultiListener {
    /// How many bound listeners have not finished.
    pub closed spec fn pending(&self) -> nat {
        self.pending as nat
    }

    /// A set with no listeners.
    pub fn new() -> (m: Self)
        ensures
            m.pending() == 0,
    {
        MultiListener { pending: 0 }
    }

    /// The text this set is described by in debug output.
    pub fn name(&self) -> (s: String)
        ensures
            s@ == "MultiListener"@,
    {
        "MultiListener".to_owned()
    }

    /// How many bound listeners have not finished.
    pub fn count(&self) -> (n: usize)
        ensures
            n == self.pending(),
    {
        self.pending
    }

    /// Binds a listener, given what its description came to: a refused
    /// description binds nothing and its error is handed back; an accepted
    /// one is recorded as running and handed back to be started.
    pub fn bind<T, E>(&mut self, listener: Result<T, E>) -> (r: Result<T, E>)
        requires
            old(self).pending() < usize::MAX,
        ensures
            r == listener,
            final(self).pending() == old(self).pending() + (if listener is Ok { 1nat } else { 0nat }),
    {
        if listener.is_ok() {
            self.pending = self.pending + 1;
        }
        listener
    }

    /// How listening stands before any listener has finished: with none
    /// bound it has already succeeded.
    pub fn start<E>(&self) -> (p: ListenProgress<E>)
        ensures
            p == (if self.pending() == 0 { ListenProgress::Done(Ok(())) } else { ListenProgress::<E>::Waiting }),
    {
        if self.pending == 0 {
            ListenProgress::Done(Ok(()))
        } else {
            ListenProgress::Waiting
        }
    }

    /// Records that one running listener finished with `result`: an error
    /// ends listening with that error; the last success ends it with success.
    pub fn finished<E>(&mut self, result: Result<(), E>) -> (p: ListenProgress<E>)
        requires
            old(self).pending() > 0,
        ensures
            final(self).pending() == old(self).pending() - 1,
            p == step(old(self).pending(), result),
    {
        self.pending = self.pending - 1;
        match result {
            Err(e) => ListenProgress::Done(Err(e)),
            Ok(()) => if self.pending == 0 {
                ListenProgress::Done(Ok(()))
            } else {
                ListenProgress::Waiting
            },
        }
    }
}

/// Listening succeeds once as many listeners as were bound have each
/// succeeded.
pub proof fn lemma_all_ok_succeeds<E>(pending: nat, results: Seq<Result<(), E>>)
    requires
        results.len() == pending,
        forall|i: int| 0 <= i < results.len() ==> results[i] is Ok,
    ensures
        listen_outcome(pending, results) == Some(Ok::<(), E>(())),
    decreases results.len(),
{
    if pending > 0 {
        let rest = results.skip(1);
        assert forall|i: int| 0 <= i < rest.len() implies rest[i] is Ok by {
            assert(rest[i] == results[i + 1]);
        }
        lemma_all_ok_succeeds((pending - 1) as nat, rest);
    }
}

/// Listening ends with the first error among the first `pending` results,
/// when the results before it are successes.
pub proof fn lemma_first_error_wins<E>(pending: nat, results: Seq<Result<(), E>>, k: int, e: E)
    requires
        0 <= k < pending,
        k < results.len(),
        results[k] == Err::<(), E>(e),
        forall|i: int| 0 <= i < k ==> results[i] is Ok,
    ensures
        listen_outcome(pending, results) == Some(Err::<(), E>(e)),
    decreases k,
{
    if k > 0 {
        let rest = results.skip(1);
        assert(rest[k - 1] == results[k]);
        assert forall|i: int| 0 <= i < k - 1 implies rest[i] is Ok by {
            assert(rest[i] == results[i + 1]);
        }
        lemma_first_error_wins((pending - 1) as nat, rest, k - 1, e);
    }
}

/// Successive calls of `finished` compute `listen_outcome`: after a
/// listener finishes with `result`, listening either ends with the outcome
/// that `result` followed by any further results gives, or waits, and the
/// outcome is then that of the further results on one listener fewer.
pub proof fn lemma_step_is_outcome<E>(pending: nat, result: Result<(), E>, rest: Seq<Result<(), E>>)
    requires
        pending > 0,
    ensures
        step(pending, result) matches ListenProgress::Done(o) ==> listen_outcome(pending, seq![result] + rest) == Some(o),
        step(pending, result) is Waiting ==> listen_outcome(pending, seq![result] + rest) == listen_outcome((pending - 1) as nat, rest),
{
    let s = seq![result] + rest;
    assert(s[0] == result);
    assert(s.skip(1) =~= rest);
    if pending == 1 {
        assert(listen_outcome(0, rest) == Some(Ok::<(), E>(())));
    }
}

} // verus!
