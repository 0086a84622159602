//! What holds of every holder, proved over the state machine that the slot's
//! contracts speak of. A history is the order in which the lock let the calls
//! in.

use vstd::prelude::*;
use crate::state::{Call, State, duplicate_of};

verus! {

/// A new holder is neither final nor ready.
pub proof fn fresh_is_unsettled<T>()
    ensures
        !State::<T>::empty().is_final(),
        !State::<T>::empty().is_ready(),
{
}

/// After an update the holder is ready, and it is final only if it was final
/// before: an update never freezes.
pub proof fn update_makes_ready<T>(state: State<T>, value: T)
    ensures
        state.update(value).is_ready(),
        state.update(value).is_final() == state.is_final(),
{
}

/// No history of calls changes a frozen holder.
pub proof fn frozen_is_fixed<T>(state: State<T>, calls: Seq<Call<T>>)
    requires
        state.is_final(),
    ensures
        state.run(calls) == state,
    decreases calls.len(),
{
    if calls.len() > 0 {
        frozen_is_fixed(state, calls.drop_last());
    }
}

/// A commit makes the holder final, and it is still final after any history
/// of further calls.
pub proof fn commit_is_permanent<T>(state: State<T>, later: Seq<Call<T>>)
    ensures
        state.commit().is_final(),
        state.commit().run(later).is_final(),
{
    frozen_is_fixed(state.commit(), later);
}

/// Once a commit has read a candidate, every later call leaves it in place: a
/// further commit, after any history, reads the same candidate.
pub proof fn committed_candidate_stays<T>(state: State<T>, later: Seq<Call<T>>)
    ensures
        state.commit().candidate == state.candidate,
        state.commit().run(later).candidate == state.candidate,
        state.commit().run(later).commit().candidate == state.candidate,
{
    frozen_is_fixed(state.commit(), later);
}

/// Where cloning a `T` gives an equal value, two commits return the same
/// value, whatever was called between them.
pub proof fn commits_return_one_value<T: Clone>(
    state: State<T>,
    later: Seq<Call<T>>,
    first: Option<T>,
    second: Option<T>,
)
    requires
        forall|a: T, b: T| #[trigger] cloned(a, b) ==> a == b,
        duplicate_of(state.candidate, first),
        duplicate_of(state.commit().run(later).candidate, second),
    ensures
        first == second,
        first == state.candidate,
{
    frozen_is_fixed(state.commit(), later);
}

/// From the first commit of a history on, the state is the one that this
/// commit left.
proof fn run_past_commit<T>(state: State<T>, calls: Seq<Call<T>>, first: int, upto: int)
    requires
        0 <= first < upto <= calls.len(),
        calls[first] is Commit,
    ensures
        state.run(calls.take(upto)) == state.run(calls.take(first)).commit(),
    decreases upto,
{
    assert(calls.take(upto).drop_last() == calls.take(upto - 1));
    assert(calls.take(upto).last() == calls[upto - 1]);
    if upto - 1 > first {
        run_past_commit(state, calls, first, upto - 1);
    }
}

/// All commits of one history read the same candidate: the one that the
/// earliest of them found.
pub proof fn commits_agree<T>(state: State<T>, calls: Seq<Call<T>>, earlier: int, later: int)
    requires
        0 <= earlier <= later < calls.len(),
        calls[earlier] is Commit,
        calls[later] is Commit,
    ensures
        state.run(calls.take(later)).candidate == state.run(calls.take(earlier)).candidate,
{
    if earlier < later {
        run_past_commit(state, calls, earlier, later);
    }
}

/// An update and a commit on a holder that is not frozen, in either order:
/// the update that comes first is what the commit reads, and the update that
/// comes second changes nothing. Nothing lies between the two.
pub proof fn update_lands_or_is_discarded<T>(state: State<T>, value: T)
    requires
        !state.is_final(),
    ensures
        state.update(value).commit().candidate == Some(value),
        state.commit().update(value) == state.commit(),
        state.commit().candidate == state.candidate,
{
}

} // verus!
