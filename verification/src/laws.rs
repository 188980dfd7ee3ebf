//! What holds of a gate over runs of calls, proved of its state machine. The
//! executable handler makes exactly these transitions, so each law holds of it
//! as well.

use crate::app_state::AppState;
use crate::gate::{failed_indices, failed_upto, Gate};
use crate::load_status::{all_resolved, LoadStatus};
use bevy::asset::HandleUntyped;
use vstd::prelude::*;

verus! {

/// Every status of each round matches one queued handle, and in every round
/// at least one handle is still pending.
pub open spec fn rounds_unresolved(rounds: Seq<Seq<LoadStatus>>, queued: nat) -> bool {
    forall|k: int|
        0 <= k < rounds.len() ==> (#[trigger] rounds[k]).len() == queued && !all_resolved(rounds[k])
}

/// The invariant holds at the start, after every request for a transition,
/// after every handle registered in the `Loading` mode, and after every poll
/// of a state that had it: handles are awaited, and a mode is pending, only
/// in the `Loading` mode.
pub proof fn lemma_invariant_is_kept(
    gate: Gate,
    next: AppState,
    handle: HandleUntyped,
    statuses: Seq<LoadStatus>,
)
    ensures
        Gate::initial().inv(),
        gate.load(next).inv(),
        gate.mode == AppState::Loading ==> gate.enqueue(handle).inv(),
        gate.inv() ==> gate.poll(statuses).inv(),
{
}

/// Handles may be registered before the transition is asked for or after
/// it: either way the same state is reached, and the invariant holds of it.
pub proof fn lemma_request_and_load_commute(
    gate: Gate,
    next: AppState,
    handles: Seq<HandleUntyped>,
)
    ensures
        gate.enqueue_all(handles).load(next) == gate.load(next).enqueue_all(handles),
        gate.enqueue_all(handles).load(next).inv(),
        gate.enqueue_all(handles).load(next).mode == AppState::Loading,
        gate.enqueue_all(handles).load(next).pending == Some(next),
        gate.enqueue_all(handles).load(next).queue == gate.queue + handles,
{
}

/// While the mode is not `Loading` the queue is empty and nothing is
/// pending, so a poll changes nothing.
pub proof fn lemma_poll_outside_loading_is_idle(gate: Gate, statuses: Seq<LoadStatus>)
    requires
        gate.inv(),
        gate.mode != AppState::Loading,
        statuses.len() == gate.queue.len(),
    ensures
        gate.queue.len() == 0,
        gate.pending is None,
        gate.poll(statuses) == gate,
        gate.committed(statuses) is None,
{
    assert(gate.queue =~= Seq::empty());
}

/// Right after a transition is asked for the mode is `Loading`, whatever the
/// state was and whichever mode is asked for.
pub proof fn lemma_load_enters_loading(gate: Gate, next: AppState)
    ensures
        gate.load(next).mode == AppState::Loading,
        gate.load(next).pending == Some(next),
        gate.load(next).queue == gate.queue,
{
}

/// After any run of transitions asked for without a poll in between, the
/// mode is `Loading`, the mode asked for last is the one pending, and the
/// queue is untouched.
pub proof fn lemma_loads_enter_loading(gate: Gate, nexts: Seq<AppState>)
    requires
        nexts.len() > 0,
    ensures
        gate.load_each(nexts).mode == AppState::Loading,
        gate.load_each(nexts).pending == Some(nexts.last()),
        gate.load_each(nexts).queue == gate.queue,
    decreases nexts.len(),
{
    if nexts.len() > 1 {
        lemma_loads_enter_loading(gate, nexts.drop_last());
    } else {
        assert(gate.load_each(nexts.drop_last()) == gate);
    }
}

/// With an empty queue, a transition whose loader requests nothing is
/// committed by the very next poll.
pub proof fn lemma_empty_load_commits_at_once(gate: Gate, next: AppState, statuses: Seq<LoadStatus>)
    requires
        gate.queue.len() == 0,
        statuses.len() == 0,
    ensures
        gate.load(next).mode == AppState::Loading,
        gate.load(next).poll(statuses) == Gate::settled(next),
        gate.load(next).committed(statuses) == Some(next),
{
}

/// A poll that finds a handle pending changes nothing; a poll that finds
/// every handle resolved commits the pending mode and empties the queue.
pub proof fn lemma_poll_commits_iff_all_resolved(gate: Gate, statuses: Seq<LoadStatus>)
    requires
        statuses.len() == gate.queue.len(),
    ensures
        !all_resolved(statuses) ==> gate.poll(statuses) == gate && gate.committed(statuses) is None,
        all_resolved(statuses) ==> gate.poll(statuses).queue.len() == 0
            && gate.poll(statuses).pending is None
            && gate.committed(statuses) == gate.pending,
        all_resolved(statuses) && gate.pending is Some ==> gate.poll(statuses) == Gate::settled(
            gate.pending->0,
        ),
{
}

/// Polls that each find a handle pending leave a gate as it was, however
/// many there are.
pub proof fn lemma_unresolved_polls_change_nothing(gate: Gate, rounds: Seq<Seq<LoadStatus>>)
    requires
        rounds_unresolved(rounds, gate.queue.len()),
    ensures
        gate.poll_all(rounds) == gate,
    decreases rounds.len(),
{
    if rounds.len() > 0 {
        assert forall|k: int| 0 <= k < rounds.drop_last().len() implies (
        #[trigger] rounds.drop_last()[k]).len() == gate.queue.len() && !all_resolved(
            rounds.drop_last()[k],
        ) by {
            assert(rounds.drop_last()[k] == rounds[k]);
        }
        lemma_unresolved_polls_change_nothing(gate, rounds.drop_last());
        assert(!all_resolved(rounds[rounds.len() - 1]));
    }
}

/// Registering a run of handles is registering each of them in turn.
pub proof fn lemma_enqueue_all_is_enqueue_in_turn(
    gate: Gate,
    handles: Seq<HandleUntyped>,
    handle: HandleUntyped,
)
    ensures
        gate.enqueue_all(Seq::empty()) == gate,
        gate.enqueue_all(handles.push(handle)) == gate.enqueue_all(handles).enqueue(handle),
{
    assert(gate.queue + Seq::<HandleUntyped>::empty() =~= gate.queue);
    assert(gate.queue + handles.push(handle) =~= (gate.queue + handles).push(handle));
}

/// A transition whose loader requests some handles stays in `Loading` over
/// every poll that finds a queued handle pending, and is committed by the
/// first poll that finds them all resolved.
pub proof fn lemma_load_commits_when_all_resolved(
    gate: Gate,
    next: AppState,
    handles: Seq<HandleUntyped>,
    rounds: Seq<Seq<LoadStatus>>,
    statuses: Seq<LoadStatus>,
)
    requires
        rounds_unresolved(rounds, gate.queue.len() + handles.len()),
        statuses.len() == gate.queue.len() + handles.len(),
        all_resolved(statuses),
    ensures
        gate.load(next).enqueue_all(handles).poll_all(rounds).mode == AppState::Loading,
        gate.load(next).enqueue_all(handles).poll_all(rounds).queue == gate.queue + handles,
        gate.load(next).enqueue_all(handles).poll_all(rounds).poll(statuses) == Gate::settled(next),
{
    let waiting = gate.load(next).enqueue_all(handles);
    lemma_unresolved_polls_change_nothing(waiting, rounds);
}

/// In the `Loading` mode with an empty queue, the next poll commits the
/// pending mode.
pub proof fn lemma_drained_queue_commits(gate: Gate, next: AppState, statuses: Seq<LoadStatus>)
    requires
        gate.mode == AppState::Loading,
        gate.pending == Some(next),
        gate.queue.len() == 0,
        statuses.len() == 0,
    ensures
        gate.poll(statuses) == Gate::settled(next),
        gate.committed(statuses) == Some(next),
{
}

/// Whether all handles are resolved does not depend on the order in which
/// their statuses stand.
pub proof fn lemma_resolution_ignores_order(first: Seq<LoadStatus>, second: Seq<LoadStatus>)
    requires
        first.to_multiset() == second.to_multiset(),
    ensures
        all_resolved(first) == all_resolved(second),
{
    first.to_multiset_ensures();
    second.to_multiset_ensures();
    if all_resolved(first) {
        assert forall|j: int| 0 <= j < second.len() implies (#[trigger] second[j]).is_resolved() by {
            assert(second.contains(second[j]));
            assert(first.to_multiset().count(second[j]) > 0);
            assert(first.contains(second[j]));
        }
    }
    if all_resolved(second) {
        assert forall|j: int| 0 <= j < first.len() implies (#[trigger] first[j]).is_resolved() by {
            assert(first.contains(first[j]));
            assert(second.to_multiset().count(first[j]) > 0);
            assert(second.contains(first[j]));
        }
    }
}

/// A failed handle counts as resolved: statuses that are each `Loaded` or
/// `Failed` commit the pending mode, and a gate ends in the very state in
/// which it would have ended had every load succeeded.
pub proof fn lemma_failure_does_not_block(gate: Gate, statuses: Seq<LoadStatus>)
    requires
        forall|i: int|
            0 <= i < statuses.len() ==> #[trigger] statuses[i] == LoadStatus::Failed || statuses[i]
                == LoadStatus::Loaded,
    ensures
        all_resolved(statuses),
        gate.committed(statuses) == gate.pending,
        gate.poll(statuses) == gate.poll(Seq::new(statuses.len(), |i: int| LoadStatus::Loaded)),
{
    let loaded = Seq::new(statuses.len(), |i: int| LoadStatus::Loaded);
    assert(all_resolved(loaded));
}

/// The positions reported as failed among the first `n` statuses are the
/// positions below `n` that hold `Failed`, each once, in rising order.
pub proof fn lemma_failed_upto_names_the_failed(statuses: Seq<LoadStatus>, n: int)
    requires
        0 <= n <= statuses.len() <= usize::MAX,
    ensures
        forall|k: int|
            0 <= k < failed_upto(statuses, n).len() ==> 0 <= (#[trigger] failed_upto(
                statuses,
                n,
            )[k]) < n && statuses[failed_upto(statuses, n)[k] as int] == LoadStatus::Failed,
        forall|j: int, k: int|
            0 <= j < k < failed_upto(statuses, n).len() ==> (#[trigger] failed_upto(statuses, n)[j])
                < (#[trigger] failed_upto(statuses, n)[k]),
        forall|i: int|
            0 <= i < n && #[trigger] statuses[i] == LoadStatus::Failed ==> failed_upto(
                statuses,
                n,
            ).contains(i as usize),
    decreases n,
{
    if n > 0 {
        lemma_failed_upto_names_the_failed(statuses, n - 1);
        let shorter = failed_upto(statuses, n - 1);
        let longer = failed_upto(statuses, n);
        assert forall|i: int| 0 <= i < n && #[trigger] statuses[i] == LoadStatus::Failed implies longer.contains(
            i as usize,
        ) by {
            if i < n - 1 {
                assert(shorter.contains(i as usize));
                let k = choose|k: int| 0 <= k < shorter.len() && shorter[k] == i as usize;
                assert(longer[k] == i as usize);
            } else {
                assert(longer[longer.len() - 1] == i as usize);
            }
        }
    }
}

/// The positions that a poll reports as failed are the positions in the
/// queue that hold `Failed`, each once, in rising order.
pub proof fn lemma_failed_indices_name_the_failed(statuses: Seq<LoadStatus>)
    requires
        statuses.len() <= usize::MAX,
    ensures
        forall|k: int|
            0 <= k < failed_indices(statuses).len() ==> 0 <= (#[trigger] failed_indices(
                statuses,
            )[k]) < statuses.len() && statuses[failed_indices(statuses)[k] as int]
                == LoadStatus::Failed,
        forall|j: int, k: int|
            0 <= j < k < failed_indices(statuses).len() ==> (#[trigger] failed_indices(statuses)[j])
                < (#[trigger] failed_indices(statuses)[k]),
        forall|i: int|
            0 <= i < statuses.len() && #[trigger] statuses[i] == LoadStatus::Failed
                ==> failed_indices(statuses).contains(i as usize),
{
    lemma_failed_upto_names_the_failed(statuses, statuses.len() as int);
}

/// When a second transition is asked for before the first is committed,
/// the handles of both are awaited, and every run of polls leaves a gate
/// either still waiting or settled in the second mode: the first mode is
/// never committed.
pub proof fn lemma_last_load_wins(
    gate: Gate,
    first: AppState,
    first_handles: Seq<HandleUntyped>,
    second: AppState,
    second_handles: Seq<HandleUntyped>,
    rounds: Seq<Seq<LoadStatus>>,
)
    ensures
        ({
            let waiting = gate.load(first).enqueue_all(first_handles).load(second).enqueue_all(
                second_handles,
            );
            &&& waiting.mode == AppState::Loading
            &&& waiting.pending == Some(second)
            &&& waiting.queue == gate.queue + first_handles + second_handles
            &&& waiting.poll_all(rounds) == waiting || waiting.poll_all(rounds) == Gate::settled(
                second,
            )
        }),
    decreases rounds.len(),
{
    let waiting = gate.load(first).enqueue_all(first_handles).load(second).enqueue_all(
        second_handles,
    );
    if rounds.len() > 0 {
        lemma_last_load_wins(
            gate,
            first,
            first_handles,
            second,
            second_handles,
            rounds.drop_last(),
        );
    }
}

} // verus!
