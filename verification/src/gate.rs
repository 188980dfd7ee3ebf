//! A gate as a mathematical state machine: the current mode, the pending
//! mode and the queue of handles still awaited, with the three transitions
//! that change them.

use crate::app_state::AppState;
use crate::load_status::{all_resolved, LoadStatus};
use vstd::prelude::*;

verus! {

/// The state of a gate.
pub struct Gate {
    /// The current application mode.
    pub mode: AppState,
    /// The mode to commit to once the queue has drained, if a load is under
    /// way.
    pub pending: Option<AppState>,
    /// The handles requested and not yet seen resolved, in the order in which
    /// they were requested.
    pub queue: Seq<bevy::asset::HandleUntyped>,
}

impl Gate {
    /// The state of a gate on which nothing has been asked yet.
    pub open spec fn initial() -> Gate {
        Gate { mode: AppState::Initial, pending: None, queue: Seq::empty() }
    }

    /// Handles are awaited, and a mode is pending, only while the current
    /// mode is `Loading`.
    pub open spec fn inv(self) -> bool {
        (self.queue.len() > 0 || self.pending is Some) ==> self.mode == AppState::Loading
    }

    /// Asking for a transition to `next`: `next` replaces whatever was
    /// pending, the mode becomes `Loading`, and the queue stays as it is.
    pub open spec fn load(self, next: AppState) -> Gate {
        Gate { mode: AppState::Loading, pending: Some(next), queue: self.queue }
    }

    /// Registering one requested handle at the end of the queue.
    pub open spec fn enqueue(self, handle: bevy::asset::HandleUntyped) -> Gate {
        Gate { queue: self.queue.push(handle), ..self }
    }

    /// Registering a run of requested handles, first to last.
    pub open spec fn enqueue_all(self, handles: Seq<bevy::asset::HandleUntyped>) -> Gate {
        Gate { queue: self.queue + handles, ..self }
    }

    /// A run of transitions asked for one after the other, with no poll in
    /// between.
    pub open spec fn load_each(self, nexts: Seq<AppState>) -> Gate
        decreases nexts.len(),
    {
        if nexts.len() == 0 {
            self
        } else {
            self.load_each(nexts.drop_last()).load(nexts.last())
        }
    }

    /// The state once a transition has been committed to `next`.
    pub open spec fn settled(next: AppState) -> Gate {
        Gate { mode: next, pending: None, queue: Seq::empty() }
    }

    /// The handles that a poll with these statuses lets go of: the whole
    /// queue once every handle is resolved, none before.
    pub open spec fn released(self, statuses: Seq<LoadStatus>) -> Seq<bevy::asset::HandleUntyped> {
        if all_resolved(statuses) {
            self.queue
        } else {
            Seq::empty()
        }
    }

    /// The mode that a poll with these statuses commits to, if it commits.
    pub open spec fn committed(self, statuses: Seq<LoadStatus>) -> Option<AppState> {
        if all_resolved(statuses) {
            self.pending
        } else {
            None
        }
    }

    /// One poll, `statuses` holding the status of each queued handle in queue
    /// order. While any handle is pending nothing changes. Once all are
    /// resolved the queue is cleared, the pending mode (if there is one)
    /// becomes the current mode, and nothing is pending any more.
    pub open spec fn poll(self, statuses: Seq<LoadStatus>) -> Gate {
        if all_resolved(statuses) {
            Gate {
                mode: match self.pending {
                    Some(next) => next,
                    None => self.mode,
                },
                pending: None,
                queue: Seq::empty(),
            }
        } else {
            self
        }
    }

    /// A run of polls, one after the other.
    pub open spec fn poll_all(self, rounds: Seq<Seq<LoadStatus>>) -> Gate
        decreases rounds.len(),
    {
        if rounds.len() == 0 {
            self
        } else {
            self.poll_all(rounds.drop_last()).poll(rounds.last())
        }
    }
}

/// The positions among the first `n` of `statuses` that hold `Failed`, in
/// rising order.
pub open spec fn failed_upto(statuses: Seq<LoadStatus>, n: int) -> Seq<usize>
    decreases n,
{
    if n <= 0 {
        Seq::empty()
    } else if statuses[n - 1] == LoadStatus::Failed {
        failed_upto(statuses, n - 1).push((n - 1) as usize)
    } else {
        failed_upto(statuses, n - 1)
    }
}

/// The positions in the queue of the handles whose status is `Failed`, in
/// rising order.
pub open spec fn failed_indices(statuses: Seq<LoadStatus>) -> Seq<usize> {
    failed_upto(statuses, statuses.len() as int)
}

} // verus!
