//! Turns that an agent accepted and has not started yet.
use crate::config::Thinking;
use crate::prompt::Prompt;
use vstd::prelude::*;

verus! {

/// Identity of an accepted turn within one agent.
#[derive(Clone, Copy, Debug, PartialEq, Eq, Structural)]
pub struct TurnKey {
    /// Position of the turn in the order in which the agent accepted turns.
    pub number: u64,
}

/// An accepted turn that waits for its start.
///
/// `ticket` identifies the caller who waits for the turn's result.
#[derive(Debug)]
pub enum QueuedTurn {
    /// The turn will run.
    Pending {
        /// Identity of the turn.
        key: TurnKey,
        /// What the user asked.
        prompt: Prompt,
        /// Effort captured when the turn was accepted.
        thinking: Thinking,
        /// Processing mode captured when the turn was accepted.
        fast_mode: bool,
        /// Who waits for the result.
        ticket: u64,
    },
    /// The turn was cancelled while it waited. It keeps its place, and reports
    /// its cancellation when its place comes.
    Cancelled {
        /// What the user asked.
        prompt: Prompt,
        /// Effort captured when the turn was accepted.
        thinking: Thinking,
        /// Processing mode captured when the turn was accepted.
        fast_mode: bool,
        /// Who waits for the result.
        ticket: u64,
    },
}

impl QueuedTurn {
    /// The same turn, cancelled.
    pub open spec fn cancelled(self) -> QueuedTurn {
        match self {
            QueuedTurn::Pending { key, prompt, thinking, fast_mode, ticket } => {
                QueuedTurn::Cancelled { prompt, thinking, fast_mode, ticket }
            },
            QueuedTurn::Cancelled { .. } => self,
        }
    }

    /// Who waits for the turn's result.
    pub open spec fn waiter(self) -> u64 {
        match self {
            QueuedTurn::Pending { ticket, .. } => ticket,
            QueuedTurn::Cancelled { ticket, .. } => ticket,
        }
    }

    /// Cancels the turn.
    pub fn cancel(self) -> (r: QueuedTurn)
        ensures
            r == self.cancelled(),
    {
        match self {
            QueuedTurn::Pending { key: _, prompt, thinking, fast_mode, ticket } => {
                QueuedTurn::Cancelled { prompt, thinking, fast_mode, ticket }
            },
            QueuedTurn::Cancelled { prompt, thinking, fast_mode, ticket } => {
                QueuedTurn::Cancelled { prompt, thinking, fast_mode, ticket }
            },
        }
    }

    /// Returns who waits for the turn's result.
    pub fn ticket(&self) -> (r: u64)
        ensures
            r == self.waiter(),
    {
        match self {
            QueuedTurn::Pending { ticket, .. } => *ticket,
            QueuedTurn::Cancelled { ticket, .. } => *ticket,
        }
    }
}

/// Whether a queued turn will run under the given identity.
pub open spec fn is_pending(turn: QueuedTurn, key: TurnKey) -> bool {
    turn matches QueuedTurn::Pending { key: own, .. } && own == key
}

/// The place of the first turn that will run under an identity, or the length
/// of the queue when there is none.
pub open spec fn pending_position(queue: Seq<QueuedTurn>, key: TurnKey) -> int
    decreases queue.len(),
{
    if queue.len() == 0 {
        0
    } else if is_pending(queue[0], key) {
        0
    } else {
        1 + pending_position(queue.skip(1), key)
    }
}

/// A queue after the turn with an identity was cancelled in its place.
pub open spec fn with_cancelled(queue: Seq<QueuedTurn>, key: TurnKey) -> Seq<QueuedTurn> {
    let position = pending_position(queue, key);
    if position < queue.len() {
        queue.update(position, queue[position].cancelled())
    } else {
        queue
    }
}

/// Those who wait for the results of queued turns, in the order of the queue.
pub open spec fn waiters(queue: Seq<QueuedTurn>) -> Seq<u64> {
    queue.map_values(|turn: QueuedTurn| turn.waiter())
}

/// The first pending position holds a pending turn, and none stands before it.
pub proof fn lemma_pending_position(queue: Seq<QueuedTurn>, key: TurnKey)
    ensures
        0 <= pending_position(queue, key) <= queue.len(),
        pending_position(queue, key) < queue.len() ==> is_pending(
            queue[pending_position(queue, key)],
            key,
        ),
        forall|i: int|
            0 <= i < pending_position(queue, key) ==> !is_pending(#[trigger] queue[i], key),
    decreases queue.len(),
{
    if queue.len() > 0 && !is_pending(queue[0], key) {
        lemma_pending_position(queue.skip(1), key);
        assert forall|i: int| 0 <= i < pending_position(queue, key) implies !is_pending(
            #[trigger] queue[i],
            key,
        ) by {
            if i > 0 {
                assert(queue[i] == queue.skip(1)[i - 1]);
            }
        }
    }
}

/// Cancelling a queued turn takes nobody out of the queue and moves nobody:
/// the same callers wait, in the same order.
pub proof fn law_cancelling_keeps_every_place(queue: Seq<QueuedTurn>, key: TurnKey)
    ensures
        with_cancelled(queue, key).len() == queue.len(),
        waiters(with_cancelled(queue, key)) == waiters(queue),
{
    lemma_pending_position(queue, key);
    assert(waiters(with_cancelled(queue, key)) =~= waiters(queue));
}

/// A queued turn can be cancelled once. Where identities are unique, a second
/// request for the same turn finds nothing to cancel.
pub proof fn law_queued_turn_cancels_once(queue: Seq<QueuedTurn>, key: TurnKey)
    requires
        forall|i: int, j: int|
            0 <= i < j < queue.len() ==> !(is_pending(#[trigger] queue[i], key) && is_pending(
                #[trigger] queue[j],
                key,
            )),
    ensures
        pending_position(with_cancelled(queue, key), key) == queue.len(),
{
    lemma_pending_position(queue, key);
    let after = with_cancelled(queue, key);
    lemma_pending_position(after, key);
    let position = pending_position(after, key);
    if position < after.len() {
        assert(is_pending(after[position], key));
        let first = pending_position(queue, key);
        if first < queue.len() {
            if position != first {
                assert(after[position] == queue[position]);
                assert(is_pending(queue[first], key));
                assert(false);
            }
        }
    }
}

/// Cancels the queued turn with an identity, in its place.
pub fn cancel_queued_turn(queue: &mut Vec<QueuedTurn>, target: TurnKey) -> (r: bool)
    ensures
        r == (pending_position(old(queue)@, target) < old(queue)@.len()),
        final(queue)@ == with_cancelled(old(queue)@, target),
{
    let mut position: usize = 0;
    proof {
        assert(queue@.skip(0) =~= queue@);
    }
    while position < queue.len()
        invariant_except_break
            pending_position(queue@, target) == position + pending_position(
                queue@.skip(position as int),
                target,
            ),
        invariant
            position <= queue@.len(),
            queue@ == old(queue)@,
        ensures
            position == pending_position(queue@, target),
        decreases queue@.len() - position,
    {
        proof {
            assert(queue@.skip(position as int)[0] == queue@[position as int]);
            assert(queue@.skip(position as int).skip(1) =~= queue@.skip(position as int + 1));
        }
        let found = match &queue[position] {
            QueuedTurn::Pending { key, .. } => *key == target,
            QueuedTurn::Cancelled { .. } => false,
        };
        if found {
            break;
        }
        position = position + 1;
    }
    if position >= queue.len() {
        return false;
    }
    let turn = queue.remove(position);
    queue.insert(position, turn.cancel());
    proof {
        assert(queue@ =~= with_cancelled(old(queue)@, target));
    }
    true
}

/// Cancels every queued turn in its place.
pub fn mark_all_queued_turns_cancelled(queue: &mut Vec<QueuedTurn>)
    ensures
        final(queue)@ == old(queue)@.map_values(|turn: QueuedTurn| turn.cancelled()),
{
    let mut i: usize = 0;
    while i < queue.len()
        invariant
            i <= queue@.len(),
            queue@.len() == old(queue)@.len(),
            forall|j: int| 0 <= j < i ==> queue@[j] == old(queue)@[j].cancelled(),
            forall|j: int| i <= j < queue@.len() ==> queue@[j] == old(queue)@[j],
        decreases queue@.len() - i,
    {
        let turn = queue.remove(i);
        queue.insert(i, turn.cancel());
        i = i + 1;
    }
    proof {
        assert(queue@ =~= old(queue)@.map_values(|turn: QueuedTurn| turn.cancelled()));
    }
}

/// Cancelling a queued turn cancels the first one that would run under its
/// identity and touches no other; it keeps what the user asked, the effort, the
/// mode and who waits. Without such a turn nothing changes.
pub proof fn law_cancelling_touches_one_turn(queue: Seq<QueuedTurn>, key: TurnKey)
    ensures
        with_cancelled(queue, key).len() == queue.len(),
        forall|i: int|
            0 <= i < queue.len() && (!is_pending(queue[i], key) || exists|j: int|
                0 <= j < i && is_pending(#[trigger] queue[j], key)) ==> (#[trigger] with_cancelled(
                queue,
                key,
            )[i]) == queue[i],
        forall|i: int|
            0 <= i < queue.len() && (forall|j: int|
                0 <= j < i ==> !is_pending(#[trigger] queue[j], key)) ==> (
            #[trigger] queue[i] matches QueuedTurn::Pending {
                key: own,
                prompt,
                thinking,
                fast_mode,
                ticket,
            } ==> own == key ==> with_cancelled(queue, key)[i] == (QueuedTurn::Cancelled {
                prompt,
                thinking,
                fast_mode,
                ticket,
            })),
        pending_position(queue, key) < queue.len() <==> exists|i: int|
            0 <= i < queue.len() && is_pending(#[trigger] queue[i], key),
{
    lemma_pending_position(queue, key);
    let first = pending_position(queue, key);
    assert forall|i: int|
        0 <= i < queue.len() && (!is_pending(queue[i], key) || exists|j: int|
            0 <= j < i && is_pending(#[trigger] queue[j], key)) implies (
    #[trigger] with_cancelled(queue, key)[i]) == queue[i] by {
        if i == first {
            assert(is_pending(queue[first], key));
            let j = choose|j: int| 0 <= j < i && is_pending(#[trigger] queue[j], key);
            assert(!is_pending(queue[j], key));
        }
    }
    assert forall|i: int|
        0 <= i < queue.len() && (forall|j: int|
            0 <= j < i ==> !is_pending(#[trigger] queue[j], key)) implies (
    #[trigger] queue[i] matches QueuedTurn::Pending {
        key: own,
        prompt,
        thinking,
        fast_mode,
        ticket,
    } ==> own == key ==> with_cancelled(queue, key)[i] == (QueuedTurn::Cancelled {
        prompt,
        thinking,
        fast_mode,
        ticket,
    })) by {
        if is_pending(queue[i], key) {
            if first < i {
                assert(is_pending(queue[first], key));
            }
            if first > i {
                assert(!is_pending(queue[i], key));
            }
        }
    }
    if exists|i: int| 0 <= i < queue.len() && is_pending(#[trigger] queue[i], key) {
        let i = choose|i: int| 0 <= i < queue.len() && is_pending(#[trigger] queue[i], key);
        assert(first <= i);
    }
}

/// A cancelled turn will not run; it keeps what the user asked, the effort, the
/// mode and who waits, and cancelling it again changes nothing.
pub proof fn law_cancelled_turns_keep_their_request(turn: QueuedTurn)
    ensures
        turn.cancelled() is Cancelled,
        turn.cancelled().cancelled() == turn.cancelled(),
        turn matches QueuedTurn::Pending { prompt, thinking, fast_mode, ticket, .. }
            ==> turn.waiter() == ticket && turn.cancelled() == (QueuedTurn::Cancelled {
            prompt,
            thinking,
            fast_mode,
            ticket,
        }),
        turn matches QueuedTurn::Cancelled { ticket, .. } ==> turn.waiter() == ticket
            && turn.cancelled() == turn,
{
}

/// Those who wait for queued turns are one for each turn, in the order of the
/// queue.
pub proof fn law_every_turn_has_its_waiter(queue: Seq<QueuedTurn>)
    ensures
        waiters(queue).len() == queue.len(),
        forall|i: int|
            0 <= i < queue.len() ==> match #[trigger] queue[i] {
                QueuedTurn::Pending { ticket, .. } => waiters(queue)[i] == ticket,
                QueuedTurn::Cancelled { ticket, .. } => waiters(queue)[i] == ticket,
            },
{
}

} // verus!
