//! The signals that the game rules raise.

use vstd::prelude::*;

verus! {

/// A signal raised by one of the rule handlers during a frame.
#[derive(Copy, Clone, PartialEq, Eq, Structural, Debug)]
pub enum GameEvent {
    /// The player stands on a goal; raised once for each such goal.
    ReachedGoal,
    /// The player stands on a trap; raised once for each such trap.
    HitTrap,
    /// The player took a step.
    PlayerMoved,
    /// The countdown of the level ran out.
    TimerExpired,
}

/// Number of occurrences of `event` in a queue of signals.
pub open spec fn occurrences(queue: Seq<GameEvent>, event: GameEvent) -> nat
    decreases queue.len(),
{
    if queue.len() == 0 {
        0
    } else {
        occurrences(queue.drop_last(), event) + if queue.last() == event {
            1nat
        } else {
            0nat
        }
    }
}

/// `count` copies of `event`.
pub open spec fn repeated(event: GameEvent, count: nat) -> Seq<GameEvent> {
    Seq::new(count, |k: int| event)
}

/// Appends `count` copies of `event` to `queue`.
pub fn push_repeated(queue: &mut Vec<GameEvent>, event: GameEvent, count: usize)
    ensures
        final(queue)@ == old(queue)@ + repeated(event, count as nat),
{
    let mut k: usize = 0;
    while k < count
        invariant
            k <= count,
            queue@ == old(queue)@ + repeated(event, k as nat),
        decreases count - k,
    {
        queue.push(event);
        k = k + 1;
    }
}

/// Appending a signal adds one occurrence of it and none of any other.
pub proof fn lemma_occurrences_push(queue: Seq<GameEvent>, pushed: GameEvent, event: GameEvent)
    ensures
        occurrences(queue.push(pushed), event) == occurrences(queue, event) + if pushed == event {
            1nat
        } else {
            0nat
        },
{
    assert(queue.push(pushed).drop_last() =~= queue);
}

/// Occurrences add up over concatenation.
pub proof fn lemma_occurrences_concat(a: Seq<GameEvent>, b: Seq<GameEvent>, event: GameEvent)
    ensures
        occurrences(a + b, event) == occurrences(a, event) + occurrences(b, event),
    decreases b.len(),
{
    if b.len() > 0 {
        lemma_occurrences_concat(a, b.drop_last(), event);
        assert((a + b).drop_last() =~= a + b.drop_last());
    }
}

/// `count` copies of a signal hold `count` occurrences of it and none of any
/// other.
pub proof fn lemma_occurrences_repeated(copied: GameEvent, count: nat, event: GameEvent)
    ensures
        occurrences(repeated(copied, count), event) == if copied == event {
            count
        } else {
            0
        },
    decreases count,
{
    if count > 0 {
        lemma_occurrences_repeated(copied, (count - 1) as nat, event);
        assert(repeated(copied, count).drop_last() =~= repeated(copied, (count - 1) as nat));
    }
}

} // verus!
