//! What holds of every session, whatever is done to it.

use crate::commands::clear_step;
use crate::events::end_step;
use crate::play::{advance_step, enqueue_step};
use crate::session::{QueueError, SessionView};
use crate::skip::{aimed_positions, aims_at_current, skip_step, SkipTarget, Skipped};
use crate::time::max_nanos;
use crate::track::{
    lemma_total_concat, lemma_total_cut, lemma_total_permutation, lemma_total_remove,
    total_nanos, TrackSympho, TrackView,
};
use vstd::prelude::*;

verus! {

/// Whether the running time that a session holds for its queue is the sum
/// of the running times of the tracks in the queue.
pub open spec fn sums_up<H>(session: SessionView<H>) -> bool {
    session.queue_nanos == total_nanos(session.queue)
}

/// How many tracks a series of enqueues reported as added.
pub open spec fn added(counts: Seq<usize>) -> nat
    decreases counts.len(),
{
    if counts.len() == 0 {
        0
    } else {
        added(counts.drop_last()) + counts.last() as nat
    }
}

/// A new session holds the sum for its queue.
pub proof fn lemma_fresh_sums_up<H>()
    ensures
        sums_up(crate::session::SymphoData::<H>::fresh()),
{
}

/// An enqueue keeps the held running time equal to the sum over the queue,
/// whether the batch was taken, shuffled or refused.
pub proof fn lemma_enqueue_sums_up<H>(
    before: SessionView<H>,
    batch: Seq<TrackView>,
    shuffle: bool,
    after: SessionView<H>,
    count: usize,
)
    requires
        sums_up(before),
        enqueue_step(before, batch, shuffle, after, count),
    ensures
        sums_up(after),
{
    if before.queue_nanos + total_nanos(batch) <= max_nanos() {
        let kept = after.queue.subrange(0, before.queue.len() as int);
        let new = after.queue.subrange(before.queue.len() as int, after.queue.len() as int);
        assert(after.queue =~= kept + new);
        lemma_total_concat(kept, new);
        lemma_total_permutation(new, batch);
    }
}

/// An enqueue leaves the tracks that waited where they were, in their
/// order, and puts exactly the tracks of the batch behind them: shuffling
/// reaches the new tracks only.
pub proof fn lemma_enqueue_keeps_waiting<H>(
    before: SessionView<H>,
    batch: Seq<TrackView>,
    shuffle: bool,
    after: SessionView<H>,
    count: usize,
)
    requires
        enqueue_step(before, batch, shuffle, after, count),
    ensures
        after.queue.len() == before.queue.len() + count,
        forall|i: int| 0 <= i < before.queue.len() ==> after.queue[i] == before.queue[i],
        count > 0 ==> after.queue.subrange(
            before.queue.len() as int,
            after.queue.len() as int,
        ).to_multiset() == batch.to_multiset(),
{
    if before.queue_nanos + total_nanos(batch) <= max_nanos() {
        let kept = after.queue.subrange(0, before.queue.len() as int);
        assert forall|i: int| 0 <= i < before.queue.len() implies after.queue[i]
            == before.queue[i] by {
            assert(kept[i] == after.queue[i]);
        }
    }
}

/// A skip keeps the held running time equal to the sum over the queue,
/// whatever it is aimed at.
pub proof fn lemma_skip_sums_up<H>(
    before: SessionView<H>,
    target: SkipTarget,
    after: SessionView<H>,
    outcome: Result<Skipped<H>, QueueError>,
)
    requires
        sums_up(before),
        skip_step(before, target, after, outcome),
    ensures
        sums_up(after),
{
    if !aims_at_current(target) {
        match aimed_positions(target, before.queue.len()) {
            Some((first, last)) => {
                lemma_total_cut(before.queue, first - 1, last);
            },
            None => {},
        }
    }
}

/// A skip aimed at one position of the queue takes out the track there and
/// no other, and the held running time goes down by that track's.
pub proof fn lemma_skip_index<H>(
    before: SessionView<H>,
    position: usize,
    after: SessionView<H>,
    outcome: Result<Skipped<H>, QueueError>,
)
    requires
        1 <= position <= before.queue.len(),
        skip_step(before, SkipTarget::Index(position), after, outcome),
    ensures
        after.queue == before.queue.remove(position - 1),
        after.queue_nanos + before.queue[position - 1].nanos == before.queue_nanos,
        after.current == before.current,
{
    let removed = before.queue.subrange(position - 1, position as int);
    assert(after.queue =~= before.queue.remove(position - 1));
    assert(removed.drop_last() =~= Seq::<TrackView>::empty());
    assert(removed.last() == before.queue[position - 1]);
    assert(total_nanos(removed.drop_last()) == 0);
}

/// An advance keeps the held running time equal to the sum over the queue.
pub proof fn lemma_advance_sums_up<H>(
    before: SessionView<H>,
    after: SessionView<H>,
    next: Option<TrackSympho>,
)
    requires
        sums_up(before),
        advance_step(before, after, next),
    ensures
        sums_up(after),
{
    if before.current is None && before.queue.len() > 0 {
        lemma_total_remove(before.queue, 0);
        assert(before.queue.remove(0) =~= before.queue.drop_first());
    }
}

/// The end of a track keeps the held running time equal to the sum over
/// the queue.
pub proof fn lemma_end_sums_up<H>(
    before: SessionView<H>,
    after: SessionView<H>,
    finished: Option<(H, TrackSympho)>,
    next: Option<TrackSympho>,
)
    requires
        sums_up(before),
        end_step(before, after, finished, next),
    ensures
        sums_up(after),
{
    if before.queue.len() > 0 {
        lemma_total_remove(before.queue, 0);
        assert(before.queue.remove(0) =~= before.queue.drop_first());
    }
}

/// Emptying a session leaves it holding the sum for its queue: zero.
pub proof fn lemma_clear_sums_up<H>(
    before: SessionView<H>,
    after: SessionView<H>,
    stopped: Option<(H, TrackSympho)>,
)
    requires
        clear_step(before, after, stopped),
    ensures
        sums_up(after),
{
}

/// An advance hands out a track only from a session in which nothing
/// plays, and installs nothing itself: a session that plays is left alone,
/// so no second track is ever started beside the one that plays.
pub proof fn lemma_advance_needs_idle<H>(
    before: SessionView<H>,
    after: SessionView<H>,
    next: Option<TrackSympho>,
)
    requires
        advance_step(before, after, next),
    ensures
        next is Some ==> before.current is None && after.current is None,
        before.current is Some ==> next is None && after == before,
{
    if before.current is Some {
        assert(after.queue == before.queue);
    }
}

/// The end of a track accounts for what played: it is handed back, and
/// nothing plays afterwards until the caller reports a new start.
pub proof fn lemma_end_leaves_idle<H>(
    before: SessionView<H>,
    after: SessionView<H>,
    finished: Option<(H, TrackSympho)>,
    next: Option<TrackSympho>,
)
    requires
        end_step(before, after, finished, next),
    ensures
        after.current is None,
        finished is Some <==> before.current is Some,
        before.queue.len() == 0 ==> next is None && after.queue.len() == 0,
{
}

/// Enqueues that follow one another lose nothing: the queue grows by
/// exactly the number of tracks they reported as added, and still adds up.
/// `states[i]` is the session before the enqueue `i` and `states[i + 1]`
/// after it.
pub proof fn lemma_serial_enqueues<H>(
    states: Seq<SessionView<H>>,
    batches: Seq<Seq<TrackView>>,
    shuffles: Seq<bool>,
    counts: Seq<usize>,
)
    requires
        states.len() == batches.len() + 1,
        shuffles.len() == batches.len(),
        counts.len() == batches.len(),
        sums_up(states[0]),
        forall|i: int|
            0 <= i < batches.len() ==> enqueue_step(
                #[trigger] states[i],
                batches[i],
                shuffles[i],
                states[i + 1],
                counts[i],
            ),
    ensures
        states.last().queue.len() == states[0].queue.len() + added(counts),
        sums_up(states.last()),
    decreases batches.len(),
{
    if batches.len() == 0 {
        assert(counts.len() == 0);
    } else {
        let n = batches.len() as int;
        let earlier = states.drop_last();
        assert forall|i: int| 0 <= i < n - 1 implies enqueue_step(
            #[trigger] earlier[i],
            batches.drop_last()[i],
            shuffles.drop_last()[i],
            earlier[i + 1],
            counts.drop_last()[i],
        ) by {
            assert(enqueue_step(states[i], batches[i], shuffles[i], states[i + 1], counts[i]));
        }
        lemma_serial_enqueues(
            earlier,
            batches.drop_last(),
            shuffles.drop_last(),
            counts.drop_last(),
        );
        assert(earlier.last() == states[n - 1]);
        assert(enqueue_step(
            states[n - 1],
            batches[n - 1],
            shuffles[n - 1],
            states[n],
            counts[n - 1],
        ));
        lemma_enqueue_sums_up(
            states[n - 1],
            batches[n - 1],
            shuffles[n - 1],
            states[n],
            counts[n - 1],
        );
        lemma_enqueue_keeps_waiting(
            states[n - 1],
            batches[n - 1],
            shuffles[n - 1],
            states[n],
            counts[n - 1],
        );
    }
}

} // verus!
