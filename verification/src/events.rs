//! What a session does when the engine reports on its track.

use crate::session::{pair_view, SessionView, FULL_VOLUME};
use crate::store::{lemma_update_keeps_store, SymphoGlobal};
use crate::track::TrackSympho;
use vstd::prelude::*;

verus! {

/// What the end of its track makes of a session: nothing plays any more, and
/// the head of the queue, if there is one, has left the queue as `next`.
/// `finished` is what had been playing.
pub open spec fn end_step<H>(
    before: SessionView<H>,
    after: SessionView<H>,
    finished: Option<(H, TrackSympho)>,
    next: Option<TrackSympho>,
) -> bool {
    &&& after.current is None
    &&& after.volume == before.volume
    &&& pair_view(finished) == before.current
    &&& if before.queue.len() > 0 {
        &&& next is Some
        &&& next->0@ == before.queue[0]
        &&& after.queue == before.queue.drop_first()
        &&& after.queue_nanos + before.queue[0].nanos == before.queue_nanos
    } else {
        &&& next is None
        &&& after.queue == before.queue
        &&& after.queue_nanos == before.queue_nanos
    }
}

/// Tells the session `key` that its track has ended, by itself or because it
/// was stopped. Nothing plays in the session from then on. If a track waits,
/// the head of the queue leaves it and is returned second, for the caller to
/// acquire a source for and hand to `playing`; a track whose source cannot be
/// had is dropped, and the session then stays idle until it is triggered
/// again. With an empty queue there is nothing to start. Returned first is
/// what had been playing. No other session is touched.
pub fn track_ended<H>(global: &mut SymphoGlobal<H>, key: u64) -> (step: (
    Option<(H, TrackSympho)>,
    Option<TrackSympho>,
))
    requires
        old(global).wf(),
    ensures
        final(global).wf(),
        final(global).same_but(old(global), key),
        final(global)@.contains_key(key),
        end_step(old(global).session(key), final(global).session(key), step.0, step.1),
{
    let session = global.get_or_create(key);
    let step = session.track_ended();
    proof {
        lemma_update_keeps_store(*old(global), *global, key, global@[key]);
    }
    step
}

/// The gain to give a track of the session `key` that has just started, in
/// thousandths: the engine does not keep a session's gain from one track to
/// the next, so the caller sets it anew on every start.
pub fn track_started<H>(global: &SymphoGlobal<H>, key: u64) -> (gain: u16)
    requires
        global.wf(),
    ensures
        gain == global.session(key).volume,
        1 <= gain <= FULL_VOLUME,
{
    match global.get(key) {
        Some(session) => session.volume(),
        None => FULL_VOLUME,
    }
}

} // verus!
