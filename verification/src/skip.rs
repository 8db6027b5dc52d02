//! Skipping: stopping what plays, or taking waiting tracks out of the queue.

use crate::session::{QueueError, SessionView, SymphoData};
use crate::store::{lemma_update_keeps_store, SymphoGlobal};
use crate::track::{total_nanos, views, TrackSympho};
use vstd::prelude::*;

verus! {

/// What a skip is aimed at. Positions count the waiting tracks from 1.
#[derive(Clone, Copy, Debug, PartialEq, Eq, Structural)]
pub enum SkipTarget {
    /// The track that plays.
    Current,
    /// The waiting track at this position; position 0 is the track that plays.
    Index(usize),
    /// The waiting tracks from the first position to the second, both included.
    Range(usize, usize),
}

/// Why the numbers given to a skip name no target.
#[derive(Clone, Copy, Debug, PartialEq, Eq, Structural)]
pub enum SkipError {
    /// Two numbers that are not a range: the first below 1, the second below
    /// 2, or the first not below the second.
    BadRange,
    /// More than two numbers.
    TooManyArguments,
}

/// What a skip did.
#[derive(Debug)]
pub enum Skipped<H> {
    /// The track that played is no longer tracked; the caller stops its handle.
    Current(H, TrackSympho),
    /// Nothing played, so nothing was stopped.
    Nothing,
    /// These tracks left the queue, in this order.
    Removed(Vec<TrackSympho>),
}

/// The target that the numbers given to a skip name: none means the track
/// that plays, one a position, two a range of positions.
pub open spec fn target_of(numbers: Seq<usize>) -> Result<SkipTarget, SkipError> {
    if numbers.len() == 0 {
        Ok(SkipTarget::Current)
    } else if numbers.len() == 1 {
        Ok(SkipTarget::Index(numbers[0]))
    } else if numbers.len() == 2 {
        if numbers[0] < 1 || numbers[1] < 2 || numbers[0] >= numbers[1] {
            Err(SkipError::BadRange)
        } else {
            Ok(SkipTarget::Range(numbers[0], numbers[1]))
        }
    } else {
        Err(SkipError::TooManyArguments)
    }
}

/// Whether `target` names the track that plays.
pub open spec fn aims_at_current(target: SkipTarget) -> bool {
    target == SkipTarget::Current || target == SkipTarget::Index(0)
}

/// The positions `first..=last` that `target` names in a queue of `len`
/// tracks, or `None` when it names the track that plays or positions that
/// are not all in the queue.
pub open spec fn aimed_positions(target: SkipTarget, len: nat) -> Option<(int, int)> {
    match target {
        SkipTarget::Current => None,
        SkipTarget::Index(i) => if 1 <= i <= len {
            Some((i as int, i as int))
        } else {
            None
        },
        SkipTarget::Range(first, last) => if 1 <= first < last <= len {
            Some((first as int, last as int))
        } else {
            None
        },
    }
}

/// What a skip at `target` makes of a session: `before` is the session as it
/// was, `after` as it is, `outcome` what the skip returned.
pub open spec fn skip_step<H>(
    before: SessionView<H>,
    target: SkipTarget,
    after: SessionView<H>,
    outcome: Result<Skipped<H>, QueueError>,
) -> bool {
    &&& after.volume == before.volume
    &&& if aims_at_current(target) {
        &&& after.current is None
        &&& after.queue == before.queue
        &&& after.queue_nanos == before.queue_nanos
        &&& match before.current {
            Some(playing) => outcome matches Ok(Skipped::Current(handle, track))
                && handle == playing.0 && track@ == playing.1,
            None => outcome matches Ok(Skipped::Nothing),
        }
    } else {
        &&& after.current == before.current
        &&& match aimed_positions(target, before.queue.len()) {
            Some((first, last)) => {
                &&& outcome matches Ok(Skipped::Removed(removed))
                &&& views(removed@) == before.queue.subrange(first - 1, last)
                &&& after.queue == before.queue.subrange(0, first - 1) + before.queue.subrange(
                    last,
                    before.queue.len() as int,
                )
                &&& after.queue_nanos + total_nanos(views(removed@)) == before.queue_nanos
            },
            None => {
                &&& outcome == Err::<Skipped<H>, QueueError>(QueueError::IndexOutOfRange)
                &&& after.queue == before.queue
                &&& after.queue_nanos == before.queue_nanos
            },
        }
    }
}

/// Reads the numbers given to a skip: none means the track that plays, one a
/// position, two a range of positions.
pub fn skip_target(numbers: &Vec<usize>) -> (target: Result<SkipTarget, SkipError>)
    ensures
        target == target_of(numbers@),
{
    if numbers.len() == 0 {
        Ok(SkipTarget::Current)
    } else if numbers.len() == 1 {
        Ok(SkipTarget::Index(numbers[0]))
    } else if numbers.len() == 2 {
        let first: usize = numbers[0];
        let last: usize = numbers[1];
        if first < 1 || last < 2 || first >= last {
            Err(SkipError::BadRange)
        } else {
            Ok(SkipTarget::Range(first, last))
        }
    } else {
        Err(SkipError::TooManyArguments)
    }
}

impl<H> SymphoData<H> {
    /// Skips what `target` names. Aimed at the track that plays, it stops
    /// tracking that track and hands it back with its handle for the caller
    /// to stop; the queue is not touched, and the end of the track then makes
    /// the session move on. Aimed at positions of the queue, it takes exactly
    /// those tracks out; positions that are not all in the queue change
    /// nothing and are reported.
    pub fn skip(&mut self, target: SkipTarget) -> (outcome: Result<Skipped<H>, QueueError>)
        requires
            old(self).wf(),
        ensures
            final(self).wf(),
            skip_step(old(self)@, target, final(self)@, outcome),
    {
        match target {
            SkipTarget::Current => self.skip_current(),
            SkipTarget::Index(position) => {
                if position == 0 {
                    self.skip_current()
                } else {
                    match self.remove_range(position, position) {
                        Ok(removed) => Ok(Skipped::Removed(removed)),
                        Err(e) => Err(e),
                    }
                }
            },
            SkipTarget::Range(first, last) => {
                if first >= last {
                    return Err(QueueError::IndexOutOfRange);
                }
                match self.remove_range(first, last) {
                    Ok(removed) => Ok(Skipped::Removed(removed)),
                    Err(e) => Err(e),
                }
            },
        }
    }

    fn skip_current(&mut self) -> (outcome: Result<Skipped<H>, QueueError>)
        requires
            old(self).wf(),
        ensures
            final(self).wf(),
            skip_step(old(self)@, SkipTarget::Current, final(self)@, outcome),
            skip_step(old(self)@, SkipTarget::Index(0), final(self)@, outcome),
    {
        match self.stop_current() {
            Some((handle, track)) => Ok(Skipped::Current(handle, track)),
            None => Ok(Skipped::Nothing),
        }
    }
}

/// Skips what `target` names in the session `key`; see `SymphoData::skip`.
/// No other session is touched.
pub fn skip<H>(global: &mut SymphoGlobal<H>, key: u64, target: SkipTarget) -> (outcome: Result<
    Skipped<H>,
    QueueError,
>)
    requires
        old(global).wf(),
    ensures
        final(global).wf(),
        final(global).same_but(old(global), key),
        final(global)@.contains_key(key),
        skip_step(old(global).session(key), target, final(global).session(key), outcome),
{
    let session = global.get_or_create(key);
    let outcome = session.skip(target);
    proof {
        lemma_update_keeps_store(*old(global), *global, key, global@[key]);
    }
    outcome
}

} // verus!
