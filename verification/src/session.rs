//! The playback state of one session: the track that plays, the tracks that
//! wait, and what they add up to.

use crate::time::{max_nanos, Duration};
use crate::track::{
    lemma_total_concat, lemma_total_cut, lemma_total_push, lemma_total_remove, total_nanos,
    views, TrackSympho, TrackView,
};
use vstd::prelude::*;

verus! {

/// The gain of a track played as it is, in thousandths.
pub const FULL_VOLUME: u16 = 1000;

/// Why a queue operation changed nothing.
#[derive(Clone, Copy, Debug, PartialEq, Eq, Structural)]
pub enum QueueError {
    /// A position named by the caller is not a position of the queue.
    IndexOutOfRange,
    /// The gain is not in `1..=FULL_VOLUME`.
    VolumeOutOfRange,
}

/// A session as plain values.
pub struct SessionView<H> {
    /// The live handle of the track that plays, and that track.
    pub current: Option<(H, TrackView)>,
    /// The gain for this session, in thousandths.
    pub volume: nat,
    /// The tracks that wait, the next one first.
    pub queue: Seq<TrackView>,
    /// What the session holds as the running time of `queue`, in nanoseconds.
    pub queue_nanos: nat,
}

/// The playback state of one session. `H` is the engine's handle to a track
/// that plays; the session owns the handle of its current track and never
/// looks inside it.
pub struct SymphoData<H> {
    current: Option<(H, TrackSympho)>,
    volume: u16,
    queue: Vec<TrackSympho>,
    queue_duration: Duration,
}

/// A playing pair as plain values.
pub open spec fn pair_view<H>(pair: Option<(H, TrackSympho)>) -> Option<(H, TrackView)> {
    match pair {
        Some(p) => Some((p.0, p.1@)),
        None => None,
    }
}

impl<H> View for SymphoData<H> {
    type V = SessionView<H>;

    closed spec fn view(&self) -> SessionView<H> {
        SessionView {
            current: pair_view(self.current),
            volume: self.volume as nat,
            queue: views(self.queue@),
            queue_nanos: self.queue_duration.nanos(),
        }
    }
}

impl<H> SymphoData<H> {
    /// What every session satisfies: the running time it holds for its queue
    /// is the sum over the queue, which a `Duration` can hold, and its gain is
    /// in range.
    pub open spec fn wf(&self) -> bool {
        &&& self@.queue_nanos == total_nanos(self@.queue)
        &&& self@.queue_nanos <= max_nanos()
        &&& 1 <= self@.volume <= FULL_VOLUME
    }

    /// What a session is when it comes into being.
    pub open spec fn fresh() -> SessionView<H> {
        SessionView {
            current: None,
            volume: FULL_VOLUME as nat,
            queue: Seq::<TrackView>::empty(),
            queue_nanos: 0,
        }
    }

    /// A session that plays nothing, with an empty queue and full gain.
    pub fn new() -> (session: SymphoData<H>)
        ensures
            session.wf(),
            session@ == Self::fresh(),
    {
        let session = SymphoData {
            current: None,
            volume: FULL_VOLUME,
            queue: Vec::new(),
            queue_duration: Duration::zero(),
        };
        assert(views(session.queue@) =~= Seq::<TrackView>::empty());
        session
    }

    /// The track that plays, with its handle.
    pub fn current(&self) -> (playing: Option<&(H, TrackSympho)>)
        ensures
            match playing {
                Some(p) => self@.current == Some((p.0, p.1@)),
                None => self@.current is None,
            },
    {
        self.current.as_ref()
    }

    /// The gain for this session, in thousandths.
    pub fn volume(&self) -> (gain: u16)
        ensures
            gain == self@.volume,
    {
        self.volume
    }

    /// The tracks that wait, the next one first.
    pub fn queue(&self) -> (waiting: &Vec<TrackSympho>)
        ensures
            views(waiting@) == self@.queue,
    {
        &self.queue
    }

    /// The running time of the queue.
    pub fn queue_duration(&self) -> (total: Duration)
        ensures
            total.nanos() == self@.queue_nanos,
    {
        self.queue_duration
    }

    /// Appends one track, unless the running time of the queue would then be
    /// longer than a `Duration` can hold.
    pub fn push(&mut self, track: TrackSympho) -> (added: bool)
        requires
            old(self).wf(),
        ensures
            final(self).wf(),
            added <==> old(self)@.queue_nanos + track@.nanos <= max_nanos(),
            added ==> final(self)@.queue == old(self)@.queue.push(track@),
            added ==> final(self)@.queue_nanos == old(self)@.queue_nanos + track@.nanos,
            !added ==> final(self)@.queue == old(self)@.queue,
            !added ==> final(self)@.queue_nanos == old(self)@.queue_nanos,
            final(self)@.current == old(self)@.current,
            final(self)@.volume == old(self)@.volume,
    {
        match self.queue_duration.checked_add(track.duration) {
            Some(total) => {
                proof {
                    lemma_total_push(views(self.queue@), track@);
                    assert(views(self.queue@.push(track)) =~= views(self.queue@).push(track@));
                }
                self.queue_duration = total;
                self.queue.push(track);
                true
            },
            None => false,
        }
    }

    /// Appends a batch of tracks in their order, all of them or, if the
    /// running time of the queue would then be longer than a `Duration` can
    /// hold, none. Returns how many were appended.
    pub fn extend(&mut self, tracks: Vec<TrackSympho>) -> (count: usize)
        requires
            old(self).wf(),
        ensures
            final(self).wf(),
            final(self)@.current == old(self)@.current,
            final(self)@.volume == old(self)@.volume,
            old(self)@.queue_nanos + total_nanos(views(tracks@)) <= max_nanos() ==> {
                &&& count == tracks.len()
                &&& final(self)@.queue == old(self)@.queue + views(tracks@)
                &&& final(self)@.queue_nanos == old(self)@.queue_nanos + total_nanos(
                    views(tracks@),
                )
            },
            old(self)@.queue_nanos + total_nanos(views(tracks@)) > max_nanos() ==> {
                &&& count == 0
                &&& final(self)@.queue == old(self)@.queue
                &&& final(self)@.queue_nanos == old(self)@.queue_nanos
            },
    {
        let mut batch = tracks;
        let mut total: Duration = self.queue_duration;
        let mut i: usize = 0;
        while i < batch.len()
            invariant
                i <= batch.len(),
                batch@ == tracks@,
                *self == *old(self),
                self.wf(),
                total.nanos() <= max_nanos(),
                total.nanos() == self.queue_duration.nanos() + total_nanos(
                    views(tracks@.subrange(0, i as int)),
                ),
            decreases batch.len() - i,
        {
            proof {
                let done = tracks@.subrange(0, i as int);
                let more = tracks@.subrange(0, i + 1);
                let rest = tracks@.subrange(i + 1, tracks@.len() as int);
                assert(views(more) =~= views(done).push(tracks@[i as int]@));
                lemma_total_push(views(done), tracks@[i as int]@);
                assert(views(tracks@) =~= views(more) + views(rest));
                lemma_total_concat(views(more), views(rest));
            }
            match total.checked_add(batch[i].duration) {
                Some(longer) => {
                    total = longer;
                },
                None => {
                    return 0;
                },
            }
            i = i + 1;
        }
        proof {
            assert(tracks@.subrange(0, i as int) =~= tracks@);
            lemma_total_concat(views(self.queue@), views(tracks@));
            assert(views(self.queue@ + tracks@) =~= views(self.queue@) + views(tracks@));
        }
        let count: usize = batch.len();
        self.queue_duration = total;
        self.queue.append(&mut batch);
        count
    }

    /// Takes the head of the queue to be played next, if nothing plays and a
    /// track waits; otherwise changes nothing. The caller acquires a source
    /// for the track and, if that succeeds, hands the live handle to `start`.
    /// A track whose source cannot be had is dropped: it is not put back.
    pub fn advance(&mut self) -> (next: Option<TrackSympho>)
        requires
            old(self).wf(),
        ensures
            final(self).wf(),
            final(self)@.current == old(self)@.current,
            final(self)@.volume == old(self)@.volume,
            old(self)@.current is None && old(self)@.queue.len() > 0 ==> {
                &&& next is Some
                &&& next->0@ == old(self)@.queue[0]
                &&& final(self)@.queue == old(self)@.queue.drop_first()
                &&& final(self)@.queue_nanos + old(self)@.queue[0].nanos == old(
                    self,
                )@.queue_nanos
            },
            old(self)@.current is Some || old(self)@.queue.len() == 0 ==> {
                &&& next is None
                &&& final(self)@.queue == old(self)@.queue
                &&& final(self)@.queue_nanos == old(self)@.queue_nanos
            },
    {
        if self.queue.len() == 0 || self.current.is_some() {
            return None;
        }
        Some(self.take_head())
    }

    /// What the session does when the engine reports that its track has
    /// ended: nothing plays any more, and the head of the queue, if there is
    /// one, leaves the queue to be played next. Returns what had been playing
    /// and the track to acquire a source for. As with `advance`, a track whose
    /// source cannot be had is dropped, and the session then stays idle until
    /// the next trigger.
    pub fn track_ended(&mut self) -> (step: (Option<(H, TrackSympho)>, Option<TrackSympho>))
        requires
            old(self).wf(),
        ensures
            final(self).wf(),
            final(self)@.current is None,
            final(self)@.volume == old(self)@.volume,
            pair_view(step.0) == old(self)@.current,
            old(self)@.queue.len() > 0 ==> {
                &&& step.1 is Some
                &&& step.1->0@ == old(self)@.queue[0]
                &&& final(self)@.queue == old(self)@.queue.drop_first()
                &&& final(self)@.queue_nanos + old(self)@.queue[0].nanos == old(
                    self,
                )@.queue_nanos
            },
            old(self)@.queue.len() == 0 ==> {
                &&& step.1 is None
                &&& final(self)@.queue == old(self)@.queue
                &&& final(self)@.queue_nanos == old(self)@.queue_nanos
            },
    {
        let finished = self.current.take();
        if self.queue.len() == 0 {
            return (finished, None);
        }
        let next = self.take_head();
        (finished, Some(next))
    }

    /// Makes `track` the current track, played through `handle`. Returns what
    /// had been playing until now, for the caller to stop: the session never
    /// holds more than one live handle, and never drops one silently.
    pub fn start(&mut self, handle: H, track: TrackSympho) -> (displaced: Option<(H, TrackSympho)>)
        ensures
            old(self).wf() ==> final(self).wf(),
            final(self)@.current == Some((handle, track@)),
            pair_view(displaced) == old(self)@.current,
            final(self)@.volume == old(self)@.volume,
            final(self)@.queue == old(self)@.queue,
            final(self)@.queue_nanos == old(self)@.queue_nanos,
    {
        let displaced = self.current.take();
        self.current = Some((handle, track));
        displaced
    }

    /// Stops tracking the current track and returns it with its handle, for
    /// the caller to stop. The queue is not touched.
    pub fn stop_current(&mut self) -> (stopped: Option<(H, TrackSympho)>)
        ensures
            old(self).wf() ==> final(self).wf(),
            final(self)@.current is None,
            pair_view(stopped) == old(self)@.current,
            final(self)@.volume == old(self)@.volume,
            final(self)@.queue == old(self)@.queue,
            final(self)@.queue_nanos == old(self)@.queue_nanos,
    {
        self.current.take()
    }

    /// Empties the session: no track waits and none plays. The gain stays.
    /// Returns what had been playing, for the caller to stop.
    pub fn clear(&mut self) -> (stopped: Option<(H, TrackSympho)>)
        requires
            old(self).wf(),
        ensures
            final(self).wf(),
            final(self)@.current is None,
            pair_view(stopped) == old(self)@.current,
            final(self)@.volume == old(self)@.volume,
            final(self)@.queue == Seq::<TrackView>::empty(),
            final(self)@.queue_nanos == 0,
    {
        self.queue.clear();
        self.queue_duration = Duration::zero();
        assert(views(self.queue@) =~= Seq::<TrackView>::empty());
        self.current.take()
    }

    /// Removes the tracks at the positions `first..=last` of the queue,
    /// counted from 1, and returns them in their order. Positions that are
    /// not all in the queue change nothing.
    pub fn remove_range(&mut self, first: usize, last: usize) -> (removed: Result<
        Vec<TrackSympho>,
        QueueError,
    >)
        requires
            old(self).wf(),
        ensures
            final(self).wf(),
            final(self)@.current == old(self)@.current,
            final(self)@.volume == old(self)@.volume,
            1 <= first <= last <= old(self)@.queue.len() ==> {
                &&& removed is Ok
                &&& views(removed->Ok_0@) == old(self)@.queue.subrange(first - 1, last as int)
                &&& final(self)@.queue == old(self)@.queue.subrange(0, first - 1) + old(
                    self,
                )@.queue.subrange(last as int, old(self)@.queue.len() as int)
                &&& final(self)@.queue_nanos + total_nanos(views(removed->Ok_0@)) == old(
                    self,
                )@.queue_nanos
            },
            !(1 <= first <= last <= old(self)@.queue.len()) ==> {
                &&& removed == Err::<Vec<TrackSympho>, QueueError>(QueueError::IndexOutOfRange)
                &&& final(self)@.queue == old(self)@.queue
                &&& final(self)@.queue_nanos == old(self)@.queue_nanos
            },
    {
        if first < 1 || first > last || last > self.queue.len() {
            return Err(QueueError::IndexOutOfRange);
        }
        let ghost before = self.queue@;
        let mut kept = self.queue.split_off(last);
        let removed = self.queue.split_off(first - 1);
        self.queue.append(&mut kept);
        proof {
            let from = first - 1;
            let to = last as int;
            assert(removed@ =~= before.subrange(from, to));
            assert(self.queue@ =~= before.subrange(0, from) + before.subrange(
                to,
                before.len() as int,
            ));
            assert(views(removed@) =~= views(before).subrange(from, to));
            assert(views(self.queue@) =~= views(before).subrange(0, from) + views(
                before,
            ).subrange(to, before.len() as int));
            lemma_total_cut(views(before), from, to);
        }
        let mut total: Duration = self.queue_duration;
        let mut i: usize = 0;
        while i < removed.len()
            invariant
                i <= removed.len(),
                total.nanos() + total_nanos(views(removed@.subrange(0, i as int)))
                    == self.queue_duration.nanos(),
                total_nanos(views(removed@)) <= self.queue_duration.nanos(),
            decreases removed.len() - i,
        {
            proof {
                let done = removed@.subrange(0, i as int);
                let more = removed@.subrange(0, i + 1);
                let rest = removed@.subrange(i + 1, removed.len() as int);
                assert(views(more) =~= views(done).push(removed[i as int]@));
                lemma_total_push(views(done), removed[i as int]@);
                assert(views(removed@) =~= views(more) + views(rest));
                lemma_total_concat(views(more), views(rest));
            }
            match total.checked_sub(removed[i].duration) {
                Some(shorter) => {
                    total = shorter;
                },
                None => {
                    assert(false);
                },
            }
            i = i + 1;
        }
        assert(removed@.subrange(0, i as int) =~= removed@);
        self.queue_duration = total;
        Ok(removed)
    }

    /// Sets the gain for this session, in thousandths. A gain outside
    /// `1..=FULL_VOLUME` is refused. The caller forwards an accepted gain to
    /// the handle of the current track, if there is one.
    pub fn set_volume(&mut self, gain: u16) -> (set: Result<(), QueueError>)
        ensures
            old(self).wf() ==> final(self).wf(),
            final(self)@.current == old(self)@.current,
            final(self)@.queue == old(self)@.queue,
            final(self)@.queue_nanos == old(self)@.queue_nanos,
            1 <= gain <= FULL_VOLUME ==> set is Ok && final(self)@.volume == gain,
            !(1 <= gain <= FULL_VOLUME) ==> set == Err::<(), QueueError>(
                QueueError::VolumeOutOfRange,
            ) && final(self)@.volume == old(self)@.volume,
    {
        if gain < 1 || gain > FULL_VOLUME {
            return Err(QueueError::VolumeOutOfRange);
        }
        self.volume = gain;
        Ok(())
    }

    fn take_head(&mut self) -> (head: TrackSympho)
        requires
            old(self).wf(),
            old(self)@.queue.len() > 0,
        ensures
            final(self).wf(),
            final(self)@.current == old(self)@.current,
            final(self)@.volume == old(self)@.volume,
            head@ == old(self)@.queue[0],
            final(self)@.queue == old(self)@.queue.drop_first(),
            final(self)@.queue_nanos + head@.nanos == old(self)@.queue_nanos,
    {
        proof {
            lemma_total_remove(views(self.queue@), 0);
            assert(views(self.queue@.remove(0)) =~= views(self.queue@).drop_first());
            assert(views(self.queue@).remove(0) =~= views(self.queue@).drop_first());
        }
        let head = self.queue.remove(0);
        match self.queue_duration.checked_sub(head.duration) {
            Some(shorter) => {
                self.queue_duration = shorter;
            },
            None => {
                assert(false);
            },
        }
        head
    }
}

impl<H> Default for SymphoData<H> {
    fn default() -> (session: SymphoData<H>)
        ensures
            session.wf(),
            session@ == Self::fresh(),
    {
        SymphoData::new()
    }
}

} // verus!
