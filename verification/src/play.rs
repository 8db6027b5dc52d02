//! Playing: putting tracks into the queue of a session and moving its head
//! into the playing slot.

use crate::resolve::{
    is_file_reference, is_file_url, is_url, resolved_tracks, tracks_of, url_path, YoutubeDlOutput,
};
use crate::session::{pair_view, SessionView, SymphoData};
use crate::store::{lemma_update_keeps_store, SymphoGlobal};
use crate::time::max_nanos;
use crate::track::{
    lemma_total_permutation, lemma_views_permutation, total_nanos, unresolved_view, views,
    TrackSympho, TrackView,
};
use rand::seq::SliceRandom;
use vstd::prelude::*;

verus! {

/// What the play command is asked to do.
#[derive(Debug, PartialEq, Eq)]
pub enum PlayRequest {
    /// Put what `url` refers to into the queue, a playlist in random order if
    /// `shuffle` is set.
    Enqueue { url: String, shuffle: bool },
    /// Neither a reference nor an attachment was given; the caller says so.
    MissingUrl,
    /// What was given is no URL; nothing is done and nothing is said.
    NotAUrl,
}

/// Whether `word` asks for a playlist in random order.
pub open spec fn asks_for_shuffle(word: Option<Seq<char>>) -> bool {
    word == Some("shuffle"@) || word == Some("random"@)
}

/// The reference a play command is about: its first argument or, without
/// one, its first attachment.
pub open spec fn requested_url(
    first: Option<Seq<char>>,
    attachments: Seq<String>,
) -> Option<Seq<char>> {
    match first {
        Some(url) => Some(url),
        None => if attachments.len() > 0 {
            Some(attachments[0]@)
        } else {
            None
        },
    }
}

/// The tracks that an enqueue of `url` appends, in the resolver's order: the
/// reference itself where it is played as it is, else what the resolver
/// reported for it.
pub open spec fn batch_of(url: Seq<char>, resolved: Option<YoutubeDlOutput>) -> Seq<TrackView> {
    if is_file_reference(url) {
        seq![unresolved_view(url)]
    } else {
        resolved_tracks(resolved)
    }
}

/// What appending `batch` makes of a session: `before` is the session as it
/// was, `after` as it is, `count` how many tracks were appended. The batch is
/// appended whole behind the tracks that wait, which stay as they are; with
/// `shuffle` the tracks of the batch come in any order among themselves. A
/// batch that would carry the running time of the queue past what a
/// `Duration` holds is refused whole.
pub open spec fn enqueue_step<H>(
    before: SessionView<H>,
    batch: Seq<TrackView>,
    shuffle: bool,
    after: SessionView<H>,
    count: usize,
) -> bool {
    &&& after.current == before.current
    &&& after.volume == before.volume
    &&& if before.queue_nanos + total_nanos(batch) <= max_nanos() {
        &&& count == batch.len()
        &&& after.queue_nanos == before.queue_nanos + total_nanos(batch)
        &&& after.queue.len() == before.queue.len() + batch.len()
        &&& after.queue.subrange(0, before.queue.len() as int) == before.queue
        &&& after.queue.subrange(
            before.queue.len() as int,
            after.queue.len() as int,
        ).to_multiset() == batch.to_multiset()
        &&& (!shuffle || batch.len() <= 1) ==> after.queue == before.queue + batch
    } else {
        &&& count == 0
        &&& after.queue == before.queue
        &&& after.queue_nanos == before.queue_nanos
    }
}

/// What an advance makes of a session: if nothing plays and a track waits,
/// the head of the queue leaves it as `next`; otherwise nothing changes.
pub open spec fn advance_step<H>(
    before: SessionView<H>,
    after: SessionView<H>,
    next: Option<TrackSympho>,
) -> bool {
    &&& after.current == before.current
    &&& after.volume == before.volume
    &&& if before.current is None && before.queue.len() > 0 {
        &&& next is Some
        &&& next->0@ == before.queue[0]
        &&& after.queue == before.queue.drop_first()
        &&& after.queue_nanos + before.queue[0].nanos == before.queue_nanos
    } else {
        &&& next is None
        &&& after.queue == before.queue
        &&& after.queue_nanos == before.queue_nanos
    }
}

/// Reorders `tracks` with `rand::seq::SliceRandom::shuffle`, driven by
/// `rand::thread_rng()`. Which order comes out is left open; the shuffle only
/// swaps elements, so the same tracks come out, each as often as it went in.
#[verifier::external_body]
fn shuffle(tracks: &mut Vec<TrackSympho>)
    ensures
        final(tracks)@.to_multiset() == old(tracks)@.to_multiset(),
{
    tracks.shuffle(&mut rand::thread_rng());
}

fn same_text(left: &str, right: &str) -> (same: bool)
    ensures
        same == (left@ == right@),
{
    left.to_owned() == right.to_owned()
}

/// Reads the arguments of a play command: the reference is the first
/// argument or, without one, the first attachment; the second argument asks
/// for a shuffled playlist if it is `shuffle` or `random`.
pub fn play_request(
    first: Option<String>,
    second: Option<String>,
    attachments: &Vec<String>,
) -> (request: PlayRequest)
    ensures
        match requested_url(crate::resolve::text_view(first), attachments@) {
            None => request == PlayRequest::MissingUrl,
            Some(url) => if url_path(url) is Some {
                &&& request matches PlayRequest::Enqueue { url: chosen, shuffle }
                &&& chosen@ == url
                &&& shuffle == asks_for_shuffle(crate::resolve::text_view(second))
            } else {
                request == PlayRequest::NotAUrl
            },
        },
{
    let url = match first {
        Some(url) => url,
        None => {
            if attachments.len() != 0 {
                attachments[0].clone()
            } else {
                return PlayRequest::MissingUrl;
            }
        },
    };
    let shuffle = match &second {
        Some(word) => same_text(word.as_str(), "shuffle") || same_text(word.as_str(), "random"),
        None => false,
    };
    if !is_url(url.as_str()) {
        return PlayRequest::NotAUrl;
    }
    PlayRequest::Enqueue { url, shuffle }
}

impl<H> SymphoData<H> {
    /// Appends a batch of tracks behind the tracks that wait and returns how
    /// many were appended; see `enqueue_step`.
    pub fn enqueue(&mut self, tracks: Vec<TrackSympho>, shuffle_batch: bool) -> (count: usize)
        requires
            old(self).wf(),
        ensures
            final(self).wf(),
            enqueue_step(old(self)@, views(tracks@), shuffle_batch, final(self)@, count),
    {
        let mut batch = tracks;
        if shuffle_batch && batch.len() > 1 {
            shuffle(&mut batch);
        }
        proof {
            lemma_views_permutation(batch@, tracks@);
            lemma_total_permutation(views(batch@), views(tracks@));
            vstd::seq_lib::to_multiset_len(views(batch@));
            vstd::seq_lib::to_multiset_len(views(tracks@));
        }
        let ghost before = self@.queue;
        let count = self.extend(batch);
        proof {
            if count > 0 {
                assert(self@.queue.subrange(0, before.len() as int) =~= before);
                assert(self@.queue.subrange(before.len() as int, self@.queue.len() as int)
                    =~= views(batch@));
            }
            if views(tracks@).len() == 0 {
                assert(self@.queue =~= before);
                assert(self@.queue.subrange(0, before.len() as int) =~= before);
                assert(self@.queue.subrange(before.len() as int, self@.queue.len() as int)
                    =~= views(tracks@));
                assert(before + views(tracks@) =~= before);
            }
        }
        count
    }
}

/// Puts what `url` refers to into the queue of the session `key` and returns
/// how many tracks that added. A reference that is played as it is becomes
/// one untitled track of unknown length. For any other, `resolved` is what
/// the resolver reported for `url`, `None` if it failed or ran out of time:
/// each item it found becomes a track, the tracks of a playlist in random
/// order if `enable_shuffle` is set, and a failure adds nothing. No other
/// session is touched.
pub fn enqueue<H>(
    global: &mut SymphoGlobal<H>,
    key: u64,
    url: String,
    resolved: Option<YoutubeDlOutput>,
    enable_shuffle: bool,
) -> (count: usize)
    requires
        old(global).wf(),
    ensures
        final(global).wf(),
        final(global).same_but(old(global), key),
        final(global)@.contains_key(key),
        enqueue_step(
            old(global).session(key),
            batch_of(url@, resolved),
            enable_shuffle,
            final(global).session(key),
            count,
        ),
{
    let tracks = if is_file_url(url.as_str()) {
        let mut one: Vec<TrackSympho> = Vec::new();
        let track = TrackSympho::unresolved(url);
        one.push(track);
        assert(views(one@) =~= seq![track@]);
        one
    } else {
        tracks_of(&resolved)
    };
    let session = global.get_or_create(key);
    let count = session.enqueue(tracks, enable_shuffle);
    proof {
        lemma_update_keeps_store(*old(global), *global, key, global@[key]);
    }
    count
}

/// Moves the session `key` on if it is idle: when nothing plays and a track
/// waits, the head of the queue leaves it and is returned, for the caller to
/// acquire a source for and hand to `playing`. A track whose source cannot
/// be had is dropped. No other session is touched.
pub fn dequeue<H>(global: &mut SymphoGlobal<H>, key: u64) -> (next: Option<TrackSympho>)
    requires
        old(global).wf(),
    ensures
        final(global).wf(),
        final(global).same_but(old(global), key),
        final(global)@.contains_key(key),
        advance_step(old(global).session(key), final(global).session(key), next),
{
    let session = global.get_or_create(key);
    let next = session.advance();
    proof {
        lemma_update_keeps_store(*old(global), *global, key, global@[key]);
    }
    next
}

/// Records that `track` now plays in the session `key` through `handle`.
/// Returns what the session had as playing until now, for the caller to
/// stop. The queue stays as it is, and no other session is touched.
pub fn playing<H>(global: &mut SymphoGlobal<H>, key: u64, handle: H, track: TrackSympho) -> (displaced:
    Option<(H, TrackSympho)>)
    requires
        old(global).wf(),
    ensures
        final(global).wf(),
        final(global).same_but(old(global), key),
        final(global)@.contains_key(key),
        final(global).session(key).current == Some((handle, track@)),
        pair_view(displaced) == old(global).session(key).current,
        final(global).session(key).volume == old(global).session(key).volume,
        final(global).session(key).queue == old(global).session(key).queue,
        final(global).session(key).queue_nanos == old(global).session(key).queue_nanos,
{
    let session = global.get_or_create(key);
    let displaced = session.start(handle, track);
    proof {
        lemma_update_keeps_store(*old(global), *global, key, global@[key]);
    }
    displaced
}

} // verus!
