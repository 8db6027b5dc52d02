//! Tracks, and the total running time of a sequence of them.

use crate::time::Duration;
use vstd::prelude::*;

verus! {

/// The title a track carries when nothing better is known.
pub const UNKNOWN_TITLE: &'static str = "Unknown";

/// A track as plain values: its texts and its length in nanoseconds.
pub struct TrackView {
    pub url: Seq<char>,
    pub title: Seq<char>,
    pub thumb: Option<Seq<char>>,
    pub nanos: nat,
}

/// A media reference that waits in a queue or is playing.
#[derive(Debug, PartialEq, Eq)]
pub struct TrackSympho {
    /// Where the media is: what the user gave, or what it resolved to.
    pub url: String,
    pub title: String,
    /// Where a picture for the track is, if there is one.
    pub thumb: Option<String>,
    /// The running time; zero when it is not known.
    pub duration: Duration,
}

impl View for TrackSympho {
    type V = TrackView;

    open spec fn view(&self) -> TrackView {
        TrackView {
            url: self.url@,
            title: self.title@,
            thumb: match self.thumb {
                Some(t) => Some(t@),
                None => None,
            },
            nanos: self.duration.nanos(),
        }
    }
}

impl Clone for TrackSympho {
    fn clone(&self) -> (copy: TrackSympho)
        ensures
            copy == *self,
    {
        TrackSympho {
            url: self.url.clone(),
            title: self.title.clone(),
            thumb: match &self.thumb {
                Some(t) => Some(t.clone()),
                None => None,
            },
            duration: self.duration,
        }
    }
}

impl TrackSympho {
    /// The track for a reference that is played as it is, such as an uploaded
    /// file: nothing is known of it, so it is untitled and of length zero.
    pub fn unresolved(url: String) -> (track: TrackSympho)
        ensures
            track@ == unresolved_view(url@),
    {
        TrackSympho {
            url,
            title: UNKNOWN_TITLE.to_owned(),
            thumb: None,
            duration: Duration::zero(),
        }
    }
}

/// What `TrackSympho::unresolved` makes of a reference.
pub open spec fn unresolved_view(url: Seq<char>) -> TrackView {
    TrackView { url, title: UNKNOWN_TITLE@, thumb: None, nanos: 0 }
}

/// The tracks of a sequence as plain values, in order.
pub open spec fn views(tracks: Seq<TrackSympho>) -> Seq<TrackView> {
    tracks.map_values(|t: TrackSympho| t@)
}

/// The summed running time of a sequence of tracks, in nanoseconds.
pub open spec fn total_nanos(tracks: Seq<TrackView>) -> nat
    decreases tracks.len(),
{
    if tracks.len() == 0 {
        0
    } else {
        total_nanos(tracks.drop_last()) + tracks.last().nanos
    }
}

/// Appending a track adds its running time to the total.
pub proof fn lemma_total_push(tracks: Seq<TrackView>, track: TrackView)
    ensures
        total_nanos(tracks.push(track)) == total_nanos(tracks) + track.nanos,
{
    assert(tracks.push(track).drop_last() =~= tracks);
}

/// The total of two sequences joined is the sum of their totals.
pub proof fn lemma_total_concat(front: Seq<TrackView>, back: Seq<TrackView>)
    ensures
        total_nanos(front + back) == total_nanos(front) + total_nanos(back),
    decreases back.len(),
{
    if back.len() == 0 {
        assert(front + back =~= front);
    } else {
        lemma_total_concat(front, back.drop_last());
        assert((front + back).drop_last() =~= front + back.drop_last());
    }
}

/// Cutting the positions `from..to` out of a sequence takes exactly their
/// running time off the total.
pub proof fn lemma_total_cut(tracks: Seq<TrackView>, from: int, to: int)
    requires
        0 <= from <= to <= tracks.len(),
    ensures
        total_nanos(tracks.subrange(0, from) + tracks.subrange(to, tracks.len() as int))
            + total_nanos(tracks.subrange(from, to)) == total_nanos(tracks),
{
    let front = tracks.subrange(0, from);
    let cut = tracks.subrange(from, to);
    let back = tracks.subrange(to, tracks.len() as int);
    lemma_total_concat(front, back);
    lemma_total_concat(front, cut);
    lemma_total_concat(front + cut, back);
    assert((front + cut) + back =~= tracks);
}

/// Taking one track out takes exactly its running time off the total.
pub proof fn lemma_total_remove(tracks: Seq<TrackView>, at: int)
    requires
        0 <= at < tracks.len(),
    ensures
        total_nanos(tracks.remove(at)) + tracks[at].nanos == total_nanos(tracks),
{
    lemma_total_cut(tracks, at, at + 1);
    assert(tracks.remove(at) =~= tracks.subrange(0, at) + tracks.subrange(
        at + 1,
        tracks.len() as int,
    ));
    let one = tracks.subrange(at, at + 1);
    assert(one.drop_last() =~= Seq::<TrackView>::empty());
    assert(one.last() == tracks[at]);
    assert(total_nanos(one.drop_last()) == 0);
}

/// The total does not depend on the order of the tracks.
pub proof fn lemma_total_permutation(left: Seq<TrackView>, right: Seq<TrackView>)
    requires
        left.to_multiset() == right.to_multiset(),
    ensures
        total_nanos(left) == total_nanos(right),
    decreases left.len(),
{
    broadcast use vstd::seq_lib::group_to_multiset_ensures;

    assert(left.len() == right.len()) by {
        vstd::seq_lib::to_multiset_len(left);
        vstd::seq_lib::to_multiset_len(right);
    }
    if left.len() > 0 {
        let last = left.last();
        assert(left.contains(last));
        assert(right.to_multiset().count(last) > 0);
        assert(right.contains(last));
        let at = choose|i: int| 0 <= i < right.len() && right[i] == last;
        assert(left.drop_last() =~= left.remove(left.len() - 1));
        assert(left.drop_last().to_multiset() =~= right.remove(at).to_multiset());
        lemma_total_permutation(left.drop_last(), right.remove(at));
        lemma_total_remove(right, at);
    }
}

/// Reordering tracks reorders their views.
pub proof fn lemma_views_permutation(left: Seq<TrackSympho>, right: Seq<TrackSympho>)
    requires
        left.to_multiset() == right.to_multiset(),
    ensures
        views(left).to_multiset() == views(right).to_multiset(),
    decreases left.len(),
{
    broadcast use vstd::seq_lib::group_to_multiset_ensures;

    assert(left.len() == right.len()) by {
        vstd::seq_lib::to_multiset_len(left);
        vstd::seq_lib::to_multiset_len(right);
    }
    if left.len() == 0 {
        assert(views(left) =~= views(right));
    } else {
        let last = left.last();
        assert(left.contains(last));
        assert(right.to_multiset().count(last) > 0);
        assert(right.contains(last));
        let at = choose|i: int| 0 <= i < right.len() && right[i] == last;
        assert(left.drop_last() =~= left.remove(left.len() - 1));
        assert(left.drop_last().to_multiset() =~= right.remove(at).to_multiset());
        lemma_views_permutation(left.drop_last(), right.remove(at));
        assert(views(left) =~= views(left.drop_last()).push(last@));
        assert(views(right).remove(at) =~= views(right.remove(at)));
        assert(views(right)[at] == last@);
        assert(views(right) =~= views(right).remove(at).insert(at, last@));
    }
}

} // verus!
