//! The smaller commands: stopping, leaving, gain, looping, and what plays.

use crate::session::{pair_view, QueueError, SessionView, FULL_VOLUME};
use crate::store::{lemma_update_keeps_store, SymphoGlobal};
use crate::text::{dur_to_hhmmss, hhmmss};
use crate::time::Duration;
use crate::track::{TrackSympho, TrackView, UNKNOWN_TITLE};
use vstd::prelude::*;
use vstd::string::StringExecFns;

verus! {

/// Whether the current track is to repeat.
#[derive(Clone, Copy, Debug, PartialEq, Eq, Structural)]
pub enum LoopMode {
    On,
    Off,
}

/// What the word given to the loop command asks for.
pub open spec fn loop_mode_of(word: Seq<char>) -> Option<LoopMode> {
    if word == "on"@ {
        Some(LoopMode::On)
    } else if word == "off"@ {
        Some(LoopMode::Off)
    } else {
        None
    }
}

/// A position or a length as text; `Unknown` where there is none.
pub open spec fn span_text(span: Option<Duration>) -> Seq<char> {
    match span {
        Some(d) => hhmmss(d.secs()),
        None => UNKNOWN_TITLE@,
    }
}

/// What emptying makes of a session: no track waits and none plays, the gain
/// stays. `stopped` is what had been playing.
pub open spec fn clear_step<H>(
    before: SessionView<H>,
    after: SessionView<H>,
    stopped: Option<(H, TrackSympho)>,
) -> bool {
    &&& after.current is None
    &&& after.volume == before.volume
    &&& after.queue == Seq::<TrackView>::empty()
    &&& after.queue_nanos == 0
    &&& pair_view(stopped) == before.current
}

/// What setting the gain to `gain` thousandths makes of a session: a gain in
/// `1..=FULL_VOLUME` is taken, any other refused; nothing else changes.
pub open spec fn volume_step<H>(
    before: SessionView<H>,
    gain: u16,
    after: SessionView<H>,
    set: Result<(), QueueError>,
) -> bool {
    &&& after.current == before.current
    &&& after.queue == before.queue
    &&& after.queue_nanos == before.queue_nanos
    &&& if 1 <= gain <= FULL_VOLUME {
        set is Ok && after.volume == gain
    } else {
        set == Err::<(), QueueError>(QueueError::VolumeOutOfRange) && after.volume
            == before.volume
    }
}

/// Reads the word given to the loop command: `on` or `off`; any other word
/// asks for nothing.
pub fn loop_mode(word: &str) -> (mode: Option<LoopMode>)
    ensures
        mode == loop_mode_of(word@),
{
    let given = word.to_owned();
    if given == "on".to_owned() {
        Some(LoopMode::On)
    } else if given == "off".to_owned() {
        Some(LoopMode::Off)
    } else {
        None
    }
}

/// Stops the session `key`: its queue is emptied and nothing plays in it any
/// more. Returns what had been playing, for the caller to stop. No other
/// session is touched.
pub fn stop<H>(global: &mut SymphoGlobal<H>, key: u64) -> (stopped: Option<(H, TrackSympho)>)
    requires
        old(global).wf(),
    ensures
        final(global).wf(),
        final(global).same_but(old(global), key),
        final(global)@.contains_key(key),
        clear_step(old(global).session(key), final(global).session(key), stopped),
{
    let session = global.get_or_create(key);
    let stopped = session.clear();
    proof {
        lemma_update_keeps_store(*old(global), *global, key, global@[key]);
    }
    stopped
}

/// Empties the session `key` when its voice connection is given up: no
/// track waits and none plays. The session itself stays, with its gain.
/// Returns what had been playing, for the caller to stop. No other session
/// is touched.
pub fn leave<H>(global: &mut SymphoGlobal<H>, key: u64) -> (stopped: Option<(H, TrackSympho)>)
    requires
        old(global).wf(),
    ensures
        final(global).wf(),
        final(global).same_but(old(global), key),
        final(global)@.contains_key(key),
        clear_step(old(global).session(key), final(global).session(key), stopped),
{
    stop(global, key)
}

/// Sets the gain of the session `key`, in thousandths. A gain outside
/// `1..=FULL_VOLUME` is refused and changes nothing. The caller forwards an
/// accepted gain to the handle of the current track, if there is one. No
/// other session is touched.
pub fn volume<H>(global: &mut SymphoGlobal<H>, key: u64, gain: u16) -> (set: Result<
    (),
    QueueError,
>)
    requires
        old(global).wf(),
    ensures
        final(global).wf(),
        final(global).same_but(old(global), key),
        final(global)@.contains_key(key),
        volume_step(old(global).session(key), gain, final(global).session(key), set),
{
    let session = global.get_or_create(key);
    let set = session.set_volume(gain);
    proof {
        lemma_update_keeps_store(*old(global), *global, key, global@[key]);
    }
    set
}

/// What plays in the session `key`, with its handle: what the pass-through
/// commands (resume, loop, gain) act on, and what the current command shows.
pub fn current<H>(global: &SymphoGlobal<H>, key: u64) -> (playing: Option<&(H, TrackSympho)>)
    ensures
        match playing {
            Some(p) => global.session(key).current == Some((p.0, p.1@)),
            None => global.session(key).current is None,
        },
{
    match global.get(key) {
        Some(session) => session.current(),
        None => None,
    }
}

fn span_as_text(span: Option<Duration>) -> (text: String)
    ensures
        text@ == span_text(span),
{
    match span {
        Some(d) => dur_to_hhmmss(d),
        None => UNKNOWN_TITLE.to_owned(),
    }
}

/// How far a track has played, for display: its position and its length
/// with ` / ` between them, each as hours, minutes and seconds, or `Unknown`
/// where the engine does not tell.
pub fn progress_text(position: Option<Duration>, length: Option<Duration>) -> (text: String)
    ensures
        text@ == span_text(position) + " / "@ + span_text(length),
{
    let text = span_as_text(position).concat(" / ").concat(span_as_text(length).as_str());
    assert(text@ =~= span_text(position) + " / "@ + span_text(length));
    text
}

} // verus!
