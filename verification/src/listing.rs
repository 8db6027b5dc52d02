//! The queue of a session as text, a page at a time.

use crate::session::SessionView;
use crate::store::SymphoGlobal;
use crate::text::{decimal, decimal_text, format_duration, humantime_text};
use crate::track::{views, TrackSympho, TrackView};
use vstd::prelude::*;
use vstd::string::StringExecFns;

verus! {

/// How many tracks a page lists at most.
pub const PAGE_SIZE: usize = 10;

/// One page of a queue as text.
#[derive(Debug, PartialEq, Eq)]
pub struct QueuePage {
    /// A line for each track listed: its position, its title and its address.
    pub titles: String,
    /// A line for each track listed: its running time.
    pub durations: String,
    /// How many tracks wait in all, and how long they run together.
    pub description: String,
}

/// What there is to show of a queue.
#[derive(Debug, PartialEq, Eq)]
pub enum QueueListing {
    /// No track waits; the caller says so.
    Empty,
    /// The page asked for starts behind the last track; nothing is shown.
    OutOfRange,
    Page(QueuePage),
}

/// Where the page that starts at index `start` ends in a queue of `len`
/// tracks.
pub open spec fn page_end(len: nat, start: nat) -> nat {
    if len - start > PAGE_SIZE {
        start + PAGE_SIZE as nat
    } else {
        len
    }
}

/// The line for the track at position `number`, counted from 1.
pub open spec fn title_line(number: nat, track: TrackView) -> Seq<char> {
    decimal(number) + ": ["@ + track.title + "]("@ + track.url + ")\n"@
}

/// The title lines of the tracks at the indices `from..to`.
pub open spec fn title_lines(queue: Seq<TrackView>, from: int, to: int) -> Seq<char>
    decreases to - from,
{
    if to <= from {
        Seq::empty()
    } else {
        title_lines(queue, from, to - 1) + title_line(to as nat, queue[to - 1])
    }
}

/// The line for the running time of a track.
pub open spec fn duration_line(track: TrackView) -> Seq<char> {
    humantime_text(track.nanos) + "\n"@
}

/// The running-time lines of the tracks at the indices `from..to`.
pub open spec fn duration_lines(queue: Seq<TrackView>, from: int, to: int) -> Seq<char>
    decreases to - from,
{
    if to <= from {
        Seq::empty()
    } else {
        duration_lines(queue, from, to - 1) + duration_line(queue[to - 1])
    }
}

/// The summary of a queue of `len` tracks that run `nanos` nanoseconds
/// together.
pub open spec fn description_of(len: nat, nanos: nat) -> Seq<char> {
    "Queue length: "@ + decimal(len) + "\nQueue Duration: "@ + humantime_text(nanos)
}

/// What there is to show of a session from index `start` on.
pub open spec fn listing_of<H>(session: SessionView<H>, start: usize, listing: QueueListing) -> bool {
    if session.queue.len() == 0 {
        listing == QueueListing::Empty
    } else if start >= session.queue.len() {
        listing == QueueListing::OutOfRange
    } else {
        let end = page_end(session.queue.len(), start as nat) as int;
        &&& listing matches QueueListing::Page(page)
        &&& page.titles@ == title_lines(session.queue, start as int, end)
        &&& page.durations@ == duration_lines(session.queue, start as int, end)
        &&& page.description@ == description_of(session.queue.len(), session.queue_nanos)
    }
}

fn line_of_title(number: usize, track: &TrackSympho) -> (line: String)
    ensures
        line@ == title_line(number as nat, track@),
{
    let line = decimal_text(number as u64).concat(": [").concat(track.title.as_str()).concat(
        "](",
    ).concat(track.url.as_str()).concat(")\n");
    assert(line@ =~= title_line(number as nat, track@));
    line
}

/// Lists the queue of the session `key` from index `start` on, counted from
/// 0: up to `PAGE_SIZE` tracks with their positions, counted from 1, their
/// titles, addresses and running times, and a summary of the whole queue.
pub fn queue<H>(global: &SymphoGlobal<H>, key: u64, start: usize) -> (listing: QueueListing)
    ensures
        listing_of(global.session(key), start, listing),
{
    let session = match global.get(key) {
        Some(session) => session,
        None => {
            return QueueListing::Empty;
        },
    };
    let waiting = session.queue();
    let len: usize = waiting.len();
    if len == 0 {
        return QueueListing::Empty;
    }
    if start >= len {
        return QueueListing::OutOfRange;
    }
    let end: usize = if len - start > PAGE_SIZE {
        start + PAGE_SIZE
    } else {
        len
    };
    let mut titles = String::new();
    let mut durations = String::new();
    let mut i: usize = start;
    while i < end
        invariant
            start <= i <= end <= waiting.len(),
            titles@ == title_lines(views(waiting@), start as int, i as int),
            durations@ == duration_lines(views(waiting@), start as int, i as int),
        decreases end - i,
    {
        let track = &waiting[i];
        let line = line_of_title(i + 1, track);
        titles = titles.concat(line.as_str());
        let time = format_duration(track.duration).concat("\n");
        durations = durations.concat(time.as_str());
        i = i + 1;
    }
    let description = "Queue length: ".to_owned().concat(decimal_text(len as u64).as_str()).concat(
        "\nQueue Duration: ",
    ).concat(format_duration(session.queue_duration()).as_str());
    assert(description@ =~= description_of(len as nat, session@.queue_nanos));
    QueueListing::Page(QueuePage { titles, durations, description })
}

} // verus!
