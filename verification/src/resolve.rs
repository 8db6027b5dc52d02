//! What a resolver reports of a reference, and the tracks it stands for.

use crate::time::Duration;
use crate::track::{TrackSympho, TrackView, views};
use std::path::Path;
use url::Url;
use vstd::prelude::*;
use vstd::string::StringExecFns;

verus! {

/// What is put before the id of a playlist entry to make the address of its
/// page.
pub const WATCH_PREFIX: &'static str = "https://www.youtube.com/watch?v=";

/// One item as a resolver reports it.
#[derive(Debug, PartialEq, Eq)]
pub struct SingleVideo {
    pub title: String,
    /// In a playlist, the id of the entry; absent where the resolver found none.
    pub url: Option<String>,
    /// The address of the item's own page.
    pub webpage_url: Option<String>,
    pub thumbnail: Option<String>,
    /// The running time, where the resolver knows it.
    pub duration: Option<Duration>,
}

/// A list of items as a resolver reports it.
#[derive(Debug, PartialEq, Eq)]
pub struct Playlist {
    pub entries: Option<Vec<SingleVideo>>,
}

/// What a resolver makes of a reference: one item, or a list of them.
#[derive(Debug, PartialEq, Eq)]
pub enum YoutubeDlOutput {
    Playlist(Box<Playlist>),
    SingleVideo(Box<SingleVideo>),
}

/// The path of the URL that `input` is, as `url::Url` reads it; `None` where
/// `input` is no absolute URL.
pub uninterp spec fn url_path(input: Seq<char>) -> Option<Seq<char>>;

/// The extension of the file that `path` names, as `std::path::Path` reads it;
/// `None` where it names no file or the file's name has none.
pub uninterp spec fn path_extension(path: Seq<char>) -> Option<Seq<char>>;

/// A text that may be absent, as plain values.
pub open spec fn text_view(text: Option<String>) -> Option<Seq<char>> {
    match text {
        Some(t) => Some(t@),
        None => None,
    }
}

/// Whether a reference is played as it is, without asking a resolver, given
/// the path of its URL and the extension found in that path: it is, unless it
/// is a URL whose path names nothing with an extension.
pub open spec fn file_verdict(path: Option<Seq<char>>, extension: Option<Seq<char>>) -> bool {
    path is None || extension is Some
}

/// Whether the reference `url` is played as it is.
pub open spec fn is_file_reference(url: Seq<char>) -> bool {
    match url_path(url) {
        Some(path) => file_verdict(Some(path), path_extension(path)),
        None => file_verdict(None, None),
    }
}

/// The running time of an item in nanoseconds; zero where it is not known.
pub open spec fn known_nanos(duration: Option<Duration>) -> nat {
    match duration {
        Some(d) => d.nanos(),
        None => 0,
    }
}

/// The track that a playlist entry stands for; none where the entry has no id.
pub open spec fn entry_track(entry: SingleVideo) -> Option<TrackView> {
    match entry.url {
        Some(id) => if id@.len() > 0 {
            Some(
                TrackView {
                    url: WATCH_PREFIX@ + id@,
                    title: entry.title@,
                    thumb: text_view(entry.thumbnail),
                    nanos: known_nanos(entry.duration),
                },
            )
        } else {
            None
        },
        None => None,
    }
}

/// The track that a single item stands for; none where it has no page.
pub open spec fn video_track(video: SingleVideo) -> Option<TrackView> {
    match video.webpage_url {
        Some(page) => if page@.len() > 0 {
            Some(
                TrackView {
                    url: page@,
                    title: video.title@,
                    thumb: text_view(video.thumbnail),
                    nanos: known_nanos(video.duration),
                },
            )
        } else {
            None
        },
        None => None,
    }
}

/// The tracks that the entries of a playlist stand for, in the order of the
/// entries; entries without an id are left out.
pub open spec fn entry_tracks(entries: Seq<SingleVideo>) -> Seq<TrackView>
    decreases entries.len(),
{
    if entries.len() == 0 {
        Seq::empty()
    } else {
        match entry_track(entries.last()) {
            Some(track) => entry_tracks(entries.drop_last()).push(track),
            None => entry_tracks(entries.drop_last()),
        }
    }
}

/// The tracks that a resolver's report stands for; none where it failed.
pub open spec fn resolved_tracks(output: Option<YoutubeDlOutput>) -> Seq<TrackView> {
    match output {
        Some(YoutubeDlOutput::Playlist(list)) => match list.entries {
            Some(entries) => entry_tracks(entries@),
            None => Seq::empty(),
        },
        Some(YoutubeDlOutput::SingleVideo(video)) => match video_track(*video) {
            Some(track) => seq![track],
            None => Seq::empty(),
        },
        None => Seq::empty(),
    }
}

/// Parses `input` with `url::Url::parse` and hands back what `Url::path`
/// gives for it, or `None` where the parser refuses `input`. The contract
/// only names that result: the grammar of URLs is the parser's.
#[verifier::external_body]
fn parsed_url_path(input: &str) -> (path: Option<String>)
    ensures
        text_view(path) == url_path(input@),
{
    match Url::parse(input) {
        Ok(url) => Some(url.path().to_string()),
        Err(_) => None,
    }
}

/// Hands back what `std::path::Path::extension` gives for `path`. The
/// contract only names that result: how a path splits into a file name and an
/// extension is the standard library's.
#[verifier::external_body]
fn extension_of(path: &str) -> (extension: Option<String>)
    ensures
        text_view(extension) == path_extension(path@),
{
    match Path::new(path).extension() {
        Some(ext) => Some(ext.to_string_lossy().into_owned()),
        None => None,
    }
}

/// Decides from the path of a reference's URL and the extension found in it
/// whether the reference is played as it is.
pub fn is_file(path: &Option<String>, extension: &Option<String>) -> (file: bool)
    ensures
        file == file_verdict(text_view(*path), text_view(*extension)),
{
    path.is_none() || extension.is_some()
}

/// Whether `input` is an absolute URL.
pub fn is_url(input: &str) -> (valid: bool)
    ensures
        valid == url_path(input@) is Some,
{
    parsed_url_path(input).is_some()
}

/// Whether the reference `url` is played as it is, without asking a
/// resolver: it is, unless it is a URL whose path names nothing with an
/// extension.
pub fn is_file_url(url: &str) -> (file: bool)
    ensures
        file == is_file_reference(url@),
{
    let path = parsed_url_path(url);
    let extension = match &path {
        Some(p) => extension_of(p.as_str()),
        None => None,
    };
    is_file(&path, &extension)
}

fn clone_text(text: &Option<String>) -> (copy: Option<String>)
    ensures
        copy == *text,
{
    match text {
        Some(t) => Some(t.clone()),
        None => None,
    }
}

fn known_duration(duration: &Option<Duration>) -> (d: Duration)
    ensures
        d.nanos() == known_nanos(*duration),
{
    match duration {
        Some(d) => *d,
        None => Duration::zero(),
    }
}

/// The track that a playlist entry stands for; none where the entry has no id.
pub fn track_of_entry(entry: &SingleVideo) -> (track: Option<TrackSympho>)
    ensures
        match track {
            Some(t) => entry_track(*entry) == Some(t@),
            None => entry_track(*entry) is None,
        },
{
    match &entry.url {
        Some(id) => {
            if id.as_str().is_empty() {
                None
            } else {
                let url = WATCH_PREFIX.to_owned().concat(id.as_str());
                Some(
                    TrackSympho {
                        url,
                        title: entry.title.clone(),
                        thumb: clone_text(&entry.thumbnail),
                        duration: known_duration(&entry.duration),
                    },
                )
            }
        },
        None => None,
    }
}

/// The track that a single item stands for; none where it has no page.
pub fn track_of_video(video: &SingleVideo) -> (track: Option<TrackSympho>)
    ensures
        match track {
            Some(t) => video_track(*video) == Some(t@),
            None => video_track(*video) is None,
        },
{
    match &video.webpage_url {
        Some(page) => {
            if page.as_str().is_empty() {
                None
            } else {
                Some(
                    TrackSympho {
                        url: page.clone(),
                        title: video.title.clone(),
                        thumb: clone_text(&video.thumbnail),
                        duration: known_duration(&video.duration),
                    },
                )
            }
        },
        None => None,
    }
}

/// The tracks that a resolver's report stands for, in the resolver's order;
/// none where it failed.
pub fn tracks_of(output: &Option<YoutubeDlOutput>) -> (tracks: Vec<TrackSympho>)
    ensures
        views(tracks@) == resolved_tracks(*output),
{
    let mut tracks: Vec<TrackSympho> = Vec::new();
    assert(views(tracks@) =~= Seq::<TrackView>::empty());
    match output {
        Some(YoutubeDlOutput::Playlist(list)) => {
            match &list.entries {
                Some(entries) => {
                    let mut i: usize = 0;
                    assert(entries@.subrange(0, 0) =~= Seq::<SingleVideo>::empty());
                    while i < entries.len()
                        invariant
                            i <= entries.len(),
                            views(tracks@) == entry_tracks(entries@.subrange(0, i as int)),
                        decreases entries.len() - i,
                    {
                        proof {
                            let more = entries@.subrange(0, i + 1);
                            assert(more.drop_last() =~= entries@.subrange(0, i as int));
                            assert(more.last() == entries@[i as int]);
                        }
                        let ghost before = tracks@;
                        match track_of_entry(&entries[i]) {
                            Some(track) => {
                                tracks.push(track);
                                assert(views(tracks@) =~= views(before).push(track@));
                            },
                            None => {},
                        }
                        i = i + 1;
                    }
                    assert(entries@.subrange(0, i as int) =~= entries@);
                },
                None => {},
            }
        },
        Some(YoutubeDlOutput::SingleVideo(video)) => {
            match track_of_video(video) {
                Some(track) => {
                    tracks.push(track);
                    assert(views(tracks@) =~= seq![track@]);
                },
                None => {},
            }
        },
        None => {},
    }
    tracks
}

} // verus!
