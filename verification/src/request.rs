//! What the resolver is asked: a reference or a search, and how to go about it.

use crate::resolve::text_view;
use crate::search::{search_text, SearchOptions};
use vstd::prelude::*;

verus! {

/// How long the resolver may wait on a connection when it is asked what a
/// reference to be enqueued is, in seconds.
pub const ENQUEUE_TIMEOUT: i32 = 3;

/// A request to the resolver.
#[derive(Debug, PartialEq, Eq)]
pub struct YoutubeDl {
    url: String,
    youtube_dl_path: Option<String>,
    format: Option<String>,
    flat_playlist: Option<bool>,
    socket_timeout: Option<i32>,
    auth: Option<(String, String)>,
    cookies: Option<String>,
}

/// A request as plain values.
pub struct RequestView {
    /// What is to be resolved: a URL, or a search as the resolver reads it.
    pub url: Seq<char>,
    /// Where the resolver's program is, if not where it usually is.
    pub youtube_dl_path: Option<Seq<char>>,
    /// Which format to ask for.
    pub format: Option<Seq<char>>,
    /// Whether to list a playlist without resolving its entries.
    pub flat_playlist: Option<bool>,
    /// How long to wait on a connection, in seconds.
    pub socket_timeout: Option<int>,
    /// The user name and the password to log in with.
    pub auth: Option<(Seq<char>, Seq<char>)>,
    /// The file to read cookies from.
    pub cookies: Option<Seq<char>>,
}

/// A request for `url` with nothing else said.
pub open spec fn plain_request(url: Seq<char>) -> RequestView {
    RequestView {
        url,
        youtube_dl_path: None,
        format: None,
        flat_playlist: None,
        socket_timeout: None,
        auth: None,
        cookies: None,
    }
}

/// What the resolver is asked for a reference that is to be enqueued: to
/// list a playlist without resolving its entries, and not to wait long.
pub open spec fn enqueue_request(url: Seq<char>) -> RequestView {
    RequestView {
        flat_playlist: Some(true),
        socket_timeout: Some(ENQUEUE_TIMEOUT as int),
        ..plain_request(url)
    }
}

impl View for YoutubeDl {
    type V = RequestView;

    closed spec fn view(&self) -> RequestView {
        RequestView {
            url: self.url@,
            youtube_dl_path: text_view(self.youtube_dl_path),
            format: text_view(self.format),
            flat_playlist: self.flat_playlist,
            socket_timeout: match self.socket_timeout {
                Some(t) => Some(t as int),
                None => None,
            },
            auth: match self.auth {
                Some(pair) => Some((pair.0@, pair.1@)),
                None => None,
            },
            cookies: text_view(self.cookies),
        }
    }
}

impl YoutubeDl {
    /// A request for `url` with nothing else said.
    pub fn new(url: &str) -> (request: YoutubeDl)
        ensures
            request@ == plain_request(url@),
    {
        YoutubeDl {
            url: url.to_owned(),
            youtube_dl_path: None,
            format: None,
            flat_playlist: None,
            socket_timeout: None,
            auth: None,
            cookies: None,
        }
    }

    /// A request for what a search finds.
    pub fn search_for(options: &SearchOptions) -> (request: YoutubeDl)
        ensures
            request@ == plain_request(search_text(options@)),
    {
        let text = options.to_string();
        YoutubeDl::new(text.as_str())
    }

    /// The same request to the resolver's program at `path`.
    pub fn youtube_dl_path(self, path: &str) -> (request: YoutubeDl)
        ensures
            request@ == (RequestView { youtube_dl_path: Some(path@), ..self@ }),
    {
        YoutubeDl { youtube_dl_path: Some(path.to_owned()), ..self }
    }

    /// The same request for the format `format`.
    pub fn format(self, format: &str) -> (request: YoutubeDl)
        ensures
            request@ == (RequestView { format: Some(format@), ..self@ }),
    {
        YoutubeDl { format: Some(format.to_owned()), ..self }
    }

    /// The same request, listing a playlist without resolving its entries
    /// if `flat_playlist` is set.
    pub fn flat_playlist(self, flat_playlist: bool) -> (request: YoutubeDl)
        ensures
            request@ == (RequestView { flat_playlist: Some(flat_playlist), ..self@ }),
    {
        YoutubeDl { flat_playlist: Some(flat_playlist), ..self }
    }

    /// The same request, waiting `socket_timeout` seconds on a connection at
    /// most.
    pub fn socket_timeout(self, socket_timeout: i32) -> (request: YoutubeDl)
        ensures
            request@ == (RequestView { socket_timeout: Some(socket_timeout as int), ..self@ }),
    {
        YoutubeDl { socket_timeout: Some(socket_timeout), ..self }
    }

    /// The same request, logging in as `username` with `password`.
    pub fn auth(self, username: &str, password: &str) -> (request: YoutubeDl)
        ensures
            request@ == (RequestView { auth: Some((username@, password@)), ..self@ }),
    {
        YoutubeDl { auth: Some((username.to_owned(), password.to_owned())), ..self }
    }

    /// The same request, reading cookies from the file at `cookie_path`.
    pub fn cookies(self, cookie_path: &str) -> (request: YoutubeDl)
        ensures
            request@ == (RequestView { cookies: Some(cookie_path@), ..self@ }),
    {
        YoutubeDl { cookies: Some(cookie_path.to_owned()), ..self }
    }

    /// What is to be resolved.
    pub fn url(&self) -> (url: &String)
        ensures
            url@ == self@.url,
    {
        &self.url
    }

    /// Where the resolver's program is, if that was said.
    pub fn path(&self) -> (path: &Option<String>)
        ensures
            text_view(*path) == self@.youtube_dl_path,
    {
        &self.youtube_dl_path
    }

    /// Which format to ask for, if that was said.
    pub fn wanted_format(&self) -> (format: &Option<String>)
        ensures
            text_view(*format) == self@.format,
    {
        &self.format
    }

    /// Whether to list a playlist without resolving its entries, if that
    /// was said.
    pub fn is_flat_playlist(&self) -> (flat: Option<bool>)
        ensures
            flat == self@.flat_playlist,
    {
        self.flat_playlist
    }

    /// How long to wait on a connection, in seconds, if that was said.
    pub fn timeout(&self) -> (seconds: Option<i32>)
        ensures
            seconds is Some == self@.socket_timeout is Some,
            seconds is Some ==> seconds->0 as int == self@.socket_timeout->0,
    {
        self.socket_timeout
    }

    /// The user name and the password to log in with, if they were said.
    pub fn credentials(&self) -> (auth: &Option<(String, String)>)
        ensures
            match *auth {
                Some(pair) => self@.auth == Some((pair.0@, pair.1@)),
                None => self@.auth is None,
            },
    {
        &self.auth
    }

    /// The file to read cookies from, if that was said.
    pub fn cookie_file(&self) -> (cookies: &Option<String>)
        ensures
            text_view(*cookies) == self@.cookies,
    {
        &self.cookies
    }
}

/// What the resolver is asked for a reference that is to be enqueued.
pub fn request_for(url: &str) -> (request: YoutubeDl)
    ensures
        request@ == enqueue_request(url@),
{
    YoutubeDl::new(url).flat_playlist(true).socket_timeout(ENQUEUE_TIMEOUT)
}

} // verus!
