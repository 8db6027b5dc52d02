//! Searches, as the resolver takes them in place of a URL.

use crate::text::{decimal, decimal_text};
use vstd::prelude::*;
use vstd::string::StringExecFns;

verus! {

/// Where a search looks.
#[derive(Debug, PartialEq, Eq)]
pub enum SearchType {
    /// On youtube.com.
    Youtube,
    /// With Yahoo's video search.
    Yahoo,
    /// With Google's video search.
    Google,
    /// On SoundCloud.
    SoundCloud,
    /// With the search of this name, for what the resolver has learnt since.
    Custom(String),
}

/// A search: where to look, what for, and how many results to take at most.
#[derive(Debug, PartialEq, Eq)]
pub struct SearchOptions {
    search_type: SearchType,
    count: usize,
    query: String,
}

/// A search as plain values.
pub struct SearchView {
    /// What the resolver calls the place to look in.
    pub prefix: Seq<char>,
    pub count: nat,
    pub query: Seq<char>,
}

impl SearchType {
    /// What the resolver calls this place to look in.
    pub open spec fn prefix(self) -> Seq<char> {
        match self {
            SearchType::Youtube => "ytsearch"@,
            SearchType::Yahoo => "yvsearch"@,
            SearchType::Google => "gvsearch"@,
            SearchType::SoundCloud => "scsearch"@,
            SearchType::Custom(name) => name@,
        }
    }

    /// What the resolver calls this place to look in.
    pub fn to_string(&self) -> (text: String)
        ensures
            text@ == self.prefix(),
    {
        match self {
            SearchType::Youtube => "ytsearch".to_owned(),
            SearchType::Yahoo => "yvsearch".to_owned(),
            SearchType::Google => "gvsearch".to_owned(),
            SearchType::SoundCloud => "scsearch".to_owned(),
            SearchType::Custom(name) => name.clone(),
        }
    }
}

impl Clone for SearchType {
    fn clone(&self) -> (copy: SearchType)
        ensures
            copy == *self,
    {
        match self {
            SearchType::Youtube => SearchType::Youtube,
            SearchType::Yahoo => SearchType::Yahoo,
            SearchType::Google => SearchType::Google,
            SearchType::SoundCloud => SearchType::SoundCloud,
            SearchType::Custom(name) => SearchType::Custom(name.clone()),
        }
    }
}

impl View for SearchOptions {
    type V = SearchView;

    closed spec fn view(&self) -> SearchView {
        SearchView {
            prefix: self.search_type.prefix(),
            count: self.count as nat,
            query: self.query@,
        }
    }
}

impl Clone for SearchOptions {
    fn clone(&self) -> (copy: SearchOptions)
        ensures
            copy == *self,
    {
        SearchOptions {
            search_type: self.search_type.clone(),
            count: self.count,
            query: self.query.clone(),
        }
    }
}

/// A search as the resolver reads it: the place, the count, a colon, and
/// what is looked for.
pub open spec fn search_text(search: SearchView) -> Seq<char> {
    search.prefix + decimal(search.count) + ":"@ + search.query
}

impl SearchOptions {
    /// A search on youtube.com for one result.
    pub fn youtube(query: &str) -> (search: SearchOptions)
        ensures
            search@ == (SearchView { prefix: "ytsearch"@, count: 1, query: query@ }),
    {
        SearchOptions { query: query.to_owned(), search_type: SearchType::Youtube, count: 1 }
    }

    /// A search with Google's video search for one result.
    pub fn google(query: &str) -> (search: SearchOptions)
        ensures
            search@ == (SearchView { prefix: "gvsearch"@, count: 1, query: query@ }),
    {
        SearchOptions { query: query.to_owned(), search_type: SearchType::Google, count: 1 }
    }

    /// A search with Yahoo's video search for one result.
    pub fn yahoo(query: &str) -> (search: SearchOptions)
        ensures
            search@ == (SearchView { prefix: "yvsearch"@, count: 1, query: query@ }),
    {
        SearchOptions { query: query.to_owned(), search_type: SearchType::Yahoo, count: 1 }
    }

    /// A search on SoundCloud for one result.
    pub fn soundcloud(query: &str) -> (search: SearchOptions)
        ensures
            search@ == (SearchView { prefix: "scsearch"@, count: 1, query: query@ }),
    {
        SearchOptions { query: query.to_owned(), search_type: SearchType::SoundCloud, count: 1 }
    }

    /// A search for one result with the search that the resolver calls
    /// `search_type`.
    pub fn custom(search_type: &str, query: &str) -> (search: SearchOptions)
        ensures
            search@ == (SearchView { prefix: search_type@, count: 1, query: query@ }),
    {
        SearchOptions {
            query: query.to_owned(),
            search_type: SearchType::Custom(search_type.to_owned()),
            count: 1,
        }
    }

    /// The same search for at most `count` results.
    pub fn with_count(self, count: usize) -> (search: SearchOptions)
        ensures
            search@ == (SearchView { count: count as nat, ..self@ }),
    {
        SearchOptions { search_type: self.search_type, query: self.query, count }
    }

    /// The search as the resolver reads it, such as `ytsearch5:some words`.
    pub fn to_string(&self) -> (text: String)
        ensures
            text@ == search_text(self@),
    {
        let text = self.search_type.to_string().concat(
            decimal_text(self.count as u64).as_str(),
        ).concat(":").concat(self.query.as_str());
        assert(text@ =~= search_text(self@));
        text
    }
}

} // verus!
