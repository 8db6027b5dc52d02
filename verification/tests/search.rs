use sympho::search::{SearchOptions, SearchType};

#[test]
fn a_search_is_written_as_the_resolver_reads_it() {
    assert_eq!(
        SearchOptions::youtube("Never Gonna Give You Up").to_string(),
        "ytsearch1:Never Gonna Give You Up"
    );
    assert_eq!(SearchOptions::google("a b").to_string(), "gvsearch1:a b");
    assert_eq!(SearchOptions::yahoo("a").to_string(), "yvsearch1:a");
    assert_eq!(SearchOptions::soundcloud("").to_string(), "scsearch1:");
    assert_eq!(SearchOptions::custom("bilisearch", "q").to_string(), "bilisearch1:q");
}

#[test]
fn with_count_sets_the_count_only() {
    assert_eq!(SearchOptions::youtube("x").with_count(15).to_string(), "ytsearch15:x");
    assert_eq!(SearchOptions::custom("s", "q").with_count(0).to_string(), "s0:q");
    assert_eq!(
        SearchOptions::google("x").with_count(3).with_count(120).to_string(),
        "gvsearch120:x"
    );
}

#[test]
fn search_types_have_their_names() {
    assert_eq!(SearchType::Youtube.to_string(), "ytsearch");
    assert_eq!(SearchType::Yahoo.to_string(), "yvsearch");
    assert_eq!(SearchType::Google.to_string(), "gvsearch");
    assert_eq!(SearchType::SoundCloud.to_string(), "scsearch");
    assert_eq!(SearchType::Custom("mine".to_string()).to_string(), "mine");
}

#[test]
fn a_clone_of_a_search_is_the_search() {
    let s = SearchOptions::custom("s", "q").with_count(4);
    assert_eq!(s.clone(), s);
    assert_eq!(SearchType::Custom("x".to_string()).clone(), SearchType::Custom("x".to_string()));
}
