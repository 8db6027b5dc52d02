use sympho::request::{request_for, YoutubeDl, ENQUEUE_TIMEOUT};
use sympho::search::SearchOptions;

#[test]
fn a_new_request_says_nothing_but_the_url() {
    let r = YoutubeDl::new("https://www.youtube.com/watch?v=7XGyWcuYVrg");
    assert_eq!(r.url(), "https://www.youtube.com/watch?v=7XGyWcuYVrg");
    assert_eq!(r.path(), &None);
    assert_eq!(r.wanted_format(), &None);
    assert_eq!(r.is_flat_playlist(), None);
    assert_eq!(r.timeout(), None);
    assert_eq!(r.credentials(), &None);
    assert_eq!(r.cookie_file(), &None);
}

#[test]
fn each_setter_sets_its_own_option() {
    let r = YoutubeDl::new("u")
        .youtube_dl_path("/usr/local/bin/youtube-dl")
        .format("bestaudio")
        .flat_playlist(false)
        .socket_timeout(15)
        .auth("Hello", "World")
        .cookies("cookies.txt");
    assert_eq!(r.url(), "u");
    assert_eq!(r.path(), &Some("/usr/local/bin/youtube-dl".to_string()));
    assert_eq!(r.wanted_format(), &Some("bestaudio".to_string()));
    assert_eq!(r.is_flat_playlist(), Some(false));
    assert_eq!(r.timeout(), Some(15));
    assert_eq!(r.credentials(), &Some(("Hello".to_string(), "World".to_string())));
    assert_eq!(r.cookie_file(), &Some("cookies.txt".to_string()));
}

#[test]
fn a_later_setting_replaces_an_earlier_one() {
    let r = YoutubeDl::new("u").socket_timeout(15).flat_playlist(true).socket_timeout(-1);
    assert_eq!(r.timeout(), Some(-1));
    assert_eq!(r.is_flat_playlist(), Some(true));
    assert_eq!(r, YoutubeDl::new("u").flat_playlist(true).socket_timeout(-1));
}

#[test]
fn a_search_is_requested_by_its_text() {
    let r = YoutubeDl::search_for(&SearchOptions::youtube("Never Gonna Give You Up"));
    assert_eq!(r.url(), "ytsearch1:Never Gonna Give You Up");
    assert_eq!(r, YoutubeDl::new("ytsearch1:Never Gonna Give You Up"));
    let many = YoutubeDl::search_for(&SearchOptions::soundcloud("x").with_count(15));
    assert_eq!(many.url(), "scsearch15:x");
}

#[test]
fn an_enqueue_asks_for_a_flat_playlist_and_does_not_wait_long() {
    let r = request_for("https://www.youtube.com/playlist?list=PL1");
    assert_eq!(r.url(), "https://www.youtube.com/playlist?list=PL1");
    assert_eq!(r.is_flat_playlist(), Some(true));
    assert_eq!(r.timeout(), Some(3));
    assert_eq!(ENQUEUE_TIMEOUT, 3);
    assert_eq!(r.path(), &None);
    assert_eq!(r.wanted_format(), &None);
    assert_eq!(r.credentials(), &None);
    assert_eq!(r.cookie_file(), &None);
}
