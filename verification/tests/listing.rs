use sympho::listing::{queue, QueueListing, QueuePage, PAGE_SIZE};
use sympho::store::SymphoGlobal;
use sympho::time::Duration;
use sympho::track::TrackSympho;

fn store_with(n: u64) -> SymphoGlobal<u32> {
    let mut global: SymphoGlobal<u32> = SymphoGlobal::new();
    let tracks: Vec<TrackSympho> = (1..=n)
        .map(|i| TrackSympho {
            url: format!("https://example.com/{}", i),
            title: format!("song {}", i),
            thumb: None,
            duration: Duration::from_secs(60 * i),
        })
        .collect();
    global.get_or_create(1).extend(tracks);
    global
}

fn page(listing: QueueListing) -> QueuePage {
    match listing {
        QueueListing::Page(page) => page,
        other => panic!("no page: {:?}", other),
    }
}

#[test]
fn an_empty_queue_has_nothing_to_list() {
    let global = store_with(0);
    assert_eq!(queue(&global, 1, 0), QueueListing::Empty);
    assert_eq!(queue(&global, 1, 5), QueueListing::Empty);
    assert_eq!(queue(&global, 2, 0), QueueListing::Empty);
}

#[test]
fn a_page_behind_the_queue_lists_nothing() {
    let global = store_with(3);
    assert_eq!(queue(&global, 1, 3), QueueListing::OutOfRange);
    assert_eq!(queue(&global, 1, usize::MAX), QueueListing::OutOfRange);
}

#[test]
fn a_short_queue_is_listed_whole() {
    let global = store_with(2);
    let p = page(queue(&global, 1, 0));
    assert_eq!(
        p.titles,
        "1: [song 1](https://example.com/1)\n2: [song 2](https://example.com/2)\n"
    );
    assert_eq!(p.durations, "1m\n2m\n");
    assert_eq!(p.description, "Queue length: 2\nQueue Duration: 3m");
}

#[test]
fn a_page_lists_ten_tracks_at_most() {
    assert_eq!(PAGE_SIZE, 10);
    let global = store_with(25);
    let first = page(queue(&global, 1, 0));
    assert_eq!(first.titles.lines().count(), 10);
    assert!(first.titles.starts_with("1: [song 1]("));
    assert!(first.titles.ends_with("10: [song 10](https://example.com/10)\n"));
    assert_eq!(first.durations.lines().count(), 10);
    let second = page(queue(&global, 1, 10));
    assert!(second.titles.starts_with("11: [song 11]("));
    assert_eq!(second.titles.lines().count(), 10);
    let last = page(queue(&global, 1, 20));
    assert_eq!(last.titles.lines().count(), 5);
    assert!(last.titles.ends_with("25: [song 25](https://example.com/25)\n"));
    assert_eq!(last.description, "Queue length: 25\nQueue Duration: 5h 25m");
}

#[test]
fn a_page_may_start_anywhere() {
    let global = store_with(12);
    let p = page(queue(&global, 1, 11));
    assert_eq!(p.titles, "12: [song 12](https://example.com/12)\n");
    assert_eq!(p.durations, "12m\n");
    let q = page(queue(&global, 1, 2));
    assert_eq!(q.titles.lines().count(), 10);
    assert!(q.titles.starts_with("3: "));
}

#[test]
fn running_times_are_written_in_words() {
    let mut global: SymphoGlobal<u32> = SymphoGlobal::new();
    global.get_or_create(1).extend(vec![
        TrackSympho {
            url: "u".to_string(),
            title: "t".to_string(),
            thumb: None,
            duration: Duration::new(9420, 0),
        },
        TrackSympho {
            url: "v".to_string(),
            title: "s".to_string(),
            thumb: None,
            duration: Duration::zero(),
        },
        TrackSympho {
            url: "w".to_string(),
            title: "r".to_string(),
            thumb: None,
            duration: Duration::new(0, 32_000_000),
        },
    ]);
    let p = page(queue(&global, 1, 0));
    assert_eq!(p.durations, "2h 37m\n0s\n32ms\n");
    assert_eq!(p.description, "Queue length: 3\nQueue Duration: 2h 37m 32ms");
}
