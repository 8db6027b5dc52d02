use sympho::session::{QueueError, SymphoData};
use sympho::time::Duration;
use sympho::track::TrackSympho;

fn track(name: &str, secs: u64) -> TrackSympho {
    TrackSympho {
        url: format!("https://example.com/{}", name),
        title: name.to_string(),
        thumb: None,
        duration: Duration::from_secs(secs),
    }
}

fn session_of(tracks: Vec<TrackSympho>) -> SymphoData<u32> {
    let mut session: SymphoData<u32> = SymphoData::new();
    assert_eq!(session.extend(tracks.clone()), tracks.len());
    session
}

#[test]
fn new_session_is_idle_and_empty() {
    let session: SymphoData<u32> = SymphoData::new();
    assert!(session.current().is_none());
    assert!(session.queue().is_empty());
    assert_eq!(session.queue_duration(), Duration::zero());
    assert_eq!(session.volume(), 1000);
}

#[test]
fn default_session_is_a_new_one() {
    let session: SymphoData<u32> = SymphoData::default();
    assert!(session.current().is_none());
    assert!(session.queue().is_empty());
    assert_eq!(session.volume(), 1000);
}

#[test]
fn push_adds_the_running_time() {
    let mut session: SymphoData<u32> = SymphoData::new();
    assert!(session.push(track("a", 3)));
    assert!(session.push(track("b", 4)));
    assert_eq!(session.queue().len(), 2);
    assert_eq!(session.queue()[0], track("a", 3));
    assert_eq!(session.queue()[1], track("b", 4));
    assert_eq!(session.queue_duration(), Duration::from_secs(7));
}

#[test]
fn push_refuses_what_the_total_cannot_hold() {
    let mut session: SymphoData<u32> = SymphoData::new();
    assert!(session.push(track("long", u64::MAX)));
    assert!(!session.push(track("one more", 1)));
    assert_eq!(session.queue().len(), 1);
    assert_eq!(session.queue_duration(), Duration::from_secs(u64::MAX));
    assert!(session.push(track("unknown", 0)));
    assert_eq!(session.queue().len(), 2);
}

#[test]
fn extend_takes_a_batch_whole_or_not_at_all() {
    let mut session = session_of(vec![track("a", 1)]);
    assert_eq!(session.extend(vec![track("b", 2), track("c", u64::MAX)]), 0);
    assert_eq!(session.queue().len(), 1);
    assert_eq!(session.queue_duration(), Duration::from_secs(1));
    assert_eq!(session.extend(vec![track("b", 2), track("c", 3)]), 2);
    assert_eq!(session.queue().len(), 3);
    assert_eq!(session.queue_duration(), Duration::from_secs(6));
    assert_eq!(session.extend(Vec::new()), 0);
    assert_eq!(session.queue().len(), 3);
}

#[test]
fn advance_takes_the_head_when_idle() {
    let mut session = session_of(vec![track("a", 5), track("b", 7)]);
    assert_eq!(session.advance(), Some(track("a", 5)));
    assert_eq!(session.queue().len(), 1);
    assert_eq!(session.queue()[0], track("b", 7));
    assert_eq!(session.queue_duration(), Duration::from_secs(7));
    assert!(session.current().is_none());
}

#[test]
fn advance_changes_nothing_while_a_track_plays() {
    let mut session = session_of(vec![track("a", 5), track("b", 7)]);
    assert!(session.start(1, track("now", 9)).is_none());
    assert_eq!(session.advance(), None);
    assert_eq!(session.queue().len(), 2);
    assert_eq!(session.queue_duration(), Duration::from_secs(12));
    assert_eq!(session.current(), Some(&(1, track("now", 9))));
}

#[test]
fn advance_changes_nothing_on_an_empty_queue() {
    let mut session: SymphoData<u32> = SymphoData::new();
    assert_eq!(session.advance(), None);
    assert!(session.current().is_none());
    assert_eq!(session.queue_duration(), Duration::zero());
}

#[test]
fn start_hands_back_what_played() {
    let mut session: SymphoData<u32> = SymphoData::new();
    assert_eq!(session.start(1, track("a", 1)), None);
    assert_eq!(session.start(2, track("b", 2)), Some((1, track("a", 1))));
    assert_eq!(session.current(), Some(&(2, track("b", 2))));
}

#[test]
fn stop_current_leaves_the_queue() {
    let mut session = session_of(vec![track("a", 5)]);
    session.start(4, track("now", 1));
    assert_eq!(session.stop_current(), Some((4, track("now", 1))));
    assert!(session.current().is_none());
    assert_eq!(session.queue().len(), 1);
    assert_eq!(session.queue_duration(), Duration::from_secs(5));
    assert_eq!(session.stop_current(), None);
}

#[test]
fn clear_empties_the_session_and_keeps_the_gain() {
    let mut session = session_of(vec![track("a", 5), track("b", 6)]);
    session.start(4, track("now", 1));
    assert_eq!(session.set_volume(250), Ok(()));
    assert_eq!(session.clear(), Some((4, track("now", 1))));
    assert!(session.current().is_none());
    assert!(session.queue().is_empty());
    assert_eq!(session.queue_duration(), Duration::zero());
    assert_eq!(session.volume(), 250);
}

#[test]
fn remove_range_takes_the_positions_out() {
    let mut session = session_of(vec![
        track("a", 1),
        track("b", 2),
        track("c", 4),
        track("d", 8),
        track("e", 16),
    ]);
    assert_eq!(session.remove_range(2, 4), Ok(vec![track("b", 2), track("c", 4), track("d", 8)]));
    assert_eq!(session.queue().clone(), vec![track("a", 1), track("e", 16)]);
    assert_eq!(session.queue_duration(), Duration::from_secs(17));
    assert_eq!(session.remove_range(1, 3), Err(QueueError::IndexOutOfRange));
    assert_eq!(session.remove_range(0, 1), Err(QueueError::IndexOutOfRange));
    assert_eq!(session.remove_range(2, 1), Err(QueueError::IndexOutOfRange));
    assert_eq!(session.queue().len(), 2);
    assert_eq!(session.remove_range(1, 2), Ok(vec![track("a", 1), track("e", 16)]));
    assert_eq!(session.queue_duration(), Duration::zero());
}

#[test]
fn set_volume_takes_gains_in_range_only() {
    let mut session: SymphoData<u32> = SymphoData::new();
    assert_eq!(session.set_volume(1), Ok(()));
    assert_eq!(session.volume(), 1);
    assert_eq!(session.set_volume(1000), Ok(()));
    assert_eq!(session.volume(), 1000);
    assert_eq!(session.set_volume(128), Ok(()));
    assert_eq!(session.set_volume(0), Err(QueueError::VolumeOutOfRange));
    assert_eq!(session.set_volume(1001), Err(QueueError::VolumeOutOfRange));
    assert_eq!(session.volume(), 128);
}

#[test]
fn track_ended_with_an_empty_queue_leaves_the_session_idle() {
    let mut session: SymphoData<u32> = SymphoData::new();
    session.start(7, track("t", 3));
    let (finished, next) = session.track_ended();
    assert_eq!(finished, Some((7, track("t", 3))));
    assert_eq!(next, None);
    assert!(session.current().is_none());
    assert!(session.queue().is_empty());
    assert_eq!(session.queue_duration(), Duration::zero());
}

#[test]
fn a_clone_of_a_track_is_the_track() {
    let t = TrackSympho {
        url: "u".to_string(),
        title: "t".to_string(),
        thumb: Some("p".to_string()),
        duration: Duration::new(1, 5),
    };
    assert_eq!(t.clone(), t);
}

#[test]
fn an_unresolved_track_is_untitled_and_of_length_zero() {
    let t = TrackSympho::unresolved("https://example.com/a.mp3".to_string());
    assert_eq!(t.url, "https://example.com/a.mp3");
    assert_eq!(t.title, "Unknown");
    assert_eq!(t.thumb, None);
    assert_eq!(t.duration, Duration::zero());
}
