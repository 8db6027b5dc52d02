use sympho::commands::{current, leave, loop_mode, progress_text, stop, volume, LoopMode};
use sympho::events::{track_ended, track_started};
use sympho::play::playing;
use sympho::session::QueueError;
use sympho::store::SymphoGlobal;
use sympho::time::Duration;
use sympho::track::TrackSympho;

fn t(name: &str, secs: u64) -> TrackSympho {
    TrackSympho {
        url: format!("https://example.com/{}", name),
        title: name.to_string(),
        thumb: None,
        duration: Duration::from_secs(secs),
    }
}

fn busy() -> SymphoGlobal<u32> {
    let mut global: SymphoGlobal<u32> = SymphoGlobal::new();
    global.get_or_create(1).extend(vec![t("a", 1), t("b", 2)]);
    playing(&mut global, 1, 11, t("now", 9));
    global.get_or_create(2).extend(vec![t("x", 4)]);
    playing(&mut global, 2, 22, t("other", 8));
    global
}

#[test]
fn stop_empties_the_session_and_hands_back_what_played() {
    let mut global = busy();
    assert_eq!(volume(&mut global, 1, 500), Ok(()));
    assert_eq!(stop(&mut global, 1), Some((11, t("now", 9))));
    let session = global.get(1).unwrap();
    assert!(session.current().is_none());
    assert!(session.queue().is_empty());
    assert_eq!(session.queue_duration(), Duration::zero());
    assert_eq!(session.volume(), 500);
    assert_eq!(stop(&mut global, 1), None);
}

#[test]
fn stop_leaves_the_other_sessions() {
    let mut global = busy();
    stop(&mut global, 1);
    let other = global.get(2).unwrap();
    assert_eq!(other.current(), Some(&(22, t("other", 8))));
    assert_eq!(other.queue().clone(), vec![t("x", 4)]);
    assert_eq!(other.queue_duration(), Duration::from_secs(4));
}

#[test]
fn leave_empties_the_session_and_keeps_it() {
    let mut global = busy();
    assert_eq!(leave(&mut global, 2), Some((22, t("other", 8))));
    assert!(global.contains(2));
    assert!(global.get(2).unwrap().queue().is_empty());
    assert!(global.get(2).unwrap().current().is_none());
    assert_eq!(global.len(), 2);
}

#[test]
fn volume_is_kept_per_session() {
    let mut global = busy();
    assert_eq!(volume(&mut global, 1, 128), Ok(()));
    assert_eq!(global.get(1).unwrap().volume(), 128);
    assert_eq!(global.get(2).unwrap().volume(), 1000);
    assert_eq!(volume(&mut global, 1, 0), Err(QueueError::VolumeOutOfRange));
    assert_eq!(volume(&mut global, 1, 1001), Err(QueueError::VolumeOutOfRange));
    assert_eq!(global.get(1).unwrap().volume(), 128);
    assert_eq!(global.get(1).unwrap().queue().len(), 2);
    assert_eq!(global.get(1).unwrap().current(), Some(&(11, t("now", 9))));
}

#[test]
fn a_started_track_gets_the_gain_of_its_session() {
    let mut global = busy();
    volume(&mut global, 1, 42).unwrap();
    assert_eq!(track_started(&global, 1), 42);
    assert_eq!(track_started(&global, 2), 1000);
    assert_eq!(track_started(&global, 99), 1000);
}

#[test]
fn current_shows_what_plays() {
    let global = busy();
    assert_eq!(current(&global, 1), Some(&(11, t("now", 9))));
    assert_eq!(current(&global, 3), None);
    let mut idle = busy();
    stop(&mut idle, 1);
    assert_eq!(current(&idle, 1), None);
}

#[test]
fn loop_mode_reads_on_and_off() {
    assert_eq!(loop_mode("on"), Some(LoopMode::On));
    assert_eq!(loop_mode("off"), Some(LoopMode::Off));
    assert_eq!(loop_mode("ON"), None);
    assert_eq!(loop_mode(""), None);
    assert_eq!(loop_mode("offf"), None);
}

#[test]
fn progress_text_writes_position_and_length() {
    assert_eq!(
        progress_text(Some(Duration::from_secs(75)), Some(Duration::from_secs(3723))),
        "00:01:15 / 01:02:03"
    );
    assert_eq!(progress_text(None, Some(Duration::from_secs(1))), "Unknown / 00:00:01");
    assert_eq!(progress_text(Some(Duration::zero()), None), "00:00:00 / Unknown");
    assert_eq!(progress_text(None, None), "Unknown / Unknown");
}

#[test]
fn empty_queue_idle_transition() {
    let mut global: SymphoGlobal<u32> = SymphoGlobal::new();
    playing(&mut global, 1, 5, t("T", 3));
    let (finished, next) = track_ended(&mut global, 1);
    assert_eq!(finished, Some((5, t("T", 3))));
    assert_eq!(next, None);
    let session = global.get(1).unwrap();
    assert!(session.current().is_none());
    assert!(session.queue().is_empty());
    assert_eq!(session.queue_duration(), Duration::zero());
}

#[test]
fn track_ended_takes_the_head_even_if_nothing_played() {
    let mut global: SymphoGlobal<u32> = SymphoGlobal::new();
    global.get_or_create(1).extend(vec![t("a", 1), t("b", 2)]);
    let (finished, next) = track_ended(&mut global, 1);
    assert_eq!(finished, None);
    assert_eq!(next, Some(t("a", 1)));
    assert_eq!(global.get(1).unwrap().queue().clone(), vec![t("b", 2)]);
    assert_eq!(global.get(1).unwrap().queue_duration(), Duration::from_secs(2));
    assert!(global.get(1).unwrap().current().is_none());
}

#[test]
fn track_ended_leaves_the_other_sessions() {
    let mut global = busy();
    track_ended(&mut global, 1);
    assert_eq!(global.get(2).unwrap().current(), Some(&(22, t("other", 8))));
    assert_eq!(global.get(2).unwrap().queue().len(), 1);
}

#[test]
fn a_store_makes_sessions_on_first_access() {
    let mut global: SymphoGlobal<u32> = SymphoGlobal::new();
    assert_eq!(global.len(), 0);
    assert!(!global.contains(1));
    assert!(global.get(1).is_none());
    assert!(global.get_or_create(1).queue().is_empty());
    assert!(global.contains(1));
    global.get_or_create(1).push(t("a", 1));
    assert_eq!(global.get_or_create(1).queue().len(), 1);
    assert_eq!(global.len(), 1);
}
