use musicbot::audio::{QueuedTrack, SourceType, TrackMetadata};
use musicbot::queue::{queue_index, GuildQueue, LoopMode};
use musicbot::BotError;
use serenity::model::id::UserId;

fn metadata(name: &str) -> TrackMetadata {
    TrackMetadata {
        title: name.into(),
        duration: None,
        duration_secs: None,
        url: format!("https://youtube.com/watch?v={name}"),
        thumbnail_url: None,
        source_type: SourceType::YouTube,
    }
}

fn make_track(name: &str) -> QueuedTrack {
    QueuedTrack::new(metadata(name), name.into(), UserId::new(1))
}

fn titles(q: &GuildQueue) -> Vec<String> {
    q.list().iter().map(|t| t.metadata.title.clone()).collect()
}

#[test]
fn enqueue_dequeue_order() {
    let mut q = GuildQueue::default();
    q.enqueue(make_track("a"));
    q.enqueue(make_track("b"));
    q.enqueue(make_track("c"));

    assert_eq!(q.dequeue().unwrap().metadata.title, "a");
    assert_eq!(q.dequeue().unwrap().metadata.title, "b");
    assert_eq!(q.dequeue().unwrap().metadata.title, "c");
    assert!(q.dequeue().is_none());
}

#[test]
fn skip_returns_front() {
    let mut q = GuildQueue::default();
    q.enqueue(make_track("first"));
    q.enqueue(make_track("second"));

    let skipped = q.skip().unwrap();
    assert_eq!(skipped.metadata.title, "first");
    assert_eq!(q.len(), 1);
}

#[test]
fn skip_empty_returns_none() {
    let mut q = GuildQueue::default();
    assert!(q.skip().is_none());
}

#[test]
fn shuffle_preserves_length() {
    let mut q = GuildQueue::default();
    for i in 0..10 {
        q.enqueue(make_track(&format!("track{i}")));
    }
    q.shuffle();
    assert_eq!(q.len(), 10);
}

#[test]
fn shuffle_empty_does_not_panic() {
    let mut q = GuildQueue::default();
    q.shuffle();
    assert!(q.is_empty());
}

#[test]
fn shuffle_single_item() {
    let mut q = GuildQueue::default();
    q.enqueue(make_track("only"));
    q.shuffle();
    assert_eq!(q.len(), 1);
    assert_eq!(q.peek_next().unwrap().metadata.title, "only");
}

#[test]
fn remove_valid_index() {
    let mut q = GuildQueue::default();
    q.enqueue(make_track("a"));
    q.enqueue(make_track("b"));
    q.enqueue(make_track("c"));

    let removed = q.remove(1).unwrap();
    assert_eq!(removed.metadata.title, "b");
    assert_eq!(q.len(), 2);
}

#[test]
fn remove_invalid_index() {
    let mut q = GuildQueue::default();
    q.enqueue(make_track("a"));
    assert!(q.remove(5).is_none());
}

#[test]
fn clear_empties_queue() {
    let mut q = GuildQueue::default();
    q.enqueue(make_track("a"));
    q.enqueue(make_track("b"));
    q.clear();
    assert!(q.is_empty());
    assert_eq!(q.len(), 0);
}

#[test]
fn peek_next_does_not_remove() {
    let mut q = GuildQueue::default();
    q.enqueue(make_track("a"));
    assert!(q.peek_next().is_some());
    assert_eq!(q.len(), 1);
}

#[test]
fn enqueue_front_adds_to_beginning() {
    let mut q = GuildQueue::default();
    q.enqueue(make_track("a"));
    q.enqueue(make_track("b"));
    q.enqueue_front(make_track("front"));
    assert_eq!(q.peek_next().unwrap().metadata.title, "front");
}

#[test]
fn loop_mode_cycle() {
    assert_eq!(LoopMode::Off.cycle(), LoopMode::Single);
    assert_eq!(LoopMode::Single.cycle(), LoopMode::Queue);
    assert_eq!(LoopMode::Queue.cycle(), LoopMode::Off);
}

#[test]
fn loop_mode_display_names() {
    assert_eq!(LoopMode::Off.display_name(), "Off");
    assert_eq!(LoopMode::Single.display_name(), "Single");
    assert_eq!(LoopMode::Queue.display_name(), "Queue");
}

#[test]
fn loop_mode_defaults_to_off() {
    assert_eq!(LoopMode::default(), LoopMode::Off);
    assert_eq!(GuildQueue::default().loop_mode, LoopMode::Off);
}

#[test]
fn cycling_three_times_returns_to_start() {
    for m in [LoopMode::Off, LoopMode::Single, LoopMode::Queue] {
        assert_ne!(m.cycle(), m);
        assert_eq!(m.cycle().cycle().cycle(), m);
    }
}

#[test]
fn loop_choice_by_name_or_cycle() {
    assert_eq!(LoopMode::from_choice(Some("off"), LoopMode::Queue), LoopMode::Off);
    assert_eq!(LoopMode::from_choice(Some("single"), LoopMode::Off), LoopMode::Single);
    assert_eq!(LoopMode::from_choice(Some("queue"), LoopMode::Off), LoopMode::Queue);
    assert_eq!(LoopMode::from_choice(Some("Queue"), LoopMode::Off), LoopMode::Single);
    assert_eq!(LoopMode::from_choice(None, LoopMode::Single), LoopMode::Queue);
    assert_eq!(LoopMode::from_choice(Some("sometimes"), LoopMode::Queue), LoopMode::Off);
}

#[test]
fn queue_keeps_first_in_first_out_after_mixing() {
    let mut q = GuildQueue::default();
    q.enqueue(make_track("a"));
    assert_eq!(q.dequeue().unwrap().metadata.title, "a");
    q.enqueue(make_track("b"));
    q.enqueue(make_track("c"));
    assert_eq!(q.dequeue().unwrap().metadata.title, "b");
    q.enqueue(make_track("d"));
    assert_eq!(titles(&q), vec!["c", "d"]);
}

#[test]
fn enqueue_front_then_dequeue_restores_queue() {
    let mut q = GuildQueue::default();
    q.enqueue(make_track("a"));
    q.enqueue(make_track("b"));
    q.enqueue_front(make_track("x"));
    assert_eq!(q.dequeue().unwrap().metadata.title, "x");
    assert_eq!(titles(&q), vec!["a", "b"]);
}

#[test]
fn shuffle_keeps_the_same_tracks() {
    let mut q = GuildQueue::default();
    for i in 0..20 {
        q.enqueue(make_track(&format!("t{i:02}")));
    }
    q.loop_mode = LoopMode::Queue;
    q.shuffle();
    let mut got = titles(&q);
    got.sort();
    let want: Vec<String> = (0..20).map(|i| format!("t{i:02}")).collect();
    assert_eq!(got, want);
    assert_eq!(q.loop_mode, LoopMode::Queue);
}

#[test]
fn remove_keeps_the_others_in_order() {
    let mut q = GuildQueue::default();
    for n in ["a", "b", "c", "d"] {
        q.enqueue(make_track(n));
    }
    assert_eq!(q.remove(0).unwrap().metadata.title, "a");
    assert_eq!(q.remove(2).unwrap().metadata.title, "d");
    assert_eq!(titles(&q), vec!["b", "c"]);
    assert!(q.remove(2).is_none());
    assert_eq!(titles(&q), vec!["b", "c"]);
}

#[test]
fn positions_are_one_based() {
    assert!(matches!(queue_index(0), Err(BotError::InvalidIndex(0))));
    assert_eq!(queue_index(1).unwrap(), 0);
    assert_eq!(queue_index(7).unwrap(), 6);
}

#[test]
fn remove_at_reports_the_position() {
    let mut q = GuildQueue::default();
    q.enqueue(make_track("a"));
    q.enqueue(make_track("b"));
    assert_eq!(q.remove_at(1).unwrap().metadata.title, "b");
    assert!(matches!(q.remove_at(4), Err(BotError::InvalidIndex(5))));
    assert_eq!(titles(&q), vec!["a"]);
}

#[test]
fn single_mode_replays_the_finished_track() {
    let mut q = GuildQueue::default();
    q.enqueue(make_track("next"));
    q.loop_mode = LoopMode::Single;
    q.requeue_finished(metadata("done"), "done".into(), UserId::new(1));
    assert_eq!(titles(&q), vec!["done", "next"]);
    assert_eq!(q.dequeue().unwrap().metadata.title, "done");
}

#[test]
fn queue_mode_puts_the_finished_track_last() {
    let mut q = GuildQueue::default();
    q.enqueue(make_track("next"));
    q.loop_mode = LoopMode::Queue;
    q.requeue_finished(metadata("done"), "done".into(), UserId::new(2));
    assert_eq!(titles(&q), vec!["next", "done"]);
    assert_eq!(q.list()[1].requested_by, UserId::new(2));
}

#[test]
fn off_mode_drops_the_finished_track() {
    let mut q = GuildQueue::default();
    q.enqueue(make_track("next"));
    q.requeue_finished(metadata("done"), "done".into(), UserId::new(1));
    assert_eq!(titles(&q), vec!["next"]);
}
