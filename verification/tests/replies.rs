use musicbot::audio::{QueuedTrack, SourceType, TrackMetadata};
use musicbot::events::{should_echo, voice_tick, TickNote};
use musicbot::replies::{
    cleared_message, failure_report, joined_message, loop_mode_message, now_playing_card,
    now_playing_message, progress_text, queue_listing, queued_message, removed_message,
    shuffled_message, volume_message, account_age_message,
};
use musicbot::{BotError, GuildQueue, LoopMode};
use serenity::model::id::UserId;

fn metadata(name: &str, duration: Option<&str>) -> TrackMetadata {
    TrackMetadata {
        title: name.into(),
        duration: duration.map(|d| d.into()),
        duration_secs: None,
        url: format!("https://youtube.com/watch?v={name}"),
        thumbnail_url: None,
        source_type: SourceType::YouTube,
    }
}

fn queue_of(n: usize) -> GuildQueue {
    let mut q = GuildQueue::default();
    for i in 1..=n {
        q.enqueue(QueuedTrack::new(
            metadata(&format!("t{i}"), Some("1:00")),
            String::new(),
            UserId::new(1),
        ));
    }
    q
}

#[test]
fn empty_listing_is_an_error() {
    let q = GuildQueue::default();
    assert!(matches!(queue_listing(None, &q, None), Err(BotError::QueueEmpty)));
}

#[test]
fn listing_with_only_a_playing_track() {
    let q = GuildQueue::default();
    let cur = metadata("Song", None);
    assert_eq!(
        queue_listing(Some(&cur), &q, None).unwrap(),
        "**Now playing:** Song [?:??]\n\nQueue is empty."
    );
}

#[test]
fn listing_of_a_short_queue() {
    let q = queue_of(2);
    let cur = metadata("Song", Some("2:00"));
    assert_eq!(
        queue_listing(Some(&cur), &q, Some(0)).unwrap(),
        "**Now playing:** Song [2:00]\n\n**Queue** (2 tracks):\n`1.` t1 [1:00]\n`2.` t2 [1:00]"
    );
}

#[test]
fn listing_pages() {
    let q = queue_of(12);
    let page2 = queue_listing(None, &q, Some(2)).unwrap();
    assert_eq!(
        page2,
        "**Queue** (12 tracks):\n`11.` t11 [1:00]\n`12.` t12 [1:00]\n\nPage 2/2"
    );
    let page1 = queue_listing(None, &q, None).unwrap();
    assert!(page1.starts_with("**Queue** (12 tracks):\n`1.` t1 [1:00]"));
    assert!(page1.contains("`10.` t10 [1:00]"));
    assert!(!page1.contains("`11.`"));
    assert!(page1.ends_with("\nPage 1/2"));
    let page9 = queue_listing(None, &q, Some(9)).unwrap();
    assert_eq!(page9, "**Queue** (12 tracks):\n\nPage 9/2");
    let q = queue_of(10);
    assert!(!queue_listing(None, &q, None).unwrap().contains("Page"));
}

#[test]
fn answers_read_as_before() {
    let m = metadata("Song", Some("3:33"));
    assert_eq!(now_playing_message(&m), "Now playing: **Song** [3:33]");
    assert_eq!(queued_message(4, &metadata("X", None)), "Queued at #4: **X** [?:??]");
    assert_eq!(loop_mode_message(LoopMode::Single), "Loop mode: **Single**");
    assert_eq!(cleared_message(3), "Cleared 3 tracks from the queue");
    assert_eq!(shuffled_message(10), "Shuffled 10 tracks.");
    assert_eq!(volume_message(150), "Volume set to **150%**");
    assert_eq!(joined_message(123456789), "Joined <#123456789>");
    let t = QueuedTrack::new(m, String::new(), UserId::new(1));
    assert_eq!(removed_message(&t), "Removed: **Song**");
    assert_eq!(
        account_age_message("ann", "2020/01/02 03:04:05"),
        "ann's account was created at 2020/01/02 03:04:05"
    );
    assert_eq!(failure_report(&BotError::QueueEmpty), "Oopsie... The queue is empty.");
}

#[test]
fn progress_lines() {
    assert_eq!(
        progress_text(Some(5), 53, "3:33"),
        "[=====>---------------] 0:53 / 3:33"
    );
    assert_eq!(progress_text(Some(20), 300, "3:33"), "[====================>] 5:00 / 3:33");
    assert_eq!(progress_text(None, 61, "?:??"), "1:01 / ?:??");
}

#[test]
fn now_playing_cards() {
    let q = queue_of(1);
    assert_eq!(
        now_playing_card("Song", "0:01 / 3:33", q.peek_next()),
        "**Song**\n\n0:01 / 3:33\n\n**Next up:** t1"
    );
    assert_eq!(now_playing_card("Song", "p", None), "**Song**\n\np\n\n");
}

#[test]
fn echo_only_greetings_from_people() {
    assert!(should_echo(false, false, false, "ghal"));
    assert!(should_echo(false, false, false, "SaYa"));
    assert!(should_echo(true, true, false, "GHAL"));
    assert!(!should_echo(true, false, false, "ghal"));
    assert!(!should_echo(false, false, true, "saya"));
    assert!(!should_echo(false, false, false, "ghal!"));
    assert!(!should_echo(false, false, false, "hello"));
}

#[test]
fn silence_is_noted_once() {
    assert_eq!(voice_tick(false, 0), (true, TickNote::NoSpeakers));
    assert_eq!(voice_tick(true, 0), (true, TickNote::Quiet));
    assert_eq!(voice_tick(true, 2), (false, TickNote::Speakers));
    assert_eq!(voice_tick(false, 1), (false, TickNote::Speakers));
}
