use musicbot::audio::{QueuedTrack, SourceType, TrackMetadata};
use serenity::model::id::UserId;

fn sample_metadata() -> TrackMetadata {
    TrackMetadata {
        title: "Test Track".into(),
        duration: Some("3:33".into()),
        duration_secs: Some(213),
        url: "https://youtube.com/watch?v=test".into(),
        thumbnail_url: None,
        source_type: SourceType::YouTube,
    }
}

#[test]
fn queued_track_has_unique_id() {
    let user_id = UserId::new(1);
    let t1 = QueuedTrack::new(sample_metadata(), "query".into(), user_id);
    let t2 = QueuedTrack::new(sample_metadata(), "query".into(), user_id);
    assert_ne!(t1.id, t2.id);
}

#[test]
fn source_type_equality() {
    assert_eq!(SourceType::YouTube, SourceType::YouTube);
    assert_ne!(SourceType::YouTube, SourceType::DirectUrl);
}

#[test]
fn queued_track_keeps_what_it_is_given() {
    let t = QueuedTrack::new(sample_metadata(), "rick".into(), UserId::new(42));
    assert_eq!(t.metadata.title, "Test Track");
    assert_eq!(t.query, "rick");
    assert_eq!(t.requested_by, UserId::new(42));
}

#[test]
fn duration_label_falls_back() {
    let mut m = sample_metadata();
    assert_eq!(m.duration_label(), "3:33");
    m.duration = None;
    assert_eq!(m.duration_label(), "?:??");
}
