//! Tracks: what is known of a track, and a track waiting in a queue.
use vstd::prelude::*;

verus! {

/// Where a track comes from.
#[derive(Debug, Clone, Copy, PartialEq, Eq, Structural)]
pub enum SourceType {
    YouTube,
    DirectUrl,
}

/// What is known of a track before it plays.
#[derive(Debug, Clone)]
pub struct TrackMetadata {
    pub title: String,
    /// The length as the source writes it, such as `3:33`.
    pub duration: Option<String>,
    /// The length in seconds.
    pub duration_secs: Option<u64>,
    pub url: String,
    pub thumbnail_url: Option<String>,
    pub source_type: SourceType,
}

/// `uuid::Uuid`, a track's identity in a queue.
#[verifier::external_type_specification]
#[verifier::external_body]
pub struct ExUuid(uuid::Uuid);

/// `serenity`'s id of a Discord user.
#[verifier::external_type_specification]
#[verifier::external_body]
pub struct ExUserId(serenity::model::id::UserId);

/// A fresh random (version 4) identity, from `uuid::Uuid::new_v4`. Nothing is
/// stated of the value: it comes from the operating system's random source.
#[verifier::external_body]
fn fresh_track_id() -> uuid::Uuid {
    uuid::Uuid::new_v4()
}

/// A track waiting in a guild's queue.
#[derive(Debug)]
pub struct QueuedTrack {
    pub id: uuid::Uuid,
    pub metadata: TrackMetadata,
    pub query: String,
    pub requested_by: serenity::model::id::UserId,
}

impl QueuedTrack {
    /// A queued track with a fresh random identity.
    pub fn new(metadata: TrackMetadata, query: String, requested_by: serenity::model::id::UserId) -> (r: Self)
        ensures
            r.metadata == metadata,
            r.query == query,
            r.requested_by == requested_by,
    {
        QueuedTrack { id: fresh_track_id(), metadata, query, requested_by }
    }
}

/// How a track's length reads in messages: its duration string, or `?:??`.
pub open spec fn duration_label(m: TrackMetadata) -> Seq<char> {
    match m.duration {
        Some(d) => d@,
        None => "?:??"@,
    }
}

impl TrackMetadata {
    /// The track's duration string, or `?:??` where it has none.
    pub fn duration_label(&self) -> (r: String)
        ensures
            r@ == duration_label(*self),
    {
        match &self.duration {
            Some(d) => d.clone(),
            None => String::from_str("?:??"),
        }
    }
}

} // verus!
