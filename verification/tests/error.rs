use musicbot::events::{handle_songbird_error, JoinFailure};
use musicbot::BotError;

#[test]
fn user_facing_errors_display_correctly() {
    assert_eq!(
        BotError::NotInVoiceChannel.to_string(),
        "You must be in a voice channel to use this command."
    );
    assert_eq!(
        BotError::NothingPlaying.to_string(),
        "Nothing is currently playing."
    );
    assert_eq!(BotError::QueueEmpty.to_string(), "The queue is empty.");
    assert_eq!(BotError::InvalidIndex(5).to_string(), "Invalid index: 5");
    assert_eq!(
        BotError::NoSearchResults("test query".into()).to_string(),
        "Could not find any results for: test query"
    );
}

#[test]
fn is_user_facing_classification() {
    assert!(BotError::NotInVoiceChannel.is_user_facing());
    assert!(BotError::NothingPlaying.is_user_facing());
    assert!(BotError::QueueEmpty.is_user_facing());
    assert!(!BotError::YtDlpError("fail".into()).is_user_facing());
    assert!(!BotError::Internal("fail".into()).is_user_facing());
}

#[test]
fn other_errors_display_their_cause() {
    assert_eq!(BotError::InvalidIndex(0).to_string(), "Invalid index: 0");
    assert_eq!(BotError::InvalidIndex(1234).to_string(), "Invalid index: 1234");
    assert_eq!(
        BotError::YtDlpError("boom".into()).to_string(),
        "YouTube extraction failed: boom"
    );
    assert_eq!(BotError::VoiceError("x".into()).to_string(), "Voice connection failed: x");
    assert_eq!(BotError::SongbirdJoin("j".into()).to_string(), "Songbird join error: j");
    assert_eq!(BotError::SongbirdControl("c".into()).to_string(), "Songbird control error: c");
    assert_eq!(BotError::Serenity("s".into()).to_string(), "Serenity error: s");
    assert_eq!(BotError::Io("i".into()).to_string(), "IO error: i");
    assert_eq!(BotError::Internal("n".into()).to_string(), "Internal error: n");
}

#[test]
fn bot_side_errors_are_not_user_facing() {
    assert!(BotError::InvalidIndex(3).is_user_facing());
    assert!(BotError::NoSearchResults("q".into()).is_user_facing());
    assert!(!BotError::VoiceError("v".into()).is_user_facing());
    assert!(!BotError::SongbirdJoin("j".into()).is_user_facing());
    assert!(!BotError::SongbirdControl("c".into()).is_user_facing());
    assert!(!BotError::Serenity("s".into()).is_user_facing());
    assert!(!BotError::Io("i".into()).is_user_facing());
}

#[test]
fn join_failures_are_explained() {
    assert_eq!(handle_songbird_error(JoinFailure::Dropped), "request was cancelled/dropped");
    assert_eq!(handle_songbird_error(JoinFailure::NoSender), "no gateway destination");
    assert_eq!(handle_songbird_error(JoinFailure::NoCall), "tried to leave a non-existent call");
    assert_eq!(
        handle_songbird_error(JoinFailure::TimedOut),
        "gateway response from Discord timed out"
    );
    assert_eq!(handle_songbird_error(JoinFailure::Other), "unhandled error");
}
