//! The errors of the bot and the text that reports them.
use vstd::prelude::*;
use crate::text::{decimal, push_decimal};

verus! {

/// What can go wrong while serving a command. The variants that come from
/// another library (the voice library, the Discord client, I/O) carry that
/// error's own message.
#[derive(Debug)]
pub enum BotError {
    NotInVoiceChannel,
    NothingPlaying,
    QueueEmpty,
    InvalidIndex(usize),
    NoSearchResults(String),
    YtDlpError(String),
    VoiceError(String),
    SongbirdJoin(String),
    SongbirdControl(String),
    Serenity(String),
    Io(String),
    Internal(String),
}

/// Whether the error is the user's to fix, rather than the bot's.
pub open spec fn user_facing(e: BotError) -> bool {
    match e {
        BotError::NotInVoiceChannel => true,
        BotError::NothingPlaying => true,
        BotError::QueueEmpty => true,
        BotError::InvalidIndex(_) => true,
        BotError::NoSearchResults(_) => true,
        _ => false,
    }
}

/// The message that reports the error.
pub open spec fn error_text(e: BotError) -> Seq<char> {
    match e {
        BotError::NotInVoiceChannel => "You must be in a voice channel to use this command."@,
        BotError::NothingPlaying => "Nothing is currently playing."@,
        BotError::QueueEmpty => "The queue is empty."@,
        BotError::InvalidIndex(i) => "Invalid index: "@ + decimal(i as nat),
        BotError::NoSearchResults(q) => "Could not find any results for: "@ + q@,
        BotError::YtDlpError(m) => "YouTube extraction failed: "@ + m@,
        BotError::VoiceError(m) => "Voice connection failed: "@ + m@,
        BotError::SongbirdJoin(m) => "Songbird join error: "@ + m@,
        BotError::SongbirdControl(m) => "Songbird control error: "@ + m@,
        BotError::Serenity(m) => "Serenity error: "@ + m@,
        BotError::Io(m) => "IO error: "@ + m@,
        BotError::Internal(m) => "Internal error: "@ + m@,
    }
}

/// `prefix` followed by `rest`.
fn prefixed(prefix: &str, rest: &String) -> (r: String)
    ensures
        r@ == prefix@ + rest@,
{
    let mut r = String::from_str(prefix);
    r.append(rest.as_str());
    r
}

impl BotError {
    /// Whether the error is the user's to fix (not being in a voice channel,
    /// nothing playing, an empty queue, a bad position, no search results).
    pub fn is_user_facing(&self) -> (r: bool)
        ensures
            r == user_facing(*self),
    {
        match self {
            BotError::NotInVoiceChannel => true,
            BotError::NothingPlaying => true,
            BotError::QueueEmpty => true,
            BotError::InvalidIndex(_) => true,
            BotError::NoSearchResults(_) => true,
            _ => false,
        }
    }

    /// The message that reports the error.
    pub fn to_string(&self) -> (r: String)
        ensures
            r@ == error_text(*self),
    {
        match self {
            BotError::NotInVoiceChannel => String::from_str(
                "You must be in a voice channel to use this command.",
            ),
            BotError::NothingPlaying => String::from_str("Nothing is currently playing."),
            BotError::QueueEmpty => String::from_str("The queue is empty."),
            BotError::InvalidIndex(i) => {
                let mut r = String::from_str("Invalid index: ");
                push_decimal(&mut r, *i as u64);
                r
            },
            BotError::NoSearchResults(q) => prefixed("Could not find any results for: ", q),
            BotError::YtDlpError(m) => prefixed("YouTube extraction failed: ", m),
            BotError::VoiceError(m) => prefixed("Voice connection failed: ", m),
            BotError::SongbirdJoin(m) => prefixed("Songbird join error: ", m),
            BotError::SongbirdControl(m) => prefixed("Songbird control error: ", m),
            BotError::Serenity(m) => prefixed("Serenity error: ", m),
            BotError::Io(m) => prefixed("IO error: ", m),
            BotError::Internal(m) => prefixed("Internal error: ", m),
        }
    }
}

} // verus!
