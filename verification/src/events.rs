//! Decisions taken on gateway and voice events.
use vstd::prelude::*;
use crate::text::lowercase_eq;

verus! {

/// The kinds of failure to join a voice channel that the bot tells apart.
#[derive(Debug, Clone, Copy, PartialEq, Eq, Structural)]
pub enum JoinFailure {
    /// The request was cancelled, dropped or replaced.
    Dropped,
    /// No gateway connection could carry the request.
    NoSender,
    /// There was no call to leave.
    NoCall,
    /// Discord did not answer in time.
    TimedOut,
    /// Any other failure.
    Other,
}

/// What the bot says of a failure to join.
pub open spec fn join_failure_text(e: JoinFailure) -> Seq<char> {
    match e {
        JoinFailure::Dropped => "request was cancelled/dropped"@,
        JoinFailure::NoSender => "no gateway destination"@,
        JoinFailure::NoCall => "tried to leave a non-existent call"@,
        JoinFailure::TimedOut => "gateway response from Discord timed out"@,
        JoinFailure::Other => "unhandled error"@,
    }
}

/// What the bot says of a failure to join a voice channel.
pub fn handle_songbird_error(error: JoinFailure) -> (r: &'static str)
    ensures
        r@ == join_failure_text(error),
{
    match error {
        JoinFailure::Dropped => "request was cancelled/dropped",
        JoinFailure::NoSender => "no gateway destination",
        JoinFailure::NoCall => "tried to leave a non-existent call",
        JoinFailure::TimedOut => "gateway response from Discord timed out",
        JoinFailure::Other => "unhandled error",
    }
}

/// Whether the bot repeats a message: not one of another bot (a webhook's
/// messages do count) nor one of its own, and only `ghal` or `saya` in any
/// ASCII capitalisation.
pub open spec fn echoes(author_is_bot: bool, from_webhook: bool, from_self: bool, content: Seq<char>) -> bool {
    !((author_is_bot && !from_webhook) || from_self) && (crate::text::ascii_lowercase(content)
        == "ghal"@ || crate::text::ascii_lowercase(content) == "saya"@)
}

/// Whether the bot repeats the message with the given author and content.
pub fn should_echo(author_is_bot: bool, from_webhook: bool, from_self: bool, content: &str) -> (r: bool)
    ensures
        r == echoes(author_is_bot, from_webhook, from_self, content@),
{
    if (author_is_bot && !from_webhook) || from_self {
        return false;
    }
    lowercase_eq(content, "ghal") || lowercase_eq(content, "saya")
}

/// What a voice tick brings to note.
#[derive(Debug, Clone, Copy, PartialEq, Eq, Structural)]
pub enum TickNote {
    /// Nobody speaks any more.
    NoSpeakers,
    /// Someone speaks: each speaker's packet is worth noting.
    Speakers,
    /// Still nobody speaks: nothing new.
    Quiet,
}

/// The receiver's state after a tick with `speaking` speakers, from whether
/// the last tick had none, and what the tick brings to note.
pub open spec fn tick_step(last_tick_was_empty: bool, speaking: usize) -> (bool, TickNote) {
    if speaking == 0 && !last_tick_was_empty {
        (true, TickNote::NoSpeakers)
    } else if speaking != 0 {
        (false, TickNote::Speakers)
    } else {
        (last_tick_was_empty, TickNote::Quiet)
    }
}

/// The receiver's state after a tick with `speaking` speakers, and what the
/// tick brings to note: silence is noted once, when it starts.
pub fn voice_tick(last_tick_was_empty: bool, speaking: usize) -> (r: (bool, TickNote))
    ensures
        r == tick_step(last_tick_was_empty, speaking),
{
    if speaking == 0 && !last_tick_was_empty {
        (true, TickNote::NoSpeakers)
    } else if speaking != 0 {
        (false, TickNote::Speakers)
    } else {
        (last_tick_was_empty, TickNote::Quiet)
    }
}

} // verus!
