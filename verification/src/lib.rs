//! The verified core of a Discord music bot: the per-guild track queue and its
//! repeat modes, reading what `yt-dlp` prints, and the text the bot answers with.
pub mod audio;
pub mod error;
pub mod events;
pub mod laws;
pub mod queue;
pub mod replies;
pub mod text;
pub mod ytdlp;

pub use audio::{QueuedTrack, SourceType, TrackMetadata};
pub use error::BotError;
pub use queue::{GuildQueue, LoopMode};
pub use ytdlp::{parse_duration_string, parse_ytdlp_output, YtDlpSource};
