//! Everything the bot decides around the `yt-dlp` program: which queries it
//! takes, what it asks `yt-dlp` for, and how it reads the answer.
use vstd::prelude::*;
use crate::audio::{SourceType, TrackMetadata};
use crate::error::BotError;
use crate::text::{
    chars_of, clock, contains, contains_str, line_bounds, lines, parse_u64, parse_u64_in,
    push_char, push_decimal, split, string_views, split_bounds, starts_with, starts_with_str, string_of, trim,
    trim_bounds,
};

verus! {

// ---------------------------------------------------------------------------
// Durations
// ---------------------------------------------------------------------------

/// The number of seconds that `m:ss` or `h:mm:ss` spells, as a mathematical
/// integer; `None` where the text has another number of `:`-separated parts or
/// a part that `u64::from_str` refuses.
pub open spec fn duration_total(d: Seq<char>) -> Option<int> {
    let parts = split(d, ':');
    if parts.len() == 2 {
        match (parse_u64(parts[0]), parse_u64(parts[1])) {
            (Some(m), Some(s)) => Some(m * 60 + s),
            _ => None,
        }
    } else if parts.len() == 3 {
        match (parse_u64(parts[0]), parse_u64(parts[1]), parse_u64(parts[2])) {
            (Some(h), Some(m), Some(s)) => Some(h * 3600 + m * 60 + s),
            _ => None,
        }
    } else {
        None
    }
}

/// Whether the seconds that `d` spells, if any, fit in a `u64`.
pub open spec fn duration_fits(d: Seq<char>) -> bool {
    match duration_total(d) {
        Some(v) => v <= u64::MAX,
        None => true,
    }
}

/// What `parse_duration_string` returns for `d`.
pub open spec fn parse_duration(d: Seq<char>) -> Option<u64> {
    match duration_total(d) {
        Some(v) => Some(v as u64),
        None => None,
    }
}

/// The seconds that `v[lo..hi]` spells, computed without overflow.
fn duration_in(v: &Vec<char>, lo: usize, hi: usize) -> (r: Option<u128>)
    requires
        lo <= hi <= v.len(),
    ensures
        match r {
            Some(x) => duration_total(v@.subrange(lo as int, hi as int)) == Some(x as int),
            None => duration_total(v@.subrange(lo as int, hi as int)) is None,
        },
{
    let parts = split_bounds(v, lo, hi, ':');
    let ghost ps = split(v@.subrange(lo as int, hi as int), ':');
    assert(ps.len() == parts.len());
    if parts.len() == 2 {
        assert(ps[0] == v@.subrange(parts[0].0 as int, parts[0].1 as int));
        assert(ps[1] == v@.subrange(parts[1].0 as int, parts[1].1 as int));
        let m = parse_u64_in(v, parts[0].0, parts[0].1);
        let s = parse_u64_in(v, parts[1].0, parts[1].1);
        match (m, s) {
            (Some(m), Some(s)) => Some(m as u128 * 60 + s as u128),
            _ => None,
        }
    } else if parts.len() == 3 {
        assert(ps[0] == v@.subrange(parts[0].0 as int, parts[0].1 as int));
        assert(ps[1] == v@.subrange(parts[1].0 as int, parts[1].1 as int));
        assert(ps[2] == v@.subrange(parts[2].0 as int, parts[2].1 as int));
        let h = parse_u64_in(v, parts[0].0, parts[0].1);
        let m = parse_u64_in(v, parts[1].0, parts[1].1);
        let s = parse_u64_in(v, parts[2].0, parts[2].1);
        match (h, m, s) {
            (Some(h), Some(m), Some(s)) => Some(h as u128 * 3600 + m as u128 * 60 + s as u128),
            _ => None,
        }
    } else {
        None
    }
}

/// The seconds that a `yt-dlp` duration string spells: `m:ss` or `h:mm:ss`,
/// each part a `u64` as `u64::from_str` reads it. `None` for any other text.
pub fn parse_duration_string(s: &str) -> (r: Option<u64>)
    requires
        duration_fits(s@),
    ensures
        r == parse_duration(s@),
{
    let v = chars_of(s);
    assert(v@.subrange(0, v.len() as int) =~= v@);
    match duration_in(&v, 0, v.len()) {
        Some(x) => Some(x as u64),
        None => None,
    }
}

/// Whether the seconds that `s` spells, if any, fit in a `u64`.
pub fn duration_string_fits(s: &str) -> (r: bool)
    ensures
        r == duration_fits(s@),
{
    let v = chars_of(s);
    assert(v@.subrange(0, v.len() as int) =~= v@);
    match duration_in(&v, 0, v.len()) {
        Some(x) => x <= u64::MAX as u128,
        None => true,
    }
}

/// `secs` as `m:ss` (`format!("{}:{:02}", secs / 60, secs % 60)`).
pub fn format_clock(secs: u64) -> (r: String)
    ensures
        r@ == clock(secs as nat),
{
    let mut r = String::new();
    push_decimal(&mut r, secs / 60);
    push_char(&mut r, ':');
    let s = secs % 60;
    if s < 10 {
        push_char(&mut r, '0');
    }
    push_decimal(&mut r, s);
    assert(r@ =~= clock(secs as nat));
    r
}

// ---------------------------------------------------------------------------
// The answer to `--print title --print duration_string --print webpage_url`
// ---------------------------------------------------------------------------

/// Line `k` of `yt-dlp`'s output, trimmed.
pub open spec fn out_line(s: Seq<char>, k: int) -> Seq<char> {
    trim(lines(s)[k])
}

/// Whether the output has a title line, a duration line and a URL line, with a
/// title and a URL that are not blank.
pub open spec fn output_parses(s: Seq<char>) -> bool {
    &&& lines(s).len() >= 3
    &&& out_line(s, 0).len() > 0
    &&& out_line(s, 2).len() > 0
}

/// Whether reading the output stays clear of an overflow: where the output
/// parses, the seconds of its duration line fit in a `u64`.
pub open spec fn output_in_range(s: Seq<char>) -> bool {
    output_parses(s) ==> duration_fits(out_line(s, 1))
}

/// `m` is the track that the output `s` describes: the trimmed first line is
/// the title, the trimmed second the duration (none where it is blank), the
/// trimmed third the URL.
pub open spec fn is_output_track(m: TrackMetadata, s: Seq<char>) -> bool {
    &&& m.title@ == out_line(s, 0)
    &&& m.url@ == out_line(s, 2)
    &&& (out_line(s, 1).len() == 0 ==> m.duration is None)
    &&& (out_line(s, 1).len() > 0 ==> m.duration is Some && m.duration->0@ == out_line(s, 1))
    &&& m.duration_secs == parse_duration(out_line(s, 1))
    &&& m.thumbnail_url is None
    &&& m.source_type == SourceType::YouTube
}

/// Reads the three lines that `yt-dlp --print title --print duration_string
/// --print webpage_url` writes: `None` where there are fewer than three lines
/// or the title or the URL is blank.
pub fn parse_ytdlp_output(stdout: &str) -> (r: Option<TrackMetadata>)
    requires
        output_in_range(stdout@),
    ensures
        r is Some <==> output_parses(stdout@),
        r matches Some(m) ==> is_output_track(m, stdout@),
{
    let v = chars_of(stdout);
    let ls = line_bounds(&v);
    if ls.len() < 3 {
        return None;
    }
    let ghost lv = lines(v@);
    assert(lv[0] == v@.subrange(ls[0].0 as int, ls[0].1 as int));
    assert(lv[1] == v@.subrange(ls[1].0 as int, ls[1].1 as int));
    assert(lv[2] == v@.subrange(ls[2].0 as int, ls[2].1 as int));
    let (t0, t1) = trim_bounds(&v, ls[0].0, ls[0].1);
    let (d0, d1) = trim_bounds(&v, ls[1].0, ls[1].1);
    let (u0, u1) = trim_bounds(&v, ls[2].0, ls[2].1);
    let title = string_of(&v, t0, t1);
    let duration = string_of(&v, d0, d1);
    let url = string_of(&v, u0, u1);
    if t0 == t1 || u0 == u1 {
        return None;
    }
    let duration_secs = match duration_in(&v, d0, d1) {
        Some(x) => Some(x as u64),
        None => None,
    };
    let duration = if d0 == d1 {
        None
    } else {
        Some(duration)
    };
    Some(TrackMetadata {
        title,
        duration,
        duration_secs,
        url,
        thumbnail_url: None,
        source_type: SourceType::YouTube,
    })
}

/// Whether `parse_ytdlp_output` may be called on `stdout`: where the output
/// names a track, its duration fits in a `u64` number of seconds.
pub fn ytdlp_output_in_range(stdout: &str) -> (r: bool)
    ensures
        r == output_in_range(stdout@),
{
    let v = chars_of(stdout);
    let ls = line_bounds(&v);
    if ls.len() < 3 {
        return true;
    }
    let ghost lv = lines(v@);
    assert(lv[0] == v@.subrange(ls[0].0 as int, ls[0].1 as int));
    assert(lv[1] == v@.subrange(ls[1].0 as int, ls[1].1 as int));
    assert(lv[2] == v@.subrange(ls[2].0 as int, ls[2].1 as int));
    let (t0, t1) = trim_bounds(&v, ls[0].0, ls[0].1);
    let (d0, d1) = trim_bounds(&v, ls[1].0, ls[1].1);
    let (u0, u1) = trim_bounds(&v, ls[2].0, ls[2].1);
    if t0 == t1 || u0 == u1 {
        return true;
    }
    match duration_in(&v, d0, d1) {
        Some(x) => x <= u64::MAX as u128,
        None => true,
    }
}

// ---------------------------------------------------------------------------
// The source
// ---------------------------------------------------------------------------

/// Whether the query names a YouTube page.
pub open spec fn is_youtube_link(q: Seq<char>) -> bool {
    contains(q, "youtube.com"@) || contains(q, "youtu.be"@)
}

/// Whether `yt-dlp` takes the query: a YouTube link, or anything that is not
/// a web link (a search).
pub open spec fn handles_query(q: Seq<char>) -> bool {
    is_youtube_link(q) || !starts_with(q, "http"@)
}

/// What `yt-dlp` is given for a query: a YouTube link as it is, anything else
/// as a YouTube search.
pub open spec fn search_term(q: Seq<char>) -> Seq<char> {
    if is_youtube_link(q) {
        q
    } else {
        "ytsearch:"@ + q
    }
}

/// Whether the query names a playlist.
pub open spec fn is_playlist_query(q: Seq<char>) -> bool {
    contains(q, "&list="@) || contains(q, "/playlist"@)
}

/// The arguments `yt-dlp` runs with for a query: the whole playlist as JSON,
/// or the title, duration and page of a single track.
pub open spec fn request_args(q: Seq<char>) -> Seq<Seq<char>> {
    if is_playlist_query(q) {
        seq![
            "--flat-playlist"@,
            "--no-download"@,
            "--extractor-args"@,
            "youtube:skip=none"@,
            "-J"@,
            search_term(q),
        ]
    } else {
        seq![
            "--print"@,
            "title"@,
            "--print"@,
            "duration_string"@,
            "--print"@,
            "webpage_url"@,
            "--no-download"@,
            "--no-playlist"@,
            search_term(q),
        ]
    }
}

/// One run of `yt-dlp` to make: whether it lists a playlist, and its arguments.
pub struct YtDlpRequest {
    pub playlist: bool,
    pub args: Vec<String>,
}

/// One entry of the JSON that `yt-dlp -J --flat-playlist` writes.
pub struct PlaylistEntry {
    pub title: String,
    pub url: String,
    /// The entry's length, in whole seconds.
    pub duration_secs: u64,
}

/// `m` is the track made of the playlist entry `e`.
pub open spec fn is_entry_track(m: TrackMetadata, e: PlaylistEntry) -> bool {
    &&& m.title@ == e.title@
    &&& m.url@ == e.url@
    &&& m.duration_secs == Some(e.duration_secs)
    &&& m.duration is Some && m.duration->0@ == clock(e.duration_secs as nat)
    &&& m.thumbnail_url is None
    &&& m.source_type == SourceType::YouTube
}

/// The message of a failed run: the exit status and the first line of what
/// the program wrote to its error stream (or `unknown error`).
pub open spec fn exit_message(status: Seq<char>, stderr: Seq<char>) -> Seq<char> {
    "yt-dlp exited with "@ + status + ": "@ + (if lines(stderr).len() > 0 {
        lines(stderr)[0]
    } else {
        "unknown error"@
    })
}

/// Audio found through the `yt-dlp` program.
pub struct YtDlpSource;

fn push_arg(args: &mut Vec<String>, a: &str)
    ensures
        string_views(final(args)@) == string_views(old(args)@).push(a@),
{
    let ghost before = args@;
    args.push(String::from_str(a));
    assert(string_views(args@) =~= string_views(before).push(a@));
}

impl YtDlpSource {
    /// The name the source goes by.
    pub fn name(&self) -> (r: &'static str)
        ensures
            r@ == "YouTube (yt-dlp)"@,
    {
        "YouTube (yt-dlp)"
    }

    /// Whether the query names a YouTube page (`youtube.com` or `youtu.be`).
    pub fn is_youtube_link(query: &str) -> (r: bool)
        ensures
            r == is_youtube_link(query@),
    {
        contains_str(query, "youtube.com") || contains_str(query, "youtu.be")
    }

    /// Whether this source takes the query: a YouTube link, or a search that
    /// is not a web link.
    pub fn can_handle(&self, query: &str) -> (r: bool)
        ensures
            r == handles_query(query@),
    {
        Self::is_youtube_link(query) || !starts_with_str(query, "http")
    }

    /// What `yt-dlp` is given for the query: a YouTube link as it is, anything
    /// else prefixed with `ytsearch:`.
    pub fn format_query(query: &str) -> (r: String)
        ensures
            r@ == search_term(query@),
    {
        if Self::is_youtube_link(query) {
            String::from_str(query)
        } else {
            let mut r = String::from_str("ytsearch:");
            r.append(query);
            r
        }
    }

    /// Whether the query names a playlist (`&list=` or `/playlist`).
    pub fn is_playlist(query: &str) -> (r: bool)
        ensures
            r == is_playlist_query(query@),
    {
        contains_str(query, "&list=") || contains_str(query, "/playlist")
    }

    /// The run of `yt-dlp` that resolves the query, or the error for a query
    /// this source does not take.
    pub fn request(&self, query: &str) -> (r: Result<YtDlpRequest, BotError>)
        ensures
            handles_query(query@) <==> r is Ok,
            r matches Ok(req) ==> req.playlist == is_playlist_query(query@)
                && string_views(req.args@) == request_args(query@),
            r matches Err(e) ==> e matches BotError::Internal(m) && m@ == "Unsupported query"@,
    {
        if !self.can_handle(query) {
            return Err(BotError::Internal(String::from_str("Unsupported query")));
        }
        let playlist = Self::is_playlist(query);
        let mut args: Vec<String> = Vec::new();
        if playlist {
            push_arg(&mut args, "--flat-playlist");
            push_arg(&mut args, "--no-download");
            push_arg(&mut args, "--extractor-args");
            push_arg(&mut args, "youtube:skip=none");
            push_arg(&mut args, "-J");
        } else {
            push_arg(&mut args, "--print");
            push_arg(&mut args, "title");
            push_arg(&mut args, "--print");
            push_arg(&mut args, "duration_string");
            push_arg(&mut args, "--print");
            push_arg(&mut args, "webpage_url");
            push_arg(&mut args, "--no-download");
            push_arg(&mut args, "--no-playlist");
        }
        let term = Self::format_query(query);
        let ghost before = args@;
        args.push(term);
        assert(string_views(args@) =~= string_views(before).push(search_term(query@)));
        assert(string_views(args@) =~= request_args(query@));
        Ok(YtDlpRequest { playlist, args })
    }

    /// The tracks of a single-track answer: the one track the output
    /// describes, or the error naming the query when the output does not parse.
    pub fn single_track(query: &str, stdout: &str) -> (r: Result<Vec<TrackMetadata>, BotError>)
        requires
            output_in_range(stdout@),
        ensures
            output_parses(stdout@) <==> r is Ok,
            r matches Ok(v) ==> v.len() == 1 && is_output_track(v[0], stdout@),
            r matches Err(e) ==> e matches BotError::YtDlpError(m)
                && m@ == "Failed to parse yt-dlp output for: "@ + query@,
    {
        match parse_ytdlp_output(stdout) {
            Some(m) => {
                let mut v = Vec::new();
                v.push(m);
                Ok(v)
            },
            None => {
                let mut m = String::from_str("Failed to parse yt-dlp output for: ");
                m.append(query);
                Err(BotError::YtDlpError(m))
            },
        }
    }

    /// What a run of `yt-dlp` comes to: its output, unless it failed and wrote
    /// nothing, in which case the error names the exit status and the first
    /// line of its error stream.
    pub fn run_outcome(success: bool, status: &str, stdout: String, stderr: &str) -> (r: Result<String, BotError>)
        ensures
            (!success && stdout@.len() == 0) <==> r is Err,
            r matches Ok(out) ==> out@ == stdout@,
            r matches Err(e) ==> e matches BotError::YtDlpError(m) && m@ == exit_message(status@, stderr@),
    {
        if !success && stdout.as_str().is_empty() {
            let v = chars_of(stderr);
            let ls = line_bounds(&v);
            let mut m = String::from_str("yt-dlp exited with ");
            m.append(status);
            m.append(": ");
            if ls.len() > 0 {
                assert(lines(v@)[0] == v@.subrange(ls[0].0 as int, ls[0].1 as int));
                let first = string_of(&v, ls[0].0, ls[0].1);
                m.append(first.as_str());
            } else {
                m.append("unknown error");
            }
            return Err(BotError::YtDlpError(m));
        }
        Ok(stdout)
    }

    /// Whether a track's address is a web link, to be fetched as it is, rather
    /// than a search.
    pub fn is_web_link(url: &str) -> (r: bool)
        ensures
            r == starts_with(url@, "http"@),
    {
        starts_with_str(url, "http")
    }
}

/// The tracks of a playlist, one per entry and in the entries' order, each
/// with its length written as `m:ss`.
pub fn playlist_tracks(entries: Vec<PlaylistEntry>) -> (r: Vec<TrackMetadata>)
    ensures
        r.len() == entries.len(),
        forall|i: int| 0 <= i < r.len() ==> is_entry_track(#[trigger] r@[i], entries@[i]),
{
    let ghost es = entries@;
    let mut tracks: Vec<TrackMetadata> = Vec::new();
    for entry in it: entries
        invariant
            es == entries@,
            it.seq() == es,
            tracks.len() == it.index(),
            forall|j: int| 0 <= j < tracks.len() ==> is_entry_track(#[trigger] tracks@[j], es[j]),
    {
        let duration = format_clock(entry.duration_secs);
        let secs = entry.duration_secs;
        tracks.push(TrackMetadata {
            title: entry.title,
            url: entry.url,
            duration_secs: Some(secs),
            duration: Some(duration),
            source_type: SourceType::YouTube,
            thumbnail_url: None,
        });
    }
    tracks
}

} // verus!
