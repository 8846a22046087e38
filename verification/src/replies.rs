//! The text the bot answers commands with.
use vstd::prelude::*;
use crate::audio::{duration_label, QueuedTrack, TrackMetadata};
use crate::error::BotError;
use crate::queue::{mode_name, GuildQueue, LoopMode};
use crate::text::{clock, decimal, push_char, push_decimal, string_views};
use crate::ytdlp::format_clock;

verus! {

// ---------------------------------------------------------------------------
// Building text
// ---------------------------------------------------------------------------

/// The lines joined with line feeds between them (`[String]::join("\n")`).
pub open spec fn join_lines(ls: Seq<Seq<char>>) -> Seq<char>
    decreases ls.len(),
{
    if ls.len() == 0 {
        Seq::<char>::empty()
    } else if ls.len() == 1 {
        ls[0]
    } else {
        join_lines(ls.drop_last()) + seq!['\n'] + ls.last()
    }
}

fn join(ls: &Vec<String>) -> (r: String)
    ensures
        r@ == join_lines(string_views(ls@)),
{
    let mut r = String::new();
    let mut i: usize = 0;
    while i < ls.len()
        invariant
            0 <= i <= ls.len(),
            r@ == join_lines(string_views(ls@).take(i as int)),
        decreases ls.len() - i,
    {
        let ghost before = string_views(ls@).take(i as int);
        if i > 0 {
            push_char(&mut r, '\n');
        }
        r.append(ls[i].as_str());
        assert(string_views(ls@).take(i + 1).drop_last() =~= before);
        i = i + 1;
    }
    assert(string_views(ls@).take(ls.len() as int) =~= string_views(ls@));
    r
}

fn text(a: &str) -> (r: String)
    ensures
        r@ == a@,
{
    String::from_str(a)
}

fn push_str(r: &mut String, a: &str)
    ensures
        final(r)@ == old(r)@ + a@,
{
    r.append(a);
}

// ---------------------------------------------------------------------------
// The queue listing
// ---------------------------------------------------------------------------

/// The tracks shown on one page of the listing.
pub open spec fn per_page() -> int {
    10
}

/// The page asked for: 1 where none, or 0, is given.
pub open spec fn page_number(page: Option<u32>) -> int {
    match page {
        Some(p) => if p >= 1 { p as int } else { 1 },
        None => 1,
    }
}

/// The number of pages of a queue of `len` tracks (at least one).
pub open spec fn page_count(len: int) -> int {
    (if len >= 1 { len } else { 1 } + per_page() - 1) / per_page()
}

/// The line about the track that plays.
pub open spec fn now_playing_line(m: TrackMetadata) -> Seq<char> {
    "**Now playing:** "@ + m.title@ + " ["@ + duration_label(m) + "]"@
}

/// The line of the queued track at position `i` (0 is the front).
pub open spec fn track_line(i: int, m: TrackMetadata) -> Seq<char> {
    "`"@ + decimal((i + 1) as nat) + ".` "@ + m.title@ + " ["@ + duration_label(m) + "]"@
}

/// The lines of page `page` of the listing: the playing track, if any, and a
/// blank line; then the queue's size and the lines of the page's tracks, and
/// which page this is where there are several; or a note that the queue is
/// empty.
pub open spec fn listing_lines(current: Option<TrackMetadata>, q: Seq<QueuedTrack>, page: Option<u32>) -> Seq<Seq<char>> {
    let head = match current {
        Some(m) => seq![now_playing_line(m), Seq::<char>::empty()],
        None => Seq::<Seq<char>>::empty(),
    };
    if q.len() == 0 {
        head.push("Queue is empty."@)
    } else {
        let p = page_number(page);
        let start = (p - 1) * per_page();
        let end = if start + per_page() <= q.len() { start + per_page() } else { q.len() as int };
        let shown = if start < end { end - start } else { 0 };
        let body = Seq::new(shown as nat, |k: int| track_line(start + k, q[start + k].metadata));
        let tail = if page_count(q.len() as int) > 1 {
            seq!["\nPage "@ + decimal(p as nat) + "/"@ + decimal(page_count(q.len() as int) as nat)]
        } else {
            Seq::<Seq<char>>::empty()
        };
        head.push("**Queue** ("@ + decimal(q.len()) + " tracks):"@) + body + tail
    }
}

fn track_text(m: &TrackMetadata, lead: &str) -> (r: String)
    ensures
        r@ == lead@ + m.title@ + " ["@ + duration_label(*m) + "]"@,
{
    let mut r = text(lead);
    r.append(m.title.as_str());
    push_str(&mut r, " [");
    let label = m.duration_label();
    r.append(label.as_str());
    push_str(&mut r, "]");
    r
}

/// The `/queue` listing: page `page` (10 tracks a page) of the queue, after
/// the track that plays. An empty queue with nothing playing is an error.
pub fn queue_listing(current: Option<&TrackMetadata>, queue: &GuildQueue, page: Option<u32>) -> (r: Result<String, BotError>)
    ensures
        (queue@.len() == 0 && current is None) <==> r is Err,
        r matches Err(e) ==> e == BotError::QueueEmpty,
        r matches Ok(s) ==> s@ == join_lines(listing_lines(
            match current {
                Some(m) => Some(*m),
                None => None,
            },
            queue@,
            page,
        )),
{
    let ghost cur = match current {
        Some(m) => Some(*m),
        None => None::<TrackMetadata>,
    };
    let tracks = queue.list();
    let len = tracks.len();
    if len == 0 && current.is_none() {
        return Err(BotError::QueueEmpty);
    }
    let mut out: Vec<String> = Vec::new();
    match current {
        Some(m) => {
            out.push(track_text(m, "**Now playing:** "));
            out.push(String::new());
        },
        None => {},
    }
    let ghost head = string_views(out@);
    assert(head =~= match cur {
        Some(m) => seq![now_playing_line(m), Seq::<char>::empty()],
        None => Seq::<Seq<char>>::empty(),
    });
    if len == 0 {
        out.push(text("Queue is empty."));
        assert(string_views(out@) =~= head.push("Queue is empty."@));
        return Ok(join(&out));
    }
    let p: u64 = match page {
        Some(p) => if p >= 1 { p as u64 } else { 1 },
        None => 1,
    };
    let total: u64 = len as u64 / 10 + if len as u64 % 10 != 0 { 1 } else { 0 };
    assert(total == page_count(len as int));
    let start: u64 = (p - 1) * 10;
    let end: u64 = if start + 10 <= len as u64 { start + 10 } else { len as u64 };
    let shown: u64 = if start < end { end - start } else { 0 };
    let mut header = text("**Queue** (");
    push_decimal(&mut header, len as u64);
    push_str(&mut header, " tracks):");
    out.push(header);
    let ghost with_header = string_views(out@);
    assert(with_header =~= head.push("**Queue** ("@ + decimal(queue@.len()) + " tracks):"@));
    let mut k: u64 = 0;
    while k < shown
        invariant
            shown > 0 ==> start + shown <= len,
            len == queue@.len(),
            tracks@ == queue@,
            k <= shown,
            string_views(out@) == with_header + Seq::new(k as nat, |j: int| track_line(start + j, queue@[start + j].metadata)),
        decreases shown - k,
    {
        let ghost before = string_views(out@);
        let i = start + k;
        let m = &tracks[i as usize].metadata;
        let mut line = text("`");
        push_decimal(&mut line, i + 1);
        let rest = track_text(m, ".` ");
        line.append(rest.as_str());
        assert(line@ =~= track_line(i as int, queue@[i as int].metadata));
        out.push(line);
        assert(string_views(out@) =~= before.push(track_line(i as int, queue@[i as int].metadata)));
        assert(string_views(out@) =~= with_header + Seq::new((k + 1) as nat, |j: int| track_line(start + j, queue@[start + j].metadata)));
        k = k + 1;
    }
    if total > 1 {
        let mut last = text("\nPage ");
        push_decimal(&mut last, p);
        push_str(&mut last, "/");
        push_decimal(&mut last, total);
        out.push(last);
    }
    assert(string_views(out@) =~= listing_lines(cur, queue@, page));
    Ok(join(&out))
}

// ---------------------------------------------------------------------------
// Answers
// ---------------------------------------------------------------------------

/// The announcement of a track that starts to play.
pub fn now_playing_message(m: &TrackMetadata) -> (r: String)
    ensures
        r@ == "Now playing: **"@ + m.title@ + "** ["@ + duration_label(*m) + "]"@,
{
    track_text_bold(m, "Now playing: **")
}

fn track_text_bold(m: &TrackMetadata, lead: &str) -> (r: String)
    ensures
        r@ == lead@ + m.title@ + "** ["@ + duration_label(*m) + "]"@,
{
    let mut r = text(lead);
    r.append(m.title.as_str());
    push_str(&mut r, "** [");
    let label = m.duration_label();
    r.append(label.as_str());
    push_str(&mut r, "]");
    r
}

/// The answer to `/play` when the track waits: its place in the queue.
pub fn queued_message(position: usize, m: &TrackMetadata) -> (r: String)
    ensures
        r@ == "Queued at #"@ + decimal(position as nat) + ": **"@ + m.title@ + "** ["@ + duration_label(*m) + "]"@,
{
    let mut r = text("Queued at #");
    push_decimal(&mut r, position as u64);
    let rest = track_text_bold(m, ": **");
    r.append(rest.as_str());
    r
}

/// The answer to `/loop`.
pub fn loop_mode_message(mode: LoopMode) -> (r: String)
    ensures
        r@ == "Loop mode: **"@ + mode_name(mode) + "**"@,
{
    let mut r = text("Loop mode: **");
    push_str(&mut r, mode.display_name());
    push_str(&mut r, "**");
    r
}

/// The answer to `/clear`.
pub fn cleared_message(count: usize) -> (r: String)
    ensures
        r@ == "Cleared "@ + decimal(count as nat) + " tracks from the queue"@,
{
    let mut r = text("Cleared ");
    push_decimal(&mut r, count as u64);
    push_str(&mut r, " tracks from the queue");
    r
}

/// The answer to `/remove`.
pub fn removed_message(track: &QueuedTrack) -> (r: String)
    ensures
        r@ == "Removed: **"@ + track.metadata.title@ + "**"@,
{
    let mut r = text("Removed: **");
    r.append(track.metadata.title.as_str());
    push_str(&mut r, "**");
    r
}

/// The answer to `/shuffle`.
pub fn shuffled_message(count: usize) -> (r: String)
    ensures
        r@ == "Shuffled "@ + decimal(count as nat) + " tracks."@,
{
    let mut r = text("Shuffled ");
    push_decimal(&mut r, count as u64);
    push_str(&mut r, " tracks.");
    r
}

/// The answer to `/volume`.
pub fn volume_message(level: u32) -> (r: String)
    ensures
        r@ == "Volume set to **"@ + decimal(level as nat) + "%**"@,
{
    let mut r = text("Volume set to **");
    push_decimal(&mut r, level as u64);
    push_str(&mut r, "%**");
    r
}

/// The answer to `/join`: a mention of the channel joined.
pub fn joined_message(channel_id: u64) -> (r: String)
    ensures
        r@ == "Joined <#"@ + decimal(channel_id as nat) + ">"@,
{
    let mut r = text("Joined <#");
    push_decimal(&mut r, channel_id);
    push_str(&mut r, ">");
    r
}

/// The answer to `/age`: when the user's account was made.
pub fn account_age_message(name: &str, created_at: &str) -> (r: String)
    ensures
        r@ == name@ + "'s account was created at "@ + created_at@,
{
    let mut r = text(name);
    push_str(&mut r, "'s account was created at ");
    push_str(&mut r, created_at);
    r
}

/// The description of the embed that reports a failed command.
pub fn failure_report(e: &BotError) -> (r: String)
    ensures
        r@ == "Oopsie... "@ + crate::error::error_text(*e),
{
    let mut r = text("Oopsie... ");
    let m = e.to_string();
    r.append(m.as_str());
    r
}

/// The width of the progress bar of `/nowplaying`.
pub open spec fn bar_width() -> int {
    20
}

/// `n` copies of `c`.
pub open spec fn repeat(c: char, n: nat) -> Seq<char> {
    Seq::new(n, |i: int| c)
}

/// The progress line of `/nowplaying`: with a known length, a bar of
/// `filled` `=` out of 20 and the time played against the length; otherwise
/// the time played against the length's label alone.
pub open spec fn progress_line(filled: Option<usize>, elapsed: u64, label: Seq<char>) -> Seq<char> {
    let times = clock(elapsed as nat) + " / "@ + label;
    match filled {
        Some(f) => "["@ + repeat('=', f as nat) + ">"@ + repeat('-', (bar_width() - f) as nat) + "] "@ + times,
        None => times,
    }
}

fn push_repeat(r: &mut String, c: char, n: usize)
    ensures
        final(r)@ == old(r)@ + repeat(c, n as nat),
{
    let mut i: usize = 0;
    while i < n
        invariant
            i <= n,
            r@ == old(r)@ + repeat(c, i as nat),
        decreases n - i,
    {
        push_char(r, c);
        assert(r@ =~= old(r)@ + repeat(c, (i + 1) as nat));
        i = i + 1;
    }
}

/// The progress line of `/nowplaying`. `filled` is how many of the bar's 20
/// cells the time played covers, where the track's length is known.
pub fn progress_text(filled: Option<usize>, elapsed: u64, label: &str) -> (r: String)
    requires
        filled matches Some(f) ==> f <= bar_width(),
    ensures
        r@ == progress_line(filled, elapsed, label@),
{
    let mut r = String::new();
    match filled {
        Some(f) => {
            push_str(&mut r, "[");
            push_repeat(&mut r, '=', f);
            push_str(&mut r, ">");
            push_repeat(&mut r, '-', 20 - f);
            push_str(&mut r, "] ");
        },
        None => {},
    }
    let times = format_clock(elapsed);
    r.append(times.as_str());
    push_str(&mut r, " / ");
    push_str(&mut r, label);
    assert(r@ =~= progress_line(filled, elapsed, label@));
    r
}

/// The description of the `/nowplaying` embed: the title, the progress line,
/// and the track that plays next, if any.
pub fn now_playing_card(title: &str, progress: &str, next: Option<&QueuedTrack>) -> (r: String)
    ensures
        r@ == "**"@ + title@ + "**\n\n"@ + progress@ + "\n\n"@ + match next {
            Some(t) => "**Next up:** "@ + t.metadata.title@,
            None => Seq::<char>::empty(),
        },
{
    let mut r = text("**");
    push_str(&mut r, title);
    push_str(&mut r, "**\n\n");
    push_str(&mut r, progress);
    push_str(&mut r, "\n\n");
    match next {
        Some(t) => {
            push_str(&mut r, "**Next up:** ");
            r.append(t.metadata.title.as_str());
        },
        None => {},
    }
    r
}

} // verus!
