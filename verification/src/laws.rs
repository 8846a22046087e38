//! Properties that span several operations of the library.
use vstd::prelude::*;
use crate::audio::QueuedTrack;
use crate::events::{echoes, tick_step, TickNote};
use crate::queue::{chosen_mode, mode_name, next_mode, take_front, LoopMode};
use crate::replies::{listing_lines, track_line};
use crate::text::{ascii_lower, ascii_lowercase, clock, contains, decimal, decimal2};
use crate::audio::TrackMetadata;
use crate::ytdlp::{duration_fits, is_entry_track, parse_duration, request_args, PlaylistEntry};

verus! {

/// Cycling the repeat mode three times comes back to the start, and every
/// cycle changes the mode.
pub proof fn law_cycle_has_period_three(m: LoopMode)
    ensures
        next_mode(next_mode(next_mode(m))) == m,
        next_mode(m) != m,
{
}

/// No two repeat modes are shown by the same name.
pub proof fn law_mode_names_differ(a: LoopMode, b: LoopMode)
    requires
        a != b,
    ensures
        mode_name(a) != mode_name(b),
{
    reveal_strlit("Off");
    reveal_strlit("Single");
    reveal_strlit("Queue");
    assert("Off"@.len() != "Single"@.len());
    assert("Single"@.len() != "Queue"@.len());
    assert("Off"@.len() != "Queue"@.len());
}

/// The queue is first in, first out: a track added at the back of a queue
/// comes out at once only from an empty queue; otherwise the front comes out
/// and the new track waits behind the rest.
pub proof fn law_first_in_first_out(q: Seq<QueuedTrack>, t: QueuedTrack)
    ensures
        q.len() == 0 ==> take_front(q.push(t)) == (Some(t), Seq::<QueuedTrack>::empty()),
        q.len() > 0 ==> take_front(q.push(t)) == (Some(q[0]), take_front(q).1.push(t)),
{
    if q.len() == 0 {
        assert(q.push(t).drop_first() =~= Seq::<QueuedTrack>::empty());
    } else {
        assert(q.push(t).drop_first() =~= q.drop_first().push(t));
    }
}

/// A track put at the front is the next to come out, and taking it leaves the
/// queue as it was: this is how a track repeats in `Single` mode.
pub proof fn law_front_is_next(q: Seq<QueuedTrack>, t: QueuedTrack)
    ensures
        take_front(seq![t] + q) == (Some(t), q),
{
    assert((seq![t] + q).drop_first() =~= q);
}


proof fn lemma_split_no_sep(s: Seq<char>, sep: char)
    requires
        forall|i: int| 0 <= i < s.len() ==> s[i] != sep,
    ensures
        crate::text::split(s, sep) == seq![s],
    decreases s.len(),
{
    if s.len() > 0 {
        lemma_split_no_sep(s.drop_last(), sep);
        assert(s.drop_last().push(s.last()) =~= s);
        assert(seq![s.drop_last()].update(0, s.drop_last().push(s.last())) =~~= seq![s]);
    } else {
        assert(s =~= Seq::<char>::empty());
    }
}

proof fn lemma_split_last_piece(x: Seq<char>, sep: char, b: Seq<char>)
    requires
        forall|i: int| 0 <= i < b.len() ==> b[i] != sep,
    ensures
        crate::text::split(x.push(sep) + b, sep) == crate::text::split(x, sep).push(b),
    decreases b.len(),
{
    let s = x.push(sep) + b;
    if b.len() == 0 {
        assert(s =~= x.push(sep));
        assert(s.drop_last() =~= x);
        assert(b =~= Seq::<char>::empty());
    } else {
        lemma_split_last_piece(x, sep, b.drop_last());
        assert(s.drop_last() =~= x.push(sep) + b.drop_last());
        let p = crate::text::split(x, sep);
        assert(s.last() == b.last());
        assert(b.drop_last().push(b.last()) =~= b);
        assert(p.push(b.drop_last()).update(p.len() as int, b.drop_last().push(b.last())) =~~= p.push(b));
    }
}

proof fn lemma_digits_zero_prefix(s: Seq<char>)
    ensures
        crate::text::digits_value(seq!['0'] + s) == crate::text::digits_value(s),
    decreases s.len(),
{
    if s.len() == 0 {
        assert((seq!['0'] + s).drop_last() =~= Seq::<char>::empty());
        assert((seq!['0'] + s).last() == '0');
        assert(s =~= Seq::<char>::empty());
    } else {
        lemma_digits_zero_prefix(s.drop_last());
        assert((seq!['0'] + s).drop_last() =~= seq!['0'] + s.drop_last());
        assert((seq!['0'] + s).last() == s.last());
    }
}

proof fn lemma_parse_decimal(n: nat)
    requires
        n <= u64::MAX,
    ensures
        crate::text::parse_u64(decimal(n)) == Some(n as u64),
        forall|i: int| 0 <= i < decimal(n).len() ==> decimal(n)[i] != ':',
{
    crate::text::lemma_decimal_value(n);
    assert(crate::text::is_digit(decimal(n)[0]));
}

proof fn lemma_parse_decimal2(n: nat)
    requires
        n <= u64::MAX,
    ensures
        crate::text::parse_u64(crate::text::decimal2(n)) == Some(n as u64),
        forall|i: int| 0 <= i < crate::text::decimal2(n).len() ==> crate::text::decimal2(n)[i] != ':',
{
    lemma_parse_decimal(n);
    if n < 10 {
        let s = seq!['0'] + decimal(n);
        lemma_digits_zero_prefix(decimal(n));
        assert forall|i: int| 0 <= i < s.len() implies crate::text::is_digit(#[trigger] s[i]) by {
            if i > 0 {
                assert(s[i] == decimal(n)[i - 1]);
            }
        }
        assert forall|i: int| 0 <= i < s.len() implies s[i] != ':' by {
            assert(crate::text::is_digit(s[i]));
        }
    }
}

/// A length written as `m:ss` reads back as the same number of seconds:
/// `parse_duration_string` undoes `format_clock`, for every `u64`.
pub proof fn law_clock_reads_back(secs: u64)
    ensures
        duration_fits(clock(secs as nat)),
        parse_duration(clock(secs as nat)) == Some(secs),
{
    let m = (secs / 60) as nat;
    let s = (secs % 60) as nat;
    lemma_parse_decimal(m);
    lemma_parse_decimal2(s);
    lemma_split_no_sep(decimal(m), ':');
    lemma_split_last_piece(decimal(m), ':', crate::text::decimal2(s));
    assert(clock(secs as nat) =~= decimal(m).push(':') + crate::text::decimal2(s));
    assert(seq![decimal(m)].push(crate::text::decimal2(s)) =~= seq![decimal(m), crate::text::decimal2(s)]);
    assert(m * 60 + s == secs);
}

/// A length written as hours, then minutes and seconds padded to two digits
/// (`h:mm:ss`), reads back as `h * 3600 + m * 60 + s` seconds, wherever that
/// number fits in a `u64`.
pub proof fn law_hours_read_back(h: nat, m: nat, s: nat)
    requires
        s < 60,
        h * 3600 + m * 60 + s <= u64::MAX,
    ensures
        duration_fits(decimal(h) + seq![':'] + decimal2(m) + seq![':'] + decimal2(s)),
        parse_duration(decimal(h) + seq![':'] + decimal2(m) + seq![':'] + decimal2(s))
            == Some((h * 3600 + m * 60 + s) as u64),
{
    let text = decimal(h) + seq![':'] + decimal2(m) + seq![':'] + decimal2(s);
    lemma_parse_decimal(h);
    lemma_parse_decimal2(m);
    lemma_parse_decimal2(s);
    lemma_split_no_sep(decimal(h), ':');
    lemma_split_last_piece(decimal(h), ':', decimal2(m));
    let hm = decimal(h).push(':') + decimal2(m);
    lemma_split_last_piece(hm, ':', decimal2(s));
    assert(text =~= hm.push(':') + decimal2(s));
    assert(seq![decimal(h)].push(decimal2(m)).push(decimal2(s)) =~= seq![decimal(h), decimal2(m), decimal2(s)]);
}

/// Choosing a repeat mode by its name in small letters gives that mode,
/// whatever the mode was before.
pub proof fn law_choice_by_name(m: LoopMode, current: LoopMode)
    ensures
        chosen_mode(Some(ascii_lowercase(mode_name(m))), current) == m,
{
    reveal_strlit("Off");
    reveal_strlit("Single");
    reveal_strlit("Queue");
    reveal_strlit("off");
    reveal_strlit("single");
    reveal_strlit("queue");
    assert(ascii_lowercase("Off"@) =~= "off"@);
    assert(ascii_lowercase("Single"@) =~= "single"@);
    assert(ascii_lowercase("Queue"@) =~= "queue"@);
    assert("off"@ != "single"@);
    assert("off"@ != "queue"@);
    assert("single"@ != "queue"@);
}

/// The run of `yt-dlp` for a query ends with what the query asks for: a
/// YouTube link as it is, anything else as a YouTube search, for a single
/// track and for a playlist alike.
pub proof fn law_request_ends_with_query(q: Seq<char>)
    ensures
        (contains(q, "youtube.com"@) || contains(q, "youtu.be"@)) ==> request_args(q).last() == q,
        !(contains(q, "youtube.com"@) || contains(q, "youtu.be"@)) ==> request_args(q).last()
            == "ytsearch:"@ + q,
{
}

/// The length written on a track of a playlist reads back, through
/// `parse_duration_string`, as the track's length in seconds.
pub proof fn law_playlist_lengths_read_back(m: TrackMetadata, e: PlaylistEntry)
    requires
        is_entry_track(m, e),
    ensures
        m.duration is Some,
        duration_fits(m.duration->0@),
        parse_duration(m.duration->0@) == m.duration_secs,
{
    law_clock_reads_back(e.duration_secs);
}

/// Every queued track is listed on page `i / 10 + 1` of the listing, `i`
/// being its position (0 is the front), whether or not a track is playing.
pub proof fn law_track_listed_on_its_page(current: Option<TrackMetadata>, q: Seq<QueuedTrack>, i: int)
    requires
        0 <= i < q.len(),
        i / 10 + 1 <= u32::MAX,
    ensures
        listing_lines(current, q, Some((i / 10 + 1) as u32)).contains(track_line(i, q[i].metadata)),
{
    let lines = listing_lines(current, q, Some((i / 10 + 1) as u32));
    let start = (i / 10) * 10;
    assert(start <= i < start + 10);
    let k = i - start;
    let h: int = if current is Some { 2 } else { 0 };
    assert(lines[h + 1 + k] == track_line(start + k, q[start + k].metadata));
}

/// Silence is noted once: after a tick that notes that nobody speaks, a tick
/// that is still silent notes nothing.
pub proof fn law_silence_noted_once(last_tick_was_empty: bool)
    ensures
        tick_step(tick_step(last_tick_was_empty, 0).0, 0).1 == TickNote::Quiet,
{
}

/// Whether the bot repeats a message does not rest on its ASCII case.
pub proof fn law_echo_ignores_case(author_is_bot: bool, from_webhook: bool, from_self: bool, content: Seq<char>)
    ensures
        echoes(author_is_bot, from_webhook, from_self, content) == echoes(
            author_is_bot,
            from_webhook,
            from_self,
            ascii_lowercase(content),
        ),
{
    assert(ascii_lowercase(ascii_lowercase(content)) =~= ascii_lowercase(content)) by {
        assert forall|i: int| 0 <= i < content.len() implies #[trigger] ascii_lower(ascii_lower(content[i])) == ascii_lower(content[i]) by {
            let c = content[i];
            if 'A' <= c <= 'Z' {
                assert(((c as int) + 32) as char as int == (c as int) + 32);
            }
        }
    }
}

} // verus!
