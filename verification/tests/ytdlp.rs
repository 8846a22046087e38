use musicbot::ytdlp::{
    duration_string_fits, format_clock, parse_duration_string, parse_ytdlp_output,
    playlist_tracks, ytdlp_output_in_range, PlaylistEntry, YtDlpSource,
};
use musicbot::{BotError, SourceType};

#[test]
fn can_handle_youtube_urls() {
    let source = YtDlpSource;
    assert!(source.can_handle("https://www.youtube.com/watch?v=test"));
    assert!(source.can_handle("https://youtu.be/test"));
    assert!(source.can_handle("never gonna give you up"));
    assert!(!source.can_handle("https://soundcloud.com/test"));
}

#[test]
fn parse_valid_output() {
    let output = "Never Gonna Give You Up\n3:33\nhttps://youtube.com/watch?v=dQw4w9WgXcQ\n";
    let meta = parse_ytdlp_output(output).unwrap();
    assert_eq!(meta.title, "Never Gonna Give You Up");
    assert_eq!(meta.duration.as_deref(), Some("3:33"));
    assert_eq!(meta.duration_secs, Some(213));
    assert_eq!(meta.url, "https://youtube.com/watch?v=dQw4w9WgXcQ");
}

#[test]
fn parse_output_with_hours() {
    let output = "Long Video\n1:30:00\nhttps://youtube.com/watch?v=test\n";
    let meta = parse_ytdlp_output(output).unwrap();
    assert_eq!(meta.duration_secs, Some(5400));
}

#[test]
fn parse_incomplete_output() {
    assert!(parse_ytdlp_output("only title\n").is_none());
    assert!(parse_ytdlp_output("").is_none());
}

#[test]
fn parse_empty_title() {
    let output = "\n3:33\nhttps://youtube.com/watch?v=test\n";
    assert!(parse_ytdlp_output(output).is_none());
}

#[test]
fn parse_duration_formats() {
    assert_eq!(parse_duration_string("3:33"), Some(213));
    assert_eq!(parse_duration_string("0:05"), Some(5));
    assert_eq!(parse_duration_string("1:00:00"), Some(3600));
    assert_eq!(parse_duration_string("invalid"), None);
    assert_eq!(parse_duration_string(""), None);
}

#[test]
fn parse_output_trims_and_accepts_crlf() {
    let output = "  Spaced Title \r\n\t4:05\r\n https://youtu.be/x \r\nextra line\n";
    let meta = parse_ytdlp_output(output).unwrap();
    assert_eq!(meta.title, "Spaced Title");
    assert_eq!(meta.duration.as_deref(), Some("4:05"));
    assert_eq!(meta.duration_secs, Some(245));
    assert_eq!(meta.url, "https://youtu.be/x");
    assert_eq!(meta.thumbnail_url, None);
    assert_eq!(meta.source_type, SourceType::YouTube);
}

#[test]
fn parse_output_without_duration() {
    let output = "Live stream\n\nhttps://youtube.com/watch?v=live";
    let meta = parse_ytdlp_output(output).unwrap();
    assert_eq!(meta.duration, None);
    assert_eq!(meta.duration_secs, None);
    let output = "Live stream\nNA\nhttps://youtube.com/watch?v=live";
    let meta = parse_ytdlp_output(output).unwrap();
    assert_eq!(meta.duration.as_deref(), Some("NA"));
    assert_eq!(meta.duration_secs, None);
}

#[test]
fn parse_output_with_blank_url() {
    assert!(parse_ytdlp_output("Title\n3:33\n   \n").is_none());
}

#[test]
fn durations_follow_u64_parsing() {
    assert_eq!(parse_duration_string("+3:+07"), Some(187));
    assert_eq!(parse_duration_string("3:-7"), None);
    assert_eq!(parse_duration_string("3: 07"), None);
    assert_eq!(parse_duration_string("1:2:3:4"), None);
    assert_eq!(parse_duration_string("90"), None);
    assert_eq!(parse_duration_string(":30"), None);
    assert_eq!(parse_duration_string("+:30"), None);
    assert_eq!(parse_duration_string("2:75"), Some(195));
    assert_eq!(parse_duration_string("18446744073709551616:0"), None);
}

#[test]
fn overflowing_durations_are_flagged() {
    assert!(duration_string_fits("3:33"));
    assert!(duration_string_fits("garbage"));
    assert!(!duration_string_fits("18446744073709551615:0"));
    assert!(!ytdlp_output_in_range("T\n18446744073709551615:00:00\nu\n"));
    assert!(ytdlp_output_in_range("T\n18446744073709551615:00:00\n\n"));
    assert!(ytdlp_output_in_range("T\n3:33\nu\n"));
}

#[test]
fn clock_format_pads_seconds() {
    assert_eq!(format_clock(0), "0:00");
    assert_eq!(format_clock(5), "0:05");
    assert_eq!(format_clock(213), "3:33");
    assert_eq!(format_clock(3600), "60:00");
    assert_eq!(format_clock(u64::MAX), "307445734561825860:15");
}

#[test]
fn clock_reads_back() {
    for secs in [0u64, 9, 59, 60, 61, 213, 5400, 86399, u64::MAX] {
        assert_eq!(parse_duration_string(&format_clock(secs)), Some(secs));
    }
}

#[test]
fn playlist_entries_become_tracks() {
    let tracks = playlist_tracks(vec![
        PlaylistEntry { title: "One".into(), url: "u1".into(), duration_secs: 65 },
        PlaylistEntry { title: "Two".into(), url: "u2".into(), duration_secs: 3 },
    ]);
    assert_eq!(tracks.len(), 2);
    assert_eq!(tracks[0].title, "One");
    assert_eq!(tracks[0].url, "u1");
    assert_eq!(tracks[0].duration.as_deref(), Some("1:05"));
    assert_eq!(tracks[0].duration_secs, Some(65));
    assert_eq!(tracks[1].duration.as_deref(), Some("0:03"));
    assert_eq!(tracks[1].source_type, SourceType::YouTube);
    assert!(playlist_tracks(vec![]).is_empty());
    for t in &tracks {
        assert_eq!(parse_duration_string(t.duration.as_deref().unwrap()), t.duration_secs);
    }
}

#[test]
fn queries_become_search_terms() {
    assert_eq!(YtDlpSource::format_query("https://youtu.be/abc"), "https://youtu.be/abc");
    assert_eq!(YtDlpSource::format_query("lofi beats"), "ytsearch:lofi beats");
    assert_eq!(YtDlpSource.name(), "YouTube (yt-dlp)");
    assert!(YtDlpSource::is_web_link("http://example.com/a.mp3"));
    assert!(!YtDlpSource::is_web_link("some song"));
}

#[test]
fn requests_for_single_tracks_and_playlists() {
    let source = YtDlpSource;
    let req = source.request("daft punk").unwrap();
    assert!(!req.playlist);
    assert_eq!(
        req.args,
        vec![
            "--print", "title", "--print", "duration_string", "--print", "webpage_url",
            "--no-download", "--no-playlist", "ytsearch:daft punk",
        ]
    );
    let req = source.request("https://www.youtube.com/watch?v=a&list=PL1").unwrap();
    assert!(req.playlist);
    assert_eq!(
        req.args,
        vec![
            "--flat-playlist", "--no-download", "--extractor-args", "youtube:skip=none", "-J",
            "https://www.youtube.com/watch?v=a&list=PL1",
        ]
    );
    assert!(source.request("https://www.youtube.com/playlist?list=PL2").unwrap().playlist);
    match source.request("https://soundcloud.com/x") {
        Err(BotError::Internal(m)) => assert_eq!(m, "Unsupported query"),
        _ => panic!("expected an unsupported query"),
    }
}

#[test]
fn single_track_answers() {
    let ok = YtDlpSource::single_track("q", "T\n1:00\nhttps://u\n").unwrap();
    assert_eq!(ok.len(), 1);
    assert_eq!(ok[0].duration_secs, Some(60));
    match YtDlpSource::single_track("my query", "nothing") {
        Err(BotError::YtDlpError(m)) => {
            assert_eq!(m, "Failed to parse yt-dlp output for: my query")
        }
        _ => panic!("expected a parse failure"),
    }
}

#[test]
fn run_outcomes() {
    assert_eq!(
        YtDlpSource::run_outcome(true, "exit status: 0", "out".into(), "").unwrap(),
        "out"
    );
    assert_eq!(
        YtDlpSource::run_outcome(false, "exit status: 1", "partial".into(), "err").unwrap(),
        "partial"
    );
    match YtDlpSource::run_outcome(false, "exit status: 1", String::new(), "ERROR: bad\r\nmore\n") {
        Err(BotError::YtDlpError(m)) => assert_eq!(m, "yt-dlp exited with exit status: 1: ERROR: bad"),
        _ => panic!("expected a failure"),
    }
    match YtDlpSource::run_outcome(false, "exit status: 2", String::new(), "") {
        Err(BotError::YtDlpError(m)) => {
            assert_eq!(m, "yt-dlp exited with exit status: 2: unknown error")
        }
        _ => panic!("expected a failure"),
    }
}
