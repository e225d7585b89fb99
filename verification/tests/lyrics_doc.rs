use lyrtick::lyrics::generate_lyrics_file_name;
use lyrtick::lyrics::parse_millis;
use lyrtick::lyrics::RawLyricsEntry;
use lyrtick::Lyrics;
use lyrtick::LyricsEntry;
use lyrtick::LyricsError;

fn entry(start_ms: u64, end_ms: u64, words: &str) -> LyricsEntry {
    LyricsEntry { start_ms, end_ms, words: String::from(words) }
}

fn doc(lines: Vec<LyricsEntry>) -> Lyrics {
    Lyrics { error: false, sync_type: String::from("LINE_SYNCED"), lines }
}

fn triple(e: &LyricsEntry) -> (u64, u64, String) {
    (e.start_ms, e.end_ms, e.words.clone())
}

#[test]
fn normalize_example_document() {
    let mut d = doc(vec![entry(0, 2000, "a"), entry(2000, 4000, "♪"), entry(4000, 6000, "b")]);
    d.fix_end_times();
    let got: Vec<_> = d.lines.iter().map(triple).collect();
    assert_eq!(
        got,
        vec![(0, 4000, String::from("a")), (4000, 6000, String::from("b"))]
    );
}

#[test]
fn normalize_merges_empty_text_lines() {
    let mut d = doc(vec![entry(0, 1000, "x"), entry(1000, 2500, ""), entry(2500, 3000, "y")]);
    d.fix_end_times();
    let got: Vec<_> = d.lines.iter().map(triple).collect();
    assert_eq!(
        got,
        vec![(0, 2500, String::from("x")), (2500, 3000, String::from("y"))]
    );
}

#[test]
fn normalize_merges_placeholder_chains() {
    let mut d = doc(vec![
        entry(0, 1000, "x"),
        entry(1000, 2000, "♪"),
        entry(2000, 3000, ""),
        entry(3000, 4000, "y"),
        entry(4000, 5000, "♪"),
    ]);
    d.fix_end_times();
    let got: Vec<_> = d.lines.iter().map(triple).collect();
    assert_eq!(
        got,
        vec![(0, 3000, String::from("x")), (3000, 5000, String::from("y"))]
    );
}

#[test]
fn normalize_is_idempotent() {
    let mut d = doc(vec![
        entry(0, 1000, "x"),
        entry(1000, 2000, "♪"),
        entry(2000, 3000, "y"),
        entry(3000, 4000, ""),
    ]);
    d.fix_end_times();
    let once: Vec<_> = d.lines.iter().map(triple).collect();
    d.fix_end_times();
    let twice: Vec<_> = d.lines.iter().map(triple).collect();
    assert_eq!(once, twice);
}

#[test]
fn normalize_skips_documents_with_error_flag() {
    let mut d = Lyrics {
        error: true,
        sync_type: String::from("LINE_SYNCED"),
        lines: vec![entry(0, 1000, "x"), entry(1000, 2000, "♪")],
    };
    d.fix_end_times();
    let got: Vec<_> = d.lines.iter().map(triple).collect();
    assert_eq!(
        got,
        vec![(0, 1000, String::from("x")), (1000, 2000, String::from("♪"))]
    );
}

#[test]
fn normalize_keeps_leading_placeholder() {
    // Only successors are merged: a placeholder at the very front stays.
    let mut d = doc(vec![entry(0, 1000, "♪"), entry(1000, 2000, "x")]);
    d.fix_end_times();
    let got: Vec<_> = d.lines.iter().map(triple).collect();
    assert_eq!(
        got,
        vec![(0, 1000, String::from("♪")), (1000, 2000, String::from("x"))]
    );
}

#[test]
fn endtime_validity_compares_end_to_start() {
    assert!(entry(1000, 2000, "x").is_endtime_valid());
    assert!(!entry(1000, 1000, "x").is_endtime_valid());
    assert!(!entry(2000, 1000, "x").is_endtime_valid());
}

#[test]
fn parse_millis_reads_decimal_strings() {
    assert_eq!(parse_millis("0"), Ok(0));
    assert_eq!(parse_millis("2000"), Ok(2000));
    assert_eq!(parse_millis("007"), Ok(7));
    assert_eq!(parse_millis("18446744073709551615"), Ok(u64::MAX));
}

#[test]
fn parse_millis_rejects_malformed_strings() {
    assert_eq!(parse_millis(""), Err(LyricsError::Malformed));
    assert_eq!(parse_millis("12a3"), Err(LyricsError::Malformed));
    assert_eq!(parse_millis("+5"), Err(LyricsError::Malformed));
    assert_eq!(parse_millis("-5"), Err(LyricsError::Malformed));
    assert_eq!(parse_millis(" 5"), Err(LyricsError::Malformed));
    assert_eq!(parse_millis("18446744073709551616"), Err(LyricsError::Malformed));
    assert_eq!(parse_millis("99999999999999999999999"), Err(LyricsError::Malformed));
}

fn raw(start: &str, end: &str, words: &str) -> RawLyricsEntry {
    RawLyricsEntry {
        start_time_ms: String::from(start),
        end_time_ms: String::from(end),
        words: String::from(words),
    }
}

#[test]
fn from_raw_parses_and_normalizes() {
    let d = Lyrics::from_raw(
        false,
        String::from("LINE_SYNCED"),
        vec![raw("0", "2000", "a"), raw("2000", "4000", "♪"), raw("4000", "6000", "b")],
    )
    .unwrap();
    assert!(!d.error);
    assert_eq!(d.sync_type, String::from("LINE_SYNCED"));
    let got: Vec<_> = d.lines.iter().map(triple).collect();
    assert_eq!(
        got,
        vec![(0, 4000, String::from("a")), (4000, 6000, String::from("b"))]
    );
}

#[test]
fn from_raw_reports_unavailable_on_error_flag() {
    let r = Lyrics::from_raw(true, String::from("LINE_SYNCED"), vec![raw("0", "1", "a")]);
    assert!(matches!(r, Err(LyricsError::Unavailable)));
}

#[test]
fn from_raw_reports_malformed_timestamps() {
    let r = Lyrics::from_raw(
        false,
        String::from("LINE_SYNCED"),
        vec![raw("0", "1000", "a"), raw("oops", "2000", "b")],
    );
    assert!(matches!(r, Err(LyricsError::Malformed)));
    let r = Lyrics::from_raw(false, String::from("LINE_SYNCED"), vec![raw("0", "", "a")]);
    assert!(matches!(r, Err(LyricsError::Malformed)));
}

#[test]
fn lyrics_file_name_replaces_extension() {
    assert_eq!(generate_lyrics_file_name("song.flac"), String::from("song.json"));
    assert_eq!(generate_lyrics_file_name("dir.d/song.ogg"), String::from("dir.d/song.json"));
    assert_eq!(generate_lyrics_file_name("a.b.c"), String::from("a.b.json"));
    assert_eq!(generate_lyrics_file_name("."), String::from(".json"));
}
