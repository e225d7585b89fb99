use lyrtick::tick::bank_step;
use lyrtick::Lyrics;
use lyrtick::LyricsBank;
use lyrtick::LyricsEntry;

fn entry(start_ms: u64, end_ms: u64, words: &str) -> LyricsEntry {
    LyricsEntry { start_ms, end_ms, words: String::from(words) }
}

/// A document of `n` lines, line `i` covering `[i*1000, (i+1)*1000)`.
fn ladder(n: u64) -> Lyrics {
    let mut lines = Vec::new();
    let mut i: u64 = 0;
    while i < n {
        lines.push(entry(i * 1000, (i + 1) * 1000, &format!("line {i}")));
        i += 1;
    }
    Lyrics { error: false, sync_type: String::from("LINE_SYNCED"), lines }
}

#[test]
fn fresh_bank_anchors_at_zero() {
    let d = ladder(100);
    let b = LyricsBank::get_bank(&d, None);
    assert_eq!(b.window_start_index, 0);
    assert_eq!(b.window_end_index, 10);
}

#[test]
fn bank_window_clipped_to_document() {
    let d = ladder(7);
    let b = LyricsBank::get_bank(&d, None);
    assert_eq!(b.window_start_index, 0);
    assert_eq!(b.window_end_index, 7);
    let b2 = LyricsBank::get_bank(&d, Some(&b));
    assert_eq!(b2.window_start_index, 7);
    assert_eq!(b2.window_end_index, 7);
}

#[test]
fn expiry_flips_exactly_at_last_window_line_end() {
    // Over 100 lines with window size 10, `is_expired` becomes true
    // exactly when playtime passes the end of window line index 9.
    let d = ladder(100);
    let b = LyricsBank::get_bank(&d, None);
    let boundary = d.lines[9].end_ms;
    assert!(!b.is_expired(&d, 0));
    assert!(!b.is_expired(&d, boundary - 1));
    assert!(b.is_expired(&d, boundary));
    assert!(b.is_expired(&d, boundary + 1));
}

#[test]
fn next_available_only_while_lines_remain() {
    let d = ladder(100);
    let mut b = LyricsBank::get_bank(&d, None);
    let mut hops = 1;
    while b.next_available(&d) {
        b = LyricsBank::get_bank(&d, Some(&b));
        hops += 1;
        assert!(hops <= 10);
    }
    assert_eq!(hops, 10);
    assert_eq!(b.window_end_index, 100);

    // `next_available` is false only when the document has fewer than
    // `window_end_index + 1` lines.
    let small = ladder(10);
    let sb = LyricsBank::get_bank(&small, None);
    assert!(!sb.next_available(&small));
    let bigger = ladder(11);
    let bb = LyricsBank::get_bank(&bigger, None);
    assert!(bb.next_available(&bigger));
}

#[test]
fn active_line_interval_is_half_open() {
    let d = ladder(100);
    let b = LyricsBank::get_bank(&d, None);
    // At a line's start that line is active; at its end the next one is.
    let at_start = b.get_active(&d, 3000).expect("line at its start");
    assert_eq!(at_start.start_ms, 3000);
    let inside = b.get_active(&d, 3999).expect("line just before its end");
    assert_eq!(inside.start_ms, 3000);
    let at_end = b.get_active(&d, 4000).expect("next line at the boundary");
    assert_eq!(at_end.start_ms, 4000);
}

#[test]
fn active_line_search_stays_inside_window() {
    let d = ladder(100);
    let b = LyricsBank::get_bank(&d, None);
    // Playtime past the window: no line of the window contains it even
    // though the document has a line for it.
    assert!(b.get_active(&d, 10000).is_none());
    assert!(b.get_active(&d, 50500).is_none());
}

#[test]
fn gaps_between_lines_have_no_active_line() {
    let d = Lyrics {
        error: false,
        sync_type: String::from("LINE_SYNCED"),
        lines: vec![entry(0, 1000, "a"), entry(1000, 2000, "b"), entry(3000, 4000, "c")],
    };
    let b = LyricsBank::get_bank(&d, None);
    assert_eq!(b.get_active(&d, 500).unwrap().words, String::from("a"));
    assert_eq!(b.get_active(&d, 1000).unwrap().words, String::from("b"));
    assert!(b.get_active(&d, 2000).is_none());
    assert!(b.get_active(&d, 2500).is_none());
    assert_eq!(b.get_active(&d, 3000).unwrap().words, String::from("c"));
    assert!(b.get_active(&d, 4000).is_none());
}

#[test]
fn monotone_playtimes_always_find_the_covering_line() {
    // Feed a non-decreasing sample sequence through the bank-advance
    // protocol and compare each lookup against a full document scan.
    let d = ladder(100);
    let mut bank: Option<LyricsBank> = None;
    let mut t: u64 = 0;
    while t <= 101_000 {
        let b = bank_step(&d, bank, t);
        let got = b.get_active(&d, t).map(|line| line.words.clone());
        let expect = d
            .lines
            .iter()
            .find(|line| line.start_ms <= t && t < line.end_ms)
            .map(|line| line.words.clone());
        assert_eq!(got, expect, "at playtime {t}");
        bank = Some(b);
        t += 777;
    }
}
