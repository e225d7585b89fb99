//! Timestamped lyric document.
//!
//! A `Lyrics` document owns an ordered sequence of lyric lines, each
//! with a start and end time in milliseconds and a text.  It is built
//! once from raw entries whose timestamps are decimal-string
//! milliseconds, then normalized by one fix-up pass that merges
//! placeholder lines (empty or musical-note-only entries marking
//! instrumental gaps) into their predecessors.

use vstd::prelude::*;

verus! {

/// Errors of the lyric subsystem.  Both downgrade gracefully to a
/// "no lyrics" display and never abort playback.
#[derive(PartialEq, Eq, Structural, Clone, Copy, Debug)]
pub enum LyricsError {
    /// The source is missing or carries its explicit error flag:
    /// lyrics are unavailable for this track.
    Unavailable,
    /// A timestamp or the structure of the source failed to parse.
    Malformed,
}

/// One entry as the source file carries it: decimal-string millisecond
/// timestamps around a line of text.
pub struct RawLyricsEntry {
    pub start_time_ms: String,
    pub end_time_ms: String,
    pub words: String,
}

/// The mathematical model of one lyric line.
pub ghost struct LineModel {
    pub start_ms: u64,
    pub end_ms: u64,
    pub words: Seq<char>,
}

/// One timestamped lyric line: active during `[start_ms, end_ms)`.
pub struct LyricsEntry {
    /// Start of the line's interval, in milliseconds of playtime.
    pub start_ms: u64,
    /// End of the line's interval (exclusive), in milliseconds.
    pub end_ms: u64,
    /// The line's text.
    pub words: String,
}

impl View for LyricsEntry {
    type V = LineModel;

    open spec fn view(&self) -> LineModel {
        LineModel { start_ms: self.start_ms, end_ms: self.end_ms, words: self.words@ }
    }
}

impl LyricsEntry {
    /// Whether the line has a valid end: one strictly later than its
    /// own start.  A line whose end is at or before its start has no
    /// valid end; callers use this purely as a predicate, the line is
    /// not itself corrected.
    pub fn is_endtime_valid(&self) -> (r: bool)
        ensures
            r == (self.end_ms > self.start_ms),
    {
        self.end_ms > self.start_ms
    }
}

/// A lyric line that marks an instrumental gap rather than sung text:
/// its words are empty or the single musical-note glyph.
pub open spec fn is_placeholder_words(w: Seq<char>) -> bool {
    w.len() == 0 || w == "♪"@
}

/// Placeholder status of a line model; it depends on the words alone.
pub open spec fn is_placeholder(m: LineModel) -> bool {
    is_placeholder_words(m.words)
}

/// Exec check of [`is_placeholder_words`].
fn is_placeholder_line(words: &String) -> (r: bool)
    ensures
        r == is_placeholder_words(words@),
{
    if words.as_str().unicode_len() == 0 {
        return true;
    }
    let note = String::from_str("♪");
    *words == note
}

/// The merge of a line with its placeholder successor: the line keeps
/// its start and words and absorbs the successor's interval by taking
/// over its end.
pub open spec fn merge_lines(a: LineModel, b: LineModel) -> LineModel {
    LineModel { end_ms: b.end_ms, ..a }
}

/// The normalization (fix-up) pass over a sequence of line models:
/// a single forward scan that, whenever a line's successor is a
/// placeholder, merges the successor into the line and re-examines the
/// same position, so that no placeholder line remains after the first.
pub open spec fn norm(s: Seq<LineModel>) -> Seq<LineModel>
    decreases s.len(),
{
    if s.len() < 2 {
        s
    } else if is_placeholder(s[1]) {
        norm(s.update(0, merge_lines(s[0], s[1])).remove(1))
    } else {
        s.take(1) + norm(s.skip(1))
    }
}

/// Owns the ordered sequence of lyric lines parsed from one source
/// document, together with the source's error flag and sync type.
pub struct Lyrics {
    /// The source's explicit "lyrics unavailable" flag.
    pub error: bool,
    /// The source's synchronization type tag.
    pub sync_type: String,
    /// The lines, ordered as the source gives them.
    pub lines: Vec<LyricsEntry>,
}

impl Lyrics {
    /// The document as a sequence of line models.
    pub open spec fn lines_model(self) -> Seq<LineModel> {
        self.lines@.map_values(|e: LyricsEntry| e@)
    }

    /// Document-wide ordering invariant: lines sorted ascending by
    /// start, no duplicate start.
    pub open spec fn sorted_by_start(self) -> bool {
        forall|i: int, j: int|
            0 <= i < j < self.lines_model().len() ==> (#[trigger] self.lines_model()[i]).start_ms
                < (#[trigger] self.lines_model()[j]).start_ms
    }

    /// No line runs into its successor: each line ends no later than
    /// the next one starts.
    pub open spec fn non_overlapping(self) -> bool {
        forall|i: int|
            0 <= i < self.lines_model().len() - 1 ==> (#[trigger] self.lines_model()[i]).end_ms
                <= self.lines_model()[i + 1].start_ms
    }

    /// The normalization pass: scan the line sequence and, whenever a
    /// line's successor has empty text or the placeholder glyph, merge
    /// the successor into the current line and re-examine the same
    /// index.  Documents carrying the source error flag are left
    /// untouched.
    pub fn fix_end_times(&mut self)
        ensures
            final(self).error == old(self).error,
            final(self).sync_type == old(self).sync_type,
            old(self).error ==> final(self).lines_model() == old(self).lines_model(),
            !old(self).error ==> final(self).lines_model() == norm(old(self).lines_model()),
    {
        if self.error {
            return ;
        }
        let ghost orig: Seq<LineModel> = self.lines_model();
        let ghost err0: bool = self.error;
        let ghost sync0: String = self.sync_type;
        let mut index: usize = 0;
        proof {
            assert(orig.skip(0) =~= orig);
            assert(orig.take(0) + norm(orig) =~= norm(orig));
        }
        while index + 1 < self.lines.len()
            invariant
                self.error == err0,
                self.sync_type == sync0,
                index <= self.lines@.len(),
                index < usize::MAX,
                norm(orig) == self.lines_model().take(index as int) + norm(
                    self.lines_model().skip(index as int),
                ),
            decreases self.lines@.len() - index,
        {
            let ghost s0: Seq<LineModel> = self.lines_model();
            let ghost t: Seq<LineModel> = s0.skip(index as int);
            if is_placeholder_line(&self.lines[index + 1].words) {
                let succ = self.lines.remove(index + 1);
                let cur = self.lines.remove(index);
                let merged = LyricsEntry {
                    start_ms: cur.start_ms,
                    end_ms: succ.end_ms,
                    words: cur.words,
                };
                self.lines.insert(index, merged);
                proof {
                    let s1 = self.lines_model();
                    assert(t[1] == s0[index + 1]);
                    assert(s1.take(index as int) =~= s0.take(index as int));
                    assert(s1.skip(index as int) =~= t.update(0, merge_lines(t[0], t[1])).remove(
                        1,
                    ));
                    assert(norm(t) == norm(t.update(0, merge_lines(t[0], t[1])).remove(1)));
                }
            } else {
                proof {
                    assert(t[1] == s0[index + 1]);
                    assert(norm(t) == t.take(1) + norm(t.skip(1)));
                    assert(t.skip(1) =~= s0.skip(index as int + 1));
                    assert(s0.take(index as int) + t.take(1) =~= s0.take(index as int + 1));
                    assert(s0.take(index as int) + (t.take(1) + norm(t.skip(1))) =~= (s0.take(
                        index as int,
                    ) + t.take(1)) + norm(t.skip(1)));
                }
                index = index + 1;
            }
        }
        proof {
            let s = self.lines_model();
            assert(s.skip(index as int).len() < 2);
            assert(norm(s.skip(index as int)) == s.skip(index as int));
            assert(s.take(index as int) + s.skip(index as int) =~= s);
        }
    }
}

/// A decimal digit character.
pub open spec fn is_digit(c: char) -> bool {
    48 <= c as u32 <= 57
}

/// The numeric value of a digit sequence read as a decimal number.
pub open spec fn dec_val(s: Seq<char>) -> int
    decreases s.len(),
{
    if s.len() == 0 {
        0
    } else {
        dec_val(s.drop_last()) * 10 + (s.last() as u32 - 48)
    }
}

/// A well-formed decimal-string millisecond timestamp: non-empty, all
/// digits, and small enough for a 64-bit millisecond count.
pub open spec fn valid_millis(s: Seq<char>) -> bool {
    &&& s.len() > 0
    &&& forall|i: int| 0 <= i < s.len() ==> is_digit(#[trigger] s[i])
    &&& dec_val(s) <= u64::MAX
}

/// The value of a digit sequence is non-negative.
proof fn lemma_dec_val_nonneg(s: Seq<char>)
    requires
        forall|i: int| 0 <= i < s.len() ==> is_digit(#[trigger] s[i]),
    ensures
        dec_val(s) >= 0,
    decreases s.len(),
{
    if s.len() > 0 {
        assert(forall|i: int| 0 <= i < s.drop_last().len() ==> is_digit(#[trigger] s.drop_last()[i]));
        lemma_dec_val_nonneg(s.drop_last());
    }
}

/// Reading more digits never shrinks the value: the value of a prefix
/// is a lower bound for the value of the whole digit string.
proof fn lemma_dec_val_prefix(s: Seq<char>, n: int)
    requires
        forall|i: int| 0 <= i < s.len() ==> is_digit(#[trigger] s[i]),
        0 <= n <= s.len(),
    ensures
        dec_val(s.take(n)) <= dec_val(s),
    decreases s.len() - n,
{
    if n < s.len() {
        lemma_dec_val_prefix(s, n + 1);
        let p = s.take(n + 1);
        assert(p.drop_last() =~= s.take(n));
        assert(p.last() == s[n]);
        assert(forall|i: int| 0 <= i < s.take(n).len() ==> is_digit(#[trigger] s.take(n)[i]));
        lemma_dec_val_nonneg(s.take(n));
        assert(is_digit(s[n]));
        assert(dec_val(p) == dec_val(s.take(n)) * 10 + (s[n] as u32 - 48));
        assert(dec_val(s.take(n)) * 10 >= dec_val(s.take(n)));
        assert(dec_val(s.take(n)) <= dec_val(p));
    } else {
        assert(s.take(n) =~= s);
    }
}

/// Parses a decimal-string millisecond timestamp.  Returns the parsed
/// count exactly when the string is non-empty, holds only decimal
/// digits and its value fits in a `u64`; otherwise the string is
/// malformed.
pub fn parse_millis(s: &str) -> (r: Result<u64, LyricsError>)
    ensures
        valid_millis(s@) ==> r == Ok::<u64, LyricsError>(dec_val(s@) as u64),
        !valid_millis(s@) ==> r == Err::<u64, LyricsError>(LyricsError::Malformed),
{
    let len = s.unicode_len();
    if len == 0 {
        return Err(LyricsError::Malformed);
    }
    let mut acc: u64 = 0;
    let mut i: usize = 0;
    while i < len
        invariant
            len == s@.len(),
            0 <= i <= len,
            forall|k: int| 0 <= k < i ==> is_digit(#[trigger] s@[k]),
            acc == dec_val(s@.take(i as int)),
        decreases len - i,
    {
        let c = s.get_char(i);
        let code = c as u32;
        if code < 48 || code > 57 {
            return Err(LyricsError::Malformed);
        }
        let d = (code - 48) as u64;
        let wide: u128 = acc as u128 * 10 + d as u128;
        proof {
            let p = s@.take(i as int + 1);
            assert(p.drop_last() =~= s@.take(i as int));
            assert(p.last() == s@[i as int]);
            assert(dec_val(p) == wide);
        }
        if wide > u64::MAX as u128 {
            proof {
                if valid_millis(s@) {
                    lemma_dec_val_prefix(s@, i as int + 1);
                }
            }
            return Err(LyricsError::Malformed);
        }
        acc = wide as u64;
        i = i + 1;
    }
    proof {
        assert(s@.take(len as int) =~= s@);
    }
    Ok(acc)
}

/// The model of one raw entry after its timestamps parse.
pub open spec fn raw_line_model(r: RawLyricsEntry) -> LineModel {
    LineModel {
        start_ms: dec_val(r.start_time_ms@) as u64,
        end_ms: dec_val(r.end_time_ms@) as u64,
        words: r.words@,
    }
}

/// Whether both timestamps of a raw entry are well formed.
pub open spec fn raw_entry_ok(r: RawLyricsEntry) -> bool {
    valid_millis(r.start_time_ms@) && valid_millis(r.end_time_ms@)
}

impl Lyrics {
    /// Builds a document from the values of one source file: the error
    /// flag, the sync type tag, and the raw entries in source order.
    ///
    /// Fails with `Unavailable` when the source's error flag is set
    /// (lyrics unavailable, not a hard failure) and with `Malformed`
    /// when any timestamp fails to parse.  On success the document
    /// holds the parsed lines with the normalization pass applied.
    pub fn from_raw(error: bool, sync_type: String, raw: Vec<RawLyricsEntry>) -> (r: Result<
        Lyrics,
        LyricsError,
    >)
        ensures
            match r {
                Ok(doc) => {
                    &&& !error
                    &&& forall|i: int| 0 <= i < raw@.len() ==> raw_entry_ok(#[trigger] raw@[i])
                    &&& doc.error == false
                    &&& doc.sync_type == sync_type
                    &&& doc.lines_model() == norm(
                        raw@.map_values(|e: RawLyricsEntry| raw_line_model(e)),
                    )
                },
                Err(LyricsError::Unavailable) => error,
                Err(LyricsError::Malformed) => {
                    &&& !error
                    &&& exists|i: int| 0 <= i < raw@.len() && !raw_entry_ok(#[trigger] raw@[i])
                },
            },
    {
        if error {
            return Err(LyricsError::Unavailable);
        }
        let mut lines: Vec<LyricsEntry> = Vec::new();
        let mut i: usize = 0;
        while i < raw.len()
            invariant
                error == false,
                0 <= i <= raw@.len(),
                forall|k: int| 0 <= k < i ==> raw_entry_ok(#[trigger] raw@[k]),
                lines@.len() == i,
                forall|k: int|
                    0 <= k < i ==> (#[trigger] lines@[k])@ == raw_line_model(raw@[k]),
            decreases raw@.len() - i,
        {
            let entry = &raw[i];
            let start_ms = match parse_millis(entry.start_time_ms.as_str()) {
                Ok(v) => v,
                Err(_) => {
                    proof {
                        assert(!raw_entry_ok(raw@[i as int]));
                    }
                    return Err(LyricsError::Malformed);
                },
            };
            let end_ms = match parse_millis(entry.end_time_ms.as_str()) {
                Ok(v) => v,
                Err(_) => {
                    proof {
                        assert(!raw_entry_ok(raw@[i as int]));
                    }
                    return Err(LyricsError::Malformed);
                },
            };
            let words = entry.words.clone();
            lines.push(LyricsEntry { start_ms, end_ms, words });
            i = i + 1;
        }
        let mut doc = Lyrics { error: false, sync_type, lines };
        proof {
            assert(doc.lines_model() =~= raw@.map_values(|e: RawLyricsEntry| raw_line_model(e)));
        }
        doc.fix_end_times();
        Ok(doc)
    }
}

/// Whether the character sequence holds at least one dot.
pub open spec fn has_dot(s: Seq<char>) -> bool {
    exists|i: int| 0 <= i < s.len() && s[i] == '.'
}

/// Whether `d` is the position of the last dot of `s`.
pub open spec fn is_last_dot(s: Seq<char>, d: int) -> bool {
    &&& 0 <= d < s.len()
    &&& s[d] == '.'
    &&& forall|j: int| d < j < s.len() ==> s[j] != '.'
}

/// The position of the last dot of `s` (meaningful when `has_dot(s)`).
pub open spec fn last_dot(s: Seq<char>) -> int {
    choose|d: int| is_last_dot(s, d)
}

/// Generates the file name of the lyrics file that sits beside an
/// audio file: the audio file's name with everything after the last
/// dot replaced by the structured-data extension.
pub fn generate_lyrics_file_name(file: &str) -> (r: String)
    requires
        has_dot(file@),
    ensures
        r@ == file@.take(last_dot(file@)) + ".json"@,
{
    let len = file.unicode_len();
    let mut i: usize = 0;
    let mut dot: usize = 0;
    let mut found = false;
    while i < len
        invariant
            len == file@.len(),
            0 <= i <= len,
            found ==> dot < i && file@[dot as int] == '.' && (forall|j: int|
                dot < j < i ==> file@[j] != '.'),
            !found ==> forall|j: int| 0 <= j < i ==> file@[j] != '.',
        decreases len - i,
    {
        if file.get_char(i) == '.' {
            dot = i;
            found = true;
        }
        i = i + 1;
    }
    proof {
        assert(found) by {
            if !found {
                assert(forall|j: int| 0 <= j < file@.len() ==> file@[j] != '.');
            }
        }
        assert(is_last_dot(file@, dot as int));
        let d = last_dot(file@);
        assert(is_last_dot(file@, d));
        assert(d == dot as int) by {
            if d < dot as int {
                assert(file@[dot as int] != '.');
            } else if d > dot as int {
                assert(file@[d] != '.');
            }
        }
    }
    let prefix = file.substring_char(0, dot);
    let mut result = String::from_str(prefix);
    result.append(".json");
    proof {
        assert(file@.subrange(0, dot as int) =~= file@.take(dot as int));
    }
    result
}

/// After normalization, no placeholder line remains at any position
/// past the first: every merge target has been absorbed.
pub proof fn lemma_norm_no_inner_placeholder(s: Seq<LineModel>)
    ensures
        forall|j: int| 1 <= j < norm(s).len() ==> !is_placeholder(norm(s)[j]),
    decreases s.len(),
{
    if s.len() < 2 {
    } else if is_placeholder(s[1]) {
        let s2 = s.update(0, merge_lines(s[0], s[1])).remove(1);
        lemma_norm_no_inner_placeholder(s2);
        assert(norm(s) == norm(s2));
    } else {
        let u = s.skip(1);
        lemma_norm_no_inner_placeholder(u);
        lemma_norm_keeps_first_words(u);
        assert(norm(s) == s.take(1) + norm(u));
        assert(s.take(1).len() == 1);
        assert forall|j: int| 1 <= j < norm(s).len() implies !is_placeholder(norm(s)[j]) by {
            assert(norm(s)[j] == norm(u)[j - 1]);
            if j == 1 {
                assert(norm(u)[0].words == u[0].words);
                assert(u[0] == s[1]);
                assert(!is_placeholder_words(norm(u)[0].words));
            } else {
                assert(1 <= j - 1 < norm(u).len());
                assert(!is_placeholder(norm(u)[j - 1]));
            }
        }
    }
}

/// The first line of a non-empty sequence keeps its words through
/// normalization: merges change only its end time.
pub proof fn lemma_norm_keeps_first_words(s: Seq<LineModel>)
    requires
        s.len() >= 1,
    ensures
        norm(s).len() >= 1,
        norm(s)[0].words == s[0].words,
    decreases s.len(),
{
    if s.len() < 2 {
    } else if is_placeholder(s[1]) {
        let s2 = s.update(0, merge_lines(s[0], s[1])).remove(1);
        lemma_norm_keeps_first_words(s2);
        assert(s2[0] == merge_lines(s[0], s[1]));
    } else {
        assert(norm(s) == s.take(1) + norm(s.skip(1)));
        assert(norm(s)[0] == s[0]);
    }
}

/// A sequence with no placeholder past the first position is a fixed
/// point of normalization.
pub proof fn lemma_norm_fixed_point(s: Seq<LineModel>)
    requires
        forall|j: int| 1 <= j < s.len() ==> !is_placeholder(s[j]),
    ensures
        norm(s) == s,
    decreases s.len(),
{
    if s.len() < 2 {
    } else {
        assert(!is_placeholder(s[1]));
        let u = s.skip(1);
        assert(forall|j: int| 1 <= j < u.len() ==> u[j] == s[j + 1] && !is_placeholder(u[j]));
        lemma_norm_fixed_point(u);
        assert(s.take(1) + u =~= s);
    }
}

/// Normalization is idempotent: running the fix-up pass on an already
/// normalized document yields the same document.
pub proof fn lemma_norm_idempotent(s: Seq<LineModel>)
    ensures
        norm(norm(s)) == norm(s),
{
    lemma_norm_no_inner_placeholder(s);
    lemma_norm_fixed_point(norm(s));
}

} // verus!
