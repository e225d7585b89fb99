//! Forward-only windowed cursor over a lyric document.
//!
//! A `LyricsBank` selects a small contiguous index range of a
//! `Lyrics` document so that the active line for a given playtime is
//! found by scanning the window alone, not the whole document.  Banks
//! only ever move forward: a new bank starts where the previous
//! window ended and never re-examines discarded lines, which is sound
//! as long as the playtimes handed to the bank sequence never
//! decrease.

use crate::lyrics::LineModel;
use crate::lyrics::Lyrics;
use crate::lyrics::LyricsEntry;
use vstd::prelude::*;

verus! {

/// Number of lines a fresh bank window holds, when the document still
/// has that many beyond the window's anchor.
pub const BANK_WINDOW: usize = 10;

/// Whether playtime `t` falls inside the line's half-open interval
/// `[start_ms, end_ms)`: at the start the line is active, at the end
/// it no longer is.
pub open spec fn line_active(m: LineModel, t: u64) -> bool {
    m.start_ms <= t < m.end_ms
}

/// The smallest index in `[lo, hi)` whose line contains playtime `t`,
/// if any line there does.
pub open spec fn first_active(s: Seq<LineModel>, lo: int, hi: int, t: u64) -> Option<int>
    decreases hi - lo,
{
    if lo >= hi {
        None
    } else if line_active(s[lo], t) {
        Some(lo)
    } else {
        first_active(s, lo + 1, hi, t)
    }
}

/// What [`first_active`] returns: the least index of an active line in
/// the range, or nothing when the range holds no active line.
pub proof fn lemma_first_active_spec(s: Seq<LineModel>, lo: int, hi: int, t: u64)
    requires
        0 <= lo,
        hi <= s.len(),
    ensures
        match first_active(s, lo, hi, t) {
            Some(i) => {
                &&& lo <= i < hi
                &&& line_active(s[i], t)
                &&& forall|j: int| lo <= j < i ==> !line_active(#[trigger] s[j], t)
            },
            None => forall|j: int| lo <= j < hi ==> !line_active(#[trigger] s[j], t),
        },
    decreases hi - lo,
{
    if lo < hi && !line_active(s[lo], t) {
        lemma_first_active_spec(s, lo + 1, hi, t);
    }
}

/// The bank that [`LyricsBank::get_bank`] yields: anchored at index 0
/// with no previous bank, at the previous window's end otherwise, and
/// extending over the next `BANK_WINDOW` lines or to the document's
/// end if fewer remain.
pub open spec fn spec_get_bank(doc: Lyrics, previous: Option<LyricsBank>) -> LyricsBank {
    let start: int = match previous {
        Some(p) => p.window_end_index as int,
        None => 0,
    };
    LyricsBank {
        window_start_index: start as usize,
        window_end_index: vstd::math::min(
            start + BANK_WINDOW,
            doc.lines_model().len() as int,
        ) as usize,
    }
}

/// A non-owning view into a lyric document selecting the contiguous
/// index range `[window_start_index, window_end_index)`.
///
/// A bank is only ever created anchored at index 0 or at the end of a
/// previous bank's window, so the cursor it implements moves forward
/// only.
#[derive(PartialEq, Eq, Structural, Clone, Copy, Debug)]
pub struct LyricsBank {
    /// First line index inside the window.
    pub window_start_index: usize,
    /// One past the last line index inside the window.
    pub window_end_index: usize,
}

impl LyricsBank {
    /// The window is a valid index range of the document.
    pub open spec fn wf(self, doc: Lyrics) -> bool {
        self.window_start_index <= self.window_end_index <= doc.lines_model().len()
    }

    /// Whether the window no longer offers coverage at playtime `t`:
    /// `t` is at or past the end of the last line inside the window,
    /// or the window is empty.
    pub open spec fn spec_expired(self, doc: Lyrics, t: u64) -> bool {
        if self.window_start_index == self.window_end_index {
            true
        } else {
            t >= doc.lines_model()[self.window_end_index - 1].end_ms
        }
    }

    /// The only way a bank is created.  With no previous bank the
    /// window anchors at index 0; with one it anchors at the previous
    /// window's end.  The window extends over the next `BANK_WINDOW`
    /// lines, or to the document's end if fewer remain.
    pub fn get_bank(doc: &Lyrics, previous: Option<&LyricsBank>) -> (b: LyricsBank)
        requires
            match previous {
                Some(p) => p.wf(*doc),
                None => true,
            },
        ensures
            b == spec_get_bank(
                *doc,
                match previous {
                    Some(p) => Some(*p),
                    None => None,
                },
            ),
            b.wf(*doc),
            b.window_start_index == match previous {
                Some(p) => p.window_end_index,
                None => 0usize,
            },
            match previous {
                Some(p) => b.window_start_index >= p.window_start_index,
                None => true,
            },
    {
        let start: usize = match previous {
            Some(p) => p.window_end_index,
            None => 0,
        };
        let len: usize = doc.lines.len();
        let end: usize = if len - start < BANK_WINDOW {
            len
        } else {
            start + BANK_WINDOW
        };
        LyricsBank { window_start_index: start, window_end_index: end }
    }

    /// True when `t` is at or past the end of the last line inside the
    /// window: the window no longer contains the active interval and
    /// no future coverage remains within it.
    pub fn is_expired(&self, doc: &Lyrics, playtime_ms: u64) -> (r: bool)
        requires
            self.wf(*doc),
        ensures
            r == self.spec_expired(*doc, playtime_ms),
    {
        if self.window_start_index == self.window_end_index {
            true
        } else {
            playtime_ms >= doc.lines[self.window_end_index - 1].end_ms
        }
    }

    /// True when the document has at least one more line beyond the
    /// window's end, so advancing would yield a non-empty bank.
    pub fn next_available(&self, doc: &Lyrics) -> (r: bool)
        requires
            self.wf(*doc),
        ensures
            r == (self.window_end_index < doc.lines_model().len()),
    {
        self.window_end_index < doc.lines.len()
    }

    /// Scans only the lines inside the window for the first one whose
    /// half-open interval `[start_ms, end_ms)` contains `playtime_ms`,
    /// and returns it; returns nothing when the playtime falls in a
    /// gap or before/after all lines of the window.  Never returns a
    /// line from outside the window.
    pub fn get_active<'a>(&self, doc: &'a Lyrics, playtime_ms: u64) -> (r: Option<
        &'a LyricsEntry,
    >)
        requires
            self.wf(*doc),
        ensures
            ({
                let fa = first_active(
                    doc.lines_model(),
                    self.window_start_index as int,
                    self.window_end_index as int,
                    playtime_ms,
                );
                match r {
                    Some(line) => fa is Some && line@ == doc.lines_model()[fa.unwrap()],
                    None => fa is None,
                }
            }),
    {
        let ghost s = doc.lines_model();
        let ghost hi = self.window_end_index as int;
        let mut i: usize = self.window_start_index;
        while i < self.window_end_index
            invariant
                self.wf(*doc),
                s == doc.lines_model(),
                hi == self.window_end_index as int,
                self.window_start_index <= i <= self.window_end_index,
                first_active(s, self.window_start_index as int, hi, playtime_ms)
                    == first_active(s, i as int, hi, playtime_ms),
            decreases self.window_end_index - i,
        {
            let line = &doc.lines[i];
            if line.start_ms <= playtime_ms && playtime_ms < line.end_ms {
                return Some(line);
            }
            i = i + 1;
        }
        None
    }
}

/// Active lines are unique: in a document whose lines are sorted by
/// start and pairwise non-overlapping, at most one line's half-open
/// interval contains any given playtime.
pub proof fn lemma_active_unique(doc: Lyrics, t: u64, i: int, j: int)
    requires
        doc.sorted_by_start(),
        doc.non_overlapping(),
        0 <= i < doc.lines_model().len(),
        0 <= j < doc.lines_model().len(),
        line_active(doc.lines_model()[i], t),
        line_active(doc.lines_model()[j], t),
    ensures
        i == j,
{
    let s = doc.lines_model();
    if i < j {
        assert(s[i].end_ms <= s[i + 1].start_ms);
        if i + 1 < j {
            assert(s[i + 1].start_ms < s[j].start_ms);
        }
    }
    if j < i {
        assert(s[j].end_ms <= s[j + 1].start_ms);
        if j + 1 < i {
            assert(s[j + 1].start_ms < s[i].start_ms);
        }
    }
}

/// The forward-only cursor misses nothing under monotone playback: if
/// every line discarded before the window's start has already ended by
/// playtime `t`, then any line of the document active at `t` lies at
/// or past the window's start.
pub proof fn lemma_window_covers(doc: Lyrics, b: LyricsBank, t: u64, i: int)
    requires
        b.wf(doc),
        forall|k: int|
            0 <= k < b.window_start_index ==> (#[trigger] doc.lines_model()[k]).end_ms <= t,
        0 <= i < doc.lines_model().len(),
        line_active(doc.lines_model()[i], t),
    ensures
        i >= b.window_start_index,
{
}

/// What `get_active` finds is exact for the whole document, not just
/// the window: in a sorted, non-overlapping document, once every line
/// before the window has ended by playtime `t`, the window scan yields
/// the unique line of the document whose interval contains `t`, or
/// reports a gap when no line up to the window's end contains it.
pub proof fn lemma_bank_lookup_exact(doc: Lyrics, b: LyricsBank, t: u64)
    requires
        doc.sorted_by_start(),
        doc.non_overlapping(),
        b.wf(doc),
        forall|k: int|
            0 <= k < b.window_start_index ==> (#[trigger] doc.lines_model()[k]).end_ms <= t,
    ensures
        ({
            let s = doc.lines_model();
            match first_active(s, b.window_start_index as int, b.window_end_index as int, t) {
                Some(i) => {
                    &&& b.window_start_index <= i < b.window_end_index
                    &&& line_active(s[i], t)
                    &&& forall|j: int|
                        0 <= j < s.len() && line_active(#[trigger] s[j], t) ==> j == i
                },
                None => forall|j: int|
                    0 <= j < b.window_end_index ==> !line_active(#[trigger] s[j], t),
            }
        }),
{
    let s = doc.lines_model();
    let lo = b.window_start_index as int;
    let hi = b.window_end_index as int;
    lemma_first_active_spec(s, lo, hi, t);
    match first_active(s, lo, hi, t) {
        Some(i) => {
            assert forall|j: int| 0 <= j < s.len() && line_active(#[trigger] s[j], t) implies j
                == i by {
                lemma_active_unique(doc, t, i, j);
            }
        },
        None => {
            assert forall|j: int| 0 <= j < hi implies !line_active(#[trigger] s[j], t) by {
                if j < lo {
                    assert(s[j].end_ms <= t);
                }
            }
        },
    }
}

} // verus!
