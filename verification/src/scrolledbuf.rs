//! Deterministic bounce-scroll frame generator over a fixed string.
//!
//! A `ScrolledBuf` slides a fixed-width window over a text to animate
//! horizontal scrolling of an overlong label.  Characters are indexed
//! by Unicode character position; indices outside the text render as
//! spaces.

use vstd::prelude::*;

verus! {

/// Scroll direction
#[derive(PartialEq, Eq, Structural, Clone, Copy, Debug)]
pub enum ScrollDirection {
    /// Scroll text from right to left
    RightToLeft,
    /// Scroll text from left to right
    LeftToRight,
}

/// Represents scrollable text.
///
/// The visible frame shows the characters at text indices
/// `[step, step + visible_len)`; indices outside `[0, text length)`
/// render as spaces.  `step` ranges over `[-visible_len - 1,
/// text length + 1]`, and the direction flips exactly at the two
/// boundary values.
pub struct ScrolledBuf {
    /// Text to be scrolled
    pub text: String,
    /// A counter to represent the internal state
    pub step: i64,
    /// Scroll direction
    pub dir: ScrollDirection,
    /// Amount of visible characters
    pub visible_len: i64,
}

/// Relies on `String::push`: appends the given character to the end of
/// the string.
#[verifier::external_body]
fn push_char(s: &mut String, c: char)
    ensures
        final(s)@ == old(s)@.push(c),
{
    s.push(c)
}

impl ScrolledBuf {
    /// Character length of the scrolled text.
    pub open spec fn text_len(self) -> int {
        self.text@.len() as int
    }

    /// Well-formedness: the window width is non-negative, the step
    /// counter stays inside its bounce range, and the sizes leave room
    /// for the index arithmetic.
    pub open spec fn wf(self) -> bool {
        &&& 0 <= self.visible_len
        &&& -self.visible_len - 1 <= self.step <= self.text_len() + 1
        &&& self.text_len() + self.visible_len + 2 <= i64::MAX
    }

    /// The character shown for text index `i`: the text's character
    /// inside the text, a space outside it.
    pub open spec fn frame_char(self, i: int) -> char {
        if 0 <= i < self.text_len() {
            self.text@[i]
        } else {
            ' '
        }
    }

    /// The frame shown at the current step: the characters at text
    /// indices `[step, step + visible_len)`.
    pub open spec fn spec_frame(self) -> Seq<char> {
        Seq::new(self.visible_len as nat, |j: int| self.frame_char(self.step + j))
    }

    /// How many `next_frame` calls remain until the scroll reaches the
    /// boundary value of the current direction.
    pub open spec fn steps_to_finish(self) -> int {
        match self.dir {
            ScrollDirection::LeftToRight => self.step + self.visible_len + 1,
            ScrollDirection::RightToLeft => self.text_len() + 1 - self.step,
        }
    }

    /// The starting step value of a direction: `text length` for
    /// LeftToRight, `-visible_len` for RightToLeft.
    pub open spec fn start_step(self, dir: ScrollDirection) -> int {
        match dir {
            ScrollDirection::LeftToRight => self.text_len(),
            ScrollDirection::RightToLeft => -self.visible_len,
        }
    }

    /// The pure step transition of one `next_frame` call.
    pub open spec fn spec_next_frame(self) -> ScrolledBuf {
        match self.dir {
            ScrollDirection::LeftToRight => ScrolledBuf { step: (self.step - 1) as i64, ..self },
            ScrollDirection::RightToLeft => ScrolledBuf { step: (self.step + 1) as i64, ..self },
        }
    }

    /// Creates a new scrollable text object showing `visible`
    /// characters of `text`, positioned at the starting step of `dir`.
    ///
    /// From this state the scroll finishes after exactly
    /// `text length + visible + 1` calls to `next_frame`, for either
    /// direction.
    pub fn new(text: String, visible: i32, dir: ScrollDirection) -> (b: ScrolledBuf)
        requires
            0 <= visible,
            text@.len() + visible + 2 <= i64::MAX,
        ensures
            b.wf(),
            b.text == text,
            b.dir == dir,
            b.visible_len == visible,
            b.step == b.start_step(dir),
            b.steps_to_finish() == b.text_len() + b.visible_len + 1,
    {
        let visible: i64 = visible as i64;
        let len: usize = text.as_str().unicode_len();
        let step: i64 = match dir {
            ScrollDirection::RightToLeft => -visible,
            ScrollDirection::LeftToRight => len as i64,
        };
        ScrolledBuf { text, step, dir, visible_len: visible }
    }

    /// Return the current state of the buffer.
    /// The length of the returned string is always `visible_len`.
    pub fn current_frame(&self) -> (r: String)
        requires
            self.wf(),
        ensures
            r@ == self.spec_frame(),
            r@.len() == self.visible_len,
    {
        let mut result = String::new();
        let len: usize = self.text.as_str().unicode_len();
        let mut j: i64 = 0;
        while j < self.visible_len
            invariant
                self.wf(),
                len == self.text@.len(),
                0 <= j <= self.visible_len,
                result@.len() == j,
                forall|k: int| 0 <= k < j ==> result@[k] == self.frame_char(self.step + k),
            decreases self.visible_len - j,
        {
            let i: i64 = self.step + j;
            let c: char = if 0 <= i && i < len as i64 {
                self.text.as_str().get_char(i as usize)
            } else {
                ' '
            };
            push_char(&mut result, c);
            j = j + 1;
        }
        proof {
            assert(result@ =~= self.spec_frame());
        }
        result
    }

    /// Move to the next frame.
    /// *(Scrolls the text by one step.)*
    ///
    /// Must not be called once `is_finished` returns true: the step
    /// counter would leave its bounce range.
    pub fn next_frame(&mut self)
        requires
            old(self).wf(),
            old(self).steps_to_finish() > 0,
        ensures
            final(self).wf(),
            *final(self) == old(self).spec_next_frame(),
            final(self).steps_to_finish() == old(self).steps_to_finish() - 1,
    {
        match self.dir {
            ScrollDirection::RightToLeft => self.step = self.step + 1,
            ScrollDirection::LeftToRight => self.step = self.step - 1,
        }
    }

    /// Move back to the previous frame.
    /// *(Scrolls the text by one step in the opposite direction.)*
    ///
    /// Must not be called at the starting step of the current
    /// direction: the step counter would leave its bounce range.
    pub fn previous_frame(&mut self)
        requires
            old(self).wf(),
            old(self).steps_to_finish() <= old(self).text_len() + old(self).visible_len,
        ensures
            final(self).wf(),
            final(self).text == old(self).text,
            final(self).dir == old(self).dir,
            final(self).visible_len == old(self).visible_len,
            final(self).steps_to_finish() == old(self).steps_to_finish() + 1,
    {
        match self.dir {
            ScrollDirection::RightToLeft => self.step = self.step - 1,
            ScrollDirection::LeftToRight => self.step = self.step + 1,
        }
    }

    /// Reset the internal step counter to its initial value.
    /// *(Restarts the scrolling effect)*
    pub fn reset(&mut self)
        requires
            old(self).wf(),
        ensures
            final(self).wf(),
            final(self).text == old(self).text,
            final(self).dir == old(self).dir,
            final(self).visible_len == old(self).visible_len,
            final(self).step == final(self).start_step(final(self).dir),
            final(self).steps_to_finish() == final(self).text_len() + final(self).visible_len + 1,
    {
        let len: usize = self.text.as_str().unicode_len();
        self.step = match self.dir {
            ScrollDirection::RightToLeft => -self.visible_len,
            ScrollDirection::LeftToRight => len as i64,
        };
    }

    /// Swap the direction of scrolling to the opposite direction and
    /// reset the step counter to that direction's starting value.
    pub fn swap_direction(&mut self)
        requires
            old(self).wf(),
        ensures
            final(self).wf(),
            final(self).text == old(self).text,
            final(self).visible_len == old(self).visible_len,
            final(self).dir == (match old(self).dir {
                ScrollDirection::RightToLeft => ScrollDirection::LeftToRight,
                ScrollDirection::LeftToRight => ScrollDirection::RightToLeft,
            }),
            final(self).step == final(self).start_step(final(self).dir),
            final(self).steps_to_finish() == final(self).text_len() + final(self).visible_len + 1,
    {
        self.dir = match self.dir {
            ScrollDirection::RightToLeft => ScrollDirection::LeftToRight,
            ScrollDirection::LeftToRight => ScrollDirection::RightToLeft,
        };
        self.reset();
    }

    /// Returns whether the scrolling effect is finished.
    /// `next_frame` should __not__ be called if this returns true.
    pub fn is_finished(&self) -> (r: bool)
        requires
            self.wf(),
        ensures
            r == (self.steps_to_finish() == 0),
    {
        let len: usize = self.text.as_str().unicode_len();
        match self.dir {
            ScrollDirection::RightToLeft => self.step == len as i64 + 1,
            ScrollDirection::LeftToRight => self.step == -self.visible_len - 1,
        }
    }
}

/// The buffer state after `k` calls of `next_frame`.
pub open spec fn after_frames(b: ScrolledBuf, k: nat) -> ScrolledBuf
    decreases k,
{
    if k == 0 {
        b
    } else {
        after_frames(b, (k - 1) as nat).spec_next_frame()
    }
}

/// Each `next_frame` call brings the finish boundary one step closer:
/// after `k` calls, exactly `k` fewer steps remain, the state is still
/// well formed, and the text, direction and window width are unchanged.
pub proof fn lemma_after_frames_countdown(b: ScrolledBuf, k: nat)
    requires
        b.wf(),
        k <= b.steps_to_finish(),
    ensures
        after_frames(b, k).wf(),
        after_frames(b, k).steps_to_finish() == b.steps_to_finish() - k,
        after_frames(b, k).text == b.text,
        after_frames(b, k).dir == b.dir,
        after_frames(b, k).visible_len == b.visible_len,
    decreases k,
{
    if k > 0 {
        lemma_after_frames_countdown(b, (k - 1) as nat);
    }
}

/// From the initial state of either direction, the scroll is finished
/// after exactly `text length + visible_len + 1` calls of `next_frame`:
/// not one call earlier.
pub proof fn lemma_finished_after_exact_calls(b: ScrolledBuf, k: nat)
    requires
        b.wf(),
        b.step == b.start_step(b.dir),
        k <= b.text_len() + b.visible_len + 1,
    ensures
        after_frames(b, k).steps_to_finish() == 0 <==> k == b.text_len() + b.visible_len + 1,
{
    lemma_after_frames_countdown(b, k);
}

} // verus!
