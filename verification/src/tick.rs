//! Decision logic of the polling tick loop.
//!
//! Once per polling iteration the player samples playtime, advances
//! the lyric bank when it has expired, drives the scroll animator and
//! maps one input event to the side effects it asks for.  The
//! functions here make those decisions on plain values; performing
//! the side effects (audio calls, drawing, sleeping) is left to the
//! unverified shell around the library.

use crate::bank::spec_get_bank;
use crate::bank::LyricsBank;
use crate::lyrics::Lyrics;
use crate::scrolledbuf::ScrollDirection;
use crate::scrolledbuf::ScrolledBuf;
use vstd::prelude::*;

verus! {

/// Time (ms) to wait between successive scroll frames.
pub const SCROLL_SHORT_TIME_MS: u64 = 200;

/// Time (ms) to hold at each end of the scroll before reversing.
pub const SCROLL_PAUSE_TIME_MS: u64 = 3000;

/// Amount a single volume command changes the volume by.
pub const VOL_CHANGE_AMOUNT: u8 = 10;

/// Represents different events that occur when using the keyboard
/// controls.
#[derive(PartialEq, Eq, Structural, Clone, Copy, Debug)]
pub enum DisplayEvent {
    /// The program was requested to resume playback.
    MakePlay,
    /// The program was requested to pause playback.
    MakePause,
    /// The program was requested to jump to the next track in the queue.
    JumpNext,
    /// The program was requested to jump to the previous track in the queue.
    JumpBack,
    /// The program was requested to mute or unmute the audio.
    ToggleMute,
    /// The program was requested to raise the volume one step.
    VolUp,
    /// The program was requested to lower the volume one step.
    VolDown,
    /// The user pressed a key which is not bound to any command.
    Invalid(char),
    /// The program was requested to stop playing and exit.
    Quit,
}

/// The one audio side effect an event asks for.
#[derive(PartialEq, Eq, Structural, Clone, Copy, Debug)]
pub enum PlayerAction {
    /// Leave the audio collaborator alone.
    DoNothing,
    /// Resume audio playback (and the playback clock with it).
    Play,
    /// Pause audio playback (and the playback clock with it).
    Pause,
    /// Mute the audio output.
    Mute,
    /// Unmute the audio output.
    Unmute,
    /// Set the playback volume to the carried percentage.
    SetVolume(u8),
    /// Stop playback for good.
    Stop,
}

/// The status message an event asks the display to show.
#[derive(PartialEq, Eq, Structural, Clone, Copy, Debug)]
pub enum StatusNote {
    /// Playback was resumed.
    Resumed,
    /// Playback was paused.
    Paused,
    /// Audio was muted.
    Muted,
    /// Audio was unmuted.
    Unmuted,
    /// Volume was raised; carries the new percentage.
    VolumeUp(u8),
    /// Volume was lowered; carries the new percentage.
    VolumeDown(u8),
    /// An unbound key was pressed; carries it when it is a printable
    /// letter or digit.
    Unknown(Option<char>),
}

/// What one input event asks the player and the display to do.
#[derive(PartialEq, Eq, Structural, Clone, Copy, Debug)]
pub struct EventPlan {
    /// The audio side effect to perform.
    pub action: PlayerAction,
    /// The new value of the playing/paused indicator, if it changes.
    pub set_playing: Option<bool>,
    /// The status message to show, if any.
    pub note: Option<StatusNote>,
}

/// A volume percentage the player can be at: a multiple of ten up to
/// full volume.
pub open spec fn valid_volume(v: u8) -> bool {
    v <= 100 && v % 10 == 0
}

/// Raises the volume one step; full volume stays as it is.
pub fn inc_volume(v: u8) -> (r: u8)
    requires
        valid_volume(v),
    ensures
        r == if v == 100 {
            v
        } else {
            (v + VOL_CHANGE_AMOUNT) as u8
        },
        valid_volume(r),
{
    if v == 100 {
        v
    } else {
        v + VOL_CHANGE_AMOUNT
    }
}

/// Lowers the volume one step; the lowest audible step stays as it
/// is, so a volume command never silences playback outright.
pub fn dec_volume(v: u8) -> (r: u8)
    requires
        valid_volume(v),
        v >= VOL_CHANGE_AMOUNT,
    ensures
        r == if v == 10 {
            v
        } else {
            (v - VOL_CHANGE_AMOUNT) as u8
        },
        valid_volume(r),
        r >= VOL_CHANGE_AMOUNT,
{
    if v == 10 {
        v
    } else {
        v - VOL_CHANGE_AMOUNT
    }
}

/// An ASCII letter or digit.
pub open spec fn is_ascii_alphanumeric_char(c: char) -> bool {
    ||| 48 <= c as u32 <= 57
    ||| 65 <= c as u32 <= 90
    ||| 97 <= c as u32 <= 122
}

/// Exec check of [`is_ascii_alphanumeric_char`].
fn ascii_alphanumeric(c: char) -> (r: bool)
    ensures
        r == is_ascii_alphanumeric_char(c),
{
    let code = c as u32;
    (48 <= code && code <= 57) || (65 <= code && code <= 90) || (97 <= code && code <= 122)
}

/// The side effects one input event asks for, given whether audio is
/// currently muted and the current volume percentage.
pub fn plan_event(event: DisplayEvent, muted: bool, volume: u8) -> (p: EventPlan)
    requires
        valid_volume(volume),
        event == DisplayEvent::VolDown ==> volume >= VOL_CHANGE_AMOUNT,
    ensures
        p == (match event {
            DisplayEvent::MakePlay => EventPlan {
                action: PlayerAction::Play,
                set_playing: Some(true),
                note: Some(StatusNote::Resumed),
            },
            DisplayEvent::MakePause => EventPlan {
                action: PlayerAction::Pause,
                set_playing: Some(false),
                note: Some(StatusNote::Paused),
            },
            DisplayEvent::ToggleMute => EventPlan {
                action: if muted {
                    PlayerAction::Unmute
                } else {
                    PlayerAction::Mute
                },
                set_playing: None,
                note: Some(
                    if muted {
                        StatusNote::Unmuted
                    } else {
                        StatusNote::Muted
                    },
                ),
            },
            DisplayEvent::JumpNext => EventPlan {
                action: PlayerAction::DoNothing,
                set_playing: None,
                note: None,
            },
            DisplayEvent::JumpBack => EventPlan {
                action: PlayerAction::DoNothing,
                set_playing: None,
                note: None,
            },
            DisplayEvent::VolUp => EventPlan {
                action: PlayerAction::SetVolume(
                    if volume == 100 {
                        volume
                    } else {
                        (volume + VOL_CHANGE_AMOUNT) as u8
                    },
                ),
                set_playing: None,
                note: Some(
                    StatusNote::VolumeUp(
                        if volume == 100 {
                            volume
                        } else {
                            (volume + VOL_CHANGE_AMOUNT) as u8
                        },
                    ),
                ),
            },
            DisplayEvent::VolDown => EventPlan {
                action: PlayerAction::SetVolume(
                    if volume == 10 {
                        volume
                    } else {
                        (volume - VOL_CHANGE_AMOUNT) as u8
                    },
                ),
                set_playing: None,
                note: Some(
                    StatusNote::VolumeDown(
                        if volume == 10 {
                            volume
                        } else {
                            (volume - VOL_CHANGE_AMOUNT) as u8
                        },
                    ),
                ),
            },
            DisplayEvent::Invalid(c) => EventPlan {
                action: PlayerAction::DoNothing,
                set_playing: None,
                note: Some(
                    StatusNote::Unknown(
                        if is_ascii_alphanumeric_char(c) {
                            Some(c)
                        } else {
                            None
                        },
                    ),
                ),
            },
            DisplayEvent::Quit => EventPlan {
                action: PlayerAction::Stop,
                set_playing: None,
                note: None,
            },
        }),
{
    match event {
        DisplayEvent::MakePlay => EventPlan {
            action: PlayerAction::Play,
            set_playing: Some(true),
            note: Some(StatusNote::Resumed),
        },
        DisplayEvent::MakePause => EventPlan {
            action: PlayerAction::Pause,
            set_playing: Some(false),
            note: Some(StatusNote::Paused),
        },
        DisplayEvent::ToggleMute => {
            if muted {
                EventPlan {
                    action: PlayerAction::Unmute,
                    set_playing: None,
                    note: Some(StatusNote::Unmuted),
                }
            } else {
                EventPlan {
                    action: PlayerAction::Mute,
                    set_playing: None,
                    note: Some(StatusNote::Muted),
                }
            }
        },
        DisplayEvent::JumpNext => EventPlan {
            action: PlayerAction::DoNothing,
            set_playing: None,
            note: None,
        },
        DisplayEvent::JumpBack => EventPlan {
            action: PlayerAction::DoNothing,
            set_playing: None,
            note: None,
        },
        DisplayEvent::VolUp => {
            let v = inc_volume(volume);
            EventPlan {
                action: PlayerAction::SetVolume(v),
                set_playing: None,
                note: Some(StatusNote::VolumeUp(v)),
            }
        },
        DisplayEvent::VolDown => {
            let v = dec_volume(volume);
            EventPlan {
                action: PlayerAction::SetVolume(v),
                set_playing: None,
                note: Some(StatusNote::VolumeDown(v)),
            }
        },
        DisplayEvent::Invalid(c) => {
            if ascii_alphanumeric(c) {
                EventPlan {
                    action: PlayerAction::DoNothing,
                    set_playing: None,
                    note: Some(StatusNote::Unknown(Some(c))),
                }
            } else {
                EventPlan {
                    action: PlayerAction::DoNothing,
                    set_playing: None,
                    note: Some(StatusNote::Unknown(None)),
                }
            }
        },
        DisplayEvent::Quit => EventPlan {
            action: PlayerAction::Stop,
            set_playing: None,
            note: None,
        },
    }
}

/// States of one playback session.
#[derive(PartialEq, Eq, Structural, Clone, Copy, Debug)]
pub enum SessionState {
    /// Playback is paused; the clock is frozen.
    Paused,
    /// Playback is running.
    Playing,
    /// The audio collaborator reported no more audio queued; the loop
    /// exits.
    Finished,
}

/// One transition of the session state machine: the session finishes
/// as soon as the audio collaborator reports it is done or a quit is
/// requested; otherwise play and pause commands move between the two
/// live states and every other event leaves the state alone.
pub fn session_transition(
    state: SessionState,
    event: Option<DisplayEvent>,
    audio_finished: bool,
) -> (r: SessionState)
    ensures
        r == (if audio_finished {
            SessionState::Finished
        } else {
            match event {
                Some(DisplayEvent::Quit) => SessionState::Finished,
                Some(DisplayEvent::MakePlay) => SessionState::Playing,
                Some(DisplayEvent::MakePause) => SessionState::Paused,
                _ => state,
            }
        }),
{
    if audio_finished {
        return SessionState::Finished;
    }
    match event {
        Some(DisplayEvent::Quit) => SessionState::Finished,
        Some(DisplayEvent::MakePlay) => SessionState::Playing,
        Some(DisplayEvent::MakePause) => SessionState::Paused,
        _ => state,
    }
}

/// The bank the tick loop uses at playtime `playtime_ms`: the current
/// bank, or a fresh one anchored at index 0 when none exists yet,
/// advanced once when it has expired and more lines are available.
pub fn bank_step(doc: &Lyrics, current: Option<LyricsBank>, playtime_ms: u64) -> (b: LyricsBank)
    requires
        match current {
            Some(c) => c.wf(*doc),
            None => true,
        },
    ensures
        b.wf(*doc),
        ({
            let base = match current {
                Some(c) => c,
                None => spec_get_bank(*doc, None),
            };
            b == if base.spec_expired(*doc, playtime_ms) && base.window_end_index
                < doc.lines_model().len() {
                spec_get_bank(*doc, Some(base))
            } else {
                base
            }
        }),
{
    let bank = match current {
        Some(c) => c,
        None => LyricsBank::get_bank(doc, None),
    };
    if bank.is_expired(doc, playtime_ms) && bank.next_available(doc) {
        LyricsBank::get_bank(doc, Some(&bank))
    } else {
        bank
    }
}

/// One scroll emission, once the scroll timer has expired: hands back
/// the frame to draw, flips the direction when the bounce boundary is
/// reached, advances one step, and says how long to wait before the
/// next emission (the long hold at a boundary, the short gap
/// otherwise).
pub fn scroll_advance(buf: &mut ScrolledBuf) -> (r: (String, u64))
    requires
        old(buf).wf(),
    ensures
        final(buf).wf(),
        r.0@ == old(buf).spec_frame(),
        r.0@.len() == old(buf).visible_len,
        final(buf).text == old(buf).text,
        final(buf).visible_len == old(buf).visible_len,
        old(buf).steps_to_finish() == 0 ==> {
            &&& r.1 == SCROLL_PAUSE_TIME_MS
            &&& final(buf).dir == (match old(buf).dir {
                ScrollDirection::RightToLeft => ScrollDirection::LeftToRight,
                ScrollDirection::LeftToRight => ScrollDirection::RightToLeft,
            })
            &&& final(buf).steps_to_finish() == final(buf).text_len() + final(buf).visible_len
        },
        old(buf).steps_to_finish() != 0 ==> {
            &&& r.1 == SCROLL_SHORT_TIME_MS
            &&& final(buf).dir == old(buf).dir
            &&& final(buf).steps_to_finish() == old(buf).steps_to_finish() - 1
        },
{
    let frame = buf.current_frame();
    let delay: u64 = if buf.is_finished() {
        buf.swap_direction();
        SCROLL_PAUSE_TIME_MS
    } else {
        SCROLL_SHORT_TIME_MS
    };
    buf.next_frame();
    (frame, delay)
}

/// The minute and second digits of the `mm:ss` time display for a
/// playtime of `seconds` whole seconds.
pub fn pretty_time_parts(seconds: u64) -> (r: (u64, u64))
    ensures
        r.0 == seconds / 60,
        r.1 == seconds % 60,
        r.1 < 60,
        r.0 * 60 + r.1 == seconds,
{
    (seconds / 60, seconds % 60)
}

/// How many filled blocks a progress bar of `max_blocks` blocks shows
/// after `played_ms` of `total_ms` have played: the played share of
/// the bar, never more than the bar itself.
pub fn progress_blocks(played_ms: u64, total_ms: u64, max_blocks: u64) -> (r: u64)
    requires
        total_ms > 0,
    ensures
        r == vstd::math::min(
            (played_ms * max_blocks) as int / (total_ms as int),
            max_blocks as int,
        ),
        r <= max_blocks,
{
    proof {
        vstd::arithmetic::mul::lemma_mul_upper_bound(
            played_ms as int,
            u64::MAX as int,
            max_blocks as int,
            u64::MAX as int,
        );
    }
    let wide: u128 = (played_ms as u128) * (max_blocks as u128) / (total_ms as u128);
    if wide >= max_blocks as u128 {
        max_blocks
    } else {
        wide as u64
    }
}

} // verus!
