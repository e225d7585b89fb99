//! Playback-time synchronization engine for a terminal lyrics player.
//!
//! The crate provides the pure, verified core of the player: a pausable
//! playback clock, a timestamped lyric document with its normalization
//! pass, a forward-only windowed cursor ("bank") for active-line lookup,
//! a bounce-scroll text animator, a single-shot deadline timer, and the
//! decision logic of the polling tick loop.  Audio output, file reading
//! and terminal drawing live outside this crate and hand plain values in.

pub mod bank;
pub mod clock;
pub mod lyrics;
pub mod scrolledbuf;
pub mod tick;
pub mod timer;

pub use bank::LyricsBank;
pub use clock::PausableClock;
pub use lyrics::Lyrics;
pub use lyrics::LyricsEntry;
pub use lyrics::LyricsError;
pub use scrolledbuf::ScrollDirection;
pub use scrolledbuf::ScrolledBuf;
pub use tick::DisplayEvent;
pub use tick::EventPlan;
pub use tick::PlayerAction;
pub use tick::SessionState;
pub use tick::StatusNote;
pub use timer::Timer;
