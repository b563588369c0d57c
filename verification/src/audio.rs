//! Audio playback modes and the per-mode player settings.
//!
//! The host cycles through four listening modes. Each mode owns a family
//! of playlists, recognised by a fixed name prefix, and a bundle of
//! player flags (repeat, random, single, consume) plus whether the
//! current playlist must be saved back when leaving it. Meditation mode
//! is only offered at night; outside that window the cycle skips it.

use vstd::prelude::*;

verus! {

/// Seconds in one day; times of day live in `0..SECONDS_PER_DAY`.
pub const SECONDS_PER_DAY: u32 = 86400;

/// Meditation mode opens at 21:30...
pub const MEDITATION_START_SECS: u32 = 77400;

/// ... and closes at 09:00.
pub const MEDITATION_END_SECS: u32 = 32400;

/// The four listening modes the panel cycles through.
#[derive(Clone, Copy, PartialEq, Eq, Structural, Debug)]
pub enum AudioMode {
    Music,
    Book,
    Podcast,
    Meditation,
}

/// The player flags a mode runs under.
#[derive(Clone, Copy, PartialEq, Eq, Structural, Debug)]
pub struct Settings {
    pub repeat: bool,
    pub random: bool,
    pub single: bool,
    pub consume: bool,
    /// Whether the playlist must be written back when leaving it, so that
    /// consumed entries stay consumed.
    pub save_playlist: bool,
}

impl Default for Settings {
    /// All flags off.
    fn default() -> (s: Settings)
        ensures
            s == (Settings {
                repeat: false,
                random: false,
                single: false,
                consume: false,
                save_playlist: false,
            }),
    {
        Settings { repeat: false, random: false, single: false, consume: false, save_playlist: false }
    }
}

impl AudioMode {
    /// The mode after this one in the fixed cycle.
    pub open spec fn spec_next(self) -> AudioMode {
        match self {
            AudioMode::Music => AudioMode::Book,
            AudioMode::Book => AudioMode::Podcast,
            AudioMode::Podcast => AudioMode::Meditation,
            AudioMode::Meditation => AudioMode::Music,
        }
    }

    /// The playlist-name prefix that marks a playlist as belonging to
    /// this mode.
    pub open spec fn spec_prefix(self) -> Seq<char> {
        match self {
            AudioMode::Music => "music_"@,
            AudioMode::Book => "book_"@,
            AudioMode::Podcast => "podcast_"@,
            AudioMode::Meditation => "meditation_"@,
        }
    }

    /// The player flags this mode runs under: spoken-word modes consume
    /// entries and save their playlist; meditation plays one track.
    pub open spec fn spec_settings(self) -> Settings {
        match self {
            AudioMode::Music => Settings {
                repeat: false,
                random: false,
                single: false,
                consume: false,
                save_playlist: false,
            },
            AudioMode::Book | AudioMode::Podcast => Settings {
                repeat: false,
                random: false,
                single: false,
                consume: true,
                save_playlist: true,
            },
            AudioMode::Meditation => Settings {
                repeat: false,
                random: false,
                single: true,
                consume: false,
                save_playlist: false,
            },
        }
    }

    /// Step to the next mode in the cycle.
    pub fn next(&mut self)
        ensures
            *final(self) == old(self).spec_next(),
    {
        *self = match self {
            AudioMode::Music => AudioMode::Book,
            AudioMode::Book => AudioMode::Podcast,
            AudioMode::Podcast => AudioMode::Meditation,
            AudioMode::Meditation => AudioMode::Music,
        };
    }

    /// The playlist-name prefix of this mode.
    pub fn to_prefix(&self) -> (prefix: &'static str)
        ensures
            prefix@ == self.spec_prefix(),
    {
        match self {
            AudioMode::Music => "music_",
            AudioMode::Book => "book_",
            AudioMode::Podcast => "podcast_",
            AudioMode::Meditation => "meditation_",
        }
    }

    /// The player flags of this mode.
    pub fn settings(&self) -> (s: Settings)
        ensures
            s == self.spec_settings(),
    {
        match self {
            AudioMode::Music => Settings {
                repeat: false,
                random: false,
                single: false,
                consume: false,
                save_playlist: false,
            },
            AudioMode::Book | AudioMode::Podcast => Settings {
                repeat: false,
                random: false,
                single: false,
                consume: true,
                save_playlist: true,
            },
            AudioMode::Meditation => Settings {
                repeat: false,
                random: false,
                single: true,
                consume: false,
                save_playlist: false,
            },
        }
    }
}

/// Whether meditation mode is on offer at `now`, a time of day in
/// seconds. The window opens at 21:30 and runs overnight until 09:00.
pub open spec fn spec_meditation_time(now: u32) -> bool {
    MEDITATION_START_SECS < now || now < MEDITATION_END_SECS
}

/// Is meditation mode on offer at this time of day?
pub fn is_meditation_time(now: u32) -> (r: bool)
    requires
        now < SECONDS_PER_DAY,
    ensures
        r == spec_meditation_time(now),
{
    MEDITATION_START_SECS < now || now < MEDITATION_END_SECS
}

/// The mode the cycle lands on when stepping from `mode` at time of day
/// `now`: the next mode, except that meditation is skipped outside its
/// window.
pub open spec fn spec_next_mode_at(mode: AudioMode, now: u32) -> AudioMode {
    if mode.spec_next() == AudioMode::Meditation && !spec_meditation_time(now) {
        mode.spec_next().spec_next()
    } else {
        mode.spec_next()
    }
}

/// Step the mode cycle as it stands at time of day `now`.
pub fn next_mode_at(mode: AudioMode, now: u32) -> (next: AudioMode)
    requires
        now < SECONDS_PER_DAY,
    ensures
        next == spec_next_mode_at(mode, now),
{
    let mut next = mode;
    next.next();
    if next == AudioMode::Meditation && !is_meditation_time(now) {
        next.next();
    }
    next
}

/// Relies on chrono's `Local::now` and `Timelike::num_seconds_from_midnight`:
/// the number of non-leap seconds since the last midnight, local time,
/// which is always under a day.
#[verifier::external_body]
pub(crate) fn seconds_of_day_now() -> (now: u32)
    ensures
        now < SECONDS_PER_DAY,
{
    chrono::Timelike::num_seconds_from_midnight(&chrono::Local::now().time())
}

/// Is meditation mode on offer right now? The clock decides; whatever it
/// reads, the answer follows `spec_meditation_time` for that reading.
pub fn is_meditation_time_now() -> (r: bool)
    ensures
        exists|now: u32| now < SECONDS_PER_DAY && r == spec_meditation_time(now),
{
    let now = seconds_of_day_now();
    is_meditation_time(now)
}

/// Step the mode cycle as it stands right now. The clock decides whether
/// meditation is skipped; whatever it reads, the step follows
/// `spec_next_mode_at` for that reading.
pub fn next_mode_now(mode: AudioMode) -> (next: AudioMode)
    ensures
        exists|now: u32| now < SECONDS_PER_DAY && next == spec_next_mode_at(mode, now),
{
    let now = seconds_of_day_now();
    next_mode_at(mode, now)
}

} // verus!
