//! The pure decisions inside the playback control calls.
//!
//! Talking to the music daemon is the caller's business; what to tell it
//! is decided here: where a rewind or a skip lands, which operation a
//! toggle needs, what follows a pause or a resume, and whether shuffle
//! belongs on for a playlist.

use vstd::prelude::*;

use crate::audio::AudioMode;
use crate::text::{is_suffix_of, str_ends_with};

verus! {

/// How far a skip jumps or a rewind pulls back, in seconds.
pub const SEEK_STEP_SECS: u64 = 15;

/// A track restarts from the top only when the pause was longer than
/// this, in seconds.
pub const SONG_RESTART_THRESHOLD_SECS: u64 = 60;

/// ... and only when more than this much of the track is left, in
/// seconds.
pub const ALMOST_OVER_SECS: u64 = 10;

/// Where a rewind of `by_secs` from `elapsed_secs` lands: never before
/// the start of the track.
pub fn rewind_target(elapsed_secs: u64, by_secs: u64) -> (target: u32)
    requires
        elapsed_secs <= u32::MAX,
    ensures
        target == if elapsed_secs >= by_secs {
            elapsed_secs - by_secs
        } else {
            0
        },
{
    if elapsed_secs >= by_secs {
        (elapsed_secs - by_secs) as u32
    } else {
        0
    }
}

/// Where a skip forward of one step from `elapsed_secs` lands.
pub fn skip_target(elapsed_secs: u64) -> (target: u32)
    requires
        elapsed_secs + SEEK_STEP_SECS <= u32::MAX,
    ensures
        target == elapsed_secs + SEEK_STEP_SECS,
{
    (elapsed_secs + SEEK_STEP_SECS) as u32
}

/// The daemon call a toggle must make: a stopped player needs `play`,
/// anything else pauses or resumes.
#[derive(Clone, Copy, PartialEq, Eq, Structural, Debug)]
pub enum ToggleOp {
    Play,
    TogglePause,
}

/// What bookkeeping follows a toggle: a pause stores when the playlist
/// was left; a resume decides whether to rewind.
#[derive(Clone, Copy, PartialEq, Eq, Structural, Debug)]
pub enum ToggleFollowUp {
    StorePauseTime,
    RewindAfterPause,
}

/// Plan a playback toggle from the player's state before it.
pub fn toggle_playback_plan(was_playing: bool, is_stopped: bool) -> (plan: (ToggleOp, ToggleFollowUp))
    ensures
        plan.0 == if is_stopped {
            ToggleOp::Play
        } else {
            ToggleOp::TogglePause
        },
        plan.1 == if was_playing {
            ToggleFollowUp::StorePauseTime
        } else {
            ToggleFollowUp::RewindAfterPause
        },
{
    let op = if is_stopped {
        ToggleOp::Play
    } else {
        ToggleOp::TogglePause
    };
    let follow_up = if was_playing {
        ToggleFollowUp::StorePauseTime
    } else {
        ToggleFollowUp::RewindAfterPause
    };
    (op, follow_up)
}

/// What a resume does about the pause that preceded it.
#[derive(Clone, Copy, PartialEq, Eq, Structural, Debug)]
pub enum AfterPauseAction {
    /// Play on from where the track stands.
    Nothing,
    /// Spoken word: pull back a little, the farther the longer the pause.
    AutoRewind,
    /// Music left mid-track long ago: start the track over.
    RestartSong,
}

/// Decide what a resume does, given when the current playlist was last
/// played (`last_played`, seconds, absent when unknown), the time `now`
/// on the same clock, and the current track's length and position in
/// seconds where the daemon reports them.
pub fn after_pause_action(
    mode: &AudioMode,
    last_played: Option<u64>,
    now: u64,
    song_length: Option<u64>,
    song_elapsed: Option<u64>,
) -> (action: AfterPauseAction)
    requires
        last_played matches Some(t) ==> t <= now,
        song_length matches Some(l) && song_elapsed matches Some(e) ==> e <= l,
    ensures
        last_played is None ==> action == AfterPauseAction::Nothing,
        last_played matches Some(t) ==> action == match *mode {
            AudioMode::Book | AudioMode::Podcast => AfterPauseAction::AutoRewind,
            AudioMode::Music | AudioMode::Meditation => {
                if song_length matches Some(l) && song_elapsed matches Some(e)
                    && now - t > SONG_RESTART_THRESHOLD_SECS && l - e > ALMOST_OVER_SECS {
                    AfterPauseAction::RestartSong
                } else {
                    AfterPauseAction::Nothing
                }
            },
        },
{
    let t = match last_played {
        None => {
            return AfterPauseAction::Nothing;
        },
        Some(t) => t,
    };
    match mode {
        AudioMode::Book | AudioMode::Podcast => AfterPauseAction::AutoRewind,
        AudioMode::Music | AudioMode::Meditation => {
            if let (Some(length), Some(elapsed)) = (song_length, song_elapsed) {
                let time_left = length - elapsed;
                if now - t > SONG_RESTART_THRESHOLD_SECS && time_left > ALMOST_OVER_SECS {
                    AfterPauseAction::RestartSong
                } else {
                    AfterPauseAction::Nothing
                }
            } else {
                AfterPauseAction::Nothing
            }
        },
    }
}

/// Whether shuffle belongs on: always for a playlist marked `_shuf`,
/// otherwise as the mode's settings say.
pub fn shuffle_on(playlist_name: &str, mode: &AudioMode) -> (r: bool)
    ensures
        r == if is_suffix_of("_shuf"@, playlist_name@) {
            true
        } else {
            mode.spec_settings().random
        },
{
    if str_ends_with(playlist_name, "_shuf") {
        true
    } else {
        mode.settings().random
    }
}

} // verus!
