//! Mapping decoded button presses and alarm messages to player actions.
//!
//! These are the pure decisions of the host's dispatch loop: which
//! playback operation a press asks for in the current mode, and what an
//! incoming line on the alarm socket means. Carrying the actions out —
//! talking to the music daemon, forwarding unhandled presses — is the
//! caller's job.

use vstd::prelude::*;

use crate::audio::AudioMode;
use crate::protocol::{Button, ButtonPress};

verus! {

/// What the dispatch loop should do for one classified press.
#[derive(Clone, Copy, PartialEq, Eq, Structural, Debug)]
pub enum ButtonAction {
    /// Jump to the previous track and resume playback.
    Previous,
    /// Rewind within the current track and resume playback.
    Rewind,
    /// Jump to the next track and resume playback.
    Next,
    /// Skip forward within the current track and resume playback.
    Skip,
    /// Pause or resume.
    TogglePlayback,
    /// Switch to the previous playlist of the mode, then play.
    PreviousPlaylist,
    /// Switch to the next playlist of the mode, then play.
    NextPlaylist,
    /// Step to the next audio mode, then play.
    NextMode,
    /// Not a playback control: hand the press on as a plain reading.
    ForwardReading,
}

/// The dispatch table. Short presses of the top row steer within the
/// current playlist — spoken-word modes seek, the others change track —
/// and long presses steer between playlists and modes. Everything else
/// is forwarded.
pub open spec fn spec_button_action(mode: AudioMode, press: ButtonPress) -> ButtonAction {
    match press {
        ButtonPress::Short(Button::TopLeft) => match mode {
            AudioMode::Book | AudioMode::Podcast => ButtonAction::Rewind,
            AudioMode::Music | AudioMode::Meditation => ButtonAction::Previous,
        },
        ButtonPress::Short(Button::TopRight) => match mode {
            AudioMode::Book | AudioMode::Podcast => ButtonAction::Skip,
            AudioMode::Music | AudioMode::Meditation => ButtonAction::Next,
        },
        ButtonPress::Short(Button::TopMiddle) => ButtonAction::TogglePlayback,
        ButtonPress::Long(Button::TopLeft) => ButtonAction::PreviousPlaylist,
        ButtonPress::Long(Button::TopRight) => ButtonAction::NextPlaylist,
        ButtonPress::Long(Button::TopMiddle) => ButtonAction::NextMode,
        _ => ButtonAction::ForwardReading,
    }
}

/// Decide what one press asks for in the given mode.
pub fn button_action(mode: &AudioMode, press: ButtonPress) -> (action: ButtonAction)
    ensures
        action == spec_button_action(*mode, press),
{
    match press {
        ButtonPress::Short(Button::TopLeft) => match mode {
            AudioMode::Book | AudioMode::Podcast => ButtonAction::Rewind,
            AudioMode::Music | AudioMode::Meditation => ButtonAction::Previous,
        },
        ButtonPress::Short(Button::TopRight) => match mode {
            AudioMode::Book | AudioMode::Podcast => ButtonAction::Skip,
            AudioMode::Music | AudioMode::Meditation => ButtonAction::Next,
        },
        ButtonPress::Short(Button::TopMiddle) => ButtonAction::TogglePlayback,
        ButtonPress::Long(Button::TopLeft) => ButtonAction::PreviousPlaylist,
        ButtonPress::Long(Button::TopRight) => ButtonAction::NextPlaylist,
        ButtonPress::Long(Button::TopMiddle) => ButtonAction::NextMode,
        _ => ButtonAction::ForwardReading,
    }
}

/// What a line received on the alarm socket asks for.
#[derive(Clone, Copy, PartialEq, Eq, Structural, Debug)]
pub enum TcpAction {
    /// Build the wake-up playlist and start playing it in music mode.
    Alarm,
}

/// Decide what an alarm-socket message asks for: only the exact message
/// `alarm` means anything, every other line is ignored.
pub fn tcp_action(message: &str) -> (action: Option<TcpAction>)
    ensures
        action == if message@ == "alarm"@ {
            Some(TcpAction::Alarm)
        } else {
            None::<TcpAction>
        },
{
    if crate::text::str_eq(message, "alarm") {
        Some(TcpAction::Alarm)
    } else {
        None
    }
}

} // verus!
