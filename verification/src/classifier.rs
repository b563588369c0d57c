//! Press-duration classification on the sending (panel) side.
//!
//! Each physical button is watched independently: a rising edge starts a
//! timer, and on the falling edge the elapsed milliseconds are classified.
//! Durations up to the bounce ceiling are discarded as switch bounce;
//! durations up to the short ceiling give a short press; durations up to
//! the long ceiling give a long press; anything longer is discarded as a
//! stuck or erroneous signal. The three ceilings are tunable; the defaults
//! are bounce <= 50 ms, short 51..=400 ms, long 401..=2000 ms.

use vstd::prelude::*;

use crate::protocol::{Button, ButtonPress};
use crate::framer::FRAME_DELIMITER;

verus! {

/// Short or long, the two duration classes a press can fall into.
#[derive(Clone, Copy, PartialEq, Eq, Structural, Debug)]
pub enum PressKind {
    Short,
    Long,
}

/// The three duration ceilings, in milliseconds, that split presses into
/// bounce, short, long, and stuck.
#[derive(Clone, Copy, PartialEq, Eq, Structural, Debug)]
pub struct PressThresholds {
    /// Durations at or under this are discarded as bounce.
    pub bounce_max: u64,
    /// Durations over `bounce_max` and at or under this are short presses.
    pub short_max: u64,
    /// Durations over `short_max` and at or under this are long presses;
    /// anything longer is discarded.
    pub long_max: u64,
}

impl PressThresholds {
    /// The ceilings are sensible only in strictly increasing order.
    pub open spec fn wf(self) -> bool {
        self.bounce_max < self.short_max < self.long_max
    }

    /// How a press of `elapsed_ms` milliseconds is classified, or `None`
    /// where it is discarded.
    pub open spec fn spec_classify(self, elapsed_ms: u64) -> Option<PressKind> {
        if elapsed_ms <= self.bounce_max {
            None
        } else if elapsed_ms <= self.short_max {
            Some(PressKind::Short)
        } else if elapsed_ms <= self.long_max {
            Some(PressKind::Long)
        } else {
            None
        }
    }

    /// The default tuning: bounce <= 50 ms, short up to 400 ms, long up
    /// to 2000 ms.
    pub fn standard() -> (t: PressThresholds)
        ensures
            t == (PressThresholds { bounce_max: 50, short_max: 400, long_max: 2000 }),
            t.wf(),
    {
        PressThresholds { bounce_max: 50, short_max: 400, long_max: 2000 }
    }

    /// Classify one measured press duration.
    pub fn classify(&self, elapsed_ms: u64) -> (kind: Option<PressKind>)
        ensures
            kind == self.spec_classify(elapsed_ms),
    {
        if elapsed_ms <= self.bounce_max {
            None
        } else if elapsed_ms <= self.short_max {
            Some(PressKind::Short)
        } else if elapsed_ms <= self.long_max {
            Some(PressKind::Long)
        } else {
            None
        }
    }
}

/// Where one button's watcher stands: at rest, or timing a press that
/// began at `since` (a millisecond timestamp from a monotonic clock).
#[derive(Clone, Copy, PartialEq, Eq, Structural, Debug)]
pub enum WatcherState {
    Idle,
    Pressed { since: u64 },
}

/// The per-button state machine of the panel firmware. Each of the six
/// buttons owns one watcher; they share nothing, so the watchers run
/// concurrently without coordination.
#[derive(Clone, Copy, PartialEq, Eq, Structural, Debug)]
pub struct ButtonWatcher {
    /// Which physical control this watcher reports for.
    pub button: Button,
    /// The duration tuning in force.
    pub thresholds: PressThresholds,
    /// Rest, or mid-press with the rising-edge timestamp.
    pub state: WatcherState,
}

impl ButtonWatcher {
    /// The classified event a falling edge at `now` produces from state
    /// `state`: a press only when a rising edge was being timed and the
    /// elapsed duration classifies as short or long.
    pub open spec fn spec_event(self, now: u64) -> Option<ButtonPress> {
        match self.state {
            WatcherState::Idle => None,
            WatcherState::Pressed { since } => {
                if since <= now {
                    match self.thresholds.spec_classify((now - since) as u64) {
                        None => None,
                        Some(PressKind::Short) => Some(ButtonPress::Short(self.button)),
                        Some(PressKind::Long) => Some(ButtonPress::Long(self.button)),
                    }
                } else {
                    None
                }
            },
        }
    }

    /// A watcher at rest for one button.
    pub fn new(button: Button, thresholds: PressThresholds) -> (w: ButtonWatcher)
        ensures
            w == (ButtonWatcher { button, thresholds, state: WatcherState::Idle }),
    {
        ButtonWatcher { button, thresholds, state: WatcherState::Idle }
    }

    /// A rising edge at time `now`: start (or restart) timing the press.
    pub fn on_rising(&mut self, now: u64)
        ensures
            *final(self) == (ButtonWatcher {
                state: WatcherState::Pressed { since: now },
                ..*old(self)
            }),
    {
        self.state = WatcherState::Pressed { since: now };
    }

    /// A falling edge at time `now`: return to rest and classify the
    /// elapsed duration. `now` must not precede the rising edge — the
    /// timestamps come from one monotonic clock.
    pub fn on_falling(&mut self, now: u64) -> (event: Option<ButtonPress>)
        requires
            old(self).state matches WatcherState::Pressed { since } ==> since <= now,
        ensures
            *final(self) == (ButtonWatcher { state: WatcherState::Idle, ..*old(self) }),
            event == old(self).spec_event(now),
    {
        let event = match self.state {
            WatcherState::Idle => None,
            WatcherState::Pressed { since } => {
                match self.thresholds.classify(now - since) {
                    None => None,
                    Some(PressKind::Short) => Some(ButtonPress::Short(self.button)),
                    Some(PressKind::Long) => Some(ButtonPress::Long(self.button)),
                }
            },
        };
        self.state = WatcherState::Idle;
        event
    }
}

/// The bytes the firmware writes for one classified press: the payload
/// byte followed by the newline terminator. The write must happen under
/// the transport lock, in one piece, so frames from concurrent watchers
/// never interleave.
pub fn encode_frame(press: ButtonPress) -> (frame: Vec<u8>)
    ensures
        frame@ =~= seq![press.spec_serialize(), FRAME_DELIMITER],
{
    let mut frame: Vec<u8> = Vec::new();
    frame.push(press.serialize());
    frame.push(FRAME_DELIMITER);
    frame
}

} // verus!
