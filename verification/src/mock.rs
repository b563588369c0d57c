//! A scripted stand-in for the physical panel, used to exercise the
//! whole dispatch path without hardware: it hands out a fixed list of
//! presses, then reports that it has run dry.

use vstd::prelude::*;

use crate::protocol::{Button, ButtonPress};

verus! {

/// A panel that replays a fixed script of presses. The caller may pause
/// `sleep_secs` seconds between presses to mimic a human.
pub struct Mock {
    actions: Vec<ButtonPress>,
    sleep_s: u64,
}

impl Mock {
    /// The presses still to come, last element first.
    pub closed spec fn actions(&self) -> Seq<ButtonPress> {
        self.actions@
    }

    /// The pause the caller should make between presses, in seconds.
    pub closed spec fn spec_sleep_secs(&self) -> u64 {
        self.sleep_s
    }

    /// A script that touches every kind of dispatch: light the room,
    /// start playback, and hop playlists in both directions, with a
    /// two-second pause between presses.
    pub fn full_test() -> (m: Mock)
        ensures
            m.actions() == seq![
                ButtonPress::Long(Button::TopLeft),
                ButtonPress::Long(Button::TopLeft),
                ButtonPress::Long(Button::TopRight),
                ButtonPress::Long(Button::TopRight),
                ButtonPress::Short(Button::TopMiddle),
                ButtonPress::Short(Button::BottomMiddle),
            ],
            m.spec_sleep_secs() == 2,
    {
        let mut actions: Vec<ButtonPress> = Vec::new();
        actions.push(ButtonPress::Long(Button::TopLeft));
        actions.push(ButtonPress::Long(Button::TopLeft));
        actions.push(ButtonPress::Long(Button::TopRight));
        actions.push(ButtonPress::Long(Button::TopRight));
        actions.push(ButtonPress::Short(Button::TopMiddle));
        actions.push(ButtonPress::Short(Button::BottomMiddle));
        proof {
            assert(actions@ =~= seq![
                ButtonPress::Long(Button::TopLeft),
                ButtonPress::Long(Button::TopLeft),
                ButtonPress::Long(Button::TopRight),
                ButtonPress::Long(Button::TopRight),
                ButtonPress::Short(Button::TopMiddle),
                ButtonPress::Short(Button::BottomMiddle),
            ]);
        }
        Mock { actions, sleep_s: 2 }
    }

    /// A script of one short bottom-left press, with no pauses.
    pub fn bottom_left_only() -> (m: Mock)
        ensures
            m.actions() == seq![ButtonPress::Short(Button::BottomLeft)],
            m.spec_sleep_secs() == 0,
    {
        let mut actions: Vec<ButtonPress> = Vec::new();
        actions.push(ButtonPress::Short(Button::BottomLeft));
        proof {
            assert(actions@ =~= seq![ButtonPress::Short(Button::BottomLeft)]);
        }
        Mock { actions, sleep_s: 0 }
    }

    /// The pause to make between presses, in seconds.
    pub fn sleep_secs(&self) -> (s: u64)
        ensures
            s == self.spec_sleep_secs(),
    {
        self.sleep_s
    }

    /// The next scripted press — the last element of the script — or an
    /// error once the script has run dry.
    pub fn next_action(&mut self) -> (r: Result<ButtonPress, &'static str>)
        ensures
            old(self).actions().len() == 0 ==> {
                &&& r matches Err(e) && e@ == "No more actions in MockPanel"@
                &&& final(self).actions() == old(self).actions()
            },
            old(self).actions().len() > 0 ==> {
                &&& r == Ok::<ButtonPress, &'static str>(old(self).actions().last())
                &&& final(self).actions() == old(self).actions().drop_last()
            },
            final(self).spec_sleep_secs() == old(self).spec_sleep_secs(),
    {
        match self.actions.pop() {
            Some(press) => Ok(press),
            None => Err("No more actions in MockPanel"),
        }
    }
}

} // verus!
