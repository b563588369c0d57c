//! Time-of-day rules for the smart lights.
//!
//! The day is covered by four windows, each naming the light command that
//! suits the hour and the command an override press asks for instead.
//! Times of day are plain seconds since midnight; whoever owns the clock
//! and the HTTP client picks the command here and sends it there.

use vstd::prelude::*;

use crate::audio::SECONDS_PER_DAY;

verus! {

/// A span of the day. A frame whose end lies at or before its start runs
/// overnight, wrapping past midnight.
#[derive(Clone, Copy, PartialEq, Eq, Structural, Debug)]
pub struct TimeFrame {
    /// Start of the span, in seconds since midnight, exclusive.
    pub start: u32,
    /// End of the span, in seconds since midnight, exclusive.
    pub end: u32,
}

impl TimeFrame {
    /// Both bounds are times of day.
    pub open spec fn wf(self) -> bool {
        self.start < SECONDS_PER_DAY && self.end < SECONDS_PER_DAY
    }

    /// Whether `time` falls inside the span, honouring overnight wrap.
    pub open spec fn spec_contains(self, time: u32) -> bool {
        if self.end < self.start {
            self.start < time || time < self.end
        } else {
            self.start < time && time < self.end
        }
    }

    /// A span from one clock reading to another.
    pub fn new(start_hour: u32, start_min: u32, end_hour: u32, end_min: u32) -> (frame: TimeFrame)
        requires
            start_hour < 24,
            start_min < 60,
            end_hour < 24,
            end_min < 60,
        ensures
            frame.start == start_hour * 3600 + start_min * 60,
            frame.end == end_hour * 3600 + end_min * 60,
            frame.wf(),
    {
        TimeFrame {
            start: start_hour * 3600 + start_min * 60,
            end: end_hour * 3600 + end_min * 60,
        }
    }

    /// Does `time` fall inside the span?
    pub fn contains(&self, time: u32) -> (r: bool)
        requires
            time < SECONDS_PER_DAY,
        ensures
            r == self.spec_contains(time),
    {
        if self.end < self.start {
            self.start < time || time < self.end
        } else {
            self.start < time && time < self.end
        }
    }
}

/// The commands the light controller understands.
#[derive(Clone, Copy, PartialEq, Eq, Structural, Debug)]
pub enum LightCommand {
    Off,
    Night,
    Evening,
    EarlyEvening,
    Day,
}

impl LightCommand {
    /// The path segment the controller expects for this command.
    pub open spec fn spec_name(self) -> Seq<char> {
        match self {
            LightCommand::Off => "lights_off"@,
            LightCommand::Night => "night_light_on"@,
            LightCommand::Evening => "evening_light_on"@,
            LightCommand::EarlyEvening => "early_evening_light_on"@,
            LightCommand::Day => "soft_light_on"@,
        }
    }

    /// The path segment the controller expects for this command.
    pub fn name(&self) -> (name: &'static str)
        ensures
            name@ == self.spec_name(),
    {
        match self {
            LightCommand::Off => "lights_off",
            LightCommand::Night => "night_light_on",
            LightCommand::Evening => "evening_light_on",
            LightCommand::EarlyEvening => "early_evening_light_on",
            LightCommand::Day => "soft_light_on",
        }
    }
}

/// One window of the day with its regular command and the command an
/// override press swaps in.
#[derive(Clone, Copy, PartialEq, Eq, Structural, Debug)]
pub struct Setting {
    pub time_frame: TimeFrame,
    pub command: LightCommand,
    pub override_command: LightCommand,
}

impl Setting {
    /// Bundle a window with its two commands.
    pub fn new(time_frame: TimeFrame, command: LightCommand, override_command: LightCommand) -> (s:
        Setting)
        ensures
            s == (Setting { time_frame, command, override_command }),
    {
        Setting { time_frame, command, override_command }
    }
}

/// The fixed daily schedule: soft light through the day, stepping down
/// through the evening to the night light, each window's override being
/// its neighbour's mood.
pub fn default_time_settings() -> (settings: Vec<Setting>)
    ensures
        settings@ =~= seq![
            Setting {
                time_frame: TimeFrame { start: 30600, end: 61200 },
                command: LightCommand::Day,
                override_command: LightCommand::EarlyEvening,
            },
            Setting {
                time_frame: TimeFrame { start: 61200, end: 77400 },
                command: LightCommand::EarlyEvening,
                override_command: LightCommand::Day,
            },
            Setting {
                time_frame: TimeFrame { start: 77400, end: 79200 },
                command: LightCommand::Evening,
                override_command: LightCommand::EarlyEvening,
            },
            Setting {
                time_frame: TimeFrame { start: 79200, end: 30600 },
                command: LightCommand::Night,
                override_command: LightCommand::Evening,
            },
        ],
{
    let mut settings: Vec<Setting> = Vec::new();
    settings.push(Setting::new(TimeFrame::new(8, 30, 17, 0), LightCommand::Day, LightCommand::EarlyEvening));
    settings.push(Setting::new(TimeFrame::new(17, 0, 21, 30), LightCommand::EarlyEvening, LightCommand::Day));
    settings.push(Setting::new(TimeFrame::new(21, 30, 22, 0), LightCommand::Evening, LightCommand::EarlyEvening));
    settings.push(Setting::new(TimeFrame::new(22, 0, 8, 30), LightCommand::Night, LightCommand::Evening));
    settings
}

/// The first window of `settings` that contains `time`, if any.
pub open spec fn spec_setting_for_time(settings: Seq<Setting>, time: u32) -> Option<Setting>
    decreases settings.len(),
{
    if settings.len() == 0 {
        None
    } else if settings[0].time_frame.spec_contains(time) {
        Some(settings[0])
    } else {
        spec_setting_for_time(settings.drop_first(), time)
    }
}

/// The first window of `settings` that contains `time`, if any. The
/// caller sends either its regular or its override command.
pub fn setting_for_time(settings: &Vec<Setting>, time: u32) -> (r: Option<Setting>)
    requires
        time < SECONDS_PER_DAY,
    ensures
        r == spec_setting_for_time(settings@, time),
        r is None ==> forall|i: int|
            0 <= i < settings@.len() ==> !(#[trigger] settings@[i]).time_frame.spec_contains(time),
        r matches Some(s) ==> exists|i: int|
            0 <= i < settings@.len() && #[trigger] settings@[i] == s
                && s.time_frame.spec_contains(time) && forall|j: int|
                0 <= j < i ==> !(#[trigger] settings@[j]).time_frame.spec_contains(time),
{
    let n = settings.len();
    let mut i: usize = 0;
    proof {
        assert(settings@.subrange(0, n as int) =~= settings@);
    }
    while i < n
        invariant
            0 <= i <= n,
            n == settings@.len(),
            time < SECONDS_PER_DAY,
            forall|j: int| 0 <= j < i ==> !(#[trigger] settings@[j]).time_frame.spec_contains(time),
            spec_setting_for_time(settings@, time) == spec_setting_for_time(
                settings@.subrange(i as int, n as int),
                time,
            ),
        decreases n - i,
    {
        let setting = settings[i];
        proof {
            assert(settings@.subrange(i as int, n as int)[0] == settings@[i as int]);
            assert(settings@.subrange(i as int, n as int).drop_first() =~= settings@.subrange(
                i + 1,
                n as int,
            ));
        }
        if setting.time_frame.contains(time) {
            return Some(setting);
        }
        i += 1;
    }
    proof {
        assert(settings@.subrange(0, n as int) =~= settings@);
    }
    None
}

/// The window the clock puts us in right now, if any. Whatever time the
/// clock reads, the choice follows `spec_setting_for_time` for that
/// reading.
pub fn setting_for_time_now(settings: &Vec<Setting>) -> (r: Option<Setting>)
    ensures
        exists|now: u32|
            now < SECONDS_PER_DAY && r == spec_setting_for_time(settings@, now),
{
    let now = crate::audio::seconds_of_day_now();
    setting_for_time(settings, now)
}

} // verus!
