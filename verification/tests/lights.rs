use button_protocol::lights::{
    default_time_settings, setting_for_time, setting_for_time_now, LightCommand, TimeFrame,
};

fn at(hour: u32, min: u32) -> u32 {
    hour * 3600 + min * 60
}

#[test]
fn daytime_frames_contain_their_middle_and_not_their_bounds() {
    let frame = TimeFrame::new(8, 30, 17, 0);
    assert!(frame.contains(at(12, 0)));
    assert!(!frame.contains(at(8, 30)));
    assert!(!frame.contains(at(17, 0)));
    assert!(!frame.contains(at(20, 0)));
}

#[test]
fn overnight_frames_wrap_past_midnight() {
    let frame = TimeFrame::new(22, 0, 8, 30);
    assert!(frame.contains(at(23, 0)));
    assert!(frame.contains(at(3, 0)));
    assert!(!frame.contains(at(12, 0)));
    assert!(!frame.contains(at(22, 0)));
}

#[test]
fn the_schedule_names_a_command_for_each_part_of_the_day() {
    let settings = default_time_settings();

    let noon = setting_for_time(&settings, at(12, 0)).unwrap();
    assert_eq!(noon.command, LightCommand::Day);
    assert_eq!(noon.override_command, LightCommand::EarlyEvening);

    let evening = setting_for_time(&settings, at(18, 0)).unwrap();
    assert_eq!(evening.command, LightCommand::EarlyEvening);

    let late = setting_for_time(&settings, at(21, 45)).unwrap();
    assert_eq!(late.command, LightCommand::Evening);

    let night = setting_for_time(&settings, at(2, 0)).unwrap();
    assert_eq!(night.command, LightCommand::Night);
    assert_eq!(night.override_command, LightCommand::Evening);
}

#[test]
fn exact_boundary_times_fall_between_windows() {
    let settings = default_time_settings();
    assert!(setting_for_time(&settings, at(17, 0)).is_none());
    assert!(setting_for_time(&settings, at(8, 30)).is_none());
}

#[test]
fn command_names_match_the_controller_paths() {
    assert_eq!(LightCommand::Off.name(), "lights_off");
    assert_eq!(LightCommand::Night.name(), "night_light_on");
    assert_eq!(LightCommand::Evening.name(), "evening_light_on");
    assert_eq!(LightCommand::EarlyEvening.name(), "early_evening_light_on");
    assert_eq!(LightCommand::Day.name(), "soft_light_on");
}

#[test]
fn the_clock_backed_choice_comes_from_the_schedule() {
    let settings = default_time_settings();
    if let Some(setting) = setting_for_time_now(&settings) {
        assert!(settings.contains(&setting));
    }
}
