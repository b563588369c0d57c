use button_protocol::audio::AudioMode;
use button_protocol::mock::Mock;
use button_protocol::playback::{
    after_pause_action, rewind_target, shuffle_on, skip_target, toggle_playback_plan,
    AfterPauseAction, ToggleFollowUp, ToggleOp,
};
use button_protocol::protocol::{Button, ButtonPress};

#[test]
fn rewinds_saturate_at_the_start_of_the_track() {
    assert_eq!(rewind_target(100, 15), 85);
    assert_eq!(rewind_target(10, 15), 0);
    assert_eq!(rewind_target(15, 15), 0);
}

#[test]
fn skips_jump_one_step_forward() {
    assert_eq!(skip_target(0), 15);
    assert_eq!(skip_target(100), 115);
}

#[test]
fn toggling_plays_when_stopped_and_pauses_otherwise() {
    assert_eq!(
        toggle_playback_plan(true, false),
        (ToggleOp::TogglePause, ToggleFollowUp::StorePauseTime)
    );
    assert_eq!(
        toggle_playback_plan(false, true),
        (ToggleOp::Play, ToggleFollowUp::RewindAfterPause)
    );
    assert_eq!(
        toggle_playback_plan(false, false),
        (ToggleOp::TogglePause, ToggleFollowUp::RewindAfterPause)
    );
}

#[test]
fn spoken_word_rewinds_after_a_pause() {
    assert_eq!(
        after_pause_action(&AudioMode::Book, Some(1000), 5000, None, None),
        AfterPauseAction::AutoRewind
    );
    assert_eq!(
        after_pause_action(&AudioMode::Podcast, Some(1000), 1001, Some(300), Some(10)),
        AfterPauseAction::AutoRewind
    );
}

#[test]
fn music_restarts_a_track_only_after_a_long_pause_with_time_left() {
    // Long pause, plenty of track left: restart.
    assert_eq!(
        after_pause_action(&AudioMode::Music, Some(1000), 1100, Some(300), Some(60)),
        AfterPauseAction::RestartSong
    );
    // Short pause: keep the position.
    assert_eq!(
        after_pause_action(&AudioMode::Music, Some(1000), 1050, Some(300), Some(60)),
        AfterPauseAction::Nothing
    );
    // Track almost over: keep the position.
    assert_eq!(
        after_pause_action(&AudioMode::Music, Some(1000), 1100, Some(300), Some(295)),
        AfterPauseAction::Nothing
    );
    // No track timing known: keep the position.
    assert_eq!(
        after_pause_action(&AudioMode::Music, Some(1000), 1100, None, None),
        AfterPauseAction::Nothing
    );
    // Playlist never played before: nothing to do.
    assert_eq!(
        after_pause_action(&AudioMode::Music, None, 1100, Some(300), Some(60)),
        AfterPauseAction::Nothing
    );
}

#[test]
fn shuffle_follows_the_suffix_or_the_mode() {
    assert!(shuffle_on("music_party_shuf", &AudioMode::Music));
    assert!(!shuffle_on("music_calm", &AudioMode::Music));
    assert!(!shuffle_on("book_sea", &AudioMode::Book));
}

#[test]
fn the_mock_panel_replays_its_script_in_order() {
    let mut mock = Mock::full_test();
    assert_eq!(mock.sleep_secs(), 2);
    let expected = [
        ButtonPress::Short(Button::BottomMiddle),
        ButtonPress::Short(Button::TopMiddle),
        ButtonPress::Long(Button::TopRight),
        ButtonPress::Long(Button::TopRight),
        ButtonPress::Long(Button::TopLeft),
        ButtonPress::Long(Button::TopLeft),
    ];
    for press in expected {
        assert_eq!(mock.next_action(), Ok(press));
    }
    assert_eq!(mock.next_action(), Err("No more actions in MockPanel"));
}

#[test]
fn the_short_mock_script_has_one_press() {
    let mut mock = Mock::bottom_left_only();
    assert_eq!(mock.sleep_secs(), 0);
    assert_eq!(
        mock.next_action(),
        Ok(ButtonPress::Short(Button::BottomLeft))
    );
    assert!(mock.next_action().is_err());
}
