use button_protocol::audio::{
    is_meditation_time, is_meditation_time_now, next_mode_at, next_mode_now, AudioMode, Settings,
};

#[test]
fn modes_cycle_in_order() {
    let mut mode = AudioMode::Music;
    mode.next();
    assert_eq!(mode, AudioMode::Book);
    mode.next();
    assert_eq!(mode, AudioMode::Podcast);
    mode.next();
    assert_eq!(mode, AudioMode::Meditation);
    mode.next();
    assert_eq!(mode, AudioMode::Music);
}

#[test]
fn prefixes_follow_the_mode() {
    assert_eq!(AudioMode::Music.to_prefix(), "music_");
    assert_eq!(AudioMode::Book.to_prefix(), "book_");
    assert_eq!(AudioMode::Podcast.to_prefix(), "podcast_");
    assert_eq!(AudioMode::Meditation.to_prefix(), "meditation_");
}

#[test]
fn settings_follow_the_mode() {
    let music = AudioMode::Music.settings();
    assert_eq!(music, Settings::default());

    let book = AudioMode::Book.settings();
    assert!(book.consume && book.save_playlist);
    assert!(!book.repeat && !book.random && !book.single);
    assert_eq!(book, AudioMode::Podcast.settings());

    let meditation = AudioMode::Meditation.settings();
    assert!(meditation.single);
    assert!(!meditation.consume && !meditation.save_playlist);
}

#[test]
fn meditation_window_runs_overnight() {
    assert!(is_meditation_time(22 * 3600));
    assert!(is_meditation_time(2 * 3600));
    assert!(!is_meditation_time(12 * 3600));
    assert!(!is_meditation_time(9 * 3600));
    assert!(is_meditation_time(8 * 3600 + 59 * 60));
}

#[test]
fn meditation_is_skipped_outside_its_window() {
    let noon = 12 * 3600;
    assert_eq!(next_mode_at(AudioMode::Podcast, noon), AudioMode::Music);

    let late = 22 * 3600;
    assert_eq!(next_mode_at(AudioMode::Podcast, late), AudioMode::Meditation);

    assert_eq!(next_mode_at(AudioMode::Music, noon), AudioMode::Book);
    assert_eq!(next_mode_at(AudioMode::Meditation, noon), AudioMode::Music);
}

#[test]
fn clock_backed_mode_step_agrees_with_the_window() {
    // Steps that do not land on meditation ignore the clock entirely.
    assert_eq!(next_mode_now(AudioMode::Music), AudioMode::Book);
    assert_eq!(next_mode_now(AudioMode::Book), AudioMode::Podcast);
    assert_eq!(next_mode_now(AudioMode::Meditation), AudioMode::Music);

    // The step out of podcast mode follows the meditation window.
    let stepped = next_mode_now(AudioMode::Podcast);
    assert!(stepped == AudioMode::Meditation || stepped == AudioMode::Music);
    if is_meditation_time_now() {
        // Unless midnight passed between the two calls, which a test run
        // will not see, the readings agree.
        assert_eq!(next_mode_now(AudioMode::Podcast), AudioMode::Meditation);
    }
}
