use button_protocol::dispatch::{button_action, tcp_action, ButtonAction, TcpAction};
use button_protocol::audio::AudioMode::{Book, Meditation, Music, Podcast};
use button_protocol::protocol::Button::{BottomLeft, BottomMiddle, BottomRight, TopLeft, TopMiddle,
    TopRight};
use button_protocol::protocol::ButtonPress::{Long, Short};

#[test]
fn short_top_row_controls_the_current_playlist() {
    assert_eq!(button_action(&Music, Short(TopLeft)), ButtonAction::Previous);
    assert_eq!(button_action(&Meditation, Short(TopLeft)), ButtonAction::Previous);
    assert_eq!(button_action(&Podcast, Short(TopLeft)), ButtonAction::Rewind);
    assert_eq!(button_action(&Book, Short(TopLeft)), ButtonAction::Rewind);

    assert_eq!(button_action(&Music, Short(TopRight)), ButtonAction::Next);
    assert_eq!(button_action(&Meditation, Short(TopRight)), ButtonAction::Next);
    assert_eq!(button_action(&Podcast, Short(TopRight)), ButtonAction::Skip);
    assert_eq!(button_action(&Book, Short(TopRight)), ButtonAction::Skip);

    assert_eq!(
        button_action(&Music, Short(TopMiddle)),
        ButtonAction::TogglePlayback
    );
    assert_eq!(
        button_action(&Podcast, Short(TopMiddle)),
        ButtonAction::TogglePlayback
    );
}

#[test]
fn long_top_row_steers_playlists_and_modes() {
    for mode in [Music, Book, Podcast, Meditation] {
        assert_eq!(
            button_action(&mode, Long(TopLeft)),
            ButtonAction::PreviousPlaylist
        );
        assert_eq!(
            button_action(&mode, Long(TopRight)),
            ButtonAction::NextPlaylist
        );
        assert_eq!(button_action(&mode, Long(TopMiddle)), ButtonAction::NextMode);
    }
}

#[test]
fn bottom_row_presses_are_forwarded() {
    for mode in [Music, Book, Podcast, Meditation] {
        for button in [BottomLeft, BottomMiddle, BottomRight] {
            assert_eq!(
                button_action(&mode, Short(button)),
                ButtonAction::ForwardReading
            );
            assert_eq!(
                button_action(&mode, Long(button)),
                ButtonAction::ForwardReading
            );
        }
    }
}

#[test]
fn only_the_alarm_message_means_anything() {
    assert_eq!(tcp_action("alarm"), Some(TcpAction::Alarm));
    assert_eq!(tcp_action("alarm "), None);
    assert_eq!(tcp_action(""), None);
    assert_eq!(tcp_action("snooze"), None);
}
