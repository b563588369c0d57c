use button_protocol::protocol::{Button, ButtonPress, DecodeError};
use button_protocol::protocol::Button::{BottomLeft, BottomMiddle, BottomRight, TopLeft, TopMiddle,
    TopRight};
use button_protocol::protocol::ButtonPress::{Long, Short};

#[test]
fn test_all_buttonpresses() {
    let buttons = [
        TopLeft,
        TopMiddle,
        TopRight,
        BottomLeft,
        BottomMiddle,
        BottomRight,
    ];

    for press in [Short, Long] {
        for button in buttons {
            let buttonpress = press(button);
            let serialized = buttonpress.serialize();
            let deserialized = ButtonPress::deserialize(serialized).unwrap();
            assert_eq!(buttonpress, deserialized);
        }
    }
}

#[test]
fn test_nonsense_values() {
    for byte in 0..u8::MAX {
        let res = match byte {
            1..=12 => continue,
            _ => ButtonPress::deserialize(byte),
        };

        assert!(res.is_err());
    }
}

#[test]
fn button_codes_follow_the_table() {
    assert_eq!(TopLeft.serialize(), 1);
    assert_eq!(TopMiddle.serialize(), 2);
    assert_eq!(TopRight.serialize(), 3);
    assert_eq!(BottomLeft.serialize(), 4);
    assert_eq!(BottomMiddle.serialize(), 5);
    assert_eq!(BottomRight.serialize(), 6);
}

#[test]
fn button_decode_ok_iff_in_range() {
    for byte in 0..=u8::MAX {
        let res = Button::deserialize(byte);
        assert_eq!(res.is_ok(), (1..=6).contains(&byte));
    }
    assert_eq!(Button::deserialize(3).unwrap(), Button::TopRight);
    assert_eq!(
        Button::deserialize(7).unwrap_err(),
        DecodeError::InvalidButtonCode
    );
    assert_eq!(
        Button::deserialize(0).unwrap_err(),
        DecodeError::InvalidButtonCode
    );
}

#[test]
fn press_decode_ok_iff_in_range() {
    for byte in 0..=u8::MAX {
        let res = ButtonPress::deserialize(byte);
        assert_eq!(res.is_ok(), (1..=12).contains(&byte));
    }
}

#[test]
fn press_serialize_covers_all_twelve_bytes() {
    let buttons = [
        TopLeft,
        TopMiddle,
        TopRight,
        BottomLeft,
        BottomMiddle,
        BottomRight,
    ];

    let mut seen = [false; 13];
    for press in [Short, Long] {
        for button in buttons {
            let byte = press(button).serialize();
            assert!((1..=12).contains(&byte));
            assert!(!seen[byte as usize], "two presses share byte {byte}");
            seen[byte as usize] = true;
        }
    }
    assert!(seen[1..=12].iter().all(|&b| b));
}

#[test]
fn long_presses_sit_six_above_short_ones() {
    assert_eq!(ButtonPress::Short(Button::TopRight).serialize(), 3);
    assert_eq!(ButtonPress::Long(Button::TopRight).serialize(), 9);
    assert_eq!(ButtonPress::Long(Button::BottomRight).serialize(), 12);
}

#[test]
fn invalid_press_byte_is_reported_with_the_byte() {
    assert_eq!(
        ButtonPress::deserialize(13).unwrap_err(),
        DecodeError::InvalidButtonPressByte { byte: 13 }
    );
    assert_eq!(
        ButtonPress::deserialize(0).unwrap_err(),
        DecodeError::InvalidButtonPressByte { byte: 0 }
    );
}
