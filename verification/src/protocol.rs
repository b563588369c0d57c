//! The single-byte wire encoding of a classified button press.
//!
//! A `Button` is one of six physical controls with a fixed wire code in
//! `1..=6`. A `ButtonPress` records whether that button was held short or
//! long; its wire byte is the button code for a short press and the code
//! plus six for a long one, so the valid payload bytes are exactly
//! `1..=12`. Every other byte is rejected by the decoders, never mapped.

use vstd::prelude::*;

verus! {

/// One of the six physical controls on the panel.
///
/// The identity-to-integer mapping (`spec_code`) is the wire ABI shared
/// with the firmware and must never be renumbered.
#[derive(Clone, Copy, PartialEq, Eq, Structural, Debug)]
pub enum Button {
    TopLeft,
    TopMiddle,
    TopRight,
    BottomLeft,
    BottomMiddle,
    BottomRight,
}

/// A press classified by duration, at the protocol level (not raw timing).
#[derive(Clone, Copy, PartialEq, Eq, Structural, Debug)]
pub enum ButtonPress {
    Short(Button),
    Long(Button),
}

/// Why a byte could not be decoded. Always recoverable: the frame it came
/// from is discarded and the stream continues.
#[derive(Clone, Copy, PartialEq, Eq, Structural, Debug)]
pub enum DecodeError {
    /// A byte outside `1..=6` was offered as a `Button` code.
    InvalidButtonCode,
    /// A byte outside `1..=12` was offered as a `ButtonPress` encoding.
    InvalidButtonPressByte { byte: u8 },
}

impl Button {
    /// The fixed wire code of this button: contiguous over `1..=6`.
    pub open spec fn spec_code(self) -> u8 {
        match self {
            Button::TopLeft => 1,
            Button::TopMiddle => 2,
            Button::TopRight => 3,
            Button::BottomLeft => 4,
            Button::BottomMiddle => 5,
            Button::BottomRight => 6,
        }
    }

    /// The button a wire code stands for, or an error outside `1..=6`.
    pub open spec fn spec_deserialize(byte: u8) -> Result<Button, DecodeError> {
        if byte == 1 {
            Ok(Button::TopLeft)
        } else if byte == 2 {
            Ok(Button::TopMiddle)
        } else if byte == 3 {
            Ok(Button::TopRight)
        } else if byte == 4 {
            Ok(Button::BottomLeft)
        } else if byte == 5 {
            Ok(Button::BottomMiddle)
        } else if byte == 6 {
            Ok(Button::BottomRight)
        } else {
            Err(DecodeError::InvalidButtonCode)
        }
    }

    /// Total and infallible: returns exactly the fixed code table.
    pub fn serialize(self) -> (byte: u8)
        ensures
            byte == self.spec_code(),
            1 <= byte <= 6,
    {
        match self {
            Button::TopLeft => 1,
            Button::TopMiddle => 2,
            Button::TopRight => 3,
            Button::BottomLeft => 4,
            Button::BottomMiddle => 5,
            Button::BottomRight => 6,
        }
    }

    /// Checked lookup from wire code to button; safe on arbitrary
    /// untrusted input.
    pub fn deserialize(byte: u8) -> (r: Result<Button, DecodeError>)
        ensures
            r == Button::spec_deserialize(byte),
            r is Ok <==> 1 <= byte <= 6,
            r matches Ok(b) ==> b.spec_code() == byte,
            r is Err ==> r == Err::<Button, DecodeError>(DecodeError::InvalidButtonCode),
    {
        match byte {
            1 => Ok(Button::TopLeft),
            2 => Ok(Button::TopMiddle),
            3 => Ok(Button::TopRight),
            4 => Ok(Button::BottomLeft),
            5 => Ok(Button::BottomMiddle),
            6 => Ok(Button::BottomRight),
            _ => Err(DecodeError::InvalidButtonCode),
        }
    }
}

impl ButtonPress {
    /// The wire byte of a classified press: the button code for a short
    /// press, the code plus six for a long one.
    pub open spec fn spec_serialize(self) -> u8 {
        match self {
            ButtonPress::Short(b) => b.spec_code(),
            ButtonPress::Long(b) => (b.spec_code() + 6) as u8,
        }
    }

    /// The press a wire byte stands for, or an error outside `1..=12`.
    pub open spec fn spec_deserialize(byte: u8) -> Result<ButtonPress, DecodeError> {
        if 1 <= byte <= 6 {
            match Button::spec_deserialize(byte) {
                Ok(b) => Ok(ButtonPress::Short(b)),
                Err(e) => Err(e),
            }
        } else if 7 <= byte <= 12 {
            match Button::spec_deserialize((byte - 6) as u8) {
                Ok(b) => Ok(ButtonPress::Long(b)),
                Err(e) => Err(e),
            }
        } else {
            Err(DecodeError::InvalidButtonPressByte { byte })
        }
    }

    /// Total and infallible; the result is always in `1..=12`.
    pub fn serialize(self) -> (byte: u8)
        ensures
            byte == self.spec_serialize(),
            1 <= byte <= 12,
    {
        match self {
            ButtonPress::Short(button) => button.serialize(),
            ButtonPress::Long(button) => button.serialize() + 6,
        }
    }

    /// Checked decoding of a payload byte; safe on arbitrary untrusted
    /// input, `Ok` exactly on `1..=12`.
    pub fn deserialize(byte: u8) -> (r: Result<ButtonPress, DecodeError>)
        ensures
            r == ButtonPress::spec_deserialize(byte),
            r is Ok <==> 1 <= byte <= 12,
            r matches Ok(p) ==> p.spec_serialize() == byte,
            !(1 <= byte <= 12) ==> r == Err::<ButtonPress, DecodeError>(
                DecodeError::InvalidButtonPressByte { byte },
            ),
    {
        if 1 <= byte && byte <= 6 {
            match Button::deserialize(byte) {
                Ok(b) => Ok(ButtonPress::Short(b)),
                Err(e) => Err(e),
            }
        } else if 7 <= byte && byte <= 12 {
            match Button::deserialize(byte - 6) {
                Ok(b) => Ok(ButtonPress::Long(b)),
                Err(e) => Err(e),
            }
        } else {
            Err(DecodeError::InvalidButtonPressByte { byte })
        }
    }
}

/// Round-trip law: decoding the wire byte of any press gives back exactly
/// that press.
pub proof fn lemma_round_trip(p: ButtonPress)
    ensures
        ButtonPress::spec_deserialize(p.spec_serialize()) == Ok::<ButtonPress, DecodeError>(p),
{
}

/// Byte range law: a byte decodes to a press exactly when it lies in
/// `1..=12`, and to a button exactly when it lies in `1..=6`.
pub proof fn lemma_decode_ranges(byte: u8)
    ensures
        ButtonPress::spec_deserialize(byte) is Ok <==> 1 <= byte <= 12,
        Button::spec_deserialize(byte) is Ok <==> 1 <= byte <= 6,
{
}

/// Exhaustive mapping: the twelve presses map into `1..=12` without
/// collisions, and every byte in `1..=12` is the image of some press.
pub proof fn lemma_serialize_exhaustive()
    ensures
        forall|p: ButtonPress| 1 <= #[trigger] p.spec_serialize() <= 12,
        forall|p: ButtonPress, q: ButtonPress|
            #[trigger] p.spec_serialize() == #[trigger] q.spec_serialize() ==> p == q,
        forall|byte: u8|
            1 <= byte <= 12 ==> (#[trigger] ButtonPress::spec_deserialize(byte) matches Ok(p)
                && p.spec_serialize() == byte),
{
}

} // verus!
