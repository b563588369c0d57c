//! Button-panel wire protocol and the host/firmware logic around it.
//!
//! A six-button physical panel classifies each press by duration into a
//! short or long press, serialises the classified event into a single byte,
//! and sends it over a line-oriented serial transport. The host side frames
//! the byte stream on newline delimiters and decodes each payload byte back
//! into a typed event, which drives the audio-player and light dispatch.

pub mod alarm;
pub mod audio;
pub mod classifier;
pub mod dispatch;
pub mod framer;
pub mod lights;
pub mod mock;
pub mod playback;
pub mod playlist;
pub mod protocol;
pub mod store;
pub mod text;

use vstd::prelude::*;

verus! {

/// What the host process is asked to do: set up device access once, or
/// run against a panel on `tty` and a music daemon at `ip`.
#[derive(Clone, Debug)]
pub struct Args {
    /// Install the device access rule instead of running.
    pub setup: bool,
    /// Path to the panel's serial device.
    pub tty: String,
    /// `ip:port` of the music daemon.
    pub ip: String,
}

impl Default for Args {
    /// No setup, empty paths.
    fn default() -> (args: Args)
        ensures
            !args.setup,
            args.tty@ == Seq::<char>::empty(),
            args.ip@ == Seq::<char>::empty(),
    {
        Args { setup: false, tty: String::new(), ip: String::new() }
    }
}

} // verus!
