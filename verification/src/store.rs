//! Persisted playback positions and the keys they are stored under.
//!
//! The host remembers, per playlist, where playback stood: the index of
//! the current song in the playlist and the seconds elapsed into it. A
//! position is stored as eight little-endian bytes under the key
//! `<playlist>_position`; the playlist a mode last used is stored under
//! `<prefix>cur_playlist`. The key-value store itself is outside this
//! library — these are the pure encodings it is fed.

use vstd::prelude::*;

use vstd::arithmetic::div_mod::{lemma_div_denominator, lemma_fundamental_div_mod};

use crate::audio::AudioMode;

verus! {

/// Where playback stood in one playlist.
#[derive(Clone, Copy, PartialEq, Eq, Structural, Debug)]
pub struct Position {
    /// Index of the current song within the playlist.
    pub pos_in_pl: u32,
    /// Seconds elapsed into that song.
    pub elapsed: u32,
}

/// The four little-endian bytes of a 32-bit value.
pub open spec fn u32_le_bytes(x: u32) -> Seq<u8> {
    seq![
        (x % 256) as u8,
        ((x / 256) % 256) as u8,
        ((x / 65536) % 256) as u8,
        ((x / 16777216) % 256) as u8,
    ]
}

/// The 32-bit value four little-endian bytes stand for.
pub open spec fn u32_from_le_bytes(b: Seq<u8>) -> int
    recommends
        b.len() == 4,
{
    b[0] + 256 * (b[1] + 256 * (b[2] + 256 * b[3]))
}

/// Reading back the four little-endian bytes of `x` gives `x`.
pub proof fn lemma_u32_le_bytes_roundtrip(x: u32)
    ensures
        u32_from_le_bytes(u32_le_bytes(x)) == x,
{
    lemma_fundamental_div_mod(x as int, 256);
    lemma_fundamental_div_mod(x as int / 256, 256);
    lemma_fundamental_div_mod(x as int / 65536, 256);
    lemma_div_denominator(x as int, 256, 256);
    lemma_div_denominator(x as int, 65536, 256);
    assert(x as int / 16777216 < 256);
    assert(x as int / 16777216 % 256 == x as int / 16777216) by {
        lemma_fundamental_div_mod(x as int / 16777216, 256);
    }
}

impl Position {
    /// The eight stored bytes: song index first, elapsed seconds second,
    /// each little-endian.
    pub open spec fn spec_bytes(self) -> Seq<u8> {
        u32_le_bytes(self.pos_in_pl) + u32_le_bytes(self.elapsed)
    }

    /// Encode the position for storage.
    pub fn to_bytes(&self) -> (bytes: Vec<u8>)
        ensures
            bytes@ == self.spec_bytes(),
            bytes@.len() == 8,
    {
        let mut bytes: Vec<u8> = Vec::new();
        let mut x = self.pos_in_pl;
        bytes.push((x % 256) as u8);
        bytes.push(((x / 256) % 256) as u8);
        bytes.push(((x / 65536) % 256) as u8);
        bytes.push(((x / 16777216) % 256) as u8);
        x = self.elapsed;
        bytes.push((x % 256) as u8);
        bytes.push(((x / 256) % 256) as u8);
        bytes.push(((x / 65536) % 256) as u8);
        bytes.push(((x / 16777216) % 256) as u8);
        proof {
            assert(bytes@ =~= self.spec_bytes());
        }
        bytes
    }

    /// Decode a stored position. The store only ever holds the eight
    /// bytes `to_bytes` wrote, so any other length is a caller error.
    pub fn from_bytes(bytes: &[u8]) -> (p: Position)
        requires
            bytes@.len() == 8,
        ensures
            p.pos_in_pl == u32_from_le_bytes(bytes@.subrange(0, 4)),
            p.elapsed == u32_from_le_bytes(bytes@.subrange(4, 8)),
    {
        let pos_in_pl: u32 = bytes[0] as u32 + 256 * (bytes[1] as u32) + 65536 * (bytes[2] as u32)
            + 16777216 * (bytes[3] as u32);
        let elapsed: u32 = bytes[4] as u32 + 256 * (bytes[5] as u32) + 65536 * (bytes[6] as u32)
            + 16777216 * (bytes[7] as u32);
        proof {
            assert(bytes@.subrange(0, 4)[0] == bytes@[0]);
            assert(bytes@.subrange(0, 4)[1] == bytes@[1]);
            assert(bytes@.subrange(0, 4)[2] == bytes@[2]);
            assert(bytes@.subrange(0, 4)[3] == bytes@[3]);
            assert(bytes@.subrange(4, 8)[0] == bytes@[4]);
            assert(bytes@.subrange(4, 8)[1] == bytes@[5]);
            assert(bytes@.subrange(4, 8)[2] == bytes@[6]);
            assert(bytes@.subrange(4, 8)[3] == bytes@[7]);
        }
        Position { pos_in_pl, elapsed }
    }
}

/// A stored position decodes back to itself.
pub proof fn lemma_position_roundtrip(p: Position)
    ensures
        u32_from_le_bytes(p.spec_bytes().subrange(0, 4)) == p.pos_in_pl,
        u32_from_le_bytes(p.spec_bytes().subrange(4, 8)) == p.elapsed,
{
    assert(p.spec_bytes().subrange(0, 4) =~= u32_le_bytes(p.pos_in_pl));
    assert(p.spec_bytes().subrange(4, 8) =~= u32_le_bytes(p.elapsed));
    lemma_u32_le_bytes_roundtrip(p.pos_in_pl);
    lemma_u32_le_bytes_roundtrip(p.elapsed);
}

/// The key a mode's current playlist name is stored under:
/// `<prefix>cur_playlist`.
pub fn playlist_name_key(mode: &AudioMode) -> (key: String)
    ensures
        key@ == mode.spec_prefix() + "cur_playlist"@,
{
    mode.to_prefix().to_owned().concat("cur_playlist")
}

/// The key a playlist's position is stored under: `<playlist>_position`.
pub fn position_key(playlist_name: &str) -> (key: String)
    ensures
        key@ == playlist_name@ + "_position"@,
{
    playlist_name.to_owned().concat("_position")
}

} // verus!
