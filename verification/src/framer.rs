//! Newline framing of the incoming serial byte stream.
//!
//! The framer buffers not-yet-framed bytes. Whenever the buffer holds a
//! newline (`0x0A`), the bytes up to and including the first newline form
//! one frame; the frame's payload is its first byte, and everything after
//! the newline is retained for the next scan. The transport is
//! receive-only: there is no host-to-panel framing to encode.

use vstd::prelude::*;

verus! {

/// The frame delimiter: ASCII newline.
pub const FRAME_DELIMITER: u8 = 10;

/// Whether the byte sequence holds a frame delimiter anywhere.
pub open spec fn has_delimiter(s: Seq<u8>) -> bool {
    exists|i: int| 0 <= i < s.len() && s[i] == FRAME_DELIMITER
}

/// Whether `n` is the position of the first delimiter in `s`.
pub open spec fn first_delimiter_at(s: Seq<u8>, n: int) -> bool {
    &&& 0 <= n < s.len()
    &&& s[n] == FRAME_DELIMITER
    &&& forall|j: int| 0 <= j < n ==> s[j] != FRAME_DELIMITER
}

/// Accumulates transport bytes and splits them into newline-terminated
/// frames. The buffer is unbounded; the protocol is low-rate, so this is
/// harmless.
pub struct LineFramer {
    buf: Vec<u8>,
}

impl View for LineFramer {
    type V = Seq<u8>;

    closed spec fn view(&self) -> Seq<u8> {
        self.buf@
    }
}

impl LineFramer {
    /// An empty framer: no bytes pending.
    pub fn new() -> (framer: LineFramer)
        ensures
            framer@ == Seq::<u8>::empty(),
    {
        LineFramer { buf: Vec::new() }
    }

    /// Append a chunk of bytes that arrived from the transport.
    pub fn feed(&mut self, chunk: &[u8])
        ensures
            final(self)@ == old(self)@ + chunk@,
    {
        self.buf.extend_from_slice(chunk);
    }

    /// Extract the next frame, if a complete one is buffered.
    ///
    /// If the buffer holds a delimiter, the bytes up to and including the
    /// first one are consumed and the frame's payload — the first buffered
    /// byte — is returned; later bytes stay buffered. Otherwise nothing
    /// changes and `None` asks the caller to wait for more input.
    pub fn next_frame(&mut self) -> (payload: Option<u8>)
        ensures
            !has_delimiter(old(self)@) ==> payload is None && final(self)@ == old(self)@,
            has_delimiter(old(self)@) ==> {
                &&& payload == Some(old(self)@[0])
                &&& exists|n: int|
                    #[trigger] first_delimiter_at(old(self)@, n)
                        && final(self)@ == old(self)@.subrange(n + 1, old(self)@.len() as int)
            },
    {
        let mut i: usize = 0;
        let len = self.buf.len();
        while i < len
            invariant
                i <= len,
                len == self.buf@.len(),
                self@ == old(self)@,
                forall|j: int| 0 <= j < i ==> self.buf@[j] != FRAME_DELIMITER,
            decreases len - i,
        {
            if self.buf[i] == FRAME_DELIMITER {
                let payload = self.buf[0];
                let tail = self.buf.split_off(i + 1);
                self.buf = tail;
                proof {
                    assert(first_delimiter_at(old(self)@, i as int));
                }
                return Some(payload);
            }
            i += 1;
        }
        proof {
            assert(forall|j: int| 0 <= j < self.buf@.len() ==> self.buf@[j] != FRAME_DELIMITER);
        }
        None
    }

    /// How many bytes are waiting for a delimiter.
    pub fn pending_len(&self) -> (n: usize)
        ensures
            n == self@.len(),
    {
        self.buf.len()
    }
}

} // verus!
