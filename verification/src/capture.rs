//! Capture of a process's output under a hard cap.
//!
//! A stream is never buffered without bound: the buffer keeps the bytes up
//! to its cap and remembers whether more came. Once more came, the process
//! is to be terminated.

use vstd::prelude::*;
use vstd::utf8::*;

verus! {

/// A buffer that keeps at most `cap` bytes of a stream.
#[derive(Debug, Clone, PartialEq, Eq)]
pub struct CaptureBuffer {
    /// The bytes kept, from the start of the stream
    pub data: Vec<u8>,
    /// The most bytes that are kept
    pub cap: usize,
    /// Whether the stream held more than the cap
    pub overflowed: bool,
}

/// The smaller of two lengths.
pub open spec fn shorter(a: int, b: int) -> int {
    if a <= b {
        a
    } else {
        b
    }
}

impl CaptureBuffer {
    /// The buffer holds no more than its cap.
    pub open spec fn wf(&self) -> bool {
        self.data@.len() <= self.cap
    }

    /// Returns an empty buffer that keeps up to `cap` bytes.
    pub fn new(cap: usize) -> (buffer: CaptureBuffer)
        ensures
            buffer.wf(),
            buffer.data@.len() == 0,
            buffer.cap == cap,
            !buffer.overflowed,
    {
        CaptureBuffer { data: Vec::new(), cap, overflowed: false }
    }

    /// Takes in the next chunk of the stream. The buffer keeps what fits
    /// under the cap and drops the rest. Returns whether capture goes on:
    /// `false` says that the stream went over the cap and the process is to
    /// be terminated.
    pub fn push(&mut self, chunk: &[u8]) -> (keep_going: bool)
        requires
            old(self).wf(),
        ensures
            final(self).wf(),
            final(self).cap == old(self).cap,
            final(self).data@ == (old(self).data@ + chunk@).take(
                shorter(old(self).cap as int, (old(self).data@.len() + chunk@.len()) as int),
            ),
            final(self).overflowed == (old(self).overflowed || old(self).data@.len()
                + chunk@.len() > old(self).cap),
            keep_going == !final(self).overflowed,
    {
        let ghost before = self.data@;
        let mut i: usize = 0;
        while i < chunk.len() && self.data.len() < self.cap
            invariant
                i <= chunk@.len(),
                self.cap == old(self).cap,
                self.overflowed == old(self).overflowed,
                self.data@.len() <= self.cap,
                self.data@ == before + chunk@.take(i as int),
            decreases chunk@.len() - i,
        {
            self.data.push(chunk[i]);
            proof {
                assert(chunk@.take(i + 1) =~= chunk@.take(i as int).push(chunk@[i as int]));
                assert(self.data@ =~= before + chunk@.take(i + 1));
            }
            i = i + 1;
        }
        if i < chunk.len() {
            self.overflowed = true;
        }
        proof {
            assert(self.data@ =~= (before + chunk@).take(
                shorter(self.cap as int, (before.len() + chunk@.len()) as int),
            ));
        }
        !self.overflowed
    }

    /// Returns the number of bytes kept.
    pub fn len(&self) -> (n: usize)
        ensures
            n == self.data@.len(),
    {
        self.data.len()
    }
}

/// Reads bytes as UTF-8 text with `String::from_utf8`. There is a text
/// exactly when the bytes are valid UTF-8, and the text is then the one
/// that these bytes encode.
#[verifier::external_body]
pub(crate) fn text_from_utf8(bytes: Vec<u8>) -> (text: Option<String>)
    ensures
        text is Some <==> valid_utf8(bytes@),
        text is Some ==> encode_utf8(text->0@) == bytes@,
{
    String::from_utf8(bytes).ok()
}

/// Returns the text that `bytes` encode in UTF-8, if they encode one.
pub fn decode_stream(bytes: Vec<u8>) -> (text: Option<String>)
    ensures
        text is Some <==> valid_utf8(bytes@),
        text is Some ==> text->0@ == decode_utf8(bytes@),
{
    let text = text_from_utf8(bytes);
    proof {
        if text is Some {
            encode_utf8_decode_utf8(text->0@);
        }
    }
    text
}

} // verus!
