use vstd::prelude::*;
use vstd::utf8::{decode_utf8, valid_utf8};

use crate::coordinator::Coordinator;

verus! {

/// What `String::from_utf8_lossy` makes of a sequence of bytes.
pub uninterp spec fn lossy_text_of(bytes: Seq<u8>) -> Seq<char>;

/// Relies on `String::from_utf8_lossy`: the bytes read as UTF-8, each
/// invalid sequence replaced; bytes that are valid UTF-8 read as they are.
#[verifier::external_body]
fn decode_lossy(bytes: &[u8]) -> (r: String)
    ensures
        r@ == lossy_text_of(bytes@),
        valid_utf8(bytes@) ==> r@ == decode_utf8(bytes@),
{
    String::from_utf8_lossy(bytes).into_owned()
}

/// What an output relay does with the outcome of one read from a
/// pseudo-terminal master.
#[derive(Debug, PartialEq, Eq)]
pub enum OutputStep {
    /// The stream ended or the read failed: the relay stops.
    Stop,
    /// Output is held back: the chunk is drained and not shown.
    Discard,
    /// Write this text to the real stream and flush it.
    Show(String),
}

impl OutputStep {
    /// The text that the step puts on screen.
    pub open spec fn text(self) -> Seq<char> {
        match self {
            OutputStep::Show(s) => s@,
            _ => Seq::empty(),
        }
    }
}

/// The text that a chunk stands for: the characters it encodes when it is
/// valid UTF-8, its lossy reading otherwise.
pub open spec fn text_of(chunk: Seq<u8>) -> Seq<char> {
    if valid_utf8(chunk) {
        decode_utf8(chunk)
    } else {
        lossy_text_of(chunk)
    }
}

/// What a chunk read while the flag had the given value puts on screen.
pub open spec fn chunk_text(suppress: bool, chunk: Seq<u8>) -> Seq<char> {
    if suppress {
        Seq::empty()
    } else {
        text_of(chunk)
    }
}

impl Coordinator {
    /// An output relay read `chunk` (`None` when the read failed).
    pub fn on_chunk(&self, chunk: Option<&[u8]>) -> (r: OutputStep)
        ensures
            r is Stop <==> (chunk is None || chunk.unwrap()@.len() == 0),
            r is Discard <==> (chunk is Some && chunk.unwrap()@.len() > 0 && self.suppress),
            chunk is Some && chunk.unwrap()@.len() > 0 ==> r.text() == chunk_text(
                self.suppress,
                chunk.unwrap()@,
            ),
    {
        match chunk {
            None => OutputStep::Stop,
            Some(bytes) => {
                if bytes.len() == 0 {
                    OutputStep::Stop
                } else if self.suppress {
                    OutputStep::Discard
                } else {
                    OutputStep::Show(decode_lossy(bytes))
                }
            },
        }
    }
}

} // verus!
