//! Command codec: the fixed-layout binary command for one key event.
//!
//! A command frame is the raw layout of the two one-byte fields of a
//! [`KeyEvent`], in declared order, with no padding and no endianness
//! conversion. The frame is tagged at the transport layer with a constant
//! opcode; the opcode is not part of the frame bytes.

use vstd::prelude::*;

verus! {

/// Device-control opcode that tags every key-event command.
pub const SEND_KEY_OPCODE: u32 = 0x80002000;

/// Number of bytes in an encoded command frame.
pub const COMMAND_FRAME_LEN: usize = 2;

/// `key_state` value for a key press.
pub const KEY_STATE_PRESSED: u8 = 0;

/// `key_state` value for a key release.
pub const KEY_STATE_RELEASED: u8 = 1;

/// One key event: a key code and a press/release state.
///
/// Both fields are full eight-bit values; the driver applies no validation,
/// so the codec accepts every pair.
#[derive(Clone, Copy, Debug, PartialEq, Eq, Structural)]
pub struct KeyEvent {
    pub key_code: u8,
    pub key_state: u8,
}

/// The bytes of the command frame that encodes `event`:
/// the key code followed by the key state.
pub open spec fn frame_spec(event: KeyEvent) -> Seq<u8> {
    seq![event.key_code, event.key_state]
}

impl KeyEvent {
    /// Encodes this event as its command frame.
    ///
    /// Pure, total and deterministic: the result is exactly
    /// `[key_code, key_state]`.
    pub fn encode(&self) -> (frame: Vec<u8>)
        ensures
            frame@ == frame_spec(*self),
            frame@.len() == COMMAND_FRAME_LEN,
    {
        let mut frame: Vec<u8> = Vec::new();
        frame.push(self.key_code);
        frame.push(self.key_state);
        proof {
            assert(frame@ =~= frame_spec(*self));
        }
        frame
    }
}

/// Encoding is injective: two events with the same frame are the same event.
pub proof fn lemma_encode_injective(a: KeyEvent, b: KeyEvent)
    ensures
        frame_spec(a) == frame_spec(b) ==> a == b,
{
    if frame_spec(a) == frame_spec(b) {
        assert(frame_spec(a)[0] == frame_spec(b)[0]);
        assert(frame_spec(a)[1] == frame_spec(b)[1]);
    }
}

/// Encoding is surjective onto two-byte frames: every two-byte sequence is
/// the frame of exactly one event. Together with
/// [`lemma_encode_injective`] this makes the codec a bijection between the
/// 65,536 key events and the 65,536 two-byte frames.
pub proof fn lemma_encode_surjective(frame: Seq<u8>)
    requires
        frame.len() == COMMAND_FRAME_LEN,
    ensures
        exists|e: KeyEvent| frame_spec(e) == frame,
{
    let e = KeyEvent { key_code: frame[0], key_state: frame[1] };
    assert(frame_spec(e) =~= frame);
}

} // verus!
