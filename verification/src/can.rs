//! The fixed 16-byte CAN frame record, the only value ever exchanged
//! with the bus transport.
//!
//! Wire layout: a 4-byte identifier stored little-endian whose top bit is
//! the extended-frame flag, a 1-byte declared length, three padding and
//! reserved bytes, then the 8-byte data payload.

use vstd::prelude::*;

verus! {

/// Number of payload bytes in one CAN frame.
pub const CAN_MAX_DLEN: usize = 8;

/// One CAN frame, byte-exact. Higher-level messages are fixed layouts
/// over these same 16 bytes, so the frame is kept as the raw bytes and
/// every field of interest is read from a fixed offset.
#[derive(Clone, Copy, Debug, PartialEq, Eq)]
pub struct CanFrame {
    pub bytes: [u8; 16],
}

impl View for CanFrame {
    type V = Seq<u8>;

    open spec fn view(&self) -> Seq<u8> {
        self.bytes@
    }
}

impl CanFrame {
    /// Builds a frame from the raw bytes read off the socket.
    pub fn from_bytes(bytes: [u8; 16]) -> (f: CanFrame)
        ensures
            f@ == bytes@,
    {
        CanFrame { bytes }
    }

    /// The raw bytes to hand to the socket.
    pub fn to_bytes(&self) -> (bytes: [u8; 16])
        ensures
            bytes@ == self@,
    {
        self.bytes
    }

    /// The 4-byte identifier, read little-endian from the first four
    /// bytes; its top bit is the extended-frame flag.
    pub fn can_id(&self) -> (id: u32)
        ensures
            id == vstd::bytes::spec_u32_from_le_bytes(self@.subrange(0, 4)),
    {
        let b: Vec<u8> = vec![self.bytes[0], self.bytes[1], self.bytes[2], self.bytes[3]];
        let id = vstd::bytes::u32_from_le_bytes(b.as_slice());
        proof {
            assert(b@ =~= self@.subrange(0, 4));
        }
        id
    }
}

} // verus!
