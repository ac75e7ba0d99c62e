//! The 4-byte bus frame: one mode bit, four address bits and a 27-bit
//! payload, most significant byte first.
use vstd::prelude::*;
use crate::registers::RegisterAddr;

verus! {

/// Payloads must stay below this bound to fit in a frame.
pub const PAYLOAD_LIMIT: u32 = 0x800_0000;

/// Direction of a bus transaction.
#[derive(Debug, Clone, Copy, PartialEq, Eq, Structural)]
pub enum AccessMode {
    Write,
    Read,
}

impl AccessMode {
    /// The value of the frame's most significant bit.
    pub open spec fn spec_bit(self) -> u32 {
        match self {
            AccessMode::Write => 0,
            AccessMode::Read => 1,
        }
    }
}

/// A frame that must never reach the wire.
#[derive(Debug, Clone, Copy, PartialEq, Eq, Structural)]
pub enum ProtocolError {
    /// The payload does not fit in 27 bits.
    PayloadTooWide,
    /// A write was addressed to a read-only register.
    ReadOnlyViolation,
}

/// The 32-bit word that a frame carries.
pub open spec fn frame_word(addr: RegisterAddr, payload: u32, mode: AccessMode) -> u32 {
    (mode.spec_bit() << 31u32) | ((addr.spec_index() as u32) << 27u32) | payload
}

/// The four bytes of a word, most significant first.
pub open spec fn be_bytes(w: u32) -> Seq<u8> {
    seq![(w >> 24u32) as u8, (w >> 16u32) as u8, (w >> 8u32) as u8, w as u8]
}

/// The word that four bytes spell, most significant first.
pub open spec fn be_word(b: Seq<u8>) -> u32 {
    ((b[0] as u32) << 24u32) | ((b[1] as u32) << 16u32) | ((b[2] as u32) << 8u32) | (b[3] as u32)
}

/// What `pack` answers: the checks in their order, then the frame's bytes.
pub open spec fn spec_pack(addr: RegisterAddr, payload: u32, mode: AccessMode) -> Result<
    Seq<u8>,
    ProtocolError,
> {
    if payload >= PAYLOAD_LIMIT {
        Err(ProtocolError::PayloadTooWide)
    } else if mode == AccessMode::Write && addr.spec_read_only() {
        Err(ProtocolError::ReadOnlyViolation)
    } else {
        Ok(be_bytes(frame_word(addr, payload, mode)))
    }
}

/// Builds the frame that carries `payload` to or from register `addr`.
pub fn pack(addr: RegisterAddr, payload: u32, mode: AccessMode) -> (r: Result<[u8; 4], ProtocolError>)
    ensures
        match r {
            Ok(b) => spec_pack(addr, payload, mode) == Ok::<Seq<u8>, ProtocolError>(b@),
            Err(e) => spec_pack(addr, payload, mode) == Err::<Seq<u8>, ProtocolError>(e),
        },
{
    if payload >= PAYLOAD_LIMIT {
        return Err(ProtocolError::PayloadTooWide);
    }
    if mode == AccessMode::Write && addr.read_only() {
        return Err(ProtocolError::ReadOnlyViolation);
    }
    let m: u32 = match mode {
        AccessMode::Write => 0,
        AccessMode::Read => 1,
    };
    let w = (m << 31u32) | ((addr.index() as u32) << 27u32) | payload;
    let b = [(w >> 24u32) as u8, (w >> 16u32) as u8, (w >> 8u32) as u8, w as u8];
    assert(b@ =~= be_bytes(w));
    Ok(b)
}

/// Reassembles the word that a frame carries.
pub fn unpack(b: [u8; 4]) -> (r: u32)
    ensures
        r == be_word(b@),
{
    ((b[0] as u32) << 24u32) | ((b[1] as u32) << 16u32) | ((b[2] as u32) << 8u32) | (b[3] as u32)
}

/// Unpacking a packed frame gives back the mode in bit 31, the address in
/// bits 30 to 27 and the payload in the 27 bits below.
pub proof fn lemma_frame_round_trip(addr: RegisterAddr, payload: u32, mode: AccessMode)
    requires
        payload < PAYLOAD_LIMIT,
    ensures
        be_word(be_bytes(frame_word(addr, payload, mode))) == frame_word(addr, payload, mode),
        frame_word(addr, payload, mode) >> 31u32 == mode.spec_bit(),
        (frame_word(addr, payload, mode) >> 27u32) & 15u32 == addr.spec_index() as u32,
        frame_word(addr, payload, mode) & 0x7ff_ffffu32 == payload,
{
    let m = mode.spec_bit();
    let a = addr.spec_index() as u32;
    let w = frame_word(addr, payload, mode);
    lemma_word_bytes(w);
    assert(w >> 31u32 == m && (w >> 27u32) & 15u32 == a && w & 0x7ff_ffffu32 == payload)
        by (bit_vector)
        requires
            w == (m << 31u32) | (a << 27u32) | payload,
            m < 2,
            a < 16,
            payload < 0x800_0000,
    ;
}

/// Splitting a word into bytes and joining them again gives the word.
pub proof fn lemma_word_bytes(w: u32)
    ensures
        be_word(be_bytes(w)) == w,
{
    let b = be_bytes(w);
    let (b0, b1, b2, b3) = (b[0], b[1], b[2], b[3]);
    assert(((b0 as u32) << 24u32) | ((b1 as u32) << 16u32) | ((b2 as u32) << 8u32) | (b3 as u32)
        == w) by (bit_vector)
        requires
            b0 == (w >> 24u32) as u8,
            b1 == (w >> 16u32) as u8,
            b2 == (w >> 8u32) as u8,
            b3 == w as u8,
    ;
}

} // verus!
