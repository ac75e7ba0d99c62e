//! A register-level stand-in for the chip, for tests: it answers bus frames
//! the way the chip does.
use vstd::prelude::*;
use crate::frame::{be_bytes, be_word, unpack};

verus! {

/// Failure of the stand-in bus. None of its operations produces one.
#[derive(Debug, Clone, Copy, PartialEq, Eq, Structural)]
pub struct MockError;

/// The chip's twelve registers behind a 4-byte full-duplex exchange.
pub struct MockStuw81300SPI {
    registers: [u32; 12],
}

impl View for MockStuw81300SPI {
    type V = Seq<u32>;

    closed spec fn view(&self) -> Seq<u32> {
        self.registers@
    }
}

/// The register address that a frame word names.
pub open spec fn frame_addr(cmd: u32) -> u32 {
    (cmd >> 27u32) & 15u32
}

impl MockStuw81300SPI {
    pub fn read(&self, addr: usize) -> (r: u32)
        requires
            addr < 12,
        ensures
            r == self@[addr as int],
    {
        self.registers[addr]
    }

    pub fn write(&mut self, addr: usize, data: u32)
        requires
            addr < 12,
        ensures
            final(self)@ == old(self)@.update(addr as int, data),
    {
        self.registers[addr] = data;
    }

    /// Exchanges one frame. A read answers with the register's payload; a
    /// write stores the frame's 27-bit payload and answers with zeros.
    pub fn transfer(&mut self, words: &mut [u8; 4]) -> (r: Result<(), MockError>)
        requires
            frame_addr(be_word(old(words)@)) < 12,
        ensures
            r is Ok,
            ({
                let cmd = be_word(old(words)@);
                let addr = frame_addr(cmd) as int;
                if cmd >> 31u32 == 1 {
                    &&& final(self)@ == old(self)@
                    &&& final(words)@ == be_bytes(old(self)@[addr])
                } else {
                    &&& final(self)@ == old(self)@.update(addr, cmd & 0x7ff_ffffu32)
                    &&& final(words)@ == be_bytes(0)
                }
            }),
    {
        let cmd = unpack(*words);
        let addr = ((cmd >> 27u32) & 15u32) as usize;
        let data = if cmd >> 31u32 == 1 {
            self.registers[addr]
        } else {
            self.registers[addr] = cmd & 0x7ff_ffffu32;
            0u32
        };
        let answer = [(data >> 24u32) as u8, (data >> 16u32) as u8, (data >> 8u32) as u8, data as u8];
        assert(answer@ =~= be_bytes(data));
        *words = answer;
        Ok(())
    }
}

impl Default for MockStuw81300SPI {
    /// All registers zero but the identity register, which holds 0x8052.
    fn default() -> (r: MockStuw81300SPI)
        ensures
            r@ == seq![0u32, 0u32, 0u32, 0u32, 0u32, 0u32, 0u32, 0u32, 0u32, 0u32, 0u32, 0x8052u32],
    {
        let r = MockStuw81300SPI { registers: [0, 0, 0, 0, 0, 0, 0, 0, 0, 0, 0, 0x8052] };
        assert(r@ =~= seq![0u32, 0u32, 0u32, 0u32, 0u32, 0u32, 0u32, 0u32, 0u32, 0u32, 0u32, 0x8052u32]);
        r
    }
}

enum MockPinState {
    High,
    Low,
}

/// A stand-in for the latch enable (chip select) line.
pub struct MockStuw81300LE {
    state: MockPinState,
}

impl MockStuw81300LE {
    /// The line is driven high.
    pub closed spec fn is_high(self) -> bool {
        self.state is High
    }

    pub fn set_low(&mut self) -> (r: Result<(), MockError>)
        ensures
            r is Ok,
            !final(self).is_high(),
    {
        self.state = MockPinState::Low;
        Ok(())
    }

    pub fn set_high(&mut self) -> (r: Result<(), MockError>)
        ensures
            r is Ok,
            final(self).is_high(),
    {
        self.state = MockPinState::High;
        Ok(())
    }
}

impl Default for MockStuw81300LE {
    /// The line starts low.
    fn default() -> (r: MockStuw81300LE)
        ensures
            !r.is_high(),
    {
        MockStuw81300LE { state: MockPinState::Low }
    }
}

} // verus!
