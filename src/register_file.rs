//! A snapshot of the chip's twelve registers, with the log of the writes
//! that an operation made to it.
use vstd::prelude::*;
use crate::error::DomainError;
use crate::registers::{RegisterAddr, ST0, ST1, ST2, ST3, ST4, ST6, ST10};

verus! {

/// One register write: the address and the whole new payload.
#[derive(Debug, Clone, Copy, PartialEq, Eq, Structural)]
pub struct RegisterWrite {
    pub addr: RegisterAddr,
    pub payload: u32,
}

/// The payloads of the twelve registers, by address, and the writes made to
/// them so far.
pub struct RegisterFile {
    pub payloads: [u32; 12],
    pub writes: Vec<RegisterWrite>,
}

/// What a `RegisterFile` holds.
pub struct RegisterFileView {
    pub regs: Seq<u32>,
    pub log: Seq<RegisterWrite>,
}

impl RegisterFileView {
    /// The file after `payload` is written to `addr`.
    pub open spec fn write(self, addr: RegisterAddr, payload: u32) -> RegisterFileView {
        RegisterFileView {
            regs: self.regs.update(addr.spec_index() as int, payload),
            log: self.log.push(RegisterWrite { addr, payload }),
        }
    }

    pub open spec fn st0(self) -> ST0 {
        ST0::from_payload(self.regs[0])
    }

    pub open spec fn st1(self) -> ST1 {
        ST1::from_payload(self.regs[1])
    }

    pub open spec fn st2(self) -> ST2 {
        ST2::from_payload(self.regs[2])
    }

    pub open spec fn st3(self) -> ST3 {
        ST3::from_payload(self.regs[3])
    }

    pub open spec fn st4(self) -> ST4 {
        ST4::from_payload(self.regs[4])
    }

    pub open spec fn st6(self) -> ST6 {
        ST6::from_payload(self.regs[6])
    }

    pub open spec fn st10(self) -> ST10 {
        ST10::from_payload(self.regs[10])
    }
}

impl View for RegisterFile {
    type V = RegisterFileView;

    open spec fn view(&self) -> RegisterFileView {
        RegisterFileView { regs: self.payloads@, log: self.writes@ }
    }
}

/// The result of an operation and the file after it: on success the file
/// that `expected` gives, on failure its error and the file unchanged.
pub open spec fn applied(
    res: Result<(), DomainError>,
    before: RegisterFileView,
    after: RegisterFileView,
    expected: Result<RegisterFileView, DomainError>,
) -> bool {
    match expected {
        Ok(v) => res is Ok && after == v,
        Err(e) => res == Err::<(), DomainError>(e) && after == before,
    }
}

impl RegisterFile {
    /// A file with the given payloads and no writes yet.
    pub fn new(payloads: [u32; 12]) -> (r: RegisterFile)
        ensures
            r@.regs == payloads@,
            r@.log == Seq::<RegisterWrite>::empty(),
    {
        RegisterFile { payloads, writes: Vec::new() }
    }

    /// The payload of register `addr`.
    pub fn payload(&self, addr: RegisterAddr) -> (r: u32)
        ensures
            r == self@.regs[addr.spec_index() as int],
    {
        self.payloads[addr.index() as usize]
    }

    /// Writes `payload` to register `addr` and logs the write.
    pub fn write(&mut self, addr: RegisterAddr, payload: u32)
        ensures
            final(self)@ == old(self)@.write(addr, payload),
    {
        let i = addr.index() as usize;
        self.payloads[i] = payload;
        self.writes.push(RegisterWrite { addr, payload });
    }
}

impl RegisterFile {
    pub fn st0(&self) -> (r: ST0)
        ensures
            r == self@.st0(),
            r.wf(),
    {
        ST0::decode(self.payloads[0])
    }

    pub fn st1(&self) -> (r: ST1)
        ensures
            r == self@.st1(),
            r.wf(),
    {
        ST1::decode(self.payloads[1])
    }

    pub fn st2(&self) -> (r: ST2)
        ensures
            r == self@.st2(),
            r.wf(),
    {
        ST2::decode(self.payloads[2])
    }

    pub fn st3(&self) -> (r: ST3)
        ensures
            r == self@.st3(),
            r.wf(),
    {
        ST3::decode(self.payloads[3])
    }

    pub fn st4(&self) -> (r: ST4)
        ensures
            r == self@.st4(),
            r.wf(),
    {
        ST4::decode(self.payloads[4])
    }

    pub fn st6(&self) -> (r: ST6)
        ensures
            r == self@.st6(),
            r.wf(),
    {
        ST6::decode(self.payloads[6])
    }

    pub fn st10(&self) -> (r: ST10)
        ensures
            r == self@.st10(),
            r.wf(),
    {
        ST10::decode(self.payloads[10])
    }
}

} // verus!
