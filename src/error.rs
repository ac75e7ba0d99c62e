//! Failures that the driver reports.
use vstd::prelude::*;
use crate::frame::ProtocolError;

verus! {

/// An input or a register state that the chip cannot be configured with.
#[derive(Debug, Clone, Copy, PartialEq, Eq, Structural)]
pub enum DomainError {
    /// The reference frequency lies outside 10 MHz to 800 MHz.
    ReferenceFrequencyOutOfRange,
    /// The reference path does not suit the reference band or signal type.
    ReferencePathIncompatible,
    /// The reference divider R lies outside 1 to 8191.
    ReferenceDividerOutOfRange,
    /// The divider ratio is below 24.
    InvalidDividerRatio,
    /// A divider ratio of 512 or more has a fractional part.
    FractionalNotAllowedAboveN512,
    /// The divider ratio lies outside the range of the configured DSM order.
    DividerOutOfRange,
    /// MOD lies outside 2 to 2097151.
    ModulusOutOfRange,
    /// FRAC is not below MOD.
    FracNotBelowMod,
    /// The charge pump scale is above 31.
    ChargePumpOutOfRange,
    /// The calibrator division lies outside what the register holds or is zero.
    CalibratorDivisionOutOfRange,
    /// The VCO amplitude is above what the supply class allows.
    AmplitudeTooHigh,
    /// Integer-only mode (N above 512) needs a hand-made calibrator setting.
    ManualConfigurationRequired,
    /// The identity register holds neither known device identity.
    UnknownDevice(u32),
    /// A register field holds a code that has no meaning.
    ReservedFieldValue,
}

/// Any failure of a driver operation: one of the bus's own two errors,
/// passed on unchanged, or one that the driver found before the bus was used.
#[derive(Debug, PartialEq, Eq)]
pub enum Error<T, P> {
    /// The 4-byte exchange failed.
    Transfer(T),
    /// Driving the chip-select (latch enable) line failed.
    LatchEnable(P),
    /// A frame that must not be sent.
    Protocol(ProtocolError),
    /// An input or register state that the chip cannot take.
    Domain(DomainError),
}

} // verus!
