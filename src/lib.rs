//! Driver logic for the STuW81300 wideband PLL/VCO synthesizer.
//!
//! The library holds everything that decides: the bit layout of each
//! register, the 4-byte bus frame and the steps of one exchange, the divider
//! arithmetic of the frequency synthesizer, and the read-modify-write
//! operations on the chip's registers. Moving bytes over the bus is left to
//! the caller.
pub mod bus;
pub mod device;
pub mod error;
pub mod frame;
pub mod mock;
pub mod register_file;
pub mod registers;
pub mod synth;

pub use bus::{BusAction, BusEvent, Exchange, ExchangeOutcome, ExchangePhase};
pub use device::{PfdDelay, PfdDelayMode, ReferenceType, STuW81300, SupplyVoltage};
pub use error::{DomainError, Error};
pub use frame::{pack, unpack, AccessMode, ProtocolError};
pub use mock::{MockError, MockStuw81300LE, MockStuw81300SPI};
pub use register_file::{RegisterFile, RegisterWrite};
pub use registers::RegisterAddr;
pub use synth::{DsmOrder, PllPath, Rational, ReferenceClockPath};
