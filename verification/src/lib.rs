//! Protocol driver for a two-plane (black/red) electrophoretic display panel.
//!
//! The library models every hardware interaction as a plan: a sequence of
//! [`protocol::BusOp`] values that an unverified runner replays on the real
//! lines and serial bus. The protocol sequencing, the panel state machine,
//! the bounded busy-wait policy, request validation, and the exclusive-access
//! arbitration are all verified here; only the replay itself is outside.

use vstd::prelude::*;

pub mod adapter;
pub mod arbiter;
pub mod driver;
pub mod protocol;
pub mod wait;

verus! {

/// Failure taxonomy of the driver.
///
/// `HardwareError` reports a line or bus operation that failed at the
/// platform level; `SizeMismatch` reports a caller-supplied bitplane whose
/// length is not the panel's plane size; `ProtocolTimeout` reports a busy
/// line that never signalled ready within the bounded poll budget.
#[derive(Clone, Copy, Debug, PartialEq, Eq, Structural)]
pub enum DriverError {
    HardwareError,
    SizeMismatch,
    ProtocolTimeout,
}

} // verus!
