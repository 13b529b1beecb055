//! Countdown alarm driven over a Bluetooth Low Energy characteristic.
//!
//! The library models the shared alarm cell that a foreground BLE loop and an
//! alarm interrupt handler both mutate, the 4-byte big-endian wire format of
//! the characteristic, and the per-connection session state machine.
pub mod wire;
pub mod slot;
pub mod shared;
pub mod session;
