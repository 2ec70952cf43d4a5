//! Configuration records passed to the host at resource-setup time.
//!
//! The host reads these records by raw memory layout, not by field name, so
//! their field order is part of the wire contract; [`crate::layout`] fixes
//! the exact byte image of each record and proves it round-trips.
//!
//! Callback and context pointers are host-side raw addresses. The records
//! carry them as plain `u64` values and never dereference them: to this
//! binding they are opaque tokens that the host hands back to the chip module
//! when it invokes a callback. The chip module remains responsible for
//! keeping whatever a context value refers to alive for as long as the
//! configured watch, timer, or device is active.

use crate::abi::PinId;
use vstd::prelude::*;

verus! {

/// Configuration of a pin-change watch.
#[derive(Clone, Copy, Debug, PartialEq, Eq, Structural)]
pub struct WatchConfig {
    /// Opaque context value passed as the first argument of `pin_change`.
    pub user_data: u64,
    /// Which pin changes to listen for: [`crate::abi::RISING`],
    /// [`crate::abi::FALLING`] or [`crate::abi::BOTH`].
    pub edge: u32,
    /// Address of the callback the host invokes when the pin level changes.
    pub pin_change: u64,
}

/// Configuration of a timer.
#[derive(Clone, Copy, Debug, PartialEq, Eq, Structural)]
pub struct TimerConfig {
    /// Opaque context value passed back to the callback.
    pub user_data: u64,
    /// Address of the callback the host invokes when the timer fires.
    pub callback: u64,
}

/// Configuration of a UART device.
#[derive(Clone, Copy, Debug, PartialEq, Eq, Structural)]
pub struct UARTConfig {
    /// Opaque context value passed back to both callbacks.
    pub user_data: u64,
    /// Pin the device receives on.
    pub rx: PinId,
    /// Pin the device transmits on.
    pub tx: PinId,
    /// Baud rate of the simulated line.
    pub baud_rate: u32,
    /// Address of the callback invoked when a byte arrives.
    pub rx_data: u64,
    /// Address of the callback invoked when a submitted write completes.
    pub write_done: u64,
}

/// Configuration of an I2C device. Transfers are driven entirely by the
/// host through the four lifecycle callbacks; there is no transfer call.
#[derive(Clone, Copy, Debug, PartialEq, Eq, Structural)]
pub struct I2CConfig {
    /// Opaque context value passed back to every callback.
    pub user_data: u64,
    /// Target address the device answers to.
    pub address: u32,
    /// Clock pin.
    pub scl: PinId,
    /// Data pin.
    pub sda: PinId,
    /// Address of the callback invoked when a controller connects.
    pub connect: u64,
    /// Address of the callback invoked on a read request.
    pub read: u64,
    /// Address of the callback invoked on a write.
    pub write: u64,
    /// Address of the callback invoked when the controller disconnects.
    pub disconnect: u64,
}

/// Configuration of an SPI device.
#[derive(Clone, Copy, Debug, PartialEq, Eq, Structural)]
pub struct SPIConfig {
    /// Opaque context value passed back to the callback.
    pub user_data: u64,
    /// Clock pin.
    pub sck: PinId,
    /// Controller-out pin.
    pub mosi: PinId,
    /// Controller-in pin.
    pub miso: PinId,
    /// SPI clock mode.
    pub mode: u32,
    /// Address of the callback invoked when a started transfer completes.
    pub done: u64,
}

} // verus!
