//! Host-side driver core for the CP2130 USB-to-SPI/GPIO bridge.
//!
//! The crate holds the chip's command encoding, the device state and the
//! step-by-step procedures that drive it. It performs no USB traffic itself:
//! every procedure hands out the next [`usb::Request`] and is resumed with the
//! answer the host obtained for it.

use vstd::prelude::*;

pub mod bytes;
pub mod codec;
pub mod connect;
pub mod cp2130;
pub mod device;
pub mod manager;
pub mod prelude;
pub mod spi;
pub mod transaction;
pub mod usb;

pub use crate::cp2130::{Cp2130, Device, InputPin, OutputPin, Spi};
pub use crate::device::{GpioLevel, GpioMode, SpiClock, SpiConfig, SpiMode};

verus! {

/// Failures of the driver.
#[derive(Debug, PartialEq, Eq, Structural, Clone, Copy)]
pub enum Error {
    /// The USB host reported a failure.
    Usb(usb::UsbError),
    /// The device offers no string-descriptor language.
    NoLanguages,
    /// The device does not expose exactly one configuration.
    Configurations,
    /// A required bulk endpoint is missing.
    Endpoint,
    /// The GPIO pin is already claimed.
    GpioInUse,
    /// An index is out of range.
    InvalidIndex,
    /// Invalid SPI baud rate.
    InvalidBaud,
}

impl From<usb::UsbError> for Error {
    fn from(e: usb::UsbError) -> (error: Error) {
        Error::Usb(e)
    }
}

impl vstd::std_specs::convert::FromSpecImpl<usb::UsbError> for Error {
    open spec fn obeys_from_spec() -> bool {
        true
    }

    open spec fn from_spec(e: usb::UsbError) -> Error {
        Error::Usb(e)
    }
}

} // verus!
