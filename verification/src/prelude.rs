//! The items most users of the driver need.

pub use crate::cp2130::{Cp2130, Device, InputPin, OutputPin, Spi};
pub use crate::device::{GpioLevel, GpioMode, SpiClock, SpiConfig, SpiMode};
pub use crate::manager::{Filter, Manager};
pub use crate::Error as Cp2130Error;
