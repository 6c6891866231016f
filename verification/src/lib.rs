//! A register-level hardware abstraction layer for a 32-bit
//! microcontroller family, exposing GPIO, clock control, alternate-function
//! remapping and the serial peripherals (I2C, SPI, USART) as verified
//! state machines over an explicit model of the memory-mapped registers.
//!
//! Every configuration step is a consuming transition on a capability
//! token; the preconditions that the hardware manual imposes (clock
//! enabled before use, pins wired before construction, flash wait states
//! raised before the clock is switched) are stated as `requires` clauses
//! and checked by the verifier, so a sequence that would misprogram the
//! hardware is rejected before it runs.
//!
//! The register blocks themselves are plain data: each peripheral module
//! keeps the current register values, a log of the operations issued on
//! the bus, and, for the status-driven peripherals, a script of status
//! readings that stands for what the hardware will report.  Unverified
//! glue can replay the logged writes onto the real memory-mapped blocks.

pub mod common;
pub mod afio;
pub mod flash;
pub mod gpio;
pub mod i2c;
pub mod rcc;
pub mod spi;
pub mod usart;

pub use afio::Afio;
pub use flash::Flash;
pub use gpio::{Gpio, GpioPin};
pub use rcc::Rcc;
pub use spi::Spi;
pub use usart::Usart;
