//! Hardware abstraction layer for an STM32F103-class GPIO port.
//!
//! The library models a port's register block as plain values together with
//! an ordered trace of the register operations performed on it, and verifies
//! the pin configuration engine, the atomic set/reset path, the level reads
//! and the hardware lock sequence against that model.  The memory-mapped
//! register blocks themselves, the reset machinery and the peripheral
//! factory live outside the verified library.

pub mod gpio;
pub mod laws;
pub mod pin;
pub mod rcc;
pub mod rt;
