//! Software model of the clock gate for the GPIO ports.
//!
//! The reset and clock control peripheral enables the bus clock of a port by
//! setting that port's bit in its peripheral clock enable register.  Only
//! that register takes part in the port logic; the rest of the hardware
//! block is owned by the unverified register layout around the library.

use vstd::prelude::*;

verus! {

/// Simulated clock gate: the peripheral clock enable register for the bus
/// the GPIO ports hang off.
pub struct Rcc {
    pub apb2enr: u32,
}

impl Rcc {
    /// The clock gate as it comes out of reset: every port clock disabled.
    pub fn new() -> (r: Rcc)
        ensures
            r.apb2enr == 0,
    {
        Rcc { apb2enr: 0 }
    }

    /// Enable the clock of port A: set its enable bit, leave the rest alone.
    pub fn enable_gpioa(&mut self)
        ensures
            final(self).apb2enr == old(self).apb2enr | (1u32 << 2),
    {
        self.apb2enr = self.apb2enr | (1u32 << 2);
    }

    /// Enable the clock of port B: set its enable bit, leave the rest alone.
    pub fn enable_gpiob(&mut self)
        ensures
            final(self).apb2enr == old(self).apb2enr | (1u32 << 3),
    {
        self.apb2enr = self.apb2enr | (1u32 << 3);
    }

    /// Enable the clock of port C: set its enable bit, leave the rest alone.
    pub fn enable_gpioc(&mut self)
        ensures
            final(self).apb2enr == old(self).apb2enr | (1u32 << 4),
    {
        self.apb2enr = self.apb2enr | (1u32 << 4);
    }

    /// Enable the clock of port D: set its enable bit, leave the rest alone.
    pub fn enable_gpiod(&mut self)
        ensures
            final(self).apb2enr == old(self).apb2enr | (1u32 << 5),
    {
        self.apb2enr = self.apb2enr | (1u32 << 5);
    }

    /// Enable the clock of port E: set its enable bit, leave the rest alone.
    pub fn enable_gpioe(&mut self)
        ensures
            final(self).apb2enr == old(self).apb2enr | (1u32 << 6),
    {
        self.apb2enr = self.apb2enr | (1u32 << 6);
    }
}

} // verus!
