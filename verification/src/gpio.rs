//! Software model of one GPIO port's register block.
//!
//! The hardware block holds seven 32-bit registers: the two control
//! registers `crl` (pins 0-7) and `crh` (pins 8-15), the read-only input
//! data register `idr`, the output data register `odr`, the write-only
//! atomic set register `bsrr`, the write-only atomic reset register `brr`,
//! and the configuration lock register `lckr`.
//!
//! `Gpio` keeps the stateful registers as plain values and records every
//! operation the library performs on the block in `ops`, in order.  The two
//! write-only registers carry no state of their own: a write to them shows
//! up in the trace and in its effect on `odr`.  The simulation loops the
//! output latch back to `idr` on the atomic set/reset path, so a level read
//! after driving a pin observes the driven value.

use vstd::prelude::*;

verus! {

/// One register operation performed on the port, as it would reach the bus.
///
/// Read-modify-write updates of `crl`, `crh` and `odr` appear as the single
/// write that ends them; bare reads of the lock register appear as
/// `LckrRead`.  Level reads of `idr` have no side effect and are not traced.
#[derive(Clone, Copy, PartialEq, Eq, Structural, Debug)]
pub enum RegOp {
    /// Write of the given value to the low control register.
    CrlWrite(u32),
    /// Write of the given value to the high control register.
    CrhWrite(u32),
    /// Write of the given value to the output data register.
    OdrWrite(u32),
    /// Write of the given mask to the atomic set register.
    BsrrWrite(u32),
    /// Write of the given mask to the atomic reset register.
    BrrWrite(u32),
    /// Write of the given value to the lock register.
    LckrWrite(u32),
    /// Read of the lock register, result discarded or inspected.
    LckrRead,
}

/// The mathematical state of a port: its stateful registers and the ordered
/// trace of operations performed so far.
#[verifier::ext_equal]
pub ghost struct GpioModel {
    pub crl: u32,
    pub crh: u32,
    pub idr: u32,
    pub odr: u32,
    pub lckr: u32,
    pub ops: Seq<RegOp>,
}

/// Simulated register block of one GPIO port.
pub struct Gpio {
    pub crl: u32,
    pub crh: u32,
    pub idr: u32,
    pub odr: u32,
    pub lckr: u32,
    pub ops: Vec<RegOp>,
}

impl View for Gpio {
    type V = GpioModel;

    open spec fn view(&self) -> GpioModel {
        GpioModel {
            crl: self.crl,
            crh: self.crh,
            idr: self.idr,
            odr: self.odr,
            lckr: self.lckr,
            ops: self.ops@,
        }
    }
}

impl Gpio {
    /// A port as it comes out of reset: every register zero, nothing done yet.
    pub fn new() -> (g: Gpio)
        ensures
            g@.crl == 0,
            g@.crh == 0,
            g@.idr == 0,
            g@.odr == 0,
            g@.lckr == 0,
            g@.ops == Seq::<RegOp>::empty(),
    {
        let g = Gpio { crl: 0, crh: 0, idr: 0, odr: 0, lckr: 0, ops: Vec::new() };
        proof {
            assert(g@.ops =~= Seq::<RegOp>::empty());
        }
        g
    }
}

/// The single bit of `pin` in the data and set/reset registers.
pub open spec fn pin_mask(pin: u32) -> u32 {
    1u32 << pin
}

/// Bit offset of the 4-bit configuration field of `pin` within its half
/// register: `(pin mod 8) * 4`.
pub open spec fn cfg_shift(pin: u32) -> u32 {
    ((pin % 8) * 4) as u32
}

/// The 4-bit configuration field of `pin` as read from half register `reg`.
pub open spec fn field_at(reg: u32, pin: u32) -> u32 {
    (reg >> cfg_shift(pin)) & 0xF
}

/// The half register `reg` with the 4-bit field of `pin` replaced by `bits`
/// and every other bit unchanged: the read-modify-write the configuration
/// engine performs.
pub open spec fn with_field(reg: u32, pin: u32, bits: u32) -> u32 {
    (reg & !(0xFu32 << cfg_shift(pin))) | (bits << cfg_shift(pin))
}

/// The 4-bit configuration field of `pin`, taken from the half register
/// that owns it: `crl` for pins 0-7, `crh` for pins 8-15.
pub open spec fn cfg_field_of(g: GpioModel, pin: u32) -> u32 {
    if pin < 8 {
        field_at(g.crl, pin)
    } else {
        field_at(g.crh, pin)
    }
}

} // verus!
