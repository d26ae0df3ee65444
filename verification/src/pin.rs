//! Typed pin handles and the pin configuration engine.
//!
//! A `PinConfig<STATE>` names one pin of a port together with the electrical
//! configuration last written through it.  The marker types and the three
//! capability traits gate which operations a handle exposes: output states
//! drive the atomic set/reset path, input states read the level, and every
//! configured state can be disabled or locked.  Each transition consumes the
//! handle and returns one typed with the new state, and its contract states
//! the exact register writes performed on the port model.

use core::marker::PhantomData;
use vstd::prelude::*;

use crate::gpio::{cfg_shift, pin_mask, with_field, Gpio, GpioModel, RegOp};

verus! {

/// A pin whose configuration field holds the reset value: input, floating
/// in effect, and free to be given any concrete configuration.
pub struct Disabled;

/// A pin whose configuration is frozen until the next power cycle.  No
/// operation that writes the control registers is exposed for it.
pub struct Locked;

/// Marker for every state that is not locked: such a pin can still be
/// disabled or have its configuration frozen by the lock sequence.
pub trait PinState {}

/// Marker for states that drive the pin, exposing set and reset.
pub trait OutputState {}

/// Marker for states that can read the pin level.
pub trait InputState {}

/// Output driven high and low, CNF `00`.
pub struct PushPull;

/// Output driven low only, released when set, CNF `01`.
pub struct OpenDrain;

impl OutputState for PushPull {}

impl OutputState for OpenDrain {}

impl PinState for PushPull {}

impl PinState for OpenDrain {}

/// Input disconnected from the digital input path, CNF `00`.
pub struct Analog;

/// Input with neither pull resistor, CNF `01`.
pub struct Floating;

/// Input pulled towards high, CNF `10` with the output data bit set.
pub struct InputPullUp;

/// Input pulled towards low, CNF `10` with the output data bit clear.
pub struct InputPullDown;

impl InputState for Analog {}

impl InputState for Floating {}

impl InputState for InputPullUp {}

impl InputState for InputPullDown {}

impl PinState for Analog {}

impl PinState for Floating {}

impl PinState for InputPullUp {}

impl PinState for InputPullDown {}

impl PinState for Disabled {}

/// Output slew rate selector.  The hardware numbering is not monotonic:
/// 2 MHz is `10`, 10 MHz is `01`, 50 MHz is `11`.
#[derive(Clone, Copy, PartialEq, Eq, Structural, Debug)]
pub enum PinSpeed {
    Speed2Hz,
    Speed10Hz,
    Speed50Hz,
}

/// The MODE bits that encode an output speed.
pub open spec fn speed_bits(s: PinSpeed) -> u32 {
    match s {
        PinSpeed::Speed2Hz => 0b10u32,
        PinSpeed::Speed10Hz => 0b01u32,
        PinSpeed::Speed50Hz => 0b11u32,
    }
}

impl PinSpeed {
    /// The MODE bits of this speed, as the hardware encodes them.
    pub fn bits(&self) -> (b: u32)
        ensures
            b == speed_bits(*self),
    {
        match *self {
            PinSpeed::Speed2Hz => 0b10,
            PinSpeed::Speed10Hz => 0b01,
            PinSpeed::Speed50Hz => 0b11,
        }
    }
}

/// The port after the 4-bit configuration field of `pin` has been set to
/// `bits` by one read-modify-write of the half register that owns the pin.
/// Every other field of that register, the other registers and the earlier
/// trace are unchanged.
pub open spec fn ctrl_written(g: GpioModel, pin: u32, bits: u32) -> GpioModel {
    if pin < 8 {
        let v = with_field(g.crl, pin, bits);
        GpioModel { crl: v, ops: g.ops.push(RegOp::CrlWrite(v)), ..g }
    } else {
        let v = with_field(g.crh, pin, bits);
        GpioModel { crh: v, ops: g.ops.push(RegOp::CrhWrite(v)), ..g }
    }
}

/// The 4-bit field written for a push-pull output: CNF `00`, MODE the speed.
pub open spec fn pushpull_bits(s: PinSpeed) -> u32 {
    (0b00u32 << 2) | speed_bits(s)
}

/// The 4-bit field written for an open-drain output: CNF `01`, MODE the speed.
pub open spec fn opendrain_bits(s: PinSpeed) -> u32 {
    (0b01u32 << 2) | speed_bits(s)
}

/// The 4-bit field written for an analog input: CNF `00`, MODE `00`.
pub open spec fn analog_bits() -> u32 {
    0b0000u32
}

/// The 4-bit field written for a floating input, and by disable: CNF `01`,
/// MODE `00`.  This is the reset value of a pin's field.
pub open spec fn floating_bits() -> u32 {
    0b0100u32
}

/// The 4-bit field written for both pulled inputs: CNF `10`, MODE `00`.
pub open spec fn pull_bits() -> u32 {
    0b1000u32
}

/// The port after a write of `v` to the output data register ending a
/// read-modify-write.  The input register is untouched: `odr` written this
/// way selects a pull direction, it does not drive the pin.
pub open spec fn odr_written(g: GpioModel, v: u32) -> GpioModel {
    GpioModel { odr: v, ops: g.ops.push(RegOp::OdrWrite(v)), ..g }
}

/// The port after configuring `pin` as push-pull output at speed `s`.
pub open spec fn after_pushpull(g: GpioModel, pin: u32, s: PinSpeed) -> GpioModel {
    ctrl_written(g, pin, pushpull_bits(s))
}

/// The port after configuring `pin` as open-drain output at speed `s`.
pub open spec fn after_opendrain(g: GpioModel, pin: u32, s: PinSpeed) -> GpioModel {
    ctrl_written(g, pin, opendrain_bits(s))
}

/// The port after configuring `pin` as analog input.
pub open spec fn after_analog(g: GpioModel, pin: u32) -> GpioModel {
    ctrl_written(g, pin, analog_bits())
}

/// The port after configuring `pin` as floating input.
pub open spec fn after_floating(g: GpioModel, pin: u32) -> GpioModel {
    ctrl_written(g, pin, floating_bits())
}

/// The port after configuring `pin` as pulled-up input: the configuration
/// field, then the pin's output data bit set to select the up direction.
pub open spec fn after_pullup(g: GpioModel, pin: u32) -> GpioModel {
    let g1 = ctrl_written(g, pin, pull_bits());
    odr_written(g1, g1.odr | pin_mask(pin))
}

/// The port after configuring `pin` as pulled-down input: the configuration
/// field, then the pin's output data bit cleared to select the down
/// direction.
pub open spec fn after_pulldown(g: GpioModel, pin: u32) -> GpioModel {
    let g1 = ctrl_written(g, pin, pull_bits());
    odr_written(g1, g1.odr & !pin_mask(pin))
}

/// The port after one write of the pin's mask to the atomic set register:
/// the pin's output data bit is set without touching the others, and the
/// simulated loopback drives the input register to match.
pub open spec fn after_set(g: GpioModel, pin: u32) -> GpioModel {
    GpioModel {
        odr: g.odr | pin_mask(pin),
        idr: g.idr | pin_mask(pin),
        ops: g.ops.push(RegOp::BsrrWrite(pin_mask(pin))),
        ..g
    }
}

/// The port after one write of the pin's mask to the atomic reset register:
/// the pin's output data bit is cleared without touching the others, and
/// the simulated loopback drives the input register to match.
pub open spec fn after_reset(g: GpioModel, pin: u32) -> GpioModel {
    GpioModel {
        odr: g.odr & !pin_mask(pin),
        idr: g.idr & !pin_mask(pin),
        ops: g.ops.push(RegOp::BrrWrite(pin_mask(pin))),
        ..g
    }
}

/// The port after disabling `pin`: the field back to its reset value, then
/// the pin forced low through the atomic reset register.
pub open spec fn after_disable(g: GpioModel, pin: u32) -> GpioModel {
    after_reset(ctrl_written(g, pin, floating_bits()), pin)
}

/// The six lock-register operations of the hardware lock sequence, started
/// with the lock register holding `l`: a write with bit 0 set, the key bit
/// 16 written one, zero, one, then two reads.
pub open spec fn lock_sequence(l: u32) -> Seq<RegOp> {
    let v1 = l | 1u32;
    let v2 = v1 | 0x10000u32;
    let v3 = v2 & !0x10000u32;
    let v4 = v3 | 0x10000u32;
    seq![
        RegOp::LckrWrite(v1),
        RegOp::LckrWrite(v2),
        RegOp::LckrWrite(v3),
        RegOp::LckrWrite(v4),
        RegOp::LckrRead,
        RegOp::LckrRead,
    ]
}

/// The port after the lock sequence: exactly the six operations of
/// `lock_sequence`, in their order, and the lock register left at the last
/// written value.  No other register is touched.
pub open spec fn after_lock(g: GpioModel) -> GpioModel {
    let v1 = g.lckr | 1u32;
    let v2 = v1 | 0x10000u32;
    let v3 = v2 & !0x10000u32;
    let v4 = v3 | 0x10000u32;
    GpioModel { lckr: v4, ops: g.ops + lock_sequence(g.lckr), ..g }
}

/// Whether the pin's bit in the input data register reads one.
pub open spec fn level_high(g: GpioModel, pin: u32) -> bool {
    g.idr & pin_mask(pin) != 0u32
}

/// Failure of a pin-handle constructor.
#[derive(Clone, Copy, PartialEq, Eq, Structural, Debug)]
pub enum PinError {
    /// The requested pin index is outside the port's sixteen pins.
    InvalidPin,
}

/// Handle to one pin of a port, typed with the configuration last written
/// through it.  The handle carries the pin index only; the port's register
/// state is passed to each operation, so one handle cannot outlive or alias
/// the model it mutates.
pub struct PinConfig<STATE> {
    pub pin: u8,
    pub _state: PhantomData<STATE>,
}

impl<STATE> PinConfig<STATE> {
    /// A handle is well formed when its index names one of the port's
    /// sixteen pins.
    pub open spec fn wf(self) -> bool {
        self.pin < 16
    }
}

impl PinConfig<Disabled> {
    /// Handle for pin `pin` of a port, in the disabled state.  Indices of
    /// sixteen and above name no pin and are rejected.
    pub fn new(pin: u8) -> (r: Result<PinConfig<Disabled>, PinError>)
        ensures
            pin < 16 <==> r is Ok,
            r matches Ok(p) ==> p.pin == pin && p.wf(),
            r matches Err(e) ==> e is InvalidPin,
    {
        if pin < 16 {
            Ok(PinConfig { pin, _state: PhantomData })
        } else {
            Err(PinError::InvalidPin)
        }
    }

    /// Make `pin` a push-pull output at speed `pin_speed`: one
    /// read-modify-write of the pin's 4-bit field in its half register.
    pub fn into_output_pushpull(self, gpio: &mut Gpio, pin_speed: PinSpeed) -> (r: PinConfig<
        PushPull,
    >)
        requires
            self.wf(),
        ensures
            r.pin == self.pin,
            r.wf(),
            final(gpio)@ == after_pushpull(old(gpio)@, self.pin as u32, pin_speed),
    {
        let mode: u32 = pin_speed.bits();
        let bits: u32 = (0b00u32 << 2) | mode;
        proof {
            assert(mode < 4);
            assert(bits < 16) by (bit_vector)
                requires
                    mode < 4 && bits == (0b00u32 << 2) | mode,
            ;
        }
        write_ctrl_field(gpio, self.pin, bits);
        PinConfig { pin: self.pin, _state: PhantomData }
    }

    /// Make `pin` an open-drain output at speed `pin_speed`: one
    /// read-modify-write of the pin's 4-bit field in its half register.
    pub fn into_output_opendrain(self, gpio: &mut Gpio, pin_speed: PinSpeed) -> (r: PinConfig<
        OpenDrain,
    >)
        requires
            self.wf(),
        ensures
            r.pin == self.pin,
            r.wf(),
            final(gpio)@ == after_opendrain(old(gpio)@, self.pin as u32, pin_speed),
    {
        let mode: u32 = pin_speed.bits();
        let bits: u32 = (0b01u32 << 2) | mode;
        proof {
            assert(mode < 4);
            assert(bits < 16) by (bit_vector)
                requires
                    mode < 4 && bits == (0b01u32 << 2) | mode,
            ;
        }
        write_ctrl_field(gpio, self.pin, bits);
        PinConfig { pin: self.pin, _state: PhantomData }
    }

    /// Make `pin` an analog input: one read-modify-write of the pin's
    /// 4-bit field in its half register.
    pub fn into_analog(self, gpio: &mut Gpio) -> (r: PinConfig<Analog>)
        requires
            self.wf(),
        ensures
            r.pin == self.pin,
            r.wf(),
            final(gpio)@ == after_analog(old(gpio)@, self.pin as u32),
    {
        write_ctrl_field(gpio, self.pin, 0b0000);
        PinConfig { pin: self.pin, _state: PhantomData }
    }

    /// Make `pin` a floating input: one read-modify-write of the pin's
    /// 4-bit field in its half register.
    pub fn into_input_floating(self, gpio: &mut Gpio) -> (r: PinConfig<Floating>)
        requires
            self.wf(),
        ensures
            r.pin == self.pin,
            r.wf(),
            final(gpio)@ == after_floating(old(gpio)@, self.pin as u32),
    {
        write_ctrl_field(gpio, self.pin, 0b0100);
        PinConfig { pin: self.pin, _state: PhantomData }
    }

    /// Make `pin` a pulled-up input: the configuration field, then the
    /// pin's output data bit set to choose the up direction.
    pub fn into_input_pullup(self, gpio: &mut Gpio) -> (r: PinConfig<InputPullUp>)
        requires
            self.wf(),
        ensures
            r.pin == self.pin,
            r.wf(),
            final(gpio)@ == after_pullup(old(gpio)@, self.pin as u32),
    {
        write_ctrl_field(gpio, self.pin, 0b1000);
        let v: u32 = gpio.odr | (1u32 << (self.pin as u32));
        gpio.odr = v;
        gpio.ops.push(RegOp::OdrWrite(v));
        proof {
            assert(gpio@ =~= after_pullup(old(gpio)@, self.pin as u32));
        }
        PinConfig { pin: self.pin, _state: PhantomData }
    }

    /// Make `pin` a pulled-down input: the configuration field, then the
    /// pin's output data bit cleared to choose the down direction.
    pub fn into_input_pulldown(self, gpio: &mut Gpio) -> (r: PinConfig<InputPullDown>)
        requires
            self.wf(),
        ensures
            r.pin == self.pin,
            r.wf(),
            final(gpio)@ == after_pulldown(old(gpio)@, self.pin as u32),
    {
        write_ctrl_field(gpio, self.pin, 0b1000);
        let v: u32 = gpio.odr & !(1u32 << (self.pin as u32));
        gpio.odr = v;
        gpio.ops.push(RegOp::OdrWrite(v));
        proof {
            assert(gpio@ =~= after_pulldown(old(gpio)@, self.pin as u32));
        }
        PinConfig { pin: self.pin, _state: PhantomData }
    }
}

/// Set the 4-bit configuration field of `pin` to `bits` in the half
/// register that owns it, by one read-modify-write, and record the write.
fn write_ctrl_field(gpio: &mut Gpio, pin: u8, bits: u32)
    requires
        pin < 16,
        bits < 16,
    ensures
        final(gpio)@ == ctrl_written(old(gpio)@, pin as u32, bits),
{
    if pin < 8 {
        let shift: u32 = (pin as u32) * 4;
        let v: u32 = (gpio.crl & !(0xFu32 << shift)) | (bits << shift);
        gpio.crl = v;
        gpio.ops.push(RegOp::CrlWrite(v));
        proof {
            assert(shift == cfg_shift(pin as u32));
            assert(gpio@ =~= ctrl_written(old(gpio)@, pin as u32, bits));
        }
    } else {
        let shift: u32 = ((pin - 8) as u32) * 4;
        let v: u32 = (gpio.crh & !(0xFu32 << shift)) | (bits << shift);
        gpio.crh = v;
        gpio.ops.push(RegOp::CrhWrite(v));
        proof {
            assert(shift == cfg_shift(pin as u32));
            assert(gpio@ =~= ctrl_written(old(gpio)@, pin as u32, bits));
        }
    }
}

impl<STATE: OutputState> PinConfig<STATE> {
    /// Drive the pin high: one write of the pin's mask to the atomic set
    /// register.  No other pin's bit is in the mask, so no other output
    /// changes and no read-modify-write is involved.
    pub fn set(&self, gpio: &mut Gpio)
        requires
            self.wf(),
        ensures
            final(gpio)@ == after_set(old(gpio)@, self.pin as u32),
    {
        let m: u32 = 1u32 << (self.pin as u32);
        gpio.odr = gpio.odr | m;
        gpio.idr = gpio.idr | m;
        gpio.ops.push(RegOp::BsrrWrite(m));
        proof {
            assert(gpio@ =~= after_set(old(gpio)@, self.pin as u32));
        }
    }

    /// Drive the pin low: one write of the pin's mask to the atomic reset
    /// register.  No other pin's bit is in the mask, so no other output
    /// changes and no read-modify-write is involved.
    pub fn reset(&self, gpio: &mut Gpio)
        requires
            self.wf(),
        ensures
            final(gpio)@ == after_reset(old(gpio)@, self.pin as u32),
    {
        let m: u32 = 1u32 << (self.pin as u32);
        gpio.odr = gpio.odr & !m;
        gpio.idr = gpio.idr & !m;
        gpio.ops.push(RegOp::BrrWrite(m));
        proof {
            assert(gpio@ =~= after_reset(old(gpio)@, self.pin as u32));
        }
    }
}

impl<STATE: InputState> PinConfig<STATE> {
    /// Whether the pin reads high: one read of the input data register,
    /// testing the pin's bit.
    pub fn is_high(&self, gpio: &Gpio) -> (r: bool)
        requires
            self.wf(),
        ensures
            r == level_high(gpio@, self.pin as u32),
    {
        let r: u32 = gpio.idr;
        (r & (1u32 << (self.pin as u32))) != 0
    }

    /// Whether the pin reads low: one read of the input data register,
    /// testing the pin's bit.  Against an unchanged port model this is the
    /// negation of `is_high`; both test the same modeled register, so the
    /// two can never disagree on one state of the port.
    pub fn is_low(&self, gpio: &Gpio) -> (r: bool)
        requires
            self.wf(),
        ensures
            r == !level_high(gpio@, self.pin as u32),
    {
        let r: u32 = gpio.idr;
        (r & (1u32 << (self.pin as u32))) == 0
    }
}

impl<STATE: PinState> PinConfig<STATE> {
    /// Freeze the pin's configuration until the next power cycle, by the
    /// hardware lock sequence: a write with bit 0 set, the key bit 16
    /// written one, zero, one, then two reads, in exactly that order and
    /// with nothing in between.
    pub fn lock(self, gpio: &mut Gpio) -> (r: PinConfig<Locked>)
        requires
            self.wf(),
        ensures
            r.pin == self.pin,
            r.wf(),
            final(gpio)@ == after_lock(old(gpio)@),
            final(gpio)@.ops == old(gpio)@.ops + lock_sequence(old(gpio)@.lckr),
    {
        let v1: u32 = gpio.lckr | 1;
        gpio.lckr = v1;
        gpio.ops.push(RegOp::LckrWrite(v1));
        let v2: u32 = gpio.lckr | 0x10000;
        gpio.lckr = v2;
        gpio.ops.push(RegOp::LckrWrite(v2));
        let v3: u32 = gpio.lckr & !0x10000;
        gpio.lckr = v3;
        gpio.ops.push(RegOp::LckrWrite(v3));
        let v4: u32 = gpio.lckr | 0x10000;
        gpio.lckr = v4;
        gpio.ops.push(RegOp::LckrWrite(v4));
        gpio.ops.push(RegOp::LckrRead);
        gpio.ops.push(RegOp::LckrRead);
        proof {
            assert(gpio@.ops =~= old(gpio)@.ops + lock_sequence(old(gpio)@.lckr));
            assert(gpio@ =~= after_lock(old(gpio)@));
        }
        PinConfig { pin: self.pin, _state: PhantomData }
    }

    /// Return the pin to the disabled state: the field back to its reset
    /// value, then the pin forced low through the atomic reset register.
    pub fn disable(self, gpio: &mut Gpio) -> (r: PinConfig<Disabled>)
        requires
            self.wf(),
        ensures
            r.pin == self.pin,
            r.wf(),
            final(gpio)@ == after_disable(old(gpio)@, self.pin as u32),
    {
        write_ctrl_field(gpio, self.pin, 0b0100);
        let m: u32 = 1u32 << (self.pin as u32);
        gpio.odr = gpio.odr & !m;
        gpio.idr = gpio.idr & !m;
        gpio.ops.push(RegOp::BrrWrite(m));
        proof {
            assert(gpio@ =~= after_disable(old(gpio)@, self.pin as u32));
        }
        PinConfig { pin: self.pin, _state: PhantomData }
    }
}

} // verus!
