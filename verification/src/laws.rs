//! Laws of the pin configuration engine, stated over the port model and
//! proved once for every pin, target state and starting register value.

use vstd::prelude::*;

use crate::gpio::{cfg_field_of, field_at, pin_mask, with_field, GpioModel, RegOp};
use crate::pin::{
    after_analog, after_disable, after_floating, after_lock, after_opendrain, after_pulldown,
    after_pullup, after_pushpull, after_reset, after_set, ctrl_written, floating_bits, level_high,
    lock_sequence, opendrain_bits, pull_bits, pushpull_bits, speed_bits, PinSpeed,
};

verus! {

/// Writing a pin's configuration stores exactly the given 4-bit field: it
/// reads back from the pin's half register, and no data or lock register
/// moves with it.
pub proof fn lemma_configure_sets_field(g: GpioModel, pin: u32, bits: u32)
    requires
        pin < 16,
        bits < 16,
    ensures
        cfg_field_of(ctrl_written(g, pin, bits), pin) == bits,
        ctrl_written(g, pin, bits).idr == g.idr,
        ctrl_written(g, pin, bits).odr == g.odr,
        ctrl_written(g, pin, bits).lckr == g.lckr,
{
    let crl: u32 = g.crl;
    let crh: u32 = g.crh;
    assert(field_at(with_field(crl, pin, bits), pin) == bits) by (bit_vector)
        requires
            pin < 16 && bits < 16,
    ;
    assert(field_at(with_field(crh, pin, bits), pin) == bits) by (bit_vector)
        requires
            pin < 16 && bits < 16,
    ;
}

/// Configuring one pin is isolated: the 4-bit field at offset
/// `(pin mod 8) * 4` of the pin's half register takes the written value,
/// and the field of every other pin, in either half register, is
/// bit-identical before and after.
pub proof fn lemma_configure_isolates(g: GpioModel, pin: u32, bits: u32, other: u32)
    requires
        pin < 16,
        other < 16,
        other != pin,
        bits < 16,
    ensures
        cfg_field_of(ctrl_written(g, pin, bits), pin) == bits,
        cfg_field_of(ctrl_written(g, pin, bits), other) == cfg_field_of(g, other),
{
    lemma_configure_sets_field(g, pin, bits);
    let crl: u32 = g.crl;
    let crh: u32 = g.crh;
    if pin < 8 && other < 8 {
        assert(field_at(with_field(crl, pin, bits), other) == field_at(crl, other))
            by (bit_vector)
            requires
                pin < 8 && other < 8 && other != pin && bits < 16,
        ;
    }
    if 8 <= pin && 8 <= other {
        assert(field_at(with_field(crh, pin, bits), other) == field_at(crh, other))
            by (bit_vector)
            requires
                8 <= pin && pin < 16 && 8 <= other && other < 16 && other != pin && bits < 16,
        ;
    }
}

/// The output encodings are exactly the documented ones: the MODE bits of
/// the written field equal the speed encoding (2 MHz is `10`, 10 MHz is
/// `01`, 50 MHz is `11`), and the CNF bits are `00` for push-pull and `01`
/// for open-drain.
pub proof fn lemma_output_encoding(s: PinSpeed)
    ensures
        speed_bits(PinSpeed::Speed2Hz) == 0b10,
        speed_bits(PinSpeed::Speed10Hz) == 0b01,
        speed_bits(PinSpeed::Speed50Hz) == 0b11,
        pushpull_bits(s) & 0b11 == speed_bits(s),
        pushpull_bits(s) >> 2u32 == 0b00,
        opendrain_bits(s) & 0b11 == speed_bits(s),
        opendrain_bits(s) >> 2u32 == 0b01,
        pushpull_bits(s) < 16,
        opendrain_bits(s) < 16,
{
    let m: u32 = speed_bits(s);
    assert(m == 1 || m == 2 || m == 3);
    assert(((0b00u32 << 2) | m) & 0b11 == m && ((0b00u32 << 2) | m) >> 2u32 == 0b00 && ((0b01u32
        << 2) | m) & 0b11 == m && ((0b01u32 << 2) | m) >> 2u32 == 0b01 && ((0b00u32 << 2) | m)
        < 16 && ((0b01u32 << 2) | m) < 16) by (bit_vector)
        requires
            m == 1 || m == 2 || m == 3,
    ;
}

/// An output configuration stores its documented field: after the
/// transition, the pin's 4-bit field in its half register reads back as
/// the encoding of the chosen state and speed.
pub proof fn lemma_output_field_written(g: GpioModel, pin: u32, s: PinSpeed)
    requires
        pin < 16,
    ensures
        cfg_field_of(after_pushpull(g, pin, s), pin) == pushpull_bits(s),
        cfg_field_of(after_opendrain(g, pin, s), pin) == opendrain_bits(s),
{
    lemma_output_encoding(s);
    lemma_configure_sets_field(g, pin, pushpull_bits(s));
    lemma_configure_sets_field(g, pin, opendrain_bits(s));
}

/// On the looped-back port a set is observed at once: after writing the
/// pin's mask to the atomic set register the pin reads high, and after
/// writing it to the atomic reset register the pin reads low.
pub proof fn lemma_set_then_high(g: GpioModel, pin: u32)
    requires
        pin < 16,
    ensures
        level_high(after_set(g, pin), pin),
        !level_high(after_reset(g, pin), pin),
{
    let idr: u32 = g.idr;
    assert((idr | (1u32 << pin)) & (1u32 << pin) != 0u32) by (bit_vector)
        requires
            pin < 16,
    ;
    assert((idr & !(1u32 << pin)) & (1u32 << pin) == 0u32) by (bit_vector)
        requires
            pin < 16,
    ;
}

/// The two pulled inputs differ in the output data register alone: both
/// write the field CNF `10`, MODE `00`, pull-up then sets the pin's output
/// data bit where pull-down clears it, and every other register is the
/// same after either.
pub proof fn lemma_pull_direction(g: GpioModel, pin: u32)
    requires
        pin < 16,
    ensures
        after_pullup(g, pin).crl == after_pulldown(g, pin).crl,
        after_pullup(g, pin).crh == after_pulldown(g, pin).crh,
        after_pullup(g, pin).idr == after_pulldown(g, pin).idr,
        after_pullup(g, pin).lckr == after_pulldown(g, pin).lckr,
        after_pullup(g, pin).odr == (g.odr | pin_mask(pin)),
        after_pulldown(g, pin).odr == (g.odr & !pin_mask(pin)),
        after_pullup(g, pin).odr & pin_mask(pin) == pin_mask(pin),
        after_pulldown(g, pin).odr & pin_mask(pin) == 0u32,
        cfg_field_of(after_pullup(g, pin), pin) == pull_bits(),
        cfg_field_of(after_pulldown(g, pin), pin) == pull_bits(),
{
    lemma_configure_sets_field(g, pin, pull_bits());
    let odr: u32 = g.odr;
    assert((odr | (1u32 << pin)) & (1u32 << pin) == (1u32 << pin) && (odr & !(1u32 << pin)) & (
    1u32 << pin) == 0u32) by (bit_vector)
        requires
            pin < 16,
    ;
}

/// The lock sequence is exactly six ordered lock-register operations: a
/// write with bit 0 one, three writes stepping the key bit 16 through one,
/// zero, one while bit 0 stays one, then two reads.
pub proof fn lemma_lock_sequence_order(l: u32)
    ensures
        lock_sequence(l).len() == 6,
        lock_sequence(l)[0] matches RegOp::LckrWrite(v0) && v0 & 1u32 == 1u32,
        lock_sequence(l)[1] matches RegOp::LckrWrite(v1) && v1 & 0x10000u32 == 0x10000u32 && v1
            & 1u32 == 1u32,
        lock_sequence(l)[2] matches RegOp::LckrWrite(v2) && v2 & 0x10000u32 == 0u32 && v2 & 1u32
            == 1u32,
        lock_sequence(l)[3] matches RegOp::LckrWrite(v3) && v3 & 0x10000u32 == 0x10000u32 && v3
            & 1u32 == 1u32,
        lock_sequence(l)[4] is LckrRead,
        lock_sequence(l)[5] is LckrRead,
{
    let v1: u32 = l | 1u32;
    let v2: u32 = v1 | 0x10000u32;
    let v3: u32 = v2 & !0x10000u32;
    let v4: u32 = v3 | 0x10000u32;
    assert(v1 & 1u32 == 1u32 && v2 & 1u32 == 1u32 && v3 & 1u32 == 1u32 && v4 & 1u32 == 1u32 && v2
        & 0x10000u32 == 0x10000u32 && v3 & 0x10000u32 == 0u32 && v4 & 0x10000u32 == 0x10000u32)
        by (bit_vector)
        requires
            v1 == l | 1u32 && v2 == v1 | 0x10000u32 && v3 == v2 & !0x10000u32 && v4 == v3
                | 0x10000u32,
    ;
}

/// Each transition performs its documented register operations and no
/// more: one control-register read-modify-write for every configuration,
/// one further output-data write for the pulled inputs, one further
/// atomic-reset write for disable, and six lock-register operations for
/// the lock sequence.
pub proof fn lemma_side_effect_counts(g: GpioModel, pin: u32, s: PinSpeed)
    ensures
        after_pushpull(g, pin, s).ops.len() == g.ops.len() + 1,
        after_opendrain(g, pin, s).ops.len() == g.ops.len() + 1,
        after_analog(g, pin).ops.len() == g.ops.len() + 1,
        after_floating(g, pin).ops.len() == g.ops.len() + 1,
        after_pullup(g, pin).ops.len() == g.ops.len() + 2,
        after_pulldown(g, pin).ops.len() == g.ops.len() + 2,
        after_disable(g, pin).ops.len() == g.ops.len() + 2,
        after_set(g, pin).ops.len() == g.ops.len() + 1,
        after_reset(g, pin).ops.len() == g.ops.len() + 1,
        after_lock(g).ops.len() == g.ops.len() + 6,
{
}

/// Locking performs the six-step sequence and nothing else: the trace
/// grows by exactly `lock_sequence`, no data or control register moves,
/// and the lock register is left with bit 0 engaged and the key bit set.
pub proof fn lemma_lock_engages(g: GpioModel)
    ensures
        after_lock(g).ops == g.ops + lock_sequence(g.lckr),
        after_lock(g).crl == g.crl,
        after_lock(g).crh == g.crh,
        after_lock(g).idr == g.idr,
        after_lock(g).odr == g.odr,
        after_lock(g).lckr & 1u32 == 1u32,
        after_lock(g).lckr & 0x10000u32 == 0x10000u32,
{
    let l: u32 = g.lckr;
    let v1: u32 = l | 1u32;
    let v2: u32 = v1 | 0x10000u32;
    let v3: u32 = v2 & !0x10000u32;
    let v4: u32 = v3 | 0x10000u32;
    assert(v4 & 1u32 == 1u32 && v4 & 0x10000u32 == 0x10000u32) by (bit_vector)
        requires
            v1 == l | 1u32 && v2 == v1 | 0x10000u32 && v3 == v2 & !0x10000u32 && v4 == v3
                | 0x10000u32,
    ;
    assert(after_lock(g).lckr == v4);
}

/// Disabling a pin, from any prior register state, leaves its field at the
/// reset value CNF `01`, MODE `00`, and ends with one atomic-reset write of
/// the pin's mask that clears the pin's output data bit.
pub proof fn lemma_disable_resets(g: GpioModel, pin: u32)
    requires
        pin < 16,
    ensures
        cfg_field_of(after_disable(g, pin), pin) == floating_bits(),
        after_disable(g, pin).odr & pin_mask(pin) == 0u32,
        after_disable(g, pin).ops.len() == g.ops.len() + 2,
        after_disable(g, pin).ops.last() == RegOp::BrrWrite(pin_mask(pin)),
{
    lemma_configure_sets_field(g, pin, floating_bits());
    let odr: u32 = g.odr;
    assert((odr & !(1u32 << pin)) & (1u32 << pin) == 0u32) by (bit_vector)
        requires
            pin < 16,
    ;
}

} // verus!
