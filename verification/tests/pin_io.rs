use stm32f103_hal::gpio::{Gpio, RegOp};
use stm32f103_hal::pin::{PinConfig, PinSpeed};

#[test]
fn set_then_reads_high_on_loopback() {
    let mut g: Gpio = Gpio::new();
    let out = PinConfig::new(4).unwrap().into_output_pushpull(&mut g, PinSpeed::Speed50Hz);
    out.set(&mut g);
    let probe = PinConfig::new(4).unwrap().into_input_floating(&mut g);
    assert!(probe.is_high(&g));
    assert!(!probe.is_low(&g));
    out.reset(&mut g);
    assert!(!probe.is_high(&g));
    assert!(probe.is_low(&g));
}

#[test]
fn set_and_reset_write_single_masks() {
    let mut g: Gpio = Gpio::new();
    let out = PinConfig::new(15).unwrap().into_output_opendrain(&mut g, PinSpeed::Speed10Hz);
    out.set(&mut g);
    assert_eq!(g.ops.last(), Some(&RegOp::BsrrWrite(1 << 15)));
    assert_eq!(g.odr, 1 << 15);
    out.reset(&mut g);
    assert_eq!(g.ops.last(), Some(&RegOp::BrrWrite(1 << 15)));
    assert_eq!(g.odr, 0);
}

#[test]
fn set_leaves_other_output_bits() {
    let mut g: Gpio = Gpio {
        crl: 0,
        crh: 0,
        idr: 0,
        odr: 0x8001,
        lckr: 0,
        ops: vec![],
    };
    let out = PinConfig::new(4).unwrap().into_output_pushpull(&mut g, PinSpeed::Speed2Hz);
    out.set(&mut g);
    assert_eq!(g.odr, 0x8011);
    out.reset(&mut g);
    assert_eq!(g.odr, 0x8001);
}

#[test]
fn is_high_and_is_low_are_negations() {
    let mut g: Gpio = Gpio::new();
    let pin = PinConfig::new(7).unwrap().into_input_floating(&mut g);
    assert!(!pin.is_high(&g));
    assert!(pin.is_low(&g));
    g.idr = 1 << 7;
    assert!(pin.is_high(&g));
    assert!(!pin.is_low(&g));
}

#[test]
fn lock_performs_exact_six_step_sequence() {
    let mut g: Gpio = Gpio::new();
    let pin = PinConfig::new(2).unwrap().into_output_pushpull(&mut g, PinSpeed::Speed2Hz);
    let before: usize = g.ops.len();
    pin.lock(&mut g);
    assert_eq!(g.ops.len(), before + 6);
    assert_eq!(
        &g.ops[before..],
        &[
            RegOp::LckrWrite(0x0000_0001),
            RegOp::LckrWrite(0x0001_0001),
            RegOp::LckrWrite(0x0000_0001),
            RegOp::LckrWrite(0x0001_0001),
            RegOp::LckrRead,
            RegOp::LckrRead,
        ]
    );
    assert_eq!(g.lckr, 0x0001_0001);
}

#[test]
fn lock_keeps_prior_lock_bits() {
    let mut g: Gpio = Gpio {
        crl: 0,
        crh: 0,
        idr: 0,
        odr: 0,
        lckr: 0x0000_0100,
        ops: vec![],
    };
    let pin = PinConfig::new(3).unwrap().into_input_floating(&mut g);
    pin.lock(&mut g);
    assert_eq!(
        &g.ops[1..],
        &[
            RegOp::LckrWrite(0x0000_0101),
            RegOp::LckrWrite(0x0001_0101),
            RegOp::LckrWrite(0x0000_0101),
            RegOp::LckrWrite(0x0001_0101),
            RegOp::LckrRead,
            RegOp::LckrRead,
        ]
    );
    assert_eq!(g.lckr & 1, 1);
}

#[test]
fn disable_restores_reset_field_and_forces_low() {
    let mut g: Gpio = Gpio::new();
    let out = PinConfig::new(5).unwrap().into_output_pushpull(&mut g, PinSpeed::Speed50Hz);
    out.set(&mut g);
    assert_eq!(g.odr & (1 << 5), 1 << 5);
    let disabled = out.disable(&mut g);
    assert_eq!((g.crl >> 20) & 0xF, 0b0100);
    assert_eq!(g.odr & (1 << 5), 0);
    assert_eq!(g.ops.last(), Some(&RegOp::BrrWrite(1 << 5)));
    // the handle that comes back is a disabled one and can be configured anew
    disabled.into_analog(&mut g);
    assert_eq!((g.crl >> 20) & 0xF, 0b0000);
}

#[test]
fn disable_from_each_prior_state() {
    let starts: [fn(&mut Gpio) -> (); 4] = [
        |g| {
            PinConfig::new(6).unwrap().into_output_opendrain(g, PinSpeed::Speed10Hz).disable(g);
        },
        |g| {
            PinConfig::new(6).unwrap().into_analog(g).disable(g);
        },
        |g| {
            PinConfig::new(6).unwrap().into_input_pullup(g).disable(g);
        },
        |g| {
            PinConfig::new(6).unwrap().into_input_pulldown(g).disable(g);
        },
    ];
    for run in starts {
        let mut g: Gpio = Gpio::new();
        run(&mut g);
        assert_eq!((g.crl >> 24) & 0xF, 0b0100);
        assert_eq!(g.odr & (1 << 6), 0);
        assert_eq!(g.ops.last(), Some(&RegOp::BrrWrite(1 << 6)));
    }
}
