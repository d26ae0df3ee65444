use stm32f103_hal::gpio::{Gpio, RegOp};
use stm32f103_hal::pin::{PinConfig, PinError, PinSpeed};

fn field(reg: u32, slot: u32) -> u32 {
    (reg >> (slot * 4)) & 0xF
}

#[test]
fn invalid_pin_rejected() {
    assert!(matches!(PinConfig::new(16), Err(PinError::InvalidPin)));
    assert!(matches!(PinConfig::new(255), Err(PinError::InvalidPin)));
    assert!(PinConfig::new(0).is_ok());
    assert!(PinConfig::new(15).is_ok());
}

#[test]
fn pushpull_speed_encodings() {
    let cases: [(PinSpeed, u32); 3] = [
        (PinSpeed::Speed2Hz, 0b0010),
        (PinSpeed::Speed10Hz, 0b0001),
        (PinSpeed::Speed50Hz, 0b0011),
    ];
    for (speed, expect) in cases {
        let mut g: Gpio = Gpio::new();
        let p = PinConfig::new(0).unwrap();
        p.into_output_pushpull(&mut g, speed);
        assert_eq!(field(g.crl, 0), expect);
    }
}

#[test]
fn opendrain_speed_encodings() {
    let cases: [(PinSpeed, u32); 3] = [
        (PinSpeed::Speed2Hz, 0b0110),
        (PinSpeed::Speed10Hz, 0b0101),
        (PinSpeed::Speed50Hz, 0b0111),
    ];
    for (speed, expect) in cases {
        let mut g: Gpio = Gpio::new();
        let p = PinConfig::new(0).unwrap();
        p.into_output_opendrain(&mut g, speed);
        assert_eq!(field(g.crl, 0), expect);
    }
}

#[test]
fn input_field_encodings() {
    let mut g: Gpio = Gpio::new();
    PinConfig::new(0).unwrap().into_analog(&mut g);
    assert_eq!(field(g.crl, 0), 0b0000);

    let mut g: Gpio = Gpio::new();
    PinConfig::new(0).unwrap().into_input_floating(&mut g);
    assert_eq!(field(g.crl, 0), 0b0100);

    let mut g: Gpio = Gpio::new();
    PinConfig::new(0).unwrap().into_input_pullup(&mut g);
    assert_eq!(field(g.crl, 0), 0b1000);

    let mut g: Gpio = Gpio::new();
    PinConfig::new(0).unwrap().into_input_pulldown(&mut g);
    assert_eq!(field(g.crl, 0), 0b1000);
}

#[test]
fn configure_touches_only_own_field_low_half() {
    let mut g: Gpio = Gpio {
        crl: 0xDEAD_BEEF,
        crh: 0x1234_5678,
        idr: 0x55,
        odr: 0xAA,
        lckr: 0x3,
        ops: vec![],
    };
    PinConfig::new(3).unwrap().into_input_floating(&mut g);
    assert_eq!(field(g.crl, 3), 0b0100);
    for slot in 0u32..8 {
        if slot != 3 {
            assert_eq!(field(g.crl, slot), field(0xDEAD_BEEF, slot));
        }
    }
    assert_eq!(g.crh, 0x1234_5678);
    assert_eq!(g.idr, 0x55);
    assert_eq!(g.odr, 0xAA);
    assert_eq!(g.lckr, 0x3);
}

#[test]
fn configure_touches_only_own_field_high_half() {
    let mut g: Gpio = Gpio {
        crl: 0xDEAD_BEEF,
        crh: 0x1234_5678,
        idr: 0,
        odr: 0,
        lckr: 0,
        ops: vec![],
    };
    PinConfig::new(12).unwrap().into_analog(&mut g);
    assert_eq!(field(g.crh, 12 - 8), 0b0000);
    for slot in 0u32..8 {
        if slot != 4 {
            assert_eq!(field(g.crh, slot), field(0x1234_5678, slot));
        }
    }
    assert_eq!(g.crl, 0xDEAD_BEEF);
}

#[test]
fn pull_directions_differ_only_in_odr() {
    let start = |odr: u32| Gpio {
        crl: 0x4444_4444,
        crh: 0x4444_4444,
        idr: 0x0F0F,
        odr,
        lckr: 0,
        ops: vec![],
    };
    let mut up: Gpio = start(0x0101);
    let mut down: Gpio = start(0x0101);
    PinConfig::new(8).unwrap().into_input_pullup(&mut up);
    PinConfig::new(8).unwrap().into_input_pulldown(&mut down);
    assert_eq!(field(up.crh, 0), 0b1000);
    assert_eq!(field(down.crh, 0), 0b1000);
    assert_eq!(up.crl, down.crl);
    assert_eq!(up.crh, down.crh);
    assert_eq!(up.idr, down.idr);
    assert_eq!(up.lckr, down.lckr);
    assert_eq!(up.odr, 0x0101 | (1 << 8));
    assert_eq!(down.odr, 0x0101 & !(1 << 8));
}

#[test]
fn scenario_pin1_pushpull_2mhz() {
    let mut g: Gpio = Gpio::new();
    let p = PinConfig::new(1).unwrap();
    let out = p.into_output_pushpull(&mut g, PinSpeed::Speed2Hz);
    assert_eq!((g.crl >> 4) & 0xF, 0b0010);
    assert_eq!(g.crl, 0x0000_0020);
    out.set(&mut g);
    assert_eq!(g.ops.last(), Some(&RegOp::BsrrWrite(0x0000_0002)));
    out.reset(&mut g);
    assert_eq!(g.ops.last(), Some(&RegOp::BrrWrite(0x0000_0002)));
}

#[test]
fn scenario_pin9_floating() {
    let mut g: Gpio = Gpio::new();
    let p = PinConfig::new(9).unwrap();
    p.into_input_floating(&mut g);
    assert_eq!((g.crh >> 4) & 0xF, 0b0100);
    assert_eq!(g.crl, 0);
}

#[test]
fn fresh_port_is_zeroed() {
    let g: Gpio = Gpio::new();
    assert_eq!(g.crl, 0);
    assert_eq!(g.crh, 0);
    assert_eq!(g.idr, 0);
    assert_eq!(g.odr, 0);
    assert_eq!(g.lckr, 0);
    assert!(g.ops.is_empty());
}
