use stm32f103_hal::rcc::Rcc;

#[test]
fn enable_sets_one_bit_per_port() {
    let mut rcc: Rcc = Rcc::new();
    assert_eq!(rcc.apb2enr, 0);
    rcc.enable_gpioa();
    assert_eq!(rcc.apb2enr, 1 << 2);
    rcc.enable_gpiob();
    assert_eq!(rcc.apb2enr, (1 << 2) | (1 << 3));
    rcc.enable_gpioc();
    rcc.enable_gpiod();
    rcc.enable_gpioe();
    assert_eq!(rcc.apb2enr, (1 << 2) | (1 << 3) | (1 << 4) | (1 << 5) | (1 << 6));
}

#[test]
fn enable_is_idempotent() {
    let mut rcc: Rcc = Rcc::new();
    rcc.enable_gpiod();
    let once: u32 = rcc.apb2enr;
    rcc.enable_gpiod();
    assert_eq!(rcc.apb2enr, once);
}

#[test]
fn enable_keeps_other_bits() {
    let mut rcc: Rcc = Rcc { apb2enr: 0x8000_0001 };
    rcc.enable_gpioe();
    assert_eq!(rcc.apb2enr, 0x8000_0001 | (1 << 6));
}
