use eeprom24x::SlaveAddr;

#[test]
fn default_address_is_correct() {
    assert_eq!(0b101_0000, SlaveAddr::default().addr());
}

#[test]
fn can_generate_alternative_addresses() {
    assert_eq!(
        0b101_0000,
        SlaveAddr::Alternative(false, false, false).addr()
    );
    assert_eq!(
        0b101_0001,
        SlaveAddr::Alternative(false, false, true).addr()
    );
    assert_eq!(
        0b101_0010,
        SlaveAddr::Alternative(false, true, false).addr()
    );
    assert_eq!(
        0b101_0100,
        SlaveAddr::Alternative(true, false, false).addr()
    );
    assert_eq!(0b101_0111, SlaveAddr::Alternative(true, true, true).addr());
}

#[test]
fn assemble_devaddr() {
    assert_eq!(0b101_0001, SlaveAddr::Default.devaddr(0b1_1111_1111, 9, 8));
    assert_eq!(0b101_0000, SlaveAddr::Default.devaddr(0b0_1111_1111, 9, 8));
    assert_eq!(
        0b101_0011,
        SlaveAddr::Default.devaddr(0b11_1111_1111, 10, 8)
    );
    assert_eq!(
        0b101_0010,
        SlaveAddr::Default.devaddr(0b10_1111_1111, 10, 8)
    );
    assert_eq!(
        0b101_0111,
        SlaveAddr::Default.devaddr(0b111_1111_1111, 11, 8)
    );
    assert_eq!(
        0b101_0101,
        SlaveAddr::Default.devaddr(0b101_1111_1111, 11, 8)
    );
    assert_eq!(
        0b101_0101,
        SlaveAddr::Default.devaddr(0b101_1111_1111_1111_1111, 19, 16)
    );
}

#[test]
fn devaddr_borrows_high_bits_on_2kb_part() {
    // an 11-bit (2 KB) part borrows three strap bits: the bits of 0x7BC
    // above its low byte are 0b111
    assert_eq!(0b101_0111, SlaveAddr::Default.devaddr(0x7BC, 11, 8));
}
