use eeprom24x::mock::MockI2c;
use eeprom24x::{Eeprom24x, Error, SlaveAddr};

fn assert_invalid_address<T, E>(result: Result<T, Error<E>>) {
    match result {
        Err(Error::InvalidAddr) => (),
        _ => panic!("Error::InvalidAddr not returned."),
    }
}

#[test]
fn check_addr_assert_matches() {
    assert_invalid_address::<(), ()>(Err(Error::InvalidAddr));
}

#[test]
#[should_panic]
fn check_addr_assert_fails() {
    assert_invalid_address::<(), ()>(Ok(()));
}

#[test]
fn cannot_write_invalid_addr_1byte_addr() {
    let mut eeprom = Eeprom24x::new_24x16(MockI2c::new(), SlaveAddr::default());
    assert_invalid_address(eeprom.write_byte(0xFFF, 0xAB));
    let bus = eeprom.destroy();
    assert!(bus.transactions.is_empty());
}

#[test]
fn cannot_write_invalid_addr_2byte_addr() {
    let mut eeprom = Eeprom24x::new_24xm02(MockI2c::new(), SlaveAddr::default());
    assert_invalid_address(eeprom.write_byte(0xFFFFF, 0xAB));
    let bus = eeprom.destroy();
    assert!(bus.transactions.is_empty());
}

#[test]
fn cannot_write_to_position_over_capacity_1byte() {
    let mut eeprom = Eeprom24x::new_24x01(MockI2c::new(), SlaveAddr::default());
    assert_invalid_address(eeprom.write_byte(0xFF, 0xAB));
    let bus = eeprom.destroy();
    assert!(bus.transactions.is_empty());
}

#[test]
fn cannot_write_to_position_over_capacity_2bytes() {
    let mut eeprom = Eeprom24x::new_24x256(MockI2c::new(), SlaveAddr::default());
    assert_invalid_address(eeprom.write_byte(0xFFFF, 0xAB));
    let bus = eeprom.destroy();
    assert!(bus.transactions.is_empty());
}

#[test]
fn cannot_write_byte_at_exact_capacity_boundary() {
    // a 24x01 addresses 128 bytes; the first address past the end is
    // rejected before any bus transaction
    let mut eeprom = Eeprom24x::new_24x01(MockI2c::new(), SlaveAddr::default());
    assert_invalid_address(eeprom.write_byte(0x80, 0xAB));
    let bus = eeprom.destroy();
    assert!(bus.transactions.is_empty());
}

#[test]
fn cannot_read_byte_over_capacity() {
    let mut eeprom = Eeprom24x::new_24x01(MockI2c::new(), SlaveAddr::default());
    assert_invalid_address(eeprom.read_byte(0x80));
    let bus = eeprom.destroy();
    assert!(bus.transactions.is_empty());
}

#[test]
fn cannot_read_data_over_capacity() {
    let mut eeprom = Eeprom24x::new_24x01(MockI2c::new(), SlaveAddr::default());
    let mut data: Vec<u8> = vec![0; 4];
    assert_invalid_address(eeprom.read_data(0x80, &mut data));
    assert_eq!(vec![0; 4], data);
    let bus = eeprom.destroy();
    assert!(bus.transactions.is_empty());
}

#[test]
fn cannot_write_page_over_capacity() {
    let mut eeprom = Eeprom24x::new_24x01(MockI2c::new(), SlaveAddr::default());
    assert_invalid_address(eeprom.write_page(0x80, &[0xAB, 0xCD]));
    let bus = eeprom.destroy();
    assert!(bus.transactions.is_empty());
}
