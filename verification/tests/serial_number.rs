use eeprom24x::mock::{MockI2c, Transaction};
use eeprom24x::{Eeprom24x, SlaveAddr};

const DEV_SERIAL: [u8; 16] = [
    0xDE, 0xAD, 0xBE, 0xEF, 0xB0, 0xBA, 0xCA, 0xFE, 0xFE, 0xED, 0xC0, 0xDE, 0x1, 0x2, 0x3, 0x4,
];

#[test]
fn can_read_serial_number_1byte_addr() {
    let mut bus = MockI2c::new();
    bus.push_response(DEV_SERIAL.to_vec());
    let mut eeprom = Eeprom24x::new_24csx04(bus, SlaveAddr::default());
    let serial_number = eeprom.read_unique_serial().unwrap();
    assert_eq!(DEV_SERIAL.to_vec(), serial_number);
    let bus = eeprom.destroy();
    assert_eq!(
        vec![Transaction::WriteRead {
            addr: 0b101_1000,
            data: vec![0x80],
            read_len: 16,
        }],
        bus.transactions
    );
}

#[test]
fn can_read_serial_number_borrowed_strap_bits() {
    // on a 24CSx16 every strap bit carries memory-address bits, so the
    // secure region answers on the bare 1011000 address whatever the
    // configured straps say
    let mut bus = MockI2c::new();
    bus.push_response(DEV_SERIAL.to_vec());
    let mut eeprom = Eeprom24x::new_24csx16(bus, SlaveAddr::Alternative(true, true, true));
    let serial_number = eeprom.read_unique_serial().unwrap();
    assert_eq!(DEV_SERIAL.to_vec(), serial_number);
    let bus = eeprom.destroy();
    assert_eq!(
        vec![Transaction::WriteRead {
            addr: 0b101_1000,
            data: vec![0x80],
            read_len: 16,
        }],
        bus.transactions
    );
}

#[test]
fn can_read_serial_number_2byte_addr() {
    let mut bus = MockI2c::new();
    bus.push_response(DEV_SERIAL.to_vec());
    let mut eeprom = Eeprom24x::new_24csx32(bus, SlaveAddr::default());
    let serial_number = eeprom.read_unique_serial().unwrap();
    assert_eq!(DEV_SERIAL.to_vec(), serial_number);
    let bus = eeprom.destroy();
    assert_eq!(
        vec![Transaction::WriteRead {
            addr: 0b101_1000,
            data: vec![0x08, 0x00],
            read_len: 16,
        }],
        bus.transactions
    );
}
