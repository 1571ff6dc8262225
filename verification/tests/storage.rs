use eeprom24x::mock::{MockI2c, Transaction};
use eeprom24x::storage::Delay;
use eeprom24x::{Eeprom24x, Error, SlaveAddr, Storage};

const DEV_ADDR: u8 = 0b101_0000;

struct NoopDelay;

impl Delay for NoopDelay {
    fn delay_ms(&mut self, _ms: u32) {}
}

#[test]
fn storage_capacity_matches_address_bits() {
    let eeprom = Eeprom24x::new_24x256(MockI2c::new(), SlaveAddr::default());
    let storage = Storage::new(eeprom, NoopDelay);
    assert_eq!(32768, storage.capacity());
    let eeprom = Eeprom24x::new_24x01(MockI2c::new(), SlaveAddr::default());
    let storage = Storage::new(eeprom, NoopDelay);
    assert_eq!(128, storage.capacity());
}

#[test]
fn storage_read_delegates_to_eeprom() {
    let mut bus = MockI2c::new();
    bus.push_response(vec![1, 2, 3]);
    let eeprom = Eeprom24x::new_24x256(bus, SlaveAddr::default());
    let mut storage = Storage::new(eeprom, NoopDelay);
    let mut data: Vec<u8> = vec![0; 3];
    storage.read(0x42, &mut data).unwrap();
    assert_eq!(vec![1, 2, 3], data);
    let (bus, _delay) = storage.destroy();
    assert_eq!(
        vec![Transaction::WriteRead {
            addr: DEV_ADDR,
            data: vec![0x00, 0x42],
            read_len: 3,
        }],
        bus.transactions
    );
}

#[test]
fn storage_write_within_one_page() {
    let eeprom = Eeprom24x::new_24x01(MockI2c::new(), SlaveAddr::default());
    let mut storage = Storage::new(eeprom, NoopDelay);
    storage.write(2, &[0xAA, 0xBB]).unwrap();
    let (bus, _delay) = storage.destroy();
    assert_eq!(
        vec![Transaction::Write {
            addr: DEV_ADDR,
            data: vec![0x02, 0xAA, 0xBB],
        }],
        bus.transactions
    );
}

#[test]
fn storage_write_splits_at_page_boundaries() {
    // a 24x01 has 8-byte pages: a 10-byte write starting at offset 6 fills
    // the rest of the first page, then the whole next page
    let eeprom = Eeprom24x::new_24x01(MockI2c::new(), SlaveAddr::default());
    let mut storage = Storage::new(eeprom, NoopDelay);
    let data: Vec<u8> = vec![0, 1, 2, 3, 4, 5, 6, 7, 8, 9];
    storage.write(6, &data).unwrap();
    let (bus, _delay) = storage.destroy();
    assert_eq!(
        vec![
            Transaction::Write {
                addr: DEV_ADDR,
                data: vec![0x06, 0, 1],
            },
            Transaction::Write {
                addr: DEV_ADDR,
                data: vec![0x08, 2, 3, 4, 5, 6, 7, 8, 9],
            },
        ],
        bus.transactions
    );
}

#[test]
fn storage_write_crossing_into_borrowed_address_bits() {
    // a 24x04 borrows a strap bit above the one-byte on-wire address: a
    // write crossing the 256-byte mark changes the device address used
    let eeprom = Eeprom24x::new_24x04(MockI2c::new(), SlaveAddr::default());
    let mut storage = Storage::new(eeprom, NoopDelay);
    let data: Vec<u8> = vec![0xAA; 24];
    storage.write(0xF8, &data).unwrap();
    let (bus, _delay) = storage.destroy();
    assert_eq!(
        vec![
            Transaction::Write {
                addr: DEV_ADDR,
                data: {
                    let mut expected: Vec<u8> = vec![0xF8];
                    expected.extend_from_slice(&[0xAA; 8]);
                    expected
                },
            },
            Transaction::Write {
                addr: DEV_ADDR | 1,
                data: {
                    let mut expected: Vec<u8> = vec![0x00];
                    expected.extend_from_slice(&[0xAA; 16]);
                    expected
                },
            },
        ],
        bus.transactions
    );
}

#[test]
fn storage_write_with_partial_first_and_last_page() {
    // 13 bytes at offset 6 on an 8-byte-page part: 2 bytes finish the
    // first page, 8 fill the next, 3 start the one after
    let eeprom = Eeprom24x::new_24x01(MockI2c::new(), SlaveAddr::default());
    let mut storage = Storage::new(eeprom, NoopDelay);
    let data: Vec<u8> = (0..13).collect();
    storage.write(6, &data).unwrap();
    let (bus, _delay) = storage.destroy();
    assert_eq!(
        vec![
            Transaction::Write {
                addr: DEV_ADDR,
                data: vec![0x06, 0, 1],
            },
            Transaction::Write {
                addr: DEV_ADDR,
                data: vec![0x08, 2, 3, 4, 5, 6, 7, 8, 9],
            },
            Transaction::Write {
                addr: DEV_ADDR,
                data: vec![0x10, 10, 11, 12],
            },
        ],
        bus.transactions
    );
}

#[test]
fn storage_write_over_capacity_is_rejected() {
    let eeprom = Eeprom24x::new_24x01(MockI2c::new(), SlaveAddr::default());
    let mut storage = Storage::new(eeprom, NoopDelay);
    match storage.write(120, &[0xAB; 9]) {
        Err(Error::TooMuchData) => (),
        _ => panic!("Error::TooMuchData not returned."),
    }
    let (bus, _delay) = storage.destroy();
    assert!(bus.transactions.is_empty());
}

#[test]
fn storage_write_empty_data_does_nothing() {
    let eeprom = Eeprom24x::new_24x01(MockI2c::new(), SlaveAddr::default());
    let mut storage = Storage::new(eeprom, NoopDelay);
    storage.write(5, &[]).unwrap();
    let (bus, _delay) = storage.destroy();
    assert!(bus.transactions.is_empty());
}
