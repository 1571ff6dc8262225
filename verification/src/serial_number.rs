//! Reading the factory-programmed unique serial number of CS-variant
//! devices.
//!
//! The serial number lives in a fixed secure region that answers on a bus
//! address of its own: `1011` high bits with the low strap bits taken over
//! from the device's base address, except where those strap bits already
//! carry memory-address bits and are therefore masked away.

use crate::addr_size;
use crate::bus::{I2cBus, TransactionView};
use crate::page_size;
use crate::{Eeprom24x, Error, SlaveAddr};
use vstd::prelude::*;

verus! {

/// The bus address of the secure region of a one-byte-address CS device:
/// `1011` followed by the strap bits of `base_addr` that the device still
/// honours. Devices that borrow strap bits for memory addressing mask the
/// borrowed bits away.
pub open spec fn spec_secure_region_addr(address_bits: u8, base_addr: u8) -> u8 {
    if address_bits == 9 {
        0b101_1000u8 | (base_addr & 0b110)
    } else if address_bits == 10 {
        0b101_1000u8 | (base_addr & 0b100)
    } else if address_bits == 11 {
        0b101_1000u8
    } else {
        0b101_1000u8 | (base_addr & 0b111)
    }
}

/// Determine the peripheral address for accessing the secure region of
/// 24CS devices.
pub fn secure_region_addr(address_bits: u8, base_addr: u8) -> (r: u8)
    requires
        7 <= address_bits <= 13,
    ensures
        r == spec_secure_region_addr(address_bits, base_addr),
{
    if address_bits == 9 {
        // CS04: A1 and A2 remain device-select bits
        0b101_1000 | (base_addr & 0b110)
    } else if address_bits == 10 {
        // CS08: only A2 remains a device-select bit
        0b101_1000 | (base_addr & 0b100)
    } else if address_bits == 11 {
        // CS16: all strap bits carry memory-address bits
        0b101_1000
    } else {
        // CS01, CS02, CS32, CS64: all strap bits select the device
        0b101_1000 | (base_addr & 0b111)
    }
}

/// Methods for interacting with the factory-programmed unique serial number
/// for devices with one byte addresses, e.g. 24CSx01, 24CSx02, 24CSx04,
/// 24CSx08 and 24CSx16.
impl<I2C: I2cBus, PS> Eeprom24x<I2C, PS, addr_size::OneByte, crate::unique_serial::Yes> {
    /// Read the 128-bit unique serial number.
    ///
    /// The serial is selected with the one-byte offset `0x80` and read in a
    /// single combined write-then-read of 16 bytes from the secure region's
    /// bus address.
    pub fn read_unique_serial(&mut self) -> (r: Result<Vec<u8>, Error<I2C::BusError>>)
        requires
            7 <= old(self).address_bits() <= 11,
        ensures
            final(self).slave_addr() == old(self).slave_addr(),
            final(self).address_bits() == old(self).address_bits(),
            final(self).bus().log() == old(self).bus().log().push(
                (TransactionView::WriteRead {
                    addr: spec_secure_region_addr(
                        old(self).address_bits(),
                        old(self).slave_addr().spec_addr(),
                    ),
                    data: seq![0x80u8],
                    read_len: 16,
                }),
            ),
            r matches Ok(v) ==> v@.len() == 16 && old(self).bus().next_response().len() == 16 && v@
                == old(self).bus().next_response(),
            r matches Ok(_) || r matches Err(Error::I2C(_)),
    {
        let addr = secure_region_addr(self.address_bits, self.address.addr());
        let mut selector: Vec<u8> = Vec::new();
        selector.push(0x80);
        proof {
            assert(selector@ =~= seq![0x80u8]);
        }
        let mut serial_bytes: Vec<u8> = Vec::new();
        let mut i: usize = 0;
        while i < 16
            invariant
                serial_bytes@.len() == i,
                i <= 16,
            decreases 16 - i,
        {
            serial_bytes.push(0);
            i = i + 1;
        }
        match self.i2c.write_read(addr, selector.as_slice(), &mut serial_bytes) {
            Ok(()) => Ok(serial_bytes),
            Err(e) => Err(Error::I2C(e)),
        }
    }
}

/// Methods for interacting with the factory-programmed unique serial number
/// for devices with two byte addresses, e.g. 24CSx32 and 24CSx64.
impl<I2C: I2cBus, PS> Eeprom24x<I2C, PS, addr_size::TwoBytes, crate::unique_serial::Yes> {
    /// Read the 128-bit unique serial number.
    ///
    /// The serial is selected with the zero-padded two-byte offset
    /// `0x0800` and read in a single combined write-then-read of 16 bytes
    /// from the secure region's bus address.
    pub fn read_unique_serial(&mut self) -> (r: Result<Vec<u8>, Error<I2C::BusError>>)
        ensures
            final(self).slave_addr() == old(self).slave_addr(),
            final(self).address_bits() == old(self).address_bits(),
            final(self).bus().log() == old(self).bus().log().push(
                (TransactionView::WriteRead {
                    addr: (0b101_1000u8 | (old(self).slave_addr().spec_addr() & 0b111)),
                    data: seq![0x08u8, 0x00u8],
                    read_len: 16,
                }),
            ),
            r matches Ok(v) ==> v@.len() == 16 && old(self).bus().next_response().len() == 16 && v@
                == old(self).bus().next_response(),
            r matches Ok(_) || r matches Err(Error::I2C(_)),
    {
        let secure_region_addr: u8 = 0b101_1000 | (self.address.addr() & 0b111);
        let mut selector: Vec<u8> = Vec::new();
        selector.push(0x08);
        selector.push(0x00);
        proof {
            assert(selector@ =~= seq![0x08u8, 0x00u8]);
        }
        let mut serial_bytes: Vec<u8> = Vec::new();
        let mut i: usize = 0;
        while i < 16
            invariant
                serial_bytes@.len() == i,
                i <= 16,
            decreases 16 - i,
        {
            serial_bytes.push(0);
            i = i + 1;
        }
        match self.i2c.write_read(secure_region_addr, selector.as_slice(), &mut serial_bytes) {
            Ok(()) => Ok(serial_bytes),
            Err(e) => Err(Error::I2C(e)),
        }
    }
}

/// Constructors for the CS variants with one-byte addresses and 8-byte
/// pages.
impl<I2C: I2cBus> Eeprom24x<I2C, page_size::B8, addr_size::OneByte, crate::unique_serial::Yes> {
    /// Create a new instance of a 24CSx01 device (e.g. AT24CS01).
    pub fn new_24csx01(i2c: I2C, address: SlaveAddr) -> (r: Self)
        ensures
            r.bus() == i2c,
            r.slave_addr() == address,
            r.address_bits() == 7,
            r.wf(),
    {
        Self::new(i2c, address, 7)
    }

    /// Create a new instance of a 24CSx02 device (e.g. AT24CS02).
    pub fn new_24csx02(i2c: I2C, address: SlaveAddr) -> (r: Self)
        ensures
            r.bus() == i2c,
            r.slave_addr() == address,
            r.address_bits() == 8,
            r.wf(),
    {
        Self::new(i2c, address, 8)
    }
}

/// Constructors for the CS variants with one-byte addresses and 16-byte
/// pages.
impl<I2C: I2cBus> Eeprom24x<I2C, page_size::B16, addr_size::OneByte, crate::unique_serial::Yes> {
    /// Create a new instance of a 24CSx04 device (e.g. AT24CS04).
    pub fn new_24csx04(i2c: I2C, address: SlaveAddr) -> (r: Self)
        ensures
            r.bus() == i2c,
            r.slave_addr() == address,
            r.address_bits() == 9,
            r.wf(),
    {
        Self::new(i2c, address, 9)
    }

    /// Create a new instance of a 24CSx08 device (e.g. AT24CS08).
    pub fn new_24csx08(i2c: I2C, address: SlaveAddr) -> (r: Self)
        ensures
            r.bus() == i2c,
            r.slave_addr() == address,
            r.address_bits() == 10,
            r.wf(),
    {
        Self::new(i2c, address, 10)
    }

    /// Create a new instance of a 24CSx16 device (e.g. AT24CS16).
    pub fn new_24csx16(i2c: I2C, address: SlaveAddr) -> (r: Self)
        ensures
            r.bus() == i2c,
            r.slave_addr() == address,
            r.address_bits() == 11,
            r.wf(),
    {
        Self::new(i2c, address, 11)
    }
}

/// Constructors for the CS variants with two-byte addresses and 32-byte
/// pages.
impl<I2C: I2cBus> Eeprom24x<I2C, page_size::B32, addr_size::TwoBytes, crate::unique_serial::Yes> {
    /// Create a new instance of a 24CSx32 device (e.g. AT24CS32).
    pub fn new_24csx32(i2c: I2C, address: SlaveAddr) -> (r: Self)
        ensures
            r.bus() == i2c,
            r.slave_addr() == address,
            r.address_bits() == 12,
            r.wf(),
    {
        Self::new(i2c, address, 12)
    }

    /// Create a new instance of a 24CSx64 device (e.g. AT24CS64).
    pub fn new_24csx64(i2c: I2C, address: SlaveAddr) -> (r: Self)
        ensures
            r.bus() == i2c,
            r.slave_addr() == address,
            r.address_bits() == 13,
            r.wf(),
    {
        Self::new(i2c, address, 13)
    }
}

} // verus!
