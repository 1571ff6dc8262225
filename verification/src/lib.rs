//! Platform-agnostic driver for 24x-series two-wire (I²C) serial EEPROM
//! devices.
//!
//! The driver exposes byte read/write, bulk read, page write and
//! current-address read operations over a generic two-wire bus, plus a
//! factory-programmed unique-serial read for the devices that have one.
//! Device geometry (memory-address width on the wire, page size, presence of
//! a serial number) is selected at compile time through marker types, and the
//! number of memory-address bits is fixed by the chosen constructor.
//!
//! The heart of the driver is the addressing logic: small parts borrow the
//! low bits of the seven-bit bus address to carry the high bits of the memory
//! address, and page writes must never cross a page boundary, because the
//! device would silently wrap inside the page and overwrite earlier bytes.
//! Every operation states in its contract exactly which bus transactions it
//! issues and when each error is returned.
//!
//! The bus itself is abstracted by [`bus::I2cBus`]; [`mock::MockI2c`] is a
//! recording implementation for tests, and any real two-wire bus can be
//! adapted to the trait outside this crate.

use core::marker::PhantomData;
use vstd::prelude::*;

pub mod addr_size;
pub mod bus;
pub mod eeprom24x;
pub mod ic;
pub mod mock;
pub mod page_size;
pub mod serial_number;
pub mod slave_addr;
pub mod storage;
pub mod unique_serial;

verus! {

/// All possible errors in this crate.
#[derive(Debug)]
pub enum Error<E> {
    /// I²C bus error.
    I2C(E),
    /// Too much data passed for a write.
    TooMuchData,
    /// Memory address is out of range.
    InvalidAddr,
}

/// Possible slave addresses.
///
/// Note that in some devices some of the address bits are used for memory
/// addressing and will therefore be ignored.
#[derive(Debug, Clone, Copy, PartialEq)]
pub enum SlaveAddr {
    /// Default slave address.
    Default,
    /// Alternative slave address providing bit values for A2, A1 and A0.
    ///
    /// Depending on the device, some of the device address bits may be used
    /// for memory addresses. In this case, the value provided here for these
    /// bits will be ignored.
    Alternative(bool, bool, bool),
}

/// EEPROM24X driver.
///
/// `PS`, `AS` and `SN` are the page-size, address-size and unique-serial
/// marker types from [`page_size`], [`addr_size`] and [`unique_serial`].
#[derive(Debug)]
pub struct Eeprom24x<I2C, PS, AS, SN> {
    /// The concrete I²C bus implementation.
    i2c: I2C,
    /// The I²C device address.
    address: SlaveAddr,
    /// Number of bits used for memory addressing.
    address_bits: u8,
    /// Page size marker type.
    _ps: PhantomData<PS>,
    /// Address size marker type.
    _as: PhantomData<AS>,
    /// Unique serial number marker type.
    _sn: PhantomData<SN>,
}

/// Marker trait that limits which types may take part in the driver's
/// compile-time geometry selection.
pub trait Sealed {}

impl Sealed for addr_size::OneByte {}

impl Sealed for addr_size::TwoBytes {}

impl Sealed for page_size::B8 {}

impl Sealed for page_size::B16 {}

impl Sealed for page_size::B32 {}

impl Sealed for page_size::B64 {}

impl Sealed for page_size::B128 {}

impl Sealed for page_size::B256 {}

impl<I2C, PS, AS, SN> Sealed for Eeprom24x<I2C, PS, AS, SN> {}

/// `Eeprom24x` type trait for use in generic code.
pub trait Eeprom24xTrait: Sealed {
    /// Inner implementation error.
    type Error;

    /// Write a single byte in an address.
    fn write_byte(&mut self, address: u32, data: u8) -> Result<(), Error<Self::Error>>;

    /// Read a single byte from an address.
    fn read_byte(&mut self, address: u32) -> Result<u8, Error<Self::Error>>;

    /// Read starting in an address as many bytes as necessary to fill the
    /// data array provided.
    fn read_data(&mut self, address: u32, data: &mut Vec<u8>) -> Result<(), Error<Self::Error>>;

    /// Read the contents of the last address accessed during the last read
    /// or write operation, _incremented by one_.
    fn read_current_address(&mut self) -> Result<u8, Error<Self::Error>>;

    /// Write up to a page starting in an address.
    fn write_page(&mut self, address: u32, data: &[u8]) -> Result<(), Error<Self::Error>>;

    /// Return device page size.
    fn page_size(&self) -> usize;
}

/// EEPROM24X extension which writes over page boundaries, pacing the page
/// writes with a delay so that the device's internally-timed write cycle can
/// finish between bus transactions.
#[derive(Debug)]
pub struct Storage<I2C, PS, AS, SN, D> {
    /// Eeprom driver over which the storage operations are implemented.
    pub eeprom: Eeprom24x<I2C, PS, AS, SN>,
    /// Delay provider used between page writes.
    pub delay: D,
}

} // verus!
