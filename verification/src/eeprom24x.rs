//! The driver's addressing logic and the operations common to all devices.

use crate::addr_size;
use crate::bus::{I2cBus, I2cRead, TransactionView};
use crate::page_size;
use crate::{Eeprom24x, Error, Sealed, SlaveAddr};
use core::marker::PhantomData;
use vstd::arithmetic::power2::{lemma2_to64, lemma_pow2_strictly_increases, pow2};
use vstd::bits::lemma_u32_shl_is_mul;
use vstd::prelude::*;

verus! {

/// True when `address` can address a byte of a device with
/// `address_bits` bits of memory address: the capacity invariant every
/// operation checks before touching the bus.
pub open spec fn spec_address_valid(address: u32, address_bits: u8) -> bool {
    (address as nat) < pow2(address_bits as nat)
}

/// The number of addressable bytes of a device with `address_bits` bits of
/// memory address.
pub open spec fn spec_capacity(address_bits: u8) -> nat {
    pow2(address_bits as nat)
}

/// For exponents below the word size, the executable range check
/// `1u32 << n` computes the same bound `pow2` states.
pub proof fn lemma_u32_shift_is_pow2(n: u8)
    requires
        n < 32,
    ensures
        (1u32 << (n as u32)) == pow2(n as nat),
{
    if n < 31 {
        lemma_pow2_strictly_increases(n as nat, 31);
    }
    lemma2_to64();
    lemma_u32_shl_is_mul(1u32, n as u32);
}

/// The on-wire form of the memory address, selected by the address-size
/// marker types of [`addr_size`].
pub trait MultiSizeAddr: Sealed {
    /// Number of bytes the memory address occupies on the wire.
    spec fn spec_address_bytes() -> usize;

    /// The on-wire encoding of `address`: its low bytes, big-endian.
    spec fn spec_encode(address: u32) -> Seq<u8>;

    /// The encoding is exactly `spec_address_bytes` bytes, and an address
    /// is carried in one or two bytes.
    proof fn lemma_encode_len(address: u32)
        ensures
            Self::spec_encode(address).len() == Self::spec_address_bytes(),
            1 <= Self::spec_address_bytes() <= 2,
    ;

    /// Number of bytes the memory address occupies on the wire.
    fn address_bytes() -> (r: usize)
        ensures
            r == Self::spec_address_bytes(),
    ;

    /// Append the on-wire form of `address` to `payload`.
    fn fill_address(address: u32, payload: &mut Vec<u8>)
        ensures
            final(payload)@ == old(payload)@ + Self::spec_encode(address),
    ;
}

impl MultiSizeAddr for addr_size::OneByte {
    open spec fn spec_address_bytes() -> usize {
        1
    }

    open spec fn spec_encode(address: u32) -> Seq<u8> {
        seq![(address & 0xFF) as u8]
    }

    proof fn lemma_encode_len(address: u32) {
    }

    fn address_bytes() -> (r: usize) {
        1
    }

    fn fill_address(address: u32, payload: &mut Vec<u8>) {
        payload.push((address & 0xFF) as u8);
        proof {
            assert(final(payload)@ =~= old(payload)@ + Self::spec_encode(address));
        }
    }
}

impl MultiSizeAddr for addr_size::TwoBytes {
    open spec fn spec_address_bytes() -> usize {
        2
    }

    open spec fn spec_encode(address: u32) -> Seq<u8> {
        seq![((address >> 8) & 0xFF) as u8, (address & 0xFF) as u8]
    }

    proof fn lemma_encode_len(address: u32) {
    }

    fn address_bytes() -> (r: usize) {
        2
    }

    fn fill_address(address: u32, payload: &mut Vec<u8>) {
        payload.push(((address >> 8) & 0xFF) as u8);
        payload.push((address & 0xFF) as u8);
        proof {
            assert(final(payload)@ =~= old(payload)@ + Self::spec_encode(address));
        }
    }
}

/// Reassembling the two on-wire address bytes big-endian gives back the low
/// sixteen bits of the logical address.
pub proof fn lemma_two_byte_encode_round_trips(address: u32)
    ensures
        ({
            let bytes = <addr_size::TwoBytes as MultiSizeAddr>::spec_encode(address);
            (((bytes[0] as u32) << 8u32) | (bytes[1] as u32)) == address & 0xFFFF
        }),
{
    assert((((((address >> 8) & 0xFF) as u8) as u32) << 8u32) | (((address & 0xFF) as u8) as u32)
        == address & 0xFFFF) by (bit_vector);
}

/// Common methods.
impl<I2C, PS, AS, SN> Eeprom24x<I2C, PS, AS, SN> {
    /// The bus instance the driver owns.
    pub open(crate) spec fn bus(&self) -> I2C {
        self.i2c
    }

    /// The configured base slave address.
    pub open(crate) spec fn slave_addr(&self) -> SlaveAddr {
        self.address
    }

    /// Number of bits used for memory addressing.
    pub open(crate) spec fn address_bits(&self) -> u8 {
        self.address_bits
    }

    /// Destroy driver instance, return I²C bus instance.
    pub fn destroy(self) -> (r: I2C)
        ensures
            r == self.bus(),
    {
        self.i2c
    }
}

impl<I2C, PS, AS: MultiSizeAddr, SN> Eeprom24x<I2C, PS, AS, SN> {
    /// The driver's geometry invariant: the memory-address bits that do not
    /// fit into the on-wire address bytes are carried by the (at most
    /// three) borrowed device-address bits.
    pub open spec fn wf(&self) -> bool {
        self.address_bits() <= AS::spec_address_bytes() * 8 + 3
    }

    /// The device address to target for a memory access, or `InvalidAddr`
    /// when the address lies beyond the device's capacity.
    pub fn get_device_address<E>(&self, memory_address: u32) -> (r: Result<u8, Error<E>>)
        requires
            self.wf(),
        ensures
            spec_address_valid(memory_address, self.address_bits()) ==> (r matches Ok(d) && d
                == self.slave_addr().spec_devaddr(
                memory_address,
                self.address_bits(),
                (AS::spec_address_bytes() * 8) as u8,
            )),
            !spec_address_valid(memory_address, self.address_bits()) ==> (r matches Err(
                Error::InvalidAddr,
            )),
    {
        proof {
            AS::lemma_encode_len(memory_address);
            lemma_u32_shift_is_pow2(self.address_bits);
        }
        if memory_address >= (1u32 << (self.address_bits as u32)) {
            return Err(Error::InvalidAddr);
        }
        let shift: u8 = (AS::address_bytes() as u8) * 8;
        let addr = self.address.devaddr(memory_address, self.address_bits, shift);
        Ok(addr)
    }

    /// Create an instance with the given number of memory-address bits.
    pub(crate) fn new(i2c: I2C, address: SlaveAddr, address_bits: u8) -> (r: Self)
        requires
            address_bits <= AS::spec_address_bytes() * 8 + 3,
        ensures
            r.bus() == i2c,
            r.slave_addr() == address,
            r.address_bits() == address_bits,
            r.wf(),
    {
        Eeprom24x {
            i2c,
            address,
            address_bits,
            _ps: PhantomData,
            _as: PhantomData,
            _sn: PhantomData,
        }
    }
}

/// Common methods.
impl<I2C: I2cBus, PS, AS: MultiSizeAddr, SN> Eeprom24x<I2C, PS, AS, SN> {
    /// Write a single byte in an address.
    ///
    /// After writing a byte, the EEPROM enters an internally-timed write
    /// cycle to the nonvolatile memory. During this time all inputs are
    /// disabled and the EEPROM will not respond until the write is
    /// complete.
    pub fn write_byte(&mut self, address: u32, data: u8) -> (r: Result<(), Error<I2C::BusError>>)
        requires
            old(self).wf(),
        ensures
            final(self).wf(),
            final(self).slave_addr() == old(self).slave_addr(),
            final(self).address_bits() == old(self).address_bits(),
            !spec_address_valid(address, old(self).address_bits()) ==> (r matches Err(
                Error::InvalidAddr,
            )) && final(self).bus() == old(self).bus(),
            spec_address_valid(address, old(self).address_bits()) ==> final(self).bus().log()
                == old(self).bus().log().push(
                (TransactionView::Write {
                    addr: old(self).slave_addr().spec_devaddr(
                        address,
                        old(self).address_bits(),
                        (AS::spec_address_bytes() * 8) as u8,
                    ),
                    data: AS::spec_encode(address).push(data),
                }),
            ) && (r matches Ok(()) || r matches Err(Error::I2C(_))),
    {
        let devaddr = match self.get_device_address(address) {
            Ok(a) => a,
            Err(e) => {
                return Err(e);
            },
        };
        let mut payload: Vec<u8> = Vec::new();
        AS::fill_address(address, &mut payload);
        payload.push(data);
        proof {
            assert(payload@ =~= AS::spec_encode(address).push(data));
        }
        match self.i2c.write(devaddr, payload.as_slice()) {
            Ok(()) => Ok(()),
            Err(e) => Err(Error::I2C(e)),
        }
    }

    /// Read a single byte from an address.
    pub fn read_byte(&mut self, address: u32) -> (r: Result<u8, Error<I2C::BusError>>)
        requires
            old(self).wf(),
        ensures
            final(self).wf(),
            final(self).slave_addr() == old(self).slave_addr(),
            final(self).address_bits() == old(self).address_bits(),
            !spec_address_valid(address, old(self).address_bits()) ==> (r matches Err(
                Error::InvalidAddr,
            )) && final(self).bus() == old(self).bus(),
            spec_address_valid(address, old(self).address_bits()) ==> final(self).bus().log()
                == old(self).bus().log().push(
                (TransactionView::WriteRead {
                    addr: old(self).slave_addr().spec_devaddr(
                        address,
                        old(self).address_bits(),
                        (AS::spec_address_bytes() * 8) as u8,
                    ),
                    data: AS::spec_encode(address),
                    read_len: 1,
                }),
            ) && (r matches Ok(b) ==> old(self).bus().next_response().len() == 1 && b == old(
                self,
            ).bus().next_response()[0]) && (r matches Ok(_) || r matches Err(Error::I2C(_))),
    {
        let devaddr = match self.get_device_address(address) {
            Ok(a) => a,
            Err(e) => {
                return Err(e);
            },
        };
        let mut memaddr: Vec<u8> = Vec::new();
        AS::fill_address(address, &mut memaddr);
        let mut data_buf: Vec<u8> = Vec::new();
        data_buf.push(0);
        match self.i2c.write_read(devaddr, memaddr.as_slice(), &mut data_buf) {
            Ok(()) => Ok(data_buf[0]),
            Err(e) => Err(Error::I2C(e)),
        }
    }

    /// Read starting in an address as many bytes as necessary to fill the
    /// data array provided.
    pub fn read_data(&mut self, address: u32, data: &mut Vec<u8>) -> (r: Result<
        (),
        Error<I2C::BusError>,
    >)
        requires
            old(self).wf(),
        ensures
            final(self).wf(),
            final(self).slave_addr() == old(self).slave_addr(),
            final(self).address_bits() == old(self).address_bits(),
            final(data)@.len() == old(data)@.len(),
            !spec_address_valid(address, old(self).address_bits()) ==> (r matches Err(
                Error::InvalidAddr,
            )) && final(self).bus() == old(self).bus() && final(data)@ == old(data)@,
            spec_address_valid(address, old(self).address_bits()) ==> final(self).bus().log()
                == old(self).bus().log().push(
                (TransactionView::WriteRead {
                    addr: old(self).slave_addr().spec_devaddr(
                        address,
                        old(self).address_bits(),
                        (AS::spec_address_bytes() * 8) as u8,
                    ),
                    data: AS::spec_encode(address),
                    read_len: old(data)@.len(),
                }),
            ) && (r matches Ok(()) ==> old(self).bus().next_response().len() == old(data)@.len()
                && final(data)@ == old(self).bus().next_response()) && (r matches Ok(_)
                || r matches Err(Error::I2C(_))),
    {
        let devaddr = match self.get_device_address(address) {
            Ok(a) => a,
            Err(e) => {
                return Err(e);
            },
        };
        let mut memaddr: Vec<u8> = Vec::new();
        AS::fill_address(address, &mut memaddr);
        match self.i2c.write_read(devaddr, memaddr.as_slice(), data) {
            Ok(()) => Ok(()),
            Err(e) => Err(Error::I2C(e)),
        }
    }
}

/// Specialization for platforms whose bus implements a bare read.
impl<I2C: I2cRead, PS, AS, SN> Eeprom24x<I2C, PS, AS, SN> {
    /// Read the contents of the last address accessed during the last read
    /// or write operation, _incremented by one_.
    ///
    /// Note: This may not be available on your platform.
    pub fn read_current_address(&mut self) -> (r: Result<u8, Error<I2C::BusError>>)
        ensures
            final(self).slave_addr() == old(self).slave_addr(),
            final(self).address_bits() == old(self).address_bits(),
            final(self).bus().log() == old(self).bus().log().push(
                (TransactionView::Read { addr: old(self).slave_addr().spec_addr(), read_len: 1 }),
            ),
            r matches Ok(b) ==> old(self).bus().next_response().len() == 1 && b == old(
                self,
            ).bus().next_response()[0],
            r matches Ok(_) || r matches Err(Error::I2C(_)),
    {
        let mut data_buf: Vec<u8> = Vec::new();
        data_buf.push(0);
        let addr = self.address.addr();
        match self.i2c.read(addr, &mut data_buf) {
            Ok(()) => Ok(data_buf[0]),
            Err(e) => Err(Error::I2C(e)),
        }
    }
}

/// The page size selected by the marker types of [`page_size`] that
/// support page writes.
pub trait PageSizeValue: Sealed {
    /// Maximum number of bytes one page write may carry.
    spec fn spec_page_size() -> u32;

    /// Pages of this device family are between 8 and 256 bytes.
    proof fn lemma_page_size_bounds()
        ensures
            1 <= Self::spec_page_size() <= 256,
    ;

    /// Maximum number of bytes one page write may carry.
    fn page_size() -> (r: u32)
        ensures
            r == Self::spec_page_size(),
    ;
}

impl PageSizeValue for page_size::B8 {
    open spec fn spec_page_size() -> u32 {
        8
    }

    proof fn lemma_page_size_bounds() {
    }

    fn page_size() -> (r: u32) {
        8
    }
}

impl PageSizeValue for page_size::B16 {
    open spec fn spec_page_size() -> u32 {
        16
    }

    proof fn lemma_page_size_bounds() {
    }

    fn page_size() -> (r: u32) {
        16
    }
}

impl PageSizeValue for page_size::B32 {
    open spec fn spec_page_size() -> u32 {
        32
    }

    proof fn lemma_page_size_bounds() {
    }

    fn page_size() -> (r: u32) {
        32
    }
}

impl PageSizeValue for page_size::B64 {
    open spec fn spec_page_size() -> u32 {
        64
    }

    proof fn lemma_page_size_bounds() {
    }

    fn page_size() -> (r: u32) {
        64
    }
}

impl PageSizeValue for page_size::B128 {
    open spec fn spec_page_size() -> u32 {
        128
    }

    proof fn lemma_page_size_bounds() {
    }

    fn page_size() -> (r: u32) {
        128
    }
}

impl PageSizeValue for page_size::B256 {
    open spec fn spec_page_size() -> u32 {
        256
    }

    proof fn lemma_page_size_bounds() {
    }

    fn page_size() -> (r: u32) {
        256
    }
}

/// True when a write of `len` bytes starting at `address` would run past
/// the end of the page containing `address`. The device would not continue
/// into the next page: it wraps to the start of the same page and
/// overwrites bytes written earlier in the same transaction.
pub open spec fn spec_page_cross(address: u32, len: nat, page_size: u32) -> bool {
    (address as nat) % (page_size as nat) + len > page_size as nat
}

/// A full-page write at a page-aligned address exactly fills the page and
/// never crosses a page boundary, so `write_page` does not reject it.
pub proof fn lemma_aligned_full_page_fits(address: u32, page_size: u32)
    requires
        page_size > 0,
        address % page_size == 0,
    ensures
        !spec_page_cross(address, page_size as nat, page_size),
{
}

/// A full-page write at an address that is not page-aligned always runs
/// into the next page, so `write_page` rejects it.
pub proof fn lemma_unaligned_full_page_crosses(address: u32, page_size: u32)
    requires
        page_size > 0,
        address % page_size != 0,
    ensures
        spec_page_cross(address, page_size as nat, page_size),
{
}

/// Page write, for devices with a page-size marker that supports it.
impl<I2C: I2cBus, PS: PageSizeValue, AS: MultiSizeAddr, SN> Eeprom24x<I2C, PS, AS, SN> {
    /// Write up to a page starting in an address.
    ///
    /// The maximum amount of data that can be written depends on the page
    /// size of the device and its overall capacity. If too much data is
    /// passed, the error `Error::TooMuchData` will be returned: either the
    /// data is longer than a page, or it would run past the boundary of the
    /// page containing `address`, which the device would answer by wrapping
    /// inside the page and corrupting it.
    ///
    /// After writing, the EEPROM enters an internally-timed write cycle to
    /// the nonvolatile memory. During this time all inputs are disabled and
    /// the EEPROM will not respond until the write is complete.
    pub fn write_page(&mut self, address: u32, data: &[u8]) -> (r: Result<(), Error<I2C::BusError>>)
        requires
            old(self).wf(),
        ensures
            final(self).wf(),
            final(self).slave_addr() == old(self).slave_addr(),
            final(self).address_bits() == old(self).address_bits(),
            data@.len() == 0 ==> (r matches Ok(())) && final(self).bus() == old(self).bus(),
            data@.len() > PS::spec_page_size() ==> (r matches Err(Error::TooMuchData))
                && final(self).bus() == old(self).bus(),
            0 < data@.len() <= PS::spec_page_size() && spec_page_cross(
                address,
                data@.len(),
                PS::spec_page_size(),
            ) ==> (r matches Err(Error::TooMuchData)) && final(self).bus() == old(self).bus(),
            0 < data@.len() <= PS::spec_page_size() && !spec_page_cross(
                address,
                data@.len(),
                PS::spec_page_size(),
            ) && !spec_address_valid(address, old(self).address_bits()) ==> (r matches Err(
                Error::InvalidAddr,
            )) && final(self).bus() == old(self).bus(),
            0 < data@.len() <= PS::spec_page_size() && !spec_page_cross(
                address,
                data@.len(),
                PS::spec_page_size(),
            ) && spec_address_valid(address, old(self).address_bits()) ==> final(self).bus().log()
                == old(self).bus().log().push(
                (TransactionView::Write {
                    addr: old(self).slave_addr().spec_devaddr(
                        address,
                        old(self).address_bits(),
                        (AS::spec_address_bytes() * 8) as u8,
                    ),
                    data: AS::spec_encode(address) + data@,
                }),
            ) && (r matches Ok(()) || r matches Err(Error::I2C(_))),
    {
        if data.len() == 0 {
            return Ok(());
        }
        proof {
            PS::lemma_page_size_bounds();
        }
        let ps: u32 = PS::page_size();
        // check this before the boundary arithmetic so that the chunk
        // length is known to fit into u32
        if data.len() > ps as usize {
            // this would actually be supported by the EEPROM but the data
            // in the page would be overwritten
            return Err(Error::TooMuchData);
        }
        let page_offset: u32 = address % ps;
        if page_offset + (data.len() as u32) > ps {
            // this would actually be supported by the EEPROM but the data
            // in the page would be overwritten
            return Err(Error::TooMuchData);
        }
        let devaddr = match self.get_device_address(address) {
            Ok(a) => a,
            Err(e) => {
                return Err(e);
            },
        };
        let mut payload: Vec<u8> = Vec::new();
        AS::fill_address(address, &mut payload);
        proof {
            assert(payload@ =~= AS::spec_encode(address) + data@.take(0));
        }
        let mut i: usize = 0;
        while i < data.len()
            invariant
                i <= data@.len(),
                payload@ == AS::spec_encode(address) + data@.take(i as int),
            decreases data@.len() - i,
        {
            payload.push(data[i]);
            proof {
                assert(payload@ =~= AS::spec_encode(address) + data@.take(i as int + 1));
            }
            i = i + 1;
        }
        proof {
            assert(data@.take(data@.len() as int) =~= data@);
        }
        match self.i2c.write(devaddr, payload.as_slice()) {
            Ok(()) => Ok(()),
            Err(e) => Err(Error::I2C(e)),
        }
    }
}

/// Helper trait which gives generic code access to the `write_page` method
/// and information about the page size.
pub trait PageWrite<E>: Sized {
    /// The geometry invariant the implementation carries through this
    /// interface.
    spec fn inv(&self) -> bool;

    /// Page size of the device, in bytes.
    spec fn spec_page_size() -> u32;

    /// Write up to a page starting in an address. See
    /// [`Eeprom24x::write_page`] for the exact contract of the driver's
    /// implementation; callers that need it should use that method
    /// directly.
    fn page_write(&mut self, address: u32, data: &[u8]) -> (r: Result<(), Error<E>>)
        requires
            old(self).inv(),
        ensures
            final(self).inv(),
    ;

    /// Return device page size.
    fn page_size(&self) -> (r: usize)
        ensures
            r == Self::spec_page_size(),
    ;
}

impl<I2C: I2cBus<BusError = E>, E, PS: PageSizeValue, AS: MultiSizeAddr, SN> PageWrite<
    E,
> for Eeprom24x<I2C, PS, AS, SN> {
    open spec fn inv(&self) -> bool {
        self.wf()
    }

    open spec fn spec_page_size() -> u32 {
        PS::spec_page_size()
    }

    fn page_write(&mut self, address: u32, data: &[u8]) -> (r: Result<(), Error<E>>) {
        self.write_page(address, data)
    }

    fn page_size(&self) -> (r: usize) {
        proof {
            PS::lemma_page_size_bounds();
        }
        PS::page_size() as usize
    }
}

/// Specialization for devices without page access (e.g. 24C00).
impl<I2C: I2cBus> Eeprom24x<I2C, page_size::No, addr_size::OneByte, crate::unique_serial::No> {
    /// Create a new instance of a 24x00 device (e.g. 24C00).
    pub fn new_24x00(i2c: I2C, address: SlaveAddr) -> (r: Self)
        ensures
            r.bus() == i2c,
            r.slave_addr() == address,
            r.address_bits() == 4,
            r.wf(),
    {
        Self::new(i2c, address, 4)
    }
}

/// Specialization for devices with a page size of 8 bytes and one-byte
/// addresses.
impl<I2C: I2cBus> Eeprom24x<I2C, page_size::B8, addr_size::OneByte, crate::unique_serial::No> {
    /// Create a new instance of a 24x01 device (e.g. AT24C01).
    pub fn new_24x01(i2c: I2C, address: SlaveAddr) -> (r: Self)
        ensures
            r.bus() == i2c,
            r.slave_addr() == address,
            r.address_bits() == 7,
            r.wf(),
    {
        Self::new(i2c, address, 7)
    }

    /// Create a new instance of a 24x02 device (e.g. AT24C02).
    pub fn new_24x02(i2c: I2C, address: SlaveAddr) -> (r: Self)
        ensures
            r.bus() == i2c,
            r.slave_addr() == address,
            r.address_bits() == 8,
            r.wf(),
    {
        Self::new(i2c, address, 8)
    }
}

/// Specialization for devices with a page size of 16 bytes and one-byte
/// addresses.
impl<I2C: I2cBus> Eeprom24x<I2C, page_size::B16, addr_size::OneByte, crate::unique_serial::No> {
    /// Create a new instance of a M24C01 device.
    pub fn new_m24x01(i2c: I2C, address: SlaveAddr) -> (r: Self)
        ensures
            r.bus() == i2c,
            r.slave_addr() == address,
            r.address_bits() == 7,
            r.wf(),
    {
        Self::new(i2c, address, 7)
    }

    /// Create a new instance of a M24C02 device.
    pub fn new_m24x02(i2c: I2C, address: SlaveAddr) -> (r: Self)
        ensures
            r.bus() == i2c,
            r.slave_addr() == address,
            r.address_bits() == 8,
            r.wf(),
    {
        Self::new(i2c, address, 8)
    }

    /// Create a new instance of a 24x04 device (e.g. AT24C04).
    pub fn new_24x04(i2c: I2C, address: SlaveAddr) -> (r: Self)
        ensures
            r.bus() == i2c,
            r.slave_addr() == address,
            r.address_bits() == 9,
            r.wf(),
    {
        Self::new(i2c, address, 9)
    }

    /// Create a new instance of a 24x08 device (e.g. AT24C08).
    pub fn new_24x08(i2c: I2C, address: SlaveAddr) -> (r: Self)
        ensures
            r.bus() == i2c,
            r.slave_addr() == address,
            r.address_bits() == 10,
            r.wf(),
    {
        Self::new(i2c, address, 10)
    }

    /// Create a new instance of a 24x16 device (e.g. AT24C16).
    pub fn new_24x16(i2c: I2C, address: SlaveAddr) -> (r: Self)
        ensures
            r.bus() == i2c,
            r.slave_addr() == address,
            r.address_bits() == 11,
            r.wf(),
    {
        Self::new(i2c, address, 11)
    }
}

/// Specialization for devices with a page size of 32 bytes and two-byte
/// addresses.
impl<I2C: I2cBus> Eeprom24x<I2C, page_size::B32, addr_size::TwoBytes, crate::unique_serial::No> {
    /// Create a new instance of a 24x32 device (e.g. AT24C32).
    pub fn new_24x32(i2c: I2C, address: SlaveAddr) -> (r: Self)
        ensures
            r.bus() == i2c,
            r.slave_addr() == address,
            r.address_bits() == 12,
            r.wf(),
    {
        Self::new(i2c, address, 12)
    }

    /// Create a new instance of a 24x64 device (e.g. AT24C64).
    pub fn new_24x64(i2c: I2C, address: SlaveAddr) -> (r: Self)
        ensures
            r.bus() == i2c,
            r.slave_addr() == address,
            r.address_bits() == 13,
            r.wf(),
    {
        Self::new(i2c, address, 13)
    }
}

/// Specialization for devices with a page size of 64 bytes and two-byte
/// addresses.
impl<I2C: I2cBus> Eeprom24x<I2C, page_size::B64, addr_size::TwoBytes, crate::unique_serial::No> {
    /// Create a new instance of a 24x128 device (e.g. AT24C128).
    pub fn new_24x128(i2c: I2C, address: SlaveAddr) -> (r: Self)
        ensures
            r.bus() == i2c,
            r.slave_addr() == address,
            r.address_bits() == 14,
            r.wf(),
    {
        Self::new(i2c, address, 14)
    }

    /// Create a new instance of a 24x256 device (e.g. AT24C256).
    pub fn new_24x256(i2c: I2C, address: SlaveAddr) -> (r: Self)
        ensures
            r.bus() == i2c,
            r.slave_addr() == address,
            r.address_bits() == 15,
            r.wf(),
    {
        Self::new(i2c, address, 15)
    }
}

/// Specialization for devices with a page size of 128 bytes and two-byte
/// addresses.
impl<I2C: I2cBus> Eeprom24x<I2C, page_size::B128, addr_size::TwoBytes, crate::unique_serial::No> {
    /// Create a new instance of a 24x512 device (e.g. AT24C512).
    pub fn new_24x512(i2c: I2C, address: SlaveAddr) -> (r: Self)
        ensures
            r.bus() == i2c,
            r.slave_addr() == address,
            r.address_bits() == 16,
            r.wf(),
    {
        Self::new(i2c, address, 16)
    }
}

/// Specialization for devices with a page size of 256 bytes and two-byte
/// addresses.
impl<I2C: I2cBus> Eeprom24x<I2C, page_size::B256, addr_size::TwoBytes, crate::unique_serial::No> {
    /// Create a new instance of a 24xM01 device (e.g. AT24CM01).
    pub fn new_24xm01(i2c: I2C, address: SlaveAddr) -> (r: Self)
        ensures
            r.bus() == i2c,
            r.slave_addr() == address,
            r.address_bits() == 17,
            r.wf(),
    {
        Self::new(i2c, address, 17)
    }

    /// Create a new instance of a 24xM02 device (e.g. AT24CM02).
    pub fn new_24xm02(i2c: I2C, address: SlaveAddr) -> (r: Self)
        ensures
            r.bus() == i2c,
            r.slave_addr() == address,
            r.address_bits() == 18,
            r.wf(),
    {
        Self::new(i2c, address, 18)
    }
}

} // verus!
