//! Bulk storage operations over the page-write primitive.
//!
//! A [`Storage`] wraps a driver together with a delay provider and writes
//! buffers of any length: the buffer is split into chunks that each stay
//! inside one device page, and after every page write the storage waits for
//! the device's internally-timed write cycle before issuing the next bus
//! transaction.

use crate::bus::{I2cBus, TransactionView};
use crate::eeprom24x::{
    lemma_u32_shift_is_pow2, spec_address_valid, spec_capacity, spec_page_cross, MultiSizeAddr,
    PageSizeValue,
};
use crate::{Eeprom24x, Error, SlaveAddr, Storage};
use vstd::arithmetic::power2::{lemma2_to64, lemma_pow2_strictly_increases};
use vstd::math::min;
use vstd::prelude::*;
use vstd::slice::slice_subrange;

verus! {

/// A blocking millisecond delay, supplied by the platform, used to pace
/// page writes across the device's internal write cycle.
pub trait Delay {
    /// Block for at least `ms` milliseconds.
    fn delay_ms(&mut self, ms: u32);
}

/// The bus transactions a bulk write of `data` starting at `offset`
/// decomposes into: one page write per chunk, each chunk running to the
/// next page boundary or to the end of the data, whichever comes first.
pub open spec fn spec_page_chunks<AS: MultiSizeAddr>(
    slave: SlaveAddr,
    address_bits: u8,
    page_size: u32,
    offset: u32,
    data: Seq<u8>,
) -> Seq<TransactionView>
    decreases data.len(),
{
    if data.len() == 0 || page_size == 0 {
        Seq::empty()
    } else {
        let chunk = min(data.len() as int, page_size - (offset as int) % (page_size as int));
        let txn = (TransactionView::Write {
            addr: slave.spec_devaddr(offset, address_bits, (AS::spec_address_bytes() * 8) as u8),
            data: AS::spec_encode(offset) + data.take(chunk),
        });
        seq![txn] + spec_page_chunks::<AS>(
            slave,
            address_bits,
            page_size,
            ((offset + chunk) as u32),
            data.skip(chunk),
        )
    }
}

/// Common methods.
impl<I2C, PS, AS, SN, D> Storage<I2C, PS, AS, SN, D> {
    /// Create a new Storage instance wrapping the given Eeprom.
    pub fn new(eeprom: Eeprom24x<I2C, PS, AS, SN>, delay: D) -> (r: Self)
        ensures
            r.eeprom == eeprom,
            r.delay == delay,
    {
        Storage { eeprom, delay }
    }

    /// Destroy driver instance, return I²C bus and delay instance.
    pub fn destroy(self) -> (r: (I2C, D))
        ensures
            r.0 == self.eeprom.bus(),
            r.1 == self.delay,
    {
        (self.eeprom.destroy(), self.delay)
    }
}

impl<I2C: I2cBus, PS, AS: MultiSizeAddr, SN, D> Storage<I2C, PS, AS, SN, D> {
    /// Read starting at `offset` as many bytes as necessary to fill the
    /// data array provided.
    pub fn read(&mut self, offset: u32, bytes: &mut Vec<u8>) -> (r: Result<
        (),
        Error<I2C::BusError>,
    >)
        requires
            old(self).eeprom.wf(),
        ensures
            final(self).eeprom.wf(),
            final(self).eeprom.slave_addr() == old(self).eeprom.slave_addr(),
            final(self).eeprom.address_bits() == old(self).eeprom.address_bits(),
            final(self).delay == old(self).delay,
            final(bytes)@.len() == old(bytes)@.len(),
            !spec_address_valid(offset, old(self).eeprom.address_bits()) ==> (r matches Err(
                Error::InvalidAddr,
            )) && final(self).eeprom.bus() == old(self).eeprom.bus() && final(bytes)@ == old(
                bytes,
            )@,
            spec_address_valid(offset, old(self).eeprom.address_bits()) ==> final(self).eeprom.bus().log()
                == old(self).eeprom.bus().log().push(
                (TransactionView::WriteRead {
                    addr: old(self).eeprom.slave_addr().spec_devaddr(
                        offset,
                        old(self).eeprom.address_bits(),
                        (AS::spec_address_bytes() * 8) as u8,
                    ),
                    data: AS::spec_encode(offset),
                    read_len: old(bytes)@.len(),
                }),
            ) && (r matches Ok(()) ==> old(self).eeprom.bus().next_response().len() == old(
                bytes,
            )@.len() && final(bytes)@ == old(self).eeprom.bus().next_response()) && (r matches Ok(
                _,
            ) || r matches Err(Error::I2C(_))),
    {
        self.eeprom.read_data(offset, bytes)
    }

    /// The number of addressable bytes of the device.
    pub fn capacity(&self) -> (r: usize)
        requires
            self.eeprom.wf(),
        ensures
            r == spec_capacity(self.eeprom.address_bits()),
    {
        proof {
            AS::lemma_encode_len(0);
            lemma_u32_shift_is_pow2(self.eeprom.address_bits());
        }
        (1u32 << (self.eeprom.address_bits as u32)) as usize
    }
}

impl<I2C: I2cBus, PS: PageSizeValue, AS: MultiSizeAddr, SN, D: Delay> Storage<I2C, PS, AS, SN, D> {
    /// Write `bytes` starting at `offset`, as one page write per chunk,
    /// never crossing a page boundary, waiting after each page write for
    /// the device's internal write cycle. A write that would run past the
    /// device's capacity is rejected whole, before any bus transaction.
    pub fn write(&mut self, offset: u32, bytes: &[u8]) -> (r: Result<(), Error<I2C::BusError>>)
        requires
            old(self).eeprom.wf(),
        ensures
            final(self).eeprom.wf(),
            final(self).eeprom.slave_addr() == old(self).eeprom.slave_addr(),
            final(self).eeprom.address_bits() == old(self).eeprom.address_bits(),
            offset as nat + bytes@.len() > spec_capacity(old(self).eeprom.address_bits()) ==> (
            r matches Err(Error::TooMuchData)) && final(self).eeprom.bus() == old(
                self,
            ).eeprom.bus(),
            offset as nat + bytes@.len() <= spec_capacity(old(self).eeprom.address_bits())
                && bytes@.len() == 0 ==> (r matches Ok(())),
            offset as nat + bytes@.len() <= spec_capacity(old(self).eeprom.address_bits()) ==> ({
                let txns = spec_page_chunks::<AS>(
                    old(self).eeprom.slave_addr(),
                    old(self).eeprom.address_bits(),
                    PS::spec_page_size(),
                    offset,
                    bytes@,
                );
                &&& (r matches Ok(()) ==> final(self).eeprom.bus().log() == old(
                    self,
                ).eeprom.bus().log() + txns)
                &&& (r matches Err(e) ==> (e matches Error::I2C(_)) && (exists|k: int|
                    1 <= k <= txns.len() && final(self).eeprom.bus().log() == old(
                        self,
                    ).eeprom.bus().log() + txns.take(k)))
            }),
    {
        let cap: usize = self.capacity();
        if (offset as u64) > (cap as u64) || (bytes.len() as u64) > (cap as u64) - (offset as u64) {
            return Err(Error::TooMuchData);
        }
        proof {
            PS::lemma_page_size_bounds();
            AS::lemma_encode_len(0);
            if self.eeprom.address_bits() < 19 {
                lemma_pow2_strictly_increases(self.eeprom.address_bits() as nat, 19);
            }
            lemma2_to64();
        }
        let ps: u32 = PS::page_size();
        let ghost slave = self.eeprom.slave_addr();
        let ghost bits = self.eeprom.address_bits();
        let ghost old_log = self.eeprom.bus().log();
        let ghost txns = spec_page_chunks::<AS>(slave, bits, PS::spec_page_size(), offset, bytes@);
        let mut cur: u32 = offset;
        let mut i: usize = 0;
        let ghost mut done: Seq<TransactionView> = Seq::empty();
        proof {
            assert(old_log + done =~= old_log);
            assert(bytes@.skip(0) =~= bytes@);
            assert(done + spec_page_chunks::<AS>(slave, bits, ps, cur, bytes@.skip(0)) =~= txns);
        }
        while i < bytes.len()
            invariant
                self.eeprom.wf(),
                self.eeprom.slave_addr() == slave,
                self.eeprom.address_bits() == bits,
                slave == old(self).eeprom.slave_addr(),
                bits == old(self).eeprom.address_bits(),
                old_log == old(self).eeprom.bus().log(),
                txns == spec_page_chunks::<AS>(slave, bits, PS::spec_page_size(), offset, bytes@),
                1 <= AS::spec_address_bytes() <= 2,
                ps == PS::spec_page_size(),
                1 <= ps <= 256,
                i <= bytes@.len(),
                cur == offset + i,
                offset as nat + bytes@.len() <= spec_capacity(bits),
                spec_capacity(bits) <= 0x8_0000,
                self.eeprom.bus().log() == old_log + done,
                txns == done + spec_page_chunks::<AS>(slave, bits, ps, cur, bytes@.skip(i as int)),
            decreases bytes@.len() - i,
        {
            let page_offset: u32 = cur % ps;
            let remaining_in_page: u32 = ps - page_offset;
            let rest: usize = bytes.len() - i;
            let chunk: usize = if rest < remaining_in_page as usize {
                rest
            } else {
                remaining_in_page as usize
            };
            let chunk_slice = slice_subrange(bytes, i, i + chunk);
            proof {
                assert(spec_address_valid(cur, bits));
                assert(!spec_page_cross(cur, chunk_slice@.len(), ps));
                assert(bytes@.skip(i as int).take(chunk as int) =~= chunk_slice@);
            }
            let ghost txn = (TransactionView::Write {
                addr: slave.spec_devaddr(cur, bits, (AS::spec_address_bytes() * 8) as u8),
                data: AS::spec_encode(cur) + chunk_slice@,
            });
            proof {
                assert(spec_page_chunks::<AS>(slave, bits, ps, cur, bytes@.skip(i as int))
                    == seq![txn] + spec_page_chunks::<AS>(
                    slave,
                    bits,
                    ps,
                    (cur + chunk) as u32,
                    bytes@.skip(i as int).skip(chunk as int),
                ));
                assert(bytes@.skip(i as int).skip(chunk as int) =~= bytes@.skip(
                    i as int + chunk as int,
                ));
            }
            let res = self.eeprom.write_page(cur, chunk_slice);
            proof {
                done = done + seq![txn];
                assert(self.eeprom.bus().log() =~= old_log + done);
                assert(txns =~= done + spec_page_chunks::<AS>(
                    slave,
                    bits,
                    ps,
                    (cur + chunk) as u32,
                    bytes@.skip(i as int + chunk as int),
                ));
            }
            match res {
                Ok(()) => {},
                Err(e) => {
                    proof {
                        assert(done.len() >= 1);
                        assert(done.len() <= txns.len());
                        assert(txns.take(done.len() as int) =~= done);
                        assert(self.eeprom.bus().log() == old_log + txns.take(done.len() as int));
                    }
                    return Err(e);
                },
            }
            self.delay.delay_ms(5);
            cur = cur + (chunk as u32);
            i = i + chunk;
        }
        proof {
            assert(spec_page_chunks::<AS>(slave, bits, ps, cur, bytes@.skip(i as int))
                =~= Seq::<TransactionView>::empty());
            assert(txns =~= done);
        }
        Ok(())
    }
}

} // verus!
