//! The seven-bit bus address of a device and how small parts fold the high
//! memory-address bits into it.

use crate::SlaveAddr;
use vstd::prelude::*;

verus! {

impl SlaveAddr {
    /// The seven-bit bus address selected by this value: the fixed `1010`
    /// high bits with the three configurable strap bits below them.
    pub open spec fn spec_addr(self) -> u8 {
        match self {
            SlaveAddr::Default => 0b101_0000u8,
            SlaveAddr::Alternative(a2, a1, a0) => (0b101_0000u8 | (if a2 {
                0b100u8
            } else {
                0u8
            }) | (if a1 {
                0b010u8
            } else {
                0u8
            }) | (if a0 {
                0b001u8
            } else {
                0u8
            })),
        }
    }

    /// How many of the low device-address bits carry high memory-address
    /// bits: the address bits that do not fit into the separately
    /// transmitted `shift` bits.
    pub open spec fn spec_borrowed_bits(num_address_bits: u8, shift: u8) -> u8 {
        if num_address_bits > shift {
            (num_address_bits - shift) as u8
        } else {
            0u8
        }
    }

    /// The device address used for a memory access: the base bus address
    /// with its low borrowed bits replaced by the top bits of
    /// `memory_address` (those above bit `shift - 1`).
    pub open spec fn spec_devaddr(self, memory_address: u32, num_address_bits: u8, shift: u8) -> u8 {
        let borrowed = Self::spec_borrowed_bits(num_address_bits, shift);
        let kept = (self.spec_addr() >> borrowed) << borrowed;
        kept | ((memory_address >> (shift as u32)) as u8)
    }

    /// Get slave address as u8.
    pub fn addr(self) -> (r: u8)
        ensures
            r == self.spec_addr(),
    {
        match self {
            SlaveAddr::Default => 0b101_0000,
            SlaveAddr::Alternative(a2, a1, a0) => (0b101_0000u8 | (if a2 {
                0b100u8
            } else {
                0u8
            }) | (if a1 {
                0b010u8
            } else {
                0u8
            }) | (if a0 {
                0b001u8
            } else {
                0u8
            })),
        }
    }

    /// Get the device address possibly including some bits from the memory
    /// address, e.g. for AT24C16 the 8 bit device address is
    /// `1 0 1 0 A10 A9 A8 R/W`, i.e. the highest 3 bits of the memory
    /// address are moved into the device address.
    ///
    /// `num_address_bits` is the total number of address bits, `shift` is
    /// the number of address bits which are transmitted separately (eight
    /// per on-wire address byte). At most the three configurable strap bits
    /// are ever borrowed, so `num_address_bits` never exceeds `shift + 3`.
    pub fn devaddr(self, memory_address: u32, num_address_bits: u8, shift: u8) -> (r: u8)
        requires
            shift == 8 || shift == 16,
            num_address_bits <= shift + 3,
            memory_address < (1u32 << (num_address_bits as u32)),
        ensures
            r == self.spec_devaddr(memory_address, num_address_bits, shift),
    {
        // the part in parentheses creates num_address_bits ones; after
        // right-shifting, 0..3 ones remain; the calculations have to be done
        // in u32 to prevent overflow
        let memmask: u32 = ((1u32 << (num_address_bits as u32)) - 1) >> (shift as u32);
        // the inverse is the part of the device address that we keep
        let devmask: u8 = !(memmask as u8);
        let hi_addr_bits: u32 = memory_address >> (shift as u32);
        let base: u8 = self.addr();
        proof {
            lemma_devaddr_masks(base, memory_address, num_address_bits, shift);
        }
        (base & devmask) | (hi_addr_bits as u8)
    }
}

/// The mask formula used by the executable code agrees with the
/// shift-based description in `spec_devaddr`, and the borrowed high
/// memory-address bits always fit in a byte.
proof fn lemma_devaddr_masks(base: u8, memory_address: u32, num_address_bits: u8, shift: u8)
    requires
        shift == 8 || shift == 16,
        num_address_bits <= shift + 3,
        memory_address < (1u32 << (num_address_bits as u32)),
    ensures
        ({
            let borrowed = SlaveAddr::spec_borrowed_bits(num_address_bits, shift);
            let memmask = (((1u32 << (num_address_bits as u32)) - 1) as u32) >> (shift as u32);
            (base & !(memmask as u8)) | ((memory_address >> (shift as u32)) as u8) == ((base
                >> borrowed) << borrowed) | ((memory_address >> (shift as u32)) as u8)
        }),
        (memory_address >> (shift as u32)) < 8,
{
    let borrowed = SlaveAddr::spec_borrowed_bits(num_address_bits, shift);
    assert((base & !((((((1u32 << (num_address_bits as u32)) - 1) as u32) >> (shift as u32))) as u8))
        == ((base >> borrowed) << borrowed)) by (bit_vector)
        requires
            shift == 8 || shift == 16,
            num_address_bits <= shift + 3,
            borrowed == (if num_address_bits > shift {
                (num_address_bits - shift) as u8
            } else {
                0u8
            }),
    ;
    assert((memory_address >> (shift as u32)) < 8) by (bit_vector)
        requires
            shift == 8 || shift == 16,
            num_address_bits <= shift + 3,
            memory_address < (1u32 << (num_address_bits as u32)),
    ;
}

impl Default for SlaveAddr {
    /// Default slave address.
    fn default() -> (r: Self)
        ensures
            r == SlaveAddr::Default,
    {
        SlaveAddr::Default
    }
}

} // verus!
