//! The two-wire bus abstraction the driver is written against.
//!
//! The driver never talks to hardware directly: it issues transactions
//! through [`I2cBus`] (and, where available, [`I2cRead`]). Each
//! implementation carries a ghost log of every transaction issued so far, so
//! that the driver's contracts can state exactly what was put on the wire.

use vstd::prelude::*;

verus! {

/// One bus transaction, as the driver's specifications see it.
pub enum TransactionView {
    /// `data` written to the device at bus address `addr`.
    Write { addr: u8, data: Seq<u8> },
    /// `data` written to the device at bus address `addr`, then `read_len`
    /// bytes read back without releasing the bus in between.
    WriteRead { addr: u8, data: Seq<u8>, read_len: nat },
    /// `read_len` bytes read from the device at bus address `addr`.
    Read { addr: u8, read_len: nat },
}

/// A blocking two-wire bus master.
///
/// An implementation must record in [`log`](Self::log) every transaction it
/// issues, whether it succeeds or fails, and may return its own error for a
/// transaction that the wire did not complete. Nothing is promised about
/// when a transaction succeeds: a device may be absent or busy. What a
/// successful read returns is the device's choice; the implementation
/// exposes it through [`next_response`](Self::next_response).
pub trait I2cBus: Sized {
    /// Error type of the bus implementation.
    type BusError;

    /// Every transaction issued on this bus so far, oldest first.
    ///
    /// An implementation outside this crate that overrides nothing has an
    /// empty log; the driver then still issues the right transactions,
    /// with nothing recorded about them.
    open spec fn log(&self) -> Seq<TransactionView> {
        Seq::empty()
    }

    /// The bytes the device would supply to the next transaction that
    /// reads.
    open spec fn next_response(&self) -> Seq<u8> {
        Seq::empty()
    }

    /// Issue a single write transaction of `bytes` to the device at bus
    /// address `addr`.
    fn write(&mut self, addr: u8, bytes: &[u8]) -> (r: Result<(), Self::BusError>)
        ensures
            final(self).log() == old(self).log().push(
                (TransactionView::Write { addr: addr, data: bytes@ }),
            ),
    ;

    /// Issue a single combined write-then-read transaction: write `bytes`
    /// to the device at bus address `addr`, then read `buffer.len()` bytes
    /// back into `buffer`.
    fn write_read(&mut self, addr: u8, bytes: &[u8], buffer: &mut Vec<u8>) -> (r: Result<
        (),
        Self::BusError,
    >)
        ensures
            final(self).log() == old(self).log().push(
                (TransactionView::WriteRead {
                    addr: addr,
                    data: bytes@,
                    read_len: old(buffer)@.len(),
                }),
            ),
            final(buffer)@.len() == old(buffer)@.len(),
            r is Ok ==> old(self).next_response().len() == old(buffer)@.len() && final(buffer)@
                == old(self).next_response(),
    ;
}

/// A bus that additionally supports a bare read transaction, without a
/// preceding write. Not every platform exposes one.
pub trait I2cRead: I2cBus {
    /// Issue a single read transaction of `buffer.len()` bytes from the
    /// device at bus address `addr`.
    fn read(&mut self, addr: u8, buffer: &mut Vec<u8>) -> (r: Result<(), Self::BusError>)
        ensures
            final(self).log() == old(self).log().push(
                (TransactionView::Read { addr: addr, read_len: old(buffer)@.len() }),
            ),
            final(buffer)@.len() == old(buffer)@.len(),
            r is Ok ==> old(self).next_response().len() == old(buffer)@.len() && final(buffer)@
                == old(self).next_response(),
    ;
}

} // verus!
