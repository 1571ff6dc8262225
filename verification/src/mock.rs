//! A recording bus for tests.
//!
//! [`MockI2c`] implements the bus traits without any hardware: it appends
//! every transaction to [`MockI2c::transactions`] and answers reading
//! transactions from the front of [`MockI2c::responses`]. A test runs the
//! driver against it, then compares the recorded transactions and returned
//! data with what the wire format demands.

use crate::bus::{I2cBus, I2cRead, TransactionView};
use vstd::prelude::*;
use vstd::slice::slice_to_vec;

verus! {

/// One bus transaction as recorded by [`MockI2c`], in executable form.
#[derive(Debug, Clone, PartialEq, Eq)]
pub enum Transaction {
    /// `data` written to the device at bus address `addr`.
    Write { addr: u8, data: Vec<u8> },
    /// `data` written to the device at bus address `addr`, then `read_len`
    /// bytes read back.
    WriteRead { addr: u8, data: Vec<u8>, read_len: usize },
    /// `read_len` bytes read from the device at bus address `addr`.
    Read { addr: u8, read_len: usize },
}

impl View for Transaction {
    type V = TransactionView;

    open spec fn view(&self) -> TransactionView {
        match self {
            Transaction::Write { addr, data } => TransactionView::Write {
                addr: *addr,
                data: data@,
            },
            Transaction::WriteRead { addr, data, read_len } => TransactionView::WriteRead {
                addr: *addr,
                data: data@,
                read_len: *read_len as nat,
            },
            Transaction::Read { addr, read_len } => TransactionView::Read {
                addr: *addr,
                read_len: *read_len as nat,
            },
        }
    }
}

/// Error returned by [`MockI2c`] for a transaction that reads when no
/// response of the right length is queued.
#[derive(Debug, Clone, Copy, PartialEq, Eq)]
pub struct MockBusError;

/// A bus that records every transaction and answers reads from a queue of
/// canned responses.
#[derive(Debug)]
pub struct MockI2c {
    /// Every transaction issued so far, oldest first.
    pub transactions: Vec<Transaction>,
    /// Responses still queued for transactions that read, front first.
    pub responses: Vec<Vec<u8>>,
}

impl MockI2c {
    /// A bus with no transactions recorded and no responses queued.
    pub fn new() -> (r: Self)
        ensures
            r.transactions@ == Seq::<Transaction>::empty(),
            r.responses@ == Seq::<Vec<u8>>::empty(),
    {
        MockI2c { transactions: Vec::new(), responses: Vec::new() }
    }

    /// Queue `response` to answer the next reading transaction that no
    /// earlier queued response answers.
    pub fn push_response(&mut self, response: Vec<u8>)
        ensures
            final(self).responses@ == old(self).responses@.push(response),
            final(self).transactions == old(self).transactions,
    {
        self.responses.push(response);
    }

    /// Record `txn` and re-establish that the ghost log grew by exactly
    /// its view.
    fn record(&mut self, txn: Transaction)
        ensures
            final(self).log() == old(self).log().push(txn@),
            final(self).responses == old(self).responses,
    {
        self.transactions.push(txn);
        proof {
            assert(self.log() =~= old(self).log().push(self.transactions@.last()@));
        }
    }
}

impl I2cBus for MockI2c {
    type BusError = MockBusError;

    open spec fn log(&self) -> Seq<TransactionView> {
        self.transactions@.map(|i: int, t: Transaction| t@)
    }

    open spec fn next_response(&self) -> Seq<u8> {
        if self.responses@.len() > 0 {
            self.responses@[0]@
        } else {
            Seq::empty()
        }
    }

    fn write(&mut self, addr: u8, bytes: &[u8]) -> (r: Result<(), MockBusError>)
        ensures
            r is Ok,
            final(self).responses == old(self).responses,
    {
        let data = slice_to_vec(bytes);
        self.record(Transaction::Write { addr, data });
        Ok(())
    }

    fn write_read(&mut self, addr: u8, bytes: &[u8], buffer: &mut Vec<u8>) -> (r: Result<
        (),
        MockBusError,
    >)
        ensures
            r is Ok <==> (old(self).responses@.len() > 0 && old(self).responses@[0]@.len() == old(
                buffer,
            )@.len()),
            old(self).responses@.len() > 0 ==> final(self).responses@ == old(
                self,
            ).responses@.skip(1),
            old(self).responses@.len() == 0 ==> final(self).responses == old(self).responses,
    {
        let data = slice_to_vec(bytes);
        let read_len = buffer.len();
        self.record(Transaction::WriteRead { addr, data, read_len });
        if self.responses.len() == 0 {
            return Err(MockBusError);
        }
        let response = self.responses.remove(0);
        proof {
            assert(self.responses@ =~= old(self).responses@.skip(1));
        }
        if response.len() != buffer.len() {
            return Err(MockBusError);
        }
        *buffer = response;
        Ok(())
    }
}

impl I2cRead for MockI2c {
    fn read(&mut self, addr: u8, buffer: &mut Vec<u8>) -> (r: Result<(), MockBusError>)
        ensures
            r is Ok <==> (old(self).responses@.len() > 0 && old(self).responses@[0]@.len() == old(
                buffer,
            )@.len()),
            old(self).responses@.len() > 0 ==> final(self).responses@ == old(
                self,
            ).responses@.skip(1),
            old(self).responses@.len() == 0 ==> final(self).responses == old(self).responses,
    {
        let read_len = buffer.len();
        self.record(Transaction::Read { addr, read_len });
        if self.responses.len() == 0 {
            return Err(MockBusError);
        }
        let response = self.responses.remove(0);
        proof {
            assert(self.responses@ =~= old(self).responses@.skip(1));
        }
        if response.len() != buffer.len() {
            return Err(MockBusError);
        }
        *buffer = response;
        Ok(())
    }
}

} // verus!
