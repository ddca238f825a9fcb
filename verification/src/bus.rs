//! The bus transport contract: the capability set the driver requires from
//! its environment, together with a ghost log of every transaction issued.
use vstd::prelude::*;

verus! {

/// A ghost record of one bus transaction, as seen on the wire: which
/// address was targeted, which bytes were written, and which were read.
pub enum Transaction {
    /// A plain read: `data` are the bytes the device returned.
    Read { addr: u8, data: Seq<u8> },
    /// A plain write: `data` are the bytes sent to the device.
    Write { addr: u8, data: Seq<u8> },
    /// A combined write-then-read with no intervening stop condition:
    /// `written` are the bytes sent, `data` the bytes read back.
    WriteRead { addr: u8, written: Seq<u8>, data: Seq<u8> },
}

/// The transport capability the driver requires: byte-sequence read,
/// byte-sequence write, and combined write-then-read, addressed by a bus
/// address. Implementations are provided by the environment (a hardware
/// bus, or [`crate::sim::SimBus`] for testing).
///
/// Every implementation exposes its complete transaction history as a ghost
/// sequence; each successful operation appends exactly one transaction to
/// it and a failed operation leaves it unchanged. Driver operations state
/// their wire behaviour over this history.
pub trait I2cBus: Sized {
    /// The transport-defined error type.
    type BusError;

    /// All transactions this transport has performed, oldest first. The
    /// default, for transports whose history the environment does not
    /// model, is the empty sequence.
    open spec fn history(&self) -> Seq<Transaction> {
        Seq::empty()
    }

    /// Read `len` bytes from the device at `addr`. Which bytes come back
    /// is the device's choice; only the length and the logging of the
    /// transaction are promised.
    fn read(&mut self, addr: u8, len: usize) -> (r: Result<Vec<u8>, Self::BusError>)
        ensures
            match r {
                Ok(data) => {
                    &&& data@.len() == len
                    &&& final(self).history() == old(self).history().push(
                        (Transaction::Read { addr, data: data@ }),
                    )
                },
                Err(_) => final(self).history() == old(self).history(),
            },
    ;

    /// Write `data` to the device at `addr`.
    fn write(&mut self, addr: u8, data: Vec<u8>) -> (r: Result<(), Self::BusError>)
        ensures
            match r {
                Ok(_) => final(self).history() == old(self).history().push(
                    (Transaction::Write { addr, data: data@ }),
                ),
                Err(_) => final(self).history() == old(self).history(),
            },
    ;

    /// Write `written` to the device at `addr`, then read `len` bytes in
    /// the same transaction, with no stop condition in between.
    fn write_read(&mut self, addr: u8, written: Vec<u8>, len: usize) -> (r: Result<
        Vec<u8>,
        Self::BusError,
    >)
        ensures
            match r {
                Ok(data) => {
                    &&& data@.len() == len
                    &&& final(self).history() == old(self).history().push(
                        (Transaction::WriteRead { addr, written: written@, data: data@ }),
                    )
                },
                Err(_) => final(self).history() == old(self).history(),
            },
    ;
}

} // verus!
