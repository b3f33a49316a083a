//! The bus that the driver talks over, with a model of the transfers made on it.
use vstd::prelude::*;

verus! {

/// One transfer made on the bus, as the driver sees it.
pub ghost enum Transfer {
    /// `bytes` written to the device at `address`.
    Write { address: u8, bytes: Seq<u8> },
    /// `len` bytes read from the device at `address`.
    Read { address: u8, len: nat, received: Seq<u8> },
    /// `bytes` written to the device at `address`, then `len` bytes read back.
    WriteRead { address: u8, bytes: Seq<u8>, len: nat, received: Seq<u8> },
}

/// A two-wire, register-addressed bus: the capability that the driver
/// needs from whatever carries its transfers.
///
/// Each operation is keyed by a device address, an 8-bit value passed on
/// unchanged, and may fail with the bus's own error type. `log` is the
/// sequence of transfers made so far: each operation appends the one it
/// made, whether it succeeded or not, and leaves the buffer's length as it
/// was. Whether a transfer succeeds, and what a read leaves in its buffer,
/// is up to the implementation.
pub trait I2cBus {
    type Error;

    /// The transfers made on this bus so far, oldest first.
    ///
    /// An implementation verified against this trait defines it; the default
    /// models a bus that keeps no record, and leaves the operations' contracts
    /// unmet.
    closed spec fn log(&self) -> Seq<Transfer> {
        Seq::empty()
    }

    /// Writes `bytes` to the device at `address`.
    fn write(&mut self, address: u8, bytes: &[u8]) -> (r: Result<(), Self::Error>)
        ensures
            final(self).log() == old(self).log().push(Transfer::Write { address, bytes: bytes@ }),
    ;

    /// Reads `buffer.len()` bytes from the device at `address` into `buffer`.
    fn read(&mut self, address: u8, buffer: &mut [u8]) -> (r: Result<(), Self::Error>)
        ensures
            final(buffer)@.len() == old(buffer)@.len(),
            final(self).log() == old(self).log().push(
                Transfer::Read { address, len: old(buffer)@.len(), received: final(buffer)@ },
            ),
    ;

    /// Writes `bytes` to the device at `address`, then reads `buffer.len()`
    /// bytes from it into `buffer`, in one transaction.
    fn write_read(&mut self, address: u8, bytes: &[u8], buffer: &mut [u8]) -> (r: Result<(), Self::Error>)
        ensures
            final(buffer)@.len() == old(buffer)@.len(),
            final(self).log() == old(self).log().push(
                Transfer::WriteRead { address, bytes: bytes@, len: old(buffer)@.len(), received: final(buffer)@ },
            ),
    ;
}

} // verus!
