use vstd::prelude::*;

verus! {

/// One completed transaction on the synchronous serial bus, as the driver
/// sees it. Used only in specifications.
pub enum Transaction {
    /// A write: the frame that went out, address byte first.
    Write { frame: Seq<u8> },
    /// A full-duplex transfer: `sent` went out (address byte first, then
    /// padding), and `received` came back in its place. The device echoes
    /// one byte for each byte sent, so both sides have the same length.
    Transfer { sent: Seq<u8>, received: Seq<u8> },
}

/// The synchronous bus transport the driver drives, supplied by the
/// caller. Each call blocks until the transport completes or fails the
/// whole transaction.
///
/// `transactions` is the abstract log of the transactions completed so
/// far; a failed call completes nothing and leaves the log as it was.
/// What a transfer receives is the device's to choose: no bound is placed
/// on the received bytes beyond their length.
pub trait SpiTransport: Sized {
    /// The transactions completed on this transport so far, oldest first.
    /// A transport that models its history overrides this; the default,
    /// an always-empty log, is for transports whose history is not
    /// observable, and with it the method contracts below promise
    /// nothing.
    open spec fn transactions(&self) -> Seq<Transaction> {
        Seq::empty()
    }

    /// Write `frame` to the bus as one transaction.
    fn write(&mut self, frame: &Vec<u8>) -> (r: Result<(), ()>)
        ensures
            r is Ok ==> final(self).transactions() == old(self).transactions().push(
                Transaction::Write { frame: frame@ },
            ),
            r is Err ==> final(self).transactions() == old(self).transactions(),
    ;

    /// Exchange the contents of `buffer` with the device as one
    /// transaction: the buffer goes out and the received bytes replace it.
    fn transfer_in_place(&mut self, buffer: &mut Vec<u8>) -> (r: Result<(), ()>)
        ensures
            r is Ok ==> final(buffer)@.len() == old(buffer)@.len() && final(self).transactions()
                == old(self).transactions().push(
                Transaction::Transfer { sent: old(buffer)@, received: final(buffer)@ },
            ),
            r is Err ==> final(buffer)@ == old(buffer)@ && final(self).transactions() == old(
                self,
            ).transactions(),
    ;
}

/// The digital input wired to the device's fault interrupt line, supplied
/// by the caller. The driver stores it for a future interrupt-driven mode;
/// no current operation polls it.
pub trait FaultPin: Sized {
    /// Whether the fault line is asserted. The line's state is the
    /// device's to choose, so nothing is promised of the result.
    fn is_asserted(&mut self) -> Result<bool, ()>;
}

} // verus!
