use vstd::prelude::*;

use crate::bus::FaultPin;
use crate::bus::SpiTransport;
use crate::bus::Transaction;

verus! {

/// One expected transaction of a scripted bus, together with the reply to
/// hand back when the expectation is a transfer.
pub enum Expectation {
    /// Expect a write of exactly this frame.
    Write {
        /// The frame the driver must send, address byte first.
        frame: Vec<u8>,
    },
    /// Expect a transfer that sends exactly `sent`, and hand `reply` back
    /// in the caller's buffer. The reply must have the same length as the
    /// expected outgoing bytes, as the device echoes one byte per byte.
    Transfer {
        /// The bytes the driver must send.
        sent: Vec<u8>,
        /// The bytes to hand back.
        reply: Vec<u8>,
    },
}

/// A bus transport that follows a fixed script of expected transactions.
///
/// A call that matches the next expectation completes, steps the script
/// and is logged; any other call fails without completing a transaction.
/// It stands in for the physical bus where the driver is exercised
/// without hardware.
pub struct ScriptedBus {
    script: Vec<Expectation>,
    next: usize,
    log: Ghost<Seq<Transaction>>,
}

impl ScriptedBus {
    /// The script this bus was created with.
    pub closed spec fn spec_script(&self) -> Seq<Expectation> {
        self.script@
    }

    /// How many expectations of the script have been met so far.
    pub closed spec fn spec_step(&self) -> int {
        self.next as int
    }

    /// Create a scripted bus that expects exactly the given transactions,
    /// first to last.
    pub fn new(script: Vec<Expectation>) -> (r: ScriptedBus)
        ensures
            r.transactions() == Seq::<Transaction>::empty(),
            r.spec_script() == script@,
            r.spec_step() == 0,
    {
        ScriptedBus { script, next: 0, log: Ghost(Seq::empty()) }
    }

    /// Whether the whole script has been consumed.
    pub fn done(&self) -> (r: bool)
        ensures
            r == (self.spec_step() == self.spec_script().len()),
    {
        self.next == self.script.len()
    }
}

/// Whether two byte vectors hold the same bytes.
fn bytes_equal(a: &Vec<u8>, b: &Vec<u8>) -> (r: bool)
    ensures
        r == (a@ == b@),
{
    if a.len() != b.len() {
        return false;
    }
    let mut i: usize = 0;
    while i < a.len()
        invariant
            i <= a@.len(),
            a@.len() == b@.len(),
            forall|j: int| 0 <= j < i ==> a@[j] == b@[j],
        decreases a@.len() - i,
    {
        if a[i] != b[i] {
            return false;
        }
        i = i + 1;
    }
    proof {
        assert(a@ =~= b@);
    }
    true
}

/// A fresh vector holding the same bytes as `src`.
fn copy_bytes(src: &Vec<u8>) -> (r: Vec<u8>)
    ensures
        r@ == src@,
{
    let mut out: Vec<u8> = Vec::new();
    let mut i: usize = 0;
    while i < src.len()
        invariant
            i <= src@.len(),
            out@ == src@.subrange(0, i as int),
        decreases src@.len() - i,
    {
        out.push(src[i]);
        proof {
            assert(out@ =~= src@.subrange(0, i as int + 1));
        }
        i = i + 1;
    }
    proof {
        assert(out@ =~= src@);
    }
    out
}

impl SpiTransport for ScriptedBus {
    closed spec fn transactions(&self) -> Seq<Transaction> {
        self.log@
    }

    fn write(&mut self, frame: &Vec<u8>) -> (r: Result<(), ()>)
        ensures
            final(self).spec_script() == old(self).spec_script(),
            r is Ok <==> old(self).spec_step() < old(self).spec_script().len() && (old(
                self,
            ).spec_script()[old(self).spec_step()] matches Expectation::Write { frame: expected }
                && expected@ == frame@),
            r is Ok ==> final(self).spec_step() == old(self).spec_step() + 1,
            r is Err ==> *final(self) == *old(self),
    {
        if self.next >= self.script.len() {
            return Err(());
        }
        let matched = match &self.script[self.next] {
            Expectation::Write { frame: expected } => bytes_equal(frame, expected),
            Expectation::Transfer { .. } => false,
        };
        if !matched {
            return Err(());
        }
        self.next = self.next + 1;
        self.log = Ghost(self.log@.push(Transaction::Write { frame: frame@ }));
        Ok(())
    }

    fn transfer_in_place(&mut self, buffer: &mut Vec<u8>) -> (r: Result<(), ()>)
        ensures
            final(self).spec_script() == old(self).spec_script(),
            r is Ok <==> old(self).spec_step() < old(self).spec_script().len() && (old(
                self,
            ).spec_script()[old(self).spec_step()] matches Expectation::Transfer { sent, reply }
                && sent@ == old(buffer)@ && reply@.len() == old(buffer)@.len()),
            r is Ok ==> final(self).spec_step() == old(self).spec_step() + 1 && (old(
                self,
            ).spec_script()[old(self).spec_step()] matches Expectation::Transfer { reply, .. }
                ==> final(buffer)@ == reply@),
            r is Err ==> *final(self) == *old(self),
    {
        if self.next >= self.script.len() {
            return Err(());
        }
        let ghost sent0 = buffer@;
        let mut matched = false;
        match &self.script[self.next] {
            Expectation::Transfer { sent, reply } => {
                if reply.len() == buffer.len() && bytes_equal(buffer, sent) {
                    *buffer = copy_bytes(reply);
                    matched = true;
                }
            }
            Expectation::Write { .. } => {}
        }
        if !matched {
            return Err(());
        }
        self.next = self.next + 1;
        self.log = Ghost(
            self.log@.push(Transaction::Transfer { sent: sent0, received: buffer@ }),
        );
        Ok(())
    }
}

/// A fault-pin handle whose line is never asserted; the counterpart of
/// [`ScriptedBus`] for exercising the driver without hardware.
pub struct IdlePin {}

impl FaultPin for IdlePin {
    fn is_asserted(&mut self) -> Result<bool, ()> {
        Ok(false)
    }
}

} // verus!
