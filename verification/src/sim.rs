//! A simulated bus transport: a verified implementation of
//! [`crate::bus::I2cBus`] that replays queued read responses and keeps an
//! executable record of every transaction. It shows the transport contract
//! is implementable and lets tests observe the exact wire traffic.
use vstd::prelude::*;

use crate::bus::{I2cBus, Transaction};

verus! {

/// The simulated transport's error: a read was requested with no matching
/// queued response, or the bus was put into its failing state.
#[derive(Debug, Clone, Copy, PartialEq, Eq, Structural)]
pub struct SimError;

/// An executable record of one bus transaction, mirroring
/// [`Transaction`] with concrete byte vectors.
#[derive(Debug, PartialEq, Eq)]
pub enum BusEvent {
    Read { addr: u8, data: Vec<u8> },
    Write { addr: u8, data: Vec<u8> },
    WriteRead { addr: u8, written: Vec<u8>, data: Vec<u8> },
}

impl View for BusEvent {
    type V = Transaction;

    open spec fn view(&self) -> Transaction {
        match self {
            BusEvent::Read { addr, data } => Transaction::Read { addr: *addr, data: data@ },
            BusEvent::Write { addr, data } => Transaction::Write { addr: *addr, data: data@ },
            BusEvent::WriteRead { addr, written, data } => Transaction::WriteRead {
                addr: *addr,
                written: written@,
                data: data@,
            },
        }
    }
}

/// The ghost transactions denoted by a sequence of recorded events.
pub open spec fn spec_events_view(events: Seq<BusEvent>) -> Seq<Transaction> {
    events.map_values(|e: BusEvent| e@)
}

/// Appending one event appends its transaction to the denoted history.
proof fn lemma_events_view_push(events: Seq<BusEvent>, e: BusEvent)
    ensures
        spec_events_view(events.push(e)) == spec_events_view(events).push(e@),
{
    assert(spec_events_view(events.push(e)) =~= spec_events_view(events).push(e@));
}

/// Copy a byte vector.
fn copy_bytes(v: &Vec<u8>) -> (r: Vec<u8>)
    ensures
        r@ == v@,
{
    let mut r: Vec<u8> = Vec::new();
    let mut i: usize = 0;
    while i < v.len()
        invariant
            i <= v.len(),
            r@ == v@.subrange(0, i as int),
        decreases v.len() - i,
    {
        r.push(v[i]);
        i = i + 1;
        proof {
            assert(r@ =~= v@.subrange(0, i as int));
        }
    }
    proof {
        assert(r@ =~= v@);
    }
    r
}

/// A simulated bus: queued responses are consumed in order by reads, every
/// transaction is recorded, and the `failing` switch makes every operation
/// fail, simulating a broken transport.
pub struct SimBus {
    /// Payloads handed out by `read` and `write_read`, in queue order.
    pub responses: Vec<Vec<u8>>,
    /// Every transaction performed, oldest first.
    pub events: Vec<BusEvent>,
    /// When set, every operation fails without touching the bus.
    pub failing: bool,
}

impl SimBus {
    /// A working simulated bus with no queued responses.
    pub fn new() -> (r: SimBus)
        ensures
            r.responses@ == Seq::<Vec<u8>>::empty(),
            r.events@ == Seq::<BusEvent>::empty(),
            !r.failing,
    {
        SimBus { responses: Vec::new(), events: Vec::new(), failing: false }
    }

    /// A simulated bus on which every operation fails.
    pub fn new_failing() -> (r: SimBus)
        ensures
            r.events@ == Seq::<BusEvent>::empty(),
            r.failing,
    {
        SimBus { responses: Vec::new(), events: Vec::new(), failing: true }
    }

    /// Queue `data` as the payload of the next unanswered read.
    pub fn queue_response(&mut self, data: Vec<u8>)
        ensures
            final(self).responses@ == old(self).responses@.push(data),
            final(self).events == old(self).events,
            final(self).failing == old(self).failing,
    {
        self.responses.push(data);
    }

    /// The number of transactions performed so far.
    pub fn event_count(&self) -> (n: usize)
        ensures
            n == self.events@.len(),
    {
        self.events.len()
    }

    /// The transaction at position `i`, oldest first.
    pub fn event_at(&self, i: usize) -> (e: &BusEvent)
        requires
            i < self.events@.len(),
        ensures
            e == self.events@[i as int],
    {
        &self.events[i]
    }

    /// Serve a read of `len` bytes: pop the next queued response if it has
    /// exactly the requested length, otherwise fail.
    fn take_response(&mut self, len: usize) -> (r: Result<Vec<u8>, SimError>)
        ensures
            final(self).events == old(self).events,
            final(self).failing == old(self).failing,
            r is Err <==> (old(self).responses@.len() == 0 || old(self).responses@[0]@.len()
                != len),
            r matches Ok(data) ==> data@ == old(self).responses@[0]@ && data@.len() == len
                && final(self).responses@ == old(self).responses@.remove(0),
    {
        if self.responses.len() == 0 {
            return Err(SimError);
        }
        let data = self.responses.remove(0);
        if data.len() != len {
            return Err(SimError);
        }
        Ok(data)
    }
}

impl I2cBus for SimBus {
    type BusError = SimError;

    open spec fn history(&self) -> Seq<Transaction> {
        spec_events_view(self.events@)
    }

    fn read(&mut self, addr: u8, len: usize) -> (r: Result<Vec<u8>, SimError>)
        ensures
            final(self).failing == old(self).failing,
            r is Err <==> (old(self).failing || old(self).responses@.len() == 0 || old(
                self,
            ).responses@[0]@.len() != len),
            r matches Ok(data) ==> data@ == old(self).responses@[0]@ && final(self).responses@
                == old(self).responses@.remove(0),
    {
        if self.failing {
            return Err(SimError);
        }
        let data = match self.take_response(len) {
            Ok(data) => data,
            Err(e) => {
                return Err(e);
            },
        };
        let recorded = copy_bytes(&data);
        let event = BusEvent::Read { addr, data: recorded };
        proof {
            lemma_events_view_push(self.events@, event);
        }
        self.events.push(event);
        Ok(data)
    }

    fn write(&mut self, addr: u8, data: Vec<u8>) -> (r: Result<(), SimError>)
        ensures
            final(self).failing == old(self).failing,
            final(self).responses == old(self).responses,
            r is Err <==> old(self).failing,
    {
        if self.failing {
            return Err(SimError);
        }
        let event = BusEvent::Write { addr, data };
        proof {
            lemma_events_view_push(self.events@, event);
        }
        self.events.push(event);
        Ok(())
    }

    fn write_read(&mut self, addr: u8, written: Vec<u8>, len: usize) -> (r: Result<
        Vec<u8>,
        SimError,
    >)
        ensures
            final(self).failing == old(self).failing,
            r is Err <==> (old(self).failing || old(self).responses@.len() == 0 || old(
                self,
            ).responses@[0]@.len() != len),
            r matches Ok(data) ==> data@ == old(self).responses@[0]@ && final(self).responses@
                == old(self).responses@.remove(0),
    {
        if self.failing {
            return Err(SimError);
        }
        let data = match self.take_response(len) {
            Ok(data) => data,
            Err(e) => {
                return Err(e);
            },
        };
        let recorded = copy_bytes(&data);
        let event = BusEvent::WriteRead { addr, written, data: recorded };
        proof {
            lemma_events_view_push(self.events@, event);
        }
        self.events.push(event);
        Ok(data)
    }
}

} // verus!
