//! The radio dispatcher: sole owner of the transceiver. Producers enqueue
//! `(address, command)` pairs; the dispatcher hands out their wire encodings
//! strictly in FIFO arrival order, one at a time, so transmissions are never
//! interleaved. Each queued command yields exactly one transmission.

use vstd::prelude::*;

use crate::nanlite::{encode_transmission, wire_spec, Transmission};
use crate::translate::LightCommand;

verus! {

/// The wire form every command in a queue will take, in queue order.
pub open spec fn plan(queue: Seq<(u16, LightCommand)>) -> Seq<(Seq<u8>, Seq<u8>)> {
    queue.map_values(|p: (u16, LightCommand)| wire_spec(p.0, p.1))
}

/// A transmission value matches a planned wire form when its pipe address
/// and payload bytes are exactly the planned ones.
pub open spec fn matches_wire(t: Transmission, w: (Seq<u8>, Seq<u8>)) -> bool {
    t.pipe@ == w.0 && t.frame@ == w.1
}

/// The dispatch queue and, as ghost history, every transmission already
/// handed out, oldest first.
pub struct RadioDispatcher {
    queue: Vec<(u16, LightCommand)>,
    history: Ghost<Seq<(Seq<u8>, Seq<u8>)>>,
}

impl RadioDispatcher {
    /// The commands still waiting, in arrival order.
    pub closed spec fn queued(self) -> Seq<(u16, LightCommand)> {
        self.queue@
    }

    /// The wire forms already handed out for transmission, oldest first.
    pub closed spec fn transmitted(self) -> Seq<(Seq<u8>, Seq<u8>)> {
        self.history@
    }

    /// Creates an idle dispatcher: nothing queued, nothing transmitted.
    pub fn new() -> (d: RadioDispatcher)
        ensures
            d.queued() == Seq::<(u16, LightCommand)>::empty(),
            d.transmitted() == Seq::<(Seq<u8>, Seq<u8>)>::empty(),
    {
        RadioDispatcher { queue: Vec::new(), history: Ghost(Seq::empty()) }
    }

    /// Number of commands still waiting.
    pub fn pending(&self) -> (n: usize)
        ensures
            n == self.queued().len(),
    {
        self.queue.len()
    }

    /// Appends one command for the light at radio address `addr` to the back
    /// of the queue. Nothing already queued or transmitted is disturbed.
    pub fn enqueue(&mut self, addr: u16, cmd: LightCommand)
        ensures
            final(self).queued() == old(self).queued().push((addr, cmd)),
            final(self).transmitted() == old(self).transmitted(),
    {
        self.queue.push((addr, cmd));
    }

    /// Takes the single oldest queued command and hands out its wire
    /// encoding; returns `None` exactly when the queue is empty. The emitted
    /// transmission is always the head of the queue — never any later entry —
    /// and it is appended to the transmission history, so the dispatcher
    /// processes commands strictly first-in, first-out.
    pub fn next_transmission(&mut self) -> (r: Option<Transmission>)
        ensures
            old(self).queued().len() == 0 ==> r is None && *final(self) == *old(self),
            old(self).queued().len() > 0 ==> (r matches Some(t) && matches_wire(
                t,
                plan(old(self).queued())[0],
            ) && final(self).queued() == old(self).queued().drop_first()
                && final(self).transmitted() == old(self).transmitted().push(
                plan(old(self).queued())[0],
            )),
    {
        if self.queue.len() == 0 {
            None
        } else {
            let (addr, cmd) = self.queue.remove(0);
            let t = encode_transmission(addr, cmd);
            proof {
                self.history@ = self.history@.push(wire_spec(addr, cmd));
                assert(final(self).queued() =~= old(self).queued().drop_first());
            }
            Some(t)
        }
    }

    /// Processes everything queued, one command at a time: the transmissions
    /// handed out are exactly the planned wire forms of the queued commands,
    /// in queue order, each emitted once.
    pub fn drain(&mut self) -> (r: Vec<Transmission>)
        ensures
            r@.len() == plan(old(self).queued()).len(),
            forall|i: int| 0 <= i < r@.len() ==> matches_wire(r@[i], plan(old(self).queued())[i]),
            final(self).queued() == Seq::<(u16, LightCommand)>::empty(),
            final(self).transmitted() == old(self).transmitted() + plan(old(self).queued()),
    {
        let mut out: Vec<Transmission> = Vec::new();
        loop
            invariant
                out@.len() + self.queued().len() == old(self).queued().len(),
                forall|i: int| 0 <= i < out@.len() ==> matches_wire(
                    out@[i],
                    plan(old(self).queued())[i],
                ),
                forall|i: int| 0 <= i < self.queued().len() ==> self.queued()[i] == old(
                    self,
                ).queued()[out@.len() + i],
                self.transmitted() == old(self).transmitted() + plan(old(self).queued()).subrange(
                    0,
                    out@.len() as int,
                ),
            ensures
                self.queued().len() == 0,
            decreases self.queued().len(),
        {
            let ghost prev = *self;
            match self.next_transmission() {
                Some(t) => {
                    proof {
                        assert(plan(prev.queued())[0] == plan(old(self).queued())[out@.len() as int]);
                        assert(self.transmitted() =~= old(self).transmitted() + plan(
                            old(self).queued(),
                        ).subrange(0, out@.len() + 1 as int));
                    }
                    out.push(t);
                },
                None => {
                    break ;
                },
            }
        }
        proof {
            assert(plan(old(self).queued()).subrange(0, plan(old(self).queued()).len() as int) =~= plan(
                old(self).queued(),
            ));
            assert(self.queued() =~= Seq::<(u16, LightCommand)>::empty());
        }
        out
    }
}

/// The FIFO law of the dispatch plan: the plan of a queue encodes each queued
/// command once, in arrival order, and enqueueing never reorders what is
/// already waiting.
pub proof fn lemma_plan_fifo(queue: Seq<(u16, LightCommand)>, addr: u16, cmd: LightCommand)
    ensures
        plan(queue).len() == queue.len(),
        forall|i: int| 0 <= i < queue.len() ==> plan(queue)[i] == wire_spec(
            queue[i].0,
            queue[i].1,
        ),
        plan(queue.push((addr, cmd))) == plan(queue).push(wire_spec(addr, cmd)),
{
    assert(plan(queue.push((addr, cmd))) =~= plan(queue).push(wire_spec(addr, cmd)));
}

} // verus!
