//! The registry of subscriber queues, fan-out, and the liveness sweep.
use vstd::prelude::*;
use tokio::sync::mpsc::{Receiver, Sender};
use crate::channel::{offer, open_channel_with};
use crate::frame::{connected_frame, event_frame, ping_frame};
use crate::sweep::{kept, retain_accepted};

verus! {

/// Frames that a subscriber queue holds at most.
pub const QUEUE_CAPACITY: usize = 100;

/// Seconds between two liveness sweeps; the first runs at once.
pub const SWEEP_INTERVAL_SECS: u64 = 10;

/// Holds the write end of every registered subscriber queue, in order of
/// registration.
pub struct Broadcaster {
    clients: Vec<Sender<String>>,
}

/// The read end of one subscriber queue.
pub struct Client {
    rx: Receiver<String>,
}

impl View for Broadcaster {
    type V = Seq<Sender<String>>;

    closed spec fn view(&self) -> Seq<Sender<String>> {
        self.clients@
    }
}

impl Broadcaster {
    /// A broadcaster with no subscribers.
    pub fn new() -> (r: Self)
        ensures
            r@ == Seq::<Sender<String>>::empty(),
    {
        Broadcaster { clients: Vec::new() }
    }

    /// How many subscribers are registered.
    pub fn subscriber_count(&self) -> (r: usize)
        ensures
            r == self@.len(),
    {
        self.clients.len()
    }

    /// Opens a queue of `QUEUE_CAPACITY` frames that holds the connected
    /// frame, adds its write end to the registry after the others and
    /// returns its read end.
    pub fn new_client(&mut self) -> (r: Client)
        ensures
            final(self)@.len() == old(self)@.len() + 1,
            final(self)@.subrange(0, old(self)@.len() as int) == old(self)@,
    {
        let (tx, rx) = open_channel_with(QUEUE_CAPACITY, connected_frame());
        let ghost before = self.clients@;
        self.clients.push(tx);
        assert(self.clients@.subrange(0, before.len() as int) =~= before);
        Client { rx }
    }

    /// Offers the frame of `event` and `msg` once to every registered queue,
    /// in registry order, without waiting, and returns for each entry whether
    /// its queue took the frame. A queue that is full or closed drops it; the
    /// registry is left as it is.
    pub fn send(&self, event: &str, msg: &str) -> (accepted: Vec<bool>)
        ensures
            accepted@.len() == self@.len(),
    {
        let frame = event_frame(event, msg);
        let mut accepted: Vec<bool> = Vec::new();
        let mut i: usize = 0;
        while i < self.clients.len()
            invariant
                i <= self.clients@.len(),
                accepted@.len() == i,
            decreases self.clients@.len() - i,
        {
            let ok = offer(&self.clients[i], frame.clone());
            accepted.push(ok);
            i = i + 1;
        }
        accepted
    }

    /// Offers the ping frame to every registered queue and keeps, in their
    /// order, exactly the subscribers whose queue accepted it. Returns, for
    /// each entry before the sweep, whether its queue took the probe.
    pub fn remove_stale_clients(&mut self) -> (accepted: Vec<bool>)
        ensures
            accepted@.len() == old(self)@.len(),
            final(self)@ == kept(old(self)@, accepted@),
    {
        let probe = ping_frame();
        let mut accepted: Vec<bool> = Vec::new();
        let mut i: usize = 0;
        while i < self.clients.len()
            invariant
                i <= self.clients@.len(),
                accepted@.len() == i,
                self.clients@ == old(self).clients@,
            decreases self.clients@.len() - i,
        {
            let ok = offer(&self.clients[i], probe.clone());
            accepted.push(ok);
            i = i + 1;
        }
        retain_accepted(&mut self.clients, &accepted);
        accepted
    }
}

impl Client {
    /// Hands out the read end, from which the frames come in queue order.
    pub fn into_receiver(self) -> Receiver<String> {
        self.rx
    }
}

} // verus!
