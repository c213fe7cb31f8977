//! The link to the sensor, and the record of every exchange made over it.
use vstd::prelude::*;

verus! {

/// A synchronous full-duplex link to the sensor: clocks out two bytes while it
/// clocks in two.
pub trait Transport {
    type Error;

    fn transfer(&mut self, write: [u8; 2]) -> Result<[u8; 2], Self::Error>;
}

/// One full-duplex exchange of two bytes with the device: what was sent, and
/// what came back or the error that the device reported.
pub struct Exchange<E> {
    pub sent: [u8; 2],
    pub reply: Result<[u8; 2], E>,
}

/// A transport together with the history of the exchanges made through it.
/// Both fields are private to this module, so `transfer` below is the only
/// way to reach the transport and the only writer of the history.
pub struct Link<T: Transport> {
    transport: T,
    log: Ghost<Seq<Exchange<T::Error>>>,
}

impl<T: Transport> Link<T> {
    /// Every exchange made through this link, oldest first.
    pub closed spec fn history(&self) -> Seq<Exchange<T::Error>> {
        self.log@
    }

    pub fn new(transport: T) -> (r: Self)
        ensures
            r.history() == Seq::<Exchange<T::Error>>::empty(),
    {
        Link { transport, log: Ghost(Seq::empty()) }
    }

    /// One exchange over the transport, entered in the history: `write` goes
    /// out, and the reply or the device's error comes back.
    pub fn transfer(&mut self, write: [u8; 2]) -> (r: Result<[u8; 2], T::Error>)
        ensures
            final(self).history() == old(self).history().push(Exchange { sent: write, reply: r }),
    {
        let r = self.transport.transfer(write);
        self.log = Ghost(self.log@.push(Exchange { sent: write, reply: r }));
        r
    }
}

} // verus!
