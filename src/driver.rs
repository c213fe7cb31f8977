//! The driver: two-phase read transactions over a transport to the sensor.
use vstd::prelude::*;

use crate::transport::{Exchange, Link, Transport};
use crate::protocol::{
    be_bytes, command_word, decode_diag_gain, decode_u16, encode, reply_data, reply_diag_gain,
    to_be_bytes, Register, DATA_MASK,
};

verus! {

/// Failure of a read.
#[derive(Debug, PartialEq, Eq)]
pub enum Error<E> {
    /// The SPI device reported an error.
    Spi(E),
}

/// The word sent to fetch the reply to the previous command.
pub open spec fn nop_frame() -> [u8; 2] {
    [0u8, 0u8]
}

/// The outcome that a driver reports for an exchange.
pub open spec fn outcome<E>(x: Exchange<E>) -> Result<[u8; 2], Error<E>> {
    match x.reply {
        Ok(b) => Ok(b),
        Err(e) => Err(Error::Spi(e)),
    }
}

/// `after` is `before` followed by the exchanges of one read of `reg`: the
/// command word, then, unless the device failed on it, the no-op word whose
/// reply is the answer.
pub open spec fn read_exchanges<E>(reg: Register, before: Seq<Exchange<E>>, after: Seq<Exchange<E>>) -> bool {
    let n = before.len();
    &&& n < after.len()
    &&& after.subrange(0, n as int) == before
    &&& after[n as int].sent == be_bytes(command_word(reg.spec_address()))
    &&& if after[n as int].reply is Err {
        after.len() == n + 1
    } else {
        after.len() == n + 2 && after[n + 1int].sent == nop_frame()
    }
}

/// A read that succeeds made exactly two exchanges, the command word and then
/// the no-op word, and its answer is what came back during the second.
pub proof fn lemma_answer_is_second_reply<E>(reg: Register, before: Seq<Exchange<E>>, after: Seq<Exchange<E>>)
    requires
        read_exchanges(reg, before, after),
        outcome(after.last()) is Ok,
    ensures
        after.len() == before.len() + 2,
        after[before.len() as int].sent == be_bytes(command_word(reg.spec_address())),
        after[before.len() + 1int].sent == nop_frame(),
        after[before.len() + 1int].reply is Ok,
        outcome(after.last()) == Ok::<[u8; 2], Error<E>>(after[before.len() + 1int].reply->Ok_0),
{
    let n = before.len();
    if after[n as int].reply is Err {
        assert(after.last() == after[n as int]);
    }
}

/// A device error during either exchange of a read ends the read: no exchange
/// follows it, and the read reports that very error and no value.
pub proof fn lemma_failure_aborts_read<E>(reg: Register, before: Seq<Exchange<E>>, after: Seq<Exchange<E>>, i: int)
    requires
        read_exchanges(reg, before, after),
        before.len() <= i < after.len(),
        after[i].reply is Err,
    ensures
        i == after.len() - 1,
        outcome(after.last()) == Err::<[u8; 2], Error<E>>(Error::Spi(after[i].reply->Err_0)),
{
}

/// AS5048A driver
pub struct AS5048A<SPI: Transport> {
    spi: Link<SPI>,
}

impl<SPI: Transport> AS5048A<SPI> {
    /// Every exchange made through the driver's transport, oldest first.
    pub closed spec fn exchanges(&self) -> Seq<Exchange<SPI::Error>> {
        self.spi.history()
    }

    /// Takes the transport; no exchange is made.
    pub fn new(spi: SPI) -> (r: Self)
        ensures
            r.exchanges() == Seq::<Exchange<SPI::Error>>::empty(),
    {
        AS5048A { spi: Link::new(spi) }
    }

    /// Reads the diagnostic flags and the automatic gain control value.
    pub fn diag_gain(&mut self) -> (r: Result<(u8, u8), Error<SPI::Error>>)
        ensures
            read_exchanges(Register::DiagAgc, old(self).exchanges(), final(self).exchanges()),
            r == match outcome(final(self).exchanges().last()) {
                Ok(b) => Ok(reply_diag_gain(b)),
                Err(e) => Err(e),
            },
            r matches Ok((d, _)) ==> d <= 0x0F,
    {
        match self.read(Register::DiagAgc) {
            Ok(arr) => Ok(decode_diag_gain(arr)),
            Err(e) => Err(e),
        }
    }

    /// Reads the magnitude of the magnetic field (14 bits).
    pub fn magnitude(&mut self) -> (r: Result<u16, Error<SPI::Error>>)
        ensures
            read_exchanges(Register::Magnitude, old(self).exchanges(), final(self).exchanges()),
            r == match outcome(final(self).exchanges().last()) {
                Ok(b) => Ok(reply_data(b)),
                Err(e) => Err(e),
            },
            r matches Ok(v) ==> v <= DATA_MASK,
    {
        self.read_u16(Register::Magnitude)
    }

    /// Read the rotation angle as u16 (only 14 bits are significant)
    pub fn angle(&mut self) -> (r: Result<u16, Error<SPI::Error>>)
        ensures
            read_exchanges(Register::Angle, old(self).exchanges(), final(self).exchanges()),
            r == match outcome(final(self).exchanges().last()) {
                Ok(b) => Ok(reply_data(b)),
                Err(e) => Err(e),
            },
            r matches Ok(v) ==> v <= DATA_MASK,
    {
        self.read_u16(Register::Angle)
    }

    fn read_u16(&mut self, reg: Register) -> (r: Result<u16, Error<SPI::Error>>)
        ensures
            read_exchanges(reg, old(self).exchanges(), final(self).exchanges()),
            r == match outcome(final(self).exchanges().last()) {
                Ok(b) => Ok(reply_data(b)),
                Err(e) => Err(e),
            },
            r matches Ok(v) ==> v <= DATA_MASK,
    {
        match self.read(reg) {
            Ok(arr) => Ok(decode_u16(arr)),
            Err(e) => Err(e),
        }
    }

    /// Sends the command that reads `reg`, then a no-op word to clock in the
    /// reply, which the sensor gives one transaction late.
    fn read(&mut self, reg: Register) -> (r: Result<[u8; 2], Error<SPI::Error>>)
        ensures
            read_exchanges(reg, old(self).exchanges(), final(self).exchanges()),
            r == outcome(final(self).exchanges().last()),
    {
        let cmd = encode(reg);
        let bytes = to_be_bytes(cmd);
        match self.spi.transfer(bytes) {
            Ok(_) => {},
            Err(e) => {
                assert(self.exchanges().subrange(0, old(self).exchanges().len() as int) == old(self).exchanges());
                return Err(Error::Spi(e));
            },
        }
        let nop: [u8; 2] = [0x00, 0x00];
        let r = self.spi.transfer(nop);
        assert(self.exchanges().subrange(0, old(self).exchanges().len() as int) == old(self).exchanges());
        match r {
            Ok(result) => Ok(result),
            Err(e) => Err(Error::Spi(e)),
        }
    }
}

} // verus!
