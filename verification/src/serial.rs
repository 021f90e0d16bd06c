//! Serial (USART) support: interrupt events, error kinds and the baud-rate
//! divisor computation its drivers rely on.

use vstd::prelude::*;

verus! {

/// Interrupt event.
#[derive(Clone, Copy, Debug, PartialEq, Eq, Structural)]
pub enum Event {
    /// New data has been received
    Rxne,
    /// New data can be sent
    Txe,
}

/// Serial error.
#[derive(Clone, Copy, Debug, PartialEq, Eq, Structural)]
pub enum Error {
    /// Framing error
    Framing,
    /// Noise error
    Noise,
    /// RX buffer overrun
    Overrun,
    /// Parity check error
    Parity,
}

/// What a poll of the receiver's status flags calls for.
#[derive(Clone, Copy, Debug, PartialEq, Eq, Structural)]
pub enum RxPoll {
    /// Surface a reception error.
    Fault { error: Error },
    /// Take the byte waiting in the data register.
    Data,
    /// Nothing to do yet; poll again.
    Pending,
}

/// The receiver's decision ladder: reception errors take priority over
/// waiting data, in the order parity, framing, noise, overrun.
pub open spec fn rx_poll_spec(pe: bool, fe: bool, nf: bool, ore: bool, rxne: bool) -> RxPoll {
    if pe {
        RxPoll::Fault { error: Error::Parity }
    } else if fe {
        RxPoll::Fault { error: Error::Framing }
    } else if nf {
        RxPoll::Fault { error: Error::Noise }
    } else if ore {
        RxPoll::Fault { error: Error::Overrun }
    } else if rxne {
        RxPoll::Data
    } else {
        RxPoll::Pending
    }
}

/// Decides what one read of the receiver's status flags calls for.
pub fn rx_poll(pe: bool, fe: bool, nf: bool, ore: bool, rxne: bool) -> (r: RxPoll)
    ensures
        r == rx_poll_spec(pe, fe, nf, ore, rxne),
{
    if pe {
        RxPoll::Fault { error: Error::Parity }
    } else if fe {
        RxPoll::Fault { error: Error::Framing }
    } else if nf {
        RxPoll::Fault { error: Error::Noise }
    } else if ore {
        RxPoll::Fault { error: Error::Overrun }
    } else if rxne {
        RxPoll::Data
    } else {
        RxPoll::Pending
    }
}

/// Baud-rate register value for a peripheral clock: the plain quotient of
/// the two frequencies.  Quotients under 16 cannot be programmed - the
/// requested baud rate would be impossible for this clock.
pub fn usart_brr(pclk: u32, baud_rate: u32) -> (brr: u32)
    requires
        baud_rate > 0,
        pclk as int / baud_rate as int >= 16,
    ensures
        brr == pclk as int / baud_rate as int,
{
    pclk / baud_rate
}

} // verus!
