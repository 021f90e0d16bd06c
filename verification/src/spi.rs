//! Serial peripheral interface support: error kinds and the master
//! baud-rate divider encoding its drivers rely on.

use vstd::prelude::*;

verus! {

/// SPI error.
#[derive(Clone, Copy, Debug, PartialEq, Eq, Structural)]
pub enum Error {
    /// Overrun occurred
    Overrun,
    /// Mode fault occurred
    ModeFault,
    /// CRC error
    Crc,
}

/// What a poll of the port's status flags calls for during a transfer.
#[derive(Clone, Copy, Debug, PartialEq, Eq, Structural)]
pub enum TransferPoll {
    /// Surface a transfer fault.
    Fault { error: Error },
    /// The awaited flag is set; the byte can move.
    Ready,
    /// Nothing to do yet; poll again.
    Pending,
}

/// The transfer's decision ladder: overrun outranks mode fault, mode
/// fault outranks a CRC error, and all three outrank the awaited flag.
pub open spec fn transfer_poll_spec(ovr: bool, modf: bool, crce: bool, ready: bool) -> TransferPoll {
    if ovr {
        TransferPoll::Fault { error: Error::Overrun }
    } else if modf {
        TransferPoll::Fault { error: Error::ModeFault }
    } else if crce {
        TransferPoll::Fault { error: Error::Crc }
    } else if ready {
        TransferPoll::Ready
    } else {
        TransferPoll::Pending
    }
}

/// Decides what one read of the status flags calls for, given the value
/// of the flag the transfer is waiting on.
pub fn transfer_poll(ovr: bool, modf: bool, crce: bool, ready: bool) -> (r: TransferPoll)
    ensures
        r == transfer_poll_spec(ovr, modf, crce, ready),
{
    if ovr {
        TransferPoll::Fault { error: Error::Overrun }
    } else if modf {
        TransferPoll::Fault { error: Error::ModeFault }
    } else if crce {
        TransferPoll::Fault { error: Error::Crc }
    } else if ready {
        TransferPoll::Ready
    } else {
        TransferPoll::Pending
    }
}

/// Master baud-rate divider code for a ratio of peripheral clock to
/// requested SPI clock; ratios beyond the deepest divider saturate to it.
pub open spec fn spi_mbr_code(ratio: int) -> u8 {
    if ratio <= 2 {
        0b000
    } else if ratio <= 5 {
        0b001
    } else if ratio <= 11 {
        0b010
    } else if ratio <= 23 {
        0b011
    } else if ratio <= 39 {
        0b100
    } else if ratio <= 95 {
        0b101
    } else if ratio <= 191 {
        0b110
    } else {
        0b111
    }
}

/// Looks up the master baud-rate divider code for a clock ratio.
pub fn spi_mbr(ratio: u32) -> (r: u8)
    requires
        ratio >= 1,
    ensures
        r == spi_mbr_code(ratio as int),
{
    if ratio <= 2 {
        0b000
    } else if ratio <= 5 {
        0b001
    } else if ratio <= 11 {
        0b010
    } else if ratio <= 23 {
        0b011
    } else if ratio <= 39 {
        0b100
    } else if ratio <= 95 {
        0b101
    } else if ratio <= 191 {
        0b110
    } else {
        0b111
    }
}

} // verus!
