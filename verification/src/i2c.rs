//! Inter-integrated circuit support: error kinds and the bus-timing
//! computation its drivers rely on.
//!
//! The timing register holds a prescaler and four phase counts derived
//! from the peripheral clock and the requested bus frequency; the three
//! speed classes (standard up to 100 kHz, fast up to 400 kHz, fast plus
//! above) each use their own formulas.

use vstd::prelude::*;

use crate::convert::narrow_u8;

verus! {

/// I2C error.
#[derive(Clone, Copy, Debug, PartialEq, Eq, Structural)]
pub enum Error {
    /// Bus error
    Bus,
    /// Arbitration loss
    Arbitration,
}

/// What a poll of the port's status flags calls for while a transfer
/// waits on a flag.
#[derive(Clone, Copy, Debug, PartialEq, Eq, Structural)]
pub enum BusPoll {
    /// Surface a bus fault.
    Fault { error: Error },
    /// The awaited flag is set; the transfer proceeds.
    Ready,
    /// Nothing to do yet; poll again.
    Pending,
}

/// The transfer's decision ladder: a bus error outranks a lost
/// arbitration, and both outrank the awaited flag.
pub open spec fn bus_poll_spec(berr: bool, arlo: bool, ready: bool) -> BusPoll {
    if berr {
        BusPoll::Fault { error: Error::Bus }
    } else if arlo {
        BusPoll::Fault { error: Error::Arbitration }
    } else if ready {
        BusPoll::Ready
    } else {
        BusPoll::Pending
    }
}

/// Decides what one read of the status flags calls for, given the value
/// of the flag the transfer is waiting on.
pub fn bus_poll(berr: bool, arlo: bool, ready: bool) -> (r: BusPoll)
    ensures
        r == bus_poll_spec(berr, arlo, ready),
{
    if berr {
        BusPoll::Fault { error: Error::Bus }
    } else if arlo {
        BusPoll::Fault { error: Error::Arbitration }
    } else if ready {
        BusPoll::Ready
    } else {
        BusPoll::Pending
    }
}

/// Clock cycles available per bus cycle, less the four cycles the
/// peripheral's synchronisation stages consume.
pub open spec fn i2c_ratio(i2cclk: int, freq: int) -> int {
    i2cclk / freq - 4
}

/// Timing prescaler.
pub open spec fn i2c_presc(i2cclk: int, freq: int) -> int {
    if freq > 100_000 {
        i2c_ratio(i2cclk, freq) / 387
    } else {
        i2c_ratio(i2cclk, freq) / 514
    }
}

/// High-phase count: in the fast classes the low phase gets two thirds of
/// the cycle, in the standard class the two phases are equal.
pub open spec fn i2c_sclh(i2cclk: int, freq: int) -> int {
    if freq > 100_000 {
        (i2c_ratio(i2cclk, freq) / (i2c_presc(i2cclk, freq) + 1) - 3) / 3
    } else {
        (i2c_ratio(i2cclk, freq) / (i2c_presc(i2cclk, freq) + 1) - 2) / 2
    }
}

/// Low-phase count.
pub open spec fn i2c_scll(i2cclk: int, freq: int) -> int {
    if freq > 100_000 {
        2 * (i2c_sclh(i2cclk, freq) + 1) - 1
    } else {
        i2c_sclh(i2cclk, freq)
    }
}

/// Data hold-time count.
pub open spec fn i2c_sdadel(i2cclk: int, freq: int) -> int {
    if freq > 400_000 {
        0
    } else if freq > 100_000 {
        i2cclk / 8_000_000 / (i2c_presc(i2cclk, freq) + 1)
    } else {
        i2cclk / 2_000_000 / (i2c_presc(i2cclk, freq) + 1)
    }
}

/// Data setup-time count.
pub open spec fn i2c_scldel(i2cclk: int, freq: int) -> int {
    if freq > 400_000 {
        i2cclk / 4_000_000 / (i2c_presc(i2cclk, freq) + 1) - 1
    } else if freq > 100_000 {
        i2cclk / 2_000_000 / (i2c_presc(i2cclk, freq) + 1) - 1
    } else {
        i2cclk / 800_000 / (i2c_presc(i2cclk, freq) + 1) - 1
    }
}

/// The clock pair leaves every derived count non-negative and inside its
/// eight-bit register field.
pub open spec fn i2c_timing_ok(i2cclk: int, freq: int) -> bool {
    &&& 0 < freq <= 1_000_000
    &&& i2cclk / freq >= 4
    &&& (if freq > 100_000 {
        i2c_ratio(i2cclk, freq) / (i2c_presc(i2cclk, freq) + 1) >= 3
    } else {
        i2c_ratio(i2cclk, freq) / (i2c_presc(i2cclk, freq) + 1) >= 2
    })
    &&& (if freq > 400_000 {
        i2cclk / 4_000_000 / (i2c_presc(i2cclk, freq) + 1) >= 1
    } else if freq > 100_000 {
        i2cclk / 2_000_000 / (i2c_presc(i2cclk, freq) + 1) >= 1
    } else {
        i2cclk / 800_000 / (i2c_presc(i2cclk, freq) + 1) >= 1
    })
    &&& i2c_presc(i2cclk, freq) <= 255
    &&& i2c_scll(i2cclk, freq) <= 255
    &&& i2c_sclh(i2cclk, freq) <= 255
    &&& i2c_sdadel(i2cclk, freq) <= 255
    &&& i2c_scldel(i2cclk, freq) <= 255
}

/// Checks executably that the clock pair satisfies every condition of
/// [`i2c_timing_ok`], so that unverified callers can reject a pair the
/// timing formulas cannot express before computing with it.
pub fn i2c_timing_in_range(i2cclk: u32, freq: u32) -> (b: bool)
    ensures
        b == i2c_timing_ok(i2cclk as int, freq as int),
{
    if freq == 0 || freq > 1_000_000 {
        return false;
    }
    if i2cclk / freq < 4 {
        return false;
    }
    let ratio = i2cclk / freq - 4;
    let presc = if freq > 100_000 {
        ratio / 387
    } else {
        ratio / 514
    };
    let quot = ratio / (presc + 1);
    if freq > 100_000 {
        if quot < 3 {
            return false;
        }
    } else {
        if quot < 2 {
            return false;
        }
    }
    let scldel_term = if freq > 400_000 {
        i2cclk / 4_000_000 / (presc + 1)
    } else if freq > 100_000 {
        i2cclk / 2_000_000 / (presc + 1)
    } else {
        i2cclk / 800_000 / (presc + 1)
    };
    if scldel_term < 1 {
        return false;
    }
    if presc > 255 {
        return false;
    }
    let sclh = if freq > 100_000 {
        (quot - 3) / 3
    } else {
        (quot - 2) / 2
    };
    if sclh > 255 {
        return false;
    }
    let scll = if freq > 100_000 {
        2 * (sclh + 1) - 1
    } else {
        sclh
    };
    let sdadel = if freq > 400_000 {
        0
    } else if freq > 100_000 {
        i2cclk / 8_000_000 / (presc + 1)
    } else {
        i2cclk / 2_000_000 / (presc + 1)
    };
    scll <= 255 && sdadel <= 255 && scldel_term - 1 <= 255
}

/// Computes the timing register fields `(presc, scll, sclh, sdadel,
/// scldel)` for a peripheral clock and a requested bus frequency.
pub fn i2c_timing(i2cclk: u32, freq: u32) -> (r: (u8, u8, u8, u8, u8))
    requires
        i2c_timing_ok(i2cclk as int, freq as int),
    ensures
        r.0 == i2c_presc(i2cclk as int, freq as int),
        r.1 == i2c_scll(i2cclk as int, freq as int),
        r.2 == i2c_sclh(i2cclk as int, freq as int),
        r.3 == i2c_sdadel(i2cclk as int, freq as int),
        r.4 == i2c_scldel(i2cclk as int, freq as int),
{
    let ratio = i2cclk / freq - 4;
    let (presc, scll, sclh, sdadel, scldel) = if freq > 100_000 {
        // fast mode or fast mode plus: the low phase gets two thirds of
        // the cycle
        let presc = ratio / 387;
        let sclh = (ratio / (presc + 1) - 3) / 3;
        let scll = 2 * (sclh + 1) - 1;
        let (sdadel, scldel) = if freq > 400_000 {
            // fast mode plus
            let sdadel: u32 = 0;
            let scldel = i2cclk / 4_000_000 / (presc + 1) - 1;
            (sdadel, scldel)
        } else {
            // fast mode
            let sdadel = i2cclk / 8_000_000 / (presc + 1);
            let scldel = i2cclk / 2_000_000 / (presc + 1) - 1;
            (sdadel, scldel)
        };
        (presc, scll, sclh, sdadel, scldel)
    } else {
        // standard mode: both phases equal
        let presc = ratio / 514;
        let sclh = (ratio / (presc + 1) - 2) / 2;
        let scll = sclh;
        let sdadel = i2cclk / 2_000_000 / (presc + 1);
        let scldel = i2cclk / 800_000 / (presc + 1) - 1;
        (presc, scll, sclh, sdadel, scldel)
    };
    (narrow_u8(presc), narrow_u8(scll), narrow_u8(sclh), narrow_u8(sdadel), narrow_u8(scldel))
}

} // verus!
