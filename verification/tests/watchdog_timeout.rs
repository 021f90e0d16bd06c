//! Tests for the window watchdog timeout search.

use stm32h7_hal::rcc::Rcc;
use stm32h7_hal::time::{Hertz, MilliSeconds};
use stm32h7_hal::watchdog::{SystemWindowWatchdog, WatchdogOp};

#[test]
fn hundred_millisecond_period_at_64mhz() {
    // pclk3 = 64 MHz; the longest achievable timeout not exceeding
    // 100 ms is exactly 100 ms, reached by prescaler exponent 5 and
    // reload value 48: (4096 * 32 * 49) / 64000 = 100.
    let (clocks, _) = Rcc::new().cfgr.freeze();
    let mut wwdg = SystemWindowWatchdog::new(clocks);
    assert!(!wwdg.is_started());
    let ops = wwdg.start(MilliSeconds(100));
    let counter = 48u8 | 0x40;
    assert_eq!(counter, 112);
    let expected = vec![
        WatchdogOp::SetPrescaler { bits: 5 },
        WatchdogOp::SetWindow { value: counter },
        WatchdogOp::SetCounter { value: counter },
        WatchdogOp::Enable,
    ];
    assert_eq!(ops, expected);
    let timeout = (4096u32 * (1 << 5) * (48 + 1)) / (64_000_000 / 1000);
    assert_eq!(timeout, 100);
    assert!(wwdg.is_started());
}

#[test]
fn achieved_timeout_never_exceeds_the_request() {
    let (clocks, _) = Rcc::new().cfgr.freeze();
    let khz = 64_000_000u32 / 1000;
    for period in [1u32, 7, 50, 100, 250, 524] {
        let mut wwdg = SystemWindowWatchdog::new(clocks);
        let ops = wwdg.start(MilliSeconds(period));
        let (bits, value) = match (&ops[0], &ops[2]) {
            (WatchdogOp::SetPrescaler { bits }, WatchdogOp::SetCounter { value }) => {
                (*bits, *value)
            },
            _ => panic!("unexpected plan shape"),
        };
        let t = (value & 0x3f) as u32;
        let achieved = (4096 * (1u32 << bits) * (t + 1)) / khz;
        assert!(achieved <= period);
        // No pair achieves a longer timeout that still fits.
        for w2 in 0..8u32 {
            for t2 in 1..64u32 {
                let other = (4096 * (1 << w2) * (t2 + 1)) / khz;
                if other <= period {
                    assert!(other <= achieved);
                }
            }
        }
    }
}

#[test]
fn one_millisecond_period_at_64mhz() {
    let (clocks, _) = Rcc::new().cfgr.freeze();
    let mut wwdg = SystemWindowWatchdog::new(clocks);
    let ops = wwdg.start(MilliSeconds(1));
    // (4096 * 1 * 16) / 64000 = 1 exactly.
    assert_eq!(ops[0], WatchdogOp::SetPrescaler { bits: 0 });
    assert_eq!(ops[2], WatchdogOp::SetCounter { value: 15 | 0x40 });
}

#[test]
fn long_periods_at_slow_clocks_still_get_the_maximizer() {
    // pclk3 = 11,837 Hz (a slow AHB request divided down), so timeouts
    // reach into the millions of milliseconds.  The best qualifying pair
    // sits 33,335 ms under the request - the search must still adopt it,
    // however far from the period the closest achievable timeout lies.
    let (clocks, _) = Rcc::new().cfgr.sys_ck(33, 100, 128).hclk1(Hertz(5_919)).freeze();
    assert_eq!(clocks.pclk3(), Hertz(11_837));
    let mut wwdg = SystemWindowWatchdog::new(clocks);
    let ops = wwdg.start(MilliSeconds(3_036_075));
    let counter = 62u8 | 0x40;
    let expected = vec![
        WatchdogOp::SetPrescaler { bits: 7 },
        WatchdogOp::SetWindow { value: counter },
        WatchdogOp::SetCounter { value: counter },
        WatchdogOp::Enable,
    ];
    assert_eq!(ops, expected);
    let timeout = (4096u32 * (1 << 7) * (62 + 1)) / (11_837 / 1000);
    assert_eq!(timeout, 3_002_740);
}

#[test]
fn period_below_every_achievable_timeout_keeps_the_default_pair() {
    // At a 1 MHz APB3 clock the shortest achievable timeout is
    // (4096 * 2) / 1000 = 8 ms; a 5 ms request can never be met, so the
    // search keeps its defensively initialized pair and still programs
    // the watchdog with it.
    let (clocks, _) = Rcc::new().cfgr.sys_ck(16, 200, 50).pclk3(Hertz(1_000_000)).freeze();
    assert_eq!(clocks.pclk3(), Hertz(1_000_000));
    let mut wwdg = SystemWindowWatchdog::new(clocks);
    let ops = wwdg.start(MilliSeconds(5));
    let expected = vec![
        WatchdogOp::SetPrescaler { bits: 0 },
        WatchdogOp::SetWindow { value: 0x40 },
        WatchdogOp::SetCounter { value: 0x40 },
        WatchdogOp::Enable,
    ];
    assert_eq!(ops, expected);
}

#[test]
fn feed_reloads_the_programmed_counter() {
    let (clocks, _) = Rcc::new().cfgr.freeze();
    let mut wwdg = SystemWindowWatchdog::new(clocks);
    wwdg.start(MilliSeconds(100));
    assert_eq!(wwdg.feed(), WatchdogOp::SetCounter { value: 112 });
}
