//! Tests for the clock-configuration builder, its freeze resolution and
//! the order of the register writes it plans.

use stm32h7_hal::rcc::{Rcc, RegisterWrite};
use stm32h7_hal::time::{mhz, Hertz};

#[test]
fn freeze_with_pll_end_to_end() {
    let rcc = Rcc::new();
    let (clocks, writes) = rcc.cfgr.sys_ck(6, 75, 2).freeze();
    // sys = (64 MHz / 6) * 75 / 2; above 240 MHz the AHB clock defaults
    // to half the system clock.
    assert_eq!(clocks.sys_ck(), Hertz(399_999_975));
    assert_eq!(clocks.hclk1(), Hertz(199_999_987));
    assert_eq!(clocks.hclk2(), Hertz(199_999_987));
    assert_eq!(clocks.hclk3(), Hertz(199_999_987));
    assert_eq!(clocks.hclk4(), Hertz(199_999_987));
    assert_eq!(clocks.hpre(), 2);
    assert_eq!(clocks.pclk1(), Hertz(199_999_987));
    assert_eq!(clocks.pclk2(), Hertz(199_999_987));
    assert_eq!(clocks.pclk3(), Hertz(199_999_987));
    assert_eq!(clocks.pclk4(), Hertz(199_999_987));
    assert_eq!(clocks.d1ppre(), 1);
    assert_eq!(clocks.d2ppre1(), 1);
    assert_eq!(clocks.d2ppre2(), 1);
    assert_eq!(clocks.d3ppre(), 1);

    let expected = vec![
        RegisterWrite::FlashAcr { latency: 4, wrhighfreq: 2 },
        RegisterWrite::Hpre { bits: 0b1000 },
        RegisterWrite::D1Ppre { bits: 0b011 },
        RegisterWrite::D2Ppre { ppre1: 0b011, ppre2: 0b011 },
        RegisterWrite::D3Ppre { bits: 0b011 },
        RegisterWrite::PllSource { bits: 0b00 },
        RegisterWrite::PllDivN { value: 75 },
        RegisterWrite::PllDivM { bits: 6 },
        RegisterWrite::PllDivPEnable,
        RegisterWrite::PllDivP { bits: 2 },
        RegisterWrite::PllInputRange { bits: 0b11 },
        RegisterWrite::PllVcoSel { low_range: false },
        RegisterWrite::PllFracDisable,
        RegisterWrite::PllEnable,
        RegisterWrite::SysClockSource { bits: 0b011 },
    ];
    assert_eq!(writes, expected);
}

#[test]
fn freeze_without_pll_stays_on_internal_oscillator() {
    let rcc = Rcc::new();
    let (clocks, writes) = rcc.cfgr.freeze();
    assert_eq!(clocks.sys_ck(), Hertz(64_000_000));
    assert_eq!(clocks.hclk1(), Hertz(64_000_000));
    assert_eq!(clocks.pclk1(), Hertz(64_000_000));
    assert_eq!(clocks.hpre(), 1);
    assert_eq!(writes.len(), 6);
    assert!(matches!(writes[0], RegisterWrite::FlashAcr { latency: 1, wrhighfreq: 1 }));
    assert!(matches!(writes[5], RegisterWrite::SysClockSource { bits: 0b000 }));
}

#[test]
fn freeze_is_deterministic_across_equivalent_requests() {
    // Two builders accumulating the same requests freeze to bit-identical
    // snapshots and identical plans.
    let (c1, w1) = Rcc::new().cfgr.sys_ck(8, 50, 2).pclk1(Hertz(50_000_000)).freeze();
    let (c2, w2) = Rcc::new().cfgr.sys_ck(8, 50, 2).pclk1(Hertz(50_000_000)).freeze();
    assert_eq!(c1, c2);
    assert_eq!(w1, w2);
}

#[test]
fn raising_a_bus_request_never_lowers_the_resolved_frequency() {
    // sys = 200 MHz; asking for more APB1 never yields less.
    let (low, _) = Rcc::new().cfgr.sys_ck(8, 50, 2).pclk1(Hertz(30_000_000)).freeze();
    let (high, _) = Rcc::new().cfgr.sys_ck(8, 50, 2).pclk1(Hertz(60_000_000)).freeze();
    assert_eq!(low.pclk1(), Hertz(25_000_000));
    assert_eq!(high.pclk1(), Hertz(50_000_000));
    assert!(high.pclk1().0 >= low.pclk1().0);
}

#[test]
fn far_too_low_bus_request_saturates_to_deepest_division() {
    // A 1 kHz APB3 request at a 200 MHz AHB clock is far beyond any
    // prescaler code; the domain saturates to the divide-by-16 code
    // instead of failing.
    let (clocks, writes) = Rcc::new().cfgr.sys_ck(8, 50, 2).pclk3(Hertz(1_000)).freeze();
    assert_eq!(clocks.sys_ck(), Hertz(200_000_000));
    assert_eq!(clocks.hclk1(), Hertz(200_000_000));
    assert_eq!(clocks.d1ppre(), 16);
    assert_eq!(clocks.pclk3(), Hertz(12_500_000));
    assert!(matches!(writes[2], RegisterWrite::D1Ppre { bits: 0b111 }));
}

#[test]
fn freeze_writes_flash_before_pll_enable_and_switch_last() {
    // Record the order the plan hands the writes out in and check the
    // hazard-free ordering: flash wait states strictly before the PLL is
    // enabled, the system-clock-source switch strictly last.
    let (_, writes) = Rcc::new().cfgr.sys_ck(6, 75, 2).freeze();
    let mut order: Vec<&'static str> = Vec::new();
    for w in &writes {
        order.push(match w {
            RegisterWrite::FlashAcr { .. } => "flash",
            RegisterWrite::PllEnable => "pll_enable",
            RegisterWrite::SysClockSource { .. } => "switch",
            _ => "other",
        });
    }
    let flash_at = order.iter().position(|s| *s == "flash").unwrap();
    let pll_at = order.iter().position(|s| *s == "pll_enable").unwrap();
    let switch_at = order.iter().position(|s| *s == "switch").unwrap();
    assert!(flash_at < pll_at);
    assert_eq!(switch_at, order.len() - 1);
    assert_eq!(order.iter().filter(|s| **s == "switch").count(), 1);
}

#[test]
fn explicit_ahb_request_drives_the_prescaler() {
    // sys = 200 MHz with an explicit 100 MHz AHB request: divide by two.
    let (clocks, _) = Rcc::new().cfgr.sys_ck(8, 50, 2).hclk1(mhz(100)).freeze();
    assert_eq!(clocks.hclk1(), Hertz(100_000_000));
    assert_eq!(clocks.hpre(), 2);
    // The APB domains then default to the AHB clock.
    assert_eq!(clocks.pclk1(), Hertz(100_000_000));
}

#[test]
fn try_freeze_rejects_requests_the_hardware_tables_cannot_express() {
    // An AHB request above the system clock has no prescaler ratio.
    assert!(Rcc::new().cfgr.hclk1(Hertz(100_000_000)).try_freeze().is_none());
    // A zero-frequency request divides by zero.
    assert!(Rcc::new().cfgr.hclk1(Hertz(0)).try_freeze().is_none());
    // A resolved core clock above 225 MHz has no flash wait-state band:
    // (8, 57, 2) yields 228 MHz, below the 240 MHz halving threshold.
    assert!(Rcc::new().cfgr.sys_ck(8, 57, 2).try_freeze().is_none());
    // An APB request above the AHB clock has no prescaler ratio either.
    assert!(Rcc::new().cfgr.pclk2(Hertz(100_000_000)).try_freeze().is_none());
    // A well-formed request freezes to the same outcome as `freeze`.
    let (clocks, writes) = Rcc::new().cfgr.sys_ck(6, 75, 2).try_freeze().unwrap();
    let (clocks2, writes2) = Rcc::new().cfgr.sys_ck(6, 75, 2).freeze();
    assert_eq!(clocks, clocks2);
    assert_eq!(writes, writes2);
}

#[test]
fn pll_triple_producing_the_oscillator_frequency_still_uses_the_pll() {
    // (5, 20, 4) produces exactly 64 MHz.  Presence of a configured
    // triple decides the clock source, not its value: the full PLL
    // sequence is emitted and the switch targets the PLL output.
    let (clocks, writes) = Rcc::new().cfgr.sys_ck(5, 20, 4).freeze();
    assert_eq!(clocks.sys_ck(), Hertz(64_000_000));
    assert_eq!(writes.len(), 15);
    assert!(matches!(writes[6], RegisterWrite::PllDivN { value: 20 }));
    assert!(matches!(writes[7], RegisterWrite::PllDivM { bits: 5 }));
    assert!(matches!(writes[13], RegisterWrite::PllEnable));
    assert!(matches!(writes[14], RegisterWrite::SysClockSource { bits: 0b011 }));
}
