//! Reset and clock control: the staged clock-configuration builder, the
//! prescaler and wait-state lookup tables, and the frozen `Clocks` snapshot.
//!
//! `CFGR` accumulates requested bus frequencies and an optional PLL divider
//! triple.  Its terminal `freeze` operation resolves every derived frequency
//! and register code and returns, next to the `Clocks` snapshot, the exact
//! sequence of register writes in their hazard-free order: flash wait states
//! first, bus prescalers next, the PLL chain after that, and the
//! system-clock-source switch strictly last.

use vstd::prelude::*;

use crate::HSI;
use crate::convert::{narrow_u16, narrow_u8};
use crate::pll::{pll_legal, pll_output, pll_ref_clk};
use crate::time::Hertz;

verus! {

/// AMBA high-performance bus 1 register handle.
pub struct AHB1 {
    _p: (),
}

/// AMBA high-performance bus 2 register handle.
pub struct AHB2 {
    _p: (),
}

/// AMBA high-performance bus 3 register handle.
pub struct AHB3 {
    _p: (),
}

/// AMBA high-performance bus 4 register handle.
pub struct AHB4 {
    _p: (),
}

/// Advanced peripheral bus 1 (low) register handle.
pub struct APB1L {
    _p: (),
}

/// Advanced peripheral bus 1 (high) register handle.
pub struct APB1H {
    _p: (),
}

/// Advanced peripheral bus 2 register handle.
pub struct APB2 {
    _p: (),
}

/// Advanced peripheral bus 3 register handle.
pub struct APB3 {
    _p: (),
}

/// Advanced peripheral bus 4 register handle.
pub struct APB4 {
    _p: (),
}

/// The state a clock-configuration builder has accumulated.
pub ghost struct CfgrView {
    pub hclk1: Option<u32>,
    pub hclk2: Option<u32>,
    pub hclk3: Option<u32>,
    pub hclk4: Option<u32>,
    pub pclk1: Option<u32>,
    pub pclk2: Option<u32>,
    pub pclk3: Option<u32>,
    pub pclk4: Option<u32>,
    pub sys_ck: Option<u32>,
    pub divm: Option<u32>,
    pub divn: Option<u32>,
    pub divp: Option<u32>,
}

/// Clock configuration builder.  Requests accumulate until `freeze`
/// consumes the builder; afterwards no further change is possible.
pub struct CFGR {
    hclk1: Option<u32>,
    hclk2: Option<u32>,
    hclk3: Option<u32>,
    hclk4: Option<u32>,
    pclk1: Option<u32>,
    pclk2: Option<u32>,
    pclk3: Option<u32>,
    pclk4: Option<u32>,
    sys_ck: Option<u32>,
    divm: Option<u32>,
    divn: Option<u32>,
    divp: Option<u32>,
}

impl View for CFGR {
    type V = CfgrView;

    closed spec fn view(&self) -> CfgrView {
        CfgrView {
            hclk1: self.hclk1,
            hclk2: self.hclk2,
            hclk3: self.hclk3,
            hclk4: self.hclk4,
            pclk1: self.pclk1,
            pclk2: self.pclk2,
            pclk3: self.pclk3,
            pclk4: self.pclk4,
            sys_ck: self.sys_ck,
            divm: self.divm,
            divn: self.divn,
            divp: self.divp,
        }
    }
}

/// Constrained clock-control peripheral: the bus register handles and the
/// clock-configuration builder.
pub struct Rcc {
    /// AMBA high-performance bus 1 registers.
    pub ahb1: AHB1,
    /// AMBA high-performance bus 2 registers.
    pub ahb2: AHB2,
    /// AMBA high-performance bus 3 registers.
    pub ahb3: AHB3,
    /// AMBA high-performance bus 4 registers.
    pub ahb4: AHB4,
    /// Advanced peripheral bus 1 (low) registers.
    pub apb1l: APB1L,
    /// Advanced peripheral bus 1 (high) registers.
    pub apb1h: APB1H,
    /// Advanced peripheral bus 2 registers.
    pub apb2: APB2,
    /// Advanced peripheral bus 3 registers.
    pub apb3: APB3,
    /// Advanced peripheral bus 4 registers.
    pub apb4: APB4,
    /// Clock configuration builder.
    pub cfgr: CFGR,
}

/// Extension trait that constrains a raw clock-control peripheral into an
/// [`Rcc`] value; the layer that owns the register block implements it.
pub trait RccExt {
    /// Consumes the raw peripheral and hands out the constrained handles.
    fn constrain(self) -> Rcc;
}

impl Rcc {
    /// Builds the constrained peripheral with an empty configuration.
    pub fn new() -> (r: Rcc)
        ensures
            r.cfgr@ == (CfgrView {
                hclk1: None,
                hclk2: None,
                hclk3: None,
                hclk4: None,
                pclk1: None,
                pclk2: None,
                pclk3: None,
                pclk4: None,
                sys_ck: None,
                divm: None,
                divn: None,
                divp: None,
            }),
    {
        Rcc {
            ahb1: AHB1 { _p: () },
            ahb2: AHB2 { _p: () },
            ahb3: AHB3 { _p: () },
            ahb4: AHB4 { _p: () },
            apb1l: APB1L { _p: () },
            apb1h: APB1H { _p: () },
            apb2: APB2 { _p: () },
            apb3: APB3 { _p: () },
            apb4: APB4 { _p: () },
            cfgr: CFGR {
                hclk1: None,
                hclk2: None,
                hclk3: None,
                hclk4: None,
                pclk1: None,
                pclk2: None,
                pclk3: None,
                pclk4: None,
                sys_ck: None,
                divm: None,
                divn: None,
                divp: None,
            },
        }
    }
}

// ------------------------------------------------------------------
// Prescaler and wait-state lookup tables
// ------------------------------------------------------------------

/// Register code of the AHB prescaler for a requested division ratio.
pub open spec fn hpre_code(ratio: int) -> u8 {
    if ratio <= 1 {
        0b0111
    } else if ratio == 2 {
        0b1000
    } else if ratio <= 5 {
        0b1001
    } else if ratio <= 9 {
        0b1010
    } else if ratio <= 16 {
        0b1011
    } else if ratio <= 64 {
        0b1100
    } else if ratio <= 128 {
        0b1101
    } else if ratio <= 256 {
        0b1110
    } else {
        0b1111
    }
}

/// Division the AHB prescaler actually performs for a requested ratio:
/// two to the power of the code's distance from the pass-through code.
pub open spec fn hpre_divisor(ratio: int) -> int {
    if ratio <= 1 {
        1
    } else if ratio == 2 {
        2
    } else if ratio <= 5 {
        4
    } else if ratio <= 9 {
        8
    } else if ratio <= 16 {
        16
    } else if ratio <= 64 {
        32
    } else if ratio <= 128 {
        64
    } else if ratio <= 256 {
        128
    } else {
        256
    }
}

/// Register code of an APB prescaler for a requested division ratio.
pub open spec fn ppre_code(ratio: int) -> u8 {
    if ratio <= 1 {
        0b011
    } else if ratio == 2 {
        0b100
    } else if ratio <= 4 {
        0b101
    } else if ratio <= 8 {
        0b110
    } else {
        0b111
    }
}

/// Division an APB prescaler actually performs for a requested ratio.
pub open spec fn ppre_divisor(ratio: int) -> int {
    if ratio <= 1 {
        1
    } else if ratio == 2 {
        2
    } else if ratio <= 4 {
        4
    } else if ratio <= 8 {
        8
    } else {
        16
    }
}

/// Flash wait-state pair (latency, programming delay) for a core-clock
/// frequency, in 45 MHz bands, for the default voltage scale.
pub open spec fn flash_acr(hclk: int) -> (u8, u8) {
    if hclk <= 45_000_000 {
        (0u8, 0u8)
    } else if hclk <= 90_000_000 {
        (1u8, 1u8)
    } else if hclk <= 135_000_000 {
        (2u8, 1u8)
    } else if hclk <= 180_000_000 {
        (3u8, 2u8)
    } else {
        (4u8, 2u8)
    }
}

/// Register code of the PLL reference-input frequency range.
pub open spec fn pll_rge_code(ref_clk: int) -> u8 {
    if ref_clk <= 2_000_000 {
        0b00
    } else if ref_clk <= 4_000_000 {
        0b01
    } else if ref_clk <= 8_000_000 {
        0b10
    } else {
        0b11
    }
}

/// Looks up the AHB prescaler: returns the register code and the division
/// the hardware will actually perform for it.
pub fn hpre_encode(ratio: u32) -> (r: (u8, u32))
    requires
        ratio >= 1,
    ensures
        r.0 == hpre_code(ratio as int),
        r.1 == hpre_divisor(ratio as int),
{
    if ratio <= 1 {
        (0b0111, 1)
    } else if ratio == 2 {
        (0b1000, 2)
    } else if ratio <= 5 {
        (0b1001, 4)
    } else if ratio <= 9 {
        (0b1010, 8)
    } else if ratio <= 16 {
        (0b1011, 16)
    } else if ratio <= 64 {
        (0b1100, 32)
    } else if ratio <= 128 {
        (0b1101, 64)
    } else if ratio <= 256 {
        (0b1110, 128)
    } else {
        (0b1111, 256)
    }
}

/// Looks up an APB prescaler: returns the register code and the division
/// the hardware will actually perform for it.
pub fn ppre_encode(ratio: u32) -> (r: (u8, u32))
    requires
        ratio >= 1,
    ensures
        r.0 == ppre_code(ratio as int),
        r.1 == ppre_divisor(ratio as int),
{
    if ratio <= 1 {
        (0b011, 1)
    } else if ratio == 2 {
        (0b100, 2)
    } else if ratio <= 4 {
        (0b101, 4)
    } else if ratio <= 8 {
        (0b110, 8)
    } else {
        (0b111, 16)
    }
}

/// Looks up the flash wait-state pair for a core-clock frequency.
pub fn flash_wait_states(hclk: u32) -> (r: (u8, u8))
    requires
        hclk <= 225_000_000,
    ensures
        r == flash_acr(hclk as int),
{
    if hclk <= 45_000_000 {
        (0, 0)
    } else if hclk <= 90_000_000 {
        (1, 1)
    } else if hclk <= 135_000_000 {
        (2, 1)
    } else if hclk <= 180_000_000 {
        (3, 2)
    } else {
        (4, 2)
    }
}

/// Looks up the PLL reference-input range code.
pub fn pll_rge_encode(ref_clk: u32) -> (r: u8)
    requires
        1_000_000 <= ref_clk <= 16_000_000,
    ensures
        r == pll_rge_code(ref_clk as int),
{
    if ref_clk <= 2_000_000 {
        0b00
    } else if ref_clk <= 4_000_000 {
        0b01
    } else if ref_clk <= 8_000_000 {
        0b10
    } else {
        0b11
    }
}

// ------------------------------------------------------------------
// Resolution pipeline
// ------------------------------------------------------------------

/// PLL reference divider, falling back to the hardware reset value.
pub open spec fn divm_of(v: CfgrView) -> int {
    match v.divm {
        Some(m) => m as int,
        None => 0b100000,
    }
}

/// PLL feedback multiplier, falling back to the hardware reset value.
pub open spec fn divn_of(v: CfgrView) -> int {
    match v.divn {
        Some(n) => n as int,
        None => 0x080,
    }
}

/// PLL output divider, falling back to the hardware reset value.
pub open spec fn divp_of(v: CfgrView) -> int {
    match v.divp {
        Some(p) => p as int,
        None => 1,
    }
}

/// The system-clock frequency the request resolves to.
pub open spec fn resolved_sys_ck(v: CfgrView) -> int {
    match v.sys_ck {
        Some(s) => s as int,
        None => HSI as int,
    }
}

/// The PLL drives the system clock exactly when a divider triple was
/// configured - presence decides, not the value, so a triple that happens
/// to produce the oscillator's own frequency still runs through the PLL.
pub open spec fn uses_pll(v: CfgrView) -> bool {
    v.sys_ck is Some
}

/// The AHB frequency the caller asked for: the first explicit AHB request
/// wins; with none, the system clock, halved above 240 MHz.
pub open spec fn requested_hclk(v: CfgrView) -> int {
    match v.hclk1 {
        Some(h) => h as int,
        None => match v.hclk2 {
            Some(h) => h as int,
            None => match v.hclk3 {
                Some(h) => h as int,
                None => match v.hclk4 {
                    Some(h) => h as int,
                    None => if resolved_sys_ck(v) > 240_000_000 {
                        resolved_sys_ck(v) / 2
                    } else {
                        resolved_sys_ck(v)
                    },
                },
            },
        },
    }
}

/// Ratio fed into the AHB prescaler table.
pub open spec fn hclk_ratio(v: CfgrView) -> int {
    resolved_sys_ck(v) / requested_hclk(v)
}

/// The AHB frequency actually achieved, re-derived from the prescaler code.
pub open spec fn resolved_hclk(v: CfgrView) -> int {
    resolved_sys_ck(v) / hpre_divisor(hclk_ratio(v))
}

/// The APB frequency a domain asks for, defaulting to the AHB clock.
pub open spec fn requested_pclk(req: Option<u32>, hclk: int) -> int {
    match req {
        Some(p) => p as int,
        None => hclk,
    }
}

/// The APB frequency a domain actually gets, re-derived from its code.
pub open spec fn resolved_pclk(req: Option<u32>, hclk: int) -> int {
    hclk / ppre_divisor(hclk / requested_pclk(req, hclk))
}

/// The builder's PLL bookkeeping is consistent: the divider triple and the
/// stored system-clock frequency exist together, the triple satisfies every
/// analog constraint, and the stored frequency is the one it produces.
pub open spec fn cfgr_wf(v: CfgrView) -> bool {
    match (v.sys_ck, v.divm, v.divn, v.divp) {
        (Some(s), Some(m), Some(n), Some(p)) => pll_legal(m as int, n as int, p as int) && s as int
            == pll_output(m as int, n as int, p as int),
        (None, None, None, None) => true,
        _ => false,
    }
}

/// The derived ratios stay inside what the hardware tables and register
/// fields can express; outside this the original configuration sequence
/// has no defined outcome.
pub open spec fn freeze_ok(v: CfgrView) -> bool {
    let sys = resolved_sys_ck(v);
    let hreq = requested_hclk(v);
    let hclk = resolved_hclk(v);
    &&& 0 < hreq <= sys
    &&& sys / hreq <= 256
    &&& 0 < hclk <= 225_000_000
    &&& (v.pclk1 matches Some(p) ==> 0 < p <= hclk)
    &&& (v.pclk2 matches Some(p) ==> 0 < p <= hclk)
    &&& (v.pclk3 matches Some(p) ==> 0 < p <= hclk)
    &&& (v.pclk4 matches Some(p) ==> 0 < p <= hclk)
}

// ------------------------------------------------------------------
// The freeze plan
// ------------------------------------------------------------------

/// One register write of the freeze sequence.  The writes must reach the
/// hardware in the order they appear in the plan.  `PllEnable` sets the PLL
/// on-bit and the executor must then poll its ready flag; `SysClockSource`
/// selects the system-clock source and the executor must poll the status
/// field until it reads the selected value back.
#[derive(Clone, Copy, Debug, PartialEq, Eq, Structural)]
pub enum RegisterWrite {
    /// Flash access control: wait-state latency and programming delay.
    FlashAcr { latency: u8, wrhighfreq: u8 },
    /// AHB prescaler code.
    Hpre { bits: u8 },
    /// APB3 prescaler code.
    D1Ppre { bits: u8 },
    /// APB1 and APB2 prescaler codes, one register write.
    D2Ppre { ppre1: u8, ppre2: u8 },
    /// APB4 prescaler code.
    D3Ppre { bits: u8 },
    /// PLL source select; zero selects the internal oscillator.
    PllSource { bits: u8 },
    /// PLL feedback divider field.
    PllDivN { value: u16 },
    /// PLL reference divider field.
    PllDivM { bits: u8 },
    /// Enable the PLL's P output divider.
    PllDivPEnable,
    /// Clear the PLL fractional-mode enable bit.
    PllFracDisable,
    /// PLL reference-input frequency-range code.
    PllInputRange { bits: u8 },
    /// PLL wide/medium VCO select; set when the reference clock is below
    /// 2 MHz.
    PllVcoSel { low_range: bool },
    /// PLL output divider field.
    PllDivP { bits: u8 },
    /// Set the PLL on-bit, then poll the ready flag.
    PllEnable,
    /// Select the system-clock source, then poll the read-back status.
    SysClockSource { bits: u8 },
}

/// The register writes `freeze` emits, in order: flash wait states first,
/// prescalers next, then - when the PLL drives the system clock - the PLL
/// chain, and the source switch strictly last.
pub open spec fn freeze_plan(v: CfgrView) -> Seq<RegisterWrite> {
    let hclk = resolved_hclk(v);
    let head = seq![
        RegisterWrite::FlashAcr { latency: flash_acr(hclk).0, wrhighfreq: flash_acr(hclk).1 },
        RegisterWrite::Hpre { bits: hpre_code(hclk_ratio(v)) },
        RegisterWrite::D1Ppre { bits: ppre_code(hclk / requested_pclk(v.pclk3, hclk)) },
        RegisterWrite::D2Ppre {
            ppre1: ppre_code(hclk / requested_pclk(v.pclk1, hclk)),
            ppre2: ppre_code(hclk / requested_pclk(v.pclk2, hclk)),
        },
        RegisterWrite::D3Ppre { bits: ppre_code(hclk / requested_pclk(v.pclk4, hclk)) },
    ];
    if uses_pll(v) {
        head + seq![
            RegisterWrite::PllSource { bits: 0b00 },
            RegisterWrite::PllDivN { value: divn_of(v) as u16 },
            RegisterWrite::PllDivM { bits: divm_of(v) as u8 },
            RegisterWrite::PllDivPEnable,
            RegisterWrite::PllDivP { bits: divp_of(v) as u8 },
            RegisterWrite::PllInputRange { bits: pll_rge_code(pll_ref_clk(divm_of(v))) },
            RegisterWrite::PllVcoSel { low_range: pll_ref_clk(divm_of(v)) < 2_000_000 },
            RegisterWrite::PllFracDisable,
            RegisterWrite::PllEnable,
            RegisterWrite::SysClockSource { bits: 0b011 },
        ]
    } else {
        head + seq![RegisterWrite::SysClockSource { bits: 0b000 }]
    }
}

// ------------------------------------------------------------------
// The frozen snapshot
// ------------------------------------------------------------------

/// The resolved frequencies and division factors of a frozen configuration.
pub ghost struct ClocksView {
    pub sys_ck: u32,
    pub hclk1: u32,
    pub hclk2: u32,
    pub hclk3: u32,
    pub hclk4: u32,
    pub pclk1: u32,
    pub pclk2: u32,
    pub pclk3: u32,
    pub pclk4: u32,
    pub hpre: u8,
    pub d1ppre: u8,
    pub d2ppre1: u8,
    pub d2ppre2: u8,
    pub d3ppre: u8,
}

/// The snapshot a request resolves to.
pub open spec fn clocks_spec(v: CfgrView) -> ClocksView {
    let sys = resolved_sys_ck(v);
    let hclk = resolved_hclk(v);
    ClocksView {
        sys_ck: sys as u32,
        hclk1: hclk as u32,
        hclk2: hclk as u32,
        hclk3: hclk as u32,
        hclk4: hclk as u32,
        pclk1: resolved_pclk(v.pclk1, hclk) as u32,
        pclk2: resolved_pclk(v.pclk2, hclk) as u32,
        pclk3: resolved_pclk(v.pclk3, hclk) as u32,
        pclk4: resolved_pclk(v.pclk4, hclk) as u32,
        hpre: hpre_divisor(hclk_ratio(v)) as u8,
        d1ppre: ppre_divisor(hclk / requested_pclk(v.pclk3, hclk)) as u8,
        d2ppre1: ppre_divisor(hclk / requested_pclk(v.pclk1, hclk)) as u8,
        d2ppre2: ppre_divisor(hclk / requested_pclk(v.pclk2, hclk)) as u8,
        d3ppre: ppre_divisor(hclk / requested_pclk(v.pclk4, hclk)) as u8,
    }
}

/// Frozen clock frequencies.
///
/// The existence of this value indicates that the clock configuration can
/// no longer be changed.
#[derive(Clone, Copy, Debug, PartialEq, Eq, Structural)]
pub struct Clocks {
    sys_ck: Hertz,
    pclk1: Hertz,
    pclk2: Hertz,
    pclk3: Hertz,
    pclk4: Hertz,
    hclk1: Hertz,
    hclk2: Hertz,
    hclk3: Hertz,
    hclk4: Hertz,
    hpre: u8,
    d1ppre: u8,
    d2ppre1: u8,
    d2ppre2: u8,
    d3ppre: u8,
}

impl View for Clocks {
    type V = ClocksView;

    closed spec fn view(&self) -> ClocksView {
        ClocksView {
            sys_ck: self.sys_ck.0,
            hclk1: self.hclk1.0,
            hclk2: self.hclk2.0,
            hclk3: self.hclk3.0,
            hclk4: self.hclk4.0,
            pclk1: self.pclk1.0,
            pclk2: self.pclk2.0,
            pclk3: self.pclk3.0,
            pclk4: self.pclk4.0,
            hpre: self.hpre,
            d1ppre: self.d1ppre,
            d2ppre1: self.d2ppre1,
            d2ppre2: self.d2ppre2,
            d3ppre: self.d3ppre,
        }
    }
}

impl Clocks {
    /// Resolved system-clock frequency.
    pub fn sys_ck(&self) -> (r: Hertz)
        ensures
            r.0 == self@.sys_ck,
    {
        self.sys_ck
    }

    /// Resolved APB1 frequency.
    pub fn pclk1(&self) -> (r: Hertz)
        ensures
            r.0 == self@.pclk1,
    {
        self.pclk1
    }

    /// Resolved APB2 frequency.
    pub fn pclk2(&self) -> (r: Hertz)
        ensures
            r.0 == self@.pclk2,
    {
        self.pclk2
    }

    /// Resolved APB3 frequency.
    pub fn pclk3(&self) -> (r: Hertz)
        ensures
            r.0 == self@.pclk3,
    {
        self.pclk3
    }

    /// Resolved APB4 frequency.
    pub fn pclk4(&self) -> (r: Hertz)
        ensures
            r.0 == self@.pclk4,
    {
        self.pclk4
    }

    /// Resolved AHB1 frequency.
    pub fn hclk1(&self) -> (r: Hertz)
        ensures
            r.0 == self@.hclk1,
    {
        self.hclk1
    }

    /// Resolved AHB2 frequency.
    pub fn hclk2(&self) -> (r: Hertz)
        ensures
            r.0 == self@.hclk2,
    {
        self.hclk2
    }

    /// Resolved AHB3 frequency.
    pub fn hclk3(&self) -> (r: Hertz)
        ensures
            r.0 == self@.hclk3,
    {
        self.hclk3
    }

    /// Resolved AHB4 frequency.
    pub fn hclk4(&self) -> (r: Hertz)
        ensures
            r.0 == self@.hclk4,
    {
        self.hclk4
    }

    /// Division the AHB prescaler performs.
    pub fn hpre(&self) -> (r: u8)
        ensures
            r == self@.hpre,
    {
        self.hpre
    }

    /// Division the APB3 prescaler performs.
    pub fn d1ppre(&self) -> (r: u8)
        ensures
            r == self@.d1ppre,
    {
        self.d1ppre
    }

    /// Division the APB1 prescaler performs.
    pub fn d2ppre1(&self) -> (r: u8)
        ensures
            r == self@.d2ppre1,
    {
        self.d2ppre1
    }

    /// Division the APB2 prescaler performs.
    pub fn d2ppre2(&self) -> (r: u8)
        ensures
            r == self@.d2ppre2,
    {
        self.d2ppre2
    }

    /// Division the APB4 prescaler performs.
    pub fn d3ppre(&self) -> (r: u8)
        ensures
            r == self@.d3ppre,
    {
        self.d3ppre
    }
}

// ------------------------------------------------------------------
// The builder
// ------------------------------------------------------------------

impl CFGR {
    /// Requests a frequency for the AHB1 bus.
    pub fn hclk1(self, freq: Hertz) -> (r: Self)
        ensures
            r@ == (CfgrView { hclk1: Some(freq.0), ..self@ }),
    {
        Self { hclk1: Some(freq.0), ..self }
    }

    /// Requests a frequency for the AHB2 bus.
    pub fn hclk2(self, freq: Hertz) -> (r: Self)
        ensures
            r@ == (CfgrView { hclk2: Some(freq.0), ..self@ }),
    {
        Self { hclk2: Some(freq.0), ..self }
    }

    /// Requests a frequency for the AHB3 bus.
    pub fn hclk3(self, freq: Hertz) -> (r: Self)
        ensures
            r@ == (CfgrView { hclk3: Some(freq.0), ..self@ }),
    {
        Self { hclk3: Some(freq.0), ..self }
    }

    /// Requests a frequency for the AHB4 bus.
    pub fn hclk4(self, freq: Hertz) -> (r: Self)
        ensures
            r@ == (CfgrView { hclk4: Some(freq.0), ..self@ }),
    {
        Self { hclk4: Some(freq.0), ..self }
    }

    /// Requests a frequency for the APB1 bus.
    pub fn pclk1(self, freq: Hertz) -> (r: Self)
        ensures
            r@ == (CfgrView { pclk1: Some(freq.0), ..self@ }),
    {
        Self { pclk1: Some(freq.0), ..self }
    }

    /// Requests a frequency for the APB2 bus.
    pub fn pclk2(self, freq: Hertz) -> (r: Self)
        ensures
            r@ == (CfgrView { pclk2: Some(freq.0), ..self@ }),
    {
        Self { pclk2: Some(freq.0), ..self }
    }

    /// Requests a frequency for the APB3 bus.
    pub fn pclk3(self, freq: Hertz) -> (r: Self)
        ensures
            r@ == (CfgrView { pclk3: Some(freq.0), ..self@ }),
    {
        Self { pclk3: Some(freq.0), ..self }
    }

    /// Requests a frequency for the APB4 bus.
    pub fn pclk4(self, freq: Hertz) -> (r: Self)
        ensures
            r@ == (CfgrView { pclk4: Some(freq.0), ..self@ }),
    {
        Self { pclk4: Some(freq.0), ..self }
    }

    /// Records the PLL divider triple used to generate the system clock,
    /// for example one found by
    /// [`search_best_pll_config`](crate::pll::search_best_pll_config).
    /// The triple must satisfy every analog constraint of the PLL chain.
    pub fn sys_ck(self, divm: u32, divn: u32, divp: u32) -> (r: Self)
        requires
            pll_legal(divm as int, divn as int, divp as int),
        ensures
            r@ == (CfgrView {
                sys_ck: Some(pll_output(divm as int, divn as int, divp as int) as u32),
                divm: Some(divm),
                divn: Some(divn),
                divp: Some(divp),
                ..self@
            }),
    {
        let ref_ck = HSI / divm;
        let pll_p_ck = (ref_ck * divn) / divp;
        Self {
            divm: Some(divm),
            divn: Some(divn),
            divp: Some(divp),
            sys_ck: Some(pll_p_ck),
            ..self
        }
    }

    /// Freezes the clock configuration: resolves every bus frequency and
    /// prescaler code, and returns the frozen snapshot together with the
    /// register writes that make it effective, in their hazard-free order.
    pub fn freeze(self) -> (r: (Clocks, Vec<RegisterWrite>))
        requires
            cfgr_wf(self@),
            freeze_ok(self@),
        ensures
            r.0@ == clocks_spec(self@),
            r.1@ == freeze_plan(self@),
    {
        let pll_in_use = self.sys_ck.is_some();
        let mut sys_ck = match self.sys_ck {
            Some(s) => s,
            None => HSI,
        };
        if pll_in_use {
            let divm = match self.divm {
                Some(m) => m,
                None => 0b100000,
            };
            let divn = match self.divn {
                Some(n) => n,
                None => 0x080,
            };
            let divp = match self.divp {
                Some(p) => p,
                None => 1,
            };
            let frequency = ((HSI / divm) * divn) / divp;
            sys_ck = frequency;
        }
        proof {
            assert(sys_ck as int == resolved_sys_ck(self@));
            assert(pll_in_use == uses_pll(self@));
        }

        // The four AHB domains share one prescaler; the first explicit
        // request wins, the system clock (halved above 240 MHz) is the
        // fallback.
        let hclk_req = match self.hclk1 {
            Some(h) => h,
            None => match self.hclk2 {
                Some(h) => h,
                None => match self.hclk3 {
                    Some(h) => h,
                    None => match self.hclk4 {
                        Some(h) => h,
                        None => if sys_ck > 240_000_000 {
                            sys_ck / 2
                        } else {
                            sys_ck
                        },
                    },
                },
            },
        };
        proof {
            assert(hclk_req as int == requested_hclk(self@));
        }
        proof {
            vstd::arithmetic::div_mod::lemma_div_non_zero(sys_ck as int, hclk_req as int);
        }
        let ratio = sys_ck / hclk_req;
        let (hpre_bits, hpre_div) = hpre_encode(ratio);
        let hclk = sys_ck / hpre_div;
        proof {
            assert(hclk as int == resolved_hclk(self@));
        }

        // Flash wait states for the resolved core clock.
        let acr_config = flash_wait_states(hclk);

        // APB prescalers, each re-deriving the frequency its code yields.
        let pclk3_req = match self.pclk3 {
            Some(p) => p,
            None => hclk,
        };
        proof {
            vstd::arithmetic::div_mod::lemma_div_non_zero(hclk as int, pclk3_req as int);
        }
        let (d1ppre_bits, d1ppre_div) = ppre_encode(hclk / pclk3_req);
        let pclk3 = hclk / d1ppre_div;

        let pclk1_req = match self.pclk1 {
            Some(p) => p,
            None => hclk,
        };
        proof {
            vstd::arithmetic::div_mod::lemma_div_non_zero(hclk as int, pclk1_req as int);
        }
        let (d2ppre1_bits, d2ppre1_div) = ppre_encode(hclk / pclk1_req);
        let pclk1 = hclk / d2ppre1_div;

        let pclk2_req = match self.pclk2 {
            Some(p) => p,
            None => hclk,
        };
        proof {
            vstd::arithmetic::div_mod::lemma_div_non_zero(hclk as int, pclk2_req as int);
        }
        let (d2ppre2_bits, d2ppre2_div) = ppre_encode(hclk / pclk2_req);
        let pclk2 = hclk / d2ppre2_div;

        let pclk4_req = match self.pclk4 {
            Some(p) => p,
            None => hclk,
        };
        proof {
            vstd::arithmetic::div_mod::lemma_div_non_zero(hclk as int, pclk4_req as int);
        }
        let (d3ppre_bits, d3ppre_div) = ppre_encode(hclk / pclk4_req);
        let pclk4 = hclk / d3ppre_div;

        let mut writes: Vec<RegisterWrite> = Vec::new();
        writes.push(
            RegisterWrite::FlashAcr { latency: acr_config.0, wrhighfreq: acr_config.1 },
        );
        writes.push(RegisterWrite::Hpre { bits: hpre_bits });
        writes.push(RegisterWrite::D1Ppre { bits: d1ppre_bits });
        writes.push(RegisterWrite::D2Ppre { ppre1: d2ppre1_bits, ppre2: d2ppre2_bits });
        writes.push(RegisterWrite::D3Ppre { bits: d3ppre_bits });

        if pll_in_use {
            let divm = match self.divm {
                Some(m) => m,
                None => 0b100000,
            };
            let divn = match self.divn {
                Some(n) => n,
                None => 0x080,
            };
            let divp = match self.divp {
                Some(p) => p,
                None => 1,
            };
            writes.push(RegisterWrite::PllSource { bits: 0b00 });
            writes.push(RegisterWrite::PllDivN { value: narrow_u16(divn) });
            writes.push(RegisterWrite::PllDivM { bits: narrow_u8(divm) });
            writes.push(RegisterWrite::PllDivPEnable);
            writes.push(RegisterWrite::PllDivP { bits: narrow_u8(divp) });
            let ref_ck = HSI / divm;
            writes.push(RegisterWrite::PllInputRange { bits: pll_rge_encode(ref_ck) });
            writes.push(RegisterWrite::PllVcoSel { low_range: ref_ck < 2_000_000 });
            writes.push(RegisterWrite::PllFracDisable);
            writes.push(RegisterWrite::PllEnable);
            writes.push(RegisterWrite::SysClockSource { bits: 0b011 });
        } else {
            writes.push(RegisterWrite::SysClockSource { bits: 0b000 });
        }

        let clocks = Clocks {
            sys_ck: Hertz(sys_ck),
            hclk1: Hertz(hclk),
            hclk2: Hertz(hclk),
            hclk3: Hertz(hclk),
            hclk4: Hertz(hclk),
            pclk1: Hertz(pclk1),
            pclk2: Hertz(pclk2),
            pclk3: Hertz(pclk3),
            pclk4: Hertz(pclk4),
            hpre: narrow_u8(hpre_div),
            d1ppre: narrow_u8(d1ppre_div),
            d2ppre1: narrow_u8(d2ppre1_div),
            d2ppre2: narrow_u8(d2ppre2_div),
            d3ppre: narrow_u8(d3ppre_div),
        };
        proof {
            assert(clocks@ == clocks_spec(self@));
            assert(writes@ =~= freeze_plan(self@));
        }
        (clocks, writes)
    }

    /// Checks the derived-ratio conditions `freeze` relies on and freezes
    /// only when they hold; returns `None` - where the original
    /// configuration sequence had no defined outcome - instead of
    /// requiring the caller to establish them.
    pub fn try_freeze(self) -> (r: Option<(Clocks, Vec<RegisterWrite>)>)
        requires
            cfgr_wf(self@),
        ensures
            match r {
                Some(t) => freeze_ok(self@) && t.0@ == clocks_spec(self@) && t.1@ == freeze_plan(
                    self@,
                ),
                None => !freeze_ok(self@),
            },
    {
        let mut sys_ck = match self.sys_ck {
            Some(s) => s,
            None => HSI,
        };
        if self.sys_ck.is_some() {
            let divm = match self.divm {
                Some(m) => m,
                None => 0b100000,
            };
            let divn = match self.divn {
                Some(n) => n,
                None => 0x080,
            };
            let divp = match self.divp {
                Some(p) => p,
                None => 1,
            };
            sys_ck = ((HSI / divm) * divn) / divp;
        }
        proof {
            assert(sys_ck as int == resolved_sys_ck(self@));
        }
        let hclk_req = match self.hclk1 {
            Some(h) => h,
            None => match self.hclk2 {
                Some(h) => h,
                None => match self.hclk3 {
                    Some(h) => h,
                    None => match self.hclk4 {
                        Some(h) => h,
                        None => if sys_ck > 240_000_000 {
                            sys_ck / 2
                        } else {
                            sys_ck
                        },
                    },
                },
            },
        };
        proof {
            assert(hclk_req as int == requested_hclk(self@));
        }
        if hclk_req == 0 || hclk_req > sys_ck {
            return None;
        }
        proof {
            vstd::arithmetic::div_mod::lemma_div_non_zero(sys_ck as int, hclk_req as int);
        }
        let ratio = sys_ck / hclk_req;
        if ratio > 256 {
            return None;
        }
        let (_, hpre_div) = hpre_encode(ratio);
        let hclk = sys_ck / hpre_div;
        if hclk == 0 || hclk > 225_000_000 {
            return None;
        }
        let pclk_ok = (match self.pclk1 {
            Some(p) => 0 < p && p <= hclk,
            None => true,
        }) && (match self.pclk2 {
            Some(p) => 0 < p && p <= hclk,
            None => true,
        }) && (match self.pclk3 {
            Some(p) => 0 < p && p <= hclk,
            None => true,
        }) && (match self.pclk4 {
            Some(p) => 0 < p && p <= hclk,
            None => true,
        });
        if !pclk_ok {
            return None;
        }
        Some(self.freeze())
    }
}


// ------------------------------------------------------------------
// Laws of the resolution pipeline
// ------------------------------------------------------------------

/// Freezing two equivalent requests resolves bit-identical snapshots and
/// identical write plans: the outcome of `freeze` is a function of the
/// accumulated request alone.
pub proof fn lemma_freeze_deterministic(a: CfgrView, b: CfgrView)
    requires
        a == b,
    ensures
        clocks_spec(a) == clocks_spec(b),
        freeze_plan(a) == freeze_plan(b),
{
}

/// Raising a requested APB frequency never lowers the frequency the
/// domain resolves to, for a fixed AHB clock.
pub proof fn lemma_resolved_pclk_monotonic(hclk: int, r1: u32, r2: u32)
    requires
        0 < r1 <= r2 <= hclk,
    ensures
        resolved_pclk(Some(r1), hclk) <= resolved_pclk(Some(r2), hclk),
{
    vstd::arithmetic::div_mod::lemma_div_is_ordered_by_denominator(hclk, r1 as int, r2 as int);
    let q1 = hclk / (r1 as int);
    let q2 = hclk / (r2 as int);
    assert(ppre_divisor(q2) <= ppre_divisor(q1));
    vstd::arithmetic::div_mod::lemma_div_is_ordered_by_denominator(
        hclk,
        ppre_divisor(q2),
        ppre_divisor(q1),
    );
}

/// Raising the APB1 request never lowers the APB1 frequency in the
/// frozen snapshot, for requests within range and an otherwise identical
/// configuration; the other bus domains behave the same way.
pub proof fn lemma_clocks_pclk1_monotonic(v1: CfgrView, v2: CfgrView, r1: u32, r2: u32)
    requires
        v1.pclk1 == Some(r1),
        v2 == (CfgrView { pclk1: Some(r2), ..v1 }),
        0 < r1 <= r2 <= resolved_hclk(v1),
    ensures
        clocks_spec(v1).pclk1 <= clocks_spec(v2).pclk1,
{
    let hclk = resolved_hclk(v1);
    // The AHB resolution path does not read the APB1 request.
    assert(resolved_hclk(v2) == hclk);
    lemma_resolved_pclk_monotonic(hclk, r1, r2);
    let d1 = ppre_divisor(hclk / (r1 as int));
    let d2 = ppre_divisor(hclk / (r2 as int));
    // Both resolved frequencies lie in [0, hclk], so the casts into the
    // snapshot's fields keep their order.
    vstd::arithmetic::div_mod::lemma_div_pos_is_pos(hclk, d1);
    vstd::arithmetic::div_mod::lemma_div_pos_is_pos(hclk, d2);
    vstd::arithmetic::div_mod::lemma_div_is_ordered_by_denominator(hclk, 1, d1);
    vstd::arithmetic::div_mod::lemma_div_is_ordered_by_denominator(hclk, 1, d2);
}

/// Raising a requested AHB frequency never lowers the frequency the AHB
/// domains resolve to, for a fixed system clock: with `r` the winning
/// request, the snapshot's AHB clock is `sys / hpre_divisor(sys / r)`.
pub proof fn lemma_resolved_hclk_monotonic(sys: int, r1: u32, r2: u32)
    requires
        0 < r1 <= r2 <= sys,
    ensures
        sys / hpre_divisor(sys / (r1 as int)) <= sys / hpre_divisor(sys / (r2 as int)),
{
    vstd::arithmetic::div_mod::lemma_div_is_ordered_by_denominator(sys, r1 as int, r2 as int);
    let q1 = sys / (r1 as int);
    let q2 = sys / (r2 as int);
    assert(hpre_divisor(q2) <= hpre_divisor(q1));
    vstd::arithmetic::div_mod::lemma_div_is_ordered_by_denominator(
        sys,
        hpre_divisor(q2),
        hpre_divisor(q1),
    );
}

/// An APB request far below what any prescaler code can express saturates
/// to the deepest division the code table offers instead of failing.
pub proof fn lemma_resolved_pclk_saturates(hclk: int, r: u32)
    requires
        0 < r,
        hclk / (r as int) >= 9,
    ensures
        ppre_code(hclk / (r as int)) == 0b111,
        resolved_pclk(Some(r), hclk) == hclk / 16,
{
}

/// During `freeze` the flash wait states are written strictly before the
/// PLL is enabled, and the system-clock-source switch is strictly last.
pub proof fn lemma_freeze_plan_ordering(v: CfgrView)
    ensures
        freeze_plan(v).len() > 0,
        freeze_plan(v)[0] is FlashAcr,
        freeze_plan(v).last() is SysClockSource,
        forall|i: int|
            0 <= i < freeze_plan(v).len() && #[trigger] freeze_plan(v)[i] is PllEnable ==> 0 < i,
        forall|i: int|
            0 <= i < freeze_plan(v).len() - 1 ==> !(#[trigger] freeze_plan(v)[i]
                is SysClockSource),
{
    let s = freeze_plan(v);
    if uses_pll(v) {
        assert(s.len() == 15);
        assert forall|i: int| 0 <= i < s.len() - 1 implies !(#[trigger] s[i]
            is SysClockSource) by {
            assert(!(s[0] is SysClockSource));
            assert(!(s[1] is SysClockSource));
            assert(!(s[2] is SysClockSource));
            assert(!(s[3] is SysClockSource));
            assert(!(s[4] is SysClockSource));
            assert(!(s[5] is SysClockSource));
            assert(!(s[6] is SysClockSource));
            assert(!(s[7] is SysClockSource));
            assert(!(s[8] is SysClockSource));
            assert(!(s[9] is SysClockSource));
            assert(!(s[10] is SysClockSource));
            assert(!(s[11] is SysClockSource));
            assert(!(s[12] is SysClockSource));
            assert(!(s[13] is SysClockSource));
        }
    } else {
        assert(s.len() == 6);
        assert forall|i: int| 0 <= i < s.len() - 1 implies !(#[trigger] s[i]
            is SysClockSource) by {
            assert(!(s[0] is SysClockSource));
            assert(!(s[1] is SysClockSource));
            assert(!(s[2] is SysClockSource));
            assert(!(s[3] is SysClockSource));
            assert(!(s[4] is SysClockSource));
        }
    }
}

} // verus!
