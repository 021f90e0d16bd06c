//! System window watchdog: runtime timeout search and the configuration
//! sequence it produces.
//!
//! The watchdog counts down from a reload value at the APB3 clock divided
//! by 4096 and by a programmable power-of-two prescaler; it resets the
//! system when the counter underflows.  `start` searches the whole
//! `(prescaler, reload)` space for the longest achievable timeout that does
//! not exceed the requested period - the watchdog must never fire later
//! than asked - and returns the register operations that program it.

use vstd::prelude::*;

use crate::convert::narrow_u8;
use crate::rcc::Clocks;
use crate::time::MilliSeconds;

verus! {

/// One register operation of the watchdog configuration sequence, to be
/// applied in plan order.
#[derive(Clone, Copy, Debug, PartialEq, Eq, Structural)]
pub enum WatchdogOp {
    /// Clock prescaler exponent field.
    SetPrescaler { bits: u8 },
    /// Window value field.
    SetWindow { value: u8 },
    /// Down-counter reload field.
    SetCounter { value: u8 },
    /// Set the watchdog enable bit.
    Enable,
}

/// Division performed by the watchdog prescaler for an exponent.
pub open spec fn wwdg_prescale(w: int) -> int {
    if w <= 0 {
        1
    } else if w == 1 {
        2
    } else if w == 2 {
        4
    } else if w == 3 {
        8
    } else if w == 4 {
        16
    } else if w == 5 {
        32
    } else if w == 6 {
        64
    } else {
        128
    }
}

/// Timeout in milliseconds that prescaler exponent `w` and reload value
/// `t` achieve at APB3 frequency `pclk3`.
pub open spec fn wwdg_timeout_ms(pclk3: int, w: int, t: int) -> int {
    4096 * wwdg_prescale(w) * (t + 1) / (pclk3 / 1000)
}

/// The pair lies inside the searched space.
pub open spec fn wwdg_in_space(w: int, t: int) -> bool {
    0 <= w < 8 && 1 <= t < 64
}

/// The pair achieves a timeout no later than the requested period.
pub open spec fn wwdg_qualifies(pclk3: int, period: int, w: int, t: int) -> bool {
    wwdg_in_space(w, t) && wwdg_timeout_ms(pclk3, w, t) <= period
}

/// Some pair achieves a timeout no later than the requested period.
pub open spec fn wwdg_found(pclk3: int, period: int) -> bool {
    exists|w: int, t: int| #[trigger] wwdg_qualifies(pclk3, period, w, t)
}

/// The first pair is at most the second in ascending scan order.
pub open spec fn wwdg_lex_at_most(w1: int, t1: int, w2: int, t2: int) -> bool {
    ||| w1 < w2
    ||| (w1 == w2 && t1 <= t2)
}

/// The pair `(a, b)` is scanned strictly before position `(w, t)`.
pub open spec fn wwdg_lex_before(a: int, b: int, w: int, t: int) -> bool {
    ||| a < w
    ||| (a == w && b < t)
}

/// The pair qualifies, no qualifying pair achieves a longer timeout, and
/// among the qualifying pairs at the same timeout it is the first in scan
/// order.
pub open spec fn wwdg_optimal(pclk3: int, period: int, w: int, t: int) -> bool {
    &&& wwdg_qualifies(pclk3, period, w, t)
    &&& forall|a: int, b: int|
        #[trigger] wwdg_qualifies(pclk3, period, a, b) ==> wwdg_timeout_ms(pclk3, a, b)
            <= wwdg_timeout_ms(pclk3, w, t)
    &&& forall|a: int, b: int|
        #[trigger] wwdg_qualifies(pclk3, period, a, b) && wwdg_timeout_ms(pclk3, a, b)
            == wwdg_timeout_ms(pclk3, w, t) ==> wwdg_lex_at_most(w, t, a, b)
}

/// The longest period the watchdog can express at an APB3 frequency.
pub open spec fn wwdg_max_period(pclk3: int) -> int {
    (4096int * 128 * 64) / (pclk3 / 1000)
}

/// The register operations that program prescaler exponent `bits` and
/// reload value `counter` and enable the watchdog, in order.
pub open spec fn wwdg_plan(bits: u8, counter: u8) -> Seq<WatchdogOp> {
    seq![
        WatchdogOp::SetPrescaler { bits },
        WatchdogOp::SetWindow { value: counter },
        WatchdogOp::SetCounter { value: counter },
        WatchdogOp::Enable,
    ]
}

/// The tie-break makes the optimum unique: two pairs that are both
/// optimal for the same period and clock are the same pair.
pub proof fn lemma_wwdg_optimal_unique(
    pclk3: int,
    period: int,
    w1: int,
    t1: int,
    w2: int,
    t2: int,
)
    requires
        wwdg_optimal(pclk3, period, w1, t1),
        wwdg_optimal(pclk3, period, w2, t2),
    ensures
        w1 == w2 && t1 == t2,
{
    assert(wwdg_timeout_ms(pclk3, w1, t1) == wwdg_timeout_ms(pclk3, w2, t2));
    assert(wwdg_lex_at_most(w1, t1, w2, t2));
    assert(wwdg_lex_at_most(w2, t2, w1, t1));
}

/// Every qualifying pair scanned strictly before position `(w, t)` does no
/// better than `closest`, and on a tie the kept pair precedes it.
spec fn wwdg_no_better_before(
    pclk3: int,
    period: int,
    bw: int,
    bt: int,
    closest: int,
    w: int,
    t: int,
) -> bool {
    forall|a: int, b: int|
        wwdg_lex_before(a, b, w, t) && #[trigger] wwdg_qualifies(pclk3, period, a, b) ==> period
            - wwdg_timeout_ms(pclk3, a, b) >= closest && (period - wwdg_timeout_ms(pclk3, a, b)
            == closest ==> wwdg_lex_at_most(bw, bt, a, b))
}

/// Either nothing has qualified yet and the defensive default pair is in
/// place, or the kept pair qualifies and attains `closest`.  The running
/// difference starts above every reachable value - differences never
/// exceed the longest expressible period - so the first qualifying pair
/// always displaces the default.
spec fn wwdg_state_ok(pclk3: int, period: int, bw: int, bt: int, closest: int) -> bool {
    if closest == 0xFFFF_FFFF {
        bw == 0 && bt == 0
    } else {
        &&& wwdg_qualifies(pclk3, period, bw, bt)
        &&& period - wwdg_timeout_ms(pclk3, bw, bt) == closest
        &&& 0 <= closest < 0xFFFF_FFFF
    }
}

/// The state the watchdog driver carries between operations.
pub ghost struct WatchdogView {
    pub clocks: crate::rcc::ClocksView,
    pub down_counter: u8,
}

/// Driver for the system window watchdog.  A zero down-counter records
/// that the watchdog has not been started yet.
pub struct SystemWindowWatchdog {
    clocks: Clocks,
    down_counter: u8,
}

impl View for SystemWindowWatchdog {
    type V = WatchdogView;

    closed spec fn view(&self) -> WatchdogView {
        WatchdogView { clocks: self.clocks@, down_counter: self.down_counter }
    }
}

/// Computes the division the watchdog prescaler performs for an exponent.
fn wwdg_prescaler_value(w: u32) -> (r: u32)
    requires
        w < 8,
    ensures
        r == wwdg_prescale(w as int),
{
    let r = 1u32 << w;
    proof {
        assert((w == 0 ==> 1u32 << w == 1u32) && (w == 1 ==> 1u32 << w == 2u32) && (w == 2
            ==> 1u32 << w == 4u32) && (w == 3 ==> 1u32 << w == 8u32) && (w == 4 ==> 1u32 << w
            == 16u32) && (w == 5 ==> 1u32 << w == 32u32) && (w == 6 ==> 1u32 << w == 64u32) && (w
            == 7 ==> 1u32 << w == 128u32)) by (bit_vector);
    }
    r
}

impl SystemWindowWatchdog {
    /// Builds the driver with the down-counter initialized to zero to
    /// record that the watchdog has not been started yet.
    pub fn new(clocks: Clocks) -> (r: Self)
        ensures
            r@.clocks == clocks@,
            r@.down_counter == 0,
    {
        SystemWindowWatchdog { clocks, down_counter: 0 }
    }

    /// The watchdog has been started at least once.
    pub fn is_started(&self) -> (r: bool)
        ensures
            r == (self@.down_counter != 0),
    {
        self.down_counter != 0
    }

    /// Reloads the down-counter to keep the watchdog from firing; valid
    /// only once the watchdog has been started.  Returns the counter write
    /// to apply.
    pub fn feed(&self) -> (op: WatchdogOp)
        requires
            self@.down_counter != 0,
        ensures
            op == (WatchdogOp::SetCounter { value: self@.down_counter }),
    {
        WatchdogOp::SetCounter { value: self.down_counter }
    }

    /// Searches the whole `(prescaler, reload)` space for the configuration
    /// whose achievable timeout is the longest one not exceeding `period`
    /// (the watchdog must not fire later than requested; ties keep the
    /// first pair found), records the reload value, and returns the
    /// register operations that program and enable the watchdog.
    pub fn start(&mut self, period: MilliSeconds) -> (ops: Vec<WatchdogOp>)
        requires
            old(self)@.clocks.pclk3 >= 1000,
            period.0 <= wwdg_max_period(old(self)@.clocks.pclk3 as int),
        ensures
            final(self)@.clocks == old(self)@.clocks,
            ({
                let pclk3 = old(self)@.clocks.pclk3 as int;
                let p = period.0 as int;
                if wwdg_found(pclk3, p) {
                    exists|w: int, t: int|
                        #[trigger] wwdg_optimal(pclk3, p, w, t) && final(self)@.down_counter == t
                            + 64 && ops@ == wwdg_plan(w as u8, (t + 64) as u8)
                } else {
                    final(self)@.down_counter == 64 && ops@ == wwdg_plan(0u8, 64u8)
                }
            }),
    {
        let pclk3 = self.clocks.pclk3().0;
        let ghost pc = pclk3 as int;
        let ghost p = period.0 as int;
        let pclk_khz = pclk3 / 1000;
        proof {
            // The requested period is bounded by the longest expressible
            // one, which never exceeds the tick product itself.
            vstd::arithmetic::div_mod::lemma_div_is_ordered_by_denominator(
                33_554_432,
                1,
                pc / 1000,
            );
        }

        let mut best_w: u32 = 0;
        let mut best_t: u32 = 0;
        let mut closest: u32 = u32::MAX;

        let mut w: u32 = 0;
        while w < 8
            invariant
                pc == pclk3 as int,
                p == period.0 as int,
                pclk3 >= 1000,
                pclk_khz == pc / 1000,
                w <= 8,
                period.0 <= 33_554_432,
                wwdg_state_ok(pc, p, best_w as int, best_t as int, closest as int),
                closest < u32::MAX ==> wwdg_lex_before(best_w as int, best_t as int, w as int, 1),
                wwdg_no_better_before(
                    pc,
                    p,
                    best_w as int,
                    best_t as int,
                    closest as int,
                    w as int,
                    1,
                ),
            decreases 8 - w,
        {
            let prescale = wwdg_prescaler_value(w);
            let mut t: u32 = 1;
            while t < 64
                invariant
                    pc == pclk3 as int,
                    p == period.0 as int,
                    pclk3 >= 1000,
                    pclk_khz == pc / 1000,
                    w < 8,
                    1 <= t <= 64,
                    prescale == wwdg_prescale(w as int),
                    prescale <= 128,
                    period.0 <= 33_554_432,
                    wwdg_state_ok(pc, p, best_w as int, best_t as int, closest as int),
                    closest < u32::MAX ==> wwdg_lex_before(
                        best_w as int,
                        best_t as int,
                        w as int,
                        t as int,
                    ),
                    wwdg_no_better_before(
                        pc,
                        p,
                        best_w as int,
                        best_t as int,
                        closest as int,
                        w as int,
                        t as int,
                    ),
                decreases 64 - t,
            {
                proof {
                    assert((4096 * prescale) * (t + 1) <= 524288 * 64) by (nonlinear_arith)
                        requires
                            prescale <= 128,
                            t < 64,
                    ;
                }
                let ticks: u32 = (4096 * prescale) * (t + 1);
                let current_timeout: u32 = ticks / pclk_khz;
                assert(current_timeout as int == wwdg_timeout_ms(pc, w as int, t as int));
                if current_timeout <= period.0 {
                    assert(wwdg_qualifies(pc, p, w as int, t as int));
                    let difference: u32 = period.0 - current_timeout;
                    if difference < closest {
                        closest = difference;
                        best_w = w;
                        best_t = t;
                    }
                }
                proof {
                    assert forall|a: int, b: int|
                        wwdg_lex_before(a, b, w as int, t + 1) && #[trigger] wwdg_qualifies(
                            pc,
                            p,
                            a,
                            b,
                        ) implies p - wwdg_timeout_ms(pc, a, b) >= closest as int && (p
                        - wwdg_timeout_ms(pc, a, b) == closest as int ==> wwdg_lex_at_most(
                        best_w as int,
                        best_t as int,
                        a,
                        b,
                    )) by {
                        if !wwdg_lex_before(a, b, w as int, t as int) {
                            assert(a == w as int && b == t as int);
                        }
                    }
                }
                t = t + 1;
            }
            proof {
                assert forall|a: int, b: int|
                    wwdg_lex_before(a, b, w + 1, 1) && #[trigger] wwdg_qualifies(
                        pc,
                        p,
                        a,
                        b,
                    ) implies p - wwdg_timeout_ms(pc, a, b) >= closest as int && (p
                    - wwdg_timeout_ms(pc, a, b) == closest as int ==> wwdg_lex_at_most(
                    best_w as int,
                    best_t as int,
                    a,
                    b,
                )) by {
                    assert(wwdg_lex_before(a, b, w as int, 64));
                }
            }
            w = w + 1;
        }

        let wdgtb: u8 = narrow_u8(best_w);
        let reload: u8 = narrow_u8(best_t);
        let counter: u8 = reload | (1u8 << 6);
        proof {
            assert(reload < 64 ==> (reload | (1u8 << 6)) == reload + 64) by (bit_vector);
        }
        self.down_counter = counter;

        let mut ops: Vec<WatchdogOp> = Vec::new();
        ops.push(WatchdogOp::SetPrescaler { bits: wdgtb });
        ops.push(WatchdogOp::SetWindow { value: counter });
        ops.push(WatchdogOp::SetCounter { value: counter });
        ops.push(WatchdogOp::Enable);
        proof {
            assert(ops@ =~= wwdg_plan(wdgtb, counter));
            if closest < u32::MAX {
                assert forall|a: int, b: int| #[trigger]
                    wwdg_qualifies(pc, p, a, b) implies wwdg_timeout_ms(pc, a, b)
                    <= wwdg_timeout_ms(pc, best_w as int, best_t as int) && (wwdg_timeout_ms(
                    pc,
                    a,
                    b,
                ) == wwdg_timeout_ms(pc, best_w as int, best_t as int) ==> wwdg_lex_at_most(
                    best_w as int,
                    best_t as int,
                    a,
                    b,
                )) by {
                    assert(wwdg_lex_before(a, b, 8, 1));
                }
                assert(wwdg_optimal(pc, p, best_w as int, best_t as int));
            } else {
                // No pair ever qualified: a qualifying pair's difference
                // is at most the period, far below the sentinel.
                if wwdg_found(pc, p) {
                    let (a, b) = choose|a: int, b: int| wwdg_qualifies(pc, p, a, b);
                    assert(wwdg_lex_before(a, b, 8, 1));
                    assert(4096 * wwdg_prescale(a) * (b + 1) >= 0) by (nonlinear_arith)
                        requires
                            wwdg_prescale(a) >= 1,
                            b >= 1,
                    ;
                    vstd::arithmetic::div_mod::lemma_div_pos_is_pos(
                        4096 * wwdg_prescale(a) * (b + 1),
                        pc / 1000,
                    );
                    assert(false);
                }
                assert(!wwdg_found(pc, p));
            }
        }
        ops
    }
}

} // verus!
