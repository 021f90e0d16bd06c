//! Exhaustive search for the PLL divider triple whose output frequency is
//! closest to a requested system-clock frequency.
//!
//! The PLL chain divides the internal oscillator by `M`, multiplies by `N`
//! and divides by `P`.  Each stage has a legal analog range: the reference
//! clock `HSI / M` must lie strictly between 1 MHz and 16 MHz, the
//! pre-divider product `(HSI / M) * N` must fall in a band that depends on
//! whether the reference clock is below 2 MHz, and the output must stay
//! strictly under 400 MHz.  The search scans the whole integer space in
//! ascending `(M, N, P)` order and keeps the first triple that attains the
//! smallest absolute distance from the target.

use vstd::prelude::*;

use crate::HSI;

verus! {

/// The reference clock produced by the input divider stage.
pub open spec fn pll_ref_clk(m: int) -> int {
    HSI as int / m
}

/// The divider triple lies inside the searched integer space.
pub open spec fn pll_in_space(m: int, n: int, p: int) -> bool {
    &&& 1 <= m < 64
    &&& 3 <= n < 513
    &&& 2 <= p <= 128
    &&& p % 2 == 0
}

/// The band the pre-divider product must fall in; the slow band applies
/// when the reference clock is below 2 MHz, the fast band otherwise
/// (a reference clock of exactly 2 MHz uses the fast band).
pub open spec fn pll_band_ok(ref_clk: int, pre: int) -> bool {
    if ref_clk < 2_000_000 {
        150_000_000 < pre < 420_000_000
    } else {
        192_000_000 < pre < 836_000_000
    }
}

/// Every analog constraint of the PLL chain holds for the triple.
pub open spec fn pll_legal(m: int, n: int, p: int) -> bool {
    &&& pll_in_space(m, n, p)
    &&& 1_000_000 < pll_ref_clk(m) < 16_000_000
    &&& pll_band_ok(pll_ref_clk(m), pll_ref_clk(m) * n)
    &&& pll_ref_clk(m) * n / p < 400_000_000
}

/// The frequency the PLL produces for the triple.
pub open spec fn pll_output(m: int, n: int, p: int) -> int {
    pll_ref_clk(m) * n / p
}

/// Absolute distance between the target and the triple's output frequency.
pub open spec fn pll_distance(target: int, m: int, n: int, p: int) -> int {
    if target >= pll_output(m, n, p) {
        target - pll_output(m, n, p)
    } else {
        pll_output(m, n, p) - target
    }
}

/// The first triple is at most the second in ascending `(M, N, P)` order.
pub open spec fn lex_at_most(m1: int, n1: int, p1: int, m2: int, n2: int, p2: int) -> bool {
    ||| m1 < m2
    ||| (m1 == m2 && n1 < n2)
    ||| (m1 == m2 && n1 == n2 && p1 <= p2)
}

/// The triple `(a, b, c)` is scanned strictly before position `(m, n, p)`.
pub open spec fn lex_before(a: int, b: int, c: int, m: int, n: int, p: int) -> bool {
    ||| a < m
    ||| (a == m && b < n)
    ||| (a == m && b == n && c < p)
}

/// Some legal triple comes within the initial search radius of the target.
pub open spec fn pll_found(target: int) -> bool {
    exists|a: int, b: int, c: int|
        #[trigger] pll_legal(a, b, c) && pll_distance(target, a, b, c) < 64_000_000
}

/// The triple is legal, no legal triple lies strictly closer to the target,
/// and among the legal triples at the same distance it is the first in
/// ascending scan order.
pub open spec fn pll_optimal(target: int, m: int, n: int, p: int) -> bool {
    &&& pll_legal(m, n, p)
    &&& pll_distance(target, m, n, p) < 64_000_000
    &&& forall|a: int, b: int, c: int|
        #[trigger] pll_legal(a, b, c)
            ==> pll_distance(target, m, n, p) <= pll_distance(target, a, b, c)
    &&& forall|a: int, b: int, c: int|
        #[trigger] pll_legal(a, b, c) && pll_distance(target, a, b, c) == pll_distance(
            target,
            m,
            n,
            p,
        ) ==> lex_at_most(m, n, p, a, b, c)
}

/// Every legal triple scanned strictly before position `(m, n, p)` lies at
/// distance at least `closest` from the target, and on a tie the current
/// best triple precedes it.
spec fn no_better_before(
    target: int,
    bm: int,
    bn: int,
    bp: int,
    closest: int,
    m: int,
    n: int,
    p: int,
) -> bool {
    forall|a: int, b: int, c: int|
        lex_before(a, b, c, m, n, p) && #[trigger] pll_legal(a, b, c) ==> pll_distance(
            target,
            a,
            b,
            c,
        ) >= closest && (pll_distance(target, a, b, c) == closest ==> lex_at_most(
            bm,
            bn,
            bp,
            a,
            b,
            c,
        ))
}

/// Either nothing has been kept yet and the defensively initialized default
/// is still in place, or the kept triple is legal and attains `closest`.
spec fn search_state_ok(target: int, bm: int, bn: int, bp: int, closest: int) -> bool {
    if closest == 64_000_000 {
        bm == 1 && bn == 4 && bp == 2
    } else {
        &&& pll_legal(bm, bn, bp)
        &&& pll_distance(target, bm, bn, bp) == closest
        &&& 0 <= closest < 64_000_000
    }
}

/// A legal triple's reference divider is at least 5: for any smaller `M`
/// the reference clock would already reach 16 MHz.
proof fn lemma_legal_m_at_least_5(m: int, n: int, p: int)
    requires
        pll_legal(m, n, p),
    ensures
        m >= 5,
{
    if m <= 4 {
        vstd::arithmetic::div_mod::lemma_div_is_ordered_by_denominator(64_000_000, m, 4);
    }
}

/// Checks every analog constraint of the PLL chain for a divider triple,
/// so that unverified callers can reject an illegal triple before
/// recording it, mirroring the builder's fail-fast rule executably.
pub fn pll_triple_ok(divm: u32, divn: u32, divp: u32) -> (b: bool)
    ensures
        b == pll_legal(divm as int, divn as int, divp as int),
{
    if !(1 <= divm && divm < 64 && 3 <= divn && divn < 513 && 2 <= divp && divp <= 128 && divp % 2
        == 0) {
        return false;
    }
    let ref_ck: u32 = HSI / divm;
    if !(1_000_000 < ref_ck && ref_ck < 16_000_000) {
        return false;
    }
    proof {
        assert((ref_ck as int) * (divn as int) <= 16_000_000 * 513) by (nonlinear_arith)
            requires
                0 < ref_ck < 16_000_000,
                0 < divn < 513,
        ;
    }
    let pre: u64 = (ref_ck as u64) * (divn as u64);
    let band_ok: bool = if ref_ck < 2_000_000 {
        pre > 150_000_000 && pre < 420_000_000
    } else {
        pre > 192_000_000 && pre < 836_000_000
    };
    if !band_ok {
        return false;
    }
    pre / (divp as u64) < 400_000_000
}

/// The tie-break makes the optimum unique: two triples that are both
/// optimal for the same target are the same triple.
pub proof fn lemma_pll_optimal_unique(
    target: int,
    m1: int,
    n1: int,
    p1: int,
    m2: int,
    n2: int,
    p2: int,
)
    requires
        pll_optimal(target, m1, n1, p1),
        pll_optimal(target, m2, n2, p2),
    ensures
        m1 == m2 && n1 == n2 && p1 == p2,
{
    assert(pll_distance(target, m1, n1, p1) == pll_distance(target, m2, n2, p2));
    assert(lex_at_most(m1, n1, p1, m2, n2, p2));
    assert(lex_at_most(m2, n2, p2, m1, n1, p1));
}

/// Returns the divider triple `(M, N, P)` whose output frequency lies
/// closest to `target`, scanning the whole legal space in ascending order;
/// ties keep the first triple found.  If no legal triple comes within the
/// initial 64 MHz search radius the defensively initialized default
/// `(1, 4, 2)` is returned unchanged.
pub fn search_best_pll_config(target: u64) -> (r: (u32, u32, u32))
    ensures
        pll_found(target as int) ==> pll_optimal(target as int, r.0 as int, r.1 as int, r.2 as int),
        !pll_found(target as int) ==> r == (1u32, 4u32, 2u32),
{
    let ghost t = target as int;
    let mut best_m: u32 = 1;
    let mut best_n: u32 = 4;
    let mut best_p: u32 = 2;
    let mut closest: u64 = 64_000_000;

    let mut m: u32 = 1;
    while m < 64
        invariant
            t == target as int,
            1 <= m <= 64,
            closest <= 64_000_000,
            search_state_ok(t, best_m as int, best_n as int, best_p as int, closest as int),
            closest < 64_000_000 ==> lex_before(
                best_m as int,
                best_n as int,
                best_p as int,
                m as int,
                3,
                2,
            ),
            no_better_before(
                t,
                best_m as int,
                best_n as int,
                best_p as int,
                closest as int,
                m as int,
                3,
                2,
            ),
        decreases 64 - m,
    {
        let ref_ck: u32 = HSI / m;
        if ref_ck > 1_000_000 && ref_ck < 16_000_000 {
            let mut n: u32 = 3;
            while n < 513
                invariant
                    t == target as int,
                    1 <= m < 64,
                    3 <= n <= 513,
                    ref_ck == pll_ref_clk(m as int),
                    1_000_000 < ref_ck < 16_000_000,
                    closest <= 64_000_000,
                    search_state_ok(t, best_m as int, best_n as int, best_p as int, closest as int),
                    closest < 64_000_000 ==> lex_before(
                        best_m as int,
                        best_n as int,
                        best_p as int,
                        m as int,
                        n as int,
                        2,
                    ),
                    no_better_before(
                        t,
                        best_m as int,
                        best_n as int,
                        best_p as int,
                        closest as int,
                        m as int,
                        n as int,
                        2,
                    ),
                decreases 513 - n,
            {
                proof {
                    assert((ref_ck as int) * (n as int) <= 16_000_000 * 513) by (nonlinear_arith)
                        requires
                            0 < ref_ck < 16_000_000,
                            0 < n < 513,
                    ;
                }
                let pre: u64 = (ref_ck as u64) * (n as u64);
                let band_ok: bool = if ref_ck < 2_000_000 {
                    pre > 150_000_000 && pre < 420_000_000
                } else {
                    pre > 192_000_000 && pre < 836_000_000
                };
                assert(pre as int == pll_ref_clk(m as int) * (n as int));
                assert(band_ok == pll_band_ok(pll_ref_clk(m as int), pre as int));
                if band_ok {
                    let mut p: u32 = 2;
                    while p < 129
                        invariant
                            t == target as int,
                            1 <= m < 64,
                            3 <= n < 513,
                            2 <= p <= 130,
                            p % 2 == 0,
                            ref_ck == pll_ref_clk(m as int),
                            1_000_000 < ref_ck < 16_000_000,
                            pre == pll_ref_clk(m as int) * (n as int),
                            pll_band_ok(pll_ref_clk(m as int), pre as int),
                            closest <= 64_000_000,
                            search_state_ok(
                                t,
                                best_m as int,
                                best_n as int,
                                best_p as int,
                                closest as int,
                            ),
                            closest < 64_000_000 ==> lex_before(
                                best_m as int,
                                best_n as int,
                                best_p as int,
                                m as int,
                                n as int,
                                p as int,
                            ),
                            no_better_before(
                                t,
                                best_m as int,
                                best_n as int,
                                best_p as int,
                                closest as int,
                                m as int,
                                n as int,
                                p as int,
                            ),
                        decreases 130 - p,
                    {
                        let pll_p_ck: u64 = pre / (p as u64);
                        assert(pll_p_ck as int == pll_output(m as int, n as int, p as int));
                        if pll_p_ck < 400_000_000 {
                            assert(pll_legal(m as int, n as int, p as int));
                            let difference: u64 = if target >= pll_p_ck {
                                target - pll_p_ck
                            } else {
                                pll_p_ck - target
                            };
                            assert(difference as int == pll_distance(
                                t,
                                m as int,
                                n as int,
                                p as int,
                            ));
                            if difference < closest {
                                closest = difference;
                                best_m = m;
                                best_n = n;
                                best_p = p;
                            } else {
                                proof {
                                    if difference == closest && closest == 64_000_000 {
                                        lemma_legal_m_at_least_5(m as int, n as int, p as int);
                                    }
                                }
                            }
                        }
                        proof {
                            assert forall|a: int, b: int, c: int|
                                lex_before(a, b, c, m as int, n as int, p + 2) && #[trigger] pll_legal(
                                    a,
                                    b,
                                    c,
                                ) implies pll_distance(t, a, b, c) >= closest as int && (
                            pll_distance(t, a, b, c) == closest as int ==> lex_at_most(
                                best_m as int,
                                best_n as int,
                                best_p as int,
                                a,
                                b,
                                c,
                            )) by {
                                if !lex_before(a, b, c, m as int, n as int, p as int) {
                                    assert(a == m as int && b == n as int && c == p as int);
                                }
                            }
                        }
                        p = p + 2;
                    }
                    proof {
                        assert forall|a: int, b: int, c: int|
                            lex_before(a, b, c, m as int, n + 1, 2) && #[trigger] pll_legal(
                                a,
                                b,
                                c,
                            ) implies pll_distance(t, a, b, c) >= closest as int && (pll_distance(
                            t,
                            a,
                            b,
                            c,
                        ) == closest as int ==> lex_at_most(
                            best_m as int,
                            best_n as int,
                            best_p as int,
                            a,
                            b,
                            c,
                        )) by {
                            assert(lex_before(a, b, c, m as int, n as int, 130));
                        }
                    }
                } else {
                    proof {
                        assert forall|a: int, b: int, c: int|
                            lex_before(a, b, c, m as int, n + 1, 2) && #[trigger] pll_legal(
                                a,
                                b,
                                c,
                            ) implies pll_distance(t, a, b, c) >= closest as int && (pll_distance(
                            t,
                            a,
                            b,
                            c,
                        ) == closest as int ==> lex_at_most(
                            best_m as int,
                            best_n as int,
                            best_p as int,
                            a,
                            b,
                            c,
                        )) by {
                            if !lex_before(a, b, c, m as int, n as int, 2) {
                                assert(a == m as int && b == n as int);
                                assert(!pll_band_ok(pll_ref_clk(a), pll_ref_clk(a) * b));
                            }
                        }
                    }
                }
                n = n + 1;
            }
            proof {
                assert forall|a: int, b: int, c: int|
                    lex_before(a, b, c, m + 1, 3, 2) && #[trigger] pll_legal(
                        a,
                        b,
                        c,
                    ) implies pll_distance(t, a, b, c) >= closest as int && (pll_distance(
                    t,
                    a,
                    b,
                    c,
                ) == closest as int ==> lex_at_most(
                    best_m as int,
                    best_n as int,
                    best_p as int,
                    a,
                    b,
                    c,
                )) by {
                    assert(lex_before(a, b, c, m as int, 513, 2));
                }
            }
        } else {
            proof {
                assert forall|a: int, b: int, c: int|
                    lex_before(a, b, c, m + 1, 3, 2) && #[trigger] pll_legal(
                        a,
                        b,
                        c,
                    ) implies pll_distance(t, a, b, c) >= closest as int && (pll_distance(
                    t,
                    a,
                    b,
                    c,
                ) == closest as int ==> lex_at_most(
                    best_m as int,
                    best_n as int,
                    best_p as int,
                    a,
                    b,
                    c,
                )) by {
                    if !lex_before(a, b, c, m as int, 3, 2) {
                        assert(a == m as int);
                        assert(!(1_000_000 < pll_ref_clk(a) < 16_000_000));
                    }
                }
            }
        }
        m = m + 1;
    }
    proof {
        if closest < 64_000_000 {
            assert forall|a: int, b: int, c: int| #[trigger]
                pll_legal(a, b, c) implies pll_distance(
                t,
                best_m as int,
                best_n as int,
                best_p as int,
            ) <= pll_distance(t, a, b, c) && (pll_distance(t, a, b, c) == pll_distance(
                t,
                best_m as int,
                best_n as int,
                best_p as int,
            ) ==> lex_at_most(best_m as int, best_n as int, best_p as int, a, b, c)) by {
                assert(lex_before(a, b, c, 64, 3, 2));
            }
            assert(pll_optimal(t, best_m as int, best_n as int, best_p as int));
        } else {
            assert forall|a: int, b: int, c: int| #[trigger]
                pll_legal(a, b, c) implies pll_distance(t, a, b, c) >= 64_000_000 by {
                assert(lex_before(a, b, c, 64, 3, 2));
            }
            assert(!pll_found(t));
        }
    }
    (best_m, best_n, best_p)
}

} // verus!
