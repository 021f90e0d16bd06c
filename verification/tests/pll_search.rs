//! Tests for the PLL divider search.

use stm32h7_hal::pll::{pll_triple_ok, search_best_pll_config};

const HSI: u64 = 64_000_000;

fn legal(m: u64, n: u64, p: u64) -> bool {
    if !(1 <= m && m < 64 && 3 <= n && n < 513 && 2 <= p && p <= 128 && p % 2 == 0) {
        return false;
    }
    let ref_ck = HSI / m;
    if !(1_000_000 < ref_ck && ref_ck < 16_000_000) {
        return false;
    }
    let pre = ref_ck * n;
    let band_ok = if ref_ck < 2_000_000 {
        150_000_000 < pre && pre < 420_000_000
    } else {
        192_000_000 < pre && pre < 836_000_000
    };
    band_ok && pre / p < 400_000_000
}

fn output(m: u64, n: u64, p: u64) -> u64 {
    (HSI / m) * n / p
}

fn distance(target: u64, m: u64, n: u64, p: u64) -> u64 {
    let out = output(m, n, p);
    if target >= out {
        target - out
    } else {
        out - target
    }
}

#[test]
fn search_400mhz_end_to_end() {
    // The classic boot request: run the core as close to the 400 MHz
    // ceiling as the divider space allows, strictly under it.
    let (m, n, p) = search_best_pll_config(400_000_000);
    assert_eq!((m, n, p), (6, 75, 2));
    let ref_ck = HSI / m as u64;
    assert!(1_000_000 < ref_ck && ref_ck < 16_000_000);
    let pre = ref_ck * n as u64;
    assert!(192_000_000 < pre && pre < 836_000_000);
    assert_eq!(p, 2);
    let out = output(m as u64, n as u64, p as u64);
    assert!(out < 400_000_000);
    assert_eq!(out, 399_999_975);
}

#[test]
fn search_result_is_optimal_by_rescan() {
    let target: u64 = 100_000_000;
    let (m, n, p) = search_best_pll_config(target);
    let best = (m as u64, n as u64, p as u64);
    assert!(legal(best.0, best.1, best.2));
    let d_best = distance(target, best.0, best.1, best.2);
    for m2 in 1..64u64 {
        for n2 in 3..513u64 {
            for p2 in (2..129u64).step_by(2) {
                if legal(m2, n2, p2) {
                    let d = distance(target, m2, n2, p2);
                    assert!(d >= d_best);
                    if d == d_best {
                        // Ties keep the first triple in ascending scan order.
                        assert!(best <= (m2, n2, p2));
                    }
                }
            }
        }
    }
}

#[test]
fn search_tie_break_is_lexicographic() {
    // (5, 20, 4) and (5, 40, 8) both produce exactly 64 MHz; the search
    // must keep the one it scans first.
    let (m, n, p) = search_best_pll_config(64_000_000);
    assert_eq!((m, n, p), (5, 20, 4));
    assert!(legal(5, 20, 4) && legal(5, 40, 8));
    assert_eq!(output(5, 20, 4), 64_000_000);
    assert_eq!(output(5, 40, 8), 64_000_000);
}

#[test]
fn search_exact_hits() {
    let (m, n, p) = search_best_pll_config(100_000_000);
    assert_eq!(output(m as u64, n as u64, p as u64), 100_000_000);
    let (m, n, p) = search_best_pll_config(240_000_000);
    assert_eq!(output(m as u64, n as u64, p as u64), 240_000_000);
}

#[test]
fn triple_check_matches_the_legality_rules() {
    // The executable check agrees with the search-space legality rules.
    assert!(pll_triple_ok(6, 75, 2));
    assert!(pll_triple_ok(5, 20, 4));
    // Reference divider out of range.
    assert!(!pll_triple_ok(0, 75, 2));
    assert!(!pll_triple_ok(64, 75, 2));
    // Reference clock of exactly 16 MHz is excluded.
    assert!(!pll_triple_ok(4, 50, 2));
    // Odd output divider.
    assert!(!pll_triple_ok(6, 75, 3));
    // Pre-divider product below the fast band.
    assert!(!pll_triple_ok(8, 16, 2));
    // Output at or above the 400 MHz ceiling: ref 8 MHz, N = 100, P = 2.
    assert!(!pll_triple_ok(8, 100, 2));
    for (m, n, p) in [(6u64, 75u64, 2u64), (5, 20, 4), (8, 16, 2), (4, 50, 2)] {
        assert_eq!(pll_triple_ok(m as u32, n as u32, p as u32), legal(m, n, p));
    }
}

#[test]
fn search_degenerate_target_approximates() {
    // 1 MHz is far below anything the divider space reaches; the search
    // still returns the closest achievable triple, not an error.
    let (m, n, p) = search_best_pll_config(1_000_000);
    assert_eq!((m, n, p), (61, 143, 128));
    assert_eq!(output(m as u64, n as u64, p as u64), 1_172_130);
}
