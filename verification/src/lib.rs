//! Hardware abstraction layer for an STM32H7-class microcontroller.
//!
//! The heart of the crate is the clock tree: a brute-force search for the
//! best PLL divider triple, a staged clock-configuration builder whose
//! `freeze` operation resolves every bus frequency and prescaler code and
//! emits the register writes in their hazard-free order, and the frozen
//! `Clocks` snapshot that every peripheral driver reads its timing from.

use vstd::prelude::*;

pub mod adc;
mod convert;
pub mod flash;
pub mod i2c;
pub mod pll;
pub mod rcc;
pub mod serial;
pub mod spi;
pub mod time;
pub mod watchdog;

verus! {

/// Frequency of the internal high-speed oscillator, in Hz.
pub const HSI: u32 = 64_000_000;

} // verus!
