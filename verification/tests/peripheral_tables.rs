//! Tests for the peripheral helper computations: I2C bus timing, USART
//! baud divisor, SPI clock divider and ADC configuration values.

use stm32h7_hal::adc::{AdcSampleResolution, AdcSampleTime, StoredConfig};
use stm32h7_hal::i2c::{bus_poll, i2c_timing, i2c_timing_in_range, BusPoll};
use stm32h7_hal::i2c::Error as I2cError;
use stm32h7_hal::rcc::{flash_wait_states, hpre_encode, ppre_encode};
use stm32h7_hal::serial::{rx_poll, usart_brr, RxPoll};
use stm32h7_hal::serial::Error as SerialError;
use stm32h7_hal::spi::{spi_mbr, transfer_poll, TransferPoll};
use stm32h7_hal::spi::Error as SpiError;

#[test]
fn i2c_timing_standard_mode() {
    // 64 MHz peripheral clock, 100 kHz bus.
    assert_eq!(i2c_timing(64_000_000, 100_000), (1, 158, 158, 16, 39));
}

#[test]
fn i2c_timing_fast_mode() {
    // 64 MHz peripheral clock, 400 kHz bus.
    assert_eq!(i2c_timing(64_000_000, 400_000), (0, 103, 51, 8, 31));
}

#[test]
fn i2c_timing_fast_mode_plus() {
    // 64 MHz peripheral clock, 1 MHz bus: no data hold time.
    assert_eq!(i2c_timing(64_000_000, 1_000_000), (0, 39, 19, 0, 15));
}

#[test]
fn i2c_timing_range_check_rejects_inexpressible_pairs() {
    // The pairs the timing tests above use are accepted.
    assert!(i2c_timing_in_range(64_000_000, 100_000));
    assert!(i2c_timing_in_range(64_000_000, 400_000));
    assert!(i2c_timing_in_range(64_000_000, 1_000_000));
    // No bus frequency at all, or one above the fast-plus limit.
    assert!(!i2c_timing_in_range(64_000_000, 0));
    assert!(!i2c_timing_in_range(64_000_000, 2_000_000));
    // Fewer than four clock cycles per bus cycle.
    assert!(!i2c_timing_in_range(3_000_000, 1_000_000));
    // A 100 Hz bus against a fast clock pushes the setup-time count to
    // zero and the prescaler far past its eight-bit field.
    assert!(!i2c_timing_in_range(225_000_000, 100));
    // A pair whose only failure is the prescaler field bound.
    assert!(!i2c_timing_in_range(263_176_000, 2_000));
}

#[test]
fn usart_brr_is_the_clock_quotient() {
    assert_eq!(usart_brr(64_000_000, 115_200), 555);
    assert_eq!(usart_brr(64_000_000, 9_600), 6_666);
}

#[test]
fn spi_mbr_table() {
    assert_eq!(spi_mbr(1), 0b000);
    assert_eq!(spi_mbr(2), 0b000);
    assert_eq!(spi_mbr(3), 0b001);
    assert_eq!(spi_mbr(5), 0b001);
    assert_eq!(spi_mbr(6), 0b010);
    assert_eq!(spi_mbr(11), 0b010);
    assert_eq!(spi_mbr(23), 0b011);
    assert_eq!(spi_mbr(39), 0b100);
    assert_eq!(spi_mbr(95), 0b101);
    assert_eq!(spi_mbr(191), 0b110);
    assert_eq!(spi_mbr(192), 0b111);
    assert_eq!(spi_mbr(1_000_000), 0b111);
}

#[test]
fn hpre_table_re_derives_power_of_two_divisions() {
    assert_eq!(hpre_encode(1), (0b0111, 1));
    assert_eq!(hpre_encode(2), (0b1000, 2));
    assert_eq!(hpre_encode(3), (0b1001, 4));
    assert_eq!(hpre_encode(5), (0b1001, 4));
    assert_eq!(hpre_encode(9), (0b1010, 8));
    assert_eq!(hpre_encode(16), (0b1011, 16));
    assert_eq!(hpre_encode(64), (0b1100, 32));
    assert_eq!(hpre_encode(128), (0b1101, 64));
    assert_eq!(hpre_encode(256), (0b1110, 128));
    assert_eq!(hpre_encode(257), (0b1111, 256));
    assert_eq!(hpre_encode(u32::MAX), (0b1111, 256));
}

#[test]
fn ppre_table_re_derives_power_of_two_divisions() {
    assert_eq!(ppre_encode(1), (0b011, 1));
    assert_eq!(ppre_encode(2), (0b100, 2));
    assert_eq!(ppre_encode(4), (0b101, 4));
    assert_eq!(ppre_encode(8), (0b110, 8));
    assert_eq!(ppre_encode(9), (0b111, 16));
    assert_eq!(ppre_encode(100_000), (0b111, 16));
}

#[test]
fn flash_wait_state_bands() {
    assert_eq!(flash_wait_states(45_000_000), (0, 0));
    assert_eq!(flash_wait_states(45_000_001), (1, 1));
    assert_eq!(flash_wait_states(90_000_001), (2, 1));
    assert_eq!(flash_wait_states(135_000_001), (3, 2));
    assert_eq!(flash_wait_states(180_000_001), (4, 2));
    assert_eq!(flash_wait_states(225_000_000), (4, 2));
}

#[test]
fn serial_receive_ladder_orders_errors_before_data() {
    assert_eq!(rx_poll(false, false, false, false, false), RxPoll::Pending);
    assert_eq!(rx_poll(false, false, false, false, true), RxPoll::Data);
    // Each error outranks the data flag, in priority order.
    assert_eq!(rx_poll(true, true, true, true, true), RxPoll::Fault { error: SerialError::Parity });
    assert_eq!(
        rx_poll(false, true, true, true, true),
        RxPoll::Fault { error: SerialError::Framing }
    );
    assert_eq!(
        rx_poll(false, false, true, true, true),
        RxPoll::Fault { error: SerialError::Noise }
    );
    assert_eq!(
        rx_poll(false, false, false, true, true),
        RxPoll::Fault { error: SerialError::Overrun }
    );
}

#[test]
fn i2c_wait_ladder_orders_errors_before_the_awaited_flag() {
    assert_eq!(bus_poll(false, false, false), BusPoll::Pending);
    assert_eq!(bus_poll(false, false, true), BusPoll::Ready);
    assert_eq!(bus_poll(true, true, true), BusPoll::Fault { error: I2cError::Bus });
    assert_eq!(bus_poll(false, true, true), BusPoll::Fault { error: I2cError::Arbitration });
}

#[test]
fn spi_transfer_ladder_orders_errors_before_the_awaited_flag() {
    assert_eq!(transfer_poll(false, false, false, false), TransferPoll::Pending);
    assert_eq!(transfer_poll(false, false, false, true), TransferPoll::Ready);
    assert_eq!(
        transfer_poll(true, true, true, true),
        TransferPoll::Fault { error: SpiError::Overrun }
    );
    assert_eq!(
        transfer_poll(false, true, true, true),
        TransferPoll::Fault { error: SpiError::ModeFault }
    );
    assert_eq!(
        transfer_poll(false, false, true, true),
        TransferPoll::Fault { error: SpiError::Crc }
    );
}

#[test]
fn adc_defaults_and_encodings() {
    assert_eq!(AdcSampleTime::default(), AdcSampleTime::T_32);
    assert_eq!(AdcSampleResolution::default(), AdcSampleResolution::B_16);
    assert_eq!(u8::from(AdcSampleTime::T_1), 0b000);
    assert_eq!(u8::from(AdcSampleTime::T_32), 0b100);
    assert_eq!(u8::from(AdcSampleTime::T_810), 0b111);
    assert_eq!(u8::from(AdcSampleResolution::B_16), 0b000);
    assert_eq!(u8::from(AdcSampleResolution::B_8), 0b100);
    let cfg = StoredConfig(AdcSampleTime::T_64, AdcSampleResolution::B_12);
    assert_eq!(cfg.0, AdcSampleTime::T_64);
    assert_eq!(cfg.1, AdcSampleResolution::B_12);
}
