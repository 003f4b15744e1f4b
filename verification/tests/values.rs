//! Register bitfield types, configuration values, and delay arithmetic.

use jh71xx_hal::delay::{
    delay_ticks, elapsed_ticks, u74_mdelay, u74_udelay, McycleDelay, UcycleDelay, U74_CLOCK_HZ,
};
use jh71xx_hal::i2c::mode::{I2cOpMode, I2cSpeedMode};
use jh71xx_hal::i2c::registers::{
    I2cClearInterrupt, I2cCon, I2cConSpeed, I2cDataCmd, I2cEnable, I2cEnableStatus,
    I2cInterruptMask, I2cInterruptStatus, I2cRawInterruptStatus, I2cSar, I2cTar,
    I2cTxAbortSource,
};
use jh71xx_hal::i2c::{Status, STATUS_MASK};
use jh71xx_hal::uart::config::{BaudRate, Config, DataLength, Parity, Stop};
use jh71xx_hal::uart::APB0;

#[test]
fn bitfields_mask_reserved_bits_on_construction() {
    // Constructing each register type from an all-ones raw word keeps
    // exactly the documented reserved-bit mask.
    assert_eq!(I2cCon::from_bits(u32::MAX).bits(), 0b1011_1111_1111);
    assert_eq!(I2cRawInterruptStatus::from_bits(u32::MAX).bits(), 0b0011_1111_1111_1111);
    assert_eq!(I2cInterruptStatus::from_bits(u32::MAX).bits(), 0b0011_1111_1111_1111);
    assert_eq!(I2cInterruptMask::from_bits(u32::MAX).bits(), 0b0011_1111_1111_1111);
    assert_eq!(I2cClearInterrupt::from_bits(u32::MAX).bits(), 0b0011_1111_1111_1111);
    assert_eq!(I2cTar::from_bits(u32::MAX).bits(), 0b0001_0011_1111_1111);
    assert_eq!(I2cSar::from_bits(u32::MAX).bits(), 0b0011_1111_1111);
    assert_eq!(I2cEnable::from_bits(u32::MAX).bits(), 0b0011);
    assert_eq!(I2cEnableStatus::from_bits(u32::MAX).bits(), 0b0111_1101);
    assert_eq!(I2cDataCmd::from_bits(u32::MAX).bits(), 0b1111_1111_1111);
    assert_eq!(I2cTxAbortSource::from_bits(u32::MAX).bits(), 0b1111_1110_1011_1111);
    assert_eq!(Status::from_bits(u32::MAX).bits(), STATUS_MASK);
}

#[test]
fn tar_encodes_addresses_exactly() {
    // A 7-bit address passes through untouched.
    assert_eq!(I2cTar::from_bits(0x50).bits(), 0x50);
    assert_eq!(I2cTar::from_bits(0x50).address_7bit(), 0x50);
    // A 10-bit address keeps its bits beside the mode flag.
    let tar = I2cTar::from_bits(0x123).or(I2cTar::mode_10bit());
    assert_eq!(tar.bits(), 0x123 | 0x1000);
    assert_eq!(tar.address_10bit(), 0x123);
}

#[test]
fn interrupt_mask_presets() {
    assert_eq!(I2cInterruptMask::master().bits(), 0x254);
    assert_eq!(I2cInterruptMask::slave().bits(), 0x265);
    assert_eq!(
        I2cInterruptMask::master().without(I2cInterruptMask::tx_empty()).bits(),
        0x244
    );
}

#[test]
fn data_cmd_data_field_round_trip() {
    let cmd = I2cDataCmd::new().with_data(0x7E);
    assert_eq!(cmd.data(), 0x7E);
    let flagged = I2cDataCmd::from_byte(0xFF).or(I2cDataCmd::stop()).or(I2cDataCmd::restart());
    assert_eq!(flagged.bits(), 0x6FF);
    assert_eq!(flagged.data(), 0xFF);
    let replaced = flagged.with_data(0x01);
    assert_eq!(replaced.bits(), 0x601);
}

#[test]
fn con_speed_field_values() {
    assert_eq!(I2cConSpeed::new(), I2cConSpeed::Std);
    assert_eq!(I2cConSpeed::Std.to_con().bits(), 0b010);
    assert_eq!(I2cConSpeed::Fast.to_con().bits(), 0b100);
    assert_eq!(I2cConSpeed::High.to_con().bits(), 0b110);
}

#[test]
fn speed_mode_create_matches_frequencies() {
    assert_eq!(I2cSpeedMode::new(), I2cSpeedMode::Standard);
    assert_eq!(I2cSpeedMode::create(100_000), I2cSpeedMode::Standard);
    assert_eq!(I2cSpeedMode::create(400_000), I2cSpeedMode::Fast);
    assert_eq!(I2cSpeedMode::create(1_000_000), I2cSpeedMode::FastPlus);
    assert_eq!(I2cSpeedMode::create(1_400_000), I2cSpeedMode::Turbo);
    assert_eq!(I2cSpeedMode::create(3_400_000), I2cSpeedMode::High);
    assert_eq!(I2cSpeedMode::create(5_000_000), I2cSpeedMode::UltraFast);
    // Unknown frequencies fall back to the standard class.
    assert_eq!(I2cSpeedMode::create(123), I2cSpeedMode::Standard);
    assert_eq!(I2cSpeedMode::Fast.hz(), 400_000);
}

#[test]
fn op_mode_create_defaults_to_master() {
    assert_eq!(I2cOpMode::new(), I2cOpMode::Master);
    assert_eq!(I2cOpMode::create(0), I2cOpMode::Master);
    assert_eq!(I2cOpMode::create(1), I2cOpMode::Slave);
    assert_eq!(I2cOpMode::create(7), I2cOpMode::Master);
    assert_eq!(I2cOpMode::Slave.raw(), 1);
}

#[test]
fn status_flag_algebra() {
    let s = Status::none().or(Status::write_in_progress());
    assert_ne!(s.bits() & 0x2, 0);
    assert!(s.is_set(Status::write_in_progress()));
    let cleared = s.without(Status::write_in_progress());
    assert_eq!(cleared.bits(), 0);
    assert!(!cleared.is_set(Status::read_in_progress()));
    assert_eq!(Status::active().bits(), 0x1);
}

#[test]
fn delay_tick_arithmetic() {
    // 1000 ns at 1.5 GHz spans 1500 ticks.
    assert_eq!(delay_ticks(1_000, 1_500_000_000), 1_500);
    // The intermediate product saturates at the counter width.
    assert_eq!(delay_ticks(u32::MAX, u64::MAX), u64::MAX / 1_000_000_000);
    assert_eq!(delay_ticks(0, 1_500_000_000), 0);
}

#[test]
fn elapsed_ticks_tolerates_wraparound() {
    assert_eq!(elapsed_ticks(10, 25), 15);
    assert_eq!(elapsed_ticks(u64::MAX, 2), 3);
    assert_eq!(elapsed_ticks(5, 5), 0);
}

#[test]
fn u74_delay_providers_use_core_clock() {
    assert_eq!(u74_mdelay().ticks_second(), U74_CLOCK_HZ);
    assert_eq!(u74_udelay().ticks_second(), U74_CLOCK_HZ);
    assert_eq!(McycleDelay::new(1_000_000).ticks_for_ns(2_000), 2);
    assert_eq!(UcycleDelay::new(1_000_000).ticks_for_ns(2_000), 2);
}

#[test]
fn baud_divisors_for_common_rates() {
    let rate = BaudRate::B115200;
    // 50 MHz / 16 / 115200 = 27.
    assert_eq!(rate.baud_divisor(APB0), 27);
    assert_eq!(rate.dll(APB0), 27);
    assert_eq!(rate.dlh(APB0), 0);

    let slow = BaudRate::B1200;
    // 50 MHz / 16 / 1200 = 2604 = 0x0A2C.
    assert_eq!(slow.baud_divisor(APB0), 2604);
    assert_eq!(slow.dll(APB0), 0x2C);
    assert_eq!(slow.dlh(APB0), 0x0A);
}

#[test]
fn uart_config_defaults() {
    let cfg = Config::new();
    assert_eq!(cfg.data_len, DataLength::Eight);
    assert_eq!(cfg.stop, Stop::One);
    assert_eq!(cfg.parity, Parity::Disabled);
    assert_eq!(cfg.baud_rate, BaudRate::B115200);
    assert_eq!(cfg.clk_hz, APB0);
    assert_eq!(DataLength::Eight.raw(), 0b11);
    assert_eq!(DataLength::new(), DataLength::Eight);
    assert_eq!(Parity::new(), Parity::Disabled);
    assert_eq!(Stop::new(), Stop::One);
    assert_eq!(BaudRate::new(), BaudRate::B115200);
}
