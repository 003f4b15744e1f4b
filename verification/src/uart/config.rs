//! Serial port configuration settings and baud-rate divisor arithmetic.

use vstd::prelude::*;
use crate::uart::APB0;

verus! {

/// Fixed divisor constant multiplier.
///
/// The baud rate is calculated as `clk_hz / (FIXED_DIV * baud_divisor)`,
/// with the divisor split over the two 8-bit divisor-latch registers.
pub const FIXED_DIV: usize = 16;

/// Data length (in bits) selected through the data-length-select field.
#[derive(Clone, Copy, Debug, PartialEq, Eq, Structural)]
pub enum DataLength {
    Five,
    Six,
    Seven,
    Eight,
}

impl DataLength {
    /// Creates a new [`DataLength`] with the default (eight bit) length.
    pub fn new() -> (r: Self)
        ensures
            r == DataLength::Eight,
    {
        DataLength::Eight
    }

    /// The raw field encoding of this data length.
    pub open spec fn spec_raw(self) -> u8 {
        match self {
            DataLength::Five => 0b00,
            DataLength::Six => 0b01,
            DataLength::Seven => 0b10,
            DataLength::Eight => 0b11,
        }
    }

    /// Gets the raw field encoding of this data length.
    pub fn raw(self) -> (r: u8)
        ensures
            r == self.spec_raw(),
    {
        match self {
            DataLength::Five => 0b00,
            DataLength::Six => 0b01,
            DataLength::Seven => 0b10,
            DataLength::Eight => 0b11,
        }
    }
}

/// Parity selection for enabling/disabling parity bits.
#[derive(Clone, Copy, Debug, PartialEq, Eq, Structural)]
pub enum Parity {
    /// Send an odd number of logical ones as parity bits.
    Odd,
    /// Send an even number of logical ones as parity bits.
    Even,
    /// Disable parity bits.
    Disabled,
}

impl Parity {
    /// Creates a new [`Parity`] with the default (disabled) setting.
    pub fn new() -> (r: Self)
        ensures
            r == Parity::Disabled,
    {
        Parity::Disabled
    }
}

/// Number of stop bits sent to signal the end of a transmission.
#[derive(Clone, Copy, Debug, PartialEq, Eq, Structural)]
pub enum Stop {
    /// Send one stop bit.
    One,
    /// Send 1.5 or 2 stop bits.
    Two,
}

impl Stop {
    /// Creates a new [`Stop`] with the default (one bit) setting.
    pub fn new() -> (r: Self)
        ensures
            r == Stop::One,
    {
        Stop::One
    }
}

/// Baud rate selections, each the rate in bits per second.
///
/// The derived divisor is split into the two 8-bit divisor-latch registers.
#[derive(Clone, Copy, Debug, PartialEq, Eq, Structural)]
pub enum BaudRate {
    B1200,
    B2400,
    B4800,
    B9600,
    B19200,
    B38400,
    B57600,
    B115200,
}

impl BaudRate {
    /// Creates a new [`BaudRate`] with the default (115200) rate.
    pub fn new() -> (r: Self)
        ensures
            r == BaudRate::B115200,
    {
        BaudRate::B115200
    }

    /// The rate in bits per second.
    pub open spec fn spec_rate(self) -> usize {
        match self {
            BaudRate::B1200 => 1_200,
            BaudRate::B2400 => 2_400,
            BaudRate::B4800 => 4_800,
            BaudRate::B9600 => 9_600,
            BaudRate::B19200 => 19_200,
            BaudRate::B38400 => 38_400,
            BaudRate::B57600 => 57_600,
            BaudRate::B115200 => 115_200,
        }
    }

    /// Gets the rate in bits per second.
    pub fn rate(self) -> (r: usize)
        ensures
            r == self.spec_rate(),
    {
        match self {
            BaudRate::B1200 => 1_200,
            BaudRate::B2400 => 2_400,
            BaudRate::B4800 => 4_800,
            BaudRate::B9600 => 9_600,
            BaudRate::B19200 => 19_200,
            BaudRate::B38400 => 38_400,
            BaudRate::B57600 => 57_600,
            BaudRate::B115200 => 115_200,
        }
    }

    /// The divisor value written to the divisor-latch registers for a given
    /// peripheral clock, truncated to the registers' width.
    pub open spec fn spec_baud_divisor(self, clk_hz: usize) -> u16 {
        (((clk_hz / FIXED_DIV as usize) as int / self.spec_rate() as int) as usize) as u16
    }

    /// Gets the baud divisor value for the given peripheral clock (in Hertz).
    pub fn baud_divisor(&self, clk_hz: usize) -> (r: u16)
        ensures
            r == self.spec_baud_divisor(clk_hz),
    {
        ((clk_hz / FIXED_DIV) / self.rate()) as u16
    }

    /// Gets the low divisor-latch register value.
    pub fn dll(&self, clk_hz: usize) -> (r: u8)
        ensures
            r == self.spec_baud_divisor(clk_hz) as u8,
    {
        self.baud_divisor(clk_hz) as u8
    }

    /// Gets the high divisor-latch register value.
    pub fn dlh(&self, clk_hz: usize) -> (r: u8)
        ensures
            r == ((self.spec_baud_divisor(clk_hz) & 0xff00) >> 8) as u8,
    {
        ((self.baud_divisor(clk_hz) & 0xff00) >> 8) as u8
    }
}

/// Configuration settings for serial peripherals.
#[derive(Clone, Copy, Debug, PartialEq, Eq, Structural)]
pub struct Config {
    pub data_len: DataLength,
    pub stop: Stop,
    pub parity: Parity,
    pub baud_rate: BaudRate,
    pub clk_hz: usize,
}

impl Config {
    /// Creates a new [`Config`] with the default line settings and the
    /// peripheral bus clock.
    pub fn new() -> (r: Config)
        ensures
            r == (Config {
                data_len: DataLength::Eight,
                stop: Stop::One,
                parity: Parity::Disabled,
                baud_rate: BaudRate::B115200,
                clk_hz: APB0,
            }),
    {
        Config {
            data_len: DataLength::new(),
            stop: Stop::new(),
            parity: Parity::new(),
            baud_rate: BaudRate::new(),
            clk_hz: APB0,
        }
    }
}

} // verus!
