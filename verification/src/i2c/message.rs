//! Per-message protocol hint flags.

use vstd::prelude::*;

verus! {

/// Read data (from slave to master).
pub const I2C_MSG_RD: u16 = 0x0001;
/// This is a 10-bit chip address.
pub const I2C_MSG_TEN: u16 = 0x0010;
/// Message length will be the first received byte.
pub const I2C_MSG_RECV_LEN: u16 = 0x0400;
/// In a read message the master ACK/NAK bit is skipped.
pub const I2C_MSG_NO_RD_ACK: u16 = 0x0800;
/// Treat NACK from the client as ACK.
pub const I2C_MSG_IGNORE_NAK: u16 = 0x1000;
/// Indicates whether transfers are DMA safe.
pub const I2C_MSG_DMA_SAFE: u16 = 0x2000;
/// Toggles the read/write bit.
pub const I2C_MSG_REV_DIR_ADDR: u16 = 0x2000;
/// Skip the repeated START sequence.
pub const I2C_MSG_NOSTART: u16 = 0x4000;
/// Force a STOP condition after the message.
pub const I2C_MSG_STOP: u16 = 0x8000;

/// Protocol hint flags carried by one message of a transaction, notably the
/// length-prefix convention ("length is the first received byte") and the
/// forced-stop convention.
#[derive(Clone, Copy, Debug, PartialEq, Eq, Structural)]
pub struct I2cMsgFlag {
    bits: u16,
}

impl View for I2cMsgFlag {
    type V = u16;

    closed spec fn view(&self) -> u16 {
        self.bits
    }
}

impl I2cMsgFlag {
    /// Creates a value from a raw flag word.
    pub fn from_bits(raw: u16) -> (r: Self)
        ensures
            r@ == raw,
    {
        Self { bits: raw }
    }

    /// Gets the raw bit pattern.
    pub fn bits(self) -> (r: u16)
        ensures
            r == self@,
    {
        self.bits
    }

    /// Determines whether any flag of `oth` is set in `self`.
    pub fn is_set(self, oth: Self) -> (r: bool)
        ensures
            r == (self@ & oth@ != 0),
    {
        self.bits & oth.bits != 0
    }

    /// The union of the flags of `self` and `oth`.
    pub fn or(self, oth: Self) -> (r: Self)
        ensures
            r@ == self@ | oth@,
    {
        Self { bits: self.bits | oth.bits }
    }

    /// The value with no hints set.
    pub fn none() -> (r: Self)
        ensures
            r@ == 0,
    {
        Self { bits: 0 }
    }

    /// The length-prefix hint: the message length is encoded in the first
    /// received byte.
    pub fn recv_len() -> (r: Self)
        ensures
            r@ == I2C_MSG_RECV_LEN,
    {
        Self { bits: I2C_MSG_RECV_LEN }
    }
}

} // verus!
