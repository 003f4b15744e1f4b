//! Bit-exact models of the two-wire bus controller's hardware registers.
//!
//! Each type mirrors one register's documented layout: its width, its
//! reserved-bit mask, and its named bit positions. Values constructed from a
//! raw register word always have the reserved bits masked off, so a value of
//! one of these types never carries information outside the documented mask.

use vstd::prelude::*;

verus! {

// `CON` (control) register bits.
pub const I2C_CON_MASTER: u32 = 0b0000_0000_0000_0001;
pub const I2C_CON_SPEED_STD: u32 = 0b0000_0000_0000_0010;
pub const I2C_CON_SPEED_FAST: u32 = 0b0000_0000_0000_0100;
pub const I2C_CON_SPEED_HIGH: u32 = 0b0000_0000_0000_0110;
pub const I2C_CON_SLAVE_10BIT: u32 = 0b0000_0000_0000_1000;
pub const I2C_CON_MASTER_10BIT: u32 = 0b0000_0000_0001_0000;
pub const I2C_CON_RESTART_EN: u32 = 0b0000_0000_0010_0000;
pub const I2C_CON_SLAVE_DISABLE: u32 = 0b0000_0000_0100_0000;
pub const I2C_CON_STOP_DET_IFADDRESSED: u32 = 0b0000_0000_1000_0000;
pub const I2C_CON_TX_EMPTY_CTRL: u32 = 0b0000_0001_0000_0000;
pub const I2C_CON_RX_FIFO_FULL_HLD_CTRL: u32 = 0b0000_0010_0000_0000;
pub const I2C_CON_BUS_CLEAR_CTRL: u32 = 0b0000_1000_0000_0000;
/// Reserved-bit mask of the `CON` register.
pub const I2C_CON_MASK: u32 = 0b1011_1111_1111;

// Interrupt bits, shared by the raw-status, masked-status, mask, and
// clear-status registers, which all use the same layout.
pub const I2C_INTR_RX_UNDER: u32 = 0b0000_0000_0000_0001;
pub const I2C_INTR_RX_OVER: u32 = 0b0000_0000_0000_0010;
pub const I2C_INTR_RX_FULL: u32 = 0b0000_0000_0000_0100;
pub const I2C_INTR_TX_OVER: u32 = 0b0000_0000_0000_1000;
pub const I2C_INTR_TX_EMPTY: u32 = 0b0000_0000_0001_0000;
pub const I2C_INTR_RD_REQ: u32 = 0b0000_0000_0010_0000;
pub const I2C_INTR_TX_ABRT: u32 = 0b0000_0000_0100_0000;
pub const I2C_INTR_RX_DONE: u32 = 0b0000_0000_1000_0000;
pub const I2C_INTR_ACTIVITY: u32 = 0b0000_0001_0000_0000;
pub const I2C_INTR_STOP_DET: u32 = 0b0000_0010_0000_0000;
pub const I2C_INTR_START_DET: u32 = 0b0000_0100_0000_0000;
pub const I2C_INTR_GEN_CALL: u32 = 0b0000_1000_0000_0000;
pub const I2C_INTR_RESTART_DET: u32 = 0b0001_0000_0000_0000;
pub const I2C_INTR_MST_ON_HOLD: u32 = 0b0010_0000_0000_0000;
/// Reserved-bit mask of the interrupt status registers.
pub const I2C_INTR_MASK: u32 = 0b0011_1111_1111_1111;

// `TAR` (target address) register bits.
pub const I2C_TAR_ADDR_MASK_7BIT: u32 = 0b0000_0000_0111_1111;
pub const I2C_TAR_ADDR_MASK_10BIT: u32 = 0b0000_0011_1111_1111;
pub const I2C_TAR_MODE_10BIT: u32 = 0b0001_0000_0000_0000;
/// Reserved-bit mask of the `TAR` register.
pub const I2C_TAR_MASK: u32 = 0b0001_0011_1111_1111;

// `SAR` (slave address) register bits.
pub const I2C_SAR_ADDR_MASK_7BIT: u32 = 0b0000_0111_1111;
pub const I2C_SAR_ADDR_MASK_10BIT: u32 = 0b0011_1111_1111;
/// Reserved-bit mask of the `SAR` register.
pub const I2C_SAR_MASK: u32 = 0b0011_1111_1111;

// `ENABLE` register bits.
pub const I2C_ENABLE_ENABLE: u32 = 0b0001;
pub const I2C_ENABLE_ABORT: u32 = 0b0010;
/// Reserved-bit mask of the `ENABLE` register.
pub const I2C_ENABLE_MASK: u32 = 0b0011;

// `ENABLE_STATUS` register bits.
pub const I2C_ENABLE_STATUS_ACTIVITY: u32 = 0b0000_0001;
pub const I2C_ENABLE_STATUS_TFE: u32 = 0b0000_0100;
pub const I2C_ENABLE_STATUS_RFNE: u32 = 0b0000_1000;
pub const I2C_ENABLE_STATUS_MASTER_ACTIVITY: u32 = 0b0010_0000;
pub const I2C_ENABLE_STATUS_SLAVE_ACTIVITY: u32 = 0b0100_0000;
/// Reserved-bit mask of the `ENABLE_STATUS` register.
pub const I2C_ENABLE_STATUS_MASK: u32 = 0b0111_1101;

// Functionality bits advertised to bus users.
pub const I2C_FUNC_I2C: u32 = 0x0000_0001;
pub const I2C_FUNC_ADDRESS_10BIT: u32 = 0x0000_0002;
pub const I2C_FUNC_PROTOCOL_MANGLING: u32 = 0x0000_0004;
pub const I2C_FUNC_SMBUS_PEC: u32 = 0x0000_0008;
pub const I2C_FUNC_NOSTART: u32 = 0x0000_0010;
pub const I2C_FUNC_SLAVE: u32 = 0x0000_0020;
pub const I2C_FUNC_SMBUS_BLOCK_PROC_CALL: u32 = 0x0000_8000;
pub const I2C_FUNC_SMBUS_QUICK: u32 = 0x0001_0000;
pub const I2C_FUNC_SMBUS_READ_BYTE: u32 = 0x0002_0000;
pub const I2C_FUNC_SMBUS_WRITE_BYTE: u32 = 0x0004_0000;
pub const I2C_FUNC_SMBUS_READ_BYTE_DATA: u32 = 0x0008_0000;
pub const I2C_FUNC_SMBUS_WRITE_BYTE_DATA: u32 = 0x0010_0000;
pub const I2C_FUNC_SMBUS_READ_WORD_DATA: u32 = 0x0020_0000;
pub const I2C_FUNC_SMBUS_WRITE_WORD_DATA: u32 = 0x0040_0000;
pub const I2C_FUNC_SMBUS_PROC_CALL: u32 = 0x0080_0000;
pub const I2C_FUNC_SMBUS_READ_BLOCK_DATA: u32 = 0x0100_0000;
pub const I2C_FUNC_SMBUS_WRITE_BLOCK_DATA: u32 = 0x0200_0000;
pub const I2C_FUNC_SMBUS_READ_I2C_BLOCK: u32 = 0x0400_0000;
pub const I2C_FUNC_SMBUS_WRITE_I2C_BLOCK: u32 = 0x0800_0000;
pub const I2C_FUNC_SMBUS_HOST_NOTIFY: u32 = 0x1000_0000;

// `DATA_CMD` (FIFO data-command) register bits.
pub const I2C_DATA_CMD_DATA_MASK: u32 = 0b0000_0000_1111_1111;
pub const I2C_DATA_CMD_READ: u32 = 0b0000_0001_0000_0000;
pub const I2C_DATA_CMD_STOP: u32 = 0b0000_0010_0000_0000;
pub const I2C_DATA_CMD_RESTART: u32 = 0b0000_0100_0000_0000;
pub const I2C_DATA_CMD_FIRST_DATA_BYTE: u32 = 0b0000_1000_0000_0000;
/// Reserved-bit mask of the `DATA_CMD` register.
pub const I2C_DATA_CMD_MASK: u32 = 0b0000_1111_1111_1111;

// `TX_ABRT_SOURCE` (abort source) register bits.
pub const I2C_ABRT_B7_ADDR_NOACK: u32 = 0b0000_0000_0000_0001;
pub const I2C_ABRT_B10_ADDR1_NOACK: u32 = 0b0000_0000_0000_0010;
pub const I2C_ABRT_B10_ADDR2_NOACK: u32 = 0b0000_0000_0000_0100;
pub const I2C_ABRT_TXDATA_NOACK: u32 = 0b0000_0000_0000_1000;
pub const I2C_ABRT_GCALL_NOACK: u32 = 0b0000_0000_0001_0000;
pub const I2C_ABRT_GCALL_READ: u32 = 0b0000_0000_0010_0000;
pub const I2C_ABRT_SBYTE_ACKDET: u32 = 0b0000_0000_1000_0000;
pub const I2C_ABRT_SBYTE_NORSTRT: u32 = 0b0000_0010_0000_0000;
pub const I2C_ABRT_B10_RD_NORSTRT: u32 = 0b0000_0100_0000_0000;
pub const I2C_ABRT_MASTER_DIS: u32 = 0b0000_1000_0000_0000;
pub const I2C_ABRT_ARB_LOST: u32 = 0b0001_0000_0000_0000;
pub const I2C_ABRT_SLAVE_FLUSH_TXFIFO: u32 = 0b0010_0000_0000_0000;
pub const I2C_ABRT_SLAVE_ARB_LOST: u32 = 0b0100_0000_0000_0000;
pub const I2C_ABRT_SLAVE_RD_INTX: u32 = 0b1000_0000_0000_0000;
/// Reserved-bit mask of the `TX_ABRT_SOURCE` register.
pub const I2C_ABRT_MASK: u32 = 0b1111_1110_1011_1111;

/// The `CON` register speed field encoding.
#[derive(Clone, Copy, Debug, PartialEq, Eq, Structural)]
pub enum I2cConSpeed {
    Std,
    Fast,
    High,
}

impl I2cConSpeed {
    /// Creates a new [`I2cConSpeed`] with the default (standard) encoding.
    pub fn new() -> (r: Self)
        ensures
            r == I2cConSpeed::Std,
    {
        I2cConSpeed::Std
    }

    /// The speed class encoded by a raw two-bit field value; the reserved
    /// encoding falls back to standard.
    pub open spec fn spec_create(val: u8) -> Self {
        if val & 0b11 == 0b01 {
            I2cConSpeed::Std
        } else if val & 0b11 == 0b10 {
            I2cConSpeed::Fast
        } else if val & 0b11 == 0b11 {
            I2cConSpeed::High
        } else {
            I2cConSpeed::Std
        }
    }

    /// Creates a new [`I2cConSpeed`] from a raw two-bit field value.
    pub fn create(val: u8) -> (r: Self)
        ensures
            r == Self::spec_create(val),
    {
        if val & 0b11 == 0b01 {
            I2cConSpeed::Std
        } else if val & 0b11 == 0b10 {
            I2cConSpeed::Fast
        } else if val & 0b11 == 0b11 {
            I2cConSpeed::High
        } else {
            I2cConSpeed::Std
        }
    }

    /// The `CON` register flag value that selects this speed class.
    pub open spec fn spec_con_bits(self) -> u32 {
        match self {
            I2cConSpeed::Std => I2C_CON_SPEED_STD,
            I2cConSpeed::Fast => I2C_CON_SPEED_FAST,
            I2cConSpeed::High => I2C_CON_SPEED_HIGH,
        }
    }

    /// Converts this speed class into its `CON` register flag value.
    pub fn to_con(self) -> (r: I2cCon)
        ensures
            r@ == self.spec_con_bits(),
    {
        match self {
            I2cConSpeed::Std => I2cCon { bits: I2C_CON_SPEED_STD },
            I2cConSpeed::Fast => I2cCon { bits: I2C_CON_SPEED_FAST },
            I2cConSpeed::High => I2cCon { bits: I2C_CON_SPEED_HIGH },
        }
    }
}

/// The `CON` (control) register bitfield.
#[derive(Clone, Copy, Debug, PartialEq, Eq, Structural)]
pub struct I2cCon {
    bits: u32,
}

impl View for I2cCon {
    type V = u32;

    closed spec fn view(&self) -> u32 {
        self.bits
    }
}

impl I2cCon {
    /// Creates a value from a raw register word, masking reserved bits.
    pub fn from_bits(raw: u32) -> (r: Self)
        ensures
            r@ == raw & I2C_CON_MASK,
    {
        Self { bits: raw & I2C_CON_MASK }
    }

    /// Gets the raw bit pattern.
    pub fn bits(self) -> (r: u32)
        ensures
            r == self@,
    {
        self.bits
    }

    /// Determines whether any flag of `oth` is set in `self`.
    pub fn is_set(self, oth: Self) -> (r: bool)
        ensures
            r == (self@ & oth@ != 0),
    {
        self.bits & oth.bits != 0
    }

    /// The union of the flags of `self` and `oth`.
    pub fn or(self, oth: Self) -> (r: Self)
        ensures
            r@ == self@ | oth@,
    {
        Self { bits: self.bits | oth.bits }
    }

    /// The value with no flags set.
    pub fn none() -> (r: Self)
        ensures
            r@ == 0,
    {
        Self { bits: 0 }
    }

    /// The master-mode flag.
    pub fn master() -> (r: Self)
        ensures
            r@ == I2C_CON_MASTER,
    {
        Self { bits: I2C_CON_MASTER }
    }

    /// The slave-disable flag.
    pub fn slave_disable() -> (r: Self)
        ensures
            r@ == I2C_CON_SLAVE_DISABLE,
    {
        Self { bits: I2C_CON_SLAVE_DISABLE }
    }

    /// The restart-enable flag.
    pub fn restart_en() -> (r: Self)
        ensures
            r@ == I2C_CON_RESTART_EN,
    {
        Self { bits: I2C_CON_RESTART_EN }
    }

    /// The 10-bit master addressing flag.
    pub fn master_10bit() -> (r: Self)
        ensures
            r@ == I2C_CON_MASTER_10BIT,
    {
        Self { bits: I2C_CON_MASTER_10BIT }
    }
}

/// The `RAW_INTR_STAT` (raw interrupt status) register bitfield.
#[derive(Clone, Copy, Debug, PartialEq, Eq, Structural)]
pub struct I2cRawInterruptStatus {
    bits: u32,
}

impl View for I2cRawInterruptStatus {
    type V = u32;

    closed spec fn view(&self) -> u32 {
        self.bits
    }
}

impl I2cRawInterruptStatus {
    /// Creates a value from a raw register word, masking reserved bits.
    pub fn from_bits(raw: u32) -> (r: Self)
        ensures
            r@ == raw & I2C_INTR_MASK,
    {
        Self { bits: raw & I2C_INTR_MASK }
    }

    /// Gets the raw bit pattern.
    pub fn bits(self) -> (r: u32)
        ensures
            r == self@,
    {
        self.bits
    }

    /// Determines whether any flag of `oth` is set in `self`.
    pub fn is_set(self, oth: Self) -> (r: bool)
        ensures
            r == (self@ & oth@ != 0),
    {
        self.bits & oth.bits != 0
    }

    /// The master-on-hold status flag.
    pub fn mst_on_hold() -> (r: Self)
        ensures
            r@ == I2C_INTR_MST_ON_HOLD,
    {
        Self { bits: I2C_INTR_MST_ON_HOLD }
    }
}

/// The `INTR_STAT` (masked interrupt status) register bitfield.
#[derive(Clone, Copy, Debug, PartialEq, Eq, Structural)]
pub struct I2cInterruptStatus {
    bits: u32,
}

impl View for I2cInterruptStatus {
    type V = u32;

    closed spec fn view(&self) -> u32 {
        self.bits
    }
}

impl I2cInterruptStatus {
    /// Creates a value from a raw register word, masking reserved bits.
    pub fn from_bits(raw: u32) -> (r: Self)
        ensures
            r@ == raw & I2C_INTR_MASK,
    {
        Self { bits: raw & I2C_INTR_MASK }
    }

    /// Gets the raw bit pattern.
    pub fn bits(self) -> (r: u32)
        ensures
            r == self@,
    {
        self.bits
    }

    /// Determines whether any flag of `oth` is set in `self`.
    pub fn is_set(self, oth: Self) -> (r: bool)
        ensures
            r == (self@ & oth@ != 0),
    {
        self.bits & oth.bits != 0
    }

    /// The receive-FIFO-full status flag.
    pub fn rx_full() -> (r: Self)
        ensures
            r@ == I2C_INTR_RX_FULL,
    {
        Self { bits: I2C_INTR_RX_FULL }
    }

    /// The receive-FIFO-underflow status flag.
    pub fn rx_under() -> (r: Self)
        ensures
            r@ == I2C_INTR_RX_UNDER,
    {
        Self { bits: I2C_INTR_RX_UNDER }
    }

    /// The receive-FIFO-overflow status flag.
    pub fn rx_over() -> (r: Self)
        ensures
            r@ == I2C_INTR_RX_OVER,
    {
        Self { bits: I2C_INTR_RX_OVER }
    }

    /// The transmit-FIFO-overflow status flag.
    pub fn tx_over() -> (r: Self)
        ensures
            r@ == I2C_INTR_TX_OVER,
    {
        Self { bits: I2C_INTR_TX_OVER }
    }

    /// The read-request status flag.
    pub fn rd_req() -> (r: Self)
        ensures
            r@ == I2C_INTR_RD_REQ,
    {
        Self { bits: I2C_INTR_RD_REQ }
    }

    /// The transmit-abort status flag.
    pub fn tx_abrt() -> (r: Self)
        ensures
            r@ == I2C_INTR_TX_ABRT,
    {
        Self { bits: I2C_INTR_TX_ABRT }
    }

    /// The receive-done status flag.
    pub fn rx_done() -> (r: Self)
        ensures
            r@ == I2C_INTR_RX_DONE,
    {
        Self { bits: I2C_INTR_RX_DONE }
    }

    /// The activity status flag.
    pub fn activity() -> (r: Self)
        ensures
            r@ == I2C_INTR_ACTIVITY,
    {
        Self { bits: I2C_INTR_ACTIVITY }
    }

    /// The stop-detected status flag.
    pub fn stop_det() -> (r: Self)
        ensures
            r@ == I2C_INTR_STOP_DET,
    {
        Self { bits: I2C_INTR_STOP_DET }
    }

    /// The start-detected status flag.
    pub fn start_det() -> (r: Self)
        ensures
            r@ == I2C_INTR_START_DET,
    {
        Self { bits: I2C_INTR_START_DET }
    }

    /// The general-call status flag.
    pub fn gen_call() -> (r: Self)
        ensures
            r@ == I2C_INTR_GEN_CALL,
    {
        Self { bits: I2C_INTR_GEN_CALL }
    }
}

/// The `INTR_MASK` (interrupt mask) register bitfield.
#[derive(Clone, Copy, Debug, PartialEq, Eq, Structural)]
pub struct I2cInterruptMask {
    bits: u32,
}

impl View for I2cInterruptMask {
    type V = u32;

    closed spec fn view(&self) -> u32 {
        self.bits
    }
}

/// The default master interrupt mask: receive-FIFO-full, abort, and
/// stop-detected, with transmit-FIFO-empty added for ongoing transactions.
pub open spec fn spec_master_mask() -> u32 {
    I2C_INTR_RX_FULL | I2C_INTR_TX_ABRT | I2C_INTR_STOP_DET | I2C_INTR_TX_EMPTY
}

impl I2cInterruptMask {
    /// Creates a value from a raw register word, masking reserved bits.
    pub fn from_bits(raw: u32) -> (r: Self)
        ensures
            r@ == raw & I2C_INTR_MASK,
    {
        Self { bits: raw & I2C_INTR_MASK }
    }

    /// Gets the raw bit pattern.
    pub fn bits(self) -> (r: u32)
        ensures
            r == self@,
    {
        self.bits
    }

    /// Determines whether any flag of `oth` is set in `self`.
    pub fn is_set(self, oth: Self) -> (r: bool)
        ensures
            r == (self@ & oth@ != 0),
    {
        self.bits & oth.bits != 0
    }

    /// The mask with no interrupt enabled.
    pub fn none() -> (r: Self)
        ensures
            r@ == 0,
    {
        Self { bits: 0 }
    }

    /// The mask with the flags of `oth` removed.
    pub fn without(self, oth: Self) -> (r: Self)
        ensures
            r@ == self@ & !oth@,
    {
        Self { bits: self.bits & !oth.bits }
    }

    /// The transmit-FIFO-empty mask flag.
    pub fn tx_empty() -> (r: Self)
        ensures
            r@ == I2C_INTR_TX_EMPTY,
    {
        Self { bits: I2C_INTR_TX_EMPTY }
    }

    /// Gets the default mask for master operation mode.
    pub fn master() -> (r: Self)
        ensures
            r@ == spec_master_mask(),
    {
        Self { bits: I2C_INTR_RX_FULL | I2C_INTR_TX_ABRT | I2C_INTR_STOP_DET | I2C_INTR_TX_EMPTY }
    }

    /// Gets the default mask for slave operation mode.
    pub fn slave() -> (r: Self)
        ensures
            r@ == I2C_INTR_RX_FULL | I2C_INTR_TX_ABRT | I2C_INTR_STOP_DET | I2C_INTR_RX_UNDER
                | I2C_INTR_RD_REQ,
    {
        Self {
            bits: I2C_INTR_RX_FULL | I2C_INTR_TX_ABRT | I2C_INTR_STOP_DET | I2C_INTR_RX_UNDER
                | I2C_INTR_RD_REQ,
        }
    }
}

/// The `CLR_INTR` (aggregate interrupt clear) register bitfield.
#[derive(Clone, Copy, Debug, PartialEq, Eq, Structural)]
pub struct I2cClearInterrupt {
    bits: u32,
}

impl View for I2cClearInterrupt {
    type V = u32;

    closed spec fn view(&self) -> u32 {
        self.bits
    }
}

impl I2cClearInterrupt {
    /// Creates a value from a raw register word, masking reserved bits.
    pub fn from_bits(raw: u32) -> (r: Self)
        ensures
            r@ == raw & I2C_INTR_MASK,
    {
        Self { bits: raw & I2C_INTR_MASK }
    }

    /// Gets the raw bit pattern.
    pub fn bits(self) -> (r: u32)
        ensures
            r == self@,
    {
        self.bits
    }

    /// Determines whether any flag of `oth` is set in `self`.
    pub fn is_set(self, oth: Self) -> (r: bool)
        ensures
            r == (self@ & oth@ != 0),
    {
        self.bits & oth.bits != 0
    }
}

/// The `TAR` (target address) register bitfield.
#[derive(Clone, Copy, Debug, PartialEq, Eq, Structural)]
pub struct I2cTar {
    bits: u32,
}

impl View for I2cTar {
    type V = u32;

    closed spec fn view(&self) -> u32 {
        self.bits
    }
}

impl I2cTar {
    /// Creates a value from a raw register word, masking reserved bits.
    pub fn from_bits(raw: u32) -> (r: Self)
        ensures
            r@ == raw & I2C_TAR_MASK,
    {
        Self { bits: raw & I2C_TAR_MASK }
    }

    /// Gets the raw bit pattern.
    pub fn bits(self) -> (r: u32)
        ensures
            r == self@,
    {
        self.bits
    }

    /// Determines whether any flag of `oth` is set in `self`.
    pub fn is_set(self, oth: Self) -> (r: bool)
        ensures
            r == (self@ & oth@ != 0),
    {
        self.bits & oth.bits != 0
    }

    /// The union of the flags of `self` and `oth`.
    pub fn or(self, oth: Self) -> (r: Self)
        ensures
            r@ == self@ | oth@,
    {
        Self { bits: self.bits | oth.bits }
    }

    /// The 10-bit addressing mode flag.
    pub fn mode_10bit() -> (r: Self)
        ensures
            r@ == I2C_TAR_MODE_10BIT,
    {
        Self { bits: I2C_TAR_MODE_10BIT }
    }

    /// Gets the target address for 7-bit mode.
    pub fn address_7bit(&self) -> (r: u8)
        ensures
            r == (self@ & I2C_TAR_ADDR_MASK_7BIT) as u8,
    {
        (self.bits & I2C_TAR_ADDR_MASK_7BIT) as u8
    }

    /// Gets the target address for 10-bit mode.
    pub fn address_10bit(&self) -> (r: u16)
        ensures
            r == (self@ & I2C_TAR_ADDR_MASK_10BIT) as u16,
    {
        (self.bits & I2C_TAR_ADDR_MASK_10BIT) as u16
    }
}

/// The `SAR` (slave address) register bitfield.
#[derive(Clone, Copy, Debug, PartialEq, Eq, Structural)]
pub struct I2cSar {
    bits: u32,
}

impl View for I2cSar {
    type V = u32;

    closed spec fn view(&self) -> u32 {
        self.bits
    }
}

impl I2cSar {
    /// Creates a value from a raw register word, masking reserved bits.
    pub fn from_bits(raw: u32) -> (r: Self)
        ensures
            r@ == raw & I2C_SAR_MASK,
    {
        Self { bits: raw & I2C_SAR_MASK }
    }

    /// Gets the raw bit pattern.
    pub fn bits(self) -> (r: u32)
        ensures
            r == self@,
    {
        self.bits
    }

    /// Determines whether any flag of `oth` is set in `self`.
    pub fn is_set(self, oth: Self) -> (r: bool)
        ensures
            r == (self@ & oth@ != 0),
    {
        self.bits & oth.bits != 0
    }

    /// Gets the slave address for 7-bit mode.
    pub fn address_7bit(&self) -> (r: u8)
        ensures
            r == (self@ & I2C_SAR_ADDR_MASK_7BIT) as u8,
    {
        (self.bits & I2C_SAR_ADDR_MASK_7BIT) as u8
    }

    /// Gets the slave address for 10-bit mode.
    pub fn address_10bit(&self) -> (r: u16)
        ensures
            r == (self@ & I2C_SAR_ADDR_MASK_10BIT) as u16,
    {
        (self.bits & I2C_SAR_ADDR_MASK_10BIT) as u16
    }
}

/// The `ENABLE` register bitfield.
#[derive(Clone, Copy, Debug, PartialEq, Eq, Structural)]
pub struct I2cEnable {
    bits: u32,
}

impl View for I2cEnable {
    type V = u32;

    closed spec fn view(&self) -> u32 {
        self.bits
    }
}

impl I2cEnable {
    /// Creates a value from a raw register word, masking reserved bits.
    pub fn from_bits(raw: u32) -> (r: Self)
        ensures
            r@ == raw & I2C_ENABLE_MASK,
    {
        Self { bits: raw & I2C_ENABLE_MASK }
    }

    /// Gets the raw bit pattern.
    pub fn bits(self) -> (r: u32)
        ensures
            r == self@,
    {
        self.bits
    }

    /// Determines whether any flag of `oth` is set in `self`.
    pub fn is_set(self, oth: Self) -> (r: bool)
        ensures
            r == (self@ & oth@ != 0),
    {
        self.bits & oth.bits != 0
    }

    /// The value with no flags set: adapter disabled.
    pub fn none() -> (r: Self)
        ensures
            r@ == 0,
    {
        Self { bits: 0 }
    }

    /// The adapter-enable flag.
    pub fn enable() -> (r: Self)
        ensures
            r@ == I2C_ENABLE_ENABLE,
    {
        Self { bits: I2C_ENABLE_ENABLE }
    }

    /// The abort-request flag.
    pub fn abort() -> (r: Self)
        ensures
            r@ == I2C_ENABLE_ABORT,
    {
        Self { bits: I2C_ENABLE_ABORT }
    }
}

/// The `ENABLE_STATUS` register bitfield.
#[derive(Clone, Copy, Debug, PartialEq, Eq, Structural)]
pub struct I2cEnableStatus {
    bits: u32,
}

impl View for I2cEnableStatus {
    type V = u32;

    closed spec fn view(&self) -> u32 {
        self.bits
    }
}

impl I2cEnableStatus {
    /// Creates a value from a raw register word, masking reserved bits.
    pub fn from_bits(raw: u32) -> (r: Self)
        ensures
            r@ == raw & I2C_ENABLE_STATUS_MASK,
    {
        Self { bits: raw & I2C_ENABLE_STATUS_MASK }
    }

    /// Gets the raw bit pattern.
    pub fn bits(self) -> (r: u32)
        ensures
            r == self@,
    {
        self.bits
    }

    /// Determines whether any flag of `oth` is set in `self`.
    pub fn is_set(self, oth: Self) -> (r: bool)
        ensures
            r == (self@ & oth@ != 0),
    {
        self.bits & oth.bits != 0
    }

    /// The hardware-activity status flag.
    pub fn activity() -> (r: Self)
        ensures
            r@ == I2C_ENABLE_STATUS_ACTIVITY,
    {
        Self { bits: I2C_ENABLE_STATUS_ACTIVITY }
    }
}

/// The advertised functionality bitfield.
#[derive(Clone, Copy, Debug, PartialEq, Eq, Structural)]
pub struct I2cFunc {
    bits: u32,
}

impl View for I2cFunc {
    type V = u32;

    closed spec fn view(&self) -> u32 {
        self.bits
    }
}

/// The default feature set advertised for this controller.
pub open spec fn spec_func_default() -> u32 {
    I2C_FUNC_I2C | I2C_FUNC_SMBUS_READ_BYTE | I2C_FUNC_SMBUS_WRITE_BYTE
        | I2C_FUNC_SMBUS_READ_BYTE_DATA | I2C_FUNC_SMBUS_WRITE_BYTE_DATA
        | I2C_FUNC_SMBUS_READ_WORD_DATA | I2C_FUNC_SMBUS_WRITE_WORD_DATA
        | I2C_FUNC_SMBUS_READ_BLOCK_DATA | I2C_FUNC_SMBUS_WRITE_BLOCK_DATA
        | I2C_FUNC_SMBUS_READ_I2C_BLOCK | I2C_FUNC_SMBUS_WRITE_I2C_BLOCK
}

impl I2cFunc {
    /// Gets the raw bit pattern.
    pub fn bits(self) -> (r: u32)
        ensures
            r == self@,
    {
        self.bits
    }

    /// Determines whether any flag of `oth` is set in `self`.
    pub fn is_set(self, oth: Self) -> (r: bool)
        ensures
            r == (self@ & oth@ != 0),
    {
        self.bits & oth.bits != 0
    }

    /// The union of the flags of `self` and `oth`.
    pub fn or(self, oth: Self) -> (r: Self)
        ensures
            r@ == self@ | oth@,
    {
        Self { bits: self.bits | oth.bits }
    }

    /// The value with no features advertised.
    pub fn none() -> (r: Self)
        ensures
            r@ == 0,
    {
        Self { bits: 0 }
    }

    /// The 10-bit-address capability flag.
    pub fn address_10bit() -> (r: Self)
        ensures
            r@ == I2C_FUNC_ADDRESS_10BIT,
    {
        Self { bits: I2C_FUNC_ADDRESS_10BIT }
    }

    /// Gets the default feature set for this controller.
    pub fn default_set() -> (r: Self)
        ensures
            r@ == spec_func_default(),
    {
        Self {
            bits: I2C_FUNC_I2C | I2C_FUNC_SMBUS_READ_BYTE | I2C_FUNC_SMBUS_WRITE_BYTE
                | I2C_FUNC_SMBUS_READ_BYTE_DATA | I2C_FUNC_SMBUS_WRITE_BYTE_DATA
                | I2C_FUNC_SMBUS_READ_WORD_DATA | I2C_FUNC_SMBUS_WRITE_WORD_DATA
                | I2C_FUNC_SMBUS_READ_BLOCK_DATA | I2C_FUNC_SMBUS_WRITE_BLOCK_DATA
                | I2C_FUNC_SMBUS_READ_I2C_BLOCK | I2C_FUNC_SMBUS_WRITE_I2C_BLOCK,
        }
    }
}

/// The `DATA_CMD` (FIFO data-command) register bitfield.
#[derive(Clone, Copy, Debug, PartialEq, Eq, Structural)]
pub struct I2cDataCmd {
    bits: u32,
}

impl View for I2cDataCmd {
    type V = u32;

    closed spec fn view(&self) -> u32 {
        self.bits
    }
}

impl I2cDataCmd {
    /// Creates a new [`I2cDataCmd`] with no flags and zero data.
    pub fn new() -> (r: Self)
        ensures
            r@ == 0,
    {
        Self { bits: 0 }
    }

    /// Creates a value from a raw register word, masking reserved bits.
    pub fn from_bits(raw: u32) -> (r: Self)
        ensures
            r@ == raw & I2C_DATA_CMD_MASK,
    {
        Self { bits: raw & I2C_DATA_CMD_MASK }
    }

    /// Creates a data-only command carrying the given byte.
    pub fn from_byte(val: u8) -> (r: Self)
        ensures
            r@ == val as u32,
    {
        Self { bits: val as u32 }
    }

    /// Gets the raw bit pattern.
    pub fn bits(self) -> (r: u32)
        ensures
            r == self@,
    {
        self.bits
    }

    /// Determines whether any flag of `oth` is set in `self`.
    pub fn is_set(self, oth: Self) -> (r: bool)
        ensures
            r == (self@ & oth@ != 0),
    {
        self.bits & oth.bits != 0
    }

    /// The union of the flags of `self` and `oth`.
    pub fn or(self, oth: Self) -> (r: Self)
        ensures
            r@ == self@ | oth@,
    {
        Self { bits: self.bits | oth.bits }
    }

    /// The read-command flag.
    pub fn read() -> (r: Self)
        ensures
            r@ == I2C_DATA_CMD_READ,
    {
        Self { bits: I2C_DATA_CMD_READ }
    }

    /// The stop flag.
    pub fn stop() -> (r: Self)
        ensures
            r@ == I2C_DATA_CMD_STOP,
    {
        Self { bits: I2C_DATA_CMD_STOP }
    }

    /// The restart flag.
    pub fn restart() -> (r: Self)
        ensures
            r@ == I2C_DATA_CMD_RESTART,
    {
        Self { bits: I2C_DATA_CMD_RESTART }
    }

    /// Gets the data byte.
    pub fn data(&self) -> (r: u8)
        ensures
            r == (self@ & I2C_DATA_CMD_DATA_MASK) as u8,
    {
        (self.bits & I2C_DATA_CMD_DATA_MASK) as u8
    }

    /// Sets the data byte, keeping the command flags.
    pub fn set_data(&mut self, val: u8)
        ensures
            final(self)@ == (old(self)@ & !I2C_DATA_CMD_DATA_MASK) | val as u32,
    {
        self.bits = (self.bits & !I2C_DATA_CMD_DATA_MASK) | val as u32;
    }

    /// Builder function that sets the data byte, keeping the command flags.
    pub fn with_data(self, val: u8) -> (r: Self)
        ensures
            r@ == (self@ & !I2C_DATA_CMD_DATA_MASK) | val as u32,
    {
        let mut out = self;
        out.set_data(val);
        out
    }
}

/// The `TX_ABRT_SOURCE` (abort source) register bitfield.
///
/// The hardware zeroes this register when the abort interrupt is
/// acknowledged, so its value must be captured before the acknowledgement.
#[derive(Clone, Copy, Debug, PartialEq, Eq, Structural)]
pub struct I2cTxAbortSource {
    bits: u32,
}

impl View for I2cTxAbortSource {
    type V = u32;

    closed spec fn view(&self) -> u32 {
        self.bits
    }
}

impl I2cTxAbortSource {
    /// Creates a value from a raw register word, masking reserved bits.
    pub fn from_bits(raw: u32) -> (r: Self)
        ensures
            r@ == raw & I2C_ABRT_MASK,
    {
        Self { bits: raw & I2C_ABRT_MASK }
    }

    /// The value with no abort reason recorded.
    pub fn none() -> (r: Self)
        ensures
            r@ == 0,
    {
        Self { bits: 0 }
    }

    /// Gets the raw bit pattern.
    pub fn bits(self) -> (r: u32)
        ensures
            r == self@,
    {
        self.bits
    }

    /// Determines whether any flag of `oth` is set in `self`.
    pub fn is_set(self, oth: Self) -> (r: bool)
        ensures
            r == (self@ & oth@ != 0),
    {
        self.bits & oth.bits != 0
    }
}

} // verus!
