use vstd::prelude::*;

verus! {

/// Bus frequency of the standard speed class, in Hertz.
pub const I2C_SPEED_MODE_STD: u32 = 100_000;
/// Bus frequency of the fast speed class, in Hertz.
pub const I2C_SPEED_MODE_FAST: u32 = 400_000;
/// Bus frequency of the fast-plus speed class, in Hertz.
pub const I2C_SPEED_MODE_FAST_PLUS: u32 = 1_000_000;
/// Bus frequency of the turbo speed class, in Hertz.
pub const I2C_SPEED_MODE_TURBO: u32 = 1_400_000;
/// Bus frequency of the high speed class, in Hertz.
pub const I2C_SPEED_MODE_HIGH: u32 = 3_400_000;
/// Bus frequency of the ultra-fast speed class, in Hertz.
pub const I2C_SPEED_MODE_ULTRA_FAST: u32 = 5_000_000;

/// Raw encoding of master operation mode.
pub const I2C_OP_MODE_MASTER: u32 = 0;
/// Raw encoding of slave operation mode.
pub const I2C_OP_MODE_SLAVE: u32 = 1;

/// Bus frequency classes of the two-wire bus.
#[derive(Clone, Copy, Debug, PartialEq, Eq, Structural)]
pub enum I2cSpeedMode {
    Standard,
    Fast,
    FastPlus,
    Turbo,
    High,
    UltraFast,
}

impl I2cSpeedMode {
    /// Creates a new [`I2cSpeedMode`] with the default (standard) class.
    pub fn new() -> (r: Self)
        ensures
            r == I2cSpeedMode::Standard,
    {
        I2cSpeedMode::Standard
    }

    /// The speed class selected by a raw frequency value; any frequency that
    /// matches no class falls back to standard.
    pub open spec fn spec_create(val: u32) -> Self {
        if val == I2C_SPEED_MODE_STD {
            I2cSpeedMode::Standard
        } else if val == I2C_SPEED_MODE_FAST {
            I2cSpeedMode::Fast
        } else if val == I2C_SPEED_MODE_FAST_PLUS {
            I2cSpeedMode::FastPlus
        } else if val == I2C_SPEED_MODE_TURBO {
            I2cSpeedMode::Turbo
        } else if val == I2C_SPEED_MODE_HIGH {
            I2cSpeedMode::High
        } else if val == I2C_SPEED_MODE_ULTRA_FAST {
            I2cSpeedMode::UltraFast
        } else {
            I2cSpeedMode::Standard
        }
    }

    /// Creates a new [`I2cSpeedMode`] from a raw frequency value.
    pub fn create(val: u32) -> (r: Self)
        ensures
            r == Self::spec_create(val),
    {
        if val == I2C_SPEED_MODE_STD {
            I2cSpeedMode::Standard
        } else if val == I2C_SPEED_MODE_FAST {
            I2cSpeedMode::Fast
        } else if val == I2C_SPEED_MODE_FAST_PLUS {
            I2cSpeedMode::FastPlus
        } else if val == I2C_SPEED_MODE_TURBO {
            I2cSpeedMode::Turbo
        } else if val == I2C_SPEED_MODE_HIGH {
            I2cSpeedMode::High
        } else if val == I2C_SPEED_MODE_ULTRA_FAST {
            I2cSpeedMode::UltraFast
        } else {
            I2cSpeedMode::Standard
        }
    }

    /// The bus frequency of this speed class, in Hertz.
    pub open spec fn spec_hz(self) -> u32 {
        match self {
            I2cSpeedMode::Standard => I2C_SPEED_MODE_STD,
            I2cSpeedMode::Fast => I2C_SPEED_MODE_FAST,
            I2cSpeedMode::FastPlus => I2C_SPEED_MODE_FAST_PLUS,
            I2cSpeedMode::Turbo => I2C_SPEED_MODE_TURBO,
            I2cSpeedMode::High => I2C_SPEED_MODE_HIGH,
            I2cSpeedMode::UltraFast => I2C_SPEED_MODE_ULTRA_FAST,
        }
    }

    /// Gets the bus frequency of this speed class, in Hertz.
    pub fn hz(self) -> (r: u32)
        ensures
            r == self.spec_hz(),
    {
        match self {
            I2cSpeedMode::Standard => I2C_SPEED_MODE_STD,
            I2cSpeedMode::Fast => I2C_SPEED_MODE_FAST,
            I2cSpeedMode::FastPlus => I2C_SPEED_MODE_FAST_PLUS,
            I2cSpeedMode::Turbo => I2C_SPEED_MODE_TURBO,
            I2cSpeedMode::High => I2C_SPEED_MODE_HIGH,
            I2cSpeedMode::UltraFast => I2C_SPEED_MODE_ULTRA_FAST,
        }
    }
}

/// Operation mode of the two-wire bus controller; this crate implements the
/// master mode only.
#[derive(Clone, Copy, Debug, PartialEq, Eq, Structural)]
pub enum I2cOpMode {
    Master,
    Slave,
}

impl I2cOpMode {
    /// Creates a new [`I2cOpMode`] with the default (master) mode.
    pub fn new() -> (r: Self)
        ensures
            r == I2cOpMode::Master,
    {
        I2cOpMode::Master
    }

    /// The operation mode encoded by a raw value; any value that matches no
    /// mode falls back to master.
    pub open spec fn spec_create(val: u32) -> Self {
        if val == I2C_OP_MODE_SLAVE {
            I2cOpMode::Slave
        } else {
            I2cOpMode::Master
        }
    }

    /// Creates a new [`I2cOpMode`] from a raw value.
    pub fn create(val: u32) -> (r: Self)
        ensures
            r == Self::spec_create(val),
    {
        if val == I2C_OP_MODE_SLAVE {
            I2cOpMode::Slave
        } else {
            I2cOpMode::Master
        }
    }

    /// The raw encoding of this operation mode.
    pub open spec fn spec_raw(self) -> u32 {
        match self {
            I2cOpMode::Master => I2C_OP_MODE_MASTER,
            I2cOpMode::Slave => I2C_OP_MODE_SLAVE,
        }
    }

    /// Gets the raw encoding of this operation mode.
    pub fn raw(self) -> (r: u32)
        ensures
            r == self.spec_raw(),
    {
        match self {
            I2cOpMode::Master => I2C_OP_MODE_MASTER,
            I2cOpMode::Slave => I2C_OP_MODE_SLAVE,
        }
    }
}

} // verus!
