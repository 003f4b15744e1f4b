//! Electrical timing parameters of the two-wire bus.
//!
//! The engine never derives clock counts from a frequency: it only stores and
//! forwards whatever parameters the caller supplies.

use vstd::prelude::*;
use crate::i2c::mode::I2cSpeedMode;

verus! {

/// Bus timing information supplied by the caller.
#[derive(Clone, Copy, Debug, PartialEq, Eq, Structural)]
pub struct I2cTimings {
    pub bus_freq_hz: I2cSpeedMode,
    pub scl_rise_ns: u32,
    pub scl_fall_ns: u32,
    pub scl_int_delay_ns: u32,
    pub sda_fall_ns: u32,
    pub sda_hold_ns: u32,
    pub digital_filter_width_ns: u32,
    pub analog_filter_cutoff_freq_hz: u32,
}

impl I2cTimings {
    /// Creates a new [`I2cTimings`] with the standard speed class and all
    /// other parameters zero.
    pub fn new() -> (r: Self)
        ensures
            r == (I2cTimings {
                bus_freq_hz: I2cSpeedMode::Standard,
                scl_rise_ns: 0,
                scl_fall_ns: 0,
                scl_int_delay_ns: 0,
                sda_fall_ns: 0,
                sda_hold_ns: 0,
                digital_filter_width_ns: 0,
                analog_filter_cutoff_freq_hz: 0,
            }),
    {
        Self {
            bus_freq_hz: I2cSpeedMode::new(),
            scl_rise_ns: 0,
            scl_fall_ns: 0,
            scl_int_delay_ns: 0,
            sda_fall_ns: 0,
            sda_hold_ns: 0,
            digital_filter_width_ns: 0,
            analog_filter_cutoff_freq_hz: 0,
        }
    }

    /// Gets the bus speed class.
    pub fn bus_freq_hz(&self) -> (r: I2cSpeedMode)
        ensures
            r == self.bus_freq_hz,
    {
        self.bus_freq_hz
    }

    /// Sets the bus speed class.
    pub fn set_bus_freq_hz(&mut self, val: I2cSpeedMode)
        ensures
            *final(self) == (I2cTimings { bus_freq_hz: val, ..*old(self) }),
    {
        self.bus_freq_hz = val;
    }

    /// Builder function that sets the bus speed class.
    pub fn with_bus_freq_hz(self, val: I2cSpeedMode) -> (r: Self)
        ensures
            r == (I2cTimings { bus_freq_hz: val, ..self }),
    {
        let mut out = self;
        out.set_bus_freq_hz(val);
        out
    }

    /// Gets the time the SCL signal takes to rise, in nanoseconds.
    pub fn scl_rise_ns(&self) -> (r: u32)
        ensures
            r == self.scl_rise_ns,
    {
        self.scl_rise_ns
    }

    /// Sets the time the SCL signal takes to rise, in nanoseconds.
    pub fn set_scl_rise_ns(&mut self, val: u32)
        ensures
            *final(self) == (I2cTimings { scl_rise_ns: val, ..*old(self) }),
    {
        self.scl_rise_ns = val;
    }

    /// Builder function that sets the SCL rise time, in nanoseconds.
    pub fn with_scl_rise_ns(self, val: u32) -> (r: Self)
        ensures
            r == (I2cTimings { scl_rise_ns: val, ..self }),
    {
        let mut out = self;
        out.set_scl_rise_ns(val);
        out
    }

    /// Gets the time the SCL signal takes to fall, in nanoseconds.
    pub fn scl_fall_ns(&self) -> (r: u32)
        ensures
            r == self.scl_fall_ns,
    {
        self.scl_fall_ns
    }

    /// Sets the time the SCL signal takes to fall, in nanoseconds.
    pub fn set_scl_fall_ns(&mut self, val: u32)
        ensures
            *final(self) == (I2cTimings { scl_fall_ns: val, ..*old(self) }),
    {
        self.scl_fall_ns = val;
    }

    /// Builder function that sets the SCL fall time, in nanoseconds.
    pub fn with_scl_fall_ns(self, val: u32) -> (r: Self)
        ensures
            r == (I2cTimings { scl_fall_ns: val, ..self }),
    {
        let mut out = self;
        out.set_scl_fall_ns(val);
        out
    }

    /// Gets the additional SCL setup time the controller needs, in
    /// nanoseconds.
    pub fn scl_int_delay_ns(&self) -> (r: u32)
        ensures
            r == self.scl_int_delay_ns,
    {
        self.scl_int_delay_ns
    }

    /// Sets the additional SCL setup time the controller needs, in
    /// nanoseconds.
    pub fn set_scl_int_delay_ns(&mut self, val: u32)
        ensures
            *final(self) == (I2cTimings { scl_int_delay_ns: val, ..*old(self) }),
    {
        self.scl_int_delay_ns = val;
    }

    /// Builder function that sets the additional SCL setup time, in
    /// nanoseconds.
    pub fn with_scl_int_delay_ns(self, val: u32) -> (r: Self)
        ensures
            r == (I2cTimings { scl_int_delay_ns: val, ..self }),
    {
        let mut out = self;
        out.set_scl_int_delay_ns(val);
        out
    }

    /// Gets the time the SDA signal takes to fall, in nanoseconds.
    pub fn sda_fall_ns(&self) -> (r: u32)
        ensures
            r == self.sda_fall_ns,
    {
        self.sda_fall_ns
    }

    /// Sets the time the SDA signal takes to fall, in nanoseconds.
    pub fn set_sda_fall_ns(&mut self, val: u32)
        ensures
            *final(self) == (I2cTimings { sda_fall_ns: val, ..*old(self) }),
    {
        self.sda_fall_ns = val;
    }

    /// Builder function that sets the SDA fall time, in nanoseconds.
    pub fn with_sda_fall_ns(self, val: u32) -> (r: Self)
        ensures
            r == (I2cTimings { sda_fall_ns: val, ..self }),
    {
        let mut out = self;
        out.set_sda_fall_ns(val);
        out
    }

    /// Gets the additional SDA hold time the controller needs, in
    /// nanoseconds.
    pub fn sda_hold_ns(&self) -> (r: u32)
        ensures
            r == self.sda_hold_ns,
    {
        self.sda_hold_ns
    }

    /// Sets the additional SDA hold time the controller needs, in
    /// nanoseconds.
    pub fn set_sda_hold_ns(&mut self, val: u32)
        ensures
            *final(self) == (I2cTimings { sda_hold_ns: val, ..*old(self) }),
    {
        self.sda_hold_ns = val;
    }

    /// Builder function that sets the additional SDA hold time, in
    /// nanoseconds.
    pub fn with_sda_hold_ns(self, val: u32) -> (r: Self)
        ensures
            r == (I2cTimings { sda_hold_ns: val, ..self }),
    {
        let mut out = self;
        out.set_sda_hold_ns(val);
        out
    }

    /// Gets the width of spikes the digital filter can remove, in
    /// nanoseconds.
    pub fn digital_filter_width_ns(&self) -> (r: u32)
        ensures
            r == self.digital_filter_width_ns,
    {
        self.digital_filter_width_ns
    }

    /// Sets the width of spikes the digital filter can remove, in
    /// nanoseconds.
    pub fn set_digital_filter_width_ns(&mut self, val: u32)
        ensures
            *final(self) == (I2cTimings { digital_filter_width_ns: val, ..*old(self) }),
    {
        self.digital_filter_width_ns = val;
    }

    /// Builder function that sets the digital filter width, in nanoseconds.
    pub fn with_digital_filter_width_ns(self, val: u32) -> (r: Self)
        ensures
            r == (I2cTimings { digital_filter_width_ns: val, ..self }),
    {
        let mut out = self;
        out.set_digital_filter_width_ns(val);
        out
    }

    /// Gets the cutoff frequency of the low-pass analog filter, in Hertz.
    pub fn analog_filter_cutoff_freq_hz(&self) -> (r: u32)
        ensures
            r == self.analog_filter_cutoff_freq_hz,
    {
        self.analog_filter_cutoff_freq_hz
    }

    /// Sets the cutoff frequency of the low-pass analog filter, in Hertz.
    pub fn set_analog_filter_cutoff_freq_hz(&mut self, val: u32)
        ensures
            *final(self) == (I2cTimings { analog_filter_cutoff_freq_hz: val, ..*old(self) }),
    {
        self.analog_filter_cutoff_freq_hz = val;
    }

    /// Builder function that sets the analog filter cutoff frequency, in
    /// Hertz.
    pub fn with_analog_filter_cutoff_freq_hz(self, val: u32) -> (r: Self)
        ensures
            r == (I2cTimings { analog_filter_cutoff_freq_hz: val, ..self }),
    {
        let mut out = self;
        out.set_analog_filter_cutoff_freq_hz(val);
        out
    }
}

} // verus!
