//! The sensor's status byte and its named conditions.
//!
//! Bit layout (datasheet, version 1.1):
//!
//! * bit 7: busy
//! * bits 6-5: 00 normal mode, 01 cyclic mode, 1x command mode
//! * bit 4: reserved
//! * bit 3: calibration enabled
//! * bits 2-0: reserved

use vstd::prelude::*;

verus! {

pub const BUSY_VALUE: u8 = 128;
pub const NORMODE_VALUE: u8 = 0;
pub const CYCMODE_VALUE: u8 = 32;
pub const CMDMODE_VALUE: u8 = 64;
pub const CALENABLED_VAL: u8 = 8;

pub const BUSY_BM: u8 = 1 << 7;
pub const NORMODE_BM: u8 = (1 << 6) | (1 << 5);
pub const CYCMODE_BM: u8 = (1 << 6) | (1 << 5);
pub const CMDMODE_BM: u8 = 1 << 6;
pub const CALENABLED_BM: u8 = 1 << 3;

/// True when the busy bit (bit 7) of a raw status byte is set.
pub open spec fn spec_is_busy(status: u8) -> bool {
    status & BUSY_BM == BUSY_VALUE
}

/// True when the calibration-enabled bit (bit 3) of a raw status byte is set.
pub open spec fn spec_is_calibration_enabled(status: u8) -> bool {
    status & CALENABLED_BM == CALENABLED_VAL
}

/// True when bits 6-5 of a raw status byte read 00 (normal mode).
pub open spec fn spec_is_normal_mode(status: u8) -> bool {
    status & NORMODE_BM == NORMODE_VALUE
}

/// True when bits 6-5 of a raw status byte read 01 (cyclic mode).
pub open spec fn spec_is_cyc_mode(status: u8) -> bool {
    status & CYCMODE_BM == CYCMODE_VALUE
}

/// True when bit 6 of a raw status byte is set (command mode).
pub open spec fn spec_is_cmd_mode(status: u8) -> bool {
    status & CMDMODE_BM == CMDMODE_VALUE
}

/// A wrapper around the raw status byte that abstracts the needed bitwise
/// operations into boolean queries. Any byte value is a legal status.
pub struct SensorStatus {
    pub status: u8,
}

impl SensorStatus {
    pub fn new(status: u8) -> (s: SensorStatus)
        ensures
            s.status == status,
    {
        SensorStatus { status }
    }

    pub fn is_busy(&self) -> (r: bool)
        ensures
            r == spec_is_busy(self.status),
    {
        (self.status & BUSY_BM) == BUSY_VALUE
    }

    pub fn is_calibration_enabled(&self) -> (r: bool)
        ensures
            r == spec_is_calibration_enabled(self.status),
    {
        (self.status & CALENABLED_BM) == CALENABLED_VAL
    }

    pub fn is_normal_mode(&self) -> (r: bool)
        ensures
            r == spec_is_normal_mode(self.status),
    {
        (self.status & NORMODE_BM) == NORMODE_VALUE
    }

    pub fn is_cyc_mode(&self) -> (r: bool)
        ensures
            r == spec_is_cyc_mode(self.status),
    {
        (self.status & CYCMODE_BM) == CYCMODE_VALUE
    }

    pub fn is_cmd_mode(&self) -> (r: bool)
        ensures
            r == spec_is_cmd_mode(self.status),
    {
        (self.status & CMDMODE_BM) == CMDMODE_VALUE
    }
}

} // verus!
