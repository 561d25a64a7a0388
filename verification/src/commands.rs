//! The sensor's command set: single-byte opcodes from the datasheet.

use vstd::prelude::*;

verus! {

pub const READ_STATUS: u8 = 0x71;
pub const INIT_SENSOR: u8 = 0xBE;
pub const CALIBRATE: u8 = 0xE1;
pub const TRIG_MESSURE: u8 = 0xAC;
pub const SOFT_RESET: u8 = 0xBA;

/// A device command, one per opcode the sensor understands.
#[derive(Clone, Copy)]
pub enum Command {
    ReadStatus,
    InitSensor,
    Calibrate,
    TrigMessure,
    SoftReset,
}

impl Command {
    /// The opcode byte sent over the bus for this command.
    pub open spec fn spec_opcode(self) -> u8 {
        match self {
            Command::ReadStatus => READ_STATUS,
            Command::InitSensor => INIT_SENSOR,
            Command::Calibrate => CALIBRATE,
            Command::TrigMessure => TRIG_MESSURE,
            Command::SoftReset => SOFT_RESET,
        }
    }

    pub fn opcode(self) -> (r: u8)
        ensures
            r == self.spec_opcode(),
    {
        match self {
            Command::ReadStatus => READ_STATUS,
            Command::InitSensor => INIT_SENSOR,
            Command::Calibrate => CALIBRATE,
            Command::TrigMessure => TRIG_MESSURE,
            Command::SoftReset => SOFT_RESET,
        }
    }
}

} // verus!
