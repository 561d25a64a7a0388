//! Register mapping.

use vstd::prelude::*;

verus! {

#[allow(non_camel_case_types)]
#[derive(Clone, Copy)]
pub enum Registers {
    /// Control Register 1.
    CTRL_REG1,
}

impl Registers {
    /// The register's bus address.
    pub open spec fn spec_addr(self) -> u8 {
        match self {
            Registers::CTRL_REG1 => 0x20,
        }
    }

    pub fn addr(self) -> (r: u8)
        ensures
            r == self.spec_addr(),
    {
        match self {
            Registers::CTRL_REG1 => 0x20,
        }
    }
}

} // verus!
