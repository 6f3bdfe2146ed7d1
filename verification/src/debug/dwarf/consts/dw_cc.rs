//! Calling convention encoding (figure 33 of the DWARF 4 standard)

use vstd::prelude::*;

verus! {

pub const NORMAL: u8 = 0x01;

pub const PROGRAM: u8 = 0x02;

pub const NOCALL: u8 = 0x03;

/// Calling convention encoding
#[derive(Clone, Copy, Debug, PartialEq, Eq, Structural)]
pub enum DWCC {
    Normal,
    Program,
    NoCall,
}

impl DWCC {
    /// The number that the standard gives the value.
    pub open spec fn code(&self) -> u8 {
        match self {
            DWCC::NoCall => 0x03,
            DWCC::Normal => 0x01,
            DWCC::Program => 0x02,
        }
    }

    /// The name that the standard gives the value.
    pub open spec fn name(&self) -> Seq<char> {
        match self {
            DWCC::NoCall => "DW_CC_NOCALL"@,
            DWCC::Normal => "DW_CC_NORMAL"@,
            DWCC::Program => "DW_CC_PROGRAM"@,
        }
    }

    /// The number that the standard gives the value.
    pub fn as_u8(&self) -> (code: u8)
        ensures
            code == self.code(),
    {
        match self {
            DWCC::NoCall => NOCALL,
            DWCC::Normal => NORMAL,
            DWCC::Program => PROGRAM,
        }
    }

    /// The name that the standard gives the value.
    pub fn as_str(&self) -> (name: &'static str)
        ensures
            name@ == self.name(),
    {
        match self {
            DWCC::NoCall => "DW_CC_NOCALL",
            DWCC::Normal => "DW_CC_NORMAL",
            DWCC::Program => "DW_CC_PROGRAM",
        }
    }
}

} // verus!
