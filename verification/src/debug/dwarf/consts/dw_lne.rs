//! Line Number Extended Opcode encoding (figure 38 of the DWARF 4 standard)

use vstd::prelude::*;

verus! {

pub const END_SEQUENCE: u8 = 0x01;

pub const SET_ADDRESS: u8 = 0x02;

pub const DEFINE_FILE: u8 = 0x03;

pub const SET_DISCRIMINATOR: u8 = 0x04;

/// Line Number Extended Opcode encoding
#[derive(Clone, Copy, Debug, PartialEq, Eq, Structural)]
pub enum LNEO {
    EndSequence,
    SetAddress,
    DefineFile,
    SetDisciminator,
}

impl LNEO {
    /// The number that the standard gives the value.
    pub open spec fn code(&self) -> u8 {
        match self {
            LNEO::EndSequence => 0x01,
            LNEO::SetAddress => 0x02,
            LNEO::DefineFile => 0x03,
            LNEO::SetDisciminator => 0x04,
        }
    }

    /// The name that the standard gives the value.
    pub open spec fn name(&self) -> Seq<char> {
        match self {
            LNEO::EndSequence => "DW_LNE_END_SEQUENCE"@,
            LNEO::SetAddress => "DW_LNE_SET_ADDRESS"@,
            LNEO::DefineFile => "DW_LNE_DEFINE_FILE"@,
            LNEO::SetDisciminator => "DW_LNE_SET_DISCRIMINATOR"@,
        }
    }

    /// The number that the standard gives the value.
    pub fn as_u8(&self) -> (code: u8)
        ensures
            code == self.code(),
    {
        match self {
            LNEO::EndSequence => END_SEQUENCE,
            LNEO::SetAddress => SET_ADDRESS,
            LNEO::DefineFile => DEFINE_FILE,
            LNEO::SetDisciminator => SET_DISCRIMINATOR,
        }
    }

    /// The name that the standard gives the value.
    pub fn as_str(&self) -> (name: &'static str)
        ensures
            name@ == self.name(),
    {
        match self {
            LNEO::EndSequence => "DW_LNE_END_SEQUENCE",
            LNEO::SetAddress => "DW_LNE_SET_ADDRESS",
            LNEO::DefineFile => "DW_LNE_DEFINE_FILE",
            LNEO::SetDisciminator => "DW_LNE_SET_DISCRIMINATOR",
        }
    }
}

} // verus!
