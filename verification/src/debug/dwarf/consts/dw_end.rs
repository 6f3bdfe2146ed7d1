//! Endianity sign encoding (figure 26 of the DWARF 4 standard)

use vstd::prelude::*;

verus! {

pub const DEFAULT: u8 = 0x00;

pub const BIG: u8 = 0x01;

pub const LITTLE: u8 = 0x02;

/// Endianity sign encoding
#[derive(Clone, Copy, Debug, PartialEq, Eq, Structural)]
pub enum Endianity {
    Default,
    Big,
    Little,
}

impl Endianity {
    /// The number that the standard gives the value.
    pub open spec fn code(&self) -> u8 {
        match self {
            Endianity::Default => 0x00,
            Endianity::Big => 0x01,
            Endianity::Little => 0x02,
        }
    }

    /// The name that the standard gives the value.
    pub open spec fn name(&self) -> Seq<char> {
        match self {
            Endianity::Default => "DW_END_DEFAULT"@,
            Endianity::Big => "DW_END_BIG"@,
            Endianity::Little => "DW_END_LITTLE"@,
        }
    }

    /// The number that the standard gives the value.
    pub fn as_u8(&self) -> (code: u8)
        ensures
            code == self.code(),
    {
        match self {
            Endianity::Default => DEFAULT,
            Endianity::Big => BIG,
            Endianity::Little => LITTLE,
        }
    }

    /// The name that the standard gives the value.
    pub fn as_str(&self) -> (name: &'static str)
        ensures
            name@ == self.name(),
    {
        match self {
            Endianity::Default => "DW_END_DEFAULT",
            Endianity::Big => "DW_END_BIG",
            Endianity::Little => "DW_END_LITTLE",
        }
    }
}

} // verus!
