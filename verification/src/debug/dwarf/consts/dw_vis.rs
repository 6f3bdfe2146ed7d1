//! Visibility encoding (figure 29 of the DWARF 4 standard)

use vstd::prelude::*;

verus! {

pub const LOCAL: u8 = 0x01;

pub const EXPORTED: u8 = 0x02;

pub const QUALIFIED: u8 = 0x03;

/// Visibility encoding
#[derive(Clone, Copy, Debug, PartialEq, Eq, Structural)]
pub enum Visibility {
    Local,
    Exported,
    Qualified,
}

impl Visibility {
    /// The number that the standard gives the value.
    pub open spec fn code(&self) -> u8 {
        match self {
            Visibility::Local => 0x01,
            Visibility::Exported => 0x02,
            Visibility::Qualified => 0x03,
        }
    }

    /// The name that the standard gives the value.
    pub open spec fn name(&self) -> Seq<char> {
        match self {
            Visibility::Local => "DW_VIS_LOCAL"@,
            Visibility::Exported => "DW_VIS_EXPORTED"@,
            Visibility::Qualified => "DW_VIS_QUALIFIED"@,
        }
    }

    /// The number that the standard gives the value.
    pub fn as_u8(&self) -> (code: u8)
        ensures
            code == self.code(),
    {
        match self {
            Visibility::Local => LOCAL,
            Visibility::Exported => EXPORTED,
            Visibility::Qualified => QUALIFIED,
        }
    }

    /// The name that the standard gives the value.
    pub fn as_str(&self) -> (name: &'static str)
        ensures
            name@ == self.name(),
    {
        match self {
            Visibility::Local => "DW_VIS_LOCAL",
            Visibility::Exported => "DW_VIS_EXPORTED",
            Visibility::Qualified => "DW_VIS_QUALIFIED",
        }
    }
}

} // verus!
