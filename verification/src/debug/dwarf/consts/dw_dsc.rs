//! Discriminant encoding (figure 35 of the DWARF 4 standard)

use vstd::prelude::*;

verus! {

pub const LABEL: u8 = 0x00;

pub const RANGE: u8 = 0x01;

/// Discriminant encoding
#[derive(Clone, Copy, Debug, PartialEq, Eq, Structural)]
pub enum Discriminant {
    Label,
    Range,
}

impl Discriminant {
    /// The number that the standard gives the value.
    pub open spec fn code(&self) -> u8 {
        match self {
            Discriminant::Label => 0x00,
            Discriminant::Range => 0x01,
        }
    }

    /// The name that the standard gives the value.
    pub open spec fn name(&self) -> Seq<char> {
        match self {
            Discriminant::Label => "DW_DSC_LABEL"@,
            Discriminant::Range => "DW_DSC_RANGE"@,
        }
    }

    /// The number that the standard gives the value.
    pub fn as_u8(&self) -> (code: u8)
        ensures
            code == self.code(),
    {
        match self {
            Discriminant::Label => LABEL,
            Discriminant::Range => RANGE,
        }
    }

    /// The name that the standard gives the value.
    pub fn as_str(&self) -> (name: &'static str)
        ensures
            name@ == self.name(),
    {
        match self {
            Discriminant::Label => "DW_DSC_LABEL",
            Discriminant::Range => "DW_DSC_RANGE",
        }
    }
}

} // verus!
