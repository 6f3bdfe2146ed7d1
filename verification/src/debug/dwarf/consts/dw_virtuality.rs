//! Virtuality encoding (figure 30 of the DWARF 4 standard)

use vstd::prelude::*;

verus! {

pub const NONE: u8 = 0x00;

pub const VIRTUAL: u8 = 0x01;

pub const PURE_VIRTUAL: u8 = 0x02;

/// Virtuality encoding
#[derive(Clone, Copy, Debug, PartialEq, Eq, Structural)]
pub enum Virtuality {
    NotVirtual,
    Virtual,
    PureVirtual,
}

impl Virtuality {
    /// The number that the standard gives the value.
    pub open spec fn code(&self) -> u8 {
        match self {
            Virtuality::NotVirtual => 0x00,
            Virtuality::Virtual => 0x01,
            Virtuality::PureVirtual => 0x02,
        }
    }

    /// The name that the standard gives the value.
    pub open spec fn name(&self) -> Seq<char> {
        match self {
            Virtuality::NotVirtual => "DW_VIRTUALITY_NONE"@,
            Virtuality::Virtual => "DW_VIRTUALITY_VIRTUAL"@,
            Virtuality::PureVirtual => "DW_VIRTUALITY_PURE_VIRTUAL"@,
        }
    }

    /// The number that the standard gives the value.
    pub fn as_u8(&self) -> (code: u8)
        ensures
            code == self.code(),
    {
        match self {
            Virtuality::NotVirtual => NONE,
            Virtuality::Virtual => VIRTUAL,
            Virtuality::PureVirtual => PURE_VIRTUAL,
        }
    }

    /// The name that the standard gives the value.
    pub fn as_str(&self) -> (name: &'static str)
        ensures
            name@ == self.name(),
    {
        match self {
            Virtuality::NotVirtual => "DW_VIRTUALITY_NONE",
            Virtuality::Virtual => "DW_VIRTUALITY_VIRTUAL",
            Virtuality::PureVirtual => "DW_VIRTUALITY_PURE_VIRTUAL",
        }
    }
}

} // verus!
