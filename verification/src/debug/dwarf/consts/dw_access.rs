//! Accessibility encoding (figure 25 of the DWARF 4 standard)

use vstd::prelude::*;

verus! {

pub const PUBLIC: u8 = 0x01;

pub const PROTECTED: u8 = 0x02;

pub const PRIVATE: u8 = 0x03;

/// Accessibility encoding
#[derive(Clone, Copy, Debug, PartialEq, Eq, Structural)]
pub enum DWAccess {
    Public,
    Protected,
    Private,
}

impl DWAccess {
    /// The number that the standard gives the value.
    pub open spec fn code(&self) -> u8 {
        match self {
            DWAccess::Public => 0x01,
            DWAccess::Protected => 0x02,
            DWAccess::Private => 0x03,
        }
    }

    /// The name that the standard gives the value.
    pub open spec fn name(&self) -> Seq<char> {
        match self {
            DWAccess::Public => "DW_ACCESS_PUBLIC"@,
            DWAccess::Protected => "DW_ACCESS_PROTECTED"@,
            DWAccess::Private => "DW_ACCESS_PRIVATE"@,
        }
    }

    /// The number that the standard gives the value.
    pub fn as_u8(&self) -> (code: u8)
        ensures
            code == self.code(),
    {
        match self {
            DWAccess::Public => PUBLIC,
            DWAccess::Protected => PROTECTED,
            DWAccess::Private => PRIVATE,
        }
    }

    /// The name that the standard gives the value.
    pub fn as_str(&self) -> (name: &'static str)
        ensures
            name@ == self.name(),
    {
        match self {
            DWAccess::Public => "DW_ACCESS_PUBLIC",
            DWAccess::Protected => "DW_ACCESS_PROTECTED",
            DWAccess::Private => "DW_ACCESS_PRIVATE",
        }
    }
}

} // verus!
