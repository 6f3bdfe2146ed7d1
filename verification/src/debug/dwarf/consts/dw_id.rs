//! Identifier case encoding (figure 32 of the DWARF 4 standard)

use vstd::prelude::*;

verus! {

pub const CASE_SENSITIVE: u8 = 0x01;

pub const UP_CASE: u8 = 0x02;

pub const DOWN_CASE: u8 = 0x03;

pub const CASE_INSENSITIVE: u8 = 0x04;

/// Identifier case encoding
#[derive(Clone, Copy, Debug, PartialEq, Eq, Structural)]
pub enum DWId {
    CaseSensitive,
    UpCase,
    DownCase,
    CaseInsensitive,
}

impl DWId {
    /// The number that the standard gives the value.
    pub open spec fn code(&self) -> u8 {
        match self {
            DWId::CaseSensitive => 0x01,
            DWId::UpCase => 0x02,
            DWId::DownCase => 0x03,
            DWId::CaseInsensitive => 0x04,
        }
    }

    /// The name that the standard gives the value.
    pub open spec fn name(&self) -> Seq<char> {
        match self {
            DWId::CaseSensitive => "DW_ID_CASE_SENSITIVE"@,
            DWId::UpCase => "DW_ID_UP_CASE"@,
            DWId::DownCase => "DW_ID_DOWN_CASE"@,
            DWId::CaseInsensitive => "DW_ID_CASE_INSENSITIVE"@,
        }
    }

    /// The number that the standard gives the value.
    pub fn as_u8(&self) -> (code: u8)
        ensures
            code == self.code(),
    {
        match self {
            DWId::CaseSensitive => CASE_SENSITIVE,
            DWId::UpCase => UP_CASE,
            DWId::DownCase => DOWN_CASE,
            DWId::CaseInsensitive => CASE_INSENSITIVE,
        }
    }

    /// The name that the standard gives the value.
    pub fn as_str(&self) -> (name: &'static str)
        ensures
            name@ == self.name(),
    {
        match self {
            DWId::CaseSensitive => "DW_ID_CASE_SENSITIVE",
            DWId::UpCase => "DW_ID_UP_CASE",
            DWId::DownCase => "DW_ID_DOWN_CASE",
            DWId::CaseInsensitive => "DW_ID_CASE_INSENSITIVE",
        }
    }
}

} // verus!
