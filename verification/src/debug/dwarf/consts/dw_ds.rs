//! Decimal sign encoding (figure 26 of the DWARF 4 standard)

use vstd::prelude::*;

verus! {

pub const UNSIGNED: u8 = 0x01;

pub const LEADING_OVERPUNCH: u8 = 0x02;

pub const TRAILING_OVERPUNCH: u8 = 0x03;

pub const LEADING_SEPARATE: u8 = 0x04;

pub const TRAILING_SEPARATE: u8 = 0x05;

/// Decimal sign encoding
#[derive(Clone, Copy, Debug, PartialEq, Eq, Structural)]
pub enum DecSign {
    Unsigned,
    LeadingOverpunch,
    TrailingOverpunch,
    LeadingSeparate,
    TrailingSeparate,
}

impl DecSign {
    /// The number that the standard gives the value.
    pub open spec fn code(&self) -> u8 {
        match self {
            DecSign::Unsigned => 0x01,
            DecSign::LeadingOverpunch => 0x02,
            DecSign::TrailingOverpunch => 0x03,
            DecSign::LeadingSeparate => 0x04,
            DecSign::TrailingSeparate => 0x05,
        }
    }

    /// The name that the standard gives the value.
    pub open spec fn name(&self) -> Seq<char> {
        match self {
            DecSign::Unsigned => "DW_DS_UNSIGNED"@,
            DecSign::LeadingOverpunch => "DW_DS_LEADING_OVERPUNCH"@,
            DecSign::TrailingOverpunch => "DW_DS_TRAILING_OVERPUNCH"@,
            DecSign::LeadingSeparate => "DW_DS_LEADING_SEPARATE"@,
            DecSign::TrailingSeparate => "DW_DS_TRAILING_SEPARATE"@,
        }
    }

    /// The number that the standard gives the value.
    pub fn as_u8(&self) -> (code: u8)
        ensures
            code == self.code(),
    {
        match self {
            DecSign::Unsigned => UNSIGNED,
            DecSign::LeadingOverpunch => LEADING_OVERPUNCH,
            DecSign::TrailingOverpunch => TRAILING_OVERPUNCH,
            DecSign::LeadingSeparate => LEADING_SEPARATE,
            DecSign::TrailingSeparate => TRAILING_SEPARATE,
        }
    }

    /// The name that the standard gives the value.
    pub fn as_str(&self) -> (name: &'static str)
        ensures
            name@ == self.name(),
    {
        match self {
            DecSign::Unsigned => "DW_DS_UNSIGNED",
            DecSign::LeadingOverpunch => "DW_DS_LEADING_OVERPUNCH",
            DecSign::TrailingOverpunch => "DW_DS_TRAILING_OVERPUNCH",
            DecSign::LeadingSeparate => "DW_DS_LEADING_SEPARATE",
            DecSign::TrailingSeparate => "DW_DS_TRAILING_SEPARATE",
        }
    }
}

} // verus!
