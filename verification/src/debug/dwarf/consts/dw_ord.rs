//! Ordering encoding (figure 35 of the DWARF 4 standard)

use vstd::prelude::*;

verus! {

pub const ROW_MAJOR: u8 = 0x00;

pub const COL_MAJOR: u8 = 0x01;

/// Ordering encoding
#[derive(Clone, Copy, Debug, PartialEq, Eq, Structural)]
pub enum ArrayOrder {
    RowMajor,
    ColMajor,
}

impl ArrayOrder {
    /// The number that the standard gives the value.
    pub open spec fn code(&self) -> u8 {
        match self {
            ArrayOrder::RowMajor => 0x00,
            ArrayOrder::ColMajor => 0x01,
        }
    }

    /// The name that the standard gives the value.
    pub open spec fn name(&self) -> Seq<char> {
        match self {
            ArrayOrder::RowMajor => "DW_ORD_ROW_MAJOR"@,
            ArrayOrder::ColMajor => "DW_ORD_COL_MAJOR"@,
        }
    }

    /// The number that the standard gives the value.
    pub fn as_u8(&self) -> (code: u8)
        ensures
            code == self.code(),
    {
        match self {
            ArrayOrder::RowMajor => ROW_MAJOR,
            ArrayOrder::ColMajor => COL_MAJOR,
        }
    }

    /// The name that the standard gives the value.
    pub fn as_str(&self) -> (name: &'static str)
        ensures
            name@ == self.name(),
    {
        match self {
            ArrayOrder::RowMajor => "DW_ORD_ROW_MAJOR",
            ArrayOrder::ColMajor => "DW_ORD_COL_MAJOR",
        }
    }
}

} // verus!
