//! Inline encoding (figure 34 of the DWARF 4 standard)

use vstd::prelude::*;

verus! {

pub const NOT_INLINED: u8 = 0x00;

pub const INLINED: u8 = 0x01;

pub const DECLARED_NOT_INLINED: u8 = 0x02;

pub const DECLARED_INLINED: u8 = 0x03;

/// Inline encoding
#[derive(Clone, Copy, Debug, PartialEq, Eq, Structural)]
pub enum Inline {
    NotInline,
    Inlined,
    DeclaredNotInlined,
    DeclaredInlined,
}

impl Inline {
    /// The number that the standard gives the value.
    pub open spec fn code(&self) -> u8 {
        match self {
            Inline::NotInline => 0x00,
            Inline::Inlined => 0x01,
            Inline::DeclaredNotInlined => 0x02,
            Inline::DeclaredInlined => 0x03,
        }
    }

    /// The name that the standard gives the value.
    pub open spec fn name(&self) -> Seq<char> {
        match self {
            Inline::NotInline => "DW_INL_NOT_INLINED"@,
            Inline::Inlined => "DW_INL_INLINED"@,
            Inline::DeclaredNotInlined => "DW_INL_DECLARED_NOT_INLINED"@,
            Inline::DeclaredInlined => "DW_INL_DECLARED_INLINED"@,
        }
    }

    /// The number that the standard gives the value.
    pub fn as_u8(&self) -> (code: u8)
        ensures
            code == self.code(),
    {
        match self {
            Inline::NotInline => NOT_INLINED,
            Inline::Inlined => INLINED,
            Inline::DeclaredNotInlined => DECLARED_NOT_INLINED,
            Inline::DeclaredInlined => DECLARED_INLINED,
        }
    }

    /// The name that the standard gives the value.
    pub fn as_str(&self) -> (name: &'static str)
        ensures
            name@ == self.name(),
    {
        match self {
            Inline::NotInline => "DW_INL_NOT_INLINED",
            Inline::Inlined => "DW_INL_INLINED",
            Inline::DeclaredNotInlined => "DW_INL_DECLARED_NOT_INLINED",
            Inline::DeclaredInlined => "DW_INL_DECLARED_INLINED",
        }
    }
}

} // verus!
