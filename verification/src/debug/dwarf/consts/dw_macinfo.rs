//! Macinfo Type encoding (figure 38 of the DWARF 4 standard)

use vstd::prelude::*;

verus! {

pub const DEFINE: u8 = 0x01;

pub const UNDEF: u8 = 0x02;

pub const START_FILE: u8 = 0x03;

pub const END_FILE: u8 = 0x04;

pub const VENDOR_EXT: u8 = 0xff;

/// Macinfo Type encoding
#[derive(Clone, Copy, Debug, PartialEq, Eq, Structural)]
pub enum MacInfo {
    Define,
    Undef,
    StartFile,
    EndFile,
    VendorExt,
}

impl MacInfo {
    /// The number that the standard gives the value.
    pub open spec fn code(&self) -> u8 {
        match self {
            MacInfo::Define => 0x01,
            MacInfo::Undef => 0x02,
            MacInfo::StartFile => 0x03,
            MacInfo::EndFile => 0x04,
            MacInfo::VendorExt => 0xff,
        }
    }

    /// The name that the standard gives the value.
    pub open spec fn name(&self) -> Seq<char> {
        match self {
            MacInfo::Define => "DW_MACINFO_DEFINE"@,
            MacInfo::Undef => "DW_MACINFO_UNDEF"@,
            MacInfo::StartFile => "DW_MACINFO_START_FILE"@,
            MacInfo::EndFile => "DW_MACINFO_END_FILE"@,
            MacInfo::VendorExt => "DW_MACINFO_VENDOR_EXT"@,
        }
    }

    /// The number that the standard gives the value.
    pub fn as_u8(&self) -> (code: u8)
        ensures
            code == self.code(),
    {
        match self {
            MacInfo::Define => DEFINE,
            MacInfo::Undef => UNDEF,
            MacInfo::StartFile => START_FILE,
            MacInfo::EndFile => END_FILE,
            MacInfo::VendorExt => VENDOR_EXT,
        }
    }

    /// The name that the standard gives the value.
    pub fn as_str(&self) -> (name: &'static str)
        ensures
            name@ == self.name(),
    {
        match self {
            MacInfo::Define => "DW_MACINFO_DEFINE",
            MacInfo::Undef => "DW_MACINFO_UNDEF",
            MacInfo::StartFile => "DW_MACINFO_START_FILE",
            MacInfo::EndFile => "DW_MACINFO_END_FILE",
            MacInfo::VendorExt => "DW_MACINFO_VENDOR_EXT",
        }
    }
}

} // verus!
