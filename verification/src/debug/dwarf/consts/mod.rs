//! The numbers and names of the DWARF 4 standard.

/// Accessibility encoding
pub mod dw_access;

/// Base type encoding
pub mod dw_ate;

/// Calling convention encoding
pub mod dw_cc;

/// Decimal sign encoding
pub mod dw_ds;

/// Discriminant encoding
pub mod dw_dsc;

/// Endianity sign encoding
pub mod dw_end;

/// Identifier case encoding
pub mod dw_id;

/// Inline encoding
pub mod dw_inl;

/// Language encoding
pub mod dw_lang;

/// Line Number Extended Opcode encoding
pub mod dw_lne;

/// Line Number Standart Opcode encoding
pub mod dw_lns;

/// Macinfo Type encoding
pub mod dw_macinfo;

/// Ordering encoding
pub mod dw_ord;

/// Virtuality encoding
pub mod dw_virtuality;

/// Visibility encoding
pub mod dw_vis;

