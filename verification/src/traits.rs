use vstd::prelude::*;
use crate::reg::{Sizes, Target};

verus! {

/// Trait representing registers (used by `Operand<R>`)
pub trait Reg: Copy {
    /// Width of every register of the family.
    spec fn width() -> Sizes;

    /// Extension flag (set for r8 to r15) and 3-bit code, as the instruction set assigns them.
    spec fn bits(&self) -> (bool, u8);

    /// Assembler name of the register, with its `%` sigil.
    spec fn name(&self) -> Seq<char>;

    /// Whether the code names this register both with and without a REX prefix.
    /// It does not for the byte registers `ah`, `ch`, `dh`, `bh` (no prefix allowed)
    /// and `spl`, `bpl`, `sil`, `dil` (prefix required).
    spec fn rex_free(&self) -> bool;

    /// The code fits in three bits.
    proof fn code_in_range(&self)
        ensures
            self.bits().1 < 8,
    ;

    /// Register size
    fn size() -> (s: Sizes)
        ensures
            s == Self::width(),
    ;

    /// Convert to 3 bits (+ flag)
    fn to_bits(&self) -> (r: (bool, u8))
        ensures
            r == self.bits(),
    ;

    /// Tells whether the code is valid whatever prefix the instruction carries.
    fn is_rex_free(&self) -> (b: bool)
        ensures
            b == self.rex_free(),
    ;

    /// Write register at the end of `out`
    fn write_in(&self, out: &mut String)
        ensures
            final(out)@ == old(out)@ + self.name(),
    ;
}

/// Trait for structures that can be written
pub trait Writable {
    /// The assembler text of the value for the given target.
    spec fn text(&self, target: Target) -> Seq<char>;

    /// Write structure at the end of `out`
    fn write_in(&self, target: Target, out: &mut String)
        ensures
            final(out)@ == old(out)@ + self.text(target),
    ;
}

} // verus!
