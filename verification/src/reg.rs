use vstd::prelude::*;
use vstd::string::StringExecFns;
use crate::numfmt::{decimal, push_signed, push_unsigned};
use crate::traits::Reg;

verus! {

/// Host systems, which differ in how labels are spelled and addressed.
#[derive(Clone, Copy, Debug, PartialEq, Eq, Structural)]
pub enum Os {
    /// Labels are written as they are and addressed absolutely.
    Linux,
    /// Labels get a leading underscore and are addressed relative to `%rip`.
    MacOs,
}

/// What the output is written for: the host system and the form of the instructions.
#[derive(Clone, Copy, Debug, PartialEq, Eq, Structural)]
pub struct Target {
    /// Host system
    pub os: Os,
    /// Whether instructions are written as machine code where they can be encoded
    pub binary: bool,
}

/// Different operand sizes
#[derive(Clone, Copy, Debug, PartialEq, Eq, Structural)]
pub enum Sizes {
    /// 1 byte
    Byte,
    /// 2 bytes
    Word,
    /// 4 bytes
    Long,
    /// 8 bytes
    Quad,
    /// Invalid size
    Invalid,
}

impl Sizes {
    /// The suffix letter of a size. The invalid size has none and is never written:
    /// a space stands for it here.
    pub open spec fn suffix(&self) -> char {
        match self {
            Sizes::Byte => 'b',
            Sizes::Word => 'w',
            Sizes::Long => 'l',
            Sizes::Quad => 'q',
            Sizes::Invalid => ' ',
        }
    }

    /// Get char related to size for instructions
    pub fn to_char(&self) -> (c: char)
        requires
            *self != Sizes::Invalid,
        ensures
            c == self.suffix(),
    {
        match self {
            Sizes::Byte => 'b',
            Sizes::Word => 'w',
            Sizes::Long => 'l',
            Sizes::Quad => 'q',
            Sizes::Invalid => ' ',
        }
    }

    /// Suffix letter as a string slice.
    pub fn to_str(&self) -> (s: &'static str)
        requires
            *self != Sizes::Invalid,
        ensures
            s@ == seq![self.suffix()],
    {
        proof {
            reveal_strlit("b");
            reveal_strlit("w");
            reveal_strlit("l");
            reveal_strlit("q");
        }
        let s = match self {
            Sizes::Byte => "b",
            Sizes::Word => "w",
            Sizes::Long => "l",
            _ => "q",
        };
        assert(s@ =~= seq![self.suffix()]);
        s
    }
}

#[allow(missing_docs)]
#[derive(Clone, Copy, Debug, PartialEq, Eq, Structural)]
/// 8 bytes registers
pub enum RegQ {
    Rax,
    Rbx,
    Rcx,
    Rdx,
    Rsi,
    Rdi,
    Rbp,
    Rsp,
    R8,
    R9,
    R10,
    R11,
    R12,
    R13,
    R14,
    R15,
}

impl RegQ {
    /// Assembler name of the register, with its `%` sigil.
    pub fn to_str(&self) -> (s: &'static str)
        ensures
            s@ == self.name(),
    {
        match self {
            RegQ::Rax => "%rax",
            RegQ::Rbx => "%rbx",
            RegQ::Rcx => "%rcx",
            RegQ::Rdx => "%rdx",
            RegQ::Rsi => "%rsi",
            RegQ::Rdi => "%rdi",
            RegQ::Rbp => "%rbp",
            RegQ::Rsp => "%rsp",
            RegQ::R8 => "%r8",
            RegQ::R9 => "%r9",
            RegQ::R10 => "%r10",
            RegQ::R11 => "%r11",
            RegQ::R12 => "%r12",
            RegQ::R13 => "%r13",
            RegQ::R14 => "%r14",
            RegQ::R15 => "%r15",
        }
    }
}

impl Reg for RegQ {
    open spec fn width() -> Sizes {
        Sizes::Quad
    }

    open spec fn bits(&self) -> (bool, u8) {
        match self {
            RegQ::Rax => (false, 0b000),
            RegQ::Rbx => (false, 0b011),
            RegQ::Rcx => (false, 0b001),
            RegQ::Rdx => (false, 0b010),
            RegQ::Rsi => (false, 0b110),
            RegQ::Rdi => (false, 0b111),
            RegQ::Rbp => (false, 0b101),
            RegQ::Rsp => (false, 0b100),
            RegQ::R8 => (true, 0b000),
            RegQ::R9 => (true, 0b001),
            RegQ::R10 => (true, 0b010),
            RegQ::R11 => (true, 0b011),
            RegQ::R12 => (true, 0b100),
            RegQ::R13 => (true, 0b101),
            RegQ::R14 => (true, 0b110),
            RegQ::R15 => (true, 0b111),
        }
    }

    open spec fn name(&self) -> Seq<char> {
        match self {
            RegQ::Rax => "%rax"@,
            RegQ::Rbx => "%rbx"@,
            RegQ::Rcx => "%rcx"@,
            RegQ::Rdx => "%rdx"@,
            RegQ::Rsi => "%rsi"@,
            RegQ::Rdi => "%rdi"@,
            RegQ::Rbp => "%rbp"@,
            RegQ::Rsp => "%rsp"@,
            RegQ::R8 => "%r8"@,
            RegQ::R9 => "%r9"@,
            RegQ::R10 => "%r10"@,
            RegQ::R11 => "%r11"@,
            RegQ::R12 => "%r12"@,
            RegQ::R13 => "%r13"@,
            RegQ::R14 => "%r14"@,
            RegQ::R15 => "%r15"@,
        }
    }

    open spec fn rex_free(&self) -> bool {
        true
    }

    proof fn code_in_range(&self) {
    }

    fn size() -> (s: Sizes) {
        Sizes::Quad
    }

    fn to_bits(&self) -> (r: (bool, u8)) {
        match self {
            RegQ::Rax => (false, 0b000),
            RegQ::Rbx => (false, 0b011),
            RegQ::Rcx => (false, 0b001),
            RegQ::Rdx => (false, 0b010),
            RegQ::Rsi => (false, 0b110),
            RegQ::Rdi => (false, 0b111),
            RegQ::Rbp => (false, 0b101),
            RegQ::Rsp => (false, 0b100),
            RegQ::R8 => (true, 0b000),
            RegQ::R9 => (true, 0b001),
            RegQ::R10 => (true, 0b010),
            RegQ::R11 => (true, 0b011),
            RegQ::R12 => (true, 0b100),
            RegQ::R13 => (true, 0b101),
            RegQ::R14 => (true, 0b110),
            RegQ::R15 => (true, 0b111),
        }
    }

    fn is_rex_free(&self) -> (b: bool) {
        true
    }

    fn write_in(&self, out: &mut String) {
        out.append(self.to_str());
    }
}

#[allow(missing_docs)]
#[derive(Clone, Copy, Debug, PartialEq, Eq, Structural)]
/// 4 bytes registers
pub enum RegL {
    Eax,
    Ebx,
    Ecx,
    Edx,
    Esi,
    Edi,
    Ebp,
    Esp,
    R8d,
    R9d,
    R10d,
    R11d,
    R12d,
    R13d,
    R14d,
    R15d,
}

impl RegL {
    /// Assembler name of the register, with its `%` sigil.
    pub fn to_str(&self) -> (s: &'static str)
        ensures
            s@ == self.name(),
    {
        match self {
            RegL::Eax => "%eax",
            RegL::Ebx => "%ebx",
            RegL::Ecx => "%ecx",
            RegL::Edx => "%edx",
            RegL::Esi => "%esi",
            RegL::Edi => "%edi",
            RegL::Ebp => "%ebp",
            RegL::Esp => "%esp",
            RegL::R8d => "%r8d",
            RegL::R9d => "%r9d",
            RegL::R10d => "%r10d",
            RegL::R11d => "%r11d",
            RegL::R12d => "%r12d",
            RegL::R13d => "%r13d",
            RegL::R14d => "%r14d",
            RegL::R15d => "%r15d",
        }
    }
}

impl Reg for RegL {
    open spec fn width() -> Sizes {
        Sizes::Long
    }

    open spec fn bits(&self) -> (bool, u8) {
        match self {
            RegL::Eax => (false, 0b000),
            RegL::Ebx => (false, 0b011),
            RegL::Ecx => (false, 0b001),
            RegL::Edx => (false, 0b010),
            RegL::Esi => (false, 0b110),
            RegL::Edi => (false, 0b111),
            RegL::Ebp => (false, 0b101),
            RegL::Esp => (false, 0b100),
            RegL::R8d => (true, 0b000),
            RegL::R9d => (true, 0b001),
            RegL::R10d => (true, 0b010),
            RegL::R11d => (true, 0b011),
            RegL::R12d => (true, 0b100),
            RegL::R13d => (true, 0b101),
            RegL::R14d => (true, 0b110),
            RegL::R15d => (true, 0b111),
        }
    }

    open spec fn name(&self) -> Seq<char> {
        match self {
            RegL::Eax => "%eax"@,
            RegL::Ebx => "%ebx"@,
            RegL::Ecx => "%ecx"@,
            RegL::Edx => "%edx"@,
            RegL::Esi => "%esi"@,
            RegL::Edi => "%edi"@,
            RegL::Ebp => "%ebp"@,
            RegL::Esp => "%esp"@,
            RegL::R8d => "%r8d"@,
            RegL::R9d => "%r9d"@,
            RegL::R10d => "%r10d"@,
            RegL::R11d => "%r11d"@,
            RegL::R12d => "%r12d"@,
            RegL::R13d => "%r13d"@,
            RegL::R14d => "%r14d"@,
            RegL::R15d => "%r15d"@,
        }
    }

    open spec fn rex_free(&self) -> bool {
        true
    }

    proof fn code_in_range(&self) {
    }

    fn size() -> (s: Sizes) {
        Sizes::Long
    }

    fn to_bits(&self) -> (r: (bool, u8)) {
        match self {
            RegL::Eax => (false, 0b000),
            RegL::Ebx => (false, 0b011),
            RegL::Ecx => (false, 0b001),
            RegL::Edx => (false, 0b010),
            RegL::Esi => (false, 0b110),
            RegL::Edi => (false, 0b111),
            RegL::Ebp => (false, 0b101),
            RegL::Esp => (false, 0b100),
            RegL::R8d => (true, 0b000),
            RegL::R9d => (true, 0b001),
            RegL::R10d => (true, 0b010),
            RegL::R11d => (true, 0b011),
            RegL::R12d => (true, 0b100),
            RegL::R13d => (true, 0b101),
            RegL::R14d => (true, 0b110),
            RegL::R15d => (true, 0b111),
        }
    }

    fn is_rex_free(&self) -> (b: bool) {
        true
    }

    fn write_in(&self, out: &mut String) {
        out.append(self.to_str());
    }
}

#[allow(missing_docs)]
#[derive(Clone, Copy, Debug, PartialEq, Eq, Structural)]
/// 2 bytes registers
pub enum RegW {
    Ax,
    Bx,
    Cx,
    Dx,
    Si,
    Di,
    Bp,
    Sp,
    R8w,
    R9w,
    R10w,
    R11w,
    R12w,
    R13w,
    R14w,
    R15w,
}

impl RegW {
    /// Assembler name of the register, with its `%` sigil.
    pub fn to_str(&self) -> (s: &'static str)
        ensures
            s@ == self.name(),
    {
        match self {
            RegW::Ax => "%ax",
            RegW::Bx => "%bx",
            RegW::Cx => "%cx",
            RegW::Dx => "%dx",
            RegW::Si => "%si",
            RegW::Di => "%di",
            RegW::Bp => "%bp",
            RegW::Sp => "%sp",
            RegW::R8w => "%r8w",
            RegW::R9w => "%r9w",
            RegW::R10w => "%r10w",
            RegW::R11w => "%r11w",
            RegW::R12w => "%r12w",
            RegW::R13w => "%r13w",
            RegW::R14w => "%r14w",
            RegW::R15w => "%r15w",
        }
    }
}

impl Reg for RegW {
    open spec fn width() -> Sizes {
        Sizes::Word
    }

    open spec fn bits(&self) -> (bool, u8) {
        match self {
            RegW::Ax => (false, 0b000),
            RegW::Bx => (false, 0b011),
            RegW::Cx => (false, 0b001),
            RegW::Dx => (false, 0b010),
            RegW::Si => (false, 0b110),
            RegW::Di => (false, 0b111),
            RegW::Bp => (false, 0b101),
            RegW::Sp => (false, 0b100),
            RegW::R8w => (true, 0b000),
            RegW::R9w => (true, 0b001),
            RegW::R10w => (true, 0b010),
            RegW::R11w => (true, 0b011),
            RegW::R12w => (true, 0b100),
            RegW::R13w => (true, 0b101),
            RegW::R14w => (true, 0b110),
            RegW::R15w => (true, 0b111),
        }
    }

    open spec fn name(&self) -> Seq<char> {
        match self {
            RegW::Ax => "%ax"@,
            RegW::Bx => "%bx"@,
            RegW::Cx => "%cx"@,
            RegW::Dx => "%dx"@,
            RegW::Si => "%si"@,
            RegW::Di => "%di"@,
            RegW::Bp => "%bp"@,
            RegW::Sp => "%sp"@,
            RegW::R8w => "%r8w"@,
            RegW::R9w => "%r9w"@,
            RegW::R10w => "%r10w"@,
            RegW::R11w => "%r11w"@,
            RegW::R12w => "%r12w"@,
            RegW::R13w => "%r13w"@,
            RegW::R14w => "%r14w"@,
            RegW::R15w => "%r15w"@,
        }
    }

    open spec fn rex_free(&self) -> bool {
        true
    }

    proof fn code_in_range(&self) {
    }

    fn size() -> (s: Sizes) {
        Sizes::Word
    }

    fn to_bits(&self) -> (r: (bool, u8)) {
        match self {
            RegW::Ax => (false, 0b000),
            RegW::Bx => (false, 0b011),
            RegW::Cx => (false, 0b001),
            RegW::Dx => (false, 0b010),
            RegW::Si => (false, 0b110),
            RegW::Di => (false, 0b111),
            RegW::Bp => (false, 0b101),
            RegW::Sp => (false, 0b100),
            RegW::R8w => (true, 0b000),
            RegW::R9w => (true, 0b001),
            RegW::R10w => (true, 0b010),
            RegW::R11w => (true, 0b011),
            RegW::R12w => (true, 0b100),
            RegW::R13w => (true, 0b101),
            RegW::R14w => (true, 0b110),
            RegW::R15w => (true, 0b111),
        }
    }

    fn is_rex_free(&self) -> (b: bool) {
        true
    }

    fn write_in(&self, out: &mut String) {
        out.append(self.to_str());
    }
}

#[allow(missing_docs)]
#[derive(Clone, Copy, Debug, PartialEq, Eq, Structural)]
/// 1 bytes registers
pub enum RegB {
    Al,
    Ah,
    Bl,
    Bh,
    Cl,
    Ch,
    Dl,
    Dh,
    Sil,
    Dil,
    Bpl,
    Spl,
    R8b,
    R9b,
    R10b,
    R11b,
    R12b,
    R13b,
    R14b,
    R15b,
}

impl RegB {
    /// Assembler name of the register, with its `%` sigil.
    pub fn to_str(&self) -> (s: &'static str)
        ensures
            s@ == self.name(),
    {
        match self {
            RegB::Al => "%al",
            RegB::Ah => "%ah",
            RegB::Bl => "%bl",
            RegB::Bh => "%bh",
            RegB::Cl => "%cl",
            RegB::Ch => "%ch",
            RegB::Dl => "%dl",
            RegB::Dh => "%dh",
            RegB::Sil => "%sil",
            RegB::Dil => "%dil",
            RegB::Bpl => "%bpl",
            RegB::Spl => "%spl",
            RegB::R8b => "%r8b",
            RegB::R9b => "%r9b",
            RegB::R10b => "%r10b",
            RegB::R11b => "%r11b",
            RegB::R12b => "%r12b",
            RegB::R13b => "%r13b",
            RegB::R14b => "%r14b",
            RegB::R15b => "%r15b",
        }
    }
}

impl Reg for RegB {
    open spec fn width() -> Sizes {
        Sizes::Byte
    }

    open spec fn bits(&self) -> (bool, u8) {
        match self {
            RegB::Al => (false, 0b000),
            RegB::Ah => (false, 0b100),
            RegB::Bl => (false, 0b011),
            RegB::Bh => (false, 0b111),
            RegB::Cl => (false, 0b001),
            RegB::Ch => (false, 0b101),
            RegB::Dl => (false, 0b010),
            RegB::Dh => (false, 0b110),
            RegB::Sil => (false, 0b110),
            RegB::Dil => (false, 0b111),
            RegB::Bpl => (false, 0b101),
            RegB::Spl => (false, 0b100),
            RegB::R8b => (true, 0b000),
            RegB::R9b => (true, 0b001),
            RegB::R10b => (true, 0b010),
            RegB::R11b => (true, 0b011),
            RegB::R12b => (true, 0b100),
            RegB::R13b => (true, 0b101),
            RegB::R14b => (true, 0b110),
            RegB::R15b => (true, 0b111),
        }
    }

    open spec fn name(&self) -> Seq<char> {
        match self {
            RegB::Al => "%al"@,
            RegB::Ah => "%ah"@,
            RegB::Bl => "%bl"@,
            RegB::Bh => "%bh"@,
            RegB::Cl => "%cl"@,
            RegB::Ch => "%ch"@,
            RegB::Dl => "%dl"@,
            RegB::Dh => "%dh"@,
            RegB::Sil => "%sil"@,
            RegB::Dil => "%dil"@,
            RegB::Bpl => "%bpl"@,
            RegB::Spl => "%spl"@,
            RegB::R8b => "%r8b"@,
            RegB::R9b => "%r9b"@,
            RegB::R10b => "%r10b"@,
            RegB::R11b => "%r11b"@,
            RegB::R12b => "%r12b"@,
            RegB::R13b => "%r13b"@,
            RegB::R14b => "%r14b"@,
            RegB::R15b => "%r15b"@,
        }
    }

    open spec fn rex_free(&self) -> bool {
        match self {
            RegB::Ah | RegB::Ch | RegB::Dh | RegB::Bh => false,
            RegB::Spl | RegB::Bpl | RegB::Sil | RegB::Dil => false,
            _ => true,
        }
    }

    proof fn code_in_range(&self) {
    }

    fn size() -> (s: Sizes) {
        Sizes::Byte
    }

    fn to_bits(&self) -> (r: (bool, u8)) {
        match self {
            RegB::Al => (false, 0b000),
            RegB::Ah => (false, 0b100),
            RegB::Bl => (false, 0b011),
            RegB::Bh => (false, 0b111),
            RegB::Cl => (false, 0b001),
            RegB::Ch => (false, 0b101),
            RegB::Dl => (false, 0b010),
            RegB::Dh => (false, 0b110),
            RegB::Sil => (false, 0b110),
            RegB::Dil => (false, 0b111),
            RegB::Bpl => (false, 0b101),
            RegB::Spl => (false, 0b100),
            RegB::R8b => (true, 0b000),
            RegB::R9b => (true, 0b001),
            RegB::R10b => (true, 0b010),
            RegB::R11b => (true, 0b011),
            RegB::R12b => (true, 0b100),
            RegB::R13b => (true, 0b101),
            RegB::R14b => (true, 0b110),
            RegB::R15b => (true, 0b111),
        }
    }

    fn is_rex_free(&self) -> (b: bool) {
        match self {
            RegB::Ah | RegB::Ch | RegB::Dh | RegB::Bh => false,
            RegB::Spl | RegB::Bpl | RegB::Sil | RegB::Dil => false,
            _ => true,
        }
    }

    fn write_in(&self, out: &mut String) {
        out.append(self.to_str());
    }
}

/// Whether `scale` is a factor that an indexed address can carry.
pub open spec fn valid_scale(scale: u8) -> bool {
    scale == 1 || scale == 2 || scale == 4 || scale == 8
}

#[derive(Debug, Clone)]
/// Type representing the various operands
pub enum Operand<T: Reg> {
    /// Address at 1 + 2 + 3 * 4
    Addr(i64, RegQ, Option<RegQ>, u8),
    /// Direct access to register
    Reg(T),
    /// Label relative to RIP
    LabRelAddr(Label),
    /// Absolute label address
    LabAbsAddr(Label),
    /// Get label value
    LabVal(Label),
    /// Immediate value
    Imm(i64),
}

impl<T: Reg> Operand<T> {
    /// An indexed address has a scale of 1, 2, 4 or 8 and an index other than `%rsp`,
    /// whose code in the index field means that there is no index.
    pub open spec fn wf(&self) -> bool {
        match self {
            Operand::Addr(_, _, Some(index), scale) => valid_scale(*scale) && *index != RegQ::Rsp,
            _ => true,
        }
    }

    /// Whether the operand is a register or a memory location.
    pub open spec fn rm(&self) -> bool {
        self is Addr || self is Reg
    }

    /// The operand in assembler syntax.
    pub open spec fn text(&self, os: Os) -> Seq<char> {
        match self {
            Operand::Reg(reg) => reg.name(),
            Operand::Addr(offset, base, None, _) => decimal(*offset as int) + "("@ + base.name()
                + ")"@,
            Operand::Addr(offset, base, Some(index), scale) => decimal(*offset as int) + "("@
                + base.name() + ", "@ + index.name() + ", "@ + decimal(*scale as int) + ")"@,
            Operand::LabRelAddr(label) => label.text(os) + "(%rip)"@,
            Operand::LabAbsAddr(label) => label.text(os),
            Operand::LabVal(label) => "$"@ + label.text(os),
            Operand::Imm(value) => "$"@ + decimal(*value as int),
        }
    }

    /// test if operand is register of memory
    pub fn is_rm(&self) -> (b: bool)
        ensures
            b == self.rm(),
    {
        match self {
            Operand::Addr(_, _, _, _) | Operand::Reg(_) => true,
            _ => false,
        }
    }

    /// Tells whether an indexed address has a scale and an index that exist.
    pub fn is_wf(&self) -> (b: bool)
        ensures
            b == self.wf(),
    {
        match self {
            Operand::Addr(_, _, Some(index), scale) => {
                let s: u8 = *scale;
                (s == 1 || s == 2 || s == 4 || s == 8) && !matches!(index, RegQ::Rsp)
            },
            _ => true,
        }
    }

    /// Write operand at the end of `out`
    pub fn write_in(&self, os: Os, out: &mut String)
        ensures
            final(out)@ == old(out)@ + self.text(os),
    {
        match self {
            Operand::Reg(reg) => reg.write_in(out),
            Operand::Addr(offset, base, index, scale) => {
                push_signed(out, *offset);
                out.append("(");
                base.write_in(out);
                match index {
                    None => {
                        out.append(")");
                    },
                    Some(index) => {
                        out.append(", ");
                        index.write_in(out);
                        out.append(", ");
                        push_unsigned(out, *scale as u64);
                        out.append(")");
                    },
                }
            },
            Operand::LabRelAddr(label) => {
                label.write_in(os, out);
                out.append("(%rip)");
            },
            Operand::LabAbsAddr(label) => label.write_in(os, out),
            Operand::LabVal(label) => {
                out.append("$");
                label.write_in(os, out);
            },
            Operand::Imm(value) => {
                out.append("$");
                push_signed(out, *value);
            },
        }
        assert(out@ =~= old(out)@ + self.text(os));
    }
}

#[derive(Debug, Clone)]
/// Label
pub struct Label {
    name: String,
}

impl View for Label {
    type V = Seq<char>;

    /// The name that the label was made from.
    closed spec fn view(&self) -> Seq<char> {
        self.name@
    }
}

impl Label {
    /// The label as the assembler of the given system spells it.
    pub open spec fn text(&self, os: Os) -> Seq<char> {
        match os {
            Os::MacOs => "_"@ + self@,
            Os::Linux => self@,
        }
    }

    /// Create label from string
    pub fn from_str(name: String) -> (l: Self)
        ensures
            l@ == name@,
    {
        Self { name }
    }

    /// Printf function label
    pub fn printf() -> (l: Self)
        ensures
            l@ == "printf"@,
    {
        Self { name: String::from_str("printf") }
    }

    /// Malloc function label
    pub fn malloc() -> (l: Self)
        ensures
            l@ == "malloc"@,
    {
        Self { name: String::from_str("malloc") }
    }

    /// Free function label
    pub fn free() -> (l: Self)
        ensures
            l@ == "free"@,
    {
        Self { name: String::from_str("free") }
    }

    /// Realloc function label
    pub fn realloc() -> (l: Self)
        ensures
            l@ == "realloc"@,
    {
        Self { name: String::from_str("realloc") }
    }

    /// Label of the routine that aborts the program
    pub fn panic() -> (l: Self)
        ensures
            l@ == "panic"@,
    {
        Self { name: String::from_str("panic") }
    }

    /// The name of the label, without any system prefix.
    pub fn name(&self) -> (s: &str)
        ensures
            s@ == self@,
    {
        self.name.as_str()
    }

    /// Write label at the end of `out` (the spelling differs on linux and mac)
    pub fn write_in(&self, os: Os, out: &mut String)
        ensures
            final(out)@ == old(out)@ + self.text(os),
    {
        match os {
            Os::MacOs => {
                out.append("_");
                out.append(self.name.as_str());
                assert(out@ =~= old(out)@ + ("_"@ + self@));
            },
            Os::Linux => {
                out.append(self.name.as_str());
            },
        }
    }
}

/// Type of an operand slot that an instruction leaves empty.
/// It is used to type instructions taking only a few operands: no function
/// of this library makes a value of it.
#[derive(Debug, Copy, Clone)]
pub struct RegInv {
    never: (),
}

impl Reg for RegInv {
    open spec fn width() -> Sizes {
        Sizes::Invalid
    }

    open spec fn bits(&self) -> (bool, u8) {
        (false, 0)
    }

    open spec fn name(&self) -> Seq<char> {
        Seq::empty()
    }

    open spec fn rex_free(&self) -> bool {
        false
    }

    proof fn code_in_range(&self) {
    }

    fn size() -> (s: Sizes) {
        Sizes::Invalid
    }

    fn to_bits(&self) -> (r: (bool, u8)) {
        (false, 0)
    }

    fn is_rex_free(&self) -> (b: bool) {
        false
    }

    fn write_in(&self, out: &mut String) {
        assert(out@ =~= old(out)@ + self.name());
    }
}

} // verus!
