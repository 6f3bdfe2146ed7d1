use vstd::prelude::*;
use vstd::string::StringExecFns;
use crate::numfmt::{hex_byte, push_hex_byte};
use crate::reg::{Label, Operand, Os, Sizes, Target};
use crate::traits::{Reg, Writable};

verus! {

/// Various conditionals
///
/// Informations given as FLAGS = meaning after cmp
#[derive(Debug, Copy, Clone, PartialEq, Eq, Structural)]
pub enum Cond {
    /// Same as Z
    E,
    /// ZF = equal to 0
    Z,
    /// Same as NZ
    NE,
    /// not(ZF) = equal to 0
    NZ,
    /// SF = negative
    S,
    /// not(SF) = non-negative
    NS,
    /// not(SF xor OF) and not(ZF) = greater
    G,
    /// not(SF xor OF) = greater or equal
    GE,
    /// SF xor OF = lower
    L,
    /// (SF xor OF) or ZF = lower or equal
    LE,
    /// not(CF) and not(ZF) = above (unsigned greater)
    A,
    /// not(CF) = above or equal (unsigned greater or equal)
    AE,
    /// CF = below (unsigned lower)
    B,
    /// CF or ZF = below or equal (unsigned lower or equal)
    BE,
}

impl Cond {
    /// The letters that the condition adds to a mnemonic.
    pub open spec fn suffix(&self) -> Seq<char> {
        match self {
            Cond::E => "e"@,
            Cond::Z => "z"@,
            Cond::NE => "ne"@,
            Cond::NZ => "nz"@,
            Cond::S => "s"@,
            Cond::NS => "ns"@,
            Cond::G => "g"@,
            Cond::GE => "ge"@,
            Cond::L => "l"@,
            Cond::LE => "le"@,
            Cond::A => "a"@,
            Cond::AE => "ae"@,
            Cond::B => "b"@,
            Cond::BE => "be"@,
        }
    }

    /// The four bits by which opcodes tell conditions apart. Conditions that
    /// test the same flags share their code.
    pub open spec fn code(&self) -> u8 {
        match self {
            Cond::E => 0x4,
            Cond::Z => 0x4,
            Cond::NE => 0x5,
            Cond::NZ => 0x5,
            Cond::S => 0x8,
            Cond::NS => 0x9,
            Cond::G => 0xf,
            Cond::GE => 0xd,
            Cond::L => 0xc,
            Cond::LE => 0xe,
            Cond::A => 0x7,
            Cond::AE => 0x3,
            Cond::B => 0x2,
            Cond::BE => 0x6,
        }
    }

    /// The letters that the condition adds to a mnemonic.
    pub fn to_str(&self) -> (s: &'static str)
        ensures
            s@ == self.suffix(),
    {
        match self {
            Cond::E => "e",
            Cond::Z => "z",
            Cond::NE => "ne",
            Cond::NZ => "nz",
            Cond::S => "s",
            Cond::NS => "ns",
            Cond::G => "g",
            Cond::GE => "ge",
            Cond::L => "l",
            Cond::LE => "le",
            Cond::A => "a",
            Cond::AE => "ae",
            Cond::B => "b",
            Cond::BE => "be",
        }
    }

    /// The condition code of the opcodes.
    pub fn to_code(&self) -> (c: u8)
        ensures
            c == self.code(),
            c < 16,
    {
        match self {
            Cond::E => 0x4,
            Cond::Z => 0x4,
            Cond::NE => 0x5,
            Cond::NZ => 0x5,
            Cond::S => 0x8,
            Cond::NS => 0x9,
            Cond::G => 0xf,
            Cond::GE => 0xd,
            Cond::L => 0xc,
            Cond::LE => 0xe,
            Cond::A => 0x7,
            Cond::AE => 0x3,
            Cond::B => 0x2,
            Cond::BE => 0x6,
        }
    }
}

/// Various instructions names
#[derive(Debug)]
pub enum InstrName {
    /// Move operation
    Move,
    /// Add operation
    Add,
    /// Add with carry
    Adc,
    /// Substration
    Sub,
    /// Substration with borrow
    Sbb,
    /// Bitwise And
    And,
    /// Bitwise Or
    Or,
    /// Bitwise Xor
    Xor,
    /// Left shift
    Shl,
    /// Logical right shift
    Shr,
    /// Arithmetic right shift
    Sar,
    /// Compare (set flags based on Sub instr)
    Cmp,
    /// Test  (set flags based on And instr)
    Test,
    /// Compute address and stores the address instead of value pointed
    Lea,
    /// Signed multiplication
    IMul,
    /// Sign extend move
    Movs,
    /// Fill with zeros move
    Movz,
    /// Logical shift left
    ShlC,
    /// Logical shift right
    ShrC,
    /// Increment value
    Inc,
    /// Decrement value
    Dec,
    /// Arithmetic negation
    Neg,
    /// Bitwise negation
    Not,
    /// Push on stack
    Push,
    /// Pop from stack
    Pop,
    /// Unsigned division (beware of edx/rdc register)
    UnsignedDiv,
    /// Signed division (beware of edx/rdc register)
    SignedDiv,
    /// Equivalent to popq rip
    Ret,
    /// Complex return from call
    Leave,
    /// Syscall
    Syscall,
    /// Hlt instruction
    Hlt,
    /// Sign extend %eax into %edx::%eax
    Cltd,
    /// Sign extend %rax into %rdx::%rax
    Cqto,
    /// Does nothing
    Nop,
    /// Conditionnal move
    Cmov(Cond),
    /// Call label
    Call(Label),
    /// Call address
    CallStar,
    /// Conditionnal jump
    CondJump(Cond, Label),
    /// Jump to label
    Jump(Label),
    /// Jump to address
    JumpStar,
    /// Set operand to 0 or 1 based on the condition
    SetCond(Cond),
}

impl InstrName {
    /// Number of operands that the instruction takes.
    pub open spec fn arity(&self) -> usize {
        match self {
            InstrName::Move => 2,
            InstrName::Add => 2,
            InstrName::Adc => 2,
            InstrName::Sub => 2,
            InstrName::Sbb => 2,
            InstrName::And => 2,
            InstrName::Or => 2,
            InstrName::Xor => 2,
            InstrName::Shl => 2,
            InstrName::Shr => 2,
            InstrName::Sar => 2,
            InstrName::Cmp => 2,
            InstrName::Test => 2,
            InstrName::Lea => 2,
            InstrName::IMul => 2,
            InstrName::Movs => 2,
            InstrName::Movz => 2,
            InstrName::ShlC => 2,
            InstrName::ShrC => 2,
            InstrName::Inc => 1,
            InstrName::Dec => 1,
            InstrName::Neg => 1,
            InstrName::Not => 1,
            InstrName::Push => 1,
            InstrName::Pop => 1,
            InstrName::UnsignedDiv => 1,
            InstrName::SignedDiv => 1,
            InstrName::Ret => 0,
            InstrName::Leave => 0,
            InstrName::Syscall => 0,
            InstrName::Hlt => 0,
            InstrName::Cltd => 0,
            InstrName::Cqto => 0,
            InstrName::Nop => 0,
            InstrName::Cmov(_) => 2,
            InstrName::Call(_) => 0,
            InstrName::CallStar => 1,
            InstrName::CondJump(_, _) => 0,
            InstrName::Jump(_) => 0,
            InstrName::JumpStar => 1,
            InstrName::SetCond(_) => 1,
        }
    }

    /// Whether the mnemonic carries the size letter of the first operand.
    pub open spec fn sized_by_first(&self) -> bool {
        match self {
            InstrName::Move => false,
            InstrName::Add => false,
            InstrName::Adc => false,
            InstrName::Sub => false,
            InstrName::Sbb => false,
            InstrName::And => false,
            InstrName::Or => false,
            InstrName::Xor => false,
            InstrName::Shl => false,
            InstrName::Shr => false,
            InstrName::Sar => false,
            InstrName::Cmp => false,
            InstrName::Test => false,
            InstrName::Lea => false,
            InstrName::IMul => false,
            InstrName::Movs => true,
            InstrName::Movz => true,
            InstrName::ShlC => false,
            InstrName::ShrC => false,
            InstrName::Inc => true,
            InstrName::Dec => true,
            InstrName::Neg => true,
            InstrName::Not => true,
            InstrName::Push => true,
            InstrName::Pop => true,
            InstrName::UnsignedDiv => true,
            InstrName::SignedDiv => true,
            InstrName::Ret => false,
            InstrName::Leave => false,
            InstrName::Syscall => false,
            InstrName::Hlt => false,
            InstrName::Cltd => false,
            InstrName::Cqto => false,
            InstrName::Nop => false,
            InstrName::Cmov(_) => false,
            InstrName::Call(_) => false,
            InstrName::CallStar => false,
            InstrName::CondJump(_, _) => false,
            InstrName::Jump(_) => false,
            InstrName::JumpStar => false,
            InstrName::SetCond(_) => false,
        }
    }

    /// Whether the mnemonic carries the size letter of the second operand.
    pub open spec fn sized_by_second(&self) -> bool {
        match self {
            InstrName::Move => true,
            InstrName::Add => true,
            InstrName::Adc => true,
            InstrName::Sub => true,
            InstrName::Sbb => true,
            InstrName::And => true,
            InstrName::Or => true,
            InstrName::Xor => true,
            InstrName::Shl => true,
            InstrName::Shr => true,
            InstrName::Sar => true,
            InstrName::Cmp => true,
            InstrName::Test => true,
            InstrName::Lea => true,
            InstrName::IMul => true,
            InstrName::Movs => true,
            InstrName::Movz => true,
            InstrName::ShlC => true,
            InstrName::ShrC => true,
            InstrName::Inc => false,
            InstrName::Dec => false,
            InstrName::Neg => false,
            InstrName::Not => false,
            InstrName::Push => false,
            InstrName::Pop => false,
            InstrName::UnsignedDiv => false,
            InstrName::SignedDiv => false,
            InstrName::Ret => false,
            InstrName::Leave => false,
            InstrName::Syscall => false,
            InstrName::Hlt => false,
            InstrName::Cltd => false,
            InstrName::Cqto => false,
            InstrName::Nop => false,
            InstrName::Cmov(_) => false,
            InstrName::Call(_) => false,
            InstrName::CallStar => false,
            InstrName::CondJump(_, _) => false,
            InstrName::Jump(_) => false,
            InstrName::JumpStar => false,
            InstrName::SetCond(_) => false,
        }
    }

    /// Whether a space parts the mnemonic from the operands. An indirect target
    /// stands directly behind its `*`.
    pub open spec fn spaced(&self) -> bool {
        !(self is CallStar || self is JumpStar)
    }

    /// The mnemonic without size letters, with what a call or a jump names.
    pub open spec fn mnemonic(&self, os: Os) -> Seq<char> {
        match self {
            InstrName::Move => "mov"@,
            InstrName::Add => "add"@,
            InstrName::Adc => "adc"@,
            InstrName::Sub => "sub"@,
            InstrName::Sbb => "sbb"@,
            InstrName::And => "and"@,
            InstrName::Or => "or"@,
            InstrName::Xor => "xor"@,
            InstrName::Shl => "shl"@,
            InstrName::Shr => "shr"@,
            InstrName::Sar => "sar"@,
            InstrName::Cmp => "cmp"@,
            InstrName::Test => "test"@,
            InstrName::Lea => "lea"@,
            InstrName::IMul => "imul"@,
            InstrName::Movs => "movs"@,
            InstrName::Movz => "movz"@,
            InstrName::ShlC => "shl"@,
            InstrName::ShrC => "shr"@,
            InstrName::Inc => "inc"@,
            InstrName::Dec => "dec"@,
            InstrName::Neg => "neg"@,
            InstrName::Not => "not"@,
            InstrName::Push => "push"@,
            InstrName::Pop => "pop"@,
            InstrName::UnsignedDiv => "div"@,
            InstrName::SignedDiv => "idiv"@,
            InstrName::Ret => "ret"@,
            InstrName::Leave => "leave"@,
            InstrName::Syscall => "syscall"@,
            InstrName::Hlt => "hlt"@,
            InstrName::Cltd => "cltd"@,
            InstrName::Cqto => "cqto"@,
            InstrName::Nop => "nop"@,
            InstrName::Cmov(cond) => "cmov"@ + cond.suffix(),
            InstrName::Call(label) => "call "@ + label.text(os),
            InstrName::CallStar => "call *"@,
            InstrName::CondJump(cond, label) => "j"@ + cond.suffix() + " "@ + label.text(os),
            InstrName::Jump(label) => "jmp "@ + label.text(os),
            InstrName::JumpStar => "jmp *"@,
            InstrName::SetCond(cond) => "set"@ + cond.suffix(),
        }
    }

    /// Number of operands that the instruction takes.
    pub fn nb_args(&self) -> (n: usize)
        ensures
            n == self.arity(),
    {
        match self {
            InstrName::Move => 2,
            InstrName::Add => 2,
            InstrName::Adc => 2,
            InstrName::Sub => 2,
            InstrName::Sbb => 2,
            InstrName::And => 2,
            InstrName::Or => 2,
            InstrName::Xor => 2,
            InstrName::Shl => 2,
            InstrName::Shr => 2,
            InstrName::Sar => 2,
            InstrName::Cmp => 2,
            InstrName::Test => 2,
            InstrName::Lea => 2,
            InstrName::IMul => 2,
            InstrName::Movs => 2,
            InstrName::Movz => 2,
            InstrName::ShlC => 2,
            InstrName::ShrC => 2,
            InstrName::Inc => 1,
            InstrName::Dec => 1,
            InstrName::Neg => 1,
            InstrName::Not => 1,
            InstrName::Push => 1,
            InstrName::Pop => 1,
            InstrName::UnsignedDiv => 1,
            InstrName::SignedDiv => 1,
            InstrName::Ret => 0,
            InstrName::Leave => 0,
            InstrName::Syscall => 0,
            InstrName::Hlt => 0,
            InstrName::Cltd => 0,
            InstrName::Cqto => 0,
            InstrName::Nop => 0,
            InstrName::Cmov(_) => 2,
            InstrName::Call(_) => 0,
            InstrName::CallStar => 1,
            InstrName::CondJump(_, _) => 0,
            InstrName::Jump(_) => 0,
            InstrName::JumpStar => 1,
            InstrName::SetCond(_) => 1,
        }
    }

    /// Whether the mnemonic carries the size letter of the first operand.
    pub fn print_size_1(&self) -> (b: bool)
        ensures
            b == self.sized_by_first(),
    {
        match self {
            InstrName::Move => false,
            InstrName::Add => false,
            InstrName::Adc => false,
            InstrName::Sub => false,
            InstrName::Sbb => false,
            InstrName::And => false,
            InstrName::Or => false,
            InstrName::Xor => false,
            InstrName::Shl => false,
            InstrName::Shr => false,
            InstrName::Sar => false,
            InstrName::Cmp => false,
            InstrName::Test => false,
            InstrName::Lea => false,
            InstrName::IMul => false,
            InstrName::Movs => true,
            InstrName::Movz => true,
            InstrName::ShlC => false,
            InstrName::ShrC => false,
            InstrName::Inc => true,
            InstrName::Dec => true,
            InstrName::Neg => true,
            InstrName::Not => true,
            InstrName::Push => true,
            InstrName::Pop => true,
            InstrName::UnsignedDiv => true,
            InstrName::SignedDiv => true,
            InstrName::Ret => false,
            InstrName::Leave => false,
            InstrName::Syscall => false,
            InstrName::Hlt => false,
            InstrName::Cltd => false,
            InstrName::Cqto => false,
            InstrName::Nop => false,
            InstrName::Cmov(_) => false,
            InstrName::Call(_) => false,
            InstrName::CallStar => false,
            InstrName::CondJump(_, _) => false,
            InstrName::Jump(_) => false,
            InstrName::JumpStar => false,
            InstrName::SetCond(_) => false,
        }
    }

    /// Whether the mnemonic carries the size letter of the second operand.
    pub fn print_size_2(&self) -> (b: bool)
        ensures
            b == self.sized_by_second(),
    {
        match self {
            InstrName::Move => true,
            InstrName::Add => true,
            InstrName::Adc => true,
            InstrName::Sub => true,
            InstrName::Sbb => true,
            InstrName::And => true,
            InstrName::Or => true,
            InstrName::Xor => true,
            InstrName::Shl => true,
            InstrName::Shr => true,
            InstrName::Sar => true,
            InstrName::Cmp => true,
            InstrName::Test => true,
            InstrName::Lea => true,
            InstrName::IMul => true,
            InstrName::Movs => true,
            InstrName::Movz => true,
            InstrName::ShlC => true,
            InstrName::ShrC => true,
            InstrName::Inc => false,
            InstrName::Dec => false,
            InstrName::Neg => false,
            InstrName::Not => false,
            InstrName::Push => false,
            InstrName::Pop => false,
            InstrName::UnsignedDiv => false,
            InstrName::SignedDiv => false,
            InstrName::Ret => false,
            InstrName::Leave => false,
            InstrName::Syscall => false,
            InstrName::Hlt => false,
            InstrName::Cltd => false,
            InstrName::Cqto => false,
            InstrName::Nop => false,
            InstrName::Cmov(_) => false,
            InstrName::Call(_) => false,
            InstrName::CallStar => false,
            InstrName::CondJump(_, _) => false,
            InstrName::Jump(_) => false,
            InstrName::JumpStar => false,
            InstrName::SetCond(_) => false,
        }
    }

    /// Whether a space parts the mnemonic from the operands.
    pub fn add_space(&self) -> (b: bool)
        ensures
            b == self.spaced(),
    {
        match self {
            InstrName::CallStar | InstrName::JumpStar => false,
            _ => true,
        }
    }

    /// Writes the mnemonic at the end of `out`.
    pub fn write_name(&self, os: Os, out: &mut String)
        ensures
            final(out)@ == old(out)@ + self.mnemonic(os),
    {
        match self {
            InstrName::Move => out.append("mov"),
            InstrName::Add => out.append("add"),
            InstrName::Adc => out.append("adc"),
            InstrName::Sub => out.append("sub"),
            InstrName::Sbb => out.append("sbb"),
            InstrName::And => out.append("and"),
            InstrName::Or => out.append("or"),
            InstrName::Xor => out.append("xor"),
            InstrName::Shl => out.append("shl"),
            InstrName::Shr => out.append("shr"),
            InstrName::Sar => out.append("sar"),
            InstrName::Cmp => out.append("cmp"),
            InstrName::Test => out.append("test"),
            InstrName::Lea => out.append("lea"),
            InstrName::IMul => out.append("imul"),
            InstrName::Movs => out.append("movs"),
            InstrName::Movz => out.append("movz"),
            InstrName::ShlC => out.append("shl"),
            InstrName::ShrC => out.append("shr"),
            InstrName::Inc => out.append("inc"),
            InstrName::Dec => out.append("dec"),
            InstrName::Neg => out.append("neg"),
            InstrName::Not => out.append("not"),
            InstrName::Push => out.append("push"),
            InstrName::Pop => out.append("pop"),
            InstrName::UnsignedDiv => out.append("div"),
            InstrName::SignedDiv => out.append("idiv"),
            InstrName::Ret => out.append("ret"),
            InstrName::Leave => out.append("leave"),
            InstrName::Syscall => out.append("syscall"),
            InstrName::Hlt => out.append("hlt"),
            InstrName::Cltd => out.append("cltd"),
            InstrName::Cqto => out.append("cqto"),
            InstrName::Nop => out.append("nop"),
            InstrName::Cmov(cond) => {
                out.append("cmov");
                out.append(cond.to_str());
            },
            InstrName::Call(label) => {
                out.append("call ");
                label.write_in(os, out);
            },
            InstrName::CallStar => out.append("call *"),
            InstrName::CondJump(cond, label) => {
                out.append("j");
                out.append(cond.to_str());
                out.append(" ");
                label.write_in(os, out);
            },
            InstrName::Jump(label) => {
                out.append("jmp ");
                label.write_in(os, out);
            },
            InstrName::JumpStar => out.append("jmp *"),
            InstrName::SetCond(cond) => {
                out.append("set");
                out.append(cond.to_str());
            },
        }
        assert(out@ =~= old(out)@ + self.mnemonic(os));
    }
}

impl Writable for InstrName {
    open spec fn text(&self, target: Target) -> Seq<char> {
        self.mnemonic(target.os)
    }

    fn write_in(&self, target: Target, out: &mut String) {
        self.write_name(target.os, out);
    }
}

/// Structure storing the instruction name and a most 2 operands.
/// To type with less than 2 operands use the type RegInv which can never be used for real operands
pub struct Instruction<S1: Reg, S2: Reg> {
    /// Instruction name
    pub instr: InstrName,
    /// First operand if exists
    pub reg1: Option<Operand<S1>>,
    /// Second operand if exists
    pub reg2: Option<Operand<S2>>,
}

/// One `.byte` directive for each byte of machine code, each on a line of its own:
/// a line break and a tab stand between two of them, none before the first or after the last.
pub open spec fn directives(code: Seq<u8>) -> Seq<char>
    decreases code.len(),
{
    if code.len() == 0 {
        Seq::empty()
    } else if code.len() == 1 {
        ".byte 0x"@ + hex_byte(code[0])
    } else {
        directives(code.drop_last()) + "\n\t"@ + ".byte 0x"@ + hex_byte(code.last())
    }
}

/// Writes machine code as `.byte` directives.
pub fn write_directives(code: &Vec<u8>, out: &mut String)
    ensures
        final(out)@ == old(out)@ + directives(code@),
{
    let mut i: usize = 0;
    assert(code@.take(0) =~= Seq::empty());
    while i < code.len()
        invariant
            i <= code.len(),
            out@ == old(out)@ + directives(code@.take(i as int)),
        decreases code.len() - i,
    {
        if i > 0 {
            out.append("\n\t");
        }
        out.append(".byte 0x");
        push_hex_byte(out, code[i]);
        proof {
            let next = code@.take(i + 1);
            assert(next.drop_last() =~= code@.take(i as int));
            assert(next.last() == code@[i as int]);
            assert(out@ =~= old(out)@ + directives(next));
        }
        i = i + 1;
    }
    assert(code@.take(i as int) =~= code@);
}

impl<S1: Reg, S2: Reg> Instruction<S1, S2> {
    /// The operands are those that the instruction takes, no more and no fewer;
    /// each stands in a slot of a real register family; both are well formed.
    pub open spec fn wf(&self) -> bool {
        &&& self.reg1 is Some <==> self.instr.arity() >= 1
        &&& self.reg2 is Some <==> self.instr.arity() >= 2
        &&& self.reg1 is Some ==> S1::width() != Sizes::Invalid && self.reg1->Some_0.wf()
        &&& self.reg2 is Some ==> S2::width() != Sizes::Invalid && self.reg2->Some_0.wf()
    }

    /// The size letters of the mnemonic.
    pub open spec fn suffixes(&self) -> Seq<char> {
        (if self.instr.sized_by_first() {
            seq![S1::width().suffix()]
        } else {
            Seq::empty()
        }) + (if self.instr.sized_by_second() {
            seq![S2::width().suffix()]
        } else {
            Seq::empty()
        })
    }

    /// The operands, with a comma and a space between two, and before them the
    /// space that parts them from the mnemonic.
    pub open spec fn operands(&self, os: Os) -> Seq<char> {
        (if self.instr.arity() >= 1 {
            (if self.instr.spaced() {
                " "@
            } else {
                Seq::empty()
            }) + self.reg1->Some_0.text(os)
        } else {
            Seq::empty()
        }) + (if self.instr.arity() >= 2 {
            ", "@ + self.reg2->Some_0.text(os)
        } else {
            Seq::empty()
        })
    }

    /// The instruction in assembler syntax: mnemonic, size letters, operands.
    pub open spec fn text(&self, os: Os) -> Seq<char> {
        self.instr.mnemonic(os) + self.suffixes() + self.operands(os)
    }

    /// What is written for the instruction: its machine code as `.byte` directives
    /// where the target asks for it and the instruction can be encoded, else its text.
    pub open spec fn rendering(&self, target: Target) -> Seq<char> {
        if target.binary && self.encoding() is Some {
            directives(self.encoding()->Some_0)
        } else {
            self.text(target.os)
        }
    }

    /// The instruction with these operands, where they are those that it takes
    /// and are well formed.
    pub fn checked(
        instr: InstrName,
        reg1: Option<Operand<S1>>,
        reg2: Option<Operand<S2>>,
    ) -> (made: Option<Self>)
        ensures
            made is Some <==> (Instruction { instr, reg1, reg2 }).wf(),
            made matches Some(i) ==> i == (Instruction { instr, reg1, reg2 }),
    {
        let i = Instruction { instr, reg1, reg2 };
        if i.is_wf() {
            Some(i)
        } else {
            None
        }
    }

    /// Tells whether the operands are those that the instruction takes and are well formed.
    pub fn is_wf(&self) -> (b: bool)
        ensures
            b == self.wf(),
    {
        let n: usize = self.instr.nb_args();
        let first: bool = match &self.reg1 {
            Some(op) => n >= 1 && !matches!(S1::size(), Sizes::Invalid) && op.is_wf(),
            None => n == 0,
        };
        let second: bool = match &self.reg2 {
            Some(op) => n >= 2 && !matches!(S2::size(), Sizes::Invalid) && op.is_wf(),
            None => n < 2,
        };
        first && second
    }

    /// Writes the size letters of the mnemonic.
    fn write_suffixes(&self, out: &mut String)
        requires
            self.wf(),
        ensures
            final(out)@ == old(out)@ + self.suffixes(),
    {
        if self.instr.print_size_1() {
            out.append(S1::size().to_str());
        }
        if self.instr.print_size_2() {
            out.append(S2::size().to_str());
        }
        assert(out@ =~= old(out)@ + self.suffixes());
    }

    /// Writes the operands.
    fn write_operands(&self, os: Os, out: &mut String)
        requires
            self.wf(),
        ensures
            final(out)@ == old(out)@ + self.operands(os),
    {
        if self.instr.nb_args() >= 1 {
            if self.instr.add_space() {
                out.append(" ");
            }
            match &self.reg1 {
                Some(op) => op.write_in(os, out),
                None => {},
            }
        }
        let ghost mid = out@;
        if self.instr.nb_args() >= 2 {
            out.append(", ");
            match &self.reg2 {
                Some(op) => op.write_in(os, out),
                None => {},
            }
            assert(out@ =~= mid + (", "@ + self.reg2->Some_0.text(os)));
        }
        assert(out@ =~= old(out)@ + self.operands(os));
    }

    /// Writes the instruction in assembler syntax.
    pub fn default_writer(&self, os: Os, out: &mut String)
        requires
            self.wf(),
        ensures
            final(out)@ == old(out)@ + self.text(os),
    {
        self.instr.write_name(os, out);
        self.write_suffixes(out);
        self.write_operands(os, out);
        assert(out@ =~= old(out)@ + self.text(os));
    }

    /// Writes the instruction for the target: as machine code where the target
    /// asks for it and the instruction can be encoded, else as text.
    pub fn write_instr(&self, target: Target, out: &mut String)
        requires
            self.wf(),
        ensures
            final(out)@ == old(out)@ + self.rendering(target),
    {
        if target.binary {
            match self.to_bin() {
                Some(v) => write_directives(&v, out),
                None => self.default_writer(target.os, out),
            }
        } else {
            self.default_writer(target.os, out)
        }
    }

    /// Forgets the operand widths: what is left is what can be written.
    pub fn boxed(&self) -> (instr: Instr)
        requires
            self.wf(),
        ensures
            instr.represents(*self),
    {
        let mut linux = String::new();
        self.default_writer(Os::Linux, &mut linux);
        let mut mac_os = String::new();
        self.default_writer(Os::MacOs, &mut mac_os);
        let code = self.to_bin();
        assert(linux@ =~= self.text(Os::Linux));
        assert(mac_os@ =~= self.text(Os::MacOs));
        Instr { linux, mac_os, code }
    }
}

/// Type representing an instruction, whatever its operand widths:
/// its text on each system and its machine code, where it has one.
pub struct Instr {
    linux: String,
    mac_os: String,
    code: Option<Vec<u8>>,
}

impl Instr {
    /// The instruction in assembler syntax.
    pub closed spec fn mnemonic(&self, os: Os) -> Seq<char> {
        match os {
            Os::Linux => self.linux@,
            Os::MacOs => self.mac_os@,
        }
    }

    /// The machine code of the instruction, where it can be encoded.
    pub closed spec fn code(&self) -> Option<Seq<u8>> {
        match self.code {
            Some(v) => Some(v@),
            None => None,
        }
    }

    /// Whether this is the instruction `i` with its widths forgotten.
    pub open spec fn represents<S1: Reg, S2: Reg>(&self, i: Instruction<S1, S2>) -> bool {
        &&& self.mnemonic(Os::Linux) == i.text(Os::Linux)
        &&& self.mnemonic(Os::MacOs) == i.text(Os::MacOs)
        &&& self.code() == i.encoding()
    }

    /// The machine code of the instruction, where it can be encoded.
    pub fn machine_code(&self) -> (code: &Option<Vec<u8>>)
        ensures
            code is Some <==> self.code() is Some,
            code matches Some(v) ==> v@ == self.code()->Some_0,
    {
        &self.code
    }

    /// Write the instruction at the end of `out`
    pub fn write_instr(&self, target: Target, out: &mut String)
        ensures
            final(out)@ == old(out)@ + self.text(target),
    {
        if target.binary {
            match &self.code {
                Some(v) => {
                    write_directives(v, out);
                    return ;
                },
                None => {},
            }
        }
        match target.os {
            Os::Linux => out.append(self.linux.as_str()),
            Os::MacOs => out.append(self.mac_os.as_str()),
        }
    }
}

impl Writable for Instr {
    /// Machine code as `.byte` directives where the target asks for it and
    /// the instruction can be encoded, else the text.
    open spec fn text(&self, target: Target) -> Seq<char> {
        if target.binary && self.code() is Some {
            directives(self.code()->Some_0)
        } else {
            self.mnemonic(target.os)
        }
    }

    fn write_in(&self, target: Target, out: &mut String) {
        self.write_instr(target, out)
    }
}

} // verus!
