//! What the bytes of an instruction mean: the reading that takes machine code
//! back to mnemonic and operands.

use vstd::prelude::*;
use crate::binary::{
    cmov_encoding, group1_encoding, group1_opcode, group3_encoding, move_encoding, push_encoding,
    with_ext, with_reg,
};
use crate::decoding::{
    lemma_read_bytecode, lemma_read_instruction, lemma_signed_round_trip, plain_opcode, read_head,
    read_rm, signed_value, Head, Place,
};
use crate::encoding::{signed_le, ByteCode, Imm, REX};
use crate::instr::{InstrName, Instruction};
use crate::reg::{Operand, RegInv, Sizes};
use crate::traits::Reg;

verus! {

/// An operand as machine code holds it: registers by extension flag and code.
pub enum Arg {
    /// A register
    Register(bool, u8),
    /// Memory at `disp` plus base plus, where there is one, index (code, then scale)
    Memory { disp: int, base: (bool, u8), index: Option<(u8, u8)> },
    /// An immediate value
    Immediate(int),
    /// A label, which machine code never holds
    Symbol,
}

/// The instructions that machine code tells apart. Conditions are known by their
/// code, which conditions that test the same flags share.
pub enum Mnemonic {
    Mov,
    /// One of add, or, adc, sbb, and, sub, xor, cmp, by its place among them
    Arithmetic(u8),
    Push,
    Pop,
    /// One of not, neg, div, idiv, by its opcode extension
    Unary(u8),
    Cmov(u8),
    SetCc(u8),
    Ret,
    Leave,
    Syscall,
    Hlt,
    Cltd,
    Cqto,
    Nop,
}

/// An instruction as machine code holds it.
pub struct Meaning {
    pub mnemonic: Mnemonic,
    /// Width of the operands; invalid where there are none
    pub size: Sizes,
    pub first: Option<Arg>,
    pub second: Option<Arg>,
}

impl<T: Reg> Operand<T> {
    /// The operand as machine code holds it.
    pub open spec fn arg(&self) -> Arg {
        match self {
            Operand::Reg(r) => Arg::Register(r.bits().0, r.bits().1),
            Operand::Addr(disp, base, None, _) => Arg::Memory {
                disp: *disp as int,
                base: base.bits(),
                index: None,
            },
            Operand::Addr(disp, base, Some(index), scale) => Arg::Memory {
                disp: *disp as int,
                base: base.bits(),
                index: Some((index.bits().1, *scale)),
            },
            Operand::Imm(v) => Arg::Immediate(*v as int),
            _ => Arg::Symbol,
        }
    }
}

impl InstrName {
    /// The instruction as machine code tells it apart, where this encoder has a
    /// form for it.
    pub open spec fn mnemonic_code(&self) -> Option<Mnemonic> {
        match self {
            InstrName::Move => Some(Mnemonic::Mov),
            InstrName::Push => Some(Mnemonic::Push),
            InstrName::Pop => Some(Mnemonic::Pop),
            InstrName::Cmov(cond) => Some(Mnemonic::Cmov(cond.code())),
            InstrName::SetCond(cond) => Some(Mnemonic::SetCc(cond.code())),
            InstrName::Ret => Some(Mnemonic::Ret),
            InstrName::Leave => Some(Mnemonic::Leave),
            InstrName::Syscall => Some(Mnemonic::Syscall),
            InstrName::Hlt => Some(Mnemonic::Hlt),
            InstrName::Cltd => Some(Mnemonic::Cltd),
            InstrName::Cqto => Some(Mnemonic::Cqto),
            InstrName::Nop => Some(Mnemonic::Nop),
            _ => if self.group1() is Some {
                Some(Mnemonic::Arithmetic(self.group1()->Some_0))
            } else if self.group3() is Some {
                Some(Mnemonic::Unary(self.group3()->Some_0))
            } else {
                None
            },
        }
    }
}

impl<S1: Reg, S2: Reg> Instruction<S1, S2> {
    /// The instruction as machine code holds it.
    pub open spec fn meaning(&self) -> Option<Meaning> {
        match self.instr.mnemonic_code() {
            Some(mnemonic) => Some(
                Meaning {
                    mnemonic,
                    size: if self.instr.arity() == 0 {
                        Sizes::Invalid
                    } else {
                        S1::width()
                    },
                    first: match self.reg1 {
                        Some(op) => Some(op.arg()),
                        None => None,
                    },
                    second: match self.reg2 {
                        Some(op) => Some(op.arg()),
                        None => None,
                    },
                },
            ),
            None => None,
        }
    }
}

/// The operand that the rm field names, with the extension flag of REX.B.
pub open spec fn place_arg(place: Place, ext: bool) -> Arg {
    match place {
        Place::Register(code) => Arg::Register(ext, code),
        Place::Memory { disp, base, index } => Arg::Memory { disp, base: (ext, base), index },
    }
}

/// Width of the operands of an instruction that is not on bytes.
pub open spec fn width_of(head: Head) -> Sizes {
    if head.rex.w {
        Sizes::Quad
    } else if head.small {
        Sizes::Word
    } else {
        Sizes::Long
    }
}

/// An instruction on the register of the reg field and the operand of the rm field.
/// `to_reg` tells which of them is written.
pub open spec fn on_reg_and_rm(
    mnemonic: Mnemonic,
    size: Sizes,
    head: Head,
    rest: Seq<u8>,
    to_reg: bool,
) -> Option<Meaning> {
    match read_rm(rest) {
        Some((reg, place, _)) => {
            let register = Arg::Register(head.rex.r, reg);
            let other = place_arg(place, head.rex.b);
            Some(
                Meaning {
                    mnemonic,
                    size,
                    first: Some(
                        if to_reg {
                            other
                        } else {
                            register
                        },
                    ),
                    second: Some(
                        if to_reg {
                            register
                        } else {
                            other
                        },
                    ),
                },
            )
        },
        None => None,
    }
}

/// An instruction on an immediate of `width` bytes and the operand of the rm field.
pub open spec fn on_imm_and_rm(
    mnemonic: Mnemonic,
    size: Sizes,
    head: Head,
    rest: Seq<u8>,
    width: nat,
) -> Option<Meaning> {
    match read_rm(rest) {
        Some((_, place, len)) => if rest.len() >= len + width {
            Some(
                Meaning {
                    mnemonic,
                    size,
                    first: Some(
                        Arg::Immediate(signed_value(rest.subrange(len as int, (len + width) as int))),
                    ),
                    second: Some(place_arg(place, head.rex.b)),
                },
            )
        } else {
            None
        },
        None => None,
    }
}

/// An instruction on the operand of the rm field alone.
pub open spec fn on_rm(mnemonic: Mnemonic, size: Sizes, head: Head, rest: Seq<u8>) -> Option<
    Meaning,
> {
    match read_rm(rest) {
        Some((_, place, _)) => Some(
            Meaning { mnemonic, size, first: Some(place_arg(place, head.rex.b)), second: None },
        ),
        None => None,
    }
}

/// An instruction on an immediate of `width` bytes alone.
pub open spec fn on_imm(mnemonic: Mnemonic, size: Sizes, rest: Seq<u8>, width: nat) -> Option<
    Meaning,
> {
    if rest.len() >= width {
        Some(
            Meaning {
                mnemonic,
                size,
                first: Some(Arg::Immediate(signed_value(rest.subrange(0, width as int)))),
                second: None,
            },
        )
    } else {
        None
    }
}

/// An instruction without operands.
pub open spec fn alone(mnemonic: Mnemonic) -> Option<Meaning> {
    Some(Meaning { mnemonic, size: Sizes::Invalid, first: None, second: None })
}

/// The content of the reg field, where ModRM can be read.
pub open spec fn extension(rest: Seq<u8>) -> int {
    match read_rm(rest) {
        Some((reg, _, _)) => reg as int,
        None => -1,
    }
}

/// What an instruction whose opcode stands behind the escape byte means.
pub open spec fn escaped_meaning(head: Head, rest: Seq<u8>) -> Option<Meaning> {
    let op = head.op_code;
    if op == 0x05 {
        alone(Mnemonic::Syscall)
    } else if 0x40 <= op <= 0x4f {
        on_reg_and_rm(Mnemonic::Cmov((op - 0x40) as u8), width_of(head), head, rest, true)
    } else if 0x90 <= op <= 0x9f {
        on_rm(Mnemonic::SetCc((op - 0x90) as u8), Sizes::Byte, head, rest)
    } else {
        None
    }
}

/// What an instruction whose opcode stands without escape byte means.
pub open spec fn plain_meaning(head: Head, rest: Seq<u8>) -> Option<Meaning> {
    let op = head.op_code;
    let size = width_of(head);
    if op < 0x40 && op % 8 < 4 {
        on_reg_and_rm(
            Mnemonic::Arithmetic(op / 8),
            if op % 2 == 0 {
                Sizes::Byte
            } else {
                size
            },
            head,
            rest,
            op % 4 >= 2,
        )
    } else if op == 0x81 {
        on_imm_and_rm(Mnemonic::Arithmetic(extension(rest) as u8), size, head, rest, 4)
    } else if op == 0x89 {
        on_reg_and_rm(Mnemonic::Mov, size, head, rest, false)
    } else if op == 0x8b {
        on_reg_and_rm(Mnemonic::Mov, size, head, rest, true)
    } else if op == 0xc7 && extension(rest) == 0 {
        on_imm_and_rm(
            Mnemonic::Mov,
            size,
            head,
            rest,
            if head.small {
                2
            } else {
                4
            },
        )
    } else if op == 0xff && extension(rest) == 6 {
        on_rm(Mnemonic::Push, Sizes::Quad, head, rest)
    } else if op == 0x8f && extension(rest) == 0 {
        on_rm(Mnemonic::Pop, Sizes::Quad, head, rest)
    } else if op == 0xf6 {
        on_rm(Mnemonic::Unary(extension(rest) as u8), Sizes::Byte, head, rest)
    } else if op == 0xf7 {
        on_rm(Mnemonic::Unary(extension(rest) as u8), size, head, rest)
    } else if op == 0x6a {
        on_imm(Mnemonic::Push, Sizes::Byte, rest, 1)
    } else if op == 0x68 {
        if head.small {
            on_imm(Mnemonic::Push, Sizes::Word, rest, 2)
        } else {
            on_imm(Mnemonic::Push, Sizes::Long, rest, 4)
        }
    } else if op == 0xc3 {
        alone(Mnemonic::Ret)
    } else if op == 0xc9 {
        alone(Mnemonic::Leave)
    } else if op == 0xf4 {
        alone(Mnemonic::Hlt)
    } else if op == 0x99 {
        alone(
            if head.rex.w {
                Mnemonic::Cqto
            } else {
                Mnemonic::Cltd
            },
        )
    } else if op == 0x90 {
        alone(Mnemonic::Nop)
    } else {
        None
    }
}

/// What the bytes of one instruction mean: mnemonic, width and operands.
pub open spec fn disassemble(bytes: Seq<u8>) -> Option<Meaning> {
    match read_head(bytes) {
        Some(head) => {
            let rest = bytes.skip(head.len as int);
            if head.escaped {
                escaped_meaning(head, rest)
            } else {
                plain_meaning(head, rest)
            }
        },
        None => None,
    }
}

/// What the reading finds in an instruction with a register in the reg field:
/// the prefixes and the opcode that it was made with, the register, and the operand.
pub proof fn lemma_read_with_reg<R1: Reg, R2: Reg>(
    small: bool,
    wide: bool,
    escape: Option<u8>,
    op_code: u8,
    reg: R1,
    rm: Operand<R2>,
)
    requires
        rm.wf(),
        with_reg(small, wide, escape, op_code, reg, rm) is Some,
        escape is None ==> plain_opcode(op_code),
        escape matches Some(e) ==> e == 0x0f,
    ensures
        ({
            let bytes = with_reg(small, wide, escape, op_code, reg, rm)->Some_0;
            let head = read_head(bytes)->Some_0;
            let rest = bytes.skip(head.len as int);
            &&& read_head(bytes) is Some
            &&& head.small == small
            &&& head.rex.w == wide
            &&& head.escaped == (escape is Some)
            &&& head.op_code == op_code
            &&& read_rm(rest) matches Some((code, place, _)) && Arg::Register(head.rex.r, code)
                == Arg::Register(reg.bits().0, reg.bits().1) && place_arg(place, head.rex.b)
                == rm.arg()
        }),
{
    let code = ByteCode {
        small_reg_flag: small,
        prefix: escape,
        op_code,
        rex: REX { w: wide, r: false, x: false, b: false },
        reg: Some(reg),
        rm: rm.target(),
        addr: rm.address(),
        imm: Imm::NoImm(0),
    };
    assert(code.wf());
    lemma_read_instruction(code);
    lemma_read_bytecode(code);
}

/// What the reading finds in an instruction with an opcode extension in the reg
/// field: the prefixes and the opcode that it was made with, the extension, the
/// operand, and behind them the bytes of the immediate and nothing more.
pub proof fn lemma_read_with_ext<R: Reg>(
    small: bool,
    wide: bool,
    escape: Option<u8>,
    op_code: u8,
    rm: Operand<R>,
    imm: Imm,
)
    requires
        rm.wf(),
        imm.ext() < 8,
        with_ext(small, wide, escape, op_code, rm, imm) is Some,
        escape is None ==> plain_opcode(op_code),
        escape matches Some(e) ==> e == 0x0f,
    ensures
        ({
            let bytes = with_ext(small, wide, escape, op_code, rm, imm)->Some_0;
            let head = read_head(bytes)->Some_0;
            let rest = bytes.skip(head.len as int);
            &&& read_head(bytes) is Some
            &&& head.small == small
            &&& head.rex.w == wide
            &&& head.escaped == (escape is Some)
            &&& head.op_code == op_code
            &&& extension(rest) == imm.ext()
            &&& read_rm(rest) matches Some((_, place, len)) && place_arg(place, head.rex.b)
                == rm.arg() && rest.len() == len + imm.bytes().len() && rest.subrange(
                len as int,
                (len + imm.bytes().len()) as int,
            ) == imm.bytes()
        }),
{
    let code = ByteCode::<RegInv, R> {
        small_reg_flag: small,
        prefix: escape,
        op_code,
        rex: REX { w: wide, r: false, x: false, b: false },
        reg: None,
        rm: rm.target(),
        addr: rm.address(),
        imm,
    };
    assert(code.wf());
    lemma_read_instruction(code);
    lemma_read_bytecode(code);
    let bytes = code.bytes();
    let head_len = code.head_bytes().len();
    let rest = bytes.skip(head_len as int);
    let len = code.rm_bytes().len();
    assert(rest =~= code.rm_bytes() + code.imm.bytes());
    assert(rest.subrange(len as int, (len + imm.bytes().len()) as int) =~= imm.bytes());
}

/// The meaning of an instruction on two operands.
pub open spec fn binary_meaning<S1: Reg, S2: Reg>(
    mnemonic: Mnemonic,
    op1: Operand<S1>,
    op2: Operand<S2>,
) -> Option<Meaning> {
    Some(Meaning { mnemonic, size: S1::width(), first: Some(op1.arg()), second: Some(op2.arg()) })
}

/// The meaning of an instruction on one operand.
pub open spec fn unary_meaning<S: Reg>(mnemonic: Mnemonic, op: Operand<S>) -> Option<Meaning> {
    Some(Meaning { mnemonic, size: S::width(), first: Some(op.arg()), second: None })
}

/// A move is read back from its machine code.
pub proof fn lemma_move_round_trip<S1: Reg, S2: Reg>(op1: Operand<S1>, op2: Operand<S2>)
    requires
        op1.wf(),
        op2.wf(),
        move_encoding(op1, op2) is Some,
    ensures
        disassemble(move_encoding(op1, op2)->Some_0) == binary_meaning(Mnemonic::Mov, op1, op2),
{
    let size = S1::width();
    let small = size == Sizes::Word;
    let wide = size == Sizes::Quad;
    match op1 {
        Operand::Reg(reg) => {
            lemma_read_with_reg(small, wide, None, 0x89, reg, op2);
        },
        Operand::Addr(_, _, _, _) => {
            match op2 {
                Operand::Reg(reg) => {
                    lemma_read_with_reg(small, wide, None, 0x8b, reg, op1);
                },
                _ => {},
            }
        },
        Operand::Imm(imm) => {
            if small {
                lemma_read_with_ext(true, false, None, 0xc7, op2, Imm::I16(imm as i16, 0));
                lemma_signed_round_trip(imm as int, 2);
            } else {
                lemma_read_with_ext(false, wide, None, 0xc7, op2, Imm::I32(imm as i32, 0));
                lemma_signed_round_trip(imm as int, 4);
            }
        },
        _ => {},
    }
}

/// An arithmetic instruction is read back from its machine code.
pub proof fn lemma_arithmetic_round_trip<S1: Reg, S2: Reg>(
    index: u8,
    op1: Operand<S1>,
    op2: Operand<S2>,
)
    requires
        index < 8,
        op1.wf(),
        op2.wf(),
        group1_encoding(index, op1, op2) is Some,
    ensures
        disassemble(group1_encoding(index, op1, op2)->Some_0) == binary_meaning(
            Mnemonic::Arithmetic(index),
            op1,
            op2,
        ),
{
    let size = S1::width();
    let byte = size == Sizes::Byte;
    let wide = size == Sizes::Quad;
    match op1 {
        Operand::Reg(reg) => {
            lemma_read_with_reg(false, wide, None, group1_opcode(index, byte, false), reg, op2);
        },
        Operand::Addr(_, _, _, _) => {
            match op2 {
                Operand::Reg(reg) => {
                    lemma_read_with_reg(
                        false,
                        wide,
                        None,
                        group1_opcode(index, byte, true),
                        reg,
                        op1,
                    );
                },
                _ => {},
            }
        },
        Operand::Imm(imm) => {
            lemma_read_with_ext(false, wide, None, 0x81, op2, Imm::I32(imm as i32, index));
            lemma_signed_round_trip(imm as int, 4);
        },
        _ => {},
    }
}

/// A push is read back from its machine code.
pub proof fn lemma_push_round_trip<S: Reg>(op: Operand<S>)
    requires
        op.wf(),
        push_encoding(op) is Some,
    ensures
        disassemble(push_encoding(op)->Some_0) == unary_meaning(Mnemonic::Push, op),
{
    let size = S::width();
    let bytes = push_encoding(op)->Some_0;
    match op {
        Operand::Imm(imm) => {
            if size == Sizes::Byte {
                lemma_signed_round_trip(imm as int, 1);
                let rest = signed_le(imm as int, 1);
                assert(bytes.skip(1) =~= rest);
                assert(rest.subrange(0, 1) =~= rest);
            } else if size == Sizes::Word {
                lemma_signed_round_trip(imm as int, 2);
                let rest = signed_le(imm as int, 2);
                assert(bytes.skip(2) =~= rest);
                assert(rest.subrange(0, 2) =~= rest);
            } else {
                lemma_signed_round_trip(imm as int, 4);
                let rest = signed_le(imm as int, 4);
                assert(bytes.skip(1) =~= rest);
                assert(rest.subrange(0, 4) =~= rest);
            }
        },
        _ => {
            lemma_read_with_ext(false, false, None, 0xff, op, Imm::NoImm(6));
        },
    }
}

/// A negation or a division is read back from its machine code.
pub proof fn lemma_unary_round_trip<S: Reg>(ext: u8, op: Operand<S>)
    requires
        ext < 8,
        op.wf(),
        S::width() != Sizes::Invalid,
        group3_encoding(ext, op) is Some,
    ensures
        disassemble(group3_encoding(ext, op)->Some_0) == unary_meaning(Mnemonic::Unary(ext), op),
{
    let size = S::width();
    lemma_read_with_ext(
        size == Sizes::Word,
        size == Sizes::Quad,
        None,
        if size == Sizes::Byte {
            0xf6
        } else {
            0xf7
        },
        op,
        Imm::NoImm(ext),
    );
}

/// A conditional move is read back from its machine code.
pub proof fn lemma_cmov_round_trip<S1: Reg, S2: Reg>(
    code: u8,
    op1: Operand<S1>,
    op2: Operand<S2>,
)
    requires
        code < 16,
        op1.wf(),
        op2.wf(),
        S1::width() != Sizes::Invalid,
        cmov_encoding(code, op1, op2) is Some,
    ensures
        disassemble(cmov_encoding(code, op1, op2)->Some_0) == binary_meaning(
            Mnemonic::Cmov(code),
            op1,
            op2,
        ),
{
    let size = S1::width();
    match op2 {
        Operand::Reg(reg) => {
            lemma_read_with_reg(
                size == Sizes::Word,
                size == Sizes::Quad,
                Some(0x0f),
                (0x40 + code) as u8,
                reg,
                op1,
            );
        },
        _ => {},
    }
}

/// An instruction without operands is read back from its machine code.
pub proof fn lemma_fixed_round_trip(name: InstrName)
    requires
        name.fixed() is Some,
    ensures
        Some(disassemble(name.fixed()->Some_0)) == (match name.mnemonic_code() {
            Some(mnemonic) => Some(alone(mnemonic)),
            None => None,
        }),
{
    let bytes = name.fixed()->Some_0;
    match name {
        InstrName::Syscall => {
            assert(bytes.skip(2) =~= Seq::<u8>::empty());
        },
        InstrName::Cqto => {
            assert(bytes[0] == 0x48u8);
        },
        _ => {},
    }
}

/// Machine code read back gives the instruction that it was made from: the same
/// mnemonic (conditions that test the same flags are one), the same width, the
/// same operands.
pub proof fn lemma_round_trip<S1: Reg, S2: Reg>(i: Instruction<S1, S2>)
    requires
        i.wf(),
        i.encoding() is Some,
    ensures
        disassemble(i.encoding()->Some_0) == i.meaning(),
{
    match i.instr {
        InstrName::Move => {
            lemma_move_round_trip(i.reg1->Some_0, i.reg2->Some_0);
        },
        InstrName::Push => {
            lemma_push_round_trip(i.reg1->Some_0);
        },
        InstrName::Pop => {
            lemma_read_with_ext(false, false, None, 0x8f, i.reg1->Some_0, Imm::NoImm(0));
        },
        InstrName::Cmov(cond) => {
            lemma_cmov_round_trip(cond.code(), i.reg1->Some_0, i.reg2->Some_0);
        },
        InstrName::SetCond(cond) => {
            lemma_read_with_ext(
                false,
                false,
                Some(0x0f),
                (0x90 + cond.code()) as u8,
                i.reg1->Some_0,
                Imm::NoImm(0),
            );
        },
        _ => {
            if i.instr.group1() is Some {
                lemma_arithmetic_round_trip(i.instr.group1()->Some_0, i.reg1->Some_0, i.reg2->Some_0);
            } else if i.instr.group3() is Some {
                lemma_unary_round_trip(i.instr.group3()->Some_0, i.reg1->Some_0);
            } else {
                lemma_fixed_round_trip(i.instr);
            }
        },
    }
}

} // verus!
