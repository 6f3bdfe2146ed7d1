//! Which bytes stand for which instruction.

use vstd::prelude::*;
use crate::encoding::{fits_i16, fits_i32, fits_i8, push_signed_le, signed_le, ByteCode, Imm, REX};
use crate::instr::{InstrName, Instruction};
use crate::reg::{Operand, RegInv, Sizes};
use crate::traits::Reg;

verus! {

/// Whether a vector of bytes, or its absence, is what `code` says.
pub open spec fn agrees(out: Option<Vec<u8>>, code: Option<Seq<u8>>) -> bool {
    match (out, code) {
        (Some(v), Some(s)) => v@ == s,
        (None, None) => true,
        _ => false,
    }
}

/// An instruction with `reg` in the reg field of ModRM and `rm` in its rm field.
/// `small` asks for the 16-bit prefix, `wide` for REX.W.
pub open spec fn with_reg<R1: Reg, R2: Reg>(
    small: bool,
    wide: bool,
    escape: Option<u8>,
    op_code: u8,
    reg: R1,
    rm: Operand<R2>,
) -> Option<Seq<u8>> {
    if rm.rm() {
        (ByteCode {
            small_reg_flag: small,
            prefix: escape,
            op_code,
            rex: REX { w: wide, r: false, x: false, b: false },
            reg: Some(reg),
            rm: rm.target(),
            addr: rm.address(),
            imm: Imm::NoImm(0),
        }).encoding()
    } else {
        None
    }
}

/// An instruction with the opcode extension of `imm` in the reg field of ModRM,
/// `rm` in its rm field and `imm` behind it.
pub open spec fn with_ext<R: Reg>(
    small: bool,
    wide: bool,
    escape: Option<u8>,
    op_code: u8,
    rm: Operand<R>,
    imm: Imm,
) -> Option<Seq<u8>> {
    if rm.rm() {
        (ByteCode::<RegInv, R> {
            small_reg_flag: small,
            prefix: escape,
            op_code,
            rex: REX { w: wide, r: false, x: false, b: false },
            reg: None,
            rm: rm.target(),
            addr: rm.address(),
            imm,
        }).encoding()
    } else {
        None
    }
}

/// Encodes an instruction with a register in the reg field.
pub fn encode_with_reg<R1: Reg, R2: Reg>(
    small: bool,
    wide: bool,
    escape: Option<u8>,
    op_code: u8,
    reg: R1,
    rm: &Operand<R2>,
) -> (out: Option<Vec<u8>>)
    requires
        rm.wf(),
    ensures
        agrees(out, with_reg(small, wide, escape, op_code, reg, *rm)),
{
    if !rm.is_rm() {
        return None;
    }
    let mut rex = REX::new();
    rex.w = wide;
    let mut op = ByteCode::new(rex, op_code, reg, rm);
    op.small_reg_flag = small;
    op.prefix = escape;
    op.as_bytes()
}

/// Encodes an instruction with an opcode extension in the reg field.
pub fn encode_with_ext<R: Reg>(
    small: bool,
    wide: bool,
    escape: Option<u8>,
    op_code: u8,
    rm: &Operand<R>,
    imm: Imm,
) -> (out: Option<Vec<u8>>)
    requires
        rm.wf(),
        imm.ext() < 8,
    ensures
        agrees(out, with_ext(small, wide, escape, op_code, *rm, imm)),
{
    if !rm.is_rm() {
        return None;
    }
    let mut rex = REX::new();
    rex.w = wide;
    let mut op = ByteCode::only_rm(rex, rm);
    op.small_reg_flag = small;
    op.prefix = escape;
    op.op_code = op_code;
    op.imm = imm;
    op.as_bytes()
}

/// The opcode of one of the eight arithmetic instructions that share a skeleton:
/// eight opcodes apart from one instruction to the next, and within one
/// instruction by the width (bytes first) and the direction (towards the rm operand first).
pub open spec fn group1_opcode(index: u8, byte: bool, to_reg: bool) -> u8 {
    (index * 8 + (if to_reg {
        2int
    } else {
        0
    }) + (if byte {
        0int
    } else {
        1
    })) as u8
}

/// The opcodes of the eight arithmetic instructions as a table: one row for each
/// instruction, and in it first the two opcodes towards the rm operand, on bytes
/// and on the other widths, then the two towards the register.
pub fn group1_op(index: u8, byte: bool, to_reg: bool) -> (op: u8)
    requires
        index < 8,
    ensures
        op == group1_opcode(index, byte, to_reg),
{
    let column: u8 = if to_reg {
        if byte {
            2
        } else {
            3
        }
    } else {
        if byte {
            0
        } else {
            1
        }
    };
    match index {
        // add
        0 => match column {
            0 => 0x00,
            1 => 0x01,
            2 => 0x02,
            _ => 0x03,
        },
        // or
        1 => match column {
            0 => 0x08,
            1 => 0x09,
            2 => 0x0a,
            _ => 0x0b,
        },
        // adc
        2 => match column {
            0 => 0x10,
            1 => 0x11,
            2 => 0x12,
            _ => 0x13,
        },
        // sbb
        3 => match column {
            0 => 0x18,
            1 => 0x19,
            2 => 0x1a,
            _ => 0x1b,
        },
        // and
        4 => match column {
            0 => 0x20,
            1 => 0x21,
            2 => 0x22,
            _ => 0x23,
        },
        // sub
        5 => match column {
            0 => 0x28,
            1 => 0x29,
            2 => 0x2a,
            _ => 0x2b,
        },
        // xor
        6 => match column {
            0 => 0x30,
            1 => 0x31,
            2 => 0x32,
            _ => 0x33,
        },
        // cmp
        _ => match column {
            0 => 0x38,
            1 => 0x39,
            2 => 0x3a,
            _ => 0x3b,
        },
    }
}

impl InstrName {
    /// The place of an arithmetic instruction among the eight that share their opcodes.
    pub open spec fn group1(&self) -> Option<u8> {
        match self {
            InstrName::Add => Some(0),
            InstrName::Or => Some(1),
            InstrName::Adc => Some(2),
            InstrName::Sbb => Some(3),
            InstrName::And => Some(4),
            InstrName::Sub => Some(5),
            InstrName::Xor => Some(6),
            InstrName::Cmp => Some(7),
            _ => None,
        }
    }

    /// The opcode extension of an instruction on one operand that shares opcode `0xf6` or `0xf7`.
    pub open spec fn group3(&self) -> Option<u8> {
        match self {
            InstrName::Not => Some(2),
            InstrName::Neg => Some(3),
            InstrName::UnsignedDiv => Some(6),
            InstrName::SignedDiv => Some(7),
            _ => None,
        }
    }

    /// The bytes of an instruction without operands, where it has an encoding.
    pub open spec fn fixed(&self) -> Option<Seq<u8>> {
        match self {
            InstrName::Ret => Some(seq![0xc3u8]),
            InstrName::Leave => Some(seq![0xc9u8]),
            InstrName::Syscall => Some(seq![0x0fu8, 0x05u8]),
            InstrName::Hlt => Some(seq![0xf4u8]),
            InstrName::Cltd => Some(seq![0x99u8]),
            InstrName::Cqto => Some(seq![0x48u8, 0x99u8]),
            InstrName::Nop => Some(seq![0x90u8]),
            _ => None,
        }
    }

    /// The bytes of an instruction without operands, where it has an encoding.
    pub fn fixed_bin(&self) -> (out: Option<Vec<u8>>)
        ensures
            agrees(out, self.fixed()),
    {
        let mut vec: Vec<u8> = Vec::new();
        match self {
            InstrName::Ret => vec.push(0xc3),
            InstrName::Leave => vec.push(0xc9),
            InstrName::Syscall => {
                vec.push(0x0f);
                vec.push(0x05);
            },
            InstrName::Hlt => vec.push(0xf4),
            InstrName::Cltd => vec.push(0x99),
            InstrName::Cqto => {
                let mut rex = REX::new();
                rex.w = true;
                vec.push(rex.as_byte());
                vec.push(0x99);
            },
            InstrName::Nop => vec.push(0x90),
            _ => {
                return None;
            },
        }
        assert(vec@ =~= self.fixed()->Some_0);
        Some(vec)
    }

    /// The place of an arithmetic instruction among the eight that share their opcodes.
    pub fn group1_index(&self) -> (index: Option<u8>)
        ensures
            index == self.group1(),
            index matches Some(i) ==> i < 8,
    {
        match self {
            InstrName::Add => Some(0),
            InstrName::Or => Some(1),
            InstrName::Adc => Some(2),
            InstrName::Sbb => Some(3),
            InstrName::And => Some(4),
            InstrName::Sub => Some(5),
            InstrName::Xor => Some(6),
            InstrName::Cmp => Some(7),
            _ => None,
        }
    }

    /// The opcode extension of an instruction on one operand that shares opcode `0xf6` or `0xf7`.
    pub fn group3_index(&self) -> (index: Option<u8>)
        ensures
            index == self.group3(),
            index matches Some(i) ==> i < 8,
    {
        match self {
            InstrName::Not => Some(2),
            InstrName::Neg => Some(3),
            InstrName::UnsignedDiv => Some(6),
            InstrName::SignedDiv => Some(7),
            _ => None,
        }
    }
}

/// A move. Sixteen, 32 and 64 bits wide, between operands of one width:
/// `0x89` from a register, `0x8b` from memory to a register, `0xc7` from an
/// immediate, which has to fit the 16 bits of a word or else 32 bits.
pub open spec fn move_encoding<S1: Reg, S2: Reg>(op1: Operand<S1>, op2: Operand<S2>) -> Option<
    Seq<u8>,
> {
    let size = S1::width();
    let small = size == Sizes::Word;
    let wide = size == Sizes::Quad;
    if size != S2::width() || !(small || wide || size == Sizes::Long) {
        None
    } else {
        match op1 {
            Operand::Reg(reg) => with_reg(small, wide, None, 0x89, reg, op2),
            Operand::Addr(_, _, _, _) => match op2 {
                Operand::Reg(reg) => with_reg(small, wide, None, 0x8b, reg, op1),
                _ => None,
            },
            Operand::Imm(imm) => if small {
                if fits_i16(imm as int) {
                    with_ext(true, false, None, 0xc7, op2, Imm::I16(imm as i16, 0))
                } else {
                    None
                }
            } else {
                if fits_i32(imm as int) {
                    with_ext(false, wide, None, 0xc7, op2, Imm::I32(imm as i32, 0))
                } else {
                    None
                }
            },
            _ => None,
        }
    }
}

/// One of the eight arithmetic instructions, with its place `index` among them.
/// Eight, 32 and 64 bits wide, between operands of one width: from a register,
/// from memory to a register, or (not on bytes) opcode `0x81` with a 32-bit
/// immediate and `index` in the reg field.
pub open spec fn group1_encoding<S1: Reg, S2: Reg>(
    index: u8,
    op1: Operand<S1>,
    op2: Operand<S2>,
) -> Option<Seq<u8>> {
    let size = S1::width();
    let byte = size == Sizes::Byte;
    let wide = size == Sizes::Quad;
    if size != S2::width() || !(byte || wide || size == Sizes::Long) {
        None
    } else {
        match op1 {
            Operand::Reg(reg) => with_reg(
                false,
                wide,
                None,
                group1_opcode(index, byte, false),
                reg,
                op2,
            ),
            Operand::Addr(_, _, _, _) => match op2 {
                Operand::Reg(reg) => with_reg(
                    false,
                    wide,
                    None,
                    group1_opcode(index, byte, true),
                    reg,
                    op1,
                ),
                _ => None,
            },
            Operand::Imm(imm) => if !byte && fits_i32(imm as int) {
                with_ext(false, wide, None, 0x81, op2, Imm::I32(imm as i32, index))
            } else {
                None
            },
            _ => None,
        }
    }
}

/// A push: of an immediate of 8, 16 or 32 bits that fits its width, with an
/// opcode of its own for each, or of a 64-bit register or memory operand.
pub open spec fn push_encoding<S: Reg>(op: Operand<S>) -> Option<Seq<u8>> {
    let size = S::width();
    match op {
        Operand::Imm(imm) => if size == Sizes::Byte && fits_i8(imm as int) {
            Some(seq![0x6au8] + signed_le(imm as int, 1))
        } else if size == Sizes::Word && fits_i16(imm as int) {
            Some(seq![0x66u8, 0x68u8] + signed_le(imm as int, 2))
        } else if size == Sizes::Long && fits_i32(imm as int) {
            Some(seq![0x68u8] + signed_le(imm as int, 4))
        } else {
            None
        },
        _ => if size == Sizes::Quad {
            with_ext(false, false, None, 0xff, op, Imm::NoImm(6))
        } else {
            None
        },
    }
}

/// An instruction on one operand with opcode extension `ext`: opcode `0xf6` on bytes,
/// `0xf7` on the other widths.
pub open spec fn group3_encoding<S: Reg>(ext: u8, op: Operand<S>) -> Option<Seq<u8>> {
    let size = S::width();
    with_ext(
        size == Sizes::Word,
        size == Sizes::Quad,
        None,
        if size == Sizes::Byte {
            0xf6
        } else {
            0xf7
        },
        op,
        Imm::NoImm(ext),
    )
}

/// A conditional move to a register, 16, 32 or 64 bits wide: `0x0f`, then `0x40`
/// plus the condition code.
pub open spec fn cmov_encoding<S1: Reg, S2: Reg>(
    code: u8,
    op1: Operand<S1>,
    op2: Operand<S2>,
) -> Option<Seq<u8>> {
    let size = S1::width();
    if size != S2::width() || size == Sizes::Byte {
        None
    } else {
        match op2 {
            Operand::Reg(reg) => with_reg(
                size == Sizes::Word,
                size == Sizes::Quad,
                Some(0x0f),
                (0x40 + code) as u8,
                reg,
                op1,
            ),
            _ => None,
        }
    }
}

impl<S1: Reg, S2: Reg> Instruction<S1, S2> {
    /// The machine code of a well-formed instruction, or nothing where this encoder
    /// has none for it: shifts, `lea`, `test`, `imul`, `inc`, `dec`, the moves that extend,
    /// calls and jumps, labels as operands, and the operands that `ByteCode` refuses.
    pub open spec fn encoding(&self) -> Option<Seq<u8>> {
        match self.instr {
            InstrName::Move => move_encoding(self.reg1->Some_0, self.reg2->Some_0),
            InstrName::Add
            | InstrName::Or
            | InstrName::Adc
            | InstrName::Sbb
            | InstrName::And
            | InstrName::Sub
            | InstrName::Xor
            | InstrName::Cmp => group1_encoding(
                self.instr.group1()->Some_0,
                self.reg1->Some_0,
                self.reg2->Some_0,
            ),
            InstrName::Push => push_encoding(self.reg1->Some_0),
            InstrName::Pop => if S1::width() == Sizes::Quad {
                with_ext(false, false, None, 0x8f, self.reg1->Some_0, Imm::NoImm(0))
            } else {
                None
            },
            InstrName::Not
            | InstrName::Neg
            | InstrName::UnsignedDiv
            | InstrName::SignedDiv => group3_encoding(
                self.instr.group3()->Some_0,
                self.reg1->Some_0,
            ),
            InstrName::Cmov(cond) => cmov_encoding(
                cond.code(),
                self.reg1->Some_0,
                self.reg2->Some_0,
            ),
            InstrName::SetCond(cond) => if S1::width() == Sizes::Byte {
                with_ext(
                    false,
                    false,
                    Some(0x0f),
                    (0x90 + cond.code()) as u8,
                    self.reg1->Some_0,
                    Imm::NoImm(0),
                )
            } else {
                None
            },
            _ => self.instr.fixed(),
        }
    }

    fn move_bin(op1: &Operand<S1>, op2: &Operand<S2>) -> (out: Option<Vec<u8>>)
        requires
            op1.wf(),
            op2.wf(),
        ensures
            agrees(out, move_encoding(*op1, *op2)),
    {
        let size = S1::size();
        let small: bool = matches!(size, Sizes::Word);
        let wide: bool = matches!(size, Sizes::Quad);
        if size != S2::size() || !(small || wide || matches!(size, Sizes::Long)) {
            return None;
        }
        match op1 {
            Operand::Reg(reg) => encode_with_reg(small, wide, None, 0x89, *reg, op2),
            Operand::Addr(_, _, _, _) => match op2 {
                Operand::Reg(reg) => encode_with_reg(small, wide, None, 0x8b, *reg, op1),
                _ => None,
            },
            Operand::Imm(imm) => {
                let imm: i64 = *imm;
                if small {
                    if -0x8000 <= imm && imm <= 0x7fff {
                        encode_with_ext(true, false, None, 0xc7, op2, Imm::I16(imm as i16, 0))
                    } else {
                        None
                    }
                } else {
                    if -0x8000_0000 <= imm && imm <= 0x7fff_ffff {
                        encode_with_ext(false, wide, None, 0xc7, op2, Imm::I32(imm as i32, 0))
                    } else {
                        None
                    }
                }
            },
            _ => None,
        }
    }

    fn group1_bin(index: u8, op1: &Operand<S1>, op2: &Operand<S2>) -> (out: Option<Vec<u8>>)
        requires
            index < 8,
            op1.wf(),
            op2.wf(),
        ensures
            agrees(out, group1_encoding(index, *op1, *op2)),
    {
        let size = S1::size();
        let byte: bool = matches!(size, Sizes::Byte);
        let wide: bool = matches!(size, Sizes::Quad);
        if size != S2::size() || !(byte || wide || matches!(size, Sizes::Long)) {
            return None;
        }
        match op1 {
            Operand::Reg(reg) => encode_with_reg(
                false,
                wide,
                None,
                group1_op(index, byte, false),
                *reg,
                op2,
            ),
            Operand::Addr(_, _, _, _) => match op2 {
                Operand::Reg(reg) => encode_with_reg(
                    false,
                    wide,
                    None,
                    group1_op(index, byte, true),
                    *reg,
                    op1,
                ),
                _ => None,
            },
            Operand::Imm(imm) => {
                let imm: i64 = *imm;
                if !byte && -0x8000_0000 <= imm && imm <= 0x7fff_ffff {
                    encode_with_ext(false, wide, None, 0x81, op2, Imm::I32(imm as i32, index))
                } else {
                    None
                }
            },
            _ => None,
        }
    }

    fn push_bin(op: &Operand<S1>) -> (out: Option<Vec<u8>>)
        requires
            op.wf(),
        ensures
            agrees(out, push_encoding(*op)),
    {
        let size = S1::size();
        match op {
            Operand::Imm(imm) => {
                let imm: i64 = *imm;
                let mut vec: Vec<u8> = Vec::new();
                if matches!(size, Sizes::Byte) && -0x80 <= imm && imm <= 0x7f {
                    vec.push(0x6a);
                    push_signed_le(&mut vec, imm, 1);
                    assert(vec@ =~= seq![0x6au8] + signed_le(imm as int, 1));
                    Some(vec)
                } else if matches!(size, Sizes::Word) && -0x8000 <= imm && imm <= 0x7fff {
                    vec.push(0x66);
                    vec.push(0x68);
                    push_signed_le(&mut vec, imm, 2);
                    assert(vec@ =~= seq![0x66u8, 0x68u8] + signed_le(imm as int, 2));
                    Some(vec)
                } else if matches!(size, Sizes::Long) && -0x8000_0000 <= imm && imm <= 0x7fff_ffff {
                    vec.push(0x68);
                    push_signed_le(&mut vec, imm, 4);
                    assert(vec@ =~= seq![0x68u8] + signed_le(imm as int, 4));
                    Some(vec)
                } else {
                    None
                }
            },
            _ => if matches!(size, Sizes::Quad) {
                encode_with_ext(false, false, None, 0xff, op, Imm::NoImm(6))
            } else {
                None
            },
        }
    }

    fn cmov_bin(code: u8, op1: &Operand<S1>, op2: &Operand<S2>) -> (out: Option<Vec<u8>>)
        requires
            code < 16,
            op1.wf(),
            op2.wf(),
        ensures
            agrees(out, cmov_encoding(code, *op1, *op2)),
    {
        let size = S1::size();
        if size != S2::size() || matches!(size, Sizes::Byte) {
            return None;
        }
        match op2 {
            Operand::Reg(reg) => encode_with_reg(
                matches!(size, Sizes::Word),
                matches!(size, Sizes::Quad),
                Some(0x0f),
                0x40 + code,
                *reg,
                op1,
            ),
            _ => None,
        }
    }

    /// The machine code of the instruction, or nothing where it cannot be encoded.
    pub fn to_bin(&self) -> (out: Option<Vec<u8>>)
        requires
            self.wf(),
        ensures
            agrees(out, self.encoding()),
    {
        match (&self.instr, &self.reg1, &self.reg2) {
            (InstrName::Move, Some(op1), Some(op2)) => Self::move_bin(op1, op2),
            (InstrName::Push, Some(op), _) => Self::push_bin(op),
            (InstrName::Pop, Some(op), _) => if matches!(S1::size(), Sizes::Quad) {
                encode_with_ext(false, false, None, 0x8f, op, Imm::NoImm(0))
            } else {
                None
            },
            (InstrName::Cmov(cond), Some(op1), Some(op2)) => Self::cmov_bin(
                cond.to_code(),
                op1,
                op2,
            ),
            (InstrName::SetCond(cond), Some(op), _) => if matches!(S1::size(), Sizes::Byte) {
                encode_with_ext(false, false, Some(0x0f), 0x90 + cond.to_code(), op, Imm::NoImm(0))
            } else {
                None
            },
            (name, Some(op1), second) => {
                match (name.group1_index(), name.group3_index(), second) {
                    (Some(index), _, Some(op2)) => Self::group1_bin(index, op1, op2),
                    (_, Some(ext), _) => {
                        let size = S1::size();
                        encode_with_ext(
                            matches!(size, Sizes::Word),
                            matches!(size, Sizes::Quad),
                            None,
                            if matches!(size, Sizes::Byte) {
                                0xf6
                            } else {
                                0xf7
                            },
                            op1,
                            Imm::NoImm(ext),
                        )
                    },
                    _ => name.fixed_bin(),
                }
            },
            (name, _, _) => name.fixed_bin(),
        }
    }
}

} // verus!
