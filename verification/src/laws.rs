//! What holds of every register, operand and instruction.

use vstd::prelude::*;
use crate::binary::agrees;
use crate::decoding::{field_low, field_mid, lemma_fields};
use crate::encoding::{
    displacement, fits_i16, fits_i32, mem_bytes, mem_mode, packed, scale_exponent, sib, ByteCode,
};
use crate::instr::{directives, Instr, InstrName, Instruction};
use crate::numfmt::hex_byte;
use crate::reg::{valid_scale, Operand, Os, RegB, RegL, RegQ, RegW, Sizes, Target};
use crate::traits::{Reg, Writable};

verus! {

/// No two 64-bit registers share extension flag and code.
pub proof fn lemma_quad_codes_distinct(a: RegQ, b: RegQ)
    requires
        a != b,
    ensures
        a.bits() != b.bits(),
{
}

/// No two 32-bit registers share extension flag and code.
pub proof fn lemma_long_codes_distinct(a: RegL, b: RegL)
    requires
        a != b,
    ensures
        a.bits() != b.bits(),
{
}

/// No two 16-bit registers share extension flag and code.
pub proof fn lemma_word_codes_distinct(a: RegW, b: RegW)
    requires
        a != b,
    ensures
        a.bits() != b.bits(),
{
}

/// Two byte registers share extension flag and code only where the REX prefix
/// tells them apart: neither has a code that is free of the prefix. Among the
/// registers that the encoder accepts, codes are distinct.
pub proof fn lemma_byte_codes_distinct(a: RegB, b: RegB)
    requires
        a != b,
        a.bits() == b.bits(),
    ensures
        !a.rex_free(),
        !b.rex_free(),
{
}

/// Whether one register of each family has the given extension flag and code.
pub open spec fn shared(q: RegQ, l: RegL, w: RegW, b: RegB, bits: (bool, u8)) -> bool {
    q.bits() == bits && l.bits() == bits && w.bits() == bits && b.bits() == bits
}

/// The registers that are parts of one machine register have the extension flag
/// and the code that the instruction set gives that machine register.
pub proof fn lemma_families_agree()
    ensures
        shared(RegQ::Rax, RegL::Eax, RegW::Ax, RegB::Al, (false, 0u8)),
        shared(RegQ::Rcx, RegL::Ecx, RegW::Cx, RegB::Cl, (false, 1u8)),
        shared(RegQ::Rdx, RegL::Edx, RegW::Dx, RegB::Dl, (false, 2u8)),
        shared(RegQ::Rbx, RegL::Ebx, RegW::Bx, RegB::Bl, (false, 3u8)),
        shared(RegQ::Rsp, RegL::Esp, RegW::Sp, RegB::Spl, (false, 4u8)),
        shared(RegQ::Rbp, RegL::Ebp, RegW::Bp, RegB::Bpl, (false, 5u8)),
        shared(RegQ::Rsi, RegL::Esi, RegW::Si, RegB::Sil, (false, 6u8)),
        shared(RegQ::Rdi, RegL::Edi, RegW::Di, RegB::Dil, (false, 7u8)),
        shared(RegQ::R8, RegL::R8d, RegW::R8w, RegB::R8b, (true, 0u8)),
        shared(RegQ::R9, RegL::R9d, RegW::R9w, RegB::R9b, (true, 1u8)),
        shared(RegQ::R10, RegL::R10d, RegW::R10w, RegB::R10b, (true, 2u8)),
        shared(RegQ::R11, RegL::R11d, RegW::R11w, RegB::R11b, (true, 3u8)),
        shared(RegQ::R12, RegL::R12d, RegW::R12w, RegB::R12b, (true, 4u8)),
        shared(RegQ::R13, RegL::R13d, RegW::R13w, RegB::R13b, (true, 5u8)),
        shared(RegQ::R14, RegL::R14d, RegW::R14w, RegB::R14b, (true, 6u8)),
        shared(RegQ::R15, RegL::R15d, RegW::R15w, RegB::R15b, (true, 7u8)),
{
}

/// A memory operand whose base has code 4 (`%rsp`, `%r12`) is always written with
/// a SIB byte, with or without an index: the rm field holds 4, the byte after
/// ModRM is the SIB byte with 4 in its base field, and the addressing mode is
/// never the one without displacement.
pub proof fn lemma_stack_base_has_sib(reg: u8, disp: int, index: Option<(u8, u8)>)
    requires
        reg < 8,
        index matches Some((code, scale)) ==> code < 8 && valid_scale(scale),
    ensures
        ({
            let bytes = mem_bytes(reg, disp, 4, index);
            let mode = mem_mode(disp, 4, index is Some);
            &&& mode == 1 || mode == 2
            &&& sib(4, index).len() == 1
            &&& bytes == seq![packed(mode, reg as int, 4)] + sib(4, index) + displacement(
                mode,
                disp,
            )
            &&& field_low(bytes[0]) == 4
            &&& bytes[1] == sib(4, index)[0]
            &&& field_low(bytes[1]) == 4
            &&& index is None ==> field_mid(bytes[1]) == 4
        }),
{
    let mode = mem_mode(disp, 4, index is Some);
    lemma_fields(mode, reg as int, 4);
    match index {
        Some((code, scale)) => {
            lemma_fields(scale_exponent(scale), code as int, 4);
        },
        None => {
            lemma_fields(0, 4, 4);
        },
    }
}

/// The byte registers that are the second byte of a machine register have the
/// codes 4 to 7, which without a REX prefix mean them.
pub proof fn lemma_high_byte_codes()
    ensures
        RegB::Ah.bits() == (false, 4u8),
        RegB::Ch.bits() == (false, 5u8),
        RegB::Dh.bits() == (false, 6u8),
        RegB::Bh.bits() == (false, 7u8),
{
}

/// An address without displacement through a base of code 5 (`%rbp`, `%r13`) is
/// written with one explicit byte of zero displacement: the mode without
/// displacement would mean another form of addressing.
pub proof fn lemma_zero_displacement_is_explicit(reg: u8)
    requires
        reg < 8,
    ensures
        mem_mode(0, 5, false) == 1,
        mem_bytes(reg, 0, 5, None) == seq![packed(1, reg as int, 5), 0u8],
{
    reveal_with_fuel(crate::encoding::le_bytes, 2);
    assert(mem_bytes(reg, 0, 5, None) =~= seq![packed(1, reg as int, 5), 0u8]);
}

/// With an index, an address without displacement through a base of code 5
/// carries four bytes of zero displacement.
pub proof fn lemma_zero_displacement_indexed(reg: u8, code: u8, scale: u8)
    requires
        reg < 8,
        code < 8,
        valid_scale(scale),
    ensures
        mem_bytes(reg, 0, 5, Some((code, scale))) == seq![
            packed(2, reg as int, 4),
            packed(scale_exponent(scale), code as int, 5),
            0u8,
            0u8,
            0u8,
            0u8,
        ],
{
    reveal_with_fuel(crate::encoding::le_bytes, 5);
    assert(mem_bytes(reg, 0, 5, Some((code, scale))) =~= seq![
        packed(2, reg as int, 4),
        packed(scale_exponent(scale), code as int, 5),
        0u8,
        0u8,
        0u8,
        0u8,
    ]);
}

/// Every instruction with a memory operand through a base of code 4 has a SIB
/// byte behind ModRM: both name code 4 in their low field, and at least one byte
/// of displacement follows.
pub proof fn lemma_bytecode_stack_base<R1: Reg, R2: Reg>(code: ByteCode<R1, R2>)
    requires
        code.wf(),
        code.addr is Some,
        code.rm.bits().1 == 4,
    ensures
        code.rm_bytes().len() >= 3,
        field_low(code.rm_bytes()[0]) == 4,
        field_low(code.rm_bytes()[1]) == 4,
{
    let reg = code.reg_field().1;
    match code.reg {
        Some(r) => {
            r.code_in_range();
        },
        None => {},
    }
    match code.addr {
        Some((disp, None)) => {
            lemma_stack_base_has_sib(reg, disp as int, None);
            reveal_with_fuel(crate::encoding::le_bytes, 5);
        },
        Some((disp, Some((index, scale)))) => {
            index.code_in_range();
            lemma_stack_base_has_sib(reg, disp as int, Some((index.bits().1, scale)));
            reveal_with_fuel(crate::encoding::le_bytes, 5);
        },
        None => {},
    }
}

/// A move of an immediate that does not fit its width is never encoded: not in
/// 16 bits for a word, not in 32 bits for the larger widths.
pub proof fn lemma_move_rejects_wide_immediate<S1: Reg, S2: Reg>(i: Instruction<S1, S2>)
    requires
        i.instr is Move,
        i.reg1 matches Some(Operand::Imm(v)) && (if S1::width() == Sizes::Word {
            !fits_i16(v as int)
        } else {
            !fits_i32(v as int)
        }),
    ensures
        i.encoding() is None,
{
}

/// An arithmetic instruction with an immediate that does not fit 32 bits is never encoded.
pub proof fn lemma_arithmetic_rejects_wide_immediate<S1: Reg, S2: Reg>(i: Instruction<S1, S2>)
    requires
        i.instr.group1() is Some,
        i.reg1 matches Some(Operand::Imm(v)) && !fits_i32(v as int),
    ensures
        i.encoding() is None,
{
}

/// An instruction whose first operand is a label is never encoded.
pub proof fn lemma_label_operands_fall_back<S1: Reg, S2: Reg>(i: Instruction<S1, S2>)
    requires
        i.wf(),
        i.reg1 matches Some(op) && (op is LabRelAddr || op is LabAbsAddr || op is LabVal),
    ensures
        i.encoding() is None,
{
}

/// The instructions for which the encoder has no form are never encoded.
pub proof fn lemma_unsupported_names<S1: Reg, S2: Reg>(i: Instruction<S1, S2>)
    requires
        match i.instr {
            InstrName::Shl
            | InstrName::Shr
            | InstrName::Sar
            | InstrName::ShlC
            | InstrName::ShrC
            | InstrName::Lea
            | InstrName::Test
            | InstrName::IMul
            | InstrName::Movs
            | InstrName::Movz
            | InstrName::Inc
            | InstrName::Dec
            | InstrName::Call(_)
            | InstrName::CallStar
            | InstrName::CondJump(_, _)
            | InstrName::Jump(_)
            | InstrName::JumpStar => true,
            _ => false,
        },
    ensures
        i.encoding() is None,
{
}

/// Encoding one instruction twice gives the same bytes, or nothing both times.
pub proof fn lemma_encoding_repeats<S1: Reg, S2: Reg>(
    i: Instruction<S1, S2>,
    first: Option<Vec<u8>>,
    second: Option<Vec<u8>>,
)
    requires
        agrees(first, i.encoding()),
        agrees(second, i.encoding()),
    ensures
        first is Some <==> second is Some,
        first is Some ==> first->Some_0@ == second->Some_0@,
{
}

/// An instruction whose widths were forgotten is written as the instruction itself:
/// as machine code where the target asks for it and there is some, else as text.
pub proof fn lemma_forgetting_keeps_rendering<S1: Reg, S2: Reg>(
    instr: Instr,
    i: Instruction<S1, S2>,
    target: Target,
)
    requires
        instr.represents(i),
    ensures
        instr.text(target) == i.rendering(target),
{
}

/// In text mode nothing of the machine code shows: the output is the mnemonic line.
pub proof fn lemma_text_mode_ignores_encoding<S1: Reg, S2: Reg>(i: Instruction<S1, S2>, os: Os)
    ensures
        i.rendering(Target { os, binary: false }) == i.text(os),
{
}

/// One line for each byte of machine code: a tab, the `.byte` directive with the
/// byte in two hexadecimal digits, a line break.
pub open spec fn byte_lines(code: Seq<u8>) -> Seq<char>
    decreases code.len(),
{
    if code.len() == 0 {
        Seq::empty()
    } else {
        byte_lines(code.drop_last()) + "\t.byte 0x"@ + hex_byte(code.last()) + "\n"@
    }
}

/// Machine code that stands as one element of a segment, behind the tab and before
/// the line break of the element, makes one line for each byte.
pub proof fn lemma_directives_are_lines(code: Seq<u8>)
    requires
        code.len() > 0,
    ensures
        "\t"@ + directives(code) + "\n"@ == byte_lines(code),
    decreases code.len(),
{
    reveal_strlit("\t");
    reveal_strlit("\n");
    reveal_strlit("\n\t");
    reveal_strlit(".byte 0x");
    reveal_strlit("\t.byte 0x");
    assert("\t.byte 0x"@ =~= "\t"@ + ".byte 0x"@);
    assert("\n\t"@ =~= "\n"@ + "\t"@);
    if code.len() == 1 {
        assert(code.drop_last() =~= Seq::<u8>::empty());
        assert(byte_lines(code.drop_last()) =~= Seq::<char>::empty());
        assert("\t"@ + directives(code) + "\n"@ =~= byte_lines(code));
    } else {
        lemma_directives_are_lines(code.drop_last());
        assert("\t"@ + directives(code) + "\n"@ =~= ("\t"@ + directives(code.drop_last()) + "\n"@)
            + "\t.byte 0x"@ + hex_byte(code.last()) + "\n"@);
    }
}

/// An instruction with a ModRM byte is never empty.
pub proof fn lemma_bytecode_not_empty<R1: Reg, R2: Reg>(code: ByteCode<R1, R2>)
    ensures
        code.bytes().len() > 0,
{
    assert(code.head_bytes().len() > 0);
}

/// The machine code of an instruction is never empty.
pub proof fn lemma_encoding_not_empty<S1: Reg, S2: Reg>(i: Instruction<S1, S2>)
    requires
        i.encoding() is Some,
    ensures
        i.encoding()->Some_0.len() > 0,
{
    let code = i.encoding()->Some_0;
    assert forall|c: ByteCode<S1, S2>| (#[trigger] c.encoding()) == Some(code) implies code.len()
        > 0 by {
        lemma_bytecode_not_empty(c);
    }
    assert forall|c: ByteCode<S2, S1>| (#[trigger] c.encoding()) == Some(code) implies code.len()
        > 0 by {
        lemma_bytecode_not_empty(c);
    }
    assert forall|c: ByteCode<crate::reg::RegInv, S1>| (#[trigger] c.encoding()) == Some(
        code,
    ) implies code.len() > 0 by {
        lemma_bytecode_not_empty(c);
    }
    assert forall|c: ByteCode<crate::reg::RegInv, S2>| (#[trigger] c.encoding()) == Some(
        code,
    ) implies code.len() > 0 by {
        lemma_bytecode_not_empty(c);
    }
}

} // verus!
