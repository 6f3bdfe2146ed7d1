use write_x86_64::binary::group1_op;
use write_x86_64::encoding::{pack, push_le, push_signed_le, ByteCode, Imm, REX};
use write_x86_64::instr::{Cond, InstrName, Instruction};
use write_x86_64::reg::{Label, Operand, RegB, RegInv, RegL, RegQ, RegW};
use write_x86_64::traits::Reg;

fn two<S1: Reg, S2: Reg>(
    instr: InstrName,
    op1: Operand<S1>,
    op2: Operand<S2>,
) -> Option<Vec<u8>> {
    let i = Instruction { instr, reg1: Some(op1), reg2: Some(op2) };
    assert!(i.is_wf());
    i.to_bin()
}

fn one<S: Reg>(instr: InstrName, op: Operand<S>) -> Option<Vec<u8>> {
    let i = Instruction::<S, RegInv> { instr, reg1: Some(op), reg2: None };
    assert!(i.is_wf());
    i.to_bin()
}

fn zero(instr: InstrName) -> Option<Vec<u8>> {
    let i = Instruction::<RegInv, RegInv> { instr, reg1: None, reg2: None };
    assert!(i.is_wf());
    i.to_bin()
}

fn q(r: RegQ) -> Operand<RegQ> {
    Operand::Reg(r)
}

fn l(r: RegL) -> Operand<RegL> {
    Operand::Reg(r)
}

fn w(r: RegW) -> Operand<RegW> {
    Operand::Reg(r)
}

fn b(r: RegB) -> Operand<RegB> {
    Operand::Reg(r)
}

fn mem<R: Reg>(disp: i64, base: RegQ) -> Operand<R> {
    Operand::Addr(disp, base, None, 0)
}

fn indexed<R: Reg>(disp: i64, base: RegQ, index: RegQ, scale: u8) -> Operand<R> {
    Operand::Addr(disp, base, Some(index), scale)
}

#[test]
fn add_eax_ebx_has_no_rex_and_opcode_01() {
    assert_eq!(two(InstrName::Add, l(RegL::Eax), l(RegL::Ebx)), Some(vec![0x01, 0b11_000_011]));
}

#[test]
fn movq_immediate_to_frame_slot() {
    assert_eq!(
        two(InstrName::Move, Operand::<RegQ>::Imm(5), mem::<RegQ>(-8, RegQ::Rbp)),
        Some(vec![0x48, 0xc7, 0b01_000_101, 0xf8, 0x05, 0x00, 0x00, 0x00])
    );
}

#[test]
fn movw_immediate_beyond_sixteen_bits_is_not_encoded() {
    assert_eq!(two(InstrName::Move, Operand::<RegW>::Imm(40000), w(RegW::Ax)), None);
    assert_eq!(two(InstrName::Move, Operand::<RegW>::Imm(32768), w(RegW::Ax)), None);
    assert_eq!(two(InstrName::Move, Operand::<RegW>::Imm(-32769), w(RegW::Ax)), None);
    assert_eq!(
        two(InstrName::Move, Operand::<RegW>::Imm(32767), w(RegW::Ax)),
        Some(vec![0x66, 0xc7, 0xc0, 0xff, 0x7f])
    );
    assert_eq!(
        two(InstrName::Move, Operand::<RegW>::Imm(-32768), w(RegW::Ax)),
        Some(vec![0x66, 0xc7, 0xc0, 0x00, 0x80])
    );
    assert_eq!(
        two(InstrName::Move, Operand::<RegW>::Imm(-2), w(RegW::Cx)),
        Some(vec![0x66, 0xc7, 0xc1, 0xfe, 0xff])
    );
}

#[test]
fn move_immediate_beyond_thirty_two_bits_is_not_encoded() {
    assert_eq!(two(InstrName::Move, Operand::<RegQ>::Imm(0x8000_0000), q(RegQ::Rax)), None);
    assert_eq!(two(InstrName::Move, Operand::<RegQ>::Imm(-0x8000_0001), q(RegQ::Rax)), None);
    assert_eq!(two(InstrName::Move, Operand::<RegL>::Imm(i64::MAX), l(RegL::Eax)), None);
    assert_eq!(
        two(InstrName::Move, Operand::<RegQ>::Imm(0x7fff_ffff), q(RegQ::Rax)),
        Some(vec![0x48, 0xc7, 0xc0, 0xff, 0xff, 0xff, 0x7f])
    );
    assert_eq!(
        two(InstrName::Move, Operand::<RegQ>::Imm(-0x8000_0000), q(RegQ::Rax)),
        Some(vec![0x48, 0xc7, 0xc0, 0x00, 0x00, 0x00, 0x80])
    );
    assert_eq!(
        two(InstrName::Move, Operand::<RegL>::Imm(70000), mem::<RegL>(0, RegQ::Rdx)),
        Some(vec![0xc7, 0x02, 0x70, 0x11, 0x01, 0x00])
    );
}

#[test]
fn stack_pointer_base_always_has_a_sib_byte() {
    assert_eq!(
        two(InstrName::Move, q(RegQ::Rax), mem::<RegQ>(0, RegQ::Rsp)),
        Some(vec![0x48, 0x89, 0x44, 0x24, 0x00])
    );
    assert_eq!(
        two(InstrName::Move, q(RegQ::Rax), mem::<RegQ>(0, RegQ::R12)),
        Some(vec![0x49, 0x89, 0x44, 0x24, 0x00])
    );
    assert_eq!(
        two(InstrName::Move, mem::<RegQ>(16, RegQ::Rsp), q(RegQ::Rdi)),
        Some(vec![0x48, 0x8b, 0x7c, 0x24, 0x10])
    );
    assert_eq!(
        two(InstrName::Move, mem::<RegL>(-128, RegQ::Rsp), l(RegL::Eax)),
        Some(vec![0x8b, 0x44, 0x24, 0x80])
    );
    assert_eq!(
        two(InstrName::Move, mem::<RegL>(128, RegQ::Rsp), l(RegL::Eax)),
        Some(vec![0x8b, 0x84, 0x24, 0x80, 0x00, 0x00, 0x00])
    );
    assert_eq!(
        two(InstrName::Move, q(RegQ::R8), indexed::<RegQ>(-16, RegQ::Rsp, RegQ::Rax, 2)),
        Some(vec![0x4c, 0x89, 0x84, 0x44, 0xf0, 0xff, 0xff, 0xff])
    );
}

#[test]
fn zero_displacement_through_rbp_is_written_out() {
    assert_eq!(
        two(InstrName::Move, q(RegQ::Rax), mem::<RegQ>(0, RegQ::Rbp)),
        Some(vec![0x48, 0x89, 0x45, 0x00])
    );
    assert_eq!(
        two(InstrName::Move, q(RegQ::Rax), mem::<RegQ>(0, RegQ::R13)),
        Some(vec![0x49, 0x89, 0x45, 0x00])
    );
    assert_eq!(
        two(InstrName::Move, q(RegQ::Rax), mem::<RegQ>(0, RegQ::Rbx)),
        Some(vec![0x48, 0x89, 0x03])
    );
    assert_eq!(
        two(InstrName::Move, indexed::<RegQ>(0, RegQ::Rbp, RegQ::Rsi, 8), q(RegQ::Rax)),
        Some(vec![0x48, 0x8b, 0x84, 0xf5, 0x00, 0x00, 0x00, 0x00])
    );
}

#[test]
fn displacement_takes_one_byte_or_four() {
    assert_eq!(
        two(InstrName::Move, l(RegL::R8d), mem::<RegL>(300, RegQ::Rcx)),
        Some(vec![0x44, 0x89, 0x81, 0x2c, 0x01, 0x00, 0x00])
    );
    assert_eq!(
        two(InstrName::Or, mem::<RegL>(-129, RegQ::Rbp), l(RegL::Eax)),
        Some(vec![0x0b, 0x85, 0x7f, 0xff, 0xff, 0xff])
    );
    assert_eq!(
        two(InstrName::Sub, q(RegQ::Rcx), mem::<RegQ>(8, RegQ::Rdx)),
        Some(vec![0x48, 0x29, 0x4a, 0x08])
    );
    assert_eq!(
        two(InstrName::Move, q(RegQ::Rax), mem::<RegQ>(127, RegQ::Rbx)),
        Some(vec![0x48, 0x89, 0x43, 0x7f])
    );
    assert_eq!(
        two(InstrName::Move, q(RegQ::Rax), mem::<RegQ>(-1, RegQ::Rbx)),
        Some(vec![0x48, 0x89, 0x43, 0xff])
    );
    assert_eq!(
        two(InstrName::Move, q(RegQ::Rax), mem::<RegQ>(-0x8000_0000, RegQ::Rbx)),
        Some(vec![0x48, 0x89, 0x83, 0x00, 0x00, 0x00, 0x80])
    );
}

#[test]
fn displacement_beyond_thirty_two_bits_is_not_encoded() {
    assert_eq!(two(InstrName::Move, q(RegQ::Rax), mem::<RegQ>(0x8000_0000, RegQ::Rbx)), None);
    assert_eq!(two(InstrName::Move, q(RegQ::Rax), mem::<RegQ>(i64::MIN, RegQ::Rbx)), None);
    assert_eq!(
        two(InstrName::Move, q(RegQ::Rax), indexed::<RegQ>(1 << 40, RegQ::Rbx, RegQ::Rcx, 1)),
        None
    );
}

#[test]
fn indexed_address_has_sib_and_four_byte_displacement() {
    assert_eq!(
        two(InstrName::Move, q(RegQ::Rax), indexed::<RegQ>(16, RegQ::Rbx, RegQ::Rcx, 4)),
        Some(vec![0x48, 0x89, 0x84, 0x8b, 0x10, 0x00, 0x00, 0x00])
    );
    assert_eq!(
        two(InstrName::Move, q(RegQ::Rax), indexed::<RegQ>(0, RegQ::Rbx, RegQ::Rcx, 1)),
        Some(vec![0x48, 0x89, 0x84, 0x0b, 0x00, 0x00, 0x00, 0x00])
    );
    assert_eq!(
        two(InstrName::Move, q(RegQ::Rax), indexed::<RegQ>(0, RegQ::R9, RegQ::Rdi, 8)),
        Some(vec![0x49, 0x89, 0x84, 0xf9, 0x00, 0x00, 0x00, 0x00])
    );
}

#[test]
fn extended_index_register_is_not_encoded() {
    assert_eq!(
        two(InstrName::Move, q(RegQ::Rax), indexed::<RegQ>(0, RegQ::Rbx, RegQ::R8, 1)),
        None
    );
    assert_eq!(
        two(InstrName::Add, indexed::<RegQ>(4, RegQ::Rbx, RegQ::R12, 2), q(RegQ::Rax)),
        None
    );
}

#[test]
fn move_between_registers_and_memory() {
    assert_eq!(two(InstrName::Move, w(RegW::Ax), w(RegW::Bx)), Some(vec![0x66, 0x89, 0xc3]));
    assert_eq!(two(InstrName::Move, q(RegQ::R9), q(RegQ::R10)), Some(vec![0x4d, 0x89, 0xca]));
    assert_eq!(two(InstrName::Move, l(RegL::Esi), l(RegL::Edi)), Some(vec![0x89, 0xf7]));
    assert_eq!(two(InstrName::Move, b(RegB::Al), b(RegB::Bl)), None);
    assert_eq!(two(InstrName::Move, mem::<RegQ>(0, RegQ::Rax), mem::<RegQ>(0, RegQ::Rbx)), None);
    assert_eq!(two(InstrName::Move, l(RegL::Eax), q(RegQ::Rax)), None);
}

#[test]
fn group_one_opcodes_are_a_table_of_eight_by_four() {
    let table: [[u8; 4]; 8] = [
        [0x00, 0x01, 0x02, 0x03],
        [0x08, 0x09, 0x0a, 0x0b],
        [0x10, 0x11, 0x12, 0x13],
        [0x18, 0x19, 0x1a, 0x1b],
        [0x20, 0x21, 0x22, 0x23],
        [0x28, 0x29, 0x2a, 0x2b],
        [0x30, 0x31, 0x32, 0x33],
        [0x38, 0x39, 0x3a, 0x3b],
    ];
    let mut index: u8 = 0;
    while index < 8 {
        let row = table[index as usize];
        assert_eq!(group1_op(index, true, false), row[0]);
        assert_eq!(group1_op(index, false, false), row[1]);
        assert_eq!(group1_op(index, true, true), row[2]);
        assert_eq!(group1_op(index, false, true), row[3]);
        index += 1;
    }
    assert_eq!(InstrName::Add.group1_index(), Some(0));
    assert_eq!(InstrName::Or.group1_index(), Some(1));
    assert_eq!(InstrName::Adc.group1_index(), Some(2));
    assert_eq!(InstrName::Sbb.group1_index(), Some(3));
    assert_eq!(InstrName::And.group1_index(), Some(4));
    assert_eq!(InstrName::Sub.group1_index(), Some(5));
    assert_eq!(InstrName::Xor.group1_index(), Some(6));
    assert_eq!(InstrName::Cmp.group1_index(), Some(7));
    assert_eq!(InstrName::Move.group1_index(), None);
    assert_eq!(InstrName::Test.group1_index(), None);
}

#[test]
fn group_one_instructions() {
    assert_eq!(two(InstrName::And, q(RegQ::R9), q(RegQ::R10)), Some(vec![0x4d, 0x21, 0xca]));
    assert_eq!(two(InstrName::Cmp, b(RegB::Al), b(RegB::R9b)), Some(vec![0x41, 0x38, 0xc1]));
    assert_eq!(two(InstrName::Xor, mem::<RegB>(0, RegQ::Rsi), b(RegB::Dl)), Some(vec![0x32, 0x16]));
    assert_eq!(two(InstrName::Xor, q(RegQ::Rax), q(RegQ::Rax)), Some(vec![0x48, 0x31, 0xc0]));
    assert_eq!(two(InstrName::Sbb, l(RegL::Ecx), l(RegL::Edx)), Some(vec![0x19, 0xca]));
    assert_eq!(two(InstrName::Add, w(RegW::Ax), w(RegW::Bx)), None);
    assert_eq!(
        two(InstrName::Add, Operand::<RegQ>::Imm(-1), q(RegQ::Rsp)),
        Some(vec![0x48, 0x81, 0xc4, 0xff, 0xff, 0xff, 0xff])
    );
    assert_eq!(
        two(InstrName::Adc, Operand::<RegL>::Imm(1000), l(RegL::R11d)),
        Some(vec![0x41, 0x81, 0xd3, 0xe8, 0x03, 0x00, 0x00])
    );
    assert_eq!(
        two(InstrName::Cmp, Operand::<RegQ>::Imm(7), mem::<RegQ>(-24, RegQ::Rbp)),
        Some(vec![0x48, 0x81, 0x7d, 0xe8, 0x07, 0x00, 0x00, 0x00])
    );
    assert_eq!(two(InstrName::Add, Operand::<RegQ>::Imm(1 << 31), q(RegQ::Rax)), None);
    assert_eq!(two(InstrName::Add, Operand::<RegB>::Imm(1), b(RegB::Al)), None);
    assert_eq!(
        two(InstrName::Add, Operand::<RegQ>::Imm(1), Operand::<RegQ>::Imm(2)),
        None
    );
}

#[test]
fn push_and_pop() {
    assert_eq!(one(InstrName::Push, q(RegQ::Rbp)), Some(vec![0xff, 0xf5]));
    assert_eq!(one(InstrName::Push, mem::<RegQ>(8, RegQ::Rax)), Some(vec![0xff, 0x70, 0x08]));
    assert_eq!(one(InstrName::Push, q(RegQ::R12)), Some(vec![0x41, 0xff, 0xf4]));
    assert_eq!(one(InstrName::Push, Operand::<RegB>::Imm(-5)), Some(vec![0x6a, 0xfb]));
    assert_eq!(one(InstrName::Push, Operand::<RegB>::Imm(128)), None);
    assert_eq!(
        one(InstrName::Push, Operand::<RegW>::Imm(0x1234)),
        Some(vec![0x66, 0x68, 0x34, 0x12])
    );
    assert_eq!(one(InstrName::Push, Operand::<RegW>::Imm(-1)), Some(vec![0x66, 0x68, 0xff, 0xff]));
    assert_eq!(one(InstrName::Push, Operand::<RegW>::Imm(0x1_0000)), None);
    assert_eq!(
        one(InstrName::Push, Operand::<RegL>::Imm(0x1234_5678)),
        Some(vec![0x68, 0x78, 0x56, 0x34, 0x12])
    );
    assert_eq!(one(InstrName::Push, Operand::<RegL>::Imm(1 << 32)), None);
    assert_eq!(one(InstrName::Push, Operand::<RegQ>::Imm(1)), None);
    assert_eq!(one(InstrName::Push, l(RegL::Eax)), None);
    assert_eq!(one(InstrName::Push, w(RegW::Ax)), None);
    assert_eq!(one(InstrName::Pop, q(RegQ::Rbp)), Some(vec![0x8f, 0xc5]));
    assert_eq!(one(InstrName::Pop, q(RegQ::R15)), Some(vec![0x41, 0x8f, 0xc7]));
    assert_eq!(one(InstrName::Pop, mem::<RegQ>(0, RegQ::Rax)), Some(vec![0x8f, 0x00]));
    assert_eq!(one(InstrName::Pop, l(RegL::Eax)), None);
    assert_eq!(one(InstrName::Pop, Operand::<RegQ>::Imm(1)), None);
}

#[test]
fn instructions_on_one_operand() {
    assert_eq!(one(InstrName::Not, l(RegL::Ecx)), Some(vec![0xf7, 0xd1]));
    assert_eq!(one(InstrName::Neg, mem::<RegQ>(0, RegQ::Rdi)), Some(vec![0x48, 0xf7, 0x1f]));
    assert_eq!(one(InstrName::UnsignedDiv, b(RegB::Cl)), Some(vec![0xf6, 0xf1]));
    assert_eq!(one(InstrName::SignedDiv, w(RegW::Bx)), Some(vec![0x66, 0xf7, 0xfb]));
    assert_eq!(one(InstrName::SignedDiv, q(RegQ::R8)), Some(vec![0x49, 0xf7, 0xf8]));
    assert_eq!(one(InstrName::Not, Operand::<RegQ>::Imm(1)), None);
    assert_eq!(one(InstrName::Inc, q(RegQ::Rax)), None);
    assert_eq!(one(InstrName::Dec, q(RegQ::Rax)), None);
}

#[test]
fn conditional_move_and_set() {
    assert_eq!(
        two(InstrName::Cmov(Cond::GE), q(RegQ::Rax), q(RegQ::Rbx)),
        Some(vec![0x48, 0x0f, 0x4d, 0xd8])
    );
    assert_eq!(
        two(InstrName::Cmov(Cond::NE), w(RegW::Cx), w(RegW::Dx)),
        Some(vec![0x66, 0x0f, 0x45, 0xd1])
    );
    assert_eq!(
        two(InstrName::Cmov(Cond::B), mem::<RegL>(4, RegQ::Rax), l(RegL::R9d)),
        Some(vec![0x44, 0x0f, 0x42, 0x48, 0x04])
    );
    assert_eq!(two(InstrName::Cmov(Cond::E), b(RegB::Al), b(RegB::Bl)), None);
    assert_eq!(two(InstrName::Cmov(Cond::E), q(RegQ::Rax), mem::<RegQ>(0, RegQ::Rbx)), None);
    assert_eq!(one(InstrName::SetCond(Cond::E), b(RegB::Al)), Some(vec![0x0f, 0x94, 0xc0]));
    assert_eq!(one(InstrName::SetCond(Cond::B), mem::<RegB>(0, RegQ::Rax)), Some(vec![0x0f, 0x92, 0x00]));
    assert_eq!(one(InstrName::SetCond(Cond::L), b(RegB::R10b)), Some(vec![0x41, 0x0f, 0x9c, 0xc2]));
    assert_eq!(one(InstrName::SetCond(Cond::E), q(RegQ::Rax)), None);
}

#[test]
fn condition_codes() {
    let all = [
        (Cond::E, 0x4, "e"),
        (Cond::Z, 0x4, "z"),
        (Cond::NE, 0x5, "ne"),
        (Cond::NZ, 0x5, "nz"),
        (Cond::S, 0x8, "s"),
        (Cond::NS, 0x9, "ns"),
        (Cond::G, 0xf, "g"),
        (Cond::GE, 0xd, "ge"),
        (Cond::L, 0xc, "l"),
        (Cond::LE, 0xe, "le"),
        (Cond::A, 0x7, "a"),
        (Cond::AE, 0x3, "ae"),
        (Cond::B, 0x2, "b"),
        (Cond::BE, 0x6, "be"),
    ];
    for (cond, code, name) in all {
        assert_eq!(cond.to_code(), code);
        assert_eq!(cond.to_str(), name);
        assert_eq!(
            two(InstrName::Cmov(cond), l(RegL::Eax), l(RegL::Eax)),
            Some(vec![0x0f, 0x40 + code, 0xc0])
        );
        assert_eq!(one(InstrName::SetCond(cond), b(RegB::Al)), Some(vec![0x0f, 0x90 + code, 0xc0]));
    }
}

#[test]
fn instructions_without_operands() {
    assert_eq!(zero(InstrName::Ret), Some(vec![0xc3]));
    assert_eq!(zero(InstrName::Leave), Some(vec![0xc9]));
    assert_eq!(zero(InstrName::Syscall), Some(vec![0x0f, 0x05]));
    assert_eq!(zero(InstrName::Hlt), Some(vec![0xf4]));
    assert_eq!(zero(InstrName::Cltd), Some(vec![0x99]));
    assert_eq!(zero(InstrName::Cqto), Some(vec![0x48, 0x99]));
    assert_eq!(zero(InstrName::Nop), Some(vec![0x90]));
    assert_eq!(zero(InstrName::Call(Label::printf())), None);
    assert_eq!(zero(InstrName::Jump(Label::printf())), None);
    assert_eq!(zero(InstrName::CondJump(Cond::Z, Label::printf())), None);
}

#[test]
fn unsupported_forms_are_not_encoded() {
    assert_eq!(two(InstrName::Shl, b(RegB::Cl), q(RegQ::Rax)), None);
    assert_eq!(two(InstrName::Shr, Operand::<RegQ>::Imm(1), q(RegQ::Rax)), None);
    assert_eq!(two(InstrName::Sar, Operand::<RegQ>::Imm(1), q(RegQ::Rax)), None);
    assert_eq!(two(InstrName::Lea, mem::<RegQ>(8, RegQ::Rax), q(RegQ::Rbx)), None);
    assert_eq!(two(InstrName::Test, q(RegQ::Rax), q(RegQ::Rax)), None);
    assert_eq!(two(InstrName::IMul, q(RegQ::Rax), q(RegQ::Rbx)), None);
    assert_eq!(two(InstrName::Movs, b(RegB::Al), q(RegQ::Rbx)), None);
    assert_eq!(two(InstrName::Movz, b(RegB::Al), q(RegQ::Rbx)), None);
    assert_eq!(one(InstrName::CallStar, q(RegQ::Rax)), None);
    assert_eq!(one(InstrName::JumpStar, q(RegQ::Rax)), None);
}

#[test]
fn label_operands_are_not_encoded() {
    let lab = || Label::from_str("msg".to_string());
    assert_eq!(two(InstrName::Move, Operand::<RegQ>::LabAbsAddr(lab()), q(RegQ::Rdi)), None);
    assert_eq!(two(InstrName::Move, Operand::<RegQ>::LabRelAddr(lab()), q(RegQ::Rdi)), None);
    assert_eq!(two(InstrName::Move, Operand::<RegQ>::LabVal(lab()), q(RegQ::Rdi)), None);
    assert_eq!(two(InstrName::Move, q(RegQ::Rdi), Operand::<RegQ>::LabAbsAddr(lab())), None);
    assert_eq!(two(InstrName::Add, Operand::<RegQ>::LabRelAddr(lab()), q(RegQ::Rdi)), None);
    assert_eq!(two(InstrName::Move, Operand::<RegQ>::Imm(1), Operand::<RegQ>::LabVal(lab())), None);
    assert_eq!(one(InstrName::Push, Operand::<RegQ>::LabVal(lab())), None);
    assert_eq!(one(InstrName::Pop, Operand::<RegQ>::LabAbsAddr(lab())), None);
    assert_eq!(one(InstrName::Neg, Operand::<RegQ>::LabAbsAddr(lab())), None);
}

#[test]
fn byte_registers_that_depend_on_the_prefix_are_not_encoded() {
    for r in [RegB::Ah, RegB::Ch, RegB::Dh, RegB::Bh, RegB::Spl, RegB::Bpl, RegB::Sil, RegB::Dil] {
        assert!(!r.is_rex_free());
        assert_eq!(two(InstrName::Add, b(r), b(RegB::Al)), None);
        assert_eq!(two(InstrName::Add, b(RegB::Al), b(r)), None);
        assert_eq!(one(InstrName::Not, b(r)), None);
        assert_eq!(one(InstrName::SetCond(Cond::E), b(r)), None);
    }
    assert_eq!(two(InstrName::Add, b(RegB::Bl), b(RegB::Al)), Some(vec![0x00, 0xd8]));
}

#[test]
fn encoding_twice_gives_the_same_bytes() {
    let i = Instruction::<RegQ, RegQ> {
        instr: InstrName::Move,
        reg1: Some(Operand::Imm(5)),
        reg2: Some(Operand::Addr(-8, RegQ::Rbp, None, 0)),
    };
    let first = i.to_bin();
    let second = i.to_bin();
    assert_eq!(first, second);
    assert!(first.is_some());
    let j = Instruction::<RegQ, RegQ> {
        instr: InstrName::Lea,
        reg1: Some(Operand::Addr(-8, RegQ::Rbp, None, 0)),
        reg2: Some(Operand::Reg(RegQ::Rax)),
    };
    assert_eq!(j.to_bin(), None);
    assert_eq!(j.to_bin(), j.to_bin());
}

#[test]
fn rex_prefix_byte() {
    let mut rex = REX::new();
    assert!(!rex.needed());
    assert_eq!(rex.as_byte(), 0x40);
    rex.w = true;
    assert!(rex.needed());
    assert_eq!(rex.as_byte(), 0x48);
    rex.r = true;
    assert_eq!(rex.as_byte(), 0x4c);
    rex.x = true;
    assert_eq!(rex.as_byte(), 0x4e);
    rex.b = true;
    assert_eq!(rex.as_byte(), 0x4f);
    let only_b = REX { w: false, r: false, x: false, b: true };
    assert!(only_b.needed());
    assert_eq!(only_b.as_byte(), 0x41);
    let only_x = REX { w: false, r: false, x: true, b: false };
    assert_eq!(only_x.as_byte(), 0x42);
    let only_r = REX { w: false, r: true, x: false, b: false };
    assert_eq!(only_r.as_byte(), 0x44);
}

#[test]
fn packed_bytes_and_little_endian_values() {
    assert_eq!(pack(3, 0, 3), 0b11_000_011);
    assert_eq!(pack(1, 0, 5), 0b01_000_101);
    assert_eq!(pack(0, 4, 4), 0x24);
    assert_eq!(pack(2, 7, 6), 0b10_111_110);
    let mut out: Vec<u8> = vec![0xaa];
    push_le(&mut out, 0x0102_0304_0506_0708, 8);
    assert_eq!(out, vec![0xaa, 0x08, 0x07, 0x06, 0x05, 0x04, 0x03, 0x02, 0x01]);
    let mut out: Vec<u8> = Vec::new();
    push_le(&mut out, 0x1234, 0);
    assert_eq!(out, Vec::<u8>::new());
    let mut out: Vec<u8> = Vec::new();
    push_signed_le(&mut out, -8, 1);
    push_signed_le(&mut out, -2, 2);
    push_signed_le(&mut out, -0x8000_0000, 4);
    push_signed_le(&mut out, i64::MIN, 8);
    push_signed_le(&mut out, -1, 8);
    push_signed_le(&mut out, 5, 4);
    assert_eq!(
        out,
        vec![
            0xf8, 0xfe, 0xff, 0x00, 0x00, 0x00, 0x80, 0x00, 0x00, 0x00, 0x00, 0x00, 0x00, 0x00,
            0x80, 0xff, 0xff, 0xff, 0xff, 0xff, 0xff, 0xff, 0xff, 0x05, 0x00, 0x00, 0x00
        ]
    );
}

#[test]
fn immediates_by_width() {
    let mut out: Vec<u8> = Vec::new();
    Imm::NoImm(3).write_in(&mut out);
    assert_eq!(out, Vec::<u8>::new());
    Imm::I8(-1, 0).write_in(&mut out);
    Imm::I16(0x1234, 0).write_in(&mut out);
    Imm::I32(-2, 0).write_in(&mut out);
    Imm::I64(1, 0).write_in(&mut out);
    assert_eq!(
        out,
        vec![0xff, 0x34, 0x12, 0xfe, 0xff, 0xff, 0xff, 1, 0, 0, 0, 0, 0, 0, 0]
    );
    assert_eq!(Imm::NoImm(6).extension(), 6);
    assert_eq!(Imm::I32(9, 5).extension(), 5);
}

#[test]
fn byte_code_fields() {
    let rm = Operand::<RegQ>::Addr(-8, RegQ::Rbp, None, 0);
    let mut rex = REX::new();
    rex.w = true;
    let mut code = ByteCode::only_rm(rex, &rm);
    code.op_code = 0xc7;
    code.imm = Imm::I32(5, 0);
    assert_eq!(code.as_bytes(), Some(vec![0x48, 0xc7, 0x45, 0xf8, 0x05, 0x00, 0x00, 0x00]));
    let rm = Operand::<RegL>::Reg(RegL::Ebx);
    let code = ByteCode::new(REX::new(), 0x01, RegL::Eax, &rm);
    assert_eq!(code.as_bytes(), Some(vec![0x01, 0xc3]));
    assert_eq!(code.rm.to_bits(), (false, 3));
}

#[test]
fn machine_code_is_what_a_disassembler_reads_as_the_instruction() {
    // add %eax,%ebx
    assert_eq!(two(InstrName::Add, l(RegL::Eax), l(RegL::Ebx)), Some(vec![0x01, 0xc3]));
    // movq $0x5,-0x8(%rbp)
    assert_eq!(
        two(InstrName::Move, Operand::<RegQ>::Imm(5), mem::<RegQ>(-8, RegQ::Rbp)),
        Some(vec![0x48, 0xc7, 0x45, 0xf8, 0x05, 0x00, 0x00, 0x00])
    );
    // mov %rax,0x0(%r13)
    assert_eq!(
        two(InstrName::Move, q(RegQ::Rax), mem::<RegQ>(0, RegQ::R13)),
        Some(vec![0x49, 0x89, 0x45, 0x00])
    );
    // mov 0x10(%rsp),%rdi
    assert_eq!(
        two(InstrName::Move, mem::<RegQ>(16, RegQ::Rsp), q(RegQ::Rdi)),
        Some(vec![0x48, 0x8b, 0x7c, 0x24, 0x10])
    );
    // mov %r8d,0x12c(%rcx)
    assert_eq!(
        two(InstrName::Move, l(RegL::R8d), mem::<RegL>(300, RegQ::Rcx)),
        Some(vec![0x44, 0x89, 0x81, 0x2c, 0x01, 0x00, 0x00])
    );
    // mov 0x0(%rbp,%rsi,8),%rax
    assert_eq!(
        two(InstrName::Move, indexed::<RegQ>(0, RegQ::Rbp, RegQ::Rsi, 8), q(RegQ::Rax)),
        Some(vec![0x48, 0x8b, 0x84, 0xf5, 0x00, 0x00, 0x00, 0x00])
    );
    // mov %r8,-0x10(%rsp,%rax,2)
    assert_eq!(
        two(InstrName::Move, q(RegQ::R8), indexed::<RegQ>(-16, RegQ::Rsp, RegQ::Rax, 2)),
        Some(vec![0x4c, 0x89, 0x84, 0x44, 0xf0, 0xff, 0xff, 0xff])
    );
    // sub %rcx,0x8(%rdx)
    assert_eq!(
        two(InstrName::Sub, q(RegQ::Rcx), mem::<RegQ>(8, RegQ::Rdx)),
        Some(vec![0x48, 0x29, 0x4a, 0x08])
    );
    // or -0x81(%rbp),%eax
    assert_eq!(
        two(InstrName::Or, mem::<RegL>(-129, RegQ::Rbp), l(RegL::Eax)),
        Some(vec![0x0b, 0x85, 0x7f, 0xff, 0xff, 0xff])
    );
    // adc $0x3e8,%r11d
    assert_eq!(
        two(InstrName::Adc, Operand::<RegL>::Imm(1000), l(RegL::R11d)),
        Some(vec![0x41, 0x81, 0xd3, 0xe8, 0x03, 0x00, 0x00])
    );
    // push 0x8(%rax)
    assert_eq!(one(InstrName::Push, mem::<RegQ>(8, RegQ::Rax)), Some(vec![0xff, 0x70, 0x08]));
    // pushw $0x1234
    assert_eq!(
        one(InstrName::Push, Operand::<RegW>::Imm(0x1234)),
        Some(vec![0x66, 0x68, 0x34, 0x12])
    );
    // negq (%rdi)
    assert_eq!(one(InstrName::Neg, mem::<RegQ>(0, RegQ::Rdi)), Some(vec![0x48, 0xf7, 0x1f]));
    // idiv %bx
    assert_eq!(one(InstrName::SignedDiv, w(RegW::Bx)), Some(vec![0x66, 0xf7, 0xfb]));
    // cmovge %rax,%rbx
    assert_eq!(
        two(InstrName::Cmov(Cond::GE), q(RegQ::Rax), q(RegQ::Rbx)),
        Some(vec![0x48, 0x0f, 0x4d, 0xd8])
    );
    // setl %r10b
    assert_eq!(one(InstrName::SetCond(Cond::L), b(RegB::R10b)), Some(vec![0x41, 0x0f, 0x9c, 0xc2]));
    // cqto
    assert_eq!(zero(InstrName::Cqto), Some(vec![0x48, 0x99]));
}
