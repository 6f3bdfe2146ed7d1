use write_x86_64::reg::{Operand, RegB, RegInv, RegL, RegQ, RegW, Sizes};
use write_x86_64::traits::Reg;
use write_x86_64::{try_addr_index, AL, EAX, R15, R8, RAX, RSP};

const QUADS: [RegQ; 16] = [
    RegQ::Rax, RegQ::Rcx, RegQ::Rdx, RegQ::Rbx, RegQ::Rsp, RegQ::Rbp, RegQ::Rsi, RegQ::Rdi,
    RegQ::R8, RegQ::R9, RegQ::R10, RegQ::R11, RegQ::R12, RegQ::R13, RegQ::R14, RegQ::R15,
];

const LONGS: [RegL; 16] = [
    RegL::Eax, RegL::Ecx, RegL::Edx, RegL::Ebx, RegL::Esp, RegL::Ebp, RegL::Esi, RegL::Edi,
    RegL::R8d, RegL::R9d, RegL::R10d, RegL::R11d, RegL::R12d, RegL::R13d, RegL::R14d, RegL::R15d,
];

const WORDS: [RegW; 16] = [
    RegW::Ax, RegW::Cx, RegW::Dx, RegW::Bx, RegW::Sp, RegW::Bp, RegW::Si, RegW::Di,
    RegW::R8w, RegW::R9w, RegW::R10w, RegW::R11w, RegW::R12w, RegW::R13w, RegW::R14w, RegW::R15w,
];

const BYTES: [RegB; 16] = [
    RegB::Al, RegB::Cl, RegB::Dl, RegB::Bl, RegB::Spl, RegB::Bpl, RegB::Sil, RegB::Dil,
    RegB::R8b, RegB::R9b, RegB::R10b, RegB::R11b, RegB::R12b, RegB::R13b, RegB::R14b, RegB::R15b,
];

#[test]
fn register_codes_follow_the_instruction_set() {
    assert_eq!(RegQ::Rax.to_bits(), (false, 0b000));
    assert_eq!(RegQ::R8.to_bits(), (true, 0b000));
    for i in 0..16usize {
        let expected = (i >= 8, (i % 8) as u8);
        assert_eq!(QUADS[i].to_bits(), expected);
        assert_eq!(LONGS[i].to_bits(), expected);
        assert_eq!(WORDS[i].to_bits(), expected);
        assert_eq!(BYTES[i].to_bits(), expected);
    }
    assert_eq!(RegW::Si.to_bits(), (false, 0b110));
    assert_eq!(RegW::Di.to_bits(), (false, 0b111));
    assert_eq!(RegB::Ah.to_bits(), (false, 0b100));
    assert_eq!(RegB::Ch.to_bits(), (false, 0b101));
    assert_eq!(RegB::Dh.to_bits(), (false, 0b110));
    assert_eq!(RegB::Bh.to_bits(), (false, 0b111));
}

#[test]
fn register_codes_are_pairwise_distinct() {
    for i in 0..16usize {
        for j in 0..16usize {
            if i != j {
                assert_ne!(QUADS[i].to_bits(), QUADS[j].to_bits());
                assert_ne!(LONGS[i].to_bits(), LONGS[j].to_bits());
                assert_ne!(WORDS[i].to_bits(), WORDS[j].to_bits());
                assert_ne!(BYTES[i].to_bits(), BYTES[j].to_bits());
            }
        }
    }
    let legacy = [
        RegB::Al, RegB::Cl, RegB::Dl, RegB::Bl, RegB::Ah, RegB::Ch, RegB::Dh, RegB::Bh,
    ];
    for i in 0..8usize {
        for j in 0..8usize {
            if i != j {
                assert_ne!(legacy[i].to_bits(), legacy[j].to_bits());
            }
        }
    }
}

#[test]
fn register_names() {
    assert_eq!(RegQ::Rax.to_str(), "%rax");
    assert_eq!(RegQ::Rsp.to_str(), "%rsp");
    assert_eq!(RegQ::R15.to_str(), "%r15");
    assert_eq!(RegL::Edi.to_str(), "%edi");
    assert_eq!(RegL::R8d.to_str(), "%r8d");
    assert_eq!(RegW::Si.to_str(), "%si");
    assert_eq!(RegW::R10w.to_str(), "%r10w");
    assert_eq!(RegB::Al.to_str(), "%al");
    assert_eq!(RegB::Bh.to_str(), "%bh");
    assert_eq!(RegB::Spl.to_str(), "%spl");
    assert_eq!(RegB::R15b.to_str(), "%r15b");
    let mut out = String::from("x");
    RegQ::Rbp.write_in(&mut out);
    RegB::Dil.write_in(&mut out);
    assert_eq!(out, "x%rbp%dil");
}

#[test]
fn register_sizes_and_constants() {
    assert_eq!(RegQ::size(), Sizes::Quad);
    assert_eq!(RegL::size(), Sizes::Long);
    assert_eq!(RegW::size(), Sizes::Word);
    assert_eq!(RegB::size(), Sizes::Byte);
    assert_eq!(RegInv::size(), Sizes::Invalid);
    assert_eq!(Sizes::Byte.to_char(), 'b');
    assert_eq!(Sizes::Word.to_char(), 'w');
    assert_eq!(Sizes::Long.to_char(), 'l');
    assert_eq!(Sizes::Quad.to_char(), 'q');
    assert_eq!(Sizes::Quad.to_str(), "q");
    assert_eq!(RAX, RegQ::Rax);
    assert_eq!(R8, RegQ::R8);
    assert_eq!(R15, RegQ::R15);
    assert_eq!(EAX, RegL::Eax);
    assert_eq!(AL, RegB::Al);
    assert!(RegQ::Rax.is_rex_free());
    assert!(RegB::R8b.is_rex_free());
    assert!(!RegB::Sil.is_rex_free());
}

#[test]
fn operands_are_checked_when_built() {
    assert!(try_addr_index::<RegQ>(0, RAX, R8, 3).is_none());
    assert!(try_addr_index::<RegQ>(0, RAX, R8, 0).is_none());
    assert!(try_addr_index::<RegQ>(0, RAX, R8, 16).is_none());
    assert!(try_addr_index::<RegQ>(0, RAX, RSP, 1).is_none());
    for scale in [1u8, 2, 4, 8] {
        let op = try_addr_index::<RegQ>(7, RAX, R8, scale);
        assert!(matches!(op, Some(Operand::Addr(7, RegQ::Rax, Some(RegQ::R8), s)) if s == scale));
    }
    assert!(Operand::<RegQ>::Addr(0, RAX, None, 0).is_wf());
    assert!(Operand::<RegQ>::Addr(0, RAX, Some(R15), 8).is_wf());
    assert!(!Operand::<RegQ>::Addr(0, RAX, Some(R15), 5).is_wf());
    assert!(!Operand::<RegQ>::Addr(0, RAX, Some(RSP), 1).is_wf());
    assert!(Operand::<RegQ>::Imm(3).is_wf());
    assert!(Operand::<RegQ>::Reg(RAX).is_rm());
    assert!(Operand::<RegQ>::Addr(0, RAX, None, 0).is_rm());
    assert!(!Operand::<RegQ>::Imm(3).is_rm());
}
