use write_x86_64::data::{
    daddress, dascii, dasciz, dbyte, dlong, dlong_label, dquad, dubyte, dulong, dushort, dword,
    space,
};
use write_x86_64::directives::expr::Expr;
use write_x86_64::directives::{set_sub, Directive, LocOptions};
use write_x86_64::file::File;
use write_x86_64::instr::{write_directives, Cond, InstrName, Instruction};
use write_x86_64::numfmt::{push_decimal, push_hex, push_hex_byte, push_padding, push_signed, push_unsigned};
use write_x86_64::reg::{Label, Operand, Os, RegB, RegInv, RegL, RegQ, RegW, Target};
use write_x86_64::traits::Writable;
use write_x86_64::{
    addl, addr, addr_index, call, call_star, cltd, cmovq, comment, cqto, deplq, ilab, immb, imml,
    immq, immw, incq, jae, jcc, jmp, jmp_star, jnz, jz, lab, leaq, leave, movq, movsbq,
    movw, movzwl, new_label, nop, popq, pushq, reg, ret, shlq_reg, shrb_reg, xorq, Data,
    NamedSegment, Segment, Text, CL, RAX, RBP, RBX, RCX, RDI, RSP,
};

const LINUX: Target = Target { os: Os::Linux, binary: false };
const MAC: Target = Target { os: Os::MacOs, binary: false };
const LINUX_BINARY: Target = Target { os: Os::Linux, binary: true };

fn line(text: &Text) -> String {
    text.render(LINUX)
}

fn written<W: Writable>(value: &W, target: Target) -> String {
    let mut out = String::new();
    value.write_in(target, &mut out);
    out
}

#[test]
fn numbers_in_decimal_and_hexadecimal() {
    let mut out = String::new();
    push_signed(&mut out, 0);
    out.push(' ');
    push_signed(&mut out, -8);
    out.push(' ');
    push_signed(&mut out, i64::MAX);
    out.push(' ');
    push_signed(&mut out, i64::MIN);
    out.push(' ');
    push_unsigned(&mut out, u64::MAX);
    out.push(' ');
    push_decimal(&mut out, 1000);
    out.push(' ');
    push_hex(&mut out, 0);
    out.push(' ');
    push_hex(&mut out, 0xdead_beef);
    out.push(' ');
    push_hex_byte(&mut out, 5);
    out.push(' ');
    push_hex_byte(&mut out, 0xc7);
    assert_eq!(
        out,
        "0 -8 9223372036854775807 -9223372036854775808 18446744073709551615 1000 0 deadbeef 05 c7"
    );
    let mut out = String::from("ab");
    push_padding(&mut out, 2, 5);
    assert_eq!(out, "ab   ");
    push_padding(&mut out, 5, 5);
    push_padding(&mut out, 7, 5);
    assert_eq!(out, "ab   ");
}

#[test]
fn operands_in_assembler_syntax() {
    let mut out = String::new();
    reg(RAX).write_in(Os::Linux, &mut out);
    assert_eq!(out, "%rax");
    let mut out = String::new();
    addr::<RegQ>(-8, RBP).write_in(Os::Linux, &mut out);
    assert_eq!(out, "-8(%rbp)");
    let mut out = String::new();
    addr::<RegL>(0, RSP).write_in(Os::Linux, &mut out);
    assert_eq!(out, "0(%rsp)");
    let mut out = String::new();
    addr_index::<RegQ>(16, RBX, RCX, 4).write_in(Os::Linux, &mut out);
    assert_eq!(out, "16(%rbx, %rcx, 4)");
    let mut out = String::new();
    immq(-5).write_in(Os::Linux, &mut out);
    immb(-128).write_in(Os::Linux, &mut out);
    immw(300).write_in(Os::Linux, &mut out);
    imml(70000).write_in(Os::Linux, &mut out);
    assert_eq!(out, "$-5$-128$300$70000");
    let mut out = String::new();
    Operand::<RegQ>::LabRelAddr(new_label("msg")).write_in(Os::MacOs, &mut out);
    out.push(' ');
    Operand::<RegQ>::LabRelAddr(new_label("msg")).write_in(Os::Linux, &mut out);
    out.push(' ');
    Operand::<RegQ>::LabAbsAddr(new_label("msg")).write_in(Os::MacOs, &mut out);
    out.push(' ');
    Operand::<RegQ>::LabAbsAddr(new_label("msg")).write_in(Os::Linux, &mut out);
    out.push(' ');
    ilab::<RegQ>(new_label("msg")).write_in(Os::MacOs, &mut out);
    out.push(' ');
    ilab::<RegQ>(new_label("msg")).write_in(Os::Linux, &mut out);
    assert_eq!(out, "_msg(%rip) msg(%rip) _msg msg $_msg $msg");
    assert!(matches!(lab::<RegQ>(Os::MacOs, new_label("a")), Operand::LabRelAddr(_)));
    assert!(matches!(lab::<RegQ>(Os::Linux, new_label("a")), Operand::LabAbsAddr(_)));
}

#[test]
fn labels() {
    assert_eq!(Label::printf().name(), "printf");
    assert_eq!(Label::malloc().name(), "malloc");
    assert_eq!(Label::free().name(), "free");
    assert_eq!(Label::realloc().name(), "realloc");
    assert_eq!(Label::panic().name(), "panic");
    assert_eq!(Label::from_str("L1".to_string()).name(), "L1");
    assert_eq!(new_label("main").name(), "main");
    let mut out = String::new();
    new_label("main").write_in(Os::MacOs, &mut out);
    out.push(' ');
    new_label("main").write_in(Os::Linux, &mut out);
    assert_eq!(out, "_main main");
}

#[test]
fn instructions_in_assembler_syntax() {
    assert_eq!(line(&movq(immq(5), addr(-8, RBP))), "\tmovq $5, -8(%rbp)\n");
    assert_eq!(line(&addl(reg(RegL::Eax), reg(RegL::Ebx))), "\taddl %eax, %ebx\n");
    assert_eq!(line(&movw(reg(RegW::Ax), reg(RegW::Bx))), "\tmovw %ax, %bx\n");
    assert_eq!(line(&xorq(reg(RAX), reg(RAX))), "\txorq %rax, %rax\n");
    assert_eq!(line(&incq(reg(RAX))), "\tincq %rax\n");
    assert_eq!(line(&pushq(reg(RBP))), "\tpushq %rbp\n");
    assert_eq!(line(&popq(RBP)), "\tpopq %rbp\n");
    assert_eq!(line(&leaq(addr(8, RSP), RDI)), "\tleaq 8(%rsp), %rdi\n");
    assert_eq!(line(&movsbq(reg(RegB::Al), RAX)), "\tmovsbq %al, %rax\n");
    assert_eq!(line(&movzwl(reg(RegW::Ax), RegL::Eax)), "\tmovzwl %ax, %eax\n");
    assert_eq!(line(&shlq_reg(reg(RAX))), "\tshlq %cl, %rax\n");
    assert_eq!(line(&shrb_reg(reg(RegB::Al))), "\tshrb %cl, %al\n");
    assert_eq!(line(&ret()), "\tret\n");
    assert_eq!(line(&leave()), "\tleave\n");
    assert_eq!(line(&nop()), "\tnop\n");
    assert_eq!(line(&cltd()), "\tcltd\n");
    assert_eq!(line(&cqto()), "\tcqto\n");
    assert_eq!(line(&call(Label::printf())), "\tcall printf\n");
    assert_eq!(call(Label::printf()).render(MAC), "\tcall _printf\n");
    assert_eq!(line(&call_star(reg(RAX))), "\tcall *%rax\n");
    assert_eq!(line(&jmp(new_label("L1"))), "\tjmp L1\n");
    assert_eq!(line(&jmp_star(addr(0, RAX))), "\tjmp *0(%rax)\n");
    assert_eq!(line(&jcc(Cond::LE, new_label("L1"))), "\tjle L1\n");
    assert_eq!(line(&jz(new_label("L1"))), "\tjz L1\n");
    assert_eq!(line(&jnz(new_label("L1"))), "\tjnz L1\n");
    assert_eq!(line(&jae(new_label("L1"))), "\tjae L1\n");
    assert_eq!(jae(new_label("L1")).render(MAC), "\tjae _L1\n");
    assert_eq!(line(&write_x86_64::set(Cond::E, reg(RegB::Al))), "\tsete %al\n");
    assert_eq!(line(&cmovq(Cond::GE, reg(RAX), reg(RBX))), "\tcmovge %rax, %rbx\n");
    assert_eq!(
        deplq(Os::Linux, new_label("msg"), RDI).render(LINUX),
        "\tmovq msg, %rdi\n"
    );
    assert_eq!(deplq(Os::MacOs, new_label("msg"), RDI).render(MAC), "\tleaq _msg, %rdi\n");
    assert_eq!(CL, RegB::Cl);
}

#[test]
fn instruction_names_and_arity() {
    assert_eq!(InstrName::Move.nb_args(), 2);
    assert_eq!(InstrName::Movs.nb_args(), 2);
    assert_eq!(InstrName::Cmov(Cond::E).nb_args(), 2);
    assert_eq!(InstrName::Push.nb_args(), 1);
    assert_eq!(InstrName::CallStar.nb_args(), 1);
    assert_eq!(InstrName::JumpStar.nb_args(), 1);
    assert_eq!(InstrName::SetCond(Cond::E).nb_args(), 1);
    assert_eq!(InstrName::Ret.nb_args(), 0);
    assert_eq!(InstrName::Call(Label::printf()).nb_args(), 0);
    assert_eq!(InstrName::Jump(Label::printf()).nb_args(), 0);
    assert_eq!(InstrName::CondJump(Cond::E, Label::printf()).nb_args(), 0);
    assert!(InstrName::Movs.print_size_1());
    assert!(InstrName::Push.print_size_1());
    assert!(!InstrName::Move.print_size_1());
    assert!(!InstrName::SetCond(Cond::E).print_size_1());
    assert!(InstrName::Move.print_size_2());
    assert!(InstrName::Movz.print_size_2());
    assert!(!InstrName::Push.print_size_2());
    assert!(!InstrName::Cmov(Cond::E).print_size_2());
    assert!(InstrName::Move.add_space());
    assert!(!InstrName::CallStar.add_space());
    assert!(!InstrName::JumpStar.add_space());
    assert_eq!(written(&InstrName::ShlC, LINUX), "shl");
    assert_eq!(written(&InstrName::UnsignedDiv, LINUX), "div");
    assert_eq!(written(&InstrName::SignedDiv, LINUX), "idiv");
    assert_eq!(written(&InstrName::Cmov(Cond::NZ), LINUX), "cmovnz");
    assert_eq!(written(&InstrName::CondJump(Cond::BE, new_label("x")), MAC), "jbe _x");
}

#[test]
fn instruction_with_wrong_operands_is_not_well_formed() {
    let none = Instruction::<RegQ, RegInv> { instr: InstrName::Push, reg1: None, reg2: None };
    assert!(!none.is_wf());
    let extra = Instruction::<RegQ, RegQ> {
        instr: InstrName::Push,
        reg1: Some(reg(RAX)),
        reg2: Some(reg(RAX)),
    };
    assert!(!extra.is_wf());
    let unexpected = Instruction::<RegQ, RegInv> {
        instr: InstrName::Ret,
        reg1: Some(reg(RAX)),
        reg2: None,
    };
    assert!(!unexpected.is_wf());
    let placeholder = Instruction::<RegInv, RegInv> {
        instr: InstrName::Push,
        reg1: Some(Operand::Imm(1)),
        reg2: None,
    };
    assert!(!placeholder.is_wf());
    let scale = Instruction::<RegQ, RegInv> {
        instr: InstrName::Push,
        reg1: Some(Operand::Addr(0, RAX, Some(RBX), 3)),
        reg2: None,
    };
    assert!(!scale.is_wf());
    let good = Instruction::<RegQ, RegInv> {
        instr: InstrName::Push,
        reg1: Some(reg(RAX)),
        reg2: None,
    };
    assert!(good.is_wf());
    assert!(Instruction::<RegQ, RegInv>::checked(InstrName::Push, Some(reg(RAX)), None).is_some());
    assert!(Instruction::<RegQ, RegInv>::checked(InstrName::Push, None, None).is_none());
    assert!(Instruction::<RegQ, RegQ>::checked(InstrName::Ret, None, Some(reg(RAX))).is_none());
    assert!(Instruction::<RegInv, RegInv>::checked(InstrName::Ret, None, None).is_some());
}

#[test]
fn machine_code_is_written_as_byte_directives() {
    let mut out = String::new();
    write_directives(&vec![0x48, 0xc7, 0x05], &mut out);
    assert_eq!(out, ".byte 0x48\n\t.byte 0xc7\n\t.byte 0x05");
    let mut out = String::from("x");
    write_directives(&Vec::new(), &mut out);
    assert_eq!(out, "x");
}

#[test]
fn binary_target_writes_machine_code_or_falls_back_to_text() {
    assert_eq!(
        addl(reg(RegL::Eax), reg(RegL::Ebx)).render(LINUX_BINARY),
        "\t.byte 0x01\n\t.byte 0xc3\n"
    );
    assert_eq!(
        movq(immq(5), addr(-8, RBP)).render(LINUX_BINARY),
        "\t.byte 0x48\n\t.byte 0xc7\n\t.byte 0x45\n\t.byte 0xf8\n\t.byte 0x05\n\t.byte 0x00\n\t.byte 0x00\n\t.byte 0x00\n"
    );
    assert_eq!(ret().render(LINUX_BINARY), "\t.byte 0xc3\n");
    assert_eq!(leaq(addr(8, RSP), RDI).render(LINUX_BINARY), "\tleaq 8(%rsp), %rdi\n");
    assert_eq!(call(Label::printf()).render(LINUX_BINARY), "\tcall printf\n");
    assert_eq!(
        movw(Operand::Imm(40000), reg(RegW::Ax)).render(LINUX_BINARY),
        "\tmovw $40000, %ax\n"
    );
    assert_eq!(addl(reg(RegL::Eax), reg(RegL::Ebx)).render(LINUX), "\taddl %eax, %ebx\n");
    let i = Instruction::<RegL, RegL> {
        instr: InstrName::Add,
        reg1: Some(reg(RegL::Eax)),
        reg2: Some(reg(RegL::Ebx)),
    };
    let mut out = String::new();
    i.write_instr(LINUX_BINARY, &mut out);
    out.push('|');
    i.write_instr(LINUX, &mut out);
    out.push('|');
    i.default_writer(Os::Linux, &mut out);
    assert_eq!(out, ".byte 0x01\n\t.byte 0xc3|addl %eax, %ebx|addl %eax, %ebx");
    let boxed = i.boxed();
    assert_eq!(boxed.machine_code(), &Some(vec![0x01, 0xc3]));
    assert_eq!(written(&boxed, LINUX_BINARY), ".byte 0x01\n\t.byte 0xc3");
    assert_eq!(written(&boxed, MAC), "addl %eax, %ebx");
}

#[test]
fn segments() {
    let text: Text = Segment::label(new_label("main"))
        .concat(comment("entry".to_string()))
        .concat(pushq(reg(RBP)))
        .concat(write_x86_64::inline("\t.align 8".to_string()))
        .concat(ret());
    assert_eq!(text.len(), 5);
    assert_eq!(text.render(LINUX), "main:\n## entry\n\tpushq %rbp\n\t.align 8\n\tret\n");
    assert_eq!(text.render(MAC), "_main:\n## entry\n\tpushq %rbp\n\t.align 8\n\tret\n");
    let empty: Text = Segment::empty();
    assert_eq!(empty.len(), 0);
    assert_eq!(empty.render(LINUX), "");
    let named: NamedSegment<_> = pushq(reg(RBP)).concat(ret()).name(".text.hot".to_string());
    assert_eq!(written(&named, LINUX), "\t.section .text.hot\n\tpushq %rbp\n\tret\n");
    let named = NamedSegment::new("s".to_string(), Text::comment("c".to_string()));
    assert_eq!(written(&named, LINUX), "\t.section s\n## c\n");
    assert_eq!(Text::inline("x".to_string()).render(LINUX), "x\n");
}

#[test]
fn data_elements() {
    assert_eq!(dbyte(-5).render(LINUX), "\t\t.byte  -5        \n");
    assert_eq!(dubyte(255).render(LINUX), "\t\t.byte  255       \n");
    assert_eq!(dword(-32768).render(LINUX), "\t\t.word  -32768    \n");
    assert_eq!(dushort(65535).render(LINUX), "\t\t.short 65535     \n");
    assert_eq!(dlong(7).render(LINUX), "\t\t.long  7         \n");
    assert_eq!(dulong(4294967295).render(LINUX), "\t\t.long  4294967295\n");
    assert_eq!(dquad(i64::MIN).render(LINUX), "\t\t.quad  -9223372036854775808\n");
    assert_eq!(dquad(1234567890).render(LINUX), "\t\t.quad  1234567890\n");
    assert_eq!(space(16).render(LINUX), "\t\t.space 16\n");
    assert_eq!(daddress(new_label("f")).render(MAC), "\t\t.quad  _f\n");
    assert_eq!(dlong_label(new_label("f")).render(LINUX), "\t\t.long  f\n");
    assert_eq!(dascii("Hi".to_string()).render(LINUX), "\t\t.ascii \"Hi\"\n");
    assert_eq!(dasciz("Hello".to_string()).render(LINUX), "\t\t.asciz \"Hello\"\n");
}

#[test]
fn directives() {
    assert_eq!(written(&Directive::P2Align(4, None, None), LINUX), ".p2align 0x4");
    assert_eq!(written(&Directive::P2Align(16, Some(144), None), LINUX), ".p2align 0x10,144");
    assert_eq!(written(&Directive::P2Align(4, Some(0), Some(7)), LINUX), ".p2align 0x4,0,7");
    assert_eq!(written(&Directive::P2Align(4, None, Some(7)), LINUX), ".p2align 0x4,,7");
    assert_eq!(written(&Directive::File(1, "a.c".to_string()), LINUX), ".file 1 \"a.c\"");
    assert_eq!(written(&Directive::Loc(1, 12, None, Vec::new()), LINUX), ".loc 1 12");
    assert_eq!(
        written(
            &Directive::Loc(
                1,
                12,
                Some(3),
                vec![
                    LocOptions::BasicBloc,
                    LocOptions::PrologueEnd,
                    LocOptions::EpilogueBegin,
                    LocOptions::IsStmt(true),
                    LocOptions::IsStmt(false),
                    LocOptions::Isa(2)
                ]
            ),
            LINUX
        ),
        ".loc 1 12 3 basic_block prologue_end epilogue_begin is_stmt 1 is_stmt 0 isa 2"
    );
    assert_eq!(written(&Directive::LocMarkBlocks(true), LINUX), ".loc_mark_blocks 1");
    assert_eq!(written(&Directive::LocMarkBlocks(false), LINUX), ".loc_mark_blocks 0");
    assert_eq!(
        written(&set_sub(new_label("a"), new_label("b"), new_label("c")), LINUX),
        ".set a, b-c"
    );
    assert_eq!(
        written(&set_sub(new_label("a"), new_label("b"), new_label("c")), MAC),
        ".set _a, _b-_c"
    );
    assert_eq!(written(&Expr::Add(new_label("a"), new_label("b")), LINUX), "a+b");
    assert_eq!(written(&Expr::UConst(12), LINUX), "12");
    assert_eq!(written(&Expr::SConst(-12), LINUX), "-12");
}

#[test]
fn hello_world_text() {
    let text_ss = Segment::label(new_label("main"))
        + pushq(reg(RBP))
        + leaq(lab(Os::Linux, new_label("my_string")), RDI)
        + call(Label::printf())
        + leaq(lab(Os::Linux, new_label("my_string2")), RDI)
        + call(Label::printf())
        + xorq(reg(RAX), reg(RAX))
        + popq(RBP)
        + ret();
    let data_ss = Data::label(new_label("my_string"))
        + dasciz("Hello".to_string())
        + Data::label(new_label("my_string2"))
        + dasciz(" World\\n".to_string());
    let file = File { globl: Some(new_label("main")), text_ss, data_ss };
    assert_eq!(
        file.render(LINUX),
        "\t.text\n\t.globl\tmain\nmain:\n\tpushq %rbp\n\tleaq my_string, %rdi\n\tcall printf\n\tleaq my_string2, %rdi\n\tcall printf\n\txorq %rax, %rax\n\tpopq %rbp\n\tret\n\t.data\nmy_string:\n\t\t.asciz \"Hello\"\nmy_string2:\n\t\t.asciz \" World\\n\"\n"
    );
    assert_eq!(
        file.render(LINUX_BINARY),
        "\t.text\n\t.globl\tmain\nmain:\n\t.byte 0xff\n\t.byte 0xf5\n\tleaq my_string, %rdi\n\tcall printf\n\tleaq my_string2, %rdi\n\tcall printf\n\t.byte 0x48\n\t.byte 0x31\n\t.byte 0xc0\n\t.byte 0x8f\n\t.byte 0xc5\n\t.byte 0xc3\n\t.data\nmy_string:\n\t\t.asciz \"Hello\"\nmy_string2:\n\t\t.asciz \" World\\n\"\n"
    );
    let bare = File { globl: None, text_ss: Segment::empty(), data_ss: Segment::empty() };
    assert_eq!(bare.render(MAC), "\t.text\n\t.data\n");
}
