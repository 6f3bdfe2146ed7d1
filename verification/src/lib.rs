//! Typed x86-64 instruction values rendered as GAS text or as machine-code bytes.
//!
//! Registers %rax -> %r15 are all accessible for 8, 16, 32 and 64 bits.
//! Write name in capital letters to access them
//!
//! Operands can be obtained with [`lab`], [`ilab`], [`addr`], [`reg`] and [`immb`] to [`immq`].
//!
//! All instruction are available for various sizes.

/// Machine code of the instructions
pub mod binary;

/// Reading back what the encoder wrote
pub mod decoding;

/// Reading machine code back to mnemonic and operands
pub mod disasm;

/// Define data segment
pub mod data;

/// Defines debug symbols
pub mod debug;

/// Defines assembler directives
pub mod directives;

/// Byte layout of an instruction
pub mod encoding;

/// Define structure for whole file
pub mod file;

/// Defines instructions
pub mod instr;

/// What holds of every register, operand and instruction
pub mod laws;

/// Numbers as the assembler reads them
pub mod numfmt;

/// Defines registers and operands
pub mod reg;

/// Defines various traits
pub mod traits;

use vstd::prelude::*;
use vstd::string::StringExecFns;
use crate::instr::{Cond, Instr, InstrName, Instruction};
use crate::reg::{valid_scale, Label, Operand, Os, RegB, RegInv, RegL, RegQ, RegW, Target};
use crate::traits::{Reg, Writable};

verus! {

// Segments
/// Structure representing a segment element
pub enum SegmentEL<T> {
    /// Label
    Label(Label),
    /// Inlining
    Inline(String),
    /// Comment
    Comment(String),
    /// Element
    Data(T),
}

impl<T: Writable> Writable for SegmentEL<T> {
    /// One line: a label with its colon, inlined text as it is, a comment behind
    /// `## `, an element behind a tab.
    open spec fn text(&self, target: Target) -> Seq<char> {
        match self {
            SegmentEL::Label(lab) => lab.text(target.os) + ":"@ + "\n"@,
            SegmentEL::Inline(str) => str@ + "\n"@,
            SegmentEL::Comment(str) => "## "@ + str@ + "\n"@,
            SegmentEL::Data(el) => "\t"@ + el.text(target) + "\n"@,
        }
    }

    fn write_in(&self, target: Target, out: &mut String) {
        match self {
            SegmentEL::Label(lab) => {
                lab.write_in(target.os, out);
                out.append(":");
            },
            SegmentEL::Inline(str) => {
                out.append(str.as_str());
            },
            SegmentEL::Comment(str) => {
                out.append("## ");
                out.append(str.as_str());
            },
            SegmentEL::Data(el) => {
                out.append("\t");
                el.write_in(target, out);
            },
        }
        out.append("\n");
        assert(out@ =~= old(out)@ + self.text(target));
    }
}

/// The lines of the elements, one after the other.
pub open spec fn lines<T: Writable>(elements: Seq<SegmentEL<T>>, target: Target) -> Seq<char>
    decreases elements.len(),
{
    if elements.len() == 0 {
        Seq::empty()
    } else {
        lines(elements.drop_last(), target) + elements.last().text(target)
    }
}

/// Segment
pub struct Segment<T> {
    data: Vec<SegmentEL<T>>,
}

impl<T> View for Segment<T> {
    type V = Seq<SegmentEL<T>>;

    /// The elements of the segment, in order.
    closed spec fn view(&self) -> Seq<SegmentEL<T>> {
        self.data@
    }
}

impl<T> Segment<T> {
    /// Create a segment with only an element
    pub fn new(el: T) -> (segment: Self)
        ensures
            segment@ == seq![SegmentEL::Data(el)],
    {
        let mut data: Vec<SegmentEL<T>> = Vec::new();
        data.push(SegmentEL::Data(el));
        assert(data@ =~= seq![SegmentEL::Data(el)]);
        Self { data }
    }

    /// Create a segment without any element
    pub fn empty() -> (segment: Self)
        ensures
            segment@ == Seq::<SegmentEL<T>>::empty(),
    {
        Self { data: Vec::new() }
    }

    /// Create a segment with only a label
    pub fn label(lab: Label) -> (segment: Self)
        ensures
            segment@ == seq![SegmentEL::<T>::Label(lab)],
    {
        let mut data: Vec<SegmentEL<T>> = Vec::new();
        data.push(SegmentEL::Label(lab));
        assert(data@ =~= seq![SegmentEL::<T>::Label(lab)]);
        Self { data }
    }

    /// Create a segment with only something inlined
    pub fn inline(str: String) -> (segment: Self)
        ensures
            segment@ == seq![SegmentEL::<T>::Inline(str)],
    {
        let mut data: Vec<SegmentEL<T>> = Vec::new();
        data.push(SegmentEL::Inline(str));
        assert(data@ =~= seq![SegmentEL::<T>::Inline(str)]);
        Self { data }
    }

    /// Create a segment with only a comment
    pub fn comment(str: String) -> (segment: Self)
        ensures
            segment@ == seq![SegmentEL::<T>::Comment(str)],
    {
        let mut data: Vec<SegmentEL<T>> = Vec::new();
        data.push(SegmentEL::Comment(str));
        assert(data@ =~= seq![SegmentEL::<T>::Comment(str)]);
        Self { data }
    }

    /// Create a named segment from Segment
    pub fn name(self, name: String) -> (named: NamedSegment<T>)
        ensures
            named.title() == name@,
            named.elements() == self@,
    {
        NamedSegment::new(name, self)
    }

    /// The elements of `self`, then those of `other`.
    pub fn concat(self, other: Self) -> (segment: Self)
        ensures
            segment@ == self@ + other@,
    {
        let mut first = self;
        let mut second = other;
        first.data.append(&mut second.data);
        first
    }

    /// Number of elements.
    pub fn len(&self) -> (n: usize)
        ensures
            n == self@.len(),
    {
        self.data.len()
    }
}

impl<T> core::ops::Add for Segment<T> {
    type Output = Self;

    /// The elements of `self`, then those of `other`.
    fn add(self, other: Self) -> (segment: Self)
        ensures
            segment@ == self@ + other@,
    {
        self.concat(other)
    }
}

impl<T> vstd::std_specs::ops::AddSpecImpl for Segment<T> {
    /// The sum is stated over the elements, by `add` itself: no segment can be
    /// named here.
    open spec fn obeys_add_spec() -> bool {
        false
    }

    open spec fn add_req(self, other: Self) -> bool {
        true
    }

    open spec fn add_spec(self, other: Self) -> Self {
        self
    }
}

impl<T: Writable> Writable for Segment<T> {
    /// The lines of the elements, one after the other.
    open spec fn text(&self, target: Target) -> Seq<char> {
        lines(self@, target)
    }

    fn write_in(&self, target: Target, out: &mut String) {
        let mut i: usize = 0;
        assert(self@.take(0) =~= Seq::empty());
        while i < self.data.len()
            invariant
                i <= self.data.len(),
                out@ == old(out)@ + lines(self@.take(i as int), target),
            decreases self.data.len() - i,
        {
            self.data[i].write_in(target, out);
            proof {
                let next = self@.take(i + 1);
                assert(next.drop_last() =~= self@.take(i as int));
                assert(next.last() == self@[i as int]);
                assert(out@ =~= old(out)@ + lines(next, target));
            }
            i = i + 1;
        }
        assert(self@.take(i as int) =~= self@);
    }
}

impl<T: Writable> Segment<T> {
    /// The text of the segment for the target.
    pub fn render(&self, target: Target) -> (s: String)
        ensures
            s@ == self.text(target),
    {
        let mut out = String::new();
        self.write_in(target, &mut out);
        assert(out@ =~= self.text(target));
        out
    }
}

/// Named Segment
pub struct NamedSegment<T> {
    name: String,
    data: Segment<T>,
}

impl<T> NamedSegment<T> {
    /// The name of the section.
    pub closed spec fn title(&self) -> Seq<char> {
        self.name@
    }

    /// The elements of the section, in order.
    pub closed spec fn elements(&self) -> Seq<SegmentEL<T>> {
        self.data@
    }

    /// Create a named segment from a Segment
    pub fn new(name: String, data: Segment<T>) -> (named: Self)
        ensures
            named.title() == name@,
            named.elements() == data@,
    {
        Self { name, data }
    }
}

impl<T: Writable> Writable for NamedSegment<T> {
    /// The `.section` line, then the lines of the elements.
    open spec fn text(&self, target: Target) -> Seq<char> {
        "\t.section "@ + self.title() + "\n"@ + lines(self.elements(), target)
    }

    fn write_in(&self, target: Target, out: &mut String) {
        out.append("\t.section ");
        out.append(self.name.as_str());
        out.append("\n");
        self.data.write_in(target, out);
        assert(out@ =~= old(out)@ + self.text(target));
    }
}

/// Type alias representing the text Segment
pub type Text = Segment<Instr>;

/// Type alias representing the data Segment
pub type Data = Segment<data::DataEL>;

impl Segment<Instr> {
    /// Whether the segment is the one instruction `i`, its operand widths forgotten.
    pub open spec fn holds<S1: Reg, S2: Reg>(&self, i: Instruction<S1, S2>) -> bool {
        self@.len() == 1 && (self@[0] matches SegmentEL::Data(instr) && instr.represents(i))
    }
}

/// Directly inline assembly code
pub fn inline(str: String) -> (text: Text)
    ensures
        text@ == seq![SegmentEL::<Instr>::Inline(str)],
{
    Text::inline(str)
}

/// Add comment to Assembly (should not contain de line break!)
pub fn comment(s: String) -> (text: Text)
    ensures
        text@ == seq![SegmentEL::<Instr>::Comment(s)],
{
    Text::comment(s)
}

/// Convert str to label name
pub fn new_label(name: &str) -> (label: Label)
    ensures
        label@ == name@,
{
    Label::from_str(String::from_str(name))
}

// Registers
/// 64-bits registers (8 bytes)
pub const RAX: RegQ = RegQ::Rax;

/// 64-bits registers (8 bytes)
pub const RBX: RegQ = RegQ::Rbx;

/// 64-bits registers (8 bytes)
pub const RCX: RegQ = RegQ::Rcx;

/// 64-bits registers (8 bytes)
pub const RDX: RegQ = RegQ::Rdx;

/// 64-bits registers (8 bytes)
pub const RSI: RegQ = RegQ::Rsi;

/// 64-bits registers (8 bytes)
pub const RDI: RegQ = RegQ::Rdi;

/// 64-bits registers (8 bytes)
pub const RBP: RegQ = RegQ::Rbp;

/// 64-bits registers (8 bytes)
pub const RSP: RegQ = RegQ::Rsp;

/// 64-bits registers (8 bytes)
pub const R8: RegQ = RegQ::R8;

/// 64-bits registers (8 bytes)
pub const R9: RegQ = RegQ::R9;

/// 64-bits registers (8 bytes)
pub const R10: RegQ = RegQ::R10;

/// 64-bits registers (8 bytes)
pub const R11: RegQ = RegQ::R11;

/// 64-bits registers (8 bytes)
pub const R12: RegQ = RegQ::R12;

/// 64-bits registers (8 bytes)
pub const R13: RegQ = RegQ::R13;

/// 64-bits registers (8 bytes)
pub const R14: RegQ = RegQ::R14;

/// 64-bits registers (8 bytes)
pub const R15: RegQ = RegQ::R15;

/// 32-bits registers (4 bytes)
pub const EAX: RegL = RegL::Eax;

/// 32-bits registers (4 bytes)
pub const EBX: RegL = RegL::Ebx;

/// 32-bits registers (4 bytes)
pub const ECX: RegL = RegL::Ecx;

/// 32-bits registers (4 bytes)
pub const EDX: RegL = RegL::Edx;

/// 32-bits registers (4 bytes)
pub const ESI: RegL = RegL::Esi;

/// 32-bits registers (4 bytes)
pub const EDI: RegL = RegL::Edi;

/// 32-bits registers (4 bytes)
pub const EBP: RegL = RegL::Ebp;

/// 32-bits registers (4 bytes)
pub const ESP: RegL = RegL::Esp;

/// 32-bits registers (4 bytes)
pub const R8D: RegL = RegL::R8d;

/// 32-bits registers (4 bytes)
pub const R9D: RegL = RegL::R9d;

/// 32-bits registers (4 bytes)
pub const R10D: RegL = RegL::R10d;

/// 32-bits registers (4 bytes)
pub const R11D: RegL = RegL::R11d;

/// 32-bits registers (4 bytes)
pub const R12D: RegL = RegL::R12d;

/// 32-bits registers (4 bytes)
pub const R13D: RegL = RegL::R13d;

/// 32-bits registers (4 bytes)
pub const R14D: RegL = RegL::R14d;

/// 32-bits registers (4 bytes)
pub const R15D: RegL = RegL::R15d;

/// 16-bits registers (2 bytes)
pub const AX: RegW = RegW::Ax;

/// 16-bits registers (2 bytes)
pub const BX: RegW = RegW::Bx;

/// 16-bits registers (2 bytes)
pub const CX: RegW = RegW::Cx;

/// 16-bits registers (2 bytes)
pub const DX: RegW = RegW::Dx;

/// 16-bits registers (2 bytes)
pub const SI: RegW = RegW::Si;

/// 16-bits registers (2 bytes)
pub const DI: RegW = RegW::Di;

/// 16-bits registers (2 bytes)
pub const BP: RegW = RegW::Bp;

/// 16-bits registers (2 bytes)
pub const SP: RegW = RegW::Sp;

/// 16-bits registers (2 bytes)
pub const R8W: RegW = RegW::R8w;

/// 16-bits registers (2 bytes)
pub const R9W: RegW = RegW::R9w;

/// 16-bits registers (2 bytes)
pub const R10W: RegW = RegW::R10w;

/// 16-bits registers (2 bytes)
pub const R11W: RegW = RegW::R11w;

/// 16-bits registers (2 bytes)
pub const R12W: RegW = RegW::R12w;

/// 16-bits registers (2 bytes)
pub const R13W: RegW = RegW::R13w;

/// 16-bits registers (2 bytes)
pub const R14W: RegW = RegW::R14w;

/// 16-bits registers (2 bytes)
pub const R15W: RegW = RegW::R15w;

/// 8-bits registers (1 byte)
pub const AL: RegB = RegB::Al;

/// 8-bits registers (1 byte)
pub const BL: RegB = RegB::Bl;

/// 8-bits registers (1 byte)
pub const CL: RegB = RegB::Cl;

/// 8-bits registers (1 byte)
pub const DL: RegB = RegB::Dl;

/// 8-bits registers (1 byte)
pub const AH: RegB = RegB::Ah;

/// 8-bits registers (1 byte)
pub const BH: RegB = RegB::Bh;

/// 8-bits registers (1 byte)
pub const CH: RegB = RegB::Ch;

/// 8-bits registers (1 byte)
pub const DH: RegB = RegB::Dh;

/// 8-bits registers (1 byte)
pub const SIL: RegB = RegB::Sil;

/// 8-bits registers (1 byte)
pub const DIL: RegB = RegB::Dil;

/// 8-bits registers (1 byte)
pub const BPL: RegB = RegB::Bpl;

/// 8-bits registers (1 byte)
pub const SPL: RegB = RegB::Spl;

/// 8-bits registers (1 byte)
pub const R8B: RegB = RegB::R8b;

/// 8-bits registers (1 byte)
pub const R9B: RegB = RegB::R9b;

/// 8-bits registers (1 byte)
pub const R10B: RegB = RegB::R10b;

/// 8-bits registers (1 byte)
pub const R11B: RegB = RegB::R11b;

/// 8-bits registers (1 byte)
pub const R12B: RegB = RegB::R12b;

/// 8-bits registers (1 byte)
pub const R13B: RegB = RegB::R13b;

/// 8-bits registers (1 byte)
pub const R14B: RegB = RegB::R14b;

/// 8-bits registers (1 byte)
pub const R15B: RegB = RegB::R15b;

// Operands
/// Immediate operand for 64-bits instructions
pub fn immq(imm: i64) -> (op: Operand<RegQ>)
    ensures
        op == Operand::<RegQ>::Imm(imm),
{
    Operand::Imm(imm)
}

/// Immediate operand for 32-bits instructions
pub fn imml(imm: i32) -> (op: Operand<RegL>)
    ensures
        op == Operand::<RegL>::Imm(imm as i64),
{
    Operand::Imm(imm as i64)
}

/// Immediate operand for 16-bits instructions
pub fn immw(imm: i16) -> (op: Operand<RegW>)
    ensures
        op == Operand::<RegW>::Imm(imm as i64),
{
    Operand::Imm(imm as i64)
}

/// Immediate operand for 8-bits instructions
pub fn immb(imm: i8) -> (op: Operand<RegB>)
    ensures
        op == Operand::<RegB>::Imm(imm as i64),
{
    Operand::Imm(imm as i64)
}

/// Convert an element of type R with the trait Reg
/// to an element of type Operand<R>
pub fn reg<R: Reg>(register: R) -> (op: Operand<R>)
    ensures
        op == Operand::Reg(register),
{
    Operand::Reg(register)
}

/// Create an Operand<R> (for any type R) to access memory: `offset(%base)`
pub fn addr<R: Reg>(offset: i64, base: RegQ) -> (op: Operand<R>)
    ensures
        op == Operand::<R>::Addr(offset, base, None, 0),
        op.wf(),
{
    Operand::Addr(offset, base, None, 0)
}

/// Create an Operand<R> (for any type R) to access memory: `offset(%base, %index, scale)`
pub fn addr_index<R: Reg>(offset: i64, base: RegQ, index: RegQ, scale: u8) -> (op: Operand<R>)
    requires
        valid_scale(scale),
        index != RegQ::Rsp,
    ensures
        op == Operand::<R>::Addr(offset, base, Some(index), scale),
        op.wf(),
{
    Operand::Addr(offset, base, Some(index), scale)
}

/// Create an Operand<R> to access memory through an index, where scale and index
/// can stand in an address.
pub fn try_addr_index<R: Reg>(offset: i64, base: RegQ, index: RegQ, scale: u8) -> (op: Option<
    Operand<R>,
>)
    ensures
        valid_scale(scale) && index != RegQ::Rsp <==> op is Some,
        op matches Some(o) ==> o == Operand::<R>::Addr(offset, base, Some(index), scale) && o.wf(),
{
    let valid: bool = scale == 1 || scale == 2 || scale == 4 || scale == 8;
    if valid && !matches!(index, RegQ::Rsp) {
        Some(Operand::Addr(offset, base, Some(index), scale))
    } else {
        None
    }
}

/// Operand that names what stands at a label: relative to `%rip` on macOS,
/// absolute on Linux.
pub fn lab<R: Reg>(os: Os, label: Label) -> (op: Operand<R>)
    ensures
        op == (match os {
            Os::MacOs => Operand::<R>::LabRelAddr(label),
            Os::Linux => Operand::<R>::LabAbsAddr(label),
        }),
{
    match os {
        Os::MacOs => Operand::LabRelAddr(label),
        Os::Linux => Operand::LabAbsAddr(label),
    }
}

/// Operand that names the address of a label as an immediate value.
pub fn ilab<R: Reg>(label: Label) -> (op: Operand<R>)
    ensures
        op == Operand::<R>::LabVal(label),
{
    Operand::LabVal(label)
}

/// Move address of label in register: a move on Linux, `lea` on macOS.
///
/// Usefull to get address to string before calling printf
pub fn deplq(os: Os, l: Label, reg: RegQ) -> (text: Text)
    ensures
        text.holds(
            Instruction::<RegQ, RegQ> {
                instr: (match os {
                    Os::Linux => InstrName::Move,
                    Os::MacOs => InstrName::Lea,
                }),
                reg1: Some(Operand::LabAbsAddr(l)),
                reg2: Some(Operand::Reg(reg)),
            },
        ),
{
    let instr = Instruction::<RegQ, RegQ> {
        instr: (match os {
            Os::Linux => InstrName::Move,
            Os::MacOs => InstrName::Lea,
        }),
        reg1: Some(Operand::LabAbsAddr(l)),
        reg2: Some(Operand::Reg(reg)),
    };
    Segment::new(instr.boxed())
}

// Instructions
// Data transfer

/// Move between 1-bytes operands
pub fn movb(reg1: Operand<RegB>, reg2: Operand<RegB>) -> (text: Text)
    requires
        reg1.wf(),
        reg2.wf(),
    ensures
        text.holds(
            Instruction::<RegB, RegB> { instr: InstrName::Move, reg1: Some(reg1), reg2: Some(reg2) },
        ),
{
    let instr = Instruction::<RegB, RegB> { instr: InstrName::Move, reg1: Some(reg1), reg2: Some(reg2) };
    Segment::new(instr.boxed())
}

/// Move between 2-bytes operands
pub fn movw(reg1: Operand<RegW>, reg2: Operand<RegW>) -> (text: Text)
    requires
        reg1.wf(),
        reg2.wf(),
    ensures
        text.holds(
            Instruction::<RegW, RegW> { instr: InstrName::Move, reg1: Some(reg1), reg2: Some(reg2) },
        ),
{
    let instr = Instruction::<RegW, RegW> { instr: InstrName::Move, reg1: Some(reg1), reg2: Some(reg2) };
    Segment::new(instr.boxed())
}

/// Move between 4-bytes operands
pub fn movl(reg1: Operand<RegL>, reg2: Operand<RegL>) -> (text: Text)
    requires
        reg1.wf(),
        reg2.wf(),
    ensures
        text.holds(
            Instruction::<RegL, RegL> { instr: InstrName::Move, reg1: Some(reg1), reg2: Some(reg2) },
        ),
{
    let instr = Instruction::<RegL, RegL> { instr: InstrName::Move, reg1: Some(reg1), reg2: Some(reg2) };
    Segment::new(instr.boxed())
}

/// Move between 8-bytes operands
pub fn movq(reg1: Operand<RegQ>, reg2: Operand<RegQ>) -> (text: Text)
    requires
        reg1.wf(),
        reg2.wf(),
    ensures
        text.holds(
            Instruction::<RegQ, RegQ> { instr: InstrName::Move, reg1: Some(reg1), reg2: Some(reg2) },
        ),
{
    let instr = Instruction::<RegQ, RegQ> { instr: InstrName::Move, reg1: Some(reg1), reg2: Some(reg2) };
    Segment::new(instr.boxed())
}

/// Sign extend for 1-byte to 2-bytes
pub fn movsbw(reg1: Operand<RegB>, reg2: RegW) -> (text: Text)
    requires
        reg1.wf(),
    ensures
        text.holds(
            Instruction::<RegB, RegW> { instr: InstrName::Movs, reg1: Some(reg1), reg2: Some(Operand::Reg(reg2)) },
        ),
{
    let instr = Instruction::<RegB, RegW> { instr: InstrName::Movs, reg1: Some(reg1), reg2: Some(Operand::Reg(reg2)) };
    Segment::new(instr.boxed())
}

/// Sign extend for 1-byte to 4-bytes
pub fn movsbl(reg1: Operand<RegB>, reg2: RegL) -> (text: Text)
    requires
        reg1.wf(),
    ensures
        text.holds(
            Instruction::<RegB, RegL> { instr: InstrName::Movs, reg1: Some(reg1), reg2: Some(Operand::Reg(reg2)) },
        ),
{
    let instr = Instruction::<RegB, RegL> { instr: InstrName::Movs, reg1: Some(reg1), reg2: Some(Operand::Reg(reg2)) };
    Segment::new(instr.boxed())
}

/// Sign extend for 1-byte to 8-bytes
pub fn movsbq(reg1: Operand<RegB>, reg2: RegQ) -> (text: Text)
    requires
        reg1.wf(),
    ensures
        text.holds(
            Instruction::<RegB, RegQ> { instr: InstrName::Movs, reg1: Some(reg1), reg2: Some(Operand::Reg(reg2)) },
        ),
{
    let instr = Instruction::<RegB, RegQ> { instr: InstrName::Movs, reg1: Some(reg1), reg2: Some(Operand::Reg(reg2)) };
    Segment::new(instr.boxed())
}

/// Sign extend for 2-bytes to 4-bytes
pub fn movswl(reg1: Operand<RegW>, reg2: RegL) -> (text: Text)
    requires
        reg1.wf(),
    ensures
        text.holds(
            Instruction::<RegW, RegL> { instr: InstrName::Movs, reg1: Some(reg1), reg2: Some(Operand::Reg(reg2)) },
        ),
{
    let instr = Instruction::<RegW, RegL> { instr: InstrName::Movs, reg1: Some(reg1), reg2: Some(Operand::Reg(reg2)) };
    Segment::new(instr.boxed())
}

/// Sign extend for 2-bytes to 8-bytes
pub fn movswq(reg1: Operand<RegW>, reg2: RegQ) -> (text: Text)
    requires
        reg1.wf(),
    ensures
        text.holds(
            Instruction::<RegW, RegQ> { instr: InstrName::Movs, reg1: Some(reg1), reg2: Some(Operand::Reg(reg2)) },
        ),
{
    let instr = Instruction::<RegW, RegQ> { instr: InstrName::Movs, reg1: Some(reg1), reg2: Some(Operand::Reg(reg2)) };
    Segment::new(instr.boxed())
}

/// Sign extend for 4-bytes to 8-bytes
pub fn movslq(reg1: Operand<RegL>, reg2: RegQ) -> (text: Text)
    requires
        reg1.wf(),
    ensures
        text.holds(
            Instruction::<RegL, RegQ> { instr: InstrName::Movs, reg1: Some(reg1), reg2: Some(Operand::Reg(reg2)) },
        ),
{
    let instr = Instruction::<RegL, RegQ> { instr: InstrName::Movs, reg1: Some(reg1), reg2: Some(Operand::Reg(reg2)) };
    Segment::new(instr.boxed())
}

/// Extension with zeros for 1-byte to 2-bytes
pub fn movzbw(reg1: Operand<RegB>, reg2: RegW) -> (text: Text)
    requires
        reg1.wf(),
    ensures
        text.holds(
            Instruction::<RegB, RegW> { instr: InstrName::Movz, reg1: Some(reg1), reg2: Some(Operand::Reg(reg2)) },
        ),
{
    let instr = Instruction::<RegB, RegW> { instr: InstrName::Movz, reg1: Some(reg1), reg2: Some(Operand::Reg(reg2)) };
    Segment::new(instr.boxed())
}

/// Extension with zeros for 1-byte to 4-bytes
pub fn movzbl(reg1: Operand<RegB>, reg2: RegL) -> (text: Text)
    requires
        reg1.wf(),
    ensures
        text.holds(
            Instruction::<RegB, RegL> { instr: InstrName::Movz, reg1: Some(reg1), reg2: Some(Operand::Reg(reg2)) },
        ),
{
    let instr = Instruction::<RegB, RegL> { instr: InstrName::Movz, reg1: Some(reg1), reg2: Some(Operand::Reg(reg2)) };
    Segment::new(instr.boxed())
}

/// Extension with zeros for 1-byte to 8-bytes
pub fn movzbq(reg1: Operand<RegB>, reg2: RegQ) -> (text: Text)
    requires
        reg1.wf(),
    ensures
        text.holds(
            Instruction::<RegB, RegQ> { instr: InstrName::Movz, reg1: Some(reg1), reg2: Some(Operand::Reg(reg2)) },
        ),
{
    let instr = Instruction::<RegB, RegQ> { instr: InstrName::Movz, reg1: Some(reg1), reg2: Some(Operand::Reg(reg2)) };
    Segment::new(instr.boxed())
}

/// Extension with zeros for 2-bytes to 4-bytes
pub fn movzwl(reg1: Operand<RegW>, reg2: RegL) -> (text: Text)
    requires
        reg1.wf(),
    ensures
        text.holds(
            Instruction::<RegW, RegL> { instr: InstrName::Movz, reg1: Some(reg1), reg2: Some(Operand::Reg(reg2)) },
        ),
{
    let instr = Instruction::<RegW, RegL> { instr: InstrName::Movz, reg1: Some(reg1), reg2: Some(Operand::Reg(reg2)) };
    Segment::new(instr.boxed())
}

/// Extension with zeros for 2-bytes to 8-bytes
pub fn movzwq(reg1: Operand<RegW>, reg2: RegQ) -> (text: Text)
    requires
        reg1.wf(),
    ensures
        text.holds(
            Instruction::<RegW, RegQ> { instr: InstrName::Movz, reg1: Some(reg1), reg2: Some(Operand::Reg(reg2)) },
        ),
{
    let instr = Instruction::<RegW, RegQ> { instr: InstrName::Movz, reg1: Some(reg1), reg2: Some(Operand::Reg(reg2)) };
    Segment::new(instr.boxed())
}

// Arithmetic

/// Address computation between 1-bytes operands
pub fn leab(reg1: Operand<RegB>, reg2: RegB) -> (text: Text)
    requires
        reg1.wf(),
    ensures
        text.holds(
            Instruction::<RegB, RegB> { instr: InstrName::Lea, reg1: Some(reg1), reg2: Some(Operand::Reg(reg2)) },
        ),
{
    let instr = Instruction::<RegB, RegB> { instr: InstrName::Lea, reg1: Some(reg1), reg2: Some(Operand::Reg(reg2)) };
    Segment::new(instr.boxed())
}

/// Address computation between 2-bytes operands
pub fn leaw(reg1: Operand<RegW>, reg2: RegW) -> (text: Text)
    requires
        reg1.wf(),
    ensures
        text.holds(
            Instruction::<RegW, RegW> { instr: InstrName::Lea, reg1: Some(reg1), reg2: Some(Operand::Reg(reg2)) },
        ),
{
    let instr = Instruction::<RegW, RegW> { instr: InstrName::Lea, reg1: Some(reg1), reg2: Some(Operand::Reg(reg2)) };
    Segment::new(instr.boxed())
}

/// Address computation between 4-bytes operands
pub fn leal(reg1: Operand<RegL>, reg2: RegL) -> (text: Text)
    requires
        reg1.wf(),
    ensures
        text.holds(
            Instruction::<RegL, RegL> { instr: InstrName::Lea, reg1: Some(reg1), reg2: Some(Operand::Reg(reg2)) },
        ),
{
    let instr = Instruction::<RegL, RegL> { instr: InstrName::Lea, reg1: Some(reg1), reg2: Some(Operand::Reg(reg2)) };
    Segment::new(instr.boxed())
}

/// Address computation between 8-bytes operands
pub fn leaq(reg1: Operand<RegQ>, reg2: RegQ) -> (text: Text)
    requires
        reg1.wf(),
    ensures
        text.holds(
            Instruction::<RegQ, RegQ> { instr: InstrName::Lea, reg1: Some(reg1), reg2: Some(Operand::Reg(reg2)) },
        ),
{
    let instr = Instruction::<RegQ, RegQ> { instr: InstrName::Lea, reg1: Some(reg1), reg2: Some(Operand::Reg(reg2)) };
    Segment::new(instr.boxed())
}

/// Increment on 1-bytes operands
pub fn incb(reg: Operand<RegB>) -> (text: Text)
    requires
        reg.wf(),
    ensures
        text.holds(
            Instruction::<RegB, RegInv> { instr: InstrName::Inc, reg1: Some(reg), reg2: None },
        ),
{
    let instr = Instruction::<RegB, RegInv> { instr: InstrName::Inc, reg1: Some(reg), reg2: None };
    Segment::new(instr.boxed())
}

/// Increment on 2-bytes operands
pub fn incw(reg: Operand<RegW>) -> (text: Text)
    requires
        reg.wf(),
    ensures
        text.holds(
            Instruction::<RegW, RegInv> { instr: InstrName::Inc, reg1: Some(reg), reg2: None },
        ),
{
    let instr = Instruction::<RegW, RegInv> { instr: InstrName::Inc, reg1: Some(reg), reg2: None };
    Segment::new(instr.boxed())
}

/// Increment on 4-bytes operands
pub fn incl(reg: Operand<RegL>) -> (text: Text)
    requires
        reg.wf(),
    ensures
        text.holds(
            Instruction::<RegL, RegInv> { instr: InstrName::Inc, reg1: Some(reg), reg2: None },
        ),
{
    let instr = Instruction::<RegL, RegInv> { instr: InstrName::Inc, reg1: Some(reg), reg2: None };
    Segment::new(instr.boxed())
}

/// Increment on 8-bytes operands
pub fn incq(reg: Operand<RegQ>) -> (text: Text)
    requires
        reg.wf(),
    ensures
        text.holds(
            Instruction::<RegQ, RegInv> { instr: InstrName::Inc, reg1: Some(reg), reg2: None },
        ),
{
    let instr = Instruction::<RegQ, RegInv> { instr: InstrName::Inc, reg1: Some(reg), reg2: None };
    Segment::new(instr.boxed())
}

/// Decrement on 1-bytes operands
pub fn decb(reg: Operand<RegB>) -> (text: Text)
    requires
        reg.wf(),
    ensures
        text.holds(
            Instruction::<RegB, RegInv> { instr: InstrName::Dec, reg1: Some(reg), reg2: None },
        ),
{
    let instr = Instruction::<RegB, RegInv> { instr: InstrName::Dec, reg1: Some(reg), reg2: None };
    Segment::new(instr.boxed())
}

/// Decrement on 2-bytes operands
pub fn decw(reg: Operand<RegW>) -> (text: Text)
    requires
        reg.wf(),
    ensures
        text.holds(
            Instruction::<RegW, RegInv> { instr: InstrName::Dec, reg1: Some(reg), reg2: None },
        ),
{
    let instr = Instruction::<RegW, RegInv> { instr: InstrName::Dec, reg1: Some(reg), reg2: None };
    Segment::new(instr.boxed())
}

/// Decrement on 4-bytes operands
pub fn decl(reg: Operand<RegL>) -> (text: Text)
    requires
        reg.wf(),
    ensures
        text.holds(
            Instruction::<RegL, RegInv> { instr: InstrName::Dec, reg1: Some(reg), reg2: None },
        ),
{
    let instr = Instruction::<RegL, RegInv> { instr: InstrName::Dec, reg1: Some(reg), reg2: None };
    Segment::new(instr.boxed())
}

/// Decrement on 8-bytes operands
pub fn decq(reg: Operand<RegQ>) -> (text: Text)
    requires
        reg.wf(),
    ensures
        text.holds(
            Instruction::<RegQ, RegInv> { instr: InstrName::Dec, reg1: Some(reg), reg2: None },
        ),
{
    let instr = Instruction::<RegQ, RegInv> { instr: InstrName::Dec, reg1: Some(reg), reg2: None };
    Segment::new(instr.boxed())
}

/// Arithmetic negation on 1-bytes operands
pub fn negb(reg: Operand<RegB>) -> (text: Text)
    requires
        reg.wf(),
    ensures
        text.holds(
            Instruction::<RegB, RegInv> { instr: InstrName::Neg, reg1: Some(reg), reg2: None },
        ),
{
    let instr = Instruction::<RegB, RegInv> { instr: InstrName::Neg, reg1: Some(reg), reg2: None };
    Segment::new(instr.boxed())
}

/// Arithmetic negation on 2-bytes operands
pub fn negw(reg: Operand<RegW>) -> (text: Text)
    requires
        reg.wf(),
    ensures
        text.holds(
            Instruction::<RegW, RegInv> { instr: InstrName::Neg, reg1: Some(reg), reg2: None },
        ),
{
    let instr = Instruction::<RegW, RegInv> { instr: InstrName::Neg, reg1: Some(reg), reg2: None };
    Segment::new(instr.boxed())
}

/// Arithmetic negation on 4-bytes operands
pub fn negl(reg: Operand<RegL>) -> (text: Text)
    requires
        reg.wf(),
    ensures
        text.holds(
            Instruction::<RegL, RegInv> { instr: InstrName::Neg, reg1: Some(reg), reg2: None },
        ),
{
    let instr = Instruction::<RegL, RegInv> { instr: InstrName::Neg, reg1: Some(reg), reg2: None };
    Segment::new(instr.boxed())
}

/// Arithmetic negation on 8-bytes operands
pub fn negq(reg: Operand<RegQ>) -> (text: Text)
    requires
        reg.wf(),
    ensures
        text.holds(
            Instruction::<RegQ, RegInv> { instr: InstrName::Neg, reg1: Some(reg), reg2: None },
        ),
{
    let instr = Instruction::<RegQ, RegInv> { instr: InstrName::Neg, reg1: Some(reg), reg2: None };
    Segment::new(instr.boxed())
}

/// Addition between 1-bytes operands
pub fn addb(reg1: Operand<RegB>, reg2: Operand<RegB>) -> (text: Text)
    requires
        reg1.wf(),
        reg2.wf(),
    ensures
        text.holds(
            Instruction::<RegB, RegB> { instr: InstrName::Add, reg1: Some(reg1), reg2: Some(reg2) },
        ),
{
    let instr = Instruction::<RegB, RegB> { instr: InstrName::Add, reg1: Some(reg1), reg2: Some(reg2) };
    Segment::new(instr.boxed())
}

/// Addition between 2-bytes operands
pub fn addw(reg1: Operand<RegW>, reg2: Operand<RegW>) -> (text: Text)
    requires
        reg1.wf(),
        reg2.wf(),
    ensures
        text.holds(
            Instruction::<RegW, RegW> { instr: InstrName::Add, reg1: Some(reg1), reg2: Some(reg2) },
        ),
{
    let instr = Instruction::<RegW, RegW> { instr: InstrName::Add, reg1: Some(reg1), reg2: Some(reg2) };
    Segment::new(instr.boxed())
}

/// Addition between 4-bytes operands
pub fn addl(reg1: Operand<RegL>, reg2: Operand<RegL>) -> (text: Text)
    requires
        reg1.wf(),
        reg2.wf(),
    ensures
        text.holds(
            Instruction::<RegL, RegL> { instr: InstrName::Add, reg1: Some(reg1), reg2: Some(reg2) },
        ),
{
    let instr = Instruction::<RegL, RegL> { instr: InstrName::Add, reg1: Some(reg1), reg2: Some(reg2) };
    Segment::new(instr.boxed())
}

/// Addition between 8-bytes operands
pub fn addq(reg1: Operand<RegQ>, reg2: Operand<RegQ>) -> (text: Text)
    requires
        reg1.wf(),
        reg2.wf(),
    ensures
        text.holds(
            Instruction::<RegQ, RegQ> { instr: InstrName::Add, reg1: Some(reg1), reg2: Some(reg2) },
        ),
{
    let instr = Instruction::<RegQ, RegQ> { instr: InstrName::Add, reg1: Some(reg1), reg2: Some(reg2) };
    Segment::new(instr.boxed())
}

/// Subtraction between 1-bytes operands
pub fn subb(reg1: Operand<RegB>, reg2: Operand<RegB>) -> (text: Text)
    requires
        reg1.wf(),
        reg2.wf(),
    ensures
        text.holds(
            Instruction::<RegB, RegB> { instr: InstrName::Sub, reg1: Some(reg1), reg2: Some(reg2) },
        ),
{
    let instr = Instruction::<RegB, RegB> { instr: InstrName::Sub, reg1: Some(reg1), reg2: Some(reg2) };
    Segment::new(instr.boxed())
}

/// Subtraction between 2-bytes operands
pub fn subw(reg1: Operand<RegW>, reg2: Operand<RegW>) -> (text: Text)
    requires
        reg1.wf(),
        reg2.wf(),
    ensures
        text.holds(
            Instruction::<RegW, RegW> { instr: InstrName::Sub, reg1: Some(reg1), reg2: Some(reg2) },
        ),
{
    let instr = Instruction::<RegW, RegW> { instr: InstrName::Sub, reg1: Some(reg1), reg2: Some(reg2) };
    Segment::new(instr.boxed())
}

/// Subtraction between 4-bytes operands
pub fn subl(reg1: Operand<RegL>, reg2: Operand<RegL>) -> (text: Text)
    requires
        reg1.wf(),
        reg2.wf(),
    ensures
        text.holds(
            Instruction::<RegL, RegL> { instr: InstrName::Sub, reg1: Some(reg1), reg2: Some(reg2) },
        ),
{
    let instr = Instruction::<RegL, RegL> { instr: InstrName::Sub, reg1: Some(reg1), reg2: Some(reg2) };
    Segment::new(instr.boxed())
}

/// Subtraction between 8-bytes operands
pub fn subq(reg1: Operand<RegQ>, reg2: Operand<RegQ>) -> (text: Text)
    requires
        reg1.wf(),
        reg2.wf(),
    ensures
        text.holds(
            Instruction::<RegQ, RegQ> { instr: InstrName::Sub, reg1: Some(reg1), reg2: Some(reg2) },
        ),
{
    let instr = Instruction::<RegQ, RegQ> { instr: InstrName::Sub, reg1: Some(reg1), reg2: Some(reg2) };
    Segment::new(instr.boxed())
}

/// Signed multiplication between 2-bytes operands
pub fn imulw(reg1: Operand<RegW>, reg2: Operand<RegW>) -> (text: Text)
    requires
        reg1.wf(),
        reg2.wf(),
    ensures
        text.holds(
            Instruction::<RegW, RegW> { instr: InstrName::IMul, reg1: Some(reg1), reg2: Some(reg2) },
        ),
{
    let instr = Instruction::<RegW, RegW> { instr: InstrName::IMul, reg1: Some(reg1), reg2: Some(reg2) };
    Segment::new(instr.boxed())
}

/// Signed multiplication between 4-bytes operands
pub fn imull(reg1: Operand<RegL>, reg2: Operand<RegL>) -> (text: Text)
    requires
        reg1.wf(),
        reg2.wf(),
    ensures
        text.holds(
            Instruction::<RegL, RegL> { instr: InstrName::IMul, reg1: Some(reg1), reg2: Some(reg2) },
        ),
{
    let instr = Instruction::<RegL, RegL> { instr: InstrName::IMul, reg1: Some(reg1), reg2: Some(reg2) };
    Segment::new(instr.boxed())
}

/// Signed multiplication between 8-bytes operands
pub fn imulq(reg1: Operand<RegQ>, reg2: Operand<RegQ>) -> (text: Text)
    requires
        reg1.wf(),
        reg2.wf(),
    ensures
        text.holds(
            Instruction::<RegQ, RegQ> { instr: InstrName::IMul, reg1: Some(reg1), reg2: Some(reg2) },
        ),
{
    let instr = Instruction::<RegQ, RegQ> { instr: InstrName::IMul, reg1: Some(reg1), reg2: Some(reg2) };
    Segment::new(instr.boxed())
}

/// sign extend EAX into EDX::EAX
pub fn cltd() -> (text: Text)
    ensures
        text.holds(
            Instruction::<RegInv, RegInv> { instr: InstrName::Cltd, reg1: None, reg2: None },
        ),
{
    let instr = Instruction::<RegInv, RegInv> { instr: InstrName::Cltd, reg1: None, reg2: None };
    Segment::new(instr.boxed())
}

/// sign extend RAX into RDX::RAX
pub fn cqto() -> (text: Text)
    ensures
        text.holds(
            Instruction::<RegInv, RegInv> { instr: InstrName::Cqto, reg1: None, reg2: None },
        ),
{
    let instr = Instruction::<RegInv, RegInv> { instr: InstrName::Cqto, reg1: None, reg2: None };
    Segment::new(instr.boxed())
}

/// Signed division on 4-bytes operands
pub fn idivl(reg: Operand<RegL>) -> (text: Text)
    requires
        reg.wf(),
    ensures
        text.holds(
            Instruction::<RegL, RegInv> { instr: InstrName::SignedDiv, reg1: Some(reg), reg2: None },
        ),
{
    let instr = Instruction::<RegL, RegInv> { instr: InstrName::SignedDiv, reg1: Some(reg), reg2: None };
    Segment::new(instr.boxed())
}

/// Signed division on 8-bytes operands
pub fn idivq(reg: Operand<RegQ>) -> (text: Text)
    requires
        reg.wf(),
    ensures
        text.holds(
            Instruction::<RegQ, RegInv> { instr: InstrName::SignedDiv, reg1: Some(reg), reg2: None },
        ),
{
    let instr = Instruction::<RegQ, RegInv> { instr: InstrName::SignedDiv, reg1: Some(reg), reg2: None };
    Segment::new(instr.boxed())
}

/// Unsigned division on 4-bytes operands
pub fn divl(reg: Operand<RegL>) -> (text: Text)
    requires
        reg.wf(),
    ensures
        text.holds(
            Instruction::<RegL, RegInv> { instr: InstrName::UnsignedDiv, reg1: Some(reg), reg2: None },
        ),
{
    let instr = Instruction::<RegL, RegInv> { instr: InstrName::UnsignedDiv, reg1: Some(reg), reg2: None };
    Segment::new(instr.boxed())
}

/// Unsigned division on 8-bytes operands
pub fn divq(reg: Operand<RegQ>) -> (text: Text)
    requires
        reg.wf(),
    ensures
        text.holds(
            Instruction::<RegQ, RegInv> { instr: InstrName::UnsignedDiv, reg1: Some(reg), reg2: None },
        ),
{
    let instr = Instruction::<RegQ, RegInv> { instr: InstrName::UnsignedDiv, reg1: Some(reg), reg2: None };
    Segment::new(instr.boxed())
}

// Logic operations

/// Bitwise negation on 1-bytes operands
pub fn notb(reg: Operand<RegB>) -> (text: Text)
    requires
        reg.wf(),
    ensures
        text.holds(
            Instruction::<RegB, RegInv> { instr: InstrName::Not, reg1: Some(reg), reg2: None },
        ),
{
    let instr = Instruction::<RegB, RegInv> { instr: InstrName::Not, reg1: Some(reg), reg2: None };
    Segment::new(instr.boxed())
}

/// Bitwise negation on 2-bytes operands
pub fn notw(reg: Operand<RegW>) -> (text: Text)
    requires
        reg.wf(),
    ensures
        text.holds(
            Instruction::<RegW, RegInv> { instr: InstrName::Not, reg1: Some(reg), reg2: None },
        ),
{
    let instr = Instruction::<RegW, RegInv> { instr: InstrName::Not, reg1: Some(reg), reg2: None };
    Segment::new(instr.boxed())
}

/// Bitwise negation on 4-bytes operands
pub fn notl(reg: Operand<RegL>) -> (text: Text)
    requires
        reg.wf(),
    ensures
        text.holds(
            Instruction::<RegL, RegInv> { instr: InstrName::Not, reg1: Some(reg), reg2: None },
        ),
{
    let instr = Instruction::<RegL, RegInv> { instr: InstrName::Not, reg1: Some(reg), reg2: None };
    Segment::new(instr.boxed())
}

/// Bitwise negation on 8-bytes operands
pub fn notq(reg: Operand<RegQ>) -> (text: Text)
    requires
        reg.wf(),
    ensures
        text.holds(
            Instruction::<RegQ, RegInv> { instr: InstrName::Not, reg1: Some(reg), reg2: None },
        ),
{
    let instr = Instruction::<RegQ, RegInv> { instr: InstrName::Not, reg1: Some(reg), reg2: None };
    Segment::new(instr.boxed())
}

/// Bitwise and between 1-bytes operands
pub fn andb(reg1: Operand<RegB>, reg2: Operand<RegB>) -> (text: Text)
    requires
        reg1.wf(),
        reg2.wf(),
    ensures
        text.holds(
            Instruction::<RegB, RegB> { instr: InstrName::And, reg1: Some(reg1), reg2: Some(reg2) },
        ),
{
    let instr = Instruction::<RegB, RegB> { instr: InstrName::And, reg1: Some(reg1), reg2: Some(reg2) };
    Segment::new(instr.boxed())
}

/// Bitwise and between 2-bytes operands
pub fn andw(reg1: Operand<RegW>, reg2: Operand<RegW>) -> (text: Text)
    requires
        reg1.wf(),
        reg2.wf(),
    ensures
        text.holds(
            Instruction::<RegW, RegW> { instr: InstrName::And, reg1: Some(reg1), reg2: Some(reg2) },
        ),
{
    let instr = Instruction::<RegW, RegW> { instr: InstrName::And, reg1: Some(reg1), reg2: Some(reg2) };
    Segment::new(instr.boxed())
}

/// Bitwise and between 4-bytes operands
pub fn andl(reg1: Operand<RegL>, reg2: Operand<RegL>) -> (text: Text)
    requires
        reg1.wf(),
        reg2.wf(),
    ensures
        text.holds(
            Instruction::<RegL, RegL> { instr: InstrName::And, reg1: Some(reg1), reg2: Some(reg2) },
        ),
{
    let instr = Instruction::<RegL, RegL> { instr: InstrName::And, reg1: Some(reg1), reg2: Some(reg2) };
    Segment::new(instr.boxed())
}

/// Bitwise and between 8-bytes operands
pub fn andq(reg1: Operand<RegQ>, reg2: Operand<RegQ>) -> (text: Text)
    requires
        reg1.wf(),
        reg2.wf(),
    ensures
        text.holds(
            Instruction::<RegQ, RegQ> { instr: InstrName::And, reg1: Some(reg1), reg2: Some(reg2) },
        ),
{
    let instr = Instruction::<RegQ, RegQ> { instr: InstrName::And, reg1: Some(reg1), reg2: Some(reg2) };
    Segment::new(instr.boxed())
}

/// Bitwise or between 1-bytes operands
pub fn orb(reg1: Operand<RegB>, reg2: Operand<RegB>) -> (text: Text)
    requires
        reg1.wf(),
        reg2.wf(),
    ensures
        text.holds(
            Instruction::<RegB, RegB> { instr: InstrName::Or, reg1: Some(reg1), reg2: Some(reg2) },
        ),
{
    let instr = Instruction::<RegB, RegB> { instr: InstrName::Or, reg1: Some(reg1), reg2: Some(reg2) };
    Segment::new(instr.boxed())
}

/// Bitwise or between 2-bytes operands
pub fn orw(reg1: Operand<RegW>, reg2: Operand<RegW>) -> (text: Text)
    requires
        reg1.wf(),
        reg2.wf(),
    ensures
        text.holds(
            Instruction::<RegW, RegW> { instr: InstrName::Or, reg1: Some(reg1), reg2: Some(reg2) },
        ),
{
    let instr = Instruction::<RegW, RegW> { instr: InstrName::Or, reg1: Some(reg1), reg2: Some(reg2) };
    Segment::new(instr.boxed())
}

/// Bitwise or between 4-bytes operands
pub fn orl(reg1: Operand<RegL>, reg2: Operand<RegL>) -> (text: Text)
    requires
        reg1.wf(),
        reg2.wf(),
    ensures
        text.holds(
            Instruction::<RegL, RegL> { instr: InstrName::Or, reg1: Some(reg1), reg2: Some(reg2) },
        ),
{
    let instr = Instruction::<RegL, RegL> { instr: InstrName::Or, reg1: Some(reg1), reg2: Some(reg2) };
    Segment::new(instr.boxed())
}

/// Bitwise or between 8-bytes operands
pub fn orq(reg1: Operand<RegQ>, reg2: Operand<RegQ>) -> (text: Text)
    requires
        reg1.wf(),
        reg2.wf(),
    ensures
        text.holds(
            Instruction::<RegQ, RegQ> { instr: InstrName::Or, reg1: Some(reg1), reg2: Some(reg2) },
        ),
{
    let instr = Instruction::<RegQ, RegQ> { instr: InstrName::Or, reg1: Some(reg1), reg2: Some(reg2) };
    Segment::new(instr.boxed())
}

/// Bitwise exclusive or between 1-bytes operands
pub fn xorb(reg1: Operand<RegB>, reg2: Operand<RegB>) -> (text: Text)
    requires
        reg1.wf(),
        reg2.wf(),
    ensures
        text.holds(
            Instruction::<RegB, RegB> { instr: InstrName::Xor, reg1: Some(reg1), reg2: Some(reg2) },
        ),
{
    let instr = Instruction::<RegB, RegB> { instr: InstrName::Xor, reg1: Some(reg1), reg2: Some(reg2) };
    Segment::new(instr.boxed())
}

/// Bitwise exclusive or between 2-bytes operands
pub fn xorw(reg1: Operand<RegW>, reg2: Operand<RegW>) -> (text: Text)
    requires
        reg1.wf(),
        reg2.wf(),
    ensures
        text.holds(
            Instruction::<RegW, RegW> { instr: InstrName::Xor, reg1: Some(reg1), reg2: Some(reg2) },
        ),
{
    let instr = Instruction::<RegW, RegW> { instr: InstrName::Xor, reg1: Some(reg1), reg2: Some(reg2) };
    Segment::new(instr.boxed())
}

/// Bitwise exclusive or between 4-bytes operands
pub fn xorl(reg1: Operand<RegL>, reg2: Operand<RegL>) -> (text: Text)
    requires
        reg1.wf(),
        reg2.wf(),
    ensures
        text.holds(
            Instruction::<RegL, RegL> { instr: InstrName::Xor, reg1: Some(reg1), reg2: Some(reg2) },
        ),
{
    let instr = Instruction::<RegL, RegL> { instr: InstrName::Xor, reg1: Some(reg1), reg2: Some(reg2) };
    Segment::new(instr.boxed())
}

/// Bitwise exclusive or between 8-bytes operands
pub fn xorq(reg1: Operand<RegQ>, reg2: Operand<RegQ>) -> (text: Text)
    requires
        reg1.wf(),
        reg2.wf(),
    ensures
        text.holds(
            Instruction::<RegQ, RegQ> { instr: InstrName::Xor, reg1: Some(reg1), reg2: Some(reg2) },
        ),
{
    let instr = Instruction::<RegQ, RegQ> { instr: InstrName::Xor, reg1: Some(reg1), reg2: Some(reg2) };
    Segment::new(instr.boxed())
}

// Shifts

/// Left shift between 1-bytes operands
pub fn shlb(reg1: Operand<RegB>, reg2: Operand<RegB>) -> (text: Text)
    requires
        reg1.wf(),
        reg2.wf(),
    ensures
        text.holds(
            Instruction::<RegB, RegB> { instr: InstrName::Shl, reg1: Some(reg1), reg2: Some(reg2) },
        ),
{
    let instr = Instruction::<RegB, RegB> { instr: InstrName::Shl, reg1: Some(reg1), reg2: Some(reg2) };
    Segment::new(instr.boxed())
}

/// Left shift between 2-bytes operands
pub fn shlw(reg1: Operand<RegW>, reg2: Operand<RegW>) -> (text: Text)
    requires
        reg1.wf(),
        reg2.wf(),
    ensures
        text.holds(
            Instruction::<RegW, RegW> { instr: InstrName::Shl, reg1: Some(reg1), reg2: Some(reg2) },
        ),
{
    let instr = Instruction::<RegW, RegW> { instr: InstrName::Shl, reg1: Some(reg1), reg2: Some(reg2) };
    Segment::new(instr.boxed())
}

/// Left shift between 4-bytes operands
pub fn shll(reg1: Operand<RegL>, reg2: Operand<RegL>) -> (text: Text)
    requires
        reg1.wf(),
        reg2.wf(),
    ensures
        text.holds(
            Instruction::<RegL, RegL> { instr: InstrName::Shl, reg1: Some(reg1), reg2: Some(reg2) },
        ),
{
    let instr = Instruction::<RegL, RegL> { instr: InstrName::Shl, reg1: Some(reg1), reg2: Some(reg2) };
    Segment::new(instr.boxed())
}

/// Left shift between 8-bytes operands
pub fn shlq(reg1: Operand<RegQ>, reg2: Operand<RegQ>) -> (text: Text)
    requires
        reg1.wf(),
        reg2.wf(),
    ensures
        text.holds(
            Instruction::<RegQ, RegQ> { instr: InstrName::Shl, reg1: Some(reg1), reg2: Some(reg2) },
        ),
{
    let instr = Instruction::<RegQ, RegQ> { instr: InstrName::Shl, reg1: Some(reg1), reg2: Some(reg2) };
    Segment::new(instr.boxed())
}

/// Logical right shift between 1-bytes operands
pub fn shrb(reg1: Operand<RegB>, reg2: Operand<RegB>) -> (text: Text)
    requires
        reg1.wf(),
        reg2.wf(),
    ensures
        text.holds(
            Instruction::<RegB, RegB> { instr: InstrName::Shr, reg1: Some(reg1), reg2: Some(reg2) },
        ),
{
    let instr = Instruction::<RegB, RegB> { instr: InstrName::Shr, reg1: Some(reg1), reg2: Some(reg2) };
    Segment::new(instr.boxed())
}

/// Logical right shift between 2-bytes operands
pub fn shrw(reg1: Operand<RegW>, reg2: Operand<RegW>) -> (text: Text)
    requires
        reg1.wf(),
        reg2.wf(),
    ensures
        text.holds(
            Instruction::<RegW, RegW> { instr: InstrName::Shr, reg1: Some(reg1), reg2: Some(reg2) },
        ),
{
    let instr = Instruction::<RegW, RegW> { instr: InstrName::Shr, reg1: Some(reg1), reg2: Some(reg2) };
    Segment::new(instr.boxed())
}

/// Logical right shift between 4-bytes operands
pub fn shrl(reg1: Operand<RegL>, reg2: Operand<RegL>) -> (text: Text)
    requires
        reg1.wf(),
        reg2.wf(),
    ensures
        text.holds(
            Instruction::<RegL, RegL> { instr: InstrName::Shr, reg1: Some(reg1), reg2: Some(reg2) },
        ),
{
    let instr = Instruction::<RegL, RegL> { instr: InstrName::Shr, reg1: Some(reg1), reg2: Some(reg2) };
    Segment::new(instr.boxed())
}

/// Logical right shift between 8-bytes operands
pub fn shrq(reg1: Operand<RegQ>, reg2: Operand<RegQ>) -> (text: Text)
    requires
        reg1.wf(),
        reg2.wf(),
    ensures
        text.holds(
            Instruction::<RegQ, RegQ> { instr: InstrName::Shr, reg1: Some(reg1), reg2: Some(reg2) },
        ),
{
    let instr = Instruction::<RegQ, RegQ> { instr: InstrName::Shr, reg1: Some(reg1), reg2: Some(reg2) };
    Segment::new(instr.boxed())
}

/// Arithmetic right shift between 1-bytes operands
pub fn sarb(reg1: Operand<RegB>, reg2: Operand<RegB>) -> (text: Text)
    requires
        reg1.wf(),
        reg2.wf(),
    ensures
        text.holds(
            Instruction::<RegB, RegB> { instr: InstrName::Sar, reg1: Some(reg1), reg2: Some(reg2) },
        ),
{
    let instr = Instruction::<RegB, RegB> { instr: InstrName::Sar, reg1: Some(reg1), reg2: Some(reg2) };
    Segment::new(instr.boxed())
}

/// Arithmetic right shift between 2-bytes operands
pub fn sarw(reg1: Operand<RegW>, reg2: Operand<RegW>) -> (text: Text)
    requires
        reg1.wf(),
        reg2.wf(),
    ensures
        text.holds(
            Instruction::<RegW, RegW> { instr: InstrName::Sar, reg1: Some(reg1), reg2: Some(reg2) },
        ),
{
    let instr = Instruction::<RegW, RegW> { instr: InstrName::Sar, reg1: Some(reg1), reg2: Some(reg2) };
    Segment::new(instr.boxed())
}

/// Arithmetic right shift between 4-bytes operands
pub fn sarl(reg1: Operand<RegL>, reg2: Operand<RegL>) -> (text: Text)
    requires
        reg1.wf(),
        reg2.wf(),
    ensures
        text.holds(
            Instruction::<RegL, RegL> { instr: InstrName::Sar, reg1: Some(reg1), reg2: Some(reg2) },
        ),
{
    let instr = Instruction::<RegL, RegL> { instr: InstrName::Sar, reg1: Some(reg1), reg2: Some(reg2) };
    Segment::new(instr.boxed())
}

/// Arithmetic right shift between 8-bytes operands
pub fn sarq(reg1: Operand<RegQ>, reg2: Operand<RegQ>) -> (text: Text)
    requires
        reg1.wf(),
        reg2.wf(),
    ensures
        text.holds(
            Instruction::<RegQ, RegQ> { instr: InstrName::Sar, reg1: Some(reg1), reg2: Some(reg2) },
        ),
{
    let instr = Instruction::<RegQ, RegQ> { instr: InstrName::Sar, reg1: Some(reg1), reg2: Some(reg2) };
    Segment::new(instr.boxed())
}

/// logical shift of register by value in CL
pub fn shlb_reg(reg: Operand<RegB>) -> (text: Text)
    requires
        reg.wf(),
    ensures
        text.holds(
            Instruction::<RegB, RegB> { instr: InstrName::Shl, reg1: Some(Operand::Reg(CL)), reg2: Some(reg) },
        ),
{
    let instr = Instruction::<RegB, RegB> { instr: InstrName::Shl, reg1: Some(Operand::Reg(CL)), reg2: Some(reg) };
    Segment::new(instr.boxed())
}

/// logical shift of register by value in CL
pub fn shlw_reg(reg: Operand<RegW>) -> (text: Text)
    requires
        reg.wf(),
    ensures
        text.holds(
            Instruction::<RegB, RegW> { instr: InstrName::Shl, reg1: Some(Operand::Reg(CL)), reg2: Some(reg) },
        ),
{
    let instr = Instruction::<RegB, RegW> { instr: InstrName::Shl, reg1: Some(Operand::Reg(CL)), reg2: Some(reg) };
    Segment::new(instr.boxed())
}

/// logical shift of register by value in CL
pub fn shll_reg(reg: Operand<RegL>) -> (text: Text)
    requires
        reg.wf(),
    ensures
        text.holds(
            Instruction::<RegB, RegL> { instr: InstrName::Shl, reg1: Some(Operand::Reg(CL)), reg2: Some(reg) },
        ),
{
    let instr = Instruction::<RegB, RegL> { instr: InstrName::Shl, reg1: Some(Operand::Reg(CL)), reg2: Some(reg) };
    Segment::new(instr.boxed())
}

/// logical shift of register by value in CL
pub fn shlq_reg(reg: Operand<RegQ>) -> (text: Text)
    requires
        reg.wf(),
    ensures
        text.holds(
            Instruction::<RegB, RegQ> { instr: InstrName::Shl, reg1: Some(Operand::Reg(CL)), reg2: Some(reg) },
        ),
{
    let instr = Instruction::<RegB, RegQ> { instr: InstrName::Shl, reg1: Some(Operand::Reg(CL)), reg2: Some(reg) };
    Segment::new(instr.boxed())
}

/// logical shift of register by value in CL
pub fn shrb_reg(reg: Operand<RegB>) -> (text: Text)
    requires
        reg.wf(),
    ensures
        text.holds(
            Instruction::<RegB, RegB> { instr: InstrName::Shr, reg1: Some(Operand::Reg(CL)), reg2: Some(reg) },
        ),
{
    let instr = Instruction::<RegB, RegB> { instr: InstrName::Shr, reg1: Some(Operand::Reg(CL)), reg2: Some(reg) };
    Segment::new(instr.boxed())
}

/// logical shift of register by value in CL
pub fn shrw_reg(reg: Operand<RegW>) -> (text: Text)
    requires
        reg.wf(),
    ensures
        text.holds(
            Instruction::<RegB, RegW> { instr: InstrName::Shr, reg1: Some(Operand::Reg(CL)), reg2: Some(reg) },
        ),
{
    let instr = Instruction::<RegB, RegW> { instr: InstrName::Shr, reg1: Some(Operand::Reg(CL)), reg2: Some(reg) };
    Segment::new(instr.boxed())
}

/// logical shift of register by value in CL
pub fn shrl_reg(reg: Operand<RegL>) -> (text: Text)
    requires
        reg.wf(),
    ensures
        text.holds(
            Instruction::<RegB, RegL> { instr: InstrName::Shr, reg1: Some(Operand::Reg(CL)), reg2: Some(reg) },
        ),
{
    let instr = Instruction::<RegB, RegL> { instr: InstrName::Shr, reg1: Some(Operand::Reg(CL)), reg2: Some(reg) };
    Segment::new(instr.boxed())
}

/// logical shift of register by value in CL
pub fn shrq_reg(reg: Operand<RegQ>) -> (text: Text)
    requires
        reg.wf(),
    ensures
        text.holds(
            Instruction::<RegB, RegQ> { instr: InstrName::Shr, reg1: Some(Operand::Reg(CL)), reg2: Some(reg) },
        ),
{
    let instr = Instruction::<RegB, RegQ> { instr: InstrName::Shr, reg1: Some(Operand::Reg(CL)), reg2: Some(reg) };
    Segment::new(instr.boxed())
}

// Jumps

/// Call label
pub fn call(label: Label) -> (text: Text)
    ensures
        text.holds(
            Instruction::<RegInv, RegInv> { instr: InstrName::Call(label), reg1: None, reg2: None },
        ),
{
    let instr = Instruction::<RegInv, RegInv> { instr: InstrName::Call(label), reg1: None, reg2: None };
    Segment::new(instr.boxed())
}

/// Call address
pub fn call_star(op: Operand<RegQ>) -> (text: Text)
    requires
        op.wf(),
    ensures
        text.holds(
            Instruction::<RegQ, RegInv> { instr: InstrName::CallStar, reg1: Some(op), reg2: None },
        ),
{
    let instr = Instruction::<RegQ, RegInv> { instr: InstrName::CallStar, reg1: Some(op), reg2: None };
    Segment::new(instr.boxed())
}

/// Leave instruction
pub fn leave() -> (text: Text)
    ensures
        text.holds(
            Instruction::<RegInv, RegInv> { instr: InstrName::Leave, reg1: None, reg2: None },
        ),
{
    let instr = Instruction::<RegInv, RegInv> { instr: InstrName::Leave, reg1: None, reg2: None };
    Segment::new(instr.boxed())
}

/// Equivalent to popq %rip
pub fn ret() -> (text: Text)
    ensures
        text.holds(
            Instruction::<RegInv, RegInv> { instr: InstrName::Ret, reg1: None, reg2: None },
        ),
{
    let instr = Instruction::<RegInv, RegInv> { instr: InstrName::Ret, reg1: None, reg2: None };
    Segment::new(instr.boxed())
}

/// Jump to label
pub fn jmp(label: Label) -> (text: Text)
    ensures
        text.holds(
            Instruction::<RegInv, RegInv> { instr: InstrName::Jump(label), reg1: None, reg2: None },
        ),
{
    let instr = Instruction::<RegInv, RegInv> { instr: InstrName::Jump(label), reg1: None, reg2: None };
    Segment::new(instr.boxed())
}

/// Jump to address
pub fn jmp_star(op: Operand<RegQ>) -> (text: Text)
    requires
        op.wf(),
    ensures
        text.holds(
            Instruction::<RegQ, RegInv> { instr: InstrName::JumpStar, reg1: Some(op), reg2: None },
        ),
{
    let instr = Instruction::<RegQ, RegInv> { instr: InstrName::JumpStar, reg1: Some(op), reg2: None };
    Segment::new(instr.boxed())
}

/// Conditional jump
pub fn jcc(cond: Cond, label: Label) -> (text: Text)
    ensures
        text.holds(
            Instruction::<RegInv, RegInv> { instr: InstrName::CondJump(cond, label), reg1: None, reg2: None },
        ),
{
    let instr = Instruction::<RegInv, RegInv> { instr: InstrName::CondJump(cond, label), reg1: None, reg2: None };
    Segment::new(instr.boxed())
}

/// Conditional jump if zero
pub fn jz(label: Label) -> (text: Text)
    ensures
        text.holds(
            Instruction::<RegInv, RegInv> { instr: InstrName::CondJump(Cond::Z, label), reg1: None, reg2: None },
        ),
{
    let instr = Instruction::<RegInv, RegInv> { instr: InstrName::CondJump(Cond::Z, label), reg1: None, reg2: None };
    Segment::new(instr.boxed())
}

/// Conditional jump if not zero
pub fn jnz(label: Label) -> (text: Text)
    ensures
        text.holds(
            Instruction::<RegInv, RegInv> { instr: InstrName::CondJump(Cond::NZ, label), reg1: None, reg2: None },
        ),
{
    let instr = Instruction::<RegInv, RegInv> { instr: InstrName::CondJump(Cond::NZ, label), reg1: None, reg2: None };
    Segment::new(instr.boxed())
}

/// Conditional jump if above equal
pub fn jae(label: Label) -> (text: Text)
    ensures
        text.holds(
            Instruction::<RegInv, RegInv> { instr: InstrName::CondJump(Cond::AE, label), reg1: None, reg2: None },
        ),
{
    let instr = Instruction::<RegInv, RegInv> { instr: InstrName::CondJump(Cond::AE, label), reg1: None, reg2: None };
    Segment::new(instr.boxed())
}

// Conditions

/// Comparison between 1-bytes operands
pub fn cmpb(reg1: Operand<RegB>, reg2: Operand<RegB>) -> (text: Text)
    requires
        reg1.wf(),
        reg2.wf(),
    ensures
        text.holds(
            Instruction::<RegB, RegB> { instr: InstrName::Cmp, reg1: Some(reg1), reg2: Some(reg2) },
        ),
{
    let instr = Instruction::<RegB, RegB> { instr: InstrName::Cmp, reg1: Some(reg1), reg2: Some(reg2) };
    Segment::new(instr.boxed())
}

/// Comparison between 2-bytes operands
pub fn cmpw(reg1: Operand<RegW>, reg2: Operand<RegW>) -> (text: Text)
    requires
        reg1.wf(),
        reg2.wf(),
    ensures
        text.holds(
            Instruction::<RegW, RegW> { instr: InstrName::Cmp, reg1: Some(reg1), reg2: Some(reg2) },
        ),
{
    let instr = Instruction::<RegW, RegW> { instr: InstrName::Cmp, reg1: Some(reg1), reg2: Some(reg2) };
    Segment::new(instr.boxed())
}

/// Comparison between 4-bytes operands
pub fn cmpl(reg1: Operand<RegL>, reg2: Operand<RegL>) -> (text: Text)
    requires
        reg1.wf(),
        reg2.wf(),
    ensures
        text.holds(
            Instruction::<RegL, RegL> { instr: InstrName::Cmp, reg1: Some(reg1), reg2: Some(reg2) },
        ),
{
    let instr = Instruction::<RegL, RegL> { instr: InstrName::Cmp, reg1: Some(reg1), reg2: Some(reg2) };
    Segment::new(instr.boxed())
}

/// Comparison between 8-bytes operands
pub fn cmpq(reg1: Operand<RegQ>, reg2: Operand<RegQ>) -> (text: Text)
    requires
        reg1.wf(),
        reg2.wf(),
    ensures
        text.holds(
            Instruction::<RegQ, RegQ> { instr: InstrName::Cmp, reg1: Some(reg1), reg2: Some(reg2) },
        ),
{
    let instr = Instruction::<RegQ, RegQ> { instr: InstrName::Cmp, reg1: Some(reg1), reg2: Some(reg2) };
    Segment::new(instr.boxed())
}

/// Bitwise test between 1-bytes operands
pub fn testb(reg1: Operand<RegB>, reg2: Operand<RegB>) -> (text: Text)
    requires
        reg1.wf(),
        reg2.wf(),
    ensures
        text.holds(
            Instruction::<RegB, RegB> { instr: InstrName::Test, reg1: Some(reg1), reg2: Some(reg2) },
        ),
{
    let instr = Instruction::<RegB, RegB> { instr: InstrName::Test, reg1: Some(reg1), reg2: Some(reg2) };
    Segment::new(instr.boxed())
}

/// Bitwise test between 2-bytes operands
pub fn testw(reg1: Operand<RegW>, reg2: Operand<RegW>) -> (text: Text)
    requires
        reg1.wf(),
        reg2.wf(),
    ensures
        text.holds(
            Instruction::<RegW, RegW> { instr: InstrName::Test, reg1: Some(reg1), reg2: Some(reg2) },
        ),
{
    let instr = Instruction::<RegW, RegW> { instr: InstrName::Test, reg1: Some(reg1), reg2: Some(reg2) };
    Segment::new(instr.boxed())
}

/// Bitwise test between 4-bytes operands
pub fn testl(reg1: Operand<RegL>, reg2: Operand<RegL>) -> (text: Text)
    requires
        reg1.wf(),
        reg2.wf(),
    ensures
        text.holds(
            Instruction::<RegL, RegL> { instr: InstrName::Test, reg1: Some(reg1), reg2: Some(reg2) },
        ),
{
    let instr = Instruction::<RegL, RegL> { instr: InstrName::Test, reg1: Some(reg1), reg2: Some(reg2) };
    Segment::new(instr.boxed())
}

/// Bitwise test between 8-bytes operands
pub fn testq(reg1: Operand<RegQ>, reg2: Operand<RegQ>) -> (text: Text)
    requires
        reg1.wf(),
        reg2.wf(),
    ensures
        text.holds(
            Instruction::<RegQ, RegQ> { instr: InstrName::Test, reg1: Some(reg1), reg2: Some(reg2) },
        ),
{
    let instr = Instruction::<RegQ, RegQ> { instr: InstrName::Test, reg1: Some(reg1), reg2: Some(reg2) };
    Segment::new(instr.boxed())
}

/// Conditionnal set
pub fn set(cond: Cond, reg: Operand<RegB>) -> (text: Text)
    requires
        reg.wf(),
    ensures
        text.holds(
            Instruction::<RegB, RegInv> { instr: InstrName::SetCond(cond), reg1: Some(reg), reg2: None },
        ),
{
    let instr = Instruction::<RegB, RegInv> { instr: InstrName::SetCond(cond), reg1: Some(reg), reg2: None };
    Segment::new(instr.boxed())
}

/// Conditional move of 2-bytes operands
pub fn cmovw(cond: Cond, reg1: Operand<RegW>, reg2: Operand<RegW>) -> (text: Text)
    requires
        reg1.wf(),
        reg2.wf(),
    ensures
        text.holds(
            Instruction::<RegW, RegW> { instr: InstrName::Cmov(cond), reg1: Some(reg1), reg2: Some(reg2) },
        ),
{
    let instr = Instruction::<RegW, RegW> { instr: InstrName::Cmov(cond), reg1: Some(reg1), reg2: Some(reg2) };
    Segment::new(instr.boxed())
}

/// Conditional move of 4-bytes operands
pub fn cmovl(cond: Cond, reg1: Operand<RegL>, reg2: Operand<RegL>) -> (text: Text)
    requires
        reg1.wf(),
        reg2.wf(),
    ensures
        text.holds(
            Instruction::<RegL, RegL> { instr: InstrName::Cmov(cond), reg1: Some(reg1), reg2: Some(reg2) },
        ),
{
    let instr = Instruction::<RegL, RegL> { instr: InstrName::Cmov(cond), reg1: Some(reg1), reg2: Some(reg2) };
    Segment::new(instr.boxed())
}

/// Conditional move of 8-bytes operands
pub fn cmovq(cond: Cond, reg1: Operand<RegQ>, reg2: Operand<RegQ>) -> (text: Text)
    requires
        reg1.wf(),
        reg2.wf(),
    ensures
        text.holds(
            Instruction::<RegQ, RegQ> { instr: InstrName::Cmov(cond), reg1: Some(reg1), reg2: Some(reg2) },
        ),
{
    let instr = Instruction::<RegQ, RegQ> { instr: InstrName::Cmov(cond), reg1: Some(reg1), reg2: Some(reg2) };
    Segment::new(instr.boxed())
}

// Stack handling

/// Push 8-bytes on stack
pub fn pushq(op: Operand<RegQ>) -> (text: Text)
    requires
        op.wf(),
    ensures
        text.holds(
            Instruction::<RegQ, RegInv> { instr: InstrName::Push, reg1: Some(op), reg2: None },
        ),
{
    let instr = Instruction::<RegQ, RegInv> { instr: InstrName::Push, reg1: Some(op), reg2: None };
    Segment::new(instr.boxed())
}

/// Pop 8-bytes from stack
pub fn popq(reg: RegQ) -> (text: Text)
    ensures
        text.holds(
            Instruction::<RegQ, RegInv> { instr: InstrName::Pop, reg1: Some(Operand::Reg(reg)), reg2: None },
        ),
{
    let instr = Instruction::<RegQ, RegInv> { instr: InstrName::Pop, reg1: Some(Operand::Reg(reg)), reg2: None };
    Segment::new(instr.boxed())
}

// Various others

/// nop instruction (does nothing)
pub fn nop() -> (text: Text)
    ensures
        text.holds(
            Instruction::<RegInv, RegInv> { instr: InstrName::Nop, reg1: None, reg2: None },
        ),
{
    let instr = Instruction::<RegInv, RegInv> { instr: InstrName::Nop, reg1: None, reg2: None };
    Segment::new(instr.boxed())
}

} // verus!
