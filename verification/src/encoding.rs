//! The byte layout of one machine instruction: prefixes, opcode, ModRM, SIB,
//! displacement and immediate.

use vstd::prelude::*;
use crate::reg::{valid_scale, Operand, RegInv, RegQ};
use crate::traits::Reg;

verus! {

/// Whether `v` is a signed 8-bit value.
pub open spec fn fits_i8(v: int) -> bool {
    -0x80 <= v <= 0x7f
}

/// Whether `v` is a signed 16-bit value.
pub open spec fn fits_i16(v: int) -> bool {
    -0x8000 <= v <= 0x7fff
}

/// Whether `v` is a signed 32-bit value.
pub open spec fn fits_i32(v: int) -> bool {
    -0x8000_0000 <= v <= 0x7fff_ffff
}

/// A byte made of a 2-bit, a 3-bit and a 3-bit field, the first one highest:
/// the shape of both the ModRM byte (mod, reg, rm) and the SIB byte (scale, index, base).
pub open spec fn packed(top: int, mid: int, low: int) -> u8 {
    (top * 64 + mid * 8 + low) as u8
}

/// The `n` low bytes of `u`, lowest first.
pub open spec fn le_bytes(u: nat, n: nat) -> Seq<u8>
    decreases n,
{
    if n == 0 {
        Seq::empty()
    } else {
        seq![(u % 256) as u8] + le_bytes(u / 256, (n - 1) as nat)
    }
}

/// Two to the power of `8 * n`, for the widths that occur: 1, 2, 4 and 8 bytes.
pub open spec fn modulus(n: nat) -> int {
    if n == 1 {
        0x100
    } else if n == 2 {
        0x1_0000
    } else if n == 4 {
        0x1_0000_0000
    } else {
        0x1_0000_0000_0000_0000
    }
}

/// Whether `v` is a signed value of `n` bytes.
pub open spec fn fits(v: int, n: nat) -> bool {
    -modulus(n) <= 2 * v < modulus(n)
}

/// The signed value `v` in two's complement on `n` bytes, lowest byte first.
pub open spec fn signed_le(v: int, n: nat) -> Seq<u8> {
    le_bytes((if v < 0 { v + modulus(n) } else { v }) as nat, n)
}

/// Number of the addressing mode of a memory operand, as the two high bits of ModRM hold it:
/// 0 for no displacement, 1 for one byte of it, 2 for four.
/// Base codes 4 and 5 have no form without displacement, and an indexed address
/// always takes four bytes.
pub open spec fn mem_mode(disp: int, base: u8, indexed: bool) -> int {
    if indexed {
        2
    } else if disp == 0 && base != 4 && base != 5 {
        0
    } else if fits_i8(disp) {
        1
    } else {
        2
    }
}

/// The two-bit exponent of a scale factor.
pub open spec fn scale_exponent(scale: u8) -> int {
    if scale == 1 {
        0
    } else if scale == 2 {
        1
    } else if scale == 4 {
        2
    } else {
        3
    }
}

/// The SIB byte, where there is one: with an index, or when the base has code 4,
/// which in the rm field announces a SIB byte. Index code 4 stands for no index.
pub open spec fn sib(base: u8, index: Option<(u8, u8)>) -> Seq<u8> {
    match index {
        Some((code, scale)) => seq![packed(scale_exponent(scale), code as int, base as int)],
        None => if base == 4 {
            seq![packed(0, 4, 4)]
        } else {
            Seq::empty()
        },
    }
}

/// The displacement bytes that a mode calls for.
pub open spec fn displacement(mode: int, disp: int) -> Seq<u8> {
    if mode == 0 {
        Seq::empty()
    } else if mode == 1 {
        signed_le(disp, 1)
    } else {
        signed_le(disp, 4)
    }
}

/// ModRM, SIB and displacement of a memory operand. `reg` is the content of the reg field,
/// `base` the code of the base register, `index` the code and the scale of the index register.
pub open spec fn mem_bytes(reg: u8, disp: int, base: u8, index: Option<(u8, u8)>) -> Seq<u8> {
    let mode = mem_mode(disp, base, index is Some);
    let rm = if index is Some {
        4
    } else {
        base as int
    };
    seq![packed(mode, reg as int, rm)] + sib(base, index) + displacement(mode, disp)
}

/// ModRM of a register operand.
pub open spec fn direct_bytes(reg: u8, rm: u8) -> Seq<u8> {
    seq![packed(3, reg as int, rm as int)]
}

/// Packs three fields into one byte.
pub fn pack(top: u8, mid: u8, low: u8) -> (b: u8)
    requires
        top < 4,
        mid < 8,
        low < 8,
    ensures
        b == packed(top as int, mid as int, low as int),
{
    let b: u8 = (top << 6) | (mid << 3) | low;
    assert(b == top * 64 + mid * 8 + low) by (bit_vector)
        requires
            top < 4,
            mid < 8,
            low < 8,
            b == (top << 6) | (mid << 3) | low,
    ;
    b
}

/// Appends the `n` low bytes of `u`, lowest first.
pub fn push_le(out: &mut Vec<u8>, u: u64, n: usize)
    ensures
        final(out)@ == old(out)@ + le_bytes(u as nat, n as nat),
    decreases n,
{
    if n > 0 {
        out.push((u % 256) as u8);
        push_le(out, u / 256, n - 1);
        assert(out@ =~= old(out)@ + le_bytes(u as nat, n as nat));
    } else {
        assert(out@ =~= old(out)@ + le_bytes(u as nat, n as nat));
    }
}

/// Appends a signed value in two's complement on `n` bytes, lowest first.
pub fn push_signed_le(out: &mut Vec<u8>, v: i64, n: usize)
    requires
        n == 1 || n == 2 || n == 4 || n == 8,
        fits(v as int, n as nat),
    ensures
        final(out)@ == old(out)@ + signed_le(v as int, n as nat),
{
    let u: u64 = if v >= 0 {
        v as u64
    } else if n == 8 {
        u64::MAX - ((-(v + 1)) as u64)
    } else {
        let m: i64 = if n == 1 {
            0x100
        } else if n == 2 {
            0x1_0000
        } else {
            0x1_0000_0000
        };
        (v + m) as u64
    };
    push_le(out, u, n);
}

/// REX prefix: `w` selects 64-bit operands, `r`, `x` and `b` extend the reg field,
/// the index and the rm field or base to the registers r8 to r15.
pub struct REX {
    pub w: bool,
    pub r: bool,
    pub x: bool,
    pub b: bool,
}

impl REX {
    /// The prefix byte: `0100wrxb`.
    pub open spec fn byte(&self) -> u8 {
        (0x40 + (if self.w {
            8int
        } else {
            0
        }) + (if self.r {
            4int
        } else {
            0
        }) + (if self.x {
            2int
        } else {
            0
        }) + (if self.b {
            1int
        } else {
            0
        })) as u8
    }

    /// The prefix is only written when it says something.
    pub open spec fn required(&self) -> bool {
        self.w || self.r || self.x || self.b
    }

    /// The bytes that the prefix takes in the instruction: one or none.
    pub open spec fn bytes(&self) -> Seq<u8> {
        if self.required() {
            seq![self.byte()]
        } else {
            Seq::empty()
        }
    }

    /// A prefix with no bit set.
    pub fn new() -> (rex: Self)
        ensures
            rex == (REX { w: false, r: false, x: false, b: false }),
    {
        Self { w: false, r: false, x: false, b: false }
    }

    /// Whether any bit is set.
    pub fn needed(&self) -> (b: bool)
        ensures
            b == self.required(),
    {
        self.w || self.r || self.x || self.b
    }

    /// The prefix byte.
    pub fn as_byte(&self) -> (out: u8)
        ensures
            out == self.byte(),
    {
        let w: u8 = if self.w {
            0x08
        } else {
            0
        };
        let r: u8 = if self.r {
            0x04
        } else {
            0
        };
        let x: u8 = if self.x {
            0x02
        } else {
            0
        };
        let b: u8 = if self.b {
            0x01
        } else {
            0
        };
        let out: u8 = 0x40 | w | r | x | b;
        assert(out == 0x40 + w + r + x + b) by (bit_vector)
            requires
                w == 0 || w == 8,
                r == 0 || r == 4,
                x == 0 || x == 2,
                b == 0 || b == 1,
                out == 0x40 | w | r | x | b,
        ;
        out
    }
}

/// Immediate operand of an instruction, by width. The second field is the opcode
/// extension that takes the place of a register in the reg field of ModRM.
pub enum Imm {
    NoImm(u8),
    I8(i8, u8),
    I16(i16, u8),
    I32(i32, u8),
    I64(i64, u8),
}

impl Imm {
    /// The opcode extension.
    pub open spec fn ext(&self) -> u8 {
        match self {
            Imm::NoImm(e) => *e,
            Imm::I8(_, e) => *e,
            Imm::I16(_, e) => *e,
            Imm::I32(_, e) => *e,
            Imm::I64(_, e) => *e,
        }
    }

    /// The bytes of the immediate, lowest first.
    pub open spec fn bytes(&self) -> Seq<u8> {
        match self {
            Imm::NoImm(_) => Seq::empty(),
            Imm::I8(v, _) => signed_le(*v as int, 1),
            Imm::I16(v, _) => signed_le(*v as int, 2),
            Imm::I32(v, _) => signed_le(*v as int, 4),
            Imm::I64(v, _) => signed_le(*v as int, 8),
        }
    }

    /// The opcode extension.
    pub fn extension(&self) -> (e: u8)
        ensures
            e == self.ext(),
    {
        match self {
            Imm::NoImm(e) => *e,
            Imm::I8(_, e) => *e,
            Imm::I16(_, e) => *e,
            Imm::I32(_, e) => *e,
            Imm::I64(_, e) => *e,
        }
    }

    /// Appends the bytes of the immediate.
    pub fn write_in(&self, out: &mut Vec<u8>)
        ensures
            final(out)@ == old(out)@ + self.bytes(),
    {
        match self {
            Imm::NoImm(_) => {
                assert(out@ =~= old(out)@ + self.bytes());
            },
            Imm::I8(v, _) => push_signed_le(out, *v as i64, 1),
            Imm::I16(v, _) => push_signed_le(out, *v as i64, 2),
            Imm::I32(v, _) => push_signed_le(out, *v as i64, 4),
            Imm::I64(v, _) => push_signed_le(out, *v, 8),
        }
    }
}

/// What the rm field of ModRM names: a register of the operand's own family,
/// or the 64-bit base register of a memory operand.
pub enum RegOrQ<R: Reg> {
    R(R),
    Q(RegQ),
}

impl<R: Reg> RegOrQ<R> {
    /// Extension flag and 3-bit code of the register.
    pub open spec fn bits(&self) -> (bool, u8) {
        match self {
            RegOrQ::R(r) => r.bits(),
            RegOrQ::Q(r) => r.bits(),
        }
    }

    /// Extension flag and 3-bit code of the register.
    pub fn to_bits(&self) -> (r: (bool, u8))
        ensures
            r == self.bits(),
            r.1 < 8,
    {
        match self {
            RegOrQ::R(r) => {
                proof {
                    r.code_in_range();
                }
                r.to_bits()
            },
            RegOrQ::Q(r) => {
                proof {
                    r.code_in_range();
                }
                r.to_bits()
            },
        }
    }
}

/// Displacement of a memory operand, with index register and scale where it has them.
pub type Address = Option<(i64, Option<(RegQ, u8)>)>;

impl<T: Reg> Operand<T> {
    /// The register that the rm field names for this operand.
    pub open spec fn target(&self) -> RegOrQ<T>
        recommends
            self.rm(),
    {
        match self {
            Operand::Reg(r) => RegOrQ::R(*r),
            Operand::Addr(_, base, _, _) => RegOrQ::Q(*base),
            _ => RegOrQ::Q(RegQ::Rax),
        }
    }

    /// Displacement, index and scale of a memory operand; nothing for a register.
    pub open spec fn address(&self) -> Address {
        match self {
            Operand::Addr(disp, _, Some(index), scale) => Some((*disp, Some((*index, *scale)))),
            Operand::Addr(disp, _, None, _) => Some((*disp, None)),
            _ => None,
        }
    }
}

/// One instruction with a ModRM byte, field by field.
pub struct ByteCode<R1: Reg, R2: Reg> {
    /// Operand-size prefix `0x66`, for 16-bit operands
    pub small_reg_flag: bool,
    /// Escape byte before the opcode
    pub prefix: Option<u8>,
    pub op_code: u8,
    /// Only `w` is read: the other bits follow from the registers
    pub rex: REX,
    /// Register of the reg field; without one the field holds the opcode extension of `imm`
    pub reg: Option<R1>,
    pub rm: RegOrQ<R2>,
    pub addr: Address,
    pub imm: Imm,
}

impl<R1: Reg, R2: Reg> ByteCode<R1, R2> {
    /// The rm field names an operand register exactly when there is no address;
    /// an index has a scale of 1, 2, 4 or 8 and is not `%rsp`;
    /// an opcode extension fits the reg field.
    pub open spec fn wf(&self) -> bool {
        &&& self.rm is R <==> self.addr is None
        &&& match self.addr {
            Some((_, Some((index, scale)))) => valid_scale(scale) && index != RegQ::Rsp,
            _ => true,
        }
        &&& self.reg is None ==> self.imm.ext() < 8
    }

    /// The rm operand can be written: a register whose code does not depend on the
    /// REX prefix, or an address with a displacement of 32 bits and an index below r8.
    pub open spec fn rm_encodable(&self) -> bool {
        &&& match self.rm {
            RegOrQ::R(r) => r.rex_free(),
            RegOrQ::Q(_) => true,
        }
        &&& match self.addr {
            Some((disp, Some((index, _)))) => fits_i32(disp as int) && !index.bits().0,
            Some((disp, None)) => fits_i32(disp as int),
            None => true,
        }
    }

    /// What this encoder writes: an rm operand as above, and in the reg field
    /// a register whose code does not depend on the REX prefix.
    pub open spec fn encodable(&self) -> bool {
        &&& match self.reg {
            Some(r) => r.rex_free(),
            None => true,
        }
        &&& self.rm_encodable()
    }

    /// Content of the reg field of ModRM, with the extension flag that goes to REX.R.
    pub open spec fn reg_field(&self) -> (bool, u8) {
        match self.reg {
            Some(r) => r.bits(),
            None => (false, self.imm.ext()),
        }
    }

    /// ModRM, SIB and displacement.
    pub open spec fn rm_bytes(&self) -> Seq<u8> {
        match self.addr {
            None => direct_bytes(self.reg_field().1, self.rm.bits().1),
            Some((disp, None)) => mem_bytes(self.reg_field().1, disp as int, self.rm.bits().1, None),
            Some((disp, Some((index, scale)))) => mem_bytes(
                self.reg_field().1,
                disp as int,
                self.rm.bits().1,
                Some((index.bits().1, scale)),
            ),
        }
    }

    /// Operand-size prefix, REX prefix, escape byte and opcode.
    pub open spec fn head_bytes(&self) -> Seq<u8> {
        (if self.small_reg_flag {
            seq![0x66u8]
        } else {
            Seq::empty()
        }) + (REX { w: self.rex.w, r: self.reg_field().0, x: false, b: self.rm.bits().0 }).bytes()
            + (match self.prefix {
            Some(escape) => seq![escape],
            None => Seq::empty(),
        }) + seq![self.op_code]
    }

    /// The instruction: prefixes and opcode, ModRM with SIB and displacement, immediate.
    pub open spec fn bytes(&self) -> Seq<u8> {
        self.head_bytes() + self.rm_bytes() + self.imm.bytes()
    }

    /// The bytes of the instruction where it can be encoded.
    pub open spec fn encoding(&self) -> Option<Seq<u8>> {
        if self.encodable() {
            Some(self.bytes())
        } else {
            None
        }
    }

    /// An instruction with a register in the reg field.
    pub fn new(rex: REX, op_code: u8, reg: R1, rm: &Operand<R2>) -> (code: Self)
        requires
            rm.rm(),
        ensures
            code == (ByteCode {
                small_reg_flag: false,
                prefix: None,
                op_code,
                rex,
                reg: Some(reg),
                rm: rm.target(),
                addr: rm.address(),
                imm: Imm::NoImm(0),
            }),
            rm.wf() ==> code.wf(),
    {
        let mut addr: Address = None;
        let rm = match rm {
            Operand::Addr(offset, base, None, _) => {
                addr = Some((*offset, None));
                RegOrQ::Q(*base)
            },
            Operand::Addr(offset, base, Some(ind), scale) => {
                addr = Some((*offset, Some((*ind, *scale))));
                RegOrQ::Q(*base)
            },
            Operand::Reg(rm) => RegOrQ::R(*rm),
            _ => RegOrQ::Q(RegQ::Rax),
        };
        Self {
            small_reg_flag: false,
            prefix: None,
            op_code,
            rex,
            reg: Some(reg),
            rm,
            addr,
            imm: Imm::NoImm(0),
        }
    }

    /// Appends the prefixes and the opcode.
    fn write_head(&self, vec: &mut Vec<u8>, r: bool, b: bool)
        requires
            r == self.reg_field().0,
            b == self.rm.bits().0,
        ensures
            final(vec)@ == old(vec)@ + self.head_bytes(),
    {
        if self.small_reg_flag {
            vec.push(0x66);
        }
        let rex = REX { w: self.rex.w, r, x: false, b };
        if rex.needed() {
            vec.push(rex.as_byte());
        }
        if let Some(pref) = self.prefix {
            vec.push(pref);
        }
        vec.push(self.op_code);
        assert(vec@ =~= old(vec)@ + self.head_bytes());
    }

    /// Appends ModRM, SIB and displacement of a memory operand.
    fn write_mem(&self, vec: &mut Vec<u8>, reg: u8, base: u8) -> (ok: bool)
        requires
            self.wf(),
            self.addr is Some,
            reg == self.reg_field().1,
            reg < 8,
            base == self.rm.bits().1,
            base < 8,
        ensures
            ok == self.rm_encodable(),
            ok ==> final(vec)@ == old(vec)@ + self.rm_bytes(),
    {
        match &self.addr {
            None => false,
            Some((offset, None)) => {
                let offset: i64 = *offset;
                if offset < -0x8000_0000 || offset > 0x7fff_ffff {
                    return false;
                }
                if offset == 0 && base != 4 && base != 5 {
                    vec.push(pack(0, reg, base));
                } else {
                    let short: bool = -0x80 <= offset && offset <= 0x7f;
                    let mode: u8 = if short {
                        1
                    } else {
                        2
                    };
                    vec.push(pack(mode, reg, base));
                    if base == 4 {
                        vec.push(pack(0, 4, 4));
                    }
                    let width: usize = if short {
                        1
                    } else {
                        4
                    };
                    push_signed_le(vec, offset, width);
                }
                assert(vec@ =~= old(vec)@ + self.rm_bytes());
                true
            },
            Some((offset, Some((ind, scale)))) => {
                let offset: i64 = *offset;
                let exponent: u8 = match *scale {
                    1 => 0,
                    2 => 1,
                    4 => 2,
                    _ => 3,
                };
                let (x, ind): (bool, u8) = ind.to_bits();
                if x || offset < -0x8000_0000 || offset > 0x7fff_ffff {
                    return false;
                }
                vec.push(pack(2, reg, 4));
                vec.push(pack(exponent, ind, base));
                push_signed_le(vec, offset, 4);
                assert(vec@ =~= old(vec)@ + self.rm_bytes());
                true
            },
        }
    }

    /// The bytes of the instruction, or nothing where it cannot be encoded.
    pub fn as_bytes(&self) -> (out: Option<Vec<u8>>)
        requires
            self.wf(),
        ensures
            out is Some <==> self.encodable(),
            out matches Some(v) ==> v@ == self.bytes(),
    {
        let mut vec: Vec<u8> = Vec::new();
        let (r, reg): (bool, u8) = match &self.reg {
            None => (false, self.imm.extension()),
            Some(reg) => {
                if !reg.is_rex_free() {
                    return None;
                }
                proof {
                    reg.code_in_range();
                }
                reg.to_bits()
            },
        };
        let (b, base): (bool, u8) = self.rm.to_bits();
        self.write_head(&mut vec, r, b);
        match &self.rm {
            RegOrQ::R(rm) => {
                if !rm.is_rex_free() {
                    return None;
                }
                vec.push(pack(3, reg, base));
            },
            RegOrQ::Q(_) => {
                if !self.write_mem(&mut vec, reg, base) {
                    return None;
                }
            },
        }
        assert(vec@ =~= self.head_bytes() + self.rm_bytes());
        self.imm.write_in(&mut vec);
        assert(vec@ =~= self.bytes());
        Some(vec)
    }
}

impl<R2: Reg> ByteCode<RegInv, R2> {
    /// An instruction whose reg field holds an opcode extension.
    pub fn only_rm(rex: REX, rm: &Operand<R2>) -> (code: Self)
        requires
            rm.rm(),
        ensures
            code == (ByteCode::<RegInv, R2> {
                small_reg_flag: false,
                prefix: None,
                op_code: 0,
                rex,
                reg: None,
                rm: rm.target(),
                addr: rm.address(),
                imm: Imm::NoImm(0),
            }),
            rm.wf() ==> code.wf(),
    {
        let mut addr: Address = None;
        let rm = match rm {
            Operand::Addr(offset, base, None, _) => {
                addr = Some((*offset, None));
                RegOrQ::Q(*base)
            },
            Operand::Addr(offset, base, Some(ind), scale) => {
                addr = Some((*offset, Some((*ind, *scale))));
                RegOrQ::Q(*base)
            },
            Operand::Reg(rm) => RegOrQ::R(*rm),
            _ => RegOrQ::Q(RegQ::Rax),
        };
        Self {
            small_reg_flag: false,
            prefix: None,
            op_code: 0,
            rex,
            reg: None,
            rm,
            addr,
            imm: Imm::NoImm(0),
        }
    }
}

} // verus!
