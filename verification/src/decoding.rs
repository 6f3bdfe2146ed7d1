//! Reading back what the encoder wrote: the operands that ModRM, SIB and
//! displacement stand for.

use vstd::prelude::*;
use crate::encoding::{
    direct_bytes, displacement, fits_i16, fits_i32, fits_i8, le_bytes, mem_bytes, mem_mode,
    modulus, packed, scale_exponent, sib, signed_le, ByteCode, REX,
};
use crate::reg::valid_scale;
use crate::traits::Reg;

verus! {

/// What the rm field of an instruction names.
pub enum Place {
    /// The register with this code
    Register(u8),
    /// The memory at `disp` plus the base register plus, where there is one, the
    /// index register (its code first) times the scale
    Memory { disp: int, base: u8, index: Option<(u8, u8)> },
}

/// The two high bits of a ModRM or SIB byte.
pub open spec fn field_top(b: u8) -> int {
    b as int / 64
}

/// The three middle bits of a ModRM or SIB byte.
pub open spec fn field_mid(b: u8) -> int {
    (b as int / 8) % 8
}

/// The three low bits of a ModRM or SIB byte.
pub open spec fn field_low(b: u8) -> int {
    b as int % 8
}

/// The number that bytes hold, lowest byte first.
pub open spec fn from_le(bytes: Seq<u8>) -> nat
    decreases bytes.len(),
{
    if bytes.len() == 0 {
        0
    } else {
        bytes[0] as nat + 256 * from_le(bytes.drop_first())
    }
}

/// The signed number that one, two, four or eight bytes hold in two's complement.
pub open spec fn signed_value(bytes: Seq<u8>) -> int {
    let u = from_le(bytes) as int;
    if 2 * u >= modulus(bytes.len()) {
        u - modulus(bytes.len())
    } else {
        u
    }
}

/// The scale factor that a two-bit exponent stands for.
pub open spec fn scale_of(exponent: int) -> u8 {
    if exponent == 0 {
        1
    } else if exponent == 1 {
        2
    } else if exponent == 2 {
        4
    } else {
        8
    }
}

/// Reads ModRM, SIB and displacement from the front of `bytes`: the content of the
/// reg field, the operand that the rm field names, and the number of bytes read.
/// Nothing is read from the one form that the encoder never writes, the mode
/// without displacement on base code 5.
pub open spec fn read_rm(bytes: Seq<u8>) -> Option<(u8, Place, nat)> {
    if bytes.len() < 1 {
        None
    } else {
        let mode = field_top(bytes[0]);
        let reg = field_mid(bytes[0]) as u8;
        let rm = field_low(bytes[0]);
        if mode == 3 {
            Some((reg, Place::Register(rm as u8), 1))
        } else {
            let has_sib = rm == 4;
            let start: nat = if has_sib {
                2
            } else {
                1
            };
            let width: nat = if mode == 0 {
                0
            } else if mode == 1 {
                1
            } else {
                4
            };
            if bytes.len() < start + width {
                None
            } else {
                let base = if has_sib {
                    field_low(bytes[1])
                } else {
                    rm
                };
                if mode == 0 && base == 5 {
                    None
                } else {
                    let index = if has_sib && field_mid(bytes[1]) != 4 {
                        Some((field_mid(bytes[1]) as u8, scale_of(field_top(bytes[1]))))
                    } else {
                        None
                    };
                    let disp = if width == 0 {
                        0
                    } else {
                        signed_value(bytes.subrange(start as int, (start + width) as int))
                    };
                    Some((reg, Place::Memory { disp, base: base as u8, index }, start + width))
                }
            }
        }
    }
}

/// A signed value of one, two or four bytes is read back from its bytes.
pub proof fn lemma_signed_round_trip(v: int, n: nat)
    requires
        n == 1 || n == 2 || n == 4,
        n == 1 ==> fits_i8(v),
        n == 2 ==> fits_i16(v),
        n == 4 ==> fits_i32(v),
    ensures
        signed_le(v, n).len() == n,
        signed_value(signed_le(v, n)) == v,
{
    let u: nat = (if v < 0 {
        v + modulus(n)
    } else {
        v
    }) as nat;
    let b = le_bytes(u, n);
    reveal_with_fuel(le_bytes, 5);
    reveal_with_fuel(from_le, 5);
    if n == 1 {
        assert(b =~= seq![(u % 256) as u8]);
        assert(b.drop_first() =~= Seq::<u8>::empty());
        assert(from_le(b) == u);
    } else if n == 2 {
        let b0 = (u % 256) as u8;
        let b1 = ((u / 256) % 256) as u8;
        assert(b =~= seq![b0, b1]);
        assert(b.drop_first() =~= seq![b1]);
        assert(b.drop_first().drop_first() =~= Seq::<u8>::empty());
        assert(from_le(b) == b0 + 256 * (b1 as nat));
        assert(from_le(b) == u);
    } else {
        let b0 = (u % 256) as u8;
        let b1 = ((u / 256) % 256) as u8;
        let b2 = ((u / 256 / 256) % 256) as u8;
        let b3 = ((u / 256 / 256 / 256) % 256) as u8;
        assert(b =~= seq![b0, b1, b2, b3]);
        assert(b.drop_first() =~= seq![b1, b2, b3]);
        assert(b.drop_first().drop_first() =~= seq![b2, b3]);
        assert(b.drop_first().drop_first().drop_first() =~= seq![b3]);
        assert(b.drop_first().drop_first().drop_first().drop_first() =~= Seq::<u8>::empty());
        assert(from_le(b) == b0 + 256 * (b1 + 256 * (b2 + 256 * (b3 as nat))));
        assert(from_le(b) == u);
    }
}

/// A register operand is read back as the encoder wrote it, whatever follows.
pub proof fn lemma_read_register(reg: u8, rm: u8, rest: Seq<u8>)
    requires
        reg < 8,
        rm < 8,
    ensures
        read_rm(direct_bytes(reg, rm) + rest) == Some((reg, Place::Register(rm), 1nat)),
{
}

/// What `read_rm` makes of a ModRM byte, a SIB byte or none, and a displacement
/// of the width that the mode calls for.
pub proof fn lemma_read_parts(
    mode: int,
    reg: u8,
    rm: int,
    s: Seq<u8>,
    disp: int,
    rest: Seq<u8>,
)
    requires
        0 <= mode < 3,
        reg < 8,
        0 <= rm < 8,
        fits_i32(disp),
        mode == 0 ==> disp == 0,
        mode == 1 ==> fits_i8(disp),
        s.len() == (if rm == 4 {
            1nat
        } else {
            0nat
        }),
        rm == 4 ==> !(mode == 0 && field_low(s[0]) == 5),
        rm != 4 ==> !(mode == 0 && rm == 5),
    ensures
        read_rm(seq![packed(mode, reg as int, rm)] + s + displacement(mode, disp) + rest) == Some(
            (
                reg,
                Place::Memory {
                    disp,
                    base: (if rm == 4 {
                        field_low(s[0])
                    } else {
                        rm
                    }) as u8,
                    index: if rm == 4 && field_mid(s[0]) != 4 {
                        Some((field_mid(s[0]) as u8, scale_of(field_top(s[0]))))
                    } else {
                        None
                    },
                },
                1 + s.len() + displacement(mode, disp).len(),
            ),
        ),
{
    let width: nat = if mode == 0 {
        0
    } else if mode == 1 {
        1
    } else {
        4
    };
    if mode != 0 {
        lemma_signed_round_trip(disp, width);
    }
    let d = displacement(mode, disp);
    assert(d.len() == width);
    let bytes = seq![packed(mode, reg as int, rm)] + s + d + rest;
    assert(bytes[0] == packed(mode, reg as int, rm));
    assert(field_top(bytes[0]) == mode);
    assert(field_mid(bytes[0]) == reg);
    assert(field_low(bytes[0]) == rm);
    let start: nat = 1 + s.len();
    assert(bytes.len() >= start + width);
    assert(bytes.subrange(start as int, (start + width) as int) =~= d);
    if rm == 4 {
        assert(bytes[1] == s[0]);
    }
}

/// The three fields of a ModRM or SIB byte can be read back from it.
pub proof fn lemma_fields(top: int, mid: int, low: int)
    requires
        0 <= top < 4,
        0 <= mid < 8,
        0 <= low < 8,
    ensures
        field_top(packed(top, mid, low)) == top,
        field_mid(packed(top, mid, low)) == mid,
        field_low(packed(top, mid, low)) == low,
{
}

/// A memory operand without index is read back as the encoder wrote it.
pub proof fn lemma_read_plain(reg: u8, disp: int, base: u8, rest: Seq<u8>)
    requires
        reg < 8,
        base < 8,
        fits_i32(disp),
    ensures
        read_rm(mem_bytes(reg, disp, base, None) + rest) == Some(
            (
                reg,
                Place::Memory { disp, base, index: None },
                mem_bytes(reg, disp, base, None).len(),
            ),
        ),
{
    let mode = mem_mode(disp, base, false);
    let s = sib(base, None);
    if base == 4 {
        lemma_fields(0, 4, 4);
        assert(s =~= seq![packed(0, 4, 4)]);
    } else {
        assert(s =~= Seq::<u8>::empty());
    }
    lemma_read_parts(mode, reg, base as int, s, disp, rest);
    assert(mem_bytes(reg, disp, base, None) + rest =~= seq![packed(mode, reg as int, base as int)]
        + s + displacement(mode, disp) + rest);
}

/// A memory operand with an index is read back as the encoder wrote it.
pub proof fn lemma_read_indexed(reg: u8, disp: int, base: u8, code: u8, scale: u8, rest: Seq<u8>)
    requires
        reg < 8,
        base < 8,
        fits_i32(disp),
        code < 8,
        code != 4,
        valid_scale(scale),
    ensures
        read_rm(mem_bytes(reg, disp, base, Some((code, scale))) + rest) == Some(
            (
                reg,
                Place::Memory { disp, base, index: Some((code, scale)) },
                mem_bytes(reg, disp, base, Some((code, scale))).len(),
            ),
        ),
{
    let e = scale_exponent(scale);
    let s = seq![packed(e, code as int, base as int)];
    lemma_fields(e, code as int, base as int);
    assert(scale_of(e) == scale);
    assert(s =~= sib(base, Some((code, scale))));
    lemma_read_parts(2, reg, 4, s, disp, rest);
    assert(mem_bytes(reg, disp, base, Some((code, scale))) + rest =~= seq![
        packed(2, reg as int, 4),
    ] + s + displacement(2, disp) + rest);
}

/// A memory operand is read back as the encoder wrote it, whatever follows: the
/// same reg field, base, index, scale and displacement, and no byte more or less.
pub proof fn lemma_read_memory(reg: u8, disp: int, base: u8, index: Option<(u8, u8)>, rest: Seq<u8>)
    requires
        reg < 8,
        base < 8,
        fits_i32(disp),
        index matches Some((code, scale)) ==> code < 8 && code != 4 && valid_scale(scale),
    ensures
        read_rm(mem_bytes(reg, disp, base, index) + rest) == Some(
            (
                reg,
                Place::Memory { disp, base, index },
                mem_bytes(reg, disp, base, index).len(),
            ),
        ),
{
    match index {
        Some((code, scale)) => lemma_read_indexed(reg, disp, base, code, scale, rest),
        None => lemma_read_plain(reg, disp, base, rest),
    }
}

/// The operand of an instruction is read back from the bytes behind its opcode:
/// the reg field holds the register or the opcode extension, and the rm field names
/// the register or the address that the instruction was made with.
pub proof fn lemma_read_bytecode<R1: Reg, R2: Reg>(code: ByteCode<R1, R2>)
    requires
        code.wf(),
        code.encodable(),
    ensures
        read_rm(code.rm_bytes() + code.imm.bytes()) == Some(
            (
                code.reg_field().1,
                match code.addr {
                    None => Place::Register(code.rm.bits().1),
                    Some((disp, None)) => Place::Memory {
                        disp: disp as int,
                        base: code.rm.bits().1,
                        index: None,
                    },
                    Some((disp, Some((index, scale)))) => Place::Memory {
                        disp: disp as int,
                        base: code.rm.bits().1,
                        index: Some((index.bits().1, scale)),
                    },
                },
                code.rm_bytes().len(),
            ),
        ),
{
    let reg = code.reg_field().1;
    match code.reg {
        Some(r) => {
            r.code_in_range();
        },
        None => {},
    }
    match code.rm {
        crate::encoding::RegOrQ::R(r) => {
            r.code_in_range();
        },
        crate::encoding::RegOrQ::Q(r) => {
            r.code_in_range();
        },
    }
    match code.addr {
        None => {
            lemma_read_register(reg, code.rm.bits().1, code.imm.bytes());
        },
        Some((disp, None)) => {
            lemma_read_memory(reg, disp as int, code.rm.bits().1, None, code.imm.bytes());
        },
        Some((disp, Some((index, scale)))) => {
            index.code_in_range();
            lemma_read_memory(
                reg,
                disp as int,
                code.rm.bits().1,
                Some((index.bits().1, scale)),
                code.imm.bytes(),
            );
        },
    }
}

/// What stands before ModRM: whether the operand-size prefix is there, the four
/// bits of the REX prefix (all clear where there is none), whether the opcode is
/// escaped, the opcode, and the number of bytes that all this takes.
pub struct Head {
    pub small: bool,
    pub rex: REX,
    pub escaped: bool,
    pub op_code: u8,
    pub len: nat,
}

/// Whether a byte is a REX prefix.
pub open spec fn is_rex(b: u8) -> bool {
    0x40 <= b <= 0x4f
}

/// The four bits of a REX prefix.
pub open spec fn rex_of(b: u8) -> REX {
    REX {
        w: (b as int / 8) % 2 == 1,
        r: (b as int / 4) % 2 == 1,
        x: (b as int / 2) % 2 == 1,
        b: b as int % 2 == 1,
    }
}

/// Reads prefixes and opcode from the front of `bytes`.
pub open spec fn read_head(bytes: Seq<u8>) -> Option<Head> {
    let small = bytes.len() > 0 && bytes[0] == 0x66;
    let at_rex: int = if small {
        1
    } else {
        0
    };
    let has_rex = bytes.len() > at_rex && is_rex(bytes[at_rex]);
    let rex = if has_rex {
        rex_of(bytes[at_rex])
    } else {
        REX { w: false, r: false, x: false, b: false }
    };
    let at_escape: int = if has_rex {
        at_rex + 1
    } else {
        at_rex
    };
    let escaped = bytes.len() > at_escape && bytes[at_escape] == 0x0f;
    let at_opcode: int = if escaped {
        at_escape + 1
    } else {
        at_escape
    };
    if bytes.len() > at_opcode {
        Some(Head { small, rex, escaped, op_code: bytes[at_opcode], len: (at_opcode + 1) as nat })
    } else {
        None
    }
}

/// Whether an opcode can be told from the prefixes that may stand before it.
pub open spec fn plain_opcode(op_code: u8) -> bool {
    op_code != 0x66 && op_code != 0x0f && !is_rex(op_code)
}

/// The bits of a REX prefix are read back from its byte.
pub proof fn lemma_read_rex(rex: REX)
    ensures
        is_rex(rex.byte()),
        rex_of(rex.byte()) == rex,
{
}

/// Prefixes and opcode of an instruction are read back as the encoder wrote them,
/// whatever follows, where the escape byte, if there is one, is `0x0f`, and an
/// opcode without escape is none of the prefix bytes.
pub proof fn lemma_read_head<R1: Reg, R2: Reg>(code: ByteCode<R1, R2>, rest: Seq<u8>)
    requires
        code.prefix is None ==> plain_opcode(code.op_code),
        code.prefix matches Some(escape) ==> escape == 0x0f,
    ensures
        read_head(code.head_bytes() + rest) == Some(
            Head {
                small: code.small_reg_flag,
                rex: REX {
                    w: code.rex.w,
                    r: code.reg_field().0,
                    x: false,
                    b: code.rm.bits().0,
                },
                escaped: code.prefix is Some,
                op_code: code.op_code,
                len: code.head_bytes().len(),
            },
        ),
{
    let rex = REX { w: code.rex.w, r: code.reg_field().0, x: false, b: code.rm.bits().0 };
    lemma_read_rex(rex);
    let bytes = code.head_bytes() + rest;
    let small: Seq<u8> = if code.small_reg_flag {
        seq![0x66u8]
    } else {
        Seq::empty()
    };
    let escape: Seq<u8> = match code.prefix {
        Some(e) => seq![e],
        None => Seq::empty(),
    };
    assert(bytes =~= small + rex.bytes() + escape + seq![code.op_code] + rest);
    assert(code.head_bytes().len() == small.len() + rex.bytes().len() + escape.len() + 1);
}

/// Every instruction that the encoder writes with a ModRM byte can be taken apart
/// again: prefixes and opcode first, then the operands, and what is left is the
/// immediate.
pub proof fn lemma_read_instruction<R1: Reg, R2: Reg>(code: ByteCode<R1, R2>)
    requires
        code.wf(),
        code.encodable(),
        code.prefix is None ==> plain_opcode(code.op_code),
        code.prefix matches Some(escape) ==> escape == 0x0f,
    ensures
        read_head(code.bytes()) matches Some(head) && head.small == code.small_reg_flag
            && head.rex.w == code.rex.w && head.rex.r == code.reg_field().0 && !head.rex.x
            && head.rex.b == code.rm.bits().0 && head.escaped == (code.prefix is Some)
            && head.op_code == code.op_code && head.len == code.head_bytes().len(),
        read_rm(code.bytes().skip(code.head_bytes().len() as int)) == read_rm(
            code.rm_bytes() + code.imm.bytes(),
        ),
        code.bytes().skip((code.head_bytes().len() + code.rm_bytes().len()) as int)
            == code.imm.bytes(),
{
    lemma_read_head(code, code.rm_bytes() + code.imm.bytes());
    assert(code.bytes() =~= code.head_bytes() + (code.rm_bytes() + code.imm.bytes()));
    assert(code.bytes().skip(code.head_bytes().len() as int) =~= code.rm_bytes()
        + code.imm.bytes());
    assert(code.bytes().skip((code.head_bytes().len() + code.rm_bytes().len()) as int)
        =~= code.imm.bytes());
}

/// The opcodes that the encoder writes without escape byte are none of the prefix bytes.
pub proof fn lemma_opcodes_are_plain(index: u8, byte: bool, to_reg: bool)
    requires
        index < 8,
    ensures
        plain_opcode(crate::binary::group1_opcode(index, byte, to_reg)),
        plain_opcode(0x89),
        plain_opcode(0x8b),
        plain_opcode(0xc7),
        plain_opcode(0x81),
        plain_opcode(0xff),
        plain_opcode(0x8f),
        plain_opcode(0xf6),
        plain_opcode(0xf7),
{
}

} // verus!
