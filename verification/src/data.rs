use vstd::prelude::*;
use vstd::string::{StrSliceExecFns, StringExecFns};
use crate::numfmt::{decimal, pad_right, push_padding, push_signed, push_unsigned};
use crate::reg::{Label, Target};
use crate::traits::Writable;
use crate::{Data, Segment};

verus! {

/// Data that can be stored in the data segments
pub enum DataEL {
    /// 1-byte value
    Byte(i8),
    /// 1-byte usingned value
    ByteU(u8),
    /// 2-byte value
    Word(i16),
    /// 2-byte usingned value
    ShortU(u16),
    /// 4-byte value
    Long(i32),
    /// 4-byte value
    LongU(u32),
    /// 8-byte value
    Quad(i64),
    /// writes n zeros
    Space(usize),
    /// Stores addresses 4 bytes
    AddressLong(Label),
    /// Stores addresses 8 bytes
    AddressQuad(Label),
    /// Stores string not terminated by zero
    Ascii(String),
    /// Asciz 0 terminated string
    Asciz(String),
}

/// A number in a column of ten characters, filled up with spaces on the right.
pub open spec fn column(value: int) -> Seq<char> {
    pad_right(decimal(value), 10)
}

/// Writes a signed number in its column.
fn write_signed_column(out: &mut String, value: i64)
    ensures
        final(out)@ == old(out)@ + column(value as int),
{
    let mut number = String::new();
    push_signed(&mut number, value);
    assert(number@ =~= decimal(value as int));
    let written: usize = number.as_str().unicode_len();
    out.append(number.as_str());
    push_padding(out, written, 10);
    assert(out@ =~= old(out)@ + column(value as int));
}

/// Writes an unsigned number in its column.
fn write_unsigned_column(out: &mut String, value: u64)
    ensures
        final(out)@ == old(out)@ + column(value as int),
{
    let mut number = String::new();
    push_unsigned(&mut number, value);
    assert(number@ =~= decimal(value as int));
    let written: usize = number.as_str().unicode_len();
    out.append(number.as_str());
    push_padding(out, written, 10);
    assert(out@ =~= old(out)@ + column(value as int));
}

impl Writable for DataEL {
    /// The directive that reserves the element: its name in a column of eight
    /// characters behind a tab, then the value.
    open spec fn text(&self, target: Target) -> Seq<char> {
        match self {
            DataEL::Byte(el) => "\t.byte  "@ + column(*el as int),
            DataEL::ByteU(el) => "\t.byte  "@ + column(*el as int),
            DataEL::Word(el) => "\t.word  "@ + column(*el as int),
            DataEL::ShortU(el) => "\t.short "@ + column(*el as int),
            DataEL::Long(el) => "\t.long  "@ + column(*el as int),
            DataEL::LongU(el) => "\t.long  "@ + column(*el as int),
            DataEL::Quad(el) => "\t.quad  "@ + column(*el as int),
            DataEL::AddressLong(el) => "\t.long  "@ + el.text(target.os),
            DataEL::AddressQuad(el) => "\t.quad  "@ + el.text(target.os),
            DataEL::Ascii(str) => "\t.ascii \""@ + str@ + "\""@,
            DataEL::Asciz(str) => "\t.asciz \""@ + str@ + "\""@,
            DataEL::Space(i) => "\t.space "@ + decimal(*i as int),
        }
    }

    fn write_in(&self, target: Target, out: &mut String) {
        match self {
            DataEL::Byte(el) => {
                out.append("\t.byte  ");
                write_signed_column(out, *el as i64);
            },
            DataEL::ByteU(el) => {
                out.append("\t.byte  ");
                write_unsigned_column(out, *el as u64);
            },
            DataEL::Word(el) => {
                out.append("\t.word  ");
                write_signed_column(out, *el as i64);
            },
            DataEL::ShortU(el) => {
                out.append("\t.short ");
                write_unsigned_column(out, *el as u64);
            },
            DataEL::Long(el) => {
                out.append("\t.long  ");
                write_signed_column(out, *el as i64);
            },
            DataEL::LongU(el) => {
                out.append("\t.long  ");
                write_unsigned_column(out, *el as u64);
            },
            DataEL::Quad(el) => {
                out.append("\t.quad  ");
                write_signed_column(out, *el);
            },
            DataEL::AddressLong(el) => {
                out.append("\t.long  ");
                el.write_in(target.os, out);
            },
            DataEL::AddressQuad(el) => {
                out.append("\t.quad  ");
                el.write_in(target.os, out);
            },
            DataEL::Ascii(str) => {
                out.append("\t.ascii \"");
                out.append(str.as_str());
                out.append("\"");
            },
            DataEL::Asciz(str) => {
                out.append("\t.asciz \"");
                out.append(str.as_str());
                out.append("\"");
            },
            DataEL::Space(i) => {
                out.append("\t.space ");
                push_unsigned(out, *i as u64);
            },
        }
        assert(out@ =~= old(out)@ + self.text(target));
    }
}

/// Place a constant string (end with 0) in data area
pub fn dasciz(data: String) -> (d: Data)
    ensures
        d@ == seq![crate::SegmentEL::Data(DataEL::Asciz(data))],
{
    Segment::new(DataEL::Asciz(data))
}

/// Place a constant string (does not end with 0) in data area
pub fn dascii(data: String) -> (d: Data)
    ensures
        d@ == seq![crate::SegmentEL::Data(DataEL::Ascii(data))],
{
    Segment::new(DataEL::Ascii(data))
}

/// Place a 1 byte value in data area
pub fn dbyte(i: i8) -> (d: Data)
    ensures
        d@ == seq![crate::SegmentEL::Data(DataEL::Byte(i))],
{
    Segment::new(DataEL::Byte(i))
}

/// Place an unsigned 1 byte value in data area
pub fn dubyte(i: u8) -> (d: Data)
    ensures
        d@ == seq![crate::SegmentEL::Data(DataEL::ByteU(i))],
{
    Segment::new(DataEL::ByteU(i))
}

/// Place a 2 bytes value in data area
pub fn dword(i: i16) -> (d: Data)
    ensures
        d@ == seq![crate::SegmentEL::Data(DataEL::Word(i))],
{
    Segment::new(DataEL::Word(i))
}

/// Place an unsigned 2 bytes value in data area
pub fn dushort(i: u16) -> (d: Data)
    ensures
        d@ == seq![crate::SegmentEL::Data(DataEL::ShortU(i))],
{
    Segment::new(DataEL::ShortU(i))
}

/// Place a 4 bytes value in data area
pub fn dlong(i: i32) -> (d: Data)
    ensures
        d@ == seq![crate::SegmentEL::Data(DataEL::Long(i))],
{
    Segment::new(DataEL::Long(i))
}

/// Place an unsigned 4 bytes value in data area
pub fn dulong(i: u32) -> (d: Data)
    ensures
        d@ == seq![crate::SegmentEL::Data(DataEL::LongU(i))],
{
    Segment::new(DataEL::LongU(i))
}

/// Place a 8 bytes value in data area
pub fn dquad(i: i64) -> (d: Data)
    ensures
        d@ == seq![crate::SegmentEL::Data(DataEL::Quad(i))],
{
    Segment::new(DataEL::Quad(i))
}

/// Place of addresse in the data area
pub fn daddress(addr: Label) -> (d: Data)
    ensures
        d@ == seq![crate::SegmentEL::Data(DataEL::AddressQuad(addr))],
{
    Segment::new(DataEL::AddressQuad(addr))
}

/// Place of addresse in the data area
pub fn dlong_label(addr: Label) -> (d: Data)
    ensures
        d@ == seq![crate::SegmentEL::Data(DataEL::AddressLong(addr))],
{
    Segment::new(DataEL::AddressLong(addr))
}

/// Allocate n bytes (valued to 0) in the data segment
pub fn space(i: usize) -> (d: Data)
    ensures
        d@ == seq![crate::SegmentEL::Data(DataEL::Space(i))],
{
    Segment::new(DataEL::Space(i))
}

} // verus!
