use vstd::prelude::*;
use vstd::string::StringExecFns;
use crate::numfmt::{decimal, hex_digits, push_hex, push_unsigned};
use crate::reg::{Label, Target};
use crate::traits::Writable;

/// Define expressions (for .set)
pub mod expr;

verus! {

/// Options of the `.loc` directive
#[allow(missing_docs)]
pub enum LocOptions {
    BasicBloc,
    PrologueEnd,
    EpilogueBegin,
    IsStmt(bool),
    Isa(usize),
}

/// A flag as the assembler reads it: `1` or `0`.
pub open spec fn flag(b: bool) -> Seq<char> {
    if b {
        "1"@
    } else {
        "0"@
    }
}

/// A flag as the assembler reads it.
pub fn flag_str(b: bool) -> (s: &'static str)
    ensures
        s@ == flag(b),
{
    if b {
        "1"
    } else {
        "0"
    }
}

impl Writable for LocOptions {
    open spec fn text(&self, target: Target) -> Seq<char> {
        match self {
            LocOptions::BasicBloc => "basic_block"@,
            LocOptions::PrologueEnd => "prologue_end"@,
            LocOptions::EpilogueBegin => "epilogue_begin"@,
            LocOptions::IsStmt(b) => "is_stmt "@ + flag(*b),
            LocOptions::Isa(i) => "isa "@ + decimal(*i as int),
        }
    }

    fn write_in(&self, target: Target, out: &mut String) {
        match self {
            LocOptions::BasicBloc => out.append("basic_block"),
            LocOptions::PrologueEnd => out.append("prologue_end"),
            LocOptions::EpilogueBegin => out.append("epilogue_begin"),
            LocOptions::IsStmt(b) => {
                out.append("is_stmt ");
                out.append(flag_str(*b));
                assert(out@ =~= old(out)@ + self.text(target));
            },
            LocOptions::Isa(i) => {
                out.append("isa ");
                push_unsigned(out, *i as u64);
                assert(out@ =~= old(out)@ + self.text(target));
            },
        }
    }
}

/// Defines various directives
pub enum Directive {
    /// .p2align
    P2Align(usize, Option<usize>, Option<usize>),
    /// .file
    File(usize, String),
    /// .loc
    Loc(usize, usize, Option<usize>, Vec<LocOptions>),
    /// .loc_mark_blocks
    LocMarkBlocks(bool),
    /// .set
    Assign(Label, expr::Expr),
}

/// The options of a `.loc` directive, each behind a space.
pub open spec fn options_text(options: Seq<LocOptions>, target: Target) -> Seq<char>
    decreases options.len(),
{
    if options.len() == 0 {
        Seq::empty()
    } else {
        options_text(options.drop_last(), target) + " "@ + options.last().text(target)
    }
}

/// Writes the options of a `.loc` directive.
fn write_options(options: &Vec<LocOptions>, target: Target, out: &mut String)
    ensures
        final(out)@ == old(out)@ + options_text(options@, target),
{
    let mut i: usize = 0;
    assert(options@.take(0) =~= Seq::empty());
    while i < options.len()
        invariant
            i <= options.len(),
            out@ == old(out)@ + options_text(options@.take(i as int), target),
        decreases options.len() - i,
    {
        out.append(" ");
        options[i].write_in(target, out);
        proof {
            let next = options@.take(i + 1);
            assert(next.drop_last() =~= options@.take(i as int));
            assert(next.last() == options@[i as int]);
            assert(out@ =~= old(out)@ + options_text(next, target));
        }
        i = i + 1;
    }
    assert(options@.take(i as int) =~= options@);
}

/// The operands of `.p2align`: the alignment in hexadecimal, then the fill value
/// and the limit, each behind a comma where either is given.
pub open spec fn p2align_text(align: usize, fill: Option<usize>, max: Option<usize>) -> Seq<char> {
    ".p2align 0x"@ + hex_digits(align as nat) + (if fill is Some || max is Some {
        ","@
    } else {
        Seq::empty()
    }) + (match fill {
        Some(i) => decimal(i as int),
        None => Seq::empty(),
    }) + (match max {
        Some(i) => ","@ + decimal(i as int),
        None => Seq::empty(),
    })
}

/// Writes a `.p2align` directive.
fn write_p2align(align: usize, fill: Option<usize>, max: Option<usize>, out: &mut String)
    ensures
        final(out)@ == old(out)@ + p2align_text(align, fill, max),
{
    out.append(".p2align 0x");
    push_hex(out, align as u64);
    if fill.is_some() || max.is_some() {
        out.append(",");
    }
    if let Some(i) = fill {
        push_unsigned(out, i as u64);
    }
    let ghost mid = out@;
    if let Some(i) = max {
        out.append(",");
        push_unsigned(out, i as u64);
        assert(out@ =~= mid + (","@ + decimal(i as int)));
    }
    assert(out@ =~= old(out)@ + p2align_text(align, fill, max));
}

impl Writable for Directive {
    open spec fn text(&self, target: Target) -> Seq<char> {
        match self {
            Directive::P2Align(align, fill, max) => p2align_text(*align, *fill, *max),
            Directive::File(id, name) => ".file "@ + decimal(*id as int) + " \""@ + name@ + "\""@,
            Directive::Loc(file_id, line, column, options) => ".loc "@ + decimal(*file_id as int)
                + " "@ + decimal(*line as int) + (match column {
                Some(i) => " "@ + decimal(*i as int),
                None => Seq::empty(),
            }) + options_text(options@, target),
            Directive::LocMarkBlocks(b) => ".loc_mark_blocks "@ + flag(*b),
            Directive::Assign(lab, expr) => ".set "@ + lab.text(target.os) + ", "@ + expr.text(
                target,
            ),
        }
    }

    fn write_in(&self, target: Target, out: &mut String) {
        match self {
            Directive::P2Align(align, fill, max) => {
                write_p2align(*align, *fill, *max, out);
            },
            Directive::File(id, name) => {
                out.append(".file ");
                push_unsigned(out, *id as u64);
                out.append(" \"");
                out.append(name.as_str());
                out.append("\"");
            },
            Directive::Loc(file_id, line, column, options) => {
                out.append(".loc ");
                push_unsigned(out, *file_id as u64);
                out.append(" ");
                push_unsigned(out, *line as u64);
                let ghost mid = out@;
                if let Some(i) = column {
                    out.append(" ");
                    push_unsigned(out, *i as u64);
                    assert(out@ =~= mid + (" "@ + decimal(*i as int)));
                }
                write_options(options, target, out);
            },
            Directive::LocMarkBlocks(b) => {
                out.append(".loc_mark_blocks ");
                out.append(flag_str(*b));
            },
            Directive::Assign(lab, expr) => {
                out.append(".set ");
                lab.write_in(target.os, out);
                out.append(", ");
                expr.write_in(target, out);
            },
        }
        assert(out@ =~= old(out)@ + self.text(target));
    }
}

/// .set lab1 lab2-lab3  directive
pub fn set_sub(lab1: Label, lab2: Label, lab3: Label) -> (d: Directive)
    ensures
        d == Directive::Assign(lab1, expr::Expr::Sub(lab2, lab3)),
{
    Directive::Assign(lab1, expr::Expr::Sub(lab2, lab3))
}

} // verus!
