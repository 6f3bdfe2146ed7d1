use vstd::prelude::*;
use vstd::string::StringExecFns;
use crate::numfmt::{decimal, push_signed, push_unsigned};
use crate::reg::{Label, Target};
use crate::traits::Writable;

verus! {

/// Expressions are not recursive, use .set multiple times to build a recursive expression
pub enum Expr {
    /// Substract both labels
    Sub(Label, Label),
    /// Add both labels
    Add(Label, Label),
    /// Unsigned constant
    UConst(usize),
    /// Signed constant
    SConst(isize),
}

impl Writable for Expr {
    open spec fn text(&self, target: Target) -> Seq<char> {
        match self {
            Expr::Sub(lab1, lab2) => lab1.text(target.os) + "-"@ + lab2.text(target.os),
            Expr::Add(lab1, lab2) => lab1.text(target.os) + "+"@ + lab2.text(target.os),
            Expr::UConst(c) => decimal(*c as int),
            Expr::SConst(c) => decimal(*c as int),
        }
    }

    fn write_in(&self, target: Target, out: &mut String) {
        match self {
            Expr::Sub(lab1, lab2) => {
                lab1.write_in(target.os, out);
                out.append("-");
                lab2.write_in(target.os, out);
            },
            Expr::Add(lab1, lab2) => {
                lab1.write_in(target.os, out);
                out.append("+");
                lab2.write_in(target.os, out);
            },
            Expr::UConst(c) => push_unsigned(out, *c as u64),
            Expr::SConst(c) => push_signed(out, *c as i64),
        }
        assert(out@ =~= old(out)@ + self.text(target));
    }
}

} // verus!
