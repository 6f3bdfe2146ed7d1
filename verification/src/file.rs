use vstd::prelude::*;
use vstd::string::StringExecFns;
use crate::reg::{Label, Target};
use crate::traits::Writable;
use crate::{Data, Text};

verus! {

/// Structure representing a file
pub struct File {
    /// Entry point of code
    pub globl: Option<Label>,
    /// Code segment
    pub text_ss: Text,
    /// Data segment
    pub data_ss: Data,
}

impl File {
    /// The assembly file: the code behind `.text`, with the entry point declared
    /// global where there is one, then the data behind `.data`.
    pub open spec fn text(&self, target: Target) -> Seq<char> {
        "\t.text\n"@ + (match self.globl {
            Some(main) => "\t.globl\t"@ + main.text(target.os) + "\n"@,
            None => Seq::empty(),
        }) + self.text_ss.text(target) + "\t.data\n"@ + self.data_ss.text(target)
    }

    /// The text of the assembly file for the target.
    pub fn render(&self, target: Target) -> (s: String)
        ensures
            s@ == self.text(target),
    {
        let mut out = String::new();
        out.append("\t.text\n");
        match &self.globl {
            None => {},
            Some(main) => {
                out.append("\t.globl\t");
                main.write_in(target.os, &mut out);
                out.append("\n");
            },
        }
        self.text_ss.write_in(target, &mut out);
        out.append("\t.data\n");
        self.data_ss.write_in(target, &mut out);
        assert(out@ =~= self.text(target));
        out
    }
}

} // verus!
