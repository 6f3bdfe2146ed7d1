//! The debugging information entries of the DWARF 4 standard.

use vstd::prelude::*;
use vstd::string::StringExecFns;
use crate::numfmt::{decimal, push_unsigned};
use crate::data::{dasciz, DataEL};
use crate::reg::Label;
use crate::{Data, Segment, SegmentEL};

/// The numbers and names of the standard
pub mod consts;

verus! {

/// Operations of location expressions
#[allow(non_camel_case_types)]
pub enum Symbols {
    /// Push lit on the stack
    /// Valid only for integers 0 <= .. <= 31
    DW_OP_lit(u8),
    /// Push an address on the stack
    DW_OP_addr(()),
    /// Push a 1-byte unsigned constant on the stack
    DW_OP_const1u(u8),
    /// Push a 2-byte unsigned constant on the stack
    DW_OP_const2u(u16),
    /// Push a 4-byte unsigned constant on the stack
    DW_OP_const4u(u32),
    /// Push a 8-byte unsigned constant on the stack
    DW_OP_const8u(u64),
    /// Push a little endian 16-byte unsigned constant on the stack
    DW_OP_constu(u128),
    /// Push a 1-byte signed constant on the stack
    DW_OP_const1s(i8),
    /// Push a 2-byte signed constant on the stack
    DW_OP_const2s(i16),
    /// Push a 4-byte signed constant on the stack
    DW_OP_const4s(i32),
    /// Push a 8-byte signed constant on the stack
    DW_OP_const8s(i64),
    /// Push a little 16-byte signed constant on the stack
    DW_OP_consts(i128),
    /// Duplicate value on the stack
    DW_OP_dup,
    /// Pops value from the stack
    DW_OP_drop,
    /// Pick value in the stack and push it on top
    DW_OP_pick(u8),
    /// Equivalent to DW_OP_pick(1)
    DW_OP_over,
    /// Swaps to 2 entries
    DW_OP_swap,
    /// Rotate three first entries
    DW_OP_rot,
    /// Changes the value on the stack by the value it points to
    DW_OP_deref,
    /// DW_OP_deref but with size specified
    DW_OP_deref_size(u8),
    /// See documentation
    DW_OP_xderef,
    /// See documentation
    DW_OP_xderef_size(u8),
    /// See documentation
    DW_OP_push_object_address,
    /// See documentation
    DW_OP_form_tls_address,
    /// See documentation
    DW_OP_call_frame_cfa,
    /// Abs on the top value (poped than pushed)
    DW_OP_abs,
    /// And on the 2 top values (poped than pushed)
    DW_OP_and,
    /// Div on the 2 top values (poped than pushed)
    DW_OP_div,
    /// Minus on the 2 top values (poped than pushed)
    DW_OP_minus,
    /// Mod on the 2 top values (poped than pushed)
    DW_OP_mod,
    /// Mul on the 2 top values (poped than pushed)
    DW_OP_mul,
    /// Neg on the top value (poped than pushed)
    DW_OP_neg,
    /// Not on the top value (poped than pushed)
    DW_OP_not,
    /// Or on the 2 top values (poped than pushed)
    DW_OP_or,
    /// Plus on the 2 top values (poped than pushed)
    DW_OP_plus,
    /// Add on the top value and constant (poped than pushed)
    DW_OP_plus_uconst(u128),
    /// Shl on the 2 top values (poped than pushed)
    DW_OP_shl,
    /// Shr on the 2 top values (poped than pushed)
    DW_OP_shr,
    /// Shra on the 2 top values (poped than pushed)
    DW_OP_shra,
    /// Xor on the 2 top values (poped than pushed)
    DW_OP_xor,
    /// Le on the 2 top values (poped than pushed)
    DW_OP_le,
    /// Ge on the 2 top values (poped than pushed)
    DW_OP_ge,
    /// Eq on the 2 top values (poped than pushed)
    DW_OP_eq,
    /// Lt on the 2 top values (poped than pushed)
    DW_OP_lt,
    /// Gt on the 2 top values (poped than pushed)
    DW_OP_gt,
    /// Ne on the 2 top values (poped than pushed)
    DW_OP_ne,
    /// See documentation
    DW_OP_skip(i16),
    /// See documentation
    DW_OP_bra(i16),
    /// See documentation
    DW_OP_call2(u16),
    /// See documentation
    DW_OP_call4(u16),
    /// Placeholder
    DW_OP_nop,
}

/// The bytes that strings take in `.debug_str`, one after the other, each with
/// the zero that ends it.
pub open spec fn table_size(strings: Seq<String>) -> nat
    decreases strings.len(),
{
    if strings.len() == 0 {
        0
    } else {
        table_size(strings.drop_last()) + vstd::utf8::encode_utf8(strings.last()@).len() + 1
    }
}

/// Whether `s` stands at place `i` of `strings`.
pub open spec fn stands_at(strings: Seq<String>, s: Seq<char>, i: int) -> bool {
    0 <= i < strings.len() && strings[i]@ == s
}

/// Whether `s` stands at place `i` of `strings` and starts `offset` bytes into the table.
pub open spec fn starts_at(strings: Seq<String>, s: Seq<char>, offset: usize, i: int) -> bool {
    stands_at(strings, s, i) && offset == table_size(strings.take(i))
}

/// What the entries of one tree share: the strings of `.debug_str`, the labels at
/// which the sections that they point into start, and a supply of labels of their own.
pub struct Context {
    tmp_id: usize,
    total_length: usize,
    strings: Vec<String>,
    offsets: Vec<usize>,
    loc_start: Option<Label>,
    line_start: Option<Label>,
    macinfo_start: Option<Label>,
    ranges_start: Option<Label>,
    prefix: String,
}

impl Context {
    /// The prefix of the labels that the context makes.
    pub closed spec fn prefix(&self) -> Seq<char> {
        self.prefix@
    }

    /// How many labels the context has made.
    pub closed spec fn made(&self) -> nat {
        self.tmp_id as nat
    }

    /// The strings of `.debug_str`, in the order in which they were first asked for.
    pub closed spec fn strings(&self) -> Seq<String> {
        self.strings@
    }

    /// Label of the start of `.debug_loc`, where it was given.
    pub closed spec fn loc_start(&self) -> Option<Label> {
        self.loc_start
    }

    /// Label of the start of `.debug_line`, where it was given.
    pub closed spec fn line_start(&self) -> Option<Label> {
        self.line_start
    }

    /// Label of the start of `.debug_macinfo`, where it was given.
    pub closed spec fn macinfo_start(&self) -> Option<Label> {
        self.macinfo_start
    }

    /// Label of the start of `.debug_ranges`, where it was given.
    pub closed spec fn ranges_start(&self) -> Option<Label> {
        self.ranges_start
    }

    /// No string stands twice in the table; the context knows where each one
    /// starts and where the next one will.
    pub closed spec fn wf(&self) -> bool {
        &&& self.offsets@.len() == self.strings@.len()
        &&& forall|i: int|
            0 <= i < self.strings@.len() ==> #[trigger] self.offsets@[i] == table_size(
                self.strings@.take(i),
            )
        &&& self.total_length == table_size(self.strings@)
        &&& forall|i: int, j: int|
            0 <= i < j < self.strings@.len() ==> #[trigger] self.strings@[i]@
                != #[trigger] self.strings@[j]@
    }

    /// What a call that does not touch the strings leaves as it was.
    pub open spec fn same_strings(&self, before: Self) -> bool {
        self.strings() == before.strings() && (before.wf() ==> self.wf())
    }

    /// What a call that does not touch the labels leaves as it was.
    pub open spec fn same_labels(&self, before: Self) -> bool {
        &&& self.prefix() == before.prefix()
        &&& self.made() == before.made()
        &&& self.loc_start() == before.loc_start()
        &&& self.line_start() == before.line_start()
        &&& self.macinfo_start() == before.macinfo_start()
        &&& self.ranges_start() == before.ranges_start()
    }

    /// The name of the label that the context makes after `made` others.
    pub open spec fn tmp_name(prefix: Seq<char>, made: nat) -> Seq<char> {
        prefix + "_tmp_"@ + decimal(made as int)
    }

    /// No string stands twice in the table of a well-formed context.
    pub proof fn lemma_strings_distinct(&self, i: int, j: int)
        requires
            self.wf(),
            0 <= i < j < self.strings().len(),
        ensures
            self.strings()[i]@ != self.strings()[j]@,
    {
    }

    /// Creates a new structure with a reserved prefix for labels
    /// You need to ensure that no other label will start with the same prefix
    pub fn new(prefix: String) -> (context: Self)
        ensures
            context.wf(),
            context.prefix() == prefix@,
            context.made() == 0,
            context.strings().len() == 0,
            context.loc_start() is None,
            context.line_start() is None,
            context.macinfo_start() is None,
            context.ranges_start() is None,
    {
        Self {
            tmp_id: 0,
            total_length: 0,
            strings: Vec::new(),
            offsets: Vec::new(),
            loc_start: None,
            line_start: None,
            macinfo_start: None,
            ranges_start: None,
            prefix,
        }
    }

    /// The place of a string among those of the table.
    fn find(&self, str: &String) -> (found: Option<usize>)
        ensures
            match found {
                Some(i) => stands_at(self.strings(), str@, i as int),
                None => forall|i: int| !stands_at(self.strings(), str@, i),
            },
    {
        let mut i: usize = 0;
        while i < self.strings.len()
            invariant
                i <= self.strings.len(),
                forall|k: int| 0 <= k < i ==> !stands_at(self.strings(), str@, k),
            decreases self.strings.len() - i,
        {
            if self.strings[i].eq(str) {
                return Some(i);
            }
            i = i + 1;
        }
        None
    }

    /// Where the string starts in `.debug_str`. A string that was not asked for
    /// before is put behind the others.
    pub fn get_offset(&mut self, str: String) -> (offset: usize)
        requires
            old(self).wf(),
            (forall|i: int| !stands_at(old(self).strings(), str@, i)) ==> table_size(
                old(self).strings().push(str),
            ) <= usize::MAX,
        ensures
            final(self).wf(),
            final(self).same_labels(*old(self)),
            (exists|i: int| stands_at(old(self).strings(), str@, i)) ==> final(self).strings()
                == old(self).strings(),
            (forall|i: int| !stands_at(old(self).strings(), str@, i)) ==> final(self).strings()
                == old(self).strings().push(str),
            exists|i: int| starts_at(final(self).strings(), str@, offset, i),
    {
        match self.find(&str) {
            Some(i) => {
                let offset: usize = self.offsets[i];
                assert(starts_at(self.strings(), str@, offset, i as int));
                offset
            },
            None => {
                let out: usize = self.total_length;
                let ghost before = self.strings@;
                assert(before.push(str).drop_last() =~= before);
                self.total_length = self.total_length + str.as_str().len() + 1;
                self.strings.push(str);
                self.offsets.push(out);
                proof {
                    let after = self.strings@;
                    assert(after.take(before.len() as int) =~= before);
                    assert forall|i: int| 0 <= i < after.len() implies #[trigger] self.offsets@[i]
                        == table_size(after.take(i)) by {
                        if i < before.len() {
                            assert(after.take(i) =~= before.take(i));
                        }
                    }
                    assert forall|i: int, j: int| 0 <= i < j < after.len() implies #[trigger] after[i]@
                        != #[trigger] after[j]@ by {
                        if j == before.len() {
                            assert(!stands_at(before, str@, i));
                        }
                    }
                    assert(self.strings() == after);
                    assert(starts_at(self.strings(), str@, out, before.len() as int));
                }
                out
            },
        }
    }

    /// The strings as the data of `.debug_str`, in the order of their offsets.
    pub fn to_data(&self) -> (data: Data)
        ensures
            data@.len() == self.strings().len(),
            forall|i: int|
                0 <= i < self.strings().len() ==> #[trigger] data@[i] == SegmentEL::Data(
                    DataEL::Asciz(self.strings()[i]),
                ),
    {
        let mut data: Data = Segment::empty();
        let mut i: usize = 0;
        while i < self.strings.len()
            invariant
                i <= self.strings.len(),
                data@.len() == i,
                forall|k: int|
                    0 <= k < i ==> #[trigger] data@[k] == SegmentEL::Data(
                        DataEL::Asciz(self.strings()[k]),
                    ),
            decreases self.strings.len() - i,
        {
            data = data.concat(dasciz(self.strings[i].clone()));
            i = i + 1;
        }
        data
    }

    /// A label that the context has not made before.
    pub fn new_tmp(&mut self) -> (label: Label)
        requires
            old(self).made() < usize::MAX,
        ensures
            label@ == Self::tmp_name(old(self).prefix(), old(self).made()),
            final(self).made() == old(self).made() + 1,
            final(self).same_strings(*old(self)),
            final(self).prefix() == old(self).prefix(),
            final(self).loc_start() == old(self).loc_start(),
            final(self).line_start() == old(self).line_start(),
            final(self).macinfo_start() == old(self).macinfo_start(),
            final(self).ranges_start() == old(self).ranges_start(),
    {
        let id: usize = self.tmp_id;
        self.tmp_id = self.tmp_id + 1;
        let mut name = String::new();
        name.append(self.prefix.as_str());
        name.append("_tmp_");
        push_unsigned(&mut name, id as u64);
        assert(name@ =~= Self::tmp_name(old(self).prefix(), old(self).made()));
        Label::from_str(name)
    }

    /// Gives the label at which `.debug_loc` starts.
    pub fn set_loc_start(&mut self, lab: Label)
        ensures
            final(self).loc_start() == Some(lab),
            final(self).line_start() == old(self).line_start(),
            final(self).macinfo_start() == old(self).macinfo_start(),
            final(self).ranges_start() == old(self).ranges_start(),
            final(self).prefix() == old(self).prefix(),
            final(self).made() == old(self).made(),
            final(self).same_strings(*old(self)),
    {
        self.loc_start = Some(lab)
    }

    /// The label at which `.debug_loc` starts, where it was given.
    pub fn get_loc_start(&self) -> (lab: &Option<Label>)
        ensures
            *lab == self.loc_start(),
    {
        &self.loc_start
    }

    /// Gives the label at which `.debug_line` starts.
    pub fn set_line_start(&mut self, lab: Label)
        ensures
            final(self).line_start() == Some(lab),
            final(self).loc_start() == old(self).loc_start(),
            final(self).macinfo_start() == old(self).macinfo_start(),
            final(self).ranges_start() == old(self).ranges_start(),
            final(self).prefix() == old(self).prefix(),
            final(self).made() == old(self).made(),
            final(self).same_strings(*old(self)),
    {
        self.line_start = Some(lab)
    }

    /// The label at which `.debug_line` starts, where it was given.
    pub fn get_line_start(&self) -> (lab: &Option<Label>)
        ensures
            *lab == self.line_start(),
    {
        &self.line_start
    }

    /// Gives the label at which `.debug_macinfo` starts.
    pub fn set_macinfo_start(&mut self, lab: Label)
        ensures
            final(self).macinfo_start() == Some(lab),
            final(self).loc_start() == old(self).loc_start(),
            final(self).line_start() == old(self).line_start(),
            final(self).ranges_start() == old(self).ranges_start(),
            final(self).prefix() == old(self).prefix(),
            final(self).made() == old(self).made(),
            final(self).same_strings(*old(self)),
    {
        self.macinfo_start = Some(lab)
    }

    /// The label at which `.debug_macinfo` starts, where it was given.
    pub fn get_macinfo_start(&self) -> (lab: &Option<Label>)
        ensures
            *lab == self.macinfo_start(),
    {
        &self.macinfo_start
    }

    /// Gives the label at which `.debug_ranges` starts.
    pub fn set_ranges_start(&mut self, lab: Label)
        ensures
            final(self).ranges_start() == Some(lab),
            final(self).loc_start() == old(self).loc_start(),
            final(self).line_start() == old(self).line_start(),
            final(self).macinfo_start() == old(self).macinfo_start(),
            final(self).prefix() == old(self).prefix(),
            final(self).made() == old(self).made(),
            final(self).same_strings(*old(self)),
    {
        self.ranges_start = Some(lab)
    }

    /// The label at which `.debug_ranges` starts, where it was given.
    pub fn get_ranges_start(&self) -> (lab: &Option<Label>)
        ensures
            *lab == self.ranges_start(),
    {
        &self.ranges_start
    }
}

/// Attributes of a `DW_TAG_access_declaration` entry
#[derive(Default)]
pub struct AccessDeclaration {
    pub accessibility: Option<consts::dw_access::DWAccess>,
    pub description: Option<String>,
    pub name: Option<String>,
    sibling: (),
}

/// Attributes of a `DW_TAG_array_type` entry
#[derive(Default)]
pub struct ArrayType {
    abstract_origin: (),
    pub accessibility: Option<consts::dw_access::DWAccess>,
    allocated: (),
    associated: (),
    pub bit_size: Option<u32>,
    bit_stride: (),
    pub byte_size: Option<u32>,
    data_location: (),
    declaration: bool,
    pub description: Option<String>,
    pub name: Option<String>,
    pub ordering: Option<consts::dw_ord::ArrayOrder>,
    sibling: (),
    specification: (),
    pub start_scope: Option<Label>,
    _type: (),
    pub visibility: Option<consts::dw_vis::Visibility>,
}

/// Attributes of a `DW_TAG_base_type` entry
#[derive(Default)]
pub struct BaseType {
    allocated: (),
    associated: (),
    pub binary_scale: Option<i32>,
    bit_offset: (),
    pub bit_size: Option<u32>,
    pub byte_size: Option<u32>,
    pub data_bit_offset: Option<u32>,
    data_location: (),
    pub decimal_scale: Option<i32>,
    pub decimal_sign: Option<consts::dw_ds::DecSign>,
    pub description: Option<String>,
    pub digit_count: Option<u32>,
    pub encoding: Option<consts::dw_ate::BaseType>,
    pub endianity: Option<consts::dw_end::Endianity>,
    pub name: Option<String>,
    pub picture_string: Option<String>,
    sibling: (),
    small: (),
}

/// Attributes of a `DW_TAG_catch_block` entry
#[derive(Default)]
pub struct CatchBlock {
    abstract_origin: (),
    pub low_high_pc: Option<(Label, Label)>,
    pub ranges: Option<Label>,
    pub segment: Option<Label>,
    sibling: (),
}

/// Attributes of a `DW_TAG_class_type` entry
#[derive(Default)]
pub struct ClassType {
    abstract_origin: (),
    pub accessibility: Option<consts::dw_access::DWAccess>,
    allocated: (),
    associated: (),
    pub bit_size: Option<u32>,
    pub byte_size: Option<u32>,
    data_location: (),
    declaration: bool,
    pub description: Option<String>,
    pub name: Option<String>,
    sibling: (),
    signature: (),
    specification: (),
    pub start_scope: Option<Label>,
    pub visibility: Option<consts::dw_vis::Visibility>,
}

/// Attributes of a `DW_TAG_common_block` entry
#[derive(Default)]
pub struct CommonBlock {
    pub declaration: bool,
    pub description: Option<String>,
    pub linkage_name: Option<String>,
    location: (),
    pub name: Option<String>,
    pub segment: Option<Label>,
    sibling: (),
    pub visibility: Option<consts::dw_vis::Visibility>,
}

/// Attributes of a `DW_TAG_common_inclusion` entry
#[derive(Default)]
pub struct CommonInclusion {
    common_reference: (),
    pub declaration: bool,
    sibling: (),
    pub visibility: Option<consts::dw_vis::Visibility>,
}

/// Attributes of a `DW_TAG_compile_unit` entry
#[derive(Default)]
pub struct CompileUnit {
    base_types: (),
    pub ranges: Option<Label>,
    pub segment: Option<Label>,
    pub low_high_pc: Option<(Label, Label)>,
    pub name: Option<String>,
    pub language: Option<consts::dw_lang::DWLang>,
    stmt_list: (),
    pub macro_info: Option<consts::dw_macinfo::MacInfo>,
    pub comp_dir: Option<String>,
    pub producer: Option<String>,
    pub identifier_case: Option<consts::dw_id::DWId>,
    pub main_subprogram: bool,
    pub use_utf8: bool,
}

/// Attributes of a `DW_TAG_condition` entry
#[derive(Default)]
pub struct Condition {
    pub name: Option<String>,
    sibling: (),
}

/// Attributes of a `DW_TAG_const_type` entry
#[derive(Default)]
pub struct ConstType {
    allocated: (),
    associated: (),
    data_location: (),
    pub name: Option<String>,
    sibling: (),
    _type: (),
}

/// Attributes of a `DW_TAG_constant` entry
#[derive(Default)]
pub struct Constant {
    pub accessibility: Option<consts::dw_access::DWAccess>,
    const_value: (),
    pub declaration: bool,
    pub description: Option<String>,
    pub endianity: Option<consts::dw_end::Endianity>,
    pub external: bool,
    pub linkage_name: Option<String>,
    pub name: Option<String>,
    sibling: (),
    pub start_scope: Option<Label>,
    _type: (),
    pub visibility: Option<consts::dw_vis::Visibility>,
}

/// Attributes of a `DW_TAG_dwarf_procedure` entry
#[derive(Default)]
pub struct DwarfProcedure {
    location: (),
}

/// Attributes of a `DW_TAG_entry_point` entry
#[derive(Default)]
pub struct EntryPoint {
    address_class: (),
    pub description: Option<String>,
    pub frame_base: Option<Label>,
    pub linkage_name: Option<String>,
    pub low_pc: Option<Label>,
    pub name: Option<String>,
    pub return_addr: Option<Label>,
    pub segment: Option<Label>,
    sibling: (),
    static_link: (),
    _type: (),
}

/// Attributes of a `DW_TAG_enumeration_type` entry
#[derive(Default)]
pub struct EnumerationType {
    abstract_origin: (),
    pub accessibility: Option<consts::dw_access::DWAccess>,
    allocated: (),
    associated: (),
    pub bit_size: Option<u32>,
    bit_stride: (),
    pub byte_size: Option<u32>,
    byte_stride: (),
    data_location: (),
    pub declaration: bool,
    pub description: Option<String>,
    pub enum_class: bool,
    pub name: Option<String>,
    sibling: (),
    signature: (),
    specification: (),
    pub start_scope: Option<Label>,
    _type: (),
    pub visibility: Option<consts::dw_vis::Visibility>,
}

/// Attributes of a `DW_TAG_enumerator` entry
#[derive(Default)]
pub struct Enumerator {
    const_value: (),
    pub description: Option<String>,
    pub name: Option<String>,
    sibling: (),
}

/// Attributes of a `DW_TAG_file_type` entry
#[derive(Default)]
pub struct FileType {
    abstract_origin: (),
    allocated: (),
    associated: (),
    pub bit_size: Option<u32>,
    pub byte_size: Option<u32>,
    data_location: (),
    pub description: Option<String>,
    pub name: Option<String>,
    sibling: (),
    pub start_scope: Option<Label>,
    _type: (),
    pub visibility: Option<consts::dw_vis::Visibility>,
}

/// Attributes of a `DW_TAG_formal_parameter` entry
#[derive(Default)]
pub struct FormalParameter {
    abstract_origin: (),
    pub artificial: bool,
    const_value: (),
    default_value: (),
    pub description: Option<String>,
    pub endianity: Option<consts::dw_end::Endianity>,
    pub is_optional: bool,
    location: (),
    pub name: Option<String>,
    pub segment: Option<Label>,
    sibling: (),
    _type: (),
    pub variable_parameter: bool,
}

/// Attributes of a `DW_TAG_friend` entry
#[derive(Default)]
pub struct Friend {
    abstract_origin: (),
    friend: (),
    sibling: (),
}

/// Attributes of a `DW_TAG_imported_declaration` entry
#[derive(Default)]
pub struct ImportedDeclaration {
    pub accessibility: Option<consts::dw_access::DWAccess>,
    pub description: Option<String>,
    import: (),
    pub name: Option<String>,
    sibling: (),
    pub start_scope: Option<Label>,
}

/// Attributes of a `DW_TAG_imported_module` entry
#[derive(Default)]
pub struct ImportedModule {
    import: (),
    sibling: (),
    pub start_scope: Option<Label>,
}

/// Attributes of a `DW_TAG_imported_unit` entry
#[derive(Default)]
pub struct ImportedUnit {
    import: (),
}

/// Attributes of a `DW_TAG_inheritance` entry
#[derive(Default)]
pub struct Inheritance {
    pub accessibility: Option<consts::dw_access::DWAccess>,
    pub data_member_location: Option<Label>,
    sibling: (),
    _type: (),
    pub virtuality: Option<consts::dw_virtuality::Virtuality>,
}

/// Attributes of a `DW_TAG_inlined_subroutine` entry
#[derive(Default)]
pub struct InlinedSubroutine {
    abstract_origin: (),
    pub call_column: Option<u32>,
    pub call_file: Option<u32>,
    pub call_line: Option<u32>,
    pub const_expr: bool,
    pub entry_pc: Option<Label>,
    pub low_high_pc: Option<(Label, Label)>,
    pub ranges: Option<Label>,
    pub return_addr: Option<Label>,
    pub segment: Option<Label>,
    sibling: (),
    pub start_scope: Option<Label>,
    trampoline: (),
}

/// Attributes of a `DW_TAG_interface_type` entry
#[derive(Default)]
pub struct InterfaceType {
    pub accessibility: Option<consts::dw_access::DWAccess>,
    pub description: Option<String>,
    pub name: Option<String>,
    sibling: (),
    pub start_scope: Option<Label>,
}

/// Attributes of a `DW_TAG_label` entry
#[derive(Default)]
pub struct LabelTag {
    abstract_origin: (),
    pub description: Option<String>,
    pub low_pc: Option<Label>,
    pub name: Option<String>,
    pub segment: Option<Label>,
    pub start_scope: Option<Label>,
    sibling: (),
}

/// Attributes of a `DW_TAG_lexical_block` entry
#[derive(Default)]
pub struct LexicalBlock {
    abstract_origin: (),
    pub description: Option<String>,
    pub low_high_pc: Option<(Label, Label)>,
    pub name: Option<String>,
    pub ranges: Option<Label>,
    pub segment: Option<Label>,
    sibling: (),
}

/// Attributes of a `DW_TAG_member` entry
#[derive(Default)]
pub struct Member {
    accessibility: Option<consts::dw_access::DWAccess>,
    bit_offset: (),
    pub bit_size: Option<u32>,
    pub data_bit_offset: Option<u32>,
    pub data_member_location: Option<Label>,
    pub declaration: bool,
    pub description: Option<String>,
    pub mutable: bool,
    pub name: Option<String>,
    sibling: (),
    _type: (),
    pub visibility: Option<consts::dw_vis::Visibility>,
}

/// Attributes of a `DW_TAG_module` entry
#[derive(Default)]
pub struct Module {
    pub accessibility: Option<consts::dw_access::DWAccess>,
    pub declaration: bool,
    pub description: Option<String>,
    pub entry_pc: Option<Label>,
    pub low_high_pc: Option<(Label, Label)>,
    pub name: Option<String>,
    priority: (),
    pub ranges: Option<Label>,
    pub segment: Option<Label>,
    sibling: (),
    specification: (),
    pub visibility: Option<consts::dw_vis::Visibility>,
}

/// Attributes of a `DW_TAG_namelist` entry
#[derive(Default)]
pub struct NameList {
    abstract_origin: (),
    pub accessibility: Option<consts::dw_access::DWAccess>,
    pub declaration: bool,
    pub name: Option<String>,
    sibling: (),
    pub visibility: Option<consts::dw_vis::Visibility>,
}

/// Attributes of a `DW_TAG_namelist_item` entry
#[derive(Default)]
pub struct NameListItem {
    namelist_item: (),
    sibling: (),
}

/// Attributes of a `DW_TAG_namespace` entry
#[derive(Default)]
pub struct NameSpace {
    pub description: Option<String>,
    extension: (),
    pub name: Option<String>,
    sibling: (),
    pub start_scope: Option<Label>,
}

/// Attributes of a `DW_TAG_packed_type` entry
#[derive(Default)]
pub struct PackedType {
    allocated: (),
    associated: (),
    data_location: (),
    pub name: Option<String>,
    sibling: (),
    _type: (),
}

/// Attributes of a `DW_TAG_partial_unit` entry
#[derive(Default)]
pub struct PartialUnit {
    base_types: (),
    pub comp_dir: Option<String>,
    pub description: Option<String>,
    pub identifier_case: Option<consts::dw_id::DWId>,
    pub language: Option<consts::dw_lang::DWLang>,
    pub low_high_pc: Option<(Label, Label)>,
    pub macro_info: Option<consts::dw_macinfo::MacInfo>,
    pub main_subprogram: bool,
    pub name: Option<String>,
    pub producer: Option<String>,
    pub ranges: Option<Label>,
    pub segment: Option<Label>,
    stmt_list: (),
    pub use_utf8: bool,
}

/// Attributes of a `DW_TAG_pointer_type` entry
#[derive(Default)]
pub struct PointerType {
    address_class: (),
    allocated: (),
    associated: (),
    data_location: (),
    pub name: Option<String>,
    sibling: (),
    _type: (),
}

/// Attributes of a `DW_TAG_ptr_to_member_type` entry
#[derive(Default)]
pub struct PtrToMemberType {
    abstract_origin: (),
    address_class: (),
    allocated: (),
    associated: (),
    containing_type: (),
    data_location: (),
    pub declaration: bool,
    pub description: Option<String>,
    pub name: Option<String>,
    sibling: (),
    _type: (),
    pub use_location: Option<Label>,
    pub visibility: Option<consts::dw_vis::Visibility>,
}

/// Attributes of a `DW_TAG_reference_type` entry
#[derive(Default)]
pub struct ReferenceType {
    address_class: (),
    allocated: (),
    associated: (),
    data_location: (),
    pub name: Option<String>,
    sibling: (),
    _type: (),
}

/// Attributes of a `DW_TAG_restrict_type` entry
#[derive(Default)]
pub struct RestrictType {
    allocated: (),
    associated: (),
    data_location: (),
    pub name: Option<String>,
    sibling: (),
    _type: (),
}

/// Attributes of a `DW_TAG_rvalue_reference_type` entry
#[derive(Default)]
pub struct RValueReferenceType {
    address_class: (),
    allocated: (),
    associated: (),
    data_location: (),
    pub name: Option<String>,
    sibling: (),
    _type: (),
}

/// Attributes of a `DW_TAG_set_type` entry
#[derive(Default)]
pub struct SetType {
    abstract_origin: (),
    pub accessibility: Option<consts::dw_access::DWAccess>,
    allocated: (),
    associated: (),
    pub bit_size: Option<u32>,
    pub byte_size: Option<u32>,
    data_location: (),
    pub declaration: bool,
    pub description: Option<String>,
    pub name: Option<String>,
    pub start_scope: Option<Label>,
    sibling: (),
    _type: (),
    pub visibility: Option<consts::dw_vis::Visibility>,
}

/// Attributes of a `DW_TAG_shared_type` entry
#[derive(Default)]
pub struct SharedType {
    allocated: (),
    associated: (),
    count: (),
    data_location: (),
    pub name: Option<String>,
    sibling: (),
    _type: (),
}

/// Attributes of a `DW_TAG_string_type` entry
#[derive(Default)]
pub struct StringType {
    abstract_origin: (),
    pub accessibility: Option<consts::dw_access::DWAccess>,
    allocated: (),
    associated: (),
    pub bit_size: Option<u32>,
    pub byte_size: Option<u32>,
    data_location: (),
    pub declaration: bool,
    pub description: Option<String>,
    pub name: Option<String>,
    sibling: (),
    pub start_scope: Option<Label>,
    string_length: (),
    pub visibility: Option<consts::dw_vis::Visibility>,
}

/// Attributes of a `DW_TAG_structure_type` entry
#[derive(Default)]
pub struct StructureType {
    abstract_origin: (),
    pub accessibility: Option<consts::dw_access::DWAccess>,
    allocated: (),
    associated: (),
    pub bit_size: Option<u32>,
    pub byte_size: Option<u32>,
    data_location: (),
    pub declaration: bool,
    pub description: Option<String>,
    pub name: Option<String>,
    sibling: (),
    signature: (),
    specification: (),
    pub start_scope: Option<Label>,
    pub visibility: Option<consts::dw_vis::Visibility>,
}

/// Attributes of a `DW_TAG_subprogram` entry
#[derive(Default)]
pub struct SubProgram {
    abstract_origin: (),
    pub accessibility: Option<consts::dw_access::DWAccess>,
    address_class: (),
    articifial: (),
    pub calling_convention: Option<consts::dw_cc::DWCC>,
    pub declaration: bool,
    pub description: Option<String>,
    pub elemental: bool,
    pub entry_pc: Option<Label>,
    pub explicit: bool,
    pub external: bool,
    pub frame_base: Option<Label>,
    pub inline: Option<consts::dw_inl::Inline>,
    pub linkage_name: Option<String>,
    pub low_high_pc: Option<(Label, Label)>,
    pub main_subprogram: bool,
    pub name: Option<String>,
    object_pointer: (),
    pub prototyped: bool,
    pub pure: bool,
    pub ranges: Option<Label>,
    pub recursive: bool,
    pub return_addr: Option<Label>,
    pub segment: Option<Label>,
    sibling: (),
    specification: (),
    pub start_scope: Option<Label>,
    static_link: (),
    trampoline: (),
    _type: (),
    pub visibility: Option<consts::dw_vis::Visibility>,
    pub virtuality: Option<consts::dw_virtuality::Virtuality>,
    pub vtable_elem_location: Option<Label>,
}

/// Attributes of a `DW_TAG_subrange_type` entry
#[derive(Default)]
pub struct SubrangeType {
    abstract_origin: (),
    pub accessibility: Option<consts::dw_access::DWAccess>,
    allocated: (),
    associated: (),
    pub bit_size: Option<u32>,
    bit_stride: (),
    pub byte_size: Option<u32>,
    byte_stride: (),
    count: (),
    data_location: (),
    pub declaration: bool,
    pub description: Option<String>,
    lower_bound: (),
    pub name: Option<String>,
    sibling: (),
    pub threads_scaled: bool,
    _type: (),
    upper_bound: (),
    pub visibility: Option<consts::dw_vis::Visibility>,
}

/// Attributes of a `DW_TAG_subroutine_type` entry
#[derive(Default)]
pub struct SubroutineType {
    abstract_origin: (),
    pub accessibility: Option<consts::dw_access::DWAccess>,
    address_class: (),
    allocated: (),
    associated: (),
    data_location: (),
    pub declaration: bool,
    pub description: Option<String>,
    pub name: Option<String>,
    pub prototyped: bool,
    sibling: (),
    pub start_scope: Option<Label>,
    _type: (),
    pub visibility: Option<consts::dw_vis::Visibility>,
}

/// Attributes of a `DW_TAG_template_alias` entry
#[derive(Default)]
pub struct TemplateAlias {
    abstract_origin: (),
    pub accessibility: Option<consts::dw_access::DWAccess>,
    allocated: (),
    associated: (),
    data_location: (),
    pub declaration: bool,
    pub description: Option<String>,
    pub name: Option<String>,
    sibling: (),
    signature: (),
    pub start_scope: Option<Label>,
    _type: (),
    pub visibility: Option<consts::dw_vis::Visibility>,
}

/// Attributes of a `DW_TAG_template_type_parameter` entry
#[derive(Default)]
pub struct TemplateTypeParameter {
    pub description: Option<String>,
    pub name: Option<String>,
    sibling: (),
    _type: (),
}

/// Attributes of a `DW_TAG_template_value_parameter` entry
#[derive(Default)]
pub struct TemplateValueParameter {
    const_value: (),
    pub description: Option<String>,
    pub name: Option<String>,
    sibling: (),
    _type: (),
}

/// Attributes of a `DW_TAG_thrown_type` entry
#[derive(Default)]
pub struct ThrownType {
    allocated: (),
    associated: (),
    data_location: (),
    sibling: (),
    _type: (),
}

/// Attributes of a `DW_TAG_try_block` entry
#[derive(Default)]
pub struct TryBlock {
    abstract_origin: (),
    pub low_high_pc: Option<(Label, Label)>,
    pub ranges: Option<Label>,
    pub segment: Option<Label>,
    sibling: (),
}

/// Attributes of a `DW_TAG_typedef` entry
#[derive(Default)]
pub struct Typedef {
    abstract_origin: (),
    pub accessibility: Option<consts::dw_access::DWAccess>,
    allocated: (),
    associated: (),
    data_location: (),
    pub declaration: bool,
    pub description: Option<String>,
    pub name: Option<String>,
    sibling: (),
    pub start_scope: Option<Label>,
    _type: (),
    pub visibility: Option<consts::dw_vis::Visibility>,
}

/// Attributes of a `DW_TAG_type_unit` entry
#[derive(Default)]
pub struct TypeUnit {
    pub language: Option<consts::dw_lang::DWLang>,
}

/// Attributes of a `DW_TAG_union_type` entry
#[derive(Default)]
pub struct UnionType {
    abstract_origin: (),
    pub accessibility: Option<consts::dw_access::DWAccess>,
    allocated: (),
    associated: (),
    pub bit_size: Option<u32>,
    pub byte_size: Option<u32>,
    data_location: (),
    pub declaration: bool,
    pub description: Option<String>,
    pub name: Option<String>,
    sibling: (),
    signature: (),
    specification: (),
    pub start_scope: Option<Label>,
    pub visibility: Option<consts::dw_vis::Visibility>,
}

/// Attributes of a `DW_TAG_unspecified_parameters` entry
#[derive(Default)]
pub struct UnspecifiedParameters {
    abstract_origin: (),
    pub artificial: bool,
    sibling: (),
}

/// Attributes of a `DW_TAG_unspecified_type` entry
#[derive(Default)]
pub struct UnspecifiedType {
    pub description: Option<String>,
    pub name: Option<String>,
}

/// Attributes of a `DW_TAG_variable` entry
#[derive(Default)]
pub struct Variable {
    abstract_origin: (),
    pub accessibility: Option<consts::dw_access::DWAccess>,
    pub const_expr: bool,
    const_value: (),
    pub declaration: bool,
    pub description: Option<String>,
    pub endianity: Option<consts::dw_end::Endianity>,
    pub external: bool,
    pub linkage_name: Option<String>,
    location: (),
    pub name: Option<String>,
    pub segment: Option<Label>,
    sibling: (),
    specification: (),
    pub start_scope: Option<Label>,
    _type: (),
    pub visibility: Option<consts::dw_vis::Visibility>,
}

/// Attributes of a `DW_TAG_variant` entry
#[derive(Default)]
pub struct Variant {
    pub accessibility: Option<consts::dw_access::DWAccess>,
    abstract_origin: (),
    pub declaration: bool,
    discr_list: (),
    pub discr_value: Option<consts::dw_dsc::Discriminant>,
    sibling: (),
}

/// Attributes of a `DW_TAG_variant_part` entry
#[derive(Default)]
pub struct VariantPart {
    abstract_origin: (),
    pub accessibility: Option<consts::dw_access::DWAccess>,
    pub declaration: bool,
    discr: (),
    sibling: (),
    _type: (),
}

/// Attributes of a `DW_TAG_volatile_type` entry
#[derive(Default)]
pub struct VolatileType {
    allocated: (),
    associated: (),
    data_location: (),
    pub name: Option<String>,
    sibling: (),
    _type: (),
}

/// Attributes of a `DW_TAG_with_stmt` entry
#[derive(Default)]
pub struct WithStmt {
    pub accessibility: Option<consts::dw_access::DWAccess>,
    address_class: (),
    pub declaration: bool,
    location: (),
    pub low_high_pc: Option<(Label, Label)>,
    pub ranges: Option<Label>,
    pub segment: Option<Label>,
    sibling: (),
    _type: (),
    pub visibility: Option<consts::dw_vis::Visibility>,
}

/// Structure to represent a DIE
pub enum DIE {
    DwTagAccessDeclaration(AccessDeclaration),
    DwTagArrayType(ArrayType),
    DwTagBaseType(BaseType),
    DwTagCatchBlock(CatchBlock),
    DwTagClassType(ClassType),
    DwTagCommonBlock(CommonBlock),
    DwTagCommonInclusion(CommonInclusion),
    DwTagCompileUnit(CompileUnit),
    DwTagCondition(Condition),
    DwTagConstType(ConstType),
    DwTagConstant(Constant),
    DwTagDwarfProcedure(DwarfProcedure),
    DwTagEntryPoint(EntryPoint),
    DwTagEnumerationType(EnumerationType),
    DwTagEnumerator(Enumerator),
    DwTagFileType(FileType),
    DwTagFormalParameter(FormalParameter),
    DwTagFriend(Friend),
    DwTagImportedDeclaration(ImportedDeclaration),
    DwTagImportedModule(ImportedModule),
    DwTagImportedUnit(ImportedUnit),
    DwTagInheritance(Inheritance),
    DwTagInlinedSubroutine(InlinedSubroutine),
    DwTagInterfaceType(InterfaceType),
    DwTagLabel(LabelTag),
    DwTagLexicalBlock(LexicalBlock),
    DwTagMember(Member),
    DwTagModule(Module),
    DwTagNamelist(NameList),
    DwTagNamelistItem(NameListItem),
    DwTagNamespace(NameSpace),
    DwTagPackedType(PackedType),
    DwTagPartialUnit(PartialUnit),
    DwTagPointerType(PointerType),
    DwTagPtrToMemberType(PtrToMemberType),
    DwTagReferenceType(ReferenceType),
    DwTagRestrictType(RestrictType),
    DwTagRvalueReferenceType(RValueReferenceType),
    DwTagSetType(SetType),
    DwTagSharedType(SharedType),
    DwTagStringType(StringType),
    DwTagStructureType(StructureType),
    DwTagSubprogram(SubProgram),
    DwTagSubrangeType(SubrangeType),
    DwTagSubroutineType(SubroutineType),
    DwTagTemplateAlias(TemplateAlias),
    DwTagTemplateTypeParameter(TemplateTypeParameter),
    DwTagTemplateValueParameter(TemplateValueParameter),
    DwTagThrownType(ThrownType),
    DwTagTryBlock(TryBlock),
    DwTagTypedef(Typedef),
    DwTagTypeUnit(TypeUnit),
    DwTagUnionType(UnionType),
    DwTagUnspecifiedParameters(UnspecifiedParameters),
    DwTagUnspecifiedType(UnspecifiedType),
    DwTagVariable(Variable),
    DwTagVariant(Variant),
    DwTagVariantPart(VariantPart),
    DwTagVolatileType(VolatileType),
    DwTagWithStmt(WithStmt),
}

impl DIE {
    /// The number that the standard gives the tag of the entry.
    pub open spec fn tag(&self) -> u8 {
        match self {
            DIE::DwTagAccessDeclaration(_) => 0x23,
            DIE::DwTagArrayType(_) => 0x01,
            DIE::DwTagBaseType(_) => 0x24,
            DIE::DwTagCatchBlock(_) => 0x25,
            DIE::DwTagClassType(_) => 0x02,
            DIE::DwTagCommonBlock(_) => 0x1a,
            DIE::DwTagCommonInclusion(_) => 0x1b,
            DIE::DwTagCompileUnit(_) => 0x11,
            DIE::DwTagCondition(_) => 0x3f,
            DIE::DwTagConstType(_) => 0x26,
            DIE::DwTagConstant(_) => 0x27,
            DIE::DwTagDwarfProcedure(_) => 0x36,
            DIE::DwTagEntryPoint(_) => 0x03,
            DIE::DwTagEnumerationType(_) => 0x04,
            DIE::DwTagEnumerator(_) => 0x28,
            DIE::DwTagFileType(_) => 0x29,
            DIE::DwTagFormalParameter(_) => 0x05,
            DIE::DwTagFriend(_) => 0x2a,
            DIE::DwTagImportedDeclaration(_) => 0x08,
            DIE::DwTagImportedModule(_) => 0x3a,
            DIE::DwTagImportedUnit(_) => 0x3d,
            DIE::DwTagInheritance(_) => 0x1c,
            DIE::DwTagInlinedSubroutine(_) => 0x1d,
            DIE::DwTagInterfaceType(_) => 0x38,
            DIE::DwTagLabel(_) => 0x0a,
            DIE::DwTagLexicalBlock(_) => 0x0b,
            DIE::DwTagMember(_) => 0x0d,
            DIE::DwTagModule(_) => 0x1e,
            DIE::DwTagNamelist(_) => 0x2b,
            DIE::DwTagNamelistItem(_) => 0x2c,
            DIE::DwTagNamespace(_) => 0x39,
            DIE::DwTagPackedType(_) => 0x2d,
            DIE::DwTagPartialUnit(_) => 0x3c,
            DIE::DwTagPointerType(_) => 0x0f,
            DIE::DwTagPtrToMemberType(_) => 0x1f,
            DIE::DwTagReferenceType(_) => 0x10,
            DIE::DwTagRestrictType(_) => 0x37,
            DIE::DwTagRvalueReferenceType(_) => 0x42,
            DIE::DwTagSetType(_) => 0x20,
            DIE::DwTagSharedType(_) => 0x40,
            DIE::DwTagStringType(_) => 0x12,
            DIE::DwTagStructureType(_) => 0x13,
            DIE::DwTagSubprogram(_) => 0x2e,
            DIE::DwTagSubrangeType(_) => 0x21,
            DIE::DwTagSubroutineType(_) => 0x15,
            DIE::DwTagTemplateAlias(_) => 0x43,
            DIE::DwTagTemplateTypeParameter(_) => 0x2f,
            DIE::DwTagTemplateValueParameter(_) => 0x30,
            DIE::DwTagThrownType(_) => 0x31,
            DIE::DwTagTryBlock(_) => 0x32,
            DIE::DwTagTypedef(_) => 0x16,
            DIE::DwTagTypeUnit(_) => 0x41,
            DIE::DwTagUnionType(_) => 0x17,
            DIE::DwTagUnspecifiedParameters(_) => 0x18,
            DIE::DwTagUnspecifiedType(_) => 0x3b,
            DIE::DwTagVariable(_) => 0x34,
            DIE::DwTagVariant(_) => 0x19,
            DIE::DwTagVariantPart(_) => 0x33,
            DIE::DwTagVolatileType(_) => 0x35,
            DIE::DwTagWithStmt(_) => 0x22,
        }
    }

    /// The name that the standard gives the tag of the entry.
    pub open spec fn name(&self) -> Seq<char> {
        match self {
            DIE::DwTagAccessDeclaration(_) => "DW_TAG_access_declaration"@,
            DIE::DwTagArrayType(_) => "DW_TAG_array_type"@,
            DIE::DwTagBaseType(_) => "DW_TAG_base_type"@,
            DIE::DwTagCatchBlock(_) => "DW_TAG_catch_block"@,
            DIE::DwTagClassType(_) => "DW_TAG_class_type"@,
            DIE::DwTagCommonBlock(_) => "DW_TAG_common_block"@,
            DIE::DwTagCommonInclusion(_) => "DW_TAG_common_inclusion"@,
            DIE::DwTagCompileUnit(_) => "DW_TAG_compile_unit"@,
            DIE::DwTagCondition(_) => "DW_TAG_condition"@,
            DIE::DwTagConstType(_) => "DW_TAG_const_type"@,
            DIE::DwTagConstant(_) => "DW_TAG_constant"@,
            DIE::DwTagDwarfProcedure(_) => "DW_TAG_dwarf_procedure"@,
            DIE::DwTagEntryPoint(_) => "DW_TAG_entry_point"@,
            DIE::DwTagEnumerationType(_) => "DW_TAG_enumeration_type"@,
            DIE::DwTagEnumerator(_) => "DW_TAG_enumerator"@,
            DIE::DwTagFileType(_) => "DW_TAG_file_type"@,
            DIE::DwTagFormalParameter(_) => "DW_TAG_formal_parameter"@,
            DIE::DwTagFriend(_) => "DW_TAG_friend"@,
            DIE::DwTagImportedDeclaration(_) => "DW_TAG_imported_declaration"@,
            DIE::DwTagImportedModule(_) => "DW_TAG_imported_module"@,
            DIE::DwTagImportedUnit(_) => "DW_TAG_imported_unit"@,
            DIE::DwTagInheritance(_) => "DW_TAG_inheritance"@,
            DIE::DwTagInlinedSubroutine(_) => "DW_TAG_inlined_subroutine"@,
            DIE::DwTagInterfaceType(_) => "DW_TAG_interface_type"@,
            DIE::DwTagLabel(_) => "DW_TAG_label"@,
            DIE::DwTagLexicalBlock(_) => "DW_TAG_lexical_block"@,
            DIE::DwTagMember(_) => "DW_TAG_member"@,
            DIE::DwTagModule(_) => "DW_TAG_module"@,
            DIE::DwTagNamelist(_) => "DW_TAG_namelist"@,
            DIE::DwTagNamelistItem(_) => "DW_TAG_namelist_item"@,
            DIE::DwTagNamespace(_) => "DW_TAG_namespace"@,
            DIE::DwTagPackedType(_) => "DW_TAG_packed_type"@,
            DIE::DwTagPartialUnit(_) => "DW_TAG_partial_unit"@,
            DIE::DwTagPointerType(_) => "DW_TAG_pointer_type"@,
            DIE::DwTagPtrToMemberType(_) => "DW_TAG_ptr_to_member_type"@,
            DIE::DwTagReferenceType(_) => "DW_TAG_reference_type"@,
            DIE::DwTagRestrictType(_) => "DW_TAG_restrict_type"@,
            DIE::DwTagRvalueReferenceType(_) => "DW_TAG_rvalue_reference_type"@,
            DIE::DwTagSetType(_) => "DW_TAG_set_type"@,
            DIE::DwTagSharedType(_) => "DW_TAG_shared_type"@,
            DIE::DwTagStringType(_) => "DW_TAG_string_type"@,
            DIE::DwTagStructureType(_) => "DW_TAG_structure_type"@,
            DIE::DwTagSubprogram(_) => "DW_TAG_subprogram"@,
            DIE::DwTagSubrangeType(_) => "DW_TAG_subrange_type"@,
            DIE::DwTagSubroutineType(_) => "DW_TAG_subroutine_type"@,
            DIE::DwTagTemplateAlias(_) => "DW_TAG_template_alias"@,
            DIE::DwTagTemplateTypeParameter(_) => "DW_TAG_template_type_parameter"@,
            DIE::DwTagTemplateValueParameter(_) => "DW_TAG_template_value_parameter"@,
            DIE::DwTagThrownType(_) => "DW_TAG_thrown_type"@,
            DIE::DwTagTryBlock(_) => "DW_TAG_try_block"@,
            DIE::DwTagTypedef(_) => "DW_TAG_typedef"@,
            DIE::DwTagTypeUnit(_) => "DW_TAG_type_unit"@,
            DIE::DwTagUnionType(_) => "DW_TAG_union_type"@,
            DIE::DwTagUnspecifiedParameters(_) => "DW_TAG_unspecified_parameters"@,
            DIE::DwTagUnspecifiedType(_) => "DW_TAG_unspecified_type"@,
            DIE::DwTagVariable(_) => "DW_TAG_variable"@,
            DIE::DwTagVariant(_) => "DW_TAG_variant"@,
            DIE::DwTagVariantPart(_) => "DW_TAG_variant_part"@,
            DIE::DwTagVolatileType(_) => "DW_TAG_volatile_type"@,
            DIE::DwTagWithStmt(_) => "DW_TAG_with_stmt"@,
        }
    }

    /// The number that the standard gives the tag of the entry.
    pub fn id(&self) -> (id: u8)
        ensures
            id == self.tag(),
    {
        match self {
            DIE::DwTagAccessDeclaration(_) => 0x23,
            DIE::DwTagArrayType(_) => 0x01,
            DIE::DwTagBaseType(_) => 0x24,
            DIE::DwTagCatchBlock(_) => 0x25,
            DIE::DwTagClassType(_) => 0x02,
            DIE::DwTagCommonBlock(_) => 0x1a,
            DIE::DwTagCommonInclusion(_) => 0x1b,
            DIE::DwTagCompileUnit(_) => 0x11,
            DIE::DwTagCondition(_) => 0x3f,
            DIE::DwTagConstType(_) => 0x26,
            DIE::DwTagConstant(_) => 0x27,
            DIE::DwTagDwarfProcedure(_) => 0x36,
            DIE::DwTagEntryPoint(_) => 0x03,
            DIE::DwTagEnumerationType(_) => 0x04,
            DIE::DwTagEnumerator(_) => 0x28,
            DIE::DwTagFileType(_) => 0x29,
            DIE::DwTagFormalParameter(_) => 0x05,
            DIE::DwTagFriend(_) => 0x2a,
            DIE::DwTagImportedDeclaration(_) => 0x08,
            DIE::DwTagImportedModule(_) => 0x3a,
            DIE::DwTagImportedUnit(_) => 0x3d,
            DIE::DwTagInheritance(_) => 0x1c,
            DIE::DwTagInlinedSubroutine(_) => 0x1d,
            DIE::DwTagInterfaceType(_) => 0x38,
            DIE::DwTagLabel(_) => 0x0a,
            DIE::DwTagLexicalBlock(_) => 0x0b,
            DIE::DwTagMember(_) => 0x0d,
            DIE::DwTagModule(_) => 0x1e,
            DIE::DwTagNamelist(_) => 0x2b,
            DIE::DwTagNamelistItem(_) => 0x2c,
            DIE::DwTagNamespace(_) => 0x39,
            DIE::DwTagPackedType(_) => 0x2d,
            DIE::DwTagPartialUnit(_) => 0x3c,
            DIE::DwTagPointerType(_) => 0x0f,
            DIE::DwTagPtrToMemberType(_) => 0x1f,
            DIE::DwTagReferenceType(_) => 0x10,
            DIE::DwTagRestrictType(_) => 0x37,
            DIE::DwTagRvalueReferenceType(_) => 0x42,
            DIE::DwTagSetType(_) => 0x20,
            DIE::DwTagSharedType(_) => 0x40,
            DIE::DwTagStringType(_) => 0x12,
            DIE::DwTagStructureType(_) => 0x13,
            DIE::DwTagSubprogram(_) => 0x2e,
            DIE::DwTagSubrangeType(_) => 0x21,
            DIE::DwTagSubroutineType(_) => 0x15,
            DIE::DwTagTemplateAlias(_) => 0x43,
            DIE::DwTagTemplateTypeParameter(_) => 0x2f,
            DIE::DwTagTemplateValueParameter(_) => 0x30,
            DIE::DwTagThrownType(_) => 0x31,
            DIE::DwTagTryBlock(_) => 0x32,
            DIE::DwTagTypedef(_) => 0x16,
            DIE::DwTagTypeUnit(_) => 0x41,
            DIE::DwTagUnionType(_) => 0x17,
            DIE::DwTagUnspecifiedParameters(_) => 0x18,
            DIE::DwTagUnspecifiedType(_) => 0x3b,
            DIE::DwTagVariable(_) => 0x34,
            DIE::DwTagVariant(_) => 0x19,
            DIE::DwTagVariantPart(_) => 0x33,
            DIE::DwTagVolatileType(_) => 0x35,
            DIE::DwTagWithStmt(_) => 0x22,
        }
    }

    /// The name that the standard gives the tag of the entry.
    pub fn tag_name(&self) -> (name: &'static str)
        ensures
            name@ == self.name(),
    {
        match self {
            DIE::DwTagAccessDeclaration(_) => "DW_TAG_access_declaration",
            DIE::DwTagArrayType(_) => "DW_TAG_array_type",
            DIE::DwTagBaseType(_) => "DW_TAG_base_type",
            DIE::DwTagCatchBlock(_) => "DW_TAG_catch_block",
            DIE::DwTagClassType(_) => "DW_TAG_class_type",
            DIE::DwTagCommonBlock(_) => "DW_TAG_common_block",
            DIE::DwTagCommonInclusion(_) => "DW_TAG_common_inclusion",
            DIE::DwTagCompileUnit(_) => "DW_TAG_compile_unit",
            DIE::DwTagCondition(_) => "DW_TAG_condition",
            DIE::DwTagConstType(_) => "DW_TAG_const_type",
            DIE::DwTagConstant(_) => "DW_TAG_constant",
            DIE::DwTagDwarfProcedure(_) => "DW_TAG_dwarf_procedure",
            DIE::DwTagEntryPoint(_) => "DW_TAG_entry_point",
            DIE::DwTagEnumerationType(_) => "DW_TAG_enumeration_type",
            DIE::DwTagEnumerator(_) => "DW_TAG_enumerator",
            DIE::DwTagFileType(_) => "DW_TAG_file_type",
            DIE::DwTagFormalParameter(_) => "DW_TAG_formal_parameter",
            DIE::DwTagFriend(_) => "DW_TAG_friend",
            DIE::DwTagImportedDeclaration(_) => "DW_TAG_imported_declaration",
            DIE::DwTagImportedModule(_) => "DW_TAG_imported_module",
            DIE::DwTagImportedUnit(_) => "DW_TAG_imported_unit",
            DIE::DwTagInheritance(_) => "DW_TAG_inheritance",
            DIE::DwTagInlinedSubroutine(_) => "DW_TAG_inlined_subroutine",
            DIE::DwTagInterfaceType(_) => "DW_TAG_interface_type",
            DIE::DwTagLabel(_) => "DW_TAG_label",
            DIE::DwTagLexicalBlock(_) => "DW_TAG_lexical_block",
            DIE::DwTagMember(_) => "DW_TAG_member",
            DIE::DwTagModule(_) => "DW_TAG_module",
            DIE::DwTagNamelist(_) => "DW_TAG_namelist",
            DIE::DwTagNamelistItem(_) => "DW_TAG_namelist_item",
            DIE::DwTagNamespace(_) => "DW_TAG_namespace",
            DIE::DwTagPackedType(_) => "DW_TAG_packed_type",
            DIE::DwTagPartialUnit(_) => "DW_TAG_partial_unit",
            DIE::DwTagPointerType(_) => "DW_TAG_pointer_type",
            DIE::DwTagPtrToMemberType(_) => "DW_TAG_ptr_to_member_type",
            DIE::DwTagReferenceType(_) => "DW_TAG_reference_type",
            DIE::DwTagRestrictType(_) => "DW_TAG_restrict_type",
            DIE::DwTagRvalueReferenceType(_) => "DW_TAG_rvalue_reference_type",
            DIE::DwTagSetType(_) => "DW_TAG_set_type",
            DIE::DwTagSharedType(_) => "DW_TAG_shared_type",
            DIE::DwTagStringType(_) => "DW_TAG_string_type",
            DIE::DwTagStructureType(_) => "DW_TAG_structure_type",
            DIE::DwTagSubprogram(_) => "DW_TAG_subprogram",
            DIE::DwTagSubrangeType(_) => "DW_TAG_subrange_type",
            DIE::DwTagSubroutineType(_) => "DW_TAG_subroutine_type",
            DIE::DwTagTemplateAlias(_) => "DW_TAG_template_alias",
            DIE::DwTagTemplateTypeParameter(_) => "DW_TAG_template_type_parameter",
            DIE::DwTagTemplateValueParameter(_) => "DW_TAG_template_value_parameter",
            DIE::DwTagThrownType(_) => "DW_TAG_thrown_type",
            DIE::DwTagTryBlock(_) => "DW_TAG_try_block",
            DIE::DwTagTypedef(_) => "DW_TAG_typedef",
            DIE::DwTagTypeUnit(_) => "DW_TAG_type_unit",
            DIE::DwTagUnionType(_) => "DW_TAG_union_type",
            DIE::DwTagUnspecifiedParameters(_) => "DW_TAG_unspecified_parameters",
            DIE::DwTagUnspecifiedType(_) => "DW_TAG_unspecified_type",
            DIE::DwTagVariable(_) => "DW_TAG_variable",
            DIE::DwTagVariant(_) => "DW_TAG_variant",
            DIE::DwTagVariantPart(_) => "DW_TAG_variant_part",
            DIE::DwTagVolatileType(_) => "DW_TAG_volatile_type",
            DIE::DwTagWithStmt(_) => "DW_TAG_with_stmt",
        }
    }
}

/// Structure representing a Dwarf debug information tree
pub struct DwarfDebug {
    pub info: DIE,
    pub childrens: Vec<DwarfDebug>,
}

/// No two kinds of entry share their tag number.
pub proof fn lemma_tags_distinct(a: DIE, b: DIE)
    requires
        a.tag() == b.tag(),
    ensures
        a.name() == b.name(),
{
}

} // verus!
