use write_x86_64::debug::dwarf::consts::dw_access::DWAccess;
use write_x86_64::debug::dwarf::consts::dw_ate::BaseType;
use write_x86_64::debug::dwarf::consts::dw_cc::DWCC;
use write_x86_64::debug::dwarf::consts::dw_lang::DWLang;
use write_x86_64::debug::dwarf::consts::dw_ord::ArrayOrder;
use write_x86_64::debug::dwarf::consts::dw_virtuality::Virtuality;
use write_x86_64::debug::dwarf::consts::dw_vis::Visibility;
use write_x86_64::debug::dwarf::{CompileUnit, Context, DwarfDebug, SubProgram, Variable, DIE};
use write_x86_64::new_label;
use write_x86_64::reg::{Os, Target};

#[test]
fn numbers_and_names_of_the_standard() {
    assert_eq!(DWAccess::Public.as_u8(), 0x01);
    assert_eq!(DWAccess::Protected.as_u8(), 0x02);
    assert_eq!(DWAccess::Private.as_u8(), 0x03);
    assert_eq!(DWAccess::Private.as_str(), "DW_ACCESS_PRIVATE");
    assert_eq!(ArrayOrder::RowMajor.as_u8(), 0x00);
    assert_eq!(ArrayOrder::ColMajor.as_u8(), 0x01);
    assert_eq!(ArrayOrder::ColMajor.as_str(), "DW_ORD_COL_MAJOR");
    assert_eq!(DWLang::C89.as_u16(), 0x0001);
    assert_eq!(DWLang::C99.as_u16(), 0x000c);
    assert_eq!(DWLang::Python.as_u16(), 0x0014);
    assert_eq!(BaseType::Boolean.as_u8(), 0x02);
    assert_eq!(BaseType::Boolean.as_str(), "DW_ATE_BOOLEAN");
    assert_eq!(DWCC::Normal.as_u8(), 0x01);
    assert_eq!(Virtuality::NotVirtual.as_u8(), 0x00);
    assert_eq!(Visibility::Local.as_u8(), 0x01);
}

#[test]
fn tags_of_entries() {
    let unit = DIE::DwTagCompileUnit(CompileUnit::default());
    assert_eq!(unit.id(), 0x11);
    assert_eq!(unit.tag_name(), "DW_TAG_compile_unit");
    let sub = DIE::DwTagSubprogram(SubProgram::default());
    assert_eq!(sub.id(), 0x2e);
    assert_eq!(sub.tag_name(), "DW_TAG_subprogram");
    let var = DIE::DwTagVariable(Variable::default());
    assert_eq!(var.id(), 0x34);
    assert_eq!(var.tag_name(), "DW_TAG_variable");
    let tree = DwarfDebug { info: unit, childrens: vec![DwarfDebug { info: sub, childrens: Vec::new() }] };
    assert_eq!(tree.childrens.len(), 1);
    assert_eq!(tree.childrens[0].info.id(), 0x2e);
}

#[test]
fn context_makes_fresh_labels() {
    let mut context = Context::new("dbg".to_string());
    assert!(context.get_loc_start().is_none());
    assert!(context.get_line_start().is_none());
    assert!(context.get_macinfo_start().is_none());
    assert!(context.get_ranges_start().is_none());
    assert_eq!(context.new_tmp().name(), "dbg_tmp_0");
    assert_eq!(context.new_tmp().name(), "dbg_tmp_1");
    context.set_loc_start(new_label("loc"));
    context.set_line_start(new_label("line"));
    context.set_macinfo_start(new_label("mac"));
    context.set_ranges_start(new_label("ranges"));
    assert_eq!(context.get_loc_start().as_ref().map(|l| l.name()), Some("loc"));
    assert_eq!(context.get_line_start().as_ref().map(|l| l.name()), Some("line"));
    assert_eq!(context.get_macinfo_start().as_ref().map(|l| l.name()), Some("mac"));
    assert_eq!(context.get_ranges_start().as_ref().map(|l| l.name()), Some("ranges"));
    assert_eq!(context.new_tmp().name(), "dbg_tmp_2");
}

#[test]
fn context_keeps_each_string_once() {
    let mut context = Context::new("dbg".to_string());
    assert_eq!(context.get_offset("main".to_string()), 0);
    assert_eq!(context.get_offset("int".to_string()), 5);
    assert_eq!(context.get_offset("main".to_string()), 0);
    assert_eq!(context.get_offset("\u{e9}".to_string()), 9);
    assert_eq!(context.get_offset("".to_string()), 12);
    assert_eq!(context.get_offset("x".to_string()), 13);
    assert_eq!(context.get_offset("int".to_string()), 5);
    assert_eq!(context.get_offset("".to_string()), 12);
    let data = context.to_data();
    assert_eq!(data.len(), 5);
    assert_eq!(
        data.render(Target { os: Os::Linux, binary: false }),
        "\t\t.asciz \"main\"\n\t\t.asciz \"int\"\n\t\t.asciz \"\u{e9}\"\n\t\t.asciz \"\"\n\t\t.asciz \"x\"\n"
    );
    assert_eq!(Context::new("p".to_string()).to_data().len(), 0);
}
