use objdispatch::module_info::ModuleInfo;

#[test]
fn ensure_size_of_module_info() {
    assert_eq!(core::mem::size_of::<ModuleInfo>(), 16);
}

#[test]
fn module_info_records_are_built_with_the_fixed_header() {
    let info = ModuleInfo::new(0x1000);
    assert_eq!(info.version, 7);
    assert_eq!(info.size, 16);
    assert_eq!(info.name, 0x1000);
    assert_eq!(info.symtab, 0);
}
