use adesh_aot::header::{LirFunction, LirModule, LirType};
use adesh_aot::object::{
    create_object_module, create_string_data, declare_runtime_functions, declare_user_function, emit_object,
    runtime_imports, StringTable,
};
use adesh_aot::options::{AotOptions, CraneliftAotCompiler};
use adesh_aot::target::TargetSpec;
use cranelift_codegen::isa::CallConv;

fn linux() -> TargetSpec {
    TargetSpec::parse("x86_64-unknown-linux-gnu").unwrap()
}

fn flags() -> cranelift_codegen::settings::Flags {
    CraneliftAotCompiler::new().build_isa_flags().unwrap()
}

#[test]
fn runtime_import_list() {
    let v = runtime_imports();
    assert_eq!(v.len(), 15);
    assert_eq!(v[0].name, "printf");
    assert_eq!(v[3].name, "memcpy");
    assert_eq!(v[3].params.len(), 3);
    assert!(v[4].required);
    assert!(!v[5].required);
    assert_eq!(v[14].name, "adesh_rt_arc_weak_count");
}

#[test]
fn unsupported_targets_are_refused() {
    let t = TargetSpec::parse("riscv32imac-unknown-none-elf").unwrap();
    let e = create_object_module(&t, flags()).err().unwrap();
    assert_eq!(e, "Unsupported target: riscv32imac-unknown-none-elf");
}

#[test]
fn a_module_with_runtime_strings_and_functions_is_written() {
    let mut m = create_object_module(&linux(), flags()).unwrap();
    let decls = declare_runtime_functions(&mut m, CallConv::SystemV).unwrap();
    assert!(decls.heap_guard_func.is_some());
    let mut table = StringTable::new();
    create_string_data(&mut m, &mut table, &vec!["hello".to_string()], true).unwrap();
    assert!(table.contains("hello"));
    assert!(table.contains("%lld\n"));
    assert!(table.get("hello").is_some());
    assert!(table.get("absent").is_none());
    assert_eq!(table.len(), 1 + 3 + 67);
    let f = LirFunction { name: "f".to_string(), params: vec![("x".to_string(), LirType::I64)], ret_type: LirType::I64, is_exported: true, blocks: vec![], entry_block: 0 };
    declare_user_function(&mut m, &f, CallConv::SystemV).unwrap();
    let e = declare_user_function(&mut m, &LirFunction { name: "f".to_string(), params: vec![], ret_type: LirType::Void, is_exported: false, blocks: vec![], entry_block: 0 }, CallConv::SystemV)
        .err()
        .unwrap();
    assert!(e.starts_with("Failed to declare function f: "));
    let bytes = emit_object(m).unwrap();
    assert_eq!(&bytes[0..4], b"\x7fELF");
}

#[test]
fn second_placement_adds_nothing() {
    let mut m = create_object_module(&linux(), flags()).unwrap();
    let mut table = StringTable::new();
    create_string_data(&mut m, &mut table, &vec!["a".to_string()], false).unwrap();
    let n = table.len();
    create_string_data(&mut m, &mut table, &vec!["a".to_string()], false).unwrap();
    assert_eq!(table.len(), n);
}

#[test]
fn build_object_declares_functions_in_order() {
    let mut o = AotOptions::default();
    o.target_triple = Some("x86_64-unknown-linux-gnu".to_string());
    o.library_mode = true;
    let c = CraneliftAotCompiler::with_options(o);
    let lir = LirModule {
        functions: vec![
            LirFunction { name: "main".to_string(), params: vec![], ret_type: LirType::I32, is_exported: false, blocks: vec![], entry_block: 0 },
            LirFunction { name: "g".to_string(), params: vec![], ret_type: LirType::I64, is_exported: true, blocks: vec![], entry_block: 0 },
        ],
    };
    let parts = c.build_object(&lir, &vec!["#00ff00".to_string()]).unwrap();
    let names: Vec<&str> = parts.functions.iter().map(|(n, _)| n.as_str()).collect();
    assert_eq!(names, vec!["g"]);
    assert_eq!(parts.strings[1], "\x1b[38;2;0;255;0m");
    assert_eq!(&parts.bytes[0..4], b"\x7fELF");
    let h = c.generate_header(&lir);
    assert!(h.contains("int64_t g(void);"));
}

#[test]
fn runtime_declared_twice_fails_defining_the_array_buffer() {
    let mut m = create_object_module(&linux(), flags()).unwrap();
    declare_runtime_functions(&mut m, CallConv::SystemV).unwrap();
    let e = declare_runtime_functions(&mut m, CallConv::SystemV).err().unwrap();
    assert!(e.starts_with("Failed to define array buffer: "));
}

#[test]
fn a_user_function_cannot_take_a_global_name() {
    let mut m = create_object_module(&linux(), flags()).unwrap();
    declare_runtime_functions(&mut m, CallConv::SystemV).unwrap();
    let f = LirFunction { name: "__argc".to_string(), params: vec![], ret_type: LirType::I64, is_exported: true, blocks: vec![], entry_block: 0 };
    let e = declare_user_function(&mut m, &f, CallConv::SystemV).err().unwrap();
    assert!(e.starts_with("Failed to declare function __argc: "));
    let g = LirFunction { name: "fresh_name".to_string(), params: vec![], ret_type: LirType::I64, is_exported: true, blocks: vec![], entry_block: 0 };
    assert!(declare_user_function(&mut m, &g, CallConv::SystemV).is_ok());
}

#[test]
fn build_object_refuses_an_unparsable_triple() {
    let mut o = AotOptions::default();
    o.target_triple = Some("not a triple".to_string());
    let c = CraneliftAotCompiler::with_options(o);
    let lir = LirModule { functions: vec![] };
    let e = c.build_object(&lir, &vec![]).err().unwrap();
    assert!(e.starts_with("Invalid target triple 'not a triple': "));
}

#[test]
fn strings_already_held_keep_their_data_objects() {
    let mut m = create_object_module(&linux(), flags()).unwrap();
    let mut table = StringTable::new();
    create_string_data(&mut m, &mut table, &vec!["hello".to_string()], true).unwrap();
    let id = table.get("hello").unwrap();
    create_string_data(&mut m, &mut table, &vec!["hello".to_string(), "more".to_string()], true).unwrap();
    assert_eq!(table.get("hello"), Some(id));
    assert!(table.contains("more"));
}
