use adesh_aot::options::{
    assembly_unsupported, extension, is_linker_temp_file, output_action, AotOptions, CraneliftAotCompiler,
    OutputAction, OutputFormat,
};
use adesh_aot::target::{OsKind, TargetSpec};
use cranelift_codegen::isa::CallConv;

#[test]
fn test_aot_compiler_creation() {
    let compiler = CraneliftAotCompiler::new();
    assert_eq!(compiler.get_options().opt_level, 2);
}

#[test]
fn test_output_extension() {
    let compiler = CraneliftAotCompiler::new();
    let ext = compiler.output_extension();
    if TargetSpec::host().os == OsKind::Windows {
        assert_eq!(ext, ".exe");
    } else {
        assert_eq!(ext, "");
    }
}

#[test]
fn test_aot_options() {
    let options = AotOptions {
        opt_level: 3,
        target_triple: Some("x86_64-unknown-linux-gnu".to_string()),
        output_format: OutputFormat::SharedLib,
        debug_info: true,
        flags: Vec::new(),
        library_mode: false,
        include_dirs: vec!["/usr/local/include".to_string()],
        lib_dirs: vec!["/usr/local/lib".to_string()],
        link_libs: vec!["m".to_string()],
        extra_linker_args: vec!["-pthread".to_string()],
        fast_compile: false,
        enable_dead_code_elimination: true,
        enable_lto: false,
        incremental: true,
        cache_dir: None,
        force_rebuild: false,
    };
    let compiler = CraneliftAotCompiler::with_options(options.clone());
    assert_eq!(compiler.get_options().opt_level, 3);
    assert!(compiler.get_options().debug_info);
    assert!(compiler.get_options().incremental);
}

#[test]
fn extensions_by_format_and_os() {
    assert_eq!(extension(OutputFormat::Executable, OsKind::Windows), ".exe");
    assert_eq!(extension(OutputFormat::Executable, OsKind::Linux), "");
    assert_eq!(extension(OutputFormat::SharedLib, OsKind::Linux), ".so");
    assert_eq!(extension(OutputFormat::SharedLib, OsKind::MacOSX), ".dylib");
    assert_eq!(extension(OutputFormat::SharedLib, OsKind::Windows), ".dll");
    assert_eq!(extension(OutputFormat::StaticLib, OsKind::Windows), ".lib");
    assert_eq!(extension(OutputFormat::StaticLib, OsKind::Linux), ".a");
    assert_eq!(extension(OutputFormat::Object, OsKind::Windows), ".obj");
    assert_eq!(extension(OutputFormat::Object, OsKind::Linux), ".o");
    assert_eq!(extension(OutputFormat::Assembly, OsKind::Linux), ".s");
}

#[test]
fn output_extension_of_a_given_target() {
    let mut o = AotOptions::default();
    o.target_triple = Some("x86_64-pc-windows-msvc".to_string());
    o.output_format = OutputFormat::SharedLib;
    assert_eq!(CraneliftAotCompiler::with_options(o).output_extension(), ".dll");
}

#[test]
fn target_triple_from_options() {
    let mut o = AotOptions::default();
    o.target_triple = Some("aarch64-unknown-linux-gnu".to_string());
    let t = CraneliftAotCompiler::with_options(o).get_target_triple().unwrap();
    assert_eq!(t.text, "aarch64-unknown-linux-gnu");
    let mut o = AotOptions::default();
    o.target_triple = Some("bogus".to_string());
    let e = CraneliftAotCompiler::with_options(o).get_target_triple().unwrap_err();
    assert!(e.starts_with("Invalid target triple 'bogus': "));
}

#[test]
fn calling_convention_by_os() {
    let c = CraneliftAotCompiler::new();
    let w = TargetSpec::parse("x86_64-pc-windows-msvc").unwrap();
    let l = TargetSpec::parse("x86_64-unknown-linux-gnu").unwrap();
    let m = TargetSpec::parse("aarch64-apple-darwin").unwrap();
    assert_eq!(c.get_calling_convention(&w).unwrap(), CallConv::WindowsFastcall);
    assert_eq!(c.get_calling_convention(&l).unwrap(), CallConv::SystemV);
    assert_eq!(c.get_calling_convention(&m).unwrap(), CallConv::SystemV);
}

#[test]
fn optimisation_level_names() {
    let mut o = AotOptions::default();
    for (level, name) in [(0u8, "none"), (1, "speed"), (2, "speed_and_size"), (3, "speed")] {
        o.opt_level = level;
        assert_eq!(CraneliftAotCompiler::with_options(o.clone()).isa_opt_level(), name);
    }
    o.fast_compile = true;
    o.opt_level = 2;
    assert_eq!(CraneliftAotCompiler::with_options(o).isa_opt_level(), "none");
}

#[test]
fn isa_settings_in_order() {
    let mut o = AotOptions::default();
    o.debug_info = true;
    o.flags = vec![("regalloc_checker".to_string(), "true".to_string())];
    let s = CraneliftAotCompiler::with_options(o).isa_settings();
    let names: Vec<&str> = s.iter().map(|x| x.name.as_str()).collect();
    assert_eq!(
        names,
        vec![
            "opt_level",
            "enable_probestack",
            "probestack_strategy",
            "use_colocated_libcalls",
            "enable_simd",
            "enable_verifier",
            "regalloc_checker"
        ]
    );
    assert_eq!(s[6].error_prefix, "Failed to set flag regalloc_checker=true: ");
}

#[test]
fn flags_build_and_unknown_flags_fail() {
    assert!(CraneliftAotCompiler::new().build_isa_flags().is_ok());
    let mut o = AotOptions::default();
    o.flags = vec![("no_such_setting".to_string(), "1".to_string())];
    let e = CraneliftAotCompiler::with_options(o).build_isa_flags().err().unwrap();
    assert!(e.starts_with("Failed to set flag no_such_setting=1: "));
}

#[test]
fn what_becomes_of_the_object() {
    assert_eq!(output_action(OutputFormat::Object, false), OutputAction::WriteObject);
    assert_eq!(output_action(OutputFormat::Executable, true), OutputAction::LinkWithRuntime);
    assert_eq!(output_action(OutputFormat::SharedLib, true), OutputAction::LinkLibraryOnly);
    assert_eq!(output_action(OutputFormat::StaticLib, false), OutputAction::LinkWithRuntime);
    assert_eq!(output_action(OutputFormat::Assembly, false), OutputAction::Unsupported);
    assert_eq!(assembly_unsupported(), "Assembly output not yet implemented");
}

#[test]
fn linker_temporary_files() {
    assert!(is_linker_temp_file("prog", "prog.tmp123"));
    assert!(!is_linker_temp_file("prog", "prog.o"));
    assert!(!is_linker_temp_file("prog", "other.tmp"));
}

#[test]
fn parsed_triples_carry_their_kinds() {
    let t = TargetSpec::parse("x86_64-pc-windows-msvc").unwrap();
    assert_eq!(t.os, OsKind::Windows);
    assert!(t.vendor_pc);
    let t = TargetSpec::parse("aarch64-apple-darwin").unwrap();
    assert_eq!(t.os, OsKind::Darwin);
    assert!(!t.vendor_pc);
    let mut o = AotOptions::default();
    o.target_triple = Some("x86_64-unknown-linux-gnu".to_string());
    o.output_format = OutputFormat::SharedLib;
    assert_eq!(CraneliftAotCompiler::with_options(o).output_extension(), ".so");
}
