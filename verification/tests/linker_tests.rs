use adesh_aot::attempts::{LinkStep, RunOutcome};
use adesh_aot::linker::{LinkPaths, LinkerConfig, LinkerDriver, OutputType};
use adesh_aot::target::{ArchKind, OsKind, TargetSpec};

fn target(text: &str) -> TargetSpec {
    TargetSpec::parse(text).unwrap()
}

fn paths() -> LinkPaths {
    LinkPaths {
        obj_path: "prog.o".to_string(),
        runtime_obj: "rt.o".to_string(),
        output: "prog".to_string(),
        output_file_name: Some("prog".to_string()),
        import_lib: "prog.lib".to_string(),
    }
}

fn config_for(text: &str, output_type: OutputType) -> LinkerConfig {
    let mut c = LinkerConfig::default();
    c.target_triple = target(text);
    c.output_type = output_type;
    c
}

#[test]
fn test_linker_config_default() {
    let config = LinkerConfig::default();
    assert_eq!(config.output_type, OutputType::Executable);
    assert_eq!(config.opt_level, 2);
    assert!(!config.debug_info);
}

#[test]
fn test_linker_driver_creation() {
    let config = LinkerConfig::default();
    let driver = LinkerDriver::new(config);
    assert_eq!(driver.get_config().output_type, OutputType::Executable);
}

#[test]
fn target_spec_reads_the_triple() {
    let t = target("aarch64-unknown-linux-musl");
    assert_eq!(t.arch, ArchKind::Aarch64);
    assert_eq!(t.os, OsKind::Linux);
    assert_eq!(t.text, "aarch64-unknown-linux-musl");
    let w = target("x86_64-pc-windows-msvc");
    assert_eq!(w.os, OsKind::Windows);
    assert!(w.vendor_pc);
}

#[test]
fn invalid_triple_is_reported() {
    let e = TargetSpec::parse("not-a-real-triple-at-all").err().unwrap();
    assert!(e.starts_with("Invalid target triple 'not-a-real-triple-at-all': "));
}

#[test]
fn dynamic_linker_by_architecture() {
    let d = LinkerDriver::new(config_for("aarch64-unknown-linux-gnu", OutputType::Executable));
    assert_eq!(d.get_linux_dynamic_linker().unwrap(), "/lib/ld-linux-aarch64.so.1");
    let d = LinkerDriver::new(config_for("x86_64-unknown-linux-gnu", OutputType::Executable));
    assert_eq!(d.get_linux_dynamic_linker().unwrap(), "/lib64/ld-linux-x86-64.so.2");
}

#[test]
fn target_prefixes() {
    let d = LinkerDriver::new(LinkerConfig::default());
    assert_eq!(d.get_target_prefix(&target("x86_64-unknown-linux-gnu")).unwrap(), "x86_64-linux-gnu");
    assert_eq!(d.get_target_prefix(&target("aarch64-unknown-linux-musl")).unwrap(), "aarch64-linux-musl");
    assert_eq!(d.get_target_prefix(&target("x86_64-pc-windows-gnu")).unwrap(), "x86_64-w64-mingw32");
    assert_eq!(
        d.get_target_prefix(&target("x86_64-apple-darwin")).unwrap_err(),
        "Unsupported OS for cross-compilation"
    );
    assert_eq!(
        d.get_target_prefix(&target("riscv64gc-unknown-linux-gnu")).unwrap_err(),
        "Unknown architecture"
    );
}

#[test]
fn msvc_arguments_for_an_executable_and_a_dll() {
    let mut c = config_for("x86_64-pc-windows-msvc", OutputType::Executable);
    c.link_libs = vec!["user32".to_string()];
    let d = LinkerDriver::new(c);
    assert_eq!(
        d.msvc_args(&paths()),
        vec!["/NOLOGO", "/ENTRY:main", "/SUBSYSTEM:CONSOLE", "/OUT:prog", "prog.o", "rt.o", "kernel32.lib", "msvcrt.lib", "user32.lib"]
    );
    let mut c = config_for("x86_64-pc-windows-msvc", OutputType::SharedLib);
    c.library_mode = true;
    let d = LinkerDriver::new(c);
    assert_eq!(d.msvc_args(&paths()), vec!["/NOLOGO", "/DLL", "/IMPLIB:prog.lib", "/OUT:prog", "prog.o"]);
}

#[test]
fn ld_arguments() {
    let d = LinkerDriver::new(config_for("x86_64-unknown-linux-gnu", OutputType::Executable));
    assert_eq!(
        d.ld_args(&paths()),
        vec!["-o", "prog", "prog.o", "rt.o", "-lc", "-dynamic-linker", "/lib64/ld-linux-x86-64.so.2"]
    );
    let d = LinkerDriver::new(config_for("x86_64-unknown-linux-gnu", OutputType::SharedLib));
    assert_eq!(
        d.ld_args(&paths()),
        vec!["-o", "prog", "prog.o", "rt.o", "-shared", "-lc", "-soname", "prog"]
    );
}

#[test]
fn native_plan_falls_back_until_a_linker_succeeds() {
    let d = LinkerDriver::new(config_for("x86_64-unknown-linux-gnu", OutputType::Executable));
    let plan = d.plan_link(true, &paths());
    assert_eq!(plan.attempts[0].command.program, "ld");
    assert_eq!(plan.attempts[1].command.program, "gcc");
    assert_eq!(plan.attempts.len(), 7);
    let r = plan.run_with(&vec![RunOutcome::Failed("bad".to_string()), RunOutcome::Succeeded]);
    assert_eq!(r, Some(Ok(())));
    let r = plan.run_with(&vec![RunOutcome::Failed("bad".to_string())]);
    assert_eq!(r, None);
}

#[test]
fn native_plan_reports_the_last_failure() {
    let d = LinkerDriver::new(config_for("x86_64-unknown-linux-gnu", OutputType::Executable));
    let plan = d.plan_link(true, &paths());
    let mut outcomes = Vec::new();
    for _ in 0..plan.attempts.len() {
        outcomes.push(RunOutcome::Failed("boom".to_string()));
    }
    let r = plan.run_with(&outcomes).unwrap();
    let e = r.unwrap_err();
    assert!(e.starts_with("clang linking failed: boom"));
}

#[test]
fn missing_compiler_skips_its_other_tries() {
    let d = LinkerDriver::new(config_for("x86_64-unknown-linux-gnu", OutputType::Executable));
    let plan = d.plan_link(true, &paths());
    let (p0, s0) = plan.start();
    assert!(matches!(s0, LinkStep::Run(0)));
    let (p1, s1) = plan.advance(&p0, &RunOutcome::NotStarted("no ld".to_string()));
    assert!(matches!(s1, LinkStep::Run(1)));
    let (_, s2) = plan.advance(&p1, &RunOutcome::NotStarted("no gcc".to_string()));
    assert!(matches!(s2, LinkStep::Run(4)));
}

#[test]
fn cross_plan_ends_with_advice() {
    let d = LinkerDriver::new(config_for("aarch64-unknown-linux-gnu", OutputType::Executable));
    let plan = d.plan_link(false, &paths());
    assert_eq!(plan.attempts[0].command.program, "aarch64-linux-gnu-gcc");
    assert_eq!(plan.attempts[1].command.program, "clang");
    assert_eq!(plan.attempts[1].command.args[0], "--target=aarch64-unknown-linux-gnu");
    let outcomes = vec![RunOutcome::Failed("x".to_string()), RunOutcome::Failed("y".to_string())];
    let e = plan.run_with(&outcomes).unwrap().unwrap_err();
    assert_eq!(
        e,
        "Cross-compilation linking failed for target aarch64-unknown-linux-gnu. Install cross-compiler (e.g., aarch64-linux-gnu-gcc) or use --object to generate object file only."
    );
}
