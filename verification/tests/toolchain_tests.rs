use adesh_aot::attempts::RunOutcome;
use adesh_aot::target::TargetSpec;
use adesh_aot::options::{AotOptions, OutputFormat};
use adesh_aot::toolchain::{
    clang_lld_link_args, link_library_only, lld_link_link_args, WindowsLibPaths,
    get_linker_args_for_target, get_linker_args_for_target_with_runtime, get_linux_dynamic_linker,
    get_target_prefix, get_zig_target, link_cross, link_cross_with_runtime, uses_lld_link,
};

fn t(s: &str) -> TargetSpec {
    TargetSpec::parse(s).unwrap()
}

#[test]
fn zig_targets() {
    assert_eq!(get_zig_target(&t("x86_64-unknown-linux-gnu")).as_deref(), Some("x86_64-linux-gnu"));
    assert_eq!(get_zig_target(&t("aarch64-apple-darwin")).as_deref(), Some("aarch64-macos-none"));
}

#[test]
fn cross_prefixes() {
    assert_eq!(get_target_prefix(&t("x86_64-unknown-linux-gnu")).unwrap(), "x86_64-linux-gnu");
    assert!(get_target_prefix(&t("riscv64gc-unknown-linux-gnu")).is_err());
}

#[test]
fn loaders() {
    assert_eq!(get_linux_dynamic_linker(&t("x86_64-unknown-linux-gnu")).unwrap(), "/lib64/ld-linux-x86-64.so.2");
    assert_eq!(get_linux_dynamic_linker(&t("aarch64-unknown-linux-gnu")).unwrap(), "/lib/ld-linux-aarch64.so.1");
}

#[test]
fn cross_link_arguments() {
    let a = get_linker_args_for_target_with_runtime(&t("x86_64-pc-windows-gnu"), "a.o", "rt.o", "a.exe");
    assert_eq!(a, vec!["-o", "a.exe", "a.o", "rt.o", "-lkernel32", "-lmsvcrt"]);
    let b = get_linker_args_for_target(&t("x86_64-apple-darwin"), "a.o", "a");
    assert_eq!(b, vec!["-o", "a", "a.o", "-lSystem"]);
    let c = get_linker_args_for_target(&t("x86_64-unknown-linux-gnu"), "a.o", "a");
    assert_eq!(c, vec!["-o", "a", "a.o", "-lc", "-Wl,--dynamic-linker", "-Wl,/lib64/ld-linux-x86-64.so.2"]);
}

#[test]
fn cross_plans_try_each_compiler() {
    let plan = link_cross_with_runtime(&t("x86_64-unknown-linux-gnu"), "a.o", "rt.o", "a");
    let programs: Vec<&str> = plan.attempts.iter().map(|a| a.command.program.as_str()).collect();
    assert_eq!(programs, vec!["x86_64-linux-gnu-gcc", "clang", "clang", "zig"]);
    assert_eq!(plan.attempts[1].command.args[1], "-fuse-ld=lld");
    let r = plan.run_with(&vec![RunOutcome::NotStarted("x".to_string()), RunOutcome::Succeeded]);
    assert_eq!(r, Some(Ok(())));
}

#[test]
fn cross_plan_failure_names_the_last_error() {
    let plan = link_cross(&t("x86_64-unknown-linux-gnu"), "a.o", "a");
    let outs: Vec<RunOutcome> = (0..plan.attempts.len()).map(|i| RunOutcome::Failed(format!("e{}", i))).collect();
    let e = plan.run_with(&outs).unwrap().unwrap_err();
    assert!(e.starts_with("Cross-compilation linking failed for target x86_64-unknown-linux-gnu.\nLast error: zig failed: e3"));
    assert!(e.contains("apt install gcc-x86_64-linux-gnu"));
}

#[test]
fn lld_link_for_msvc_targets() {
    assert!(uses_lld_link(&t("x86_64-pc-windows-msvc")));
    assert!(!uses_lld_link(&t("x86_64-unknown-linux-gnu")));
}

#[test]
fn clang_lld_arguments() {
    let mut o = AotOptions::default();
    o.opt_level = 3;
    o.link_libs = vec!["m".to_string()];
    let a = clang_lld_link_args(&o, "ld.lld", &t("x86_64-unknown-linux-gnu"), "a.o", "rt.a", "a", OutputFormat::Executable);
    assert_eq!(
        a,
        vec![
            "-fuse-ld=lld",
            "--target=x86_64-unknown-linux-gnu",
            "-o",
            "a",
            "-O3",
            "-ffunction-sections",
            "-fdata-sections",
            "-Wl,--gc-sections",
            "-s",
            "-no-pie",
            "a.o",
            "rt.a",
            "-lm",
            "-lc",
            "-lpthread",
            "-ldl",
            "-lm"
        ]
    );
    o.fast_compile = true;
    let b = clang_lld_link_args(&o, "ld", &t("x86_64-apple-darwin"), "a.o", "rt.a", "a.dylib", OutputFormat::SharedLib);
    assert_eq!(b[0], "--target=x86_64-apple-darwin");
    assert_eq!(&b[3..6], &["-O0", "-Wl,--no-gc-sections", "-shared"]);
}

#[test]
fn lld_link_arguments() {
    let o = AotOptions::default();
    let w = WindowsLibPaths {
        sdk_paths: None,
        sdk_env: Some(("C:\\Kits\\".to_string(), "10.0.1\\".to_string())),
        msvc_path: Some("C:\\VC\\lib\\x64".to_string()),
        vctools_env: None,
    };
    let a = lld_link_link_args(&o, "a.obj", "rt.lib", "a.dll", "a.lib", OutputFormat::SharedLib, &w);
    assert_eq!(&a[0..3], &["/NOLOGO", "/MACHINE:X64", "/OUT:a.dll"]);
    assert!(a.contains(&"/DLL".to_string()));
    assert!(a.contains(&"/IMPLIB:a.lib".to_string()));
    assert!(a.contains(&"/LIBPATH:C:\\Kits\\Lib\\10.0.1um\\x64".to_string()));
    assert!(a.contains(&"/LIBPATH:C:\\VC\\lib\\x64".to_string()));
    assert!(a.contains(&"legacy_stdio_definitions.lib".to_string()));
}

#[test]
fn library_only_plans() {
    let p = link_library_only(OutputFormat::StaticLib, "clang", "llvm-ar", "a.o", "liba.a", &t("x86_64-unknown-linux-gnu")).unwrap();
    assert_eq!(p.attempts[0].command.program, "llvm-ar");
    assert_eq!(p.attempts[0].command.args, vec!["rcs", "liba.a", "a.o"]);
    let e = link_library_only(OutputFormat::Object, "clang", "ar", "a.o", "a", &t("x86_64-unknown-linux-gnu")).unwrap_err();
    assert_eq!(e, "link_library_only called for non-library format");
    let p = link_library_only(OutputFormat::SharedLib, "/usr/bin/clang", "ar", "a.o", "a.so", &t("x86_64-unknown-linux-gnu")).unwrap();
    let r = p.run_with(&vec![RunOutcome::Failed("nope".to_string())]).unwrap();
    assert_eq!(r.unwrap_err(), "Shared library linking failed: nope");
}
