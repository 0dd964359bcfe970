use adesh_aot::discovery::{
    clang_candidates, linker_not_found_message, lld_candidates_near, lld_candidates_on_path, runtime_lib_candidates,
    runtime_lib_file, runtime_not_found_message, system_ld_candidates, RuntimeSearch, ToolchainEnv,
};
use adesh_aot::target::OsKind;

fn s(v: &[&str]) -> Vec<String> {
    v.iter().map(|x| x.to_string()).collect()
}

#[test]
fn clang_search_order() {
    let env = ToolchainEnv {
        toolchain_roots: s(&["/tc"]),
        homes: s(&["/home/adesh"]),
        exe_dir: Some("/opt/adesh/bin".to_string()),
        exe_parent: Some("/opt/adesh".to_string()),
        program_files: Vec::new(),
        drives: s(&["C:\\"]),
    };
    let c = clang_candidates(&env, false);
    assert_eq!(c[0], s(&["/tc", "bin", "clang"]));
    assert_eq!(c[1], s(&["/tc", "clang"]));
    assert_eq!(c[2], s(&["/home/adesh", "toolchain", "llvm", "bin", "clang"]));
    assert_eq!(c[3], s(&["/opt/adesh/bin", "toolchain", "llvm", "bin", "clang"]));
    assert_eq!(c[4], s(&["/opt/adesh", "toolchain", "llvm", "bin", "clang"]));
    assert_eq!(c[5], s(&["C:\\", "LLVM", "bin", "clang"]));
    assert_eq!(c[c.len() - 1], s(&["clang"]));
    assert_eq!(c.len(), 7 + 6);
    let w = clang_candidates(&env, true);
    assert_eq!(w[0], s(&["/tc", "bin", "clang.exe"]));
}

#[test]
fn lld_search_order() {
    let near = lld_candidates_near(Some("/llvm/bin"));
    assert_eq!(near.len(), 6);
    assert_eq!(near[0], s(&["/llvm/bin", "lld-link.exe"]));
    assert_eq!(near[5], s(&["/llvm/bin", "ld.lld"]));
    assert!(lld_candidates_near(None).is_empty());
    let path = lld_candidates_on_path(&s(&["/a", "/b"]), false);
    assert_eq!(path, vec![s(&["/a", "lld-link"]), s(&["/b", "lld-link"]), s(&["/a", "lld"]), s(&["/b", "lld"]), s(&["/a", "ld.lld"]), s(&["/b", "ld.lld"])]);
    assert_eq!(system_ld_candidates(&s(&["/usr/bin"]), true), vec![s(&["/usr/bin", "ld.exe"])]);
    assert!(linker_not_found_message().contains("lld or system ld"));
}

fn search(dev: bool) -> RuntimeSearch {
    RuntimeSearch {
        is_dev_env: dev,
        project_roots: s(&["/src/adesh"]),
        debug_build: true,
        exe_dir: Some("/opt/adesh/bin".to_string()),
        exe_dir_is_bin: true,
        exe_parent: Some("/opt/adesh".to_string()),
        homes: s(&["/h"]),
        triple_text: "x86_64-unknown-linux-gnu".to_string(),
        os: OsKind::Linux,
    }
}

#[test]
fn runtime_search_order() {
    let lib = "libadeshlang.a";
    let t = "x86_64-unknown-linux-gnu";
    let dev = runtime_lib_candidates(&search(true));
    assert_eq!(dev[0], s(&["/src/adesh", "target", t, "debug", lib]));
    assert_eq!(dev[1], s(&["/src/adesh", "target", "debug", lib]));
    assert_eq!(dev[2], s(&["/src/adesh", "target", t, "release", lib]));
    assert_eq!(dev[4], s(&["/opt/adesh", "lib", t, lib]));
    assert_eq!(dev[6], s(&["/opt/adesh/bin", lib]));
    assert_eq!(dev[8], s(&["/h", "lib", t, lib]));
    assert_eq!(dev.len(), 12);
    let inst = runtime_lib_candidates(&search(false));
    assert_eq!(inst[0], s(&["/opt/adesh", "lib", t, lib]));
    assert_eq!(inst[11], s(&["/src/adesh", "target", "release", lib]));
    assert_eq!(runtime_lib_file(OsKind::Windows), "adeshlang.lib");
}

#[test]
fn runtime_not_found_report() {
    let m = runtime_not_found_message("libadeshlang.a", "t", &s(&["/a", "/b"]));
    assert_eq!(
        m,
        "Static runtime library (libadeshlang.a) not found for target t.\n\nSearched in:\n  /a\n  /b\n\nTo resolve this:\n• If using an installed AdeshLang, run `adl doctor` or `adl repair` to check/repair the installation.\n• If developing AdeshLang, build the library with: `cargo build --release --target t`"
    );
}
