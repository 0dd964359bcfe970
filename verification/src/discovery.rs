//! Where the native toolchain and the runtime library are looked for: the
//! candidate paths, in the order they are tried, built from what the
//! environment holds. A path is given as its components, joined by the
//! caller; checking which candidate exists is left to the caller too.

use vstd::prelude::*;
use crate::strs::{concat, owned, strings_view};
use crate::target::OsKind;

verus! {

/// The candidates `f` gives for each of `xs`, in order.
pub open spec fn expand(xs: Seq<Seq<char>>, f: spec_fn(Seq<char>) -> Seq<Seq<Seq<char>>>) -> Seq<Seq<Seq<char>>>
    decreases xs.len(),
{
    if xs.len() == 0 {
        Seq::empty()
    } else {
        expand(xs.drop_last(), f) + f(xs.last())
    }
}

/// The components of a list of paths.
pub open spec fn paths_view(v: Seq<Vec<String>>) -> Seq<Seq<Seq<char>>> {
    v.map_values(|p: Vec<String>| strings_view(p@))
}

/// A path of two components.
fn path2(a: &str, b: &str) -> (r: Vec<String>)
    ensures
        strings_view(r@) == seq![a@, b@],
{
    let mut r: Vec<String> = Vec::new();
    r.push(owned(a));
    r.push(owned(b));
    assert(strings_view(r@) =~= seq![a@, b@]);
    r
}

/// A path of three components.
fn path3(a: &str, b: &str, c: &str) -> (r: Vec<String>)
    ensures
        strings_view(r@) == seq![a@, b@, c@],
{
    let mut r = path2(a, b);
    let ghost before = r@;
    r.push(owned(c));
    assert(strings_view(r@) =~= strings_view(before).push(c@));
    r
}

/// A path of four components.
fn path4(a: &str, b: &str, c: &str, d: &str) -> (r: Vec<String>)
    ensures
        strings_view(r@) == seq![a@, b@, c@, d@],
{
    let mut r = path3(a, b, c);
    let ghost before = r@;
    r.push(owned(d));
    assert(strings_view(r@) =~= strings_view(before).push(d@));
    r
}

/// A path of five components.
fn path5(a: &str, b: &str, c: &str, d: &str, e: &str) -> (r: Vec<String>)
    ensures
        strings_view(r@) == seq![a@, b@, c@, d@, e@],
{
    let mut r = path4(a, b, c, d);
    let ghost before = r@;
    r.push(owned(e));
    assert(strings_view(r@) =~= strings_view(before).push(e@));
    r
}

/// A path of six components.
fn path6(a: &str, b: &str, c: &str, d: &str, e: &str, f: &str) -> (r: Vec<String>)
    ensures
        strings_view(r@) == seq![a@, b@, c@, d@, e@, f@],
{
    let mut r = path5(a, b, c, d, e);
    let ghost before = r@;
    r.push(owned(f));
    assert(strings_view(r@) =~= strings_view(before).push(f@));
    r
}

/// A path of one component.
fn path1(a: &str) -> (r: Vec<String>)
    ensures
        strings_view(r@) == seq![a@],
{
    let mut r: Vec<String> = Vec::new();
    r.push(owned(a));
    assert(strings_view(r@) =~= seq![a@]);
    r
}

fn push_path(out: &mut Vec<Vec<String>>, p: Vec<String>)
    ensures
        paths_view(final(out)@) == paths_view(old(out)@).push(strings_view(p@)),
{
    let ghost before = out@;
    out.push(p);
    assert(paths_view(out@) =~= paths_view(before).push(strings_view(p@)));
}

/// The executable suffix of the host's programs: `.exe` on Windows.
pub open spec fn exe_suffix(windows: bool) -> Seq<char> {
    if windows {
        ".exe"@
    } else {
        ""@
    }
}

fn exe_suffix_str(windows: bool) -> (s: &'static str)
    ensures
        s@ == exe_suffix(windows),
{
    if windows {
        ".exe"
    } else {
        ""
    }
}

// ------------------------------------------------------------------ clang

/// What the environment says about where a toolchain may be: the values
/// of the toolchain variables and home variables that are set (the
/// current name first, then the former one), the directory of the running
/// program and its parent, the program-files directories and the drive
/// roots.
#[derive(Debug, Clone)]
pub struct ToolchainEnv {
    pub toolchain_roots: Vec<String>,
    pub homes: Vec<String>,
    pub exe_dir: Option<String>,
    pub exe_parent: Option<String>,
    pub program_files: Vec<String>,
    pub drives: Vec<String>,
}

/// The candidates under an explicit toolchain root.
pub open spec fn toolchain_root_candidates(bin: Seq<char>) -> spec_fn(Seq<char>) -> Seq<Seq<Seq<char>>> {
    |r: Seq<char>| seq![seq![r, "bin"@, bin], seq![r, bin]]
}

/// The bundled toolchain under a directory.
pub open spec fn bundled(dir: Seq<char>, bin: Seq<char>) -> Seq<Seq<char>> {
    seq![dir, "toolchain"@, "llvm"@, "bin"@, bin]
}

/// The candidates under a program-files directory.
pub open spec fn program_files_candidates(bin: Seq<char>) -> spec_fn(Seq<char>) -> Seq<Seq<Seq<char>>> {
    |pf: Seq<char>| seq![seq![pf, "AdeshLang"@, "toolchain"@, "llvm"@, "bin"@, bin], seq![pf, "LLVM"@, "bin"@, bin]]
}

/// The candidates under a drive root.
pub open spec fn drive_candidates(bin: Seq<char>) -> spec_fn(Seq<char>) -> Seq<Seq<Seq<char>>> {
    |d: Seq<char>| seq![seq![d, "LLVM"@, "bin"@, bin], seq![d, "AdeshLang"@, "toolchain"@, "llvm"@, "bin"@, bin]]
}

/// The places `clang` is looked for, in order: under each explicit
/// toolchain root, in the bundled toolchain of each home, next to the
/// running program and its parent, under each program-files directory and
/// drive root, in the usual system locations, and last on `PATH`.
pub open spec fn clang_candidate_list(env: ToolchainEnv, windows: bool) -> Seq<Seq<Seq<char>>> {
    let bin = "clang"@ + exe_suffix(windows);
    expand(strings_view(env.toolchain_roots@), toolchain_root_candidates(bin)) + expand(
        strings_view(env.homes@),
        |h: Seq<char>| seq![bundled(h, bin)],
    ) + (match env.exe_dir {
        Some(d) => seq![bundled(d@, bin)] + (match env.exe_parent {
            Some(p) => seq![bundled(p@, bin)],
            None => Seq::empty(),
        }),
        None => Seq::empty(),
    }) + expand(strings_view(env.program_files@), program_files_candidates(bin)) + expand(
        strings_view(env.drives@),
        drive_candidates(bin),
    ) + seq![
        seq!["/usr/lib/llvm-18/bin/clang"@],
        seq!["/usr/lib/llvm-19/bin/clang"@],
        seq!["/usr/bin/clang"@],
        seq!["/usr/local/bin/clang"@],
        seq!["/opt/homebrew/opt/llvm/bin/clang"@],
        seq!["clang"@],
    ]
}

/// The places `clang` is looked for (see `clang_candidate_list`).
pub fn clang_candidates(env: &ToolchainEnv, windows: bool) -> (v: Vec<Vec<String>>)
    ensures
        paths_view(v@) == clang_candidate_list(*env, windows),
{
    let bin = concat("clang", exe_suffix_str(windows));
    let ghost b = bin@;
    let mut v: Vec<Vec<String>> = Vec::new();
    let mut i: usize = 0;
    while i < env.toolchain_roots.len()
        invariant
            b == bin@,
            i <= env.toolchain_roots@.len(),
            paths_view(v@) == expand(strings_view(env.toolchain_roots@.subrange(0, i as int)), toolchain_root_candidates(b)),
        decreases env.toolchain_roots.len() - i,
    {
        let r = env.toolchain_roots[i].as_str();
        let ghost before = paths_view(v@);
        push_path(&mut v, path3(r, "bin", bin.as_str()));
        push_path(&mut v, path2(r, bin.as_str()));
        assert(paths_view(v@) =~= before + toolchain_root_candidates(b)(r@));
        proof {
            let s = strings_view(env.toolchain_roots@.subrange(0, i + 1));
            assert(s.drop_last() =~= strings_view(env.toolchain_roots@.subrange(0, i as int)));
            assert(s.last() == r@);
        }
        i = i + 1;
    }
    assert(env.toolchain_roots@.subrange(0, i as int) =~= env.toolchain_roots@);
    let ghost p1 = paths_view(v@);
    let mut i: usize = 0;
    while i < env.homes.len()
        invariant
            b == bin@,
            i <= env.homes@.len(),
            paths_view(v@) == p1 + expand(strings_view(env.homes@.subrange(0, i as int)), |h: Seq<char>| seq![bundled(h, b)]),
        decreases env.homes.len() - i,
    {
        let h = env.homes[i].as_str();
        let ghost before = paths_view(v@);
        push_path(&mut v, path5(h, "toolchain", "llvm", "bin", bin.as_str()));
        assert(paths_view(v@) =~= before + seq![bundled(h@, b)]);
        proof {
            let s = strings_view(env.homes@.subrange(0, i + 1));
            assert(s.drop_last() =~= strings_view(env.homes@.subrange(0, i as int)));
            assert(s.last() == h@);
        }
        i = i + 1;
    }
    assert(env.homes@.subrange(0, i as int) =~= env.homes@);
    let ghost p2 = paths_view(v@);
    match &env.exe_dir {
        Some(d) => {
            push_path(&mut v, path5(d.as_str(), "toolchain", "llvm", "bin", bin.as_str()));
            match &env.exe_parent {
                Some(p) => {
                    push_path(&mut v, path5(p.as_str(), "toolchain", "llvm", "bin", bin.as_str()));
                },
                None => {},
            }
        },
        None => {},
    }
    let ghost p3 = paths_view(v@);
    let mut i: usize = 0;
    while i < env.program_files.len()
        invariant
            b == bin@,
            i <= env.program_files@.len(),
            paths_view(v@) == p3 + expand(strings_view(env.program_files@.subrange(0, i as int)), program_files_candidates(b)),
        decreases env.program_files.len() - i,
    {
        let pf = env.program_files[i].as_str();
        let ghost before = paths_view(v@);
        push_path(&mut v, path6(pf, "AdeshLang", "toolchain", "llvm", "bin", bin.as_str()));
        push_path(&mut v, path4(pf, "LLVM", "bin", bin.as_str()));
        assert(paths_view(v@) =~= before + program_files_candidates(b)(pf@));
        proof {
            let s = strings_view(env.program_files@.subrange(0, i + 1));
            assert(s.drop_last() =~= strings_view(env.program_files@.subrange(0, i as int)));
            assert(s.last() == pf@);
        }
        i = i + 1;
    }
    assert(env.program_files@.subrange(0, i as int) =~= env.program_files@);
    let ghost p4 = paths_view(v@);
    let mut i: usize = 0;
    while i < env.drives.len()
        invariant
            b == bin@,
            i <= env.drives@.len(),
            paths_view(v@) == p4 + expand(strings_view(env.drives@.subrange(0, i as int)), drive_candidates(b)),
        decreases env.drives.len() - i,
    {
        let d = env.drives[i].as_str();
        let ghost before = paths_view(v@);
        push_path(&mut v, path4(d, "LLVM", "bin", bin.as_str()));
        push_path(&mut v, path6(d, "AdeshLang", "toolchain", "llvm", "bin", bin.as_str()));
        assert(paths_view(v@) =~= before + drive_candidates(b)(d@));
        proof {
            let s = strings_view(env.drives@.subrange(0, i + 1));
            assert(s.drop_last() =~= strings_view(env.drives@.subrange(0, i as int)));
            assert(s.last() == d@);
        }
        i = i + 1;
    }
    assert(env.drives@.subrange(0, i as int) =~= env.drives@);
    let ghost p5 = paths_view(v@);
    push_path(&mut v, path1("/usr/lib/llvm-18/bin/clang"));
    push_path(&mut v, path1("/usr/lib/llvm-19/bin/clang"));
    push_path(&mut v, path1("/usr/bin/clang"));
    push_path(&mut v, path1("/usr/local/bin/clang"));
    push_path(&mut v, path1("/opt/homebrew/opt/llvm/bin/clang"));
    push_path(&mut v, path1("clang"));
    assert(paths_view(v@) =~= clang_candidate_list(*env, windows));
    v
}

/// The report when no `clang` was found.
pub fn clang_not_found_message() -> (s: String)
    ensures
        s@ == "❌ AdeshLang native toolchain (LLVM clang + lld) not found!\n\nAdeshLang requires LLVM (clang + lld) for AOT native compilation.\n\nPlease run `adl doctor` to diagnose installation issues or run `adl repair` to restore the toolchain.\nOr set ADESH_HOME (or legacy ADESHLANG_HOME) to your AdeshLang installation directory,\n        or run `adesh toolchain install` to download the pinned LLVM toolchain."@,
{
    owned(
        "❌ AdeshLang native toolchain (LLVM clang + lld) not found!\n\nAdeshLang requires LLVM (clang + lld) for AOT native compilation.\n\nPlease run `adl doctor` to diagnose installation issues or run `adl repair` to restore the toolchain.\nOr set ADESH_HOME (or legacy ADESHLANG_HOME) to your AdeshLang installation directory,\n        or run `adesh toolchain install` to download the pinned LLVM toolchain.",
    )
}

// -------------------------------------------------------------------- lld

/// The linker programs looked for next to `clang`, in order.
pub open spec fn lld_names_near() -> Seq<Seq<char>> {
    seq!["lld-link.exe"@, "lld-link"@, "lld.exe"@, "lld"@, "ld.lld.exe"@, "ld.lld"@]
}

/// The linker programs looked for on `PATH`, in order, each with the
/// host's executable suffix.
pub open spec fn lld_names_on_path() -> Seq<Seq<char>> {
    seq!["lld-link"@, "lld"@, "ld.lld"@]
}

/// The places lld is looked for in the directory of `clang`, in order.
pub open spec fn lld_near_list(clang_dir: Option<Seq<char>>) -> Seq<Seq<Seq<char>>> {
    match clang_dir {
        Some(d) => lld_names_near().map_values(|n: Seq<char>| seq![d, n]),
        None => Seq::empty(),
    }
}

/// Each directory of `PATH` with `name`.
pub open spec fn in_each(dirs: Seq<Seq<char>>, name: Seq<char>) -> Seq<Seq<Seq<char>>> {
    dirs.map_values(|d: Seq<char>| seq![d, name])
}

/// The places lld is looked for on `PATH`: every directory for the first
/// name, then for the second, then for the third.
pub open spec fn lld_path_list(path_dirs: Seq<Seq<char>>, windows: bool) -> Seq<Seq<Seq<char>>> {
    in_each(path_dirs, "lld-link"@ + exe_suffix(windows)) + in_each(path_dirs, "lld"@ + exe_suffix(windows))
        + in_each(path_dirs, "ld.lld"@ + exe_suffix(windows))
}

fn push_in_each(v: &mut Vec<Vec<String>>, dirs: &Vec<String>, name: &str)
    ensures
        paths_view(final(v)@) == paths_view(old(v)@) + in_each(strings_view(dirs@), name@),
{
    let ghost start = paths_view(v@);
    let mut i: usize = 0;
    while i < dirs.len()
        invariant
            i <= dirs@.len(),
            paths_view(v@) == start + in_each(strings_view(dirs@.subrange(0, i as int)), name@),
        decreases dirs.len() - i,
    {
        let ghost before = paths_view(v@);
        push_path(v, path2(dirs[i].as_str(), name));
        assert(paths_view(v@) =~= before.push(seq![dirs@[i as int]@, name@]));
        assert(in_each(strings_view(dirs@.subrange(0, i + 1)), name@) =~= in_each(
            strings_view(dirs@.subrange(0, i as int)),
            name@,
        ).push(seq![dirs@[i as int]@, name@]));
        i = i + 1;
    }
    assert(dirs@.subrange(0, i as int) =~= dirs@);
}

/// The places lld is looked for next to `clang` (see `lld_near_list`);
/// any that exists is taken.
pub fn lld_candidates_near(clang_dir: Option<&str>) -> (v: Vec<Vec<String>>)
    ensures
        paths_view(v@) == lld_near_list(
            match clang_dir {
                Some(d) => Some(d@),
                None => None,
            },
        ),
{
    let mut v: Vec<Vec<String>> = Vec::new();
    match clang_dir {
        Some(d) => {
            push_path(&mut v, path2(d, "lld-link.exe"));
            push_path(&mut v, path2(d, "lld-link"));
            push_path(&mut v, path2(d, "lld.exe"));
            push_path(&mut v, path2(d, "lld"));
            push_path(&mut v, path2(d, "ld.lld.exe"));
            push_path(&mut v, path2(d, "ld.lld"));
            assert(paths_view(v@) =~= lld_near_list(Some(d@)));
        },
        None => {
            assert(paths_view(v@) =~= lld_near_list(None));
        },
    }
    v
}

/// The places lld is looked for on `PATH` (see `lld_path_list`); any that
/// is a file is taken.
pub fn lld_candidates_on_path(path_dirs: &Vec<String>, windows: bool) -> (v: Vec<Vec<String>>)
    ensures
        paths_view(v@) == lld_path_list(strings_view(path_dirs@), windows),
{
    let suffix = exe_suffix_str(windows);
    let mut v: Vec<Vec<String>> = Vec::new();
    let n1 = concat("lld-link", suffix);
    let n2 = concat("lld", suffix);
    let n3 = concat("ld.lld", suffix);
    push_in_each(&mut v, path_dirs, n1.as_str());
    push_in_each(&mut v, path_dirs, n2.as_str());
    push_in_each(&mut v, path_dirs, n3.as_str());
    assert(paths_view(v@) =~= lld_path_list(strings_view(path_dirs@), windows));
    v
}

/// The system linker looked for on `PATH` when there is no lld: `ld`, or
/// `ld.exe` on Windows, in each directory.
pub fn system_ld_candidates(path_dirs: &Vec<String>, windows: bool) -> (v: Vec<Vec<String>>)
    ensures
        paths_view(v@) == in_each(strings_view(path_dirs@), "ld"@ + exe_suffix(windows)),
{
    let name = concat("ld", exe_suffix_str(windows));
    let mut v: Vec<Vec<String>> = Vec::new();
    push_in_each(&mut v, path_dirs, name.as_str());
    assert(paths_view(v@) =~= in_each(strings_view(path_dirs@), name@));
    v
}

/// The report when no linker was found.
pub fn linker_not_found_message() -> (s: String)
    ensures
        s@ == "❌ Linker not found!\n\nAdesh requires a linker (lld or system ld) for AOT compilation.\n\nPlease install LLVM/lld or binutils."@,
{
    owned("❌ Linker not found!\n\nAdesh requires a linker (lld or system ld) for AOT compilation.\n\nPlease install LLVM/lld or binutils.")
}

// -------------------------------------------------------- runtime library

/// The file name of the static runtime library for an operating system.
pub open spec fn runtime_lib_name(os: OsKind) -> Seq<char> {
    if os == OsKind::Windows {
        "adeshlang.lib"@
    } else {
        "libadeshlang.a"@
    }
}

/// The name of the static runtime library for an operating system.
pub fn runtime_lib_file(os: OsKind) -> (s: &'static str)
    ensures
        s@ == runtime_lib_name(os),
{
    if os == OsKind::Windows {
        "adeshlang.lib"
    } else {
        "libadeshlang.a"
    }
}

/// What the environment says about where the runtime library may be:
/// whether this is a development checkout, the project roots found, the
/// build profile, the running program's directory (whether it is named
/// `bin`, and its parent), the home variables set and the target.
#[derive(Debug, Clone)]
pub struct RuntimeSearch {
    pub is_dev_env: bool,
    pub project_roots: Vec<String>,
    pub debug_build: bool,
    pub exe_dir: Option<String>,
    pub exe_dir_is_bin: bool,
    pub exe_parent: Option<String>,
    pub homes: Vec<String>,
    pub triple_text: String,
    pub os: OsKind,
}

/// The build profiles searched, the current one first.
pub open spec fn profile_order(debug_build: bool) -> (Seq<char>, Seq<char>) {
    if debug_build {
        ("debug"@, "release"@)
    } else {
        ("release"@, "debug"@)
    }
}

/// The candidates in a project's `target` directory: for each profile,
/// the target's own directory and then the default one.
pub open spec fn project_candidates(t: Seq<char>, lib: Seq<char>, debug_build: bool) -> spec_fn(Seq<char>) -> Seq<Seq<Seq<char>>> {
    |r: Seq<char>| {
        let (p0, p1) = profile_order(debug_build);
        seq![
            seq![r, "target"@, t, p0, lib],
            seq![r, "target"@, p0, lib],
            seq![r, "target"@, t, p1, lib],
            seq![r, "target"@, p1, lib],
        ]
    }
}

/// The candidates under a home directory.
pub open spec fn home_candidates(t: Seq<char>, lib: Seq<char>) -> spec_fn(Seq<char>) -> Seq<Seq<Seq<char>>> {
    |h: Seq<char>| seq![seq![h, "lib"@, t, lib], seq![h, "lib"@, lib], seq![h, "bin"@, lib], seq![h, lib]]
}

/// The candidates around the running program: its install root is the
/// parent of a `bin` directory, else the directory itself.
pub open spec fn exe_candidates(s: RuntimeSearch) -> Seq<Seq<Seq<char>>> {
    let t = s.triple_text@;
    let lib = runtime_lib_name(s.os);
    match s.exe_dir {
        Some(d) => {
            let root = if s.exe_dir_is_bin {
                match s.exe_parent {
                    Some(p) => p@,
                    None => d@,
                }
            } else {
                d@
            };
            seq![seq![root, "lib"@, t, lib], seq![root, "lib"@, lib], seq![d@, lib], seq![root, lib]]
        },
        None => Seq::empty(),
    }
}

/// The places the runtime library is looked for, in order: in a
/// development checkout the projects' build directories come first;
/// otherwise they come last, after the program's directory and the homes.
pub open spec fn runtime_candidate_list(s: RuntimeSearch) -> Seq<Seq<Seq<char>>> {
    let t = s.triple_text@;
    let lib = runtime_lib_name(s.os);
    let project = expand(strings_view(s.project_roots@), project_candidates(t, lib, s.debug_build));
    let homes = expand(strings_view(s.homes@), home_candidates(t, lib));
    if s.is_dev_env {
        project + exe_candidates(s) + homes
    } else {
        exe_candidates(s) + homes + project
    }
}

fn push_project_candidates(v: &mut Vec<Vec<String>>, s: &RuntimeSearch)
    ensures
        paths_view(final(v)@) == paths_view(old(v)@) + expand(
            strings_view(s.project_roots@),
            project_candidates(s.triple_text@, runtime_lib_name(s.os), s.debug_build),
        ),
{
    let lib = runtime_lib_file(s.os);
    let (p0, p1) = if s.debug_build {
        ("debug", "release")
    } else {
        ("release", "debug")
    };
    let t = s.triple_text.as_str();
    let ghost f = project_candidates(s.triple_text@, runtime_lib_name(s.os), s.debug_build);
    let ghost start = paths_view(v@);
    let mut i: usize = 0;
    while i < s.project_roots.len()
        invariant
            i <= s.project_roots@.len(),
            t@ == s.triple_text@,
            lib@ == runtime_lib_name(s.os),
            (p0@, p1@) == profile_order(s.debug_build),
            f == project_candidates(s.triple_text@, runtime_lib_name(s.os), s.debug_build),
            paths_view(v@) == start + expand(strings_view(s.project_roots@.subrange(0, i as int)), f),
        decreases s.project_roots.len() - i,
    {
        let r = s.project_roots[i].as_str();
        let ghost before = paths_view(v@);
        push_path(v, path5(r, "target", t, p0, lib));
        push_path(v, path4(r, "target", p0, lib));
        push_path(v, path5(r, "target", t, p1, lib));
        push_path(v, path4(r, "target", p1, lib));
        assert(paths_view(v@) =~= before + f(r@));
        proof {
            let sv = strings_view(s.project_roots@.subrange(0, i + 1));
            assert(sv.drop_last() =~= strings_view(s.project_roots@.subrange(0, i as int)));
            assert(sv.last() == r@);
        }
        i = i + 1;
    }
    assert(s.project_roots@.subrange(0, i as int) =~= s.project_roots@);
}

fn push_home_candidates(v: &mut Vec<Vec<String>>, s: &RuntimeSearch)
    ensures
        paths_view(final(v)@) == paths_view(old(v)@) + expand(
            strings_view(s.homes@),
            home_candidates(s.triple_text@, runtime_lib_name(s.os)),
        ),
{
    let lib = runtime_lib_file(s.os);
    let t = s.triple_text.as_str();
    let ghost f = home_candidates(s.triple_text@, runtime_lib_name(s.os));
    let ghost start = paths_view(v@);
    let mut i: usize = 0;
    while i < s.homes.len()
        invariant
            i <= s.homes@.len(),
            t@ == s.triple_text@,
            lib@ == runtime_lib_name(s.os),
            f == home_candidates(s.triple_text@, runtime_lib_name(s.os)),
            paths_view(v@) == start + expand(strings_view(s.homes@.subrange(0, i as int)), f),
        decreases s.homes.len() - i,
    {
        let h = s.homes[i].as_str();
        let ghost before = paths_view(v@);
        push_path(v, path4(h, "lib", t, lib));
        push_path(v, path3(h, "lib", lib));
        push_path(v, path3(h, "bin", lib));
        push_path(v, path2(h, lib));
        assert(paths_view(v@) =~= before + f(h@));
        proof {
            let sv = strings_view(s.homes@.subrange(0, i + 1));
            assert(sv.drop_last() =~= strings_view(s.homes@.subrange(0, i as int)));
            assert(sv.last() == h@);
        }
        i = i + 1;
    }
    assert(s.homes@.subrange(0, i as int) =~= s.homes@);
}

fn push_exe_candidates(v: &mut Vec<Vec<String>>, s: &RuntimeSearch)
    ensures
        paths_view(final(v)@) == paths_view(old(v)@) + exe_candidates(*s),
{
    let ghost start = paths_view(v@);
    let lib = runtime_lib_file(s.os);
    let t = s.triple_text.as_str();
    match &s.exe_dir {
        Some(d) => {
            let root: &str = if s.exe_dir_is_bin {
                match &s.exe_parent {
                    Some(p) => p.as_str(),
                    None => d.as_str(),
                }
            } else {
                d.as_str()
            };
            push_path(v, path4(root, "lib", t, lib));
            push_path(v, path3(root, "lib", lib));
            push_path(v, path2(d.as_str(), lib));
            push_path(v, path2(root, lib));
        },
        None => {},
    }
    assert(paths_view(v@) =~= start + exe_candidates(*s));
}

/// The places the runtime library is looked for (see
/// `runtime_candidate_list`); the first that exists is taken.
pub fn runtime_lib_candidates(s: &RuntimeSearch) -> (v: Vec<Vec<String>>)
    ensures
        paths_view(v@) == runtime_candidate_list(*s),
{
    let mut v: Vec<Vec<String>> = Vec::new();
    if s.is_dev_env {
        push_project_candidates(&mut v, s);
        push_exe_candidates(&mut v, s);
        push_home_candidates(&mut v, s);
    } else {
        push_exe_candidates(&mut v, s);
        push_home_candidates(&mut v, s);
        push_project_candidates(&mut v, s);
    }
    assert(paths_view(v@) =~= runtime_candidate_list(*s));
    v
}

/// Each searched path on a line of its own, indented by two spaces.
pub open spec fn searched_lines(paths: Seq<Seq<char>>) -> Seq<char>
    decreases paths.len(),
{
    if paths.len() == 0 {
        Seq::empty()
    } else {
        searched_lines(paths.drop_last()) + "  "@ + paths.last() + "\n"@
    }
}

/// The report when the runtime library was not found.
pub open spec fn runtime_not_found(lib: Seq<char>, t: Seq<char>, searched: Seq<Seq<char>>) -> Seq<char> {
    "Static runtime library ("@ + lib + ") not found for target "@ + t + ".\n\nSearched in:\n"@
        + searched_lines(searched) + "\nTo resolve this:\n• If using an installed AdeshLang, run `adl doctor` or `adl repair` to check/repair the installation.\n• If developing AdeshLang, build the library with: `cargo build --release --target "@
        + t + "`"@
}

/// The report when the runtime library was not found, listing the paths
/// searched as they are displayed.
pub fn runtime_not_found_message(lib: &str, triple_text: &str, searched: &Vec<String>) -> (msg: String)
    ensures
        msg@ == runtime_not_found(lib@, triple_text@, strings_view(searched@)),
{
    let mut lines = String::new();
    let mut i: usize = 0;
    proof {
        reveal_strlit("");
    }
    assert(lines@ =~= searched_lines(strings_view(searched@.subrange(0, 0))));
    while i < searched.len()
        invariant
            i <= searched@.len(),
            lines@ == searched_lines(strings_view(searched@.subrange(0, i as int))),
        decreases searched.len() - i,
    {
        lines.append("  ");
        lines.append(searched[i].as_str());
        lines.append("\n");
        proof {
            let sv = strings_view(searched@.subrange(0, i + 1));
            assert(sv.drop_last() =~= strings_view(searched@.subrange(0, i as int)));
            assert(sv.last() == searched@[i as int]@);
        }
        i = i + 1;
    }
    assert(searched@.subrange(0, i as int) =~= searched@);
    let mut msg = String::new();
    msg.append("Static runtime library (");
    msg.append(lib);
    msg.append(") not found for target ");
    msg.append(triple_text);
    msg.append(".\n\nSearched in:\n");
    msg.append(lines.as_str());
    msg.append("\nTo resolve this:\n• If using an installed AdeshLang, run `adl doctor` or `adl repair` to check/repair the installation.\n• If developing AdeshLang, build the library with: `cargo build --release --target ");
    msg.append(triple_text);
    msg.append("`");
    assert(msg@ =~= runtime_not_found(lib@, triple_text@, strings_view(searched@)));
    msg
}

} // verus!
