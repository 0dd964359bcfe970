//! Linking with the LLVM toolchain (clang with lld, or lld-link for MSVC
//! targets), archiving libraries, and cross linking with whatever cross
//! compiler is installed. Each function here gives the plan of commands;
//! finding the tools and running them is left to the caller.

use vstd::prelude::*;
use crate::attempts::{AttemptView, LinkAttempt, LinkCommand, LinkPlan, PlanView, attempt_view};
use crate::linker::gc_flag;
use crate::options::{AotOptions, OutputFormat};
use crate::strs::{
    strings_view, affixed, decimal, decimal_string, owned, concat, concat3, push_str, push_owned,
    push_affixed, push_all, contains_seq, str_contains, chars_of,
};
use crate::target::{ArchKind, EnvKind, OsKind, TargetSpec};

verus! {

// ------------------------------------------------------------ target names

/// Prefix of the cross tools for a target, such as `x86_64-linux-gnu`.
pub open spec fn cross_prefix_for(t: TargetSpec) -> Result<Seq<char>, Seq<char>> {
    match (t.arch, t.os) {
        (ArchKind::X86_64, OsKind::Linux) => Ok("x86_64-linux-gnu"@),
        (ArchKind::X86_64, OsKind::Windows) => Ok("x86_64-w64-mingw32"@),
        (ArchKind::Aarch64, OsKind::Linux) => Ok("aarch64-linux-gnu"@),
        (ArchKind::Arm, OsKind::Linux) => Ok("arm-linux-gnueabihf"@),
        (ArchKind::X86_64, OsKind::MacOSX) => Err("macOS cross-compilation requires specialized toolchain"@),
        (ArchKind::Aarch64, OsKind::MacOSX) => Err("iOS cross-compilation requires specialized toolchain"@),
        _ => Err("Unsupported cross-compilation target: "@ + t.text@),
    }
}

/// Get target prefix for cross-compilers (e.g., "x86_64-linux-gnu")
pub fn get_target_prefix(t: &TargetSpec) -> (r: Result<String, String>)
    ensures
        match (r, cross_prefix_for(*t)) {
            (Ok(s), Ok(x)) => s@ == x,
            (Err(s), Err(x)) => s@ == x,
            _ => false,
        },
{
    match (t.arch, t.os) {
        (ArchKind::X86_64, OsKind::Linux) => Ok(owned("x86_64-linux-gnu")),
        (ArchKind::X86_64, OsKind::Windows) => Ok(owned("x86_64-w64-mingw32")),
        (ArchKind::Aarch64, OsKind::Linux) => Ok(owned("aarch64-linux-gnu")),
        (ArchKind::Arm, OsKind::Linux) => Ok(owned("arm-linux-gnueabihf")),
        (ArchKind::X86_64, OsKind::MacOSX) => Err(owned("macOS cross-compilation requires specialized toolchain")),
        (ArchKind::Aarch64, OsKind::MacOSX) => Err(owned("iOS cross-compilation requires specialized toolchain")),
        _ => Err(concat("Unsupported cross-compilation target: ", t.text.as_str())),
    }
}

/// Zig's name for a target, `arch-os-abi`, for the architectures and
/// operating systems Zig is asked for.
pub open spec fn zig_target_for(t: TargetSpec) -> Option<Seq<char>> {
    let arch: Option<Seq<char>> = match t.arch {
        ArchKind::X86_64 => Some("x86_64"@),
        ArchKind::Aarch64 => Some("aarch64"@),
        ArchKind::Arm => Some("arm"@),
        ArchKind::X86_32 => Some("x86"@),
        ArchKind::Other => None,
    };
    let os: Option<Seq<char>> = match t.os {
        OsKind::Linux => Some("linux"@),
        OsKind::Windows => Some("windows"@),
        OsKind::MacOSX | OsKind::Darwin => Some("macos"@),
        OsKind::Other => None,
    };
    let abi = match t.os {
        OsKind::Linux => "gnu"@,
        OsKind::Windows => "gnu"@,
        _ => "none"@,
    };
    match (arch, os) {
        (Some(a), Some(o)) => Some(a + "-"@ + o + "-"@ + abi),
        _ => None,
    }
}

/// Get Zig target triple format
pub fn get_zig_target(t: &TargetSpec) -> (r: Option<String>)
    ensures
        match (r, zig_target_for(*t)) {
            (Some(s), Some(x)) => s@ == x,
            (None, None) => true,
            _ => false,
        },
{
    let arch = match t.arch {
        ArchKind::X86_64 => "x86_64",
        ArchKind::Aarch64 => "aarch64",
        ArchKind::Arm => "arm",
        ArchKind::X86_32 => "x86",
        ArchKind::Other => {
            return None;
        },
    };
    let os = match t.os {
        OsKind::Linux => "linux",
        OsKind::Windows => "windows",
        OsKind::MacOSX | OsKind::Darwin => "macos",
        OsKind::Other => {
            return None;
        },
    };
    let abi = match t.os {
        OsKind::Linux => "gnu",
        OsKind::Windows => "gnu",
        _ => "none",
    };
    let head = concat3(arch, "-", os);
    Some(concat3(head.as_str(), "-", abi))
}

/// Dynamic loader of a Linux system for the known architectures.
pub open spec fn linux_loader_for(t: TargetSpec) -> Result<Seq<char>, Seq<char>> {
    match t.arch {
        ArchKind::X86_64 => Ok("/lib64/ld-linux-x86-64.so.2"@),
        ArchKind::Aarch64 => Ok("/lib/ld-linux-aarch64.so.1"@),
        ArchKind::Arm => Ok("/lib/ld-linux-armhf.so.3"@),
        ArchKind::X86_32 => Ok("/lib/ld-linux.so.2"@),
        ArchKind::Other => Err("Unsupported Linux architecture: "@ + t.arch_text@),
    }
}

/// Get the appropriate dynamic linker for Linux targets
pub fn get_linux_dynamic_linker(t: &TargetSpec) -> (r: Result<String, String>)
    ensures
        match (r, linux_loader_for(*t)) {
            (Ok(s), Ok(x)) => s@ == x,
            (Err(s), Err(x)) => s@ == x,
            _ => false,
        },
{
    match t.arch {
        ArchKind::X86_64 => Ok(owned("/lib64/ld-linux-x86-64.so.2")),
        ArchKind::Aarch64 => Ok(owned("/lib/ld-linux-aarch64.so.1")),
        ArchKind::Arm => Ok(owned("/lib/ld-linux-armhf.so.3")),
        ArchKind::X86_32 => Ok(owned("/lib/ld-linux.so.2")),
        ArchKind::Other => Err(concat("Unsupported Linux architecture: ", t.arch_text.as_str())),
    }
}

// ------------------------------------------------------------ cross links

/// System libraries of a cross link.
pub open spec fn cross_platform_args(t: TargetSpec) -> Seq<Seq<char>> {
    match t.os {
        OsKind::Linux => seq!["-lc"@] + (match linux_loader_for(t) {
            Ok(l) => seq!["-Wl,--dynamic-linker"@, "-Wl,"@ + l],
            Err(_) => Seq::empty(),
        }),
        OsKind::Windows => seq!["-lkernel32"@, "-lmsvcrt"@],
        OsKind::MacOSX | OsKind::Darwin => seq!["-lSystem"@],
        OsKind::Other => Seq::empty(),
    }
}

/// Arguments of a cross link: output, object, runtime (when there is one)
/// and the platform's libraries.
pub open spec fn cross_link_args(t: TargetSpec, obj: Seq<char>, runtime: Option<Seq<char>>, output: Seq<char>) -> Seq<Seq<char>> {
    seq!["-o"@, output, obj] + (match runtime {
        Some(r) => seq![r],
        None => Seq::empty(),
    }) + cross_platform_args(t)
}

fn push_cross_platform_args(v: &mut Vec<String>, t: &TargetSpec)
    ensures
        strings_view(final(v)@) == strings_view(old(v)@) + cross_platform_args(*t),
{
    let ghost start = strings_view(v@);
    match t.os {
        OsKind::Linux => {
            push_str(v, "-lc");
            match get_linux_dynamic_linker(t) {
                Ok(l) => {
                    push_str(v, "-Wl,--dynamic-linker");
                    push_owned(v, concat("-Wl,", l.as_str()));
                },
                Err(_) => {},
            }
        },
        OsKind::Windows => {
            push_str(v, "-lkernel32");
            push_str(v, "-lmsvcrt");
        },
        OsKind::MacOSX | OsKind::Darwin => {
            push_str(v, "-lSystem");
        },
        OsKind::Other => {},
    }
    assert(strings_view(v@) =~= start + cross_platform_args(*t));
}

/// Get linker arguments for a specific target (with runtime library)
pub fn get_linker_args_for_target_with_runtime(t: &TargetSpec, obj_path: &str, runtime_obj: &str, output: &str) -> (args: Vec<String>)
    ensures
        strings_view(args@) == cross_link_args(*t, obj_path@, Some(runtime_obj@), output@),
{
    let mut v: Vec<String> = Vec::new();
    push_str(&mut v, "-o");
    push_str(&mut v, output);
    push_str(&mut v, obj_path);
    push_str(&mut v, runtime_obj);
    assert(strings_view(v@) =~= seq!["-o"@, output@, obj_path@] + seq![runtime_obj@]);
    push_cross_platform_args(&mut v, t);
    v
}

/// Get linker arguments for a specific target
pub fn get_linker_args_for_target(t: &TargetSpec, obj_path: &str, output: &str) -> (args: Vec<String>)
    ensures
        strings_view(args@) == cross_link_args(*t, obj_path@, None, output@),
{
    let mut v: Vec<String> = Vec::new();
    push_str(&mut v, "-o");
    push_str(&mut v, output);
    push_str(&mut v, obj_path);
    assert(strings_view(v@) =~= seq!["-o"@, output@, obj_path@] + Seq::<Seq<char>>::empty());
    push_cross_platform_args(&mut v, t);
    v
}

/// A compiler tried once, reporting as the plain compiler runner does.
pub open spec fn runner_attempt(compiler: Seq<char>, args: Seq<Seq<char>>, index: int) -> AttemptView {
    attempt_view(compiler, args, compiler + " failed: "@, ""@, compiler + " not found: "@, index + 1)
}

/// The cross compilers tried, in order: the target-prefixed GCC (when the
/// target has a prefix), Clang with lld, Clang with its default linker,
/// and `zig cc` (when Zig knows the target).
pub open spec fn cross_compilers(t: TargetSpec, args: Seq<Seq<char>>) -> Seq<(Seq<char>, Seq<Seq<char>>)> {
    (match cross_prefix_for(t) {
        Ok(pre) => seq![(pre + "-gcc"@, args)],
        Err(_) => Seq::empty(),
    }) + seq![
        ("clang"@, seq!["--target="@ + t.text@, "-fuse-ld=lld"@] + args),
        ("clang"@, seq!["--target="@ + t.text@] + args),
    ] + (match zig_target_for(t) {
        Some(z) => seq![("zig"@, seq!["cc"@, "-target="@ + z] + args)],
        None => Seq::empty(),
    })
}

/// The failure report of a cross link, before the last error.
pub open spec fn cross_error_head(t: TargetSpec) -> Seq<char> {
    "Cross-compilation linking failed for target "@ + t.text@ + ".\nLast error: "@
}

/// The failure report of a cross link, after the last error.
pub open spec fn cross_error_tail(t: TargetSpec) -> Seq<char> {
    let (gcc, pkg) = match cross_prefix_for(t) {
        Ok(pre) => (pre + "-gcc"@, pre),
        Err(_) => ("target-gcc"@, "target"@),
    };
    "\n\nTo fix this, install one of the following:\n1. Cross-GCC: "@ + gcc + " (e.g., apt install gcc-"@ + pkg
        + " on Debian/Ubuntu)\n2. Clang with LLD: Install clang and lld packages\n3. Zig: Install zig (includes cross-compilation support)\n\nAlternatively, use --object to generate object file only and link manually."@
}

/// Each compiler with its arguments tried once, in order.
pub open spec fn runners(cs: Seq<(Seq<char>, Seq<Seq<char>>)>) -> Seq<AttemptView> {
    Seq::new(cs.len(), |i: int| runner_attempt(cs[i].0, cs[i].1, i))
}

/// The plan of a cross link: each compiler in turn; when all fail, the
/// report names the last failure and the tools to install.
pub open spec fn cross_link_plan_for(t: TargetSpec, args: Seq<Seq<char>>) -> PlanView {
    let cs = cross_compilers(t, args);
    PlanView {
        attempts: runners(cs),
        records_errors: true,
        error_prefix: cross_error_head(t),
        error_suffix: cross_error_tail(t),
    }
}

fn cross_error_tail_text(t: &TargetSpec) -> (s: String)
    ensures
        s@ == cross_error_tail(*t),
{
    let (gcc, pkg) = match get_target_prefix(t) {
        Ok(pre) => (concat(pre.as_str(), "-gcc"), pre),
        Err(_) => (owned("target-gcc"), owned("target")),
    };
    let a = concat3("\n\nTo fix this, install one of the following:\n1. Cross-GCC: ", gcc.as_str(), " (e.g., apt install gcc-");
    concat3(a.as_str(), pkg.as_str(), " on Debian/Ubuntu)\n2. Clang with LLD: Install clang and lld packages\n3. Zig: Install zig (includes cross-compilation support)\n\nAlternatively, use --object to generate object file only and link manually.")
}

fn prepend_args(head: Vec<String>, args: &Vec<String>) -> (v: Vec<String>)
    ensures
        strings_view(v@) == strings_view(head@) + strings_view(args@),
{
    let mut v = head;
    push_all(&mut v, args);
    v
}

fn push_runner(v: &mut Vec<LinkAttempt>, compiler: &str, args: Vec<String>)
    requires
        old(v)@.len() < usize::MAX,
    ensures
        final(v)@.len() == old(v)@.len() + 1,
        final(v)@.map_values(|x: LinkAttempt| x@) == old(v)@.map_values(|x: LinkAttempt| x@).push(
            runner_attempt(compiler@, strings_view(args@), old(v)@.len() as int),
        ),
{
    let index = v.len();
    let a = LinkAttempt {
        command: LinkCommand { program: owned(compiler), args },
        failure_prefix: concat(compiler, " failed: "),
        failure_suffix: owned(""),
        spawn_prefix: concat(compiler, " not found: "),
        skip_to: index + 1,
    };
    let ghost before = v@;
    v.push(a);
    assert(v@.map_values(|x: LinkAttempt| x@) =~= before.map_values(|x: LinkAttempt| x@).push(a@));
}

/// The plan of a cross link with the given arguments.
pub fn cross_link_plan(t: &TargetSpec, args: &Vec<String>) -> (plan: LinkPlan)
    ensures
        plan@ == cross_link_plan_for(*t, strings_view(args@)),
        plan@.wf(),
{
    let ghost a = strings_view(args@);
    let ghost cs = cross_compilers(*t, a);
    let mut attempts: Vec<LinkAttempt> = Vec::new();
    let ghost mut names: Seq<(Seq<char>, Seq<Seq<char>>)> = Seq::empty();
    match get_target_prefix(t) {
        Ok(pre) => {
            let gcc = concat(pre.as_str(), "-gcc");
            let ac = args.clone();
            assert(strings_view(ac@) == a) by {
                assert(ac@ =~= args@);
            }
            push_runner(&mut attempts, gcc.as_str(), ac);
            proof {
                names = seq![(gcc@, a)];
            }
            assert(attempts@.map_values(|x: LinkAttempt| x@) =~= runners(names));
        },
        Err(_) => {},
    }
    let mut h1: Vec<String> = Vec::new();
    push_owned(&mut h1, concat("--target=", t.text.as_str()));
    push_str(&mut h1, "-fuse-ld=lld");
    let a1 = prepend_args(h1, args);
    assert(strings_view(a1@) =~= seq!["--target="@ + t.text@, "-fuse-ld=lld"@] + a);
    assert(attempts@.map_values(|x: LinkAttempt| x@) =~= runners(names));
    push_runner(&mut attempts, "clang", a1);
    proof {
        names = names.push(("clang"@, seq!["--target="@ + t.text@, "-fuse-ld=lld"@] + a));
    }
    assert(attempts@.map_values(|x: LinkAttempt| x@) =~= runners(names));
    let mut h2: Vec<String> = Vec::new();
    push_owned(&mut h2, concat("--target=", t.text.as_str()));
    let a2 = prepend_args(h2, args);
    assert(strings_view(a2@) =~= seq!["--target="@ + t.text@] + a);
    push_runner(&mut attempts, "clang", a2);
    proof {
        names = names.push(("clang"@, seq!["--target="@ + t.text@] + a));
    }
    assert(attempts@.map_values(|x: LinkAttempt| x@) =~= runners(names));
    match get_zig_target(t) {
        Some(z) => {
            let mut h3: Vec<String> = Vec::new();
            push_str(&mut h3, "cc");
            push_owned(&mut h3, concat("-target=", z.as_str()));
            let a3 = prepend_args(h3, args);
            assert(strings_view(a3@) =~= seq!["cc"@, "-target="@ + z@] + a);
            push_runner(&mut attempts, "zig", a3);
            proof {
                names = names.push(("zig"@, seq!["cc"@, "-target="@ + z@] + a));
            }
            assert(attempts@.map_values(|x: LinkAttempt| x@) =~= runners(names));
        },
        None => {},
    }
    assert(names =~= cs);
    let plan = LinkPlan {
        attempts,
        records_errors: true,
        error_prefix: concat3("Cross-compilation linking failed for target ", t.text.as_str(), ".\nLast error: "),
        error_suffix: cross_error_tail_text(t),
    };
    assert(plan@.attempts =~= cross_link_plan_for(*t, a).attempts);
    plan
}

/// The plan of a cross link of an object with the runtime: each cross
/// compiler in turn with `get_linker_args_for_target_with_runtime`.
pub fn link_cross_with_runtime(t: &TargetSpec, obj_path: &str, runtime_obj: &str, output: &str) -> (plan: LinkPlan)
    ensures
        plan@ == cross_link_plan_for(*t, cross_link_args(*t, obj_path@, Some(runtime_obj@), output@)),
        plan@.wf(),
{
    let args = get_linker_args_for_target_with_runtime(t, obj_path, runtime_obj, output);
    cross_link_plan(t, &args)
}

/// The plan of a cross link of an object alone: each cross compiler in
/// turn with `get_linker_args_for_target`.
pub fn link_cross(t: &TargetSpec, obj_path: &str, output: &str) -> (plan: LinkPlan)
    ensures
        plan@ == cross_link_plan_for(*t, cross_link_args(*t, obj_path@, None, output@)),
        plan@.wf(),
{
    let args = get_linker_args_for_target(t, obj_path, output);
    cross_link_plan(t, &args)
}

// ------------------------------------------------------- clang with lld

/// Optimisation flags of a clang link: none in fast mode or at levels 0
/// and 1 (keeping every section), otherwise the level with unused
/// sections removed, LTO when asked and symbols stripped without debug
/// info.
pub open spec fn clang_opt_flags(o: AotOptions, os: OsKind) -> Seq<Seq<char>> {
    if o.fast_compile || o.opt_level <= 1 {
        seq!["-O0"@, "-Wl,--no-gc-sections"@]
    } else {
        seq!["-O"@ + decimal(o.opt_level as nat), "-ffunction-sections"@, "-fdata-sections"@, gc_flag(os)]
            + (if o.enable_lto {
            seq!["-flto"@]
        } else {
            Seq::empty()
        }) + (if !o.debug_info {
            seq!["-s"@]
        } else {
            Seq::empty()
        })
    }
}

/// System libraries of a clang link.
pub open spec fn clang_platform_libs(os: OsKind) -> Seq<Seq<char>> {
    match os {
        OsKind::Windows => seq!["-lkernel32"@, "-lmsvcrt"@, "-lws2_32"@, "-ladvapi32"@],
        OsKind::Linux => seq!["-lc"@, "-lpthread"@, "-ldl"@, "-lm"@],
        OsKind::MacOSX | OsKind::Darwin => seq!["-lSystem"@],
        OsKind::Other => Seq::empty(),
    }
}

/// Arguments of a clang link; lld is asked for when the linker found is
/// named like lld.
pub open spec fn clang_lld_args(
    o: AotOptions,
    lld_file_name: Seq<char>,
    t: TargetSpec,
    obj: Seq<char>,
    runtime: Seq<char>,
    output: Seq<char>,
    format: OutputFormat,
) -> Seq<Seq<char>> {
    (if contains_seq(lld_file_name, "lld"@) {
        seq!["-fuse-ld=lld"@]
    } else {
        Seq::empty()
    }) + seq!["--target="@ + t.text@, "-o"@, output] + clang_opt_flags(o, t.os) + (if o.debug_info {
        seq!["-g"@]
    } else {
        Seq::empty()
    }) + (if format == OutputFormat::SharedLib {
        seq!["-shared"@]
    } else if t.os == OsKind::Linux {
        seq!["-no-pie"@]
    } else {
        Seq::empty()
    }) + seq![obj, runtime] + affixed("-L"@, strings_view(o.lib_dirs@), ""@) + affixed(
        "-l"@,
        strings_view(o.link_libs@),
        ""@,
    ) + strings_view(o.extra_linker_args@) + clang_platform_libs(t.os)
}

fn push_clang_opt_flags(v: &mut Vec<String>, o: &AotOptions, os: OsKind)
    ensures
        strings_view(final(v)@) == strings_view(old(v)@) + clang_opt_flags(*o, os),
{
    let ghost start = strings_view(v@);
    if o.fast_compile || o.opt_level <= 1 {
        push_str(v, "-O0");
        push_str(v, "-Wl,--no-gc-sections");
    } else {
        let level = decimal_string(o.opt_level as u64);
        push_owned(v, concat("-O", level.as_str()));
        push_str(v, "-ffunction-sections");
        push_str(v, "-fdata-sections");
        let gc = match os {
            OsKind::MacOSX | OsKind::Darwin => "-Wl,-dead_strip",
            _ => "-Wl,--gc-sections",
        };
        assert(gc@ == gc_flag(os));
        push_str(v, gc);
        if o.enable_lto {
            push_str(v, "-flto");
        }
        if !o.debug_info {
            push_str(v, "-s");
        }
    }
    assert(strings_view(v@) =~= start + clang_opt_flags(*o, os));
}

fn push_clang_platform_libs(v: &mut Vec<String>, os: OsKind)
    ensures
        strings_view(final(v)@) == strings_view(old(v)@) + clang_platform_libs(os),
{
    let ghost start = strings_view(v@);
    match os {
        OsKind::Windows => {
            push_str(v, "-lkernel32");
            push_str(v, "-lmsvcrt");
            push_str(v, "-lws2_32");
            push_str(v, "-ladvapi32");
        },
        OsKind::Linux => {
            push_str(v, "-lc");
            push_str(v, "-lpthread");
            push_str(v, "-ldl");
            push_str(v, "-lm");
        },
        OsKind::MacOSX | OsKind::Darwin => {
            push_str(v, "-lSystem");
        },
        OsKind::Other => {},
    }
    assert(strings_view(v@) =~= start + clang_platform_libs(os));
}

/// Arguments of a clang link.
pub fn clang_lld_link_args(
    o: &AotOptions,
    lld_file_name: &str,
    t: &TargetSpec,
    obj_path: &str,
    runtime_obj: &str,
    output: &str,
    format: OutputFormat,
) -> (args: Vec<String>)
    ensures
        strings_view(args@) == clang_lld_args(*o, lld_file_name@, *t, obj_path@, runtime_obj@, output@, format),
{
    let mut v: Vec<String> = Vec::new();
    if str_contains(lld_file_name, "lld") {
        push_str(&mut v, "-fuse-ld=lld");
    }
    let ghost s1 = strings_view(v@);
    push_owned(&mut v, concat("--target=", t.text.as_str()));
    push_str(&mut v, "-o");
    push_str(&mut v, output);
    let ghost s2 = strings_view(v@);
    push_clang_opt_flags(&mut v, o, t.os);
    let ghost s3 = strings_view(v@);
    if o.debug_info {
        push_str(&mut v, "-g");
    }
    let ghost s4 = strings_view(v@);
    if format == OutputFormat::SharedLib {
        push_str(&mut v, "-shared");
    } else if t.os == OsKind::Linux {
        push_str(&mut v, "-no-pie");
    }
    let ghost s5 = strings_view(v@);
    push_str(&mut v, obj_path);
    push_str(&mut v, runtime_obj);
    let ghost s6 = strings_view(v@);
    push_affixed(&mut v, "-L", &o.lib_dirs, "");
    push_affixed(&mut v, "-l", &o.link_libs, "");
    push_all(&mut v, &o.extra_linker_args);
    push_clang_platform_libs(&mut v, t.os);
    proof {
        assert(s1 =~= (if contains_seq(lld_file_name@, "lld"@) {
            seq!["-fuse-ld=lld"@]
        } else {
            Seq::empty()
        }));
        assert(s2 =~= s1 + seq!["--target="@ + t.text@, "-o"@, output@]);
        assert(s4 =~= s3 + (if o.debug_info {
            seq!["-g"@]
        } else {
            Seq::empty()
        }));
        assert(s5 =~= s4 + (if format == OutputFormat::SharedLib {
            seq!["-shared"@]
        } else if t.os == OsKind::Linux {
            seq!["-no-pie"@]
        } else {
            Seq::empty()
        }));
        assert(s6 =~= s5 + seq![obj_path@, runtime_obj@]);
    }
    v
}

/// A single command that either links or reports its failure.
pub open spec fn single_plan(program: Seq<char>, args: Seq<Seq<char>>, failure_prefix: Seq<char>, failure_suffix: Seq<char>, spawn_prefix: Seq<char>) -> PlanView {
    PlanView {
        attempts: seq![attempt_view(program, args, failure_prefix, failure_suffix, spawn_prefix, 1)],
        records_errors: true,
        error_prefix: ""@,
        error_suffix: ""@,
    }
}

fn single(program: String, args: Vec<String>, failure_prefix: String, failure_suffix: String, spawn_prefix: String) -> (plan: LinkPlan)
    ensures
        plan@ == single_plan(program@, strings_view(args@), failure_prefix@, failure_suffix@, spawn_prefix@),
        plan@.wf(),
{
    let a = LinkAttempt {
        command: LinkCommand { program, args },
        failure_prefix,
        failure_suffix,
        spawn_prefix,
        skip_to: 1,
    };
    let mut attempts: Vec<LinkAttempt> = Vec::new();
    attempts.push(a);
    let plan = LinkPlan { attempts, records_errors: true, error_prefix: owned(""), error_suffix: owned("") };
    assert(plan@.attempts =~= seq![a@]);
    plan
}

/// Link using clang with lld (GNU-compatible mode)
pub fn link_with_clang_lld(
    o: &AotOptions,
    clang_path: &str,
    lld_file_name: &str,
    obj_path: &str,
    runtime_obj: &str,
    output: &str,
    t: &TargetSpec,
    format: OutputFormat,
) -> (plan: LinkPlan)
    ensures
        plan@ == single_plan(
            clang_path@,
            clang_lld_args(*o, lld_file_name@, *t, obj_path@, runtime_obj@, output@, format),
            "clang + lld linking failed:\n"@,
            ""@,
            "Failed to execute clang: "@,
        ),
        plan@.wf(),
{
    let args = clang_lld_link_args(o, lld_file_name, t, obj_path, runtime_obj, output, format);
    single(
        owned(clang_path),
        args,
        owned("clang + lld linking failed:\n"),
        owned(""),
        owned("Failed to execute clang: "),
    )
}

// --------------------------------------------------------------- lld-link

/// Where the Windows SDK and MSVC libraries were found: the SDK's `um` and
/// `ucrt` library directories when found on disk, otherwise the values of
/// `WindowsSdkDir` and `WindowsSDKVersion` (empty when unset) when the
/// former is set; the MSVC library directory when found, otherwise the
/// value of `VCToolsInstallDir` when set.
#[derive(Debug, Clone)]
pub struct WindowsLibPaths {
    pub sdk_paths: Option<(String, String)>,
    pub sdk_env: Option<(String, String)>,
    pub msvc_path: Option<String>,
    pub vctools_env: Option<String>,
}

/// `s` without the backslashes at its end.
pub open spec fn trim_backslashes(s: Seq<char>) -> Seq<char>
    decreases s.len(),
{
    if s.len() > 0 && s.last() == '\\' {
        trim_backslashes(s.drop_last())
    } else {
        s
    }
}

/// Whether `s` ends with `suffix`.
pub open spec fn ends_with_seq(s: Seq<char>, suffix: Seq<char>) -> bool {
    suffix.len() <= s.len() && s.subrange(s.len() - suffix.len(), s.len() as int) == suffix
}

/// Library search paths of the Windows SDK and MSVC.
pub open spec fn windows_lib_args(w: WindowsLibPaths) -> Seq<Seq<char>> {
    (match w.sdk_paths {
        Some((um, ucrt)) => seq!["/LIBPATH:"@ + um@, "/LIBPATH:"@ + ucrt@],
        None => match w.sdk_env {
            Some((dir, version)) => seq![
                "/LIBPATH:"@ + dir@ + "Lib\\"@ + trim_backslashes(version@) + "um\\x64"@,
                "/LIBPATH:"@ + dir@ + "Lib\\"@ + trim_backslashes(version@) + "ucrt\\x64"@,
            ],
            None => Seq::empty(),
        },
    }) + (match w.msvc_path {
        Some(m) => seq!["/LIBPATH:"@ + m@],
        None => match w.vctools_env {
            Some(vc) => seq!["/LIBPATH:"@ + vc@ + "lib\\x64"@],
            None => Seq::empty(),
        },
    })
}

/// Optimisation flags of an lld-link link.
pub open spec fn lld_link_opt_flags(o: AotOptions) -> Seq<Seq<char>> {
    if o.fast_compile || o.opt_level <= 1 {
        seq![
            "/INCREMENTAL"@,
            "/OPT:NOREF,NOICF"@,
            if o.debug_info {
                "/DEBUG:FASTLINK"@
            } else {
                "/DEBUG:NONE"@
            },
        ]
    } else {
        seq!["/OPT:REF,ICF"@] + (if o.enable_lto {
            seq!["/LTCG"@]
        } else {
            Seq::empty()
        }) + seq![
            if o.debug_info {
                "/DEBUG:FULL"@
            } else {
                "/DEBUG:NONE"@
            },
        ]
    }
}

/// System and C runtime libraries of an MSVC link.
pub open spec fn msvc_system_libs() -> Seq<Seq<char>> {
    seq![
        "kernel32.lib"@,
        "ntdll.lib"@,
        "ws2_32.lib"@,
        "advapi32.lib"@,
        "userenv.lib"@,
        "bcrypt.lib"@,
        "user32.lib"@,
        "shell32.lib"@,
        "ole32.lib"@,
        "uuid.lib"@,
        "ucrt.lib"@,
        "msvcrt.lib"@,
        "legacy_stdio_definitions.lib"@,
    ]
}

/// A library name as lld-link takes it: with `.lib` added unless present.
pub open spec fn lib_file(lib: Seq<char>) -> Seq<char> {
    if ends_with_seq(lib, ".lib"@) {
        lib
    } else {
        lib + ".lib"@
    }
}

/// Arguments of an lld-link link.
pub open spec fn lld_link_args(
    o: AotOptions,
    obj: Seq<char>,
    runtime: Seq<char>,
    output: Seq<char>,
    import_lib: Seq<char>,
    format: OutputFormat,
    w: WindowsLibPaths,
) -> Seq<Seq<char>> {
    seq!["/NOLOGO"@, "/MACHINE:X64"@, "/OUT:"@ + output] + lld_link_opt_flags(o) + (if format
        == OutputFormat::SharedLib {
        seq!["/DLL"@, "/IMPLIB:"@ + import_lib]
    } else {
        Seq::empty()
    }) + seq![obj, runtime] + msvc_system_libs() + windows_lib_args(w) + affixed(
        "/LIBPATH:"@,
        strings_view(o.lib_dirs@),
        ""@,
    ) + strings_view(o.link_libs@).map_values(|l: Seq<char>| lib_file(l)) + strings_view(
        o.extra_linker_args@,
    )
}

/// The report of a failed lld-link run, after its error output.
pub open spec fn lld_link_failure_suffix() -> Seq<char> {
    "\n\n⚠️  Windows SDK or MSVC runtime libraries not found.\n\nInstall Visual Studio Build Tools or Windows SDK:\nhttps://visualstudio.microsoft.com/downloads/#build-tools-for-visual-studio-2022"@
}

fn trim_backslashes_exec(s: &str) -> (r: String)
    ensures
        r@ == trim_backslashes(s@),
{
    let chars = chars_of(s);
    let mut n = chars.len();
    assert(s@.subrange(0, n as int) =~= s@);
    while n > 0 && chars[n - 1] == '\\'
        invariant
            n <= chars@.len(),
            chars@ == s@,
            trim_backslashes(s@) == trim_backslashes(s@.subrange(0, n as int)),
        decreases n,
    {
        assert(s@.subrange(0, n as int).drop_last() =~= s@.subrange(0, n - 1));
        n = n - 1;
    }
    assert(trim_backslashes(s@.subrange(0, n as int)) == s@.subrange(0, n as int));
    let sub = s.substring_char(0, n);
    owned(sub)
}

fn ends_with_exec(s: &str, suffix: &str) -> (r: bool)
    ensures
        r == ends_with_seq(s@, suffix@),
{
    let a = chars_of(s);
    let b = chars_of(suffix);
    if b.len() > a.len() {
        return false;
    }
    let off = a.len() - b.len();
    let al = a.len();
    let mut j: usize = 0;
    while j < b.len()
        invariant
            al == a@.len(),
            a@ == s@,
            b@ == suffix@,
            off == a@.len() - b@.len(),
            j <= b@.len(),
            forall|k: int| 0 <= k < j ==> a@[off + k] == b@[k],
        decreases b.len() - j,
    {
        if a[off + j] != b[j] {
            assert(s@.subrange(s@.len() - suffix@.len(), s@.len() as int)[j as int] != suffix@[j as int]);
            return false;
        }
        j = j + 1;
    }
    assert(s@.subrange(s@.len() - suffix@.len(), s@.len() as int) =~= suffix@);
    true
}

fn push_windows_lib_args(v: &mut Vec<String>, w: &WindowsLibPaths)
    ensures
        strings_view(final(v)@) == strings_view(old(v)@) + windows_lib_args(*w),
{
    let ghost start = strings_view(v@);
    match &w.sdk_paths {
        Some((um, ucrt)) => {
            push_owned(v, concat("/LIBPATH:", um.as_str()));
            push_owned(v, concat("/LIBPATH:", ucrt.as_str()));
        },
        None => match &w.sdk_env {
            Some((dir, version)) => {
                let ver = trim_backslashes_exec(version.as_str());
                let base = concat3("/LIBPATH:", dir.as_str(), "Lib\\");
                push_owned(v, concat3(base.as_str(), ver.as_str(), "um\\x64"));
                push_owned(v, concat3(base.as_str(), ver.as_str(), "ucrt\\x64"));
            },
            None => {},
        },
    }
    let ghost mid = strings_view(v@);
    match &w.msvc_path {
        Some(m) => {
            push_owned(v, concat("/LIBPATH:", m.as_str()));
        },
        None => match &w.vctools_env {
            Some(vc) => {
                push_owned(v, concat3("/LIBPATH:", vc.as_str(), "lib\\x64"));
            },
            None => {},
        },
    }
    assert(strings_view(v@) =~= start + windows_lib_args(*w));
}

fn push_lib_files(v: &mut Vec<String>, libs: &Vec<String>)
    ensures
        strings_view(final(v)@) == strings_view(old(v)@) + strings_view(libs@).map_values(
            |l: Seq<char>| lib_file(l),
        ),
{
    let ghost start = strings_view(v@);
    let mut i: usize = 0;
    while i < libs.len()
        invariant
            i <= libs@.len(),
            strings_view(v@) == start + strings_view(libs@.subrange(0, i as int)).map_values(
                |l: Seq<char>| lib_file(l),
            ),
        decreases libs.len() - i,
    {
        let l = &libs[i];
        if ends_with_exec(l.as_str(), ".lib") {
            push_owned(v, l.clone());
        } else {
            push_owned(v, concat(l.as_str(), ".lib"));
        }
        assert(strings_view(libs@.subrange(0, i + 1)).map_values(|l: Seq<char>| lib_file(l))
            =~= strings_view(libs@.subrange(0, i as int)).map_values(|l: Seq<char>| lib_file(l)).push(
            lib_file(libs@[i as int]@),
        ));
        i = i + 1;
    }
    assert(libs@.subrange(0, i as int) =~= libs@);
}

fn push_lld_link_opt_flags(v: &mut Vec<String>, o: &AotOptions)
    ensures
        strings_view(final(v)@) == strings_view(old(v)@) + lld_link_opt_flags(*o),
{
    let ghost start = strings_view(v@);
    if o.fast_compile || o.opt_level <= 1 {
        push_str(v, "/INCREMENTAL");
        push_str(v, "/OPT:NOREF,NOICF");
        if o.debug_info {
            push_str(v, "/DEBUG:FASTLINK");
        } else {
            push_str(v, "/DEBUG:NONE");
        }
    } else {
        push_str(v, "/OPT:REF,ICF");
        if o.enable_lto {
            push_str(v, "/LTCG");
        }
        if o.debug_info {
            push_str(v, "/DEBUG:FULL");
        } else {
            push_str(v, "/DEBUG:NONE");
        }
    }
    assert(strings_view(v@) =~= start + lld_link_opt_flags(*o));
}

fn push_msvc_system_libs(v: &mut Vec<String>)
    ensures
        strings_view(final(v)@) == strings_view(old(v)@) + msvc_system_libs(),
{
    let ghost start = strings_view(v@);
    push_str(v, "kernel32.lib");
    push_str(v, "ntdll.lib");
    push_str(v, "ws2_32.lib");
    push_str(v, "advapi32.lib");
    push_str(v, "userenv.lib");
    push_str(v, "bcrypt.lib");
    push_str(v, "user32.lib");
    push_str(v, "shell32.lib");
    push_str(v, "ole32.lib");
    push_str(v, "uuid.lib");
    push_str(v, "ucrt.lib");
    push_str(v, "msvcrt.lib");
    push_str(v, "legacy_stdio_definitions.lib");
    assert(strings_view(v@) =~= start + msvc_system_libs());
}

/// Arguments of an lld-link link.
pub fn lld_link_link_args(
    o: &AotOptions,
    obj_path: &str,
    runtime_obj: &str,
    output: &str,
    import_lib: &str,
    format: OutputFormat,
    w: &WindowsLibPaths,
) -> (args: Vec<String>)
    ensures
        strings_view(args@) == lld_link_args(*o, obj_path@, runtime_obj@, output@, import_lib@, format, *w),
{
    let mut v: Vec<String> = Vec::new();
    push_str(&mut v, "/NOLOGO");
    push_str(&mut v, "/MACHINE:X64");
    push_owned(&mut v, concat("/OUT:", output));
    let ghost s1 = strings_view(v@);
    push_lld_link_opt_flags(&mut v, o);
    let ghost s2 = strings_view(v@);
    if format == OutputFormat::SharedLib {
        push_str(&mut v, "/DLL");
        push_owned(&mut v, concat("/IMPLIB:", import_lib));
    }
    let ghost s3 = strings_view(v@);
    push_str(&mut v, obj_path);
    push_str(&mut v, runtime_obj);
    let ghost s4 = strings_view(v@);
    push_msvc_system_libs(&mut v);
    let ghost s5 = strings_view(v@);
    push_windows_lib_args(&mut v, w);
    push_affixed(&mut v, "/LIBPATH:", &o.lib_dirs, "");
    push_lib_files(&mut v, &o.link_libs);
    push_all(&mut v, &o.extra_linker_args);
    proof {
        assert(s1 =~= seq!["/NOLOGO"@, "/MACHINE:X64"@, "/OUT:"@ + output@]);
        assert(s2 =~= s1 + lld_link_opt_flags(*o));
        assert(s3 =~= s2 + (if format == OutputFormat::SharedLib {
            seq!["/DLL"@, "/IMPLIB:"@ + import_lib@]
        } else {
            Seq::empty()
        }));
        assert(s4 =~= s3 + seq![obj_path@, runtime_obj@]);
        assert(s5 =~= s4 + msvc_system_libs());
    }
    v
}

/// Link using lld-link (MSVC-compatible mode) for Windows MSVC targets
pub fn link_with_lld_link(
    o: &AotOptions,
    lld_path: &str,
    obj_path: &str,
    runtime_obj: &str,
    output: &str,
    import_lib: &str,
    format: OutputFormat,
    w: &WindowsLibPaths,
) -> (plan: LinkPlan)
    ensures
        plan@ == single_plan(
            lld_path@,
            lld_link_args(*o, obj_path@, runtime_obj@, output@, import_lib@, format, *w),
            "lld-link failed:\n"@,
            lld_link_failure_suffix(),
            "Failed to execute lld-link: "@,
        ),
        plan@.wf(),
{
    let args = lld_link_link_args(o, obj_path, runtime_obj, output, import_lib, format, w);
    single(
        owned(lld_path),
        args,
        owned("lld-link failed:\n"),
        owned("\n\n⚠️  Windows SDK or MSVC runtime libraries not found.\n\nInstall Visual Studio Build Tools or Windows SDK:\nhttps://visualstudio.microsoft.com/downloads/#build-tools-for-visual-studio-2022"),
        owned("Failed to execute lld-link: "),
    )
}

/// Whether a target links with lld-link directly: Windows targets of the
/// `pc` vendor with the MSVC environment. Every other target links with
/// clang and lld.
pub fn uses_lld_link(t: &TargetSpec) -> (r: bool)
    ensures
        r == (t.os == OsKind::Windows && t.vendor_pc && t.env == EnvKind::Msvc),
{
    t.os == OsKind::Windows && t.vendor_pc && t.env == EnvKind::Msvc
}

// ------------------------------------------------------- library-only link

/// The plan that links an object alone into a library: an archive made by
/// `ar` for a static library, a clang link for a shared one; other
/// formats are refused.
pub open spec fn library_plan_for(
    format: OutputFormat,
    clang_path: Seq<char>,
    ar_program: Seq<char>,
    obj: Seq<char>,
    output: Seq<char>,
    t: TargetSpec,
) -> Result<PlanView, Seq<char>> {
    match format {
        OutputFormat::StaticLib => Ok(single_plan(
            ar_program,
            seq!["rcs"@, output, obj],
            "Static library archiving failed: "@,
            ""@,
            "Failed to run ar: "@,
        )),
        OutputFormat::SharedLib => Ok(single_plan(
            clang_path,
            seq!["-shared"@, "-fuse-ld=lld"@, "--target="@ + t.text@, "-o"@, output, obj],
            "Shared library linking failed: "@,
            ""@,
            "Failed to run clang: "@,
        )),
        _ => Err("link_library_only called for non-library format"@),
    }
}

/// Link pure library only (without runtime)
pub fn link_library_only(
    format: OutputFormat,
    clang_path: &str,
    ar_program: &str,
    obj_path: &str,
    output: &str,
    t: &TargetSpec,
) -> (r: Result<LinkPlan, String>)
    ensures
        match (r, library_plan_for(format, clang_path@, ar_program@, obj_path@, output@, *t)) {
            (Ok(p), Ok(q)) => p@ == q && p@.wf(),
            (Err(e), Err(f)) => e@ == f,
            _ => false,
        },
{
    match format {
        OutputFormat::StaticLib => {
            let mut args: Vec<String> = Vec::new();
            push_str(&mut args, "rcs");
            push_str(&mut args, output);
            push_str(&mut args, obj_path);
            assert(strings_view(args@) =~= seq!["rcs"@, output@, obj_path@]);
            Ok(single(
                owned(ar_program),
                args,
                owned("Static library archiving failed: "),
                owned(""),
                owned("Failed to run ar: "),
            ))
        },
        OutputFormat::SharedLib => {
            let mut args: Vec<String> = Vec::new();
            push_str(&mut args, "-shared");
            push_str(&mut args, "-fuse-ld=lld");
            push_owned(&mut args, concat("--target=", t.text.as_str()));
            push_str(&mut args, "-o");
            push_str(&mut args, output);
            push_str(&mut args, obj_path);
            assert(strings_view(args@) =~= seq![
                "-shared"@,
                "-fuse-ld=lld"@,
                "--target="@ + t.text@,
                "-o"@,
                output@,
                obj_path@,
            ]);
            Ok(single(
                owned(clang_path),
                args,
                owned("Shared library linking failed: "),
                owned(""),
                owned("Failed to run clang: "),
            ))
        },
        _ => Err(owned("link_library_only called for non-library format")),
    }
}

} // verus!
