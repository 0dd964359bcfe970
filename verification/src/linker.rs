//! Platform-specific linking rules: which linker programs to try, in which
//! order, and with which arguments, for executables and shared libraries,
//! natively and across targets.
//!
//! Running the programs is left to the caller: `LinkerDriver::link_plan`
//! gives an ordered plan, and `crate::attempts` decides after each run
//! what comes next.

use vstd::prelude::*;
use crate::attempts::{AttemptView, LinkAttempt, LinkCommand, LinkPlan, PlanView, attempt_view};
use crate::strs::{strings_view, affixed, owned, concat, concat3, push_str, push_owned, push_affixed, push_all};
use crate::target::{ArchKind, EnvKind, OsKind, TargetSpec};

verus! {

/// Output type for linking
#[derive(Debug, Clone, Copy, PartialEq, Eq, Structural)]
pub enum OutputType {
    /// Native executable (.exe on Windows, no extension on Unix)
    Executable,
    /// Shared library (.dll on Windows, .so on Linux, .dylib on macOS)
    SharedLib,
    /// Static library (.lib on Windows, .a on Unix)
    StaticLib,
}

/// Linker configuration for AOT compilation. Directories are paths as
/// text.
#[derive(Debug, Clone)]
pub struct LinkerConfig {
    pub output_type: OutputType,
    pub target_triple: TargetSpec,
    pub opt_level: u8,
    pub debug_info: bool,
    pub include_dirs: Vec<String>,
    pub lib_dirs: Vec<String>,
    pub link_libs: Vec<String>,
    pub extra_linker_args: Vec<String>,
    pub library_mode: bool,
}

impl Default for LinkerConfig {
    /// An executable for the host, at optimisation level 2, without debug
    /// info, search paths, libraries or extra arguments.
    fn default() -> (c: LinkerConfig)
        ensures
            c.output_type == OutputType::Executable,
            c.opt_level == 2,
            !c.debug_info,
            c.include_dirs@.len() == 0,
            c.lib_dirs@.len() == 0,
            c.link_libs@.len() == 0,
            c.extra_linker_args@.len() == 0,
            !c.library_mode,
    {
        LinkerConfig {
            output_type: OutputType::Executable,
            target_triple: TargetSpec::host(),
            opt_level: 2,
            debug_info: false,
            include_dirs: Vec::new(),
            lib_dirs: Vec::new(),
            link_libs: Vec::new(),
            extra_linker_args: Vec::new(),
            library_mode: false,
        }
    }
}

/// The files of one link, as text: the generated object, the runtime
/// object, the output, the output's file name (when it has one) and the
/// import library that goes with a Windows DLL (the output with extension
/// `lib`).
#[derive(Debug, Clone)]
pub struct LinkPaths {
    pub obj_path: String,
    pub runtime_obj: String,
    pub output: String,
    pub output_file_name: Option<String>,
    pub import_lib: String,
}

/// Platform-specific linker driver
pub struct LinkerDriver {
    config: LinkerConfig,
}

// ---------------------------------------------------------------- specs

/// Whether the operating system is macOS, under either name.
pub open spec fn is_apple(os: OsKind) -> bool {
    os == OsKind::MacOSX || os == OsKind::Darwin
}

/// Dynamic loader of a Linux system for an architecture (x86-64 when the
/// architecture is not one of the known ones).
pub open spec fn dynamic_linker_for(arch: ArchKind) -> Seq<char> {
    match arch {
        ArchKind::X86_64 => "/lib64/ld-linux-x86-64.so.2"@,
        ArchKind::Aarch64 => "/lib/ld-linux-aarch64.so.1"@,
        ArchKind::Arm => "/lib/ld-linux-armhf.so.3"@,
        ArchKind::X86_32 => "/lib/ld-linux.so.2"@,
        ArchKind::Other => "/lib64/ld-linux-x86-64.so.2"@,
    }
}

/// Prefix of the cross tools for a target, such as `x86_64-linux-gnu`.
pub open spec fn driver_target_prefix(t: TargetSpec) -> Result<Seq<char>, Seq<char>> {
    let arch: Option<Seq<char>> = match t.arch {
        ArchKind::X86_64 => Some("x86_64"@),
        ArchKind::X86_32 => Some("i686"@),
        ArchKind::Aarch64 => Some("aarch64"@),
        ArchKind::Arm => Some("arm"@),
        ArchKind::Other => None,
    };
    match arch {
        None => Err("Unknown architecture"@),
        Some(a) => match t.os {
            OsKind::Linux => Ok(a + "-"@ + (match t.env {
                EnvKind::Musl => "linux-musl"@,
                _ => "linux-gnu"@,
            })),
            OsKind::Windows => Ok(a + "-"@ + "w64-mingw32"@),
            _ => Err("Unsupported OS for cross-compilation"@),
        },
    }
}

/// Arguments of the MSVC linker.
pub open spec fn msvc_args(c: LinkerConfig, p: LinkPaths) -> Seq<Seq<char>> {
    seq!["/NOLOGO"@] + (if c.output_type == OutputType::Executable {
        seq!["/ENTRY:main"@, "/SUBSYSTEM:CONSOLE"@]
    } else {
        seq!["/DLL"@, "/IMPLIB:"@ + p.import_lib@]
    }) + seq!["/OUT:"@ + p.output@, p.obj_path@] + (if c.library_mode {
        Seq::empty()
    } else {
        seq![p.runtime_obj@]
    }) + (if c.output_type == OutputType::Executable {
        seq!["kernel32.lib"@, "msvcrt.lib"@]
    } else {
        Seq::empty()
    }) + affixed(""@, strings_view(c.link_libs@), ".lib"@)
}

/// Arguments of `ld`.
pub open spec fn ld_args(c: LinkerConfig, p: LinkPaths) -> Seq<Seq<char>> {
    seq!["-o"@, p.output@, p.obj_path@, p.runtime_obj@] + (if c.output_type
        == OutputType::Executable {
        seq!["-lc"@, "-dynamic-linker"@, dynamic_linker_for(c.target_triple.arch)]
    } else {
        seq!["-shared"@, "-lc"@] + (match p.output_file_name {
            Some(f) => seq!["-soname"@, f@],
            None => Seq::empty(),
        })
    })
}

/// Section-collecting flag that removes unused code at link time.
pub open spec fn gc_flag(os: OsKind) -> Seq<char> {
    if is_apple(os) {
        "-Wl,-dead_strip"@
    } else {
        "-Wl,--gc-sections"@
    }
}

/// Optimisation flags of a GCC/Clang link; levels above 3 link as level 2.
pub open spec fn gcc_opt_flags(level: u8, os: OsKind) -> Seq<Seq<char>> {
    if level == 0 {
        seq!["-O0"@]
    } else if level == 1 {
        seq!["-O1"@]
    } else if level == 3 {
        seq!["-O3"@, "-flto"@, "-ffunction-sections"@, "-fdata-sections"@, gc_flag(os)]
    } else {
        seq!["-O2"@, "-ffunction-sections"@, "-fdata-sections"@, gc_flag(os)]
    }
}

/// Flags that make a shared library on an operating system.
pub open spec fn gcc_shared_flags(os: OsKind, p: LinkPaths) -> Seq<Seq<char>> {
    match os {
        OsKind::Windows => seq![
            "-Wl,--out-implib"@,
            "-Wl,"@ + p.import_lib@,
            "-Wl,--export-all-symbols"@,
            "-Wl,--enable-auto-image-base"@,
        ],
        OsKind::Linux => seq!["-fPIC"@] + (match p.output_file_name {
            Some(f) => seq!["-Wl,-soname"@, "-Wl,"@ + f@],
            None => Seq::empty(),
        }),
        _ => seq!["-fPIC"@],
    }
}

/// System libraries that an executable links against.
pub open spec fn gcc_platform_libs(os: OsKind) -> Seq<Seq<char>> {
    match os {
        OsKind::Linux => seq!["-no-pie"@, "-lc"@, "-lpthread"@, "-ldl"@, "-lm"@],
        OsKind::MacOSX | OsKind::Darwin => seq!["-lSystem"@],
        OsKind::Windows => seq!["-lkernel32"@, "-lmsvcrt"@],
        OsKind::Other => Seq::empty(),
    }
}

/// Arguments of a GCC/Clang link with the given linker-selection flags.
pub open spec fn gcc_args(c: LinkerConfig, p: LinkPaths, flags: Seq<Seq<char>>) -> Seq<Seq<char>> {
    let os = c.target_triple.os;
    seq!["-o"@, p.output@, p.obj_path@] + (if c.library_mode {
        Seq::empty()
    } else {
        seq![p.runtime_obj@]
    }) + flags + gcc_opt_flags(c.opt_level, os) + (if c.debug_info {
        seq!["-g"@]
    } else {
        seq!["-s"@]
    }) + (if c.output_type == OutputType::SharedLib {
        seq!["-shared"@] + gcc_shared_flags(os, p)
    } else {
        Seq::empty()
    }) + affixed("-I"@, strings_view(c.include_dirs@), ""@) + affixed(
        "-L"@,
        strings_view(c.lib_dirs@),
        ""@,
    ) + affixed("-l"@, strings_view(c.link_libs@), ""@) + (if c.library_mode {
        Seq::empty()
    } else {
        gcc_platform_libs(os)
    }) + strings_view(c.extra_linker_args@)
}

/// The linker-selection flags tried in turn: lld, then BFD, then the
/// compiler's default.
pub open spec fn linker_flag_set(j: int) -> Seq<Seq<char>> {
    if j == 0 {
        seq!["-fuse-ld=lld"@]
    } else if j == 1 {
        seq!["-fuse-ld=bfd"@]
    } else {
        Seq::empty()
    }
}

/// How `Debug` writes a linker-selection flag set.
pub open spec fn linker_flag_set_debug(j: int) -> Seq<char> {
    if j == 0 {
        "[\"-fuse-ld=lld\"]"@
    } else if j == 1 {
        "[\"-fuse-ld=bfd\"]"@
    } else {
        "[]"@
    }
}

/// Compilers that drive a link, in the order tried: Clang first on macOS,
/// GCC first elsewhere.
pub open spec fn gcc_compilers(os: OsKind) -> Seq<Seq<char>> {
    if is_apple(os) {
        seq!["clang"@, "gcc"@]
    } else {
        seq!["gcc"@, "clang"@]
    }
}

/// The `j`-th try of a compiler; a compiler that cannot be started gives
/// way to the next compiler at `skip`.
pub open spec fn gcc_attempt(c: LinkerConfig, p: LinkPaths, compiler: Seq<char>, j: int, skip: int) -> AttemptView {
    attempt_view(
        compiler,
        gcc_args(c, p, linker_flag_set(j)),
        compiler + " linking failed: "@,
        " with flags "@ + linker_flag_set_debug(j),
        "Failed to execute "@ + compiler + ": "@,
        skip,
    )
}

/// The three tries of one compiler, starting at index `base`.
pub open spec fn gcc_group(c: LinkerConfig, p: LinkPaths, compiler: Seq<char>, base: int) -> Seq<AttemptView> {
    seq![
        gcc_attempt(c, p, compiler, 0, base + 3),
        gcc_attempt(c, p, compiler, 1, base + 3),
        gcc_attempt(c, p, compiler, 2, base + 3),
    ]
}

/// All GCC/Clang tries, starting at index `base`.
pub open spec fn gcc_attempts(c: LinkerConfig, p: LinkPaths, base: int) -> Seq<AttemptView> {
    let cs = gcc_compilers(c.target_triple.os);
    gcc_group(c, p, cs[0], base) + gcc_group(c, p, cs[1], base + 3)
}

/// The platform linker tried before GCC/Clang on a native link: MSVC's
/// `link.exe` on Windows, `ld` on Linux and macOS, none elsewhere and none
/// for a static library (which those linkers do not make).
pub open spec fn primary_attempts(c: LinkerConfig, p: LinkPaths) -> Seq<AttemptView> {
    if c.output_type == OutputType::StaticLib {
        Seq::empty()
    } else {
        match c.target_triple.os {
            OsKind::Windows => seq![
                attempt_view(
                    "link.exe"@,
                    msvc_args(c, p),
                    "MSVC linking failed: "@,
                    ""@,
                    "Failed to execute link.exe: "@,
                    1,
                ),
            ],
            OsKind::Linux | OsKind::MacOSX | OsKind::Darwin => seq![
                attempt_view(
                    "ld"@,
                    ld_args(c, p),
                    "ld linking failed: "@,
                    ""@,
                    "Failed to execute ld: "@,
                    1,
                ),
            ],
            OsKind::Other => Seq::empty(),
        }
    }
}

/// Arguments of a cross link.
pub open spec fn cross_args(c: LinkerConfig, p: LinkPaths) -> Seq<Seq<char>> {
    seq!["-o"@, p.output@, p.obj_path@, p.runtime_obj@] + seq![
        if c.opt_level == 0 {
            "-O0"@
        } else if c.opt_level == 1 {
            "-O1"@
        } else if c.opt_level == 3 {
            "-O3"@
        } else {
            "-O2"@
        },
    ] + affixed("-L"@, strings_view(c.lib_dirs@), ""@) + affixed(
        "-l"@,
        strings_view(c.link_libs@),
        ""@,
    )
}

/// A cross compiler tried once, reporting as the plain compiler runner does.
pub open spec fn cross_attempt(compiler: Seq<char>, args: Seq<Seq<char>>, index: int) -> AttemptView {
    attempt_view(compiler, args, compiler + ": "@, ""@, compiler + " not found: "@, index + 1)
}

/// The error of a cross link in which every compiler failed.
pub open spec fn cross_error(c: LinkerConfig) -> Seq<char> {
    "Cross-compilation linking failed for target "@ + c.target_triple.text@
        + ". Install cross-compiler (e.g., "@ + (match driver_target_prefix(c.target_triple) {
        Ok(pre) => pre + "-"@,
        Err(_) => ""@,
    }) + "gcc) or use --object to generate object file only."@
}

/// The cross tries: the target-prefixed GCC (when the target has a known
/// prefix), then Clang with `--target`.
pub open spec fn cross_attempts(c: LinkerConfig, p: LinkPaths) -> Seq<AttemptView> {
    let args = cross_args(c, p);
    let clang_args = seq!["--target="@ + c.target_triple.text@] + args;
    match driver_target_prefix(c.target_triple) {
        Ok(pre) => seq![cross_attempt(pre + "-gcc"@, args, 0), cross_attempt("clang"@, clang_args, 1)],
        Err(_) => seq![cross_attempt("clang"@, clang_args, 0)],
    }
}

/// The whole plan of a link: native when the target is the host, cross
/// otherwise.
pub open spec fn driver_plan(c: LinkerConfig, same_as_host: bool, p: LinkPaths) -> PlanView {
    if same_as_host {
        let pr = primary_attempts(c, p);
        PlanView {
            attempts: pr + gcc_attempts(c, p, pr.len() as int),
            records_errors: true,
            error_prefix: ""@,
            error_suffix: ""@,
        }
    } else {
        PlanView {
            attempts: cross_attempts(c, p),
            records_errors: false,
            error_prefix: cross_error(c),
            error_suffix: ""@,
        }
    }
}

// ----------------------------------------------------------- execution

fn make_attempt(
    program: String,
    args: Vec<String>,
    failure_prefix: String,
    failure_suffix: String,
    spawn_prefix: String,
    skip_to: usize,
) -> (a: LinkAttempt)
    ensures
        a@ == attempt_view(
            program@,
            strings_view(args@),
            failure_prefix@,
            failure_suffix@,
            spawn_prefix@,
            skip_to as int,
        ),
{
    LinkAttempt {
        command: LinkCommand { program, args },
        failure_prefix,
        failure_suffix,
        spawn_prefix,
        skip_to,
    }
}

fn push_attempt(v: &mut Vec<LinkAttempt>, a: LinkAttempt)
    ensures
        final(v)@.map_values(|x: LinkAttempt| x@) == old(v)@.map_values(|x: LinkAttempt| x@).push(a@),
{
    let ghost before = v@;
    v.push(a);
    assert(v@.map_values(|x: LinkAttempt| x@) =~= before.map_values(|x: LinkAttempt| x@).push(a@));
}

impl LinkerDriver {
    /// Create a new linker driver with the given configuration
    pub fn new(config: LinkerConfig) -> (d: Self)
        ensures
            d.config() == config,
    {
        LinkerDriver { config }
    }

    /// The configuration this driver links with.
    pub closed spec fn config(&self) -> LinkerConfig {
        self.config
    }

    /// The configuration this driver links with.
    pub fn get_config(&self) -> (c: &LinkerConfig)
        ensures
            *c == self.config(),
    {
        &self.config
    }

    /// Get the Linux dynamic linker path
    pub fn get_linux_dynamic_linker(&self) -> (r: Result<String, String>)
        ensures
            r matches Ok(s) && s@ == dynamic_linker_for(self.config().target_triple.arch),
    {
        let s = match self.config.target_triple.arch {
            ArchKind::X86_64 => owned("/lib64/ld-linux-x86-64.so.2"),
            ArchKind::Aarch64 => owned("/lib/ld-linux-aarch64.so.1"),
            ArchKind::Arm => owned("/lib/ld-linux-armhf.so.3"),
            ArchKind::X86_32 => owned("/lib/ld-linux.so.2"),
            ArchKind::Other => owned("/lib64/ld-linux-x86-64.so.2"),
        };
        Ok(s)
    }

    /// Get target prefix for cross-compiler
    pub fn get_target_prefix(&self, target: &TargetSpec) -> (r: Result<String, String>)
        ensures
            match (r, driver_target_prefix(*target)) {
                (Ok(s), Ok(t)) => s@ == t,
                (Err(s), Err(t)) => s@ == t,
                _ => false,
            },
    {
        let arch = match target.arch {
            ArchKind::X86_64 => "x86_64",
            ArchKind::X86_32 => "i686",
            ArchKind::Aarch64 => "aarch64",
            ArchKind::Arm => "arm",
            ArchKind::Other => {
                return Err(owned("Unknown architecture"));
            },
        };
        let os_env = match target.os {
            OsKind::Linux => match target.env {
                EnvKind::Musl => "linux-musl",
                _ => "linux-gnu",
            },
            OsKind::Windows => "w64-mingw32",
            _ => {
                return Err(owned("Unsupported OS for cross-compilation"));
            },
        };
        Ok(concat3(arch, "-", os_env))
    }

    /// Arguments of the MSVC linker.
    pub fn msvc_args(&self, p: &LinkPaths) -> (args: Vec<String>)
        requires
            self.config().output_type != OutputType::StaticLib,
        ensures
            strings_view(args@) == msvc_args(self.config(), *p),
    {
        let c = &self.config;
        let mut v: Vec<String> = Vec::new();
        push_str(&mut v, "/NOLOGO");
        let ghost s1 = strings_view(v@);
        if c.output_type == OutputType::Executable {
            push_str(&mut v, "/ENTRY:main");
            push_str(&mut v, "/SUBSYSTEM:CONSOLE");
        } else {
            push_str(&mut v, "/DLL");
            push_owned(&mut v, concat("/IMPLIB:", p.import_lib.as_str()));
        }
        let ghost s2 = strings_view(v@);
        push_owned(&mut v, concat("/OUT:", p.output.as_str()));
        push_str(&mut v, p.obj_path.as_str());
        let ghost s3 = strings_view(v@);
        if !c.library_mode {
            push_str(&mut v, p.runtime_obj.as_str());
        }
        let ghost s4 = strings_view(v@);
        if c.output_type == OutputType::Executable {
            push_str(&mut v, "kernel32.lib");
            push_str(&mut v, "msvcrt.lib");
        }
        let ghost s5 = strings_view(v@);
        push_affixed(&mut v, "", &c.link_libs, ".lib");
        proof {
            let spec_mid = if c.output_type == OutputType::Executable {
                seq!["/ENTRY:main"@, "/SUBSYSTEM:CONSOLE"@]
            } else {
                seq!["/DLL"@, "/IMPLIB:"@ + p.import_lib@]
            };
            assert(s1 =~= seq!["/NOLOGO"@]);
            assert(s2 =~= s1 + spec_mid);
            assert(s3 =~= s2 + seq!["/OUT:"@ + p.output@, p.obj_path@]);
            assert(s4 =~= s3 + (if c.library_mode {
                Seq::empty()
            } else {
                seq![p.runtime_obj@]
            }));
            assert(s5 =~= s4 + (if c.output_type == OutputType::Executable {
                seq!["kernel32.lib"@, "msvcrt.lib"@]
            } else {
                Seq::empty()
            }));
        }
        v
    }

    /// Arguments of `ld`.
    pub fn ld_args(&self, p: &LinkPaths) -> (args: Vec<String>)
        requires
            self.config().output_type != OutputType::StaticLib,
        ensures
            strings_view(args@) == ld_args(self.config(), *p),
    {
        let c = &self.config;
        let mut v: Vec<String> = Vec::new();
        push_str(&mut v, "-o");
        push_str(&mut v, p.output.as_str());
        push_str(&mut v, p.obj_path.as_str());
        push_str(&mut v, p.runtime_obj.as_str());
        let ghost s1 = strings_view(v@);
        assert(s1 =~= seq!["-o"@, p.output@, p.obj_path@, p.runtime_obj@]);
        if c.output_type == OutputType::Executable {
            push_str(&mut v, "-lc");
            let linker = self.get_linux_dynamic_linker();
            match linker {
                Ok(l) => {
                    push_str(&mut v, "-dynamic-linker");
                    push_owned(&mut v, l);
                },
                Err(_) => {},
            }
            assert(strings_view(v@) =~= s1 + seq![
                "-lc"@,
                "-dynamic-linker"@,
                dynamic_linker_for(c.target_triple.arch),
            ]);
        } else {
            push_str(&mut v, "-shared");
            push_str(&mut v, "-lc");
            let ghost s2 = strings_view(v@);
            match &p.output_file_name {
                Some(f) => {
                    push_str(&mut v, "-soname");
                    push_str(&mut v, f.as_str());
                },
                None => {},
            }
            assert(strings_view(v@) =~= s1 + (seq!["-shared"@, "-lc"@] + (match p.output_file_name {
                Some(f) => seq!["-soname"@, f@],
                None => Seq::empty(),
            })));
        }
        v
    }

    fn push_opt_flags(&self, v: &mut Vec<String>)
        ensures
            strings_view(final(v)@) == strings_view(old(v)@) + gcc_opt_flags(
                self.config().opt_level,
                self.config().target_triple.os,
            ),
    {
        let os = self.config.target_triple.os;
        let ghost start = strings_view(v@);
        let gc = match os {
            OsKind::MacOSX | OsKind::Darwin => "-Wl,-dead_strip",
            _ => "-Wl,--gc-sections",
        };
        assert(gc@ == gc_flag(os));
        match self.config.opt_level {
            0 => {
                push_str(v, "-O0");
            },
            1 => {
                push_str(v, "-O1");
            },
            3 => {
                push_str(v, "-O3");
                push_str(v, "-flto");
                push_str(v, "-ffunction-sections");
                push_str(v, "-fdata-sections");
                push_str(v, gc);
            },
            _ => {
                push_str(v, "-O2");
                push_str(v, "-ffunction-sections");
                push_str(v, "-fdata-sections");
                push_str(v, gc);
            },
        }
        assert(strings_view(v@) =~= start + gcc_opt_flags(self.config.opt_level, os));
    }

    fn push_shared_flags(&self, v: &mut Vec<String>, p: &LinkPaths)
        ensures
            strings_view(final(v)@) == strings_view(old(v)@) + gcc_shared_flags(
                self.config().target_triple.os,
                *p,
            ),
    {
        let ghost start = strings_view(v@);
        match self.config.target_triple.os {
            OsKind::Windows => {
                push_str(v, "-Wl,--out-implib");
                push_owned(v, concat("-Wl,", p.import_lib.as_str()));
                push_str(v, "-Wl,--export-all-symbols");
                push_str(v, "-Wl,--enable-auto-image-base");
            },
            OsKind::Linux => {
                push_str(v, "-fPIC");
                match &p.output_file_name {
                    Some(f) => {
                        push_str(v, "-Wl,-soname");
                        push_owned(v, concat("-Wl,", f.as_str()));
                    },
                    None => {},
                }
            },
            _ => {
                push_str(v, "-fPIC");
            },
        }
        assert(strings_view(v@) =~= start + gcc_shared_flags(self.config.target_triple.os, *p));
    }

    fn push_platform_libs(&self, v: &mut Vec<String>)
        ensures
            strings_view(final(v)@) == strings_view(old(v)@) + gcc_platform_libs(
                self.config().target_triple.os,
            ),
    {
        let ghost start = strings_view(v@);
        match self.config.target_triple.os {
            OsKind::Linux => {
                push_str(v, "-no-pie");
                push_str(v, "-lc");
                push_str(v, "-lpthread");
                push_str(v, "-ldl");
                push_str(v, "-lm");
            },
            OsKind::MacOSX | OsKind::Darwin => {
                push_str(v, "-lSystem");
            },
            OsKind::Windows => {
                push_str(v, "-lkernel32");
                push_str(v, "-lmsvcrt");
            },
            OsKind::Other => {},
        }
        assert(strings_view(v@) =~= start + gcc_platform_libs(self.config.target_triple.os));
    }

    /// Arguments of a GCC/Clang link with the given linker-selection flags.
    pub fn gcc_args(&self, p: &LinkPaths, flags: &Vec<String>) -> (args: Vec<String>)
        ensures
            strings_view(args@) == gcc_args(self.config(), *p, strings_view(flags@)),
    {
        let c = &self.config;
        let mut v: Vec<String> = Vec::new();
        push_str(&mut v, "-o");
        push_str(&mut v, p.output.as_str());
        push_str(&mut v, p.obj_path.as_str());
        let ghost s1 = strings_view(v@);
        if !c.library_mode {
            push_str(&mut v, p.runtime_obj.as_str());
        }
        let ghost s2 = strings_view(v@);
        push_all(&mut v, flags);
        let ghost s3 = strings_view(v@);
        self.push_opt_flags(&mut v);
        let ghost s4 = strings_view(v@);
        if c.debug_info {
            push_str(&mut v, "-g");
        } else {
            push_str(&mut v, "-s");
        }
        let ghost s5 = strings_view(v@);
        if c.output_type == OutputType::SharedLib {
            push_str(&mut v, "-shared");
            self.push_shared_flags(&mut v, p);
        }
        let ghost s6 = strings_view(v@);
        push_affixed(&mut v, "-I", &c.include_dirs, "");
        push_affixed(&mut v, "-L", &c.lib_dirs, "");
        push_affixed(&mut v, "-l", &c.link_libs, "");
        let ghost s7 = strings_view(v@);
        if !c.library_mode {
            self.push_platform_libs(&mut v);
        }
        let ghost s8 = strings_view(v@);
        push_all(&mut v, &c.extra_linker_args);
        proof {
            let os = c.target_triple.os;
            assert(s1 =~= seq!["-o"@, p.output@, p.obj_path@]);
            assert(s2 =~= s1 + (if c.library_mode {
                Seq::empty()
            } else {
                seq![p.runtime_obj@]
            }));
            assert(s5 =~= s4 + (if c.debug_info {
                seq!["-g"@]
            } else {
                seq!["-s"@]
            }));
            assert(s6 =~= s5 + (if c.output_type == OutputType::SharedLib {
                seq!["-shared"@] + gcc_shared_flags(os, *p)
            } else {
                Seq::empty()
            }));
            assert(s8 =~= s7 + (if c.library_mode {
                Seq::empty()
            } else {
                gcc_platform_libs(os)
            }));
        }
        v
    }

    /// Arguments of a cross link.
    pub fn get_linker_args(&self, p: &LinkPaths) -> (args: Vec<String>)
        ensures
            strings_view(args@) == cross_args(self.config(), *p),
    {
        let c = &self.config;
        let mut v: Vec<String> = Vec::new();
        push_str(&mut v, "-o");
        push_str(&mut v, p.output.as_str());
        push_str(&mut v, p.obj_path.as_str());
        push_str(&mut v, p.runtime_obj.as_str());
        let opt = match c.opt_level {
            0 => "-O0",
            1 => "-O1",
            2 => "-O2",
            3 => "-O3",
            _ => "-O2",
        };
        push_str(&mut v, opt);
        let ghost s1 = strings_view(v@);
        assert(s1 =~= seq!["-o"@, p.output@, p.obj_path@, p.runtime_obj@] + seq![
            if c.opt_level == 0 {
                "-O0"@
            } else if c.opt_level == 1 {
                "-O1"@
            } else if c.opt_level == 3 {
                "-O3"@
            } else {
                "-O2"@
            },
        ]);
        push_affixed(&mut v, "-L", &c.lib_dirs, "");
        push_affixed(&mut v, "-l", &c.link_libs, "");
        v
    }

    fn flag_set(j: usize) -> (flags: Vec<String>)
        requires
            j < 3,
        ensures
            strings_view(flags@) == linker_flag_set(j as int),
    {
        let mut v: Vec<String> = Vec::new();
        if j == 0 {
            push_str(&mut v, "-fuse-ld=lld");
        } else if j == 1 {
            push_str(&mut v, "-fuse-ld=bfd");
        }
        assert(strings_view(v@) =~= linker_flag_set(j as int));
        v
    }

    fn flag_set_debug(j: usize) -> (s: String)
        requires
            j < 3,
        ensures
            s@ == linker_flag_set_debug(j as int),
    {
        if j == 0 {
            owned("[\"-fuse-ld=lld\"]")
        } else if j == 1 {
            owned("[\"-fuse-ld=bfd\"]")
        } else {
            owned("[]")
        }
    }

    fn push_gcc_group(&self, v: &mut Vec<LinkAttempt>, p: &LinkPaths, compiler: &str, base: usize)
        requires
            base + 3 <= usize::MAX,
        ensures
            final(v)@.map_values(|x: LinkAttempt| x@) == old(v)@.map_values(|x: LinkAttempt| x@)
                + gcc_group(self.config(), *p, compiler@, base as int),
    {
        let ghost start = v@.map_values(|x: LinkAttempt| x@);
        let mut j: usize = 0;
        while j < 3
            invariant
                j <= 3,
                base + 3 <= usize::MAX,
                v@.map_values(|x: LinkAttempt| x@) == start + gcc_group(
                    self.config(),
                    *p,
                    compiler@,
                    base as int,
                ).subrange(0, j as int),
            decreases 3 - j,
        {
            let flags = Self::flag_set(j);
            let args = self.gcc_args(p, &flags);
            let fail_suffix = concat(" with flags ", Self::flag_set_debug(j).as_str());
            let a = make_attempt(
                owned(compiler),
                args,
                concat(compiler, " linking failed: "),
                fail_suffix,
                concat3("Failed to execute ", compiler, ": "),
                base + 3,
            );
            assert(a@ == gcc_attempt(self.config(), *p, compiler@, j as int, base + 3));
            push_attempt(v, a);
            assert(gcc_group(self.config(), *p, compiler@, base as int).subrange(0, j + 1)
                =~= gcc_group(self.config(), *p, compiler@, base as int).subrange(0, j as int).push(
                gcc_attempt(self.config(), *p, compiler@, j as int, base + 3),
            ));
            j = j + 1;
        }
        assert(gcc_group(self.config(), *p, compiler@, base as int).subrange(0, 3) =~= gcc_group(
            self.config(),
            *p,
            compiler@,
            base as int,
        ));
    }

    fn push_primary(&self, v: &mut Vec<LinkAttempt>, p: &LinkPaths)
        requires
            old(v)@.len() == 0,
        ensures
            final(v)@.map_values(|x: LinkAttempt| x@) == primary_attempts(self.config(), *p),
    {
        let c = &self.config;
        if c.output_type == OutputType::StaticLib {
            assert(v@.map_values(|x: LinkAttempt| x@) =~= primary_attempts(self.config(), *p));
            return;
        }
        match c.target_triple.os {
            OsKind::Windows => {
                let a = make_attempt(
                    owned("link.exe"),
                    self.msvc_args(p),
                    owned("MSVC linking failed: "),
                    owned(""),
                    owned("Failed to execute link.exe: "),
                    1,
                );
                push_attempt(v, a);
            },
            OsKind::Linux | OsKind::MacOSX | OsKind::Darwin => {
                let a = make_attempt(
                    owned("ld"),
                    self.ld_args(p),
                    owned("ld linking failed: "),
                    owned(""),
                    owned("Failed to execute ld: "),
                    1,
                );
                push_attempt(v, a);
            },
            OsKind::Other => {},
        }
        assert(v@.map_values(|x: LinkAttempt| x@) =~= primary_attempts(self.config(), *p));
    }

    fn push_cross(&self, v: &mut Vec<LinkAttempt>, p: &LinkPaths)
        requires
            old(v)@.len() == 0,
        ensures
            final(v)@.map_values(|x: LinkAttempt| x@) == cross_attempts(self.config(), *p),
    {
        let c = &self.config;
        let prefix = self.get_target_prefix(&c.target_triple);
        let mut index: usize = 0;
        match &prefix {
            Ok(pre) => {
                let gcc = concat(pre.as_str(), "-gcc");
                let a = make_attempt(
                    gcc.clone(),
                    self.get_linker_args(p),
                    concat(gcc.as_str(), ": "),
                    owned(""),
                    concat(gcc.as_str(), " not found: "),
                    1,
                );
                push_attempt(v, a);
                index = 1;
            },
            Err(_) => {},
        }
        let mut clang_args: Vec<String> = Vec::new();
        push_owned(&mut clang_args, concat("--target=", c.target_triple.text.as_str()));
        let rest = self.get_linker_args(p);
        push_all(&mut clang_args, &rest);
        assert(strings_view(clang_args@) =~= seq!["--target="@ + c.target_triple.text@] + cross_args(self.config(), *p));
        let a = make_attempt(
            owned("clang"),
            clang_args,
            owned("clang: "),
            owned(""),
            owned("clang not found: "),
            index + 1,
        );
        proof {
            reveal_strlit("clang");
            reveal_strlit("clang: ");
            reveal_strlit("clang not found: ");
            reveal_strlit(": ");
            reveal_strlit(" not found: ");
            assert("clang: "@ =~= "clang"@ + ": "@);
            assert("clang not found: "@ =~= "clang"@ + " not found: "@);
        }
        assert(a@ == cross_attempt("clang"@, seq!["--target="@ + c.target_triple.text@] + cross_args(self.config(), *p), index as int));
        push_attempt(v, a);
        assert(v@.map_values(|x: LinkAttempt| x@) =~= cross_attempts(self.config(), *p));
    }

    fn cross_error(&self) -> (s: String)
        ensures
            s@ == cross_error(self.config()),
    {
        let c = &self.config;
        let pre = match self.get_target_prefix(&c.target_triple) {
            Ok(pre) => concat(pre.as_str(), "-"),
            Err(_) => owned(""),
        };
        let head = concat3(
            "Cross-compilation linking failed for target ",
            c.target_triple.text.as_str(),
            ". Install cross-compiler (e.g., ",
        );
        concat3(head.as_str(), pre.as_str(), "gcc) or use --object to generate object file only.")
    }

    /// The plan of a link; `same_as_host` says whether the target is the
    /// host. A native link tries the platform linker and then GCC and
    /// Clang with lld, BFD and the default linker in turn, ending with the
    /// last failure; a cross link tries the target-prefixed GCC and Clang
    /// and ends with advice on installing a cross compiler.
    pub fn plan_link(&self, same_as_host: bool, p: &LinkPaths) -> (plan: LinkPlan)
        ensures
            plan@ == driver_plan(self.config(), same_as_host, *p),
            plan@.wf(),
    {
        let mut attempts: Vec<LinkAttempt> = Vec::new();
        if same_as_host {
            self.push_primary(&mut attempts, p);
            let base = attempts.len();
            assert(attempts@.map_values(|x: LinkAttempt| x@).len() == attempts@.len());
            assert(base <= 1);
            let os = self.config.target_triple.os;
            let (first, second) = match os {
                OsKind::MacOSX | OsKind::Darwin => ("clang", "gcc"),
                _ => ("gcc", "clang"),
            };
            assert(first@ == gcc_compilers(os)[0] && second@ == gcc_compilers(os)[1]);
            self.push_gcc_group(&mut attempts, p, first, base);
            self.push_gcc_group(&mut attempts, p, second, base + 3);
            let plan = LinkPlan {
                attempts,
                records_errors: true,
                error_prefix: owned(""),
                error_suffix: owned(""),
            };
            assert(plan@.attempts =~= driver_plan(self.config(), same_as_host, *p).attempts);
            plan
        } else {
            self.push_cross(&mut attempts, p);
            let plan = LinkPlan {
                attempts,
                records_errors: false,
                error_prefix: self.cross_error(),
                error_suffix: owned(""),
            };
            plan
        }
    }

    /// The plan of a link from this driver's target to the host it runs on.
    pub fn link_plan(&self, p: &LinkPaths) -> (plan: LinkPlan)
        ensures
            plan@ == driver_plan(self.config(), true, *p) || plan@ == driver_plan(
                self.config(),
                false,
                *p,
            ),
            plan@.wf(),
    {
        let host = TargetSpec::host();
        let same = self.config.target_triple.same_triple(&host);
        self.plan_link(same, p)
    }
}


/// An optimised GCC/Clang link (level 2 or above) removes unused sections
/// with the flag its platform's linker knows: `-Wl,-dead_strip` for
/// Apple's (macOS, Darwin), `-Wl,--gc-sections` elsewhere, and never the
/// other one; levels 0 and 1 ask for neither. The link's arguments carry
/// the flag.
pub proof fn lemma_dead_code_flag(c: LinkerConfig, p: LinkPaths, flags: Seq<Seq<char>>)
    ensures
        c.opt_level >= 2 && is_apple(c.target_triple.os) ==> gcc_args(c, p, flags).contains("-Wl,-dead_strip"@)
            && !gcc_opt_flags(c.opt_level, c.target_triple.os).contains("-Wl,--gc-sections"@),
        c.opt_level >= 2 && !is_apple(c.target_triple.os) ==> gcc_args(c, p, flags).contains("-Wl,--gc-sections"@)
            && !gcc_opt_flags(c.opt_level, c.target_triple.os).contains("-Wl,-dead_strip"@),
        c.opt_level < 2 ==> !gcc_opt_flags(c.opt_level, c.target_triple.os).contains("-Wl,-dead_strip"@)
            && !gcc_opt_flags(c.opt_level, c.target_triple.os).contains("-Wl,--gc-sections"@),
{
    reveal_strlit("-Wl,-dead_strip");
    reveal_strlit("-Wl,--gc-sections");
    reveal_strlit("-O0");
    reveal_strlit("-O1");
    reveal_strlit("-O2");
    reveal_strlit("-O3");
    reveal_strlit("-flto");
    reveal_strlit("-ffunction-sections");
    reveal_strlit("-fdata-sections");
    let os = c.target_triple.os;
    let opt = gcc_opt_flags(c.opt_level, os);
    let ds = "-Wl,-dead_strip"@;
    let gs = "-Wl,--gc-sections"@;
    assert(ds.len() == 15 && gs.len() == 17);
    assert("-O0"@.len() == 3 && "-O1"@.len() == 3 && "-O2"@.len() == 3 && "-O3"@.len() == 3);
    assert("-flto"@.len() == 5 && "-ffunction-sections"@.len() == 19);
    assert("-fdata-sections"@.len() == 15 && "-fdata-sections"@[1] != ds[1]);
    assert(ds != gs);
    assert forall|i: int| 0 <= i < opt.len() - 1 implies opt[i] != ds && opt[i] != gs by {}
    let pre = seq!["-o"@, p.output@, p.obj_path@] + (if c.library_mode {
        Seq::<Seq<char>>::empty()
    } else {
        seq![p.runtime_obj@]
    }) + flags;
    let args = gcc_args(c, p, flags);
    if c.opt_level >= 2 {
        let k = pre.len() + opt.len() - 1;
        assert(opt.last() == gc_flag(os));
        assert(args[k] == opt.last());
        assert(!opt.contains(if is_apple(os) { gs } else { ds })) by {
            if opt.contains(if is_apple(os) { gs } else { ds }) {
                let i = choose|i: int| 0 <= i < opt.len() && opt[i] == (if is_apple(os) { gs } else { ds });
                assert(i == opt.len() - 1);
            }
        }
    } else {
        assert(!opt.contains(ds) && !opt.contains(gs)) by {
            if opt.contains(ds) || opt.contains(gs) {
                let i = choose|i: int| 0 <= i < opt.len() && (opt[i] == ds || opt[i] == gs);
                assert(opt[i].len() == 3);
            }
        }
    }
}

} // verus!
