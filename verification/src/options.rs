//! AOT compilation options and the decisions the compiler takes from them:
//! file extensions, target triple, calling convention, Cranelift ISA
//! settings, and what happens to the generated object.

use vstd::prelude::*;
use cranelift_codegen::settings::{self, Configurable};
use cranelift_codegen::isa::CallConv;
use crate::strs::{owned, concat, concat3, starts_with_seq, str_starts_with};
use crate::target::{triple_arch, triple_env, triple_os, triple_parses, OsKind, TargetSpec};

verus! {

#[verifier::external_type_specification]
#[verifier::external_body]
pub struct ExSettingsBuilder(settings::Builder);

#[verifier::external_type_specification]
#[verifier::external_body]
pub struct ExFlags(settings::Flags);

#[verifier::external_type_specification]
pub struct ExCallConv(CallConv);

/// Output format for AOT compilation
#[derive(Debug, Clone, Copy, PartialEq, Eq, Structural)]
pub enum OutputFormat {
    /// Native executable (.exe on Windows, no extension on Unix)
    Executable,
    /// Shared library (.dll on Windows, .so on Linux, .dylib on macOS)
    SharedLib,
    /// Static library (.lib on Windows, .a on Unix)
    StaticLib,
    /// Object file (.obj on Windows, .o on Unix)
    Object,
    /// Assembly file (.asm/.s)
    Assembly,
}

/// The name `Debug` writes for an output format.
pub open spec fn format_name(f: OutputFormat) -> Seq<char> {
    match f {
        OutputFormat::Executable => "Executable"@,
        OutputFormat::SharedLib => "SharedLib"@,
        OutputFormat::StaticLib => "StaticLib"@,
        OutputFormat::Object => "Object"@,
        OutputFormat::Assembly => "Assembly"@,
    }
}

impl OutputFormat {
    /// The name `Debug` writes for this format.
    pub fn debug_name(&self) -> (s: &'static str)
        ensures
            s@ == format_name(*self),
    {
        match self {
            OutputFormat::Executable => "Executable",
            OutputFormat::SharedLib => "SharedLib",
            OutputFormat::StaticLib => "StaticLib",
            OutputFormat::Object => "Object",
            OutputFormat::Assembly => "Assembly",
        }
    }
}

/// AOT compilation options. Paths are held as text; the extra compiler
/// flags are name/value pairs in the order they are applied.
#[derive(Debug, Clone)]
pub struct AotOptions {
    /// Optimization level (0-3)
    pub opt_level: u8,
    /// Target triple (e.g., "x86_64-unknown-linux-gnu")
    pub target_triple: Option<String>,
    /// Output format
    pub output_format: OutputFormat,
    /// Generate debug info
    pub debug_info: bool,
    /// Additional compiler flags
    pub flags: Vec<(String, String)>,
    /// Library mode: when true, skip runtime initialization and CLI arg handling
    pub library_mode: bool,
    /// Additional include directories (-I)
    pub include_dirs: Vec<String>,
    /// Additional library search paths (-L)
    pub lib_dirs: Vec<String>,
    /// Libraries to link (-l)
    pub link_libs: Vec<String>,
    /// Extra linker arguments
    pub extra_linker_args: Vec<String>,
    /// Fast compilation mode: skips optimizations for rapid iteration (dev builds)
    pub fast_compile: bool,
    /// Enable aggressive dead-code elimination in linker
    pub enable_dead_code_elimination: bool,
    /// Enable link-time optimization
    pub enable_lto: bool,
    /// Enable incremental compilation caching (default: true)
    pub incremental: bool,
    /// Custom cache directory (default: None, will use `.adesh_cache/aot`)
    pub cache_dir: Option<String>,
    /// Force rebuild, bypassing cache
    pub force_rebuild: bool,
}

/// The default options: an executable for the host at optimisation level
/// 2, with dead-code elimination and incremental caching on and
/// everything else off or empty.
pub open spec fn is_default_options(o: AotOptions) -> bool {
    &&& o.opt_level == 2
    &&& o.target_triple is None
    &&& o.output_format == OutputFormat::Executable
    &&& !o.debug_info
    &&& o.flags@.len() == 0
    &&& !o.library_mode
    &&& o.include_dirs@.len() == 0
    &&& o.lib_dirs@.len() == 0
    &&& o.link_libs@.len() == 0
    &&& o.extra_linker_args@.len() == 0
    &&& !o.fast_compile
    &&& o.enable_dead_code_elimination
    &&& !o.enable_lto
    &&& o.incremental
    &&& o.cache_dir is None
    &&& !o.force_rebuild
}

impl Default for AotOptions {
    /// An executable for the host at optimisation level 2, with
    /// dead-code elimination and incremental caching on and everything
    /// else off or empty.
    fn default() -> (o: AotOptions)
        ensures
            is_default_options(o),
    {
        AotOptions {
            opt_level: 2,
            target_triple: None,
            output_format: OutputFormat::Executable,
            debug_info: false,
            flags: Vec::new(),
            library_mode: false,
            include_dirs: Vec::new(),
            lib_dirs: Vec::new(),
            link_libs: Vec::new(),
            extra_linker_args: Vec::new(),
            fast_compile: false,
            enable_dead_code_elimination: true,
            enable_lto: false,
            incremental: true,
            cache_dir: None,
            force_rebuild: false,
        }
    }
}

/// File extension of an output format on an operating system.
pub open spec fn extension_for(format: OutputFormat, os: OsKind) -> Seq<char> {
    match format {
        OutputFormat::Executable => if os == OsKind::Windows {
            ".exe"@
        } else {
            ""@
        },
        OutputFormat::SharedLib => if os == OsKind::Windows {
            ".dll"@
        } else if os == OsKind::MacOSX || os == OsKind::Darwin {
            ".dylib"@
        } else {
            ".so"@
        },
        OutputFormat::StaticLib => if os == OsKind::Windows {
            ".lib"@
        } else {
            ".a"@
        },
        OutputFormat::Object => if os == OsKind::Windows {
            ".obj"@
        } else {
            ".o"@
        },
        OutputFormat::Assembly => ".s"@,
    }
}

/// File extension of an output format on an operating system.
pub fn extension(format: OutputFormat, os: OsKind) -> (s: &'static str)
    ensures
        s@ == extension_for(format, os),
{
    match format {
        OutputFormat::Executable => if os == OsKind::Windows {
            ".exe"
        } else {
            ""
        },
        OutputFormat::SharedLib => match os {
            OsKind::Windows => ".dll",
            OsKind::MacOSX | OsKind::Darwin => ".dylib",
            _ => ".so",
        },
        OutputFormat::StaticLib => if os == OsKind::Windows {
            ".lib"
        } else {
            ".a"
        },
        OutputFormat::Object => if os == OsKind::Windows {
            ".obj"
        } else {
            ".o"
        },
        OutputFormat::Assembly => ".s",
    }
}

/// Cranelift optimisation level for the options: none in fast mode,
/// otherwise none/speed/speed_and_size for levels 0/1/2 and speed above.
pub open spec fn isa_opt_level_for(o: AotOptions) -> Seq<char> {
    if o.fast_compile {
        "none"@
    } else if o.opt_level == 0 {
        "none"@
    } else if o.opt_level == 1 {
        "speed"@
    } else if o.opt_level == 2 {
        "speed_and_size"@
    } else {
        "speed"@
    }
}

/// One Cranelift setting to apply: `value` `None` enables a boolean
/// setting; a failure of a required setting stops with
/// `error_prefix + reason`, other failures are ignored.
#[derive(Debug, Clone)]
pub struct IsaSetting {
    pub name: String,
    pub value: Option<String>,
    pub required: bool,
    pub error_prefix: String,
}

/// Plain view of a setting: name, value, required, error prefix.
pub open spec fn setting_view(s: IsaSetting) -> (Seq<char>, Option<Seq<char>>, bool, Seq<char>) {
    (s.name@, match s.value {
        Some(v) => Some(v@),
        None => None,
    }, s.required, s.error_prefix@)
}

/// The settings applied to the Cranelift builder, in order.
pub open spec fn isa_settings_for(o: AotOptions) -> Seq<(Seq<char>, Option<Seq<char>>, bool, Seq<char>)> {
    seq![
        ("opt_level"@, Some(isa_opt_level_for(o)), true, "Failed to set opt_level: "@),
        ("enable_probestack"@, Some("true"@), false, ""@),
        ("probestack_strategy"@, Some("inline"@), false, ""@),
    ] + (if o.fast_compile {
        Seq::empty()
    } else {
        seq![
            ("use_colocated_libcalls"@, Some("true"@), true, "Failed to set use_colocated_libcalls: "@),
            ("enable_simd"@, None, false, ""@),
        ]
    }) + (if o.debug_info {
        seq![("enable_verifier"@, Some("true"@), true, "Failed to enable verifier: "@)]
    } else {
        Seq::empty()
    }) + o.flags@.map_values(
        |f: (String, String)|
            (f.0@, Some(f.1@), true, "Failed to set flag "@ + f.0@ + "="@ + f.1@ + ": "@),
    )
}

/// Every setting whose failure is reported names it with a message that
/// begins with `F` (`Failed to ...`).
pub proof fn lemma_setting_error_prefixes(o: AotOptions)
    ensures
        forall|i: int|
            0 <= i < isa_settings_for(o).len() && (#[trigger] isa_settings_for(o)[i]).2 ==> isa_settings_for(o)[i].3.len() > 0
                && isa_settings_for(o)[i].3[0] == 'F',
{
    reveal_strlit("Failed to set opt_level: ");
    reveal_strlit("Failed to set use_colocated_libcalls: ");
    reveal_strlit("Failed to enable verifier: ");
    reveal_strlit("Failed to set flag ");
    reveal_strlit("");
    let s = isa_settings_for(o);
    let a = seq![
        ("opt_level"@, Some(isa_opt_level_for(o)), true, "Failed to set opt_level: "@),
        ("enable_probestack"@, Some("true"@), false, ""@),
        ("probestack_strategy"@, Some("inline"@), false, ""@),
    ];
    let b: Seq<(Seq<char>, Option<Seq<char>>, bool, Seq<char>)> = if o.fast_compile {
        Seq::empty()
    } else {
        seq![
            ("use_colocated_libcalls"@, Some("true"@), true, "Failed to set use_colocated_libcalls: "@),
            ("enable_simd"@, None, false, ""@),
        ]
    };
    let c: Seq<(Seq<char>, Option<Seq<char>>, bool, Seq<char>)> = if o.debug_info {
        seq![("enable_verifier"@, Some("true"@), true, "Failed to enable verifier: "@)]
    } else {
        Seq::empty()
    };
    let d = o.flags@.map_values(
        |f: (String, String)|
            (f.0@, Some(f.1@), true, "Failed to set flag "@ + f.0@ + "="@ + f.1@ + ": "@),
    );
    assert(s =~= a + b + c + d);
    assert forall|i: int| 0 <= i < s.len() && (#[trigger] s[i]).2 implies s[i].3.len() > 0 && s[i].3[0] == 'F' by {
        if i < a.len() {
            assert(s[i] == a[i]);
        } else if i < a.len() + b.len() {
            assert(s[i] == b[i - a.len()]);
        } else if i < a.len() + b.len() + c.len() {
            assert(s[i] == c[i - a.len() - b.len()]);
        } else {
            let j = i - a.len() - b.len() - c.len();
            assert(s[i] == d[j]);
            let f = o.flags@[j];
            assert(d[j].3 == "Failed to set flag "@ + f.0@ + "="@ + f.1@ + ": "@);
            assert(d[j].3[0] == "Failed to set flag "@[0]);
        }
    }
}

/// What becomes of the generated object.
#[derive(Debug, Clone, Copy, PartialEq, Eq, Structural)]
pub enum OutputAction {
    /// Write the object file as the output.
    WriteObject,
    /// Link the object with the runtime library.
    LinkWithRuntime,
    /// Link the object alone into a library.
    LinkLibraryOnly,
    /// Assembly output, which is not supported.
    Unsupported,
}

/// What becomes of the generated object for an output format: libraries
/// in library mode are linked without the runtime.
pub open spec fn output_action_for(format: OutputFormat, library_mode: bool) -> OutputAction {
    match format {
        OutputFormat::Object => OutputAction::WriteObject,
        OutputFormat::Executable => OutputAction::LinkWithRuntime,
        OutputFormat::SharedLib | OutputFormat::StaticLib => if library_mode {
            OutputAction::LinkLibraryOnly
        } else {
            OutputAction::LinkWithRuntime
        },
        OutputFormat::Assembly => OutputAction::Unsupported,
    }
}

/// `cranelift_codegen::settings::builder`: a builder holding the default
/// shared settings.
#[verifier::external_body]
fn settings_builder() -> settings::Builder {
    settings::builder()
}

/// `Configurable::set` on a settings builder; a refusal is given as the
/// text its `Display` writes. Nothing is stated of which names and values
/// it accepts.
#[verifier::external_body]
fn settings_set(b: &mut settings::Builder, name: &str, value: &str) -> Result<(), String> {
    b.set(name, value).map_err(|e| format!("{}", e))
}

/// `Configurable::enable` on a settings builder; a refusal is given as the
/// text its `Display` writes. Nothing is stated of which names it accepts.
#[verifier::external_body]
fn settings_enable(b: &mut settings::Builder, name: &str) -> Result<(), String> {
    b.enable(name).map_err(|e| format!("{}", e))
}

/// `settings::Flags::new`: the finished flags of a builder.
#[verifier::external_body]
fn settings_finish(b: settings::Builder) -> settings::Flags {
    settings::Flags::new(b)
}

/// AOT compiler using Cranelift: holds the options that steer it.
pub struct CraneliftAotCompiler {
    options: AotOptions,
}

impl CraneliftAotCompiler {
    /// The options this compiler was made with.
    pub closed spec fn options(&self) -> AotOptions {
        self.options
    }

    /// Create a new AOT compiler with default options
    pub fn new() -> (c: Self)
        ensures
            is_default_options(c.options()),
    {
        CraneliftAotCompiler { options: AotOptions::default() }
    }

    /// Create a new AOT compiler with custom options
    pub fn with_options(options: AotOptions) -> (c: Self)
        ensures
            c.options() == options,
    {
        CraneliftAotCompiler { options }
    }

    /// The options this compiler was made with.
    pub fn get_options(&self) -> (o: &AotOptions)
        ensures
            *o == self.options(),
    {
        &self.options
    }

    /// Get the target triple, either from options or detected: the given
    /// triple parsed, or the host's when none is given.
    pub fn get_target_triple(&self) -> (r: Result<TargetSpec, String>)
        ensures
            self.options().target_triple is None ==> r is Ok,
            self.options().target_triple matches Some(t) ==> (r is Ok <==> triple_parses(t@)),
            self.options().target_triple matches Some(t) ==> (r matches Ok(spec) ==> spec.os == triple_os(t@)
                && spec.arch == triple_arch(t@) && spec.env == triple_env(t@)),
            r matches Err(msg) ==> self.options().target_triple matches Some(t)
                && exists|reason: Seq<char>| msg@ == "Invalid target triple '"@ + t@ + "': "@ + reason,
    {
        match &self.options.target_triple {
            Some(t) => TargetSpec::parse(t.as_str()),
            None => Ok(TargetSpec::host()),
        }
    }

    /// Get the file extension for the current output format: that of the
    /// given target triple's operating system, or of the host's when none
    /// is given or it does not parse.
    pub fn output_extension(&self) -> (s: &'static str)
        ensures
            exists|os: OsKind| s@ == extension_for(self.options().output_format, os),
            self.options().target_triple matches Some(t) ==> (triple_parses(t@) ==> s@ == extension_for(
                self.options().output_format,
                triple_os(t@),
            )),
    {
        let os = match &self.options.target_triple {
            Some(t) => match TargetSpec::parse(t.as_str()) {
                Ok(spec) => spec.os,
                Err(_) => TargetSpec::host().os,
            },
            None => TargetSpec::host().os,
        };
        extension(self.options.output_format, os)
    }

    /// Calling convention for a target: Windows fastcall (x64) on Windows,
    /// System V everywhere else.
    pub fn get_calling_convention(&self, triple: &TargetSpec) -> (r: Result<CallConv, String>)
        ensures
            r == Ok::<CallConv, String>(
                if triple.os == OsKind::Windows {
                    CallConv::WindowsFastcall
                } else {
                    CallConv::SystemV
                },
            ),
    {
        match triple.os {
            OsKind::Windows => Ok(CallConv::WindowsFastcall),
            OsKind::MacOSX | OsKind::Darwin => Ok(CallConv::SystemV),
            OsKind::Linux => Ok(CallConv::SystemV),
            _ => Ok(CallConv::SystemV),
        }
    }

    /// Cranelift optimisation level for these options.
    pub fn isa_opt_level(&self) -> (s: &'static str)
        ensures
            s@ == isa_opt_level_for(self.options()),
    {
        if self.options.fast_compile {
            "none"
        } else {
            match self.options.opt_level {
                0 => "none",
                1 => "speed",
                2 => "speed_and_size",
                _ => "speed",
            }
        }
    }

    /// The Cranelift settings to apply, in order.
    pub fn isa_settings(&self) -> (v: Vec<IsaSetting>)
        ensures
            v@.map_values(|s: IsaSetting| setting_view(s)) == isa_settings_for(self.options()),
    {
        let o = &self.options;
        let mut v: Vec<IsaSetting> = Vec::new();
        v.push(IsaSetting {
            name: owned("opt_level"),
            value: Some(owned(self.isa_opt_level())),
            required: true,
            error_prefix: owned("Failed to set opt_level: "),
        });
        v.push(IsaSetting {
            name: owned("enable_probestack"),
            value: Some(owned("true")),
            required: false,
            error_prefix: owned(""),
        });
        v.push(IsaSetting {
            name: owned("probestack_strategy"),
            value: Some(owned("inline")),
            required: false,
            error_prefix: owned(""),
        });
        let ghost s1 = v@.map_values(|s: IsaSetting| setting_view(s));
        if !o.fast_compile {
            v.push(IsaSetting {
                name: owned("use_colocated_libcalls"),
                value: Some(owned("true")),
                required: true,
                error_prefix: owned("Failed to set use_colocated_libcalls: "),
            });
            v.push(IsaSetting {
                name: owned("enable_simd"),
                value: None,
                required: false,
                error_prefix: owned(""),
            });
        }
        let ghost s2 = v@.map_values(|s: IsaSetting| setting_view(s));
        if o.debug_info {
            v.push(IsaSetting {
                name: owned("enable_verifier"),
                value: Some(owned("true")),
                required: true,
                error_prefix: owned("Failed to enable verifier: "),
            });
        }
        let ghost s3 = v@.map_values(|s: IsaSetting| setting_view(s));
        let mut i: usize = 0;
        while i < o.flags.len()
            invariant
                i <= o.flags@.len(),
                v@.map_values(|s: IsaSetting| setting_view(s)) == s3 + o.flags@.subrange(
                    0,
                    i as int,
                ).map_values(
                    |f: (String, String)|
                        (f.0@, Some(f.1@), true, "Failed to set flag "@ + f.0@ + "="@ + f.1@ + ": "@),
                ),
            decreases o.flags.len() - i,
        {
            let (k, val) = &o.flags[i];
            let head = concat3("Failed to set flag ", k.as_str(), "=");
            let prefix = concat3(head.as_str(), val.as_str(), ": ");
            let ghost before = v@;
            v.push(IsaSetting {
                name: k.clone(),
                value: Some(val.clone()),
                required: true,
                error_prefix: prefix,
            });
            assert(v@ =~= before.push(v@.last()));
            assert(v@.map_values(|s: IsaSetting| setting_view(s)) =~= before.map_values(
                |s: IsaSetting| setting_view(s),
            ).push(setting_view(v@.last())));
            assert(o.flags@.subrange(0, i + 1) =~= o.flags@.subrange(0, i as int).push(o.flags@[i as int]));
            i = i + 1;
        }
        assert(o.flags@.subrange(0, i as int) =~= o.flags@);
        proof {
            assert(s1 =~= seq![
                ("opt_level"@, Some(isa_opt_level_for(*o)), true, "Failed to set opt_level: "@),
                ("enable_probestack"@, Some("true"@), false, ""@),
                ("probestack_strategy"@, Some("inline"@), false, ""@),
            ]);
            assert(s2 =~= s1 + (if o.fast_compile {
                Seq::empty()
            } else {
                seq![
                    ("use_colocated_libcalls"@, Some("true"@), true, "Failed to set use_colocated_libcalls: "@),
                    ("enable_simd"@, None, false, ""@),
                ]
            }));
            assert(s3 =~= s2 + (if o.debug_info {
                seq![("enable_verifier"@, Some("true"@), true, "Failed to enable verifier: "@)]
            } else {
                Seq::empty()
            }));
        }
        v
    }

    /// Builds the Cranelift flags from these options by applying
    /// `isa_settings` in order to a fresh settings builder. A refused
    /// required setting stops with its error prefix and the refusal's text.
    pub fn build_isa_flags(&self) -> (r: Result<settings::Flags, String>)
        ensures
            r matches Err(msg) ==> exists|i: int, reason: Seq<char>|
                0 <= i < isa_settings_for(self.options()).len()
                    && isa_settings_for(self.options())[i].2
                    && msg@ == isa_settings_for(self.options())[i].3 + reason,
    {
        let plan = self.isa_settings();
        let mut b = settings_builder();
        let mut i: usize = 0;
        while i < plan.len()
            invariant
                i <= plan@.len(),
                plan@.map_values(|s: IsaSetting| setting_view(s)) == isa_settings_for(self.options()),
            decreases plan.len() - i,
        {
            let s = &plan[i];
            let res = match &s.value {
                Some(v) => settings_set(&mut b, s.name.as_str(), v.as_str()),
                None => settings_enable(&mut b, s.name.as_str()),
            };
            match res {
                Ok(()) => {},
                Err(reason) => {
                    if s.required {
                        let msg = concat(s.error_prefix.as_str(), reason.as_str());
                        assert(isa_settings_for(self.options())[i as int] == setting_view(plan@[i as int]));
                        assert(msg@ == isa_settings_for(self.options())[i as int].3 + reason@);
                        return Err(msg);
                    }
                },
            }
            i = i + 1;
        }
        Ok(settings_finish(b))
    }
}

impl Default for CraneliftAotCompiler {
    /// A compiler with the default options.
    fn default() -> (c: Self)
        ensures
            is_default_options(c.options()),
    {
        Self::new()
    }
}

/// What becomes of the generated object for an output format.
pub fn output_action(format: OutputFormat, library_mode: bool) -> (a: OutputAction)
    ensures
        a == output_action_for(format, library_mode),
{
    match format {
        OutputFormat::Object => OutputAction::WriteObject,
        OutputFormat::Executable => OutputAction::LinkWithRuntime,
        OutputFormat::SharedLib | OutputFormat::StaticLib => if library_mode {
            OutputAction::LinkLibraryOnly
        } else {
            OutputAction::LinkWithRuntime
        },
        OutputFormat::Assembly => OutputAction::Unsupported,
    }
}

/// The error of a request for assembly output.
pub fn assembly_unsupported() -> (s: String)
    ensures
        s@ == "Assembly output not yet implemented"@,
{
    owned("Assembly output not yet implemented")
}

/// Whether a file left in the output's directory is a temporary file of
/// the linker: its name starts with the output's file name and `.tmp`.
pub fn is_linker_temp_file(output_file_name: &str, entry_name: &str) -> (r: bool)
    ensures
        r == starts_with_seq(entry_name@, output_file_name@ + ".tmp"@),
{
    let prefix = concat(output_file_name, ".tmp");
    str_starts_with(entry_name, prefix.as_str())
}

} // verus!
