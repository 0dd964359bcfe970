//! Target triples: the outside `target_lexicon::Triple`, carried together
//! with the plain facts about it that the planning logic reads.

use vstd::prelude::*;
use target_lexicon::{Architecture, Environment, OperatingSystem, ParseError, Triple, Vendor};
use crate::strs::{concat, concat3};

verus! {

#[verifier::external_type_specification]
#[verifier::external_body]
pub struct ExTriple(Triple);

#[verifier::external_type_specification]
#[verifier::external_body]
pub struct ExParseError(ParseError);

/// `<Triple as Clone>::clone`, which `derive` writes field by field: the
/// copy equals the original.
pub assume_specification[ <Triple as Clone>::clone ](t: &Triple) -> (res: Triple)
    ensures
        res == *t,
;

/// Architectures that the linking rules tell apart.
#[derive(Debug, Clone, Copy, PartialEq, Eq, Structural)]
pub enum ArchKind {
    X86_64,
    X86_32,
    Aarch64,
    Arm,
    Other,
}

/// Operating systems that the linking rules tell apart. `MacOSX` and
/// `Darwin` stay apart: a few rules accept only the former.
#[derive(Debug, Clone, Copy, PartialEq, Eq, Structural)]
pub enum OsKind {
    Linux,
    Windows,
    MacOSX,
    Darwin,
    Other,
}

/// Environments that the linking rules tell apart.
#[derive(Debug, Clone, Copy, PartialEq, Eq, Structural)]
pub enum EnvKind {
    Gnu,
    Musl,
    Msvc,
    Other,
}

/// A target triple together with what the planning logic reads of it.
#[derive(Debug, Clone)]
pub struct TargetSpec {
    /// The triple itself, for the calls that need it.
    pub triple: Triple,
    pub arch: ArchKind,
    pub os: OsKind,
    pub env: EnvKind,
    /// Whether the vendor is `pc`.
    pub vendor_pc: bool,
    /// The triple as `Display` writes it.
    pub text: String,
    /// The architecture as `Display` writes it.
    pub arch_text: String,
}

/// `target_lexicon::Triple::host`: the triple this code was built for.
/// Nothing is stated of it.
#[verifier::external_body]
fn host_triple() -> Triple {
    Triple::host()
}

/// Whether `target_lexicon` accepts a text as a triple.
pub uninterp spec fn triple_parses(text: Seq<char>) -> bool;

/// `<Triple as FromStr>::from_str`: parses a triple. Which texts it
/// accepts is a function of the text alone, named `triple_parses`; which
/// triple a text gives is not stated.
#[verifier::external_body]
fn parse_triple(text: &str) -> (r: Result<Triple, ParseError>)
    ensures
        r is Ok <==> triple_parses(text@),
{
    text.parse::<Triple>()
}

/// `<ParseError as Display>::fmt`: the text of a parse error.
#[verifier::external_body]
fn parse_error_text(e: &ParseError) -> String {
    format!("{}", e)
}

/// `<Triple as Display>::fmt`: the text of a triple.
#[verifier::external_body]
fn triple_text(t: &Triple) -> String {
    format!("{}", t)
}

/// `<Architecture as Display>::fmt` on `Triple::architecture`.
#[verifier::external_body]
fn triple_arch_text(t: &Triple) -> String {
    format!("{}", t.architecture)
}

/// `Triple::architecture`, told apart by variant.
#[verifier::external_body]
fn triple_arch_kind(t: &Triple) -> ArchKind {
    match t.architecture {
        Architecture::X86_64 => ArchKind::X86_64,
        Architecture::X86_32(_) => ArchKind::X86_32,
        Architecture::Aarch64(_) => ArchKind::Aarch64,
        Architecture::Arm(_) => ArchKind::Arm,
        _ => ArchKind::Other,
    }
}

/// `Triple::operating_system`, told apart by variant.
#[verifier::external_body]
fn triple_os_kind(t: &Triple) -> OsKind {
    match t.operating_system {
        OperatingSystem::Linux => OsKind::Linux,
        OperatingSystem::Windows => OsKind::Windows,
        OperatingSystem::MacOSX { .. } => OsKind::MacOSX,
        OperatingSystem::Darwin => OsKind::Darwin,
        _ => OsKind::Other,
    }
}

/// `Triple::environment`, told apart by variant.
#[verifier::external_body]
fn triple_env_kind(t: &Triple) -> EnvKind {
    match t.environment {
        Environment::Gnu => EnvKind::Gnu,
        Environment::Musl => EnvKind::Musl,
        Environment::Msvc => EnvKind::Msvc,
        _ => EnvKind::Other,
    }
}

/// The architecture kind of the triple a text parses to.
pub uninterp spec fn triple_arch(text: Seq<char>) -> ArchKind;

/// The operating system kind of the triple a text parses to.
pub uninterp spec fn triple_os(text: Seq<char>) -> OsKind;

/// The environment kind of the triple a text parses to.
pub uninterp spec fn triple_env(text: Seq<char>) -> EnvKind;

/// Whether the vendor of the triple a text parses to is `pc`.
pub uninterp spec fn triple_vendor_pc(text: Seq<char>) -> bool;

/// `<Triple as FromStr>::from_str` on a text it accepts, then
/// `Triple::architecture` told apart by variant. Parsing is a function of
/// the text alone, so the kind is named by `triple_arch`.
#[verifier::external_body]
fn parsed_arch(text: &str) -> (r: ArchKind)
    requires
        triple_parses(text@),
    ensures
        r == triple_arch(text@),
{
    match text.parse::<Triple>().unwrap().architecture {
        Architecture::X86_64 => ArchKind::X86_64,
        Architecture::X86_32(_) => ArchKind::X86_32,
        Architecture::Aarch64(_) => ArchKind::Aarch64,
        Architecture::Arm(_) => ArchKind::Arm,
        _ => ArchKind::Other,
    }
}

/// `<Triple as FromStr>::from_str` on a text it accepts, then
/// `Triple::operating_system` told apart by variant; named by `triple_os`.
#[verifier::external_body]
fn parsed_os(text: &str) -> (r: OsKind)
    requires
        triple_parses(text@),
    ensures
        r == triple_os(text@),
{
    match text.parse::<Triple>().unwrap().operating_system {
        OperatingSystem::Linux => OsKind::Linux,
        OperatingSystem::Windows => OsKind::Windows,
        OperatingSystem::MacOSX { .. } => OsKind::MacOSX,
        OperatingSystem::Darwin => OsKind::Darwin,
        _ => OsKind::Other,
    }
}

/// `<Triple as FromStr>::from_str` on a text it accepts, then
/// `Triple::environment` told apart by variant; named by `triple_env`.
#[verifier::external_body]
fn parsed_env(text: &str) -> (r: EnvKind)
    requires
        triple_parses(text@),
    ensures
        r == triple_env(text@),
{
    match text.parse::<Triple>().unwrap().environment {
        Environment::Gnu => EnvKind::Gnu,
        Environment::Musl => EnvKind::Musl,
        Environment::Msvc => EnvKind::Msvc,
        _ => EnvKind::Other,
    }
}

/// `<Triple as FromStr>::from_str` on a text it accepts, then whether
/// `Triple::vendor` is `Vendor::Pc`; named by `triple_vendor_pc`.
#[verifier::external_body]
fn parsed_vendor_pc(text: &str) -> (r: bool)
    requires
        triple_parses(text@),
    ensures
        r == triple_vendor_pc(text@),
{
    matches!(text.parse::<Triple>().unwrap().vendor, Vendor::Pc)
}

/// Whether `Triple::vendor` is `Vendor::Pc`.
#[verifier::external_body]
fn triple_vendor_is_pc(t: &Triple) -> bool {
    matches!(t.vendor, Vendor::Pc)
}

/// `<Triple as PartialEq>::eq`. `Triple` is `Eq`, so a triple equals
/// itself; nothing more is stated: the vendor's custom names compare by
/// text, which spec equality does not model.
#[verifier::external_body]
fn triples_equal(a: &Triple, b: &Triple) -> (r: bool)
    ensures
        *a == *b ==> r,
{
    a == b
}

impl TargetSpec {
    /// Reads what the linking rules need from a triple.
    fn describe(triple: Triple) -> (t: TargetSpec)
        ensures
            t.triple == triple,
    {
        let arch = triple_arch_kind(&triple);
        let os = triple_os_kind(&triple);
        let env = triple_env_kind(&triple);
        let vendor_pc = triple_vendor_is_pc(&triple);
        let text = triple_text(&triple);
        let arch_text = triple_arch_text(&triple);
        TargetSpec { triple, arch, os, env, vendor_pc, text, arch_text }
    }

    /// The triple this code was built for.
    pub fn host() -> (t: TargetSpec) {
        Self::describe(host_triple())
    }

    /// Parses a triple; a text the parser refuses gives
    /// `Invalid target triple '<text>': <reason>`. The kinds read are those
    /// of the parsed triple.
    pub fn parse(text: &str) -> (r: Result<TargetSpec, String>)
        ensures
            r is Ok <==> triple_parses(text@),
            r matches Ok(t) ==> t.arch == triple_arch(text@) && t.os == triple_os(text@) && t.env
                == triple_env(text@) && t.vendor_pc == triple_vendor_pc(text@),
            r matches Err(msg) ==> exists|reason: Seq<char>|
                msg@ == "Invalid target triple '"@ + text@ + "': "@ + reason,
    {
        match parse_triple(text) {
            Ok(t) => {
                let arch = parsed_arch(text);
                let os = parsed_os(text);
                let env = parsed_env(text);
                let vendor_pc = parsed_vendor_pc(text);
                let text = triple_text(&t);
                let arch_text = triple_arch_text(&t);
                Ok(TargetSpec { triple: t, arch, os, env, vendor_pc, text, arch_text })
            },
            Err(e) => {
                let reason = parse_error_text(&e);
                let head = concat3("Invalid target triple '", text, "': ");
                let msg = concat(head.as_str(), reason.as_str());
                assert(msg@ == "Invalid target triple '"@ + text@ + "': "@ + reason@);
                Err(msg)
            }
        }
    }

    /// Whether this is the same triple as `other`.
    pub fn same_triple(&self, other: &TargetSpec) -> (r: bool)
        ensures
            self.triple == other.triple ==> r,
    {
        triples_equal(&self.triple, &other.triple)
    }

    /// Whether the operating system is macOS, under either name.
    pub open spec fn is_apple(&self) -> bool {
        self.os == OsKind::MacOSX || self.os == OsKind::Darwin
    }
}

} // verus!
