//! Incremental compilation cache: where cached artifacts live, what a
//! lookup concludes from what is on disk, and what is recorded after a
//! successful build. Reading and writing the files is left to the caller.

use vstd::prelude::*;
use crate::options::{assembly_unsupported, format_name, output_action, output_action_for, AotOptions, OutputAction, OutputFormat};
use crate::strs::{owned, concat, str_eq};
use crate::target::{OsKind, TargetSpec};

verus! {

/// Metadata stored alongside cached compilation outputs
#[derive(Debug, Clone)]
pub struct CacheEntryMeta {
    pub hash: String,
    pub source_path: Option<String>,
    pub output_path: String,
    pub opt_level: u8,
    pub fast_compile: bool,
    pub output_format: String,
    pub target_triple: Option<String>,
    pub debug_info: bool,
    pub timestamp_secs: u64,
    pub output_file_size: u64,
}

/// Result of checking the compilation cache. Paths are text.
#[derive(Debug, Clone, PartialEq, Eq)]
pub enum CacheLookupResult {
    /// Output file exists and is completely up to date with identical source & options.
    /// Compilation and linking can be completely skipped.
    FullHit { output_path: String, cache_hash: String },
    /// The compiled object file is cached, so frontend (parsing/typechecking/IR/codegen)
    /// can be skipped and only linking is required.
    ObjectHit { cached_obj_path: String, cache_hash: String },
    /// No cache match; full compilation is needed.
    Miss { cache_hash: String },
}

/// Plain view of a lookup result: the kind (0 full hit, 1 object hit,
/// 2 miss), the path it names (empty for a miss) and the hash.
pub open spec fn lookup_view(r: CacheLookupResult) -> (int, Seq<char>, Seq<char>) {
    match r {
        CacheLookupResult::FullHit { output_path, cache_hash } => (0, output_path@, cache_hash@),
        CacheLookupResult::ObjectHit { cached_obj_path, cache_hash } => (1, cached_obj_path@, cache_hash@),
        CacheLookupResult::Miss { cache_hash } => (2, Seq::empty(), cache_hash@),
    }
}

/// What a lookup concludes. `recorded_size` is the output size recorded
/// in the entry's metadata (when the metadata was read and parsed);
/// `output_size` and `object_size` are the sizes found on disk (when the
/// file exists). The output is up to date when it is not empty and has
/// the recorded size; otherwise a non-empty cached object is reused.
pub open spec fn lookup_for(
    enabled: bool,
    hash: Seq<char>,
    recorded_size: Option<u64>,
    output_size: Option<u64>,
    object_size: Option<u64>,
    output_path: Seq<char>,
    obj_path: Seq<char>,
) -> (int, Seq<char>, Seq<char>) {
    if !enabled {
        (2, Seq::empty(), hash)
    } else if recorded_size is Some && output_size is Some && output_size->0 > 0 && output_size->0
        == recorded_size->0 {
        (0, output_path, hash)
    } else if object_size is Some && object_size->0 > 0 {
        (1, obj_path, hash)
    } else {
        (2, Seq::empty(), hash)
    }
}

/// Whether a path part is a plain relative name: not empty, without
/// separators or drive colons.
pub open spec fn plain_name(s: Seq<char>) -> bool {
    s.len() > 0 && forall|i: int| 0 <= i < s.len() ==> #[trigger] s[i] != '/' && s[i] != '\\' && s[i] != ':'
}

/// Whether a path starts with a Windows verbatim prefix (`\\\\?\\`), under
/// which joining also normalises the path.
pub open spec fn verbatim_prefix(p: Seq<char>) -> bool {
    p.len() >= 4 && p[0] == '\\' && p[1] == '\\' && p[2] == '?' && p[3] == '\\'
}

/// What joining a plain relative name to a directory gives, for a
/// directory without a verbatim prefix (nothing is said of those). An empty
/// directory gives the name. A directory ending in `/` gives directory and
/// name (on Windows a verbatim path may put `\\` between them). One ending
/// in `\\` gives directory and name where that is a separator (Windows),
/// and a `/` between them where it is not (Unix). One ending in a colon
/// gives either, a drive prefix taking no separator. Any other directory
/// gets the platform's separator between it and the name.
pub open spec fn joined(base: Seq<char>, name: Seq<char>, r: Seq<char>) -> bool {
    plain_name(name) && !verbatim_prefix(base) ==> (if base.len() == 0 {
        r == name
    } else if base.last() == '/' {
        r == base + name || r == base + seq!['\\'] + name
    } else if base.last() == '\\' {
        r == base + name || r == base + seq!['/'] + name
    } else if base.last() == ':' {
        r == base + name || r == base + seq!['/'] + name || r == base + seq!['\\'] + name
    } else {
        r == base + seq!['/'] + name || r == base + seq!['\\'] + name
    })
}

/// `Path::join` followed by a lossy conversion to text. For a plain
/// relative name and a directory without a verbatim prefix, the standard
/// library's joining gives `joined`; which separator is used is the
/// platform's. Nothing is stated of other names or directories.
#[verifier::external_body]
fn path_join(base: &str, name: &str) -> (r: String)
    ensures
        joined(base@, name@, r@),
{
    std::path::Path::new(base).join(name).to_string_lossy().to_string()
}

/// The 16 lowercase hex digits of a hash, most significant first.
pub open spec fn hex_fixed(x: nat, n: nat) -> Seq<char>
    decreases n,
{
    if n == 0 {
        Seq::empty()
    } else {
        hex_fixed(x / 16, (n - 1) as nat) + seq![hex_char(x % 16)]
    }
}

/// Lowercase hex digit of a value below 16.
pub open spec fn hex_char(d: nat) -> char {
    if d < 10 {
        ((48 + d) as u8) as char
    } else {
        ((87 + d) as u8) as char
    }
}

fn hex_digit_str(d: u64) -> (s: String)
    requires
        d < 16,
    ensures
        s@ == seq![hex_char(d as nat)],
{
    let table: [&str; 16] = ["0", "1", "2", "3", "4", "5", "6", "7", "8", "9", "a", "b", "c", "d", "e", "f"];
    proof {
        reveal_strlit("0");
        reveal_strlit("1");
        reveal_strlit("2");
        reveal_strlit("3");
        reveal_strlit("4");
        reveal_strlit("5");
        reveal_strlit("6");
        reveal_strlit("7");
        reveal_strlit("8");
        reveal_strlit("9");
        reveal_strlit("a");
        reveal_strlit("b");
        reveal_strlit("c");
        reveal_strlit("d");
        reveal_strlit("e");
        reveal_strlit("f");
    }
    let s = table[d as usize];
    assert(s@ == seq![hex_char(d as nat)]);
    owned(s)
}

fn hex_fixed_exec(x: u64, n: u8) -> (s: String)
    ensures
        s@ == hex_fixed(x as nat, n as nat),
    decreases n,
{
    if n == 0 {
        proof {
            reveal_strlit("");
        }
        owned("")
    } else {
        let head = hex_fixed_exec(x / 16, n - 1);
        let d = hex_digit_str(x % 16);
        let s = concat(head.as_str(), d.as_str());
        assert(s@ =~= hex_fixed(x as nat, n as nat));
        s
    }
}

/// A 64-bit hash as 16 lowercase hex digits, zero-padded.
pub fn hash_hex(h: u64) -> (s: String)
    ensures
        s@ == hex_fixed(h as nat, 16),
{
    hex_fixed_exec(h, 16)
}

/// Compilation cache manager: a directory of cached objects and their
/// metadata, and whether the cache is used at all.
#[derive(Debug, Clone)]
pub struct AotCompilationCache {
    cache_dir: String,
    enabled: bool,
}

/// Name of a cached object: the hash with the object extension of the
/// platform.
pub open spec fn obj_file_name(hash: Seq<char>, windows: bool) -> Seq<char> {
    hash + (if windows {
        ".obj"@
    } else {
        ".o"@
    })
}

/// The default cache directory of a working directory (`.` when it is
/// unknown): `.adesh_cache` joined to the directory, then `aot` joined to
/// that.
pub open spec fn default_dir_of(current_dir: Option<String>, dir: Seq<char>) -> bool {
    let base = match current_dir {
        Some(d) => d@,
        None => "."@,
    };
    exists|first: Seq<char>| joined(base, ".adesh_cache"@, first) && #[trigger] joined(first, "aot"@, dir)
}

impl AotCompilationCache {
    /// The cache directory.
    pub closed spec fn dir(&self) -> Seq<char> {
        self.cache_dir@
    }

    /// Whether the cache is used.
    pub closed spec fn enabled_spec(&self) -> bool {
        self.enabled
    }

    /// Compute the default cache directory: `.adesh_cache/aot` under the
    /// working directory (`current_dir`, or `.` when it is unknown).
    pub fn default_cache_dir(current_dir: Option<String>) -> (dir: String)
        ensures
            default_dir_of(current_dir, dir@),
    {
        let base = match current_dir {
            Some(d) => d,
            None => owned("."),
        };
        let first = path_join(base.as_str(), ".adesh_cache");
        proof {
            reveal_strlit(".adesh_cache");
            reveal_strlit("aot");
            reveal_strlit(".");
        }
        let dir = path_join(first.as_str(), "aot");
        assert(joined(first@, "aot"@, dir@));
        dir
    }

    /// Create a cache manager for the given directory, or the default one
    /// under `current_dir` when none is given.
    pub fn new(custom_dir: Option<String>, enabled: bool, current_dir: Option<String>) -> (c: Self)
        ensures
            c.enabled_spec() == enabled,
            custom_dir matches Some(d) ==> c.dir() == d@,
            custom_dir is None ==> default_dir_of(current_dir, c.dir()),
    {
        let cache_dir = match custom_dir {
            Some(d) => d,
            None => Self::default_cache_dir(current_dir),
        };
        AotCompilationCache { cache_dir, enabled }
    }

    /// The cache directory.
    pub fn cache_dir(&self) -> (d: &str)
        ensures
            d@ == self.dir(),
    {
        self.cache_dir.as_str()
    }

    /// Check if incremental caching is enabled
    pub fn is_enabled(&self) -> (b: bool)
        ensures
            b == self.enabled_spec(),
    {
        self.enabled
    }

    /// Path to the cached object file for a hash on a platform:
    /// `<hash>.obj` on Windows and `<hash>.o` elsewhere, in the cache
    /// directory.
    pub fn cached_obj_path_for(&self, hash: &str, windows: bool) -> (p: String)
        ensures
            joined(self.dir(), obj_file_name(hash@, windows), p@),
    {
        let ext = if windows { ".obj" } else { ".o" };
        let name = concat(hash, ext);
        proof {
            reveal_strlit(".obj");
            reveal_strlit(".o");
            assert(name@ == obj_file_name(hash@, windows));
            if plain_name(hash@) {
                assert forall|i: int| 0 <= i < name@.len() implies #[trigger] name@[i] != '/' && name@[i] != '\\' && name@[i] != ':' by {
                    if i >= hash@.len() {
                        assert(name@[i] == ext@[i - hash@.len()]);
                    } else {
                        assert(name@[i] == hash@[i]);
                    }
                }
            }
        }
        path_join(self.cache_dir.as_str(), name.as_str())
    }

    /// Path to cached object file for a hash: `<hash>.obj` on Windows and
    /// `<hash>.o` elsewhere, in the cache directory; the platform is the
    /// one this code was built for.
    pub fn cached_obj_path(&self, hash: &str) -> (p: String)
        ensures
            joined(self.dir(), obj_file_name(hash@, true), p@) || joined(
                self.dir(),
                obj_file_name(hash@, false),
                p@,
            ),
    {
        let windows = TargetSpec::host().os == OsKind::Windows;
        self.cached_obj_path_for(hash, windows)
    }

    /// Path to cached metadata JSON for a hash: `<hash>.meta.json` in the
    /// cache directory.
    pub fn cached_meta_path(&self, hash: &str) -> (p: String)
        ensures
            joined(self.dir(), hash@ + ".meta.json"@, p@),
    {
        let name = concat(hash, ".meta.json");
        proof {
            reveal_strlit(".meta.json");
            if plain_name(hash@) {
                assert forall|i: int| 0 <= i < name@.len() implies #[trigger] name@[i] != '/' && name@[i] != '\\' && name@[i] != ':' by {
                    if i >= hash@.len() {
                        assert(name@[i] == ".meta.json"@[i - hash@.len()]);
                    } else {
                        assert(name@[i] == hash@[i]);
                    }
                }
            }
        }
        path_join(self.cache_dir.as_str(), name.as_str())
    }

    /// What a lookup concludes from what was found on disk for the entry
    /// `hash`: the metadata's recorded output size, the sizes of the
    /// output and of the cached object (`obj_path`) when they exist.
    /// A disabled cache always misses.
    pub fn query(
        &self,
        hash: String,
        recorded_size: Option<u64>,
        output_size: Option<u64>,
        object_size: Option<u64>,
        output_path: String,
        obj_path: String,
    ) -> (r: CacheLookupResult)
        ensures
            lookup_view(r) == lookup_for(
                self.enabled_spec(),
                hash@,
                recorded_size,
                output_size,
                object_size,
                output_path@,
                obj_path@,
            ),
    {
        decide_lookup(self.enabled, hash, recorded_size, output_size, object_size, output_path, obj_path)
    }
}

/// A hash's metadata path is never its object path, on any platform:
/// both are a plain name joined to the same directory, and the names'
/// lengths differ by more than a separator.
pub proof fn lemma_meta_path_differs(dir: Seq<char>, hash: Seq<char>, windows: bool, meta: Seq<char>, obj: Seq<char>)
    requires
        plain_name(hash),
        !verbatim_prefix(dir),
        joined(dir, hash + ".meta.json"@, meta),
        joined(dir, obj_file_name(hash, windows), obj),
    ensures
        meta != obj,
{
    reveal_strlit(".meta.json");
    reveal_strlit(".obj");
    reveal_strlit(".o");
    let mn = hash + ".meta.json"@;
    let on = obj_file_name(hash, windows);
    assert(plain_name(mn)) by {
        assert forall|i: int| 0 <= i < mn.len() implies #[trigger] mn[i] != '/' && mn[i] != '\\' && mn[i] != ':' by {
            if i >= hash.len() {
                assert(mn[i] == ".meta.json"@[i - hash.len()]);
            } else {
                assert(mn[i] == hash[i]);
            }
        }
    }
    assert(plain_name(on)) by {
        assert forall|i: int| 0 <= i < on.len() implies #[trigger] on[i] != '/' && on[i] != '\\' && on[i] != ':' by {
            if i >= hash.len() {
                if windows {
                    assert(on[i] == ".obj"@[i - hash.len()]);
                } else {
                    assert(on[i] == ".o"@[i - hash.len()]);
                }
            } else {
                assert(on[i] == hash[i]);
            }
        }
    }
    assert(mn.len() == hash.len() + 10);
    assert(on.len() <= hash.len() + 4);
    assert(dir.len() <= meta.len() <= dir.len() + 1 + mn.len());
    assert(meta.len() >= dir.len() + mn.len());
    assert(obj.len() <= dir.len() + 1 + on.len());
}

/// What a lookup concludes; see `lookup_for`.
pub fn decide_lookup(
    enabled: bool,
    hash: String,
    recorded_size: Option<u64>,
    output_size: Option<u64>,
    object_size: Option<u64>,
    output_path: String,
    obj_path: String,
) -> (r: CacheLookupResult)
    ensures
        lookup_view(r) == lookup_for(enabled, hash@, recorded_size, output_size, object_size, output_path@, obj_path@),
{
    if !enabled {
        return CacheLookupResult::Miss { cache_hash: hash };
    }
    match (recorded_size, output_size) {
        (Some(m), Some(len)) => {
            if len > 0 && len == m {
                return CacheLookupResult::FullHit { output_path, cache_hash: hash };
            }
        },
        _ => {},
    }
    match object_size {
        Some(len) => {
            if len > 0 {
                return CacheLookupResult::ObjectHit { cached_obj_path: obj_path, cache_hash: hash };
            }
        },
        None => {},
    }
    CacheLookupResult::Miss { cache_hash: hash }
}

/// A lookup in an enabled cache that finds a non-empty cached object
/// never misses, whatever the metadata and the output say, and always
/// reports the hash it was given.
pub proof fn lemma_stored_object_is_found(
    hash: Seq<char>,
    recorded_size: Option<u64>,
    output_size: Option<u64>,
    object_size: u64,
    output_path: Seq<char>,
    obj_path: Seq<char>,
)
    requires
        object_size > 0,
    ensures
        lookup_for(true, hash, recorded_size, output_size, Some(object_size), output_path, obj_path).0 != 2,
        lookup_for(true, hash, recorded_size, output_size, Some(object_size), output_path, obj_path).2 == hash,
{
}

/// A disabled cache always misses, and reports the hash it was given.
pub proof fn lemma_disabled_cache_misses(
    hash: Seq<char>,
    recorded_size: Option<u64>,
    output_size: Option<u64>,
    object_size: Option<u64>,
    output_path: Seq<char>,
    obj_path: Seq<char>,
)
    ensures
        lookup_for(false, hash, recorded_size, output_size, object_size, output_path, obj_path) == (
            2int,
            Seq::<char>::empty(),
            hash,
        ),
{
}

/// A full hit needs an enabled cache and an output on disk that is not
/// empty and has exactly the recorded size.
pub proof fn lemma_full_hit_needs_matching_output(
    enabled: bool,
    hash: Seq<char>,
    recorded_size: Option<u64>,
    output_size: Option<u64>,
    object_size: Option<u64>,
    output_path: Seq<char>,
    obj_path: Seq<char>,
)
    requires
        lookup_for(enabled, hash, recorded_size, output_size, object_size, output_path, obj_path).0 == 0,
    ensures
        enabled,
        recorded_size is Some && output_size is Some,
        output_size->0 > 0 && output_size->0 == recorded_size->0,
{
}

/// The metadata recorded after a successful build: the hash, the source
/// and output paths, the options that shaped the output (the format by
/// its `Debug` name), the time and the output's size.
pub fn entry_meta(
    hash: &str,
    source_path: Option<String>,
    output_path: String,
    o: &AotOptions,
    timestamp_secs: u64,
    output_file_size: u64,
) -> (m: CacheEntryMeta)
    ensures
        m.hash@ == hash@,
        m.source_path == source_path,
        m.output_path == output_path,
        m.opt_level == o.opt_level,
        m.fast_compile == o.fast_compile,
        m.output_format@ == format_name(o.output_format),
        m.target_triple == o.target_triple,
        m.debug_info == o.debug_info,
        m.timestamp_secs == timestamp_secs,
        m.output_file_size == output_file_size,
{
    let target_triple = match &o.target_triple {
        Some(t) => Some(t.clone()),
        None => None,
    };
    CacheEntryMeta {
        hash: owned(hash),
        source_path,
        output_path,
        opt_level: o.opt_level,
        fast_compile: o.fast_compile,
        output_format: owned(o.output_format.debug_name()),
        target_triple,
        debug_info: o.debug_info,
        timestamp_secs,
        output_file_size,
    }
}

/// Whether compiling with these options uses the cache: incremental
/// compilation that is not forced to rebuild.
pub fn cache_enabled(o: &AotOptions) -> (b: bool)
    ensures
        b == (o.incremental && !o.force_rebuild),
{
    o.incremental && !o.force_rebuild
}

/// What compiling does after looking in the cache.
#[derive(Debug, Clone, PartialEq, Eq)]
pub enum CacheStep {
    /// The output is up to date: nothing is done.
    UpToDate,
    /// The cached object is the output: it is copied to the output when
    /// `copy` (its path differs), then the entry is recorded.
    CopyCachedObject { cached_obj_path: String, copy: bool, cache_hash: String },
    /// The cached object is linked as `action` says, then the entry is
    /// recorded.
    LinkCachedObject { cached_obj_path: String, action: OutputAction, cache_hash: String },
    /// The output format cannot be produced; the message says why.
    Refuse(String),
    /// The source is compiled in full and the result cached under the hash.
    Compile { cache_hash: String },
}

/// Plain view of a cache step: the kind (0 up to date, 1 copy, 2 link,
/// 3 refuse, 4 compile), the path or message it carries, whether it
/// copies, the link action and the hash.
pub open spec fn step_view(s: CacheStep) -> (int, Seq<char>, bool, OutputAction, Seq<char>) {
    match s {
        CacheStep::UpToDate => (0, Seq::empty(), false, OutputAction::WriteObject, Seq::empty()),
        CacheStep::CopyCachedObject { cached_obj_path, copy, cache_hash } => (1, cached_obj_path@, copy, OutputAction::WriteObject, cache_hash@),
        CacheStep::LinkCachedObject { cached_obj_path, action, cache_hash } => (2, cached_obj_path@, false, action, cache_hash@),
        CacheStep::Refuse(msg) => (3, msg@, false, OutputAction::Unsupported, Seq::empty()),
        CacheStep::Compile { cache_hash } => (4, Seq::empty(), false, OutputAction::WriteObject, cache_hash@),
    }
}

/// The step a lookup leads to for an output format and path: a full hit
/// does nothing; a cached object becomes the output of an object, is
/// linked for an executable or a library (library only in library mode,
/// with the runtime otherwise), and assembly is refused; a miss compiles.
pub open spec fn cache_step_for(
    lookup: (int, Seq<char>, Seq<char>),
    format: OutputFormat,
    library_mode: bool,
    output: Seq<char>,
) -> (int, Seq<char>, bool, OutputAction, Seq<char>) {
    if lookup.0 == 0 {
        (0, Seq::empty(), false, OutputAction::WriteObject, Seq::empty())
    } else if lookup.0 == 1 {
        match output_action_for(format, library_mode) {
            OutputAction::WriteObject => (1, lookup.1, lookup.1 != output, OutputAction::WriteObject, lookup.2),
            OutputAction::Unsupported => (3, "Assembly output not yet implemented"@, false, OutputAction::Unsupported, Seq::empty()),
            a => (2, lookup.1, false, a, lookup.2),
        }
    } else {
        (4, Seq::empty(), false, OutputAction::WriteObject, lookup.2)
    }
}

/// The step a cache lookup leads to (see `cache_step_for`).
pub fn cache_step(lookup: CacheLookupResult, format: OutputFormat, library_mode: bool, output: &str) -> (s: CacheStep)
    ensures
        step_view(s) == cache_step_for(lookup_view(lookup), format, library_mode, output@),
{
    match lookup {
        CacheLookupResult::FullHit { .. } => CacheStep::UpToDate,
        CacheLookupResult::ObjectHit { cached_obj_path, cache_hash } => match output_action(format, library_mode) {
            OutputAction::WriteObject => {
                let copy = !str_eq(cached_obj_path.as_str(), output);
                CacheStep::CopyCachedObject { cached_obj_path, copy, cache_hash }
            },
            OutputAction::Unsupported => CacheStep::Refuse(assembly_unsupported()),
            a => CacheStep::LinkCachedObject { cached_obj_path, action: a, cache_hash },
        },
        CacheLookupResult::Miss { cache_hash } => CacheStep::Compile { cache_hash },
    }
}

} // verus!
