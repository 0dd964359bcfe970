use adesh_aot::cache::{cache_enabled, cache_step, decide_lookup, entry_meta, hash_hex, AotCompilationCache, CacheLookupResult, CacheStep};
use adesh_aot::options::OutputAction;
use adesh_aot::hash::{hash_inputs, HashItem};
use adesh_aot::options::{AotOptions, OutputFormat};

#[test]
fn hashes_are_sixteen_hex_digits() {
    assert_eq!(hash_hex(0), "0000000000000000");
    assert_eq!(hash_hex(0xdead_beef), "00000000deadbeef");
    assert_eq!(hash_hex(u64::MAX), "ffffffffffffffff");
}

#[test]
fn default_directory_under_the_working_directory() {
    let d = AotCompilationCache::default_cache_dir(Some("/work/proj".to_string()));
    let sep = std::path::MAIN_SEPARATOR;
    assert_eq!(d, format!("/work/proj{}.adesh_cache{}aot", sep, sep));
    let c = AotCompilationCache::new(None, true, Some("/w".to_string()));
    assert!(c.is_enabled());
    assert!(c.cache_dir().ends_with("aot"));
}

#[test]
fn cache_paths() {
    let c = AotCompilationCache::new(Some("/cache".to_string()), false, None);
    assert!(!c.is_enabled());
    assert_eq!(c.cache_dir(), "/cache");
    let obj = c.cached_obj_path("abc");
    let sep = std::path::MAIN_SEPARATOR;
    assert!(obj == format!("/cache{}abc.obj", sep) || obj == format!("/cache{}abc.o", sep));
    let meta = c.cached_meta_path("abc");
    assert!(meta.ends_with("abc.meta.json"));
    assert!(meta.starts_with("/cache"));
}

#[test]
fn lookups() {
    let h = "h".to_string();
    let out = "out".to_string();
    let obj = "obj".to_string();
    assert_eq!(
        decide_lookup(false, h.clone(), Some(5), Some(5), Some(9), out.clone(), obj.clone()),
        CacheLookupResult::Miss { cache_hash: h.clone() }
    );
    assert_eq!(
        decide_lookup(true, h.clone(), Some(5), Some(5), Some(9), out.clone(), obj.clone()),
        CacheLookupResult::FullHit { output_path: out.clone(), cache_hash: h.clone() }
    );
    assert_eq!(
        decide_lookup(true, h.clone(), Some(5), Some(6), Some(9), out.clone(), obj.clone()),
        CacheLookupResult::ObjectHit { cached_obj_path: obj.clone(), cache_hash: h.clone() }
    );
    assert_eq!(
        decide_lookup(true, h.clone(), None, Some(5), Some(9), out.clone(), obj.clone()),
        CacheLookupResult::ObjectHit { cached_obj_path: obj.clone(), cache_hash: h.clone() }
    );
    assert_eq!(
        decide_lookup(true, h.clone(), Some(0), Some(0), Some(0), out.clone(), obj.clone()),
        CacheLookupResult::Miss { cache_hash: h.clone() }
    );
    assert_eq!(
        decide_lookup(true, h.clone(), None, None, None, out.clone(), obj.clone()),
        CacheLookupResult::Miss { cache_hash: h.clone() }
    );
}

#[test]
fn a_stored_object_is_found_without_metadata() {
    let c = AotCompilationCache::new(Some("/c".to_string()), true, None);
    let r = c.query("k".to_string(), None, None, Some(12), "o".to_string(), "/c/k.o".to_string());
    assert_eq!(r, CacheLookupResult::ObjectHit { cached_obj_path: "/c/k.o".to_string(), cache_hash: "k".to_string() });
}

#[test]
fn metadata_records_the_options() {
    let mut o = AotOptions::default();
    o.opt_level = 1;
    o.output_format = OutputFormat::SharedLib;
    o.target_triple = Some("x86_64-unknown-linux-gnu".to_string());
    let m = entry_meta("abc", Some("main.ad".to_string()), "out.so".to_string(), &o, 77, 1024);
    assert_eq!(m.hash, "abc");
    assert_eq!(m.output_format, "SharedLib");
    assert_eq!(m.opt_level, 1);
    assert_eq!(m.target_triple.as_deref(), Some("x86_64-unknown-linux-gnu"));
    assert_eq!(m.timestamp_secs, 77);
    assert_eq!(m.output_file_size, 1024);
}

#[test]
fn test_hash_consistency() {
    let src = "fn main() { return 42; }";
    let opt1 = AotOptions::default();
    let mut opt2 = AotOptions::default();

    let hash1 = AotCompilationCache::compute_hash(src, &opt1, None, None);
    let hash2 = AotCompilationCache::compute_hash(src, &opt1, None, None);
    assert_eq!(hash1, hash2);

    // Different opt level produces different hash
    opt2.opt_level = 0;
    let hash3 = AotCompilationCache::compute_hash(src, &opt2, None, None);
    assert_ne!(hash1, hash3);

    // Different source produces different hash
    let hash4 = AotCompilationCache::compute_hash("fn main() { return 0; }", &opt1, None, None);
    assert_ne!(hash1, hash4);
}

#[test]
fn hash_inputs_sort_flags_by_name() {
    let mut o = AotOptions::default();
    o.flags = vec![("b".to_string(), "2".to_string()), ("a".to_string(), "1".to_string())];
    let items = hash_inputs("src", &o, &vec!["extra".to_string()], Some(9));
    assert!(matches!(&items[0], HashItem::Text(t) if t == "adeshlang_aot_v0.3.0"));
    assert!(matches!(&items[1], HashItem::Number(9)));
    assert!(matches!(&items[2], HashItem::Text(t) if t == "src"));
    assert!(matches!(&items[3], HashItem::Text(t) if t == "extra"));
    assert!(matches!(&items[4], HashItem::Byte(2)));
    assert!(matches!(&items[6], HashItem::Text(t) if t == "Executable"));
    let n = items.len();
    assert!(matches!(&items[n - 4], HashItem::Text(t) if t == "a"));
    assert!(matches!(&items[n - 3], HashItem::Text(t) if t == "1"));
    assert!(matches!(&items[n - 2], HashItem::Text(t) if t == "b"));
    assert_eq!(AotCompilationCache::compute_hash("x", &o, None, None).len(), 16);
}

#[test]
fn joining_to_directories_with_separators() {
    let d = AotCompilationCache::default_cache_dir(Some("/".to_string()));
    let sep = std::path::MAIN_SEPARATOR;
    assert_eq!(d, format!("/.adesh_cache{}aot", sep));
    let c = AotCompilationCache::new(Some("d\\".to_string()), true, None);
    let p = c.cached_obj_path_for("k", false);
    assert!(p == "d\\k.o" || p == "d\\/k.o");
    let e = AotCompilationCache::new(Some(String::new()), true, None);
    assert_eq!(e.cached_meta_path("k"), "k.meta.json");
}

#[test]
fn object_path_follows_the_platform_given() {
    let c = AotCompilationCache::new(Some("/tmp/c".to_string()), true, None);
    let sep = std::path::MAIN_SEPARATOR;
    assert_eq!(c.cached_obj_path_for("ab12", false), format!("/tmp/c{}ab12.o", sep));
    assert_eq!(c.cached_obj_path_for("ab12", true), format!("/tmp/c{}ab12.obj", sep));
    assert_ne!(c.cached_meta_path("ab12"), c.cached_obj_path("ab12"));
}

#[test]
fn cache_steps_after_a_lookup() {
    let full = CacheLookupResult::FullHit { output_path: "out".to_string(), cache_hash: "h".to_string() };
    assert_eq!(cache_step(full, OutputFormat::Executable, false, "out"), CacheStep::UpToDate);
    let hit = || CacheLookupResult::ObjectHit { cached_obj_path: "/c/h.o".to_string(), cache_hash: "h".to_string() };
    assert_eq!(
        cache_step(hit(), OutputFormat::Object, false, "a.o"),
        CacheStep::CopyCachedObject { cached_obj_path: "/c/h.o".to_string(), copy: true, cache_hash: "h".to_string() }
    );
    assert_eq!(
        cache_step(hit(), OutputFormat::Object, false, "/c/h.o"),
        CacheStep::CopyCachedObject { cached_obj_path: "/c/h.o".to_string(), copy: false, cache_hash: "h".to_string() }
    );
    assert_eq!(
        cache_step(hit(), OutputFormat::SharedLib, true, "lib.so"),
        CacheStep::LinkCachedObject { cached_obj_path: "/c/h.o".to_string(), action: OutputAction::LinkLibraryOnly, cache_hash: "h".to_string() }
    );
    assert_eq!(
        cache_step(hit(), OutputFormat::Executable, true, "a"),
        CacheStep::LinkCachedObject { cached_obj_path: "/c/h.o".to_string(), action: OutputAction::LinkWithRuntime, cache_hash: "h".to_string() }
    );
    assert_eq!(cache_step(hit(), OutputFormat::Assembly, false, "a.s"), CacheStep::Refuse("Assembly output not yet implemented".to_string()));
    let miss = CacheLookupResult::Miss { cache_hash: "k".to_string() };
    assert_eq!(cache_step(miss, OutputFormat::Object, false, "a.o"), CacheStep::Compile { cache_hash: "k".to_string() });
    let mut o = AotOptions::default();
    o.incremental = true;
    assert!(cache_enabled(&o));
    o.force_rebuild = true;
    assert!(!cache_enabled(&o));
}
