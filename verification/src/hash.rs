//! The cache key of a compilation: what goes into it, in which order, and
//! how it is written.

use vstd::prelude::*;
use std::collections::hash_map::DefaultHasher;
use std::hash::{Hash, Hasher};
use crate::cache::{hash_hex, hex_fixed, AotCompilationCache};
use crate::options::{format_name, AotOptions};
use crate::order::{lemma_sorted_by_name_unique, names_unique, pairs_view, sort_by_name, sorted_by_name};
use crate::strs::{owned, strings_view};

verus! {

/// One value fed to the hasher.
#[derive(Debug, Clone)]
pub enum HashItem {
    Text(String),
    Number(u64),
    Byte(u8),
    Flag(bool),
    MaybeText(Option<String>),
    Texts(Vec<String>),
}

/// Plain view of a hashed value.
pub enum HashItemView {
    Text(Seq<char>),
    Number(u64),
    Byte(u8),
    Flag(bool),
    MaybeText(Option<Seq<char>>),
    Texts(Seq<Seq<char>>),
}

/// Plain view of a hashed value.
pub open spec fn item_view(i: HashItem) -> HashItemView {
    match i {
        HashItem::Text(s) => HashItemView::Text(s@),
        HashItem::Number(n) => HashItemView::Number(n),
        HashItem::Byte(b) => HashItemView::Byte(b),
        HashItem::Flag(f) => HashItemView::Flag(f),
        HashItem::MaybeText(o) => HashItemView::MaybeText(
            match o {
                Some(s) => Some(s@),
                None => None,
            },
        ),
        HashItem::Texts(v) => HashItemView::Texts(strings_view(v@)),
    }
}

/// Plain views of hashed values.
pub open spec fn items_view(v: Seq<HashItem>) -> Seq<HashItemView> {
    v.map_values(|i: HashItem| item_view(i))
}

/// `DefaultHasher::new`, then each value's `Hash::hash` in order (texts
/// as `str`, the others as their own types), then `Hasher::finish`.
/// Nothing is stated of the number: the hasher's algorithm belongs to the
/// standard library's build and integers are hashed in the machine's byte
/// order.
#[verifier::external_body]
fn hash_items(items: &Vec<HashItem>) -> u64 {
    let mut hasher = DefaultHasher::new();
    for item in items {
        match item {
            HashItem::Text(s) => s.as_str().hash(&mut hasher),
            HashItem::Number(n) => n.hash(&mut hasher),
            HashItem::Byte(b) => b.hash(&mut hasher),
            HashItem::Flag(f) => f.hash(&mut hasher),
            HashItem::MaybeText(o) => o.hash(&mut hasher),
            HashItem::Texts(v) => v.hash(&mut hasher),
        }
    }
    hasher.finish()
}

/// The version tag that starts every cache key.
pub open spec fn version_tag() -> Seq<char> {
    "adeshlang_aot_v0.3.0"@
}

/// Texts as hashed values.
pub open spec fn texts_items(v: Seq<Seq<char>>) -> Seq<HashItemView> {
    v.map_values(|s: Seq<char>| HashItemView::Text(s))
}

/// Name/value pairs as hashed values: name, then value, pair by pair.
pub open spec fn flag_items(v: Seq<(Seq<char>, Seq<char>)>) -> Seq<HashItemView>
    decreases v.len(),
{
    if v.len() == 0 {
        Seq::empty()
    } else {
        flag_items(v.drop_last()) + seq![HashItemView::Text(v.last().0), HashItemView::Text(v.last().1)]
    }
}

/// The options that take part in the key, in order, before the flags.
pub open spec fn option_items(o: AotOptions) -> Seq<HashItemView> {
    seq![
        HashItemView::Byte(o.opt_level),
        HashItemView::Flag(o.fast_compile),
        HashItemView::Text(format_name(o.output_format)),
        HashItemView::MaybeText(
            match o.target_triple {
                Some(t) => Some(t@),
                None => None,
            },
        ),
        HashItemView::Flag(o.debug_info),
        HashItemView::Flag(o.library_mode),
        HashItemView::Flag(o.enable_dead_code_elimination),
        HashItemView::Flag(o.enable_lto),
        HashItemView::Texts(strings_view(o.include_dirs@)),
        HashItemView::Texts(strings_view(o.lib_dirs@)),
        HashItemView::Texts(strings_view(o.link_libs@)),
        HashItemView::Texts(strings_view(o.extra_linker_args@)),
    ]
}

/// What a cache key is computed from, in order: the version tag, the
/// compiler's build time when known, the source, the extra inputs, the
/// options, and the flags as name/value pairs in the order given
/// (`sorted_flags` is the flags sorted by name).
pub open spec fn hash_inputs_for(
    src: Seq<char>,
    o: AotOptions,
    extras: Seq<Seq<char>>,
    exe_mtime_secs: Option<u64>,
    sorted_flags: Seq<(Seq<char>, Seq<char>)>,
) -> Seq<HashItemView> {
    seq![HashItemView::Text(version_tag())] + (match exe_mtime_secs {
        Some(t) => seq![HashItemView::Number(t)],
        None => Seq::empty(),
    }) + seq![HashItemView::Text(src)] + texts_items(extras) + option_items(o) + flag_items(sorted_flags)
}

fn copy_texts(v: &Vec<String>) -> (r: Vec<String>)
    ensures
        strings_view(r@) == strings_view(v@),
{
    let mut r: Vec<String> = Vec::new();
    let mut i: usize = 0;
    while i < v.len()
        invariant
            i <= v@.len(),
            strings_view(r@) == strings_view(v@.subrange(0, i as int)),
        decreases v.len() - i,
    {
        let ghost before = r@;
        r.push(owned(v[i].as_str()));
        assert(strings_view(r@) =~= strings_view(before).push(v@[i as int]@));
        assert(strings_view(v@.subrange(0, i + 1)) =~= strings_view(v@.subrange(0, i as int)).push(v@[i as int]@));
        i = i + 1;
    }
    assert(v@.subrange(0, i as int) =~= v@);
    r
}

fn push_item(v: &mut Vec<HashItem>, i: HashItem)
    ensures
        items_view(final(v)@) == items_view(old(v)@).push(item_view(i)),
{
    let ghost before = v@;
    v.push(i);
    assert(items_view(v@) =~= items_view(before).push(item_view(i)));
}

fn push_option_items(v: &mut Vec<HashItem>, options: &AotOptions)
    ensures
        items_view(final(v)@) == items_view(old(v)@) + option_items(*options),
{
    let ghost mid = items_view(v@);
    push_item(v, HashItem::Byte(options.opt_level));
    push_item(v, HashItem::Flag(options.fast_compile));
    push_item(v, HashItem::Text(owned(options.output_format.debug_name())));
    let triple = match &options.target_triple {
        Some(t) => Some(owned(t.as_str())),
        None => None,
    };
    push_item(v, HashItem::MaybeText(triple));
    push_item(v, HashItem::Flag(options.debug_info));
    push_item(v, HashItem::Flag(options.library_mode));
    push_item(v, HashItem::Flag(options.enable_dead_code_elimination));
    push_item(v, HashItem::Flag(options.enable_lto));
    push_item(v, HashItem::Texts(copy_texts(&options.include_dirs)));
    push_item(v, HashItem::Texts(copy_texts(&options.lib_dirs)));
    push_item(v, HashItem::Texts(copy_texts(&options.link_libs)));
    push_item(v, HashItem::Texts(copy_texts(&options.extra_linker_args)));
    assert(items_view(v@) =~= mid + option_items(*options));
}

fn push_flag_items(v: &mut Vec<HashItem>, flags: &Vec<(String, String)>)
    ensures
        items_view(final(v)@) == items_view(old(v)@) + flag_items(pairs_view(flags@)),
{
    let ghost start = items_view(v@);
    let ghost all = pairs_view(flags@);
    let mut i: usize = 0;
    while i < flags.len()
        invariant
            i <= flags@.len(),
            all == pairs_view(flags@),
            items_view(v@) == start + flag_items(all.subrange(0, i as int)),
        decreases flags.len() - i,
    {
        push_item(v, HashItem::Text(owned(flags[i].0.as_str())));
        push_item(v, HashItem::Text(owned(flags[i].1.as_str())));
        proof {
            let sub = all.subrange(0, i + 1);
            assert(sub.drop_last() =~= all.subrange(0, i as int));
            assert(sub.last() == (flags@[i as int].0@, flags@[i as int].1@));
        }
        i = i + 1;
    }
    assert(all.subrange(0, i as int) =~= all);
}

/// The values a cache key is computed from (see `hash_inputs_for`), with
/// the flags sorted by name; the build time of the compiler is given when
/// it could be read.
pub fn hash_inputs(src: &str, options: &AotOptions, extras: &Vec<String>, exe_mtime_secs: Option<u64>) -> (v: Vec<HashItem>)
    ensures
        exists|sorted: Seq<(Seq<char>, Seq<char>)>|
            sorted.to_multiset() == pairs_view(options.flags@).to_multiset() && sorted_by_name(sorted)
                && items_view(v@) == hash_inputs_for(src@, *options, strings_view(extras@), exe_mtime_secs, sorted),
{
    let mut v: Vec<HashItem> = Vec::new();
    push_item(&mut v, HashItem::Text(owned("adeshlang_aot_v0.3.0")));
    match exe_mtime_secs {
        Some(t) => push_item(&mut v, HashItem::Number(t)),
        None => {},
    }
    push_item(&mut v, HashItem::Text(owned(src)));
    let ghost head = items_view(v@);
    let mut i: usize = 0;
    while i < extras.len()
        invariant
            i <= extras@.len(),
            items_view(v@) == head + texts_items(strings_view(extras@.subrange(0, i as int))),
        decreases extras.len() - i,
    {
        push_item(&mut v, HashItem::Text(owned(extras[i].as_str())));
        assert(texts_items(strings_view(extras@.subrange(0, i + 1))) =~= texts_items(
            strings_view(extras@.subrange(0, i as int)),
        ).push(HashItemView::Text(extras@[i as int]@)));
        i = i + 1;
    }
    assert(extras@.subrange(0, i as int) =~= extras@);
    push_option_items(&mut v, options);
    let ghost before_flags = items_view(v@);
    let flags = sort_by_name(&options.flags);
    let ghost sorted = pairs_view(flags@);
    push_flag_items(&mut v, &flags);
    assert(items_view(v@) =~= hash_inputs_for(src@, *options, strings_view(extras@), exe_mtime_secs, sorted));
    v
}

impl AotCompilationCache {
    /// Compute a unique hash signature for source code and compilation
    /// options: the values of `hash_inputs` (the extra inputs, such as
    /// imported modules, when given; the compiler's build time when it
    /// could be read), hashed, as 16 lowercase hex digits.
    pub fn compute_hash(
        src: &str,
        options: &AotOptions,
        extra_inputs: Option<&Vec<String>>,
        exe_mtime_secs: Option<u64>,
    ) -> (s: String)
        ensures
            exists|h: u64| s@ == hex_fixed(h as nat, 16),
    {
        let none: Vec<String> = Vec::new();
        let extras = match extra_inputs {
            Some(e) => e,
            None => &none,
        };
        let items = hash_inputs(src, options, extras, exe_mtime_secs);
        let h = hash_items(&items);
        hash_hex(h)
    }
}

/// The values a cache key is computed from do not depend on whether the
/// compilation is incremental, on the cache directory, on forced
/// rebuilding, or on the order in which the flags were given, when flags
/// with the same name are the same flag.
pub proof fn lemma_key_inputs_ignore(
    src: Seq<char>,
    o1: AotOptions,
    o2: AotOptions,
    extras: Seq<Seq<char>>,
    exe_mtime_secs: Option<u64>,
    s1: Seq<(Seq<char>, Seq<char>)>,
    s2: Seq<(Seq<char>, Seq<char>)>,
)
    requires
        o2 == (AotOptions {
            incremental: o2.incremental,
            cache_dir: o2.cache_dir,
            force_rebuild: o2.force_rebuild,
            flags: o2.flags,
            ..o1
        }),
        pairs_view(o1.flags@).to_multiset() == pairs_view(o2.flags@).to_multiset(),
        names_unique(pairs_view(o1.flags@)),
        s1.to_multiset() == pairs_view(o1.flags@).to_multiset(),
        sorted_by_name(s1),
        s2.to_multiset() == pairs_view(o2.flags@).to_multiset(),
        sorted_by_name(s2),
    ensures
        hash_inputs_for(src, o1, extras, exe_mtime_secs, s1) == hash_inputs_for(src, o2, extras, exe_mtime_secs, s2),
{
    broadcast use vstd::seq_lib::group_to_multiset_ensures;
    let p = pairs_view(o1.flags@);
    assert(names_unique(s1)) by {
        assert forall|i: int, j: int| 0 <= i < s1.len() && 0 <= j < s1.len() && #[trigger] s1[i].0 == #[trigger] s1[j].0 implies s1[i] == s1[j] by {
            assert(s1.contains(s1[i]));
            assert(s1.contains(s1[j]));
            assert(s1.to_multiset().count(s1[i]) > 0);
            assert(s1.to_multiset().count(s1[j]) > 0);
            assert(p.contains(s1[i]));
            assert(p.contains(s1[j]));
            let a = choose|a: int| 0 <= a < p.len() && p[a] == s1[i];
            let b = choose|b: int| 0 <= b < p.len() && p[b] == s1[j];
            assert(p[a].0 == p[b].0);
        }
    }
    lemma_sorted_by_name_unique(s1, s2);
    assert(option_items(o1) == option_items(o2));
}


/// The target triple takes part in the key: the values a key is computed
/// from hold the triple's text (or its absence), so two option sets that
/// differ only in their target triple give different values.
pub proof fn lemma_key_inputs_see_target(
    src: Seq<char>,
    o1: AotOptions,
    o2: AotOptions,
    extras: Seq<Seq<char>>,
    exe_mtime_secs: Option<u64>,
    sorted_flags: Seq<(Seq<char>, Seq<char>)>,
)
    requires
        o2 == (AotOptions { target_triple: o2.target_triple, ..o1 }),
        o1.target_triple.is_some() != o2.target_triple.is_some()
            || (o1.target_triple matches Some(t1) && o2.target_triple matches Some(t2) && t1@ != t2@),
    ensures
        hash_inputs_for(src, o1, extras, exe_mtime_secs, sorted_flags) != hash_inputs_for(
            src,
            o2,
            extras,
            exe_mtime_secs,
            sorted_flags,
        ),
        o1.target_triple matches Some(t) ==> hash_inputs_for(src, o1, extras, exe_mtime_secs, sorted_flags).contains(
            HashItemView::MaybeText(Some(t@)),
        ),
{
    let head = seq![HashItemView::Text(version_tag())] + (match exe_mtime_secs {
        Some(t) => seq![HashItemView::Number(t)],
        None => Seq::empty(),
    }) + seq![HashItemView::Text(src)] + texts_items(extras);
    let k: int = head.len() as int + 3;
    let h1 = hash_inputs_for(src, o1, extras, exe_mtime_secs, sorted_flags);
    let h2 = hash_inputs_for(src, o2, extras, exe_mtime_secs, sorted_flags);
    assert(h1 == head + option_items(o1) + flag_items(sorted_flags));
    assert(h2 == head + option_items(o2) + flag_items(sorted_flags));
    assert(h1[k] == option_items(o1)[3]);
    assert(h2[k] == option_items(o2)[3]);
    assert(h1[k] != h2[k]);
}

} // verus!
