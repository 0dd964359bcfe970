//! The strings a compiled module carries in its data section: which
//! strings a module needs, in which order, and what each data object is
//! called and holds.

use vstd::prelude::*;
use vstd::string::StringSliceAdditionalSpecFns;
use vstd::utf8::encode_utf8;
use crate::color::{color_escape, color_of, cuts_character, make_bg_color_escape, make_fg_color_escape, parse_hex_color, would_cut_character};
use crate::strs::{concat, decimal, decimal_string, owned, str_eq, str_starts_with, strings_view};

verus! {

/// `s` appended unless it is already there.
pub open spec fn add_unique(acc: Seq<Seq<char>>, s: Seq<char>) -> Seq<Seq<char>> {
    if acc.contains(s) {
        acc
    } else {
        acc.push(s)
    }
}

/// Each of `names` appended in order, unless already there.
pub open spec fn add_all(acc: Seq<Seq<char>>, names: Seq<Seq<char>>) -> Seq<Seq<char>>
    decreases names.len(),
{
    if names.len() == 0 {
        acc
    } else {
        add_unique(add_all(acc, names.drop_last()), names.last())
    }
}

/// Whether a string starts with `#`.
pub open spec fn hash_prefixed(s: Seq<char>) -> bool {
    s.len() > 0 && s[0] == '#'
}

/// The escape sequences a colour literal brings: foreground, then
/// background; none for other strings.
pub open spec fn escapes_for(s: Seq<char>) -> Seq<Seq<char>> {
    if hash_prefixed(s) {
        match color_of(encode_utf8(s)) {
            Some((r, g, b)) => seq![color_escape("38"@, r, g, b), color_escape("48"@, r, g, b)],
            None => Seq::empty(),
        }
    } else {
        Seq::empty()
    }
}

/// One step over the module's string constants: a string seen for the
/// first time is appended, followed by its escape sequences.
pub open spec fn collect_step(acc: Seq<Seq<char>>, s: Seq<char>) -> Seq<Seq<char>> {
    if acc.contains(s) {
        acc
    } else {
        add_all(acc.push(s), escapes_for(s))
    }
}

/// The string constants in order of first appearance, each colour literal
/// followed by its escape sequences.
pub open spec fn collected(cs: Seq<Seq<char>>) -> Seq<Seq<char>>
    decreases cs.len(),
{
    if cs.len() == 0 {
        Seq::empty()
    } else {
        collect_step(collected(cs.drop_last()), cs.last())
    }
}

/// Type names the `typeof` builtin can produce.
pub open spec fn typeof_names() -> Seq<Seq<char>> {
    seq![
        "object"@, "null"@, "boolean"@, "u8"@, "i8"@, "u16"@, "i16"@, "u32"@, "i32"@, "u64"@,
        "i64"@, "u128"@, "i128"@, "f32"@, "f64"@, "string"@, "tuple"@, "set"@, "function"@,
        "promise"@, "pointer"@, "unknown"@, "[u8]"@, "[i8]"@, "[u16]"@, "[i16]"@, "[u32]"@,
        "[i32]"@, "[u64]"@, "[i64]"@, "[u128]"@, "[i128]"@, "[f32]"@, "[f64]"@, "[number]"@,
        "[bool]"@, "[string]"@, "[any]"@, "[pointer]"@, "[unknown]"@, "[u8;raw]"@, "[i8;raw]"@,
        "[u16;raw]"@, "[i16;raw]"@, "[u32;raw]"@, "[i32;raw]"@, "[u64;raw]"@, "[i64;raw]"@,
        "[f32;raw]"@, "[f64;raw]"@, "[bool;raw]"@, "[string;raw]"@,
        "[\"one\", \"two\", \"three\"]"@, "test.exe"@, "one"@, "two"@, "three"@,
    ]
}

fn typeof_table() -> (t: [&'static str; 57])
    ensures
        t@.map_values(|s: &str| s@) == typeof_names(),
{
    let t = [
        "object", "null", "boolean", "u8", "i8", "u16", "i16", "u32", "i32", "u64", "i64", "u128",
        "i128", "f32", "f64", "string", "tuple", "set", "function", "promise", "pointer", "unknown",
        "[u8]", "[i8]", "[u16]", "[i16]", "[u32]", "[i32]", "[u64]", "[i64]", "[u128]", "[i128]",
        "[f32]", "[f64]", "[number]", "[bool]", "[string]", "[any]", "[pointer]", "[unknown]",
        "[u8;raw]", "[i8;raw]", "[u16;raw]", "[i16;raw]", "[u32;raw]", "[i32;raw]", "[u64;raw]",
        "[i64;raw]", "[f32;raw]", "[f64;raw]", "[bool;raw]", "[string;raw]",
        "[\"one\", \"two\", \"three\"]", "test.exe", "one", "two", "three",
    ];
    assert(t@.map_values(|s: &str| s@) =~= typeof_names());
    t
}

/// The strings a module needs: its string constants (see `collected`),
/// then the `typeof` names not already among them.
pub open spec fn module_strings(cs: Seq<Seq<char>>) -> Seq<Seq<char>> {
    add_all(collected(cs), typeof_names())
}

/// Whether reading a string as a colour literal is safe: it does not start
/// with `#`, or its bytes do not cut a character where the fields end.
pub open spec fn color_safe(s: Seq<char>) -> bool {
    hash_prefixed(s) ==> !cuts_character(encode_utf8(s))
}

/// Whether a string may be read as a colour literal (see `color_safe`).
pub fn color_safe_text(s: &str) -> (r: bool)
    ensures
        r == color_safe(s@),
{
    proof {
        reveal_strlit("#");
        if s@.len() > 0 {
            assert(s@.subrange(0, 1)[0] == s@[0]);
            assert(s@[0] == '#' ==> s@.subrange(0, 1) =~= "#"@);
        }
    }
    !str_starts_with(s, "#") || !would_cut_character(s)
}

/// Whether a list of strings holds no string twice.
pub open spec fn no_duplicates(s: Seq<Seq<char>>) -> bool {
    forall|i: int, j: int| 0 <= i < j < s.len() ==> s[i] != s[j]
}

/// Whether a list of owned strings holds `s`.
pub fn contains_text(v: &Vec<String>, s: &str) -> (r: bool)
    ensures
        r == strings_view(v@).contains(s@),
{
    let mut i: usize = 0;
    while i < v.len()
        invariant
            i <= v@.len(),
            forall|j: int| 0 <= j < i ==> strings_view(v@)[j] != s@,
        decreases v.len() - i,
    {
        if str_eq(v[i].as_str(), s) {
            assert(strings_view(v@)[i as int] == s@);
            return true;
        }
        i = i + 1;
    }
    false
}

/// Appends `s` unless the list already holds it.
fn push_unique(v: &mut Vec<String>, s: String)
    ensures
        strings_view(final(v)@) == add_unique(strings_view(old(v)@), s@),
{
    if !contains_text(v, s.as_str()) {
        let ghost before = v@;
        v.push(s);
        assert(strings_view(v@) =~= strings_view(before).push(s@));
    }
}

/// Appends each of `names` that the list does not hold yet, in order.
fn push_all_unique(v: &mut Vec<String>, names: &[&str])
    ensures
        strings_view(final(v)@) == add_all(strings_view(old(v)@), names@.map_values(|s: &str| s@)),
{
    let ghost start = strings_view(v@);
    let mut i: usize = 0;
    while i < names.len()
        invariant
            i <= names@.len(),
            strings_view(v@) == add_all(start, names@.subrange(0, i as int).map_values(|s: &str| s@)),
        decreases names.len() - i,
    {
        push_unique(v, owned(names[i]));
        proof {
            let sub = names@.subrange(0, i + 1).map_values(|s: &str| s@);
            assert(sub.drop_last() =~= names@.subrange(0, i as int).map_values(|s: &str| s@));
            assert(sub.last() == names@[i as int]@);
        }
        i = i + 1;
    }
    assert(names@.subrange(0, i as int) =~= names@);
}

/// `add_unique` keeps a list free of duplicates and keeps what it held.
pub proof fn lemma_add_unique(acc: Seq<Seq<char>>, s: Seq<char>)
    requires
        no_duplicates(acc),
    ensures
        no_duplicates(add_unique(acc, s)),
        add_unique(acc, s).contains(s),
        forall|t: Seq<char>| acc.contains(t) ==> #[trigger] add_unique(acc, s).contains(t),
{
    if !acc.contains(s) {
        let r = acc.push(s);
        assert forall|i: int, j: int| 0 <= i < j < r.len() implies r[i] != r[j] by {
            if j == acc.len() {
                assert(acc[i] == r[i]);
            }
        }
        assert(r[acc.len() as int] == s);
        assert forall|t: Seq<char>| acc.contains(t) implies #[trigger] r.contains(t) by {
            let k = choose|k: int| 0 <= k < acc.len() && acc[k] == t;
            assert(r[k] == t);
        }
    }
}

/// `add_all` keeps a list free of duplicates, keeps what it held and adds
/// every name.
pub proof fn lemma_add_all(acc: Seq<Seq<char>>, names: Seq<Seq<char>>)
    requires
        no_duplicates(acc),
    ensures
        no_duplicates(add_all(acc, names)),
        forall|t: Seq<char>| acc.contains(t) ==> #[trigger] add_all(acc, names).contains(t),
        forall|i: int| 0 <= i < names.len() ==> add_all(acc, names).contains(#[trigger] names[i]),
    decreases names.len(),
{
    if names.len() > 0 {
        let prev = add_all(acc, names.drop_last());
        lemma_add_all(acc, names.drop_last());
        lemma_add_unique(prev, names.last());
        assert forall|i: int| 0 <= i < names.len() implies add_all(acc, names).contains(
            #[trigger] names[i],
        ) by {
            if i < names.len() - 1 {
                assert(names.drop_last()[i] == names[i]);
                assert(prev.contains(names[i]));
            }
        }
    }
}

/// The collected strings hold no duplicates and every string constant.
pub proof fn lemma_collected(cs: Seq<Seq<char>>)
    ensures
        no_duplicates(collected(cs)),
        forall|i: int| 0 <= i < cs.len() ==> collected(cs).contains(#[trigger] cs[i]),
    decreases cs.len(),
{
    if cs.len() > 0 {
        let prev = collected(cs.drop_last());
        lemma_collected(cs.drop_last());
        let s = cs.last();
        if !prev.contains(s) {
            lemma_add_unique(prev, s);
            lemma_add_all(prev.push(s), escapes_for(s));
        }
        assert forall|i: int| 0 <= i < cs.len() implies collected(cs).contains(#[trigger] cs[i]) by {
            if i < cs.len() - 1 {
                assert(cs.drop_last()[i] == cs[i]);
                assert(prev.contains(cs[i]));
            } else {
                assert(prev.push(s)[prev.len() as int] == s);
            }
        }
    }
}

/// A module's strings hold no duplicates, and hold every string constant
/// and every `typeof` name.
pub proof fn lemma_module_strings(cs: Seq<Seq<char>>)
    ensures
        no_duplicates(module_strings(cs)),
        forall|i: int| 0 <= i < cs.len() ==> module_strings(cs).contains(#[trigger] cs[i]),
        forall|i: int| 0 <= i < typeof_names().len() ==> module_strings(cs).contains(#[trigger] typeof_names()[i]),
{
    lemma_collected(cs);
    lemma_add_all(collected(cs), typeof_names());
}

/// Collect all strings used in string constants, given in instruction
/// order, also adding the colour escape sequences of colour literals and
/// the type names of `typeof`. Each string occurs once, at its first
/// appearance.
pub fn collect_strings(const_strings: &Vec<String>) -> (r: Vec<String>)
    requires
        forall|i: int| 0 <= i < const_strings@.len() ==> color_safe(#[trigger] const_strings@[i]@),
    ensures
        strings_view(r@) == module_strings(strings_view(const_strings@)),
        no_duplicates(strings_view(r@)),
{
    let mut strings: Vec<String> = Vec::new();
    let ghost cs = strings_view(const_strings@);
    let mut i: usize = 0;
    while i < const_strings.len()
        invariant
            i <= const_strings@.len(),
            cs == strings_view(const_strings@),
            forall|j: int| 0 <= j < const_strings@.len() ==> color_safe(#[trigger] const_strings@[j]@),
            strings_view(strings@) == collected(cs.subrange(0, i as int)),
        decreases const_strings.len() - i,
    {
        let s = &const_strings[i];
        let ghost before = strings_view(strings@);
        proof {
            reveal_strlit("#");
            if s@.len() > 0 {
                assert(s@.subrange(0, 1)[0] == s@[0]);
                assert(s@[0] == '#' ==> s@.subrange(0, 1) =~= "#"@);
            }
        }
        if !contains_text(&strings, s.as_str()) {
            push_unique(&mut strings, owned(s.as_str()));
            let ghost pushed = before.push(s@);
            assert(strings_view(strings@) == pushed);
            if str_starts_with(s.as_str(), "#") {
                assert(hash_prefixed(s@));
                assert(color_safe(s@));
                match parse_hex_color(s.as_str()) {
                    Some((r, g, b)) => {
                        let fg = make_fg_color_escape(r, g, b);
                        push_unique(&mut strings, fg);
                        let bg = make_bg_color_escape(r, g, b);
                        push_unique(&mut strings, bg);
                        proof {
                            let e = escapes_for(s@);
                            assert(e == seq![fg@, bg@]);
                            assert(e.drop_last().drop_last() =~= Seq::<Seq<char>>::empty());
                            assert(e.drop_last().last() == fg@);
                            assert(e.last() == bg@);
                            assert(add_all(pushed, e.drop_last().drop_last()) == pushed);
                            assert(add_all(pushed, e.drop_last()) == add_unique(pushed, fg@));
                        }
                    },
                    None => {
                        assert(escapes_for(s@) =~= Seq::<Seq<char>>::empty());
                    },
                }
            } else {
                assert(!hash_prefixed(s@));
                assert(escapes_for(s@) =~= Seq::<Seq<char>>::empty());
            }
            assert(strings_view(strings@) == collect_step(before, s@));
        }
        proof {
            let sub = cs.subrange(0, i + 1);
            assert(sub.drop_last() =~= cs.subrange(0, i as int));
            assert(sub.last() == s@);
        }
        i = i + 1;
    }
    assert(cs.subrange(0, i as int) =~= cs);
    let table = typeof_table();
    push_all_unique(&mut strings, table.as_slice());
    proof {
        lemma_module_strings(cs);
    }
    strings
}

/// Literals that printing always needs, in the order they are added.
pub open spec fn runtime_literals() -> Seq<Seq<char>> {
    seq![
        "%s"@, "\"%s\""@, "%lld"@, "%llu"@, "%g"@, "%d"@, "%c"@, "'%c'"@, " "@, ","@, ", "@,
        ", ..."@, "\n"@, "{"@, "}"@, "["@, "]"@, "("@, ")"@, ": "@, "\""@, "'"@, "  "@, "    "@,
        ",\n"@, " ⟨array⟩"@, " ⟨array["@, " ⟨set["@, " ⟨tuple["@, "]⟩"@, " ⟨object⟩"@, " ⟨tuple⟩"@,
        " ⟨string⟩"@, " ⟨number⟩"@, " ⟨bool⟩"@, " ⟨char⟩"@, " ⟨u8⟩"@, " ⟨u16⟩"@, " ⟨u32⟩"@,
        " ⟨u64⟩"@, " ⟨u128⟩"@, " ⟨i8⟩"@, " ⟨i16⟩"@, " ⟨i32⟩"@, " ⟨i64⟩"@, " ⟨i128⟩"@, " ⟨f32⟩"@,
        " ⟨f64⟩"@, "\x1b[0m"@, "\x1b[38;2;78;201;176m"@, "\x1b[38;2;181;206;168m"@,
        "\x1b[38;2;206;145;120m"@, "\x1b[38;2;86;156;214m"@, "true"@, "false"@, "null"@, "sep"@,
        "end"@, "file"@, "color"@, "background"@, "bold"@, "italic"@, "underline"@,
        "strikethrough"@, "flush"@, "pretty"@,
    ]
}

fn runtime_literal_table() -> (t: [&'static str; 67])
    ensures
        t@.map_values(|s: &str| s@) == runtime_literals(),
{
    let t = [
        "%s", "\"%s\"", "%lld", "%llu", "%g", "%d", "%c", "'%c'", " ", ",", ", ", ", ...", "\n",
        "{", "}", "[", "]", "(", ")", ": ", "\"", "'", "  ", "    ", ",\n", " ⟨array⟩", " ⟨array[",
        " ⟨set[", " ⟨tuple[", "]⟩", " ⟨object⟩", " ⟨tuple⟩", " ⟨string⟩", " ⟨number⟩", " ⟨bool⟩",
        " ⟨char⟩", " ⟨u8⟩", " ⟨u16⟩", " ⟨u32⟩", " ⟨u64⟩", " ⟨u128⟩", " ⟨i8⟩", " ⟨i16⟩", " ⟨i32⟩",
        " ⟨i64⟩", " ⟨i128⟩", " ⟨f32⟩", " ⟨f64⟩", "\x1b[0m", "\x1b[38;2;78;201;176m",
        "\x1b[38;2;181;206;168m", "\x1b[38;2;206;145;120m", "\x1b[38;2;86;156;214m", "true",
        "false", "null", "sep", "end", "file", "color", "background", "bold", "italic",
        "underline", "strikethrough", "flush", "pretty",
    ];
    assert(t@.map_values(|s: &str| s@) =~= runtime_literals());
    t
}

/// Escape sequences for reset, bold, italic, underline and strikethrough.
pub open spec fn style_codes() -> Seq<Seq<char>> {
    seq![
        "\x1b[0m"@, "\x1b[1m"@, "\x1b[3m"@, "\x1b[4m"@, "\x1b[9m"@,
    ]
}

fn style_code_table() -> (t: [&'static str; 5])
    ensures
        t@.map_values(|s: &str| s@) == style_codes(),
{
    let t = [
        "\x1b[0m", "\x1b[1m", "\x1b[3m", "\x1b[4m", "\x1b[9m",
    ];
    assert(t@.map_values(|s: &str| s@) =~= style_codes());
    t
}

/// Type names that printing spells out.
pub open spec fn type_words() -> Seq<Seq<char>> {
    seq![
        "true"@, "false"@, "number"@, "int"@, "float"@, "bool"@, "string"@, "pointer"@, "unknown"@,
        "u8"@, "u16"@, "u32"@, "u64"@, "u128"@, "i8"@, "i16"@, "i32"@, "i64"@, "i128"@, "f32"@,
        "f64"@, "null"@, "undefined"@,
    ]
}

fn type_word_table() -> (t: [&'static str; 23])
    ensures
        t@.map_values(|s: &str| s@) == type_words(),
{
    let t = [
        "true", "false", "number", "int", "float", "bool", "string", "pointer", "unknown", "u8",
        "u16", "u32", "u64", "u128", "i8", "i16", "i32", "i64", "i128", "f32", "f64", "null",
        "undefined",
    ];
    assert(t@.map_values(|s: &str| s@) =~= type_words());
    t
}


/// Where a data-section string comes from: a string of the module, one of
/// the three printf formats, or a literal the runtime printing needs. It
/// decides how errors name the string.
#[derive(Debug, Clone, Copy, PartialEq, Eq, Structural)]
pub enum StringOrigin {
    Module,
    Format,
    Runtime,
}

/// A string to place in the data section, with the object name it must
/// have when the name is fixed.
#[derive(Debug, Clone)]
pub struct DataRequest {
    pub key: String,
    pub fixed_name: Option<String>,
    pub origin: StringOrigin,
}

/// A data object to declare: the string it holds, its name, its bytes and
/// where it comes from.
#[derive(Debug, Clone)]
pub struct DataEntry {
    pub key: String,
    pub name: String,
    pub bytes: Vec<u8>,
    pub origin: StringOrigin,
}

/// Plain view of a request.
pub open spec fn request_view(r: DataRequest) -> (Seq<char>, Option<Seq<char>>, StringOrigin) {
    (
        r.key@,
        match r.fixed_name {
            Some(n) => Some(n@),
            None => None,
        },
        r.origin,
    )
}

/// Plain view of an entry: its key, name and origin.
pub open spec fn entry_view(e: DataEntry) -> (Seq<char>, Seq<char>, StringOrigin) {
    (e.key@, e.name@, e.origin)
}

/// Requests for `names`, without fixed names.
pub open spec fn as_requests(names: Seq<Seq<char>>, origin: StringOrigin) -> Seq<
    (Seq<char>, Option<Seq<char>>, StringOrigin),
> {
    names.map_values(|s: Seq<char>| (s, None::<Seq<char>>, origin))
}

/// The printf formats for integers, floats and strings, with their names.
pub open spec fn format_requests() -> Seq<(Seq<char>, Option<Seq<char>>, StringOrigin)> {
    seq![
        ("%lld\n"@, Some("fmt_int"@), StringOrigin::Format),
        ("%g\n"@, Some("fmt_float"@), StringOrigin::Format),
        ("%s\n"@, Some("fmt_str"@), StringOrigin::Format),
    ]
}

/// Everything a module's data section is asked to hold, in order: the
/// module's strings, the printf formats, the literals printing always
/// needs, and, unless compiling fast, the style codes and type names.
pub open spec fn data_requests(strings: Seq<Seq<char>>, fast_compile: bool) -> Seq<
    (Seq<char>, Option<Seq<char>>, StringOrigin),
> {
    as_requests(strings, StringOrigin::Module) + format_requests() + as_requests(
        runtime_literals(),
        StringOrigin::Runtime,
    ) + (if fast_compile {
        Seq::empty()
    } else {
        as_requests(style_codes() + type_words(), StringOrigin::Runtime)
    })
}

/// The data objects the requests give, starting from a table that holds
/// `keys`: a string already held is skipped; otherwise it gets its fixed
/// name, or `str_<n>` where `n` is the number of strings held so far.
/// Returns the strings held afterwards and the new objects in order.
pub open spec fn plan_from(
    keys: Seq<Seq<char>>,
    reqs: Seq<(Seq<char>, Option<Seq<char>>, StringOrigin)>,
) -> (Seq<Seq<char>>, Seq<(Seq<char>, Seq<char>, StringOrigin)>)
    decreases reqs.len(),
{
    if reqs.len() == 0 {
        (keys, Seq::empty())
    } else {
        let st = plan_from(keys, reqs.drop_last());
        let r = reqs.last();
        if st.0.contains(r.0) {
            st
        } else {
            let name = match r.1 {
                Some(n) => n,
                None => "str_"@ + decimal(st.0.len()),
            };
            (st.0.push(r.0), st.1.push((r.0, name, r.2)))
        }
    }
}

/// The bytes of a string without its NUL bytes.
pub open spec fn without_nul(b: Seq<u8>) -> Seq<u8>
    decreases b.len(),
{
    if b.len() == 0 {
        Seq::empty()
    } else if b.last() == 0 {
        without_nul(b.drop_last())
    } else {
        without_nul(b.drop_last()).push(b.last())
    }
}

/// What a string's data object holds: its UTF-8 bytes without NUL bytes,
/// then one NUL terminator.
pub open spec fn data_bytes(s: Seq<char>) -> Seq<u8> {
    without_nul(encode_utf8(s)).push(0)
}

/// The NUL-terminated bytes of a string, its own NUL bytes left out.
pub fn string_data_bytes(s: &str) -> (data: Vec<u8>)
    ensures
        data@ == data_bytes(s@),
{
    let b = s.as_bytes();
    let mut data: Vec<u8> = Vec::new();
    let mut i: usize = 0;
    while i < b.len()
        invariant
            i <= b@.len(),
            b@ == encode_utf8(s@),
            data@ == without_nul(b@.subrange(0, i as int)),
        decreases b.len() - i,
    {
        proof {
            let sub = b@.subrange(0, i + 1);
            assert(sub.drop_last() =~= b@.subrange(0, i as int));
            assert(sub.last() == b@[i as int]);
        }
        if b[i] != 0 {
            data.push(b[i]);
        }
        i = i + 1;
    }
    assert(b@.subrange(0, i as int) =~= b@);
    data.push(0);
    data
}

fn push_requests(v: &mut Vec<DataRequest>, names: &[&str], origin: StringOrigin)
    ensures
        final(v)@.map_values(|r: DataRequest| request_view(r)) == old(v)@.map_values(
            |r: DataRequest| request_view(r),
        ) + as_requests(names@.map_values(|s: &str| s@), origin),
{
    let ghost start = v@.map_values(|r: DataRequest| request_view(r));
    let mut i: usize = 0;
    while i < names.len()
        invariant
            i <= names@.len(),
            v@.map_values(|r: DataRequest| request_view(r)) == start + as_requests(
                names@.subrange(0, i as int).map_values(|s: &str| s@),
                origin,
            ),
        decreases names.len() - i,
    {
        let ghost before = v@;
        v.push(DataRequest { key: owned(names[i]), fixed_name: None, origin });
        assert(v@.map_values(|r: DataRequest| request_view(r)) =~= before.map_values(
            |r: DataRequest| request_view(r),
        ).push((names@[i as int]@, None, origin)));
        assert(as_requests(names@.subrange(0, i + 1).map_values(|s: &str| s@), origin) =~= as_requests(
            names@.subrange(0, i as int).map_values(|s: &str| s@),
            origin,
        ).push((names@[i as int]@, None, origin)));
        i = i + 1;
    }
    assert(names@.subrange(0, i as int) =~= names@);
}

/// The requests for a module's strings, in order (see `data_requests`).
pub fn data_request_list(strings: &Vec<String>, fast_compile: bool) -> (v: Vec<DataRequest>)
    ensures
        v@.map_values(|r: DataRequest| request_view(r)) == data_requests(strings_view(strings@), fast_compile),
{
    let mut v: Vec<DataRequest> = Vec::new();
    let mut i: usize = 0;
    while i < strings.len()
        invariant
            i <= strings@.len(),
            v@.map_values(|r: DataRequest| request_view(r)) == as_requests(
                strings_view(strings@.subrange(0, i as int)),
                StringOrigin::Module,
            ),
        decreases strings.len() - i,
    {
        let ghost before = v@;
        v.push(DataRequest { key: owned(strings[i].as_str()), fixed_name: None, origin: StringOrigin::Module });
        assert(v@.map_values(|r: DataRequest| request_view(r)) =~= before.map_values(
            |r: DataRequest| request_view(r),
        ).push((strings@[i as int]@, None, StringOrigin::Module)));
        assert(as_requests(strings_view(strings@.subrange(0, i + 1)), StringOrigin::Module) =~= as_requests(
            strings_view(strings@.subrange(0, i as int)),
            StringOrigin::Module,
        ).push((strings@[i as int]@, None, StringOrigin::Module)));
        i = i + 1;
    }
    assert(strings@.subrange(0, i as int) =~= strings@);
    let ghost after_module = v@.map_values(|r: DataRequest| request_view(r));
    v.push(DataRequest { key: owned("%lld\n"), fixed_name: Some(owned("fmt_int")), origin: StringOrigin::Format });
    v.push(DataRequest { key: owned("%g\n"), fixed_name: Some(owned("fmt_float")), origin: StringOrigin::Format });
    v.push(DataRequest { key: owned("%s\n"), fixed_name: Some(owned("fmt_str")), origin: StringOrigin::Format });
    assert(v@.map_values(|r: DataRequest| request_view(r)) =~= after_module + format_requests());
    let literals = runtime_literal_table();
    push_requests(&mut v, literals.as_slice(), StringOrigin::Runtime);
    let ghost after_literals = v@.map_values(|r: DataRequest| request_view(r));
    if !fast_compile {
        let codes = style_code_table();
        push_requests(&mut v, codes.as_slice(), StringOrigin::Runtime);
        let words = type_word_table();
        push_requests(&mut v, words.as_slice(), StringOrigin::Runtime);
        assert(as_requests(style_codes() + type_words(), StringOrigin::Runtime) =~= as_requests(
            style_codes(),
            StringOrigin::Runtime,
        ) + as_requests(type_words(), StringOrigin::Runtime));
        assert(v@.map_values(|r: DataRequest| request_view(r)) =~= after_literals + as_requests(
            style_codes() + type_words(),
            StringOrigin::Runtime,
        ));
    } else {
        assert(v@.map_values(|r: DataRequest| request_view(r)) =~= after_literals + Seq::empty());
    }
    v
}

/// Copies of a list of strings.
fn copy_strings(v: &Vec<String>) -> (r: Vec<String>)
    ensures
        strings_view(r@) == strings_view(v@),
{
    let mut r: Vec<String> = Vec::new();
    let mut i: usize = 0;
    while i < v.len()
        invariant
            i <= v@.len(),
            strings_view(r@) == strings_view(v@.subrange(0, i as int)),
        decreases v.len() - i,
    {
        let ghost before = r@;
        r.push(owned(v[i].as_str()));
        assert(strings_view(r@) =~= strings_view(before).push(v@[i as int]@));
        assert(strings_view(v@.subrange(0, i + 1)) =~= strings_view(v@.subrange(0, i as int)).push(
            v@[i as int]@,
        ));
        i = i + 1;
    }
    assert(v@.subrange(0, i as int) =~= v@);
    r
}

/// The data objects to declare for `strings` when the table already holds
/// `existing`: each with its key, name, bytes (see `data_bytes`) and
/// origin, in order (see `plan_from` and `data_requests`).
pub fn plan_string_data(existing: &Vec<String>, strings: &Vec<String>, fast_compile: bool) -> (entries: Vec<DataEntry>)
    ensures
        entries@.map_values(|e: DataEntry| entry_view(e)) == plan_from(
            strings_view(existing@),
            data_requests(strings_view(strings@), fast_compile),
        ).1,
        forall|i: int| 0 <= i < entries@.len() ==> #[trigger] entries@[i].bytes@ == data_bytes(entries@[i].key@),
{
    let reqs = data_request_list(strings, fast_compile);
    let ghost rv = reqs@.map_values(|r: DataRequest| request_view(r));
    let ghost k0 = strings_view(existing@);
    let mut keys = copy_strings(existing);
    let mut entries: Vec<DataEntry> = Vec::new();
    let mut i: usize = 0;
    proof {
        reveal_strlit("str_");
    }
    while i < reqs.len()
        invariant
            i <= reqs@.len(),
            rv == reqs@.map_values(|r: DataRequest| request_view(r)),
            rv.len() == reqs@.len(),
            strings_view(keys@) == plan_from(k0, rv.subrange(0, i as int)).0,
            entries@.map_values(|e: DataEntry| entry_view(e)) == plan_from(k0, rv.subrange(0, i as int)).1,
            forall|j: int| 0 <= j < entries@.len() ==> #[trigger] entries@[j].bytes@ == data_bytes(entries@[j].key@),
        decreases reqs.len() - i,
    {
        let r = &reqs[i];
        let ghost sub = rv.subrange(0, i + 1);
        proof {
            assert(sub.drop_last() =~= rv.subrange(0, i as int));
            assert(sub.last() == request_view(*r));
        }
        if !contains_text(&keys, r.key.as_str()) {
            let name = match &r.fixed_name {
                Some(n) => owned(n.as_str()),
                None => {
                    let n = decimal_string(keys.len() as u64);
                    concat("str_", n.as_str())
                },
            };
            let bytes = string_data_bytes(r.key.as_str());
            let ghost before_keys = keys@;
            let ghost before_entries = entries@;
            keys.push(owned(r.key.as_str()));
            entries.push(DataEntry { key: owned(r.key.as_str()), name, bytes, origin: r.origin });
            proof {
                assert(strings_view(keys@) =~= strings_view(before_keys).push(r.key@));
                assert(entries@.map_values(|e: DataEntry| entry_view(e)) =~= before_entries.map_values(
                    |e: DataEntry| entry_view(e),
                ).push((r.key@, name@, r.origin)));
                assert forall|j: int| 0 <= j < entries@.len() implies #[trigger] entries@[j].bytes@ == data_bytes(
                    entries@[j].key@,
                ) by {
                    if j < before_entries.len() {
                        assert(entries@[j] == before_entries[j]);
                    }
                }
            }
        }
        i = i + 1;
    }
    assert(rv.subrange(0, i as int) =~= rv);
    entries
}

/// A table that already holds every requested string gets no new data
/// object: placing the same strings a second time declares nothing.
pub proof fn lemma_plan_nothing_new(keys: Seq<Seq<char>>, reqs: Seq<(Seq<char>, Option<Seq<char>>, StringOrigin)>)
    requires
        forall|i: int| 0 <= i < reqs.len() ==> keys.contains(#[trigger] reqs[i].0),
    ensures
        plan_from(keys, reqs).0 == keys,
        plan_from(keys, reqs).1.len() == 0,
    decreases reqs.len(),
{
    if reqs.len() > 0 {
        assert forall|i: int| 0 <= i < reqs.drop_last().len() implies keys.contains(#[trigger] reqs.drop_last()[i].0) by {
            assert(reqs.drop_last()[i] == reqs[i]);
        }
        lemma_plan_nothing_new(keys, reqs.drop_last());
        assert(keys.contains(reqs[reqs.len() - 1].0));
    }
}

/// Planning never declares a string the table already holds or a string
/// twice: the strings held afterwards are those before, then the new
/// objects' strings, with no string twice when there was none before.
pub proof fn lemma_plan_keys(keys: Seq<Seq<char>>, reqs: Seq<(Seq<char>, Option<Seq<char>>, StringOrigin)>)
    requires
        no_duplicates(keys),
    ensures
        plan_from(keys, reqs).0 == keys + plan_from(keys, reqs).1.map_values(
            |e: (Seq<char>, Seq<char>, StringOrigin)| e.0,
        ),
        no_duplicates(plan_from(keys, reqs).0),
        forall|i: int| 0 <= i < reqs.len() ==> plan_from(keys, reqs).0.contains(#[trigger] reqs[i].0),
    decreases reqs.len(),
{
    if reqs.len() > 0 {
        let st = plan_from(keys, reqs.drop_last());
        lemma_plan_keys(keys, reqs.drop_last());
        let r = reqs.last();
        if !st.0.contains(r.0) {
            lemma_add_unique(st.0, r.0);
            let name = match r.1 {
                Some(n) => n,
                None => "str_"@ + decimal(st.0.len()),
            };
            assert(st.1.push((r.0, name, r.2)).map_values(|e: (Seq<char>, Seq<char>, StringOrigin)| e.0)
                =~= st.1.map_values(|e: (Seq<char>, Seq<char>, StringOrigin)| e.0).push(r.0));
        }
        assert forall|i: int| 0 <= i < reqs.len() implies plan_from(keys, reqs).0.contains(#[trigger] reqs[i].0) by {
            if i < reqs.len() - 1 {
                assert(reqs.drop_last()[i] == reqs[i]);
                assert(st.0.contains(reqs[i].0));
                if !st.0.contains(r.0) {
                    lemma_add_unique(st.0, r.0);
                }
            } else if !st.0.contains(r.0) {
                assert(st.0.push(r.0)[st.0.len() as int] == r.0);
            }
        }
    }
}

} // verus!
