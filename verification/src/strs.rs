//! Small verified helpers for building owned strings and argument lists.

use vstd::prelude::*;
use vstd::string::StringExecFns;

verus! {

/// The character sequences held by a list of owned strings.
pub open spec fn strings_view(v: Seq<String>) -> Seq<Seq<char>> {
    v.map_values(|s: String| s@)
}

/// Each item wrapped between `prefix` and `suffix`, in order.
pub open spec fn affixed(prefix: Seq<char>, items: Seq<Seq<char>>, suffix: Seq<char>) -> Seq<Seq<char>> {
    items.map_values(|s: Seq<char>| prefix + s + suffix)
}

/// Owned copy of a string slice.
pub fn owned(s: &str) -> (r: String)
    ensures
        r@ == s@,
{
    String::from_str(s)
}

/// `a` followed by `b`.
pub fn concat(a: &str, b: &str) -> (r: String)
    ensures
        r@ == a@ + b@,
{
    let mut r = String::from_str(a);
    r.append(b);
    r
}

/// `a`, `b` and `c` one after the other.
pub fn concat3(a: &str, b: &str, c: &str) -> (r: String)
    ensures
        r@ == a@ + b@ + c@,
{
    let mut r = String::from_str(a);
    r.append(b);
    r.append(c);
    r
}

/// Appends an owned string to an argument list.
pub fn push_owned(v: &mut Vec<String>, s: String)
    ensures
        strings_view(final(v)@) == strings_view(old(v)@).push(s@),
{
    let ghost before = v@;
    v.push(s);
    assert(v@ =~= before.push(s));
    assert(strings_view(v@) =~= strings_view(before).push(s@));
}

/// Appends a copy of `s` to an argument list.
pub fn push_str(v: &mut Vec<String>, s: &str)
    ensures
        strings_view(final(v)@) == strings_view(old(v)@).push(s@),
{
    push_owned(v, owned(s));
}

/// Appends `prefix + item + suffix` for every item, keeping their order.
pub fn push_affixed(v: &mut Vec<String>, prefix: &str, items: &Vec<String>, suffix: &str)
    ensures
        strings_view(final(v)@) == strings_view(old(v)@) + affixed(prefix@, strings_view(items@), suffix@),
{
    let ghost start = strings_view(v@);
    let mut i: usize = 0;
    while i < items.len()
        invariant
            i <= items@.len(),
            strings_view(v@) == start + affixed(
                prefix@,
                strings_view(items@.subrange(0, i as int)),
                suffix@,
            ),
        decreases items.len() - i,
    {
        let s = concat3(prefix, items[i].as_str(), suffix);
        push_owned(v, s);
        assert(strings_view(items@.subrange(0, i + 1)) =~= strings_view(
            items@.subrange(0, i as int),
        ).push(items@[i as int]@));
        assert(affixed(prefix@, strings_view(items@.subrange(0, i + 1)), suffix@) =~= affixed(
            prefix@,
            strings_view(items@.subrange(0, i as int)),
            suffix@,
        ).push(prefix@ + items@[i as int]@ + suffix@));
        i = i + 1;
    }
    assert(items@.subrange(0, i as int) =~= items@);
}

/// Appends every item, keeping their order.
pub fn push_all(v: &mut Vec<String>, items: &Vec<String>)
    ensures
        strings_view(final(v)@) == strings_view(old(v)@) + strings_view(items@),
{
    push_affixed(v, "", items, "");
    assert(affixed(""@, strings_view(items@), ""@) =~= strings_view(items@)) by {
        assert forall|k: int| 0 <= k < items@.len() implies ""@ + items@[k]@ + ""@ == items@[k]@ by {
            assert(""@ + items@[k]@ + ""@ =~= items@[k]@) by {
                reveal_strlit("");
            }
        }
    }
}

/// Whether `needle` occurs as a contiguous part of `hay`.
pub open spec fn contains_seq(hay: Seq<char>, needle: Seq<char>) -> bool {
    exists|k: int| 0 <= k && k + needle.len() <= hay.len() && #[trigger] hay.subrange(k, k + needle.len()) == needle
}

/// Whether `hay` starts with `prefix`.
pub open spec fn starts_with_seq(hay: Seq<char>, prefix: Seq<char>) -> bool {
    prefix.len() <= hay.len() && hay.subrange(0, prefix.len() as int) == prefix
}

fn matches_at(hay: &Vec<char>, needle: &Vec<char>, k: usize) -> (r: bool)
    requires
        k + needle@.len() <= hay@.len(),
    ensures
        r == (hay@.subrange(k as int, k + needle@.len()) == needle@),
{
    let mut j: usize = 0;
    let hl = hay.len();
    while j < needle.len()
        invariant
            hl == hay@.len(),
            j <= needle@.len(),
            k + needle@.len() <= hay@.len(),
            forall|t: int| 0 <= t < j ==> hay@[k + t] == needle@[t],
        decreases needle.len() - j,
    {
        assert(k + j < hay@.len());
        let idx: usize = k + j;
        if hay[idx] != needle[j] {
            assert(hay@.subrange(k as int, k + needle@.len())[j as int] != needle@[j as int]);
            return false;
        }
        j = j + 1;
    }
    assert(hay@.subrange(k as int, k + needle@.len()) =~= needle@);
    true
}

/// The characters of a string slice, in order.
pub fn chars_of(s: &str) -> (r: Vec<char>)
    ensures
        r@ == s@,
{
    let mut r: Vec<char> = Vec::new();
    let n = s.unicode_len();
    let mut i: usize = 0;
    while i < n
        invariant
            n == s@.len(),
            i <= n,
            r@ == s@.subrange(0, i as int),
        decreases n - i,
    {
        r.push(s.get_char(i));
        assert(s@.subrange(0, i + 1) =~= s@.subrange(0, i as int).push(s@[i as int]));
        i = i + 1;
    }
    assert(s@.subrange(0, n as int) =~= s@);
    r
}

/// Whether `needle` occurs somewhere in `hay`.
pub fn str_contains(hay: &str, needle: &str) -> (r: bool)
    ensures
        r == contains_seq(hay@, needle@),
{
    let h = chars_of(hay);
    let n = chars_of(needle);
    if n.len() > h.len() {
        return false;
    }
    let mut k: usize = 0;
    let last: usize = h.len() - n.len();
    while k <= last
        invariant
            last == h@.len() - n@.len(),
            h@ == hay@,
            n@ == needle@,
            n@.len() <= h@.len(),
            k <= last + 1,
            forall|t: int| 0 <= t < k ==> #[trigger] hay@.subrange(t, t + needle@.len()) != needle@,
        decreases last + 1 - k,
    {
        if matches_at(&h, &n, k) {
            return true;
        }
        if k == last {
            return false;
        }
        k = k + 1;
    }
    false
}

/// Whether two string slices hold the same text.
pub fn str_eq(a: &str, b: &str) -> (r: bool)
    ensures
        r == (a@ == b@),
{
    let x = chars_of(a);
    let y = chars_of(b);
    if x.len() != y.len() {
        return false;
    }
    let r = matches_at(&x, &y, 0);
    assert(x@.subrange(0, y@.len() as int) =~= x@);
    r
}

/// Whether `hay` starts with `prefix`.
pub fn str_starts_with(hay: &str, prefix: &str) -> (r: bool)
    ensures
        r == starts_with_seq(hay@, prefix@),
{
    let h = chars_of(hay);
    let p = chars_of(prefix);
    if p.len() > h.len() {
        return false;
    }
    matches_at(&h, &p, 0)
}

} // verus!

verus! {

/// The decimal digit character for `d` (below ten).
pub open spec fn digit_char(d: nat) -> char {
    if d == 0 { '0' } else if d == 1 { '1' } else if d == 2 { '2' } else if d == 3 { '3' } else if d == 4 {
        '4'
    } else if d == 5 { '5' } else if d == 6 { '6' } else if d == 7 { '7' } else if d == 8 { '8' } else {
        '9'
    }
}

/// The decimal text of `n`, without leading zeros ("0" for zero).
pub open spec fn decimal(n: nat) -> Seq<char>
    decreases n,
{
    if n < 10 {
        seq![digit_char(n)]
    } else {
        decimal(n / 10) + seq![digit_char(n % 10)]
    }
}

fn digit_str(d: u8) -> (s: &'static str)
    requires
        d < 10,
    ensures
        s@ == seq![digit_char(d as nat)],
{
    proof {
        reveal_strlit("0");
        reveal_strlit("1");
        reveal_strlit("2");
        reveal_strlit("3");
        reveal_strlit("4");
        reveal_strlit("5");
        reveal_strlit("6");
        reveal_strlit("7");
        reveal_strlit("8");
        reveal_strlit("9");
    }
    match d {
        0 => "0",
        1 => "1",
        2 => "2",
        3 => "3",
        4 => "4",
        5 => "5",
        6 => "6",
        7 => "7",
        8 => "8",
        _ => "9",
    }
}

/// The decimal text of a number.
pub fn decimal_string(n: u64) -> (s: String)
    ensures
        s@ == decimal(n as nat),
    decreases n,
{
    if n < 10 {
        owned(digit_str(n as u8))
    } else {
        let head = decimal_string(n / 10);
        concat(head.as_str(), digit_str((n % 10) as u8))
    }
}

} // verus!
