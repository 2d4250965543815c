//! Character-level text utilities shared by the parsers of this crate.
//!
//! Strings are viewed as sequences of `char`s. The executable functions work
//! on `Vec<char>`, so that every index is a character position, and each one
//! is specified by a spec function over `Seq<char>`.

use vstd::prelude::*;
use vstd::string::*;

verus! {

/// Whether `c` has the Unicode property `White_Space`: the controls from
/// tab to carriage return, the blank, next line, the no-break space, the
/// ogham space mark, the spaces from en quad to hair space, the line and the
/// paragraph separator, the narrow no-break space, the medium mathematical
/// space and the ideographic space.
pub open spec fn is_whitespace(c: char) -> bool {
    let n = c as u32;
    (0x9 <= n <= 0xd) || n == 0x20 || n == 0x85 || n == 0xa0 || n == 0x1680 || (0x2000 <= n
        <= 0x200a) || n == 0x2028 || n == 0x2029 || n == 0x202f || n == 0x205f || n == 0x3000
}

/// The upper-case mapping of `c`, as `char::to_uppercase` yields it: one or
/// more characters.
pub uninterp spec fn uppercase(c: char) -> Seq<char>;

/// `char::is_whitespace` tells whether a character has the Unicode property
/// `White_Space`, whose code points `is_whitespace` lists.
pub assume_specification[ char::is_whitespace ](c: char) -> (b: bool)
    ensures
        b == is_whitespace(c),
;

/// `String::push` appends one character to the end of the string.
pub assume_specification[ String::push ](s: &mut String, ch: char)
    ensures
        final(s)@ == old(s)@.push(ch),
;

/// The error of `core::str::from_utf8`, carried through and never read.
#[verifier::external_type_specification]
#[verifier::external_body]
pub struct ExUtf8Error(core::str::Utf8Error);

/// `core::str::from_utf8` turns bytes into a string slice exactly when they
/// are valid UTF-8, and the slice then has those bytes.
pub assume_specification[ core::str::from_utf8 ](v: &[u8]) -> (r: Result<
    &str,
    core::str::Utf8Error,
>)
    ensures
        r is Ok <==> vstd::utf8::valid_utf8(v@),
        r matches Ok(s) ==> s.spec_bytes() == v@,
;

/// `char::to_uppercase` yields the upper-case mapping of a character, here
/// collected into a vector. The mapping depends on the character alone.
#[verifier::external_body]
fn upper(c: char) -> (r: Vec<char>)
    ensures
        r@ == uppercase(c),
{
    c.to_uppercase().collect()
}

/// The position of the first `x` in `s`, or `s.len()` where there is none.
pub open spec fn first_index<T>(s: Seq<T>, x: T) -> nat
    decreases s.len(),
{
    if s.len() == 0 || s[0] == x {
        0
    } else {
        1 + first_index(s.skip(1), x)
    }
}

/// Whether `s` begins with `p`.
pub open spec fn starts_with(s: Seq<char>, p: Seq<char>) -> bool {
    p.len() <= s.len() && s.take(p.len() as int) == p
}

/// The two parts of `s` around its first `c`, if it has one.
pub open spec fn split_once(s: Seq<char>, c: char) -> Option<(Seq<char>, Seq<char>)> {
    let i = first_index(s, c) as int;
    if i < s.len() {
        Some((s.take(i), s.skip(i + 1)))
    } else {
        None
    }
}

/// `s` without its leading white space.
pub open spec fn trim_start(s: Seq<char>) -> Seq<char>
    decreases s.len(),
{
    if s.len() > 0 && is_whitespace(s[0]) {
        trim_start(s.skip(1))
    } else {
        s
    }
}

/// `s` without its trailing white space.
pub open spec fn trim_end(s: Seq<char>) -> Seq<char>
    decreases s.len(),
{
    if s.len() > 0 && is_whitespace(s.last()) {
        trim_end(s.drop_last())
    } else {
        s
    }
}

/// `s` without leading and trailing white space.
pub open spec fn trim(s: Seq<char>) -> Seq<char> {
    trim_end(trim_start(s))
}

/// `to`, then each character of `s` followed by `to`.
pub open spec fn interleave(s: Seq<char>, to: Seq<char>) -> Seq<char>
    decreases s.len(),
{
    if s.len() == 0 {
        to
    } else {
        to + seq![s[0]] + interleave(s.skip(1), to)
    }
}

/// `s` with every occurrence of `from` replaced by `to`. Occurrences are
/// found from the left and do not overlap. An empty `from` occurs before
/// every character and at the end.
pub open spec fn replace(s: Seq<char>, from: Seq<char>, to: Seq<char>) -> Seq<char>
    decreases s.len(),
{
    if from.len() == 0 {
        interleave(s, to)
    } else if s.len() < from.len() {
        s
    } else if starts_with(s, from) {
        to + replace(s.skip(from.len() as int), from, to)
    } else {
        seq![s[0]] + replace(s.skip(1), from, to)
    }
}

/// The words of `cur + s`, where `cur` is a word that has begun and holds no
/// white space.
pub open spec fn words_from(s: Seq<char>, cur: Seq<char>) -> Seq<Seq<char>>
    decreases s.len(),
{
    let done = if cur.len() > 0 {
        seq![cur]
    } else {
        Seq::<Seq<char>>::empty()
    };
    if s.len() == 0 {
        done
    } else if is_whitespace(s[0]) {
        done + words_from(s.skip(1), Seq::<char>::empty())
    } else {
        words_from(s.skip(1), cur.push(s[0]))
    }
}

/// The maximal runs of characters of `s` that are not white space, in order.
pub open spec fn words(s: Seq<char>) -> Seq<Seq<char>> {
    words_from(s, Seq::<char>::empty())
}

/// `s` with each `-` turned into `_`.
pub open spec fn underscored(s: Seq<char>) -> Seq<char> {
    s.map_values(|c: char| if c == '-' { '_' } else { c })
}

/// `s` in upper case.
pub open spec fn uppercased(s: Seq<char>) -> Seq<char>
    decreases s.len(),
{
    if s.len() == 0 {
        Seq::<char>::empty()
    } else {
        uppercase(s[0]) + uppercased(s.skip(1))
    }
}

/// The texts of `v`, in order.
pub open spec fn texts(v: Seq<String>) -> Seq<Seq<char>> {
    Seq::new(v.len(), |i: int| v[i]@)
}

/// The pairs of texts of `v`, in order.
pub open spec fn text_pairs(v: Seq<(String, String)>) -> Seq<(Seq<char>, Seq<char>)> {
    Seq::new(v.len(), |i: int| (v[i].0@, v[i].1@))
}

/// The characters of `s`, in order.
pub fn chars_of(s: &str) -> (v: Vec<char>)
    ensures
        v@ == s@,
{
    let mut v: Vec<char> = Vec::new();
    for c in it: s.chars()
        invariant
            it.seq() == s@,
            v@ == it.seq().take(it.index() as int),
    {
        v.push(c);
    }
    v
}

/// The string made of the characters `v[from..to]`.
pub fn string_between(v: &Vec<char>, from: usize, to: usize) -> (s: String)
    requires
        from <= to <= v.len(),
    ensures
        s@ == v@.subrange(from as int, to as int),
{
    let mut s = String::new();
    let mut i: usize = from;
    while i < to
        invariant
            from <= i <= to <= v.len(),
            s@ == v@.subrange(from as int, i as int),
        decreases to - i,
    {
        s.push(v[i]);
        i = i + 1;
    }
    s
}

/// The string made of the characters of `v`, in order.
pub fn string_of(v: &Vec<char>) -> (s: String)
    ensures
        s@ == v@,
{
    let s = string_between(v, 0, v.len());
    assert(v@.subrange(0, v.len() as int) == v@);
    s
}

/// A copy of `s`.
pub fn copy_of(s: &str) -> (r: String)
    ensures
        r@ == s@,
{
    let v = chars_of(s);
    string_of(&v)
}

/// Whether `a` and `b` hold the same characters.
pub fn same_chars(a: &Vec<char>, b: &Vec<char>) -> (r: bool)
    ensures
        r == (a@ == b@),
{
    if a.len() != b.len() {
        return false;
    }
    let mut i: usize = 0;
    while i < a.len()
        invariant
            a.len() == b.len(),
            i <= a.len(),
            a@.take(i as int) == b@.take(i as int),
        decreases a.len() - i,
    {
        if a[i] != b[i] {
            return false;
        }
        assert(a@.take(i + 1) == a@.take(i as int).push(a@[i as int]));
        assert(b@.take(i + 1) == b@.take(i as int).push(b@[i as int]));
        i = i + 1;
    }
    assert(a@.take(a.len() as int) == a@);
    assert(b@.take(b.len() as int) == b@);
    true
}

/// Whether `a` and `b` are the same text.
pub fn same_text(a: &str, b: &str) -> (r: bool)
    ensures
        r == (a@ == b@),
{
    let x = chars_of(a);
    let y = chars_of(b);
    same_chars(&x, &y)
}

/// Whether `p` stands in `s` at position `at`.
pub fn starts_with_at(s: &Vec<char>, at: usize, p: &Vec<char>) -> (r: bool)
    requires
        at <= s.len(),
    ensures
        r == starts_with(s@.skip(at as int), p@),
{
    if p.len() > s.len() - at {
        return false;
    }
    let ghost rest = s@.skip(at as int);
    let mut i: usize = 0;
    while i < p.len()
        invariant
            at <= s.len(),
            p.len() <= s.len() - at,
            rest == s@.skip(at as int),
            i <= p.len(),
            rest.take(i as int) == p@.take(i as int),
        decreases p.len() - i,
    {
        if s[at + i] != p[i] {
            assert(rest.take(p.len() as int)[i as int] != p@[i as int]);
            return false;
        }
        assert(rest.take(i + 1) == rest.take(i as int).push(rest[i as int]));
        assert(p@.take(i + 1) == p@.take(i as int).push(p@[i as int]));
        i = i + 1;
    }
    assert(p@.take(p.len() as int) == p@);
    true
}

/// Whether `s` begins with `p`.
pub fn has_prefix(s: &Vec<char>, p: &str) -> (r: bool)
    ensures
        r == starts_with(s@, p@),
{
    let pv = chars_of(p);
    assert(s@.skip(0) == s@);
    starts_with_at(s, 0, &pv)
}

/// The position of the first `x` in `s` at or after `from`, or the length of
/// `s`.
pub fn find_byte(s: &[u8], from: usize, x: u8) -> (i: usize)
    requires
        from <= s.len(),
    ensures
        from <= i <= s.len(),
        i == from + first_index(s@.skip(from as int), x),
{
    let mut i: usize = from;
    while i < s.len()
        invariant
            from <= i <= s.len(),
            first_index(s@.skip(from as int), x) == (i - from) + first_index(s@.skip(i as int), x),
        decreases s.len() - i,
    {
        if s[i] == x {
            return i;
        }
        assert(s@.skip(i as int).skip(1) == s@.skip(i + 1));
        i = i + 1;
    }
    i
}

/// The position of the first `c` in `s`, or the length of `s`.
pub fn find_char(s: &Vec<char>, c: char) -> (i: usize)
    ensures
        i <= s.len(),
        i == first_index(s@, c),
{
    let mut i: usize = 0;
    assert(s@.skip(0) == s@);
    while i < s.len()
        invariant
            i <= s.len(),
            first_index(s@, c) == i + first_index(s@.skip(i as int), c),
        decreases s.len() - i,
    {
        if s[i] == c {
            return i;
        }
        assert(s@.skip(i as int).skip(1) == s@.skip(i + 1));
        i = i + 1;
    }
    i
}

/// The characters `v[from..to]`.
pub fn slice_of(v: &Vec<char>, from: usize, to: usize) -> (r: Vec<char>)
    requires
        from <= to <= v.len(),
    ensures
        r@ == v@.subrange(from as int, to as int),
{
    let mut r: Vec<char> = Vec::new();
    let mut i: usize = from;
    while i < to
        invariant
            from <= i <= to <= v.len(),
            r@ == v@.subrange(from as int, i as int),
        decreases to - i,
    {
        r.push(v[i]);
        i = i + 1;
    }
    r
}

/// The two parts of `s` around its first `c`, if it has one.
pub fn split_at_first(s: &Vec<char>, c: char) -> (r: Option<(Vec<char>, Vec<char>)>)
    ensures
        r is Some <==> split_once(s@, c) is Some,
        r matches Some(p) ==> split_once(s@, c) == Some((p.0@, p.1@)),
{
    let i = find_char(s, c);
    if i < s.len() {
        Some((slice_of(s, 0, i), slice_of(s, i + 1, s.len())))
    } else {
        None
    }
}

/// `s` without its leading white space.
pub fn trimmed_start(s: &Vec<char>) -> (r: Vec<char>)
    ensures
        r@ == trim_start(s@),
{
    let mut i: usize = 0;
    assert(s@.skip(0) == s@);
    while i < s.len() && s[i].is_whitespace()
        invariant
            i <= s.len(),
            trim_start(s@) == trim_start(s@.skip(i as int)),
        decreases s.len() - i,
    {
        assert(s@.skip(i as int).skip(1) == s@.skip(i + 1));
        i = i + 1;
    }
    slice_of(s, i, s.len())
}

/// `s` without its trailing white space.
pub fn trimmed_end(s: &Vec<char>) -> (r: Vec<char>)
    ensures
        r@ == trim_end(s@),
{
    let mut n: usize = s.len();
    assert(s@.take(n as int) == s@);
    while n > 0 && s[n - 1].is_whitespace()
        invariant
            n <= s.len(),
            trim_end(s@) == trim_end(s@.take(n as int)),
        decreases n,
    {
        assert(s@.take(n as int).drop_last() == s@.take(n - 1));
        n = n - 1;
    }
    slice_of(s, 0, n)
}

/// `s` without leading and trailing white space.
pub fn trimmed(s: &Vec<char>) -> (r: Vec<char>)
    ensures
        r@ == trim(s@),
{
    let t = trimmed_start(s);
    trimmed_end(&t)
}

/// Appends the characters of `more` to `out`.
pub fn extend(out: &mut Vec<char>, more: &Vec<char>)
    ensures
        final(out)@ == old(out)@ + more@,
{
    let mut i: usize = 0;
    while i < more.len()
        invariant
            i <= more.len(),
            out@ == old(out)@ + more@.take(i as int),
        decreases more.len() - i,
    {
        out.push(more[i]);
        assert(more@.take(i + 1) == more@.take(i as int).push(more@[i as int]));
        i = i + 1;
    }
    assert(more@.take(more.len() as int) == more@);
}

/// `s` with every occurrence of `from` replaced by `to`.
pub fn replaced(s: &Vec<char>, from: &Vec<char>, to: &Vec<char>) -> (r: Vec<char>)
    ensures
        r@ == replace(s@, from@, to@),
{
    let mut out: Vec<char> = Vec::new();
    let mut i: usize = 0;
    assert(s@.skip(0) == s@);
    if from.len() == 0 {
        while i < s.len()
            invariant
                i <= s.len(),
                interleave(s@, to@) == out@ + interleave(s@.skip(i as int), to@),
            decreases s.len() - i,
        {
            extend(&mut out, to);
            out.push(s[i]);
            assert(s@.skip(i as int).skip(1) == s@.skip(i + 1));
            i = i + 1;
        }
        extend(&mut out, to);
        return out;
    }
    while i < s.len()
        invariant
            i <= s.len(),
            from.len() > 0,
            replace(s@, from@, to@) == out@ + replace(s@.skip(i as int), from@, to@),
        decreases s.len() - i,
    {
        if starts_with_at(s, i, from) {
            extend(&mut out, to);
            assert(s@.skip(i as int).skip(from.len() as int) == s@.skip(i + from.len()));
            i = i + from.len();
        } else {
            out.push(s[i]);
            assert(s@.skip(i as int).skip(1) == s@.skip(i + 1));
            i = i + 1;
        }
    }
    out
}

/// The maximal runs of characters of `s` that are not white space, in order.
pub fn split_words(s: &Vec<char>) -> (r: Vec<String>)
    ensures
        texts(r@) == words(s@),
{
    let mut out: Vec<String> = Vec::new();
    let mut cur: Vec<char> = Vec::new();
    let mut i: usize = 0;
    assert(s@.skip(0) == s@);
    assert(texts(out@) == Seq::<Seq<char>>::empty());
    while i < s.len()
        invariant
            i <= s.len(),
            words(s@) == texts(out@) + words_from(s@.skip(i as int), cur@),
        decreases s.len() - i,
    {
        assert(s@.skip(i as int).skip(1) == s@.skip(i + 1));
        let ghost rest = words_from(s@.skip(i + 1), Seq::<char>::empty());
        if s[i].is_whitespace() {
            if cur.len() > 0 {
                let ghost before = texts(out@);
                out.push(string_of(&cur));
                assert(texts(out@) == before + seq![cur@]);
                assert(before + (seq![cur@] + rest) == (before + seq![cur@]) + rest);
                cur = Vec::new();
            } else {
                assert(cur@ == Seq::<char>::empty());
                assert(Seq::<Seq<char>>::empty() + rest == rest);
            }
        } else {
            cur.push(s[i]);
        }
        i = i + 1;
    }
    if cur.len() > 0 {
        let ghost before = texts(out@);
        out.push(string_of(&cur));
        assert(texts(out@) == before + seq![cur@]);
    } else {
        assert(texts(out@) + Seq::<Seq<char>>::empty() == texts(out@));
    }
    out
}

/// `s` in upper case, with each `-` turned into `_`.
pub fn shouted(s: &Vec<char>) -> (r: Vec<char>)
    ensures
        r@ == underscored(uppercased(s@)),
{
    let mut out: Vec<char> = Vec::new();
    let mut i: usize = 0;
    assert(s@.skip(0) == s@);
    while i < s.len()
        invariant
            i <= s.len(),
            uppercased(s@) == uppercased(s@.take(i as int)) + uppercased(s@.skip(i as int)),
            out@ == underscored(uppercased(s@.take(i as int))),
        decreases s.len() - i,
    {
        let up = upper(s[i]);
        let mut k: usize = 0;
        let ghost before = out@;
        while k < up.len()
            invariant
                k <= up.len(),
                out@ == before + underscored(up@.take(k as int)),
            decreases up.len() - k,
        {
            let c = up[k];
            out.push(if c == '-' { '_' } else { c });
            assert(up@.take(k + 1) == up@.take(k as int).push(up@[k as int]));
            k = k + 1;
        }
        assert(up@.take(up.len() as int) == up@);
        proof {
            lemma_uppercased_push(s@.take(i as int), s@[i as int]);
            assert(s@.take(i as int).push(s@[i as int]) == s@.take(i + 1));
            assert(s@.skip(i as int).skip(1) == s@.skip(i + 1));
        }
        i = i + 1;
    }
    assert(s@.take(s.len() as int) == s@);
    out
}

/// A copy of the strings of `v`.
pub fn copy_strings(v: &Vec<String>) -> (r: Vec<String>)
    ensures
        texts(r@) == texts(v@),
{
    let mut out: Vec<String> = Vec::new();
    let mut i: usize = 0;
    while i < v.len()
        invariant
            i <= v.len(),
            out.len() == i,
            forall|j: int| 0 <= j < i ==> out[j]@ == v[j]@,
        decreases v.len() - i,
    {
        out.push(v[i].clone());
        i = i + 1;
    }
    assert(texts(out@) =~= texts(v@));
    out
}

/// A copy of the pairs of strings of `v`.
pub fn copy_pairs(v: &Vec<(String, String)>) -> (r: Vec<(String, String)>)
    ensures
        text_pairs(r@) == text_pairs(v@),
{
    let mut out: Vec<(String, String)> = Vec::new();
    let mut i: usize = 0;
    while i < v.len()
        invariant
            i <= v.len(),
            out.len() == i,
            forall|j: int| 0 <= j < i ==> out[j].0@ == v[j].0@ && out[j].1@ == v[j].1@,
        decreases v.len() - i,
    {
        out.push((v[i].0.clone(), v[i].1.clone()));
        i = i + 1;
    }
    assert(text_pairs(out@) =~= text_pairs(v@));
    out
}

/// A copy of an optional string.
pub fn copy_option(o: &Option<String>) -> (r: Option<String>)
    ensures
        crate::path::opt_text(r) == crate::path::opt_text(*o),
{
    match o {
        Some(s) => Some(s.clone()),
        None => None,
    }
}

/// The value of the first pair of `pairs` whose key is `key`.
pub open spec fn lookup(pairs: Seq<(Seq<char>, Seq<char>)>, key: Seq<char>) -> Option<Seq<char>>
    decreases pairs.len(),
{
    if pairs.len() == 0 {
        None
    } else if pairs[0].0 == key {
        Some(pairs[0].1)
    } else {
        lookup(pairs.skip(1), key)
    }
}

/// The value of the first pair of `pairs` whose key is `key`.
pub fn find_value(pairs: &Vec<(String, String)>, key: &str) -> (r: Option<String>)
    ensures
        crate::path::opt_text(r) == lookup(text_pairs(pairs@), key@),
{
    let mut i: usize = 0;
    assert(text_pairs(pairs@).skip(0) == text_pairs(pairs@));
    while i < pairs.len()
        invariant
            i <= pairs.len(),
            lookup(text_pairs(pairs@), key@) == lookup(text_pairs(pairs@).skip(i as int), key@),
        decreases pairs.len() - i,
    {
        if same_text(pairs[i].0.as_str(), key) {
            return Some(pairs[i].1.clone());
        }
        assert(text_pairs(pairs@).skip(i as int).skip(1) == text_pairs(pairs@).skip(i + 1));
        i = i + 1;
    }
    None
}

/// Whether `name` is one of the items of `cur + s`, which are separated by
/// commas; `cur` is an item that has begun.
pub open spec fn listed_from(s: Seq<char>, cur: Seq<char>, name: Seq<char>) -> bool
    decreases s.len(),
{
    if s.len() == 0 {
        cur == name
    } else if s[0] == ',' {
        cur == name || listed_from(s.skip(1), Seq::<char>::empty(), name)
    } else {
        listed_from(s.skip(1), cur.push(s[0]), name)
    }
}

/// Whether `name` is one of the items of the comma-separated list `s`.
pub open spec fn listed(s: Seq<char>, name: Seq<char>) -> bool {
    listed_from(s, Seq::<char>::empty(), name)
}

/// Whether `name` is one of the items of the comma-separated list `s`.
pub fn is_listed(s: &Vec<char>, name: &Vec<char>) -> (b: bool)
    ensures
        b == listed(s@, name@),
{
    let mut cur: Vec<char> = Vec::new();
    let mut i: usize = 0;
    assert(s@.skip(0) == s@);
    while i < s.len()
        invariant
            i <= s.len(),
            listed(s@, name@) == listed_from(s@.skip(i as int), cur@, name@),
        decreases s.len() - i,
    {
        assert(s@.skip(i as int).skip(1) == s@.skip(i + 1));
        if s[i] == ',' {
            if same_chars(&cur, name) {
                return true;
            }
            cur = Vec::new();
        } else {
            cur.push(s[i]);
        }
        i = i + 1;
    }
    same_chars(&cur, name)
}

/// Appends `s` to `v`.
pub fn push_text(v: &mut Vec<String>, s: String)
    ensures
        texts(final(v)@) == texts(old(v)@).push(s@),
{
    v.push(s);
    assert(texts(v@) =~= texts(old(v)@).push(s@));
}

/// Appends the pair of `a` and `b` to `v`.
pub fn push_pair(v: &mut Vec<(String, String)>, a: String, b: String)
    ensures
        text_pairs(final(v)@) == text_pairs(old(v)@).push((a@, b@)),
{
    v.push((a, b));
    assert(text_pairs(v@) =~= text_pairs(old(v)@).push((a@, b@)));
}

/// Appends the strings of `more` to `v`.
pub fn push_texts(v: &mut Vec<String>, more: &Vec<String>)
    ensures
        texts(final(v)@) == texts(old(v)@) + texts(more@),
{
    let mut i: usize = 0;
    while i < more.len()
        invariant
            i <= more.len(),
            v.len() == old(v).len() + i,
            forall|j: int| 0 <= j < old(v).len() ==> v[j]@ == old(v)[j]@,
            forall|j: int| 0 <= j < i ==> v[old(v).len() + j]@ == more[j]@,
        decreases more.len() - i,
    {
        v.push(more[i].clone());
        i = i + 1;
    }
    assert(texts(v@) =~= texts(old(v)@) + texts(more@));
}

/// The text that the bytes `bytes` encode, if they are valid UTF-8.
pub open spec fn decoded(bytes: Seq<u8>) -> Option<Seq<char>> {
    if vstd::utf8::valid_utf8(bytes) {
        Some(vstd::utf8::decode_utf8(bytes))
    } else {
        None
    }
}

/// The characters that the bytes `bytes` encode, if they are valid UTF-8.
pub fn decode(bytes: &[u8]) -> (r: Option<Vec<char>>)
    ensures
        r is Some <==> decoded(bytes@) is Some,
        r matches Some(v) ==> decoded(bytes@) == Some(v@),
{
    match core::str::from_utf8(bytes) {
        Ok(s) => {
            proof {
                vstd::utf8::encode_utf8_decode_utf8(s@);
            }
            Some(chars_of(s))
        },
        Err(_) => None,
    }
}

/// Whether `v` holds the text `lit`.
pub fn is_text(v: &Vec<char>, lit: &str) -> (b: bool)
    ensures
        b == (v@ == lit@),
{
    let l = chars_of(lit);
    same_chars(v, &l)
}

/// Appends the pairs of `more` to `v`.
pub fn push_pairs(v: &mut Vec<(String, String)>, more: &Vec<(String, String)>)
    ensures
        text_pairs(final(v)@) == text_pairs(old(v)@) + text_pairs(more@),
{
    let mut i: usize = 0;
    while i < more.len()
        invariant
            i <= more.len(),
            v.len() == old(v).len() + i,
            forall|j: int|
                0 <= j < old(v).len() ==> v[j].0@ == old(v)[j].0@ && v[j].1@ == old(v)[j].1@,
            forall|j: int|
                0 <= j < i ==> v[old(v).len() + j].0@ == more[j].0@ && v[old(v).len() + j].1@
                    == more[j].1@,
        decreases more.len() - i,
    {
        v.push((more[i].0.clone(), more[i].1.clone()));
        i = i + 1;
    }
    assert(text_pairs(v@) =~= text_pairs(old(v)@) + text_pairs(more@));
}

/// `s` with each `-` turned into `_`.
pub fn with_underscores(s: &str) -> (r: String)
    ensures
        r@ == underscored(s@),
{
    let v = chars_of(s);
    let mut out: Vec<char> = Vec::new();
    let mut i: usize = 0;
    while i < v.len()
        invariant
            i <= v.len(),
            out.len() == i,
            forall|j: int| 0 <= j < i ==> out[j] == (if v[j] == '-' {
                '_'
            } else {
                v[j]
            }),
        decreases v.len() - i,
    {
        out.push(if v[i] == '-' { '_' } else { v[i] });
        i = i + 1;
    }
    assert(out@ =~= underscored(v@));
    string_of(&out)
}

/// The first text of `list` that begins with `prefix`.
pub open spec fn first_with_prefix(list: Seq<Seq<char>>, prefix: Seq<char>) -> Option<Seq<char>>
    decreases list.len(),
{
    if list.len() == 0 {
        None
    } else if starts_with(list[0], prefix) {
        Some(list[0])
    } else {
        first_with_prefix(list.skip(1), prefix)
    }
}

/// The position of the first string of `list` that begins with `prefix`.
pub fn find_with_prefix(list: &Vec<String>, prefix: &str) -> (r: Option<usize>)
    ensures
        r is Some <==> first_with_prefix(texts(list@), prefix@) is Some,
        r matches Some(i) ==> i < list.len() && first_with_prefix(texts(list@), prefix@) == Some(
            list[i as int]@,
        ),
{
    let mut i: usize = 0;
    assert(texts(list@).skip(0) == texts(list@));
    while i < list.len()
        invariant
            i <= list.len(),
            first_with_prefix(texts(list@), prefix@) == first_with_prefix(
                texts(list@).skip(i as int),
                prefix@,
            ),
        decreases list.len() - i,
    {
        if has_prefix(&chars_of(list[i].as_str()), prefix) {
            return Some(i);
        }
        assert(texts(list@).skip(i as int).skip(1) == texts(list@).skip(i + 1));
        i = i + 1;
    }
    None
}

/// The first `x` of `s` stands at `n` if `x` stands there and nowhere before.
pub proof fn lemma_first_index_at<T>(s: Seq<T>, x: T, n: int)
    requires
        0 <= n < s.len(),
        s[n] == x,
        forall|j: int| 0 <= j < n ==> s[j] != x,
    ensures
        first_index(s, x) == n,
    decreases n,
{
    if n > 0 {
        assert(s[0] != x);
        assert forall|j: int| 0 <= j < n - 1 implies s.skip(1)[j] != x by {
            assert(s.skip(1)[j] == s[j + 1]);
        }
        lemma_first_index_at(s.skip(1), x, n - 1);
    }
}

/// Where `x` stands nowhere in `s`, the search for it ends at the length of
/// `s`.
pub proof fn lemma_first_index_absent<T>(s: Seq<T>, x: T)
    requires
        forall|j: int| 0 <= j < s.len() ==> s[j] != x,
    ensures
        first_index(s, x) == s.len(),
    decreases s.len(),
{
    if s.len() > 0 {
        assert(s[0] != x);
        assert forall|j: int| 0 <= j < s.skip(1).len() implies s.skip(1)[j] != x by {
            assert(s.skip(1)[j] == s[j + 1]);
        }
        lemma_first_index_absent(s.skip(1), x);
    }
}

/// A text that is put together from a key without `c`, then `c`, then a
/// value, splits at its first `c` into the key and the value.
pub proof fn lemma_split_once_joined(key: Seq<char>, c: char, value: Seq<char>)
    requires
        forall|j: int| 0 <= j < key.len() ==> key[j] != c,
    ensures
        split_once(key + seq![c] + value, c) == Some((key, value)),
{
    let s = key + seq![c] + value;
    let n = key.len() as int;
    assert(s[n] == c);
    assert forall|j: int| 0 <= j < n implies s[j] != c by {
        assert(s[j] == key[j]);
    }
    lemma_first_index_at(s, c, n);
    assert(s.take(n) =~= key);
    assert(s.skip(n + 1) =~= value);
}

/// Upper-casing goes character by character: a character added at the end
/// adds its mapping at the end.
pub proof fn lemma_uppercased_push(s: Seq<char>, c: char)
    ensures
        uppercased(s.push(c)) == uppercased(s) + uppercase(c),
    decreases s.len(),
{
    if s.len() == 0 {
        reveal_with_fuel(uppercased, 2);
        assert(s.push(c).skip(1) == Seq::<char>::empty());
        assert(uppercased(s.push(c)) == uppercase(c) + Seq::<char>::empty());
        assert(uppercased(s) + uppercase(c) == uppercase(c));
    } else {
        assert(s.push(c).skip(1) == s.skip(1).push(c));
        assert(s.push(c)[0] == s[0]);
        lemma_uppercased_push(s.skip(1), c);
        assert(uppercased(s.push(c)) == uppercase(s[0]) + (uppercased(s.skip(1)) + uppercase(c)));
    }
}

/// Text without its trailing white space has no trailing white space.
pub proof fn lemma_trim_end_twice(s: Seq<char>)
    ensures
        trim_end(trim_end(s)) == trim_end(s),
    decreases s.len(),
{
    if s.len() > 0 && is_whitespace(s.last()) {
        lemma_trim_end_twice(s.drop_last());
    }
}

/// White space is trimmed from the end of a text only as far as a character
/// that is none: behind a text `head` that ends in such a character, only
/// `tail` is trimmed.
pub proof fn lemma_trim_end_behind(head: Seq<char>, tail: Seq<char>)
    requires
        head.len() > 0,
        !is_whitespace(head.last()),
    ensures
        trim_end(head + tail) == head + trim_end(tail),
    decreases tail.len(),
{
    let all = head + tail;
    if tail.len() == 0 {
        assert(all =~= head);
        assert(head + trim_end(tail) =~= head);
    } else {
        assert(all.last() == tail.last());
        if is_whitespace(tail.last()) {
            assert(all.drop_last() =~= head + tail.drop_last());
            lemma_trim_end_behind(head, tail.drop_last());
        }
    }
}

/// The bytes of the UTF-8 encoding of a scalar value that is no line feed:
/// none of them is the byte of a line feed.
proof fn lemma_scalar_bytes(v: u32)
    by (bit_vector)
    ensures
        v <= 0x7F && v != 10 ==> (v & 0x7F) as u8 != 10u8,
        0xC0u8 | ((v >> 6) & 0x1F) as u8 != 10u8,
        0xE0u8 | ((v >> 12) & 0x0F) as u8 != 10u8,
        0xF0u8 | ((v >> 18) & 0x7) as u8 != 10u8,
        0x80u8 | (v & 0x3F) as u8 != 10u8,
        0x80u8 | ((v >> 6) & 0x3F) as u8 != 10u8,
        0x80u8 | ((v >> 12) & 0x3F) as u8 != 10u8,
{
}

/// A line stays a line. The UTF-8 encoding of a text without a line feed
/// holds no byte of a line feed.
pub proof fn lemma_encoded_line(text: Seq<char>)
    requires
        !text.contains('\n'),
    ensures
        !vstd::utf8::encode_utf8(text).contains(10u8),
    decreases text.len(),
{
    if text.len() > 0 {
        let first = text[0] as u32;
        let rest = text.drop_first();
        assert(text.contains(text[0]));
        vstd::utf8::char_is_scalar(text[0]);
        if first == 10 {
            vstd::utf8::char_u32_cast(text[0], first);
            assert(10u32 as char == '\n');
        }
        assert forall|j: int| 0 <= j < rest.len() implies rest[j] != '\n' by {
            assert(text.contains(text[j + 1]));
        }
        lemma_encoded_line(rest);
        lemma_scalar_bytes(first);
        let head = vstd::utf8::encode_scalar(first);
        let tail = vstd::utf8::encode_utf8(rest);
        assert forall|j: int| 0 <= j < head.len() implies head[j] != 10u8 by {}
        assert forall|j: int| 0 <= j < (head + tail).len() implies (head + tail)[j] != 10u8 by {
            if j >= head.len() {
                assert(tail.contains(tail[j - head.len()]));
            }
        }
    }
}

/// Whether `s` is a word: text without white space.
pub open spec fn is_word(s: Seq<char>) -> bool {
    s.len() > 0 && forall|j: int| 0 <= j < s.len() ==> !is_whitespace(#[trigger] s[j])
}

/// Text without white space at the head of `s` goes on the word that has
/// begun.
pub proof fn lemma_words_from_word(w: Seq<char>, rest: Seq<char>, cur: Seq<char>)
    requires
        forall|j: int| 0 <= j < w.len() ==> !is_whitespace(#[trigger] w[j]),
    ensures
        words_from(w + rest, cur) == words_from(rest, cur + w),
    decreases w.len(),
{
    if w.len() == 0 {
        assert(w + rest =~= rest);
        assert(cur + w =~= cur);
    } else {
        assert((w + rest)[0] == w[0]);
        assert((w + rest).skip(1) =~= w.skip(1) + rest);
        assert forall|j: int| 0 <= j < w.skip(1).len() implies !is_whitespace(
            #[trigger] w.skip(1)[j],
        ) by {
            assert(w.skip(1)[j] == w[j + 1]);
        }
        lemma_words_from_word(w.skip(1), rest, cur.push(w[0]));
        assert(cur.push(w[0]) + w.skip(1) =~= cur + w);
    }
}

/// Two words with a blank between them are trimmed to themselves and split
/// into the two.
pub proof fn lemma_two_words(a: Seq<char>, b: Seq<char>)
    requires
        is_word(a),
        is_word(b),
    ensures
        trim(a + seq![' '] + b) == a + seq![' '] + b,
        words(a + seq![' '] + b) == seq![a, b],
{
    let s = a + seq![' '] + b;
    assert(s[0] == a[0]);
    assert(s.last() == b[b.len() - 1]);
    let none = Seq::<char>::empty();
    let tail = seq![' '] + b;
    assert(s =~= a + tail);
    lemma_words_from_word(a, tail, none);
    assert(none + a =~= a);
    assert(tail[0] == ' ');
    assert(tail.skip(1) =~= b);
    lemma_words_from_word(b, none, none);
    assert(b + none =~= b);
    assert(none + b =~= b);
    assert(seq![a] + seq![b] =~= seq![a, b]);
}

/// Whether the text `from` occurs in `s`.
pub open spec fn occurs_in(from: Seq<char>, s: Seq<char>) -> bool {
    exists|i: int| 0 <= i <= s.len() - from.len() && #[trigger] s.subrange(i, i + from.len()) == from
}

/// Text in which `from` does not occur stays as it is when `from` is
/// replaced.
pub proof fn lemma_replace_absent(s: Seq<char>, from: Seq<char>, to: Seq<char>)
    requires
        from.len() > 0,
        !occurs_in(from, s),
    ensures
        replace(s, from, to) == s,
    decreases s.len(),
{
    if s.len() >= from.len() {
        let first: int = 0;
        assert(s.take(from.len() as int) =~= s.subrange(first, first + from.len()));
        assert(!starts_with(s, from));
        let rest = s.skip(1);
        assert forall|i: int| 0 <= i <= rest.len() - from.len() implies #[trigger] rest.subrange(
            i,
            i + from.len(),
        ) != from by {
            assert(rest.subrange(i, i + from.len()) =~= s.subrange(i + 1, i + 1 + from.len()));
        }
        lemma_replace_absent(rest, from, to);
        assert(seq![s[0]] + rest =~= s);
    }
}

} // verus!
