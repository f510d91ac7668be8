//! Character classes and the conversions between `str`, `String` and character
//! sequences that the name handling of the library is written against.

use vstd::prelude::*;
use vstd::string::StrSliceExecFns;

verus! {

/// `String::push` appends one character at the end (std documentation of `String::push`).
pub assume_specification[ String::push ](s: &mut String, ch: char)
    ensures
        final(s)@ == old(s)@.push(ch),
;

/// The Unicode `White_Space` property, the whitespace that `str::trim` removes.
pub open spec fn is_white_space(c: char) -> bool {
    let u = c as u32;
    ||| 0x09 <= u <= 0x0D
    ||| u == 0x20
    ||| u == 0x85
    ||| u == 0xA0
    ||| u == 0x1680
    ||| 0x2000 <= u <= 0x200A
    ||| u == 0x2028
    ||| u == 0x2029
    ||| u == 0x202F
    ||| u == 0x205F
    ||| u == 0x3000
}

/// The Unicode general category `Cc` (control codes), as `char::is_control` reads it.
pub open spec fn is_control(c: char) -> bool {
    let u = c as u32;
    u <= 0x1F || (0x7F <= u <= 0x9F)
}

/// Decides [`is_white_space`].
pub fn white_space(c: char) -> (b: bool)
    ensures
        b == is_white_space(c),
{
    let u = c as u32;
    (0x09 <= u && u <= 0x0D) || u == 0x20 || u == 0x85 || u == 0xA0 || u == 0x1680 || (0x2000
        <= u && u <= 0x200A) || u == 0x2028 || u == 0x2029 || u == 0x202F || u == 0x205F || u
        == 0x3000
}

/// Decides [`is_control`].
pub fn control(c: char) -> (b: bool)
    ensures
        b == is_control(c),
{
    let u = c as u32;
    u <= 0x1F || (0x7F <= u && u <= 0x9F)
}

/// Drops the leading characters that satisfy `p`.
pub open spec fn trim_start(s: Seq<char>, p: spec_fn(char) -> bool) -> Seq<char>
    decreases s.len(),
{
    if s.len() > 0 && p(s[0]) {
        trim_start(s.drop_first(), p)
    } else {
        s
    }
}

/// Drops the trailing characters that satisfy `p`.
pub open spec fn trim_end(s: Seq<char>, p: spec_fn(char) -> bool) -> Seq<char>
    decreases s.len(),
{
    if s.len() > 0 && p(s.last()) {
        trim_end(s.drop_last(), p)
    } else {
        s
    }
}

/// Drops the characters that satisfy `p` at both ends.
pub open spec fn trim(s: Seq<char>, p: spec_fn(char) -> bool) -> Seq<char> {
    trim_end(trim_start(s, p), p)
}

/// `trim_start` keeps a suffix of the input, which starts with a character outside `p`.
pub proof fn lemma_trim_start_is_suffix(s: Seq<char>, p: spec_fn(char) -> bool)
    ensures
        trim_start(s, p).len() <= s.len(),
        trim_start(s, p) == s.subrange(s.len() - trim_start(s, p).len(), s.len() as int),
        trim_start(s, p).len() > 0 ==> !p(trim_start(s, p)[0]),
    decreases s.len(),
{
    if s.len() > 0 && p(s[0]) {
        lemma_trim_start_is_suffix(s.drop_first(), p);
        assert(s.drop_first().subrange(
            s.drop_first().len() - trim_start(s, p).len(),
            s.drop_first().len() as int,
        ) == s.subrange(s.len() - trim_start(s, p).len(), s.len() as int));
    } else {
        assert(s.subrange(0, s.len() as int) == s);
    }
}

/// `trim_end` keeps a prefix of the input, which ends with a character outside `p`.
pub proof fn lemma_trim_end_is_prefix(s: Seq<char>, p: spec_fn(char) -> bool)
    ensures
        trim_end(s, p).len() <= s.len(),
        trim_end(s, p) == s.subrange(0, trim_end(s, p).len() as int),
        trim_end(s, p).len() > 0 ==> !p(trim_end(s, p).last()),
    decreases s.len(),
{
    if s.len() > 0 && p(s.last()) {
        lemma_trim_end_is_prefix(s.drop_last(), p);
        assert(s.drop_last().subrange(0, trim_end(s, p).len() as int) == s.subrange(
            0,
            trim_end(s, p).len() as int,
        ));
    } else {
        assert(s.subrange(0, s.len() as int) == s);
    }
}

/// Trimming keeps a contiguous piece of the input, with no character of `p` at either end.
pub proof fn lemma_trim_is_infix(s: Seq<char>, p: spec_fn(char) -> bool)
    ensures
        exists|a: int|
            0 <= a && a + trim(s, p).len() <= s.len() && #[trigger] s.subrange(
                a,
                a + trim(s, p).len(),
            ) == trim(s, p),
        trim(s, p).len() > 0 ==> !p(trim(s, p)[0]) && !p(trim(s, p).last()),
{
    let t = trim_start(s, p);
    lemma_trim_start_is_suffix(s, p);
    lemma_trim_end_is_prefix(t, p);
    let a = s.len() - t.len();
    let r = trim(s, p);
    assert(s.subrange(a, a + r.len()) == r);
    if r.len() > 0 {
        assert(r[0] == t[0]);
    }
}

/// Every character of a trimmed sequence comes from the input.
pub proof fn lemma_trim_chars_from_input(s: Seq<char>, p: spec_fn(char) -> bool, i: int)
    requires
        0 <= i < trim(s, p).len(),
    ensures
        exists|k: int| 0 <= k < s.len() && s[k] == #[trigger] trim(s, p)[i],
{
    lemma_trim_is_infix(s, p);
    let r = trim(s, p);
    let a = choose|a: int| 0 <= a && a + r.len() <= s.len() && #[trigger] s.subrange(a, a + r.len()) == r;
    assert(s[a + i] == s.subrange(a, a + r.len())[i]);
}

/// The characters of a string slice, in order.
pub fn chars_of(s: &str) -> (v: Vec<char>)
    ensures
        v@ == s@,
{
    let n = s.unicode_len();
    let mut v: Vec<char> = Vec::new();
    let mut i: usize = 0;
    while i < n
        invariant
            n == s@.len(),
            i <= n,
            v@ == s@.take(i as int),
        decreases n - i,
    {
        let c = s.get_char(i);
        v.push(c);
        i = i + 1;
        assert(v@ == s@.take(i as int));
    }
    assert(s@.take(n as int) == s@);
    v
}

/// A `String` holding the given characters.
pub fn string_of(v: &[char]) -> (s: String)
    ensures
        s@ == v@,
{
    let mut s = String::new();
    let mut i: usize = 0;
    while i < v.len()
        invariant
            i <= v@.len(),
            s@ == v@.take(i as int),
        decreases v@.len() - i,
    {
        s.push(v[i]);
        i = i + 1;
        assert(s@ == v@.take(i as int));
    }
    assert(v@.take(v@.len() as int) == v@);
    s
}

/// The character classes that the library trims at both ends of a name.
#[derive(Clone, Copy)]
pub enum TrimClass {
    /// Unicode whitespace, as `str::trim` removes it.
    WhiteSpace,
    /// Full stops and spaces, as `trim_matches(['.', ' '])` removes them.
    DotOrSpace,
}

/// Whether `c` is in the class `k`.
pub open spec fn in_class(k: TrimClass, c: char) -> bool {
    match k {
        TrimClass::WhiteSpace => is_white_space(c),
        TrimClass::DotOrSpace => c == '.' || c == ' ',
    }
}

/// The class `k` as a predicate.
pub open spec fn class_pred(k: TrimClass) -> spec_fn(char) -> bool {
    |c: char| in_class(k, c)
}

/// What `str::trim` gives back.
pub open spec fn trim_white_space(s: Seq<char>) -> Seq<char> {
    trim(s, class_pred(TrimClass::WhiteSpace))
}

/// Decides [`in_class`].
pub fn is_in_class(k: TrimClass, c: char) -> (b: bool)
    ensures
        b == in_class(k, c),
{
    match k {
        TrimClass::WhiteSpace => white_space(c),
        TrimClass::DotOrSpace => c == '.' || c == ' ',
    }
}

/// The slice without the characters of class `k` at either end.
pub fn trim_class(v: &[char], k: TrimClass) -> (r: Vec<char>)
    ensures
        r@ == trim(v@, class_pred(k)),
{
    let ghost p = class_pred(k);
    let n = v.len();
    let mut start: usize = 0;
    assert(v@.subrange(0, n as int) == v@);
    while start < n && is_in_class(k, v[start])
        invariant
            n == v@.len(),
            start <= n,
            p == class_pred(k),
            trim_start(v@, p) == trim_start(v@.subrange(start as int, n as int), p),
        decreases n - start,
    {
        assert(v@.subrange(start as int, n as int).drop_first() == v@.subrange(
            start + 1,
            n as int,
        ));
        start = start + 1;
    }
    let mut end: usize = n;
    let ghost t = v@.subrange(start as int, n as int);
    assert(trim_start(v@, p) == t);
    while end > start && is_in_class(k, v[end - 1])
        invariant
            start <= end <= n,
            n == v@.len(),
            p == class_pred(k),
            t == v@.subrange(start as int, n as int),
            trim_start(v@, p) == t,
            trim_end(t, p) == trim_end(v@.subrange(start as int, end as int), p),
        decreases end,
    {
        assert(v@.subrange(start as int, end as int).drop_last() == v@.subrange(
            start as int,
            end - 1,
        ));
        end = end - 1;
    }
    let mut r: Vec<char> = Vec::new();
    let mut i: usize = start;
    while i < end
        invariant
            start <= i <= end <= n,
            n == v@.len(),
            r@ == v@.subrange(start as int, i as int),
        decreases end - i,
    {
        r.push(v[i]);
        i = i + 1;
        assert(r@ == v@.subrange(start as int, i as int));
    }
    r
}

/// Character-by-character equality of two slices.
pub fn str_eq(a: &str, b: &str) -> (r: bool)
    ensures
        r == (a@ == b@),
{
    let x = chars_of(a);
    let y = chars_of(b);
    if x.len() != y.len() {
        return false;
    }
    let mut i: usize = 0;
    while i < x.len()
        invariant
            x@ == a@,
            y@ == b@,
            x@.len() == y@.len(),
            i <= x@.len(),
            forall|k: int| 0 <= k < i ==> x@[k] == y@[k],
        decreases x@.len() - i,
    {
        if x[i] != y[i] {
            return false;
        }
        i = i + 1;
    }
    assert(x@ =~= y@);
    true
}

} // verus!
