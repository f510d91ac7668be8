//! Lexicographic order on character sequences and an insertion sort for lists of
//! names in that order (the order in which `sort` puts Rust strings: UTF-8 keeps the
//! order of code points, so comparing bytes and comparing characters agree).

use vstd::prelude::*;

use crate::chars::chars_of;

verus! {

broadcast use vstd::seq_lib::group_to_multiset_ensures;

/// `a` comes no later than `b`: compared character by character by code point, a proper
/// prefix first.
pub open spec fn chars_le(a: Seq<char>, b: Seq<char>) -> bool
    decreases a.len(),
{
    if a.len() == 0 {
        true
    } else if b.len() == 0 {
        false
    } else if a[0] != b[0] {
        a[0] < b[0]
    } else {
        chars_le(a.drop_first(), b.drop_first())
    }
}

/// Each name comes no later than every name after it.
pub open spec fn is_sorted(s: Seq<Seq<char>>) -> bool {
    forall|i: int, j: int| 0 <= i < j < s.len() ==> chars_le(#[trigger] s[i], #[trigger] s[j])
}

/// The character sequences that a list of strings holds.
pub open spec fn views(s: Seq<String>) -> Seq<Seq<char>> {
    s.map_values(|x: String| x@)
}

/// Any two sequences are ordered one way or the other.
pub proof fn lemma_chars_le_total(a: Seq<char>, b: Seq<char>)
    ensures
        chars_le(a, b) || chars_le(b, a),
    decreases a.len(),
{
    if a.len() > 0 && b.len() > 0 && a[0] == b[0] {
        lemma_chars_le_total(a.drop_first(), b.drop_first());
    }
}

/// The order is transitive.
pub proof fn lemma_chars_le_transitive(a: Seq<char>, b: Seq<char>, c: Seq<char>)
    requires
        chars_le(a, b),
        chars_le(b, c),
    ensures
        chars_le(a, c),
    decreases a.len(),
{
    if a.len() > 0 && b.len() > 0 && c.len() > 0 && a[0] == b[0] && b[0] == c[0] {
        lemma_chars_le_transitive(a.drop_first(), b.drop_first(), c.drop_first());
    }
}

/// The order is antisymmetric: sequences ordered both ways are equal.
pub proof fn lemma_chars_le_antisymmetric(a: Seq<char>, b: Seq<char>)
    requires
        chars_le(a, b),
        chars_le(b, a),
    ensures
        a == b,
    decreases a.len(),
{
    if a.len() > 0 && b.len() > 0 {
        lemma_chars_le_antisymmetric(a.drop_first(), b.drop_first());
        assert(a == seq![a[0]] + a.drop_first());
        assert(b == seq![b[0]] + b.drop_first());
    } else {
        assert(a =~= b);
    }
}

/// Decides whether `a` comes strictly before `b`.
pub fn chars_less(a: &[char], b: &[char]) -> (r: bool)
    ensures
        r == !chars_le(b@, a@),
{
    let mut i: usize = 0;
    assert(a@.skip(0) == a@);
    assert(b@.skip(0) == b@);
    while i < a.len() && i < b.len()
        invariant
            i <= a@.len(),
            i <= b@.len(),
            chars_le(b@, a@) == chars_le(b@.skip(i as int), a@.skip(i as int)),
        decreases a@.len() - i,
    {
        if a[i] != b[i] {
            assert(b@.skip(i as int)[0] == b@[i as int]);
            assert(a@.skip(i as int)[0] == a@[i as int]);
            return a[i] < b[i];
        }
        assert(b@.skip(i as int).drop_first() == b@.skip(i + 1));
        assert(a@.skip(i as int).drop_first() == a@.skip(i + 1));
        i = i + 1;
    }
    i < b.len()
}

/// Sorts a list of names into lexicographic order.
pub fn sort_strings(v: Vec<String>) -> (r: Vec<String>)
    ensures
        is_sorted(views(r@)),
        views(r@).to_multiset() == views(v@).to_multiset(),
{
    let ghost orig = v@;
    let mut rest = v;
    let mut out: Vec<String> = Vec::new();
    let mut keys: Vec<Vec<char>> = Vec::new();
    while rest.len() > 0
        invariant
            keys@.len() == out@.len(),
            forall|k: int| 0 <= k < out@.len() ==> (#[trigger] keys@[k])@ == out@[k]@,
            is_sorted(views(out@)),
            views(out@).to_multiset().add(views(rest@).to_multiset()) == views(
                orig,
            ).to_multiset(),
        decreases rest@.len(),
    {
        let ghost before_rest = rest@;
        let x = rest.pop().unwrap();
        assert(before_rest == rest@.push(x));
        assert(views(before_rest) == views(rest@).push(x@));
        let key = chars_of(x.as_str());
        let mut j: usize = 0;
        while j < out.len() && !chars_less(key.as_slice(), keys[j].as_slice())
            invariant
                j <= out@.len(),
                keys@.len() == out@.len(),
                forall|k: int| 0 <= k < out@.len() ==> (#[trigger] keys@[k])@ == out@[k]@,
                key@ == x@,
                forall|k: int| 0 <= k < j ==> chars_le(#[trigger] views(out@)[k], x@),
            decreases out@.len() - j,
        {
            assert(views(out@)[j as int] == keys@[j as int]@);
            j = j + 1;
        }
        proof {
            if j < out@.len() {
                assert(views(out@)[j as int] == keys@[j as int]@);
                lemma_chars_le_total(x@, views(out@)[j as int]);
                assert(chars_le(x@, views(out@)[j as int]));
            }
        }
        let ghost old_out = views(out@);
        out.insert(j, x);
        keys.insert(j, key);
        assert(views(out@) == old_out.insert(j as int, x@));
        proof {
            let s = views(out@);
            assert forall|a: int, b: int| 0 <= a < b < s.len() implies chars_le(
                #[trigger] s[a],
                #[trigger] s[b],
            ) by {
                if a < j && b == j {
                } else if a == j && b > j {
                    if b - 1 > j {
                        lemma_chars_le_transitive(x@, old_out[j as int], old_out[b - 1]);
                    }
                } else if a < j && b > j {
                } else if a > j {
                } else {
                }
            }
            assert forall|k: int| 0 <= k < out@.len() implies (#[trigger] keys@[k])@
                == out@[k]@ by {
            }
        }
    }
    assert(views(rest@) =~= Seq::<Seq<char>>::empty());
    out
}

} // verus!
