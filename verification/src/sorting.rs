//! Lexicographic order on strings (by code point, which for UTF-8 encoded
//! text agrees with byte order) and insertion sort, used for the sorted
//! lists the panels display.

use vstd::multiset::Multiset;
use vstd::prelude::*;

verus! {

/// Strict lexicographic order by code point.
pub open spec fn lex_lt(a: Seq<char>, b: Seq<char>) -> bool
    decreases a.len(),
{
    if b.len() == 0 {
        false
    } else if a.len() == 0 {
        true
    } else if (a[0] as u32) < (b[0] as u32) {
        true
    } else if (b[0] as u32) < (a[0] as u32) {
        false
    } else {
        lex_lt(a.drop_first(), b.drop_first())
    }
}

/// Non-strict: less-than or equal.
pub open spec fn lex_le(a: Seq<char>, b: Seq<char>) -> bool {
    lex_lt(a, b) || a == b
}

proof fn lemma_char_eq(a: char, b: char)
    requires
        (a as u32) == (b as u32),
    ensures
        a == b,
{
    vstd::utf8::char_u32_cast(a, a as u32);
    vstd::utf8::char_u32_cast(b, b as u32);
}

pub proof fn lemma_lex_lt_trans(a: Seq<char>, b: Seq<char>, c: Seq<char>)
    requires
        lex_lt(a, b),
        lex_lt(b, c),
    ensures
        lex_lt(a, c),
    decreases a.len(),
{
    if c.len() == 0 {
    } else if b.len() == 0 {
    } else if a.len() == 0 {
    } else {
        if (a[0] as u32) == (b[0] as u32) && (b[0] as u32) == (c[0] as u32) {
            lemma_char_eq(a[0], b[0]);
            lemma_char_eq(b[0], c[0]);
            lemma_lex_lt_trans(a.drop_first(), b.drop_first(), c.drop_first());
        }
    }
}

/// Two strings with neither below the other are equal.
pub proof fn lemma_lex_lt_connected(a: Seq<char>, b: Seq<char>)
    requires
        !lex_lt(a, b),
        !lex_lt(b, a),
    ensures
        a == b,
    decreases a.len(),
{
    if a.len() == 0 || b.len() == 0 {
        assert(a =~= b);
    } else {
        lemma_char_eq(a[0], b[0]);
        lemma_lex_lt_connected(a.drop_first(), b.drop_first());
        assert(a =~= seq![a[0]] + a.drop_first());
        assert(b =~= seq![b[0]] + b.drop_first());
    }
}

/// Compare two strings in lexicographic order, starting at position `i`.
fn str_lt_from(a: &str, b: &str, i: usize) -> (r: bool)
    requires
        i <= a@.len(),
        i <= b@.len(),
    ensures
        r == lex_lt(a@.skip(i as int), b@.skip(i as int)),
    decreases a@.len() - i,
{
    let bn = b.unicode_len();
    let an = a.unicode_len();
    if i == bn {
        false
    } else if i == an {
        true
    } else {
        let ca = a.get_char(i) as u32;
        let cb = b.get_char(i) as u32;
        proof {
            assert(a@.skip(i as int)[0] == a@[i as int]);
            assert(b@.skip(i as int)[0] == b@[i as int]);
            assert(a@.skip(i as int).drop_first() =~= a@.skip(i + 1 as int));
            assert(b@.skip(i as int).drop_first() =~= b@.skip(i + 1 as int));
        }
        if ca < cb {
            true
        } else if cb < ca {
            false
        } else {
            str_lt_from(a, b, i + 1)
        }
    }
}

/// Strict lexicographic comparison of two strings.
pub fn str_lt(a: &str, b: &str) -> (r: bool)
    ensures
        r == lex_lt(a@, b@),
{
    proof {
        assert(a@.skip(0) =~= a@);
        assert(b@.skip(0) =~= b@);
    }
    str_lt_from(a, b, 0)
}

/// The sequence is sorted, smallest first; equal neighbours allowed.
pub open spec fn sorted_le(v: Seq<Seq<char>>) -> bool {
    forall|i: int, j: int| 0 <= i < j < v.len() ==> lex_le(#[trigger] v[i], #[trigger] v[j])
}

/// The sequence is strictly sorted: sorted and free of duplicates.
pub open spec fn sorted_lt(v: Seq<Seq<char>>) -> bool {
    forall|i: int, j: int| 0 <= i < j < v.len() ==> lex_lt(#[trigger] v[i], #[trigger] v[j])
}

/// Insert `s` into a strictly sorted vector, keeping it strictly sorted; a
/// string already present is not inserted again.
pub fn insert_sorted_unique(v: &mut Vec<String>, s: String)
    requires
        sorted_lt(old(v).deep_view()),
    ensures
        sorted_lt(final(v).deep_view()),
        final(v).deep_view().to_set() == old(v).deep_view().to_set().insert(s@),
{
    let n = v.len();
    let mut i: usize = 0;
    while i < n && str_lt(v[i].as_str(), s.as_str())
        invariant
            n == v@.len(),
            i <= n,
            forall|j: int| 0 <= j < i ==> lex_lt(#[trigger] v.deep_view()[j], s@),
        decreases n - i,
    {
        i = i + 1;
    }
    if i < n {
        if !str_lt(s.as_str(), v[i].as_str()) {
            proof {
                lemma_lex_lt_connected(v.deep_view()[i as int], s@);
                assert(v.deep_view().to_set().contains(s@));
                assert(v.deep_view().to_set() =~= v.deep_view().to_set().insert(s@));
            }
            return ;
        }
    }
    let ghost pre = v.deep_view();
    v.insert(i, s);
    proof {
        let post = v.deep_view();
        assert(post.len() == pre.len() + 1);
        assert forall|k: int| 0 <= k < post.len() implies post[k] == (if k < i {
            pre[k]
        } else if k == i {
            s@
        } else {
            pre[k - 1]
        }) by {
            assert(v@ == old(v)@.insert(i as int, s));
        }
        assert forall|p: int, q: int| 0 <= p < q < post.len() implies lex_lt(post[p], post[q]) by {
            if p < i && q == i {
            } else if p == i && q > i {
                assert(post[q] == pre[q - 1]);
                if i < pre.len() {
                    if q - 1 == i {
                    } else {
                        assert(lex_lt(pre[i as int], pre[q - 1]));
                        lemma_lex_lt_trans(s@, pre[i as int], pre[q - 1]);
                    }
                }
            } else if p < i && q > i {
                if p < i && i < pre.len() {
                }
            }
        }
        assert forall|x: Seq<char>|
            post.to_set().contains(x) <==> pre.to_set().insert(s@).contains(x) by {
            if post.to_set().contains(x) {
                let k = choose|k: int| 0 <= k < post.len() && post[k] == x;
                if k < i {
                    assert(pre[k] == x);
                } else if k > i {
                    assert(pre[k - 1] == x);
                }
            }
            if pre.contains(x) {
                let k = choose|k: int| 0 <= k < pre.len() && pre[k] == x;
                if k < i {
                    assert(post[k] == x);
                } else {
                    assert(post[k + 1] == x);
                }
            }
            if x == s@ {
                assert(post[i as int] == x);
            }
        }
        assert(post.to_set() =~= pre.to_set().insert(s@));
    }
}

/// Insert `s` in front of the first element not below it, keeping the
/// vector sorted; duplicates are kept.
pub fn insert_sorted(v: &mut Vec<String>, s: String)
    requires
        sorted_le(old(v).deep_view()),
    ensures
        sorted_le(final(v).deep_view()),
        final(v).deep_view().to_multiset() == old(v).deep_view().to_multiset().insert(s@),
{
    broadcast use vstd::seq_lib::group_to_multiset_ensures;

    let n = v.len();
    let mut i: usize = 0;
    while i < n && str_lt(v[i].as_str(), s.as_str())
        invariant
            n == v@.len(),
            i <= n,
            forall|j: int| 0 <= j < i ==> lex_lt(#[trigger] v.deep_view()[j], s@),
        decreases n - i,
    {
        i = i + 1;
    }
    let ghost pre = v.deep_view();
    v.insert(i, s);
    proof {
        let post = v.deep_view();
        assert forall|k: int| 0 <= k < post.len() implies post[k] == (if k < i {
            pre[k]
        } else if k == i {
            s@
        } else {
            pre[k - 1]
        }) by {
            assert(v@ == old(v)@.insert(i as int, s));
        }
        if i < pre.len() {
            assert(!lex_lt(pre[i as int], s@));
            lemma_lex_lt_connected_or(s@, pre[i as int]);
        }
        assert forall|p: int, q: int| 0 <= p < q < post.len() implies lex_le(post[p], post[q]) by {
            if p == i && q > i {
                assert(post[q] == pre[q - 1]);
                if q - 1 > i {
                    assert(lex_le(pre[i as int], pre[q - 1]));
                    lemma_lex_le_trans(s@, pre[i as int], pre[q - 1]);
                } else {
                    assert(lex_le(s@, pre[i as int]));
                }
            }
        }
        assert(post =~= pre.subrange(0, i as int) + seq![s@] + pre.subrange(
            i as int,
            pre.len() as int,
        ));
        lemma_multiset_insert_mid(pre, s@, i as int);
    }
}

/// `a <= b` holds whenever `b < a` fails.
proof fn lemma_lex_lt_connected_or(a: Seq<char>, b: Seq<char>)
    requires
        !lex_lt(b, a),
    ensures
        lex_le(a, b),
{
    if !lex_lt(a, b) {
        lemma_lex_lt_connected(a, b);
    }
}

proof fn lemma_lex_le_trans(a: Seq<char>, b: Seq<char>, c: Seq<char>)
    requires
        lex_le(a, b),
        lex_le(b, c),
    ensures
        lex_le(a, c),
{
    if lex_lt(a, b) && lex_lt(b, c) {
        lemma_lex_lt_trans(a, b, c);
    }
}

proof fn lemma_multiset_insert_mid(pre: Seq<Seq<char>>, x: Seq<char>, i: int)
    requires
        0 <= i <= pre.len(),
    ensures
        (pre.subrange(0, i) + seq![x] + pre.subrange(i, pre.len() as int)).to_multiset()
            == pre.to_multiset().insert(x),
{
    broadcast use vstd::seq_lib::group_to_multiset_ensures;

    let left = pre.subrange(0, i);
    let right = pre.subrange(i, pre.len() as int);
    vstd::seq_lib::lemma_multiset_commutative(left + seq![x], right);
    vstd::seq_lib::lemma_multiset_commutative(left, seq![x]);
    vstd::seq_lib::lemma_multiset_commutative(left, right);
    assert(left + right =~= pre);
    assert(seq![x].to_multiset() =~= Multiset::empty().insert(x)) by {
        assert(seq![x].drop_first() =~= Seq::<Seq<char>>::empty());
        assert(seq![x] =~= Seq::<Seq<char>>::empty().push(x));
    }
    assert((left + seq![x] + right).to_multiset() =~= pre.to_multiset().insert(x));
}

/// Sort the strings, smallest first.
pub fn sort_strings(v: Vec<String>) -> (r: Vec<String>)
    ensures
        sorted_le(r.deep_view()),
        r.deep_view().to_multiset() == v.deep_view().to_multiset(),
{
    broadcast use vstd::seq_lib::group_to_multiset_ensures;
    broadcast use vstd::multiset::group_multiset_axioms;

    let mut rest = v;
    let mut out: Vec<String> = Vec::new();
    while rest.len() > 0
        invariant
            sorted_le(out.deep_view()),
            out.deep_view().to_multiset().add(rest.deep_view().to_multiset())
                == v.deep_view().to_multiset(),
        decreases rest@.len(),
    {
        let ghost pre_rest = rest.deep_view();
        let ghost pre_out = out.deep_view();
        let s = rest.remove(0);
        proof {
            assert(rest.deep_view() =~= pre_rest.remove(0));
            assert(s@ == pre_rest[0]);
            vstd::seq_lib::to_multiset_remove::<Seq<char>>(pre_rest, 0);
            vstd::seq_lib::to_multiset_contains::<Seq<char>>(pre_rest, s@);
            assert(pre_rest.contains(s@));
            assert(pre_rest.to_multiset().count(s@) > 0);
        }
        insert_sorted(&mut out, s);
        proof {
            assert(out.deep_view().to_multiset().add(rest.deep_view().to_multiset())
                =~= v.deep_view().to_multiset());
        }
    }
    proof {
        assert(rest.deep_view() =~= Seq::<Seq<char>>::empty());
        vstd::multiset::lemma_multiset_empty_len(rest.deep_view().to_multiset());
        assert(out.deep_view().to_multiset() =~= v.deep_view().to_multiset());
    }
    out
}

} // verus!
