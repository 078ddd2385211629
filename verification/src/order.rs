//! Lexicographic order on strings, as `Ord` on `String` and `str` compares them.
use vstd::prelude::*;

use crate::text::chars_of;

verus! {

/// `a` sorts strictly before `b`: character by character, a proper prefix first.
pub open spec fn seq_less(a: Seq<char>, b: Seq<char>) -> bool
    decreases a.len(),
{
    if b.len() == 0 {
        false
    } else if a.len() == 0 {
        true
    } else if a[0] != b[0] {
        (a[0] as int) < (b[0] as int)
    } else {
        seq_less(a.drop_first(), b.drop_first())
    }
}

/// No string sorts before itself.
pub proof fn lemma_seq_less_irreflexive(a: Seq<char>)
    ensures
        !seq_less(a, a),
    decreases a.len(),
{
    if a.len() > 0 {
        lemma_seq_less_irreflexive(a.drop_first());
    }
}

/// Two different strings are ordered one way or the other.
pub proof fn lemma_seq_less_total(a: Seq<char>, b: Seq<char>)
    ensures
        a == b || seq_less(a, b) || seq_less(b, a),
    decreases a.len(),
{
    if a.len() > 0 && b.len() > 0 && a[0] == b[0] {
        lemma_seq_less_total(a.drop_first(), b.drop_first());
        if a.drop_first() == b.drop_first() {
            assert(a =~= seq![a[0]] + a.drop_first());
            assert(b =~= seq![b[0]] + b.drop_first());
        }
    } else if a.len() == 0 && b.len() == 0 {
        assert(a =~= b);
    } else if a.len() > 0 && b.len() > 0 {
        assert((a[0] as int) != (b[0] as int)) by {
            vstd::utf8::char_is_scalar(a[0]);
        }
    }
}

/// The order is transitive.
pub proof fn lemma_seq_less_transitive(a: Seq<char>, b: Seq<char>, c: Seq<char>)
    requires
        seq_less(a, b),
        seq_less(b, c),
    ensures
        seq_less(a, c),
    decreases a.len(),
{
    if a.len() > 0 && a[0] == b[0] && b[0] == c[0] {
        lemma_seq_less_transitive(a.drop_first(), b.drop_first(), c.drop_first());
    }
}

/// The order is asymmetric.
pub proof fn lemma_seq_less_asymmetric(a: Seq<char>, b: Seq<char>)
    requires
        seq_less(a, b),
    ensures
        !seq_less(b, a),
{
    if seq_less(b, a) {
        lemma_seq_less_transitive(a, b, a);
        lemma_seq_less_irreflexive(a);
    }
}

proof fn lemma_seq_less_skip(a: Seq<char>, b: Seq<char>, i: int)
    requires
        0 <= i < a.len(),
        i < b.len(),
        a[i] == b[i],
    ensures
        seq_less(a.skip(i), b.skip(i)) == seq_less(a.skip(i + 1), b.skip(i + 1)),
{
    assert(a.skip(i).drop_first() =~= a.skip(i + 1));
    assert(b.skip(i).drop_first() =~= b.skip(i + 1));
}

/// Whether `a` sorts strictly before `b`.
pub fn str_less(a: &str, b: &str) -> (r: bool)
    ensures
        r == seq_less(a@, b@),
{
    let x = chars_of(a);
    let y = chars_of(b);
    let mut i: usize = 0;
    assert(x@.skip(0) =~= x@);
    assert(y@.skip(0) =~= y@);
    while i < x.len() && i < y.len() && x[i] == y[i]
        invariant
            x@ == a@,
            y@ == b@,
            i <= x.len(),
            i <= y.len(),
            seq_less(a@, b@) == seq_less(x@.skip(i as int), y@.skip(i as int)),
        decreases x.len() - i,
    {
        proof { lemma_seq_less_skip(x@, y@, i as int); }
        i = i + 1;
    }
    if i == y.len() {
        false
    } else if i == x.len() {
        true
    } else {
        x[i] < y[i]
    }
}

} // verus!

verus! {

/// A value that is ordered by a text key.
pub trait Keyed {
    /// The key's characters.
    spec fn key_view(&self) -> Seq<char>;

    /// The key.
    fn key(&self) -> (r: &str)
        ensures
            r@ == self.key_view(),
    ;
}

/// Values of `s` appear in order of their keys.
pub open spec fn sorted_by_key<T: Keyed>(s: Seq<T>) -> bool {
    forall|i: int, j: int|
        0 <= i < j < s.len() ==> !seq_less(#[trigger] s[j].key_view(), #[trigger] s[i].key_view())
}

/// Inserts `x` into the key-sorted `v` after every value whose key does not sort after its own.
fn insert_by_key<T: Keyed>(v: &mut Vec<T>, x: T)
    requires
        sorted_by_key(old(v)@),
    ensures
        sorted_by_key(final(v)@),
        final(v)@.to_multiset() == old(v)@.to_multiset().insert(x),
{
    let mut p: usize = 0;
    while p < v.len() && !str_less(x.key(), v[p].key())
        invariant
            p <= v.len(),
            forall|k: int| 0 <= k < p ==> !seq_less(x.key_view(), #[trigger] v@[k].key_view()),
        decreases v.len() - p,
    {
        p = p + 1;
    }
    let ghost old_v = v@;
    proof { vstd::seq_lib::to_multiset_insert(old_v, p as int, x); }
    v.insert(p, x);
    assert(v@ == old_v.insert(p as int, x));
    assert forall|i: int, j: int| 0 <= i < j < v@.len() implies !seq_less(
        #[trigger] v@[j].key_view(),
        #[trigger] v@[i].key_view(),
    ) by {
        if j < p {
            assert(v@[i] == old_v[i] && v@[j] == old_v[j]);
        } else if j == p {
            assert(v@[i] == old_v[i]);
        } else if i == p {
            assert(v@[j] == old_v[j - 1]);
            assert(seq_less(x.key_view(), old_v[p as int].key_view()));
            if j - 1 > p {
                assert(!seq_less(old_v[j - 1].key_view(), old_v[p as int].key_view()));
            } else {
                lemma_seq_less_irreflexive(old_v[p as int].key_view());
            }
            if seq_less(old_v[j - 1].key_view(), x.key_view()) {
                lemma_seq_less_transitive(old_v[j - 1].key_view(), x.key_view(), old_v[p as int].key_view());
                if j - 1 == p {
                    lemma_seq_less_irreflexive(old_v[p as int].key_view());
                }
            }
        } else if i < p {
            assert(v@[i] == old_v[i] && v@[j] == old_v[j - 1]);
        } else {
            assert(v@[i] == old_v[i - 1] && v@[j] == old_v[j - 1]);
        }
    }
}

/// Sorts values by key: the result holds the same values, in order of their keys.
pub fn sort_by_key_text<T: Keyed>(v: Vec<T>) -> (r: Vec<T>)
    ensures
        sorted_by_key(r@),
        r@.to_multiset() == v@.to_multiset(),
        r@.len() == v@.len(),
{
    let mut r: Vec<T> = Vec::new();
    let mut rest = v;
    let ghost input = rest@;
    proof {
        broadcast use vstd::seq_lib::group_to_multiset_ensures;
        assert(input.take(0) =~= Seq::<T>::empty());
    }
    let mut k: usize = 0;
    let n = rest.len();
    while rest.len() > 0
        invariant
            sorted_by_key(r@),
            r@.to_multiset() == input.take(k as int).to_multiset(),
            rest@ == input.skip(k as int),
            k <= n,
            n == input.len(),
        decreases rest.len(),
    {
        let x = rest.remove(0);
        proof {
            broadcast use vstd::seq_lib::group_to_multiset_ensures;
            assert(input.take(k as int + 1) =~= input.take(k as int).push(x));
            assert(rest@ =~= input.skip(k as int + 1));
        }
        insert_by_key(&mut r, x);
        k = k + 1;
    }
    proof {
        broadcast use vstd::seq_lib::group_to_multiset_ensures;
        assert(input.take(n as int) =~= input);
        vstd::seq_lib::to_multiset_len(r@);
        vstd::seq_lib::to_multiset_len(input);
    }
    r
}

/// Two sequences with the same values, mapped value by value, still have the same values.
pub proof fn lemma_to_multiset_map<A, B>(a: Seq<A>, b: Seq<A>, f: spec_fn(A) -> B)
    requires
        a.to_multiset() == b.to_multiset(),
    ensures
        a.map_values(f).to_multiset() == b.map_values(f).to_multiset(),
    decreases a.len(),
{
    broadcast use vstd::seq_lib::group_to_multiset_ensures;
    broadcast use vstd::multiset::group_multiset_axioms;
    vstd::seq_lib::to_multiset_len(a);
    vstd::seq_lib::to_multiset_len(b);
    if a.len() == 0 {
        assert(a.map_values(f) =~= b.map_values(f));
    } else {
        let x = a.last();
        assert(a.contains(x)) by {
            assert(a[a.len() - 1] == x);
        }
        assert(a.to_multiset().count(x) > 0);
        assert(b.contains(x));
        let k = choose|k: int| 0 <= k < b.len() && b[k] == x;
        let a1 = a.drop_last();
        let b1 = b.remove(k);
        assert(a.remove(a.len() - 1) =~= a1);
        assert(a1.to_multiset() == b1.to_multiset());
        lemma_to_multiset_map(a1, b1, f);
        let am = a.map_values(f);
        let bm = b.map_values(f);
        assert(am =~= a1.map_values(f).push(f(x)));
        assert(bm.remove(k) =~= b1.map_values(f));
        assert(bm[k] == f(x));
        assert(bm.to_multiset().remove(f(x)) == b1.map_values(f).to_multiset());
        assert(bm.contains(f(x)));
        assert(bm.to_multiset().count(f(x)) > 0);
        assert(bm.to_multiset() =~= b1.map_values(f).to_multiset().insert(f(x)));
    }
}

} // verus!
