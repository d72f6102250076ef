//! Ordering of named items by name.

use vstd::prelude::*;
use crate::text::{seq_less, str_less};

verus! {

/// An item that is ordered by its name.
pub trait Named {
    spec fn key(&self) -> Seq<char>;

    fn name_text(&self) -> (r: &str)
        ensures
            r@ == self.key(),
    ;
}

/// `x` placed into `o` before the first item whose key is greater than its
/// own, so after all items whose keys are not greater.
pub open spec fn insert_by<A>(o: Seq<A>, x: A, key: spec_fn(A) -> Seq<char>) -> Seq<A>
    decreases o.len(),
{
    if o.len() == 0 {
        seq![x]
    } else if seq_less(key(x), key(o[0])) {
        seq![x] + o
    } else {
        seq![o[0]] + insert_by(o.drop_first(), x, key)
    }
}

/// The items of `s` ordered by key, each placed in turn after the items
/// placed before it whose keys are not greater (equal keys keep their order).
pub open spec fn sorted_seq<A>(s: Seq<A>, key: spec_fn(A) -> Seq<char>) -> Seq<A>
    decreases s.len(),
{
    if s.len() == 0 {
        seq![]
    } else {
        insert_by(sorted_seq(s.drop_last(), key), s.last(), key)
    }
}

/// No item's key is less than that of an item before it.
pub open spec fn ordered_by<A>(s: Seq<A>, key: spec_fn(A) -> Seq<char>) -> bool {
    forall|i: int, j: int| 0 <= i < j < s.len() ==> !seq_less(key(s[j]), key(s[i]))
}

pub open spec fn name_key<T: Named>() -> spec_fn(T) -> Seq<char> {
    |t: T| t.key()
}

/// The lexicographic order is transitive.
pub proof fn lemma_less_transitive(a: Seq<char>, b: Seq<char>, c: Seq<char>)
    requires
        seq_less(a, b),
        seq_less(b, c),
    ensures
        seq_less(a, c),
    decreases a.len(),
{
    if a.len() > 0 && b.len() > 0 && c.len() > 0 && a[0] == b[0] && b[0] == c[0] {
        lemma_less_transitive(a.drop_first(), b.drop_first(), c.drop_first());
    }
}

/// The lexicographic order is asymmetric.
pub proof fn lemma_less_asymmetric(a: Seq<char>, b: Seq<char>)
    requires
        seq_less(a, b),
    ensures
        !seq_less(b, a),
    decreases a.len(),
{
    if a.len() > 0 && b.len() > 0 && a[0] == b[0] {
        lemma_less_asymmetric(a.drop_first(), b.drop_first());
    }
}

/// Inserting at the first position whose key is greater is `insert_by`.
proof fn lemma_insert_at_first_greater<A>(o: Seq<A>, x: A, key: spec_fn(A) -> Seq<char>, k: int)
    requires
        0 <= k <= o.len(),
        forall|j: int| 0 <= j < k ==> !seq_less(key(x), #[trigger] key(o[j])),
        k == o.len() || seq_less(key(x), key(o[k])),
    ensures
        o.insert(k, x) == insert_by(o, x, key),
    decreases o.len(),
{
    if o.len() == 0 {
        assert(o.insert(k, x) =~= seq![x]);
    } else if k == 0 {
        assert(o.insert(k, x) =~= seq![x] + o);
    } else {
        assert(!seq_less(key(x), key(o[0])));
        let t = o.drop_first();
        assert forall|j: int| 0 <= j < k - 1 implies !seq_less(key(x), #[trigger] key(t[j])) by {
            assert(t[j] == o[j + 1]);
        }
        lemma_insert_at_first_greater(t, x, key, k - 1);
        assert(o.insert(k, x) =~= seq![o[0]] + t.insert(k - 1, x));
    }
}

/// Sorting commutes with a map that keeps keys.
pub proof fn lemma_sorted_map<A, B>(
    s: Seq<A>,
    ka: spec_fn(A) -> Seq<char>,
    f: spec_fn(A) -> B,
    kb: spec_fn(B) -> Seq<char>,
)
    requires
        forall|a: A| #[trigger] kb(f(a)) == ka(a),
    ensures
        sorted_seq(s, ka).map_values(f) == sorted_seq(s.map_values(f), kb),
    decreases s.len(),
{
    if s.len() > 0 {
        lemma_sorted_map(s.drop_last(), ka, f, kb);
        assert(s.map_values(f).drop_last() =~= s.drop_last().map_values(f));
        lemma_insert_map(sorted_seq(s.drop_last(), ka), s.last(), ka, f, kb);
    } else {
        assert(sorted_seq(s, ka).map_values(f) =~= sorted_seq(s.map_values(f), kb));
    }
}

proof fn lemma_insert_map<A, B>(
    o: Seq<A>,
    x: A,
    ka: spec_fn(A) -> Seq<char>,
    f: spec_fn(A) -> B,
    kb: spec_fn(B) -> Seq<char>,
)
    requires
        forall|a: A| #[trigger] kb(f(a)) == ka(a),
    ensures
        insert_by(o, x, ka).map_values(f) == insert_by(o.map_values(f), f(x), kb),
    decreases o.len(),
{
    assert(kb(f(x)) == ka(x));
    if o.len() == 0 {
        assert(insert_by(o, x, ka).map_values(f) =~= seq![f(x)]);
    } else {
        assert(kb(f(o[0])) == ka(o[0]));
        assert(o.map_values(f)[0] == f(o[0]));
        if seq_less(ka(x), ka(o[0])) {
            assert(insert_by(o, x, ka).map_values(f) =~= seq![f(x)] + o.map_values(f));
        } else {
            lemma_insert_map(o.drop_first(), x, ka, f, kb);
            assert(o.map_values(f).drop_first() =~= o.drop_first().map_values(f));
            assert(insert_by(o, x, ka).map_values(f) =~= seq![f(o[0])] + insert_by(
                o.drop_first(),
                x,
                ka,
            ).map_values(f));
        }
    }
}

/// Each item of `insert_by(o, x, key)` is `x` or an item of `o`.
proof fn lemma_insert_member<A>(o: Seq<A>, x: A, key: spec_fn(A) -> Seq<char>, i: int)
    requires
        0 <= i < insert_by(o, x, key).len(),
    ensures
        insert_by(o, x, key)[i] == x || exists|m: int| 0 <= m < o.len() && o[m] == insert_by(o, x, key)[i],
    decreases o.len(),
{
    lemma_insert_len(o, x, key);
    if o.len() > 0 {
        if seq_less(key(x), key(o[0])) {
            if i > 0 {
                assert((seq![x] + o)[i] == o[i - 1]);
            }
        } else if i > 0 {
            let t = o.drop_first();
            lemma_insert_len(t, x, key);
            lemma_insert_member(t, x, key, i - 1);
            assert((seq![o[0]] + insert_by(t, x, key))[i] == insert_by(t, x, key)[i - 1]);
            if insert_by(t, x, key)[i - 1] != x {
                let m = choose|m: int| 0 <= m < t.len() && t[m] == insert_by(t, x, key)[i - 1];
                assert(o[m + 1] == t[m]);
            }
        }
    }
}

proof fn lemma_insert_len<A>(o: Seq<A>, x: A, key: spec_fn(A) -> Seq<char>)
    ensures
        insert_by(o, x, key).len() == o.len() + 1,
    decreases o.len(),
{
    if o.len() > 0 && !seq_less(key(x), key(o[0])) {
        lemma_insert_len(o.drop_first(), x, key);
    }
}

/// Inserting into an ordered sequence keeps it ordered.
proof fn lemma_insert_ordered<A>(o: Seq<A>, x: A, key: spec_fn(A) -> Seq<char>)
    requires
        ordered_by(o, key),
    ensures
        ordered_by(insert_by(o, x, key), key),
    decreases o.len(),
{
    lemma_insert_len(o, x, key);
    if o.len() > 0 && !seq_less(key(x), key(o[0])) {
        let t = o.drop_first();
        assert(ordered_by(t, key)) by {
            assert forall|i: int, j: int| 0 <= i < j < t.len() implies !seq_less(key(t[j]), key(t[i])) by {
                assert(t[i] == o[i + 1] && t[j] == o[j + 1]);
            }
        }
        lemma_insert_ordered(t, x, key);
        lemma_insert_len(t, x, key);
        let r = insert_by(o, x, key);
        let rt = insert_by(t, x, key);
        assert(r == seq![o[0]] + rt);
        assert forall|i: int, j: int| 0 <= i < j < r.len() implies !seq_less(key(r[j]), key(r[i])) by {
            if i == 0 {
                assert(r[j] == rt[j - 1]);
                lemma_insert_member(t, x, key, j - 1);
                if rt[j - 1] != x {
                    let m = choose|m: int| 0 <= m < t.len() && t[m] == rt[j - 1];
                    assert(t[m] == o[m + 1]);
                }
            } else {
                assert(r[i] == rt[i - 1] && r[j] == rt[j - 1]);
            }
        }
    } else if o.len() > 0 {
        let r = insert_by(o, x, key);
        assert(r == seq![x] + o);
        assert forall|i: int, j: int| 0 <= i < j < r.len() implies !seq_less(key(r[j]), key(r[i])) by {
            if i == 0 {
                assert(r[j] == o[j - 1]);
                if seq_less(key(o[j - 1]), key(x)) {
                    if j - 1 == 0 {
                        lemma_less_asymmetric(key(x), key(o[0]));
                    } else {
                        assert(!seq_less(key(o[j - 1]), key(o[0])));
                        lemma_less_transitive(key(o[j - 1]), key(x), key(o[0]));
                    }
                }
            } else {
                assert(r[i] == o[i - 1] && r[j] == o[j - 1]);
            }
        }
    }
}

/// Sorting orders: in `sorted_seq(s, key)` no item's key is less than that
/// of an item before it, and it has as many items as `s`.
pub proof fn lemma_sorted_is_ordered<A>(s: Seq<A>, key: spec_fn(A) -> Seq<char>)
    ensures
        ordered_by(sorted_seq(s, key), key),
        sorted_seq(s, key).len() == s.len(),
    decreases s.len(),
{
    if s.len() > 0 {
        lemma_sorted_is_ordered(s.drop_last(), key);
        lemma_insert_ordered(sorted_seq(s.drop_last(), key), s.last(), key);
        lemma_insert_len(sorted_seq(s.drop_last(), key), s.last(), key);
    }
}

/// The items of `v` ordered by name; items with equal names keep their
/// order.
pub fn sort_by_name<T: Named>(v: Vec<T>) -> (r: Vec<T>)
    ensures
        r@ == sorted_seq(v@, name_key::<T>()),
{
    let ghost input = v@;
    let ghost key = name_key::<T>();
    let mut rest = v;
    let mut out: Vec<T> = Vec::new();
    let ghost mut taken: int = 0;
    assert(input.subrange(0, 0) =~= seq![]);
    assert(input.subrange(0, input.len() as int) =~= input);
    while rest.len() > 0
        invariant
            0 <= taken <= input.len(),
            rest@ == input.subrange(taken, input.len() as int),
            out@ == sorted_seq(input.subrange(0, taken), key),
            key == name_key::<T>(),
        decreases rest@.len(),
    {
        let x = rest.remove(0);
        let mut k: usize = 0;
        while k < out.len() && !str_less(x.name_text(), out[k].name_text())
            invariant
                k <= out@.len(),
                forall|j: int| 0 <= j < k ==> !seq_less(key(x), #[trigger] key(out@[j])),
                key == name_key::<T>(),
            decreases out@.len() - k,
        {
            k = k + 1;
        }
        let ghost before_out = out@;
        out.insert(k, x);
        proof {
            lemma_insert_at_first_greater(before_out, x, key, k as int);
            let p = input.subrange(0, taken + 1);
            assert(p.drop_last() =~= input.subrange(0, taken));
            assert(p.last() == x);
            taken = taken + 1;
            assert(rest@ =~= input.subrange(taken, input.len() as int));
        }
    }
    assert(input.subrange(0, taken) =~= input);
    out
}

} // verus!
