//! Which directory names of the worlds folder are listed as worlds, and in what order:
//! every name that does not start with a dot, in byte order.

use vstd::prelude::*;
use vstd::utf8::encode_utf8;

verus! {

broadcast use vstd::seq_lib::group_to_multiset_ensures;

/// Byte-wise lexicographic order, as `str` compares: `a` comes strictly before `b`.
pub open spec fn bytes_lt(a: Seq<u8>, b: Seq<u8>) -> bool
    decreases a.len(),
{
    if a.len() == 0 {
        b.len() > 0
    } else if b.len() == 0 {
        false
    } else if a[0] != b[0] {
        a[0] < b[0]
    } else {
        bytes_lt(a.drop_first(), b.drop_first())
    }
}

/// Byte order is lexicographic: `a` comes strictly before `b` exactly when, after their
/// longest common prefix, `a` has ended while `b` goes on, or `a`'s next byte is smaller.
pub proof fn law_byte_order_is_lexicographic(a: Seq<u8>, b: Seq<u8>)
    ensures
        bytes_lt(a, b) <==> exists|k: int|
            0 <= k <= a.len() && k <= b.len() && #[trigger] a.take(k) == b.take(k) && ((k == a.len() && k
                < b.len()) || (k < a.len() && k < b.len() && a[k] < b[k])),
    decreases a.len(),
{
    if a.len() == 0 {
        if b.len() > 0 {
            assert(a.take(0) =~= b.take(0));
        }
    } else if b.len() == 0 {
    } else if a[0] != b[0] {
        if a[0] < b[0] {
            assert(a.take(0) =~= b.take(0));
        }
        if exists|k: int|
            0 <= k <= a.len() && k <= b.len() && #[trigger] a.take(k) == b.take(k) && ((k == a.len() && k
                < b.len()) || (k < a.len() && k < b.len() && a[k] < b[k])) {
            let k = choose|k: int|
                0 <= k <= a.len() && k <= b.len() && #[trigger] a.take(k) == b.take(k) && ((k == a.len() && k
                    < b.len()) || (k < a.len() && k < b.len() && a[k] < b[k]));
            if k > 0 {
                assert(a.take(k)[0] == b.take(k)[0]);
            }
        }
    } else {
        let a1 = a.drop_first();
        let b1 = b.drop_first();
        law_byte_order_is_lexicographic(a1, b1);
        if bytes_lt(a1, b1) {
            let k = choose|k: int|
                0 <= k <= a1.len() && k <= b1.len() && #[trigger] a1.take(k) == b1.take(k) && ((k == a1.len()
                    && k < b1.len()) || (k < a1.len() && k < b1.len() && a1[k] < b1[k]));
            assert(a.take(k + 1) =~= seq![a[0]] + a1.take(k));
            assert(b.take(k + 1) =~= seq![b[0]] + b1.take(k));
            assert(a.take(k + 1) == b.take(k + 1));
        }
        if exists|k: int|
            0 <= k <= a.len() && k <= b.len() && #[trigger] a.take(k) == b.take(k) && ((k == a.len() && k
                < b.len()) || (k < a.len() && k < b.len() && a[k] < b[k])) {
            let k = choose|k: int|
                0 <= k <= a.len() && k <= b.len() && #[trigger] a.take(k) == b.take(k) && ((k == a.len() && k
                    < b.len()) || (k < a.len() && k < b.len() && a[k] < b[k]));
            assert(k >= 1);
            assert(a1.take(k - 1) =~= a.take(k).drop_first());
            assert(b1.take(k - 1) =~= b.take(k).drop_first());
            assert(a1.take(k - 1) == b1.take(k - 1));
        }
    }
}

/// The bytes of a name.
pub open spec fn name_key(name: Seq<char>) -> Seq<u8> {
    encode_utf8(name)
}

/// Whether a name is hidden: its first byte is '.'.
pub open spec fn is_hidden(name: Seq<char>) -> bool {
    name_key(name).len() > 0 && name_key(name)[0] == 0x2e
}

/// The names of `names` that are not hidden, in their order.
pub open spec fn visible_names(names: Seq<Seq<char>>) -> Seq<Seq<char>>
    decreases names.len(),
{
    if names.len() == 0 {
        Seq::empty()
    } else {
        let rest = visible_names(names.drop_last());
        if is_hidden(names.last()) {
            rest
        } else {
            rest.push(names.last())
        }
    }
}

/// Leaving out hidden names drops exactly the names whose first byte is '.': every
/// other name stays, as often as it occurs.
pub proof fn law_only_dot_names_are_hidden(names: Seq<Seq<char>>)
    ensures
        forall|n: Seq<char>|
            #[trigger] visible_names(names).to_multiset().count(n) == if encode_utf8(n).len() > 0
                && encode_utf8(n)[0] == 0x2e {
                0
            } else {
                names.to_multiset().count(n)
            },
    decreases names.len(),
{
    broadcast use vstd::multiset::group_multiset_axioms;

    if names.len() > 0 {
        let rest = names.drop_last();
        let x = names.last();
        law_only_dot_names_are_hidden(rest);
        assert(names =~= rest.push(x));
        assert(names.to_multiset() =~= rest.to_multiset().insert(x));
        if !is_hidden(x) {
            assert(visible_names(names).to_multiset() =~= visible_names(rest).to_multiset().insert(x));
        }
    } else {
        assert(visible_names(names) =~= Seq::<Seq<char>>::empty());
        assert(names =~= Seq::<Seq<char>>::empty());
    }
}

/// Whether `names` are in byte order.
pub open spec fn names_sorted(names: Seq<Seq<char>>) -> bool {
    forall|i: int, j: int|
        0 <= i < j < names.len() ==> !bytes_lt(#[trigger] name_key(names[j]), #[trigger] name_key(names[i]))
}

pub proof fn lemma_bytes_lt_trans(a: Seq<u8>, b: Seq<u8>, c: Seq<u8>)
    requires
        bytes_lt(a, b),
        bytes_lt(b, c),
    ensures
        bytes_lt(a, c),
    decreases a.len(),
{
    if a.len() > 0 && b.len() > 0 && c.len() > 0 && a[0] == b[0] && b[0] == c[0] {
        lemma_bytes_lt_trans(a.drop_first(), b.drop_first(), c.drop_first());
    }
}

pub proof fn lemma_bytes_lt_total(a: Seq<u8>, b: Seq<u8>)
    ensures
        bytes_lt(a, b) || a == b || bytes_lt(b, a),
        !(bytes_lt(a, b) && bytes_lt(b, a)),
    decreases a.len(),
{
    if a.len() > 0 && b.len() > 0 && a[0] == b[0] {
        lemma_bytes_lt_total(a.drop_first(), b.drop_first());
        if a.drop_first() == b.drop_first() {
            assert(a =~= seq![a[0]] + a.drop_first());
            assert(b =~= seq![b[0]] + b.drop_first());
        }
    } else if a.len() == 0 && b.len() == 0 {
        assert(a =~= b);
    }
}

/// Whether `a` comes strictly before `b` in byte order.
fn bytes_less(a: &[u8], b: &[u8]) -> (r: bool)
    ensures
        r == bytes_lt(a@, b@),
{
    let mut i: usize = 0;
    assert(a@.skip(0) =~= a@);
    assert(b@.skip(0) =~= b@);
    while i < a.len() && i < b.len()
        invariant
            i <= a@.len(),
            i <= b@.len(),
            bytes_lt(a@, b@) == bytes_lt(a@.skip(i as int), b@.skip(i as int)),
        decreases a@.len() - i,
    {
        if a[i] != b[i] {
            return a[i] < b[i];
        }
        assert(a@.skip(i as int).drop_first() =~= a@.skip(i + 1));
        assert(b@.skip(i as int).drop_first() =~= b@.skip(i + 1));
        i += 1;
    }
    i == a.len() && i < b.len()
}

/// The names to list as worlds: those of `names` that are not hidden, each as often as
/// it occurs, in byte order.
pub fn listed_world_names(names: &[String]) -> (r: Vec<String>)
    ensures
        names_sorted(r@.map_values(|s: String| s@)),
        r@.map_values(|s: String| s@).to_multiset() == visible_names(
            names@.map_values(|s: String| s@),
        ).to_multiset(),
{
    let ghost all = names@.map_values(|s: String| s@);
    let mut out: Vec<String> = Vec::new();
    let mut n: usize = 0;
    while n < names.len()
        invariant
            n <= names@.len(),
            all == names@.map_values(|s: String| s@),
            names_sorted(out@.map_values(|s: String| s@)),
            out@.map_values(|s: String| s@).to_multiset() == visible_names(all.take(n as int)).to_multiset(),
        decreases names@.len() - n,
    {
        let ghost before = out@.map_values(|s: String| s@);
        assert(all.take(n + 1).drop_last() =~= all.take(n as int));
        assert(all.take(n + 1).last() == names@[n as int]@);
        let name = &names[n];
        let key = name.as_str().as_bytes();
        if key.len() > 0 && key[0] == 0x2e {
            n += 1;
        } else {
            let mut p: usize = 0;
            while p < out.len()
                invariant
                    p <= out@.len(),
                    before == out@.map_values(|s: String| s@),
                    key@ == name_key(name@),
                    forall|k: int| 0 <= k < p ==> !bytes_lt(key@, #[trigger] name_key(before[k])),
                ensures
                    p <= out@.len(),
                    before == out@.map_values(|s: String| s@),
                    key@ == name_key(name@),
                    forall|k: int| 0 <= k < p ==> !bytes_lt(key@, #[trigger] name_key(before[k])),
                    p < out@.len() ==> bytes_lt(key@, name_key(before[p as int])),
                decreases out@.len() - p,
            {
                if bytes_less(key, out[p].as_str().as_bytes()) {
                    break;
                }
                p += 1;
            }
            let ghost x = name@;
            out.insert(p, name.clone());
            let ghost after = out@.map_values(|s: String| s@);
            proof {
                assert(after =~= before.insert(p as int, x));
                assert(before.insert(p as int, x) =~= before.take(p as int) + seq![x] + before.skip(p as int));
                assert(before =~= before.take(p as int) + before.skip(p as int));
                vstd::seq_lib::lemma_multiset_commutative(before.take(p as int) + seq![x], before.skip(p as int));
                vstd::seq_lib::lemma_multiset_commutative(before.take(p as int), seq![x]);
                vstd::seq_lib::lemma_multiset_commutative(before.take(p as int), before.skip(p as int));
                assert(after.to_multiset() =~= before.to_multiset().insert(x));
                assert forall|i: int, j: int| 0 <= i < j < after.len() implies !bytes_lt(
                    #[trigger] name_key(after[j]),
                    #[trigger] name_key(after[i]),
                ) by {
                    if j == p {
                        assert(after[i] == before[i]);
                    } else if i == p {
                        assert(after[j] == before[j - 1]);
                        assert(bytes_lt(name_key(x), name_key(before[p as int])));
                        if j - 1 > p {
                            lemma_bytes_lt_total(name_key(before[p as int]), name_key(before[j - 1]));
                            if bytes_lt(name_key(before[p as int]), name_key(before[j - 1])) {
                                lemma_bytes_lt_trans(name_key(x), name_key(before[p as int]), name_key(before[j - 1]));
                            }
                        }
                        lemma_bytes_lt_total(name_key(x), name_key(before[j - 1]));
                    } else if i < p && j > p {
                        assert(after[i] == before[i]);
                        assert(after[j] == before[j - 1]);
                    } else if j < p {
                        assert(after[i] == before[i]);
                        assert(after[j] == before[j]);
                    } else {
                        assert(after[i] == before[i - 1]);
                        assert(after[j] == before[j - 1]);
                    }
                }
            }
            n += 1;
        }
    }
    assert(all.take(names@.len() as int) =~= all);
    out
}

} // verus!
