//! Keyed lists: the specification of the per-address collision lists the
//! state layer keeps.
//!
//! Every list at a state address holds entities keyed by one string field,
//! in strictly increasing key order.  A mutation removes the entity with
//! the mutated key, inserts the new one and keeps the order; a lookup
//! returns the first entity with the sought key.

use vstd::prelude::*;
use crate::strutil::{str_key_lt, lemma_str_key_lt_total, lemma_lex_lt_trans, lemma_lex_lt_asym};
use vstd::utf8::encode_utf8;

verus! {

/// The list is in strictly increasing key order (so keys are distinct).
pub open spec fn sorted_keyed<X>(l: Seq<X>, key: spec_fn(X) -> Seq<char>) -> bool {
    forall|i: int, j: int| 0 <= i < j < l.len() ==> str_key_lt(key(l[i]), key(l[j]))
}

/// The first entity of `l` whose key is `k`.
pub open spec fn find_keyed<X>(l: Seq<X>, key: spec_fn(X) -> Seq<char>, k: Seq<char>) -> Option<
    X,
>
    decreases l.len(),
{
    if l.len() == 0 {
        None
    } else if key(l[0]) == k {
        Some(l[0])
    } else {
        find_keyed(l.drop_first(), key, k)
    }
}

/// `l` with any entity keyed like `x` removed and `x` put at its key's
/// position in the order.
pub open spec fn upsert_keyed<X>(l: Seq<X>, key: spec_fn(X) -> Seq<char>, x: X) -> Seq<X>
    decreases l.len(),
{
    if l.len() == 0 {
        seq![x]
    } else if key(l[0]) == key(x) {
        seq![x] + l.drop_first()
    } else if str_key_lt(key(x), key(l[0])) {
        seq![x] + l
    } else {
        seq![l[0]] + upsert_keyed(l.drop_first(), key, x)
    }
}

/// `l` with the first entity keyed `k` removed.
pub open spec fn remove_keyed<X>(l: Seq<X>, key: spec_fn(X) -> Seq<char>, k: Seq<char>) -> Seq<
    X,
>
    decreases l.len(),
{
    if l.len() == 0 {
        l
    } else if key(l[0]) == k {
        l.drop_first()
    } else {
        seq![l[0]] + remove_keyed(l.drop_first(), key, k)
    }
}

/// What a lookup tells about the list: a found entity is in the list under
/// the sought key; a miss means no entity has that key.
pub proof fn lemma_find_keyed_props<X>(l: Seq<X>, key: spec_fn(X) -> Seq<char>, k: Seq<char>)
    ensures
        match find_keyed(l, key, k) {
            Some(y) => l.contains(y) && key(y) == k,
            None => forall|i: int| 0 <= i < l.len() ==> key(#[trigger] l[i]) != k,
        },
    decreases l.len(),
{
    if l.len() > 0 && key(l[0]) != k {
        lemma_find_keyed_props(l.drop_first(), key, k);
        match find_keyed(l.drop_first(), key, k) {
            Some(y) => {
                let i = choose|i: int|
                    0 <= i < l.drop_first().len() && l.drop_first()[i] == y;
                assert(l[i + 1] == y);
            },
            None => {
                assert forall|i: int| 0 <= i < l.len() implies key(#[trigger] l[i]) != k by {
                    if i > 0 {
                        assert(l[i] == l.drop_first()[i - 1]);
                    }
                }
            },
        }
    }
}

/// A scan that has passed `i` entities without finding the key can go on
/// from `i`.
pub proof fn lemma_find_keyed_skip<X>(
    l: Seq<X>,
    key: spec_fn(X) -> Seq<char>,
    k: Seq<char>,
    i: int,
)
    requires
        0 <= i <= l.len(),
        forall|j: int| 0 <= j < i ==> key(#[trigger] l[j]) != k,
    ensures
        find_keyed(l, key, k) == find_keyed(l.skip(i), key, k),
    decreases i,
{
    if i > 0 {
        lemma_find_keyed_skip(l.drop_first(), key, k, i - 1);
        assert forall|j: int| 0 <= j < i - 1 implies key(#[trigger] l.drop_first()[j]) != k by {
            assert(l.drop_first()[j] == l[j + 1]);
        }
        assert(l.drop_first().skip(i - 1) =~= l.skip(i));
    } else {
        assert(l.skip(0) =~= l);
    }
}

/// What an upsert does: the order is kept, the upserted entity is found
/// under its key, every other key finds what it found before, and nothing
/// new appears.
pub proof fn lemma_upsert_keyed_props<X>(l: Seq<X>, key: spec_fn(X) -> Seq<char>, x: X)
    requires
        sorted_keyed(l, key),
    ensures
        sorted_keyed(upsert_keyed(l, key, x), key),
        forall|k: Seq<char>| #[trigger] find_keyed(upsert_keyed(l, key, x), key, k) == (if k
            == key(x) {
            Some(x)
        } else {
            find_keyed(l, key, k)
        }),
        forall|y: X| #[trigger] upsert_keyed(l, key, x).contains(y) ==> y == x || l.contains(y),
    decreases l.len(),
{
    let u = upsert_keyed(l, key, x);
    if l.len() == 0 {
        assert(u == seq![x]);
        assert forall|k: Seq<char>| #[trigger] find_keyed(u, key, k) == (if k == key(x) {
            Some(x)
        } else {
            find_keyed(l, key, k)
        }) by {
            assert(u[0] == x);
            assert(u.drop_first() =~= Seq::<X>::empty());
            if k == key(x) {
                assert(find_keyed(u, key, k) == Some(x));
            } else {
                assert(find_keyed(u, key, k) == find_keyed(Seq::<X>::empty(), key, k));
                assert(find_keyed(Seq::<X>::empty(), key, k) == None::<X>);
            }
        }
        assert forall|y: X| #[trigger] u.contains(y) implies y == x || l.contains(y) by {
            let i = choose|i: int| 0 <= i < u.len() && u[i] == y;
            assert(u[0] == x);
        }
    } else if key(l[0]) == key(x) {
        // u == seq![x] + l.drop_first()
        assert(u == seq![x] + l.drop_first());
        assert(u[0] == x);
        assert(u.drop_first() =~= l.drop_first());
        assert forall|i: int, j: int| 0 <= i < j < u.len() implies str_key_lt(
            key(u[i]),
            key(u[j]),
        ) by {
            if i == 0 {
                assert(u[j] == l.drop_first()[j - 1]);
                assert(u[j] == l[j]);
                assert(str_key_lt(key(l[0]), key(l[j])));
            } else {
                assert(u[i] == l[i]);
                assert(u[j] == l[j]);
            }
        }
        assert forall|k: Seq<char>| #[trigger] find_keyed(u, key, k) == (if k == key(x) {
            Some(x)
        } else {
            find_keyed(l, key, k)
        }) by {
            if k != key(x) {
                assert(find_keyed(l, key, k) == find_keyed(l.drop_first(), key, k));
            }
        }
        assert forall|y: X| #[trigger] u.contains(y) implies y == x || l.contains(y) by {
            let i = choose|i: int| 0 <= i < u.len() && u[i] == y;
            if i > 0 {
                assert(u[i] == l[i]);
            }
        }
    } else if str_key_lt(key(x), key(l[0])) {
        // u == seq![x] + l
        assert(u == seq![x] + l);
        assert(u[0] == x);
        assert(u.drop_first() =~= l);
        assert forall|i: int, j: int| 0 <= i < j < u.len() implies str_key_lt(
            key(u[i]),
            key(u[j]),
        ) by {
            if i == 0 {
                assert(u[j] == l[j - 1]);
                if j > 1 {
                    lemma_lex_lt_trans(
                        encode_utf8(key(x)),
                        encode_utf8(key(l[0])),
                        encode_utf8(key(l[j - 1])),
                    );
                }
            } else {
                assert(u[i] == l[i - 1]);
                assert(u[j] == l[j - 1]);
            }
        }
        assert forall|k: Seq<char>| #[trigger] find_keyed(u, key, k) == (if k == key(x) {
            Some(x)
        } else {
            find_keyed(l, key, k)
        }) by {
            if k == key(x) {
                assert(find_keyed(u, key, k) == Some(x));
            } else {
                assert(find_keyed(u, key, k) == find_keyed(u.drop_first(), key, k));
                assert(find_keyed(u.drop_first(), key, k) == find_keyed(l, key, k));
            }
        }
        assert forall|y: X| #[trigger] u.contains(y) implies y == x || l.contains(y) by {
            let i = choose|i: int| 0 <= i < u.len() && u[i] == y;
            if i > 0 {
                assert(u[i] == l[i - 1]);
            }
        }
    } else {
        // u == seq![l[0]] + upsert_keyed(l.drop_first(), key, x)
        lemma_str_key_lt_total(key(l[0]), key(x));
        assert(str_key_lt(key(l[0]), key(x)));
        assert forall|i: int, j: int| 0 <= i < j < l.drop_first().len() implies str_key_lt(
            key(l.drop_first()[i]),
            key(l.drop_first()[j]),
        ) by {
            assert(l.drop_first()[i] == l[i + 1]);
            assert(l.drop_first()[j] == l[j + 1]);
        }
        lemma_upsert_keyed_props(l.drop_first(), key, x);
        let t = upsert_keyed(l.drop_first(), key, x);
        assert(u == seq![l[0]] + t);
        assert(u[0] == l[0]);
        assert(u.drop_first() =~= t);
        // order: the head is below x and below every kept entity
        assert forall|i: int, j: int| 0 <= i < j < u.len() implies str_key_lt(
            key(u[i]),
            key(u[j]),
        ) by {
            if i == 0 {
                assert(u[j] == t[j - 1]);
                assert(t.contains(t[j - 1]));
                if t[j - 1] == x {
                    assert(str_key_lt(key(l[0]), key(x)));
                } else {
                    assert(l.drop_first().contains(t[j - 1]));
                    let m = choose|m: int|
                        0 <= m < l.drop_first().len() && l.drop_first()[m] == t[j - 1];
                    assert(l[m + 1] == t[j - 1]);
                    assert(str_key_lt(key(l[0]), key(l[m + 1])));
                }
            } else {
                assert(u[i] == t[i - 1]);
                assert(u[j] == t[j - 1]);
            }
        }
        assert forall|k: Seq<char>| #[trigger] find_keyed(u, key, k) == (if k == key(x) {
            Some(x)
        } else {
            find_keyed(l, key, k)
        }) by {
            if key(l[0]) == k {
                // k is the head's key; the head is kept and found first
                assert(find_keyed(u, key, k) == Some(l[0]));
                assert(find_keyed(l, key, k) == Some(l[0]));
            } else {
                assert(find_keyed(u, key, k) == find_keyed(t, key, k));
                assert(find_keyed(l, key, k) == find_keyed(l.drop_first(), key, k));
            }
        }
        assert forall|y: X| #[trigger] u.contains(y) implies y == x || l.contains(y) by {
            let i = choose|i: int| 0 <= i < u.len() && u[i] == y;
            if i == 0 {
                assert(l[0] == y);
            } else {
                assert(t.contains(u[i]));
                if u[i] != x {
                    assert(l.drop_first().contains(u[i]));
                    let m = choose|m: int|
                        0 <= m < l.drop_first().len() && l.drop_first()[m] == u[i];
                    assert(l[m + 1] == u[i]);
                }
            }
        }
    }
}

/// Where an upsert puts the new entity: before the first entity whose key
/// is not below the new key, replacing it when the keys are equal.
pub proof fn lemma_upsert_keyed_decompose<X>(
    l: Seq<X>,
    key: spec_fn(X) -> Seq<char>,
    x: X,
    p: int,
)
    requires
        0 <= p <= l.len(),
        forall|j: int| 0 <= j < p ==> str_key_lt(key(#[trigger] l[j]), key(x)),
        p < l.len() ==> !str_key_lt(key(l[p]), key(x)),
    ensures
        p < l.len() && key(l[p]) == key(x) ==> upsert_keyed(l, key, x) == l.take(p).push(x)
            + l.skip(p + 1),
        !(p < l.len() && key(l[p]) == key(x)) ==> upsert_keyed(l, key, x) == l.take(p).push(x)
            + l.skip(p),
    decreases p,
{
    if p == 0 {
        if l.len() == 0 {
            assert(upsert_keyed(l, key, x) =~= l.take(0).push(x) + l.skip(0));
        } else if key(l[0]) == key(x) {
            assert(upsert_keyed(l, key, x) =~= l.take(0).push(x) + l.skip(1));
        } else {
            lemma_str_key_lt_total(key(l[0]), key(x));
            assert(str_key_lt(key(x), key(l[0])));
            assert(upsert_keyed(l, key, x) =~= l.take(0).push(x) + l.skip(0));
        }
    } else {
        assert(str_key_lt(key(l[0]), key(x)));
        if key(l[0]) == key(x) {
            lemma_lex_lt_asym(encode_utf8(key(l[0])), encode_utf8(key(x)));
        }
        if str_key_lt(key(x), key(l[0])) {
            lemma_lex_lt_asym(encode_utf8(key(l[0])), encode_utf8(key(x)));
        }
        let d = l.drop_first();
        assert forall|j: int| 0 <= j < p - 1 implies str_key_lt(key(#[trigger] d[j]), key(x)) by {
            assert(d[j] == l[j + 1]);
        }
        assert(p - 1 < d.len() ==> d[p - 1] == l[p]);
        lemma_upsert_keyed_decompose(d, key, x, p - 1);
        if p < l.len() && key(l[p]) == key(x) {
            assert(upsert_keyed(l, key, x) =~= l.take(p).push(x) + l.skip(p + 1)) by {
                assert(d.take(p - 1) =~= l.take(p).drop_first());
                assert(d.skip(p) =~= l.skip(p + 1));
            }
        } else {
            assert(upsert_keyed(l, key, x) =~= l.take(p).push(x) + l.skip(p)) by {
                assert(d.take(p - 1) =~= l.take(p).drop_first());
                assert(d.skip(p - 1) =~= l.skip(p));
            }
        }
    }
}


/// Removing the entity at the first position keyed `k` is what
/// `remove_keyed` does.
pub proof fn lemma_remove_keyed_at<X>(l: Seq<X>, key: spec_fn(X) -> Seq<char>, k: Seq<char>, i: int)
    requires
        0 <= i < l.len(),
        key(l[i]) == k,
        forall|j: int| 0 <= j < i ==> key(#[trigger] l[j]) != k,
    ensures
        remove_keyed(l, key, k) == l.remove(i),
    decreases i,
{
    l.remove_ensures(i);
    if i == 0 {
        assert(l.remove(0) =~= l.drop_first());
    } else {
        lemma_remove_keyed_at(l.drop_first(), key, k, i - 1);
        assert forall|j: int| 0 <= j < i - 1 implies key(#[trigger] l.drop_first()[j]) != k by {
            assert(l.drop_first()[j] == l[j + 1]);
        }
        assert(l.drop_first()[i - 1] == l[i]);
        l.drop_first().remove_ensures(i - 1);
        assert(remove_keyed(l, key, k) == seq![l[0]] + l.drop_first().remove(i - 1));
        assert(seq![l[0]] + l.drop_first().remove(i - 1) =~= l.remove(i));
    }
}

/// Removing an absent key changes nothing.
pub proof fn lemma_remove_keyed_absent<X>(l: Seq<X>, key: spec_fn(X) -> Seq<char>, k: Seq<char>)
    requires
        forall|j: int| 0 <= j < l.len() ==> key(#[trigger] l[j]) != k,
    ensures
        remove_keyed(l, key, k) == l,
    decreases l.len(),
{
    if l.len() > 0 {
        assert forall|j: int| 0 <= j < l.drop_first().len() implies key(
            #[trigger] l.drop_first()[j],
        ) != k by {
            assert(l.drop_first()[j] == l[j + 1]);
        }
        lemma_remove_keyed_absent(l.drop_first(), key, k);
        assert(seq![l[0]] + l.drop_first() =~= l);
    }
}

/// On a list with pairwise distinct keys, a removal keeps the keys
/// distinct, keeps only old entities, and leaves nothing under the removed
/// key.
pub proof fn lemma_remove_keyed_props<X>(l: Seq<X>, key: spec_fn(X) -> Seq<char>, k: Seq<char>)
    requires
        forall|i: int, j: int| 0 <= i < j < l.len() ==> key(#[trigger] l[i]) != key(
            #[trigger] l[j],
        ),
    ensures
        forall|y: X| #[trigger] remove_keyed(l, key, k).contains(y) ==> l.contains(y),
        forall|i: int, j: int|
            0 <= i < j < remove_keyed(l, key, k).len() ==> key(
                #[trigger] remove_keyed(l, key, k)[i],
            ) != key(#[trigger] remove_keyed(l, key, k)[j]),
        forall|i: int| 0 <= i < remove_keyed(l, key, k).len() ==> key(
            #[trigger] remove_keyed(l, key, k)[i],
        ) != k || (exists|j: int, j2: int|
            0 <= j < j2 < l.len() && key(l[j]) == k && key(l[j2]) == k),
    decreases l.len(),
{
    let r = remove_keyed(l, key, k);
    if l.len() == 0 {
    } else if key(l[0]) == k {
        assert(r == l.drop_first());
        assert forall|y: X| #[trigger] r.contains(y) implies l.contains(y) by {
            let i = choose|i: int| 0 <= i < r.len() && r[i] == y;
            assert(l[i + 1] == y);
        }
        assert forall|i: int| 0 <= i < r.len() implies key(#[trigger] r[i]) != k || (exists|
            j: int,
            j2: int,
        |
            0 <= j < j2 < l.len() && key(l[j]) == k && key(l[j2]) == k) by {
            assert(r[i] == l[i + 1]);
            if key(r[i]) == k {
                assert(key(l[0]) == k && key(l[i + 1]) == k);
            }
        }
        assert forall|i: int, j: int| 0 <= i < j < r.len() implies key(#[trigger] r[i]) != key(
            #[trigger] r[j],
        ) by {
            assert(r[i] == l[i + 1]);
            assert(r[j] == l[j + 1]);
        }
    } else {
        let d = l.drop_first();
        assert forall|i: int, j: int| 0 <= i < j < d.len() implies key(#[trigger] d[i]) != key(
            #[trigger] d[j],
        ) by {
            assert(d[i] == l[i + 1]);
            assert(d[j] == l[j + 1]);
        }
        lemma_remove_keyed_props(d, key, k);
        let rd = remove_keyed(d, key, k);
        assert(r == seq![l[0]] + rd);
        assert forall|y: X| #[trigger] r.contains(y) implies l.contains(y) by {
            let i = choose|i: int| 0 <= i < r.len() && r[i] == y;
            if i == 0 {
                assert(l[0] == y);
            } else {
                assert(rd.contains(r[i]));
                let m = choose|m: int| 0 <= m < d.len() && d[m] == y;
                assert(l[m + 1] == y);
            }
        }
        assert forall|i: int| 0 <= i < r.len() implies key(#[trigger] r[i]) != k || (exists|
            j: int,
            j2: int,
        |
            0 <= j < j2 < l.len() && key(l[j]) == k && key(l[j2]) == k) by {
            if i > 0 {
                assert(r[i] == rd[i - 1]);
                if key(rd[i - 1]) == k {
                    let (j, j2) = choose|j: int, j2: int|
                        0 <= j < j2 < d.len() && key(d[j]) == k && key(d[j2]) == k;
                    assert(d[j] == l[j + 1] && d[j2] == l[j2 + 1]);
                    assert(key(l[j + 1]) == k && key(l[j2 + 1]) == k);
                }
            }
        }
        assert forall|i: int, j: int| 0 <= i < j < r.len() implies key(#[trigger] r[i]) != key(
            #[trigger] r[j],
        ) by {
            if i > 0 {
                assert(r[i] == rd[i - 1]);
            }
            assert(r[j] == rd[j - 1]);
            if i == 0 {
                assert(rd.contains(rd[j - 1]));
                let m = choose|m: int| 0 <= m < d.len() && d[m] == rd[j - 1];
                assert(l[m + 1] == rd[j - 1]);
            }
        }
    }
}

} // verus!
