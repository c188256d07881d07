//! Tenant names ordered as `String`'s `Ord` orders them, and the sorted
//! association list that holds one value per name.
use vstd::prelude::*;

use crate::text::chars_of;
use crate::types::ResourceCapacity;

verus! {

/// Lexicographic order on code points, the order of `String`'s `Ord`.
pub open spec fn seq_lt(a: Seq<char>, b: Seq<char>) -> bool
    decreases a.len(),
{
    if b.len() == 0 {
        false
    } else if a.len() == 0 {
        true
    } else if a[0] != b[0] {
        a[0] < b[0]
    } else {
        seq_lt(a.drop_first(), b.drop_first())
    }
}

pub proof fn lemma_lt_irreflexive(a: Seq<char>)
    ensures
        !seq_lt(a, a),
    decreases a.len(),
{
    if a.len() > 0 {
        lemma_lt_irreflexive(a.drop_first());
    }
}

pub proof fn lemma_lt_asymmetric(a: Seq<char>, b: Seq<char>)
    ensures
        !(seq_lt(a, b) && seq_lt(b, a)),
    decreases a.len(),
{
    if a.len() > 0 && b.len() > 0 && a[0] == b[0] {
        lemma_lt_asymmetric(a.drop_first(), b.drop_first());
    }
}

pub proof fn lemma_lt_transitive(a: Seq<char>, b: Seq<char>, c: Seq<char>)
    requires
        seq_lt(a, b),
        seq_lt(b, c),
    ensures
        seq_lt(a, c),
    decreases a.len(),
{
    if a.len() > 0 && a[0] == b[0] && b[0] == c[0] {
        lemma_lt_transitive(a.drop_first(), b.drop_first(), c.drop_first());
    }
}

pub proof fn lemma_lt_total(a: Seq<char>, b: Seq<char>)
    ensures
        a == b || seq_lt(a, b) || seq_lt(b, a),
    decreases a.len(),
{
    if a.len() > 0 && b.len() > 0 && a[0] == b[0] {
        lemma_lt_total(a.drop_first(), b.drop_first());
        if a.drop_first() == b.drop_first() {
            assert(a =~= seq![a[0]] + a.drop_first());
            assert(b =~= seq![b[0]] + b.drop_first());
        }
    } else if a.len() == 0 && b.len() == 0 {
        assert(a =~= b);
    } else if a.len() > 0 && b.len() > 0 {
        assert((a[0] as int) != (b[0] as int));
    }
}

proof fn lemma_lt_common_prefix(a: Seq<char>, b: Seq<char>, i: int)
    requires
        0 <= i <= a.len(),
        i <= b.len(),
        forall|j: int| 0 <= j < i ==> a[j] == b[j],
    ensures
        seq_lt(a, b) == seq_lt(a.skip(i), b.skip(i)),
    decreases i,
{
    if i > 0 {
        let a1 = a.drop_first();
        let b1 = b.drop_first();
        assert forall|j: int| 0 <= j < i - 1 implies a1[j] == b1[j] by {
            assert(a[j + 1] == b[j + 1]);
        }
        lemma_lt_common_prefix(a1, b1, i - 1);
        assert(a1.skip(i - 1) =~= a.skip(i));
        assert(b1.skip(i - 1) =~= b.skip(i));
    } else {
        assert(a.skip(0) =~= a);
        assert(b.skip(0) =~= b);
    }
}

/// Where one name stands relative to another.
pub enum KeyOrder {
    Before,
    Same,
    After,
}

/// Compares two names character by character.
pub fn key_order(a: &Vec<char>, b: &Vec<char>) -> (r: KeyOrder)
    ensures
        (r is Before) == seq_lt(a@, b@),
        (r is Same) == (a@ == b@),
        (r is After) == seq_lt(b@, a@),
{
    let mut i: usize = 0;
    while i < a.len() && i < b.len() && a[i] == b[i]
        invariant
            i <= a.len(),
            i <= b.len(),
            forall|j: int| 0 <= j < i ==> a@[j] == b@[j],
        decreases a.len() - i,
    {
        i = i + 1;
    }
    proof {
        lemma_lt_common_prefix(a@, b@, i as int);
        lemma_lt_common_prefix(b@, a@, i as int);
        lemma_lt_asymmetric(a@, b@);
        lemma_lt_irreflexive(a@);
    }
    if i == a.len() && i == b.len() {
        assert(a@ =~= b@);
        KeyOrder::Same
    } else if i == a.len() {
        assert(a@.skip(i as int).len() == 0);
        KeyOrder::Before
    } else if i == b.len() {
        assert(b@.skip(i as int).len() == 0);
        KeyOrder::After
    } else {
        assert(a@.skip(i as int)[0] == a@[i as int]);
        assert(b@.skip(i as int)[0] == b@[i as int]);
        assert(a@ != b@) by {
            assert(a@[i as int] != b@[i as int]);
        }
        if a[i] < b[i] {
            KeyOrder::Before
        } else {
            KeyOrder::After
        }
    }
}

/// An association list taken by the names' views.
pub open spec fn entry_views(v: Seq<(String, ResourceCapacity)>) -> Seq<(Seq<char>, ResourceCapacity)> {
    v.map_values(|e: (String, ResourceCapacity)| (e.0@, e.1))
}

/// Names in strictly increasing order (so each occurs once).
pub open spec fn sorted_keys(s: Seq<(Seq<char>, ResourceCapacity)>) -> bool {
    forall|i: int, j: int| 0 <= i < j < s.len() ==> seq_lt(#[trigger] s[i].0, #[trigger] s[j].0)
}

/// The map a list with distinct names stands for.
pub open spec fn assoc_map(s: Seq<(Seq<char>, ResourceCapacity)>) -> Map<Seq<char>, ResourceCapacity> {
    Map::new(
        |k: Seq<char>| exists|i: int| 0 <= i < s.len() && #[trigger] s[i].0 == k,
        |k: Seq<char>| s[choose|i: int| 0 <= i < s.len() && #[trigger] s[i].0 == k].1,
    )
}

/// The map that inserting each pair in turn builds: a later pair replaces
/// an earlier one with the same name.
pub open spec fn insert_all(s: Seq<(Seq<char>, ResourceCapacity)>) -> Map<Seq<char>, ResourceCapacity>
    decreases s.len(),
{
    if s.len() == 0 {
        Map::empty()
    } else {
        insert_all(s.drop_last()).insert(s.last().0, s.last().1)
    }
}

pub proof fn lemma_assoc_at(s: Seq<(Seq<char>, ResourceCapacity)>, i: int)
    requires
        sorted_keys(s),
        0 <= i < s.len(),
    ensures
        assoc_map(s).contains_key(s[i].0),
        assoc_map(s)[s[i].0] == s[i].1,
{
    assert(s[i].0 == s[i].0);
    let j = choose|j: int| 0 <= j < s.len() && #[trigger] s[j].0 == s[i].0;
    if j < i {
        assert(seq_lt(s[j].0, s[i].0));
        lemma_lt_irreflexive(s[i].0);
    } else if j > i {
        assert(seq_lt(s[i].0, s[j].0));
        lemma_lt_irreflexive(s[i].0);
    }
}

/// Inserts or replaces the value of `key`, keeping the names sorted.
pub fn insert_sorted(v: &mut Vec<(String, ResourceCapacity)>, key: String, value: ResourceCapacity)
    requires
        sorted_keys(entry_views(old(v)@)),
    ensures
        sorted_keys(entry_views(final(v)@)),
        assoc_map(entry_views(final(v)@)) == assoc_map(entry_views(old(v)@)).insert(key@, value),
        (forall|i: int| 0 <= i < old(v)@.len() ==> seq_lt(#[trigger] entry_views(old(v)@)[i].0, key@))
            ==> entry_views(final(v)@) == entry_views(old(v)@).push((key@, value)),
{
    let ghost s0 = entry_views(v@);
    let kc = chars_of(key.as_str());
    let n = v.len();
    let mut p: usize = 0;
    let mut found = false;
    while p < n
        invariant_except_break
            !found,
        invariant
            n == v@.len(),
            s0 == entry_views(v@),
            kc@ == key@,
            p <= n,
            forall|i: int| 0 <= i < p ==> seq_lt(#[trigger] s0[i].0, key@),
        ensures
            found ==> p < n && s0[p as int].0 == key@,
            !found ==> p == n || seq_lt(key@, s0[p as int].0),
        decreases n - p,
    {
        let pc = chars_of(v[p].0.as_str());
        assert(s0[p as int].0 == v@[p as int].0@);
        match key_order(&pc, &kc) {
            KeyOrder::Before => {
                p = p + 1;
            },
            KeyOrder::Same => {
                found = true;
                break ;
            },
            KeyOrder::After => {
                break ;
            },
        }
    }
    let ghost kv = key@;
    let ghost entry = (kv, value);
    proof {
        if forall|i: int| 0 <= i < s0.len() ==> seq_lt(#[trigger] s0[i].0, kv) {
            if found {
                assert(seq_lt(s0[p as int].0, kv));
                lemma_lt_irreflexive(kv);
            } else if p < n {
                assert(seq_lt(s0[p as int].0, kv));
                lemma_lt_asymmetric(kv, s0[p as int].0);
            }
        }
    }
    if found {
        v.set(p, (key, value));
        proof {
            let s1 = entry_views(v@);
            assert(s1 =~= s0.update(p as int, entry));
            assert forall|i: int, j: int| 0 <= i < j < s1.len() implies seq_lt(
                #[trigger] s1[i].0,
                #[trigger] s1[j].0,
            ) by {
                assert(seq_lt(s0[i].0, s0[j].0));
            }
            let m0 = assoc_map(s0).insert(kv, value);
            let m1 = assoc_map(s1);
            assert forall|k: Seq<char>| #[trigger] m1.contains_key(k) <==> m0.contains_key(k) by {
                if m1.contains_key(k) {
                    let i = choose|i: int| 0 <= i < s1.len() && #[trigger] s1[i].0 == k;
                    if i != p {
                        assert(s0[i].0 == k);
                    }
                }
                if m0.contains_key(k) && k != kv {
                    let i = choose|i: int| 0 <= i < s0.len() && #[trigger] s0[i].0 == k;
                    assert(s1[i].0 == k);
                }
                if k == kv {
                    assert(s1[p as int].0 == k);
                }
            }
            assert forall|k: Seq<char>| #[trigger] m1.contains_key(k) implies m1[k] == m0[k] by {
                let i = choose|i: int| 0 <= i < s1.len() && #[trigger] s1[i].0 == k;
                lemma_assoc_at(s1, i);
                if i != p {
                    lemma_assoc_at(s0, i);
                    if k == kv {
                        if i < p {
                            assert(seq_lt(s0[i].0, s0[p as int].0));
                        } else {
                            assert(seq_lt(s0[p as int].0, s0[i].0));
                        }
                        lemma_lt_irreflexive(kv);
                    }
                }
            }
            assert(m1 =~= m0);
        }
    } else {
        v.insert(p, (key, value));
        proof {
            let s1 = entry_views(v@);
            assert(s1 =~= s0.insert(p as int, entry));
            if p == n {
                assert(s1 =~= s0.push(entry));
            }
            assert forall|i: int, j: int| 0 <= i < j < s1.len() implies seq_lt(
                #[trigger] s1[i].0,
                #[trigger] s1[j].0,
            ) by {
                if j < p {
                    assert(seq_lt(s0[i].0, s0[j].0));
                } else if j == p {
                } else if i < p {
                    assert(seq_lt(s0[i].0, kv));
                    assert(seq_lt(kv, s0[p as int].0));
                    if j - 1 > p {
                        assert(seq_lt(s0[p as int].0, s0[j - 1].0));
                        lemma_lt_transitive(kv, s0[p as int].0, s0[j - 1].0);
                    }
                    lemma_lt_transitive(s0[i].0, kv, s0[j - 1].0);
                } else if i == p {
                    if j - 1 > p {
                        assert(seq_lt(s0[p as int].0, s0[j - 1].0));
                        lemma_lt_transitive(kv, s0[p as int].0, s0[j - 1].0);
                    }
                } else {
                    assert(seq_lt(s0[i - 1].0, s0[j - 1].0));
                }
            }
            let m0 = assoc_map(s0).insert(kv, value);
            let m1 = assoc_map(s1);
            assert forall|k: Seq<char>| #[trigger] m1.contains_key(k) <==> m0.contains_key(k) by {
                if m1.contains_key(k) {
                    let i = choose|i: int| 0 <= i < s1.len() && #[trigger] s1[i].0 == k;
                    if i < p {
                        assert(s0[i].0 == k);
                    } else if i > p {
                        assert(s0[i - 1].0 == k);
                    }
                }
                if m0.contains_key(k) && k != kv {
                    let i = choose|i: int| 0 <= i < s0.len() && #[trigger] s0[i].0 == k;
                    if i < p {
                        assert(s1[i].0 == k);
                    } else {
                        assert(s1[i + 1].0 == k);
                    }
                }
                if k == kv {
                    assert(s1[p as int].0 == k);
                }
            }
            assert forall|k: Seq<char>| #[trigger] m1.contains_key(k) implies m1[k] == m0[k] by {
                let i = choose|i: int| 0 <= i < s1.len() && #[trigger] s1[i].0 == k;
                lemma_assoc_at(s1, i);
                if i < p {
                    lemma_assoc_at(s0, i);
                    if k == kv {
                        lemma_lt_irreflexive(kv);
                    }
                } else if i > p {
                    lemma_assoc_at(s0, i - 1);
                    if k == kv {
                        if i - 1 > p {
                            assert(seq_lt(s0[p as int].0, s0[i - 1].0));
                            lemma_lt_transitive(kv, s0[p as int].0, s0[i - 1].0);
                        }
                        lemma_lt_irreflexive(kv);
                    }
                }
            }
            assert(m1 =~= m0);
        }
    }
}

} // verus!
