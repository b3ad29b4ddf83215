//! Association lists keyed by strings: the grouping structure that fan-out
//! aggregation builds. An entry pairs a key with a value; keys are compared
//! by their character sequences and kept unique.

use vstd::prelude::*;

verus! {

/// The value stored under the first entry whose key reads `k`, scanning from
/// the front.
pub open spec fn assoc_lookup<T>(s: Seq<(String, T)>, k: Seq<char>) -> Option<T>
    decreases s.len(),
{
    if s.len() == 0 {
        None
    } else if s[0].0@ == k {
        Some(s[0].1)
    } else {
        assoc_lookup(s.drop_first(), k)
    }
}

/// No two entries share a key.
pub open spec fn assoc_keys_unique<T>(s: Seq<(String, T)>) -> bool {
    forall|i: int, j: int| 0 <= i < j < s.len() ==> s[i].0@ != s[j].0@
}

/// A lookup misses exactly when no entry carries the key.
pub proof fn lemma_assoc_lookup_absent<T>(s: Seq<(String, T)>, k: Seq<char>)
    ensures
        (assoc_lookup(s, k) is None) <==> (forall|i: int|
            0 <= i < s.len() ==> (#[trigger] s[i]).0@ != k),
    decreases s.len(),
{
    if s.len() == 0 {
    } else {
        let rest = s.drop_first();
        lemma_assoc_lookup_absent(rest, k);
        if s[0].0@ == k {
        } else {
            if assoc_lookup(s, k) is None {
                assert forall|i: int| 0 <= i < s.len() implies (#[trigger] s[i]).0@ != k by {
                    if i > 0 {
                        assert(rest[i - 1] == s[i]);
                    }
                }
            }
            if forall|i: int| 0 <= i < s.len() ==> (#[trigger] s[i]).0@ != k {
                assert forall|i: int| 0 <= i < rest.len() implies (#[trigger] rest[i]).0@ != k by {
                    assert(rest[i] == s[i + 1]);
                }
            }
        }
    }
}

/// A lookup returns the entry at the first position that carries the key.
pub proof fn lemma_assoc_lookup_found<T>(s: Seq<(String, T)>, n: int, k: Seq<char>)
    requires
        0 <= n < s.len(),
        s[n].0@ == k,
        forall|j: int| 0 <= j < n ==> (#[trigger] s[j]).0@ != k,
    ensures
        assoc_lookup(s, k) == Some(s[n].1),
    decreases n,
{
    if n == 0 {
    } else {
        assert(s[0].0@ != k);
        let rest = s.drop_first();
        assert(rest[n - 1] == s[n]);
        assert forall|j: int| 0 <= j < n - 1 implies (#[trigger] rest[j]).0@ != k by {
            assert(rest[j] == s[j + 1]);
        }
        lemma_assoc_lookup_found(rest, n - 1, k);
    }
}

/// Replacing the value at a key's first position changes that key's lookup
/// and no other.
pub proof fn lemma_assoc_lookup_update<T>(s: Seq<(String, T)>, n: int, val: T, k: Seq<char>)
    requires
        0 <= n < s.len(),
        forall|j: int| 0 <= j < n ==> (#[trigger] s[j]).0@ != s[n].0@,
    ensures
        assoc_lookup(s.update(n, (s[n].0, val)), k) == if k == s[n].0@ {
            Some(val)
        } else {
            assoc_lookup(s, k)
        },
    decreases n,
{
    let t = s.update(n, (s[n].0, val));
    if n == 0 {
        assert(t[0] == (s[0].0, val));
        if k == s[0].0@ {
        } else {
            assert(t.drop_first() =~= s.drop_first());
        }
    } else {
        assert(t[0] == s[0]);
        assert(s[0].0@ != s[n].0@);
        let rest = s.drop_first();
        assert(rest[n - 1] == s[n]);
        assert(t.drop_first() =~= rest.update(n - 1, (rest[n - 1].0, val)));
        assert forall|j: int| 0 <= j < n - 1 implies (#[trigger] rest[j]).0@ != rest[n - 1].0@ by {
            assert(rest[j] == s[j + 1]);
        }
        lemma_assoc_lookup_update(rest, n - 1, val, k);
    }
}

/// Appending an entry changes only the lookup of a key that was absent.
pub proof fn lemma_assoc_lookup_push<T>(s: Seq<(String, T)>, p: (String, T), k: Seq<char>)
    ensures
        assoc_lookup(s.push(p), k) == (match assoc_lookup(s, k) {
            Some(v) => Some(v),
            None => if p.0@ == k {
                Some(p.1)
            } else {
                None
            },
        }),
    decreases s.len(),
{
    if s.len() == 0 {
        assert(s.push(p)[0] == p);
        assert(s.push(p).drop_first() =~= Seq::<(String, T)>::empty());
        assert(assoc_lookup(Seq::<(String, T)>::empty(), k) is None);
    } else {
        assert(s.push(p)[0] == s[0]);
        assert(s.push(p).drop_first() =~= s.drop_first().push(p));
        lemma_assoc_lookup_push(s.drop_first(), p, k);
    }
}

} // verus!
