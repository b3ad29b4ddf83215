//! Constraint maps and the `key=value` operator syntax.
//!
//! Auction constraints are labeled exact-match pairs with unique keys; an
//! empty map means no filtering. Operators write one constraint as
//! `key=value`; repeated keys keep the value given last, as inserting into a
//! map would.

use vstd::prelude::*;
use vstd::string::*;

use crate::assoc::{
    assoc_keys_unique, assoc_lookup, lemma_assoc_lookup_absent, lemma_assoc_lookup_push,
    lemma_assoc_lookup_update,
};
use crate::codec::{chars_range_to_string, str_to_chars};
use crate::errors::LatticeError;

verus! {

/// Position `i` splits `s` as its first `key=value` separator.
pub open spec fn key_val_split(s: Seq<char>, i: int) -> bool {
    &&& 0 <= i < s.len()
    &&& s[i] == '='
    &&& forall|j: int| 0 <= j < i ==> s[j] != '='
}

/// Parses a single `key=value` pair: the key is everything before the first
/// `'='`, the value everything after it. A string without `'='` is rejected.
pub fn parse_key_val(s: &str) -> (r: Result<(String, String), LatticeError>)
    ensures
        match r {
            Ok(kv) => exists|i: int|
                {
                    &&& #[trigger] key_val_split(s@, i)
                    &&& kv.0@ == s@.take(i)
                    &&& kv.1@ == s@.skip(i + 1)
                },
            Err(e) => {
                &&& forall|i: int| 0 <= i < s@.len() ==> s@[i] != '='
                &&& e matches LatticeError::Decode(_)
            },
        },
{
    let chars = str_to_chars(s);
    let n = chars.len();
    let mut i: usize = 0;
    while i < n
        invariant
            n == chars@.len(),
            chars@ == s@,
            i <= n,
            forall|j: int| 0 <= j < i ==> s@[j] != '=',
        decreases n - i,
    {
        if chars[i] == '=' {
            let key = chars_range_to_string(&chars, 0, i);
            let value = chars_range_to_string(&chars, i + 1, n);
            proof {
                assert(key_val_split(s@, i as int));
                assert(chars@.subrange(0, i as int) =~= s@.take(i as int));
                assert(chars@.subrange(i + 1 as int, n as int) =~= s@.skip(i as int + 1));
            }
            return Ok((key, value));
        }
        i += 1;
    }
    Err(LatticeError::Decode(String::from_str("no separator in key=value pair")))
}

/// The value the last pair carrying key `k` holds, as inserting the pairs
/// into a map in order would leave it.
pub open spec fn last_value(pairs: Seq<(String, String)>, k: Seq<char>) -> Option<String>
    decreases pairs.len(),
{
    if pairs.len() == 0 {
        None
    } else if pairs.last().0@ == k {
        Some(pairs.last().1)
    } else {
        last_value(pairs.drop_last(), k)
    }
}

/// Appending one pair overrides only its own key.
proof fn lemma_last_value_snoc(s: Seq<(String, String)>, p: (String, String), k: Seq<char>)
    ensures
        last_value(s.push(p), k) == (if p.0@ == k {
            Some(p.1)
        } else {
            last_value(s, k)
        }),
{
    assert(s.push(p).last() == p);
    assert(s.push(p).drop_last() =~= s);
}

/// Stores one constraint: a new key is appended, a repeated key keeps its
/// place and takes the new value.
fn put_pair(out: &mut Vec<(String, String)>, key: String, value: String)
    requires
        assoc_keys_unique(old(out)@),
    ensures
        assoc_keys_unique(final(out)@),
        forall|k: Seq<char>| #[trigger]
            assoc_lookup(final(out)@, k) == (if k == key@ {
                Some(value)
            } else {
                assoc_lookup(old(out)@, k)
            }),
{
    let ghost g0 = out@;
    let mut i: usize = 0;
    while i < out.len()
        invariant
            i <= g0.len(),
            out@ == g0,
            g0 == old(out)@,
            assoc_keys_unique(g0),
            forall|j: int| 0 <= j < i ==> (#[trigger] g0[j]).0@ != key@,
        decreases g0.len() - i,
    {
        if out[i].0 == key {
            let removed = out.remove(i);
            let (kept_key, _replaced) = removed;
            let entry = (kept_key, value);
            let ghost new_entry = entry;
            out.insert(i, entry);
            proof {
                assert(new_entry == (g0[i as int].0, new_entry.1));
                assert(out@ =~= g0.update(i as int, (g0[i as int].0, new_entry.1)));
                assert forall|k: Seq<char>| #[trigger]
                    assoc_lookup(out@, k) == (if k == key@ {
                        Some(new_entry.1)
                    } else {
                        assoc_lookup(g0, k)
                    }) by {
                    lemma_assoc_lookup_update(g0, i as int, new_entry.1, k);
                }
                assert forall|x: int, y: int| 0 <= x < y < out@.len() implies (
                #[trigger] out@[x]).0@ != (#[trigger] out@[y]).0@ by {
                    assert(out@[x].0 == g0[x].0);
                    assert(out@[y].0 == g0[y].0);
                }
            }
            return ;
        }
        i += 1;
    }
    proof {
        lemma_assoc_lookup_absent(g0, key@);
    }
    let entry = (key, value);
    let ghost new_entry = entry;
    out.push(entry);
    proof {
        assert(out@ == g0.push(new_entry));
        assert forall|k: Seq<char>| #[trigger]
            assoc_lookup(out@, k) == (if k == new_entry.0@ {
                Some(new_entry.1)
            } else {
                assoc_lookup(g0, k)
            }) by {
            lemma_assoc_lookup_push(g0, new_entry, k);
            if k == new_entry.0@ && assoc_lookup(g0, k) is Some {
                lemma_assoc_lookup_absent(g0, k);
            }
        }
        assert forall|x: int, y: int| 0 <= x < y < out@.len() implies (#[trigger] out@[x]).0@ != (
        #[trigger] out@[y]).0@ by {
            if y < g0.len() {
                assert(out@[x] == g0[x]);
                assert(out@[y] == g0[y]);
            } else {
                assert(out@[x] == g0[x]);
                assert(out@[y] == new_entry);
            }
        }
    }
}

/// Builds a constraint map from operator-given pairs: keys come out unique,
/// and a key given more than once maps to the value given last, exactly as
/// inserting the pairs into a map in order would leave it.
pub fn constraints_to_hashmap(input: Vec<(String, String)>) -> (r: Vec<(String, String)>)
    ensures
        assoc_keys_unique(r@),
        forall|k: Seq<char>| #[trigger] assoc_lookup(r@, k) == last_value(input@, k),
{
    let ghost orig = input@;
    let mut rem = input;
    let mut out: Vec<(String, String)> = Vec::new();
    proof {
        assert(orig.take(0) =~= Seq::<(String, String)>::empty());
    }
    while rem.len() > 0
        invariant
            rem@.len() <= orig.len(),
            rem@ == orig.skip(orig.len() - rem@.len()),
            assoc_keys_unique(out@),
            forall|k: Seq<char>| #[trigger]
                assoc_lookup(out@, k) == last_value(orig.take(orig.len() - rem@.len()), k),
        decreases rem@.len(),
    {
        let ghost p = orig.len() - rem@.len();
        let pair = rem.remove(0);
        proof {
            assert(orig.skip(p)[0] == orig[p]);
            assert(pair == orig[p]);
            assert(rem@ =~= orig.skip(p + 1));
            assert(orig.take(p + 1) =~= orig.take(p).push(orig[p]));
        }
        let ghost o_before = out@;
        let (key, value) = pair;
        put_pair(&mut out, key, value);
        proof {
            assert forall|k: Seq<char>| #[trigger]
                assoc_lookup(out@, k) == last_value(orig.take(p + 1), k) by {
                lemma_last_value_snoc(orig.take(p), orig[p], k);
            }
        }
    }
    proof {
        assert(orig.take(orig.len() as int) =~= orig);
    }
    out
}

} // verus!
