//! A verified query-string lookup: `key=value` pairs separated by `&`,
//! a pair without `=` having the empty value. The callback handler uses
//! it to read the `code` and `state` fields the provider sends back.

use vstd::prelude::*;
use crate::bytes::{bytes_eq, subvec};

verus! {

/// The index of the first occurrence of `b` in `s`, or `s.len()` if absent.
pub open spec fn find_byte(s: Seq<u8>, b: u8) -> int
    decreases s.len(),
{
    if s.len() == 0 {
        0
    } else if s[0] == b {
        0
    } else {
        1 + find_byte(s.skip(1), b)
    }
}

pub proof fn lemma_find_byte(s: Seq<u8>, b: u8)
    ensures
        0 <= find_byte(s, b) <= s.len(),
        find_byte(s, b) < s.len() ==> s[find_byte(s, b)] == b,
        forall|j: int| 0 <= j < find_byte(s, b) ==> s[j] != b,
    decreases s.len(),
{
    if s.len() != 0 && s[0] != b {
        lemma_find_byte(s.skip(1), b);
        assert forall|j: int| 0 <= j < find_byte(s, b) implies s[j] != b by {
            if j > 0 {
                assert(s.skip(1)[j - 1] == s[j]);
            }
        }
    }
}

/// `find_byte` is pinned down by the scan that witnesses it.
pub proof fn lemma_find_byte_is(s: Seq<u8>, b: u8, i: int)
    requires
        0 <= i <= s.len(),
        forall|j: int| 0 <= j < i ==> s[j] != b,
        i < s.len() ==> s[i] == b,
    ensures
        find_byte(s, b) == i,
    decreases s.len(),
{
    if s.len() != 0 && s[0] != b {
        assert(forall|j: int| 0 <= j < s.skip(1).len() ==> s.skip(1)[j] == s[j + 1]);
        lemma_find_byte_is(s.skip(1), b, i - 1);
    }
}

/// The value bound to `name` in the query string `q`, if any: the first
/// `&`-separated pair whose key equals `name` wins.
pub open spec fn query_get_spec(q: Seq<u8>, name: Seq<u8>) -> Option<Seq<u8>>
    decreases q.len(),
    via query_get_spec_decreases
{
    if q.len() == 0 {
        None
    } else {
        let amp = find_byte(q, 38);
        let pair = q.take(amp);
        let eq = find_byte(pair, 61);
        let key = pair.take(eq);
        let value = if eq < pair.len() {
            pair.skip(eq + 1)
        } else {
            Seq::empty()
        };
        if key == name {
            Some(value)
        } else if amp < q.len() {
            query_get_spec(q.skip(amp + 1), name)
        } else {
            None
        }
    }
}

#[via_fn]
proof fn query_get_spec_decreases(q: Seq<u8>, name: Seq<u8>) {
    lemma_find_byte(q, 38);
}

/// Scans for `b` from `start`; the result is `find_byte` of the suffix,
/// shifted back to an index into `q`.
fn find_from(q: &Vec<u8>, start: usize, b: u8) -> (j: usize)
    requires
        start <= q@.len(),
    ensures
        start <= j <= q@.len(),
        find_byte(q@.skip(start as int), b) == j - start,
        j < q@.len() ==> q@[j as int] == b,
        forall|k: int| start <= k < j ==> q@[k] != b,
{
    let mut j: usize = start;
    while j < q.len()
        invariant
            start <= j <= q@.len(),
            forall|k: int| start <= k < j ==> q@[k] != b,
        decreases q@.len() - j,
    {
        if q[j] == b {
            proof {
                let s = q@.skip(start as int);
                assert(forall|k: int| 0 <= k < s.len() ==> s[k] == q@[k + start]);
                lemma_find_byte_is(s, b, j - start);
            }
            return j;
        }
        j += 1;
    }
    proof {
        let s = q@.skip(start as int);
        assert(forall|k: int| 0 <= k < s.len() ==> s[k] == q@[k + start]);
        lemma_find_byte_is(s, b, q@.len() - start);
    }
    j
}

/// Looks `name` up in the query string `q`.
pub fn query_get(q: &Vec<u8>, name: &Vec<u8>) -> (r: Option<Vec<u8>>)
    ensures
        match r {
            Some(v) => query_get_spec(q@, name@) == Some(v@),
            None => query_get_spec(q@, name@) is None,
        },
{
    let mut start: usize = 0;
    assert(q@.skip(0) =~= q@);
    while start < q.len()
        invariant
            start <= q@.len(),
            query_get_spec(q@, name@) == query_get_spec(q@.skip(start as int), name@),
        decreases q@.len() - start,
    {
        let ghost s = q@.skip(start as int);
        let amp = find_from(q, start, 38);
        let eq = find_from(q, start, 61);
        let ghost pair = s.take((amp - start) as int);
        proof {
            assert(pair =~= q@.subrange(start as int, amp as int));
        }
        // Position of `=` inside this pair: `eq` if it falls before the
        // `&`, else the pair has no `=` at all.
        let key_end: usize = if eq < amp { eq } else { amp };
        proof {
            assert(forall|k: int| 0 <= k < pair.len() ==> pair[k] == q@[k + start]);
            if eq < amp {
                lemma_find_byte_is(pair, 61, eq - start);
            } else {
                lemma_find_byte_is(pair, 61, pair.len() as int);
            }
        }
        let key = subvec(q, start, key_end);
        proof {
            assert(pair.take(find_byte(pair, 61)) =~= q@.subrange(start as int, key_end as int));
        }
        if bytes_eq(&key, name) {
            let value = if eq < amp {
                subvec(q, eq + 1, amp)
            } else {
                Vec::new()
            };
            proof {
                if eq < amp {
                    assert(pair.skip(find_byte(pair, 61) + 1)
                        =~= q@.subrange(eq as int + 1, amp as int));
                } else {
                    assert(value@ =~= Seq::<u8>::empty());
                }
            }
            return Some(value);
        }
        if amp < q.len() {
            proof {
                assert(s.skip((amp - start) as int + 1) =~= q@.skip(amp as int + 1));
            }
            start = amp + 1;
        } else {
            return None;
        }
    }
    None
}

} // verus!
