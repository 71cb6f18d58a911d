//! Extracting the path component of an absolute URL: the bytes from the
//! first `/` after the `://` separator up to the first `?` or `#`. The
//! middleware intercepts the callback by path alone, so the configured
//! redirect URL is reduced to its path once, at construction.

use vstd::prelude::*;
use crate::query::{find_byte, lemma_find_byte, lemma_find_byte_is};
use crate::bytes::subvec;

verus! {

/// The index of the first `://` in `s`, if any.
pub open spec fn find_scheme_sep(s: Seq<u8>) -> Option<int>
    decreases s.len(),
{
    if s.len() < 3 {
        None
    } else if s[0] == 58 && s[1] == 47 && s[2] == 47 {
        Some(0int)
    } else {
        match find_scheme_sep(s.skip(1)) {
            Some(i) => Some(i + 1),
            None => None,
        }
    }
}

proof fn lemma_find_scheme_sep_is(s: Seq<u8>, i: int)
    requires
        0 <= i,
        i + 3 <= s.len(),
        forall|k: int| 0 <= k < i ==> !(#[trigger] s[k] == 58 && s[k + 1] == 47 && s[k + 2] == 47),
        s[i] == 58 && s[i + 1] == 47 && s[i + 2] == 47,
    ensures
        find_scheme_sep(s) == Some(i),
    decreases s.len(),
{
    if !(s[0] == 58 && s[1] == 47 && s[2] == 47) {
        assert(forall|k: int| 0 <= k < s.skip(1).len() ==> s.skip(1)[k] == s[k + 1]);
        lemma_find_scheme_sep_is(s.skip(1), i - 1);
    }
}

proof fn lemma_find_scheme_sep_none(s: Seq<u8>)
    requires
        forall|k: int| 0 <= k && k + 3 <= s.len()
            ==> !(#[trigger] s[k] == 58 && s[k + 1] == 47 && s[k + 2] == 47),
    ensures
        find_scheme_sep(s) is None,
    decreases s.len(),
{
    if s.len() >= 3 {
        assert(forall|k: int| 0 <= k < s.skip(1).len() ==> s.skip(1)[k] == s[k + 1]);
        lemma_find_scheme_sep_none(s.skip(1));
    }
}

/// The path component of `url`: from the first `/` after the authority
/// up to the first `?` or `#`; a single `/` when the URL has no path.
pub open spec fn url_path_spec(url: Seq<u8>) -> Seq<u8> {
    let rest = match find_scheme_sep(url) {
        Some(i) => url.skip(i + 3),
        None => url,
    };
    let slash = find_byte(rest, 47);
    if slash == rest.len() {
        seq![47u8]
    } else {
        let p = rest.skip(slash);
        let qm = find_byte(p, 63);
        let hash = find_byte(p, 35);
        p.take(if qm <= hash { qm } else { hash })
    }
}

/// Computes the path component of `url`.
pub fn url_path_of(url: &Vec<u8>) -> (r: Vec<u8>)
    ensures
        r@ == url_path_spec(url@),
{
    // Find the `://` separator.
    let mut sep: usize = 0;
    let mut found = false;
    while !found && url.len() >= 3 && sep <= url.len() - 3
        invariant
            sep <= url.len(),
            !found ==> forall|k: int| 0 <= k < sep
                ==> !(#[trigger] url@[k] == 58 && url@[k + 1] == 47 && url@[k + 2] == 47),
            found ==> sep + 3 <= url.len()
                && url@[sep as int] == 58 && url@[sep as int + 1] == 47
                && url@[sep as int + 2] == 47
                && forall|k: int| 0 <= k < sep
                    ==> !(#[trigger] url@[k] == 58 && url@[k + 1] == 47 && url@[k + 2] == 47),
        decreases url.len() - sep + (if found { 0int } else { 1int }),
    {
        if url[sep] == 58 && url[sep + 1] == 47 && url[sep + 2] == 47 {
            found = true;
        } else {
            sep += 1;
        }
    }
    let after: usize = if found {
        proof {
            lemma_find_scheme_sep_is(url@, sep as int);
        }
        sep + 3
    } else {
        proof {
            lemma_find_scheme_sep_none(url@);
        }
        0
    };
    let ghost rest = if found { url@.skip(after as int) } else { url@ };
    proof {
        assert(url@.skip(0) =~= url@);
        assert(rest =~= url@.skip(after as int));
        assert(forall|k: int| 0 <= k < rest.len() ==> rest[k] == url@[k + after]);
    }
    // Find the first `/` of the path.
    let mut slash: usize = after;
    while slash < url.len() && url[slash] != 47
        invariant
            after <= slash <= url.len(),
            forall|k: int| after <= k < slash ==> url@[k] != 47,
        decreases url.len() - slash,
    {
        slash += 1;
    }
    proof {
        lemma_find_byte_is(rest, 47, slash - after);
    }
    if slash == url.len() {
        let mut r: Vec<u8> = Vec::new();
        r.push(47);
        assert(r@ =~= seq![47u8]);
        return r;
    }
    let ghost p = rest.skip((slash - after) as int);
    proof {
        assert(forall|k: int| 0 <= k < p.len() ==> p[k] == url@[k + slash]);
    }
    // The path ends at the first `?` or `#`.
    let mut pend: usize = slash;
    while pend < url.len() && url[pend] != 63 && url[pend] != 35
        invariant
            slash <= pend <= url.len(),
            forall|k: int| slash <= k < pend ==> url@[k] != 63 && url@[k] != 35,
        decreases url.len() - pend,
    {
        pend += 1;
    }
    proof {
        lemma_find_byte(p, 63);
        lemma_find_byte(p, 35);
        if pend < url.len() {
            if url@[pend as int] == 63 {
                lemma_find_byte_is(p, 63, pend - slash);
            } else {
                lemma_find_byte_is(p, 35, pend - slash);
            }
        } else {
            lemma_find_byte_is(p, 63, p.len() as int);
            lemma_find_byte_is(p, 35, p.len() as int);
        }
        let qm = find_byte(p, 63);
        let hash = find_byte(p, 35);
        assert(p.take(if qm <= hash { qm } else { hash })
            =~= url@.subrange(slash as int, pend as int));
    }
    subvec(url, slash, pend)
}

} // verus!
