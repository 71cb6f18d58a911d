//! Percent-encoding of query-string values, over bytes: unreserved
//! characters pass through, every other byte becomes `%XX` with
//! upper-case hex digits.

use vstd::prelude::*;

verus! {

/// The unreserved characters of a query string: letters, digits,
/// `-`, `.`, `_` and `~`.
pub open spec fn is_unreserved(b: u8) -> bool {
    (65 <= b <= 90)  // A-Z
    || (97 <= b <= 122)  // a-z
    || (48 <= b <= 57)  // 0-9
    || b == 45  // -
    || b == 46  // .
    || b == 95  // _
    || b == 126  // ~
}

/// The upper-case hex digit for a value below 16.
pub open spec fn hex_digit(n: u8) -> u8 {
    if n < 10 {
        (48 + n) as u8  // '0'..'9'
    } else {
        (55 + n) as u8  // 'A'..'F'
    }
}

/// The encoding of one byte: itself if unreserved, else `%XX`.
pub open spec fn enc_byte(b: u8) -> Seq<u8> {
    if is_unreserved(b) {
        seq![b]
    } else {
        seq![37u8, hex_digit(b / 16), hex_digit(b % 16)]
    }
}

/// The percent-encoding of a byte string.
pub open spec fn enc(s: Seq<u8>) -> Seq<u8>
    decreases s.len(),
{
    if s.len() == 0 {
        Seq::empty()
    } else {
        enc_byte(s[0]) + enc(s.skip(1))
    }
}

/// Encoding distributes over concatenation.
pub proof fn lemma_enc_concat(a: Seq<u8>, b: Seq<u8>)
    ensures
        enc(a + b) == enc(a) + enc(b),
    decreases a.len(),
{
    if a.len() == 0 {
        assert(a + b =~= b);
        assert(enc(a) + enc(b) =~= enc(b));
    } else {
        lemma_enc_concat(a.skip(1), b);
        assert((a + b).skip(1) =~= a.skip(1) + b);
        assert(enc_byte((a + b)[0]) + (enc(a.skip(1)) + enc(b))
            =~= (enc_byte(a[0]) + enc(a.skip(1))) + enc(b));
    }
}

/// Percent-encodes `s`.
pub fn url_encode(s: &Vec<u8>) -> (r: Vec<u8>)
    ensures
        r@ == enc(s@),
{
    let mut r: Vec<u8> = Vec::new();
    let mut i: usize = 0;
    while i < s.len()
        invariant
            i <= s@.len(),
            r@ == enc(s@.take(i as int)),
        decreases s@.len() - i,
    {
        let b = s[i];
        let ghost prefix = s@.take(i as int);
        if (65 <= b && b <= 90) || (97 <= b && b <= 122) || (48 <= b && b <= 57)
            || b == 45 || b == 46 || b == 95 || b == 126
        {
            r.push(b);
        } else {
            let hi = b >> 4;
            let lo = b & 15;
            assert(b >> 4 == b / 16 && b & 15 == b % 16 && b >> 4 < 16) by (bit_vector);
            r.push(37);
            if hi < 10 {
                r.push(48 + hi);
            } else {
                r.push(55 + hi);
            }
            if lo < 10 {
                r.push(48 + lo);
            } else {
                r.push(55 + lo);
            }
        }
        proof {
            lemma_enc_concat(prefix, seq![s@[i as int]]);
            assert(s@.take(i as int + 1) =~= prefix + seq![s@[i as int]]);
            reveal_with_fuel(enc, 2);
            assert(seq![s@[i as int]].skip(1) =~= Seq::<u8>::empty());
            assert(enc(seq![s@[i as int]]) =~= enc_byte(s@[i as int]));
            assert(r@ =~= enc(prefix) + enc_byte(s@[i as int]));
        }
        i += 1;
    }
    assert(s@.take(s@.len() as int) =~= s@);
    r
}

} // verus!
