//! Form-urlencoding of query components, as the authorization URL
//! serializes its parameters: unreserved bytes pass through, a space
//! becomes `+`, every other byte becomes `%XX` with uppercase hex.

use crate::query::spec_is_hex;
use crate::query::spec_hex_val;
use crate::query::spec_pct_decode;
use vstd::prelude::*;

verus! {

/// Bytes the serializer keeps verbatim: ASCII alphanumerics and
/// `*`, `-`, `.`, `_`.
pub open spec fn spec_unreserved(b: u8) -> bool {
    (48 <= b <= 57) || (65 <= b <= 90) || (97 <= b <= 122) || b == 42 || b == 45 || b == 46
        || b == 95
}

/// Uppercase hex digit of a value below sixteen.
pub open spec fn spec_hex_digit(v: int) -> u8 {
    if v < 10 {
        (48 + v) as u8
    } else {
        (55 + v) as u8
    }
}

pub open spec fn spec_enc_byte(b: u8) -> Seq<u8> {
    if spec_unreserved(b) {
        seq![b]
    } else if b == 32 {
        seq![43u8]
    } else {
        seq![37u8, spec_hex_digit(b as int / 16), spec_hex_digit(b as int % 16)]
    }
}

pub open spec fn spec_enc(s: Seq<u8>) -> Seq<u8>
    decreases s.len(),
{
    if s.len() == 0 {
        Seq::<u8>::empty()
    } else {
        spec_enc_byte(s[0]) + spec_enc(s.skip(1))
    }
}

fn enc_unreserved(b: u8) -> (r: bool)
    ensures
        r == spec_unreserved(b),
{
    (48 <= b && b <= 57) || (65 <= b && b <= 90) || (97 <= b && b <= 122) || b == 42 || b == 45
        || b == 46 || b == 95
}

fn hex_digit(v: u8) -> (r: u8)
    requires
        v < 16,
    ensures
        r == spec_hex_digit(v as int),
{
    if v < 10 {
        48 + v
    } else {
        55 + v
    }
}

/// Form-urlencode a byte string.
pub fn urlencode(s: &Vec<u8>) -> (r: Vec<u8>)
    ensures
        r@ == spec_enc(s@),
{
    let mut out: Vec<u8> = Vec::new();
    let mut i: usize = 0;
    proof {
        assert(s@.skip(0) =~= s@);
    }
    while i < s.len()
        invariant
            i <= s.len(),
            out@ + spec_enc(s@.skip(i as int)) == spec_enc(s@),
        decreases s.len() - i,
    {
        let ghost rem = s@.skip(i as int);
        let ghost before = out@;
        proof {
            assert(rem[0] == s@[i as int]);
        }
        let b = s[i];
        if enc_unreserved(b) {
            out.push(b);
        } else if b == 32 {
            out.push(43);
        } else {
            out.push(37);
            out.push(hex_digit(b / 16));
            out.push(hex_digit(b % 16));
        }
        proof {
            assert(out@ =~= before + spec_enc_byte(rem[0]));
            assert(rem.skip(1) =~= s@.skip(i + 1));
            assert(spec_enc(rem) == spec_enc_byte(rem[0]) + spec_enc(s@.skip(i + 1)));
            assert(out@ + spec_enc(s@.skip(i + 1)) =~= before + spec_enc(rem));
        }
        i = i + 1;
    }
    proof {
        assert(s@.skip(s@.len() as int) =~= Seq::<u8>::empty());
        assert(out@ + Seq::<u8>::empty() =~= out@);
    }
    out
}

pub proof fn lemma_hex_digit_roundtrip(v: int)
    requires
        0 <= v < 16,
    ensures
        spec_is_hex(spec_hex_digit(v)),
        spec_hex_val(spec_hex_digit(v)) == v,
{
}

/// Percent-decoding inverts form-urlencoding: whatever byte string the
/// authorization URL carries in an encoded parameter, the query parser
/// on the other side recovers it exactly.
pub proof fn lemma_decode_inverts_encode(s: Seq<u8>)
    ensures
        spec_pct_decode(spec_enc(s)) == s,
    decreases s.len(),
{
    if s.len() == 0 {
    } else {
        let b = s[0];
        let e = spec_enc_byte(b);
        let rest = spec_enc(s.skip(1));
        lemma_decode_inverts_encode(s.skip(1));
        assert(spec_enc(s) == e + rest);
        if spec_unreserved(b) {
            assert((e + rest)[0] == b);
            assert((e + rest).skip(1) =~= rest);
            assert(spec_pct_decode(e + rest) == seq![b] + s.skip(1));
        } else if b == 32 {
            assert((e + rest)[0] == 43);
            assert((e + rest).skip(1) =~= rest);
            assert(spec_pct_decode(e + rest) == seq![32u8] + s.skip(1));
        } else {
            let h1 = spec_hex_digit(b as int / 16);
            let h2 = spec_hex_digit(b as int % 16);
            lemma_hex_digit_roundtrip(b as int / 16);
            lemma_hex_digit_roundtrip(b as int % 16);
            assert((e + rest)[0] == 37);
            assert((e + rest)[1] == h1);
            assert((e + rest)[2] == h2);
            assert((e + rest).len() >= 3);
            assert((e + rest).skip(3) =~= rest);
            assert(spec_hex_val(h1) * 16 + spec_hex_val(h2) == b as int);
            assert(spec_pct_decode(e + rest) == seq![b] + s.skip(1));
        }
        assert(seq![s[0]] + s.skip(1) =~= s);
    }
}

} // verus!
