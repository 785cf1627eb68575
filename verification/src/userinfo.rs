//! Shaping the user-info response for display: each field of the
//! provider's profile object becomes one `{propriété, valeur}` object,
//! and the whole listing is serialized as a JSON array.
//!
//! The process hands this module the fields as plain pairs — the key's
//! bytes and the value's already-serialized JSON text — and gets the
//! final JSON bytes back.

use crate::query::append_bytes;
use vstd::prelude::*;
use vstd::string::StrSliceExecFns;
use vstd::string::StringSliceAdditionalSpecFns;
use vstd::utf8::encode_utf8;

verus! {

/// Lowercase hex digit of a value below sixteen.
pub open spec fn spec_json_hex(v: int) -> u8 {
    if v < 10 {
        (48 + v) as u8
    } else {
        (87 + v) as u8
    }
}

/// JSON string escaping, byte by byte: quote and backslash get a
/// backslash, the named control characters their short forms, the other
/// control bytes a `\u00xx` escape; everything else (multi-byte UTF-8
/// included) passes through.
pub open spec fn spec_json_escape_byte(b: u8) -> Seq<u8> {
    if b == 34 {
        seq![92u8, 34u8]
    } else if b == 92 {
        seq![92u8, 92u8]
    } else if b == 8 {
        seq![92u8, 98u8]
    } else if b == 9 {
        seq![92u8, 116u8]
    } else if b == 10 {
        seq![92u8, 110u8]
    } else if b == 12 {
        seq![92u8, 102u8]
    } else if b == 13 {
        seq![92u8, 114u8]
    } else if b < 32 {
        seq![92u8, 117u8, 48u8, 48u8, spec_json_hex(b as int / 16), spec_json_hex(b as int % 16)]
    } else {
        seq![b]
    }
}

pub open spec fn spec_json_escape(s: Seq<u8>) -> Seq<u8>
    decreases s.len(),
{
    if s.len() == 0 {
        Seq::<u8>::empty()
    } else {
        spec_json_escape_byte(s[0]) + spec_json_escape(s.skip(1))
    }
}

/// Escape a byte string for inclusion inside a JSON string literal.
pub fn json_escape(s: &Vec<u8>) -> (r: Vec<u8>)
    ensures
        r@ == spec_json_escape(s@),
{
    let mut out: Vec<u8> = Vec::new();
    let mut i: usize = 0;
    proof {
        assert(s@.skip(0) =~= s@);
    }
    while i < s.len()
        invariant
            i <= s.len(),
            out@ + spec_json_escape(s@.skip(i as int)) == spec_json_escape(s@),
        decreases s.len() - i,
    {
        let ghost rem = s@.skip(i as int);
        let ghost before = out@;
        proof {
            assert(rem[0] == s@[i as int]);
        }
        let b = s[i];
        if b == 34 {
            out.push(92);
            out.push(34);
        } else if b == 92 {
            out.push(92);
            out.push(92);
        } else if b == 8 {
            out.push(92);
            out.push(98);
        } else if b == 9 {
            out.push(92);
            out.push(116);
        } else if b == 10 {
            out.push(92);
            out.push(110);
        } else if b == 12 {
            out.push(92);
            out.push(102);
        } else if b == 13 {
            out.push(92);
            out.push(114);
        } else if b < 32 {
            out.push(92);
            out.push(117);
            out.push(48);
            out.push(48);
            let h1: u8 = b / 16;
            let h2: u8 = b % 16;
            out.push(if h1 < 10 {
                48 + h1
            } else {
                87 + h1
            });
            out.push(if h2 < 10 {
                48 + h2
            } else {
                87 + h2
            });
        } else {
            out.push(b);
        }
        proof {
            assert(out@ =~= before + spec_json_escape_byte(rem[0]));
            assert(rem.skip(1) =~= s@.skip(i + 1));
            assert(spec_json_escape(rem) == spec_json_escape_byte(rem[0]) + spec_json_escape(
                s@.skip(i + 1),
            ));
            assert(out@ + spec_json_escape(s@.skip(i + 1)) =~= before + spec_json_escape(rem));
        }
        i = i + 1;
    }
    proof {
        assert(s@.skip(s@.len() as int) =~= Seq::<u8>::empty());
        assert(out@ + Seq::<u8>::empty() =~= out@);
    }
    out
}

/// One listing entry: the field's name under `propriété` as an escaped
/// JSON string, its already-serialized value under `valeur`, verbatim.
pub open spec fn spec_entry(k: Seq<u8>, v: Seq<u8>) -> Seq<u8> {
    encode_utf8("{\"propri\u{e9}t\u{e9}\":\""@) + spec_json_escape(k) + encode_utf8(
        "\",\"valeur\":"@,
    ) + v + encode_utf8("}"@)
}

pub open spec fn spec_entries_rest(ps: Seq<(Vec<u8>, Vec<u8>)>) -> Seq<u8>
    decreases ps.len(),
{
    if ps.len() == 0 {
        Seq::<u8>::empty()
    } else {
        encode_utf8(","@) + spec_entry(ps[0].0@, ps[0].1@) + spec_entries_rest(ps.skip(1))
    }
}

pub open spec fn spec_entries(ps: Seq<(Vec<u8>, Vec<u8>)>) -> Seq<u8> {
    if ps.len() == 0 {
        Seq::<u8>::empty()
    } else {
        spec_entry(ps[0].0@, ps[0].1@) + spec_entries_rest(ps.skip(1))
    }
}

/// The whole listing: a JSON array of the entries, in the order given.
pub open spec fn spec_userinfos_json(ps: Seq<(Vec<u8>, Vec<u8>)>) -> Seq<u8> {
    encode_utf8("["@) + spec_entries(ps) + encode_utf8("]"@)
}

/// Serialize the profile fields for display.
pub fn format_userinfos(ps: &Vec<(Vec<u8>, Vec<u8>)>) -> (r: Vec<u8>)
    ensures
        r@ == spec_userinfos_json(ps@),
{
    let mut out = "[".as_bytes_vec();
    let mut i: usize = 0;
    while i < ps.len()
        invariant
            i <= ps.len(),
            i == 0 ==> out@ == encode_utf8("["@) && ps@.skip(0) == ps@,
            i > 0 ==> out@ + spec_entries_rest(ps@.skip(i as int)) == encode_utf8("["@)
                + spec_entries(ps@),
        decreases ps.len() - i,
    {
        let ghost before = out@;
        let ghost rem = ps@.skip(i as int);
        proof {
            assert(rem[0] == ps@[i as int]);
            assert(rem.skip(1) =~= ps@.skip(i + 1));
        }
        if i > 0 {
            let c = ",".as_bytes_vec();
            append_bytes(&mut out, &c);
        }
        let pair: &(Vec<u8>, Vec<u8>) = &ps[i];
        let q1 = "{\"propri\u{e9}t\u{e9}\":\"".as_bytes_vec();
        append_bytes(&mut out, &q1);
        let ek = json_escape(&pair.0);
        append_bytes(&mut out, &ek);
        let q2 = "\",\"valeur\":".as_bytes_vec();
        append_bytes(&mut out, &q2);
        append_bytes(&mut out, &pair.1);
        let q3 = "}".as_bytes_vec();
        append_bytes(&mut out, &q3);
        proof {
            if i == 0 {
                assert(out@ =~= encode_utf8("["@) + spec_entry(ps@[0].0@, ps@[0].1@));
                assert(spec_entries(ps@) == spec_entry(ps@[0].0@, ps@[0].1@)
                    + spec_entries_rest(ps@.skip(1)));
                assert(out@ + spec_entries_rest(ps@.skip(1)) =~= encode_utf8("["@)
                    + spec_entries(ps@));
            } else {
                assert(out@ =~= before + (encode_utf8(","@) + spec_entry(rem[0].0@, rem[0].1@)));
                assert(spec_entries_rest(rem) == encode_utf8(","@) + spec_entry(
                    rem[0].0@,
                    rem[0].1@,
                ) + spec_entries_rest(ps@.skip(i + 1)));
                assert(out@ + spec_entries_rest(ps@.skip(i + 1)) =~= before
                    + spec_entries_rest(rem));
            }
        }
        i = i + 1;
    }
    let close = "]".as_bytes_vec();
    append_bytes(&mut out, &close);
    proof {
        if ps@.len() == 0 {
            assert(out@ =~= spec_userinfos_json(ps@));
        } else {
            assert(ps@.skip(ps@.len() as int) =~= Seq::<(Vec<u8>, Vec<u8>)>::empty());
            assert(spec_entries_rest(Seq::<(Vec<u8>, Vec<u8>)>::empty()) == Seq::<u8>::empty());
            assert(out@ =~= spec_userinfos_json(ps@));
        }
    }
    out
}

} // verus!
