//! Query strings: the exact form encoding of keys and values, and the
//! query string of a list of pairs. Unset optional fields contribute no
//! pair, so they never appear in the outgoing query string.
use crate::num::{digit_char, int_rep};
use crate::text::chars_to_string;
use crate::text::str_chars;
use vstd::prelude::*;

verus! {

broadcast use vstd::seq::group_seq_axioms, vstd::std_specs::vec::group_vec_axioms;

/// The characters that the form encoding leaves as they are.
pub open spec fn unreserved(c: char) -> bool {
    ('a' <= c && c <= 'z') || ('A' <= c && c <= 'Z') || ('0' <= c && c <= '9') || c == '*' || c
        == '-' || c == '.' || c == '_'
}

/// The upper-case hexadecimal digit for a value below sixteen.
pub open spec fn hex_upper(d: int) -> char {
    if d < 10 {
        digit_char(d)
    } else if d == 10 {
        'A'
    } else if d == 11 {
        'B'
    } else if d == 12 {
        'C'
    } else if d == 13 {
        'D'
    } else if d == 14 {
        'E'
    } else {
        'F'
    }
}

/// The bytes of a character under UTF-8.
pub open spec fn utf8_bytes(c: char) -> Seq<u8> {
    let v = c as u32;
    if v < 0x80 {
        seq![v as u8]
    } else if v < 0x800 {
        seq![(0xC0 + v / 64) as u8, (0x80 + v % 64) as u8]
    } else if v < 0x10000 {
        seq![(0xE0 + v / 4096) as u8, (0x80 + (v / 64) % 64) as u8, (0x80 + v % 64) as u8]
    } else {
        seq![
            (0xF0 + v / 262144) as u8,
            (0x80 + (v / 4096) % 64) as u8,
            (0x80 + (v / 64) % 64) as u8,
            (0x80 + v % 64) as u8,
        ]
    }
}

/// The percent escape of one byte.
pub open spec fn pct(b: u8) -> Seq<char> {
    seq!['%', hex_upper(b as int / 16), hex_upper(b as int % 16)]
}

/// The percent escapes of a byte string.
pub open spec fn pct_all(bs: Seq<u8>) -> Seq<char>
    decreases bs.len(),
{
    if bs.len() == 0 {
        Seq::empty()
    } else {
        pct(bs[0]) + pct_all(bs.drop_first())
    }
}

/// The form encoding of one character: unreserved characters stand for
/// themselves, a space becomes a plus, everything else is percent-escaped
/// byte by byte.
pub open spec fn form_char(c: char) -> Seq<char> {
    if unreserved(c) {
        seq![c]
    } else if c == ' ' {
        seq!['+']
    } else {
        pct_all(utf8_bytes(c))
    }
}

/// The form encoding of a string.
pub open spec fn form_enc(s: Seq<char>) -> Seq<char>
    decreases s.len(),
{
    if s.len() == 0 {
        Seq::empty()
    } else {
        form_char(s[0]) + form_enc(s.drop_first())
    }
}

/// The query string of a list of key-value pairs: `k=v` joined by `&`,
/// both sides form-encoded.
pub open spec fn query_of(pairs: Seq<(Seq<char>, Seq<char>)>) -> Seq<char>
    decreases pairs.len(),
{
    if pairs.len() == 0 {
        Seq::empty()
    } else {
        let head = form_enc(pairs[0].0) + seq!['='] + form_enc(pairs[0].1);
        if pairs.len() == 1 {
            head
        } else {
            head + seq!['&'] + query_of(pairs.drop_first())
        }
    }
}

/// The character view of executable pairs.
pub open spec fn pairs_kv(v: Seq<(String, String)>) -> Seq<(Seq<char>, Seq<char>)> {
    Seq::new(v.len(), |k: int| (v[k].0@, v[k].1@))
}

fn hex_upper_of(d: u32) -> (c: char)
    requires
        d < 16,
    ensures
        c == hex_upper(d as int),
{
    match d {
        0 => '0',
        1 => '1',
        2 => '2',
        3 => '3',
        4 => '4',
        5 => '5',
        6 => '6',
        7 => '7',
        8 => '8',
        9 => '9',
        10 => 'A',
        11 => 'B',
        12 => 'C',
        13 => 'D',
        14 => 'E',
        _ => 'F',
    }
}

fn push_pct(b: u8, out: &mut Vec<char>)
    ensures
        final(out)@ == old(out)@ + pct(b),
{
    out.push('%');
    out.push(hex_upper_of(b as u32 / 16));
    out.push(hex_upper_of(b as u32 % 16));
    proof {
        assert(out@ =~= old(out)@ + pct(b));
    }
}

/// Appends the form encoding of one character.
fn push_form_char(c: char, out: &mut Vec<char>)
    ensures
        final(out)@ == old(out)@ + form_char(c),
{
    let v = c as u32;
    if ('a' <= c && c <= 'z') || ('A' <= c && c <= 'Z') || ('0' <= c && c <= '9') || c == '*' || c
        == '-' || c == '.' || c == '_' {
        out.push(c);
        proof {
            assert(out@ =~= old(out)@ + form_char(c));
        }
    } else if c == ' ' {
        out.push('+');
        proof {
            assert(out@ =~= old(out)@ + form_char(c));
        }
    } else if v < 0x80 {
        push_pct(v as u8, out);
        proof {
            assert(utf8_bytes(c) =~= seq![v as u8]);
            lemma_pct_all1(v as u8);
            assert(out@ =~= old(out)@ + form_char(c));
        }
    } else if v < 0x800 {
        let b0: u8 = (0xC0 + v / 64) as u8;
        let b1: u8 = (0x80 + v % 64) as u8;
        push_pct(b0, out);
        push_pct(b1, out);
        proof {
            assert(utf8_bytes(c) =~= seq![b0, b1]);
            lemma_pct_all2(b0, b1);
            assert(out@ =~= old(out)@ + form_char(c));
        }
    } else if v < 0x10000 {
        let b0: u8 = (0xE0 + v / 4096) as u8;
        let b1: u8 = (0x80 + (v / 64) % 64) as u8;
        let b2: u8 = (0x80 + v % 64) as u8;
        push_pct(b0, out);
        push_pct(b1, out);
        push_pct(b2, out);
        proof {
            assert(utf8_bytes(c) =~= seq![b0, b1, b2]);
            lemma_pct_all3(b0, b1, b2);
            assert(out@ =~= old(out)@ + form_char(c));
        }
    } else {
        let b0: u8 = (0xF0 + v / 262144) as u8;
        let b1: u8 = (0x80 + (v / 4096) % 64) as u8;
        let b2: u8 = (0x80 + (v / 64) % 64) as u8;
        let b3: u8 = (0x80 + v % 64) as u8;
        proof {
            assert(v <= 0x10FFFF) by {
                assert(c as u32 <= 0x10FFFF);
            }
        }
        push_pct(b0, out);
        push_pct(b1, out);
        push_pct(b2, out);
        push_pct(b3, out);
        proof {
            assert(utf8_bytes(c) =~= seq![b0, b1, b2, b3]);
            lemma_pct_all4(b0, b1, b2, b3);
            assert(out@ =~= old(out)@ + form_char(c));
        }
    }
}

/// Appends the form encoding of the characters from position `i` on.
fn push_form_enc_from(s: &Vec<char>, i: usize, out: &mut Vec<char>)
    requires
        i <= s@.len(),
    ensures
        final(out)@ == old(out)@ + form_enc(s@.skip(i as int)),
    decreases s@.len() - i,
{
    if i < s.len() {
        push_form_char(s[i], out);
        push_form_enc_from(s, i + 1, out);
        proof {
            assert(s@.skip(i as int)[0] == s@[i as int]);
            assert(s@.skip(i as int).drop_first() =~= s@.skip(i as int + 1));
            assert(out@ =~= old(out)@ + form_enc(s@.skip(i as int)));
        }
    } else {
        proof {
            assert(s@.skip(i as int) =~= Seq::<char>::empty());
        }
    }
}

/// Appends the form encoding of a string.
pub fn push_form_enc(s: &str, out: &mut Vec<char>)
    ensures
        final(out)@ == old(out)@ + form_enc(s@),
{
    let cs = str_chars(s);
    push_form_enc_from(&cs, 0, out);
    proof {
        assert(cs@.skip(0) =~= s@);
    }
}

/// The query string of a list of pairs, from position `i` on.
fn query_string_from(pairs: &Vec<(String, String)>, i: usize, out: &mut Vec<char>)
    requires
        i <= pairs@.len(),
    ensures
        final(out)@ == old(out)@ + query_of(pairs_kv(pairs@).skip(i as int)),
    decreases pairs@.len() - i,
{
    if i < pairs.len() {
        push_form_enc(pairs[i].0.as_str(), out);
        out.push('=');
        push_form_enc(pairs[i].1.as_str(), out);
        if i + 1 < pairs.len() {
            out.push('&');
            query_string_from(pairs, i + 1, out);
        }
        proof {
            let q = pairs_kv(pairs@);
            assert(q.skip(i as int)[0] == (pairs@[i as int].0@, pairs@[i as int].1@));
            assert(q.skip(i as int).drop_first() =~= q.skip(i as int + 1));
            if i + 1 < pairs@.len() {
                assert(out@ =~= old(out)@ + query_of(q.skip(i as int)));
            } else {
                assert(q.skip(i as int).len() == 1);
                assert(out@ =~= old(out)@ + query_of(q.skip(i as int)));
            }
        }
    } else {
        proof {
            assert(pairs_kv(pairs@).skip(i as int) =~= Seq::<(Seq<char>, Seq<char>)>::empty());
        }
    }
}

/// The query string of a list of pairs.
pub fn query_string(pairs: &Vec<(String, String)>) -> (r: String)
    ensures
        r@ == query_of(pairs_kv(pairs@)),
{
    let mut out: Vec<char> = Vec::new();
    query_string_from(pairs, 0, &mut out);
    proof {
        assert(pairs_kv(pairs@).skip(0) =~= pairs_kv(pairs@));
    }
    chars_to_string(out)
}

/// The word for a boolean in a query string.
pub open spec fn bool_rep(b: bool) -> Seq<char> {
    if b {
        seq!['t', 'r', 'u', 'e']
    } else {
        seq!['f', 'a', 'l', 's', 'e']
    }
}

pub fn bool_str(b: bool) -> (r: &'static str)
    ensures
        r@ == bool_rep(b),
{
    if b {
        let r = "true";
        proof {
            reveal_strlit("true");
            assert(r@ =~= bool_rep(b));
        }
        r
    } else {
        let r = "false";
        proof {
            reveal_strlit("false");
            assert(r@ =~= bool_rep(b));
        }
        r
    }
}

/// The pair that an optional field contributes: none when it is unset.
pub open spec fn kv_opt(key: Seq<char>, v: Option<Seq<char>>) -> Seq<(Seq<char>, Seq<char>)> {
    match v {
        Option::Some(s) => seq![(key, s)],
        Option::None => Seq::empty(),
    }
}

proof fn lemma_pct_all1(a: u8)
    ensures
        pct_all(seq![a]) == pct(a),
{
    assert(seq![a].drop_first() =~= Seq::<u8>::empty());
    assert(pct_all(Seq::<u8>::empty()) =~= Seq::<char>::empty());
    assert(pct_all(seq![a]) =~= pct(a));
}

proof fn lemma_pct_all2(a: u8, b: u8)
    ensures
        pct_all(seq![a, b]) == pct(a) + pct(b),
{
    assert(seq![a, b].drop_first() =~= seq![b]);
    lemma_pct_all1(b);
    assert(pct_all(seq![a, b]) =~= pct(a) + pct(b));
}

proof fn lemma_pct_all3(a: u8, b: u8, c: u8)
    ensures
        pct_all(seq![a, b, c]) == pct(a) + pct(b) + pct(c),
{
    assert(seq![a, b, c].drop_first() =~= seq![b, c]);
    lemma_pct_all2(b, c);
    assert(pct_all(seq![a, b, c]) =~= pct(a) + pct(b) + pct(c));
}

proof fn lemma_pct_all4(a: u8, b: u8, c: u8, d: u8)
    ensures
        pct_all(seq![a, b, c, d]) == pct(a) + pct(b) + pct(c) + pct(d),
{
    assert(seq![a, b, c, d].drop_first() =~= seq![b, c, d]);
    lemma_pct_all3(b, c, d);
    assert(pct_all(seq![a, b, c, d]) =~= pct(a) + pct(b) + pct(c) + pct(d));
}

} // verus!
