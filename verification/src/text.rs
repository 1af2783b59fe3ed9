//! Executable production of JSON text: every function appends exactly the
//! characters that the canonical-text specification in `json` names.
use crate::json::{esc, esc_char, hex_char, ser, ser_items, ser_members, Json, JsonList, JsonMembers};
use crate::num::{digit_char, push_int_i64};
use vstd::prelude::*;
use vstd::string::StrSliceExecFns;
use vstd::string::StringExecFns;

verus! {

broadcast use vstd::seq::group_seq_axioms, vstd::std_specs::vec::group_vec_axioms;

/// Relies on `core::iter::Iterator::collect` for `String`: collecting
/// characters yields the string of exactly those characters.
#[verifier::external_body]
pub fn chars_to_string(v: Vec<char>) -> (r: String)
    ensures
        r@ == v@,
{
    v.into_iter().collect()
}

/// The characters of a string slice, in order.
pub fn str_chars(s: &str) -> (r: Vec<char>)
    ensures
        r@ == s@,
{
    let n = s.unicode_len();
    let mut out: Vec<char> = Vec::new();
    let mut i: usize = 0;
    while i < n
        invariant
            i <= n,
            n == s@.len(),
            out@ =~= s@.take(i as int),
        decreases n - i,
    {
        out.push(s.get_char(i));
        i = i + 1;
    }
    proof {
        assert(out@ =~= s@);
    }
    out
}

fn hex_of(d: u32) -> (c: char)
    requires
        d < 16,
    ensures
        c == hex_char(d as int),
{
    if d < 10 {
        match d {
            0 => '0',
            1 => '1',
            2 => '2',
            3 => '3',
            4 => '4',
            5 => '5',
            6 => '6',
            7 => '7',
            8 => '8',
            _ => '9',
        }
    } else {
        match d {
            10 => 'a',
            11 => 'b',
            12 => 'c',
            13 => 'd',
            14 => 'e',
            _ => 'f',
        }
    }
}

/// Appends the escape sequence of one string character.
fn push_esc_char(c: char, out: &mut Vec<char>)
    ensures
        final(out)@ == old(out)@ + esc_char(c),
{
    if c == '"' {
        out.push('\\');
        out.push('"');
    } else if c == '\\' {
        out.push('\\');
        out.push('\\');
    } else if c == '\n' {
        out.push('\\');
        out.push('n');
    } else if c == '\r' {
        out.push('\\');
        out.push('r');
    } else if c == '\t' {
        out.push('\\');
        out.push('t');
    } else if (c as u32) < 32 {
        out.push('\\');
        out.push('u');
        out.push('0');
        out.push('0');
        out.push(hex_of((c as u32) / 16));
        out.push(hex_of((c as u32) % 16));
    } else {
        out.push(c);
    }
    proof {
        assert(out@ =~= old(out)@ + esc_char(c));
    }
}

/// Appends the escaped form of the characters of `s` from position `i` on.
fn push_esc_from(s: &Vec<char>, i: usize, out: &mut Vec<char>)
    requires
        i <= s@.len(),
    ensures
        final(out)@ == old(out)@ + esc(s@.skip(i as int)),
    decreases s@.len() - i,
{
    if i < s.len() {
        push_esc_char(s[i], out);
        push_esc_from(s, i + 1, out);
        proof {
            assert(s@.skip(i as int)[0] == s@[i as int]);
            assert(s@.skip(i as int).drop_first() =~= s@.skip(i as int + 1));
            assert(out@ =~= old(out)@ + esc(s@.skip(i as int)));
        }
    } else {
        proof {
            assert(s@.skip(i as int) =~= Seq::<char>::empty());
        }
    }
}

/// Appends a quoted, escaped JSON string.
fn push_str_lit(s: &str, out: &mut Vec<char>)
    ensures
        final(out)@ == old(out)@ + seq!['"'] + esc(s@) + seq!['"'],
{
    let cs = str_chars(s);
    out.push('"');
    push_esc_from(&cs, 0, out);
    out.push('"');
    proof {
        assert(cs@.skip(0) =~= s@);
        assert(out@ =~= old(out)@ + seq!['"'] + esc(s@) + seq!['"']);
    }
}

/// Appends the canonical text of a JSON value.
pub fn push_json(j: &Json, out: &mut Vec<char>)
    ensures
        final(out)@ == old(out)@ + ser(j@),
    decreases *j,
{
    match j {
        Json::Null => {
            out.push('n');
            out.push('u');
            out.push('l');
            out.push('l');
            proof {
                assert(out@ =~= old(out)@ + ser(j@));
            }
        },
        Json::Bool(b) => {
            if *b {
                out.push('t');
                out.push('r');
                out.push('u');
                out.push('e');
            } else {
                out.push('f');
                out.push('a');
                out.push('l');
                out.push('s');
                out.push('e');
            }
            proof {
                assert(out@ =~= old(out)@ + ser(j@));
            }
        },
        Json::Int(i) => {
            push_int_i64(*i, out);
        },
        Json::Num(s) => {
            let cs = str_chars(s.as_str());
            let mut k: usize = 0;
            while k < cs.len()
                invariant
                    k <= cs@.len(),
                    cs@ == s@,
                    out@ =~= old(out)@ + s@.take(k as int),
                decreases cs@.len() - k,
            {
                out.push(cs[k]);
                k = k + 1;
            }
            proof {
                assert(out@ =~= old(out)@ + ser(j@));
            }
        },
        Json::Str(s) => {
            push_str_lit(s.as_str(), out);
            proof {
                assert(out@ =~= old(out)@ + ser(j@));
            }
        },
        Json::Arr(a) => {
            out.push('[');
            push_json_items(a, out);
            out.push(']');
            proof {
                assert(out@ =~= old(out)@ + ser(j@));
            }
        },
        Json::Obj(o) => {
            out.push('{');
            push_json_members(o, out);
            out.push('}');
            proof {
                assert(out@ =~= old(out)@ + ser(j@));
            }
        },
    }
}

impl JsonList {
    /// Whether the list has no items.
    pub fn is_nil(&self) -> (b: bool)
        ensures
            b == (self@.len() == 0),
    {
        match self {
            JsonList::Nil => true,
            JsonList::Cons(_, _) => false,
        }
    }
}

impl JsonMembers {
    /// Whether the object has no members.
    pub fn is_nil(&self) -> (b: bool)
        ensures
            b == (self@.len() == 0),
    {
        match self {
            JsonMembers::Nil => true,
            JsonMembers::Cons(_, _, _) => false,
        }
    }
}

/// Appends the comma-separated items of an array.
fn push_json_items(l: &JsonList, out: &mut Vec<char>)
    ensures
        final(out)@ == old(out)@ + ser_items(l@),
    decreases *l,
{
    match l {
        JsonList::Nil => {
            proof {
                assert(out@ =~= old(out)@ + ser_items(l@));
            }
        },
        JsonList::Cons(h, t) => {
            push_json(h, out);
            proof {
                assert(l@ == seq![h@] + t@);
                assert(l@[0] == h@);
                assert(l@.drop_first() =~= t@);
            }
            if !t.is_nil() {
                out.push(',');
                push_json_items(t, out);
                proof {
                    assert(out@ =~= old(out)@ + ser_items(l@));
                }
            } else {
                proof {
                    assert(l@ =~= seq![h@]);
                    assert(out@ =~= old(out)@ + ser_items(l@));
                }
            }
        },
    }
}

/// Appends the comma-separated members of an object.
fn push_json_members(m: &JsonMembers, out: &mut Vec<char>)
    ensures
        final(out)@ == old(out)@ + ser_members(m@),
    decreases *m,
{
    match m {
        JsonMembers::Nil => {
            proof {
                assert(out@ =~= old(out)@ + ser_members(m@));
            }
        },
        JsonMembers::Cons(k, v, t) => {
            push_str_lit(k.as_str(), out);
            out.push(':');
            push_json(v, out);
            proof {
                assert(m@ == seq![(k@, v@)] + t@);
                assert(m@[0] == (k@, v@));
                assert(m@.drop_first() =~= t@);
            }
            if !t.is_nil() {
                out.push(',');
                push_json_members(t, out);
                proof {
                    assert(out@ =~= old(out)@ + ser_members(m@));
                }
            } else {
                proof {
                    assert(m@ =~= seq![(k@, v@)]);
                    assert(out@ =~= old(out)@ + ser_members(m@));
                }
            }
        },
    }
}

/// The canonical JSON text of a value.
pub fn to_text(j: &Json) -> (r: String)
    ensures
        r@ == ser(j@),
{
    let mut out: Vec<char> = Vec::new();
    push_json(j, &mut out);
    chars_to_string(out)
}

} // verus!
