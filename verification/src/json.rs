//! The JSON documents exchanged with the remote service: a value type with
//! a mathematical model, the canonical text of every value, and the
//! escaping rules for strings.
use crate::num::{dec_rep, int_rep};
use vstd::prelude::*;

verus! {

broadcast use vstd::seq::group_seq_axioms, vstd::std_specs::vec::group_vec_axioms;

/// The mathematical model of a JSON value.
#[verifier::ext_equal]
pub enum JsonV {
    Null,
    Bool(bool),
    Int(int),
    /// A number that is not an integer representable in 64 bits (it has a
    /// fraction or an exponent, or is out of range), kept as its lexeme.
    Num(Seq<char>),
    Str(Seq<char>),
    Arr(Seq<JsonV>),
    Obj(Seq<(Seq<char>, JsonV)>),
}

/// A JSON value.
pub enum Json {
    Null,
    Bool(bool),
    Int(i64),
    Num(String),
    Str(String),
    Arr(Box<JsonList>),
    Obj(Box<JsonMembers>),
}

/// The items of a JSON array.
pub enum JsonList {
    Nil,
    Cons(Json, Box<JsonList>),
}

/// The members of a JSON object: key, value, rest.
pub enum JsonMembers {
    Nil,
    Cons(String, Json, Box<JsonMembers>),
}

pub open spec fn json_view(j: Json) -> JsonV
    decreases j,
{
    match j {
        Json::Null => JsonV::Null,
        Json::Bool(b) => JsonV::Bool(b),
        Json::Int(i) => JsonV::Int(i as int),
        Json::Num(s) => JsonV::Num(s@),
        Json::Str(s) => JsonV::Str(s@),
        Json::Arr(a) => JsonV::Arr(list_view(*a)),
        Json::Obj(o) => JsonV::Obj(members_view(*o)),
    }
}

pub open spec fn list_view(l: JsonList) -> Seq<JsonV>
    decreases l,
{
    match l {
        JsonList::Nil => Seq::empty(),
        JsonList::Cons(h, t) => seq![json_view(h)] + list_view(*t),
    }
}

pub open spec fn members_view(m: JsonMembers) -> Seq<(Seq<char>, JsonV)>
    decreases m,
{
    match m {
        JsonMembers::Nil => Seq::empty(),
        JsonMembers::Cons(k, v, t) => seq![(k@, json_view(v))] + members_view(*t),
    }
}

impl View for Json {
    type V = JsonV;

    open spec fn view(&self) -> JsonV {
        json_view(*self)
    }
}

impl View for JsonList {
    type V = Seq<JsonV>;

    open spec fn view(&self) -> Seq<JsonV> {
        list_view(*self)
    }
}

impl View for JsonMembers {
    type V = Seq<(Seq<char>, JsonV)>;

    open spec fn view(&self) -> Seq<(Seq<char>, JsonV)> {
        members_view(*self)
    }
}

/// The value of the first member with the given key, searching from the
/// front, as the remote schema reads objects.
pub open spec fn obj_get(o: Seq<(Seq<char>, JsonV)>, key: Seq<char>) -> Option<JsonV>
    decreases o.len(),
{
    if o.len() == 0 {
        Option::None
    } else if o[0].0 == key {
        Option::Some(o[0].1)
    } else {
        obj_get(o.drop_first(), key)
    }
}

/// Looks a key up in an object's members.
pub fn members_get<'a>(m: &'a JsonMembers, key: &str) -> (r: Option<&'a Json>)
    ensures
        match r {
            Option::Some(v) => obj_get(m@, key@) == Option::Some(v@),
            Option::None => obj_get(m@, key@) == Option::<JsonV>::None,
        },
    decreases *m,
{
    match m {
        JsonMembers::Nil => Option::None,
        JsonMembers::Cons(k, v, t) => {
            proof {
                assert(m@ == seq![(k@, json_view(*v))] + members_view(**t));
                assert(m@.drop_first() =~= members_view(**t));
            }
            if (*k).eq(&key.to_owned()) {
                Option::Some(v)
            } else {
                members_get(t, key)
            }
        },
    }
}

/// The lower-case hexadecimal digit for a value below sixteen.
pub open spec fn hex_char(d: int) -> char {
    if d < 10 {
        crate::num::digit_char(d)
    } else if d == 10 {
        'a'
    } else if d == 11 {
        'b'
    } else if d == 12 {
        'c'
    } else if d == 13 {
        'd'
    } else if d == 14 {
        'e'
    } else {
        'f'
    }
}

/// The escape sequence that the canonical text uses for one character of a
/// string: quote, backslash and the common control characters by a short
/// escape, the other control characters in the `\u00XX` form, and every
/// other character as itself.
pub open spec fn esc_char(c: char) -> Seq<char> {
    if c == '"' {
        seq!['\\', '"']
    } else if c == '\\' {
        seq!['\\', '\\']
    } else if c == '\n' {
        seq!['\\', 'n']
    } else if c == '\r' {
        seq!['\\', 'r']
    } else if c == '\t' {
        seq!['\\', 't']
    } else if (c as u32) < 32 {
        seq!['\\', 'u', '0', '0', hex_char(((c as u32) / 16) as int), hex_char(((c as u32) % 16) as int)]
    } else {
        seq![c]
    }
}

/// The escaped form of a whole string, without the surrounding quotes.
pub open spec fn esc(s: Seq<char>) -> Seq<char>
    decreases s.len(),
{
    if s.len() == 0 {
        Seq::empty()
    } else {
        esc_char(s[0]) + esc(s.drop_first())
    }
}

/// The canonical text of a JSON value: no whitespace, object members in
/// the order of the value, strings escaped as `esc` says.
pub open spec fn ser(v: JsonV) -> Seq<char>
    decreases v,
{
    match v {
        JsonV::Null => seq!['n', 'u', 'l', 'l'],
        JsonV::Bool(b) => if b {
            seq!['t', 'r', 'u', 'e']
        } else {
            seq!['f', 'a', 'l', 's', 'e']
        },
        JsonV::Int(i) => int_rep(i),
        JsonV::Num(s) => s,
        JsonV::Str(s) => seq!['"'] + esc(s) + seq!['"'],
        JsonV::Arr(a) => seq!['['] + ser_items(a) + seq![']'],
        JsonV::Obj(o) => seq!['{'] + ser_members(o) + seq!['}'],
    }
}

/// The canonical text of the items of an array, comma separated.
pub open spec fn ser_items(a: Seq<JsonV>) -> Seq<char>
    decreases a,
{
    if a.len() == 0 {
        Seq::empty()
    } else if a.len() == 1 {
        ser(a[0])
    } else {
        ser(a[0]) + seq![','] + ser_items(a.drop_first())
    }
}

/// The canonical text of the members of an object, comma separated.
pub open spec fn ser_members(o: Seq<(Seq<char>, JsonV)>) -> Seq<char>
    decreases o,
{
    if o.len() == 0 {
        Seq::empty()
    } else {
        let head = seq!['"'] + esc(o[0].0) + seq!['"', ':'] + ser(o[0].1);
        if o.len() == 1 {
            head
        } else {
            head + seq![','] + ser_members(o.drop_first())
        }
    }
}

} // verus!
