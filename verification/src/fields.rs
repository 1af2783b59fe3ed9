//! Reading typed fields out of a JSON object: one specification function
//! and one executable reader per field shape. A reader returns `None`
//! exactly when the member is absent or has the wrong shape, so a record
//! decoder built from readers fails exactly when the specification says.
use crate::json::{obj_get, Json, JsonList, JsonMembers, JsonV};
use vstd::prelude::*;

verus! {

broadcast use vstd::seq::group_seq_axioms, vstd::std_specs::vec::group_vec_axioms;

/// The integer member under a key, if there is one.
pub open spec fn jv_int(o: Seq<(Seq<char>, JsonV)>, key: Seq<char>) -> Option<int> {
    match obj_get(o, key) {
        Option::Some(JsonV::Int(i)) => Option::Some(i),
        _ => Option::None,
    }
}

pub open spec fn jv_i64(o: Seq<(Seq<char>, JsonV)>, key: Seq<char>) -> Option<i64> {
    match jv_int(o, key) {
        Option::Some(i) => if i64::MIN <= i <= i64::MAX {
            Option::Some(i as i64)
        } else {
            Option::None
        },
        Option::None => Option::None,
    }
}

pub open spec fn jv_i32(o: Seq<(Seq<char>, JsonV)>, key: Seq<char>) -> Option<i32> {
    match jv_int(o, key) {
        Option::Some(i) => if i32::MIN <= i <= i32::MAX {
            Option::Some(i as i32)
        } else {
            Option::None
        },
        Option::None => Option::None,
    }
}

pub open spec fn jv_bool(o: Seq<(Seq<char>, JsonV)>, key: Seq<char>) -> Option<bool> {
    match obj_get(o, key) {
        Option::Some(JsonV::Bool(b)) => Option::Some(b),
        _ => Option::None,
    }
}

pub open spec fn jv_str(o: Seq<(Seq<char>, JsonV)>, key: Seq<char>) -> Option<Seq<char>> {
    match obj_get(o, key) {
        Option::Some(JsonV::Str(s)) => Option::Some(s),
        _ => Option::None,
    }
}

/// An optional member: absent and null both mean "not set"; the outer
/// `None` means the member is present but has the wrong shape.
pub open spec fn jv_opt_i64(o: Seq<(Seq<char>, JsonV)>, key: Seq<char>) -> Option<Option<i64>> {
    match obj_get(o, key) {
        Option::None => Option::Some(Option::None),
        Option::Some(JsonV::Null) => Option::Some(Option::None),
        Option::Some(JsonV::Int(i)) => if i64::MIN <= i <= i64::MAX {
            Option::Some(Option::Some(i as i64))
        } else {
            Option::None
        },
        _ => Option::None,
    }
}

pub open spec fn jv_opt_i32(o: Seq<(Seq<char>, JsonV)>, key: Seq<char>) -> Option<Option<i32>> {
    match obj_get(o, key) {
        Option::None => Option::Some(Option::None),
        Option::Some(JsonV::Null) => Option::Some(Option::None),
        Option::Some(JsonV::Int(i)) => if i32::MIN <= i <= i32::MAX {
            Option::Some(Option::Some(i as i32))
        } else {
            Option::None
        },
        _ => Option::None,
    }
}

pub open spec fn jv_opt_bool(o: Seq<(Seq<char>, JsonV)>, key: Seq<char>) -> Option<Option<bool>> {
    match obj_get(o, key) {
        Option::None => Option::Some(Option::None),
        Option::Some(JsonV::Null) => Option::Some(Option::None),
        Option::Some(JsonV::Bool(b)) => Option::Some(Option::Some(b)),
        _ => Option::None,
    }
}

pub open spec fn jv_opt_str(o: Seq<(Seq<char>, JsonV)>, key: Seq<char>) -> Option<
    Option<Seq<char>>,
> {
    match obj_get(o, key) {
        Option::None => Option::Some(Option::None),
        Option::Some(JsonV::Null) => Option::Some(Option::None),
        Option::Some(JsonV::Str(s)) => Option::Some(Option::Some(s)),
        _ => Option::None,
    }
}

/// An optional numeric member kept as text: an integer is kept as its
/// decimal notation, any other number as its lexeme.
pub open spec fn jv_opt_num_text(o: Seq<(Seq<char>, JsonV)>, key: Seq<char>) -> Option<
    Option<Seq<char>>,
> {
    match obj_get(o, key) {
        Option::None => Option::Some(Option::None),
        Option::Some(JsonV::Null) => Option::Some(Option::None),
        Option::Some(JsonV::Int(i)) => Option::Some(Option::Some(crate::num::int_rep(i))),
        Option::Some(JsonV::Num(s)) => Option::Some(Option::Some(s)),
        _ => Option::None,
    }
}

/// The string items of an array, if every item is a string.
pub open spec fn str_items(a: Seq<JsonV>) -> Option<Seq<Seq<char>>>
    decreases a.len(),
{
    if a.len() == 0 {
        Option::Some(Seq::empty())
    } else {
        match a[0] {
            JsonV::Str(s) => match str_items(a.drop_first()) {
                Option::Some(rest) => Option::Some(seq![s] + rest),
                Option::None => Option::None,
            },
            _ => Option::None,
        }
    }
}

/// The integer items of an array, if every item is an integer in range.
pub open spec fn i64_items(a: Seq<JsonV>) -> Option<Seq<i64>>
    decreases a.len(),
{
    if a.len() == 0 {
        Option::Some(Seq::empty())
    } else {
        match a[0] {
            JsonV::Int(i) => if i64::MIN <= i <= i64::MAX {
                match i64_items(a.drop_first()) {
                    Option::Some(rest) => Option::Some(seq![i as i64] + rest),
                    Option::None => Option::None,
                }
            } else {
                Option::None
            },
            _ => Option::None,
        }
    }
}

pub open spec fn i32_items(a: Seq<JsonV>) -> Option<Seq<i32>>
    decreases a.len(),
{
    if a.len() == 0 {
        Option::Some(Seq::empty())
    } else {
        match a[0] {
            JsonV::Int(i) => if i32::MIN <= i <= i32::MAX {
                match i32_items(a.drop_first()) {
                    Option::Some(rest) => Option::Some(seq![i as i32] + rest),
                    Option::None => Option::None,
                }
            } else {
                Option::None
            },
            _ => Option::None,
        }
    }
}

pub fn get_i64(m: &JsonMembers, key: &str) -> (r: Option<i64>)
    ensures
        r == jv_i64(m@, key@),
{
    match crate::json::members_get(m, key) {
        Option::Some(j) => match j {
            Json::Int(i) => Option::Some(*i),
            _ => Option::None,
        },
        Option::None => Option::None,
    }
}

pub fn get_i32(m: &JsonMembers, key: &str) -> (r: Option<i32>)
    ensures
        r == jv_i32(m@, key@),
{
    match crate::json::members_get(m, key) {
        Option::Some(j) => match j {
            Json::Int(i) => {
                let v = *i;
                if i32::MIN as i64 <= v && v <= i32::MAX as i64 {
                    Option::Some(v as i32)
                } else {
                    Option::None
                }
            },
            _ => Option::None,
        },
        Option::None => Option::None,
    }
}

pub fn get_bool(m: &JsonMembers, key: &str) -> (r: Option<bool>)
    ensures
        r == jv_bool(m@, key@),
{
    match crate::json::members_get(m, key) {
        Option::Some(j) => match j {
            Json::Bool(b) => Option::Some(*b),
            _ => Option::None,
        },
        Option::None => Option::None,
    }
}

pub fn get_str(m: &JsonMembers, key: &str) -> (r: Option<String>)
    ensures
        match r {
            Option::Some(s) => jv_str(m@, key@) == Option::Some(s@),
            Option::None => jv_str(m@, key@) is None,
        },
{
    match crate::json::members_get(m, key) {
        Option::Some(j) => match j {
            Json::Str(s) => Option::Some(s.clone()),
            _ => Option::None,
        },
        Option::None => Option::None,
    }
}

pub fn get_opt_i64(m: &JsonMembers, key: &str) -> (r: Option<Option<i64>>)
    ensures
        r == jv_opt_i64(m@, key@),
{
    match crate::json::members_get(m, key) {
        Option::Some(j) => match j {
            Json::Null => Option::Some(Option::None),
            Json::Int(i) => Option::Some(Option::Some(*i)),
            _ => Option::None,
        },
        Option::None => Option::Some(Option::None),
    }
}

pub fn get_opt_i32(m: &JsonMembers, key: &str) -> (r: Option<Option<i32>>)
    ensures
        r == jv_opt_i32(m@, key@),
{
    match crate::json::members_get(m, key) {
        Option::Some(j) => match j {
            Json::Null => Option::Some(Option::None),
            Json::Int(i) => {
                let v = *i;
                if i32::MIN as i64 <= v && v <= i32::MAX as i64 {
                    Option::Some(Option::Some(v as i32))
                } else {
                    Option::None
                }
            },
            _ => Option::None,
        },
        Option::None => Option::Some(Option::None),
    }
}

pub fn get_opt_bool(m: &JsonMembers, key: &str) -> (r: Option<Option<bool>>)
    ensures
        r == jv_opt_bool(m@, key@),
{
    match crate::json::members_get(m, key) {
        Option::Some(j) => match j {
            Json::Null => Option::Some(Option::None),
            Json::Bool(b) => Option::Some(Option::Some(*b)),
            _ => Option::None,
        },
        Option::None => Option::Some(Option::None),
    }
}

pub fn get_opt_str(m: &JsonMembers, key: &str) -> (r: Option<Option<String>>)
    ensures
        match r {
            Option::Some(Option::Some(s)) => jv_opt_str(m@, key@) == Option::Some(
                Option::Some(s@),
            ),
            Option::Some(Option::None) => jv_opt_str(m@, key@) == Option::Some(
                Option::<Seq<char>>::None,
            ),
            Option::None => jv_opt_str(m@, key@) is None,
        },
{
    match crate::json::members_get(m, key) {
        Option::Some(j) => match j {
            Json::Null => Option::Some(Option::None),
            Json::Str(s) => Option::Some(Option::Some(s.clone())),
            _ => Option::None,
        },
        Option::None => Option::Some(Option::None),
    }
}

pub fn get_opt_num_text(m: &JsonMembers, key: &str) -> (r: Option<Option<String>>)
    ensures
        match r {
            Option::Some(Option::Some(s)) => jv_opt_num_text(m@, key@) == Option::Some(
                Option::Some(s@),
            ),
            Option::Some(Option::None) => jv_opt_num_text(m@, key@) == Option::Some(
                Option::<Seq<char>>::None,
            ),
            Option::None => jv_opt_num_text(m@, key@) is None,
        },
{
    match crate::json::members_get(m, key) {
        Option::Some(j) => match j {
            Json::Null => Option::Some(Option::None),
            Json::Int(i) => {
                let cs = crate::num::int_chars_i64(*i);
                Option::Some(Option::Some(crate::text::chars_to_string(cs)))
            },
            Json::Num(s) => Option::Some(Option::Some(s.clone())),
            _ => Option::None,
        },
        Option::None => Option::Some(Option::None),
    }
}

/// The array member under a key, as its items.
pub fn get_arr<'a>(m: &'a JsonMembers, key: &str) -> (r: Option<&'a JsonList>)
    ensures
        match r {
            Option::Some(l) => obj_get(m@, key@) == Option::Some(JsonV::Arr(l@)),
            Option::None => !(obj_get(m@, key@) matches Option::Some(JsonV::Arr(_))),
        },
{
    match crate::json::members_get(m, key) {
        Option::Some(j) => match j {
            Json::Arr(l) => Option::Some(l),
            _ => Option::None,
        },
        Option::None => Option::None,
    }
}

/// The object member under a key, as its members.
pub fn get_obj<'a>(m: &'a JsonMembers, key: &str) -> (r: Option<&'a JsonMembers>)
    ensures
        match r {
            Option::Some(o) => obj_get(m@, key@) == Option::Some(JsonV::Obj(o@)),
            Option::None => !(obj_get(m@, key@) matches Option::Some(JsonV::Obj(_))),
        },
{
    match crate::json::members_get(m, key) {
        Option::Some(j) => match j {
            Json::Obj(o) => Option::Some(o),
            _ => Option::None,
        },
        Option::None => Option::None,
    }
}

/// Decodes an array of strings.
pub fn list_strs(l: &JsonList) -> (r: Option<Vec<String>>)
    ensures
        match r {
            Option::Some(v) => str_items(l@) == Option::Some(v.deep_view()),
            Option::None => str_items(l@) is None,
        },
    decreases *l,
{
    match l {
        JsonList::Nil => {
            let r: Vec<String> = Vec::new();
            proof {
                assert(r.deep_view() =~= Seq::<Seq<char>>::empty());
            }
            Option::Some(r)
        },
        JsonList::Cons(h, t) => {
            proof {
                assert(l@[0] == h@);
                assert(l@.drop_first() =~= t@);
            }
            match h {
                Json::Str(s) => match list_strs(t) {
                    Option::Some(rest) => {
                        let mut out: Vec<String> = Vec::new();
                        out.push(s.clone());
                        let mut rest = rest;
                        out.append(&mut rest);
                        proof {
                            assert(out.deep_view() =~= seq![s@] + str_items(t@).unwrap());
                        }
                        Option::Some(out)
                    },
                    Option::None => Option::None,
                },
                _ => Option::None,
            }
        },
    }
}

/// Decodes an array of 64-bit integers.
pub fn list_i64s(l: &JsonList) -> (r: Option<Vec<i64>>)
    ensures
        match r {
            Option::Some(v) => i64_items(l@) == Option::Some(v@),
            Option::None => i64_items(l@) is None,
        },
    decreases *l,
{
    match l {
        JsonList::Nil => {
            let r: Vec<i64> = Vec::new();
            proof {
                assert(r@ =~= Seq::<i64>::empty());
            }
            Option::Some(r)
        },
        JsonList::Cons(h, t) => {
            proof {
                assert(l@[0] == h@);
                assert(l@.drop_first() =~= t@);
            }
            match h {
                Json::Int(i) => match list_i64s(t) {
                    Option::Some(rest) => {
                        let mut out: Vec<i64> = Vec::new();
                        out.push(*i);
                        let mut rest = rest;
                        out.append(&mut rest);
                        proof {
                            assert(out@ =~= seq![*i] + i64_items(t@).unwrap());
                        }
                        Option::Some(out)
                    },
                    Option::None => Option::None,
                },
                _ => Option::None,
            }
        },
    }
}

/// Decodes an array of 32-bit integers.
pub fn list_i32s(l: &JsonList) -> (r: Option<Vec<i32>>)
    ensures
        match r {
            Option::Some(v) => i32_items(l@) == Option::Some(v@),
            Option::None => i32_items(l@) is None,
        },
    decreases *l,
{
    match l {
        JsonList::Nil => {
            let r: Vec<i32> = Vec::new();
            proof {
                assert(r@ =~= Seq::<i32>::empty());
            }
            Option::Some(r)
        },
        JsonList::Cons(h, t) => {
            proof {
                assert(l@[0] == h@);
                assert(l@.drop_first() =~= t@);
            }
            match h {
                Json::Int(i) => {
                    let v = *i;
                    if i32::MIN as i64 <= v && v <= i32::MAX as i64 {
                        match list_i32s(t) {
                            Option::Some(rest) => {
                                let mut out: Vec<i32> = Vec::new();
                                out.push(v as i32);
                                let mut rest = rest;
                                out.append(&mut rest);
                                proof {
                                    assert(out@ =~= seq![v as i32] + i32_items(t@).unwrap());
                                }
                                Option::Some(out)
                            },
                            Option::None => Option::None,
                        }
                    } else {
                        Option::None
                    }
                },
                _ => Option::None,
            }
        },
    }
}

/// Builds the JSON array of a list of strings.
pub fn strs_to_list(v: &Vec<String>, i: usize) -> (r: JsonList)
    requires
        i <= v@.len(),
    ensures
        r@ == Seq::new((v@.len() - i as int) as nat, |k: int| JsonV::Str(v@[i + k]@)),
    decreases v@.len() - i,
{
    if i < v.len() {
        let rest = strs_to_list(v, i + 1);
        let ghost rest_v = rest@;
        let r = JsonList::Cons(Json::Str(v[i].clone()), Box::new(rest));
        proof {
            let target = Seq::new((v@.len() - i as int) as nat, |k: int| JsonV::Str(v@[i + k]@));
            assert(r matches JsonList::Cons(h, t) && crate::json::json_view(h) == JsonV::Str(
                v@[i as int]@,
            ) && crate::json::list_view(*t) == rest_v);
            assert(crate::json::list_view(r) == seq![JsonV::Str(v@[i as int]@)] + rest_v);
            assert forall|n: int| 0 <= n < target.len() implies r@[n] == target[n] by {
                if n > 0 {
                    assert(r@[n] == rest_v[n - 1]);
                    assert(rest_v[n - 1] == JsonV::Str(v@[i + 1 + (n - 1)]@));
                }
            }
            assert(r@ =~= target);
        }
        r
    } else {
        let r = JsonList::Nil;
        proof {
            assert(r@ =~= Seq::new((v@.len() - i as int) as nat, |k: int| JsonV::Str(v@[i + k]@)));
        }
        r
    }
}

/// Builds the JSON array of a list of 64-bit integers.
pub fn i64s_to_list(v: &Vec<i64>, i: usize) -> (r: JsonList)
    requires
        i <= v@.len(),
    ensures
        r@ == Seq::new((v@.len() - i as int) as nat, |k: int| JsonV::Int(v@[i + k] as int)),
    decreases v@.len() - i,
{
    if i < v.len() {
        let rest = i64s_to_list(v, i + 1);
        let ghost rest_v = rest@;
        let r = JsonList::Cons(Json::Int(v[i]), Box::new(rest));
        proof {
            let target = Seq::new((v@.len() - i as int) as nat, |k: int| JsonV::Int(v@[i + k] as int));
            assert(r matches JsonList::Cons(h, t) && crate::json::json_view(h) == JsonV::Int(
                v@[i as int] as int,
            ) && crate::json::list_view(*t) == rest_v);
            assert(crate::json::list_view(r) == seq![JsonV::Int(v@[i as int] as int)] + rest_v);
            assert forall|n: int| 0 <= n < target.len() implies r@[n] == target[n] by {
                if n > 0 {
                    assert(r@[n] == rest_v[n - 1]);
                    assert(rest_v[n - 1] == JsonV::Int(v@[i + 1 + (n - 1)] as int));
                }
            }
            assert(r@ =~= target);
        }
        r
    } else {
        let r = JsonList::Nil;
        proof {
            assert(r@ =~= Seq::new((v@.len() - i as int) as nat, |k: int| JsonV::Int(v@[i + k] as int)));
        }
        r
    }
}

/// Builds the JSON array of a list of 32-bit integers.
pub fn i32s_to_list(v: &Vec<i32>, i: usize) -> (r: JsonList)
    requires
        i <= v@.len(),
    ensures
        r@ == Seq::new((v@.len() - i as int) as nat, |k: int| JsonV::Int(v@[i + k] as int)),
    decreases v@.len() - i,
{
    if i < v.len() {
        let rest = i32s_to_list(v, i + 1);
        let ghost rest_v = rest@;
        let r = JsonList::Cons(Json::Int(v[i] as i64), Box::new(rest));
        proof {
            let target = Seq::new((v@.len() - i as int) as nat, |k: int| JsonV::Int(v@[i + k] as int));
            assert(r matches JsonList::Cons(h, t) && crate::json::json_view(h) == JsonV::Int(
                v@[i as int] as int,
            ) && crate::json::list_view(*t) == rest_v);
            assert(crate::json::list_view(r) == seq![JsonV::Int(v@[i as int] as int)] + rest_v);
            assert forall|n: int| 0 <= n < target.len() implies r@[n] == target[n] by {
                if n > 0 {
                    assert(r@[n] == rest_v[n - 1]);
                    assert(rest_v[n - 1] == JsonV::Int(v@[i + 1 + (n - 1)] as int));
                }
            }
            assert(r@ =~= target);
        }
        r
    } else {
        let r = JsonList::Nil;
        proof {
            assert(r@ =~= Seq::new((v@.len() - i as int) as nat, |k: int| JsonV::Int(v@[i + k] as int)));
        }
        r
    }
}

/// Prepends one member to an object under construction.
pub fn cons_member(key: &str, v: Json, rest: JsonMembers) -> (r: JsonMembers)
    ensures
        r@ == seq![(key@, v@)] + rest@,
{
    JsonMembers::Cons(key.to_owned(), v, Box::new(rest))
}

/// The JSON value of an optional integer: null when unset.
pub fn opt_i32_json(v: &Option<i32>) -> (r: Json)
    ensures
        r@ == match *v {
            Option::Some(i) => JsonV::Int(i as int),
            Option::None => JsonV::Null,
        },
{
    match v {
        Option::Some(i) => Json::Int(*i as i64),
        Option::None => Json::Null,
    }
}

pub fn opt_i64_json(v: &Option<i64>) -> (r: Json)
    ensures
        r@ == match *v {
            Option::Some(i) => JsonV::Int(i as int),
            Option::None => JsonV::Null,
        },
{
    match v {
        Option::Some(i) => Json::Int(*i),
        Option::None => Json::Null,
    }
}

pub fn opt_bool_json(v: &Option<bool>) -> (r: Json)
    ensures
        r@ == match *v {
            Option::Some(b) => JsonV::Bool(b),
            Option::None => JsonV::Null,
        },
{
    match v {
        Option::Some(b) => Json::Bool(*b),
        Option::None => Json::Null,
    }
}

pub fn opt_str_json(v: &Option<String>) -> (r: Json)
    ensures
        r@ == match *v {
            Option::Some(s) => JsonV::Str(s@),
            Option::None => JsonV::Null,
        },
{
    match v {
        Option::Some(s) => Json::Str(s.clone()),
        Option::None => Json::Null,
    }
}

/// The character view of an optional string.
pub open spec fn view_opt_str(v: Option<String>) -> Option<Seq<char>> {
    match v {
        Option::Some(s) => Option::Some(s@),
        Option::None => Option::None,
    }
}

/// The first member with a given key, where all keys are distinct, is what
/// a lookup finds.
pub proof fn lemma_obj_get_present(o: Seq<(Seq<char>, JsonV)>, i: int)
    requires
        0 <= i < o.len(),
        forall|a: int, b: int| 0 <= a < b < o.len() ==> (#[trigger] o[a]).0 != (#[trigger] o[b]).0,
    ensures
        obj_get(o, o[i].0) == Option::Some(o[i].1),
    decreases i,
{
    if i == 0 {
    } else {
        assert(o[0].0 != o[i].0);
        assert(o.drop_first()[i - 1] == o[i]);
        lemma_obj_get_present(o.drop_first(), i - 1);
    }
}

/// A key under which no member stands is not found.
pub proof fn lemma_obj_get_absent(o: Seq<(Seq<char>, JsonV)>, key: Seq<char>)
    requires
        forall|a: int| 0 <= a < o.len() ==> (#[trigger] o[a]).0 != key,
    ensures
        obj_get(o, key) is None,
    decreases o.len(),
{
    if o.len() > 0 {
        lemma_obj_get_absent(o.drop_first(), key);
    }
}

/// An array whose items are exactly the strings of `ss` decodes to `ss`.
pub proof fn lemma_str_items(items: Seq<JsonV>, ss: Seq<Seq<char>>)
    requires
        items.len() == ss.len(),
        forall|k: int| 0 <= k < items.len() ==> items[k] == JsonV::Str(ss[k]),
    ensures
        str_items(items) == Option::Some(ss),
    decreases items.len(),
{
    if items.len() == 0 {
        assert(ss =~= Seq::<Seq<char>>::empty());
    } else {
        lemma_str_items(items.drop_first(), ss.drop_first());
        assert(ss =~= seq![ss[0]] + ss.drop_first());
    }
}

/// An array whose items are exactly the integers of `vs` decodes to `vs`.
pub proof fn lemma_i64_items(items: Seq<JsonV>, vs: Seq<i64>)
    requires
        items.len() == vs.len(),
        forall|k: int| 0 <= k < items.len() ==> items[k] == JsonV::Int(vs[k] as int),
    ensures
        i64_items(items) == Option::Some(vs),
    decreases items.len(),
{
    if items.len() == 0 {
        assert(vs =~= Seq::<i64>::empty());
    } else {
        lemma_i64_items(items.drop_first(), vs.drop_first());
        assert(vs =~= seq![vs[0]] + vs.drop_first());
    }
}

pub proof fn lemma_i32_items(items: Seq<JsonV>, vs: Seq<i32>)
    requires
        items.len() == vs.len(),
        forall|k: int| 0 <= k < items.len() ==> items[k] == JsonV::Int(vs[k] as int),
    ensures
        i32_items(items) == Option::Some(vs),
    decreases items.len(),
{
    if items.len() == 0 {
        assert(vs =~= Seq::<i32>::empty());
    } else {
        lemma_i32_items(items.drop_first(), vs.drop_first());
        assert(vs =~= seq![vs[0]] + vs.drop_first());
    }
}

/// The character-level view of a list of named fingerprint groups.
pub open spec fn pairs_view(v: Vec<(String, Vec<i64>)>) -> Seq<(Seq<char>, Seq<i64>)> {
    Seq::new(v@.len(), |k: int| (v@[k].0@, v@[k].1@))
}

/// Decodes an object whose every member is an array of integers, keeping
/// the members in order.
pub open spec fn pairs_i64s(o: Seq<(Seq<char>, JsonV)>) -> Option<Seq<(Seq<char>, Seq<i64>)>>
    decreases o.len(),
{
    if o.len() == 0 {
        Option::Some(Seq::empty())
    } else {
        match o[0].1 {
            JsonV::Arr(items) => match i64_items(items) {
                Option::Some(vs) => match pairs_i64s(o.drop_first()) {
                    Option::Some(rest) => Option::Some(seq![(o[0].0, vs)] + rest),
                    Option::None => Option::None,
                },
                Option::None => Option::None,
            },
            _ => Option::None,
        }
    }
}

/// An object whose members are exactly the named integer groups of `ps`
/// decodes to `ps`.
pub proof fn lemma_pairs_i64s(o: Seq<(Seq<char>, JsonV)>, ps: Seq<(Seq<char>, Seq<i64>)>)
    requires
        o.len() == ps.len(),
        forall|k: int| 0 <= k < o.len() ==> (#[trigger] o[k]).0 == ps[k].0 && (o[k].1 matches JsonV::Arr(items)
            && i64_items(items) == Option::Some(ps[k].1)),
    ensures
        pairs_i64s(o) == Option::Some(ps),
    decreases o.len(),
{
    if o.len() == 0 {
        assert(ps =~= Seq::<(Seq<char>, Seq<i64>)>::empty());
    } else {
        lemma_pairs_i64s(o.drop_first(), ps.drop_first());
        assert(ps =~= seq![ps[0]] + ps.drop_first());
    }
}

/// Decodes the members of an object into named integer groups.
pub fn members_pairs(m: &JsonMembers) -> (r: Option<Vec<(String, Vec<i64>)>>)
    ensures
        match r {
            Option::Some(v) => pairs_i64s(m@) == Option::Some(pairs_view(v)),
            Option::None => pairs_i64s(m@) is None,
        },
    decreases *m,
{
    match m {
        JsonMembers::Nil => {
            let r: Vec<(String, Vec<i64>)> = Vec::new();
            proof {
                assert(pairs_view(r) =~= Seq::<(Seq<char>, Seq<i64>)>::empty());
            }
            Option::Some(r)
        },
        JsonMembers::Cons(k, v, t) => {
            proof {
                assert(m@[0] == (k@, v@));
                assert(m@.drop_first() =~= t@);
            }
            match v {
                Json::Arr(l) => match list_i64s(l) {
                    Option::Some(ints) => match members_pairs(t) {
                        Option::Some(rest) => {
                            let mut out: Vec<(String, Vec<i64>)> = Vec::new();
                            out.push((k.clone(), ints));
                            let mut rest = rest;
                            out.append(&mut rest);
                            proof {
                                assert(pairs_view(out) =~= seq![(k@, i64_items(l@).unwrap())]
                                    + pairs_i64s(t@).unwrap());
                            }
                            Option::Some(out)
                        },
                        Option::None => Option::None,
                    },
                    Option::None => Option::None,
                },
                _ => Option::None,
            }
        },
    }
}

/// Builds the object of named integer groups, from position `i` on.
pub fn pairs_to_members(v: &Vec<(String, Vec<i64>)>, i: usize) -> (r: JsonMembers)
    requires
        i <= v@.len(),
    ensures
        r@ == Seq::new((v@.len() - i as int) as nat, |k: int| (v@[i + k].0@, JsonV::Arr(
            Seq::new(v@[i + k].1@.len(), |n: int| JsonV::Int(v@[i + k].1@[n] as int)),
        ))),
    decreases v@.len() - i,
{
    if i < v.len() {
        let rest = pairs_to_members(v, i + 1);
        let ghost rest_v = rest@;
        let lst = i64s_to_list(&v[i].1, 0);
        let ghost lst_v = lst@;
        let arr = Json::Arr(Box::new(lst));
        proof {
            assert(arr matches Json::Arr(lb) && crate::json::list_view(*lb) == lst_v);
            assert(arr@ == JsonV::Arr(lst_v));
            assert(lst_v =~= Seq::new(v@[i as int].1@.len(), |n: int| JsonV::Int(
                v@[i as int].1@[n] as int,
            )));
            assert(arr@ =~~= JsonV::Arr(Seq::new(v@[i as int].1@.len(), |n: int| JsonV::Int(
                v@[i as int].1@[n] as int,
            ))));
        }
        let ghost arr_v = arr@;
        let r = JsonMembers::Cons(v[i].0.clone(), arr, Box::new(rest));
        proof {
            let target = Seq::new((v@.len() - i as int) as nat, |k: int| (v@[i + k].0@, JsonV::Arr(
                Seq::new(v@[i + k].1@.len(), |n: int| JsonV::Int(v@[i + k].1@[n] as int)),
            )));
            assert(r matches JsonMembers::Cons(k2, v2, t2) && k2@ == v@[i as int].0@
                && crate::json::json_view(v2) == arr_v && crate::json::members_view(*t2) == rest_v);
            assert(crate::json::members_view(r) == seq![(v@[i as int].0@, arr_v)] + rest_v);
            assert forall|n: int| 0 <= n < target.len() implies crate::json::members_view(r)[n]
                == target[n] by {
                if n > 0 {
                    assert(crate::json::members_view(r)[n] == rest_v[n - 1]);
                }
                assert(target[n] == (v@[i + n].0@, JsonV::Arr(Seq::new(v@[i + n].1@.len(), |q: int|
                    JsonV::Int(v@[i + n].1@[q] as int)))));
            }
            assert(r@ =~~= target);
        }
        r
    } else {
        let r = JsonMembers::Nil;
        proof {
            assert(r@ =~~= Seq::new((v@.len() - i as int) as nat, |k: int| (v@[i + k].0@, JsonV::Arr(
                Seq::new(v@[i + k].1@.len(), |n: int| JsonV::Int(v@[i + k].1@[n] as int)),
            ))));
        }
        r
    }
}

} // verus!

