//! The records of the fingerprint-matching endpoints.
#![allow(unused_imports)]
use crate::enums::{CoreApiStatus, CoreStatus, FileRelationType, FileReleaseType, FileStatus,
    GameVersionStatus, GameVersionTypeStatus, HashAlgo, ModLoaderInstallMethod, ModLoaderType,
    ModStatus, ModsSearchSortField, SortOrder};
use crate::json::{Json, JsonList, JsonMembers, JsonV};
use crate::schema_mods::File;
use vstd::prelude::*;

verus! {

broadcast use vstd::seq::group_seq_axioms, vstd::std_specs::vec::group_vec_axioms;


/// The fingerprints found under one folder.
#[derive(Debug, Clone)]
pub struct FolderFingerprint {
    pub foldername: String,
    pub fingerprints: Vec<i64>,
}

impl FolderFingerprint {
    /// The JSON document of this value, member for member.
    pub open spec fn jv(self) -> JsonV {
        JsonV::Obj(seq![
            ("foldername"@, JsonV::Str(self.foldername@)),
            ("fingerprints"@, JsonV::Arr(Seq::new(self.fingerprints@.len(), |k: int| JsonV::Int(self.fingerprints@[k] as int)))),
        ])
    }

    /// What it means for a JSON document to decode to this value.
    pub open spec fn decodes_to(j: JsonV, x: FolderFingerprint) -> bool {
        &&& j matches JsonV::Obj(o)
        &&& crate::fields::jv_str(o, "foldername"@) == Option::Some(x.foldername@)
        &&& crate::json::obj_get(o, "fingerprints"@) matches Option::Some(JsonV::Arr(items))
            && crate::fields::i64_items(items) == Option::Some(x.fingerprints@)
    }

    pub fn to_json(&self) -> (r: Json)
        ensures
            r@ == self.jv(),
    {
        let mut m = JsonMembers::Nil;
        let l_fingerprints = crate::fields::i64s_to_list(&self.fingerprints, 0);
        let ghost lv_fingerprints = l_fingerprints@;
        let e_fingerprints = Json::Arr(Box::new(l_fingerprints));
        proof {
            assert(e_fingerprints matches Json::Arr(lb) && crate::json::list_view(*lb) == lv_fingerprints);
            assert(lv_fingerprints =~= Seq::new(self.fingerprints@.len(), |k: int| JsonV::Int(self.fingerprints@[k] as int)));
            assert(e_fingerprints@ =~~= JsonV::Arr(Seq::new(self.fingerprints@.len(), |k: int| JsonV::Int(self.fingerprints@[k] as int))));
        }
        m = crate::fields::cons_member("fingerprints", e_fingerprints, m);
        m = crate::fields::cons_member("foldername", Json::Str(self.foldername.clone()), m);
        let ghost m_v = m@;
        let r = Json::Obj(Box::new(m));
        proof {
            assert(r matches Json::Obj(o2) && crate::json::members_view(*o2) == m_v);
            assert(r@ == JsonV::Obj(m_v));
            assert(m_v.len() == 2);
            assert(m_v[0] =~~= ("foldername"@, JsonV::Str(self.foldername@)));
            assert(m_v[1] =~~= ("fingerprints"@, JsonV::Arr(Seq::new(self.fingerprints@.len(), |k: int| JsonV::Int(self.fingerprints@[k] as int)))));
            assert(m_v =~~= self.jv()->Obj_0);
            assert(r@ =~~= self.jv());
        }
        r
    }

    pub fn from_json(j: &Json) -> (r: Option<FolderFingerprint>)
        ensures
            r matches Option::Some(x) ==> FolderFingerprint::decodes_to(j@, x),
            r is None ==> forall|x: FolderFingerprint| !FolderFingerprint::decodes_to(j@, x),
    {
        match j {
            Json::Obj(m) => {
            let foldername = match crate::fields::get_str(m, "foldername") {
                Option::Some(v) => v,
                Option::None => {
                    return Option::None;
                },
            };
            let fingerprints = match crate::fields::get_arr(m, "fingerprints") {
                Option::Some(l) => match crate::fields::list_i64s(l) {
                    Option::Some(v) => v,
                    Option::None => {
                        return Option::None;
                    },
                },
                Option::None => {
                    return Option::None;
                },
            };
                Option::Some(FolderFingerprint {
                    foldername,
                    fingerprints,
                })
            },
            _ => Option::None,
        }
    }

    /// Builds the JSON array of a list of these values, from position `i` on.
    pub fn list_to_json(v: &Vec<FolderFingerprint>, i: usize) -> (r: JsonList)
        requires
            i <= v@.len(),
        ensures
            r@ == Seq::new((v@.len() - i as int) as nat, |k: int| v@[i + k].jv()),
        decreases v@.len() - i,
    {
        if i < v.len() {
            let rest = FolderFingerprint::list_to_json(v, i + 1);
            let ghost rest_v = rest@;
            let hd = v[i].to_json();
            let ghost hd_v = hd@;
            let r = JsonList::Cons(hd, Box::new(rest));
            proof {
                let target = Seq::new((v@.len() - i as int) as nat, |k: int| v@[i + k].jv());
                assert(r matches JsonList::Cons(h, t) && crate::json::json_view(h) == hd_v
                    && crate::json::list_view(*t) == rest_v);
                assert(crate::json::list_view(r) == seq![hd_v] + rest_v);
                assert forall|n: int| 0 <= n < target.len() implies crate::json::list_view(r)[n]
                    == target[n] by {
                    if n > 0 {
                        assert(crate::json::list_view(r)[n] == rest_v[n - 1]);
                        assert(rest_v[n - 1] == v@[i + 1 + (n - 1)].jv());
                    }
                }
                assert(r@ =~= target);
            }
            r
        } else {
            let r = JsonList::Nil;
            proof {
                assert(r@ =~= Seq::new((v@.len() - i as int) as nat, |k: int| v@[i + k].jv()));
            }
            r
        }
    }

    /// Decodes a JSON array of these values.
    pub fn list_from_json(l: &JsonList) -> (r: Option<Vec<FolderFingerprint>>)
        ensures
            match r {
                Option::Some(v) => v@.len() == l@.len() && (forall|n: int|
                    0 <= n < l@.len() ==> FolderFingerprint::decodes_to(#[trigger] l@[n], v@[n])),
                Option::None => FolderFingerprint::list_undecodable(l@),
            },
        decreases *l,
    {
        match l {
            JsonList::Nil => {
                let r: Vec<FolderFingerprint> = Vec::new();
                Option::Some(r)
            },
            JsonList::Cons(h, t) => {
                let t2: &JsonList = &*t;
                proof {
                    assert(l@[0] == h@);
                    assert(l@.drop_first() =~= t2@);
                }
                match FolderFingerprint::from_json(h) {
                    Option::Some(x) => match FolderFingerprint::list_from_json(t2) {
                        Option::Some(rest) => {
                            let ghost rest_v = rest@;
                            let mut out: Vec<FolderFingerprint> = Vec::new();
                            out.push(x);
                            let mut rest = rest;
                            out.append(&mut rest);
                            proof {
                                assert(out@ == seq![x] + rest_v);
                                assert forall|n: int| 0 <= n < l@.len() implies FolderFingerprint::decodes_to(
                                    #[trigger] l@[n], out@[n],
                                ) by {
                                    if n > 0 {
                                        assert(l@[n] == t2@[n - 1]);
                                        assert(out@[n] == rest_v[n - 1]);
                                    }
                                }
                            }
                            Option::Some(out)
                        },
                        Option::None => Option::None,
                    },
                    Option::None => Option::None,
                }
            },
        }
    }

    /// Whether some item of the array has no decoding.
    pub open spec fn list_undecodable(l: Seq<JsonV>) -> bool
        decreases l.len(),
    {
        l.len() > 0 && ((forall|x: FolderFingerprint| !(#[trigger] FolderFingerprint::decodes_to(l[0], x)))
            || FolderFingerprint::list_undecodable(l.drop_first()))
    }

    /// An array with an undecodable item decodes to no list of values.
    pub proof fn lemma_list_undecodable(l: Seq<JsonV>, v: Seq<FolderFingerprint>)
        requires
            FolderFingerprint::list_undecodable(l),
            l.len() == v.len(),
        ensures
            !(forall|n: int| 0 <= n < l.len() ==> FolderFingerprint::decodes_to(#[trigger] l[n], v[n])),
        decreases l.len(),
    {
        if forall|n: int| 0 <= n < l.len() ==> FolderFingerprint::decodes_to(#[trigger] l[n], v[n]) {
            assert(FolderFingerprint::decodes_to(l[0], v[0]));
            if forall|x: FolderFingerprint| !(#[trigger] FolderFingerprint::decodes_to(l[0], x)) {
                assert(!FolderFingerprint::decodes_to(l[0], v[0]));
            } else {
                assert(FolderFingerprint::list_undecodable(l.drop_first()));
                assert forall|n: int|
                    0 <= n < l.drop_first().len() implies FolderFingerprint::decodes_to(
                    #[trigger] l.drop_first()[n], v.drop_first()[n],
                ) by {
                    assert(l.drop_first()[n] == l[n + 1]);
                    assert(v.drop_first()[n] == v[n + 1]);
                }
                FolderFingerprint::lemma_list_undecodable(l.drop_first(), v.drop_first());
            }
        }
    }


    /// The JSON document of a value decodes back to it.
    pub proof fn lemma_decodes_self(x: FolderFingerprint)
        ensures
            FolderFingerprint::decodes_to(x.jv(), x),
    {
        let o = x.jv()->Obj_0;
        assert(crate::json::obj_get(o, "foldername"@) == Option::Some(JsonV::Str(x.foldername@))) by {
            reveal_strlit("foldername");
            reveal_with_fuel(crate::json::obj_get, 3);
        }
        assert(crate::json::obj_get(o, "fingerprints"@) == Option::Some(JsonV::Arr(Seq::new(x.fingerprints@.len(), |k: int| JsonV::Int(x.fingerprints@[k] as int))))) by {
            reveal_strlit("foldername");
            reveal_strlit("fingerprints");
            assert("foldername"@.len() == 10);
            assert("fingerprints"@.len() == 12);
            assert("foldername"@ != "fingerprints"@);
            reveal_with_fuel(crate::json::obj_get, 3);
        }
        crate::fields::lemma_i64_items(Seq::new(x.fingerprints@.len(), |k: int| JsonV::Int(x.fingerprints@[k] as int)), x.fingerprints@);
    }

    /// Two values that one JSON document decodes to are equal, field for field.
    pub proof fn lemma_deterministic(j: JsonV, x: FolderFingerprint, y: FolderFingerprint)
        requires
            FolderFingerprint::decodes_to(j, x),
            FolderFingerprint::decodes_to(j, y),
        ensures
            y.foldername@ == x.foldername@,
            y.fingerprints@ == x.fingerprints@,
            y.jv() == x.jv(),
    {
        let o = j->Obj_0;
        match crate::json::obj_get(o, "fingerprints"@) {
            Option::Some(JsonV::Arr(items)) => {
                assert(crate::fields::i64_items(items) == Option::Some(x.fingerprints@));
                assert(crate::fields::i64_items(items) == Option::Some(y.fingerprints@));
                assert(x.fingerprints@ == y.fingerprints@);
            },
            _ => {
                assert(false);
            },
        }
        assert(JsonV::Str(y.foldername@) =~~= JsonV::Str(x.foldername@));
        assert(Seq::new(y.fingerprints@.len(), |k: int| JsonV::Int(y.fingerprints@[k] as int)) =~= Seq::new(
            x.fingerprints@.len(), |k: int| JsonV::Int(x.fingerprints@[k] as int)));
        let oy = y.jv()->Obj_0;
        let ox = x.jv()->Obj_0;
        assert(oy[0] =~~= ox[0]);
        assert(oy[1] =~~= ox[1]);
        assert forall|n: int| 0 <= n < ox.len() implies oy[n] =~~= ox[n] by {
            if n == 0 {
                assert(oy[n] =~~= ox[n]);
            } else if n == 1 {
                assert(oy[n] =~~= ox[n]);
            }
        }
        assert(oy =~~= ox);
        assert(y.jv() =~~= x.jv());
    }
}

/// A file matched by fingerprint, with the mod's latest files.
#[derive(Debug, Clone)]
pub struct FingerprintMatch {
    pub id: i32,
    pub file: File,
    pub latest_files: Vec<File>,
}

impl FingerprintMatch {
    /// The JSON document of this value, member for member.
    pub open spec fn jv(self) -> JsonV {
        JsonV::Obj(seq![
            ("id"@, JsonV::Int(self.id as int)),
            ("file"@, self.file.jv()),
            ("latestFiles"@, JsonV::Arr(Seq::new(self.latest_files@.len(), |k: int| self.latest_files@[k].jv()))),
        ])
    }

    /// What it means for a JSON document to decode to this value.
    pub open spec fn decodes_to(j: JsonV, x: FingerprintMatch) -> bool {
        &&& j matches JsonV::Obj(o)
        &&& crate::fields::jv_i32(o, "id"@) == Option::Some(x.id)
        &&& crate::json::obj_get(o, "file"@) matches Option::Some(jj) && File::decodes_to(jj, x.file)
        &&& crate::json::obj_get(o, "latestFiles"@) matches Option::Some(JsonV::Arr(items)) && items.len() == x.latest_files@.len()
            && (forall|n: int| 0 <= n < items.len() ==> File::decodes_to(#[trigger] items[n], x.latest_files@[n]))
    }

    pub fn to_json(&self) -> (r: Json)
        ensures
            r@ == self.jv(),
    {
        let mut m = JsonMembers::Nil;
        let l_latest_files = File::list_to_json(&self.latest_files, 0);
        let ghost lv_latest_files = l_latest_files@;
        let e_latest_files = Json::Arr(Box::new(l_latest_files));
        proof {
            assert(e_latest_files matches Json::Arr(lb) && crate::json::list_view(*lb) == lv_latest_files);
            assert(lv_latest_files =~= Seq::new(self.latest_files@.len(), |k: int| self.latest_files@[k].jv()));
            assert(e_latest_files@ =~~= JsonV::Arr(Seq::new(self.latest_files@.len(), |k: int| self.latest_files@[k].jv())));
        }
        m = crate::fields::cons_member("latestFiles", e_latest_files, m);
        m = crate::fields::cons_member("file", self.file.to_json(), m);
        m = crate::fields::cons_member("id", Json::Int(self.id as i64), m);
        let ghost m_v = m@;
        let r = Json::Obj(Box::new(m));
        proof {
            assert(r matches Json::Obj(o2) && crate::json::members_view(*o2) == m_v);
            assert(r@ == JsonV::Obj(m_v));
            assert(m_v.len() == 3);
            assert(m_v[0] =~~= ("id"@, JsonV::Int(self.id as int)));
            assert(m_v[1] =~~= ("file"@, self.file.jv()));
            assert(m_v[2] =~~= ("latestFiles"@, JsonV::Arr(Seq::new(self.latest_files@.len(), |k: int| self.latest_files@[k].jv()))));
            assert(m_v =~~= self.jv()->Obj_0);
            assert(r@ =~~= self.jv());
        }
        r
    }

    pub fn from_json(j: &Json) -> (r: Option<FingerprintMatch>)
        ensures
            r matches Option::Some(x) ==> FingerprintMatch::decodes_to(j@, x),
            r is None ==> forall|x: FingerprintMatch| !FingerprintMatch::decodes_to(j@, x),
    {
        match j {
            Json::Obj(m) => {
            let id = match crate::fields::get_i32(m, "id") {
                Option::Some(v) => v,
                Option::None => {
                    return Option::None;
                },
            };
            let file = match crate::json::members_get(m, "file") {
                Option::Some(jj) => match File::from_json(jj) {
                    Option::Some(v) => v,
                    Option::None => {
                        return Option::None;
                    },
                },
                Option::None => {
                    return Option::None;
                },
            };
            let latest_files = match crate::fields::get_arr(m, "latestFiles") {
                Option::Some(l) => match File::list_from_json(l) {
                    Option::Some(v) => v,
                    Option::None => {
                        proof {
                            assert forall|x: FingerprintMatch| !FingerprintMatch::decodes_to(j@, x) by {
                                if FingerprintMatch::decodes_to(j@, x) {
                                    File::lemma_list_undecodable(l@, x.latest_files@);
                                }
                            }
                        }
                        return Option::None;
                    },
                },
                Option::None => {
                    return Option::None;
                },
            };
                Option::Some(FingerprintMatch {
                    id,
                    file,
                    latest_files,
                })
            },
            _ => Option::None,
        }
    }

    /// Builds the JSON array of a list of these values, from position `i` on.
    pub fn list_to_json(v: &Vec<FingerprintMatch>, i: usize) -> (r: JsonList)
        requires
            i <= v@.len(),
        ensures
            r@ == Seq::new((v@.len() - i as int) as nat, |k: int| v@[i + k].jv()),
        decreases v@.len() - i,
    {
        if i < v.len() {
            let rest = FingerprintMatch::list_to_json(v, i + 1);
            let ghost rest_v = rest@;
            let hd = v[i].to_json();
            let ghost hd_v = hd@;
            let r = JsonList::Cons(hd, Box::new(rest));
            proof {
                let target = Seq::new((v@.len() - i as int) as nat, |k: int| v@[i + k].jv());
                assert(r matches JsonList::Cons(h, t) && crate::json::json_view(h) == hd_v
                    && crate::json::list_view(*t) == rest_v);
                assert(crate::json::list_view(r) == seq![hd_v] + rest_v);
                assert forall|n: int| 0 <= n < target.len() implies crate::json::list_view(r)[n]
                    == target[n] by {
                    if n > 0 {
                        assert(crate::json::list_view(r)[n] == rest_v[n - 1]);
                        assert(rest_v[n - 1] == v@[i + 1 + (n - 1)].jv());
                    }
                }
                assert(r@ =~= target);
            }
            r
        } else {
            let r = JsonList::Nil;
            proof {
                assert(r@ =~= Seq::new((v@.len() - i as int) as nat, |k: int| v@[i + k].jv()));
            }
            r
        }
    }

    /// Decodes a JSON array of these values.
    pub fn list_from_json(l: &JsonList) -> (r: Option<Vec<FingerprintMatch>>)
        ensures
            match r {
                Option::Some(v) => v@.len() == l@.len() && (forall|n: int|
                    0 <= n < l@.len() ==> FingerprintMatch::decodes_to(#[trigger] l@[n], v@[n])),
                Option::None => FingerprintMatch::list_undecodable(l@),
            },
        decreases *l,
    {
        match l {
            JsonList::Nil => {
                let r: Vec<FingerprintMatch> = Vec::new();
                Option::Some(r)
            },
            JsonList::Cons(h, t) => {
                let t2: &JsonList = &*t;
                proof {
                    assert(l@[0] == h@);
                    assert(l@.drop_first() =~= t2@);
                }
                match FingerprintMatch::from_json(h) {
                    Option::Some(x) => match FingerprintMatch::list_from_json(t2) {
                        Option::Some(rest) => {
                            let ghost rest_v = rest@;
                            let mut out: Vec<FingerprintMatch> = Vec::new();
                            out.push(x);
                            let mut rest = rest;
                            out.append(&mut rest);
                            proof {
                                assert(out@ == seq![x] + rest_v);
                                assert forall|n: int| 0 <= n < l@.len() implies FingerprintMatch::decodes_to(
                                    #[trigger] l@[n], out@[n],
                                ) by {
                                    if n > 0 {
                                        assert(l@[n] == t2@[n - 1]);
                                        assert(out@[n] == rest_v[n - 1]);
                                    }
                                }
                            }
                            Option::Some(out)
                        },
                        Option::None => Option::None,
                    },
                    Option::None => Option::None,
                }
            },
        }
    }

    /// Whether some item of the array has no decoding.
    pub open spec fn list_undecodable(l: Seq<JsonV>) -> bool
        decreases l.len(),
    {
        l.len() > 0 && ((forall|x: FingerprintMatch| !(#[trigger] FingerprintMatch::decodes_to(l[0], x)))
            || FingerprintMatch::list_undecodable(l.drop_first()))
    }

    /// An array with an undecodable item decodes to no list of values.
    pub proof fn lemma_list_undecodable(l: Seq<JsonV>, v: Seq<FingerprintMatch>)
        requires
            FingerprintMatch::list_undecodable(l),
            l.len() == v.len(),
        ensures
            !(forall|n: int| 0 <= n < l.len() ==> FingerprintMatch::decodes_to(#[trigger] l[n], v[n])),
        decreases l.len(),
    {
        if forall|n: int| 0 <= n < l.len() ==> FingerprintMatch::decodes_to(#[trigger] l[n], v[n]) {
            assert(FingerprintMatch::decodes_to(l[0], v[0]));
            if forall|x: FingerprintMatch| !(#[trigger] FingerprintMatch::decodes_to(l[0], x)) {
                assert(!FingerprintMatch::decodes_to(l[0], v[0]));
            } else {
                assert(FingerprintMatch::list_undecodable(l.drop_first()));
                assert forall|n: int|
                    0 <= n < l.drop_first().len() implies FingerprintMatch::decodes_to(
                    #[trigger] l.drop_first()[n], v.drop_first()[n],
                ) by {
                    assert(l.drop_first()[n] == l[n + 1]);
                    assert(v.drop_first()[n] == v[n + 1]);
                }
                FingerprintMatch::lemma_list_undecodable(l.drop_first(), v.drop_first());
            }
        }
    }


    /// The JSON document of a value decodes back to it.
    pub proof fn lemma_decodes_self(x: FingerprintMatch)
        ensures
            FingerprintMatch::decodes_to(x.jv(), x),
    {
        let o = x.jv()->Obj_0;
        assert(crate::json::obj_get(o, "id"@) == Option::Some(JsonV::Int(x.id as int))) by {
            reveal_strlit("id");
            reveal_with_fuel(crate::json::obj_get, 4);
        }
        assert(crate::json::obj_get(o, "file"@) == Option::Some(x.file.jv())) by {
            reveal_strlit("id");
            reveal_strlit("file");
            assert("id"@.len() == 2);
            assert("file"@.len() == 4);
            assert("id"@ != "file"@);
            reveal_with_fuel(crate::json::obj_get, 4);
        }
        assert(crate::json::obj_get(o, "latestFiles"@) == Option::Some(JsonV::Arr(Seq::new(x.latest_files@.len(), |k: int| x.latest_files@[k].jv())))) by {
            reveal_strlit("id");
            reveal_strlit("file");
            reveal_strlit("latestFiles");
            assert("id"@.len() == 2);
            assert("latestFiles"@.len() == 11);
            assert("id"@ != "latestFiles"@);
            assert("file"@.len() == 4);
            assert("latestFiles"@.len() == 11);
            assert("file"@ != "latestFiles"@);
            reveal_with_fuel(crate::json::obj_get, 4);
        }
        File::lemma_decodes_self(x.file);
        assert forall|n: int| 0 <= n < x.latest_files@.len() implies File::decodes_to(
            (#[trigger] x.latest_files@[n]).jv(), x.latest_files@[n],
        ) by {
            File::lemma_decodes_self(x.latest_files@[n]);
        }
        assert(forall|n: int| 0 <= n < x.latest_files@.len() ==> Seq::new(x.latest_files@.len(),
            |k: int| x.latest_files@[k].jv())[n] == (#[trigger] x.latest_files@[n]).jv());
    }

    /// Two values that one JSON document decodes to are equal, field for field.
    pub proof fn lemma_deterministic(j: JsonV, x: FingerprintMatch, y: FingerprintMatch)
        requires
            FingerprintMatch::decodes_to(j, x),
            FingerprintMatch::decodes_to(j, y),
        ensures
            y.id == x.id,
            y.file.jv() == x.file.jv(),
            y.latest_files@.len() == x.latest_files@.len() && (forall|n: int| 0 <= n < x.latest_files@.len() ==> (#[trigger] y.latest_files@[n]).jv() == x.latest_files@[n].jv()),
            y.jv() == x.jv(),
    {
        let o = j->Obj_0;
        match crate::json::obj_get(o, "file"@) {
            Option::Some(jj) => {
                File::lemma_deterministic(jj, x.file, y.file);
            },
            Option::None => {},
        }
        match crate::json::obj_get(o, "latestFiles"@) {
            Option::Some(JsonV::Arr(items)) => {
                assert forall|n: int| 0 <= n < x.latest_files@.len() implies (#[trigger] y.latest_files@[n]).jv()
                    == x.latest_files@[n].jv() by {
                    assert(File::decodes_to(items[n], x.latest_files@[n]));
                    assert(File::decodes_to(items[n], y.latest_files@[n]));
                    File::lemma_deterministic(items[n], x.latest_files@[n], y.latest_files@[n]);
                }
            },
            _ => {
                assert(false);
            },
        }
        assert(JsonV::Int(y.id as int) =~~= JsonV::Int(x.id as int));
        assert(y.file.jv() =~~= x.file.jv());
        assert(Seq::new(y.latest_files@.len(), |k: int| y.latest_files@[k].jv()) =~= Seq::new(x.latest_files@.len(),
            |k: int| x.latest_files@[k].jv()));
        let oy = y.jv()->Obj_0;
        let ox = x.jv()->Obj_0;
        assert(oy[0] =~~= ox[0]);
        assert(oy[1] =~~= ox[1]);
        assert(oy[2] =~~= ox[2]);
        assert forall|n: int| 0 <= n < ox.len() implies oy[n] =~~= ox[n] by {
            if n == 0 {
                assert(oy[n] =~~= ox[n]);
            } else if n == 1 {
                assert(oy[n] =~~= ox[n]);
            } else if n == 2 {
                assert(oy[n] =~~= ox[n]);
            }
        }
        assert(oy =~~= ox);
        assert(y.jv() =~~= x.jv());
    }
}

/// A fuzzy fingerprint match, with the fingerprints that matched.
#[derive(Debug, Clone)]
pub struct FingerprintFuzzyMatch {
    pub id: i32,
    pub file: File,
    pub latest_files: Vec<File>,
    pub fingerprints: Vec<i64>,
}

impl FingerprintFuzzyMatch {
    /// The JSON document of this value, member for member.
    pub open spec fn jv(self) -> JsonV {
        JsonV::Obj(seq![
            ("id"@, JsonV::Int(self.id as int)),
            ("file"@, self.file.jv()),
            ("latestFiles"@, JsonV::Arr(Seq::new(self.latest_files@.len(), |k: int| self.latest_files@[k].jv()))),
            ("fingerprints"@, JsonV::Arr(Seq::new(self.fingerprints@.len(), |k: int| JsonV::Int(self.fingerprints@[k] as int)))),
        ])
    }

    /// What it means for a JSON document to decode to this value.
    pub open spec fn decodes_to(j: JsonV, x: FingerprintFuzzyMatch) -> bool {
        &&& j matches JsonV::Obj(o)
        &&& crate::fields::jv_i32(o, "id"@) == Option::Some(x.id)
        &&& crate::json::obj_get(o, "file"@) matches Option::Some(jj) && File::decodes_to(jj, x.file)
        &&& crate::json::obj_get(o, "latestFiles"@) matches Option::Some(JsonV::Arr(items)) && items.len() == x.latest_files@.len()
            && (forall|n: int| 0 <= n < items.len() ==> File::decodes_to(#[trigger] items[n], x.latest_files@[n]))
        &&& crate::json::obj_get(o, "fingerprints"@) matches Option::Some(JsonV::Arr(items))
            && crate::fields::i64_items(items) == Option::Some(x.fingerprints@)
    }

    pub fn to_json(&self) -> (r: Json)
        ensures
            r@ == self.jv(),
    {
        let mut m = JsonMembers::Nil;
        let l_fingerprints = crate::fields::i64s_to_list(&self.fingerprints, 0);
        let ghost lv_fingerprints = l_fingerprints@;
        let e_fingerprints = Json::Arr(Box::new(l_fingerprints));
        proof {
            assert(e_fingerprints matches Json::Arr(lb) && crate::json::list_view(*lb) == lv_fingerprints);
            assert(lv_fingerprints =~= Seq::new(self.fingerprints@.len(), |k: int| JsonV::Int(self.fingerprints@[k] as int)));
            assert(e_fingerprints@ =~~= JsonV::Arr(Seq::new(self.fingerprints@.len(), |k: int| JsonV::Int(self.fingerprints@[k] as int))));
        }
        m = crate::fields::cons_member("fingerprints", e_fingerprints, m);
        let l_latest_files = File::list_to_json(&self.latest_files, 0);
        let ghost lv_latest_files = l_latest_files@;
        let e_latest_files = Json::Arr(Box::new(l_latest_files));
        proof {
            assert(e_latest_files matches Json::Arr(lb) && crate::json::list_view(*lb) == lv_latest_files);
            assert(lv_latest_files =~= Seq::new(self.latest_files@.len(), |k: int| self.latest_files@[k].jv()));
            assert(e_latest_files@ =~~= JsonV::Arr(Seq::new(self.latest_files@.len(), |k: int| self.latest_files@[k].jv())));
        }
        m = crate::fields::cons_member("latestFiles", e_latest_files, m);
        m = crate::fields::cons_member("file", self.file.to_json(), m);
        m = crate::fields::cons_member("id", Json::Int(self.id as i64), m);
        let ghost m_v = m@;
        let r = Json::Obj(Box::new(m));
        proof {
            assert(r matches Json::Obj(o2) && crate::json::members_view(*o2) == m_v);
            assert(r@ == JsonV::Obj(m_v));
            assert(m_v.len() == 4);
            assert(m_v[0] =~~= ("id"@, JsonV::Int(self.id as int)));
            assert(m_v[1] =~~= ("file"@, self.file.jv()));
            assert(m_v[2] =~~= ("latestFiles"@, JsonV::Arr(Seq::new(self.latest_files@.len(), |k: int| self.latest_files@[k].jv()))));
            assert(m_v[3] =~~= ("fingerprints"@, JsonV::Arr(Seq::new(self.fingerprints@.len(), |k: int| JsonV::Int(self.fingerprints@[k] as int)))));
            assert(m_v =~~= self.jv()->Obj_0);
            assert(r@ =~~= self.jv());
        }
        r
    }

    pub fn from_json(j: &Json) -> (r: Option<FingerprintFuzzyMatch>)
        ensures
            r matches Option::Some(x) ==> FingerprintFuzzyMatch::decodes_to(j@, x),
            r is None ==> forall|x: FingerprintFuzzyMatch| !FingerprintFuzzyMatch::decodes_to(j@, x),
    {
        match j {
            Json::Obj(m) => {
            let id = match crate::fields::get_i32(m, "id") {
                Option::Some(v) => v,
                Option::None => {
                    return Option::None;
                },
            };
            let file = match crate::json::members_get(m, "file") {
                Option::Some(jj) => match File::from_json(jj) {
                    Option::Some(v) => v,
                    Option::None => {
                        return Option::None;
                    },
                },
                Option::None => {
                    return Option::None;
                },
            };
            let latest_files = match crate::fields::get_arr(m, "latestFiles") {
                Option::Some(l) => match File::list_from_json(l) {
                    Option::Some(v) => v,
                    Option::None => {
                        proof {
                            assert forall|x: FingerprintFuzzyMatch| !FingerprintFuzzyMatch::decodes_to(j@, x) by {
                                if FingerprintFuzzyMatch::decodes_to(j@, x) {
                                    File::lemma_list_undecodable(l@, x.latest_files@);
                                }
                            }
                        }
                        return Option::None;
                    },
                },
                Option::None => {
                    return Option::None;
                },
            };
            let fingerprints = match crate::fields::get_arr(m, "fingerprints") {
                Option::Some(l) => match crate::fields::list_i64s(l) {
                    Option::Some(v) => v,
                    Option::None => {
                        return Option::None;
                    },
                },
                Option::None => {
                    return Option::None;
                },
            };
                Option::Some(FingerprintFuzzyMatch {
                    id,
                    file,
                    latest_files,
                    fingerprints,
                })
            },
            _ => Option::None,
        }
    }

    /// Builds the JSON array of a list of these values, from position `i` on.
    pub fn list_to_json(v: &Vec<FingerprintFuzzyMatch>, i: usize) -> (r: JsonList)
        requires
            i <= v@.len(),
        ensures
            r@ == Seq::new((v@.len() - i as int) as nat, |k: int| v@[i + k].jv()),
        decreases v@.len() - i,
    {
        if i < v.len() {
            let rest = FingerprintFuzzyMatch::list_to_json(v, i + 1);
            let ghost rest_v = rest@;
            let hd = v[i].to_json();
            let ghost hd_v = hd@;
            let r = JsonList::Cons(hd, Box::new(rest));
            proof {
                let target = Seq::new((v@.len() - i as int) as nat, |k: int| v@[i + k].jv());
                assert(r matches JsonList::Cons(h, t) && crate::json::json_view(h) == hd_v
                    && crate::json::list_view(*t) == rest_v);
                assert(crate::json::list_view(r) == seq![hd_v] + rest_v);
                assert forall|n: int| 0 <= n < target.len() implies crate::json::list_view(r)[n]
                    == target[n] by {
                    if n > 0 {
                        assert(crate::json::list_view(r)[n] == rest_v[n - 1]);
                        assert(rest_v[n - 1] == v@[i + 1 + (n - 1)].jv());
                    }
                }
                assert(r@ =~= target);
            }
            r
        } else {
            let r = JsonList::Nil;
            proof {
                assert(r@ =~= Seq::new((v@.len() - i as int) as nat, |k: int| v@[i + k].jv()));
            }
            r
        }
    }

    /// Decodes a JSON array of these values.
    pub fn list_from_json(l: &JsonList) -> (r: Option<Vec<FingerprintFuzzyMatch>>)
        ensures
            match r {
                Option::Some(v) => v@.len() == l@.len() && (forall|n: int|
                    0 <= n < l@.len() ==> FingerprintFuzzyMatch::decodes_to(#[trigger] l@[n], v@[n])),
                Option::None => FingerprintFuzzyMatch::list_undecodable(l@),
            },
        decreases *l,
    {
        match l {
            JsonList::Nil => {
                let r: Vec<FingerprintFuzzyMatch> = Vec::new();
                Option::Some(r)
            },
            JsonList::Cons(h, t) => {
                let t2: &JsonList = &*t;
                proof {
                    assert(l@[0] == h@);
                    assert(l@.drop_first() =~= t2@);
                }
                match FingerprintFuzzyMatch::from_json(h) {
                    Option::Some(x) => match FingerprintFuzzyMatch::list_from_json(t2) {
                        Option::Some(rest) => {
                            let ghost rest_v = rest@;
                            let mut out: Vec<FingerprintFuzzyMatch> = Vec::new();
                            out.push(x);
                            let mut rest = rest;
                            out.append(&mut rest);
                            proof {
                                assert(out@ == seq![x] + rest_v);
                                assert forall|n: int| 0 <= n < l@.len() implies FingerprintFuzzyMatch::decodes_to(
                                    #[trigger] l@[n], out@[n],
                                ) by {
                                    if n > 0 {
                                        assert(l@[n] == t2@[n - 1]);
                                        assert(out@[n] == rest_v[n - 1]);
                                    }
                                }
                            }
                            Option::Some(out)
                        },
                        Option::None => Option::None,
                    },
                    Option::None => Option::None,
                }
            },
        }
    }

    /// Whether some item of the array has no decoding.
    pub open spec fn list_undecodable(l: Seq<JsonV>) -> bool
        decreases l.len(),
    {
        l.len() > 0 && ((forall|x: FingerprintFuzzyMatch| !(#[trigger] FingerprintFuzzyMatch::decodes_to(l[0], x)))
            || FingerprintFuzzyMatch::list_undecodable(l.drop_first()))
    }

    /// An array with an undecodable item decodes to no list of values.
    pub proof fn lemma_list_undecodable(l: Seq<JsonV>, v: Seq<FingerprintFuzzyMatch>)
        requires
            FingerprintFuzzyMatch::list_undecodable(l),
            l.len() == v.len(),
        ensures
            !(forall|n: int| 0 <= n < l.len() ==> FingerprintFuzzyMatch::decodes_to(#[trigger] l[n], v[n])),
        decreases l.len(),
    {
        if forall|n: int| 0 <= n < l.len() ==> FingerprintFuzzyMatch::decodes_to(#[trigger] l[n], v[n]) {
            assert(FingerprintFuzzyMatch::decodes_to(l[0], v[0]));
            if forall|x: FingerprintFuzzyMatch| !(#[trigger] FingerprintFuzzyMatch::decodes_to(l[0], x)) {
                assert(!FingerprintFuzzyMatch::decodes_to(l[0], v[0]));
            } else {
                assert(FingerprintFuzzyMatch::list_undecodable(l.drop_first()));
                assert forall|n: int|
                    0 <= n < l.drop_first().len() implies FingerprintFuzzyMatch::decodes_to(
                    #[trigger] l.drop_first()[n], v.drop_first()[n],
                ) by {
                    assert(l.drop_first()[n] == l[n + 1]);
                    assert(v.drop_first()[n] == v[n + 1]);
                }
                FingerprintFuzzyMatch::lemma_list_undecodable(l.drop_first(), v.drop_first());
            }
        }
    }


    /// The JSON document of a value decodes back to it.
    pub proof fn lemma_decodes_self(x: FingerprintFuzzyMatch)
        ensures
            FingerprintFuzzyMatch::decodes_to(x.jv(), x),
    {
        let o = x.jv()->Obj_0;
        assert(crate::json::obj_get(o, "id"@) == Option::Some(JsonV::Int(x.id as int))) by {
            reveal_strlit("id");
            reveal_with_fuel(crate::json::obj_get, 5);
        }
        assert(crate::json::obj_get(o, "file"@) == Option::Some(x.file.jv())) by {
            reveal_strlit("id");
            reveal_strlit("file");
            assert("id"@.len() == 2);
            assert("file"@.len() == 4);
            assert("id"@ != "file"@);
            reveal_with_fuel(crate::json::obj_get, 5);
        }
        assert(crate::json::obj_get(o, "latestFiles"@) == Option::Some(JsonV::Arr(Seq::new(x.latest_files@.len(), |k: int| x.latest_files@[k].jv())))) by {
            reveal_strlit("id");
            reveal_strlit("file");
            reveal_strlit("latestFiles");
            assert("id"@.len() == 2);
            assert("latestFiles"@.len() == 11);
            assert("id"@ != "latestFiles"@);
            assert("file"@.len() == 4);
            assert("latestFiles"@.len() == 11);
            assert("file"@ != "latestFiles"@);
            reveal_with_fuel(crate::json::obj_get, 5);
        }
        assert(crate::json::obj_get(o, "fingerprints"@) == Option::Some(JsonV::Arr(Seq::new(x.fingerprints@.len(), |k: int| JsonV::Int(x.fingerprints@[k] as int))))) by {
            reveal_strlit("id");
            reveal_strlit("file");
            reveal_strlit("latestFiles");
            reveal_strlit("fingerprints");
            assert("id"@.len() == 2);
            assert("fingerprints"@.len() == 12);
            assert("id"@ != "fingerprints"@);
            assert("file"@.len() == 4);
            assert("fingerprints"@.len() == 12);
            assert("file"@ != "fingerprints"@);
            assert("latestFiles"@.len() == 11);
            assert("fingerprints"@.len() == 12);
            assert("latestFiles"@ != "fingerprints"@);
            reveal_with_fuel(crate::json::obj_get, 5);
        }
        File::lemma_decodes_self(x.file);
        assert forall|n: int| 0 <= n < x.latest_files@.len() implies File::decodes_to(
            (#[trigger] x.latest_files@[n]).jv(), x.latest_files@[n],
        ) by {
            File::lemma_decodes_self(x.latest_files@[n]);
        }
        assert(forall|n: int| 0 <= n < x.latest_files@.len() ==> Seq::new(x.latest_files@.len(),
            |k: int| x.latest_files@[k].jv())[n] == (#[trigger] x.latest_files@[n]).jv());
        crate::fields::lemma_i64_items(Seq::new(x.fingerprints@.len(), |k: int| JsonV::Int(x.fingerprints@[k] as int)), x.fingerprints@);
    }

    /// Two values that one JSON document decodes to are equal, field for field.
    pub proof fn lemma_deterministic(j: JsonV, x: FingerprintFuzzyMatch, y: FingerprintFuzzyMatch)
        requires
            FingerprintFuzzyMatch::decodes_to(j, x),
            FingerprintFuzzyMatch::decodes_to(j, y),
        ensures
            y.id == x.id,
            y.file.jv() == x.file.jv(),
            y.latest_files@.len() == x.latest_files@.len() && (forall|n: int| 0 <= n < x.latest_files@.len() ==> (#[trigger] y.latest_files@[n]).jv() == x.latest_files@[n].jv()),
            y.fingerprints@ == x.fingerprints@,
            y.jv() == x.jv(),
    {
        let o = j->Obj_0;
        match crate::json::obj_get(o, "file"@) {
            Option::Some(jj) => {
                File::lemma_deterministic(jj, x.file, y.file);
            },
            Option::None => {},
        }
        match crate::json::obj_get(o, "latestFiles"@) {
            Option::Some(JsonV::Arr(items)) => {
                assert forall|n: int| 0 <= n < x.latest_files@.len() implies (#[trigger] y.latest_files@[n]).jv()
                    == x.latest_files@[n].jv() by {
                    assert(File::decodes_to(items[n], x.latest_files@[n]));
                    assert(File::decodes_to(items[n], y.latest_files@[n]));
                    File::lemma_deterministic(items[n], x.latest_files@[n], y.latest_files@[n]);
                }
            },
            _ => {
                assert(false);
            },
        }
        match crate::json::obj_get(o, "fingerprints"@) {
            Option::Some(JsonV::Arr(items)) => {
                assert(crate::fields::i64_items(items) == Option::Some(x.fingerprints@));
                assert(crate::fields::i64_items(items) == Option::Some(y.fingerprints@));
                assert(x.fingerprints@ == y.fingerprints@);
            },
            _ => {
                assert(false);
            },
        }
        assert(JsonV::Int(y.id as int) =~~= JsonV::Int(x.id as int));
        assert(y.file.jv() =~~= x.file.jv());
        assert(Seq::new(y.latest_files@.len(), |k: int| y.latest_files@[k].jv()) =~= Seq::new(x.latest_files@.len(),
            |k: int| x.latest_files@[k].jv()));
        assert(Seq::new(y.fingerprints@.len(), |k: int| JsonV::Int(y.fingerprints@[k] as int)) =~= Seq::new(
            x.fingerprints@.len(), |k: int| JsonV::Int(x.fingerprints@[k] as int)));
        let oy = y.jv()->Obj_0;
        let ox = x.jv()->Obj_0;
        assert(oy[0] =~~= ox[0]);
        assert(oy[1] =~~= ox[1]);
        assert(oy[2] =~~= ox[2]);
        assert(oy[3] =~~= ox[3]);
        assert forall|n: int| 0 <= n < ox.len() implies oy[n] =~~= ox[n] by {
            if n == 0 {
                assert(oy[n] =~~= ox[n]);
            } else if n == 1 {
                assert(oy[n] =~~= ox[n]);
            } else if n == 2 {
                assert(oy[n] =~~= ox[n]);
            } else if n == 3 {
                assert(oy[n] =~~= ox[n]);
            }
        }
        assert(oy =~~= ox);
        assert(y.jv() =~~= x.jv());
    }
}

/// Everything the service reports for a fingerprint query.
#[derive(Debug, Clone)]
pub struct FingerprintsMatchesResult {
    pub is_cache_built: bool,
    pub exact_matches: Vec<FingerprintMatch>,
    pub exact_fingerprints: Vec<i64>,
    pub partial_matches: Vec<FingerprintMatch>,
    pub partial_match_fingerprints: Vec<(String, Vec<i64>)>,
    pub installed_fingerprints: Vec<i64>,
    pub unmatched_fingerprints: Vec<i64>,
}

impl FingerprintsMatchesResult {
    /// The JSON document of this value, member for member.
    pub open spec fn jv(self) -> JsonV {
        JsonV::Obj(seq![
            ("isCacheBuilt"@, JsonV::Bool(self.is_cache_built)),
            ("exactMatches"@, JsonV::Arr(Seq::new(self.exact_matches@.len(), |k: int| self.exact_matches@[k].jv()))),
            ("exactFingerprints"@, JsonV::Arr(Seq::new(self.exact_fingerprints@.len(), |k: int| JsonV::Int(self.exact_fingerprints@[k] as int)))),
            ("partialMatches"@, JsonV::Arr(Seq::new(self.partial_matches@.len(), |k: int| self.partial_matches@[k].jv()))),
            ("partialMatchFingerprints"@, JsonV::Obj(Seq::new(self.partial_match_fingerprints@.len(), |k: int| (self.partial_match_fingerprints@[k].0@, JsonV::Arr(Seq::new(self.partial_match_fingerprints@[k].1@.len(), |n: int| JsonV::Int(self.partial_match_fingerprints@[k].1@[n] as int))))))),
            ("installedFingerprints"@, JsonV::Arr(Seq::new(self.installed_fingerprints@.len(), |k: int| JsonV::Int(self.installed_fingerprints@[k] as int)))),
            ("unmatchedFingerprints"@, JsonV::Arr(Seq::new(self.unmatched_fingerprints@.len(), |k: int| JsonV::Int(self.unmatched_fingerprints@[k] as int)))),
        ])
    }

    /// What it means for a JSON document to decode to this value.
    pub open spec fn decodes_to(j: JsonV, x: FingerprintsMatchesResult) -> bool {
        &&& j matches JsonV::Obj(o)
        &&& crate::fields::jv_bool(o, "isCacheBuilt"@) == Option::Some(x.is_cache_built)
        &&& crate::json::obj_get(o, "exactMatches"@) matches Option::Some(JsonV::Arr(items)) && items.len() == x.exact_matches@.len()
            && (forall|n: int| 0 <= n < items.len() ==> FingerprintMatch::decodes_to(#[trigger] items[n], x.exact_matches@[n]))
        &&& crate::json::obj_get(o, "exactFingerprints"@) matches Option::Some(JsonV::Arr(items))
            && crate::fields::i64_items(items) == Option::Some(x.exact_fingerprints@)
        &&& crate::json::obj_get(o, "partialMatches"@) matches Option::Some(JsonV::Arr(items)) && items.len() == x.partial_matches@.len()
            && (forall|n: int| 0 <= n < items.len() ==> FingerprintMatch::decodes_to(#[trigger] items[n], x.partial_matches@[n]))
        &&& crate::json::obj_get(o, "partialMatchFingerprints"@) matches Option::Some(JsonV::Obj(mm))
            && crate::fields::pairs_i64s(mm) == Option::Some(crate::fields::pairs_view(x.partial_match_fingerprints))
        &&& crate::json::obj_get(o, "installedFingerprints"@) matches Option::Some(JsonV::Arr(items))
            && crate::fields::i64_items(items) == Option::Some(x.installed_fingerprints@)
        &&& crate::json::obj_get(o, "unmatchedFingerprints"@) matches Option::Some(JsonV::Arr(items))
            && crate::fields::i64_items(items) == Option::Some(x.unmatched_fingerprints@)
    }

    #[verifier::rlimit(100)]
    #[verifier::spinoff_prover]
    pub fn to_json(&self) -> (r: Json)
        ensures
            r@ == self.jv(),
    {
        let mut m = JsonMembers::Nil;
        let l_unmatched_fingerprints = crate::fields::i64s_to_list(&self.unmatched_fingerprints, 0);
        let ghost lv_unmatched_fingerprints = l_unmatched_fingerprints@;
        let e_unmatched_fingerprints = Json::Arr(Box::new(l_unmatched_fingerprints));
        proof {
            assert(e_unmatched_fingerprints matches Json::Arr(lb) && crate::json::list_view(*lb) == lv_unmatched_fingerprints);
            assert(lv_unmatched_fingerprints =~= Seq::new(self.unmatched_fingerprints@.len(), |k: int| JsonV::Int(self.unmatched_fingerprints@[k] as int)));
            assert(e_unmatched_fingerprints@ =~~= JsonV::Arr(Seq::new(self.unmatched_fingerprints@.len(), |k: int| JsonV::Int(self.unmatched_fingerprints@[k] as int))));
        }
        m = crate::fields::cons_member("unmatchedFingerprints", e_unmatched_fingerprints, m);
        let l_installed_fingerprints = crate::fields::i64s_to_list(&self.installed_fingerprints, 0);
        let ghost lv_installed_fingerprints = l_installed_fingerprints@;
        let e_installed_fingerprints = Json::Arr(Box::new(l_installed_fingerprints));
        proof {
            assert(e_installed_fingerprints matches Json::Arr(lb) && crate::json::list_view(*lb) == lv_installed_fingerprints);
            assert(lv_installed_fingerprints =~= Seq::new(self.installed_fingerprints@.len(), |k: int| JsonV::Int(self.installed_fingerprints@[k] as int)));
            assert(e_installed_fingerprints@ =~~= JsonV::Arr(Seq::new(self.installed_fingerprints@.len(), |k: int| JsonV::Int(self.installed_fingerprints@[k] as int))));
        }
        m = crate::fields::cons_member("installedFingerprints", e_installed_fingerprints, m);
        let p_partial_match_fingerprints = crate::fields::pairs_to_members(&self.partial_match_fingerprints, 0);
        let ghost pv_partial_match_fingerprints = p_partial_match_fingerprints@;
        let e_partial_match_fingerprints = Json::Obj(Box::new(p_partial_match_fingerprints));
        proof {
            assert(e_partial_match_fingerprints matches Json::Obj(ob) && crate::json::members_view(*ob) == pv_partial_match_fingerprints);
            assert(pv_partial_match_fingerprints =~= Seq::new(self.partial_match_fingerprints@.len(), |k: int| (self.partial_match_fingerprints@[k].0@, JsonV::Arr(
                Seq::new(self.partial_match_fingerprints@[k].1@.len(), |n: int| JsonV::Int(self.partial_match_fingerprints@[k].1@[n] as int)),
            ))));
            assert(e_partial_match_fingerprints@ =~~= JsonV::Obj(Seq::new(self.partial_match_fingerprints@.len(), |k: int| (self.partial_match_fingerprints@[k].0@, JsonV::Arr(Seq::new(self.partial_match_fingerprints@[k].1@.len(), |n: int| JsonV::Int(self.partial_match_fingerprints@[k].1@[n] as int)))))));
        }
        m = crate::fields::cons_member("partialMatchFingerprints", e_partial_match_fingerprints, m);
        let l_partial_matches = FingerprintMatch::list_to_json(&self.partial_matches, 0);
        let ghost lv_partial_matches = l_partial_matches@;
        let e_partial_matches = Json::Arr(Box::new(l_partial_matches));
        proof {
            assert(e_partial_matches matches Json::Arr(lb) && crate::json::list_view(*lb) == lv_partial_matches);
            assert(lv_partial_matches =~= Seq::new(self.partial_matches@.len(), |k: int| self.partial_matches@[k].jv()));
            assert(e_partial_matches@ =~~= JsonV::Arr(Seq::new(self.partial_matches@.len(), |k: int| self.partial_matches@[k].jv())));
        }
        m = crate::fields::cons_member("partialMatches", e_partial_matches, m);
        let l_exact_fingerprints = crate::fields::i64s_to_list(&self.exact_fingerprints, 0);
        let ghost lv_exact_fingerprints = l_exact_fingerprints@;
        let e_exact_fingerprints = Json::Arr(Box::new(l_exact_fingerprints));
        proof {
            assert(e_exact_fingerprints matches Json::Arr(lb) && crate::json::list_view(*lb) == lv_exact_fingerprints);
            assert(lv_exact_fingerprints =~= Seq::new(self.exact_fingerprints@.len(), |k: int| JsonV::Int(self.exact_fingerprints@[k] as int)));
            assert(e_exact_fingerprints@ =~~= JsonV::Arr(Seq::new(self.exact_fingerprints@.len(), |k: int| JsonV::Int(self.exact_fingerprints@[k] as int))));
        }
        m = crate::fields::cons_member("exactFingerprints", e_exact_fingerprints, m);
        let l_exact_matches = FingerprintMatch::list_to_json(&self.exact_matches, 0);
        let ghost lv_exact_matches = l_exact_matches@;
        let e_exact_matches = Json::Arr(Box::new(l_exact_matches));
        proof {
            assert(e_exact_matches matches Json::Arr(lb) && crate::json::list_view(*lb) == lv_exact_matches);
            assert(lv_exact_matches =~= Seq::new(self.exact_matches@.len(), |k: int| self.exact_matches@[k].jv()));
            assert(e_exact_matches@ =~~= JsonV::Arr(Seq::new(self.exact_matches@.len(), |k: int| self.exact_matches@[k].jv())));
        }
        m = crate::fields::cons_member("exactMatches", e_exact_matches, m);
        m = crate::fields::cons_member("isCacheBuilt", Json::Bool(self.is_cache_built), m);
        let ghost m_v = m@;
        let r = Json::Obj(Box::new(m));
        proof {
            assert(r matches Json::Obj(o2) && crate::json::members_view(*o2) == m_v);
            assert(r@ == JsonV::Obj(m_v));
            assert(m_v.len() == 7);
            assert(m_v[0] =~~= ("isCacheBuilt"@, JsonV::Bool(self.is_cache_built)));
            assert(m_v[1] =~~= ("exactMatches"@, JsonV::Arr(Seq::new(self.exact_matches@.len(), |k: int| self.exact_matches@[k].jv()))));
            assert(m_v[2] =~~= ("exactFingerprints"@, JsonV::Arr(Seq::new(self.exact_fingerprints@.len(), |k: int| JsonV::Int(self.exact_fingerprints@[k] as int)))));
            assert(m_v[3] =~~= ("partialMatches"@, JsonV::Arr(Seq::new(self.partial_matches@.len(), |k: int| self.partial_matches@[k].jv()))));
            assert(m_v[4] =~~= ("partialMatchFingerprints"@, JsonV::Obj(Seq::new(self.partial_match_fingerprints@.len(), |k: int| (self.partial_match_fingerprints@[k].0@, JsonV::Arr(Seq::new(self.partial_match_fingerprints@[k].1@.len(), |n: int| JsonV::Int(self.partial_match_fingerprints@[k].1@[n] as int))))))));
            assert(m_v[5] =~~= ("installedFingerprints"@, JsonV::Arr(Seq::new(self.installed_fingerprints@.len(), |k: int| JsonV::Int(self.installed_fingerprints@[k] as int)))));
            assert(m_v[6] =~~= ("unmatchedFingerprints"@, JsonV::Arr(Seq::new(self.unmatched_fingerprints@.len(), |k: int| JsonV::Int(self.unmatched_fingerprints@[k] as int)))));
            assert(m_v =~~= self.jv()->Obj_0);
            assert(r@ =~~= self.jv());
        }
        r
    }

    #[verifier::rlimit(100)]
    #[verifier::spinoff_prover]
    pub fn from_json(j: &Json) -> (r: Option<FingerprintsMatchesResult>)
        ensures
            r matches Option::Some(x) ==> FingerprintsMatchesResult::decodes_to(j@, x),
            r is None ==> forall|x: FingerprintsMatchesResult| !FingerprintsMatchesResult::decodes_to(j@, x),
    {
        match j {
            Json::Obj(m) => {
            let is_cache_built = match crate::fields::get_bool(m, "isCacheBuilt") {
                Option::Some(v) => v,
                Option::None => {
                    return Option::None;
                },
            };
            let exact_matches = match crate::fields::get_arr(m, "exactMatches") {
                Option::Some(l) => match FingerprintMatch::list_from_json(l) {
                    Option::Some(v) => v,
                    Option::None => {
                        proof {
                            assert forall|x: FingerprintsMatchesResult| !FingerprintsMatchesResult::decodes_to(j@, x) by {
                                if FingerprintsMatchesResult::decodes_to(j@, x) {
                                    FingerprintMatch::lemma_list_undecodable(l@, x.exact_matches@);
                                }
                            }
                        }
                        return Option::None;
                    },
                },
                Option::None => {
                    return Option::None;
                },
            };
            let exact_fingerprints = match crate::fields::get_arr(m, "exactFingerprints") {
                Option::Some(l) => match crate::fields::list_i64s(l) {
                    Option::Some(v) => v,
                    Option::None => {
                        return Option::None;
                    },
                },
                Option::None => {
                    return Option::None;
                },
            };
            let partial_matches = match crate::fields::get_arr(m, "partialMatches") {
                Option::Some(l) => match FingerprintMatch::list_from_json(l) {
                    Option::Some(v) => v,
                    Option::None => {
                        proof {
                            assert forall|x: FingerprintsMatchesResult| !FingerprintsMatchesResult::decodes_to(j@, x) by {
                                if FingerprintsMatchesResult::decodes_to(j@, x) {
                                    FingerprintMatch::lemma_list_undecodable(l@, x.partial_matches@);
                                }
                            }
                        }
                        return Option::None;
                    },
                },
                Option::None => {
                    return Option::None;
                },
            };
            let partial_match_fingerprints = match crate::fields::get_obj(m, "partialMatchFingerprints") {
                Option::Some(mm) => match crate::fields::members_pairs(mm) {
                    Option::Some(v) => v,
                    Option::None => {
                        return Option::None;
                    },
                },
                Option::None => {
                    return Option::None;
                },
            };
            let installed_fingerprints = match crate::fields::get_arr(m, "installedFingerprints") {
                Option::Some(l) => match crate::fields::list_i64s(l) {
                    Option::Some(v) => v,
                    Option::None => {
                        return Option::None;
                    },
                },
                Option::None => {
                    return Option::None;
                },
            };
            let unmatched_fingerprints = match crate::fields::get_arr(m, "unmatchedFingerprints") {
                Option::Some(l) => match crate::fields::list_i64s(l) {
                    Option::Some(v) => v,
                    Option::None => {
                        return Option::None;
                    },
                },
                Option::None => {
                    return Option::None;
                },
            };
                Option::Some(FingerprintsMatchesResult {
                    is_cache_built,
                    exact_matches,
                    exact_fingerprints,
                    partial_matches,
                    partial_match_fingerprints,
                    installed_fingerprints,
                    unmatched_fingerprints,
                })
            },
            _ => Option::None,
        }
    }



    /// The JSON document of a value decodes back to it.
    #[verifier::rlimit(100)]
    #[verifier::spinoff_prover]
    pub proof fn lemma_decodes_self(x: FingerprintsMatchesResult)
        ensures
            FingerprintsMatchesResult::decodes_to(x.jv(), x),
    {
        let o = x.jv()->Obj_0;
        assert(crate::json::obj_get(o, "isCacheBuilt"@) == Option::Some(JsonV::Bool(x.is_cache_built))) by {
            reveal_strlit("isCacheBuilt");
            reveal_with_fuel(crate::json::obj_get, 8);
        }
        assert(crate::json::obj_get(o, "exactMatches"@) == Option::Some(JsonV::Arr(Seq::new(x.exact_matches@.len(), |k: int| x.exact_matches@[k].jv())))) by {
            reveal_strlit("isCacheBuilt");
            reveal_strlit("exactMatches");
            assert("isCacheBuilt"@[0] == 'i');
            assert("exactMatches"@[0] == 'e');
            assert("isCacheBuilt"@ != "exactMatches"@);
            reveal_with_fuel(crate::json::obj_get, 8);
        }
        assert(crate::json::obj_get(o, "exactFingerprints"@) == Option::Some(JsonV::Arr(Seq::new(x.exact_fingerprints@.len(), |k: int| JsonV::Int(x.exact_fingerprints@[k] as int))))) by {
            reveal_strlit("isCacheBuilt");
            reveal_strlit("exactMatches");
            reveal_strlit("exactFingerprints");
            assert("isCacheBuilt"@.len() == 12);
            assert("exactFingerprints"@.len() == 17);
            assert("isCacheBuilt"@ != "exactFingerprints"@);
            assert("exactMatches"@.len() == 12);
            assert("exactFingerprints"@.len() == 17);
            assert("exactMatches"@ != "exactFingerprints"@);
            reveal_with_fuel(crate::json::obj_get, 8);
        }
        assert(crate::json::obj_get(o, "partialMatches"@) == Option::Some(JsonV::Arr(Seq::new(x.partial_matches@.len(), |k: int| x.partial_matches@[k].jv())))) by {
            reveal_strlit("isCacheBuilt");
            reveal_strlit("exactMatches");
            reveal_strlit("exactFingerprints");
            reveal_strlit("partialMatches");
            assert("isCacheBuilt"@.len() == 12);
            assert("partialMatches"@.len() == 14);
            assert("isCacheBuilt"@ != "partialMatches"@);
            assert("exactMatches"@.len() == 12);
            assert("partialMatches"@.len() == 14);
            assert("exactMatches"@ != "partialMatches"@);
            assert("exactFingerprints"@.len() == 17);
            assert("partialMatches"@.len() == 14);
            assert("exactFingerprints"@ != "partialMatches"@);
            reveal_with_fuel(crate::json::obj_get, 8);
        }
        assert(crate::json::obj_get(o, "partialMatchFingerprints"@) == Option::Some(JsonV::Obj(Seq::new(x.partial_match_fingerprints@.len(), |k: int| (x.partial_match_fingerprints@[k].0@, JsonV::Arr(Seq::new(x.partial_match_fingerprints@[k].1@.len(), |n: int| JsonV::Int(x.partial_match_fingerprints@[k].1@[n] as int)))))))) by {
            reveal_strlit("isCacheBuilt");
            reveal_strlit("exactMatches");
            reveal_strlit("exactFingerprints");
            reveal_strlit("partialMatches");
            reveal_strlit("partialMatchFingerprints");
            assert("isCacheBuilt"@.len() == 12);
            assert("partialMatchFingerprints"@.len() == 24);
            assert("isCacheBuilt"@ != "partialMatchFingerprints"@);
            assert("exactMatches"@.len() == 12);
            assert("partialMatchFingerprints"@.len() == 24);
            assert("exactMatches"@ != "partialMatchFingerprints"@);
            assert("exactFingerprints"@.len() == 17);
            assert("partialMatchFingerprints"@.len() == 24);
            assert("exactFingerprints"@ != "partialMatchFingerprints"@);
            assert("partialMatches"@.len() == 14);
            assert("partialMatchFingerprints"@.len() == 24);
            assert("partialMatches"@ != "partialMatchFingerprints"@);
            reveal_with_fuel(crate::json::obj_get, 8);
        }
        assert(crate::json::obj_get(o, "installedFingerprints"@) == Option::Some(JsonV::Arr(Seq::new(x.installed_fingerprints@.len(), |k: int| JsonV::Int(x.installed_fingerprints@[k] as int))))) by {
            reveal_strlit("isCacheBuilt");
            reveal_strlit("exactMatches");
            reveal_strlit("exactFingerprints");
            reveal_strlit("partialMatches");
            reveal_strlit("partialMatchFingerprints");
            reveal_strlit("installedFingerprints");
            assert("isCacheBuilt"@.len() == 12);
            assert("installedFingerprints"@.len() == 21);
            assert("isCacheBuilt"@ != "installedFingerprints"@);
            assert("exactMatches"@.len() == 12);
            assert("installedFingerprints"@.len() == 21);
            assert("exactMatches"@ != "installedFingerprints"@);
            assert("exactFingerprints"@.len() == 17);
            assert("installedFingerprints"@.len() == 21);
            assert("exactFingerprints"@ != "installedFingerprints"@);
            assert("partialMatches"@.len() == 14);
            assert("installedFingerprints"@.len() == 21);
            assert("partialMatches"@ != "installedFingerprints"@);
            assert("partialMatchFingerprints"@.len() == 24);
            assert("installedFingerprints"@.len() == 21);
            assert("partialMatchFingerprints"@ != "installedFingerprints"@);
            reveal_with_fuel(crate::json::obj_get, 8);
        }
        assert(crate::json::obj_get(o, "unmatchedFingerprints"@) == Option::Some(JsonV::Arr(Seq::new(x.unmatched_fingerprints@.len(), |k: int| JsonV::Int(x.unmatched_fingerprints@[k] as int))))) by {
            reveal_strlit("isCacheBuilt");
            reveal_strlit("exactMatches");
            reveal_strlit("exactFingerprints");
            reveal_strlit("partialMatches");
            reveal_strlit("partialMatchFingerprints");
            reveal_strlit("installedFingerprints");
            reveal_strlit("unmatchedFingerprints");
            assert("isCacheBuilt"@.len() == 12);
            assert("unmatchedFingerprints"@.len() == 21);
            assert("isCacheBuilt"@ != "unmatchedFingerprints"@);
            assert("exactMatches"@.len() == 12);
            assert("unmatchedFingerprints"@.len() == 21);
            assert("exactMatches"@ != "unmatchedFingerprints"@);
            assert("exactFingerprints"@.len() == 17);
            assert("unmatchedFingerprints"@.len() == 21);
            assert("exactFingerprints"@ != "unmatchedFingerprints"@);
            assert("partialMatches"@.len() == 14);
            assert("unmatchedFingerprints"@.len() == 21);
            assert("partialMatches"@ != "unmatchedFingerprints"@);
            assert("partialMatchFingerprints"@.len() == 24);
            assert("unmatchedFingerprints"@.len() == 21);
            assert("partialMatchFingerprints"@ != "unmatchedFingerprints"@);
            assert("installedFingerprints"@[0] == 'i');
            assert("unmatchedFingerprints"@[0] == 'u');
            assert("installedFingerprints"@ != "unmatchedFingerprints"@);
            reveal_with_fuel(crate::json::obj_get, 8);
        }
        assert forall|n: int| 0 <= n < x.exact_matches@.len() implies FingerprintMatch::decodes_to(
            (#[trigger] x.exact_matches@[n]).jv(), x.exact_matches@[n],
        ) by {
            FingerprintMatch::lemma_decodes_self(x.exact_matches@[n]);
        }
        assert(forall|n: int| 0 <= n < x.exact_matches@.len() ==> Seq::new(x.exact_matches@.len(),
            |k: int| x.exact_matches@[k].jv())[n] == (#[trigger] x.exact_matches@[n]).jv());
        crate::fields::lemma_i64_items(Seq::new(x.exact_fingerprints@.len(), |k: int| JsonV::Int(x.exact_fingerprints@[k] as int)), x.exact_fingerprints@);
        assert forall|n: int| 0 <= n < x.partial_matches@.len() implies FingerprintMatch::decodes_to(
            (#[trigger] x.partial_matches@[n]).jv(), x.partial_matches@[n],
        ) by {
            FingerprintMatch::lemma_decodes_self(x.partial_matches@[n]);
        }
        assert(forall|n: int| 0 <= n < x.partial_matches@.len() ==> Seq::new(x.partial_matches@.len(),
            |k: int| x.partial_matches@[k].jv())[n] == (#[trigger] x.partial_matches@[n]).jv());
        assert forall|k: int| 0 <= k < x.partial_match_fingerprints@.len() implies crate::fields::i64_items(
            Seq::new((#[trigger] x.partial_match_fingerprints@[k]).1@.len(), |n: int| JsonV::Int(x.partial_match_fingerprints@[k].1@[n] as int)),
        ) == Option::Some(crate::fields::pairs_view(x.partial_match_fingerprints)[k].1) by {
            crate::fields::lemma_i64_items(Seq::new(x.partial_match_fingerprints@[k].1@.len(), |n: int| JsonV::Int(
                x.partial_match_fingerprints@[k].1@[n] as int)), x.partial_match_fingerprints@[k].1@);
        }
        crate::fields::lemma_pairs_i64s(Seq::new(x.partial_match_fingerprints@.len(), |q: int| (x.partial_match_fingerprints@[q].0@, JsonV::Arr(
            Seq::new(x.partial_match_fingerprints@[q].1@.len(), |n: int| JsonV::Int(x.partial_match_fingerprints@[q].1@[n] as int))))),
            crate::fields::pairs_view(x.partial_match_fingerprints));
        crate::fields::lemma_i64_items(Seq::new(x.installed_fingerprints@.len(), |k: int| JsonV::Int(x.installed_fingerprints@[k] as int)), x.installed_fingerprints@);
        crate::fields::lemma_i64_items(Seq::new(x.unmatched_fingerprints@.len(), |k: int| JsonV::Int(x.unmatched_fingerprints@[k] as int)), x.unmatched_fingerprints@);
    }

    /// Two values that one JSON document decodes to are equal, field for field.
    #[verifier::rlimit(100)]
    #[verifier::spinoff_prover]
    pub proof fn lemma_deterministic(j: JsonV, x: FingerprintsMatchesResult, y: FingerprintsMatchesResult)
        requires
            FingerprintsMatchesResult::decodes_to(j, x),
            FingerprintsMatchesResult::decodes_to(j, y),
        ensures
            y.is_cache_built == x.is_cache_built,
            y.exact_matches@.len() == x.exact_matches@.len() && (forall|n: int| 0 <= n < x.exact_matches@.len() ==> (#[trigger] y.exact_matches@[n]).jv() == x.exact_matches@[n].jv()),
            y.exact_fingerprints@ == x.exact_fingerprints@,
            y.partial_matches@.len() == x.partial_matches@.len() && (forall|n: int| 0 <= n < x.partial_matches@.len() ==> (#[trigger] y.partial_matches@[n]).jv() == x.partial_matches@[n].jv()),
            crate::fields::pairs_view(y.partial_match_fingerprints) == crate::fields::pairs_view(x.partial_match_fingerprints),
            y.installed_fingerprints@ == x.installed_fingerprints@,
            y.unmatched_fingerprints@ == x.unmatched_fingerprints@,
            y.jv() == x.jv(),
    {
        let o = j->Obj_0;
        match crate::json::obj_get(o, "exactMatches"@) {
            Option::Some(JsonV::Arr(items)) => {
                assert forall|n: int| 0 <= n < x.exact_matches@.len() implies (#[trigger] y.exact_matches@[n]).jv()
                    == x.exact_matches@[n].jv() by {
                    assert(FingerprintMatch::decodes_to(items[n], x.exact_matches@[n]));
                    assert(FingerprintMatch::decodes_to(items[n], y.exact_matches@[n]));
                    FingerprintMatch::lemma_deterministic(items[n], x.exact_matches@[n], y.exact_matches@[n]);
                }
            },
            _ => {
                assert(false);
            },
        }
        match crate::json::obj_get(o, "exactFingerprints"@) {
            Option::Some(JsonV::Arr(items)) => {
                assert(crate::fields::i64_items(items) == Option::Some(x.exact_fingerprints@));
                assert(crate::fields::i64_items(items) == Option::Some(y.exact_fingerprints@));
                assert(x.exact_fingerprints@ == y.exact_fingerprints@);
            },
            _ => {
                assert(false);
            },
        }
        match crate::json::obj_get(o, "partialMatches"@) {
            Option::Some(JsonV::Arr(items)) => {
                assert forall|n: int| 0 <= n < x.partial_matches@.len() implies (#[trigger] y.partial_matches@[n]).jv()
                    == x.partial_matches@[n].jv() by {
                    assert(FingerprintMatch::decodes_to(items[n], x.partial_matches@[n]));
                    assert(FingerprintMatch::decodes_to(items[n], y.partial_matches@[n]));
                    FingerprintMatch::lemma_deterministic(items[n], x.partial_matches@[n], y.partial_matches@[n]);
                }
            },
            _ => {
                assert(false);
            },
        }
        match crate::json::obj_get(o, "partialMatchFingerprints"@) {
            Option::Some(JsonV::Obj(mm)) => {
                assert(crate::fields::pairs_i64s(mm) == Option::Some(crate::fields::pairs_view(x.partial_match_fingerprints)));
                assert(crate::fields::pairs_i64s(mm) == Option::Some(crate::fields::pairs_view(y.partial_match_fingerprints)));
                assert(crate::fields::pairs_view(x.partial_match_fingerprints) == crate::fields::pairs_view(y.partial_match_fingerprints));
            },
            _ => {
                assert(false);
            },
        }
        match crate::json::obj_get(o, "installedFingerprints"@) {
            Option::Some(JsonV::Arr(items)) => {
                assert(crate::fields::i64_items(items) == Option::Some(x.installed_fingerprints@));
                assert(crate::fields::i64_items(items) == Option::Some(y.installed_fingerprints@));
                assert(x.installed_fingerprints@ == y.installed_fingerprints@);
            },
            _ => {
                assert(false);
            },
        }
        match crate::json::obj_get(o, "unmatchedFingerprints"@) {
            Option::Some(JsonV::Arr(items)) => {
                assert(crate::fields::i64_items(items) == Option::Some(x.unmatched_fingerprints@));
                assert(crate::fields::i64_items(items) == Option::Some(y.unmatched_fingerprints@));
                assert(x.unmatched_fingerprints@ == y.unmatched_fingerprints@);
            },
            _ => {
                assert(false);
            },
        }
        assert(JsonV::Bool(y.is_cache_built) =~~= JsonV::Bool(x.is_cache_built));
        assert(Seq::new(y.exact_matches@.len(), |k: int| y.exact_matches@[k].jv()) =~= Seq::new(x.exact_matches@.len(),
            |k: int| x.exact_matches@[k].jv()));
        assert(Seq::new(y.exact_fingerprints@.len(), |k: int| JsonV::Int(y.exact_fingerprints@[k] as int)) =~= Seq::new(
            x.exact_fingerprints@.len(), |k: int| JsonV::Int(x.exact_fingerprints@[k] as int)));
        assert(Seq::new(y.partial_matches@.len(), |k: int| y.partial_matches@[k].jv()) =~= Seq::new(x.partial_matches@.len(),
            |k: int| x.partial_matches@[k].jv()));
        assert forall|q: int| 0 <= q < y.partial_match_fingerprints@.len() implies (#[trigger] y.partial_match_fingerprints@[q]).0@
            == x.partial_match_fingerprints@[q].0@ && y.partial_match_fingerprints@[q].1@ == x.partial_match_fingerprints@[q].1@ by {
            assert(crate::fields::pairs_view(y.partial_match_fingerprints).len() == y.partial_match_fingerprints@.len());
            assert(crate::fields::pairs_view(x.partial_match_fingerprints).len() == x.partial_match_fingerprints@.len());
            assert(crate::fields::pairs_view(y.partial_match_fingerprints)[q] == (y.partial_match_fingerprints@[q].0@, y.partial_match_fingerprints@[q].1@));
            assert(crate::fields::pairs_view(x.partial_match_fingerprints)[q] == (x.partial_match_fingerprints@[q].0@, x.partial_match_fingerprints@[q].1@));
            assert(crate::fields::pairs_view(y.partial_match_fingerprints)[q] == crate::fields::pairs_view(x.partial_match_fingerprints)[q]);
        }
        assert(crate::fields::pairs_view(y.partial_match_fingerprints).len() == y.partial_match_fingerprints@.len());
        assert(crate::fields::pairs_view(x.partial_match_fingerprints).len() == x.partial_match_fingerprints@.len());
        assert(y.partial_match_fingerprints@.len() == x.partial_match_fingerprints@.len());
        assert(Seq::new(y.partial_match_fingerprints@.len(), |k: int| (y.partial_match_fingerprints@[k].0@, JsonV::Arr(Seq::new(
            y.partial_match_fingerprints@[k].1@.len(), |n2: int| JsonV::Int(y.partial_match_fingerprints@[k].1@[n2] as int))))) =~~= Seq::new(
            x.partial_match_fingerprints@.len(), |k: int| (x.partial_match_fingerprints@[k].0@, JsonV::Arr(Seq::new(x.partial_match_fingerprints@[k].1@.len(),
            |n2: int| JsonV::Int(x.partial_match_fingerprints@[k].1@[n2] as int))))));
        assert(Seq::new(y.installed_fingerprints@.len(), |k: int| JsonV::Int(y.installed_fingerprints@[k] as int)) =~= Seq::new(
            x.installed_fingerprints@.len(), |k: int| JsonV::Int(x.installed_fingerprints@[k] as int)));
        assert(Seq::new(y.unmatched_fingerprints@.len(), |k: int| JsonV::Int(y.unmatched_fingerprints@[k] as int)) =~= Seq::new(
            x.unmatched_fingerprints@.len(), |k: int| JsonV::Int(x.unmatched_fingerprints@[k] as int)));
        let oy = y.jv()->Obj_0;
        let ox = x.jv()->Obj_0;
        assert(oy[0] =~~= ox[0]);
        assert(oy[1] =~~= ox[1]);
        assert(oy[2] =~~= ox[2]);
        assert(oy[3] =~~= ox[3]);
        assert(oy[4] =~~= ox[4]);
        assert(oy[5] =~~= ox[5]);
        assert(oy[6] =~~= ox[6]);
        assert forall|n: int| 0 <= n < ox.len() implies oy[n] =~~= ox[n] by {
            if n == 0 {
                assert(oy[n] =~~= ox[n]);
            } else if n == 1 {
                assert(oy[n] =~~= ox[n]);
            } else if n == 2 {
                assert(oy[n] =~~= ox[n]);
            } else if n == 3 {
                assert(oy[n] =~~= ox[n]);
            } else if n == 4 {
                assert(oy[n] =~~= ox[n]);
            } else if n == 5 {
                assert(oy[n] =~~= ox[n]);
            } else if n == 6 {
                assert(oy[n] =~~= ox[n]);
            }
        }
        assert(oy =~~= ox);
        assert(y.jv() =~~= x.jv());
    }
}

/// The fuzzy matches of a fingerprint query.
#[derive(Debug, Clone)]
pub struct FingerprintFuzzyMatchResult {
    pub fuzzy_matches: Vec<FingerprintFuzzyMatch>,
}

impl FingerprintFuzzyMatchResult {
    /// The JSON document of this value, member for member.
    pub open spec fn jv(self) -> JsonV {
        JsonV::Obj(seq![
            ("fuzzyMatches"@, JsonV::Arr(Seq::new(self.fuzzy_matches@.len(), |k: int| self.fuzzy_matches@[k].jv()))),
        ])
    }

    /// What it means for a JSON document to decode to this value.
    pub open spec fn decodes_to(j: JsonV, x: FingerprintFuzzyMatchResult) -> bool {
        &&& j matches JsonV::Obj(o)
        &&& crate::json::obj_get(o, "fuzzyMatches"@) matches Option::Some(JsonV::Arr(items)) && items.len() == x.fuzzy_matches@.len()
            && (forall|n: int| 0 <= n < items.len() ==> FingerprintFuzzyMatch::decodes_to(#[trigger] items[n], x.fuzzy_matches@[n]))
    }

    #[verifier::rlimit(100)]
    #[verifier::spinoff_prover]
    pub fn to_json(&self) -> (r: Json)
        ensures
            r@ == self.jv(),
    {
        let mut m = JsonMembers::Nil;
        let l_fuzzy_matches = FingerprintFuzzyMatch::list_to_json(&self.fuzzy_matches, 0);
        let ghost lv_fuzzy_matches = l_fuzzy_matches@;
        let e_fuzzy_matches = Json::Arr(Box::new(l_fuzzy_matches));
        proof {
            assert(e_fuzzy_matches matches Json::Arr(lb) && crate::json::list_view(*lb) == lv_fuzzy_matches);
            assert(lv_fuzzy_matches =~= Seq::new(self.fuzzy_matches@.len(), |k: int| self.fuzzy_matches@[k].jv()));
            assert(e_fuzzy_matches@ =~~= JsonV::Arr(Seq::new(self.fuzzy_matches@.len(), |k: int| self.fuzzy_matches@[k].jv())));
        }
        m = crate::fields::cons_member("fuzzyMatches", e_fuzzy_matches, m);
        let ghost m_v = m@;
        let r = Json::Obj(Box::new(m));
        proof {
            assert(r matches Json::Obj(o2) && crate::json::members_view(*o2) == m_v);
            assert(r@ == JsonV::Obj(m_v));
            assert(m_v.len() == 1);
            assert(m_v[0] =~~= ("fuzzyMatches"@, JsonV::Arr(Seq::new(self.fuzzy_matches@.len(), |k: int| self.fuzzy_matches@[k].jv()))));
            assert(m_v =~~= self.jv()->Obj_0);
            assert(r@ =~~= self.jv());
        }
        r
    }

    #[verifier::rlimit(100)]
    #[verifier::spinoff_prover]
    pub fn from_json(j: &Json) -> (r: Option<FingerprintFuzzyMatchResult>)
        ensures
            r matches Option::Some(x) ==> FingerprintFuzzyMatchResult::decodes_to(j@, x),
            r is None ==> forall|x: FingerprintFuzzyMatchResult| !FingerprintFuzzyMatchResult::decodes_to(j@, x),
    {
        match j {
            Json::Obj(m) => {
            let fuzzy_matches = match crate::fields::get_arr(m, "fuzzyMatches") {
                Option::Some(l) => match FingerprintFuzzyMatch::list_from_json(l) {
                    Option::Some(v) => v,
                    Option::None => {
                        proof {
                            assert forall|x: FingerprintFuzzyMatchResult| !FingerprintFuzzyMatchResult::decodes_to(j@, x) by {
                                if FingerprintFuzzyMatchResult::decodes_to(j@, x) {
                                    FingerprintFuzzyMatch::lemma_list_undecodable(l@, x.fuzzy_matches@);
                                }
                            }
                        }
                        return Option::None;
                    },
                },
                Option::None => {
                    return Option::None;
                },
            };
                Option::Some(FingerprintFuzzyMatchResult {
                    fuzzy_matches,
                })
            },
            _ => Option::None,
        }
    }



    /// The JSON document of a value decodes back to it.
    #[verifier::rlimit(100)]
    #[verifier::spinoff_prover]
    pub proof fn lemma_decodes_self(x: FingerprintFuzzyMatchResult)
        ensures
            FingerprintFuzzyMatchResult::decodes_to(x.jv(), x),
    {
        let o = x.jv()->Obj_0;
        assert(crate::json::obj_get(o, "fuzzyMatches"@) == Option::Some(JsonV::Arr(Seq::new(x.fuzzy_matches@.len(), |k: int| x.fuzzy_matches@[k].jv())))) by {
            reveal_strlit("fuzzyMatches");
            reveal_with_fuel(crate::json::obj_get, 2);
        }
        assert forall|n: int| 0 <= n < x.fuzzy_matches@.len() implies FingerprintFuzzyMatch::decodes_to(
            (#[trigger] x.fuzzy_matches@[n]).jv(), x.fuzzy_matches@[n],
        ) by {
            FingerprintFuzzyMatch::lemma_decodes_self(x.fuzzy_matches@[n]);
        }
        assert(forall|n: int| 0 <= n < x.fuzzy_matches@.len() ==> Seq::new(x.fuzzy_matches@.len(),
            |k: int| x.fuzzy_matches@[k].jv())[n] == (#[trigger] x.fuzzy_matches@[n]).jv());
    }

    /// Two values that one JSON document decodes to are equal, field for field.
    #[verifier::rlimit(100)]
    #[verifier::spinoff_prover]
    pub proof fn lemma_deterministic(j: JsonV, x: FingerprintFuzzyMatchResult, y: FingerprintFuzzyMatchResult)
        requires
            FingerprintFuzzyMatchResult::decodes_to(j, x),
            FingerprintFuzzyMatchResult::decodes_to(j, y),
        ensures
            y.fuzzy_matches@.len() == x.fuzzy_matches@.len() && (forall|n: int| 0 <= n < x.fuzzy_matches@.len() ==> (#[trigger] y.fuzzy_matches@[n]).jv() == x.fuzzy_matches@[n].jv()),
            y.jv() == x.jv(),
    {
        let o = j->Obj_0;
        match crate::json::obj_get(o, "fuzzyMatches"@) {
            Option::Some(JsonV::Arr(items)) => {
                assert forall|n: int| 0 <= n < x.fuzzy_matches@.len() implies (#[trigger] y.fuzzy_matches@[n]).jv()
                    == x.fuzzy_matches@[n].jv() by {
                    assert(FingerprintFuzzyMatch::decodes_to(items[n], x.fuzzy_matches@[n]));
                    assert(FingerprintFuzzyMatch::decodes_to(items[n], y.fuzzy_matches@[n]));
                    FingerprintFuzzyMatch::lemma_deterministic(items[n], x.fuzzy_matches@[n], y.fuzzy_matches@[n]);
                }
            },
            _ => {
                assert(false);
            },
        }
        assert(Seq::new(y.fuzzy_matches@.len(), |k: int| y.fuzzy_matches@[k].jv()) =~= Seq::new(x.fuzzy_matches@.len(),
            |k: int| x.fuzzy_matches@[k].jv()));
        let oy = y.jv()->Obj_0;
        let ox = x.jv()->Obj_0;
        assert(oy[0] =~~= ox[0]);
        assert forall|n: int| 0 <= n < ox.len() implies oy[n] =~~= ox[n] by {
            if n == 0 {
                assert(oy[n] =~~= ox[n]);
            }
        }
        assert(oy =~~= ox);
        assert(y.jv() =~~= x.jv());
    }
}

} // verus!
