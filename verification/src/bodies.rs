//! The request bodies of the bulk endpoints.
#![allow(unused_imports)]
use crate::enums::{CoreApiStatus, CoreStatus, FileRelationType, FileReleaseType, FileStatus,
    GameVersionStatus, GameVersionTypeStatus, HashAlgo, ModLoaderInstallMethod, ModLoaderType,
    ModStatus, ModsSearchSortField, SortOrder};
use crate::json::{Json, JsonList, JsonMembers, JsonV};
use crate::schema_fingerprints::FolderFingerprint;
use vstd::prelude::*;

verus! {

broadcast use vstd::seq::group_seq_axioms, vstd::std_specs::vec::group_vec_axioms;


/// What the featured-mods endpoint is asked for.
#[derive(Debug, Clone)]
pub struct GetFeaturedModsRequestBody {
    pub game_id: i32,
    pub excluded_mod_ids: Vec<i32>,
    pub game_version_type_id: Option<i32>,
}

impl GetFeaturedModsRequestBody {
    /// The JSON document of this value, member for member.
    pub open spec fn jv(self) -> JsonV {
        JsonV::Obj(seq![
            ("gameId"@, JsonV::Int(self.game_id as int)),
            ("excludedModIds"@, JsonV::Arr(Seq::new(self.excluded_mod_ids@.len(), |k: int| JsonV::Int(self.excluded_mod_ids@[k] as int)))),
            ("gameVersionTypeId"@, (match self.game_version_type_id { Option::Some(v) => JsonV::Int(v as int), Option::None => JsonV::Null })),
        ])
    }

    /// What it means for a JSON document to decode to this value.
    pub open spec fn decodes_to(j: JsonV, x: GetFeaturedModsRequestBody) -> bool {
        &&& j matches JsonV::Obj(o)
        &&& crate::fields::jv_i32(o, "gameId"@) == Option::Some(x.game_id)
        &&& crate::json::obj_get(o, "excludedModIds"@) matches Option::Some(JsonV::Arr(items))
            && crate::fields::i32_items(items) == Option::Some(x.excluded_mod_ids@)
        &&& crate::fields::jv_opt_i32(o, "gameVersionTypeId"@) == Option::Some(x.game_version_type_id)
    }

    pub fn to_json(&self) -> (r: Json)
        ensures
            r@ == self.jv(),
    {
        let mut m = JsonMembers::Nil;
        m = crate::fields::cons_member("gameVersionTypeId", crate::fields::opt_i32_json(&self.game_version_type_id), m);
        let l_excluded_mod_ids = crate::fields::i32s_to_list(&self.excluded_mod_ids, 0);
        let ghost lv_excluded_mod_ids = l_excluded_mod_ids@;
        let e_excluded_mod_ids = Json::Arr(Box::new(l_excluded_mod_ids));
        proof {
            assert(e_excluded_mod_ids matches Json::Arr(lb) && crate::json::list_view(*lb) == lv_excluded_mod_ids);
            assert(lv_excluded_mod_ids =~= Seq::new(self.excluded_mod_ids@.len(), |k: int| JsonV::Int(self.excluded_mod_ids@[k] as int)));
            assert(e_excluded_mod_ids@ =~~= JsonV::Arr(Seq::new(self.excluded_mod_ids@.len(), |k: int| JsonV::Int(self.excluded_mod_ids@[k] as int))));
        }
        m = crate::fields::cons_member("excludedModIds", e_excluded_mod_ids, m);
        m = crate::fields::cons_member("gameId", Json::Int(self.game_id as i64), m);
        let ghost m_v = m@;
        let r = Json::Obj(Box::new(m));
        proof {
            assert(r matches Json::Obj(o2) && crate::json::members_view(*o2) == m_v);
            assert(r@ == JsonV::Obj(m_v));
            assert(m_v.len() == 3);
            assert(m_v[0] =~~= ("gameId"@, JsonV::Int(self.game_id as int)));
            assert(m_v[1] =~~= ("excludedModIds"@, JsonV::Arr(Seq::new(self.excluded_mod_ids@.len(), |k: int| JsonV::Int(self.excluded_mod_ids@[k] as int)))));
            assert(m_v[2] =~~= ("gameVersionTypeId"@, (match self.game_version_type_id { Option::Some(v) => JsonV::Int(v as int), Option::None => JsonV::Null })));
            assert(m_v =~~= self.jv()->Obj_0);
            assert(r@ =~~= self.jv());
        }
        r
    }

    pub fn from_json(j: &Json) -> (r: Option<GetFeaturedModsRequestBody>)
        ensures
            r matches Option::Some(x) ==> GetFeaturedModsRequestBody::decodes_to(j@, x),
            r is None ==> forall|x: GetFeaturedModsRequestBody| !GetFeaturedModsRequestBody::decodes_to(j@, x),
    {
        match j {
            Json::Obj(m) => {
            let game_id = match crate::fields::get_i32(m, "gameId") {
                Option::Some(v) => v,
                Option::None => {
                    return Option::None;
                },
            };
            let excluded_mod_ids = match crate::fields::get_arr(m, "excludedModIds") {
                Option::Some(l) => match crate::fields::list_i32s(l) {
                    Option::Some(v) => v,
                    Option::None => {
                        return Option::None;
                    },
                },
                Option::None => {
                    return Option::None;
                },
            };
            let game_version_type_id = match crate::fields::get_opt_i32(m, "gameVersionTypeId") {
                Option::Some(v) => v,
                Option::None => {
                    return Option::None;
                },
            };
                Option::Some(GetFeaturedModsRequestBody {
                    game_id,
                    excluded_mod_ids,
                    game_version_type_id,
                })
            },
            _ => Option::None,
        }
    }



    /// The JSON document of a value decodes back to it.
    pub proof fn lemma_decodes_self(x: GetFeaturedModsRequestBody)
        ensures
            GetFeaturedModsRequestBody::decodes_to(x.jv(), x),
    {
        let o = x.jv()->Obj_0;
        assert(crate::json::obj_get(o, "gameId"@) == Option::Some(JsonV::Int(x.game_id as int))) by {
            reveal_strlit("gameId");
            reveal_with_fuel(crate::json::obj_get, 4);
        }
        assert(crate::json::obj_get(o, "excludedModIds"@) == Option::Some(JsonV::Arr(Seq::new(x.excluded_mod_ids@.len(), |k: int| JsonV::Int(x.excluded_mod_ids@[k] as int))))) by {
            reveal_strlit("gameId");
            reveal_strlit("excludedModIds");
            assert("gameId"@.len() == 6);
            assert("excludedModIds"@.len() == 14);
            assert("gameId"@ != "excludedModIds"@);
            reveal_with_fuel(crate::json::obj_get, 4);
        }
        assert(crate::json::obj_get(o, "gameVersionTypeId"@) == Option::Some((match x.game_version_type_id { Option::Some(v) => JsonV::Int(v as int), Option::None => JsonV::Null }))) by {
            reveal_strlit("gameId");
            reveal_strlit("excludedModIds");
            reveal_strlit("gameVersionTypeId");
            assert("gameId"@.len() == 6);
            assert("gameVersionTypeId"@.len() == 17);
            assert("gameId"@ != "gameVersionTypeId"@);
            assert("excludedModIds"@.len() == 14);
            assert("gameVersionTypeId"@.len() == 17);
            assert("excludedModIds"@ != "gameVersionTypeId"@);
            reveal_with_fuel(crate::json::obj_get, 4);
        }
        crate::fields::lemma_i32_items(Seq::new(x.excluded_mod_ids@.len(), |k: int| JsonV::Int(x.excluded_mod_ids@[k] as int)), x.excluded_mod_ids@);
    }

    /// Two values that one JSON document decodes to are equal, field for field.
    pub proof fn lemma_deterministic(j: JsonV, x: GetFeaturedModsRequestBody, y: GetFeaturedModsRequestBody)
        requires
            GetFeaturedModsRequestBody::decodes_to(j, x),
            GetFeaturedModsRequestBody::decodes_to(j, y),
        ensures
            y.game_id == x.game_id,
            y.excluded_mod_ids@ == x.excluded_mod_ids@,
            y.game_version_type_id == x.game_version_type_id,
    {
        let o = j->Obj_0;
        match crate::json::obj_get(o, "excludedModIds"@) {
            Option::Some(JsonV::Arr(items)) => {
                assert(crate::fields::i32_items(items) == Option::Some(x.excluded_mod_ids@));
                assert(crate::fields::i32_items(items) == Option::Some(y.excluded_mod_ids@));
                assert(x.excluded_mod_ids@ == y.excluded_mod_ids@);
            },
            _ => {
                assert(false);
            },
        }
    }
}

/// The fingerprints to match.
#[derive(Debug, Clone)]
pub struct GetFingerprintMatchesRequestBody {
    pub fingerprints: Vec<i64>,
}

impl GetFingerprintMatchesRequestBody {
    /// The JSON document of this value, member for member.
    pub open spec fn jv(self) -> JsonV {
        JsonV::Obj(seq![
            ("fingerprints"@, JsonV::Arr(Seq::new(self.fingerprints@.len(), |k: int| JsonV::Int(self.fingerprints@[k] as int)))),
        ])
    }

    /// What it means for a JSON document to decode to this value.
    pub open spec fn decodes_to(j: JsonV, x: GetFingerprintMatchesRequestBody) -> bool {
        &&& j matches JsonV::Obj(o)
        &&& crate::json::obj_get(o, "fingerprints"@) matches Option::Some(JsonV::Arr(items))
            && crate::fields::i64_items(items) == Option::Some(x.fingerprints@)
    }

    pub fn to_json(&self) -> (r: Json)
        ensures
            r@ == self.jv(),
    {
        let mut m = JsonMembers::Nil;
        let l_fingerprints = crate::fields::i64s_to_list(&self.fingerprints, 0);
        let ghost lv_fingerprints = l_fingerprints@;
        let e_fingerprints = Json::Arr(Box::new(l_fingerprints));
        proof {
            assert(e_fingerprints matches Json::Arr(lb) && crate::json::list_view(*lb) == lv_fingerprints);
            assert(lv_fingerprints =~= Seq::new(self.fingerprints@.len(), |k: int| JsonV::Int(self.fingerprints@[k] as int)));
            assert(e_fingerprints@ =~~= JsonV::Arr(Seq::new(self.fingerprints@.len(), |k: int| JsonV::Int(self.fingerprints@[k] as int))));
        }
        m = crate::fields::cons_member("fingerprints", e_fingerprints, m);
        let ghost m_v = m@;
        let r = Json::Obj(Box::new(m));
        proof {
            assert(r matches Json::Obj(o2) && crate::json::members_view(*o2) == m_v);
            assert(r@ == JsonV::Obj(m_v));
            assert(m_v.len() == 1);
            assert(m_v[0] =~~= ("fingerprints"@, JsonV::Arr(Seq::new(self.fingerprints@.len(), |k: int| JsonV::Int(self.fingerprints@[k] as int)))));
            assert(m_v =~~= self.jv()->Obj_0);
            assert(r@ =~~= self.jv());
        }
        r
    }

    pub fn from_json(j: &Json) -> (r: Option<GetFingerprintMatchesRequestBody>)
        ensures
            r matches Option::Some(x) ==> GetFingerprintMatchesRequestBody::decodes_to(j@, x),
            r is None ==> forall|x: GetFingerprintMatchesRequestBody| !GetFingerprintMatchesRequestBody::decodes_to(j@, x),
    {
        match j {
            Json::Obj(m) => {
            let fingerprints = match crate::fields::get_arr(m, "fingerprints") {
                Option::Some(l) => match crate::fields::list_i64s(l) {
                    Option::Some(v) => v,
                    Option::None => {
                        return Option::None;
                    },
                },
                Option::None => {
                    return Option::None;
                },
            };
                Option::Some(GetFingerprintMatchesRequestBody {
                    fingerprints,
                })
            },
            _ => Option::None,
        }
    }



    /// The JSON document of a value decodes back to it.
    pub proof fn lemma_decodes_self(x: GetFingerprintMatchesRequestBody)
        ensures
            GetFingerprintMatchesRequestBody::decodes_to(x.jv(), x),
    {
        let o = x.jv()->Obj_0;
        assert(crate::json::obj_get(o, "fingerprints"@) == Option::Some(JsonV::Arr(Seq::new(x.fingerprints@.len(), |k: int| JsonV::Int(x.fingerprints@[k] as int))))) by {
            reveal_strlit("fingerprints");
            reveal_with_fuel(crate::json::obj_get, 2);
        }
        crate::fields::lemma_i64_items(Seq::new(x.fingerprints@.len(), |k: int| JsonV::Int(x.fingerprints@[k] as int)), x.fingerprints@);
    }

    /// Two values that one JSON document decodes to are equal, field for field.
    pub proof fn lemma_deterministic(j: JsonV, x: GetFingerprintMatchesRequestBody, y: GetFingerprintMatchesRequestBody)
        requires
            GetFingerprintMatchesRequestBody::decodes_to(j, x),
            GetFingerprintMatchesRequestBody::decodes_to(j, y),
        ensures
            y.fingerprints@ == x.fingerprints@,
    {
        let o = j->Obj_0;
        match crate::json::obj_get(o, "fingerprints"@) {
            Option::Some(JsonV::Arr(items)) => {
                assert(crate::fields::i64_items(items) == Option::Some(x.fingerprints@));
                assert(crate::fields::i64_items(items) == Option::Some(y.fingerprints@));
                assert(x.fingerprints@ == y.fingerprints@);
            },
            _ => {
                assert(false);
            },
        }
    }
}

/// The per-folder fingerprints of a fuzzy match query.
#[derive(Debug, Clone)]
pub struct GetFuzzyMatchesRequestBody {
    pub game_id: i32,
    pub fingerprints: Vec<FolderFingerprint>,
}

impl GetFuzzyMatchesRequestBody {
    /// The JSON document of this value, member for member.
    pub open spec fn jv(self) -> JsonV {
        JsonV::Obj(seq![
            ("gameId"@, JsonV::Int(self.game_id as int)),
            ("fingerprints"@, JsonV::Arr(Seq::new(self.fingerprints@.len(), |k: int| self.fingerprints@[k].jv()))),
        ])
    }

    /// What it means for a JSON document to decode to this value.
    pub open spec fn decodes_to(j: JsonV, x: GetFuzzyMatchesRequestBody) -> bool {
        &&& j matches JsonV::Obj(o)
        &&& crate::fields::jv_i32(o, "gameId"@) == Option::Some(x.game_id)
        &&& crate::json::obj_get(o, "fingerprints"@) matches Option::Some(JsonV::Arr(items)) && items.len() == x.fingerprints@.len()
            && (forall|n: int| 0 <= n < items.len() ==> FolderFingerprint::decodes_to(#[trigger] items[n], x.fingerprints@[n]))
    }

    pub fn to_json(&self) -> (r: Json)
        ensures
            r@ == self.jv(),
    {
        let mut m = JsonMembers::Nil;
        let l_fingerprints = FolderFingerprint::list_to_json(&self.fingerprints, 0);
        let ghost lv_fingerprints = l_fingerprints@;
        let e_fingerprints = Json::Arr(Box::new(l_fingerprints));
        proof {
            assert(e_fingerprints matches Json::Arr(lb) && crate::json::list_view(*lb) == lv_fingerprints);
            assert(lv_fingerprints =~= Seq::new(self.fingerprints@.len(), |k: int| self.fingerprints@[k].jv()));
            assert(e_fingerprints@ =~~= JsonV::Arr(Seq::new(self.fingerprints@.len(), |k: int| self.fingerprints@[k].jv())));
        }
        m = crate::fields::cons_member("fingerprints", e_fingerprints, m);
        m = crate::fields::cons_member("gameId", Json::Int(self.game_id as i64), m);
        let ghost m_v = m@;
        let r = Json::Obj(Box::new(m));
        proof {
            assert(r matches Json::Obj(o2) && crate::json::members_view(*o2) == m_v);
            assert(r@ == JsonV::Obj(m_v));
            assert(m_v.len() == 2);
            assert(m_v[0] =~~= ("gameId"@, JsonV::Int(self.game_id as int)));
            assert(m_v[1] =~~= ("fingerprints"@, JsonV::Arr(Seq::new(self.fingerprints@.len(), |k: int| self.fingerprints@[k].jv()))));
            assert(m_v =~~= self.jv()->Obj_0);
            assert(r@ =~~= self.jv());
        }
        r
    }

    pub fn from_json(j: &Json) -> (r: Option<GetFuzzyMatchesRequestBody>)
        ensures
            r matches Option::Some(x) ==> GetFuzzyMatchesRequestBody::decodes_to(j@, x),
            r is None ==> forall|x: GetFuzzyMatchesRequestBody| !GetFuzzyMatchesRequestBody::decodes_to(j@, x),
    {
        match j {
            Json::Obj(m) => {
            let game_id = match crate::fields::get_i32(m, "gameId") {
                Option::Some(v) => v,
                Option::None => {
                    return Option::None;
                },
            };
            let fingerprints = match crate::fields::get_arr(m, "fingerprints") {
                Option::Some(l) => match FolderFingerprint::list_from_json(l) {
                    Option::Some(v) => v,
                    Option::None => {
                        proof {
                            assert forall|x: GetFuzzyMatchesRequestBody| !GetFuzzyMatchesRequestBody::decodes_to(j@, x) by {
                                if GetFuzzyMatchesRequestBody::decodes_to(j@, x) {
                                    FolderFingerprint::lemma_list_undecodable(l@, x.fingerprints@);
                                }
                            }
                        }
                        return Option::None;
                    },
                },
                Option::None => {
                    return Option::None;
                },
            };
                Option::Some(GetFuzzyMatchesRequestBody {
                    game_id,
                    fingerprints,
                })
            },
            _ => Option::None,
        }
    }



    /// The JSON document of a value decodes back to it.
    pub proof fn lemma_decodes_self(x: GetFuzzyMatchesRequestBody)
        ensures
            GetFuzzyMatchesRequestBody::decodes_to(x.jv(), x),
    {
        let o = x.jv()->Obj_0;
        assert(crate::json::obj_get(o, "gameId"@) == Option::Some(JsonV::Int(x.game_id as int))) by {
            reveal_strlit("gameId");
            reveal_with_fuel(crate::json::obj_get, 3);
        }
        assert(crate::json::obj_get(o, "fingerprints"@) == Option::Some(JsonV::Arr(Seq::new(x.fingerprints@.len(), |k: int| x.fingerprints@[k].jv())))) by {
            reveal_strlit("gameId");
            reveal_strlit("fingerprints");
            assert("gameId"@.len() == 6);
            assert("fingerprints"@.len() == 12);
            assert("gameId"@ != "fingerprints"@);
            reveal_with_fuel(crate::json::obj_get, 3);
        }
        assert forall|n: int| 0 <= n < x.fingerprints@.len() implies FolderFingerprint::decodes_to(
            (#[trigger] x.fingerprints@[n]).jv(), x.fingerprints@[n],
        ) by {
            FolderFingerprint::lemma_decodes_self(x.fingerprints@[n]);
        }
        assert(forall|n: int| 0 <= n < x.fingerprints@.len() ==> Seq::new(x.fingerprints@.len(),
            |k: int| x.fingerprints@[k].jv())[n] == (#[trigger] x.fingerprints@[n]).jv());
    }

    /// Two values that one JSON document decodes to are equal, field for field.
    pub proof fn lemma_deterministic(j: JsonV, x: GetFuzzyMatchesRequestBody, y: GetFuzzyMatchesRequestBody)
        requires
            GetFuzzyMatchesRequestBody::decodes_to(j, x),
            GetFuzzyMatchesRequestBody::decodes_to(j, y),
        ensures
            y.game_id == x.game_id,
            y.fingerprints@.len() == x.fingerprints@.len() && (forall|n: int| 0 <= n < x.fingerprints@.len() ==> (#[trigger] y.fingerprints@[n]).jv() == x.fingerprints@[n].jv()),
    {
        let o = j->Obj_0;
        match crate::json::obj_get(o, "fingerprints"@) {
            Option::Some(JsonV::Arr(items)) => {
                assert forall|n: int| 0 <= n < x.fingerprints@.len() implies (#[trigger] y.fingerprints@[n]).jv()
                    == x.fingerprints@[n].jv() by {
                    assert(FolderFingerprint::decodes_to(items[n], x.fingerprints@[n]));
                    assert(FolderFingerprint::decodes_to(items[n], y.fingerprints@[n]));
                    FolderFingerprint::lemma_deterministic(items[n], x.fingerprints@[n], y.fingerprints@[n]);
                }
            },
            _ => {
                assert(false);
            },
        }
    }
}

/// The files to fetch in bulk.
#[derive(Debug, Clone)]
pub struct GetModFilesRequestBody {
    pub file_ids: Vec<i32>,
}

impl GetModFilesRequestBody {
    /// The JSON document of this value, member for member.
    pub open spec fn jv(self) -> JsonV {
        JsonV::Obj(seq![
            ("fileIds"@, JsonV::Arr(Seq::new(self.file_ids@.len(), |k: int| JsonV::Int(self.file_ids@[k] as int)))),
        ])
    }

    /// What it means for a JSON document to decode to this value.
    pub open spec fn decodes_to(j: JsonV, x: GetModFilesRequestBody) -> bool {
        &&& j matches JsonV::Obj(o)
        &&& crate::json::obj_get(o, "fileIds"@) matches Option::Some(JsonV::Arr(items))
            && crate::fields::i32_items(items) == Option::Some(x.file_ids@)
    }

    pub fn to_json(&self) -> (r: Json)
        ensures
            r@ == self.jv(),
    {
        let mut m = JsonMembers::Nil;
        let l_file_ids = crate::fields::i32s_to_list(&self.file_ids, 0);
        let ghost lv_file_ids = l_file_ids@;
        let e_file_ids = Json::Arr(Box::new(l_file_ids));
        proof {
            assert(e_file_ids matches Json::Arr(lb) && crate::json::list_view(*lb) == lv_file_ids);
            assert(lv_file_ids =~= Seq::new(self.file_ids@.len(), |k: int| JsonV::Int(self.file_ids@[k] as int)));
            assert(e_file_ids@ =~~= JsonV::Arr(Seq::new(self.file_ids@.len(), |k: int| JsonV::Int(self.file_ids@[k] as int))));
        }
        m = crate::fields::cons_member("fileIds", e_file_ids, m);
        let ghost m_v = m@;
        let r = Json::Obj(Box::new(m));
        proof {
            assert(r matches Json::Obj(o2) && crate::json::members_view(*o2) == m_v);
            assert(r@ == JsonV::Obj(m_v));
            assert(m_v.len() == 1);
            assert(m_v[0] =~~= ("fileIds"@, JsonV::Arr(Seq::new(self.file_ids@.len(), |k: int| JsonV::Int(self.file_ids@[k] as int)))));
            assert(m_v =~~= self.jv()->Obj_0);
            assert(r@ =~~= self.jv());
        }
        r
    }

    pub fn from_json(j: &Json) -> (r: Option<GetModFilesRequestBody>)
        ensures
            r matches Option::Some(x) ==> GetModFilesRequestBody::decodes_to(j@, x),
            r is None ==> forall|x: GetModFilesRequestBody| !GetModFilesRequestBody::decodes_to(j@, x),
    {
        match j {
            Json::Obj(m) => {
            let file_ids = match crate::fields::get_arr(m, "fileIds") {
                Option::Some(l) => match crate::fields::list_i32s(l) {
                    Option::Some(v) => v,
                    Option::None => {
                        return Option::None;
                    },
                },
                Option::None => {
                    return Option::None;
                },
            };
                Option::Some(GetModFilesRequestBody {
                    file_ids,
                })
            },
            _ => Option::None,
        }
    }



    /// The JSON document of a value decodes back to it.
    pub proof fn lemma_decodes_self(x: GetModFilesRequestBody)
        ensures
            GetModFilesRequestBody::decodes_to(x.jv(), x),
    {
        let o = x.jv()->Obj_0;
        assert(crate::json::obj_get(o, "fileIds"@) == Option::Some(JsonV::Arr(Seq::new(x.file_ids@.len(), |k: int| JsonV::Int(x.file_ids@[k] as int))))) by {
            reveal_strlit("fileIds");
            reveal_with_fuel(crate::json::obj_get, 2);
        }
        crate::fields::lemma_i32_items(Seq::new(x.file_ids@.len(), |k: int| JsonV::Int(x.file_ids@[k] as int)), x.file_ids@);
    }

    /// Two values that one JSON document decodes to are equal, field for field.
    pub proof fn lemma_deterministic(j: JsonV, x: GetModFilesRequestBody, y: GetModFilesRequestBody)
        requires
            GetModFilesRequestBody::decodes_to(j, x),
            GetModFilesRequestBody::decodes_to(j, y),
        ensures
            y.file_ids@ == x.file_ids@,
    {
        let o = j->Obj_0;
        match crate::json::obj_get(o, "fileIds"@) {
            Option::Some(JsonV::Arr(items)) => {
                assert(crate::fields::i32_items(items) == Option::Some(x.file_ids@));
                assert(crate::fields::i32_items(items) == Option::Some(y.file_ids@));
                assert(x.file_ids@ == y.file_ids@);
            },
            _ => {
                assert(false);
            },
        }
    }
}

/// The mods to fetch in bulk.
#[derive(Debug, Clone)]
pub struct GetModsByIdsListRequestBody {
    pub mod_ids: Vec<i32>,
    pub filter_pc_only: Option<bool>,
}

impl GetModsByIdsListRequestBody {
    /// The JSON document of this value, member for member.
    pub open spec fn jv(self) -> JsonV {
        JsonV::Obj(seq![
            ("modIds"@, JsonV::Arr(Seq::new(self.mod_ids@.len(), |k: int| JsonV::Int(self.mod_ids@[k] as int)))),
            ("filterPcOnly"@, (match self.filter_pc_only { Option::Some(v) => JsonV::Bool(v), Option::None => JsonV::Null })),
        ])
    }

    /// What it means for a JSON document to decode to this value.
    pub open spec fn decodes_to(j: JsonV, x: GetModsByIdsListRequestBody) -> bool {
        &&& j matches JsonV::Obj(o)
        &&& crate::json::obj_get(o, "modIds"@) matches Option::Some(JsonV::Arr(items))
            && crate::fields::i32_items(items) == Option::Some(x.mod_ids@)
        &&& crate::fields::jv_opt_bool(o, "filterPcOnly"@) == Option::Some(x.filter_pc_only)
    }

    pub fn to_json(&self) -> (r: Json)
        ensures
            r@ == self.jv(),
    {
        let mut m = JsonMembers::Nil;
        m = crate::fields::cons_member("filterPcOnly", crate::fields::opt_bool_json(&self.filter_pc_only), m);
        let l_mod_ids = crate::fields::i32s_to_list(&self.mod_ids, 0);
        let ghost lv_mod_ids = l_mod_ids@;
        let e_mod_ids = Json::Arr(Box::new(l_mod_ids));
        proof {
            assert(e_mod_ids matches Json::Arr(lb) && crate::json::list_view(*lb) == lv_mod_ids);
            assert(lv_mod_ids =~= Seq::new(self.mod_ids@.len(), |k: int| JsonV::Int(self.mod_ids@[k] as int)));
            assert(e_mod_ids@ =~~= JsonV::Arr(Seq::new(self.mod_ids@.len(), |k: int| JsonV::Int(self.mod_ids@[k] as int))));
        }
        m = crate::fields::cons_member("modIds", e_mod_ids, m);
        let ghost m_v = m@;
        let r = Json::Obj(Box::new(m));
        proof {
            assert(r matches Json::Obj(o2) && crate::json::members_view(*o2) == m_v);
            assert(r@ == JsonV::Obj(m_v));
            assert(m_v.len() == 2);
            assert(m_v[0] =~~= ("modIds"@, JsonV::Arr(Seq::new(self.mod_ids@.len(), |k: int| JsonV::Int(self.mod_ids@[k] as int)))));
            assert(m_v[1] =~~= ("filterPcOnly"@, (match self.filter_pc_only { Option::Some(v) => JsonV::Bool(v), Option::None => JsonV::Null })));
            assert(m_v =~~= self.jv()->Obj_0);
            assert(r@ =~~= self.jv());
        }
        r
    }

    pub fn from_json(j: &Json) -> (r: Option<GetModsByIdsListRequestBody>)
        ensures
            r matches Option::Some(x) ==> GetModsByIdsListRequestBody::decodes_to(j@, x),
            r is None ==> forall|x: GetModsByIdsListRequestBody| !GetModsByIdsListRequestBody::decodes_to(j@, x),
    {
        match j {
            Json::Obj(m) => {
            let mod_ids = match crate::fields::get_arr(m, "modIds") {
                Option::Some(l) => match crate::fields::list_i32s(l) {
                    Option::Some(v) => v,
                    Option::None => {
                        return Option::None;
                    },
                },
                Option::None => {
                    return Option::None;
                },
            };
            let filter_pc_only = match crate::fields::get_opt_bool(m, "filterPcOnly") {
                Option::Some(v) => v,
                Option::None => {
                    return Option::None;
                },
            };
                Option::Some(GetModsByIdsListRequestBody {
                    mod_ids,
                    filter_pc_only,
                })
            },
            _ => Option::None,
        }
    }



    /// The JSON document of a value decodes back to it.
    pub proof fn lemma_decodes_self(x: GetModsByIdsListRequestBody)
        ensures
            GetModsByIdsListRequestBody::decodes_to(x.jv(), x),
    {
        let o = x.jv()->Obj_0;
        assert(crate::json::obj_get(o, "modIds"@) == Option::Some(JsonV::Arr(Seq::new(x.mod_ids@.len(), |k: int| JsonV::Int(x.mod_ids@[k] as int))))) by {
            reveal_strlit("modIds");
            reveal_with_fuel(crate::json::obj_get, 3);
        }
        assert(crate::json::obj_get(o, "filterPcOnly"@) == Option::Some((match x.filter_pc_only { Option::Some(v) => JsonV::Bool(v), Option::None => JsonV::Null }))) by {
            reveal_strlit("modIds");
            reveal_strlit("filterPcOnly");
            assert("modIds"@.len() == 6);
            assert("filterPcOnly"@.len() == 12);
            assert("modIds"@ != "filterPcOnly"@);
            reveal_with_fuel(crate::json::obj_get, 3);
        }
        crate::fields::lemma_i32_items(Seq::new(x.mod_ids@.len(), |k: int| JsonV::Int(x.mod_ids@[k] as int)), x.mod_ids@);
    }

    /// Two values that one JSON document decodes to are equal, field for field.
    pub proof fn lemma_deterministic(j: JsonV, x: GetModsByIdsListRequestBody, y: GetModsByIdsListRequestBody)
        requires
            GetModsByIdsListRequestBody::decodes_to(j, x),
            GetModsByIdsListRequestBody::decodes_to(j, y),
        ensures
            y.mod_ids@ == x.mod_ids@,
            y.filter_pc_only == x.filter_pc_only,
    {
        let o = j->Obj_0;
        match crate::json::obj_get(o, "modIds"@) {
            Option::Some(JsonV::Arr(items)) => {
                assert(crate::fields::i32_items(items) == Option::Some(x.mod_ids@));
                assert(crate::fields::i32_items(items) == Option::Some(y.mod_ids@));
                assert(x.mod_ids@ == y.mod_ids@);
            },
            _ => {
                assert(false);
            },
        }
    }
}

} // verus!
