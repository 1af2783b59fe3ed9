//! The response envelopes of the endpoints: each wraps its data.
#![allow(unused_imports)]
use crate::enums::{CoreApiStatus, CoreStatus, FileRelationType, FileReleaseType, FileStatus,
    GameVersionStatus, GameVersionTypeStatus, HashAlgo, ModLoaderInstallMethod, ModLoaderType,
    ModStatus, ModsSearchSortField, SortOrder};
use crate::json::{Json, JsonList, JsonMembers, JsonV};
use crate::schema_core::{Category, Game, GameVersionType, GameVersionsByType, GameVersionsByTypeV1, Pagination};
use crate::schema_mods::{FeaturedModsResponse, File, Mod};
use crate::schema_fingerprints::{FingerprintFuzzyMatchResult, FingerprintsMatchesResult};
use crate::schema_minecraft::{MinecraftGameVersion, MinecraftModLoaderIndex, MinecraftModLoaderVersion};
use vstd::prelude::*;

verus! {

broadcast use vstd::seq::group_seq_axioms, vstd::std_specs::vec::group_vec_axioms;


/// A response whose data is one string.
#[derive(Debug, Clone)]
pub struct StringResponse {
    pub data: String,
}

impl StringResponse {
    /// The JSON document of this value, member for member.
    pub open spec fn jv(self) -> JsonV {
        JsonV::Obj(seq![
            ("data"@, JsonV::Str(self.data@)),
        ])
    }

    /// What it means for a JSON document to decode to this value.
    pub open spec fn decodes_to(j: JsonV, x: StringResponse) -> bool {
        &&& j matches JsonV::Obj(o)
        &&& crate::fields::jv_str(o, "data"@) == Option::Some(x.data@)
    }

    #[verifier::rlimit(100)]
    #[verifier::spinoff_prover]
    pub fn to_json(&self) -> (r: Json)
        ensures
            r@ == self.jv(),
    {
        let mut m = JsonMembers::Nil;
        m = crate::fields::cons_member("data", Json::Str(self.data.clone()), m);
        let ghost m_v = m@;
        let r = Json::Obj(Box::new(m));
        proof {
            assert(r matches Json::Obj(o2) && crate::json::members_view(*o2) == m_v);
            assert(r@ == JsonV::Obj(m_v));
            assert(m_v.len() == 1);
            assert(m_v[0] =~~= ("data"@, JsonV::Str(self.data@)));
            assert(m_v =~~= self.jv()->Obj_0);
            assert(r@ =~~= self.jv());
        }
        r
    }

    #[verifier::rlimit(100)]
    #[verifier::spinoff_prover]
    pub fn from_json(j: &Json) -> (r: Option<StringResponse>)
        ensures
            r matches Option::Some(x) ==> StringResponse::decodes_to(j@, x),
            r is None ==> forall|x: StringResponse| !StringResponse::decodes_to(j@, x),
    {
        match j {
            Json::Obj(m) => {
            let data = match crate::fields::get_str(m, "data") {
                Option::Some(v) => v,
                Option::None => {
                    return Option::None;
                },
            };
                Option::Some(StringResponse {
                    data,
                })
            },
            _ => Option::None,
        }
    }



    /// The JSON document of a value decodes back to it.
    #[verifier::rlimit(100)]
    #[verifier::spinoff_prover]
    pub proof fn lemma_decodes_self(x: StringResponse)
        ensures
            StringResponse::decodes_to(x.jv(), x),
    {
        let o = x.jv()->Obj_0;
        assert(crate::json::obj_get(o, "data"@) == Option::Some(JsonV::Str(x.data@))) by {
            reveal_strlit("data");
            reveal_with_fuel(crate::json::obj_get, 2);
        }
    }

    /// Two values that one JSON document decodes to are equal, field for field.
    #[verifier::rlimit(100)]
    #[verifier::spinoff_prover]
    pub proof fn lemma_deterministic(j: JsonV, x: StringResponse, y: StringResponse)
        requires
            StringResponse::decodes_to(j, x),
            StringResponse::decodes_to(j, y),
        ensures
            y.data@ == x.data@,
    {
        let o = j->Obj_0;
    }
}

/// The Minecraft version listing.
#[derive(Debug, Clone)]
pub struct ApiResponseOfListOfMinecraftGameVersion {
    pub data: Vec<MinecraftGameVersion>,
}

impl ApiResponseOfListOfMinecraftGameVersion {
    /// The JSON document of this value, member for member.
    pub open spec fn jv(self) -> JsonV {
        JsonV::Obj(seq![
            ("data"@, JsonV::Arr(Seq::new(self.data@.len(), |k: int| self.data@[k].jv()))),
        ])
    }

    /// What it means for a JSON document to decode to this value.
    pub open spec fn decodes_to(j: JsonV, x: ApiResponseOfListOfMinecraftGameVersion) -> bool {
        &&& j matches JsonV::Obj(o)
        &&& crate::json::obj_get(o, "data"@) matches Option::Some(JsonV::Arr(items)) && items.len() == x.data@.len()
            && (forall|n: int| 0 <= n < items.len() ==> MinecraftGameVersion::decodes_to(#[trigger] items[n], x.data@[n]))
    }

    #[verifier::rlimit(100)]
    #[verifier::spinoff_prover]
    pub fn to_json(&self) -> (r: Json)
        ensures
            r@ == self.jv(),
    {
        let mut m = JsonMembers::Nil;
        let l_data = MinecraftGameVersion::list_to_json(&self.data, 0);
        let ghost lv_data = l_data@;
        let e_data = Json::Arr(Box::new(l_data));
        proof {
            assert(e_data matches Json::Arr(lb) && crate::json::list_view(*lb) == lv_data);
            assert(lv_data =~= Seq::new(self.data@.len(), |k: int| self.data@[k].jv()));
            assert(e_data@ =~~= JsonV::Arr(Seq::new(self.data@.len(), |k: int| self.data@[k].jv())));
        }
        m = crate::fields::cons_member("data", e_data, m);
        let ghost m_v = m@;
        let r = Json::Obj(Box::new(m));
        proof {
            assert(r matches Json::Obj(o2) && crate::json::members_view(*o2) == m_v);
            assert(r@ == JsonV::Obj(m_v));
            assert(m_v.len() == 1);
            assert(m_v[0] =~~= ("data"@, JsonV::Arr(Seq::new(self.data@.len(), |k: int| self.data@[k].jv()))));
            assert(m_v =~~= self.jv()->Obj_0);
            assert(r@ =~~= self.jv());
        }
        r
    }

    #[verifier::rlimit(100)]
    #[verifier::spinoff_prover]
    pub fn from_json(j: &Json) -> (r: Option<ApiResponseOfListOfMinecraftGameVersion>)
        ensures
            r matches Option::Some(x) ==> ApiResponseOfListOfMinecraftGameVersion::decodes_to(j@, x),
            r is None ==> forall|x: ApiResponseOfListOfMinecraftGameVersion| !ApiResponseOfListOfMinecraftGameVersion::decodes_to(j@, x),
    {
        match j {
            Json::Obj(m) => {
            let data = match crate::fields::get_arr(m, "data") {
                Option::Some(l) => match MinecraftGameVersion::list_from_json(l) {
                    Option::Some(v) => v,
                    Option::None => {
                        proof {
                            assert forall|x: ApiResponseOfListOfMinecraftGameVersion| !ApiResponseOfListOfMinecraftGameVersion::decodes_to(j@, x) by {
                                if ApiResponseOfListOfMinecraftGameVersion::decodes_to(j@, x) {
                                    MinecraftGameVersion::lemma_list_undecodable(l@, x.data@);
                                }
                            }
                        }
                        return Option::None;
                    },
                },
                Option::None => {
                    return Option::None;
                },
            };
                Option::Some(ApiResponseOfListOfMinecraftGameVersion {
                    data,
                })
            },
            _ => Option::None,
        }
    }



    /// The JSON document of a value decodes back to it.
    #[verifier::rlimit(100)]
    #[verifier::spinoff_prover]
    pub proof fn lemma_decodes_self(x: ApiResponseOfListOfMinecraftGameVersion)
        ensures
            ApiResponseOfListOfMinecraftGameVersion::decodes_to(x.jv(), x),
    {
        let o = x.jv()->Obj_0;
        assert(crate::json::obj_get(o, "data"@) == Option::Some(JsonV::Arr(Seq::new(x.data@.len(), |k: int| x.data@[k].jv())))) by {
            reveal_strlit("data");
            reveal_with_fuel(crate::json::obj_get, 2);
        }
        assert forall|n: int| 0 <= n < x.data@.len() implies MinecraftGameVersion::decodes_to(
            (#[trigger] x.data@[n]).jv(), x.data@[n],
        ) by {
            MinecraftGameVersion::lemma_decodes_self(x.data@[n]);
        }
        assert(forall|n: int| 0 <= n < x.data@.len() ==> Seq::new(x.data@.len(),
            |k: int| x.data@[k].jv())[n] == (#[trigger] x.data@[n]).jv());
    }

    /// Two values that one JSON document decodes to are equal, field for field.
    #[verifier::rlimit(100)]
    #[verifier::spinoff_prover]
    pub proof fn lemma_deterministic(j: JsonV, x: ApiResponseOfListOfMinecraftGameVersion, y: ApiResponseOfListOfMinecraftGameVersion)
        requires
            ApiResponseOfListOfMinecraftGameVersion::decodes_to(j, x),
            ApiResponseOfListOfMinecraftGameVersion::decodes_to(j, y),
        ensures
            y.data@.len() == x.data@.len() && (forall|n: int| 0 <= n < x.data@.len() ==> (#[trigger] y.data@[n]).jv() == x.data@[n].jv()),
    {
        let o = j->Obj_0;
        match crate::json::obj_get(o, "data"@) {
            Option::Some(JsonV::Arr(items)) => {
                assert forall|n: int| 0 <= n < x.data@.len() implies (#[trigger] y.data@[n]).jv()
                    == x.data@[n].jv() by {
                    assert(MinecraftGameVersion::decodes_to(items[n], x.data@[n]));
                    assert(MinecraftGameVersion::decodes_to(items[n], y.data@[n]));
                    MinecraftGameVersion::lemma_deterministic(items[n], x.data@[n], y.data@[n]);
                }
            },
            _ => {
                assert(false);
            },
        }
    }
}

/// The Minecraft mod-loader listing.
#[derive(Debug, Clone)]
pub struct ApiResponseOfListOfMinecraftModLoaderIndex {
    pub data: Vec<MinecraftModLoaderIndex>,
}

impl ApiResponseOfListOfMinecraftModLoaderIndex {
    /// The JSON document of this value, member for member.
    pub open spec fn jv(self) -> JsonV {
        JsonV::Obj(seq![
            ("data"@, JsonV::Arr(Seq::new(self.data@.len(), |k: int| self.data@[k].jv()))),
        ])
    }

    /// What it means for a JSON document to decode to this value.
    pub open spec fn decodes_to(j: JsonV, x: ApiResponseOfListOfMinecraftModLoaderIndex) -> bool {
        &&& j matches JsonV::Obj(o)
        &&& crate::json::obj_get(o, "data"@) matches Option::Some(JsonV::Arr(items)) && items.len() == x.data@.len()
            && (forall|n: int| 0 <= n < items.len() ==> MinecraftModLoaderIndex::decodes_to(#[trigger] items[n], x.data@[n]))
    }

    #[verifier::rlimit(100)]
    #[verifier::spinoff_prover]
    pub fn to_json(&self) -> (r: Json)
        ensures
            r@ == self.jv(),
    {
        let mut m = JsonMembers::Nil;
        let l_data = MinecraftModLoaderIndex::list_to_json(&self.data, 0);
        let ghost lv_data = l_data@;
        let e_data = Json::Arr(Box::new(l_data));
        proof {
            assert(e_data matches Json::Arr(lb) && crate::json::list_view(*lb) == lv_data);
            assert(lv_data =~= Seq::new(self.data@.len(), |k: int| self.data@[k].jv()));
            assert(e_data@ =~~= JsonV::Arr(Seq::new(self.data@.len(), |k: int| self.data@[k].jv())));
        }
        m = crate::fields::cons_member("data", e_data, m);
        let ghost m_v = m@;
        let r = Json::Obj(Box::new(m));
        proof {
            assert(r matches Json::Obj(o2) && crate::json::members_view(*o2) == m_v);
            assert(r@ == JsonV::Obj(m_v));
            assert(m_v.len() == 1);
            assert(m_v[0] =~~= ("data"@, JsonV::Arr(Seq::new(self.data@.len(), |k: int| self.data@[k].jv()))));
            assert(m_v =~~= self.jv()->Obj_0);
            assert(r@ =~~= self.jv());
        }
        r
    }

    #[verifier::rlimit(100)]
    #[verifier::spinoff_prover]
    pub fn from_json(j: &Json) -> (r: Option<ApiResponseOfListOfMinecraftModLoaderIndex>)
        ensures
            r matches Option::Some(x) ==> ApiResponseOfListOfMinecraftModLoaderIndex::decodes_to(j@, x),
            r is None ==> forall|x: ApiResponseOfListOfMinecraftModLoaderIndex| !ApiResponseOfListOfMinecraftModLoaderIndex::decodes_to(j@, x),
    {
        match j {
            Json::Obj(m) => {
            let data = match crate::fields::get_arr(m, "data") {
                Option::Some(l) => match MinecraftModLoaderIndex::list_from_json(l) {
                    Option::Some(v) => v,
                    Option::None => {
                        proof {
                            assert forall|x: ApiResponseOfListOfMinecraftModLoaderIndex| !ApiResponseOfListOfMinecraftModLoaderIndex::decodes_to(j@, x) by {
                                if ApiResponseOfListOfMinecraftModLoaderIndex::decodes_to(j@, x) {
                                    MinecraftModLoaderIndex::lemma_list_undecodable(l@, x.data@);
                                }
                            }
                        }
                        return Option::None;
                    },
                },
                Option::None => {
                    return Option::None;
                },
            };
                Option::Some(ApiResponseOfListOfMinecraftModLoaderIndex {
                    data,
                })
            },
            _ => Option::None,
        }
    }



    /// The JSON document of a value decodes back to it.
    #[verifier::rlimit(100)]
    #[verifier::spinoff_prover]
    pub proof fn lemma_decodes_self(x: ApiResponseOfListOfMinecraftModLoaderIndex)
        ensures
            ApiResponseOfListOfMinecraftModLoaderIndex::decodes_to(x.jv(), x),
    {
        let o = x.jv()->Obj_0;
        assert(crate::json::obj_get(o, "data"@) == Option::Some(JsonV::Arr(Seq::new(x.data@.len(), |k: int| x.data@[k].jv())))) by {
            reveal_strlit("data");
            reveal_with_fuel(crate::json::obj_get, 2);
        }
        assert forall|n: int| 0 <= n < x.data@.len() implies MinecraftModLoaderIndex::decodes_to(
            (#[trigger] x.data@[n]).jv(), x.data@[n],
        ) by {
            MinecraftModLoaderIndex::lemma_decodes_self(x.data@[n]);
        }
        assert(forall|n: int| 0 <= n < x.data@.len() ==> Seq::new(x.data@.len(),
            |k: int| x.data@[k].jv())[n] == (#[trigger] x.data@[n]).jv());
    }

    /// Two values that one JSON document decodes to are equal, field for field.
    #[verifier::rlimit(100)]
    #[verifier::spinoff_prover]
    pub proof fn lemma_deterministic(j: JsonV, x: ApiResponseOfListOfMinecraftModLoaderIndex, y: ApiResponseOfListOfMinecraftModLoaderIndex)
        requires
            ApiResponseOfListOfMinecraftModLoaderIndex::decodes_to(j, x),
            ApiResponseOfListOfMinecraftModLoaderIndex::decodes_to(j, y),
        ensures
            y.data@.len() == x.data@.len() && (forall|n: int| 0 <= n < x.data@.len() ==> (#[trigger] y.data@[n]).jv() == x.data@[n].jv()),
    {
        let o = j->Obj_0;
        match crate::json::obj_get(o, "data"@) {
            Option::Some(JsonV::Arr(items)) => {
                assert forall|n: int| 0 <= n < x.data@.len() implies (#[trigger] y.data@[n]).jv()
                    == x.data@[n].jv() by {
                    assert(MinecraftModLoaderIndex::decodes_to(items[n], x.data@[n]));
                    assert(MinecraftModLoaderIndex::decodes_to(items[n], y.data@[n]));
                    MinecraftModLoaderIndex::lemma_deterministic(items[n], x.data@[n], y.data@[n]);
                }
            },
            _ => {
                assert(false);
            },
        }
    }
}

/// One Minecraft version.
#[derive(Debug, Clone)]
pub struct ApiResponseOfMinecraftGameVersion {
    pub data: MinecraftGameVersion,
}

impl ApiResponseOfMinecraftGameVersion {
    /// The JSON document of this value, member for member.
    pub open spec fn jv(self) -> JsonV {
        JsonV::Obj(seq![
            ("data"@, self.data.jv()),
        ])
    }

    /// What it means for a JSON document to decode to this value.
    pub open spec fn decodes_to(j: JsonV, x: ApiResponseOfMinecraftGameVersion) -> bool {
        &&& j matches JsonV::Obj(o)
        &&& crate::json::obj_get(o, "data"@) matches Option::Some(jj) && MinecraftGameVersion::decodes_to(jj, x.data)
    }

    #[verifier::rlimit(100)]
    #[verifier::spinoff_prover]
    pub fn to_json(&self) -> (r: Json)
        ensures
            r@ == self.jv(),
    {
        let mut m = JsonMembers::Nil;
        m = crate::fields::cons_member("data", self.data.to_json(), m);
        let ghost m_v = m@;
        let r = Json::Obj(Box::new(m));
        proof {
            assert(r matches Json::Obj(o2) && crate::json::members_view(*o2) == m_v);
            assert(r@ == JsonV::Obj(m_v));
            assert(m_v.len() == 1);
            assert(m_v[0] =~~= ("data"@, self.data.jv()));
            assert(m_v =~~= self.jv()->Obj_0);
            assert(r@ =~~= self.jv());
        }
        r
    }

    #[verifier::rlimit(100)]
    #[verifier::spinoff_prover]
    pub fn from_json(j: &Json) -> (r: Option<ApiResponseOfMinecraftGameVersion>)
        ensures
            r matches Option::Some(x) ==> ApiResponseOfMinecraftGameVersion::decodes_to(j@, x),
            r is None ==> forall|x: ApiResponseOfMinecraftGameVersion| !ApiResponseOfMinecraftGameVersion::decodes_to(j@, x),
    {
        match j {
            Json::Obj(m) => {
            let data = match crate::json::members_get(m, "data") {
                Option::Some(jj) => match MinecraftGameVersion::from_json(jj) {
                    Option::Some(v) => v,
                    Option::None => {
                        return Option::None;
                    },
                },
                Option::None => {
                    return Option::None;
                },
            };
                Option::Some(ApiResponseOfMinecraftGameVersion {
                    data,
                })
            },
            _ => Option::None,
        }
    }



    /// The JSON document of a value decodes back to it.
    #[verifier::rlimit(100)]
    #[verifier::spinoff_prover]
    pub proof fn lemma_decodes_self(x: ApiResponseOfMinecraftGameVersion)
        ensures
            ApiResponseOfMinecraftGameVersion::decodes_to(x.jv(), x),
    {
        let o = x.jv()->Obj_0;
        assert(crate::json::obj_get(o, "data"@) == Option::Some(x.data.jv())) by {
            reveal_strlit("data");
            reveal_with_fuel(crate::json::obj_get, 2);
        }
        MinecraftGameVersion::lemma_decodes_self(x.data);
    }

    /// Two values that one JSON document decodes to are equal, field for field.
    #[verifier::rlimit(100)]
    #[verifier::spinoff_prover]
    pub proof fn lemma_deterministic(j: JsonV, x: ApiResponseOfMinecraftGameVersion, y: ApiResponseOfMinecraftGameVersion)
        requires
            ApiResponseOfMinecraftGameVersion::decodes_to(j, x),
            ApiResponseOfMinecraftGameVersion::decodes_to(j, y),
        ensures
            y.data.jv() == x.data.jv(),
    {
        let o = j->Obj_0;
        match crate::json::obj_get(o, "data"@) {
            Option::Some(jj) => {
                MinecraftGameVersion::lemma_deterministic(jj, x.data, y.data);
            },
            Option::None => {},
        }
    }
}

/// One Minecraft mod-loader version.
#[derive(Debug, Clone)]
pub struct ApiResponseOfMinecraftModLoaderVersion {
    pub data: MinecraftModLoaderVersion,
}

impl ApiResponseOfMinecraftModLoaderVersion {
    /// The JSON document of this value, member for member.
    pub open spec fn jv(self) -> JsonV {
        JsonV::Obj(seq![
            ("data"@, self.data.jv()),
        ])
    }

    /// What it means for a JSON document to decode to this value.
    pub open spec fn decodes_to(j: JsonV, x: ApiResponseOfMinecraftModLoaderVersion) -> bool {
        &&& j matches JsonV::Obj(o)
        &&& crate::json::obj_get(o, "data"@) matches Option::Some(jj) && MinecraftModLoaderVersion::decodes_to(jj, x.data)
    }

    #[verifier::rlimit(100)]
    #[verifier::spinoff_prover]
    pub fn to_json(&self) -> (r: Json)
        ensures
            r@ == self.jv(),
    {
        let mut m = JsonMembers::Nil;
        m = crate::fields::cons_member("data", self.data.to_json(), m);
        let ghost m_v = m@;
        let r = Json::Obj(Box::new(m));
        proof {
            assert(r matches Json::Obj(o2) && crate::json::members_view(*o2) == m_v);
            assert(r@ == JsonV::Obj(m_v));
            assert(m_v.len() == 1);
            assert(m_v[0] =~~= ("data"@, self.data.jv()));
            assert(m_v =~~= self.jv()->Obj_0);
            assert(r@ =~~= self.jv());
        }
        r
    }

    #[verifier::rlimit(100)]
    #[verifier::spinoff_prover]
    pub fn from_json(j: &Json) -> (r: Option<ApiResponseOfMinecraftModLoaderVersion>)
        ensures
            r matches Option::Some(x) ==> ApiResponseOfMinecraftModLoaderVersion::decodes_to(j@, x),
            r is None ==> forall|x: ApiResponseOfMinecraftModLoaderVersion| !ApiResponseOfMinecraftModLoaderVersion::decodes_to(j@, x),
    {
        match j {
            Json::Obj(m) => {
            let data = match crate::json::members_get(m, "data") {
                Option::Some(jj) => match MinecraftModLoaderVersion::from_json(jj) {
                    Option::Some(v) => v,
                    Option::None => {
                        return Option::None;
                    },
                },
                Option::None => {
                    return Option::None;
                },
            };
                Option::Some(ApiResponseOfMinecraftModLoaderVersion {
                    data,
                })
            },
            _ => Option::None,
        }
    }



    /// The JSON document of a value decodes back to it.
    #[verifier::rlimit(100)]
    #[verifier::spinoff_prover]
    pub proof fn lemma_decodes_self(x: ApiResponseOfMinecraftModLoaderVersion)
        ensures
            ApiResponseOfMinecraftModLoaderVersion::decodes_to(x.jv(), x),
    {
        let o = x.jv()->Obj_0;
        assert(crate::json::obj_get(o, "data"@) == Option::Some(x.data.jv())) by {
            reveal_strlit("data");
            reveal_with_fuel(crate::json::obj_get, 2);
        }
        MinecraftModLoaderVersion::lemma_decodes_self(x.data);
    }

    /// Two values that one JSON document decodes to are equal, field for field.
    #[verifier::rlimit(100)]
    #[verifier::spinoff_prover]
    pub proof fn lemma_deterministic(j: JsonV, x: ApiResponseOfMinecraftModLoaderVersion, y: ApiResponseOfMinecraftModLoaderVersion)
        requires
            ApiResponseOfMinecraftModLoaderVersion::decodes_to(j, x),
            ApiResponseOfMinecraftModLoaderVersion::decodes_to(j, y),
        ensures
            y.data.jv() == x.data.jv(),
    {
        let o = j->Obj_0;
        match crate::json::obj_get(o, "data"@) {
            Option::Some(jj) => {
                MinecraftModLoaderVersion::lemma_deterministic(jj, x.data, y.data);
            },
            Option::None => {},
        }
    }
}

/// The category listing.
#[derive(Debug, Clone)]
pub struct GetCategoriesResponse {
    pub data: Vec<Category>,
}

impl GetCategoriesResponse {
    /// The JSON document of this value, member for member.
    pub open spec fn jv(self) -> JsonV {
        JsonV::Obj(seq![
            ("data"@, JsonV::Arr(Seq::new(self.data@.len(), |k: int| self.data@[k].jv()))),
        ])
    }

    /// What it means for a JSON document to decode to this value.
    pub open spec fn decodes_to(j: JsonV, x: GetCategoriesResponse) -> bool {
        &&& j matches JsonV::Obj(o)
        &&& crate::json::obj_get(o, "data"@) matches Option::Some(JsonV::Arr(items)) && items.len() == x.data@.len()
            && (forall|n: int| 0 <= n < items.len() ==> Category::decodes_to(#[trigger] items[n], x.data@[n]))
    }

    #[verifier::rlimit(100)]
    #[verifier::spinoff_prover]
    pub fn to_json(&self) -> (r: Json)
        ensures
            r@ == self.jv(),
    {
        let mut m = JsonMembers::Nil;
        let l_data = Category::list_to_json(&self.data, 0);
        let ghost lv_data = l_data@;
        let e_data = Json::Arr(Box::new(l_data));
        proof {
            assert(e_data matches Json::Arr(lb) && crate::json::list_view(*lb) == lv_data);
            assert(lv_data =~= Seq::new(self.data@.len(), |k: int| self.data@[k].jv()));
            assert(e_data@ =~~= JsonV::Arr(Seq::new(self.data@.len(), |k: int| self.data@[k].jv())));
        }
        m = crate::fields::cons_member("data", e_data, m);
        let ghost m_v = m@;
        let r = Json::Obj(Box::new(m));
        proof {
            assert(r matches Json::Obj(o2) && crate::json::members_view(*o2) == m_v);
            assert(r@ == JsonV::Obj(m_v));
            assert(m_v.len() == 1);
            assert(m_v[0] =~~= ("data"@, JsonV::Arr(Seq::new(self.data@.len(), |k: int| self.data@[k].jv()))));
            assert(m_v =~~= self.jv()->Obj_0);
            assert(r@ =~~= self.jv());
        }
        r
    }

    #[verifier::rlimit(100)]
    #[verifier::spinoff_prover]
    pub fn from_json(j: &Json) -> (r: Option<GetCategoriesResponse>)
        ensures
            r matches Option::Some(x) ==> GetCategoriesResponse::decodes_to(j@, x),
            r is None ==> forall|x: GetCategoriesResponse| !GetCategoriesResponse::decodes_to(j@, x),
    {
        match j {
            Json::Obj(m) => {
            let data = match crate::fields::get_arr(m, "data") {
                Option::Some(l) => match Category::list_from_json(l) {
                    Option::Some(v) => v,
                    Option::None => {
                        proof {
                            assert forall|x: GetCategoriesResponse| !GetCategoriesResponse::decodes_to(j@, x) by {
                                if GetCategoriesResponse::decodes_to(j@, x) {
                                    Category::lemma_list_undecodable(l@, x.data@);
                                }
                            }
                        }
                        return Option::None;
                    },
                },
                Option::None => {
                    return Option::None;
                },
            };
                Option::Some(GetCategoriesResponse {
                    data,
                })
            },
            _ => Option::None,
        }
    }



    /// The JSON document of a value decodes back to it.
    #[verifier::rlimit(100)]
    #[verifier::spinoff_prover]
    pub proof fn lemma_decodes_self(x: GetCategoriesResponse)
        ensures
            GetCategoriesResponse::decodes_to(x.jv(), x),
    {
        let o = x.jv()->Obj_0;
        assert(crate::json::obj_get(o, "data"@) == Option::Some(JsonV::Arr(Seq::new(x.data@.len(), |k: int| x.data@[k].jv())))) by {
            reveal_strlit("data");
            reveal_with_fuel(crate::json::obj_get, 2);
        }
        assert forall|n: int| 0 <= n < x.data@.len() implies Category::decodes_to(
            (#[trigger] x.data@[n]).jv(), x.data@[n],
        ) by {
            Category::lemma_decodes_self(x.data@[n]);
        }
        assert(forall|n: int| 0 <= n < x.data@.len() ==> Seq::new(x.data@.len(),
            |k: int| x.data@[k].jv())[n] == (#[trigger] x.data@[n]).jv());
    }

    /// Two values that one JSON document decodes to are equal, field for field.
    #[verifier::rlimit(100)]
    #[verifier::spinoff_prover]
    pub proof fn lemma_deterministic(j: JsonV, x: GetCategoriesResponse, y: GetCategoriesResponse)
        requires
            GetCategoriesResponse::decodes_to(j, x),
            GetCategoriesResponse::decodes_to(j, y),
        ensures
            y.data@.len() == x.data@.len() && (forall|n: int| 0 <= n < x.data@.len() ==> (#[trigger] y.data@[n]).jv() == x.data@[n].jv()),
    {
        let o = j->Obj_0;
        match crate::json::obj_get(o, "data"@) {
            Option::Some(JsonV::Arr(items)) => {
                assert forall|n: int| 0 <= n < x.data@.len() implies (#[trigger] y.data@[n]).jv()
                    == x.data@[n].jv() by {
                    assert(Category::decodes_to(items[n], x.data@[n]));
                    assert(Category::decodes_to(items[n], y.data@[n]));
                    Category::lemma_deterministic(items[n], x.data@[n], y.data@[n]);
                }
            },
            _ => {
                assert(false);
            },
        }
    }
}

/// One game.
#[derive(Debug, Clone)]
pub struct GetGameResponse {
    pub data: Game,
}

impl GetGameResponse {
    /// The JSON document of this value, member for member.
    pub open spec fn jv(self) -> JsonV {
        JsonV::Obj(seq![
            ("data"@, self.data.jv()),
        ])
    }

    /// What it means for a JSON document to decode to this value.
    pub open spec fn decodes_to(j: JsonV, x: GetGameResponse) -> bool {
        &&& j matches JsonV::Obj(o)
        &&& crate::json::obj_get(o, "data"@) matches Option::Some(jj) && Game::decodes_to(jj, x.data)
    }

    #[verifier::rlimit(100)]
    #[verifier::spinoff_prover]
    pub fn to_json(&self) -> (r: Json)
        ensures
            r@ == self.jv(),
    {
        let mut m = JsonMembers::Nil;
        m = crate::fields::cons_member("data", self.data.to_json(), m);
        let ghost m_v = m@;
        let r = Json::Obj(Box::new(m));
        proof {
            assert(r matches Json::Obj(o2) && crate::json::members_view(*o2) == m_v);
            assert(r@ == JsonV::Obj(m_v));
            assert(m_v.len() == 1);
            assert(m_v[0] =~~= ("data"@, self.data.jv()));
            assert(m_v =~~= self.jv()->Obj_0);
            assert(r@ =~~= self.jv());
        }
        r
    }

    #[verifier::rlimit(100)]
    #[verifier::spinoff_prover]
    pub fn from_json(j: &Json) -> (r: Option<GetGameResponse>)
        ensures
            r matches Option::Some(x) ==> GetGameResponse::decodes_to(j@, x),
            r is None ==> forall|x: GetGameResponse| !GetGameResponse::decodes_to(j@, x),
    {
        match j {
            Json::Obj(m) => {
            let data = match crate::json::members_get(m, "data") {
                Option::Some(jj) => match Game::from_json(jj) {
                    Option::Some(v) => v,
                    Option::None => {
                        return Option::None;
                    },
                },
                Option::None => {
                    return Option::None;
                },
            };
                Option::Some(GetGameResponse {
                    data,
                })
            },
            _ => Option::None,
        }
    }



    /// The JSON document of a value decodes back to it.
    #[verifier::rlimit(100)]
    #[verifier::spinoff_prover]
    pub proof fn lemma_decodes_self(x: GetGameResponse)
        ensures
            GetGameResponse::decodes_to(x.jv(), x),
    {
        let o = x.jv()->Obj_0;
        assert(crate::json::obj_get(o, "data"@) == Option::Some(x.data.jv())) by {
            reveal_strlit("data");
            reveal_with_fuel(crate::json::obj_get, 2);
        }
        Game::lemma_decodes_self(x.data);
    }

    /// Two values that one JSON document decodes to are equal, field for field.
    #[verifier::rlimit(100)]
    #[verifier::spinoff_prover]
    pub proof fn lemma_deterministic(j: JsonV, x: GetGameResponse, y: GetGameResponse)
        requires
            GetGameResponse::decodes_to(j, x),
            GetGameResponse::decodes_to(j, y),
        ensures
            y.data.jv() == x.data.jv(),
    {
        let o = j->Obj_0;
        match crate::json::obj_get(o, "data"@) {
            Option::Some(jj) => {
                Game::lemma_deterministic(jj, x.data, y.data);
            },
            Option::None => {},
        }
    }
}

/// The game listing, with its paging window.
#[derive(Debug, Clone)]
pub struct GetGamesResponse {
    pub data: Vec<Game>,
    pub pagination: Pagination,
}

impl GetGamesResponse {
    /// The JSON document of this value, member for member.
    pub open spec fn jv(self) -> JsonV {
        JsonV::Obj(seq![
            ("data"@, JsonV::Arr(Seq::new(self.data@.len(), |k: int| self.data@[k].jv()))),
            ("pagination"@, self.pagination.jv()),
        ])
    }

    /// What it means for a JSON document to decode to this value.
    pub open spec fn decodes_to(j: JsonV, x: GetGamesResponse) -> bool {
        &&& j matches JsonV::Obj(o)
        &&& crate::json::obj_get(o, "data"@) matches Option::Some(JsonV::Arr(items)) && items.len() == x.data@.len()
            && (forall|n: int| 0 <= n < items.len() ==> Game::decodes_to(#[trigger] items[n], x.data@[n]))
        &&& crate::json::obj_get(o, "pagination"@) matches Option::Some(jj) && Pagination::decodes_to(jj, x.pagination)
    }

    #[verifier::rlimit(100)]
    #[verifier::spinoff_prover]
    pub fn to_json(&self) -> (r: Json)
        ensures
            r@ == self.jv(),
    {
        let mut m = JsonMembers::Nil;
        m = crate::fields::cons_member("pagination", self.pagination.to_json(), m);
        let l_data = Game::list_to_json(&self.data, 0);
        let ghost lv_data = l_data@;
        let e_data = Json::Arr(Box::new(l_data));
        proof {
            assert(e_data matches Json::Arr(lb) && crate::json::list_view(*lb) == lv_data);
            assert(lv_data =~= Seq::new(self.data@.len(), |k: int| self.data@[k].jv()));
            assert(e_data@ =~~= JsonV::Arr(Seq::new(self.data@.len(), |k: int| self.data@[k].jv())));
        }
        m = crate::fields::cons_member("data", e_data, m);
        let ghost m_v = m@;
        let r = Json::Obj(Box::new(m));
        proof {
            assert(r matches Json::Obj(o2) && crate::json::members_view(*o2) == m_v);
            assert(r@ == JsonV::Obj(m_v));
            assert(m_v.len() == 2);
            assert(m_v[0] =~~= ("data"@, JsonV::Arr(Seq::new(self.data@.len(), |k: int| self.data@[k].jv()))));
            assert(m_v[1] =~~= ("pagination"@, self.pagination.jv()));
            assert(m_v =~~= self.jv()->Obj_0);
            assert(r@ =~~= self.jv());
        }
        r
    }

    #[verifier::rlimit(100)]
    #[verifier::spinoff_prover]
    pub fn from_json(j: &Json) -> (r: Option<GetGamesResponse>)
        ensures
            r matches Option::Some(x) ==> GetGamesResponse::decodes_to(j@, x),
            r is None ==> forall|x: GetGamesResponse| !GetGamesResponse::decodes_to(j@, x),
    {
        match j {
            Json::Obj(m) => {
            let data = match crate::fields::get_arr(m, "data") {
                Option::Some(l) => match Game::list_from_json(l) {
                    Option::Some(v) => v,
                    Option::None => {
                        proof {
                            assert forall|x: GetGamesResponse| !GetGamesResponse::decodes_to(j@, x) by {
                                if GetGamesResponse::decodes_to(j@, x) {
                                    Game::lemma_list_undecodable(l@, x.data@);
                                }
                            }
                        }
                        return Option::None;
                    },
                },
                Option::None => {
                    return Option::None;
                },
            };
            let pagination = match crate::json::members_get(m, "pagination") {
                Option::Some(jj) => match Pagination::from_json(jj) {
                    Option::Some(v) => v,
                    Option::None => {
                        return Option::None;
                    },
                },
                Option::None => {
                    return Option::None;
                },
            };
                Option::Some(GetGamesResponse {
                    data,
                    pagination,
                })
            },
            _ => Option::None,
        }
    }



    /// The JSON document of a value decodes back to it.
    #[verifier::rlimit(100)]
    #[verifier::spinoff_prover]
    pub proof fn lemma_decodes_self(x: GetGamesResponse)
        ensures
            GetGamesResponse::decodes_to(x.jv(), x),
    {
        let o = x.jv()->Obj_0;
        assert(crate::json::obj_get(o, "data"@) == Option::Some(JsonV::Arr(Seq::new(x.data@.len(), |k: int| x.data@[k].jv())))) by {
            reveal_strlit("data");
            reveal_with_fuel(crate::json::obj_get, 3);
        }
        assert(crate::json::obj_get(o, "pagination"@) == Option::Some(x.pagination.jv())) by {
            reveal_strlit("data");
            reveal_strlit("pagination");
            assert("data"@.len() == 4);
            assert("pagination"@.len() == 10);
            assert("data"@ != "pagination"@);
            reveal_with_fuel(crate::json::obj_get, 3);
        }
        assert forall|n: int| 0 <= n < x.data@.len() implies Game::decodes_to(
            (#[trigger] x.data@[n]).jv(), x.data@[n],
        ) by {
            Game::lemma_decodes_self(x.data@[n]);
        }
        assert(forall|n: int| 0 <= n < x.data@.len() ==> Seq::new(x.data@.len(),
            |k: int| x.data@[k].jv())[n] == (#[trigger] x.data@[n]).jv());
        Pagination::lemma_decodes_self(x.pagination);
    }

    /// Two values that one JSON document decodes to are equal, field for field.
    #[verifier::rlimit(100)]
    #[verifier::spinoff_prover]
    pub proof fn lemma_deterministic(j: JsonV, x: GetGamesResponse, y: GetGamesResponse)
        requires
            GetGamesResponse::decodes_to(j, x),
            GetGamesResponse::decodes_to(j, y),
        ensures
            y.data@.len() == x.data@.len() && (forall|n: int| 0 <= n < x.data@.len() ==> (#[trigger] y.data@[n]).jv() == x.data@[n].jv()),
            y.pagination.jv() == x.pagination.jv(),
    {
        let o = j->Obj_0;
        match crate::json::obj_get(o, "data"@) {
            Option::Some(JsonV::Arr(items)) => {
                assert forall|n: int| 0 <= n < x.data@.len() implies (#[trigger] y.data@[n]).jv()
                    == x.data@[n].jv() by {
                    assert(Game::decodes_to(items[n], x.data@[n]));
                    assert(Game::decodes_to(items[n], y.data@[n]));
                    Game::lemma_deterministic(items[n], x.data@[n], y.data@[n]);
                }
            },
            _ => {
                assert(false);
            },
        }
        match crate::json::obj_get(o, "pagination"@) {
            Option::Some(jj) => {
                Pagination::lemma_deterministic(jj, x.pagination, y.pagination);
            },
            Option::None => {},
        }
    }
}

/// The version types of a game.
#[derive(Debug, Clone)]
pub struct GetVersionTypesResponse {
    pub data: Vec<GameVersionType>,
}

impl GetVersionTypesResponse {
    /// The JSON document of this value, member for member.
    pub open spec fn jv(self) -> JsonV {
        JsonV::Obj(seq![
            ("data"@, JsonV::Arr(Seq::new(self.data@.len(), |k: int| self.data@[k].jv()))),
        ])
    }

    /// What it means for a JSON document to decode to this value.
    pub open spec fn decodes_to(j: JsonV, x: GetVersionTypesResponse) -> bool {
        &&& j matches JsonV::Obj(o)
        &&& crate::json::obj_get(o, "data"@) matches Option::Some(JsonV::Arr(items)) && items.len() == x.data@.len()
            && (forall|n: int| 0 <= n < items.len() ==> GameVersionType::decodes_to(#[trigger] items[n], x.data@[n]))
    }

    #[verifier::rlimit(100)]
    #[verifier::spinoff_prover]
    pub fn to_json(&self) -> (r: Json)
        ensures
            r@ == self.jv(),
    {
        let mut m = JsonMembers::Nil;
        let l_data = GameVersionType::list_to_json(&self.data, 0);
        let ghost lv_data = l_data@;
        let e_data = Json::Arr(Box::new(l_data));
        proof {
            assert(e_data matches Json::Arr(lb) && crate::json::list_view(*lb) == lv_data);
            assert(lv_data =~= Seq::new(self.data@.len(), |k: int| self.data@[k].jv()));
            assert(e_data@ =~~= JsonV::Arr(Seq::new(self.data@.len(), |k: int| self.data@[k].jv())));
        }
        m = crate::fields::cons_member("data", e_data, m);
        let ghost m_v = m@;
        let r = Json::Obj(Box::new(m));
        proof {
            assert(r matches Json::Obj(o2) && crate::json::members_view(*o2) == m_v);
            assert(r@ == JsonV::Obj(m_v));
            assert(m_v.len() == 1);
            assert(m_v[0] =~~= ("data"@, JsonV::Arr(Seq::new(self.data@.len(), |k: int| self.data@[k].jv()))));
            assert(m_v =~~= self.jv()->Obj_0);
            assert(r@ =~~= self.jv());
        }
        r
    }

    #[verifier::rlimit(100)]
    #[verifier::spinoff_prover]
    pub fn from_json(j: &Json) -> (r: Option<GetVersionTypesResponse>)
        ensures
            r matches Option::Some(x) ==> GetVersionTypesResponse::decodes_to(j@, x),
            r is None ==> forall|x: GetVersionTypesResponse| !GetVersionTypesResponse::decodes_to(j@, x),
    {
        match j {
            Json::Obj(m) => {
            let data = match crate::fields::get_arr(m, "data") {
                Option::Some(l) => match GameVersionType::list_from_json(l) {
                    Option::Some(v) => v,
                    Option::None => {
                        proof {
                            assert forall|x: GetVersionTypesResponse| !GetVersionTypesResponse::decodes_to(j@, x) by {
                                if GetVersionTypesResponse::decodes_to(j@, x) {
                                    GameVersionType::lemma_list_undecodable(l@, x.data@);
                                }
                            }
                        }
                        return Option::None;
                    },
                },
                Option::None => {
                    return Option::None;
                },
            };
                Option::Some(GetVersionTypesResponse {
                    data,
                })
            },
            _ => Option::None,
        }
    }



    /// The JSON document of a value decodes back to it.
    #[verifier::rlimit(100)]
    #[verifier::spinoff_prover]
    pub proof fn lemma_decodes_self(x: GetVersionTypesResponse)
        ensures
            GetVersionTypesResponse::decodes_to(x.jv(), x),
    {
        let o = x.jv()->Obj_0;
        assert(crate::json::obj_get(o, "data"@) == Option::Some(JsonV::Arr(Seq::new(x.data@.len(), |k: int| x.data@[k].jv())))) by {
            reveal_strlit("data");
            reveal_with_fuel(crate::json::obj_get, 2);
        }
        assert forall|n: int| 0 <= n < x.data@.len() implies GameVersionType::decodes_to(
            (#[trigger] x.data@[n]).jv(), x.data@[n],
        ) by {
            GameVersionType::lemma_decodes_self(x.data@[n]);
        }
        assert(forall|n: int| 0 <= n < x.data@.len() ==> Seq::new(x.data@.len(),
            |k: int| x.data@[k].jv())[n] == (#[trigger] x.data@[n]).jv());
    }

    /// Two values that one JSON document decodes to are equal, field for field.
    #[verifier::rlimit(100)]
    #[verifier::spinoff_prover]
    pub proof fn lemma_deterministic(j: JsonV, x: GetVersionTypesResponse, y: GetVersionTypesResponse)
        requires
            GetVersionTypesResponse::decodes_to(j, x),
            GetVersionTypesResponse::decodes_to(j, y),
        ensures
            y.data@.len() == x.data@.len() && (forall|n: int| 0 <= n < x.data@.len() ==> (#[trigger] y.data@[n]).jv() == x.data@[n].jv()),
    {
        let o = j->Obj_0;
        match crate::json::obj_get(o, "data"@) {
            Option::Some(JsonV::Arr(items)) => {
                assert forall|n: int| 0 <= n < x.data@.len() implies (#[trigger] y.data@[n]).jv()
                    == x.data@[n].jv() by {
                    assert(GameVersionType::decodes_to(items[n], x.data@[n]));
                    assert(GameVersionType::decodes_to(items[n], y.data@[n]));
                    GameVersionType::lemma_deterministic(items[n], x.data@[n], y.data@[n]);
                }
            },
            _ => {
                assert(false);
            },
        }
    }
}

/// The versions of a game, grouped by type, as bare strings.
#[derive(Debug, Clone)]
pub struct GetVersionsResponseV1 {
    pub data: Vec<GameVersionsByTypeV1>,
}

impl GetVersionsResponseV1 {
    /// The JSON document of this value, member for member.
    pub open spec fn jv(self) -> JsonV {
        JsonV::Obj(seq![
            ("data"@, JsonV::Arr(Seq::new(self.data@.len(), |k: int| self.data@[k].jv()))),
        ])
    }

    /// What it means for a JSON document to decode to this value.
    pub open spec fn decodes_to(j: JsonV, x: GetVersionsResponseV1) -> bool {
        &&& j matches JsonV::Obj(o)
        &&& crate::json::obj_get(o, "data"@) matches Option::Some(JsonV::Arr(items)) && items.len() == x.data@.len()
            && (forall|n: int| 0 <= n < items.len() ==> GameVersionsByTypeV1::decodes_to(#[trigger] items[n], x.data@[n]))
    }

    #[verifier::rlimit(100)]
    #[verifier::spinoff_prover]
    pub fn to_json(&self) -> (r: Json)
        ensures
            r@ == self.jv(),
    {
        let mut m = JsonMembers::Nil;
        let l_data = GameVersionsByTypeV1::list_to_json(&self.data, 0);
        let ghost lv_data = l_data@;
        let e_data = Json::Arr(Box::new(l_data));
        proof {
            assert(e_data matches Json::Arr(lb) && crate::json::list_view(*lb) == lv_data);
            assert(lv_data =~= Seq::new(self.data@.len(), |k: int| self.data@[k].jv()));
            assert(e_data@ =~~= JsonV::Arr(Seq::new(self.data@.len(), |k: int| self.data@[k].jv())));
        }
        m = crate::fields::cons_member("data", e_data, m);
        let ghost m_v = m@;
        let r = Json::Obj(Box::new(m));
        proof {
            assert(r matches Json::Obj(o2) && crate::json::members_view(*o2) == m_v);
            assert(r@ == JsonV::Obj(m_v));
            assert(m_v.len() == 1);
            assert(m_v[0] =~~= ("data"@, JsonV::Arr(Seq::new(self.data@.len(), |k: int| self.data@[k].jv()))));
            assert(m_v =~~= self.jv()->Obj_0);
            assert(r@ =~~= self.jv());
        }
        r
    }

    #[verifier::rlimit(100)]
    #[verifier::spinoff_prover]
    pub fn from_json(j: &Json) -> (r: Option<GetVersionsResponseV1>)
        ensures
            r matches Option::Some(x) ==> GetVersionsResponseV1::decodes_to(j@, x),
            r is None ==> forall|x: GetVersionsResponseV1| !GetVersionsResponseV1::decodes_to(j@, x),
    {
        match j {
            Json::Obj(m) => {
            let data = match crate::fields::get_arr(m, "data") {
                Option::Some(l) => match GameVersionsByTypeV1::list_from_json(l) {
                    Option::Some(v) => v,
                    Option::None => {
                        proof {
                            assert forall|x: GetVersionsResponseV1| !GetVersionsResponseV1::decodes_to(j@, x) by {
                                if GetVersionsResponseV1::decodes_to(j@, x) {
                                    GameVersionsByTypeV1::lemma_list_undecodable(l@, x.data@);
                                }
                            }
                        }
                        return Option::None;
                    },
                },
                Option::None => {
                    return Option::None;
                },
            };
                Option::Some(GetVersionsResponseV1 {
                    data,
                })
            },
            _ => Option::None,
        }
    }



    /// The JSON document of a value decodes back to it.
    #[verifier::rlimit(100)]
    #[verifier::spinoff_prover]
    pub proof fn lemma_decodes_self(x: GetVersionsResponseV1)
        ensures
            GetVersionsResponseV1::decodes_to(x.jv(), x),
    {
        let o = x.jv()->Obj_0;
        assert(crate::json::obj_get(o, "data"@) == Option::Some(JsonV::Arr(Seq::new(x.data@.len(), |k: int| x.data@[k].jv())))) by {
            reveal_strlit("data");
            reveal_with_fuel(crate::json::obj_get, 2);
        }
        assert forall|n: int| 0 <= n < x.data@.len() implies GameVersionsByTypeV1::decodes_to(
            (#[trigger] x.data@[n]).jv(), x.data@[n],
        ) by {
            GameVersionsByTypeV1::lemma_decodes_self(x.data@[n]);
        }
        assert(forall|n: int| 0 <= n < x.data@.len() ==> Seq::new(x.data@.len(),
            |k: int| x.data@[k].jv())[n] == (#[trigger] x.data@[n]).jv());
    }

    /// Two values that one JSON document decodes to are equal, field for field.
    #[verifier::rlimit(100)]
    #[verifier::spinoff_prover]
    pub proof fn lemma_deterministic(j: JsonV, x: GetVersionsResponseV1, y: GetVersionsResponseV1)
        requires
            GetVersionsResponseV1::decodes_to(j, x),
            GetVersionsResponseV1::decodes_to(j, y),
        ensures
            y.data@.len() == x.data@.len() && (forall|n: int| 0 <= n < x.data@.len() ==> (#[trigger] y.data@[n]).jv() == x.data@[n].jv()),
    {
        let o = j->Obj_0;
        match crate::json::obj_get(o, "data"@) {
            Option::Some(JsonV::Arr(items)) => {
                assert forall|n: int| 0 <= n < x.data@.len() implies (#[trigger] y.data@[n]).jv()
                    == x.data@[n].jv() by {
                    assert(GameVersionsByTypeV1::decodes_to(items[n], x.data@[n]));
                    assert(GameVersionsByTypeV1::decodes_to(items[n], y.data@[n]));
                    GameVersionsByTypeV1::lemma_deterministic(items[n], x.data@[n], y.data@[n]);
                }
            },
            _ => {
                assert(false);
            },
        }
    }
}

/// The versions of a game, grouped by type.
#[derive(Debug, Clone)]
pub struct GetVersionsResponse {
    pub data: Vec<GameVersionsByType>,
}

impl GetVersionsResponse {
    /// The JSON document of this value, member for member.
    pub open spec fn jv(self) -> JsonV {
        JsonV::Obj(seq![
            ("data"@, JsonV::Arr(Seq::new(self.data@.len(), |k: int| self.data@[k].jv()))),
        ])
    }

    /// What it means for a JSON document to decode to this value.
    pub open spec fn decodes_to(j: JsonV, x: GetVersionsResponse) -> bool {
        &&& j matches JsonV::Obj(o)
        &&& crate::json::obj_get(o, "data"@) matches Option::Some(JsonV::Arr(items)) && items.len() == x.data@.len()
            && (forall|n: int| 0 <= n < items.len() ==> GameVersionsByType::decodes_to(#[trigger] items[n], x.data@[n]))
    }

    #[verifier::rlimit(100)]
    #[verifier::spinoff_prover]
    pub fn to_json(&self) -> (r: Json)
        ensures
            r@ == self.jv(),
    {
        let mut m = JsonMembers::Nil;
        let l_data = GameVersionsByType::list_to_json(&self.data, 0);
        let ghost lv_data = l_data@;
        let e_data = Json::Arr(Box::new(l_data));
        proof {
            assert(e_data matches Json::Arr(lb) && crate::json::list_view(*lb) == lv_data);
            assert(lv_data =~= Seq::new(self.data@.len(), |k: int| self.data@[k].jv()));
            assert(e_data@ =~~= JsonV::Arr(Seq::new(self.data@.len(), |k: int| self.data@[k].jv())));
        }
        m = crate::fields::cons_member("data", e_data, m);
        let ghost m_v = m@;
        let r = Json::Obj(Box::new(m));
        proof {
            assert(r matches Json::Obj(o2) && crate::json::members_view(*o2) == m_v);
            assert(r@ == JsonV::Obj(m_v));
            assert(m_v.len() == 1);
            assert(m_v[0] =~~= ("data"@, JsonV::Arr(Seq::new(self.data@.len(), |k: int| self.data@[k].jv()))));
            assert(m_v =~~= self.jv()->Obj_0);
            assert(r@ =~~= self.jv());
        }
        r
    }

    #[verifier::rlimit(100)]
    #[verifier::spinoff_prover]
    pub fn from_json(j: &Json) -> (r: Option<GetVersionsResponse>)
        ensures
            r matches Option::Some(x) ==> GetVersionsResponse::decodes_to(j@, x),
            r is None ==> forall|x: GetVersionsResponse| !GetVersionsResponse::decodes_to(j@, x),
    {
        match j {
            Json::Obj(m) => {
            let data = match crate::fields::get_arr(m, "data") {
                Option::Some(l) => match GameVersionsByType::list_from_json(l) {
                    Option::Some(v) => v,
                    Option::None => {
                        proof {
                            assert forall|x: GetVersionsResponse| !GetVersionsResponse::decodes_to(j@, x) by {
                                if GetVersionsResponse::decodes_to(j@, x) {
                                    GameVersionsByType::lemma_list_undecodable(l@, x.data@);
                                }
                            }
                        }
                        return Option::None;
                    },
                },
                Option::None => {
                    return Option::None;
                },
            };
                Option::Some(GetVersionsResponse {
                    data,
                })
            },
            _ => Option::None,
        }
    }



    /// The JSON document of a value decodes back to it.
    #[verifier::rlimit(100)]
    #[verifier::spinoff_prover]
    pub proof fn lemma_decodes_self(x: GetVersionsResponse)
        ensures
            GetVersionsResponse::decodes_to(x.jv(), x),
    {
        let o = x.jv()->Obj_0;
        assert(crate::json::obj_get(o, "data"@) == Option::Some(JsonV::Arr(Seq::new(x.data@.len(), |k: int| x.data@[k].jv())))) by {
            reveal_strlit("data");
            reveal_with_fuel(crate::json::obj_get, 2);
        }
        assert forall|n: int| 0 <= n < x.data@.len() implies GameVersionsByType::decodes_to(
            (#[trigger] x.data@[n]).jv(), x.data@[n],
        ) by {
            GameVersionsByType::lemma_decodes_self(x.data@[n]);
        }
        assert(forall|n: int| 0 <= n < x.data@.len() ==> Seq::new(x.data@.len(),
            |k: int| x.data@[k].jv())[n] == (#[trigger] x.data@[n]).jv());
    }

    /// Two values that one JSON document decodes to are equal, field for field.
    #[verifier::rlimit(100)]
    #[verifier::spinoff_prover]
    pub proof fn lemma_deterministic(j: JsonV, x: GetVersionsResponse, y: GetVersionsResponse)
        requires
            GetVersionsResponse::decodes_to(j, x),
            GetVersionsResponse::decodes_to(j, y),
        ensures
            y.data@.len() == x.data@.len() && (forall|n: int| 0 <= n < x.data@.len() ==> (#[trigger] y.data@[n]).jv() == x.data@[n].jv()),
    {
        let o = j->Obj_0;
        match crate::json::obj_get(o, "data"@) {
            Option::Some(JsonV::Arr(items)) => {
                assert forall|n: int| 0 <= n < x.data@.len() implies (#[trigger] y.data@[n]).jv()
                    == x.data@[n].jv() by {
                    assert(GameVersionsByType::decodes_to(items[n], x.data@[n]));
                    assert(GameVersionsByType::decodes_to(items[n], y.data@[n]));
                    GameVersionsByType::lemma_deterministic(items[n], x.data@[n], y.data@[n]);
                }
            },
            _ => {
                assert(false);
            },
        }
    }
}

/// One mod.
#[derive(Debug, Clone)]
pub struct GetModResponse {
    pub data: Mod,
}

impl GetModResponse {
    /// The JSON document of this value, member for member.
    pub open spec fn jv(self) -> JsonV {
        JsonV::Obj(seq![
            ("data"@, self.data.jv()),
        ])
    }

    /// What it means for a JSON document to decode to this value.
    pub open spec fn decodes_to(j: JsonV, x: GetModResponse) -> bool {
        &&& j matches JsonV::Obj(o)
        &&& crate::json::obj_get(o, "data"@) matches Option::Some(jj) && Mod::decodes_to(jj, x.data)
    }

    #[verifier::rlimit(100)]
    #[verifier::spinoff_prover]
    pub fn to_json(&self) -> (r: Json)
        ensures
            r@ == self.jv(),
    {
        let mut m = JsonMembers::Nil;
        m = crate::fields::cons_member("data", self.data.to_json(), m);
        let ghost m_v = m@;
        let r = Json::Obj(Box::new(m));
        proof {
            assert(r matches Json::Obj(o2) && crate::json::members_view(*o2) == m_v);
            assert(r@ == JsonV::Obj(m_v));
            assert(m_v.len() == 1);
            assert(m_v[0] =~~= ("data"@, self.data.jv()));
            assert(m_v =~~= self.jv()->Obj_0);
            assert(r@ =~~= self.jv());
        }
        r
    }

    #[verifier::rlimit(100)]
    #[verifier::spinoff_prover]
    pub fn from_json(j: &Json) -> (r: Option<GetModResponse>)
        ensures
            r matches Option::Some(x) ==> GetModResponse::decodes_to(j@, x),
            r is None ==> forall|x: GetModResponse| !GetModResponse::decodes_to(j@, x),
    {
        match j {
            Json::Obj(m) => {
            let data = match crate::json::members_get(m, "data") {
                Option::Some(jj) => match Mod::from_json(jj) {
                    Option::Some(v) => v,
                    Option::None => {
                        return Option::None;
                    },
                },
                Option::None => {
                    return Option::None;
                },
            };
                Option::Some(GetModResponse {
                    data,
                })
            },
            _ => Option::None,
        }
    }



    /// The JSON document of a value decodes back to it.
    #[verifier::rlimit(100)]
    #[verifier::spinoff_prover]
    pub proof fn lemma_decodes_self(x: GetModResponse)
        ensures
            GetModResponse::decodes_to(x.jv(), x),
    {
        let o = x.jv()->Obj_0;
        assert(crate::json::obj_get(o, "data"@) == Option::Some(x.data.jv())) by {
            reveal_strlit("data");
            reveal_with_fuel(crate::json::obj_get, 2);
        }
        Mod::lemma_decodes_self(x.data);
    }

    /// Two values that one JSON document decodes to are equal, field for field.
    #[verifier::rlimit(100)]
    #[verifier::spinoff_prover]
    pub proof fn lemma_deterministic(j: JsonV, x: GetModResponse, y: GetModResponse)
        requires
            GetModResponse::decodes_to(j, x),
            GetModResponse::decodes_to(j, y),
        ensures
            y.data.jv() == x.data.jv(),
    {
        let o = j->Obj_0;
        match crate::json::obj_get(o, "data"@) {
            Option::Some(jj) => {
                Mod::lemma_deterministic(jj, x.data, y.data);
            },
            Option::None => {},
        }
    }
}

/// A list of mods fetched in bulk.
#[derive(Debug, Clone)]
pub struct GetModsResponse {
    pub data: Vec<Mod>,
}

impl GetModsResponse {
    /// The JSON document of this value, member for member.
    pub open spec fn jv(self) -> JsonV {
        JsonV::Obj(seq![
            ("data"@, JsonV::Arr(Seq::new(self.data@.len(), |k: int| self.data@[k].jv()))),
        ])
    }

    /// What it means for a JSON document to decode to this value.
    pub open spec fn decodes_to(j: JsonV, x: GetModsResponse) -> bool {
        &&& j matches JsonV::Obj(o)
        &&& crate::json::obj_get(o, "data"@) matches Option::Some(JsonV::Arr(items)) && items.len() == x.data@.len()
            && (forall|n: int| 0 <= n < items.len() ==> Mod::decodes_to(#[trigger] items[n], x.data@[n]))
    }

    #[verifier::rlimit(100)]
    #[verifier::spinoff_prover]
    pub fn to_json(&self) -> (r: Json)
        ensures
            r@ == self.jv(),
    {
        let mut m = JsonMembers::Nil;
        let l_data = Mod::list_to_json(&self.data, 0);
        let ghost lv_data = l_data@;
        let e_data = Json::Arr(Box::new(l_data));
        proof {
            assert(e_data matches Json::Arr(lb) && crate::json::list_view(*lb) == lv_data);
            assert(lv_data =~= Seq::new(self.data@.len(), |k: int| self.data@[k].jv()));
            assert(e_data@ =~~= JsonV::Arr(Seq::new(self.data@.len(), |k: int| self.data@[k].jv())));
        }
        m = crate::fields::cons_member("data", e_data, m);
        let ghost m_v = m@;
        let r = Json::Obj(Box::new(m));
        proof {
            assert(r matches Json::Obj(o2) && crate::json::members_view(*o2) == m_v);
            assert(r@ == JsonV::Obj(m_v));
            assert(m_v.len() == 1);
            assert(m_v[0] =~~= ("data"@, JsonV::Arr(Seq::new(self.data@.len(), |k: int| self.data@[k].jv()))));
            assert(m_v =~~= self.jv()->Obj_0);
            assert(r@ =~~= self.jv());
        }
        r
    }

    #[verifier::rlimit(100)]
    #[verifier::spinoff_prover]
    pub fn from_json(j: &Json) -> (r: Option<GetModsResponse>)
        ensures
            r matches Option::Some(x) ==> GetModsResponse::decodes_to(j@, x),
            r is None ==> forall|x: GetModsResponse| !GetModsResponse::decodes_to(j@, x),
    {
        match j {
            Json::Obj(m) => {
            let data = match crate::fields::get_arr(m, "data") {
                Option::Some(l) => match Mod::list_from_json(l) {
                    Option::Some(v) => v,
                    Option::None => {
                        proof {
                            assert forall|x: GetModsResponse| !GetModsResponse::decodes_to(j@, x) by {
                                if GetModsResponse::decodes_to(j@, x) {
                                    Mod::lemma_list_undecodable(l@, x.data@);
                                }
                            }
                        }
                        return Option::None;
                    },
                },
                Option::None => {
                    return Option::None;
                },
            };
                Option::Some(GetModsResponse {
                    data,
                })
            },
            _ => Option::None,
        }
    }



    /// The JSON document of a value decodes back to it.
    #[verifier::rlimit(100)]
    #[verifier::spinoff_prover]
    pub proof fn lemma_decodes_self(x: GetModsResponse)
        ensures
            GetModsResponse::decodes_to(x.jv(), x),
    {
        let o = x.jv()->Obj_0;
        assert(crate::json::obj_get(o, "data"@) == Option::Some(JsonV::Arr(Seq::new(x.data@.len(), |k: int| x.data@[k].jv())))) by {
            reveal_strlit("data");
            reveal_with_fuel(crate::json::obj_get, 2);
        }
        assert forall|n: int| 0 <= n < x.data@.len() implies Mod::decodes_to(
            (#[trigger] x.data@[n]).jv(), x.data@[n],
        ) by {
            Mod::lemma_decodes_self(x.data@[n]);
        }
        assert(forall|n: int| 0 <= n < x.data@.len() ==> Seq::new(x.data@.len(),
            |k: int| x.data@[k].jv())[n] == (#[trigger] x.data@[n]).jv());
    }

    /// Two values that one JSON document decodes to are equal, field for field.
    #[verifier::rlimit(100)]
    #[verifier::spinoff_prover]
    pub proof fn lemma_deterministic(j: JsonV, x: GetModsResponse, y: GetModsResponse)
        requires
            GetModsResponse::decodes_to(j, x),
            GetModsResponse::decodes_to(j, y),
        ensures
            y.data@.len() == x.data@.len() && (forall|n: int| 0 <= n < x.data@.len() ==> (#[trigger] y.data@[n]).jv() == x.data@[n].jv()),
    {
        let o = j->Obj_0;
        match crate::json::obj_get(o, "data"@) {
            Option::Some(JsonV::Arr(items)) => {
                assert forall|n: int| 0 <= n < x.data@.len() implies (#[trigger] y.data@[n]).jv()
                    == x.data@[n].jv() by {
                    assert(Mod::decodes_to(items[n], x.data@[n]));
                    assert(Mod::decodes_to(items[n], y.data@[n]));
                    Mod::lemma_deterministic(items[n], x.data@[n], y.data@[n]);
                }
            },
            _ => {
                assert(false);
            },
        }
    }
}

/// The mod search result, with its paging window.
#[derive(Debug, Clone)]
pub struct SearchModsResponse {
    pub data: Vec<Mod>,
    pub pagination: Pagination,
}

impl SearchModsResponse {
    /// The JSON document of this value, member for member.
    pub open spec fn jv(self) -> JsonV {
        JsonV::Obj(seq![
            ("data"@, JsonV::Arr(Seq::new(self.data@.len(), |k: int| self.data@[k].jv()))),
            ("pagination"@, self.pagination.jv()),
        ])
    }

    /// What it means for a JSON document to decode to this value.
    pub open spec fn decodes_to(j: JsonV, x: SearchModsResponse) -> bool {
        &&& j matches JsonV::Obj(o)
        &&& crate::json::obj_get(o, "data"@) matches Option::Some(JsonV::Arr(items)) && items.len() == x.data@.len()
            && (forall|n: int| 0 <= n < items.len() ==> Mod::decodes_to(#[trigger] items[n], x.data@[n]))
        &&& crate::json::obj_get(o, "pagination"@) matches Option::Some(jj) && Pagination::decodes_to(jj, x.pagination)
    }

    #[verifier::rlimit(100)]
    #[verifier::spinoff_prover]
    pub fn to_json(&self) -> (r: Json)
        ensures
            r@ == self.jv(),
    {
        let mut m = JsonMembers::Nil;
        m = crate::fields::cons_member("pagination", self.pagination.to_json(), m);
        let l_data = Mod::list_to_json(&self.data, 0);
        let ghost lv_data = l_data@;
        let e_data = Json::Arr(Box::new(l_data));
        proof {
            assert(e_data matches Json::Arr(lb) && crate::json::list_view(*lb) == lv_data);
            assert(lv_data =~= Seq::new(self.data@.len(), |k: int| self.data@[k].jv()));
            assert(e_data@ =~~= JsonV::Arr(Seq::new(self.data@.len(), |k: int| self.data@[k].jv())));
        }
        m = crate::fields::cons_member("data", e_data, m);
        let ghost m_v = m@;
        let r = Json::Obj(Box::new(m));
        proof {
            assert(r matches Json::Obj(o2) && crate::json::members_view(*o2) == m_v);
            assert(r@ == JsonV::Obj(m_v));
            assert(m_v.len() == 2);
            assert(m_v[0] =~~= ("data"@, JsonV::Arr(Seq::new(self.data@.len(), |k: int| self.data@[k].jv()))));
            assert(m_v[1] =~~= ("pagination"@, self.pagination.jv()));
            assert(m_v =~~= self.jv()->Obj_0);
            assert(r@ =~~= self.jv());
        }
        r
    }

    #[verifier::rlimit(100)]
    #[verifier::spinoff_prover]
    pub fn from_json(j: &Json) -> (r: Option<SearchModsResponse>)
        ensures
            r matches Option::Some(x) ==> SearchModsResponse::decodes_to(j@, x),
            r is None ==> forall|x: SearchModsResponse| !SearchModsResponse::decodes_to(j@, x),
    {
        match j {
            Json::Obj(m) => {
            let data = match crate::fields::get_arr(m, "data") {
                Option::Some(l) => match Mod::list_from_json(l) {
                    Option::Some(v) => v,
                    Option::None => {
                        proof {
                            assert forall|x: SearchModsResponse| !SearchModsResponse::decodes_to(j@, x) by {
                                if SearchModsResponse::decodes_to(j@, x) {
                                    Mod::lemma_list_undecodable(l@, x.data@);
                                }
                            }
                        }
                        return Option::None;
                    },
                },
                Option::None => {
                    return Option::None;
                },
            };
            let pagination = match crate::json::members_get(m, "pagination") {
                Option::Some(jj) => match Pagination::from_json(jj) {
                    Option::Some(v) => v,
                    Option::None => {
                        return Option::None;
                    },
                },
                Option::None => {
                    return Option::None;
                },
            };
                Option::Some(SearchModsResponse {
                    data,
                    pagination,
                })
            },
            _ => Option::None,
        }
    }



    /// The JSON document of a value decodes back to it.
    #[verifier::rlimit(100)]
    #[verifier::spinoff_prover]
    pub proof fn lemma_decodes_self(x: SearchModsResponse)
        ensures
            SearchModsResponse::decodes_to(x.jv(), x),
    {
        let o = x.jv()->Obj_0;
        assert(crate::json::obj_get(o, "data"@) == Option::Some(JsonV::Arr(Seq::new(x.data@.len(), |k: int| x.data@[k].jv())))) by {
            reveal_strlit("data");
            reveal_with_fuel(crate::json::obj_get, 3);
        }
        assert(crate::json::obj_get(o, "pagination"@) == Option::Some(x.pagination.jv())) by {
            reveal_strlit("data");
            reveal_strlit("pagination");
            assert("data"@.len() == 4);
            assert("pagination"@.len() == 10);
            assert("data"@ != "pagination"@);
            reveal_with_fuel(crate::json::obj_get, 3);
        }
        assert forall|n: int| 0 <= n < x.data@.len() implies Mod::decodes_to(
            (#[trigger] x.data@[n]).jv(), x.data@[n],
        ) by {
            Mod::lemma_decodes_self(x.data@[n]);
        }
        assert(forall|n: int| 0 <= n < x.data@.len() ==> Seq::new(x.data@.len(),
            |k: int| x.data@[k].jv())[n] == (#[trigger] x.data@[n]).jv());
        Pagination::lemma_decodes_self(x.pagination);
    }

    /// Two values that one JSON document decodes to are equal, field for field.
    #[verifier::rlimit(100)]
    #[verifier::spinoff_prover]
    pub proof fn lemma_deterministic(j: JsonV, x: SearchModsResponse, y: SearchModsResponse)
        requires
            SearchModsResponse::decodes_to(j, x),
            SearchModsResponse::decodes_to(j, y),
        ensures
            y.data@.len() == x.data@.len() && (forall|n: int| 0 <= n < x.data@.len() ==> (#[trigger] y.data@[n]).jv() == x.data@[n].jv()),
            y.pagination.jv() == x.pagination.jv(),
    {
        let o = j->Obj_0;
        match crate::json::obj_get(o, "data"@) {
            Option::Some(JsonV::Arr(items)) => {
                assert forall|n: int| 0 <= n < x.data@.len() implies (#[trigger] y.data@[n]).jv()
                    == x.data@[n].jv() by {
                    assert(Mod::decodes_to(items[n], x.data@[n]));
                    assert(Mod::decodes_to(items[n], y.data@[n]));
                    Mod::lemma_deterministic(items[n], x.data@[n], y.data@[n]);
                }
            },
            _ => {
                assert(false);
            },
        }
        match crate::json::obj_get(o, "pagination"@) {
            Option::Some(jj) => {
                Pagination::lemma_deterministic(jj, x.pagination, y.pagination);
            },
            Option::None => {},
        }
    }
}

/// The featured mods of a game.
#[derive(Debug, Clone)]
pub struct GetFeaturedModsResponse {
    pub data: FeaturedModsResponse,
}

impl GetFeaturedModsResponse {
    /// The JSON document of this value, member for member.
    pub open spec fn jv(self) -> JsonV {
        JsonV::Obj(seq![
            ("data"@, self.data.jv()),
        ])
    }

    /// What it means for a JSON document to decode to this value.
    pub open spec fn decodes_to(j: JsonV, x: GetFeaturedModsResponse) -> bool {
        &&& j matches JsonV::Obj(o)
        &&& crate::json::obj_get(o, "data"@) matches Option::Some(jj) && FeaturedModsResponse::decodes_to(jj, x.data)
    }

    #[verifier::rlimit(100)]
    #[verifier::spinoff_prover]
    pub fn to_json(&self) -> (r: Json)
        ensures
            r@ == self.jv(),
    {
        let mut m = JsonMembers::Nil;
        m = crate::fields::cons_member("data", self.data.to_json(), m);
        let ghost m_v = m@;
        let r = Json::Obj(Box::new(m));
        proof {
            assert(r matches Json::Obj(o2) && crate::json::members_view(*o2) == m_v);
            assert(r@ == JsonV::Obj(m_v));
            assert(m_v.len() == 1);
            assert(m_v[0] =~~= ("data"@, self.data.jv()));
            assert(m_v =~~= self.jv()->Obj_0);
            assert(r@ =~~= self.jv());
        }
        r
    }

    #[verifier::rlimit(100)]
    #[verifier::spinoff_prover]
    pub fn from_json(j: &Json) -> (r: Option<GetFeaturedModsResponse>)
        ensures
            r matches Option::Some(x) ==> GetFeaturedModsResponse::decodes_to(j@, x),
            r is None ==> forall|x: GetFeaturedModsResponse| !GetFeaturedModsResponse::decodes_to(j@, x),
    {
        match j {
            Json::Obj(m) => {
            let data = match crate::json::members_get(m, "data") {
                Option::Some(jj) => match FeaturedModsResponse::from_json(jj) {
                    Option::Some(v) => v,
                    Option::None => {
                        return Option::None;
                    },
                },
                Option::None => {
                    return Option::None;
                },
            };
                Option::Some(GetFeaturedModsResponse {
                    data,
                })
            },
            _ => Option::None,
        }
    }



    /// The JSON document of a value decodes back to it.
    #[verifier::rlimit(100)]
    #[verifier::spinoff_prover]
    pub proof fn lemma_decodes_self(x: GetFeaturedModsResponse)
        ensures
            GetFeaturedModsResponse::decodes_to(x.jv(), x),
    {
        let o = x.jv()->Obj_0;
        assert(crate::json::obj_get(o, "data"@) == Option::Some(x.data.jv())) by {
            reveal_strlit("data");
            reveal_with_fuel(crate::json::obj_get, 2);
        }
        FeaturedModsResponse::lemma_decodes_self(x.data);
    }

    /// Two values that one JSON document decodes to are equal, field for field.
    #[verifier::rlimit(100)]
    #[verifier::spinoff_prover]
    pub proof fn lemma_deterministic(j: JsonV, x: GetFeaturedModsResponse, y: GetFeaturedModsResponse)
        requires
            GetFeaturedModsResponse::decodes_to(j, x),
            GetFeaturedModsResponse::decodes_to(j, y),
        ensures
            y.data.jv() == x.data.jv(),
    {
        let o = j->Obj_0;
        match crate::json::obj_get(o, "data"@) {
            Option::Some(jj) => {
                FeaturedModsResponse::lemma_deterministic(jj, x.data, y.data);
            },
            Option::None => {},
        }
    }
}

/// One file of a mod.
#[derive(Debug, Clone)]
pub struct GetModFileResponse {
    pub data: File,
}

impl GetModFileResponse {
    /// The JSON document of this value, member for member.
    pub open spec fn jv(self) -> JsonV {
        JsonV::Obj(seq![
            ("data"@, self.data.jv()),
        ])
    }

    /// What it means for a JSON document to decode to this value.
    pub open spec fn decodes_to(j: JsonV, x: GetModFileResponse) -> bool {
        &&& j matches JsonV::Obj(o)
        &&& crate::json::obj_get(o, "data"@) matches Option::Some(jj) && File::decodes_to(jj, x.data)
    }

    #[verifier::rlimit(100)]
    #[verifier::spinoff_prover]
    pub fn to_json(&self) -> (r: Json)
        ensures
            r@ == self.jv(),
    {
        let mut m = JsonMembers::Nil;
        m = crate::fields::cons_member("data", self.data.to_json(), m);
        let ghost m_v = m@;
        let r = Json::Obj(Box::new(m));
        proof {
            assert(r matches Json::Obj(o2) && crate::json::members_view(*o2) == m_v);
            assert(r@ == JsonV::Obj(m_v));
            assert(m_v.len() == 1);
            assert(m_v[0] =~~= ("data"@, self.data.jv()));
            assert(m_v =~~= self.jv()->Obj_0);
            assert(r@ =~~= self.jv());
        }
        r
    }

    #[verifier::rlimit(100)]
    #[verifier::spinoff_prover]
    pub fn from_json(j: &Json) -> (r: Option<GetModFileResponse>)
        ensures
            r matches Option::Some(x) ==> GetModFileResponse::decodes_to(j@, x),
            r is None ==> forall|x: GetModFileResponse| !GetModFileResponse::decodes_to(j@, x),
    {
        match j {
            Json::Obj(m) => {
            let data = match crate::json::members_get(m, "data") {
                Option::Some(jj) => match File::from_json(jj) {
                    Option::Some(v) => v,
                    Option::None => {
                        return Option::None;
                    },
                },
                Option::None => {
                    return Option::None;
                },
            };
                Option::Some(GetModFileResponse {
                    data,
                })
            },
            _ => Option::None,
        }
    }



    /// The JSON document of a value decodes back to it.
    #[verifier::rlimit(100)]
    #[verifier::spinoff_prover]
    pub proof fn lemma_decodes_self(x: GetModFileResponse)
        ensures
            GetModFileResponse::decodes_to(x.jv(), x),
    {
        let o = x.jv()->Obj_0;
        assert(crate::json::obj_get(o, "data"@) == Option::Some(x.data.jv())) by {
            reveal_strlit("data");
            reveal_with_fuel(crate::json::obj_get, 2);
        }
        File::lemma_decodes_self(x.data);
    }

    /// Two values that one JSON document decodes to are equal, field for field.
    #[verifier::rlimit(100)]
    #[verifier::spinoff_prover]
    pub proof fn lemma_deterministic(j: JsonV, x: GetModFileResponse, y: GetModFileResponse)
        requires
            GetModFileResponse::decodes_to(j, x),
            GetModFileResponse::decodes_to(j, y),
        ensures
            y.data.jv() == x.data.jv(),
    {
        let o = j->Obj_0;
        match crate::json::obj_get(o, "data"@) {
            Option::Some(jj) => {
                File::lemma_deterministic(jj, x.data, y.data);
            },
            Option::None => {},
        }
    }
}

/// The file listing of a mod, with its paging window.
#[derive(Debug, Clone)]
pub struct GetModFilesResponse {
    pub data: Vec<File>,
    pub pagination: Pagination,
}

impl GetModFilesResponse {
    /// The JSON document of this value, member for member.
    pub open spec fn jv(self) -> JsonV {
        JsonV::Obj(seq![
            ("data"@, JsonV::Arr(Seq::new(self.data@.len(), |k: int| self.data@[k].jv()))),
            ("pagination"@, self.pagination.jv()),
        ])
    }

    /// What it means for a JSON document to decode to this value.
    pub open spec fn decodes_to(j: JsonV, x: GetModFilesResponse) -> bool {
        &&& j matches JsonV::Obj(o)
        &&& crate::json::obj_get(o, "data"@) matches Option::Some(JsonV::Arr(items)) && items.len() == x.data@.len()
            && (forall|n: int| 0 <= n < items.len() ==> File::decodes_to(#[trigger] items[n], x.data@[n]))
        &&& crate::json::obj_get(o, "pagination"@) matches Option::Some(jj) && Pagination::decodes_to(jj, x.pagination)
    }

    #[verifier::rlimit(100)]
    #[verifier::spinoff_prover]
    pub fn to_json(&self) -> (r: Json)
        ensures
            r@ == self.jv(),
    {
        let mut m = JsonMembers::Nil;
        m = crate::fields::cons_member("pagination", self.pagination.to_json(), m);
        let l_data = File::list_to_json(&self.data, 0);
        let ghost lv_data = l_data@;
        let e_data = Json::Arr(Box::new(l_data));
        proof {
            assert(e_data matches Json::Arr(lb) && crate::json::list_view(*lb) == lv_data);
            assert(lv_data =~= Seq::new(self.data@.len(), |k: int| self.data@[k].jv()));
            assert(e_data@ =~~= JsonV::Arr(Seq::new(self.data@.len(), |k: int| self.data@[k].jv())));
        }
        m = crate::fields::cons_member("data", e_data, m);
        let ghost m_v = m@;
        let r = Json::Obj(Box::new(m));
        proof {
            assert(r matches Json::Obj(o2) && crate::json::members_view(*o2) == m_v);
            assert(r@ == JsonV::Obj(m_v));
            assert(m_v.len() == 2);
            assert(m_v[0] =~~= ("data"@, JsonV::Arr(Seq::new(self.data@.len(), |k: int| self.data@[k].jv()))));
            assert(m_v[1] =~~= ("pagination"@, self.pagination.jv()));
            assert(m_v =~~= self.jv()->Obj_0);
            assert(r@ =~~= self.jv());
        }
        r
    }

    #[verifier::rlimit(100)]
    #[verifier::spinoff_prover]
    pub fn from_json(j: &Json) -> (r: Option<GetModFilesResponse>)
        ensures
            r matches Option::Some(x) ==> GetModFilesResponse::decodes_to(j@, x),
            r is None ==> forall|x: GetModFilesResponse| !GetModFilesResponse::decodes_to(j@, x),
    {
        match j {
            Json::Obj(m) => {
            let data = match crate::fields::get_arr(m, "data") {
                Option::Some(l) => match File::list_from_json(l) {
                    Option::Some(v) => v,
                    Option::None => {
                        proof {
                            assert forall|x: GetModFilesResponse| !GetModFilesResponse::decodes_to(j@, x) by {
                                if GetModFilesResponse::decodes_to(j@, x) {
                                    File::lemma_list_undecodable(l@, x.data@);
                                }
                            }
                        }
                        return Option::None;
                    },
                },
                Option::None => {
                    return Option::None;
                },
            };
            let pagination = match crate::json::members_get(m, "pagination") {
                Option::Some(jj) => match Pagination::from_json(jj) {
                    Option::Some(v) => v,
                    Option::None => {
                        return Option::None;
                    },
                },
                Option::None => {
                    return Option::None;
                },
            };
                Option::Some(GetModFilesResponse {
                    data,
                    pagination,
                })
            },
            _ => Option::None,
        }
    }



    /// The JSON document of a value decodes back to it.
    #[verifier::rlimit(100)]
    #[verifier::spinoff_prover]
    pub proof fn lemma_decodes_self(x: GetModFilesResponse)
        ensures
            GetModFilesResponse::decodes_to(x.jv(), x),
    {
        let o = x.jv()->Obj_0;
        assert(crate::json::obj_get(o, "data"@) == Option::Some(JsonV::Arr(Seq::new(x.data@.len(), |k: int| x.data@[k].jv())))) by {
            reveal_strlit("data");
            reveal_with_fuel(crate::json::obj_get, 3);
        }
        assert(crate::json::obj_get(o, "pagination"@) == Option::Some(x.pagination.jv())) by {
            reveal_strlit("data");
            reveal_strlit("pagination");
            assert("data"@.len() == 4);
            assert("pagination"@.len() == 10);
            assert("data"@ != "pagination"@);
            reveal_with_fuel(crate::json::obj_get, 3);
        }
        assert forall|n: int| 0 <= n < x.data@.len() implies File::decodes_to(
            (#[trigger] x.data@[n]).jv(), x.data@[n],
        ) by {
            File::lemma_decodes_self(x.data@[n]);
        }
        assert(forall|n: int| 0 <= n < x.data@.len() ==> Seq::new(x.data@.len(),
            |k: int| x.data@[k].jv())[n] == (#[trigger] x.data@[n]).jv());
        Pagination::lemma_decodes_self(x.pagination);
    }

    /// Two values that one JSON document decodes to are equal, field for field.
    #[verifier::rlimit(100)]
    #[verifier::spinoff_prover]
    pub proof fn lemma_deterministic(j: JsonV, x: GetModFilesResponse, y: GetModFilesResponse)
        requires
            GetModFilesResponse::decodes_to(j, x),
            GetModFilesResponse::decodes_to(j, y),
        ensures
            y.data@.len() == x.data@.len() && (forall|n: int| 0 <= n < x.data@.len() ==> (#[trigger] y.data@[n]).jv() == x.data@[n].jv()),
            y.pagination.jv() == x.pagination.jv(),
    {
        let o = j->Obj_0;
        match crate::json::obj_get(o, "data"@) {
            Option::Some(JsonV::Arr(items)) => {
                assert forall|n: int| 0 <= n < x.data@.len() implies (#[trigger] y.data@[n]).jv()
                    == x.data@[n].jv() by {
                    assert(File::decodes_to(items[n], x.data@[n]));
                    assert(File::decodes_to(items[n], y.data@[n]));
                    File::lemma_deterministic(items[n], x.data@[n], y.data@[n]);
                }
            },
            _ => {
                assert(false);
            },
        }
        match crate::json::obj_get(o, "pagination"@) {
            Option::Some(jj) => {
                Pagination::lemma_deterministic(jj, x.pagination, y.pagination);
            },
            Option::None => {},
        }
    }
}

/// A list of files fetched in bulk.
#[derive(Debug, Clone)]
pub struct GetFilesResponse {
    pub data: Vec<File>,
}

impl GetFilesResponse {
    /// The JSON document of this value, member for member.
    pub open spec fn jv(self) -> JsonV {
        JsonV::Obj(seq![
            ("data"@, JsonV::Arr(Seq::new(self.data@.len(), |k: int| self.data@[k].jv()))),
        ])
    }

    /// What it means for a JSON document to decode to this value.
    pub open spec fn decodes_to(j: JsonV, x: GetFilesResponse) -> bool {
        &&& j matches JsonV::Obj(o)
        &&& crate::json::obj_get(o, "data"@) matches Option::Some(JsonV::Arr(items)) && items.len() == x.data@.len()
            && (forall|n: int| 0 <= n < items.len() ==> File::decodes_to(#[trigger] items[n], x.data@[n]))
    }

    #[verifier::rlimit(100)]
    #[verifier::spinoff_prover]
    pub fn to_json(&self) -> (r: Json)
        ensures
            r@ == self.jv(),
    {
        let mut m = JsonMembers::Nil;
        let l_data = File::list_to_json(&self.data, 0);
        let ghost lv_data = l_data@;
        let e_data = Json::Arr(Box::new(l_data));
        proof {
            assert(e_data matches Json::Arr(lb) && crate::json::list_view(*lb) == lv_data);
            assert(lv_data =~= Seq::new(self.data@.len(), |k: int| self.data@[k].jv()));
            assert(e_data@ =~~= JsonV::Arr(Seq::new(self.data@.len(), |k: int| self.data@[k].jv())));
        }
        m = crate::fields::cons_member("data", e_data, m);
        let ghost m_v = m@;
        let r = Json::Obj(Box::new(m));
        proof {
            assert(r matches Json::Obj(o2) && crate::json::members_view(*o2) == m_v);
            assert(r@ == JsonV::Obj(m_v));
            assert(m_v.len() == 1);
            assert(m_v[0] =~~= ("data"@, JsonV::Arr(Seq::new(self.data@.len(), |k: int| self.data@[k].jv()))));
            assert(m_v =~~= self.jv()->Obj_0);
            assert(r@ =~~= self.jv());
        }
        r
    }

    #[verifier::rlimit(100)]
    #[verifier::spinoff_prover]
    pub fn from_json(j: &Json) -> (r: Option<GetFilesResponse>)
        ensures
            r matches Option::Some(x) ==> GetFilesResponse::decodes_to(j@, x),
            r is None ==> forall|x: GetFilesResponse| !GetFilesResponse::decodes_to(j@, x),
    {
        match j {
            Json::Obj(m) => {
            let data = match crate::fields::get_arr(m, "data") {
                Option::Some(l) => match File::list_from_json(l) {
                    Option::Some(v) => v,
                    Option::None => {
                        proof {
                            assert forall|x: GetFilesResponse| !GetFilesResponse::decodes_to(j@, x) by {
                                if GetFilesResponse::decodes_to(j@, x) {
                                    File::lemma_list_undecodable(l@, x.data@);
                                }
                            }
                        }
                        return Option::None;
                    },
                },
                Option::None => {
                    return Option::None;
                },
            };
                Option::Some(GetFilesResponse {
                    data,
                })
            },
            _ => Option::None,
        }
    }



    /// The JSON document of a value decodes back to it.
    #[verifier::rlimit(100)]
    #[verifier::spinoff_prover]
    pub proof fn lemma_decodes_self(x: GetFilesResponse)
        ensures
            GetFilesResponse::decodes_to(x.jv(), x),
    {
        let o = x.jv()->Obj_0;
        assert(crate::json::obj_get(o, "data"@) == Option::Some(JsonV::Arr(Seq::new(x.data@.len(), |k: int| x.data@[k].jv())))) by {
            reveal_strlit("data");
            reveal_with_fuel(crate::json::obj_get, 2);
        }
        assert forall|n: int| 0 <= n < x.data@.len() implies File::decodes_to(
            (#[trigger] x.data@[n]).jv(), x.data@[n],
        ) by {
            File::lemma_decodes_self(x.data@[n]);
        }
        assert(forall|n: int| 0 <= n < x.data@.len() ==> Seq::new(x.data@.len(),
            |k: int| x.data@[k].jv())[n] == (#[trigger] x.data@[n]).jv());
    }

    /// Two values that one JSON document decodes to are equal, field for field.
    #[verifier::rlimit(100)]
    #[verifier::spinoff_prover]
    pub proof fn lemma_deterministic(j: JsonV, x: GetFilesResponse, y: GetFilesResponse)
        requires
            GetFilesResponse::decodes_to(j, x),
            GetFilesResponse::decodes_to(j, y),
        ensures
            y.data@.len() == x.data@.len() && (forall|n: int| 0 <= n < x.data@.len() ==> (#[trigger] y.data@[n]).jv() == x.data@[n].jv()),
    {
        let o = j->Obj_0;
        match crate::json::obj_get(o, "data"@) {
            Option::Some(JsonV::Arr(items)) => {
                assert forall|n: int| 0 <= n < x.data@.len() implies (#[trigger] y.data@[n]).jv()
                    == x.data@[n].jv() by {
                    assert(File::decodes_to(items[n], x.data@[n]));
                    assert(File::decodes_to(items[n], y.data@[n]));
                    File::lemma_deterministic(items[n], x.data@[n], y.data@[n]);
                }
            },
            _ => {
                assert(false);
            },
        }
    }
}

/// The matches of a fingerprint query.
#[derive(Debug, Clone)]
pub struct GetFingerprintMatchesResponse {
    pub data: FingerprintsMatchesResult,
}

impl GetFingerprintMatchesResponse {
    /// The JSON document of this value, member for member.
    pub open spec fn jv(self) -> JsonV {
        JsonV::Obj(seq![
            ("data"@, self.data.jv()),
        ])
    }

    /// What it means for a JSON document to decode to this value.
    pub open spec fn decodes_to(j: JsonV, x: GetFingerprintMatchesResponse) -> bool {
        &&& j matches JsonV::Obj(o)
        &&& crate::json::obj_get(o, "data"@) matches Option::Some(jj) && FingerprintsMatchesResult::decodes_to(jj, x.data)
    }

    #[verifier::rlimit(100)]
    #[verifier::spinoff_prover]
    pub fn to_json(&self) -> (r: Json)
        ensures
            r@ == self.jv(),
    {
        let mut m = JsonMembers::Nil;
        m = crate::fields::cons_member("data", self.data.to_json(), m);
        let ghost m_v = m@;
        let r = Json::Obj(Box::new(m));
        proof {
            assert(r matches Json::Obj(o2) && crate::json::members_view(*o2) == m_v);
            assert(r@ == JsonV::Obj(m_v));
            assert(m_v.len() == 1);
            assert(m_v[0] =~~= ("data"@, self.data.jv()));
            assert(m_v =~~= self.jv()->Obj_0);
            assert(r@ =~~= self.jv());
        }
        r
    }

    #[verifier::rlimit(100)]
    #[verifier::spinoff_prover]
    pub fn from_json(j: &Json) -> (r: Option<GetFingerprintMatchesResponse>)
        ensures
            r matches Option::Some(x) ==> GetFingerprintMatchesResponse::decodes_to(j@, x),
            r is None ==> forall|x: GetFingerprintMatchesResponse| !GetFingerprintMatchesResponse::decodes_to(j@, x),
    {
        match j {
            Json::Obj(m) => {
            let data = match crate::json::members_get(m, "data") {
                Option::Some(jj) => match FingerprintsMatchesResult::from_json(jj) {
                    Option::Some(v) => v,
                    Option::None => {
                        return Option::None;
                    },
                },
                Option::None => {
                    return Option::None;
                },
            };
                Option::Some(GetFingerprintMatchesResponse {
                    data,
                })
            },
            _ => Option::None,
        }
    }



    /// The JSON document of a value decodes back to it.
    #[verifier::rlimit(100)]
    #[verifier::spinoff_prover]
    pub proof fn lemma_decodes_self(x: GetFingerprintMatchesResponse)
        ensures
            GetFingerprintMatchesResponse::decodes_to(x.jv(), x),
    {
        let o = x.jv()->Obj_0;
        assert(crate::json::obj_get(o, "data"@) == Option::Some(x.data.jv())) by {
            reveal_strlit("data");
            reveal_with_fuel(crate::json::obj_get, 2);
        }
        FingerprintsMatchesResult::lemma_decodes_self(x.data);
    }

    /// Two values that one JSON document decodes to are equal, field for field.
    #[verifier::rlimit(100)]
    #[verifier::spinoff_prover]
    pub proof fn lemma_deterministic(j: JsonV, x: GetFingerprintMatchesResponse, y: GetFingerprintMatchesResponse)
        requires
            GetFingerprintMatchesResponse::decodes_to(j, x),
            GetFingerprintMatchesResponse::decodes_to(j, y),
        ensures
            y.data.jv() == x.data.jv(),
    {
        let o = j->Obj_0;
        match crate::json::obj_get(o, "data"@) {
            Option::Some(jj) => {
                FingerprintsMatchesResult::lemma_deterministic(jj, x.data, y.data);
            },
            Option::None => {},
        }
    }
}

/// The fuzzy matches of a fingerprint query.
#[derive(Debug, Clone)]
pub struct GetFingerprintsFuzzyMatchesResponse {
    pub data: FingerprintFuzzyMatchResult,
}

impl GetFingerprintsFuzzyMatchesResponse {
    /// The JSON document of this value, member for member.
    pub open spec fn jv(self) -> JsonV {
        JsonV::Obj(seq![
            ("data"@, self.data.jv()),
        ])
    }

    /// What it means for a JSON document to decode to this value.
    pub open spec fn decodes_to(j: JsonV, x: GetFingerprintsFuzzyMatchesResponse) -> bool {
        &&& j matches JsonV::Obj(o)
        &&& crate::json::obj_get(o, "data"@) matches Option::Some(jj) && FingerprintFuzzyMatchResult::decodes_to(jj, x.data)
    }

    #[verifier::rlimit(100)]
    #[verifier::spinoff_prover]
    pub fn to_json(&self) -> (r: Json)
        ensures
            r@ == self.jv(),
    {
        let mut m = JsonMembers::Nil;
        m = crate::fields::cons_member("data", self.data.to_json(), m);
        let ghost m_v = m@;
        let r = Json::Obj(Box::new(m));
        proof {
            assert(r matches Json::Obj(o2) && crate::json::members_view(*o2) == m_v);
            assert(r@ == JsonV::Obj(m_v));
            assert(m_v.len() == 1);
            assert(m_v[0] =~~= ("data"@, self.data.jv()));
            assert(m_v =~~= self.jv()->Obj_0);
            assert(r@ =~~= self.jv());
        }
        r
    }

    #[verifier::rlimit(100)]
    #[verifier::spinoff_prover]
    pub fn from_json(j: &Json) -> (r: Option<GetFingerprintsFuzzyMatchesResponse>)
        ensures
            r matches Option::Some(x) ==> GetFingerprintsFuzzyMatchesResponse::decodes_to(j@, x),
            r is None ==> forall|x: GetFingerprintsFuzzyMatchesResponse| !GetFingerprintsFuzzyMatchesResponse::decodes_to(j@, x),
    {
        match j {
            Json::Obj(m) => {
            let data = match crate::json::members_get(m, "data") {
                Option::Some(jj) => match FingerprintFuzzyMatchResult::from_json(jj) {
                    Option::Some(v) => v,
                    Option::None => {
                        return Option::None;
                    },
                },
                Option::None => {
                    return Option::None;
                },
            };
                Option::Some(GetFingerprintsFuzzyMatchesResponse {
                    data,
                })
            },
            _ => Option::None,
        }
    }



    /// The JSON document of a value decodes back to it.
    #[verifier::rlimit(100)]
    #[verifier::spinoff_prover]
    pub proof fn lemma_decodes_self(x: GetFingerprintsFuzzyMatchesResponse)
        ensures
            GetFingerprintsFuzzyMatchesResponse::decodes_to(x.jv(), x),
    {
        let o = x.jv()->Obj_0;
        assert(crate::json::obj_get(o, "data"@) == Option::Some(x.data.jv())) by {
            reveal_strlit("data");
            reveal_with_fuel(crate::json::obj_get, 2);
        }
        FingerprintFuzzyMatchResult::lemma_decodes_self(x.data);
    }

    /// Two values that one JSON document decodes to are equal, field for field.
    #[verifier::rlimit(100)]
    #[verifier::spinoff_prover]
    pub proof fn lemma_deterministic(j: JsonV, x: GetFingerprintsFuzzyMatchesResponse, y: GetFingerprintsFuzzyMatchesResponse)
        requires
            GetFingerprintsFuzzyMatchesResponse::decodes_to(j, x),
            GetFingerprintsFuzzyMatchesResponse::decodes_to(j, y),
        ensures
            y.data.jv() == x.data.jv(),
    {
        let o = j->Obj_0;
        match crate::json::obj_get(o, "data"@) {
            Option::Some(jj) => {
                FingerprintFuzzyMatchResult::lemma_deterministic(jj, x.data, y.data);
            },
            Option::None => {},
        }
    }
}

} // verus!
