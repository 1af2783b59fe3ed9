//! The query-parameter shapes of the listing endpoints.
#![allow(unused_imports)]
use crate::enums::{CoreApiStatus, CoreStatus, FileRelationType, FileReleaseType, FileStatus,
    GameVersionStatus, GameVersionTypeStatus, HashAlgo, ModLoaderInstallMethod, ModLoaderType,
    ModStatus, ModsSearchSortField, SortOrder};
use crate::json::{Json, JsonList, JsonMembers, JsonV};
use crate::num::int_rep;
use crate::query::{bool_rep, kv_opt};
use vstd::prelude::*;

verus! {

broadcast use vstd::seq::group_seq_axioms, vstd::std_specs::vec::group_vec_axioms;


/// The paging controls of the game listing.
#[derive(Debug, Clone)]
pub struct GetGamesParams {
    pub index: Option<i32>,
    pub page_size: Option<i32>,
}

impl GetGamesParams {
    /// The JSON document of this value, member for member.
    pub open spec fn jv(self) -> JsonV {
        JsonV::Obj(seq![
            ("index"@, (match self.index { Option::Some(v) => JsonV::Int(v as int), Option::None => JsonV::Null })),
            ("pageSize"@, (match self.page_size { Option::Some(v) => JsonV::Int(v as int), Option::None => JsonV::Null })),
        ])
    }

    /// What it means for a JSON document to decode to this value.
    pub open spec fn decodes_to(j: JsonV, x: GetGamesParams) -> bool {
        &&& j matches JsonV::Obj(o)
        &&& crate::fields::jv_opt_i32(o, "index"@) == Option::Some(x.index)
        &&& crate::fields::jv_opt_i32(o, "pageSize"@) == Option::Some(x.page_size)
    }

    pub fn to_json(&self) -> (r: Json)
        ensures
            r@ == self.jv(),
    {
        let mut m = JsonMembers::Nil;
        m = crate::fields::cons_member("pageSize", crate::fields::opt_i32_json(&self.page_size), m);
        m = crate::fields::cons_member("index", crate::fields::opt_i32_json(&self.index), m);
        let ghost m_v = m@;
        let r = Json::Obj(Box::new(m));
        proof {
            assert(r matches Json::Obj(o2) && crate::json::members_view(*o2) == m_v);
            assert(r@ == JsonV::Obj(m_v));
            assert(m_v.len() == 2);
            assert(m_v[0] =~~= ("index"@, (match self.index { Option::Some(v) => JsonV::Int(v as int), Option::None => JsonV::Null })));
            assert(m_v[1] =~~= ("pageSize"@, (match self.page_size { Option::Some(v) => JsonV::Int(v as int), Option::None => JsonV::Null })));
            assert(m_v =~~= self.jv()->Obj_0);
            assert(r@ =~~= self.jv());
        }
        r
    }

    pub fn from_json(j: &Json) -> (r: Option<GetGamesParams>)
        ensures
            r matches Option::Some(x) ==> GetGamesParams::decodes_to(j@, x),
            r is None ==> forall|x: GetGamesParams| !GetGamesParams::decodes_to(j@, x),
    {
        match j {
            Json::Obj(m) => {
            let index = match crate::fields::get_opt_i32(m, "index") {
                Option::Some(v) => v,
                Option::None => {
                    return Option::None;
                },
            };
            let page_size = match crate::fields::get_opt_i32(m, "pageSize") {
                Option::Some(v) => v,
                Option::None => {
                    return Option::None;
                },
            };
                Option::Some(GetGamesParams {
                    index,
                    page_size,
                })
            },
            _ => Option::None,
        }
    }



    /// The JSON document of a value decodes back to it.
    pub proof fn lemma_decodes_self(x: GetGamesParams)
        ensures
            GetGamesParams::decodes_to(x.jv(), x),
    {
        let o = x.jv()->Obj_0;
        assert(crate::json::obj_get(o, "index"@) == Option::Some((match x.index { Option::Some(v) => JsonV::Int(v as int), Option::None => JsonV::Null }))) by {
            reveal_strlit("index");
            reveal_with_fuel(crate::json::obj_get, 3);
        }
        assert(crate::json::obj_get(o, "pageSize"@) == Option::Some((match x.page_size { Option::Some(v) => JsonV::Int(v as int), Option::None => JsonV::Null }))) by {
            reveal_strlit("index");
            reveal_strlit("pageSize");
            assert("index"@.len() == 5);
            assert("pageSize"@.len() == 8);
            assert("index"@ != "pageSize"@);
            reveal_with_fuel(crate::json::obj_get, 3);
        }
    }

    /// Two values that one JSON document decodes to are equal, field for field.
    pub proof fn lemma_deterministic(j: JsonV, x: GetGamesParams, y: GetGamesParams)
        requires
            GetGamesParams::decodes_to(j, x),
            GetGamesParams::decodes_to(j, y),
        ensures
            y.index == x.index,
            y.page_size == x.page_size,
    {
        let o = j->Obj_0;
    }
}

/// The filters of the category listing.
#[derive(Debug, Clone)]
pub struct GetCategoriesParams {
    pub game_id: i32,
    pub class_id: Option<i32>,
    pub classes_only: Option<bool>,
}

impl GetCategoriesParams {
    /// The JSON document of this value, member for member.
    pub open spec fn jv(self) -> JsonV {
        JsonV::Obj(seq![
            ("gameId"@, JsonV::Int(self.game_id as int)),
            ("classId"@, (match self.class_id { Option::Some(v) => JsonV::Int(v as int), Option::None => JsonV::Null })),
            ("classesOnly"@, (match self.classes_only { Option::Some(v) => JsonV::Bool(v), Option::None => JsonV::Null })),
        ])
    }

    /// What it means for a JSON document to decode to this value.
    pub open spec fn decodes_to(j: JsonV, x: GetCategoriesParams) -> bool {
        &&& j matches JsonV::Obj(o)
        &&& crate::fields::jv_i32(o, "gameId"@) == Option::Some(x.game_id)
        &&& crate::fields::jv_opt_i32(o, "classId"@) == Option::Some(x.class_id)
        &&& crate::fields::jv_opt_bool(o, "classesOnly"@) == Option::Some(x.classes_only)
    }

    pub fn to_json(&self) -> (r: Json)
        ensures
            r@ == self.jv(),
    {
        let mut m = JsonMembers::Nil;
        m = crate::fields::cons_member("classesOnly", crate::fields::opt_bool_json(&self.classes_only), m);
        m = crate::fields::cons_member("classId", crate::fields::opt_i32_json(&self.class_id), m);
        m = crate::fields::cons_member("gameId", Json::Int(self.game_id as i64), m);
        let ghost m_v = m@;
        let r = Json::Obj(Box::new(m));
        proof {
            assert(r matches Json::Obj(o2) && crate::json::members_view(*o2) == m_v);
            assert(r@ == JsonV::Obj(m_v));
            assert(m_v.len() == 3);
            assert(m_v[0] =~~= ("gameId"@, JsonV::Int(self.game_id as int)));
            assert(m_v[1] =~~= ("classId"@, (match self.class_id { Option::Some(v) => JsonV::Int(v as int), Option::None => JsonV::Null })));
            assert(m_v[2] =~~= ("classesOnly"@, (match self.classes_only { Option::Some(v) => JsonV::Bool(v), Option::None => JsonV::Null })));
            assert(m_v =~~= self.jv()->Obj_0);
            assert(r@ =~~= self.jv());
        }
        r
    }

    pub fn from_json(j: &Json) -> (r: Option<GetCategoriesParams>)
        ensures
            r matches Option::Some(x) ==> GetCategoriesParams::decodes_to(j@, x),
            r is None ==> forall|x: GetCategoriesParams| !GetCategoriesParams::decodes_to(j@, x),
    {
        match j {
            Json::Obj(m) => {
            let game_id = match crate::fields::get_i32(m, "gameId") {
                Option::Some(v) => v,
                Option::None => {
                    return Option::None;
                },
            };
            let class_id = match crate::fields::get_opt_i32(m, "classId") {
                Option::Some(v) => v,
                Option::None => {
                    return Option::None;
                },
            };
            let classes_only = match crate::fields::get_opt_bool(m, "classesOnly") {
                Option::Some(v) => v,
                Option::None => {
                    return Option::None;
                },
            };
                Option::Some(GetCategoriesParams {
                    game_id,
                    class_id,
                    classes_only,
                })
            },
            _ => Option::None,
        }
    }



    /// The JSON document of a value decodes back to it.
    pub proof fn lemma_decodes_self(x: GetCategoriesParams)
        ensures
            GetCategoriesParams::decodes_to(x.jv(), x),
    {
        let o = x.jv()->Obj_0;
        assert(crate::json::obj_get(o, "gameId"@) == Option::Some(JsonV::Int(x.game_id as int))) by {
            reveal_strlit("gameId");
            reveal_with_fuel(crate::json::obj_get, 4);
        }
        assert(crate::json::obj_get(o, "classId"@) == Option::Some((match x.class_id { Option::Some(v) => JsonV::Int(v as int), Option::None => JsonV::Null }))) by {
            reveal_strlit("gameId");
            reveal_strlit("classId");
            assert("gameId"@.len() == 6);
            assert("classId"@.len() == 7);
            assert("gameId"@ != "classId"@);
            reveal_with_fuel(crate::json::obj_get, 4);
        }
        assert(crate::json::obj_get(o, "classesOnly"@) == Option::Some((match x.classes_only { Option::Some(v) => JsonV::Bool(v), Option::None => JsonV::Null }))) by {
            reveal_strlit("gameId");
            reveal_strlit("classId");
            reveal_strlit("classesOnly");
            assert("gameId"@.len() == 6);
            assert("classesOnly"@.len() == 11);
            assert("gameId"@ != "classesOnly"@);
            assert("classId"@.len() == 7);
            assert("classesOnly"@.len() == 11);
            assert("classId"@ != "classesOnly"@);
            reveal_with_fuel(crate::json::obj_get, 4);
        }
    }

    /// Two values that one JSON document decodes to are equal, field for field.
    pub proof fn lemma_deterministic(j: JsonV, x: GetCategoriesParams, y: GetCategoriesParams)
        requires
            GetCategoriesParams::decodes_to(j, x),
            GetCategoriesParams::decodes_to(j, y),
        ensures
            y.game_id == x.game_id,
            y.class_id == x.class_id,
            y.classes_only == x.classes_only,
    {
        let o = j->Obj_0;
    }
}

/// The filters, sort controls and paging of the mod search.
#[derive(Debug, Clone)]
pub struct SearchModsParams {
    pub game_id: i32,
    pub class_id: Option<i32>,
    pub category_id: Option<i32>,
    pub category_ids: Option<String>,
    pub game_version: Option<String>,
    pub game_versions: Option<String>,
    pub search_filter: Option<String>,
    pub sort_field: Option<ModsSearchSortField>,
    pub sort_order: Option<SortOrder>,
    pub mod_loader_type: Option<ModLoaderType>,
    pub mod_loader_types: Option<String>,
    pub game_version_type_id: Option<i32>,
    pub author_id: Option<i32>,
    pub primary_author_id: Option<i32>,
    pub slug: Option<String>,
    pub index: Option<i32>,
    pub page_size: Option<i32>,
}

impl SearchModsParams {
    /// The JSON document of this value, member for member.
    pub open spec fn jv(self) -> JsonV {
        JsonV::Obj(seq![
            ("gameId"@, JsonV::Int(self.game_id as int)),
            ("classId"@, (match self.class_id { Option::Some(v) => JsonV::Int(v as int), Option::None => JsonV::Null })),
            ("categoryId"@, (match self.category_id { Option::Some(v) => JsonV::Int(v as int), Option::None => JsonV::Null })),
            ("categoryIds"@, (match self.category_ids { Option::Some(v) => JsonV::Str(v@), Option::None => JsonV::Null })),
            ("gameVersion"@, (match self.game_version { Option::Some(v) => JsonV::Str(v@), Option::None => JsonV::Null })),
            ("gameVersions"@, (match self.game_versions { Option::Some(v) => JsonV::Str(v@), Option::None => JsonV::Null })),
            ("searchFilter"@, (match self.search_filter { Option::Some(v) => JsonV::Str(v@), Option::None => JsonV::Null })),
            ("sortField"@, (match self.sort_field { Option::Some(v) => JsonV::Int(v.code()), Option::None => JsonV::Null })),
            ("sortOrder"@, (match self.sort_order { Option::Some(v) => JsonV::Str(v.rep()), Option::None => JsonV::Null })),
            ("modLoaderType"@, (match self.mod_loader_type { Option::Some(v) => JsonV::Int(v.code()), Option::None => JsonV::Null })),
            ("modLoaderTypes"@, (match self.mod_loader_types { Option::Some(v) => JsonV::Str(v@), Option::None => JsonV::Null })),
            ("gameVersionTypeId"@, (match self.game_version_type_id { Option::Some(v) => JsonV::Int(v as int), Option::None => JsonV::Null })),
            ("authorId"@, (match self.author_id { Option::Some(v) => JsonV::Int(v as int), Option::None => JsonV::Null })),
            ("primaryAuthorId"@, (match self.primary_author_id { Option::Some(v) => JsonV::Int(v as int), Option::None => JsonV::Null })),
            ("slug"@, (match self.slug { Option::Some(v) => JsonV::Str(v@), Option::None => JsonV::Null })),
            ("index"@, (match self.index { Option::Some(v) => JsonV::Int(v as int), Option::None => JsonV::Null })),
            ("pageSize"@, (match self.page_size { Option::Some(v) => JsonV::Int(v as int), Option::None => JsonV::Null })),
        ])
    }

    /// What it means for a JSON document to decode to this value.
    pub open spec fn decodes_to(j: JsonV, x: SearchModsParams) -> bool {
        &&& j matches JsonV::Obj(o)
        &&& crate::fields::jv_i32(o, "gameId"@) == Option::Some(x.game_id)
        &&& crate::fields::jv_opt_i32(o, "classId"@) == Option::Some(x.class_id)
        &&& crate::fields::jv_opt_i32(o, "categoryId"@) == Option::Some(x.category_id)
        &&& crate::fields::jv_opt_str(o, "categoryIds"@) == Option::Some(crate::fields::view_opt_str(x.category_ids))
        &&& crate::fields::jv_opt_str(o, "gameVersion"@) == Option::Some(crate::fields::view_opt_str(x.game_version))
        &&& crate::fields::jv_opt_str(o, "gameVersions"@) == Option::Some(crate::fields::view_opt_str(x.game_versions))
        &&& crate::fields::jv_opt_str(o, "searchFilter"@) == Option::Some(crate::fields::view_opt_str(x.search_filter))
        &&& ModsSearchSortField::opt_from_member(o, "sortField"@) == Option::Some(x.sort_field)
        &&& SortOrder::opt_from_member(o, "sortOrder"@) == Option::Some(x.sort_order)
        &&& ModLoaderType::opt_from_member(o, "modLoaderType"@) == Option::Some(x.mod_loader_type)
        &&& crate::fields::jv_opt_str(o, "modLoaderTypes"@) == Option::Some(crate::fields::view_opt_str(x.mod_loader_types))
        &&& crate::fields::jv_opt_i32(o, "gameVersionTypeId"@) == Option::Some(x.game_version_type_id)
        &&& crate::fields::jv_opt_i32(o, "authorId"@) == Option::Some(x.author_id)
        &&& crate::fields::jv_opt_i32(o, "primaryAuthorId"@) == Option::Some(x.primary_author_id)
        &&& crate::fields::jv_opt_str(o, "slug"@) == Option::Some(crate::fields::view_opt_str(x.slug))
        &&& crate::fields::jv_opt_i32(o, "index"@) == Option::Some(x.index)
        &&& crate::fields::jv_opt_i32(o, "pageSize"@) == Option::Some(x.page_size)
    }

    #[verifier::rlimit(100)]
    #[verifier::spinoff_prover]
    fn members_part0(&self, rest: JsonMembers) -> (m: JsonMembers)
        ensures
            m@ == seq![
                ("gameId"@, JsonV::Int(self.game_id as int)),
                ("classId"@, (match self.class_id { Option::Some(v) => JsonV::Int(v as int), Option::None => JsonV::Null })),
                ("categoryId"@, (match self.category_id { Option::Some(v) => JsonV::Int(v as int), Option::None => JsonV::Null })),
                ("categoryIds"@, (match self.category_ids { Option::Some(v) => JsonV::Str(v@), Option::None => JsonV::Null })),
                ("gameVersion"@, (match self.game_version { Option::Some(v) => JsonV::Str(v@), Option::None => JsonV::Null })),
                ("gameVersions"@, (match self.game_versions { Option::Some(v) => JsonV::Str(v@), Option::None => JsonV::Null })),
                ("searchFilter"@, (match self.search_filter { Option::Some(v) => JsonV::Str(v@), Option::None => JsonV::Null })),
            ] + rest@,
    {
        let ghost rest_v = rest@;
        let mut m = rest;
        m = crate::fields::cons_member("searchFilter", crate::fields::opt_str_json(&self.search_filter), m);
        m = crate::fields::cons_member("gameVersions", crate::fields::opt_str_json(&self.game_versions), m);
        m = crate::fields::cons_member("gameVersion", crate::fields::opt_str_json(&self.game_version), m);
        m = crate::fields::cons_member("categoryIds", crate::fields::opt_str_json(&self.category_ids), m);
        m = crate::fields::cons_member("categoryId", crate::fields::opt_i32_json(&self.category_id), m);
        m = crate::fields::cons_member("classId", crate::fields::opt_i32_json(&self.class_id), m);
        m = crate::fields::cons_member("gameId", Json::Int(self.game_id as i64), m);
        proof {
            let ghost m_v = m@;
            assert(m_v[0] =~~= ("gameId"@, JsonV::Int(self.game_id as int)));
            assert(m_v[1] =~~= ("classId"@, (match self.class_id { Option::Some(v) => JsonV::Int(v as int), Option::None => JsonV::Null })));
            assert(m_v[2] =~~= ("categoryId"@, (match self.category_id { Option::Some(v) => JsonV::Int(v as int), Option::None => JsonV::Null })));
            assert(m_v[3] =~~= ("categoryIds"@, (match self.category_ids { Option::Some(v) => JsonV::Str(v@), Option::None => JsonV::Null })));
            assert(m_v[4] =~~= ("gameVersion"@, (match self.game_version { Option::Some(v) => JsonV::Str(v@), Option::None => JsonV::Null })));
            assert(m_v[5] =~~= ("gameVersions"@, (match self.game_versions { Option::Some(v) => JsonV::Str(v@), Option::None => JsonV::Null })));
            assert(m_v[6] =~~= ("searchFilter"@, (match self.search_filter { Option::Some(v) => JsonV::Str(v@), Option::None => JsonV::Null })));
            assert(m_v =~~= seq![
                ("gameId"@, JsonV::Int(self.game_id as int)),
                ("classId"@, (match self.class_id { Option::Some(v) => JsonV::Int(v as int), Option::None => JsonV::Null })),
                ("categoryId"@, (match self.category_id { Option::Some(v) => JsonV::Int(v as int), Option::None => JsonV::Null })),
                ("categoryIds"@, (match self.category_ids { Option::Some(v) => JsonV::Str(v@), Option::None => JsonV::Null })),
                ("gameVersion"@, (match self.game_version { Option::Some(v) => JsonV::Str(v@), Option::None => JsonV::Null })),
                ("gameVersions"@, (match self.game_versions { Option::Some(v) => JsonV::Str(v@), Option::None => JsonV::Null })),
                ("searchFilter"@, (match self.search_filter { Option::Some(v) => JsonV::Str(v@), Option::None => JsonV::Null })),
            ] + rest_v);
        }
        m
    }

    #[verifier::rlimit(100)]
    #[verifier::spinoff_prover]
    fn members_part1(&self, rest: JsonMembers) -> (m: JsonMembers)
        ensures
            m@ == seq![
                ("sortField"@, (match self.sort_field { Option::Some(v) => JsonV::Int(v.code()), Option::None => JsonV::Null })),
                ("sortOrder"@, (match self.sort_order { Option::Some(v) => JsonV::Str(v.rep()), Option::None => JsonV::Null })),
                ("modLoaderType"@, (match self.mod_loader_type { Option::Some(v) => JsonV::Int(v.code()), Option::None => JsonV::Null })),
                ("modLoaderTypes"@, (match self.mod_loader_types { Option::Some(v) => JsonV::Str(v@), Option::None => JsonV::Null })),
                ("gameVersionTypeId"@, (match self.game_version_type_id { Option::Some(v) => JsonV::Int(v as int), Option::None => JsonV::Null })),
                ("authorId"@, (match self.author_id { Option::Some(v) => JsonV::Int(v as int), Option::None => JsonV::Null })),
                ("primaryAuthorId"@, (match self.primary_author_id { Option::Some(v) => JsonV::Int(v as int), Option::None => JsonV::Null })),
            ] + rest@,
    {
        let ghost rest_v = rest@;
        let mut m = rest;
        m = crate::fields::cons_member("primaryAuthorId", crate::fields::opt_i32_json(&self.primary_author_id), m);
        m = crate::fields::cons_member("authorId", crate::fields::opt_i32_json(&self.author_id), m);
        m = crate::fields::cons_member("gameVersionTypeId", crate::fields::opt_i32_json(&self.game_version_type_id), m);
        m = crate::fields::cons_member("modLoaderTypes", crate::fields::opt_str_json(&self.mod_loader_types), m);
        let e_mod_loader_type: Json = match self.mod_loader_type {
            Option::Some(v) => Json::Int(v.to_code()),
            Option::None => Json::Null,
        };
        proof {
            assert(e_mod_loader_type@ == (match self.mod_loader_type { Option::Some(v) => JsonV::Int(v.code()), Option::None => JsonV::Null }));
        }
        m = crate::fields::cons_member("modLoaderType", e_mod_loader_type, m);
        let e_sort_order: Json = match self.sort_order {
            Option::Some(v) => Json::Str(v.to_rep().to_owned()),
            Option::None => Json::Null,
        };
        proof {
            assert(e_sort_order@ == (match self.sort_order { Option::Some(v) => JsonV::Str(v.rep()), Option::None => JsonV::Null }));
        }
        m = crate::fields::cons_member("sortOrder", e_sort_order, m);
        let e_sort_field: Json = match self.sort_field {
            Option::Some(v) => Json::Int(v.to_code()),
            Option::None => Json::Null,
        };
        proof {
            assert(e_sort_field@ == (match self.sort_field { Option::Some(v) => JsonV::Int(v.code()), Option::None => JsonV::Null }));
        }
        m = crate::fields::cons_member("sortField", e_sort_field, m);
        proof {
            let ghost m_v = m@;
            assert(m_v[0] =~~= ("sortField"@, (match self.sort_field { Option::Some(v) => JsonV::Int(v.code()), Option::None => JsonV::Null })));
            assert(m_v[1] =~~= ("sortOrder"@, (match self.sort_order { Option::Some(v) => JsonV::Str(v.rep()), Option::None => JsonV::Null })));
            assert(m_v[2] =~~= ("modLoaderType"@, (match self.mod_loader_type { Option::Some(v) => JsonV::Int(v.code()), Option::None => JsonV::Null })));
            assert(m_v[3] =~~= ("modLoaderTypes"@, (match self.mod_loader_types { Option::Some(v) => JsonV::Str(v@), Option::None => JsonV::Null })));
            assert(m_v[4] =~~= ("gameVersionTypeId"@, (match self.game_version_type_id { Option::Some(v) => JsonV::Int(v as int), Option::None => JsonV::Null })));
            assert(m_v[5] =~~= ("authorId"@, (match self.author_id { Option::Some(v) => JsonV::Int(v as int), Option::None => JsonV::Null })));
            assert(m_v[6] =~~= ("primaryAuthorId"@, (match self.primary_author_id { Option::Some(v) => JsonV::Int(v as int), Option::None => JsonV::Null })));
            assert(m_v =~~= seq![
                ("sortField"@, (match self.sort_field { Option::Some(v) => JsonV::Int(v.code()), Option::None => JsonV::Null })),
                ("sortOrder"@, (match self.sort_order { Option::Some(v) => JsonV::Str(v.rep()), Option::None => JsonV::Null })),
                ("modLoaderType"@, (match self.mod_loader_type { Option::Some(v) => JsonV::Int(v.code()), Option::None => JsonV::Null })),
                ("modLoaderTypes"@, (match self.mod_loader_types { Option::Some(v) => JsonV::Str(v@), Option::None => JsonV::Null })),
                ("gameVersionTypeId"@, (match self.game_version_type_id { Option::Some(v) => JsonV::Int(v as int), Option::None => JsonV::Null })),
                ("authorId"@, (match self.author_id { Option::Some(v) => JsonV::Int(v as int), Option::None => JsonV::Null })),
                ("primaryAuthorId"@, (match self.primary_author_id { Option::Some(v) => JsonV::Int(v as int), Option::None => JsonV::Null })),
            ] + rest_v);
        }
        m
    }

    #[verifier::rlimit(100)]
    #[verifier::spinoff_prover]
    fn members_part2(&self, rest: JsonMembers) -> (m: JsonMembers)
        ensures
            m@ == seq![
                ("slug"@, (match self.slug { Option::Some(v) => JsonV::Str(v@), Option::None => JsonV::Null })),
                ("index"@, (match self.index { Option::Some(v) => JsonV::Int(v as int), Option::None => JsonV::Null })),
                ("pageSize"@, (match self.page_size { Option::Some(v) => JsonV::Int(v as int), Option::None => JsonV::Null })),
            ] + rest@,
    {
        let ghost rest_v = rest@;
        let mut m = rest;
        m = crate::fields::cons_member("pageSize", crate::fields::opt_i32_json(&self.page_size), m);
        m = crate::fields::cons_member("index", crate::fields::opt_i32_json(&self.index), m);
        m = crate::fields::cons_member("slug", crate::fields::opt_str_json(&self.slug), m);
        proof {
            let ghost m_v = m@;
            assert(m_v[0] =~~= ("slug"@, (match self.slug { Option::Some(v) => JsonV::Str(v@), Option::None => JsonV::Null })));
            assert(m_v[1] =~~= ("index"@, (match self.index { Option::Some(v) => JsonV::Int(v as int), Option::None => JsonV::Null })));
            assert(m_v[2] =~~= ("pageSize"@, (match self.page_size { Option::Some(v) => JsonV::Int(v as int), Option::None => JsonV::Null })));
            assert(m_v =~~= seq![
                ("slug"@, (match self.slug { Option::Some(v) => JsonV::Str(v@), Option::None => JsonV::Null })),
                ("index"@, (match self.index { Option::Some(v) => JsonV::Int(v as int), Option::None => JsonV::Null })),
                ("pageSize"@, (match self.page_size { Option::Some(v) => JsonV::Int(v as int), Option::None => JsonV::Null })),
            ] + rest_v);
        }
        m
    }

    #[verifier::rlimit(100)]
    #[verifier::spinoff_prover]
    pub fn to_json(&self) -> (r: Json)
        ensures
            r@ == self.jv(),
    {
        let mut m = JsonMembers::Nil;
        m = self.members_part2(m);
        m = self.members_part1(m);
        m = self.members_part0(m);
        let ghost m_v = m@;
        let r = Json::Obj(Box::new(m));
        proof {
            assert(r matches Json::Obj(o2) && crate::json::members_view(*o2) == m_v);
            assert(r@ == JsonV::Obj(m_v));
            assert(m_v =~~= self.jv()->Obj_0);
            assert(r@ =~~= self.jv());
        }
        r
    }

    #[verifier::rlimit(100)]
    #[verifier::spinoff_prover]
    pub fn from_json(j: &Json) -> (r: Option<SearchModsParams>)
        ensures
            r matches Option::Some(x) ==> SearchModsParams::decodes_to(j@, x),
            r is None ==> forall|x: SearchModsParams| !SearchModsParams::decodes_to(j@, x),
    {
        match j {
            Json::Obj(m) => {
            let game_id = match crate::fields::get_i32(m, "gameId") {
                Option::Some(v) => v,
                Option::None => {
                    return Option::None;
                },
            };
            let class_id = match crate::fields::get_opt_i32(m, "classId") {
                Option::Some(v) => v,
                Option::None => {
                    return Option::None;
                },
            };
            let category_id = match crate::fields::get_opt_i32(m, "categoryId") {
                Option::Some(v) => v,
                Option::None => {
                    return Option::None;
                },
            };
            let category_ids = match crate::fields::get_opt_str(m, "categoryIds") {
                Option::Some(v) => v,
                Option::None => {
                    return Option::None;
                },
            };
            let game_version = match crate::fields::get_opt_str(m, "gameVersion") {
                Option::Some(v) => v,
                Option::None => {
                    return Option::None;
                },
            };
            let game_versions = match crate::fields::get_opt_str(m, "gameVersions") {
                Option::Some(v) => v,
                Option::None => {
                    return Option::None;
                },
            };
            let search_filter = match crate::fields::get_opt_str(m, "searchFilter") {
                Option::Some(v) => v,
                Option::None => {
                    return Option::None;
                },
            };
            let sort_field = match ModsSearchSortField::get_opt_member(m, "sortField") {
                Option::Some(v) => v,
                Option::None => {
                    return Option::None;
                },
            };
            let sort_order = match SortOrder::get_opt_member(m, "sortOrder") {
                Option::Some(v) => v,
                Option::None => {
                    return Option::None;
                },
            };
            let mod_loader_type = match ModLoaderType::get_opt_member(m, "modLoaderType") {
                Option::Some(v) => v,
                Option::None => {
                    return Option::None;
                },
            };
            let mod_loader_types = match crate::fields::get_opt_str(m, "modLoaderTypes") {
                Option::Some(v) => v,
                Option::None => {
                    return Option::None;
                },
            };
            let game_version_type_id = match crate::fields::get_opt_i32(m, "gameVersionTypeId") {
                Option::Some(v) => v,
                Option::None => {
                    return Option::None;
                },
            };
            let author_id = match crate::fields::get_opt_i32(m, "authorId") {
                Option::Some(v) => v,
                Option::None => {
                    return Option::None;
                },
            };
            let primary_author_id = match crate::fields::get_opt_i32(m, "primaryAuthorId") {
                Option::Some(v) => v,
                Option::None => {
                    return Option::None;
                },
            };
            let slug = match crate::fields::get_opt_str(m, "slug") {
                Option::Some(v) => v,
                Option::None => {
                    return Option::None;
                },
            };
            let index = match crate::fields::get_opt_i32(m, "index") {
                Option::Some(v) => v,
                Option::None => {
                    return Option::None;
                },
            };
            let page_size = match crate::fields::get_opt_i32(m, "pageSize") {
                Option::Some(v) => v,
                Option::None => {
                    return Option::None;
                },
            };
                Option::Some(SearchModsParams {
                    game_id,
                    class_id,
                    category_id,
                    category_ids,
                    game_version,
                    game_versions,
                    search_filter,
                    sort_field,
                    sort_order,
                    mod_loader_type,
                    mod_loader_types,
                    game_version_type_id,
                    author_id,
                    primary_author_id,
                    slug,
                    index,
                    page_size,
                })
            },
            _ => Option::None,
        }
    }



    /// The JSON document of a value decodes back to it.
    #[verifier::rlimit(100)]
    #[verifier::spinoff_prover]
    pub proof fn lemma_decodes_self(x: SearchModsParams)
        ensures
            SearchModsParams::decodes_to(x.jv(), x),
    {
        let o = x.jv()->Obj_0;
        assert(crate::json::obj_get(o, "gameId"@) == Option::Some(JsonV::Int(x.game_id as int))) by {
            reveal_strlit("gameId");
            reveal_with_fuel(crate::json::obj_get, 18);
        }
        assert(crate::json::obj_get(o, "classId"@) == Option::Some((match x.class_id { Option::Some(v) => JsonV::Int(v as int), Option::None => JsonV::Null }))) by {
            reveal_strlit("gameId");
            reveal_strlit("classId");
            assert("gameId"@.len() == 6);
            assert("classId"@.len() == 7);
            assert("gameId"@ != "classId"@);
            reveal_with_fuel(crate::json::obj_get, 18);
        }
        assert(crate::json::obj_get(o, "categoryId"@) == Option::Some((match x.category_id { Option::Some(v) => JsonV::Int(v as int), Option::None => JsonV::Null }))) by {
            reveal_strlit("gameId");
            reveal_strlit("classId");
            reveal_strlit("categoryId");
            assert("gameId"@.len() == 6);
            assert("categoryId"@.len() == 10);
            assert("gameId"@ != "categoryId"@);
            assert("classId"@.len() == 7);
            assert("categoryId"@.len() == 10);
            assert("classId"@ != "categoryId"@);
            reveal_with_fuel(crate::json::obj_get, 18);
        }
        assert(crate::json::obj_get(o, "categoryIds"@) == Option::Some((match x.category_ids { Option::Some(v) => JsonV::Str(v@), Option::None => JsonV::Null }))) by {
            reveal_strlit("gameId");
            reveal_strlit("classId");
            reveal_strlit("categoryId");
            reveal_strlit("categoryIds");
            assert("gameId"@.len() == 6);
            assert("categoryIds"@.len() == 11);
            assert("gameId"@ != "categoryIds"@);
            assert("classId"@.len() == 7);
            assert("categoryIds"@.len() == 11);
            assert("classId"@ != "categoryIds"@);
            assert("categoryId"@.len() == 10);
            assert("categoryIds"@.len() == 11);
            assert("categoryId"@ != "categoryIds"@);
            reveal_with_fuel(crate::json::obj_get, 18);
        }
        assert(crate::json::obj_get(o, "gameVersion"@) == Option::Some((match x.game_version { Option::Some(v) => JsonV::Str(v@), Option::None => JsonV::Null }))) by {
            reveal_strlit("gameId");
            reveal_strlit("classId");
            reveal_strlit("categoryId");
            reveal_strlit("categoryIds");
            reveal_strlit("gameVersion");
            assert("gameId"@.len() == 6);
            assert("gameVersion"@.len() == 11);
            assert("gameId"@ != "gameVersion"@);
            assert("classId"@.len() == 7);
            assert("gameVersion"@.len() == 11);
            assert("classId"@ != "gameVersion"@);
            assert("categoryId"@.len() == 10);
            assert("gameVersion"@.len() == 11);
            assert("categoryId"@ != "gameVersion"@);
            assert("categoryIds"@[0] == 'c');
            assert("gameVersion"@[0] == 'g');
            assert("categoryIds"@ != "gameVersion"@);
            reveal_with_fuel(crate::json::obj_get, 18);
        }
        assert(crate::json::obj_get(o, "gameVersions"@) == Option::Some((match x.game_versions { Option::Some(v) => JsonV::Str(v@), Option::None => JsonV::Null }))) by {
            reveal_strlit("gameId");
            reveal_strlit("classId");
            reveal_strlit("categoryId");
            reveal_strlit("categoryIds");
            reveal_strlit("gameVersion");
            reveal_strlit("gameVersions");
            assert("gameId"@.len() == 6);
            assert("gameVersions"@.len() == 12);
            assert("gameId"@ != "gameVersions"@);
            assert("classId"@.len() == 7);
            assert("gameVersions"@.len() == 12);
            assert("classId"@ != "gameVersions"@);
            assert("categoryId"@.len() == 10);
            assert("gameVersions"@.len() == 12);
            assert("categoryId"@ != "gameVersions"@);
            assert("categoryIds"@.len() == 11);
            assert("gameVersions"@.len() == 12);
            assert("categoryIds"@ != "gameVersions"@);
            assert("gameVersion"@.len() == 11);
            assert("gameVersions"@.len() == 12);
            assert("gameVersion"@ != "gameVersions"@);
            reveal_with_fuel(crate::json::obj_get, 18);
        }
        assert(crate::json::obj_get(o, "searchFilter"@) == Option::Some((match x.search_filter { Option::Some(v) => JsonV::Str(v@), Option::None => JsonV::Null }))) by {
            reveal_strlit("gameId");
            reveal_strlit("classId");
            reveal_strlit("categoryId");
            reveal_strlit("categoryIds");
            reveal_strlit("gameVersion");
            reveal_strlit("gameVersions");
            reveal_strlit("searchFilter");
            assert("gameId"@.len() == 6);
            assert("searchFilter"@.len() == 12);
            assert("gameId"@ != "searchFilter"@);
            assert("classId"@.len() == 7);
            assert("searchFilter"@.len() == 12);
            assert("classId"@ != "searchFilter"@);
            assert("categoryId"@.len() == 10);
            assert("searchFilter"@.len() == 12);
            assert("categoryId"@ != "searchFilter"@);
            assert("categoryIds"@.len() == 11);
            assert("searchFilter"@.len() == 12);
            assert("categoryIds"@ != "searchFilter"@);
            assert("gameVersion"@.len() == 11);
            assert("searchFilter"@.len() == 12);
            assert("gameVersion"@ != "searchFilter"@);
            assert("gameVersions"@[0] == 'g');
            assert("searchFilter"@[0] == 's');
            assert("gameVersions"@ != "searchFilter"@);
            reveal_with_fuel(crate::json::obj_get, 18);
        }
        assert(crate::json::obj_get(o, "sortField"@) == Option::Some((match x.sort_field { Option::Some(v) => JsonV::Int(v.code()), Option::None => JsonV::Null }))) by {
            reveal_strlit("gameId");
            reveal_strlit("classId");
            reveal_strlit("categoryId");
            reveal_strlit("categoryIds");
            reveal_strlit("gameVersion");
            reveal_strlit("gameVersions");
            reveal_strlit("searchFilter");
            reveal_strlit("sortField");
            assert("gameId"@.len() == 6);
            assert("sortField"@.len() == 9);
            assert("gameId"@ != "sortField"@);
            assert("classId"@.len() == 7);
            assert("sortField"@.len() == 9);
            assert("classId"@ != "sortField"@);
            assert("categoryId"@.len() == 10);
            assert("sortField"@.len() == 9);
            assert("categoryId"@ != "sortField"@);
            assert("categoryIds"@.len() == 11);
            assert("sortField"@.len() == 9);
            assert("categoryIds"@ != "sortField"@);
            assert("gameVersion"@.len() == 11);
            assert("sortField"@.len() == 9);
            assert("gameVersion"@ != "sortField"@);
            assert("gameVersions"@.len() == 12);
            assert("sortField"@.len() == 9);
            assert("gameVersions"@ != "sortField"@);
            assert("searchFilter"@.len() == 12);
            assert("sortField"@.len() == 9);
            assert("searchFilter"@ != "sortField"@);
            reveal_with_fuel(crate::json::obj_get, 18);
        }
        assert(crate::json::obj_get(o, "sortOrder"@) == Option::Some((match x.sort_order { Option::Some(v) => JsonV::Str(v.rep()), Option::None => JsonV::Null }))) by {
            reveal_strlit("gameId");
            reveal_strlit("classId");
            reveal_strlit("categoryId");
            reveal_strlit("categoryIds");
            reveal_strlit("gameVersion");
            reveal_strlit("gameVersions");
            reveal_strlit("searchFilter");
            reveal_strlit("sortField");
            reveal_strlit("sortOrder");
            assert("gameId"@.len() == 6);
            assert("sortOrder"@.len() == 9);
            assert("gameId"@ != "sortOrder"@);
            assert("classId"@.len() == 7);
            assert("sortOrder"@.len() == 9);
            assert("classId"@ != "sortOrder"@);
            assert("categoryId"@.len() == 10);
            assert("sortOrder"@.len() == 9);
            assert("categoryId"@ != "sortOrder"@);
            assert("categoryIds"@.len() == 11);
            assert("sortOrder"@.len() == 9);
            assert("categoryIds"@ != "sortOrder"@);
            assert("gameVersion"@.len() == 11);
            assert("sortOrder"@.len() == 9);
            assert("gameVersion"@ != "sortOrder"@);
            assert("gameVersions"@.len() == 12);
            assert("sortOrder"@.len() == 9);
            assert("gameVersions"@ != "sortOrder"@);
            assert("searchFilter"@.len() == 12);
            assert("sortOrder"@.len() == 9);
            assert("searchFilter"@ != "sortOrder"@);
            assert("sortField"@[4] == 'F');
            assert("sortOrder"@[4] == 'O');
            assert("sortField"@ != "sortOrder"@);
            reveal_with_fuel(crate::json::obj_get, 18);
        }
        assert(crate::json::obj_get(o, "modLoaderType"@) == Option::Some((match x.mod_loader_type { Option::Some(v) => JsonV::Int(v.code()), Option::None => JsonV::Null }))) by {
            reveal_strlit("gameId");
            reveal_strlit("classId");
            reveal_strlit("categoryId");
            reveal_strlit("categoryIds");
            reveal_strlit("gameVersion");
            reveal_strlit("gameVersions");
            reveal_strlit("searchFilter");
            reveal_strlit("sortField");
            reveal_strlit("sortOrder");
            reveal_strlit("modLoaderType");
            assert("gameId"@.len() == 6);
            assert("modLoaderType"@.len() == 13);
            assert("gameId"@ != "modLoaderType"@);
            assert("classId"@.len() == 7);
            assert("modLoaderType"@.len() == 13);
            assert("classId"@ != "modLoaderType"@);
            assert("categoryId"@.len() == 10);
            assert("modLoaderType"@.len() == 13);
            assert("categoryId"@ != "modLoaderType"@);
            assert("categoryIds"@.len() == 11);
            assert("modLoaderType"@.len() == 13);
            assert("categoryIds"@ != "modLoaderType"@);
            assert("gameVersion"@.len() == 11);
            assert("modLoaderType"@.len() == 13);
            assert("gameVersion"@ != "modLoaderType"@);
            assert("gameVersions"@.len() == 12);
            assert("modLoaderType"@.len() == 13);
            assert("gameVersions"@ != "modLoaderType"@);
            assert("searchFilter"@.len() == 12);
            assert("modLoaderType"@.len() == 13);
            assert("searchFilter"@ != "modLoaderType"@);
            assert("sortField"@.len() == 9);
            assert("modLoaderType"@.len() == 13);
            assert("sortField"@ != "modLoaderType"@);
            assert("sortOrder"@.len() == 9);
            assert("modLoaderType"@.len() == 13);
            assert("sortOrder"@ != "modLoaderType"@);
            reveal_with_fuel(crate::json::obj_get, 18);
        }
        assert(crate::json::obj_get(o, "modLoaderTypes"@) == Option::Some((match x.mod_loader_types { Option::Some(v) => JsonV::Str(v@), Option::None => JsonV::Null }))) by {
            reveal_strlit("gameId");
            reveal_strlit("classId");
            reveal_strlit("categoryId");
            reveal_strlit("categoryIds");
            reveal_strlit("gameVersion");
            reveal_strlit("gameVersions");
            reveal_strlit("searchFilter");
            reveal_strlit("sortField");
            reveal_strlit("sortOrder");
            reveal_strlit("modLoaderType");
            reveal_strlit("modLoaderTypes");
            assert("gameId"@.len() == 6);
            assert("modLoaderTypes"@.len() == 14);
            assert("gameId"@ != "modLoaderTypes"@);
            assert("classId"@.len() == 7);
            assert("modLoaderTypes"@.len() == 14);
            assert("classId"@ != "modLoaderTypes"@);
            assert("categoryId"@.len() == 10);
            assert("modLoaderTypes"@.len() == 14);
            assert("categoryId"@ != "modLoaderTypes"@);
            assert("categoryIds"@.len() == 11);
            assert("modLoaderTypes"@.len() == 14);
            assert("categoryIds"@ != "modLoaderTypes"@);
            assert("gameVersion"@.len() == 11);
            assert("modLoaderTypes"@.len() == 14);
            assert("gameVersion"@ != "modLoaderTypes"@);
            assert("gameVersions"@.len() == 12);
            assert("modLoaderTypes"@.len() == 14);
            assert("gameVersions"@ != "modLoaderTypes"@);
            assert("searchFilter"@.len() == 12);
            assert("modLoaderTypes"@.len() == 14);
            assert("searchFilter"@ != "modLoaderTypes"@);
            assert("sortField"@.len() == 9);
            assert("modLoaderTypes"@.len() == 14);
            assert("sortField"@ != "modLoaderTypes"@);
            assert("sortOrder"@.len() == 9);
            assert("modLoaderTypes"@.len() == 14);
            assert("sortOrder"@ != "modLoaderTypes"@);
            assert("modLoaderType"@.len() == 13);
            assert("modLoaderTypes"@.len() == 14);
            assert("modLoaderType"@ != "modLoaderTypes"@);
            reveal_with_fuel(crate::json::obj_get, 18);
        }
        assert(crate::json::obj_get(o, "gameVersionTypeId"@) == Option::Some((match x.game_version_type_id { Option::Some(v) => JsonV::Int(v as int), Option::None => JsonV::Null }))) by {
            reveal_strlit("gameId");
            reveal_strlit("classId");
            reveal_strlit("categoryId");
            reveal_strlit("categoryIds");
            reveal_strlit("gameVersion");
            reveal_strlit("gameVersions");
            reveal_strlit("searchFilter");
            reveal_strlit("sortField");
            reveal_strlit("sortOrder");
            reveal_strlit("modLoaderType");
            reveal_strlit("modLoaderTypes");
            reveal_strlit("gameVersionTypeId");
            assert("gameId"@.len() == 6);
            assert("gameVersionTypeId"@.len() == 17);
            assert("gameId"@ != "gameVersionTypeId"@);
            assert("classId"@.len() == 7);
            assert("gameVersionTypeId"@.len() == 17);
            assert("classId"@ != "gameVersionTypeId"@);
            assert("categoryId"@.len() == 10);
            assert("gameVersionTypeId"@.len() == 17);
            assert("categoryId"@ != "gameVersionTypeId"@);
            assert("categoryIds"@.len() == 11);
            assert("gameVersionTypeId"@.len() == 17);
            assert("categoryIds"@ != "gameVersionTypeId"@);
            assert("gameVersion"@.len() == 11);
            assert("gameVersionTypeId"@.len() == 17);
            assert("gameVersion"@ != "gameVersionTypeId"@);
            assert("gameVersions"@.len() == 12);
            assert("gameVersionTypeId"@.len() == 17);
            assert("gameVersions"@ != "gameVersionTypeId"@);
            assert("searchFilter"@.len() == 12);
            assert("gameVersionTypeId"@.len() == 17);
            assert("searchFilter"@ != "gameVersionTypeId"@);
            assert("sortField"@.len() == 9);
            assert("gameVersionTypeId"@.len() == 17);
            assert("sortField"@ != "gameVersionTypeId"@);
            assert("sortOrder"@.len() == 9);
            assert("gameVersionTypeId"@.len() == 17);
            assert("sortOrder"@ != "gameVersionTypeId"@);
            assert("modLoaderType"@.len() == 13);
            assert("gameVersionTypeId"@.len() == 17);
            assert("modLoaderType"@ != "gameVersionTypeId"@);
            assert("modLoaderTypes"@.len() == 14);
            assert("gameVersionTypeId"@.len() == 17);
            assert("modLoaderTypes"@ != "gameVersionTypeId"@);
            reveal_with_fuel(crate::json::obj_get, 18);
        }
        assert(crate::json::obj_get(o, "authorId"@) == Option::Some((match x.author_id { Option::Some(v) => JsonV::Int(v as int), Option::None => JsonV::Null }))) by {
            reveal_strlit("gameId");
            reveal_strlit("classId");
            reveal_strlit("categoryId");
            reveal_strlit("categoryIds");
            reveal_strlit("gameVersion");
            reveal_strlit("gameVersions");
            reveal_strlit("searchFilter");
            reveal_strlit("sortField");
            reveal_strlit("sortOrder");
            reveal_strlit("modLoaderType");
            reveal_strlit("modLoaderTypes");
            reveal_strlit("gameVersionTypeId");
            reveal_strlit("authorId");
            assert("gameId"@.len() == 6);
            assert("authorId"@.len() == 8);
            assert("gameId"@ != "authorId"@);
            assert("classId"@.len() == 7);
            assert("authorId"@.len() == 8);
            assert("classId"@ != "authorId"@);
            assert("categoryId"@.len() == 10);
            assert("authorId"@.len() == 8);
            assert("categoryId"@ != "authorId"@);
            assert("categoryIds"@.len() == 11);
            assert("authorId"@.len() == 8);
            assert("categoryIds"@ != "authorId"@);
            assert("gameVersion"@.len() == 11);
            assert("authorId"@.len() == 8);
            assert("gameVersion"@ != "authorId"@);
            assert("gameVersions"@.len() == 12);
            assert("authorId"@.len() == 8);
            assert("gameVersions"@ != "authorId"@);
            assert("searchFilter"@.len() == 12);
            assert("authorId"@.len() == 8);
            assert("searchFilter"@ != "authorId"@);
            assert("sortField"@.len() == 9);
            assert("authorId"@.len() == 8);
            assert("sortField"@ != "authorId"@);
            assert("sortOrder"@.len() == 9);
            assert("authorId"@.len() == 8);
            assert("sortOrder"@ != "authorId"@);
            assert("modLoaderType"@.len() == 13);
            assert("authorId"@.len() == 8);
            assert("modLoaderType"@ != "authorId"@);
            assert("modLoaderTypes"@.len() == 14);
            assert("authorId"@.len() == 8);
            assert("modLoaderTypes"@ != "authorId"@);
            assert("gameVersionTypeId"@.len() == 17);
            assert("authorId"@.len() == 8);
            assert("gameVersionTypeId"@ != "authorId"@);
            reveal_with_fuel(crate::json::obj_get, 18);
        }
        assert(crate::json::obj_get(o, "primaryAuthorId"@) == Option::Some((match x.primary_author_id { Option::Some(v) => JsonV::Int(v as int), Option::None => JsonV::Null }))) by {
            reveal_strlit("gameId");
            reveal_strlit("classId");
            reveal_strlit("categoryId");
            reveal_strlit("categoryIds");
            reveal_strlit("gameVersion");
            reveal_strlit("gameVersions");
            reveal_strlit("searchFilter");
            reveal_strlit("sortField");
            reveal_strlit("sortOrder");
            reveal_strlit("modLoaderType");
            reveal_strlit("modLoaderTypes");
            reveal_strlit("gameVersionTypeId");
            reveal_strlit("authorId");
            reveal_strlit("primaryAuthorId");
            assert("gameId"@.len() == 6);
            assert("primaryAuthorId"@.len() == 15);
            assert("gameId"@ != "primaryAuthorId"@);
            assert("classId"@.len() == 7);
            assert("primaryAuthorId"@.len() == 15);
            assert("classId"@ != "primaryAuthorId"@);
            assert("categoryId"@.len() == 10);
            assert("primaryAuthorId"@.len() == 15);
            assert("categoryId"@ != "primaryAuthorId"@);
            assert("categoryIds"@.len() == 11);
            assert("primaryAuthorId"@.len() == 15);
            assert("categoryIds"@ != "primaryAuthorId"@);
            assert("gameVersion"@.len() == 11);
            assert("primaryAuthorId"@.len() == 15);
            assert("gameVersion"@ != "primaryAuthorId"@);
            assert("gameVersions"@.len() == 12);
            assert("primaryAuthorId"@.len() == 15);
            assert("gameVersions"@ != "primaryAuthorId"@);
            assert("searchFilter"@.len() == 12);
            assert("primaryAuthorId"@.len() == 15);
            assert("searchFilter"@ != "primaryAuthorId"@);
            assert("sortField"@.len() == 9);
            assert("primaryAuthorId"@.len() == 15);
            assert("sortField"@ != "primaryAuthorId"@);
            assert("sortOrder"@.len() == 9);
            assert("primaryAuthorId"@.len() == 15);
            assert("sortOrder"@ != "primaryAuthorId"@);
            assert("modLoaderType"@.len() == 13);
            assert("primaryAuthorId"@.len() == 15);
            assert("modLoaderType"@ != "primaryAuthorId"@);
            assert("modLoaderTypes"@.len() == 14);
            assert("primaryAuthorId"@.len() == 15);
            assert("modLoaderTypes"@ != "primaryAuthorId"@);
            assert("gameVersionTypeId"@.len() == 17);
            assert("primaryAuthorId"@.len() == 15);
            assert("gameVersionTypeId"@ != "primaryAuthorId"@);
            assert("authorId"@.len() == 8);
            assert("primaryAuthorId"@.len() == 15);
            assert("authorId"@ != "primaryAuthorId"@);
            reveal_with_fuel(crate::json::obj_get, 18);
        }
        assert(crate::json::obj_get(o, "slug"@) == Option::Some((match x.slug { Option::Some(v) => JsonV::Str(v@), Option::None => JsonV::Null }))) by {
            reveal_strlit("gameId");
            reveal_strlit("classId");
            reveal_strlit("categoryId");
            reveal_strlit("categoryIds");
            reveal_strlit("gameVersion");
            reveal_strlit("gameVersions");
            reveal_strlit("searchFilter");
            reveal_strlit("sortField");
            reveal_strlit("sortOrder");
            reveal_strlit("modLoaderType");
            reveal_strlit("modLoaderTypes");
            reveal_strlit("gameVersionTypeId");
            reveal_strlit("authorId");
            reveal_strlit("primaryAuthorId");
            reveal_strlit("slug");
            assert("gameId"@.len() == 6);
            assert("slug"@.len() == 4);
            assert("gameId"@ != "slug"@);
            assert("classId"@.len() == 7);
            assert("slug"@.len() == 4);
            assert("classId"@ != "slug"@);
            assert("categoryId"@.len() == 10);
            assert("slug"@.len() == 4);
            assert("categoryId"@ != "slug"@);
            assert("categoryIds"@.len() == 11);
            assert("slug"@.len() == 4);
            assert("categoryIds"@ != "slug"@);
            assert("gameVersion"@.len() == 11);
            assert("slug"@.len() == 4);
            assert("gameVersion"@ != "slug"@);
            assert("gameVersions"@.len() == 12);
            assert("slug"@.len() == 4);
            assert("gameVersions"@ != "slug"@);
            assert("searchFilter"@.len() == 12);
            assert("slug"@.len() == 4);
            assert("searchFilter"@ != "slug"@);
            assert("sortField"@.len() == 9);
            assert("slug"@.len() == 4);
            assert("sortField"@ != "slug"@);
            assert("sortOrder"@.len() == 9);
            assert("slug"@.len() == 4);
            assert("sortOrder"@ != "slug"@);
            assert("modLoaderType"@.len() == 13);
            assert("slug"@.len() == 4);
            assert("modLoaderType"@ != "slug"@);
            assert("modLoaderTypes"@.len() == 14);
            assert("slug"@.len() == 4);
            assert("modLoaderTypes"@ != "slug"@);
            assert("gameVersionTypeId"@.len() == 17);
            assert("slug"@.len() == 4);
            assert("gameVersionTypeId"@ != "slug"@);
            assert("authorId"@.len() == 8);
            assert("slug"@.len() == 4);
            assert("authorId"@ != "slug"@);
            assert("primaryAuthorId"@.len() == 15);
            assert("slug"@.len() == 4);
            assert("primaryAuthorId"@ != "slug"@);
            reveal_with_fuel(crate::json::obj_get, 18);
        }
        assert(crate::json::obj_get(o, "index"@) == Option::Some((match x.index { Option::Some(v) => JsonV::Int(v as int), Option::None => JsonV::Null }))) by {
            reveal_strlit("gameId");
            reveal_strlit("classId");
            reveal_strlit("categoryId");
            reveal_strlit("categoryIds");
            reveal_strlit("gameVersion");
            reveal_strlit("gameVersions");
            reveal_strlit("searchFilter");
            reveal_strlit("sortField");
            reveal_strlit("sortOrder");
            reveal_strlit("modLoaderType");
            reveal_strlit("modLoaderTypes");
            reveal_strlit("gameVersionTypeId");
            reveal_strlit("authorId");
            reveal_strlit("primaryAuthorId");
            reveal_strlit("slug");
            reveal_strlit("index");
            assert("gameId"@.len() == 6);
            assert("index"@.len() == 5);
            assert("gameId"@ != "index"@);
            assert("classId"@.len() == 7);
            assert("index"@.len() == 5);
            assert("classId"@ != "index"@);
            assert("categoryId"@.len() == 10);
            assert("index"@.len() == 5);
            assert("categoryId"@ != "index"@);
            assert("categoryIds"@.len() == 11);
            assert("index"@.len() == 5);
            assert("categoryIds"@ != "index"@);
            assert("gameVersion"@.len() == 11);
            assert("index"@.len() == 5);
            assert("gameVersion"@ != "index"@);
            assert("gameVersions"@.len() == 12);
            assert("index"@.len() == 5);
            assert("gameVersions"@ != "index"@);
            assert("searchFilter"@.len() == 12);
            assert("index"@.len() == 5);
            assert("searchFilter"@ != "index"@);
            assert("sortField"@.len() == 9);
            assert("index"@.len() == 5);
            assert("sortField"@ != "index"@);
            assert("sortOrder"@.len() == 9);
            assert("index"@.len() == 5);
            assert("sortOrder"@ != "index"@);
            assert("modLoaderType"@.len() == 13);
            assert("index"@.len() == 5);
            assert("modLoaderType"@ != "index"@);
            assert("modLoaderTypes"@.len() == 14);
            assert("index"@.len() == 5);
            assert("modLoaderTypes"@ != "index"@);
            assert("gameVersionTypeId"@.len() == 17);
            assert("index"@.len() == 5);
            assert("gameVersionTypeId"@ != "index"@);
            assert("authorId"@.len() == 8);
            assert("index"@.len() == 5);
            assert("authorId"@ != "index"@);
            assert("primaryAuthorId"@.len() == 15);
            assert("index"@.len() == 5);
            assert("primaryAuthorId"@ != "index"@);
            assert("slug"@.len() == 4);
            assert("index"@.len() == 5);
            assert("slug"@ != "index"@);
            reveal_with_fuel(crate::json::obj_get, 18);
        }
        assert(crate::json::obj_get(o, "pageSize"@) == Option::Some((match x.page_size { Option::Some(v) => JsonV::Int(v as int), Option::None => JsonV::Null }))) by {
            reveal_strlit("gameId");
            reveal_strlit("classId");
            reveal_strlit("categoryId");
            reveal_strlit("categoryIds");
            reveal_strlit("gameVersion");
            reveal_strlit("gameVersions");
            reveal_strlit("searchFilter");
            reveal_strlit("sortField");
            reveal_strlit("sortOrder");
            reveal_strlit("modLoaderType");
            reveal_strlit("modLoaderTypes");
            reveal_strlit("gameVersionTypeId");
            reveal_strlit("authorId");
            reveal_strlit("primaryAuthorId");
            reveal_strlit("slug");
            reveal_strlit("index");
            reveal_strlit("pageSize");
            assert("gameId"@.len() == 6);
            assert("pageSize"@.len() == 8);
            assert("gameId"@ != "pageSize"@);
            assert("classId"@.len() == 7);
            assert("pageSize"@.len() == 8);
            assert("classId"@ != "pageSize"@);
            assert("categoryId"@.len() == 10);
            assert("pageSize"@.len() == 8);
            assert("categoryId"@ != "pageSize"@);
            assert("categoryIds"@.len() == 11);
            assert("pageSize"@.len() == 8);
            assert("categoryIds"@ != "pageSize"@);
            assert("gameVersion"@.len() == 11);
            assert("pageSize"@.len() == 8);
            assert("gameVersion"@ != "pageSize"@);
            assert("gameVersions"@.len() == 12);
            assert("pageSize"@.len() == 8);
            assert("gameVersions"@ != "pageSize"@);
            assert("searchFilter"@.len() == 12);
            assert("pageSize"@.len() == 8);
            assert("searchFilter"@ != "pageSize"@);
            assert("sortField"@.len() == 9);
            assert("pageSize"@.len() == 8);
            assert("sortField"@ != "pageSize"@);
            assert("sortOrder"@.len() == 9);
            assert("pageSize"@.len() == 8);
            assert("sortOrder"@ != "pageSize"@);
            assert("modLoaderType"@.len() == 13);
            assert("pageSize"@.len() == 8);
            assert("modLoaderType"@ != "pageSize"@);
            assert("modLoaderTypes"@.len() == 14);
            assert("pageSize"@.len() == 8);
            assert("modLoaderTypes"@ != "pageSize"@);
            assert("gameVersionTypeId"@.len() == 17);
            assert("pageSize"@.len() == 8);
            assert("gameVersionTypeId"@ != "pageSize"@);
            assert("authorId"@[0] == 'a');
            assert("pageSize"@[0] == 'p');
            assert("authorId"@ != "pageSize"@);
            assert("primaryAuthorId"@.len() == 15);
            assert("pageSize"@.len() == 8);
            assert("primaryAuthorId"@ != "pageSize"@);
            assert("slug"@.len() == 4);
            assert("pageSize"@.len() == 8);
            assert("slug"@ != "pageSize"@);
            assert("index"@.len() == 5);
            assert("pageSize"@.len() == 8);
            assert("index"@ != "pageSize"@);
            reveal_with_fuel(crate::json::obj_get, 18);
        }
        match x.sort_field {
            Option::Some(e) => e.lemma_code_inverse(0),
            Option::None => {},
        }
        match x.sort_order {
            Option::Some(e) => e.lemma_rep_inverse(Seq::empty()),
            Option::None => {},
        }
        match x.mod_loader_type {
            Option::Some(e) => e.lemma_code_inverse(0),
            Option::None => {},
        }
    }

    /// Two values that one JSON document decodes to are equal, field for field.
    #[verifier::rlimit(100)]
    #[verifier::spinoff_prover]
    pub proof fn lemma_deterministic(j: JsonV, x: SearchModsParams, y: SearchModsParams)
        requires
            SearchModsParams::decodes_to(j, x),
            SearchModsParams::decodes_to(j, y),
        ensures
            y.game_id == x.game_id,
            y.class_id == x.class_id,
            y.category_id == x.category_id,
            crate::fields::view_opt_str(y.category_ids) == crate::fields::view_opt_str(x.category_ids),
            crate::fields::view_opt_str(y.game_version) == crate::fields::view_opt_str(x.game_version),
            crate::fields::view_opt_str(y.game_versions) == crate::fields::view_opt_str(x.game_versions),
            crate::fields::view_opt_str(y.search_filter) == crate::fields::view_opt_str(x.search_filter),
            y.sort_field == x.sort_field,
            y.sort_order == x.sort_order,
            y.mod_loader_type == x.mod_loader_type,
            crate::fields::view_opt_str(y.mod_loader_types) == crate::fields::view_opt_str(x.mod_loader_types),
            y.game_version_type_id == x.game_version_type_id,
            y.author_id == x.author_id,
            y.primary_author_id == x.primary_author_id,
            crate::fields::view_opt_str(y.slug) == crate::fields::view_opt_str(x.slug),
            y.index == x.index,
            y.page_size == x.page_size,
    {
        let o = j->Obj_0;
    }
}

/// The filters of a mod's file listing.
#[derive(Debug, Clone)]
pub struct GetModFilesParams {
    pub game_version: Option<String>,
    pub mod_loader_type: Option<ModLoaderType>,
    pub game_version_type_id: Option<i32>,
    pub index: Option<i32>,
    pub page_size: Option<i32>,
}

impl GetModFilesParams {
    /// The JSON document of this value, member for member.
    pub open spec fn jv(self) -> JsonV {
        JsonV::Obj(seq![
            ("gameVersion"@, (match self.game_version { Option::Some(v) => JsonV::Str(v@), Option::None => JsonV::Null })),
            ("modLoaderType"@, (match self.mod_loader_type { Option::Some(v) => JsonV::Int(v.code()), Option::None => JsonV::Null })),
            ("gameVersionTypeId"@, (match self.game_version_type_id { Option::Some(v) => JsonV::Int(v as int), Option::None => JsonV::Null })),
            ("index"@, (match self.index { Option::Some(v) => JsonV::Int(v as int), Option::None => JsonV::Null })),
            ("pageSize"@, (match self.page_size { Option::Some(v) => JsonV::Int(v as int), Option::None => JsonV::Null })),
        ])
    }

    /// What it means for a JSON document to decode to this value.
    pub open spec fn decodes_to(j: JsonV, x: GetModFilesParams) -> bool {
        &&& j matches JsonV::Obj(o)
        &&& crate::fields::jv_opt_str(o, "gameVersion"@) == Option::Some(crate::fields::view_opt_str(x.game_version))
        &&& ModLoaderType::opt_from_member(o, "modLoaderType"@) == Option::Some(x.mod_loader_type)
        &&& crate::fields::jv_opt_i32(o, "gameVersionTypeId"@) == Option::Some(x.game_version_type_id)
        &&& crate::fields::jv_opt_i32(o, "index"@) == Option::Some(x.index)
        &&& crate::fields::jv_opt_i32(o, "pageSize"@) == Option::Some(x.page_size)
    }

    pub fn to_json(&self) -> (r: Json)
        ensures
            r@ == self.jv(),
    {
        let mut m = JsonMembers::Nil;
        m = crate::fields::cons_member("pageSize", crate::fields::opt_i32_json(&self.page_size), m);
        m = crate::fields::cons_member("index", crate::fields::opt_i32_json(&self.index), m);
        m = crate::fields::cons_member("gameVersionTypeId", crate::fields::opt_i32_json(&self.game_version_type_id), m);
        let e_mod_loader_type: Json = match self.mod_loader_type {
            Option::Some(v) => Json::Int(v.to_code()),
            Option::None => Json::Null,
        };
        proof {
            assert(e_mod_loader_type@ == (match self.mod_loader_type { Option::Some(v) => JsonV::Int(v.code()), Option::None => JsonV::Null }));
        }
        m = crate::fields::cons_member("modLoaderType", e_mod_loader_type, m);
        m = crate::fields::cons_member("gameVersion", crate::fields::opt_str_json(&self.game_version), m);
        let ghost m_v = m@;
        let r = Json::Obj(Box::new(m));
        proof {
            assert(r matches Json::Obj(o2) && crate::json::members_view(*o2) == m_v);
            assert(r@ == JsonV::Obj(m_v));
            assert(m_v.len() == 5);
            assert(m_v[0] =~~= ("gameVersion"@, (match self.game_version { Option::Some(v) => JsonV::Str(v@), Option::None => JsonV::Null })));
            assert(m_v[1] =~~= ("modLoaderType"@, (match self.mod_loader_type { Option::Some(v) => JsonV::Int(v.code()), Option::None => JsonV::Null })));
            assert(m_v[2] =~~= ("gameVersionTypeId"@, (match self.game_version_type_id { Option::Some(v) => JsonV::Int(v as int), Option::None => JsonV::Null })));
            assert(m_v[3] =~~= ("index"@, (match self.index { Option::Some(v) => JsonV::Int(v as int), Option::None => JsonV::Null })));
            assert(m_v[4] =~~= ("pageSize"@, (match self.page_size { Option::Some(v) => JsonV::Int(v as int), Option::None => JsonV::Null })));
            assert(m_v =~~= self.jv()->Obj_0);
            assert(r@ =~~= self.jv());
        }
        r
    }

    pub fn from_json(j: &Json) -> (r: Option<GetModFilesParams>)
        ensures
            r matches Option::Some(x) ==> GetModFilesParams::decodes_to(j@, x),
            r is None ==> forall|x: GetModFilesParams| !GetModFilesParams::decodes_to(j@, x),
    {
        match j {
            Json::Obj(m) => {
            let game_version = match crate::fields::get_opt_str(m, "gameVersion") {
                Option::Some(v) => v,
                Option::None => {
                    return Option::None;
                },
            };
            let mod_loader_type = match ModLoaderType::get_opt_member(m, "modLoaderType") {
                Option::Some(v) => v,
                Option::None => {
                    return Option::None;
                },
            };
            let game_version_type_id = match crate::fields::get_opt_i32(m, "gameVersionTypeId") {
                Option::Some(v) => v,
                Option::None => {
                    return Option::None;
                },
            };
            let index = match crate::fields::get_opt_i32(m, "index") {
                Option::Some(v) => v,
                Option::None => {
                    return Option::None;
                },
            };
            let page_size = match crate::fields::get_opt_i32(m, "pageSize") {
                Option::Some(v) => v,
                Option::None => {
                    return Option::None;
                },
            };
                Option::Some(GetModFilesParams {
                    game_version,
                    mod_loader_type,
                    game_version_type_id,
                    index,
                    page_size,
                })
            },
            _ => Option::None,
        }
    }



    /// The JSON document of a value decodes back to it.
    pub proof fn lemma_decodes_self(x: GetModFilesParams)
        ensures
            GetModFilesParams::decodes_to(x.jv(), x),
    {
        let o = x.jv()->Obj_0;
        assert(crate::json::obj_get(o, "gameVersion"@) == Option::Some((match x.game_version { Option::Some(v) => JsonV::Str(v@), Option::None => JsonV::Null }))) by {
            reveal_strlit("gameVersion");
            reveal_with_fuel(crate::json::obj_get, 6);
        }
        assert(crate::json::obj_get(o, "modLoaderType"@) == Option::Some((match x.mod_loader_type { Option::Some(v) => JsonV::Int(v.code()), Option::None => JsonV::Null }))) by {
            reveal_strlit("gameVersion");
            reveal_strlit("modLoaderType");
            assert("gameVersion"@.len() == 11);
            assert("modLoaderType"@.len() == 13);
            assert("gameVersion"@ != "modLoaderType"@);
            reveal_with_fuel(crate::json::obj_get, 6);
        }
        assert(crate::json::obj_get(o, "gameVersionTypeId"@) == Option::Some((match x.game_version_type_id { Option::Some(v) => JsonV::Int(v as int), Option::None => JsonV::Null }))) by {
            reveal_strlit("gameVersion");
            reveal_strlit("modLoaderType");
            reveal_strlit("gameVersionTypeId");
            assert("gameVersion"@.len() == 11);
            assert("gameVersionTypeId"@.len() == 17);
            assert("gameVersion"@ != "gameVersionTypeId"@);
            assert("modLoaderType"@.len() == 13);
            assert("gameVersionTypeId"@.len() == 17);
            assert("modLoaderType"@ != "gameVersionTypeId"@);
            reveal_with_fuel(crate::json::obj_get, 6);
        }
        assert(crate::json::obj_get(o, "index"@) == Option::Some((match x.index { Option::Some(v) => JsonV::Int(v as int), Option::None => JsonV::Null }))) by {
            reveal_strlit("gameVersion");
            reveal_strlit("modLoaderType");
            reveal_strlit("gameVersionTypeId");
            reveal_strlit("index");
            assert("gameVersion"@.len() == 11);
            assert("index"@.len() == 5);
            assert("gameVersion"@ != "index"@);
            assert("modLoaderType"@.len() == 13);
            assert("index"@.len() == 5);
            assert("modLoaderType"@ != "index"@);
            assert("gameVersionTypeId"@.len() == 17);
            assert("index"@.len() == 5);
            assert("gameVersionTypeId"@ != "index"@);
            reveal_with_fuel(crate::json::obj_get, 6);
        }
        assert(crate::json::obj_get(o, "pageSize"@) == Option::Some((match x.page_size { Option::Some(v) => JsonV::Int(v as int), Option::None => JsonV::Null }))) by {
            reveal_strlit("gameVersion");
            reveal_strlit("modLoaderType");
            reveal_strlit("gameVersionTypeId");
            reveal_strlit("index");
            reveal_strlit("pageSize");
            assert("gameVersion"@.len() == 11);
            assert("pageSize"@.len() == 8);
            assert("gameVersion"@ != "pageSize"@);
            assert("modLoaderType"@.len() == 13);
            assert("pageSize"@.len() == 8);
            assert("modLoaderType"@ != "pageSize"@);
            assert("gameVersionTypeId"@.len() == 17);
            assert("pageSize"@.len() == 8);
            assert("gameVersionTypeId"@ != "pageSize"@);
            assert("index"@.len() == 5);
            assert("pageSize"@.len() == 8);
            assert("index"@ != "pageSize"@);
            reveal_with_fuel(crate::json::obj_get, 6);
        }
        match x.mod_loader_type {
            Option::Some(e) => e.lemma_code_inverse(0),
            Option::None => {},
        }
    }

    /// Two values that one JSON document decodes to are equal, field for field.
    pub proof fn lemma_deterministic(j: JsonV, x: GetModFilesParams, y: GetModFilesParams)
        requires
            GetModFilesParams::decodes_to(j, x),
            GetModFilesParams::decodes_to(j, y),
        ensures
            crate::fields::view_opt_str(y.game_version) == crate::fields::view_opt_str(x.game_version),
            y.mod_loader_type == x.mod_loader_type,
            y.game_version_type_id == x.game_version_type_id,
            y.index == x.index,
            y.page_size == x.page_size,
    {
        let o = j->Obj_0;
    }
}

/// The rendering switches of the description endpoint.
#[derive(Debug, Clone)]
pub struct GetModDescriptionParams {
    pub raw: Option<bool>,
    pub stripped: Option<bool>,
    pub markup: Option<bool>,
}

impl GetModDescriptionParams {
    /// The JSON document of this value, member for member.
    pub open spec fn jv(self) -> JsonV {
        JsonV::Obj(seq![
            ("raw"@, (match self.raw { Option::Some(v) => JsonV::Bool(v), Option::None => JsonV::Null })),
            ("stripped"@, (match self.stripped { Option::Some(v) => JsonV::Bool(v), Option::None => JsonV::Null })),
            ("markup"@, (match self.markup { Option::Some(v) => JsonV::Bool(v), Option::None => JsonV::Null })),
        ])
    }

    /// What it means for a JSON document to decode to this value.
    pub open spec fn decodes_to(j: JsonV, x: GetModDescriptionParams) -> bool {
        &&& j matches JsonV::Obj(o)
        &&& crate::fields::jv_opt_bool(o, "raw"@) == Option::Some(x.raw)
        &&& crate::fields::jv_opt_bool(o, "stripped"@) == Option::Some(x.stripped)
        &&& crate::fields::jv_opt_bool(o, "markup"@) == Option::Some(x.markup)
    }

    pub fn to_json(&self) -> (r: Json)
        ensures
            r@ == self.jv(),
    {
        let mut m = JsonMembers::Nil;
        m = crate::fields::cons_member("markup", crate::fields::opt_bool_json(&self.markup), m);
        m = crate::fields::cons_member("stripped", crate::fields::opt_bool_json(&self.stripped), m);
        m = crate::fields::cons_member("raw", crate::fields::opt_bool_json(&self.raw), m);
        let ghost m_v = m@;
        let r = Json::Obj(Box::new(m));
        proof {
            assert(r matches Json::Obj(o2) && crate::json::members_view(*o2) == m_v);
            assert(r@ == JsonV::Obj(m_v));
            assert(m_v.len() == 3);
            assert(m_v[0] =~~= ("raw"@, (match self.raw { Option::Some(v) => JsonV::Bool(v), Option::None => JsonV::Null })));
            assert(m_v[1] =~~= ("stripped"@, (match self.stripped { Option::Some(v) => JsonV::Bool(v), Option::None => JsonV::Null })));
            assert(m_v[2] =~~= ("markup"@, (match self.markup { Option::Some(v) => JsonV::Bool(v), Option::None => JsonV::Null })));
            assert(m_v =~~= self.jv()->Obj_0);
            assert(r@ =~~= self.jv());
        }
        r
    }

    pub fn from_json(j: &Json) -> (r: Option<GetModDescriptionParams>)
        ensures
            r matches Option::Some(x) ==> GetModDescriptionParams::decodes_to(j@, x),
            r is None ==> forall|x: GetModDescriptionParams| !GetModDescriptionParams::decodes_to(j@, x),
    {
        match j {
            Json::Obj(m) => {
            let raw = match crate::fields::get_opt_bool(m, "raw") {
                Option::Some(v) => v,
                Option::None => {
                    return Option::None;
                },
            };
            let stripped = match crate::fields::get_opt_bool(m, "stripped") {
                Option::Some(v) => v,
                Option::None => {
                    return Option::None;
                },
            };
            let markup = match crate::fields::get_opt_bool(m, "markup") {
                Option::Some(v) => v,
                Option::None => {
                    return Option::None;
                },
            };
                Option::Some(GetModDescriptionParams {
                    raw,
                    stripped,
                    markup,
                })
            },
            _ => Option::None,
        }
    }



    /// The JSON document of a value decodes back to it.
    pub proof fn lemma_decodes_self(x: GetModDescriptionParams)
        ensures
            GetModDescriptionParams::decodes_to(x.jv(), x),
    {
        let o = x.jv()->Obj_0;
        assert(crate::json::obj_get(o, "raw"@) == Option::Some((match x.raw { Option::Some(v) => JsonV::Bool(v), Option::None => JsonV::Null }))) by {
            reveal_strlit("raw");
            reveal_with_fuel(crate::json::obj_get, 4);
        }
        assert(crate::json::obj_get(o, "stripped"@) == Option::Some((match x.stripped { Option::Some(v) => JsonV::Bool(v), Option::None => JsonV::Null }))) by {
            reveal_strlit("raw");
            reveal_strlit("stripped");
            assert("raw"@.len() == 3);
            assert("stripped"@.len() == 8);
            assert("raw"@ != "stripped"@);
            reveal_with_fuel(crate::json::obj_get, 4);
        }
        assert(crate::json::obj_get(o, "markup"@) == Option::Some((match x.markup { Option::Some(v) => JsonV::Bool(v), Option::None => JsonV::Null }))) by {
            reveal_strlit("raw");
            reveal_strlit("stripped");
            reveal_strlit("markup");
            assert("raw"@.len() == 3);
            assert("markup"@.len() == 6);
            assert("raw"@ != "markup"@);
            assert("stripped"@.len() == 8);
            assert("markup"@.len() == 6);
            assert("stripped"@ != "markup"@);
            reveal_with_fuel(crate::json::obj_get, 4);
        }
    }

    /// Two values that one JSON document decodes to are equal, field for field.
    pub proof fn lemma_deterministic(j: JsonV, x: GetModDescriptionParams, y: GetModDescriptionParams)
        requires
            GetModDescriptionParams::decodes_to(j, x),
            GetModDescriptionParams::decodes_to(j, y),
        ensures
            y.raw == x.raw,
            y.stripped == x.stripped,
            y.markup == x.markup,
    {
        let o = j->Obj_0;
    }
}

/// The ordering switch of the Minecraft version listing.
#[derive(Debug, Clone)]
pub struct GetMinecraftVersionsParams {
    pub sort_descending: Option<bool>,
}

impl GetMinecraftVersionsParams {
    /// The JSON document of this value, member for member.
    pub open spec fn jv(self) -> JsonV {
        JsonV::Obj(seq![
            ("sortDescending"@, (match self.sort_descending { Option::Some(v) => JsonV::Bool(v), Option::None => JsonV::Null })),
        ])
    }

    /// What it means for a JSON document to decode to this value.
    pub open spec fn decodes_to(j: JsonV, x: GetMinecraftVersionsParams) -> bool {
        &&& j matches JsonV::Obj(o)
        &&& crate::fields::jv_opt_bool(o, "sortDescending"@) == Option::Some(x.sort_descending)
    }

    pub fn to_json(&self) -> (r: Json)
        ensures
            r@ == self.jv(),
    {
        let mut m = JsonMembers::Nil;
        m = crate::fields::cons_member("sortDescending", crate::fields::opt_bool_json(&self.sort_descending), m);
        let ghost m_v = m@;
        let r = Json::Obj(Box::new(m));
        proof {
            assert(r matches Json::Obj(o2) && crate::json::members_view(*o2) == m_v);
            assert(r@ == JsonV::Obj(m_v));
            assert(m_v.len() == 1);
            assert(m_v[0] =~~= ("sortDescending"@, (match self.sort_descending { Option::Some(v) => JsonV::Bool(v), Option::None => JsonV::Null })));
            assert(m_v =~~= self.jv()->Obj_0);
            assert(r@ =~~= self.jv());
        }
        r
    }

    pub fn from_json(j: &Json) -> (r: Option<GetMinecraftVersionsParams>)
        ensures
            r matches Option::Some(x) ==> GetMinecraftVersionsParams::decodes_to(j@, x),
            r is None ==> forall|x: GetMinecraftVersionsParams| !GetMinecraftVersionsParams::decodes_to(j@, x),
    {
        match j {
            Json::Obj(m) => {
            let sort_descending = match crate::fields::get_opt_bool(m, "sortDescending") {
                Option::Some(v) => v,
                Option::None => {
                    return Option::None;
                },
            };
                Option::Some(GetMinecraftVersionsParams {
                    sort_descending,
                })
            },
            _ => Option::None,
        }
    }



    /// The JSON document of a value decodes back to it.
    pub proof fn lemma_decodes_self(x: GetMinecraftVersionsParams)
        ensures
            GetMinecraftVersionsParams::decodes_to(x.jv(), x),
    {
        let o = x.jv()->Obj_0;
        assert(crate::json::obj_get(o, "sortDescending"@) == Option::Some((match x.sort_descending { Option::Some(v) => JsonV::Bool(v), Option::None => JsonV::Null }))) by {
            reveal_strlit("sortDescending");
            reveal_with_fuel(crate::json::obj_get, 2);
        }
    }

    /// Two values that one JSON document decodes to are equal, field for field.
    pub proof fn lemma_deterministic(j: JsonV, x: GetMinecraftVersionsParams, y: GetMinecraftVersionsParams)
        requires
            GetMinecraftVersionsParams::decodes_to(j, x),
            GetMinecraftVersionsParams::decodes_to(j, y),
        ensures
            y.sort_descending == x.sort_descending,
    {
        let o = j->Obj_0;
    }
}

/// The filters of the Minecraft mod-loader listing.
#[derive(Debug, Clone)]
pub struct GetMinecraftModLoadersParams {
    pub version: Option<String>,
    pub include_all: Option<bool>,
}

impl GetMinecraftModLoadersParams {
    /// The JSON document of this value, member for member.
    pub open spec fn jv(self) -> JsonV {
        JsonV::Obj(seq![
            ("version"@, (match self.version { Option::Some(v) => JsonV::Str(v@), Option::None => JsonV::Null })),
            ("includeAll"@, (match self.include_all { Option::Some(v) => JsonV::Bool(v), Option::None => JsonV::Null })),
        ])
    }

    /// What it means for a JSON document to decode to this value.
    pub open spec fn decodes_to(j: JsonV, x: GetMinecraftModLoadersParams) -> bool {
        &&& j matches JsonV::Obj(o)
        &&& crate::fields::jv_opt_str(o, "version"@) == Option::Some(crate::fields::view_opt_str(x.version))
        &&& crate::fields::jv_opt_bool(o, "includeAll"@) == Option::Some(x.include_all)
    }

    pub fn to_json(&self) -> (r: Json)
        ensures
            r@ == self.jv(),
    {
        let mut m = JsonMembers::Nil;
        m = crate::fields::cons_member("includeAll", crate::fields::opt_bool_json(&self.include_all), m);
        m = crate::fields::cons_member("version", crate::fields::opt_str_json(&self.version), m);
        let ghost m_v = m@;
        let r = Json::Obj(Box::new(m));
        proof {
            assert(r matches Json::Obj(o2) && crate::json::members_view(*o2) == m_v);
            assert(r@ == JsonV::Obj(m_v));
            assert(m_v.len() == 2);
            assert(m_v[0] =~~= ("version"@, (match self.version { Option::Some(v) => JsonV::Str(v@), Option::None => JsonV::Null })));
            assert(m_v[1] =~~= ("includeAll"@, (match self.include_all { Option::Some(v) => JsonV::Bool(v), Option::None => JsonV::Null })));
            assert(m_v =~~= self.jv()->Obj_0);
            assert(r@ =~~= self.jv());
        }
        r
    }

    pub fn from_json(j: &Json) -> (r: Option<GetMinecraftModLoadersParams>)
        ensures
            r matches Option::Some(x) ==> GetMinecraftModLoadersParams::decodes_to(j@, x),
            r is None ==> forall|x: GetMinecraftModLoadersParams| !GetMinecraftModLoadersParams::decodes_to(j@, x),
    {
        match j {
            Json::Obj(m) => {
            let version = match crate::fields::get_opt_str(m, "version") {
                Option::Some(v) => v,
                Option::None => {
                    return Option::None;
                },
            };
            let include_all = match crate::fields::get_opt_bool(m, "includeAll") {
                Option::Some(v) => v,
                Option::None => {
                    return Option::None;
                },
            };
                Option::Some(GetMinecraftModLoadersParams {
                    version,
                    include_all,
                })
            },
            _ => Option::None,
        }
    }



    /// The JSON document of a value decodes back to it.
    pub proof fn lemma_decodes_self(x: GetMinecraftModLoadersParams)
        ensures
            GetMinecraftModLoadersParams::decodes_to(x.jv(), x),
    {
        let o = x.jv()->Obj_0;
        assert(crate::json::obj_get(o, "version"@) == Option::Some((match x.version { Option::Some(v) => JsonV::Str(v@), Option::None => JsonV::Null }))) by {
            reveal_strlit("version");
            reveal_with_fuel(crate::json::obj_get, 3);
        }
        assert(crate::json::obj_get(o, "includeAll"@) == Option::Some((match x.include_all { Option::Some(v) => JsonV::Bool(v), Option::None => JsonV::Null }))) by {
            reveal_strlit("version");
            reveal_strlit("includeAll");
            assert("version"@.len() == 7);
            assert("includeAll"@.len() == 10);
            assert("version"@ != "includeAll"@);
            reveal_with_fuel(crate::json::obj_get, 3);
        }
    }

    /// Two values that one JSON document decodes to are equal, field for field.
    pub proof fn lemma_deterministic(j: JsonV, x: GetMinecraftModLoadersParams, y: GetMinecraftModLoadersParams)
        requires
            GetMinecraftModLoadersParams::decodes_to(j, x),
            GetMinecraftModLoadersParams::decodes_to(j, y),
        ensures
            crate::fields::view_opt_str(y.version) == crate::fields::view_opt_str(x.version),
            y.include_all == x.include_all,
    {
        let o = j->Obj_0;
    }
}


// What each configuration object contributes to a query string: one pair
// per set field, under its documented camel-case name; unset fields
// contribute nothing.
impl GetGamesParams {
    /// The key-value pairs of the query string, in field order; unset
    /// fields contribute no pair.
    pub open spec fn query_pairs(self) -> Seq<(Seq<char>, Seq<char>)> {
        kv_opt("index"@, match self.index { Option::Some(v) => Option::Some(int_rep(v as int)), Option::None => Option::None }) + kv_opt("pageSize"@, match self.page_size { Option::Some(v) => Option::Some(int_rep(v as int)), Option::None => Option::None })
    }

    #[verifier::rlimit(100)]
    #[verifier::spinoff_prover]
    pub fn to_query_pairs(&self) -> (r: Vec<(String, String)>)
        ensures
            crate::query::pairs_kv(r@) == self.query_pairs(),
    {
        let mut r: Vec<(String, String)> = Vec::new();
        match &self.index {
            Option::Some(v) => {
                r.push(("index".to_owned(), crate::text::chars_to_string(crate::num::int_chars_i64(*v as i64))));
            },
            Option::None => {},
        }
        proof {
            assert(crate::query::pairs_kv(r@) =~= kv_opt("index"@, match self.index { Option::Some(v) => Option::Some(int_rep(v as int)), Option::None => Option::None }));
        }
        match &self.page_size {
            Option::Some(v) => {
                r.push(("pageSize".to_owned(), crate::text::chars_to_string(crate::num::int_chars_i64(*v as i64))));
            },
            Option::None => {},
        }
        proof {
            assert(crate::query::pairs_kv(r@) =~= kv_opt("index"@, match self.index { Option::Some(v) => Option::Some(int_rep(v as int)), Option::None => Option::None }) + kv_opt("pageSize"@, match self.page_size { Option::Some(v) => Option::Some(int_rep(v as int)), Option::None => Option::None }));
        }
        r
    }
}

impl GetCategoriesParams {
    /// The key-value pairs of the query string, in field order; unset
    /// fields contribute no pair.
    pub open spec fn query_pairs(self) -> Seq<(Seq<char>, Seq<char>)> {
        seq![("gameId"@, int_rep(self.game_id as int))] + kv_opt("classId"@, match self.class_id { Option::Some(v) => Option::Some(int_rep(v as int)), Option::None => Option::None }) + kv_opt("classesOnly"@, match self.classes_only { Option::Some(v) => Option::Some(bool_rep(v)), Option::None => Option::None })
    }

    #[verifier::rlimit(100)]
    #[verifier::spinoff_prover]
    pub fn to_query_pairs(&self) -> (r: Vec<(String, String)>)
        ensures
            crate::query::pairs_kv(r@) == self.query_pairs(),
    {
        let mut r: Vec<(String, String)> = Vec::new();
        r.push(("gameId".to_owned(), crate::text::chars_to_string(crate::num::int_chars_i64(
            self.game_id as i64))));
        proof {
            assert(crate::query::pairs_kv(r@) =~= seq![("gameId"@, int_rep(self.game_id as int))]);
        }
        match &self.class_id {
            Option::Some(v) => {
                r.push(("classId".to_owned(), crate::text::chars_to_string(crate::num::int_chars_i64(*v as i64))));
            },
            Option::None => {},
        }
        proof {
            assert(crate::query::pairs_kv(r@) =~= seq![("gameId"@, int_rep(self.game_id as int))] + kv_opt("classId"@, match self.class_id { Option::Some(v) => Option::Some(int_rep(v as int)), Option::None => Option::None }));
        }
        match &self.classes_only {
            Option::Some(v) => {
                r.push(("classesOnly".to_owned(), crate::query::bool_str(*v).to_owned()));
            },
            Option::None => {},
        }
        proof {
            assert(crate::query::pairs_kv(r@) =~= seq![("gameId"@, int_rep(self.game_id as int))] + kv_opt("classId"@, match self.class_id { Option::Some(v) => Option::Some(int_rep(v as int)), Option::None => Option::None }) + kv_opt("classesOnly"@, match self.classes_only { Option::Some(v) => Option::Some(bool_rep(v)), Option::None => Option::None }));
        }
        r
    }
}

impl SearchModsParams {
    /// The key-value pairs of the query string, in field order; unset
    /// fields contribute no pair.
    pub open spec fn query_pairs(self) -> Seq<(Seq<char>, Seq<char>)> {
        seq![("gameId"@, int_rep(self.game_id as int))] + kv_opt("classId"@, match self.class_id { Option::Some(v) => Option::Some(int_rep(v as int)), Option::None => Option::None }) + kv_opt("categoryId"@, match self.category_id { Option::Some(v) => Option::Some(int_rep(v as int)), Option::None => Option::None }) + kv_opt("categoryIds"@, match self.category_ids { Option::Some(v) => Option::Some(v@), Option::None => Option::None }) + kv_opt("gameVersion"@, match self.game_version { Option::Some(v) => Option::Some(v@), Option::None => Option::None }) + kv_opt("gameVersions"@, match self.game_versions { Option::Some(v) => Option::Some(v@), Option::None => Option::None }) + kv_opt("searchFilter"@, match self.search_filter { Option::Some(v) => Option::Some(v@), Option::None => Option::None }) + kv_opt("sortField"@, match self.sort_field { Option::Some(v) => Option::Some(int_rep(v.code())), Option::None => Option::None }) + kv_opt("sortOrder"@, match self.sort_order { Option::Some(v) => Option::Some(v.rep()), Option::None => Option::None }) + kv_opt("modLoaderType"@, match self.mod_loader_type { Option::Some(v) => Option::Some(int_rep(v.code())), Option::None => Option::None }) + kv_opt("modLoaderTypes"@, match self.mod_loader_types { Option::Some(v) => Option::Some(v@), Option::None => Option::None }) + kv_opt("gameVersionTypeId"@, match self.game_version_type_id { Option::Some(v) => Option::Some(int_rep(v as int)), Option::None => Option::None }) + kv_opt("authorId"@, match self.author_id { Option::Some(v) => Option::Some(int_rep(v as int)), Option::None => Option::None }) + kv_opt("primaryAuthorId"@, match self.primary_author_id { Option::Some(v) => Option::Some(int_rep(v as int)), Option::None => Option::None }) + kv_opt("slug"@, match self.slug { Option::Some(v) => Option::Some(v@), Option::None => Option::None }) + kv_opt("index"@, match self.index { Option::Some(v) => Option::Some(int_rep(v as int)), Option::None => Option::None }) + kv_opt("pageSize"@, match self.page_size { Option::Some(v) => Option::Some(int_rep(v as int)), Option::None => Option::None })
    }

    #[verifier::rlimit(100)]
    #[verifier::spinoff_prover]
    fn qp_part0(&self, r: &mut Vec<(String, String)>)
        ensures
            crate::query::pairs_kv(final(r)@) == crate::query::pairs_kv(old(r)@) + seq![("gameId"@, int_rep(self.game_id as int))] + kv_opt("classId"@, match self.class_id { Option::Some(v) => Option::Some(int_rep(v as int)), Option::None => Option::None }) + kv_opt("categoryId"@, match self.category_id { Option::Some(v) => Option::Some(int_rep(v as int)), Option::None => Option::None }) + kv_opt("categoryIds"@, match self.category_ids { Option::Some(v) => Option::Some(v@), Option::None => Option::None }) + kv_opt("gameVersion"@, match self.game_version { Option::Some(v) => Option::Some(v@), Option::None => Option::None }),
    {
        r.push(("gameId".to_owned(), crate::text::chars_to_string(crate::num::int_chars_i64(
            self.game_id as i64))));
        proof {
            assert(crate::query::pairs_kv(r@) =~= crate::query::pairs_kv(old(r)@) + Seq::<(Seq<char>, Seq<char>)>::empty() + seq![("gameId"@, int_rep(self.game_id as int))]);
        }
        match &self.class_id {
            Option::Some(v) => {
                r.push(("classId".to_owned(), crate::text::chars_to_string(crate::num::int_chars_i64(*v as i64))));
            },
            Option::None => {},
        }
        proof {
            assert(crate::query::pairs_kv(r@) =~= crate::query::pairs_kv(old(r)@) + Seq::<(Seq<char>, Seq<char>)>::empty() + seq![("gameId"@, int_rep(self.game_id as int))] + kv_opt("classId"@, match self.class_id { Option::Some(v) => Option::Some(int_rep(v as int)), Option::None => Option::None }));
        }
        match &self.category_id {
            Option::Some(v) => {
                r.push(("categoryId".to_owned(), crate::text::chars_to_string(crate::num::int_chars_i64(*v as i64))));
            },
            Option::None => {},
        }
        proof {
            assert(crate::query::pairs_kv(r@) =~= crate::query::pairs_kv(old(r)@) + Seq::<(Seq<char>, Seq<char>)>::empty() + seq![("gameId"@, int_rep(self.game_id as int))] + kv_opt("classId"@, match self.class_id { Option::Some(v) => Option::Some(int_rep(v as int)), Option::None => Option::None }) + kv_opt("categoryId"@, match self.category_id { Option::Some(v) => Option::Some(int_rep(v as int)), Option::None => Option::None }));
        }
        match &self.category_ids {
            Option::Some(v) => {
                r.push(("categoryIds".to_owned(), v.clone()));
            },
            Option::None => {},
        }
        proof {
            assert(crate::query::pairs_kv(r@) =~= crate::query::pairs_kv(old(r)@) + Seq::<(Seq<char>, Seq<char>)>::empty() + seq![("gameId"@, int_rep(self.game_id as int))] + kv_opt("classId"@, match self.class_id { Option::Some(v) => Option::Some(int_rep(v as int)), Option::None => Option::None }) + kv_opt("categoryId"@, match self.category_id { Option::Some(v) => Option::Some(int_rep(v as int)), Option::None => Option::None }) + kv_opt("categoryIds"@, match self.category_ids { Option::Some(v) => Option::Some(v@), Option::None => Option::None }));
        }
        match &self.game_version {
            Option::Some(v) => {
                r.push(("gameVersion".to_owned(), v.clone()));
            },
            Option::None => {},
        }
        proof {
            assert(crate::query::pairs_kv(r@) =~= crate::query::pairs_kv(old(r)@) + Seq::<(Seq<char>, Seq<char>)>::empty() + seq![("gameId"@, int_rep(self.game_id as int))] + kv_opt("classId"@, match self.class_id { Option::Some(v) => Option::Some(int_rep(v as int)), Option::None => Option::None }) + kv_opt("categoryId"@, match self.category_id { Option::Some(v) => Option::Some(int_rep(v as int)), Option::None => Option::None }) + kv_opt("categoryIds"@, match self.category_ids { Option::Some(v) => Option::Some(v@), Option::None => Option::None }) + kv_opt("gameVersion"@, match self.game_version { Option::Some(v) => Option::Some(v@), Option::None => Option::None }));
        }
        proof {
            assert(crate::query::pairs_kv(r@) =~= crate::query::pairs_kv(old(r)@) + seq![("gameId"@, int_rep(self.game_id as int))] + kv_opt("classId"@, match self.class_id { Option::Some(v) => Option::Some(int_rep(v as int)), Option::None => Option::None }) + kv_opt("categoryId"@, match self.category_id { Option::Some(v) => Option::Some(int_rep(v as int)), Option::None => Option::None }) + kv_opt("categoryIds"@, match self.category_ids { Option::Some(v) => Option::Some(v@), Option::None => Option::None }) + kv_opt("gameVersion"@, match self.game_version { Option::Some(v) => Option::Some(v@), Option::None => Option::None }));
        }
    }

    #[verifier::rlimit(100)]
    #[verifier::spinoff_prover]
    fn qp_part1(&self, r: &mut Vec<(String, String)>)
        ensures
            crate::query::pairs_kv(final(r)@) == crate::query::pairs_kv(old(r)@) + kv_opt("gameVersions"@, match self.game_versions { Option::Some(v) => Option::Some(v@), Option::None => Option::None }) + kv_opt("searchFilter"@, match self.search_filter { Option::Some(v) => Option::Some(v@), Option::None => Option::None }) + kv_opt("sortField"@, match self.sort_field { Option::Some(v) => Option::Some(int_rep(v.code())), Option::None => Option::None }) + kv_opt("sortOrder"@, match self.sort_order { Option::Some(v) => Option::Some(v.rep()), Option::None => Option::None }) + kv_opt("modLoaderType"@, match self.mod_loader_type { Option::Some(v) => Option::Some(int_rep(v.code())), Option::None => Option::None }),
    {
        match &self.game_versions {
            Option::Some(v) => {
                r.push(("gameVersions".to_owned(), v.clone()));
            },
            Option::None => {},
        }
        proof {
            assert(crate::query::pairs_kv(r@) =~= crate::query::pairs_kv(old(r)@) + Seq::<(Seq<char>, Seq<char>)>::empty() + kv_opt("gameVersions"@, match self.game_versions { Option::Some(v) => Option::Some(v@), Option::None => Option::None }));
        }
        match &self.search_filter {
            Option::Some(v) => {
                r.push(("searchFilter".to_owned(), v.clone()));
            },
            Option::None => {},
        }
        proof {
            assert(crate::query::pairs_kv(r@) =~= crate::query::pairs_kv(old(r)@) + Seq::<(Seq<char>, Seq<char>)>::empty() + kv_opt("gameVersions"@, match self.game_versions { Option::Some(v) => Option::Some(v@), Option::None => Option::None }) + kv_opt("searchFilter"@, match self.search_filter { Option::Some(v) => Option::Some(v@), Option::None => Option::None }));
        }
        match &self.sort_field {
            Option::Some(v) => {
                r.push(("sortField".to_owned(), crate::text::chars_to_string(crate::num::int_chars_i64(v.to_code()))));
            },
            Option::None => {},
        }
        proof {
            assert(crate::query::pairs_kv(r@) =~= crate::query::pairs_kv(old(r)@) + Seq::<(Seq<char>, Seq<char>)>::empty() + kv_opt("gameVersions"@, match self.game_versions { Option::Some(v) => Option::Some(v@), Option::None => Option::None }) + kv_opt("searchFilter"@, match self.search_filter { Option::Some(v) => Option::Some(v@), Option::None => Option::None }) + kv_opt("sortField"@, match self.sort_field { Option::Some(v) => Option::Some(int_rep(v.code())), Option::None => Option::None }));
        }
        match &self.sort_order {
            Option::Some(v) => {
                r.push(("sortOrder".to_owned(), v.to_rep().to_owned()));
            },
            Option::None => {},
        }
        proof {
            assert(crate::query::pairs_kv(r@) =~= crate::query::pairs_kv(old(r)@) + Seq::<(Seq<char>, Seq<char>)>::empty() + kv_opt("gameVersions"@, match self.game_versions { Option::Some(v) => Option::Some(v@), Option::None => Option::None }) + kv_opt("searchFilter"@, match self.search_filter { Option::Some(v) => Option::Some(v@), Option::None => Option::None }) + kv_opt("sortField"@, match self.sort_field { Option::Some(v) => Option::Some(int_rep(v.code())), Option::None => Option::None }) + kv_opt("sortOrder"@, match self.sort_order { Option::Some(v) => Option::Some(v.rep()), Option::None => Option::None }));
        }
        match &self.mod_loader_type {
            Option::Some(v) => {
                r.push(("modLoaderType".to_owned(), crate::text::chars_to_string(crate::num::int_chars_i64(v.to_code()))));
            },
            Option::None => {},
        }
        proof {
            assert(crate::query::pairs_kv(r@) =~= crate::query::pairs_kv(old(r)@) + Seq::<(Seq<char>, Seq<char>)>::empty() + kv_opt("gameVersions"@, match self.game_versions { Option::Some(v) => Option::Some(v@), Option::None => Option::None }) + kv_opt("searchFilter"@, match self.search_filter { Option::Some(v) => Option::Some(v@), Option::None => Option::None }) + kv_opt("sortField"@, match self.sort_field { Option::Some(v) => Option::Some(int_rep(v.code())), Option::None => Option::None }) + kv_opt("sortOrder"@, match self.sort_order { Option::Some(v) => Option::Some(v.rep()), Option::None => Option::None }) + kv_opt("modLoaderType"@, match self.mod_loader_type { Option::Some(v) => Option::Some(int_rep(v.code())), Option::None => Option::None }));
        }
        proof {
            assert(crate::query::pairs_kv(r@) =~= crate::query::pairs_kv(old(r)@) + kv_opt("gameVersions"@, match self.game_versions { Option::Some(v) => Option::Some(v@), Option::None => Option::None }) + kv_opt("searchFilter"@, match self.search_filter { Option::Some(v) => Option::Some(v@), Option::None => Option::None }) + kv_opt("sortField"@, match self.sort_field { Option::Some(v) => Option::Some(int_rep(v.code())), Option::None => Option::None }) + kv_opt("sortOrder"@, match self.sort_order { Option::Some(v) => Option::Some(v.rep()), Option::None => Option::None }) + kv_opt("modLoaderType"@, match self.mod_loader_type { Option::Some(v) => Option::Some(int_rep(v.code())), Option::None => Option::None }));
        }
    }

    #[verifier::rlimit(100)]
    #[verifier::spinoff_prover]
    fn qp_part2(&self, r: &mut Vec<(String, String)>)
        ensures
            crate::query::pairs_kv(final(r)@) == crate::query::pairs_kv(old(r)@) + kv_opt("modLoaderTypes"@, match self.mod_loader_types { Option::Some(v) => Option::Some(v@), Option::None => Option::None }) + kv_opt("gameVersionTypeId"@, match self.game_version_type_id { Option::Some(v) => Option::Some(int_rep(v as int)), Option::None => Option::None }) + kv_opt("authorId"@, match self.author_id { Option::Some(v) => Option::Some(int_rep(v as int)), Option::None => Option::None }) + kv_opt("primaryAuthorId"@, match self.primary_author_id { Option::Some(v) => Option::Some(int_rep(v as int)), Option::None => Option::None }) + kv_opt("slug"@, match self.slug { Option::Some(v) => Option::Some(v@), Option::None => Option::None }),
    {
        match &self.mod_loader_types {
            Option::Some(v) => {
                r.push(("modLoaderTypes".to_owned(), v.clone()));
            },
            Option::None => {},
        }
        proof {
            assert(crate::query::pairs_kv(r@) =~= crate::query::pairs_kv(old(r)@) + Seq::<(Seq<char>, Seq<char>)>::empty() + kv_opt("modLoaderTypes"@, match self.mod_loader_types { Option::Some(v) => Option::Some(v@), Option::None => Option::None }));
        }
        match &self.game_version_type_id {
            Option::Some(v) => {
                r.push(("gameVersionTypeId".to_owned(), crate::text::chars_to_string(crate::num::int_chars_i64(*v as i64))));
            },
            Option::None => {},
        }
        proof {
            assert(crate::query::pairs_kv(r@) =~= crate::query::pairs_kv(old(r)@) + Seq::<(Seq<char>, Seq<char>)>::empty() + kv_opt("modLoaderTypes"@, match self.mod_loader_types { Option::Some(v) => Option::Some(v@), Option::None => Option::None }) + kv_opt("gameVersionTypeId"@, match self.game_version_type_id { Option::Some(v) => Option::Some(int_rep(v as int)), Option::None => Option::None }));
        }
        match &self.author_id {
            Option::Some(v) => {
                r.push(("authorId".to_owned(), crate::text::chars_to_string(crate::num::int_chars_i64(*v as i64))));
            },
            Option::None => {},
        }
        proof {
            assert(crate::query::pairs_kv(r@) =~= crate::query::pairs_kv(old(r)@) + Seq::<(Seq<char>, Seq<char>)>::empty() + kv_opt("modLoaderTypes"@, match self.mod_loader_types { Option::Some(v) => Option::Some(v@), Option::None => Option::None }) + kv_opt("gameVersionTypeId"@, match self.game_version_type_id { Option::Some(v) => Option::Some(int_rep(v as int)), Option::None => Option::None }) + kv_opt("authorId"@, match self.author_id { Option::Some(v) => Option::Some(int_rep(v as int)), Option::None => Option::None }));
        }
        match &self.primary_author_id {
            Option::Some(v) => {
                r.push(("primaryAuthorId".to_owned(), crate::text::chars_to_string(crate::num::int_chars_i64(*v as i64))));
            },
            Option::None => {},
        }
        proof {
            assert(crate::query::pairs_kv(r@) =~= crate::query::pairs_kv(old(r)@) + Seq::<(Seq<char>, Seq<char>)>::empty() + kv_opt("modLoaderTypes"@, match self.mod_loader_types { Option::Some(v) => Option::Some(v@), Option::None => Option::None }) + kv_opt("gameVersionTypeId"@, match self.game_version_type_id { Option::Some(v) => Option::Some(int_rep(v as int)), Option::None => Option::None }) + kv_opt("authorId"@, match self.author_id { Option::Some(v) => Option::Some(int_rep(v as int)), Option::None => Option::None }) + kv_opt("primaryAuthorId"@, match self.primary_author_id { Option::Some(v) => Option::Some(int_rep(v as int)), Option::None => Option::None }));
        }
        match &self.slug {
            Option::Some(v) => {
                r.push(("slug".to_owned(), v.clone()));
            },
            Option::None => {},
        }
        proof {
            assert(crate::query::pairs_kv(r@) =~= crate::query::pairs_kv(old(r)@) + Seq::<(Seq<char>, Seq<char>)>::empty() + kv_opt("modLoaderTypes"@, match self.mod_loader_types { Option::Some(v) => Option::Some(v@), Option::None => Option::None }) + kv_opt("gameVersionTypeId"@, match self.game_version_type_id { Option::Some(v) => Option::Some(int_rep(v as int)), Option::None => Option::None }) + kv_opt("authorId"@, match self.author_id { Option::Some(v) => Option::Some(int_rep(v as int)), Option::None => Option::None }) + kv_opt("primaryAuthorId"@, match self.primary_author_id { Option::Some(v) => Option::Some(int_rep(v as int)), Option::None => Option::None }) + kv_opt("slug"@, match self.slug { Option::Some(v) => Option::Some(v@), Option::None => Option::None }));
        }
        proof {
            assert(crate::query::pairs_kv(r@) =~= crate::query::pairs_kv(old(r)@) + kv_opt("modLoaderTypes"@, match self.mod_loader_types { Option::Some(v) => Option::Some(v@), Option::None => Option::None }) + kv_opt("gameVersionTypeId"@, match self.game_version_type_id { Option::Some(v) => Option::Some(int_rep(v as int)), Option::None => Option::None }) + kv_opt("authorId"@, match self.author_id { Option::Some(v) => Option::Some(int_rep(v as int)), Option::None => Option::None }) + kv_opt("primaryAuthorId"@, match self.primary_author_id { Option::Some(v) => Option::Some(int_rep(v as int)), Option::None => Option::None }) + kv_opt("slug"@, match self.slug { Option::Some(v) => Option::Some(v@), Option::None => Option::None }));
        }
    }

    #[verifier::rlimit(100)]
    #[verifier::spinoff_prover]
    fn qp_part3(&self, r: &mut Vec<(String, String)>)
        ensures
            crate::query::pairs_kv(final(r)@) == crate::query::pairs_kv(old(r)@) + kv_opt("index"@, match self.index { Option::Some(v) => Option::Some(int_rep(v as int)), Option::None => Option::None }) + kv_opt("pageSize"@, match self.page_size { Option::Some(v) => Option::Some(int_rep(v as int)), Option::None => Option::None }),
    {
        match &self.index {
            Option::Some(v) => {
                r.push(("index".to_owned(), crate::text::chars_to_string(crate::num::int_chars_i64(*v as i64))));
            },
            Option::None => {},
        }
        proof {
            assert(crate::query::pairs_kv(r@) =~= crate::query::pairs_kv(old(r)@) + Seq::<(Seq<char>, Seq<char>)>::empty() + kv_opt("index"@, match self.index { Option::Some(v) => Option::Some(int_rep(v as int)), Option::None => Option::None }));
        }
        match &self.page_size {
            Option::Some(v) => {
                r.push(("pageSize".to_owned(), crate::text::chars_to_string(crate::num::int_chars_i64(*v as i64))));
            },
            Option::None => {},
        }
        proof {
            assert(crate::query::pairs_kv(r@) =~= crate::query::pairs_kv(old(r)@) + Seq::<(Seq<char>, Seq<char>)>::empty() + kv_opt("index"@, match self.index { Option::Some(v) => Option::Some(int_rep(v as int)), Option::None => Option::None }) + kv_opt("pageSize"@, match self.page_size { Option::Some(v) => Option::Some(int_rep(v as int)), Option::None => Option::None }));
        }
        proof {
            assert(crate::query::pairs_kv(r@) =~= crate::query::pairs_kv(old(r)@) + kv_opt("index"@, match self.index { Option::Some(v) => Option::Some(int_rep(v as int)), Option::None => Option::None }) + kv_opt("pageSize"@, match self.page_size { Option::Some(v) => Option::Some(int_rep(v as int)), Option::None => Option::None }));
        }
    }

    #[verifier::rlimit(100)]
    #[verifier::spinoff_prover]
    pub fn to_query_pairs(&self) -> (r: Vec<(String, String)>)
        ensures
            crate::query::pairs_kv(r@) == self.query_pairs(),
    {
        let mut r: Vec<(String, String)> = Vec::new();
        proof {
            assert(crate::query::pairs_kv(r@) =~= Seq::<(Seq<char>, Seq<char>)>::empty());
        }
        self.qp_part0(&mut r);
        self.qp_part1(&mut r);
        self.qp_part2(&mut r);
        self.qp_part3(&mut r);
        proof {
            assert(crate::query::pairs_kv(r@) =~= self.query_pairs());
        }
        r
    }
}

impl GetModFilesParams {
    /// The key-value pairs of the query string, in field order; unset
    /// fields contribute no pair.
    pub open spec fn query_pairs(self) -> Seq<(Seq<char>, Seq<char>)> {
        kv_opt("gameVersion"@, match self.game_version { Option::Some(v) => Option::Some(v@), Option::None => Option::None }) + kv_opt("modLoaderType"@, match self.mod_loader_type { Option::Some(v) => Option::Some(int_rep(v.code())), Option::None => Option::None }) + kv_opt("gameVersionTypeId"@, match self.game_version_type_id { Option::Some(v) => Option::Some(int_rep(v as int)), Option::None => Option::None }) + kv_opt("index"@, match self.index { Option::Some(v) => Option::Some(int_rep(v as int)), Option::None => Option::None }) + kv_opt("pageSize"@, match self.page_size { Option::Some(v) => Option::Some(int_rep(v as int)), Option::None => Option::None })
    }

    #[verifier::rlimit(100)]
    #[verifier::spinoff_prover]
    pub fn to_query_pairs(&self) -> (r: Vec<(String, String)>)
        ensures
            crate::query::pairs_kv(r@) == self.query_pairs(),
    {
        let mut r: Vec<(String, String)> = Vec::new();
        match &self.game_version {
            Option::Some(v) => {
                r.push(("gameVersion".to_owned(), v.clone()));
            },
            Option::None => {},
        }
        proof {
            assert(crate::query::pairs_kv(r@) =~= kv_opt("gameVersion"@, match self.game_version { Option::Some(v) => Option::Some(v@), Option::None => Option::None }));
        }
        match &self.mod_loader_type {
            Option::Some(v) => {
                r.push(("modLoaderType".to_owned(), crate::text::chars_to_string(crate::num::int_chars_i64(v.to_code()))));
            },
            Option::None => {},
        }
        proof {
            assert(crate::query::pairs_kv(r@) =~= kv_opt("gameVersion"@, match self.game_version { Option::Some(v) => Option::Some(v@), Option::None => Option::None }) + kv_opt("modLoaderType"@, match self.mod_loader_type { Option::Some(v) => Option::Some(int_rep(v.code())), Option::None => Option::None }));
        }
        match &self.game_version_type_id {
            Option::Some(v) => {
                r.push(("gameVersionTypeId".to_owned(), crate::text::chars_to_string(crate::num::int_chars_i64(*v as i64))));
            },
            Option::None => {},
        }
        proof {
            assert(crate::query::pairs_kv(r@) =~= kv_opt("gameVersion"@, match self.game_version { Option::Some(v) => Option::Some(v@), Option::None => Option::None }) + kv_opt("modLoaderType"@, match self.mod_loader_type { Option::Some(v) => Option::Some(int_rep(v.code())), Option::None => Option::None }) + kv_opt("gameVersionTypeId"@, match self.game_version_type_id { Option::Some(v) => Option::Some(int_rep(v as int)), Option::None => Option::None }));
        }
        match &self.index {
            Option::Some(v) => {
                r.push(("index".to_owned(), crate::text::chars_to_string(crate::num::int_chars_i64(*v as i64))));
            },
            Option::None => {},
        }
        proof {
            assert(crate::query::pairs_kv(r@) =~= kv_opt("gameVersion"@, match self.game_version { Option::Some(v) => Option::Some(v@), Option::None => Option::None }) + kv_opt("modLoaderType"@, match self.mod_loader_type { Option::Some(v) => Option::Some(int_rep(v.code())), Option::None => Option::None }) + kv_opt("gameVersionTypeId"@, match self.game_version_type_id { Option::Some(v) => Option::Some(int_rep(v as int)), Option::None => Option::None }) + kv_opt("index"@, match self.index { Option::Some(v) => Option::Some(int_rep(v as int)), Option::None => Option::None }));
        }
        match &self.page_size {
            Option::Some(v) => {
                r.push(("pageSize".to_owned(), crate::text::chars_to_string(crate::num::int_chars_i64(*v as i64))));
            },
            Option::None => {},
        }
        proof {
            assert(crate::query::pairs_kv(r@) =~= kv_opt("gameVersion"@, match self.game_version { Option::Some(v) => Option::Some(v@), Option::None => Option::None }) + kv_opt("modLoaderType"@, match self.mod_loader_type { Option::Some(v) => Option::Some(int_rep(v.code())), Option::None => Option::None }) + kv_opt("gameVersionTypeId"@, match self.game_version_type_id { Option::Some(v) => Option::Some(int_rep(v as int)), Option::None => Option::None }) + kv_opt("index"@, match self.index { Option::Some(v) => Option::Some(int_rep(v as int)), Option::None => Option::None }) + kv_opt("pageSize"@, match self.page_size { Option::Some(v) => Option::Some(int_rep(v as int)), Option::None => Option::None }));
        }
        r
    }
}

impl GetModDescriptionParams {
    /// The key-value pairs of the query string, in field order; unset
    /// fields contribute no pair.
    pub open spec fn query_pairs(self) -> Seq<(Seq<char>, Seq<char>)> {
        kv_opt("raw"@, match self.raw { Option::Some(v) => Option::Some(bool_rep(v)), Option::None => Option::None }) + kv_opt("stripped"@, match self.stripped { Option::Some(v) => Option::Some(bool_rep(v)), Option::None => Option::None }) + kv_opt("markup"@, match self.markup { Option::Some(v) => Option::Some(bool_rep(v)), Option::None => Option::None })
    }

    #[verifier::rlimit(100)]
    #[verifier::spinoff_prover]
    pub fn to_query_pairs(&self) -> (r: Vec<(String, String)>)
        ensures
            crate::query::pairs_kv(r@) == self.query_pairs(),
    {
        let mut r: Vec<(String, String)> = Vec::new();
        match &self.raw {
            Option::Some(v) => {
                r.push(("raw".to_owned(), crate::query::bool_str(*v).to_owned()));
            },
            Option::None => {},
        }
        proof {
            assert(crate::query::pairs_kv(r@) =~= kv_opt("raw"@, match self.raw { Option::Some(v) => Option::Some(bool_rep(v)), Option::None => Option::None }));
        }
        match &self.stripped {
            Option::Some(v) => {
                r.push(("stripped".to_owned(), crate::query::bool_str(*v).to_owned()));
            },
            Option::None => {},
        }
        proof {
            assert(crate::query::pairs_kv(r@) =~= kv_opt("raw"@, match self.raw { Option::Some(v) => Option::Some(bool_rep(v)), Option::None => Option::None }) + kv_opt("stripped"@, match self.stripped { Option::Some(v) => Option::Some(bool_rep(v)), Option::None => Option::None }));
        }
        match &self.markup {
            Option::Some(v) => {
                r.push(("markup".to_owned(), crate::query::bool_str(*v).to_owned()));
            },
            Option::None => {},
        }
        proof {
            assert(crate::query::pairs_kv(r@) =~= kv_opt("raw"@, match self.raw { Option::Some(v) => Option::Some(bool_rep(v)), Option::None => Option::None }) + kv_opt("stripped"@, match self.stripped { Option::Some(v) => Option::Some(bool_rep(v)), Option::None => Option::None }) + kv_opt("markup"@, match self.markup { Option::Some(v) => Option::Some(bool_rep(v)), Option::None => Option::None }));
        }
        r
    }
}

impl GetMinecraftVersionsParams {
    /// The key-value pairs of the query string, in field order; unset
    /// fields contribute no pair.
    pub open spec fn query_pairs(self) -> Seq<(Seq<char>, Seq<char>)> {
        kv_opt("sortDescending"@, match self.sort_descending { Option::Some(v) => Option::Some(bool_rep(v)), Option::None => Option::None })
    }

    #[verifier::rlimit(100)]
    #[verifier::spinoff_prover]
    pub fn to_query_pairs(&self) -> (r: Vec<(String, String)>)
        ensures
            crate::query::pairs_kv(r@) == self.query_pairs(),
    {
        let mut r: Vec<(String, String)> = Vec::new();
        match &self.sort_descending {
            Option::Some(v) => {
                r.push(("sortDescending".to_owned(), crate::query::bool_str(*v).to_owned()));
            },
            Option::None => {},
        }
        proof {
            assert(crate::query::pairs_kv(r@) =~= kv_opt("sortDescending"@, match self.sort_descending { Option::Some(v) => Option::Some(bool_rep(v)), Option::None => Option::None }));
        }
        r
    }
}

impl GetMinecraftModLoadersParams {
    /// The key-value pairs of the query string, in field order; unset
    /// fields contribute no pair.
    pub open spec fn query_pairs(self) -> Seq<(Seq<char>, Seq<char>)> {
        kv_opt("version"@, match self.version { Option::Some(v) => Option::Some(v@), Option::None => Option::None }) + kv_opt("includeAll"@, match self.include_all { Option::Some(v) => Option::Some(bool_rep(v)), Option::None => Option::None })
    }

    #[verifier::rlimit(100)]
    #[verifier::spinoff_prover]
    pub fn to_query_pairs(&self) -> (r: Vec<(String, String)>)
        ensures
            crate::query::pairs_kv(r@) == self.query_pairs(),
    {
        let mut r: Vec<(String, String)> = Vec::new();
        match &self.version {
            Option::Some(v) => {
                r.push(("version".to_owned(), v.clone()));
            },
            Option::None => {},
        }
        proof {
            assert(crate::query::pairs_kv(r@) =~= kv_opt("version"@, match self.version { Option::Some(v) => Option::Some(v@), Option::None => Option::None }));
        }
        match &self.include_all {
            Option::Some(v) => {
                r.push(("includeAll".to_owned(), crate::query::bool_str(*v).to_owned()));
            },
            Option::None => {},
        }
        proof {
            assert(crate::query::pairs_kv(r@) =~= kv_opt("version"@, match self.version { Option::Some(v) => Option::Some(v@), Option::None => Option::None }) + kv_opt("includeAll"@, match self.include_all { Option::Some(v) => Option::Some(bool_rep(v)), Option::None => Option::None }));
        }
        r
    }
}

} // verus!
