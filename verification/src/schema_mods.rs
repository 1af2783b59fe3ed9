//! The records that describe mods and their files.
#![allow(unused_imports)]
use crate::enums::{CoreApiStatus, CoreStatus, FileRelationType, FileReleaseType, FileStatus,
    GameVersionStatus, GameVersionTypeStatus, HashAlgo, ModLoaderInstallMethod, ModLoaderType,
    ModStatus, ModsSearchSortField, SortOrder};
use crate::json::{Json, JsonList, JsonMembers, JsonV};
use crate::schema_core::Category;
use vstd::prelude::*;

verus! {

broadcast use vstd::seq::group_seq_axioms, vstd::std_specs::vec::group_vec_axioms;


/// The outward links of a mod.
#[derive(Debug, Clone)]
pub struct ModLinks {
    pub website_url: Option<String>,
    pub wiki_url: Option<String>,
    pub issues_url: Option<String>,
    pub source_url: Option<String>,
}

impl ModLinks {
    /// The JSON document of this value, member for member.
    pub open spec fn jv(self) -> JsonV {
        JsonV::Obj(seq![
            ("websiteUrl"@, (match self.website_url { Option::Some(v) => JsonV::Str(v@), Option::None => JsonV::Null })),
            ("wikiUrl"@, (match self.wiki_url { Option::Some(v) => JsonV::Str(v@), Option::None => JsonV::Null })),
            ("issuesUrl"@, (match self.issues_url { Option::Some(v) => JsonV::Str(v@), Option::None => JsonV::Null })),
            ("sourceUrl"@, (match self.source_url { Option::Some(v) => JsonV::Str(v@), Option::None => JsonV::Null })),
        ])
    }

    /// What it means for a JSON document to decode to this value.
    pub open spec fn decodes_to(j: JsonV, x: ModLinks) -> bool {
        &&& j matches JsonV::Obj(o)
        &&& crate::fields::jv_opt_str(o, "websiteUrl"@) == Option::Some(crate::fields::view_opt_str(x.website_url))
        &&& crate::fields::jv_opt_str(o, "wikiUrl"@) == Option::Some(crate::fields::view_opt_str(x.wiki_url))
        &&& crate::fields::jv_opt_str(o, "issuesUrl"@) == Option::Some(crate::fields::view_opt_str(x.issues_url))
        &&& crate::fields::jv_opt_str(o, "sourceUrl"@) == Option::Some(crate::fields::view_opt_str(x.source_url))
    }

    pub fn to_json(&self) -> (r: Json)
        ensures
            r@ == self.jv(),
    {
        let mut m = JsonMembers::Nil;
        m = crate::fields::cons_member("sourceUrl", crate::fields::opt_str_json(&self.source_url), m);
        m = crate::fields::cons_member("issuesUrl", crate::fields::opt_str_json(&self.issues_url), m);
        m = crate::fields::cons_member("wikiUrl", crate::fields::opt_str_json(&self.wiki_url), m);
        m = crate::fields::cons_member("websiteUrl", crate::fields::opt_str_json(&self.website_url), m);
        let ghost m_v = m@;
        let r = Json::Obj(Box::new(m));
        proof {
            assert(r matches Json::Obj(o2) && crate::json::members_view(*o2) == m_v);
            assert(r@ == JsonV::Obj(m_v));
            assert(m_v.len() == 4);
            assert(m_v[0] =~~= ("websiteUrl"@, (match self.website_url { Option::Some(v) => JsonV::Str(v@), Option::None => JsonV::Null })));
            assert(m_v[1] =~~= ("wikiUrl"@, (match self.wiki_url { Option::Some(v) => JsonV::Str(v@), Option::None => JsonV::Null })));
            assert(m_v[2] =~~= ("issuesUrl"@, (match self.issues_url { Option::Some(v) => JsonV::Str(v@), Option::None => JsonV::Null })));
            assert(m_v[3] =~~= ("sourceUrl"@, (match self.source_url { Option::Some(v) => JsonV::Str(v@), Option::None => JsonV::Null })));
            assert(m_v =~~= self.jv()->Obj_0);
            assert(r@ =~~= self.jv());
        }
        r
    }

    pub fn from_json(j: &Json) -> (r: Option<ModLinks>)
        ensures
            r matches Option::Some(x) ==> ModLinks::decodes_to(j@, x),
            r is None ==> forall|x: ModLinks| !ModLinks::decodes_to(j@, x),
    {
        match j {
            Json::Obj(m) => {
            let website_url = match crate::fields::get_opt_str(m, "websiteUrl") {
                Option::Some(v) => v,
                Option::None => {
                    return Option::None;
                },
            };
            let wiki_url = match crate::fields::get_opt_str(m, "wikiUrl") {
                Option::Some(v) => v,
                Option::None => {
                    return Option::None;
                },
            };
            let issues_url = match crate::fields::get_opt_str(m, "issuesUrl") {
                Option::Some(v) => v,
                Option::None => {
                    return Option::None;
                },
            };
            let source_url = match crate::fields::get_opt_str(m, "sourceUrl") {
                Option::Some(v) => v,
                Option::None => {
                    return Option::None;
                },
            };
                Option::Some(ModLinks {
                    website_url,
                    wiki_url,
                    issues_url,
                    source_url,
                })
            },
            _ => Option::None,
        }
    }



    /// The JSON document of a value decodes back to it.
    pub proof fn lemma_decodes_self(x: ModLinks)
        ensures
            ModLinks::decodes_to(x.jv(), x),
    {
        let o = x.jv()->Obj_0;
        assert(crate::json::obj_get(o, "websiteUrl"@) == Option::Some((match x.website_url { Option::Some(v) => JsonV::Str(v@), Option::None => JsonV::Null }))) by {
            reveal_strlit("websiteUrl");
            reveal_with_fuel(crate::json::obj_get, 5);
        }
        assert(crate::json::obj_get(o, "wikiUrl"@) == Option::Some((match x.wiki_url { Option::Some(v) => JsonV::Str(v@), Option::None => JsonV::Null }))) by {
            reveal_strlit("websiteUrl");
            reveal_strlit("wikiUrl");
            assert("websiteUrl"@.len() == 10);
            assert("wikiUrl"@.len() == 7);
            assert("websiteUrl"@ != "wikiUrl"@);
            reveal_with_fuel(crate::json::obj_get, 5);
        }
        assert(crate::json::obj_get(o, "issuesUrl"@) == Option::Some((match x.issues_url { Option::Some(v) => JsonV::Str(v@), Option::None => JsonV::Null }))) by {
            reveal_strlit("websiteUrl");
            reveal_strlit("wikiUrl");
            reveal_strlit("issuesUrl");
            assert("websiteUrl"@.len() == 10);
            assert("issuesUrl"@.len() == 9);
            assert("websiteUrl"@ != "issuesUrl"@);
            assert("wikiUrl"@.len() == 7);
            assert("issuesUrl"@.len() == 9);
            assert("wikiUrl"@ != "issuesUrl"@);
            reveal_with_fuel(crate::json::obj_get, 5);
        }
        assert(crate::json::obj_get(o, "sourceUrl"@) == Option::Some((match x.source_url { Option::Some(v) => JsonV::Str(v@), Option::None => JsonV::Null }))) by {
            reveal_strlit("websiteUrl");
            reveal_strlit("wikiUrl");
            reveal_strlit("issuesUrl");
            reveal_strlit("sourceUrl");
            assert("websiteUrl"@.len() == 10);
            assert("sourceUrl"@.len() == 9);
            assert("websiteUrl"@ != "sourceUrl"@);
            assert("wikiUrl"@.len() == 7);
            assert("sourceUrl"@.len() == 9);
            assert("wikiUrl"@ != "sourceUrl"@);
            assert("issuesUrl"@[0] == 'i');
            assert("sourceUrl"@[0] == 's');
            assert("issuesUrl"@ != "sourceUrl"@);
            reveal_with_fuel(crate::json::obj_get, 5);
        }
    }

    /// Two values that one JSON document decodes to are equal, field for field.
    pub proof fn lemma_deterministic(j: JsonV, x: ModLinks, y: ModLinks)
        requires
            ModLinks::decodes_to(j, x),
            ModLinks::decodes_to(j, y),
        ensures
            crate::fields::view_opt_str(y.website_url) == crate::fields::view_opt_str(x.website_url),
            crate::fields::view_opt_str(y.wiki_url) == crate::fields::view_opt_str(x.wiki_url),
            crate::fields::view_opt_str(y.issues_url) == crate::fields::view_opt_str(x.issues_url),
            crate::fields::view_opt_str(y.source_url) == crate::fields::view_opt_str(x.source_url),
            y.jv() == x.jv(),
    {
        let o = j->Obj_0;
        assert((match y.website_url { Option::Some(v) => JsonV::Str(v@), Option::None => JsonV::Null }) =~~= (match x.website_url { Option::Some(v) => JsonV::Str(v@), Option::None => JsonV::Null }));
        assert((match y.wiki_url { Option::Some(v) => JsonV::Str(v@), Option::None => JsonV::Null }) =~~= (match x.wiki_url { Option::Some(v) => JsonV::Str(v@), Option::None => JsonV::Null }));
        assert((match y.issues_url { Option::Some(v) => JsonV::Str(v@), Option::None => JsonV::Null }) =~~= (match x.issues_url { Option::Some(v) => JsonV::Str(v@), Option::None => JsonV::Null }));
        assert((match y.source_url { Option::Some(v) => JsonV::Str(v@), Option::None => JsonV::Null }) =~~= (match x.source_url { Option::Some(v) => JsonV::Str(v@), Option::None => JsonV::Null }));
        let oy = y.jv()->Obj_0;
        let ox = x.jv()->Obj_0;
        assert(oy[0] =~~= ox[0]);
        assert(oy[1] =~~= ox[1]);
        assert(oy[2] =~~= ox[2]);
        assert(oy[3] =~~= ox[3]);
        assert forall|n: int| 0 <= n < ox.len() implies oy[n] =~~= ox[n] by {
            if n == 0 {
                assert(oy[n] =~~= ox[n]);
            } else if n == 1 {
                assert(oy[n] =~~= ox[n]);
            } else if n == 2 {
                assert(oy[n] =~~= ox[n]);
            } else if n == 3 {
                assert(oy[n] =~~= ox[n]);
            }
        }
        assert(oy =~~= ox);
        assert(y.jv() =~~= x.jv());
    }
}

/// An author of a mod.
#[derive(Debug, Clone)]
pub struct ModAuthor {
    pub id: i32,
    pub name: String,
    pub url: String,
}

impl ModAuthor {
    /// The JSON document of this value, member for member.
    pub open spec fn jv(self) -> JsonV {
        JsonV::Obj(seq![
            ("id"@, JsonV::Int(self.id as int)),
            ("name"@, JsonV::Str(self.name@)),
            ("url"@, JsonV::Str(self.url@)),
        ])
    }

    /// What it means for a JSON document to decode to this value.
    pub open spec fn decodes_to(j: JsonV, x: ModAuthor) -> bool {
        &&& j matches JsonV::Obj(o)
        &&& crate::fields::jv_i32(o, "id"@) == Option::Some(x.id)
        &&& crate::fields::jv_str(o, "name"@) == Option::Some(x.name@)
        &&& crate::fields::jv_str(o, "url"@) == Option::Some(x.url@)
    }

    pub fn to_json(&self) -> (r: Json)
        ensures
            r@ == self.jv(),
    {
        let mut m = JsonMembers::Nil;
        m = crate::fields::cons_member("url", Json::Str(self.url.clone()), m);
        m = crate::fields::cons_member("name", Json::Str(self.name.clone()), m);
        m = crate::fields::cons_member("id", Json::Int(self.id as i64), m);
        let ghost m_v = m@;
        let r = Json::Obj(Box::new(m));
        proof {
            assert(r matches Json::Obj(o2) && crate::json::members_view(*o2) == m_v);
            assert(r@ == JsonV::Obj(m_v));
            assert(m_v.len() == 3);
            assert(m_v[0] =~~= ("id"@, JsonV::Int(self.id as int)));
            assert(m_v[1] =~~= ("name"@, JsonV::Str(self.name@)));
            assert(m_v[2] =~~= ("url"@, JsonV::Str(self.url@)));
            assert(m_v =~~= self.jv()->Obj_0);
            assert(r@ =~~= self.jv());
        }
        r
    }

    pub fn from_json(j: &Json) -> (r: Option<ModAuthor>)
        ensures
            r matches Option::Some(x) ==> ModAuthor::decodes_to(j@, x),
            r is None ==> forall|x: ModAuthor| !ModAuthor::decodes_to(j@, x),
    {
        match j {
            Json::Obj(m) => {
            let id = match crate::fields::get_i32(m, "id") {
                Option::Some(v) => v,
                Option::None => {
                    return Option::None;
                },
            };
            let name = match crate::fields::get_str(m, "name") {
                Option::Some(v) => v,
                Option::None => {
                    return Option::None;
                },
            };
            let url = match crate::fields::get_str(m, "url") {
                Option::Some(v) => v,
                Option::None => {
                    return Option::None;
                },
            };
                Option::Some(ModAuthor {
                    id,
                    name,
                    url,
                })
            },
            _ => Option::None,
        }
    }

    /// Builds the JSON array of a list of these values, from position `i` on.
    pub fn list_to_json(v: &Vec<ModAuthor>, i: usize) -> (r: JsonList)
        requires
            i <= v@.len(),
        ensures
            r@ == Seq::new((v@.len() - i as int) as nat, |k: int| v@[i + k].jv()),
        decreases v@.len() - i,
    {
        if i < v.len() {
            let rest = ModAuthor::list_to_json(v, i + 1);
            let ghost rest_v = rest@;
            let hd = v[i].to_json();
            let ghost hd_v = hd@;
            let r = JsonList::Cons(hd, Box::new(rest));
            proof {
                let target = Seq::new((v@.len() - i as int) as nat, |k: int| v@[i + k].jv());
                assert(r matches JsonList::Cons(h, t) && crate::json::json_view(h) == hd_v
                    && crate::json::list_view(*t) == rest_v);
                assert(crate::json::list_view(r) == seq![hd_v] + rest_v);
                assert forall|n: int| 0 <= n < target.len() implies crate::json::list_view(r)[n]
                    == target[n] by {
                    if n > 0 {
                        assert(crate::json::list_view(r)[n] == rest_v[n - 1]);
                        assert(rest_v[n - 1] == v@[i + 1 + (n - 1)].jv());
                    }
                }
                assert(r@ =~= target);
            }
            r
        } else {
            let r = JsonList::Nil;
            proof {
                assert(r@ =~= Seq::new((v@.len() - i as int) as nat, |k: int| v@[i + k].jv()));
            }
            r
        }
    }

    /// Decodes a JSON array of these values.
    pub fn list_from_json(l: &JsonList) -> (r: Option<Vec<ModAuthor>>)
        ensures
            match r {
                Option::Some(v) => v@.len() == l@.len() && (forall|n: int|
                    0 <= n < l@.len() ==> ModAuthor::decodes_to(#[trigger] l@[n], v@[n])),
                Option::None => ModAuthor::list_undecodable(l@),
            },
        decreases *l,
    {
        match l {
            JsonList::Nil => {
                let r: Vec<ModAuthor> = Vec::new();
                Option::Some(r)
            },
            JsonList::Cons(h, t) => {
                let t2: &JsonList = &*t;
                proof {
                    assert(l@[0] == h@);
                    assert(l@.drop_first() =~= t2@);
                }
                match ModAuthor::from_json(h) {
                    Option::Some(x) => match ModAuthor::list_from_json(t2) {
                        Option::Some(rest) => {
                            let ghost rest_v = rest@;
                            let mut out: Vec<ModAuthor> = Vec::new();
                            out.push(x);
                            let mut rest = rest;
                            out.append(&mut rest);
                            proof {
                                assert(out@ == seq![x] + rest_v);
                                assert forall|n: int| 0 <= n < l@.len() implies ModAuthor::decodes_to(
                                    #[trigger] l@[n], out@[n],
                                ) by {
                                    if n > 0 {
                                        assert(l@[n] == t2@[n - 1]);
                                        assert(out@[n] == rest_v[n - 1]);
                                    }
                                }
                            }
                            Option::Some(out)
                        },
                        Option::None => Option::None,
                    },
                    Option::None => Option::None,
                }
            },
        }
    }

    /// Whether some item of the array has no decoding.
    pub open spec fn list_undecodable(l: Seq<JsonV>) -> bool
        decreases l.len(),
    {
        l.len() > 0 && ((forall|x: ModAuthor| !(#[trigger] ModAuthor::decodes_to(l[0], x)))
            || ModAuthor::list_undecodable(l.drop_first()))
    }

    /// An array with an undecodable item decodes to no list of values.
    pub proof fn lemma_list_undecodable(l: Seq<JsonV>, v: Seq<ModAuthor>)
        requires
            ModAuthor::list_undecodable(l),
            l.len() == v.len(),
        ensures
            !(forall|n: int| 0 <= n < l.len() ==> ModAuthor::decodes_to(#[trigger] l[n], v[n])),
        decreases l.len(),
    {
        if forall|n: int| 0 <= n < l.len() ==> ModAuthor::decodes_to(#[trigger] l[n], v[n]) {
            assert(ModAuthor::decodes_to(l[0], v[0]));
            if forall|x: ModAuthor| !(#[trigger] ModAuthor::decodes_to(l[0], x)) {
                assert(!ModAuthor::decodes_to(l[0], v[0]));
            } else {
                assert(ModAuthor::list_undecodable(l.drop_first()));
                assert forall|n: int|
                    0 <= n < l.drop_first().len() implies ModAuthor::decodes_to(
                    #[trigger] l.drop_first()[n], v.drop_first()[n],
                ) by {
                    assert(l.drop_first()[n] == l[n + 1]);
                    assert(v.drop_first()[n] == v[n + 1]);
                }
                ModAuthor::lemma_list_undecodable(l.drop_first(), v.drop_first());
            }
        }
    }


    /// The JSON document of a value decodes back to it.
    pub proof fn lemma_decodes_self(x: ModAuthor)
        ensures
            ModAuthor::decodes_to(x.jv(), x),
    {
        let o = x.jv()->Obj_0;
        assert(crate::json::obj_get(o, "id"@) == Option::Some(JsonV::Int(x.id as int))) by {
            reveal_strlit("id");
            reveal_with_fuel(crate::json::obj_get, 4);
        }
        assert(crate::json::obj_get(o, "name"@) == Option::Some(JsonV::Str(x.name@))) by {
            reveal_strlit("id");
            reveal_strlit("name");
            assert("id"@.len() == 2);
            assert("name"@.len() == 4);
            assert("id"@ != "name"@);
            reveal_with_fuel(crate::json::obj_get, 4);
        }
        assert(crate::json::obj_get(o, "url"@) == Option::Some(JsonV::Str(x.url@))) by {
            reveal_strlit("id");
            reveal_strlit("name");
            reveal_strlit("url");
            assert("id"@.len() == 2);
            assert("url"@.len() == 3);
            assert("id"@ != "url"@);
            assert("name"@.len() == 4);
            assert("url"@.len() == 3);
            assert("name"@ != "url"@);
            reveal_with_fuel(crate::json::obj_get, 4);
        }
    }

    /// Two values that one JSON document decodes to are equal, field for field.
    pub proof fn lemma_deterministic(j: JsonV, x: ModAuthor, y: ModAuthor)
        requires
            ModAuthor::decodes_to(j, x),
            ModAuthor::decodes_to(j, y),
        ensures
            y.id == x.id,
            y.name@ == x.name@,
            y.url@ == x.url@,
            y.jv() == x.jv(),
    {
        let o = j->Obj_0;
        assert(JsonV::Int(y.id as int) =~~= JsonV::Int(x.id as int));
        assert(JsonV::Str(y.name@) =~~= JsonV::Str(x.name@));
        assert(JsonV::Str(y.url@) =~~= JsonV::Str(x.url@));
        let oy = y.jv()->Obj_0;
        let ox = x.jv()->Obj_0;
        assert(oy[0] =~~= ox[0]);
        assert(oy[1] =~~= ox[1]);
        assert(oy[2] =~~= ox[2]);
        assert forall|n: int| 0 <= n < ox.len() implies oy[n] =~~= ox[n] by {
            if n == 0 {
                assert(oy[n] =~~= ox[n]);
            } else if n == 1 {
                assert(oy[n] =~~= ox[n]);
            } else if n == 2 {
                assert(oy[n] =~~= ox[n]);
            }
        }
        assert(oy =~~= ox);
        assert(y.jv() =~~= x.jv());
    }
}

/// An image attached to a mod.
#[derive(Debug, Clone)]
pub struct ModAsset {
    pub id: i32,
    pub mod_id: i32,
    pub title: Option<String>,
    pub description: Option<String>,
    pub thumbnail_url: Option<String>,
    pub url: Option<String>,
}

impl ModAsset {
    /// The JSON document of this value, member for member.
    pub open spec fn jv(self) -> JsonV {
        JsonV::Obj(seq![
            ("id"@, JsonV::Int(self.id as int)),
            ("modId"@, JsonV::Int(self.mod_id as int)),
            ("title"@, (match self.title { Option::Some(v) => JsonV::Str(v@), Option::None => JsonV::Null })),
            ("description"@, (match self.description { Option::Some(v) => JsonV::Str(v@), Option::None => JsonV::Null })),
            ("thumbnailUrl"@, (match self.thumbnail_url { Option::Some(v) => JsonV::Str(v@), Option::None => JsonV::Null })),
            ("url"@, (match self.url { Option::Some(v) => JsonV::Str(v@), Option::None => JsonV::Null })),
        ])
    }

    /// What it means for a JSON document to decode to this value.
    pub open spec fn decodes_to(j: JsonV, x: ModAsset) -> bool {
        &&& j matches JsonV::Obj(o)
        &&& crate::fields::jv_i32(o, "id"@) == Option::Some(x.id)
        &&& crate::fields::jv_i32(o, "modId"@) == Option::Some(x.mod_id)
        &&& crate::fields::jv_opt_str(o, "title"@) == Option::Some(crate::fields::view_opt_str(x.title))
        &&& crate::fields::jv_opt_str(o, "description"@) == Option::Some(crate::fields::view_opt_str(x.description))
        &&& crate::fields::jv_opt_str(o, "thumbnailUrl"@) == Option::Some(crate::fields::view_opt_str(x.thumbnail_url))
        &&& crate::fields::jv_opt_str(o, "url"@) == Option::Some(crate::fields::view_opt_str(x.url))
    }

    pub fn to_json(&self) -> (r: Json)
        ensures
            r@ == self.jv(),
    {
        let mut m = JsonMembers::Nil;
        m = crate::fields::cons_member("url", crate::fields::opt_str_json(&self.url), m);
        m = crate::fields::cons_member("thumbnailUrl", crate::fields::opt_str_json(&self.thumbnail_url), m);
        m = crate::fields::cons_member("description", crate::fields::opt_str_json(&self.description), m);
        m = crate::fields::cons_member("title", crate::fields::opt_str_json(&self.title), m);
        m = crate::fields::cons_member("modId", Json::Int(self.mod_id as i64), m);
        m = crate::fields::cons_member("id", Json::Int(self.id as i64), m);
        let ghost m_v = m@;
        let r = Json::Obj(Box::new(m));
        proof {
            assert(r matches Json::Obj(o2) && crate::json::members_view(*o2) == m_v);
            assert(r@ == JsonV::Obj(m_v));
            assert(m_v.len() == 6);
            assert(m_v[0] =~~= ("id"@, JsonV::Int(self.id as int)));
            assert(m_v[1] =~~= ("modId"@, JsonV::Int(self.mod_id as int)));
            assert(m_v[2] =~~= ("title"@, (match self.title { Option::Some(v) => JsonV::Str(v@), Option::None => JsonV::Null })));
            assert(m_v[3] =~~= ("description"@, (match self.description { Option::Some(v) => JsonV::Str(v@), Option::None => JsonV::Null })));
            assert(m_v[4] =~~= ("thumbnailUrl"@, (match self.thumbnail_url { Option::Some(v) => JsonV::Str(v@), Option::None => JsonV::Null })));
            assert(m_v[5] =~~= ("url"@, (match self.url { Option::Some(v) => JsonV::Str(v@), Option::None => JsonV::Null })));
            assert(m_v =~~= self.jv()->Obj_0);
            assert(r@ =~~= self.jv());
        }
        r
    }

    pub fn from_json(j: &Json) -> (r: Option<ModAsset>)
        ensures
            r matches Option::Some(x) ==> ModAsset::decodes_to(j@, x),
            r is None ==> forall|x: ModAsset| !ModAsset::decodes_to(j@, x),
    {
        match j {
            Json::Obj(m) => {
            let id = match crate::fields::get_i32(m, "id") {
                Option::Some(v) => v,
                Option::None => {
                    return Option::None;
                },
            };
            let mod_id = match crate::fields::get_i32(m, "modId") {
                Option::Some(v) => v,
                Option::None => {
                    return Option::None;
                },
            };
            let title = match crate::fields::get_opt_str(m, "title") {
                Option::Some(v) => v,
                Option::None => {
                    return Option::None;
                },
            };
            let description = match crate::fields::get_opt_str(m, "description") {
                Option::Some(v) => v,
                Option::None => {
                    return Option::None;
                },
            };
            let thumbnail_url = match crate::fields::get_opt_str(m, "thumbnailUrl") {
                Option::Some(v) => v,
                Option::None => {
                    return Option::None;
                },
            };
            let url = match crate::fields::get_opt_str(m, "url") {
                Option::Some(v) => v,
                Option::None => {
                    return Option::None;
                },
            };
                Option::Some(ModAsset {
                    id,
                    mod_id,
                    title,
                    description,
                    thumbnail_url,
                    url,
                })
            },
            _ => Option::None,
        }
    }

    /// Builds the JSON array of a list of these values, from position `i` on.
    pub fn list_to_json(v: &Vec<ModAsset>, i: usize) -> (r: JsonList)
        requires
            i <= v@.len(),
        ensures
            r@ == Seq::new((v@.len() - i as int) as nat, |k: int| v@[i + k].jv()),
        decreases v@.len() - i,
    {
        if i < v.len() {
            let rest = ModAsset::list_to_json(v, i + 1);
            let ghost rest_v = rest@;
            let hd = v[i].to_json();
            let ghost hd_v = hd@;
            let r = JsonList::Cons(hd, Box::new(rest));
            proof {
                let target = Seq::new((v@.len() - i as int) as nat, |k: int| v@[i + k].jv());
                assert(r matches JsonList::Cons(h, t) && crate::json::json_view(h) == hd_v
                    && crate::json::list_view(*t) == rest_v);
                assert(crate::json::list_view(r) == seq![hd_v] + rest_v);
                assert forall|n: int| 0 <= n < target.len() implies crate::json::list_view(r)[n]
                    == target[n] by {
                    if n > 0 {
                        assert(crate::json::list_view(r)[n] == rest_v[n - 1]);
                        assert(rest_v[n - 1] == v@[i + 1 + (n - 1)].jv());
                    }
                }
                assert(r@ =~= target);
            }
            r
        } else {
            let r = JsonList::Nil;
            proof {
                assert(r@ =~= Seq::new((v@.len() - i as int) as nat, |k: int| v@[i + k].jv()));
            }
            r
        }
    }

    /// Decodes a JSON array of these values.
    pub fn list_from_json(l: &JsonList) -> (r: Option<Vec<ModAsset>>)
        ensures
            match r {
                Option::Some(v) => v@.len() == l@.len() && (forall|n: int|
                    0 <= n < l@.len() ==> ModAsset::decodes_to(#[trigger] l@[n], v@[n])),
                Option::None => ModAsset::list_undecodable(l@),
            },
        decreases *l,
    {
        match l {
            JsonList::Nil => {
                let r: Vec<ModAsset> = Vec::new();
                Option::Some(r)
            },
            JsonList::Cons(h, t) => {
                let t2: &JsonList = &*t;
                proof {
                    assert(l@[0] == h@);
                    assert(l@.drop_first() =~= t2@);
                }
                match ModAsset::from_json(h) {
                    Option::Some(x) => match ModAsset::list_from_json(t2) {
                        Option::Some(rest) => {
                            let ghost rest_v = rest@;
                            let mut out: Vec<ModAsset> = Vec::new();
                            out.push(x);
                            let mut rest = rest;
                            out.append(&mut rest);
                            proof {
                                assert(out@ == seq![x] + rest_v);
                                assert forall|n: int| 0 <= n < l@.len() implies ModAsset::decodes_to(
                                    #[trigger] l@[n], out@[n],
                                ) by {
                                    if n > 0 {
                                        assert(l@[n] == t2@[n - 1]);
                                        assert(out@[n] == rest_v[n - 1]);
                                    }
                                }
                            }
                            Option::Some(out)
                        },
                        Option::None => Option::None,
                    },
                    Option::None => Option::None,
                }
            },
        }
    }

    /// Whether some item of the array has no decoding.
    pub open spec fn list_undecodable(l: Seq<JsonV>) -> bool
        decreases l.len(),
    {
        l.len() > 0 && ((forall|x: ModAsset| !(#[trigger] ModAsset::decodes_to(l[0], x)))
            || ModAsset::list_undecodable(l.drop_first()))
    }

    /// An array with an undecodable item decodes to no list of values.
    pub proof fn lemma_list_undecodable(l: Seq<JsonV>, v: Seq<ModAsset>)
        requires
            ModAsset::list_undecodable(l),
            l.len() == v.len(),
        ensures
            !(forall|n: int| 0 <= n < l.len() ==> ModAsset::decodes_to(#[trigger] l[n], v[n])),
        decreases l.len(),
    {
        if forall|n: int| 0 <= n < l.len() ==> ModAsset::decodes_to(#[trigger] l[n], v[n]) {
            assert(ModAsset::decodes_to(l[0], v[0]));
            if forall|x: ModAsset| !(#[trigger] ModAsset::decodes_to(l[0], x)) {
                assert(!ModAsset::decodes_to(l[0], v[0]));
            } else {
                assert(ModAsset::list_undecodable(l.drop_first()));
                assert forall|n: int|
                    0 <= n < l.drop_first().len() implies ModAsset::decodes_to(
                    #[trigger] l.drop_first()[n], v.drop_first()[n],
                ) by {
                    assert(l.drop_first()[n] == l[n + 1]);
                    assert(v.drop_first()[n] == v[n + 1]);
                }
                ModAsset::lemma_list_undecodable(l.drop_first(), v.drop_first());
            }
        }
    }


    /// The JSON document of a value decodes back to it.
    pub proof fn lemma_decodes_self(x: ModAsset)
        ensures
            ModAsset::decodes_to(x.jv(), x),
    {
        let o = x.jv()->Obj_0;
        assert(crate::json::obj_get(o, "id"@) == Option::Some(JsonV::Int(x.id as int))) by {
            reveal_strlit("id");
            reveal_with_fuel(crate::json::obj_get, 7);
        }
        assert(crate::json::obj_get(o, "modId"@) == Option::Some(JsonV::Int(x.mod_id as int))) by {
            reveal_strlit("id");
            reveal_strlit("modId");
            assert("id"@.len() == 2);
            assert("modId"@.len() == 5);
            assert("id"@ != "modId"@);
            reveal_with_fuel(crate::json::obj_get, 7);
        }
        assert(crate::json::obj_get(o, "title"@) == Option::Some((match x.title { Option::Some(v) => JsonV::Str(v@), Option::None => JsonV::Null }))) by {
            reveal_strlit("id");
            reveal_strlit("modId");
            reveal_strlit("title");
            assert("id"@.len() == 2);
            assert("title"@.len() == 5);
            assert("id"@ != "title"@);
            assert("modId"@[0] == 'm');
            assert("title"@[0] == 't');
            assert("modId"@ != "title"@);
            reveal_with_fuel(crate::json::obj_get, 7);
        }
        assert(crate::json::obj_get(o, "description"@) == Option::Some((match x.description { Option::Some(v) => JsonV::Str(v@), Option::None => JsonV::Null }))) by {
            reveal_strlit("id");
            reveal_strlit("modId");
            reveal_strlit("title");
            reveal_strlit("description");
            assert("id"@.len() == 2);
            assert("description"@.len() == 11);
            assert("id"@ != "description"@);
            assert("modId"@.len() == 5);
            assert("description"@.len() == 11);
            assert("modId"@ != "description"@);
            assert("title"@.len() == 5);
            assert("description"@.len() == 11);
            assert("title"@ != "description"@);
            reveal_with_fuel(crate::json::obj_get, 7);
        }
        assert(crate::json::obj_get(o, "thumbnailUrl"@) == Option::Some((match x.thumbnail_url { Option::Some(v) => JsonV::Str(v@), Option::None => JsonV::Null }))) by {
            reveal_strlit("id");
            reveal_strlit("modId");
            reveal_strlit("title");
            reveal_strlit("description");
            reveal_strlit("thumbnailUrl");
            assert("id"@.len() == 2);
            assert("thumbnailUrl"@.len() == 12);
            assert("id"@ != "thumbnailUrl"@);
            assert("modId"@.len() == 5);
            assert("thumbnailUrl"@.len() == 12);
            assert("modId"@ != "thumbnailUrl"@);
            assert("title"@.len() == 5);
            assert("thumbnailUrl"@.len() == 12);
            assert("title"@ != "thumbnailUrl"@);
            assert("description"@.len() == 11);
            assert("thumbnailUrl"@.len() == 12);
            assert("description"@ != "thumbnailUrl"@);
            reveal_with_fuel(crate::json::obj_get, 7);
        }
        assert(crate::json::obj_get(o, "url"@) == Option::Some((match x.url { Option::Some(v) => JsonV::Str(v@), Option::None => JsonV::Null }))) by {
            reveal_strlit("id");
            reveal_strlit("modId");
            reveal_strlit("title");
            reveal_strlit("description");
            reveal_strlit("thumbnailUrl");
            reveal_strlit("url");
            assert("id"@.len() == 2);
            assert("url"@.len() == 3);
            assert("id"@ != "url"@);
            assert("modId"@.len() == 5);
            assert("url"@.len() == 3);
            assert("modId"@ != "url"@);
            assert("title"@.len() == 5);
            assert("url"@.len() == 3);
            assert("title"@ != "url"@);
            assert("description"@.len() == 11);
            assert("url"@.len() == 3);
            assert("description"@ != "url"@);
            assert("thumbnailUrl"@.len() == 12);
            assert("url"@.len() == 3);
            assert("thumbnailUrl"@ != "url"@);
            reveal_with_fuel(crate::json::obj_get, 7);
        }
    }

    /// Two values that one JSON document decodes to are equal, field for field.
    pub proof fn lemma_deterministic(j: JsonV, x: ModAsset, y: ModAsset)
        requires
            ModAsset::decodes_to(j, x),
            ModAsset::decodes_to(j, y),
        ensures
            y.id == x.id,
            y.mod_id == x.mod_id,
            crate::fields::view_opt_str(y.title) == crate::fields::view_opt_str(x.title),
            crate::fields::view_opt_str(y.description) == crate::fields::view_opt_str(x.description),
            crate::fields::view_opt_str(y.thumbnail_url) == crate::fields::view_opt_str(x.thumbnail_url),
            crate::fields::view_opt_str(y.url) == crate::fields::view_opt_str(x.url),
            y.jv() == x.jv(),
    {
        let o = j->Obj_0;
        assert(JsonV::Int(y.id as int) =~~= JsonV::Int(x.id as int));
        assert(JsonV::Int(y.mod_id as int) =~~= JsonV::Int(x.mod_id as int));
        assert((match y.title { Option::Some(v) => JsonV::Str(v@), Option::None => JsonV::Null }) =~~= (match x.title { Option::Some(v) => JsonV::Str(v@), Option::None => JsonV::Null }));
        assert((match y.description { Option::Some(v) => JsonV::Str(v@), Option::None => JsonV::Null }) =~~= (match x.description { Option::Some(v) => JsonV::Str(v@), Option::None => JsonV::Null }));
        assert((match y.thumbnail_url { Option::Some(v) => JsonV::Str(v@), Option::None => JsonV::Null }) =~~= (match x.thumbnail_url { Option::Some(v) => JsonV::Str(v@), Option::None => JsonV::Null }));
        assert((match y.url { Option::Some(v) => JsonV::Str(v@), Option::None => JsonV::Null }) =~~= (match x.url { Option::Some(v) => JsonV::Str(v@), Option::None => JsonV::Null }));
        let oy = y.jv()->Obj_0;
        let ox = x.jv()->Obj_0;
        assert(oy[0] =~~= ox[0]);
        assert(oy[1] =~~= ox[1]);
        assert(oy[2] =~~= ox[2]);
        assert(oy[3] =~~= ox[3]);
        assert(oy[4] =~~= ox[4]);
        assert(oy[5] =~~= ox[5]);
        assert forall|n: int| 0 <= n < ox.len() implies oy[n] =~~= ox[n] by {
            if n == 0 {
                assert(oy[n] =~~= ox[n]);
            } else if n == 1 {
                assert(oy[n] =~~= ox[n]);
            } else if n == 2 {
                assert(oy[n] =~~= ox[n]);
            } else if n == 3 {
                assert(oy[n] =~~= ox[n]);
            } else if n == 4 {
                assert(oy[n] =~~= ox[n]);
            } else if n == 5 {
                assert(oy[n] =~~= ox[n]);
            }
        }
        assert(oy =~~= ox);
        assert(y.jv() =~~= x.jv());
    }
}

/// A game version in the forms used for sorting.
#[derive(Debug, Clone)]
pub struct SortableGameVersion {
    pub game_version_name: String,
    pub game_version_padded: String,
    pub game_version: String,
    pub game_version_release_date: String,
    pub game_version_type_id: Option<i32>,
}

impl SortableGameVersion {
    /// The JSON document of this value, member for member.
    pub open spec fn jv(self) -> JsonV {
        JsonV::Obj(seq![
            ("gameVersionName"@, JsonV::Str(self.game_version_name@)),
            ("gameVersionPadded"@, JsonV::Str(self.game_version_padded@)),
            ("gameVersion"@, JsonV::Str(self.game_version@)),
            ("gameVersionReleaseDate"@, JsonV::Str(self.game_version_release_date@)),
            ("gameVersionTypeId"@, (match self.game_version_type_id { Option::Some(v) => JsonV::Int(v as int), Option::None => JsonV::Null })),
        ])
    }

    /// What it means for a JSON document to decode to this value.
    pub open spec fn decodes_to(j: JsonV, x: SortableGameVersion) -> bool {
        &&& j matches JsonV::Obj(o)
        &&& crate::fields::jv_str(o, "gameVersionName"@) == Option::Some(x.game_version_name@)
        &&& crate::fields::jv_str(o, "gameVersionPadded"@) == Option::Some(x.game_version_padded@)
        &&& crate::fields::jv_str(o, "gameVersion"@) == Option::Some(x.game_version@)
        &&& crate::fields::jv_str(o, "gameVersionReleaseDate"@) == Option::Some(x.game_version_release_date@)
        &&& crate::fields::jv_opt_i32(o, "gameVersionTypeId"@) == Option::Some(x.game_version_type_id)
    }

    pub fn to_json(&self) -> (r: Json)
        ensures
            r@ == self.jv(),
    {
        let mut m = JsonMembers::Nil;
        m = crate::fields::cons_member("gameVersionTypeId", crate::fields::opt_i32_json(&self.game_version_type_id), m);
        m = crate::fields::cons_member("gameVersionReleaseDate", Json::Str(self.game_version_release_date.clone()), m);
        m = crate::fields::cons_member("gameVersion", Json::Str(self.game_version.clone()), m);
        m = crate::fields::cons_member("gameVersionPadded", Json::Str(self.game_version_padded.clone()), m);
        m = crate::fields::cons_member("gameVersionName", Json::Str(self.game_version_name.clone()), m);
        let ghost m_v = m@;
        let r = Json::Obj(Box::new(m));
        proof {
            assert(r matches Json::Obj(o2) && crate::json::members_view(*o2) == m_v);
            assert(r@ == JsonV::Obj(m_v));
            assert(m_v.len() == 5);
            assert(m_v[0] =~~= ("gameVersionName"@, JsonV::Str(self.game_version_name@)));
            assert(m_v[1] =~~= ("gameVersionPadded"@, JsonV::Str(self.game_version_padded@)));
            assert(m_v[2] =~~= ("gameVersion"@, JsonV::Str(self.game_version@)));
            assert(m_v[3] =~~= ("gameVersionReleaseDate"@, JsonV::Str(self.game_version_release_date@)));
            assert(m_v[4] =~~= ("gameVersionTypeId"@, (match self.game_version_type_id { Option::Some(v) => JsonV::Int(v as int), Option::None => JsonV::Null })));
            assert(m_v =~~= self.jv()->Obj_0);
            assert(r@ =~~= self.jv());
        }
        r
    }

    pub fn from_json(j: &Json) -> (r: Option<SortableGameVersion>)
        ensures
            r matches Option::Some(x) ==> SortableGameVersion::decodes_to(j@, x),
            r is None ==> forall|x: SortableGameVersion| !SortableGameVersion::decodes_to(j@, x),
    {
        match j {
            Json::Obj(m) => {
            let game_version_name = match crate::fields::get_str(m, "gameVersionName") {
                Option::Some(v) => v,
                Option::None => {
                    return Option::None;
                },
            };
            let game_version_padded = match crate::fields::get_str(m, "gameVersionPadded") {
                Option::Some(v) => v,
                Option::None => {
                    return Option::None;
                },
            };
            let game_version = match crate::fields::get_str(m, "gameVersion") {
                Option::Some(v) => v,
                Option::None => {
                    return Option::None;
                },
            };
            let game_version_release_date = match crate::fields::get_str(m, "gameVersionReleaseDate") {
                Option::Some(v) => v,
                Option::None => {
                    return Option::None;
                },
            };
            let game_version_type_id = match crate::fields::get_opt_i32(m, "gameVersionTypeId") {
                Option::Some(v) => v,
                Option::None => {
                    return Option::None;
                },
            };
                Option::Some(SortableGameVersion {
                    game_version_name,
                    game_version_padded,
                    game_version,
                    game_version_release_date,
                    game_version_type_id,
                })
            },
            _ => Option::None,
        }
    }

    /// Builds the JSON array of a list of these values, from position `i` on.
    pub fn list_to_json(v: &Vec<SortableGameVersion>, i: usize) -> (r: JsonList)
        requires
            i <= v@.len(),
        ensures
            r@ == Seq::new((v@.len() - i as int) as nat, |k: int| v@[i + k].jv()),
        decreases v@.len() - i,
    {
        if i < v.len() {
            let rest = SortableGameVersion::list_to_json(v, i + 1);
            let ghost rest_v = rest@;
            let hd = v[i].to_json();
            let ghost hd_v = hd@;
            let r = JsonList::Cons(hd, Box::new(rest));
            proof {
                let target = Seq::new((v@.len() - i as int) as nat, |k: int| v@[i + k].jv());
                assert(r matches JsonList::Cons(h, t) && crate::json::json_view(h) == hd_v
                    && crate::json::list_view(*t) == rest_v);
                assert(crate::json::list_view(r) == seq![hd_v] + rest_v);
                assert forall|n: int| 0 <= n < target.len() implies crate::json::list_view(r)[n]
                    == target[n] by {
                    if n > 0 {
                        assert(crate::json::list_view(r)[n] == rest_v[n - 1]);
                        assert(rest_v[n - 1] == v@[i + 1 + (n - 1)].jv());
                    }
                }
                assert(r@ =~= target);
            }
            r
        } else {
            let r = JsonList::Nil;
            proof {
                assert(r@ =~= Seq::new((v@.len() - i as int) as nat, |k: int| v@[i + k].jv()));
            }
            r
        }
    }

    /// Decodes a JSON array of these values.
    pub fn list_from_json(l: &JsonList) -> (r: Option<Vec<SortableGameVersion>>)
        ensures
            match r {
                Option::Some(v) => v@.len() == l@.len() && (forall|n: int|
                    0 <= n < l@.len() ==> SortableGameVersion::decodes_to(#[trigger] l@[n], v@[n])),
                Option::None => SortableGameVersion::list_undecodable(l@),
            },
        decreases *l,
    {
        match l {
            JsonList::Nil => {
                let r: Vec<SortableGameVersion> = Vec::new();
                Option::Some(r)
            },
            JsonList::Cons(h, t) => {
                let t2: &JsonList = &*t;
                proof {
                    assert(l@[0] == h@);
                    assert(l@.drop_first() =~= t2@);
                }
                match SortableGameVersion::from_json(h) {
                    Option::Some(x) => match SortableGameVersion::list_from_json(t2) {
                        Option::Some(rest) => {
                            let ghost rest_v = rest@;
                            let mut out: Vec<SortableGameVersion> = Vec::new();
                            out.push(x);
                            let mut rest = rest;
                            out.append(&mut rest);
                            proof {
                                assert(out@ == seq![x] + rest_v);
                                assert forall|n: int| 0 <= n < l@.len() implies SortableGameVersion::decodes_to(
                                    #[trigger] l@[n], out@[n],
                                ) by {
                                    if n > 0 {
                                        assert(l@[n] == t2@[n - 1]);
                                        assert(out@[n] == rest_v[n - 1]);
                                    }
                                }
                            }
                            Option::Some(out)
                        },
                        Option::None => Option::None,
                    },
                    Option::None => Option::None,
                }
            },
        }
    }

    /// Whether some item of the array has no decoding.
    pub open spec fn list_undecodable(l: Seq<JsonV>) -> bool
        decreases l.len(),
    {
        l.len() > 0 && ((forall|x: SortableGameVersion| !(#[trigger] SortableGameVersion::decodes_to(l[0], x)))
            || SortableGameVersion::list_undecodable(l.drop_first()))
    }

    /// An array with an undecodable item decodes to no list of values.
    pub proof fn lemma_list_undecodable(l: Seq<JsonV>, v: Seq<SortableGameVersion>)
        requires
            SortableGameVersion::list_undecodable(l),
            l.len() == v.len(),
        ensures
            !(forall|n: int| 0 <= n < l.len() ==> SortableGameVersion::decodes_to(#[trigger] l[n], v[n])),
        decreases l.len(),
    {
        if forall|n: int| 0 <= n < l.len() ==> SortableGameVersion::decodes_to(#[trigger] l[n], v[n]) {
            assert(SortableGameVersion::decodes_to(l[0], v[0]));
            if forall|x: SortableGameVersion| !(#[trigger] SortableGameVersion::decodes_to(l[0], x)) {
                assert(!SortableGameVersion::decodes_to(l[0], v[0]));
            } else {
                assert(SortableGameVersion::list_undecodable(l.drop_first()));
                assert forall|n: int|
                    0 <= n < l.drop_first().len() implies SortableGameVersion::decodes_to(
                    #[trigger] l.drop_first()[n], v.drop_first()[n],
                ) by {
                    assert(l.drop_first()[n] == l[n + 1]);
                    assert(v.drop_first()[n] == v[n + 1]);
                }
                SortableGameVersion::lemma_list_undecodable(l.drop_first(), v.drop_first());
            }
        }
    }


    /// The JSON document of a value decodes back to it.
    pub proof fn lemma_decodes_self(x: SortableGameVersion)
        ensures
            SortableGameVersion::decodes_to(x.jv(), x),
    {
        let o = x.jv()->Obj_0;
        assert(crate::json::obj_get(o, "gameVersionName"@) == Option::Some(JsonV::Str(x.game_version_name@))) by {
            reveal_strlit("gameVersionName");
            reveal_with_fuel(crate::json::obj_get, 6);
        }
        assert(crate::json::obj_get(o, "gameVersionPadded"@) == Option::Some(JsonV::Str(x.game_version_padded@))) by {
            reveal_strlit("gameVersionName");
            reveal_strlit("gameVersionPadded");
            assert("gameVersionName"@.len() == 15);
            assert("gameVersionPadded"@.len() == 17);
            assert("gameVersionName"@ != "gameVersionPadded"@);
            reveal_with_fuel(crate::json::obj_get, 6);
        }
        assert(crate::json::obj_get(o, "gameVersion"@) == Option::Some(JsonV::Str(x.game_version@))) by {
            reveal_strlit("gameVersionName");
            reveal_strlit("gameVersionPadded");
            reveal_strlit("gameVersion");
            assert("gameVersionName"@.len() == 15);
            assert("gameVersion"@.len() == 11);
            assert("gameVersionName"@ != "gameVersion"@);
            assert("gameVersionPadded"@.len() == 17);
            assert("gameVersion"@.len() == 11);
            assert("gameVersionPadded"@ != "gameVersion"@);
            reveal_with_fuel(crate::json::obj_get, 6);
        }
        assert(crate::json::obj_get(o, "gameVersionReleaseDate"@) == Option::Some(JsonV::Str(x.game_version_release_date@))) by {
            reveal_strlit("gameVersionName");
            reveal_strlit("gameVersionPadded");
            reveal_strlit("gameVersion");
            reveal_strlit("gameVersionReleaseDate");
            assert("gameVersionName"@.len() == 15);
            assert("gameVersionReleaseDate"@.len() == 22);
            assert("gameVersionName"@ != "gameVersionReleaseDate"@);
            assert("gameVersionPadded"@.len() == 17);
            assert("gameVersionReleaseDate"@.len() == 22);
            assert("gameVersionPadded"@ != "gameVersionReleaseDate"@);
            assert("gameVersion"@.len() == 11);
            assert("gameVersionReleaseDate"@.len() == 22);
            assert("gameVersion"@ != "gameVersionReleaseDate"@);
            reveal_with_fuel(crate::json::obj_get, 6);
        }
        assert(crate::json::obj_get(o, "gameVersionTypeId"@) == Option::Some((match x.game_version_type_id { Option::Some(v) => JsonV::Int(v as int), Option::None => JsonV::Null }))) by {
            reveal_strlit("gameVersionName");
            reveal_strlit("gameVersionPadded");
            reveal_strlit("gameVersion");
            reveal_strlit("gameVersionReleaseDate");
            reveal_strlit("gameVersionTypeId");
            assert("gameVersionName"@.len() == 15);
            assert("gameVersionTypeId"@.len() == 17);
            assert("gameVersionName"@ != "gameVersionTypeId"@);
            assert("gameVersionPadded"@[11] == 'P');
            assert("gameVersionTypeId"@[11] == 'T');
            assert("gameVersionPadded"@ != "gameVersionTypeId"@);
            assert("gameVersion"@.len() == 11);
            assert("gameVersionTypeId"@.len() == 17);
            assert("gameVersion"@ != "gameVersionTypeId"@);
            assert("gameVersionReleaseDate"@.len() == 22);
            assert("gameVersionTypeId"@.len() == 17);
            assert("gameVersionReleaseDate"@ != "gameVersionTypeId"@);
            reveal_with_fuel(crate::json::obj_get, 6);
        }
    }

    /// Two values that one JSON document decodes to are equal, field for field.
    pub proof fn lemma_deterministic(j: JsonV, x: SortableGameVersion, y: SortableGameVersion)
        requires
            SortableGameVersion::decodes_to(j, x),
            SortableGameVersion::decodes_to(j, y),
        ensures
            y.game_version_name@ == x.game_version_name@,
            y.game_version_padded@ == x.game_version_padded@,
            y.game_version@ == x.game_version@,
            y.game_version_release_date@ == x.game_version_release_date@,
            y.game_version_type_id == x.game_version_type_id,
            y.jv() == x.jv(),
    {
        let o = j->Obj_0;
        assert(JsonV::Str(y.game_version_name@) =~~= JsonV::Str(x.game_version_name@));
        assert(JsonV::Str(y.game_version_padded@) =~~= JsonV::Str(x.game_version_padded@));
        assert(JsonV::Str(y.game_version@) =~~= JsonV::Str(x.game_version@));
        assert(JsonV::Str(y.game_version_release_date@) =~~= JsonV::Str(x.game_version_release_date@));
        assert((match y.game_version_type_id { Option::Some(v) => JsonV::Int(v as int), Option::None => JsonV::Null }) =~~= (match x.game_version_type_id { Option::Some(v) => JsonV::Int(v as int), Option::None => JsonV::Null }));
        let oy = y.jv()->Obj_0;
        let ox = x.jv()->Obj_0;
        assert(oy[0] =~~= ox[0]);
        assert(oy[1] =~~= ox[1]);
        assert(oy[2] =~~= ox[2]);
        assert(oy[3] =~~= ox[3]);
        assert(oy[4] =~~= ox[4]);
        assert forall|n: int| 0 <= n < ox.len() implies oy[n] =~~= ox[n] by {
            if n == 0 {
                assert(oy[n] =~~= ox[n]);
            } else if n == 1 {
                assert(oy[n] =~~= ox[n]);
            } else if n == 2 {
                assert(oy[n] =~~= ox[n]);
            } else if n == 3 {
                assert(oy[n] =~~= ox[n]);
            } else if n == 4 {
                assert(oy[n] =~~= ox[n]);
            }
        }
        assert(oy =~~= ox);
        assert(y.jv() =~~= x.jv());
    }
}

/// A relation from a file to another mod.
#[derive(Debug, Clone)]
pub struct FileDependency {
    pub mod_id: i32,
    pub relation_type: FileRelationType,
}

impl FileDependency {
    /// The JSON document of this value, member for member.
    pub open spec fn jv(self) -> JsonV {
        JsonV::Obj(seq![
            ("modId"@, JsonV::Int(self.mod_id as int)),
            ("relationType"@, JsonV::Int(self.relation_type.code())),
        ])
    }

    /// What it means for a JSON document to decode to this value.
    pub open spec fn decodes_to(j: JsonV, x: FileDependency) -> bool {
        &&& j matches JsonV::Obj(o)
        &&& crate::fields::jv_i32(o, "modId"@) == Option::Some(x.mod_id)
        &&& FileRelationType::from_member(o, "relationType"@) == Option::Some(x.relation_type)
    }

    pub fn to_json(&self) -> (r: Json)
        ensures
            r@ == self.jv(),
    {
        let mut m = JsonMembers::Nil;
        m = crate::fields::cons_member("relationType", Json::Int(self.relation_type.to_code()), m);
        m = crate::fields::cons_member("modId", Json::Int(self.mod_id as i64), m);
        let ghost m_v = m@;
        let r = Json::Obj(Box::new(m));
        proof {
            assert(r matches Json::Obj(o2) && crate::json::members_view(*o2) == m_v);
            assert(r@ == JsonV::Obj(m_v));
            assert(m_v.len() == 2);
            assert(m_v[0] =~~= ("modId"@, JsonV::Int(self.mod_id as int)));
            assert(m_v[1] =~~= ("relationType"@, JsonV::Int(self.relation_type.code())));
            assert(m_v =~~= self.jv()->Obj_0);
            assert(r@ =~~= self.jv());
        }
        r
    }

    pub fn from_json(j: &Json) -> (r: Option<FileDependency>)
        ensures
            r matches Option::Some(x) ==> FileDependency::decodes_to(j@, x),
            r is None ==> forall|x: FileDependency| !FileDependency::decodes_to(j@, x),
    {
        match j {
            Json::Obj(m) => {
            let mod_id = match crate::fields::get_i32(m, "modId") {
                Option::Some(v) => v,
                Option::None => {
                    return Option::None;
                },
            };
            let relation_type = match FileRelationType::get_member(m, "relationType") {
                Option::Some(v) => v,
                Option::None => {
                    return Option::None;
                },
            };
                Option::Some(FileDependency {
                    mod_id,
                    relation_type,
                })
            },
            _ => Option::None,
        }
    }

    /// Builds the JSON array of a list of these values, from position `i` on.
    pub fn list_to_json(v: &Vec<FileDependency>, i: usize) -> (r: JsonList)
        requires
            i <= v@.len(),
        ensures
            r@ == Seq::new((v@.len() - i as int) as nat, |k: int| v@[i + k].jv()),
        decreases v@.len() - i,
    {
        if i < v.len() {
            let rest = FileDependency::list_to_json(v, i + 1);
            let ghost rest_v = rest@;
            let hd = v[i].to_json();
            let ghost hd_v = hd@;
            let r = JsonList::Cons(hd, Box::new(rest));
            proof {
                let target = Seq::new((v@.len() - i as int) as nat, |k: int| v@[i + k].jv());
                assert(r matches JsonList::Cons(h, t) && crate::json::json_view(h) == hd_v
                    && crate::json::list_view(*t) == rest_v);
                assert(crate::json::list_view(r) == seq![hd_v] + rest_v);
                assert forall|n: int| 0 <= n < target.len() implies crate::json::list_view(r)[n]
                    == target[n] by {
                    if n > 0 {
                        assert(crate::json::list_view(r)[n] == rest_v[n - 1]);
                        assert(rest_v[n - 1] == v@[i + 1 + (n - 1)].jv());
                    }
                }
                assert(r@ =~= target);
            }
            r
        } else {
            let r = JsonList::Nil;
            proof {
                assert(r@ =~= Seq::new((v@.len() - i as int) as nat, |k: int| v@[i + k].jv()));
            }
            r
        }
    }

    /// Decodes a JSON array of these values.
    pub fn list_from_json(l: &JsonList) -> (r: Option<Vec<FileDependency>>)
        ensures
            match r {
                Option::Some(v) => v@.len() == l@.len() && (forall|n: int|
                    0 <= n < l@.len() ==> FileDependency::decodes_to(#[trigger] l@[n], v@[n])),
                Option::None => FileDependency::list_undecodable(l@),
            },
        decreases *l,
    {
        match l {
            JsonList::Nil => {
                let r: Vec<FileDependency> = Vec::new();
                Option::Some(r)
            },
            JsonList::Cons(h, t) => {
                let t2: &JsonList = &*t;
                proof {
                    assert(l@[0] == h@);
                    assert(l@.drop_first() =~= t2@);
                }
                match FileDependency::from_json(h) {
                    Option::Some(x) => match FileDependency::list_from_json(t2) {
                        Option::Some(rest) => {
                            let ghost rest_v = rest@;
                            let mut out: Vec<FileDependency> = Vec::new();
                            out.push(x);
                            let mut rest = rest;
                            out.append(&mut rest);
                            proof {
                                assert(out@ == seq![x] + rest_v);
                                assert forall|n: int| 0 <= n < l@.len() implies FileDependency::decodes_to(
                                    #[trigger] l@[n], out@[n],
                                ) by {
                                    if n > 0 {
                                        assert(l@[n] == t2@[n - 1]);
                                        assert(out@[n] == rest_v[n - 1]);
                                    }
                                }
                            }
                            Option::Some(out)
                        },
                        Option::None => Option::None,
                    },
                    Option::None => Option::None,
                }
            },
        }
    }

    /// Whether some item of the array has no decoding.
    pub open spec fn list_undecodable(l: Seq<JsonV>) -> bool
        decreases l.len(),
    {
        l.len() > 0 && ((forall|x: FileDependency| !(#[trigger] FileDependency::decodes_to(l[0], x)))
            || FileDependency::list_undecodable(l.drop_first()))
    }

    /// An array with an undecodable item decodes to no list of values.
    pub proof fn lemma_list_undecodable(l: Seq<JsonV>, v: Seq<FileDependency>)
        requires
            FileDependency::list_undecodable(l),
            l.len() == v.len(),
        ensures
            !(forall|n: int| 0 <= n < l.len() ==> FileDependency::decodes_to(#[trigger] l[n], v[n])),
        decreases l.len(),
    {
        if forall|n: int| 0 <= n < l.len() ==> FileDependency::decodes_to(#[trigger] l[n], v[n]) {
            assert(FileDependency::decodes_to(l[0], v[0]));
            if forall|x: FileDependency| !(#[trigger] FileDependency::decodes_to(l[0], x)) {
                assert(!FileDependency::decodes_to(l[0], v[0]));
            } else {
                assert(FileDependency::list_undecodable(l.drop_first()));
                assert forall|n: int|
                    0 <= n < l.drop_first().len() implies FileDependency::decodes_to(
                    #[trigger] l.drop_first()[n], v.drop_first()[n],
                ) by {
                    assert(l.drop_first()[n] == l[n + 1]);
                    assert(v.drop_first()[n] == v[n + 1]);
                }
                FileDependency::lemma_list_undecodable(l.drop_first(), v.drop_first());
            }
        }
    }


    /// The JSON document of a value decodes back to it.
    pub proof fn lemma_decodes_self(x: FileDependency)
        ensures
            FileDependency::decodes_to(x.jv(), x),
    {
        let o = x.jv()->Obj_0;
        assert(crate::json::obj_get(o, "modId"@) == Option::Some(JsonV::Int(x.mod_id as int))) by {
            reveal_strlit("modId");
            reveal_with_fuel(crate::json::obj_get, 3);
        }
        assert(crate::json::obj_get(o, "relationType"@) == Option::Some(JsonV::Int(x.relation_type.code()))) by {
            reveal_strlit("modId");
            reveal_strlit("relationType");
            assert("modId"@.len() == 5);
            assert("relationType"@.len() == 12);
            assert("modId"@ != "relationType"@);
            reveal_with_fuel(crate::json::obj_get, 3);
        }
        x.relation_type.lemma_code_inverse(0);
    }

    /// Two values that one JSON document decodes to are equal, field for field.
    pub proof fn lemma_deterministic(j: JsonV, x: FileDependency, y: FileDependency)
        requires
            FileDependency::decodes_to(j, x),
            FileDependency::decodes_to(j, y),
        ensures
            y.mod_id == x.mod_id,
            y.relation_type == x.relation_type,
            y.jv() == x.jv(),
    {
        let o = j->Obj_0;
        assert(JsonV::Int(y.mod_id as int) =~~= JsonV::Int(x.mod_id as int));
        assert(JsonV::Int(y.relation_type.code()) =~~= JsonV::Int(x.relation_type.code()));
        let oy = y.jv()->Obj_0;
        let ox = x.jv()->Obj_0;
        assert(oy[0] =~~= ox[0]);
        assert(oy[1] =~~= ox[1]);
        assert forall|n: int| 0 <= n < ox.len() implies oy[n] =~~= ox[n] by {
            if n == 0 {
                assert(oy[n] =~~= ox[n]);
            } else if n == 1 {
                assert(oy[n] =~~= ox[n]);
            }
        }
        assert(oy =~~= ox);
        assert(y.jv() =~~= x.jv());
    }
}

/// A digest of a file's content.
#[derive(Debug, Clone)]
pub struct FileHash {
    pub value: String,
    pub algo: HashAlgo,
}

impl FileHash {
    /// The JSON document of this value, member for member.
    pub open spec fn jv(self) -> JsonV {
        JsonV::Obj(seq![
            ("value"@, JsonV::Str(self.value@)),
            ("algo"@, JsonV::Int(self.algo.code())),
        ])
    }

    /// What it means for a JSON document to decode to this value.
    pub open spec fn decodes_to(j: JsonV, x: FileHash) -> bool {
        &&& j matches JsonV::Obj(o)
        &&& crate::fields::jv_str(o, "value"@) == Option::Some(x.value@)
        &&& HashAlgo::from_member(o, "algo"@) == Option::Some(x.algo)
    }

    pub fn to_json(&self) -> (r: Json)
        ensures
            r@ == self.jv(),
    {
        let mut m = JsonMembers::Nil;
        m = crate::fields::cons_member("algo", Json::Int(self.algo.to_code()), m);
        m = crate::fields::cons_member("value", Json::Str(self.value.clone()), m);
        let ghost m_v = m@;
        let r = Json::Obj(Box::new(m));
        proof {
            assert(r matches Json::Obj(o2) && crate::json::members_view(*o2) == m_v);
            assert(r@ == JsonV::Obj(m_v));
            assert(m_v.len() == 2);
            assert(m_v[0] =~~= ("value"@, JsonV::Str(self.value@)));
            assert(m_v[1] =~~= ("algo"@, JsonV::Int(self.algo.code())));
            assert(m_v =~~= self.jv()->Obj_0);
            assert(r@ =~~= self.jv());
        }
        r
    }

    pub fn from_json(j: &Json) -> (r: Option<FileHash>)
        ensures
            r matches Option::Some(x) ==> FileHash::decodes_to(j@, x),
            r is None ==> forall|x: FileHash| !FileHash::decodes_to(j@, x),
    {
        match j {
            Json::Obj(m) => {
            let value = match crate::fields::get_str(m, "value") {
                Option::Some(v) => v,
                Option::None => {
                    return Option::None;
                },
            };
            let algo = match HashAlgo::get_member(m, "algo") {
                Option::Some(v) => v,
                Option::None => {
                    return Option::None;
                },
            };
                Option::Some(FileHash {
                    value,
                    algo,
                })
            },
            _ => Option::None,
        }
    }

    /// Builds the JSON array of a list of these values, from position `i` on.
    pub fn list_to_json(v: &Vec<FileHash>, i: usize) -> (r: JsonList)
        requires
            i <= v@.len(),
        ensures
            r@ == Seq::new((v@.len() - i as int) as nat, |k: int| v@[i + k].jv()),
        decreases v@.len() - i,
    {
        if i < v.len() {
            let rest = FileHash::list_to_json(v, i + 1);
            let ghost rest_v = rest@;
            let hd = v[i].to_json();
            let ghost hd_v = hd@;
            let r = JsonList::Cons(hd, Box::new(rest));
            proof {
                let target = Seq::new((v@.len() - i as int) as nat, |k: int| v@[i + k].jv());
                assert(r matches JsonList::Cons(h, t) && crate::json::json_view(h) == hd_v
                    && crate::json::list_view(*t) == rest_v);
                assert(crate::json::list_view(r) == seq![hd_v] + rest_v);
                assert forall|n: int| 0 <= n < target.len() implies crate::json::list_view(r)[n]
                    == target[n] by {
                    if n > 0 {
                        assert(crate::json::list_view(r)[n] == rest_v[n - 1]);
                        assert(rest_v[n - 1] == v@[i + 1 + (n - 1)].jv());
                    }
                }
                assert(r@ =~= target);
            }
            r
        } else {
            let r = JsonList::Nil;
            proof {
                assert(r@ =~= Seq::new((v@.len() - i as int) as nat, |k: int| v@[i + k].jv()));
            }
            r
        }
    }

    /// Decodes a JSON array of these values.
    pub fn list_from_json(l: &JsonList) -> (r: Option<Vec<FileHash>>)
        ensures
            match r {
                Option::Some(v) => v@.len() == l@.len() && (forall|n: int|
                    0 <= n < l@.len() ==> FileHash::decodes_to(#[trigger] l@[n], v@[n])),
                Option::None => FileHash::list_undecodable(l@),
            },
        decreases *l,
    {
        match l {
            JsonList::Nil => {
                let r: Vec<FileHash> = Vec::new();
                Option::Some(r)
            },
            JsonList::Cons(h, t) => {
                let t2: &JsonList = &*t;
                proof {
                    assert(l@[0] == h@);
                    assert(l@.drop_first() =~= t2@);
                }
                match FileHash::from_json(h) {
                    Option::Some(x) => match FileHash::list_from_json(t2) {
                        Option::Some(rest) => {
                            let ghost rest_v = rest@;
                            let mut out: Vec<FileHash> = Vec::new();
                            out.push(x);
                            let mut rest = rest;
                            out.append(&mut rest);
                            proof {
                                assert(out@ == seq![x] + rest_v);
                                assert forall|n: int| 0 <= n < l@.len() implies FileHash::decodes_to(
                                    #[trigger] l@[n], out@[n],
                                ) by {
                                    if n > 0 {
                                        assert(l@[n] == t2@[n - 1]);
                                        assert(out@[n] == rest_v[n - 1]);
                                    }
                                }
                            }
                            Option::Some(out)
                        },
                        Option::None => Option::None,
                    },
                    Option::None => Option::None,
                }
            },
        }
    }

    /// Whether some item of the array has no decoding.
    pub open spec fn list_undecodable(l: Seq<JsonV>) -> bool
        decreases l.len(),
    {
        l.len() > 0 && ((forall|x: FileHash| !(#[trigger] FileHash::decodes_to(l[0], x)))
            || FileHash::list_undecodable(l.drop_first()))
    }

    /// An array with an undecodable item decodes to no list of values.
    pub proof fn lemma_list_undecodable(l: Seq<JsonV>, v: Seq<FileHash>)
        requires
            FileHash::list_undecodable(l),
            l.len() == v.len(),
        ensures
            !(forall|n: int| 0 <= n < l.len() ==> FileHash::decodes_to(#[trigger] l[n], v[n])),
        decreases l.len(),
    {
        if forall|n: int| 0 <= n < l.len() ==> FileHash::decodes_to(#[trigger] l[n], v[n]) {
            assert(FileHash::decodes_to(l[0], v[0]));
            if forall|x: FileHash| !(#[trigger] FileHash::decodes_to(l[0], x)) {
                assert(!FileHash::decodes_to(l[0], v[0]));
            } else {
                assert(FileHash::list_undecodable(l.drop_first()));
                assert forall|n: int|
                    0 <= n < l.drop_first().len() implies FileHash::decodes_to(
                    #[trigger] l.drop_first()[n], v.drop_first()[n],
                ) by {
                    assert(l.drop_first()[n] == l[n + 1]);
                    assert(v.drop_first()[n] == v[n + 1]);
                }
                FileHash::lemma_list_undecodable(l.drop_first(), v.drop_first());
            }
        }
    }


    /// The JSON document of a value decodes back to it.
    pub proof fn lemma_decodes_self(x: FileHash)
        ensures
            FileHash::decodes_to(x.jv(), x),
    {
        let o = x.jv()->Obj_0;
        assert(crate::json::obj_get(o, "value"@) == Option::Some(JsonV::Str(x.value@))) by {
            reveal_strlit("value");
            reveal_with_fuel(crate::json::obj_get, 3);
        }
        assert(crate::json::obj_get(o, "algo"@) == Option::Some(JsonV::Int(x.algo.code()))) by {
            reveal_strlit("value");
            reveal_strlit("algo");
            assert("value"@.len() == 5);
            assert("algo"@.len() == 4);
            assert("value"@ != "algo"@);
            reveal_with_fuel(crate::json::obj_get, 3);
        }
        x.algo.lemma_code_inverse(0);
    }

    /// Two values that one JSON document decodes to are equal, field for field.
    pub proof fn lemma_deterministic(j: JsonV, x: FileHash, y: FileHash)
        requires
            FileHash::decodes_to(j, x),
            FileHash::decodes_to(j, y),
        ensures
            y.value@ == x.value@,
            y.algo == x.algo,
            y.jv() == x.jv(),
    {
        let o = j->Obj_0;
        assert(JsonV::Str(y.value@) =~~= JsonV::Str(x.value@));
        assert(JsonV::Int(y.algo.code()) =~~= JsonV::Int(x.algo.code()));
        let oy = y.jv()->Obj_0;
        let ox = x.jv()->Obj_0;
        assert(oy[0] =~~= ox[0]);
        assert(oy[1] =~~= ox[1]);
        assert forall|n: int| 0 <= n < ox.len() implies oy[n] =~~= ox[n] by {
            if n == 0 {
                assert(oy[n] =~~= ox[n]);
            } else if n == 1 {
                assert(oy[n] =~~= ox[n]);
            }
        }
        assert(oy =~~= ox);
        assert(y.jv() =~~= x.jv());
    }
}

/// A module inside a file, with its fingerprint.
#[derive(Debug, Clone)]
pub struct FileModule {
    pub name: String,
    pub fingerprint: i64,
}

impl FileModule {
    /// The JSON document of this value, member for member.
    pub open spec fn jv(self) -> JsonV {
        JsonV::Obj(seq![
            ("name"@, JsonV::Str(self.name@)),
            ("fingerprint"@, JsonV::Int(self.fingerprint as int)),
        ])
    }

    /// What it means for a JSON document to decode to this value.
    pub open spec fn decodes_to(j: JsonV, x: FileModule) -> bool {
        &&& j matches JsonV::Obj(o)
        &&& crate::fields::jv_str(o, "name"@) == Option::Some(x.name@)
        &&& crate::fields::jv_i64(o, "fingerprint"@) == Option::Some(x.fingerprint)
    }

    pub fn to_json(&self) -> (r: Json)
        ensures
            r@ == self.jv(),
    {
        let mut m = JsonMembers::Nil;
        m = crate::fields::cons_member("fingerprint", Json::Int(self.fingerprint), m);
        m = crate::fields::cons_member("name", Json::Str(self.name.clone()), m);
        let ghost m_v = m@;
        let r = Json::Obj(Box::new(m));
        proof {
            assert(r matches Json::Obj(o2) && crate::json::members_view(*o2) == m_v);
            assert(r@ == JsonV::Obj(m_v));
            assert(m_v.len() == 2);
            assert(m_v[0] =~~= ("name"@, JsonV::Str(self.name@)));
            assert(m_v[1] =~~= ("fingerprint"@, JsonV::Int(self.fingerprint as int)));
            assert(m_v =~~= self.jv()->Obj_0);
            assert(r@ =~~= self.jv());
        }
        r
    }

    pub fn from_json(j: &Json) -> (r: Option<FileModule>)
        ensures
            r matches Option::Some(x) ==> FileModule::decodes_to(j@, x),
            r is None ==> forall|x: FileModule| !FileModule::decodes_to(j@, x),
    {
        match j {
            Json::Obj(m) => {
            let name = match crate::fields::get_str(m, "name") {
                Option::Some(v) => v,
                Option::None => {
                    return Option::None;
                },
            };
            let fingerprint = match crate::fields::get_i64(m, "fingerprint") {
                Option::Some(v) => v,
                Option::None => {
                    return Option::None;
                },
            };
                Option::Some(FileModule {
                    name,
                    fingerprint,
                })
            },
            _ => Option::None,
        }
    }

    /// Builds the JSON array of a list of these values, from position `i` on.
    pub fn list_to_json(v: &Vec<FileModule>, i: usize) -> (r: JsonList)
        requires
            i <= v@.len(),
        ensures
            r@ == Seq::new((v@.len() - i as int) as nat, |k: int| v@[i + k].jv()),
        decreases v@.len() - i,
    {
        if i < v.len() {
            let rest = FileModule::list_to_json(v, i + 1);
            let ghost rest_v = rest@;
            let hd = v[i].to_json();
            let ghost hd_v = hd@;
            let r = JsonList::Cons(hd, Box::new(rest));
            proof {
                let target = Seq::new((v@.len() - i as int) as nat, |k: int| v@[i + k].jv());
                assert(r matches JsonList::Cons(h, t) && crate::json::json_view(h) == hd_v
                    && crate::json::list_view(*t) == rest_v);
                assert(crate::json::list_view(r) == seq![hd_v] + rest_v);
                assert forall|n: int| 0 <= n < target.len() implies crate::json::list_view(r)[n]
                    == target[n] by {
                    if n > 0 {
                        assert(crate::json::list_view(r)[n] == rest_v[n - 1]);
                        assert(rest_v[n - 1] == v@[i + 1 + (n - 1)].jv());
                    }
                }
                assert(r@ =~= target);
            }
            r
        } else {
            let r = JsonList::Nil;
            proof {
                assert(r@ =~= Seq::new((v@.len() - i as int) as nat, |k: int| v@[i + k].jv()));
            }
            r
        }
    }

    /// Decodes a JSON array of these values.
    pub fn list_from_json(l: &JsonList) -> (r: Option<Vec<FileModule>>)
        ensures
            match r {
                Option::Some(v) => v@.len() == l@.len() && (forall|n: int|
                    0 <= n < l@.len() ==> FileModule::decodes_to(#[trigger] l@[n], v@[n])),
                Option::None => FileModule::list_undecodable(l@),
            },
        decreases *l,
    {
        match l {
            JsonList::Nil => {
                let r: Vec<FileModule> = Vec::new();
                Option::Some(r)
            },
            JsonList::Cons(h, t) => {
                let t2: &JsonList = &*t;
                proof {
                    assert(l@[0] == h@);
                    assert(l@.drop_first() =~= t2@);
                }
                match FileModule::from_json(h) {
                    Option::Some(x) => match FileModule::list_from_json(t2) {
                        Option::Some(rest) => {
                            let ghost rest_v = rest@;
                            let mut out: Vec<FileModule> = Vec::new();
                            out.push(x);
                            let mut rest = rest;
                            out.append(&mut rest);
                            proof {
                                assert(out@ == seq![x] + rest_v);
                                assert forall|n: int| 0 <= n < l@.len() implies FileModule::decodes_to(
                                    #[trigger] l@[n], out@[n],
                                ) by {
                                    if n > 0 {
                                        assert(l@[n] == t2@[n - 1]);
                                        assert(out@[n] == rest_v[n - 1]);
                                    }
                                }
                            }
                            Option::Some(out)
                        },
                        Option::None => Option::None,
                    },
                    Option::None => Option::None,
                }
            },
        }
    }

    /// Whether some item of the array has no decoding.
    pub open spec fn list_undecodable(l: Seq<JsonV>) -> bool
        decreases l.len(),
    {
        l.len() > 0 && ((forall|x: FileModule| !(#[trigger] FileModule::decodes_to(l[0], x)))
            || FileModule::list_undecodable(l.drop_first()))
    }

    /// An array with an undecodable item decodes to no list of values.
    pub proof fn lemma_list_undecodable(l: Seq<JsonV>, v: Seq<FileModule>)
        requires
            FileModule::list_undecodable(l),
            l.len() == v.len(),
        ensures
            !(forall|n: int| 0 <= n < l.len() ==> FileModule::decodes_to(#[trigger] l[n], v[n])),
        decreases l.len(),
    {
        if forall|n: int| 0 <= n < l.len() ==> FileModule::decodes_to(#[trigger] l[n], v[n]) {
            assert(FileModule::decodes_to(l[0], v[0]));
            if forall|x: FileModule| !(#[trigger] FileModule::decodes_to(l[0], x)) {
                assert(!FileModule::decodes_to(l[0], v[0]));
            } else {
                assert(FileModule::list_undecodable(l.drop_first()));
                assert forall|n: int|
                    0 <= n < l.drop_first().len() implies FileModule::decodes_to(
                    #[trigger] l.drop_first()[n], v.drop_first()[n],
                ) by {
                    assert(l.drop_first()[n] == l[n + 1]);
                    assert(v.drop_first()[n] == v[n + 1]);
                }
                FileModule::lemma_list_undecodable(l.drop_first(), v.drop_first());
            }
        }
    }


    /// The JSON document of a value decodes back to it.
    pub proof fn lemma_decodes_self(x: FileModule)
        ensures
            FileModule::decodes_to(x.jv(), x),
    {
        let o = x.jv()->Obj_0;
        assert(crate::json::obj_get(o, "name"@) == Option::Some(JsonV::Str(x.name@))) by {
            reveal_strlit("name");
            reveal_with_fuel(crate::json::obj_get, 3);
        }
        assert(crate::json::obj_get(o, "fingerprint"@) == Option::Some(JsonV::Int(x.fingerprint as int))) by {
            reveal_strlit("name");
            reveal_strlit("fingerprint");
            assert("name"@.len() == 4);
            assert("fingerprint"@.len() == 11);
            assert("name"@ != "fingerprint"@);
            reveal_with_fuel(crate::json::obj_get, 3);
        }
    }

    /// Two values that one JSON document decodes to are equal, field for field.
    pub proof fn lemma_deterministic(j: JsonV, x: FileModule, y: FileModule)
        requires
            FileModule::decodes_to(j, x),
            FileModule::decodes_to(j, y),
        ensures
            y.name@ == x.name@,
            y.fingerprint == x.fingerprint,
            y.jv() == x.jv(),
    {
        let o = j->Obj_0;
        assert(JsonV::Str(y.name@) =~~= JsonV::Str(x.name@));
        assert(JsonV::Int(y.fingerprint as int) =~~= JsonV::Int(x.fingerprint as int));
        let oy = y.jv()->Obj_0;
        let ox = x.jv()->Obj_0;
        assert(oy[0] =~~= ox[0]);
        assert(oy[1] =~~= ox[1]);
        assert forall|n: int| 0 <= n < ox.len() implies oy[n] =~~= ox[n] by {
            if n == 0 {
                assert(oy[n] =~~= ox[n]);
            } else if n == 1 {
                assert(oy[n] =~~= ox[n]);
            }
        }
        assert(oy =~~= ox);
        assert(y.jv() =~~= x.jv());
    }
}

/// A shorthand entry pointing at one file of a mod.
#[derive(Debug, Clone)]
pub struct FileIndex {
    pub game_version: String,
    pub file_id: i32,
    pub filename: String,
    pub release_type: FileReleaseType,
    pub game_version_type_id: Option<i32>,
    pub mod_loader: Option<ModLoaderType>,
}

impl FileIndex {
    /// The JSON document of this value, member for member.
    pub open spec fn jv(self) -> JsonV {
        JsonV::Obj(seq![
            ("gameVersion"@, JsonV::Str(self.game_version@)),
            ("fileId"@, JsonV::Int(self.file_id as int)),
            ("filename"@, JsonV::Str(self.filename@)),
            ("releaseType"@, JsonV::Int(self.release_type.code())),
            ("gameVersionTypeId"@, (match self.game_version_type_id { Option::Some(v) => JsonV::Int(v as int), Option::None => JsonV::Null })),
            ("modLoader"@, (match self.mod_loader { Option::Some(v) => JsonV::Int(v.code()), Option::None => JsonV::Null })),
        ])
    }

    /// What it means for a JSON document to decode to this value.
    pub open spec fn decodes_to(j: JsonV, x: FileIndex) -> bool {
        &&& j matches JsonV::Obj(o)
        &&& crate::fields::jv_str(o, "gameVersion"@) == Option::Some(x.game_version@)
        &&& crate::fields::jv_i32(o, "fileId"@) == Option::Some(x.file_id)
        &&& crate::fields::jv_str(o, "filename"@) == Option::Some(x.filename@)
        &&& FileReleaseType::from_member(o, "releaseType"@) == Option::Some(x.release_type)
        &&& crate::fields::jv_opt_i32(o, "gameVersionTypeId"@) == Option::Some(x.game_version_type_id)
        &&& ModLoaderType::opt_from_member(o, "modLoader"@) == Option::Some(x.mod_loader)
    }

    pub fn to_json(&self) -> (r: Json)
        ensures
            r@ == self.jv(),
    {
        let mut m = JsonMembers::Nil;
        let e_mod_loader: Json = match self.mod_loader {
            Option::Some(v) => Json::Int(v.to_code()),
            Option::None => Json::Null,
        };
        proof {
            assert(e_mod_loader@ == (match self.mod_loader { Option::Some(v) => JsonV::Int(v.code()), Option::None => JsonV::Null }));
        }
        m = crate::fields::cons_member("modLoader", e_mod_loader, m);
        m = crate::fields::cons_member("gameVersionTypeId", crate::fields::opt_i32_json(&self.game_version_type_id), m);
        m = crate::fields::cons_member("releaseType", Json::Int(self.release_type.to_code()), m);
        m = crate::fields::cons_member("filename", Json::Str(self.filename.clone()), m);
        m = crate::fields::cons_member("fileId", Json::Int(self.file_id as i64), m);
        m = crate::fields::cons_member("gameVersion", Json::Str(self.game_version.clone()), m);
        let ghost m_v = m@;
        let r = Json::Obj(Box::new(m));
        proof {
            assert(r matches Json::Obj(o2) && crate::json::members_view(*o2) == m_v);
            assert(r@ == JsonV::Obj(m_v));
            assert(m_v.len() == 6);
            assert(m_v[0] =~~= ("gameVersion"@, JsonV::Str(self.game_version@)));
            assert(m_v[1] =~~= ("fileId"@, JsonV::Int(self.file_id as int)));
            assert(m_v[2] =~~= ("filename"@, JsonV::Str(self.filename@)));
            assert(m_v[3] =~~= ("releaseType"@, JsonV::Int(self.release_type.code())));
            assert(m_v[4] =~~= ("gameVersionTypeId"@, (match self.game_version_type_id { Option::Some(v) => JsonV::Int(v as int), Option::None => JsonV::Null })));
            assert(m_v[5] =~~= ("modLoader"@, (match self.mod_loader { Option::Some(v) => JsonV::Int(v.code()), Option::None => JsonV::Null })));
            assert(m_v =~~= self.jv()->Obj_0);
            assert(r@ =~~= self.jv());
        }
        r
    }

    pub fn from_json(j: &Json) -> (r: Option<FileIndex>)
        ensures
            r matches Option::Some(x) ==> FileIndex::decodes_to(j@, x),
            r is None ==> forall|x: FileIndex| !FileIndex::decodes_to(j@, x),
    {
        match j {
            Json::Obj(m) => {
            let game_version = match crate::fields::get_str(m, "gameVersion") {
                Option::Some(v) => v,
                Option::None => {
                    return Option::None;
                },
            };
            let file_id = match crate::fields::get_i32(m, "fileId") {
                Option::Some(v) => v,
                Option::None => {
                    return Option::None;
                },
            };
            let filename = match crate::fields::get_str(m, "filename") {
                Option::Some(v) => v,
                Option::None => {
                    return Option::None;
                },
            };
            let release_type = match FileReleaseType::get_member(m, "releaseType") {
                Option::Some(v) => v,
                Option::None => {
                    return Option::None;
                },
            };
            let game_version_type_id = match crate::fields::get_opt_i32(m, "gameVersionTypeId") {
                Option::Some(v) => v,
                Option::None => {
                    return Option::None;
                },
            };
            let mod_loader = match ModLoaderType::get_opt_member(m, "modLoader") {
                Option::Some(v) => v,
                Option::None => {
                    return Option::None;
                },
            };
                Option::Some(FileIndex {
                    game_version,
                    file_id,
                    filename,
                    release_type,
                    game_version_type_id,
                    mod_loader,
                })
            },
            _ => Option::None,
        }
    }

    /// Builds the JSON array of a list of these values, from position `i` on.
    pub fn list_to_json(v: &Vec<FileIndex>, i: usize) -> (r: JsonList)
        requires
            i <= v@.len(),
        ensures
            r@ == Seq::new((v@.len() - i as int) as nat, |k: int| v@[i + k].jv()),
        decreases v@.len() - i,
    {
        if i < v.len() {
            let rest = FileIndex::list_to_json(v, i + 1);
            let ghost rest_v = rest@;
            let hd = v[i].to_json();
            let ghost hd_v = hd@;
            let r = JsonList::Cons(hd, Box::new(rest));
            proof {
                let target = Seq::new((v@.len() - i as int) as nat, |k: int| v@[i + k].jv());
                assert(r matches JsonList::Cons(h, t) && crate::json::json_view(h) == hd_v
                    && crate::json::list_view(*t) == rest_v);
                assert(crate::json::list_view(r) == seq![hd_v] + rest_v);
                assert forall|n: int| 0 <= n < target.len() implies crate::json::list_view(r)[n]
                    == target[n] by {
                    if n > 0 {
                        assert(crate::json::list_view(r)[n] == rest_v[n - 1]);
                        assert(rest_v[n - 1] == v@[i + 1 + (n - 1)].jv());
                    }
                }
                assert(r@ =~= target);
            }
            r
        } else {
            let r = JsonList::Nil;
            proof {
                assert(r@ =~= Seq::new((v@.len() - i as int) as nat, |k: int| v@[i + k].jv()));
            }
            r
        }
    }

    /// Decodes a JSON array of these values.
    pub fn list_from_json(l: &JsonList) -> (r: Option<Vec<FileIndex>>)
        ensures
            match r {
                Option::Some(v) => v@.len() == l@.len() && (forall|n: int|
                    0 <= n < l@.len() ==> FileIndex::decodes_to(#[trigger] l@[n], v@[n])),
                Option::None => FileIndex::list_undecodable(l@),
            },
        decreases *l,
    {
        match l {
            JsonList::Nil => {
                let r: Vec<FileIndex> = Vec::new();
                Option::Some(r)
            },
            JsonList::Cons(h, t) => {
                let t2: &JsonList = &*t;
                proof {
                    assert(l@[0] == h@);
                    assert(l@.drop_first() =~= t2@);
                }
                match FileIndex::from_json(h) {
                    Option::Some(x) => match FileIndex::list_from_json(t2) {
                        Option::Some(rest) => {
                            let ghost rest_v = rest@;
                            let mut out: Vec<FileIndex> = Vec::new();
                            out.push(x);
                            let mut rest = rest;
                            out.append(&mut rest);
                            proof {
                                assert(out@ == seq![x] + rest_v);
                                assert forall|n: int| 0 <= n < l@.len() implies FileIndex::decodes_to(
                                    #[trigger] l@[n], out@[n],
                                ) by {
                                    if n > 0 {
                                        assert(l@[n] == t2@[n - 1]);
                                        assert(out@[n] == rest_v[n - 1]);
                                    }
                                }
                            }
                            Option::Some(out)
                        },
                        Option::None => Option::None,
                    },
                    Option::None => Option::None,
                }
            },
        }
    }

    /// Whether some item of the array has no decoding.
    pub open spec fn list_undecodable(l: Seq<JsonV>) -> bool
        decreases l.len(),
    {
        l.len() > 0 && ((forall|x: FileIndex| !(#[trigger] FileIndex::decodes_to(l[0], x)))
            || FileIndex::list_undecodable(l.drop_first()))
    }

    /// An array with an undecodable item decodes to no list of values.
    pub proof fn lemma_list_undecodable(l: Seq<JsonV>, v: Seq<FileIndex>)
        requires
            FileIndex::list_undecodable(l),
            l.len() == v.len(),
        ensures
            !(forall|n: int| 0 <= n < l.len() ==> FileIndex::decodes_to(#[trigger] l[n], v[n])),
        decreases l.len(),
    {
        if forall|n: int| 0 <= n < l.len() ==> FileIndex::decodes_to(#[trigger] l[n], v[n]) {
            assert(FileIndex::decodes_to(l[0], v[0]));
            if forall|x: FileIndex| !(#[trigger] FileIndex::decodes_to(l[0], x)) {
                assert(!FileIndex::decodes_to(l[0], v[0]));
            } else {
                assert(FileIndex::list_undecodable(l.drop_first()));
                assert forall|n: int|
                    0 <= n < l.drop_first().len() implies FileIndex::decodes_to(
                    #[trigger] l.drop_first()[n], v.drop_first()[n],
                ) by {
                    assert(l.drop_first()[n] == l[n + 1]);
                    assert(v.drop_first()[n] == v[n + 1]);
                }
                FileIndex::lemma_list_undecodable(l.drop_first(), v.drop_first());
            }
        }
    }


    /// The JSON document of a value decodes back to it.
    pub proof fn lemma_decodes_self(x: FileIndex)
        ensures
            FileIndex::decodes_to(x.jv(), x),
    {
        let o = x.jv()->Obj_0;
        assert(crate::json::obj_get(o, "gameVersion"@) == Option::Some(JsonV::Str(x.game_version@))) by {
            reveal_strlit("gameVersion");
            reveal_with_fuel(crate::json::obj_get, 7);
        }
        assert(crate::json::obj_get(o, "fileId"@) == Option::Some(JsonV::Int(x.file_id as int))) by {
            reveal_strlit("gameVersion");
            reveal_strlit("fileId");
            assert("gameVersion"@.len() == 11);
            assert("fileId"@.len() == 6);
            assert("gameVersion"@ != "fileId"@);
            reveal_with_fuel(crate::json::obj_get, 7);
        }
        assert(crate::json::obj_get(o, "filename"@) == Option::Some(JsonV::Str(x.filename@))) by {
            reveal_strlit("gameVersion");
            reveal_strlit("fileId");
            reveal_strlit("filename");
            assert("gameVersion"@.len() == 11);
            assert("filename"@.len() == 8);
            assert("gameVersion"@ != "filename"@);
            assert("fileId"@.len() == 6);
            assert("filename"@.len() == 8);
            assert("fileId"@ != "filename"@);
            reveal_with_fuel(crate::json::obj_get, 7);
        }
        assert(crate::json::obj_get(o, "releaseType"@) == Option::Some(JsonV::Int(x.release_type.code()))) by {
            reveal_strlit("gameVersion");
            reveal_strlit("fileId");
            reveal_strlit("filename");
            reveal_strlit("releaseType");
            assert("gameVersion"@[0] == 'g');
            assert("releaseType"@[0] == 'r');
            assert("gameVersion"@ != "releaseType"@);
            assert("fileId"@.len() == 6);
            assert("releaseType"@.len() == 11);
            assert("fileId"@ != "releaseType"@);
            assert("filename"@.len() == 8);
            assert("releaseType"@.len() == 11);
            assert("filename"@ != "releaseType"@);
            reveal_with_fuel(crate::json::obj_get, 7);
        }
        assert(crate::json::obj_get(o, "gameVersionTypeId"@) == Option::Some((match x.game_version_type_id { Option::Some(v) => JsonV::Int(v as int), Option::None => JsonV::Null }))) by {
            reveal_strlit("gameVersion");
            reveal_strlit("fileId");
            reveal_strlit("filename");
            reveal_strlit("releaseType");
            reveal_strlit("gameVersionTypeId");
            assert("gameVersion"@.len() == 11);
            assert("gameVersionTypeId"@.len() == 17);
            assert("gameVersion"@ != "gameVersionTypeId"@);
            assert("fileId"@.len() == 6);
            assert("gameVersionTypeId"@.len() == 17);
            assert("fileId"@ != "gameVersionTypeId"@);
            assert("filename"@.len() == 8);
            assert("gameVersionTypeId"@.len() == 17);
            assert("filename"@ != "gameVersionTypeId"@);
            assert("releaseType"@.len() == 11);
            assert("gameVersionTypeId"@.len() == 17);
            assert("releaseType"@ != "gameVersionTypeId"@);
            reveal_with_fuel(crate::json::obj_get, 7);
        }
        assert(crate::json::obj_get(o, "modLoader"@) == Option::Some((match x.mod_loader { Option::Some(v) => JsonV::Int(v.code()), Option::None => JsonV::Null }))) by {
            reveal_strlit("gameVersion");
            reveal_strlit("fileId");
            reveal_strlit("filename");
            reveal_strlit("releaseType");
            reveal_strlit("gameVersionTypeId");
            reveal_strlit("modLoader");
            assert("gameVersion"@.len() == 11);
            assert("modLoader"@.len() == 9);
            assert("gameVersion"@ != "modLoader"@);
            assert("fileId"@.len() == 6);
            assert("modLoader"@.len() == 9);
            assert("fileId"@ != "modLoader"@);
            assert("filename"@.len() == 8);
            assert("modLoader"@.len() == 9);
            assert("filename"@ != "modLoader"@);
            assert("releaseType"@.len() == 11);
            assert("modLoader"@.len() == 9);
            assert("releaseType"@ != "modLoader"@);
            assert("gameVersionTypeId"@.len() == 17);
            assert("modLoader"@.len() == 9);
            assert("gameVersionTypeId"@ != "modLoader"@);
            reveal_with_fuel(crate::json::obj_get, 7);
        }
        x.release_type.lemma_code_inverse(0);
        match x.mod_loader {
            Option::Some(e) => e.lemma_code_inverse(0),
            Option::None => {},
        }
    }

    /// Two values that one JSON document decodes to are equal, field for field.
    pub proof fn lemma_deterministic(j: JsonV, x: FileIndex, y: FileIndex)
        requires
            FileIndex::decodes_to(j, x),
            FileIndex::decodes_to(j, y),
        ensures
            y.game_version@ == x.game_version@,
            y.file_id == x.file_id,
            y.filename@ == x.filename@,
            y.release_type == x.release_type,
            y.game_version_type_id == x.game_version_type_id,
            y.mod_loader == x.mod_loader,
            y.jv() == x.jv(),
    {
        let o = j->Obj_0;
        assert(JsonV::Str(y.game_version@) =~~= JsonV::Str(x.game_version@));
        assert(JsonV::Int(y.file_id as int) =~~= JsonV::Int(x.file_id as int));
        assert(JsonV::Str(y.filename@) =~~= JsonV::Str(x.filename@));
        assert(JsonV::Int(y.release_type.code()) =~~= JsonV::Int(x.release_type.code()));
        assert((match y.game_version_type_id { Option::Some(v) => JsonV::Int(v as int), Option::None => JsonV::Null }) =~~= (match x.game_version_type_id { Option::Some(v) => JsonV::Int(v as int), Option::None => JsonV::Null }));
        assert((match y.mod_loader { Option::Some(v) => JsonV::Int(v.code()), Option::None => JsonV::Null }) =~~= (match x.mod_loader { Option::Some(v) => JsonV::Int(v.code()), Option::None => JsonV::Null }));
        let oy = y.jv()->Obj_0;
        let ox = x.jv()->Obj_0;
        assert(oy[0] =~~= ox[0]);
        assert(oy[1] =~~= ox[1]);
        assert(oy[2] =~~= ox[2]);
        assert(oy[3] =~~= ox[3]);
        assert(oy[4] =~~= ox[4]);
        assert(oy[5] =~~= ox[5]);
        assert forall|n: int| 0 <= n < ox.len() implies oy[n] =~~= ox[n] by {
            if n == 0 {
                assert(oy[n] =~~= ox[n]);
            } else if n == 1 {
                assert(oy[n] =~~= ox[n]);
            } else if n == 2 {
                assert(oy[n] =~~= ox[n]);
            } else if n == 3 {
                assert(oy[n] =~~= ox[n]);
            } else if n == 4 {
                assert(oy[n] =~~= ox[n]);
            } else if n == 5 {
                assert(oy[n] =~~= ox[n]);
            }
        }
        assert(oy =~~= ox);
        assert(y.jv() =~~= x.jv());
    }
}

/// A downloadable file of a mod.
#[derive(Debug, Clone)]
pub struct File {
    pub id: i32,
    pub game_id: i32,
    pub mod_id: i32,
    pub is_available: bool,
    pub display_name: Option<String>,
    pub file_name: Option<String>,
    pub release_type: FileReleaseType,
    pub file_status: FileStatus,
    pub hashes: Vec<FileHash>,
    pub file_date: String,
    pub file_length: i64,
    pub download_count: i64,
    pub file_size_on_disk: Option<i64>,
    pub download_url: Option<String>,
    pub game_versions: Vec<String>,
    pub sortable_game_versions: Vec<SortableGameVersion>,
    pub dependencies: Vec<FileDependency>,
    pub expose_as_alternative: Option<bool>,
    pub parent_project_file_id: Option<i32>,
    pub alternate_file_id: Option<i32>,
    pub is_server_pack: Option<bool>,
    pub server_pack_file_id: Option<i32>,
    pub is_early_access_content: Option<bool>,
    pub early_access_end_date: Option<String>,
    pub file_fingerprint: i64,
    pub modules: Vec<FileModule>,
}

impl File {
    /// The JSON document of this value, member for member.
    pub open spec fn jv(self) -> JsonV {
        JsonV::Obj(seq![
            ("id"@, JsonV::Int(self.id as int)),
            ("gameId"@, JsonV::Int(self.game_id as int)),
            ("modId"@, JsonV::Int(self.mod_id as int)),
            ("isAvailable"@, JsonV::Bool(self.is_available)),
            ("displayName"@, (match self.display_name { Option::Some(v) => JsonV::Str(v@), Option::None => JsonV::Null })),
            ("fileName"@, (match self.file_name { Option::Some(v) => JsonV::Str(v@), Option::None => JsonV::Null })),
            ("releaseType"@, JsonV::Int(self.release_type.code())),
            ("fileStatus"@, JsonV::Int(self.file_status.code())),
            ("hashes"@, JsonV::Arr(Seq::new(self.hashes@.len(), |k: int| self.hashes@[k].jv()))),
            ("fileDate"@, JsonV::Str(self.file_date@)),
            ("fileLength"@, JsonV::Int(self.file_length as int)),
            ("downloadCount"@, JsonV::Int(self.download_count as int)),
            ("fileSizeOnDisk"@, (match self.file_size_on_disk { Option::Some(v) => JsonV::Int(v as int), Option::None => JsonV::Null })),
            ("downloadUrl"@, (match self.download_url { Option::Some(v) => JsonV::Str(v@), Option::None => JsonV::Null })),
            ("gameVersions"@, JsonV::Arr(Seq::new(self.game_versions@.len(), |k: int| JsonV::Str(self.game_versions@[k]@)))),
            ("sortableGameVersions"@, JsonV::Arr(Seq::new(self.sortable_game_versions@.len(), |k: int| self.sortable_game_versions@[k].jv()))),
            ("dependencies"@, JsonV::Arr(Seq::new(self.dependencies@.len(), |k: int| self.dependencies@[k].jv()))),
            ("exposeAsAlternative"@, (match self.expose_as_alternative { Option::Some(v) => JsonV::Bool(v), Option::None => JsonV::Null })),
            ("parentProjectFileId"@, (match self.parent_project_file_id { Option::Some(v) => JsonV::Int(v as int), Option::None => JsonV::Null })),
            ("alternateFileId"@, (match self.alternate_file_id { Option::Some(v) => JsonV::Int(v as int), Option::None => JsonV::Null })),
            ("isServerPack"@, (match self.is_server_pack { Option::Some(v) => JsonV::Bool(v), Option::None => JsonV::Null })),
            ("serverPackFileId"@, (match self.server_pack_file_id { Option::Some(v) => JsonV::Int(v as int), Option::None => JsonV::Null })),
            ("isEarlyAccessContent"@, (match self.is_early_access_content { Option::Some(v) => JsonV::Bool(v), Option::None => JsonV::Null })),
            ("earlyAccessEndDate"@, (match self.early_access_end_date { Option::Some(v) => JsonV::Str(v@), Option::None => JsonV::Null })),
            ("fileFingerprint"@, JsonV::Int(self.file_fingerprint as int)),
            ("modules"@, JsonV::Arr(Seq::new(self.modules@.len(), |k: int| self.modules@[k].jv()))),
        ])
    }

    /// What it means for a JSON document to decode to this value.
    pub open spec fn decodes_to(j: JsonV, x: File) -> bool {
        &&& j matches JsonV::Obj(o)
        &&& crate::fields::jv_i32(o, "id"@) == Option::Some(x.id)
        &&& crate::fields::jv_i32(o, "gameId"@) == Option::Some(x.game_id)
        &&& crate::fields::jv_i32(o, "modId"@) == Option::Some(x.mod_id)
        &&& crate::fields::jv_bool(o, "isAvailable"@) == Option::Some(x.is_available)
        &&& crate::fields::jv_opt_str(o, "displayName"@) == Option::Some(crate::fields::view_opt_str(x.display_name))
        &&& crate::fields::jv_opt_str(o, "fileName"@) == Option::Some(crate::fields::view_opt_str(x.file_name))
        &&& FileReleaseType::from_member(o, "releaseType"@) == Option::Some(x.release_type)
        &&& FileStatus::from_member(o, "fileStatus"@) == Option::Some(x.file_status)
        &&& crate::json::obj_get(o, "hashes"@) matches Option::Some(JsonV::Arr(items)) && items.len() == x.hashes@.len()
            && (forall|n: int| 0 <= n < items.len() ==> FileHash::decodes_to(#[trigger] items[n], x.hashes@[n]))
        &&& crate::fields::jv_str(o, "fileDate"@) == Option::Some(x.file_date@)
        &&& crate::fields::jv_i64(o, "fileLength"@) == Option::Some(x.file_length)
        &&& crate::fields::jv_i64(o, "downloadCount"@) == Option::Some(x.download_count)
        &&& crate::fields::jv_opt_i64(o, "fileSizeOnDisk"@) == Option::Some(x.file_size_on_disk)
        &&& crate::fields::jv_opt_str(o, "downloadUrl"@) == Option::Some(crate::fields::view_opt_str(x.download_url))
        &&& crate::json::obj_get(o, "gameVersions"@) matches Option::Some(JsonV::Arr(items))
            && crate::fields::str_items(items) == Option::Some(x.game_versions.deep_view())
        &&& crate::json::obj_get(o, "sortableGameVersions"@) matches Option::Some(JsonV::Arr(items)) && items.len() == x.sortable_game_versions@.len()
            && (forall|n: int| 0 <= n < items.len() ==> SortableGameVersion::decodes_to(#[trigger] items[n], x.sortable_game_versions@[n]))
        &&& crate::json::obj_get(o, "dependencies"@) matches Option::Some(JsonV::Arr(items)) && items.len() == x.dependencies@.len()
            && (forall|n: int| 0 <= n < items.len() ==> FileDependency::decodes_to(#[trigger] items[n], x.dependencies@[n]))
        &&& crate::fields::jv_opt_bool(o, "exposeAsAlternative"@) == Option::Some(x.expose_as_alternative)
        &&& crate::fields::jv_opt_i32(o, "parentProjectFileId"@) == Option::Some(x.parent_project_file_id)
        &&& crate::fields::jv_opt_i32(o, "alternateFileId"@) == Option::Some(x.alternate_file_id)
        &&& crate::fields::jv_opt_bool(o, "isServerPack"@) == Option::Some(x.is_server_pack)
        &&& crate::fields::jv_opt_i32(o, "serverPackFileId"@) == Option::Some(x.server_pack_file_id)
        &&& crate::fields::jv_opt_bool(o, "isEarlyAccessContent"@) == Option::Some(x.is_early_access_content)
        &&& crate::fields::jv_opt_str(o, "earlyAccessEndDate"@) == Option::Some(crate::fields::view_opt_str(x.early_access_end_date))
        &&& crate::fields::jv_i64(o, "fileFingerprint"@) == Option::Some(x.file_fingerprint)
        &&& crate::json::obj_get(o, "modules"@) matches Option::Some(JsonV::Arr(items)) && items.len() == x.modules@.len()
            && (forall|n: int| 0 <= n < items.len() ==> FileModule::decodes_to(#[trigger] items[n], x.modules@[n]))
    }

    #[verifier::rlimit(100)]
    #[verifier::spinoff_prover]
    fn members_part0(&self, rest: JsonMembers) -> (m: JsonMembers)
        ensures
            m@ == seq![
                ("id"@, JsonV::Int(self.id as int)),
                ("gameId"@, JsonV::Int(self.game_id as int)),
                ("modId"@, JsonV::Int(self.mod_id as int)),
                ("isAvailable"@, JsonV::Bool(self.is_available)),
                ("displayName"@, (match self.display_name { Option::Some(v) => JsonV::Str(v@), Option::None => JsonV::Null })),
                ("fileName"@, (match self.file_name { Option::Some(v) => JsonV::Str(v@), Option::None => JsonV::Null })),
                ("releaseType"@, JsonV::Int(self.release_type.code())),
            ] + rest@,
    {
        let ghost rest_v = rest@;
        let mut m = rest;
        m = crate::fields::cons_member("releaseType", Json::Int(self.release_type.to_code()), m);
        m = crate::fields::cons_member("fileName", crate::fields::opt_str_json(&self.file_name), m);
        m = crate::fields::cons_member("displayName", crate::fields::opt_str_json(&self.display_name), m);
        m = crate::fields::cons_member("isAvailable", Json::Bool(self.is_available), m);
        m = crate::fields::cons_member("modId", Json::Int(self.mod_id as i64), m);
        m = crate::fields::cons_member("gameId", Json::Int(self.game_id as i64), m);
        m = crate::fields::cons_member("id", Json::Int(self.id as i64), m);
        proof {
            let ghost m_v = m@;
            assert(m_v[0] =~~= ("id"@, JsonV::Int(self.id as int)));
            assert(m_v[1] =~~= ("gameId"@, JsonV::Int(self.game_id as int)));
            assert(m_v[2] =~~= ("modId"@, JsonV::Int(self.mod_id as int)));
            assert(m_v[3] =~~= ("isAvailable"@, JsonV::Bool(self.is_available)));
            assert(m_v[4] =~~= ("displayName"@, (match self.display_name { Option::Some(v) => JsonV::Str(v@), Option::None => JsonV::Null })));
            assert(m_v[5] =~~= ("fileName"@, (match self.file_name { Option::Some(v) => JsonV::Str(v@), Option::None => JsonV::Null })));
            assert(m_v[6] =~~= ("releaseType"@, JsonV::Int(self.release_type.code())));
            assert(m_v =~~= seq![
                ("id"@, JsonV::Int(self.id as int)),
                ("gameId"@, JsonV::Int(self.game_id as int)),
                ("modId"@, JsonV::Int(self.mod_id as int)),
                ("isAvailable"@, JsonV::Bool(self.is_available)),
                ("displayName"@, (match self.display_name { Option::Some(v) => JsonV::Str(v@), Option::None => JsonV::Null })),
                ("fileName"@, (match self.file_name { Option::Some(v) => JsonV::Str(v@), Option::None => JsonV::Null })),
                ("releaseType"@, JsonV::Int(self.release_type.code())),
            ] + rest_v);
        }
        m
    }

    #[verifier::rlimit(100)]
    #[verifier::spinoff_prover]
    fn members_part1(&self, rest: JsonMembers) -> (m: JsonMembers)
        ensures
            m@ == seq![
                ("fileStatus"@, JsonV::Int(self.file_status.code())),
                ("hashes"@, JsonV::Arr(Seq::new(self.hashes@.len(), |k: int| self.hashes@[k].jv()))),
                ("fileDate"@, JsonV::Str(self.file_date@)),
                ("fileLength"@, JsonV::Int(self.file_length as int)),
                ("downloadCount"@, JsonV::Int(self.download_count as int)),
                ("fileSizeOnDisk"@, (match self.file_size_on_disk { Option::Some(v) => JsonV::Int(v as int), Option::None => JsonV::Null })),
                ("downloadUrl"@, (match self.download_url { Option::Some(v) => JsonV::Str(v@), Option::None => JsonV::Null })),
            ] + rest@,
    {
        let ghost rest_v = rest@;
        let mut m = rest;
        m = crate::fields::cons_member("downloadUrl", crate::fields::opt_str_json(&self.download_url), m);
        m = crate::fields::cons_member("fileSizeOnDisk", crate::fields::opt_i64_json(&self.file_size_on_disk), m);
        m = crate::fields::cons_member("downloadCount", Json::Int(self.download_count), m);
        m = crate::fields::cons_member("fileLength", Json::Int(self.file_length), m);
        m = crate::fields::cons_member("fileDate", Json::Str(self.file_date.clone()), m);
        let l_hashes = FileHash::list_to_json(&self.hashes, 0);
        let ghost lv_hashes = l_hashes@;
        let e_hashes = Json::Arr(Box::new(l_hashes));
        proof {
            assert(e_hashes matches Json::Arr(lb) && crate::json::list_view(*lb) == lv_hashes);
            assert(lv_hashes =~= Seq::new(self.hashes@.len(), |k: int| self.hashes@[k].jv()));
            assert(e_hashes@ =~~= JsonV::Arr(Seq::new(self.hashes@.len(), |k: int| self.hashes@[k].jv())));
        }
        m = crate::fields::cons_member("hashes", e_hashes, m);
        m = crate::fields::cons_member("fileStatus", Json::Int(self.file_status.to_code()), m);
        proof {
            let ghost m_v = m@;
            assert(m_v[0] =~~= ("fileStatus"@, JsonV::Int(self.file_status.code())));
            assert(m_v[1] =~~= ("hashes"@, JsonV::Arr(Seq::new(self.hashes@.len(), |k: int| self.hashes@[k].jv()))));
            assert(m_v[2] =~~= ("fileDate"@, JsonV::Str(self.file_date@)));
            assert(m_v[3] =~~= ("fileLength"@, JsonV::Int(self.file_length as int)));
            assert(m_v[4] =~~= ("downloadCount"@, JsonV::Int(self.download_count as int)));
            assert(m_v[5] =~~= ("fileSizeOnDisk"@, (match self.file_size_on_disk { Option::Some(v) => JsonV::Int(v as int), Option::None => JsonV::Null })));
            assert(m_v[6] =~~= ("downloadUrl"@, (match self.download_url { Option::Some(v) => JsonV::Str(v@), Option::None => JsonV::Null })));
            assert(m_v =~~= seq![
                ("fileStatus"@, JsonV::Int(self.file_status.code())),
                ("hashes"@, JsonV::Arr(Seq::new(self.hashes@.len(), |k: int| self.hashes@[k].jv()))),
                ("fileDate"@, JsonV::Str(self.file_date@)),
                ("fileLength"@, JsonV::Int(self.file_length as int)),
                ("downloadCount"@, JsonV::Int(self.download_count as int)),
                ("fileSizeOnDisk"@, (match self.file_size_on_disk { Option::Some(v) => JsonV::Int(v as int), Option::None => JsonV::Null })),
                ("downloadUrl"@, (match self.download_url { Option::Some(v) => JsonV::Str(v@), Option::None => JsonV::Null })),
            ] + rest_v);
        }
        m
    }

    #[verifier::rlimit(100)]
    #[verifier::spinoff_prover]
    fn members_part2(&self, rest: JsonMembers) -> (m: JsonMembers)
        ensures
            m@ == seq![
                ("gameVersions"@, JsonV::Arr(Seq::new(self.game_versions@.len(), |k: int| JsonV::Str(self.game_versions@[k]@)))),
                ("sortableGameVersions"@, JsonV::Arr(Seq::new(self.sortable_game_versions@.len(), |k: int| self.sortable_game_versions@[k].jv()))),
                ("dependencies"@, JsonV::Arr(Seq::new(self.dependencies@.len(), |k: int| self.dependencies@[k].jv()))),
                ("exposeAsAlternative"@, (match self.expose_as_alternative { Option::Some(v) => JsonV::Bool(v), Option::None => JsonV::Null })),
                ("parentProjectFileId"@, (match self.parent_project_file_id { Option::Some(v) => JsonV::Int(v as int), Option::None => JsonV::Null })),
                ("alternateFileId"@, (match self.alternate_file_id { Option::Some(v) => JsonV::Int(v as int), Option::None => JsonV::Null })),
                ("isServerPack"@, (match self.is_server_pack { Option::Some(v) => JsonV::Bool(v), Option::None => JsonV::Null })),
            ] + rest@,
    {
        let ghost rest_v = rest@;
        let mut m = rest;
        m = crate::fields::cons_member("isServerPack", crate::fields::opt_bool_json(&self.is_server_pack), m);
        m = crate::fields::cons_member("alternateFileId", crate::fields::opt_i32_json(&self.alternate_file_id), m);
        m = crate::fields::cons_member("parentProjectFileId", crate::fields::opt_i32_json(&self.parent_project_file_id), m);
        m = crate::fields::cons_member("exposeAsAlternative", crate::fields::opt_bool_json(&self.expose_as_alternative), m);
        let l_dependencies = FileDependency::list_to_json(&self.dependencies, 0);
        let ghost lv_dependencies = l_dependencies@;
        let e_dependencies = Json::Arr(Box::new(l_dependencies));
        proof {
            assert(e_dependencies matches Json::Arr(lb) && crate::json::list_view(*lb) == lv_dependencies);
            assert(lv_dependencies =~= Seq::new(self.dependencies@.len(), |k: int| self.dependencies@[k].jv()));
            assert(e_dependencies@ =~~= JsonV::Arr(Seq::new(self.dependencies@.len(), |k: int| self.dependencies@[k].jv())));
        }
        m = crate::fields::cons_member("dependencies", e_dependencies, m);
        let l_sortable_game_versions = SortableGameVersion::list_to_json(&self.sortable_game_versions, 0);
        let ghost lv_sortable_game_versions = l_sortable_game_versions@;
        let e_sortable_game_versions = Json::Arr(Box::new(l_sortable_game_versions));
        proof {
            assert(e_sortable_game_versions matches Json::Arr(lb) && crate::json::list_view(*lb) == lv_sortable_game_versions);
            assert(lv_sortable_game_versions =~= Seq::new(self.sortable_game_versions@.len(), |k: int| self.sortable_game_versions@[k].jv()));
            assert(e_sortable_game_versions@ =~~= JsonV::Arr(Seq::new(self.sortable_game_versions@.len(), |k: int| self.sortable_game_versions@[k].jv())));
        }
        m = crate::fields::cons_member("sortableGameVersions", e_sortable_game_versions, m);
        let l_game_versions = crate::fields::strs_to_list(&self.game_versions, 0);
        let ghost lv_game_versions = l_game_versions@;
        let e_game_versions = Json::Arr(Box::new(l_game_versions));
        proof {
            assert(e_game_versions matches Json::Arr(lb) && crate::json::list_view(*lb) == lv_game_versions);
            assert(lv_game_versions =~= Seq::new(self.game_versions@.len(), |k: int| JsonV::Str(self.game_versions@[k]@)));
            assert(e_game_versions@ =~~= JsonV::Arr(Seq::new(self.game_versions@.len(), |k: int| JsonV::Str(self.game_versions@[k]@))));
        }
        m = crate::fields::cons_member("gameVersions", e_game_versions, m);
        proof {
            let ghost m_v = m@;
            assert(m_v[0] =~~= ("gameVersions"@, JsonV::Arr(Seq::new(self.game_versions@.len(), |k: int| JsonV::Str(self.game_versions@[k]@)))));
            assert(m_v[1] =~~= ("sortableGameVersions"@, JsonV::Arr(Seq::new(self.sortable_game_versions@.len(), |k: int| self.sortable_game_versions@[k].jv()))));
            assert(m_v[2] =~~= ("dependencies"@, JsonV::Arr(Seq::new(self.dependencies@.len(), |k: int| self.dependencies@[k].jv()))));
            assert(m_v[3] =~~= ("exposeAsAlternative"@, (match self.expose_as_alternative { Option::Some(v) => JsonV::Bool(v), Option::None => JsonV::Null })));
            assert(m_v[4] =~~= ("parentProjectFileId"@, (match self.parent_project_file_id { Option::Some(v) => JsonV::Int(v as int), Option::None => JsonV::Null })));
            assert(m_v[5] =~~= ("alternateFileId"@, (match self.alternate_file_id { Option::Some(v) => JsonV::Int(v as int), Option::None => JsonV::Null })));
            assert(m_v[6] =~~= ("isServerPack"@, (match self.is_server_pack { Option::Some(v) => JsonV::Bool(v), Option::None => JsonV::Null })));
            assert(m_v =~~= seq![
                ("gameVersions"@, JsonV::Arr(Seq::new(self.game_versions@.len(), |k: int| JsonV::Str(self.game_versions@[k]@)))),
                ("sortableGameVersions"@, JsonV::Arr(Seq::new(self.sortable_game_versions@.len(), |k: int| self.sortable_game_versions@[k].jv()))),
                ("dependencies"@, JsonV::Arr(Seq::new(self.dependencies@.len(), |k: int| self.dependencies@[k].jv()))),
                ("exposeAsAlternative"@, (match self.expose_as_alternative { Option::Some(v) => JsonV::Bool(v), Option::None => JsonV::Null })),
                ("parentProjectFileId"@, (match self.parent_project_file_id { Option::Some(v) => JsonV::Int(v as int), Option::None => JsonV::Null })),
                ("alternateFileId"@, (match self.alternate_file_id { Option::Some(v) => JsonV::Int(v as int), Option::None => JsonV::Null })),
                ("isServerPack"@, (match self.is_server_pack { Option::Some(v) => JsonV::Bool(v), Option::None => JsonV::Null })),
            ] + rest_v);
        }
        m
    }

    #[verifier::rlimit(100)]
    #[verifier::spinoff_prover]
    fn members_part3(&self, rest: JsonMembers) -> (m: JsonMembers)
        ensures
            m@ == seq![
                ("serverPackFileId"@, (match self.server_pack_file_id { Option::Some(v) => JsonV::Int(v as int), Option::None => JsonV::Null })),
                ("isEarlyAccessContent"@, (match self.is_early_access_content { Option::Some(v) => JsonV::Bool(v), Option::None => JsonV::Null })),
                ("earlyAccessEndDate"@, (match self.early_access_end_date { Option::Some(v) => JsonV::Str(v@), Option::None => JsonV::Null })),
                ("fileFingerprint"@, JsonV::Int(self.file_fingerprint as int)),
                ("modules"@, JsonV::Arr(Seq::new(self.modules@.len(), |k: int| self.modules@[k].jv()))),
            ] + rest@,
    {
        let ghost rest_v = rest@;
        let mut m = rest;
        let l_modules = FileModule::list_to_json(&self.modules, 0);
        let ghost lv_modules = l_modules@;
        let e_modules = Json::Arr(Box::new(l_modules));
        proof {
            assert(e_modules matches Json::Arr(lb) && crate::json::list_view(*lb) == lv_modules);
            assert(lv_modules =~= Seq::new(self.modules@.len(), |k: int| self.modules@[k].jv()));
            assert(e_modules@ =~~= JsonV::Arr(Seq::new(self.modules@.len(), |k: int| self.modules@[k].jv())));
        }
        m = crate::fields::cons_member("modules", e_modules, m);
        m = crate::fields::cons_member("fileFingerprint", Json::Int(self.file_fingerprint), m);
        m = crate::fields::cons_member("earlyAccessEndDate", crate::fields::opt_str_json(&self.early_access_end_date), m);
        m = crate::fields::cons_member("isEarlyAccessContent", crate::fields::opt_bool_json(&self.is_early_access_content), m);
        m = crate::fields::cons_member("serverPackFileId", crate::fields::opt_i32_json(&self.server_pack_file_id), m);
        proof {
            let ghost m_v = m@;
            assert(m_v[0] =~~= ("serverPackFileId"@, (match self.server_pack_file_id { Option::Some(v) => JsonV::Int(v as int), Option::None => JsonV::Null })));
            assert(m_v[1] =~~= ("isEarlyAccessContent"@, (match self.is_early_access_content { Option::Some(v) => JsonV::Bool(v), Option::None => JsonV::Null })));
            assert(m_v[2] =~~= ("earlyAccessEndDate"@, (match self.early_access_end_date { Option::Some(v) => JsonV::Str(v@), Option::None => JsonV::Null })));
            assert(m_v[3] =~~= ("fileFingerprint"@, JsonV::Int(self.file_fingerprint as int)));
            assert(m_v[4] =~~= ("modules"@, JsonV::Arr(Seq::new(self.modules@.len(), |k: int| self.modules@[k].jv()))));
            assert(m_v =~~= seq![
                ("serverPackFileId"@, (match self.server_pack_file_id { Option::Some(v) => JsonV::Int(v as int), Option::None => JsonV::Null })),
                ("isEarlyAccessContent"@, (match self.is_early_access_content { Option::Some(v) => JsonV::Bool(v), Option::None => JsonV::Null })),
                ("earlyAccessEndDate"@, (match self.early_access_end_date { Option::Some(v) => JsonV::Str(v@), Option::None => JsonV::Null })),
                ("fileFingerprint"@, JsonV::Int(self.file_fingerprint as int)),
                ("modules"@, JsonV::Arr(Seq::new(self.modules@.len(), |k: int| self.modules@[k].jv()))),
            ] + rest_v);
        }
        m
    }

    #[verifier::rlimit(100)]
    #[verifier::spinoff_prover]
    pub fn to_json(&self) -> (r: Json)
        ensures
            r@ == self.jv(),
    {
        let mut m = JsonMembers::Nil;
        m = self.members_part3(m);
        m = self.members_part2(m);
        m = self.members_part1(m);
        m = self.members_part0(m);
        let ghost m_v = m@;
        let r = Json::Obj(Box::new(m));
        proof {
            assert(r matches Json::Obj(o2) && crate::json::members_view(*o2) == m_v);
            assert(r@ == JsonV::Obj(m_v));
            assert(m_v =~~= self.jv()->Obj_0);
            assert(r@ =~~= self.jv());
        }
        r
    }

    #[verifier::rlimit(100)]
    #[verifier::spinoff_prover]
    pub fn from_json(j: &Json) -> (r: Option<File>)
        ensures
            r matches Option::Some(x) ==> File::decodes_to(j@, x),
            r is None ==> forall|x: File| !File::decodes_to(j@, x),
    {
        match j {
            Json::Obj(m) => {
            let id = match crate::fields::get_i32(m, "id") {
                Option::Some(v) => v,
                Option::None => {
                    return Option::None;
                },
            };
            let game_id = match crate::fields::get_i32(m, "gameId") {
                Option::Some(v) => v,
                Option::None => {
                    return Option::None;
                },
            };
            let mod_id = match crate::fields::get_i32(m, "modId") {
                Option::Some(v) => v,
                Option::None => {
                    return Option::None;
                },
            };
            let is_available = match crate::fields::get_bool(m, "isAvailable") {
                Option::Some(v) => v,
                Option::None => {
                    return Option::None;
                },
            };
            let display_name = match crate::fields::get_opt_str(m, "displayName") {
                Option::Some(v) => v,
                Option::None => {
                    return Option::None;
                },
            };
            let file_name = match crate::fields::get_opt_str(m, "fileName") {
                Option::Some(v) => v,
                Option::None => {
                    return Option::None;
                },
            };
            let release_type = match FileReleaseType::get_member(m, "releaseType") {
                Option::Some(v) => v,
                Option::None => {
                    return Option::None;
                },
            };
            let file_status = match FileStatus::get_member(m, "fileStatus") {
                Option::Some(v) => v,
                Option::None => {
                    return Option::None;
                },
            };
            let hashes = match crate::fields::get_arr(m, "hashes") {
                Option::Some(l) => match FileHash::list_from_json(l) {
                    Option::Some(v) => v,
                    Option::None => {
                        proof {
                            assert forall|x: File| !File::decodes_to(j@, x) by {
                                if File::decodes_to(j@, x) {
                                    FileHash::lemma_list_undecodable(l@, x.hashes@);
                                }
                            }
                        }
                        return Option::None;
                    },
                },
                Option::None => {
                    return Option::None;
                },
            };
            let file_date = match crate::fields::get_str(m, "fileDate") {
                Option::Some(v) => v,
                Option::None => {
                    return Option::None;
                },
            };
            let file_length = match crate::fields::get_i64(m, "fileLength") {
                Option::Some(v) => v,
                Option::None => {
                    return Option::None;
                },
            };
            let download_count = match crate::fields::get_i64(m, "downloadCount") {
                Option::Some(v) => v,
                Option::None => {
                    return Option::None;
                },
            };
            let file_size_on_disk = match crate::fields::get_opt_i64(m, "fileSizeOnDisk") {
                Option::Some(v) => v,
                Option::None => {
                    return Option::None;
                },
            };
            let download_url = match crate::fields::get_opt_str(m, "downloadUrl") {
                Option::Some(v) => v,
                Option::None => {
                    return Option::None;
                },
            };
            let game_versions = match crate::fields::get_arr(m, "gameVersions") {
                Option::Some(l) => match crate::fields::list_strs(l) {
                    Option::Some(v) => v,
                    Option::None => {
                        return Option::None;
                    },
                },
                Option::None => {
                    return Option::None;
                },
            };
            let sortable_game_versions = match crate::fields::get_arr(m, "sortableGameVersions") {
                Option::Some(l) => match SortableGameVersion::list_from_json(l) {
                    Option::Some(v) => v,
                    Option::None => {
                        proof {
                            assert forall|x: File| !File::decodes_to(j@, x) by {
                                if File::decodes_to(j@, x) {
                                    SortableGameVersion::lemma_list_undecodable(l@, x.sortable_game_versions@);
                                }
                            }
                        }
                        return Option::None;
                    },
                },
                Option::None => {
                    return Option::None;
                },
            };
            let dependencies = match crate::fields::get_arr(m, "dependencies") {
                Option::Some(l) => match FileDependency::list_from_json(l) {
                    Option::Some(v) => v,
                    Option::None => {
                        proof {
                            assert forall|x: File| !File::decodes_to(j@, x) by {
                                if File::decodes_to(j@, x) {
                                    FileDependency::lemma_list_undecodable(l@, x.dependencies@);
                                }
                            }
                        }
                        return Option::None;
                    },
                },
                Option::None => {
                    return Option::None;
                },
            };
            let expose_as_alternative = match crate::fields::get_opt_bool(m, "exposeAsAlternative") {
                Option::Some(v) => v,
                Option::None => {
                    return Option::None;
                },
            };
            let parent_project_file_id = match crate::fields::get_opt_i32(m, "parentProjectFileId") {
                Option::Some(v) => v,
                Option::None => {
                    return Option::None;
                },
            };
            let alternate_file_id = match crate::fields::get_opt_i32(m, "alternateFileId") {
                Option::Some(v) => v,
                Option::None => {
                    return Option::None;
                },
            };
            let is_server_pack = match crate::fields::get_opt_bool(m, "isServerPack") {
                Option::Some(v) => v,
                Option::None => {
                    return Option::None;
                },
            };
            let server_pack_file_id = match crate::fields::get_opt_i32(m, "serverPackFileId") {
                Option::Some(v) => v,
                Option::None => {
                    return Option::None;
                },
            };
            let is_early_access_content = match crate::fields::get_opt_bool(m, "isEarlyAccessContent") {
                Option::Some(v) => v,
                Option::None => {
                    return Option::None;
                },
            };
            let early_access_end_date = match crate::fields::get_opt_str(m, "earlyAccessEndDate") {
                Option::Some(v) => v,
                Option::None => {
                    return Option::None;
                },
            };
            let file_fingerprint = match crate::fields::get_i64(m, "fileFingerprint") {
                Option::Some(v) => v,
                Option::None => {
                    return Option::None;
                },
            };
            let modules = match crate::fields::get_arr(m, "modules") {
                Option::Some(l) => match FileModule::list_from_json(l) {
                    Option::Some(v) => v,
                    Option::None => {
                        proof {
                            assert forall|x: File| !File::decodes_to(j@, x) by {
                                if File::decodes_to(j@, x) {
                                    FileModule::lemma_list_undecodable(l@, x.modules@);
                                }
                            }
                        }
                        return Option::None;
                    },
                },
                Option::None => {
                    return Option::None;
                },
            };
                Option::Some(File {
                    id,
                    game_id,
                    mod_id,
                    is_available,
                    display_name,
                    file_name,
                    release_type,
                    file_status,
                    hashes,
                    file_date,
                    file_length,
                    download_count,
                    file_size_on_disk,
                    download_url,
                    game_versions,
                    sortable_game_versions,
                    dependencies,
                    expose_as_alternative,
                    parent_project_file_id,
                    alternate_file_id,
                    is_server_pack,
                    server_pack_file_id,
                    is_early_access_content,
                    early_access_end_date,
                    file_fingerprint,
                    modules,
                })
            },
            _ => Option::None,
        }
    }

    /// Builds the JSON array of a list of these values, from position `i` on.
    #[verifier::rlimit(100)]
    #[verifier::spinoff_prover]
    pub fn list_to_json(v: &Vec<File>, i: usize) -> (r: JsonList)
        requires
            i <= v@.len(),
        ensures
            r@ == Seq::new((v@.len() - i as int) as nat, |k: int| v@[i + k].jv()),
        decreases v@.len() - i,
    {
        if i < v.len() {
            let rest = File::list_to_json(v, i + 1);
            let ghost rest_v = rest@;
            let hd = v[i].to_json();
            let ghost hd_v = hd@;
            let r = JsonList::Cons(hd, Box::new(rest));
            proof {
                let target = Seq::new((v@.len() - i as int) as nat, |k: int| v@[i + k].jv());
                assert(r matches JsonList::Cons(h, t) && crate::json::json_view(h) == hd_v
                    && crate::json::list_view(*t) == rest_v);
                assert(crate::json::list_view(r) == seq![hd_v] + rest_v);
                assert forall|n: int| 0 <= n < target.len() implies crate::json::list_view(r)[n]
                    == target[n] by {
                    if n > 0 {
                        assert(crate::json::list_view(r)[n] == rest_v[n - 1]);
                        assert(rest_v[n - 1] == v@[i + 1 + (n - 1)].jv());
                    }
                }
                assert(r@ =~= target);
            }
            r
        } else {
            let r = JsonList::Nil;
            proof {
                assert(r@ =~= Seq::new((v@.len() - i as int) as nat, |k: int| v@[i + k].jv()));
            }
            r
        }
    }

    /// Decodes a JSON array of these values.
    #[verifier::rlimit(100)]
    #[verifier::spinoff_prover]
    pub fn list_from_json(l: &JsonList) -> (r: Option<Vec<File>>)
        ensures
            match r {
                Option::Some(v) => v@.len() == l@.len() && (forall|n: int|
                    0 <= n < l@.len() ==> File::decodes_to(#[trigger] l@[n], v@[n])),
                Option::None => File::list_undecodable(l@),
            },
        decreases *l,
    {
        match l {
            JsonList::Nil => {
                let r: Vec<File> = Vec::new();
                Option::Some(r)
            },
            JsonList::Cons(h, t) => {
                let t2: &JsonList = &*t;
                proof {
                    assert(l@[0] == h@);
                    assert(l@.drop_first() =~= t2@);
                }
                match File::from_json(h) {
                    Option::Some(x) => match File::list_from_json(t2) {
                        Option::Some(rest) => {
                            let ghost rest_v = rest@;
                            let mut out: Vec<File> = Vec::new();
                            out.push(x);
                            let mut rest = rest;
                            out.append(&mut rest);
                            proof {
                                assert(out@ == seq![x] + rest_v);
                                assert forall|n: int| 0 <= n < l@.len() implies File::decodes_to(
                                    #[trigger] l@[n], out@[n],
                                ) by {
                                    if n > 0 {
                                        assert(l@[n] == t2@[n - 1]);
                                        assert(out@[n] == rest_v[n - 1]);
                                    }
                                }
                            }
                            Option::Some(out)
                        },
                        Option::None => Option::None,
                    },
                    Option::None => Option::None,
                }
            },
        }
    }

    /// Whether some item of the array has no decoding.
    pub open spec fn list_undecodable(l: Seq<JsonV>) -> bool
        decreases l.len(),
    {
        l.len() > 0 && ((forall|x: File| !(#[trigger] File::decodes_to(l[0], x)))
            || File::list_undecodable(l.drop_first()))
    }

    /// An array with an undecodable item decodes to no list of values.
    #[verifier::rlimit(100)]
    #[verifier::spinoff_prover]
    pub proof fn lemma_list_undecodable(l: Seq<JsonV>, v: Seq<File>)
        requires
            File::list_undecodable(l),
            l.len() == v.len(),
        ensures
            !(forall|n: int| 0 <= n < l.len() ==> File::decodes_to(#[trigger] l[n], v[n])),
        decreases l.len(),
    {
        if forall|n: int| 0 <= n < l.len() ==> File::decodes_to(#[trigger] l[n], v[n]) {
            assert(File::decodes_to(l[0], v[0]));
            if forall|x: File| !(#[trigger] File::decodes_to(l[0], x)) {
                assert(!File::decodes_to(l[0], v[0]));
            } else {
                assert(File::list_undecodable(l.drop_first()));
                assert forall|n: int|
                    0 <= n < l.drop_first().len() implies File::decodes_to(
                    #[trigger] l.drop_first()[n], v.drop_first()[n],
                ) by {
                    assert(l.drop_first()[n] == l[n + 1]);
                    assert(v.drop_first()[n] == v[n + 1]);
                }
                File::lemma_list_undecodable(l.drop_first(), v.drop_first());
            }
        }
    }


    /// The JSON document of a value decodes back to it.
    #[verifier::rlimit(100)]
    #[verifier::spinoff_prover]
    pub proof fn lemma_decodes_self(x: File)
        ensures
            File::decodes_to(x.jv(), x),
    {
        let o = x.jv()->Obj_0;
        assert(crate::json::obj_get(o, "id"@) == Option::Some(JsonV::Int(x.id as int))) by {
            reveal_strlit("id");
            reveal_with_fuel(crate::json::obj_get, 27);
        }
        assert(crate::json::obj_get(o, "gameId"@) == Option::Some(JsonV::Int(x.game_id as int))) by {
            reveal_strlit("id");
            reveal_strlit("gameId");
            assert("id"@.len() == 2);
            assert("gameId"@.len() == 6);
            assert("id"@ != "gameId"@);
            reveal_with_fuel(crate::json::obj_get, 27);
        }
        assert(crate::json::obj_get(o, "modId"@) == Option::Some(JsonV::Int(x.mod_id as int))) by {
            reveal_strlit("id");
            reveal_strlit("gameId");
            reveal_strlit("modId");
            assert("id"@.len() == 2);
            assert("modId"@.len() == 5);
            assert("id"@ != "modId"@);
            assert("gameId"@.len() == 6);
            assert("modId"@.len() == 5);
            assert("gameId"@ != "modId"@);
            reveal_with_fuel(crate::json::obj_get, 27);
        }
        assert(crate::json::obj_get(o, "isAvailable"@) == Option::Some(JsonV::Bool(x.is_available))) by {
            reveal_strlit("id");
            reveal_strlit("gameId");
            reveal_strlit("modId");
            reveal_strlit("isAvailable");
            assert("id"@.len() == 2);
            assert("isAvailable"@.len() == 11);
            assert("id"@ != "isAvailable"@);
            assert("gameId"@.len() == 6);
            assert("isAvailable"@.len() == 11);
            assert("gameId"@ != "isAvailable"@);
            assert("modId"@.len() == 5);
            assert("isAvailable"@.len() == 11);
            assert("modId"@ != "isAvailable"@);
            reveal_with_fuel(crate::json::obj_get, 27);
        }
        assert(crate::json::obj_get(o, "displayName"@) == Option::Some((match x.display_name { Option::Some(v) => JsonV::Str(v@), Option::None => JsonV::Null }))) by {
            reveal_strlit("id");
            reveal_strlit("gameId");
            reveal_strlit("modId");
            reveal_strlit("isAvailable");
            reveal_strlit("displayName");
            assert("id"@.len() == 2);
            assert("displayName"@.len() == 11);
            assert("id"@ != "displayName"@);
            assert("gameId"@.len() == 6);
            assert("displayName"@.len() == 11);
            assert("gameId"@ != "displayName"@);
            assert("modId"@.len() == 5);
            assert("displayName"@.len() == 11);
            assert("modId"@ != "displayName"@);
            assert("isAvailable"@[0] == 'i');
            assert("displayName"@[0] == 'd');
            assert("isAvailable"@ != "displayName"@);
            reveal_with_fuel(crate::json::obj_get, 27);
        }
        assert(crate::json::obj_get(o, "fileName"@) == Option::Some((match x.file_name { Option::Some(v) => JsonV::Str(v@), Option::None => JsonV::Null }))) by {
            reveal_strlit("id");
            reveal_strlit("gameId");
            reveal_strlit("modId");
            reveal_strlit("isAvailable");
            reveal_strlit("displayName");
            reveal_strlit("fileName");
            assert("id"@.len() == 2);
            assert("fileName"@.len() == 8);
            assert("id"@ != "fileName"@);
            assert("gameId"@.len() == 6);
            assert("fileName"@.len() == 8);
            assert("gameId"@ != "fileName"@);
            assert("modId"@.len() == 5);
            assert("fileName"@.len() == 8);
            assert("modId"@ != "fileName"@);
            assert("isAvailable"@.len() == 11);
            assert("fileName"@.len() == 8);
            assert("isAvailable"@ != "fileName"@);
            assert("displayName"@.len() == 11);
            assert("fileName"@.len() == 8);
            assert("displayName"@ != "fileName"@);
            reveal_with_fuel(crate::json::obj_get, 27);
        }
        assert(crate::json::obj_get(o, "releaseType"@) == Option::Some(JsonV::Int(x.release_type.code()))) by {
            reveal_strlit("id");
            reveal_strlit("gameId");
            reveal_strlit("modId");
            reveal_strlit("isAvailable");
            reveal_strlit("displayName");
            reveal_strlit("fileName");
            reveal_strlit("releaseType");
            assert("id"@.len() == 2);
            assert("releaseType"@.len() == 11);
            assert("id"@ != "releaseType"@);
            assert("gameId"@.len() == 6);
            assert("releaseType"@.len() == 11);
            assert("gameId"@ != "releaseType"@);
            assert("modId"@.len() == 5);
            assert("releaseType"@.len() == 11);
            assert("modId"@ != "releaseType"@);
            assert("isAvailable"@[0] == 'i');
            assert("releaseType"@[0] == 'r');
            assert("isAvailable"@ != "releaseType"@);
            assert("displayName"@[0] == 'd');
            assert("releaseType"@[0] == 'r');
            assert("displayName"@ != "releaseType"@);
            assert("fileName"@.len() == 8);
            assert("releaseType"@.len() == 11);
            assert("fileName"@ != "releaseType"@);
            reveal_with_fuel(crate::json::obj_get, 27);
        }
        assert(crate::json::obj_get(o, "fileStatus"@) == Option::Some(JsonV::Int(x.file_status.code()))) by {
            reveal_strlit("id");
            reveal_strlit("gameId");
            reveal_strlit("modId");
            reveal_strlit("isAvailable");
            reveal_strlit("displayName");
            reveal_strlit("fileName");
            reveal_strlit("releaseType");
            reveal_strlit("fileStatus");
            assert("id"@.len() == 2);
            assert("fileStatus"@.len() == 10);
            assert("id"@ != "fileStatus"@);
            assert("gameId"@.len() == 6);
            assert("fileStatus"@.len() == 10);
            assert("gameId"@ != "fileStatus"@);
            assert("modId"@.len() == 5);
            assert("fileStatus"@.len() == 10);
            assert("modId"@ != "fileStatus"@);
            assert("isAvailable"@.len() == 11);
            assert("fileStatus"@.len() == 10);
            assert("isAvailable"@ != "fileStatus"@);
            assert("displayName"@.len() == 11);
            assert("fileStatus"@.len() == 10);
            assert("displayName"@ != "fileStatus"@);
            assert("fileName"@.len() == 8);
            assert("fileStatus"@.len() == 10);
            assert("fileName"@ != "fileStatus"@);
            assert("releaseType"@.len() == 11);
            assert("fileStatus"@.len() == 10);
            assert("releaseType"@ != "fileStatus"@);
            reveal_with_fuel(crate::json::obj_get, 27);
        }
        assert(crate::json::obj_get(o, "hashes"@) == Option::Some(JsonV::Arr(Seq::new(x.hashes@.len(), |k: int| x.hashes@[k].jv())))) by {
            reveal_strlit("id");
            reveal_strlit("gameId");
            reveal_strlit("modId");
            reveal_strlit("isAvailable");
            reveal_strlit("displayName");
            reveal_strlit("fileName");
            reveal_strlit("releaseType");
            reveal_strlit("fileStatus");
            reveal_strlit("hashes");
            assert("id"@.len() == 2);
            assert("hashes"@.len() == 6);
            assert("id"@ != "hashes"@);
            assert("gameId"@[0] == 'g');
            assert("hashes"@[0] == 'h');
            assert("gameId"@ != "hashes"@);
            assert("modId"@.len() == 5);
            assert("hashes"@.len() == 6);
            assert("modId"@ != "hashes"@);
            assert("isAvailable"@.len() == 11);
            assert("hashes"@.len() == 6);
            assert("isAvailable"@ != "hashes"@);
            assert("displayName"@.len() == 11);
            assert("hashes"@.len() == 6);
            assert("displayName"@ != "hashes"@);
            assert("fileName"@.len() == 8);
            assert("hashes"@.len() == 6);
            assert("fileName"@ != "hashes"@);
            assert("releaseType"@.len() == 11);
            assert("hashes"@.len() == 6);
            assert("releaseType"@ != "hashes"@);
            assert("fileStatus"@.len() == 10);
            assert("hashes"@.len() == 6);
            assert("fileStatus"@ != "hashes"@);
            reveal_with_fuel(crate::json::obj_get, 27);
        }
        assert(crate::json::obj_get(o, "fileDate"@) == Option::Some(JsonV::Str(x.file_date@))) by {
            reveal_strlit("id");
            reveal_strlit("gameId");
            reveal_strlit("modId");
            reveal_strlit("isAvailable");
            reveal_strlit("displayName");
            reveal_strlit("fileName");
            reveal_strlit("releaseType");
            reveal_strlit("fileStatus");
            reveal_strlit("hashes");
            reveal_strlit("fileDate");
            assert("id"@.len() == 2);
            assert("fileDate"@.len() == 8);
            assert("id"@ != "fileDate"@);
            assert("gameId"@.len() == 6);
            assert("fileDate"@.len() == 8);
            assert("gameId"@ != "fileDate"@);
            assert("modId"@.len() == 5);
            assert("fileDate"@.len() == 8);
            assert("modId"@ != "fileDate"@);
            assert("isAvailable"@.len() == 11);
            assert("fileDate"@.len() == 8);
            assert("isAvailable"@ != "fileDate"@);
            assert("displayName"@.len() == 11);
            assert("fileDate"@.len() == 8);
            assert("displayName"@ != "fileDate"@);
            assert("fileName"@[4] == 'N');
            assert("fileDate"@[4] == 'D');
            assert("fileName"@ != "fileDate"@);
            assert("releaseType"@.len() == 11);
            assert("fileDate"@.len() == 8);
            assert("releaseType"@ != "fileDate"@);
            assert("fileStatus"@.len() == 10);
            assert("fileDate"@.len() == 8);
            assert("fileStatus"@ != "fileDate"@);
            assert("hashes"@.len() == 6);
            assert("fileDate"@.len() == 8);
            assert("hashes"@ != "fileDate"@);
            reveal_with_fuel(crate::json::obj_get, 27);
        }
        assert(crate::json::obj_get(o, "fileLength"@) == Option::Some(JsonV::Int(x.file_length as int))) by {
            reveal_strlit("id");
            reveal_strlit("gameId");
            reveal_strlit("modId");
            reveal_strlit("isAvailable");
            reveal_strlit("displayName");
            reveal_strlit("fileName");
            reveal_strlit("releaseType");
            reveal_strlit("fileStatus");
            reveal_strlit("hashes");
            reveal_strlit("fileDate");
            reveal_strlit("fileLength");
            assert("id"@.len() == 2);
            assert("fileLength"@.len() == 10);
            assert("id"@ != "fileLength"@);
            assert("gameId"@.len() == 6);
            assert("fileLength"@.len() == 10);
            assert("gameId"@ != "fileLength"@);
            assert("modId"@.len() == 5);
            assert("fileLength"@.len() == 10);
            assert("modId"@ != "fileLength"@);
            assert("isAvailable"@.len() == 11);
            assert("fileLength"@.len() == 10);
            assert("isAvailable"@ != "fileLength"@);
            assert("displayName"@.len() == 11);
            assert("fileLength"@.len() == 10);
            assert("displayName"@ != "fileLength"@);
            assert("fileName"@.len() == 8);
            assert("fileLength"@.len() == 10);
            assert("fileName"@ != "fileLength"@);
            assert("releaseType"@.len() == 11);
            assert("fileLength"@.len() == 10);
            assert("releaseType"@ != "fileLength"@);
            assert("fileStatus"@[4] == 'S');
            assert("fileLength"@[4] == 'L');
            assert("fileStatus"@ != "fileLength"@);
            assert("hashes"@.len() == 6);
            assert("fileLength"@.len() == 10);
            assert("hashes"@ != "fileLength"@);
            assert("fileDate"@.len() == 8);
            assert("fileLength"@.len() == 10);
            assert("fileDate"@ != "fileLength"@);
            reveal_with_fuel(crate::json::obj_get, 27);
        }
        assert(crate::json::obj_get(o, "downloadCount"@) == Option::Some(JsonV::Int(x.download_count as int))) by {
            reveal_strlit("id");
            reveal_strlit("gameId");
            reveal_strlit("modId");
            reveal_strlit("isAvailable");
            reveal_strlit("displayName");
            reveal_strlit("fileName");
            reveal_strlit("releaseType");
            reveal_strlit("fileStatus");
            reveal_strlit("hashes");
            reveal_strlit("fileDate");
            reveal_strlit("fileLength");
            reveal_strlit("downloadCount");
            assert("id"@.len() == 2);
            assert("downloadCount"@.len() == 13);
            assert("id"@ != "downloadCount"@);
            assert("gameId"@.len() == 6);
            assert("downloadCount"@.len() == 13);
            assert("gameId"@ != "downloadCount"@);
            assert("modId"@.len() == 5);
            assert("downloadCount"@.len() == 13);
            assert("modId"@ != "downloadCount"@);
            assert("isAvailable"@.len() == 11);
            assert("downloadCount"@.len() == 13);
            assert("isAvailable"@ != "downloadCount"@);
            assert("displayName"@.len() == 11);
            assert("downloadCount"@.len() == 13);
            assert("displayName"@ != "downloadCount"@);
            assert("fileName"@.len() == 8);
            assert("downloadCount"@.len() == 13);
            assert("fileName"@ != "downloadCount"@);
            assert("releaseType"@.len() == 11);
            assert("downloadCount"@.len() == 13);
            assert("releaseType"@ != "downloadCount"@);
            assert("fileStatus"@.len() == 10);
            assert("downloadCount"@.len() == 13);
            assert("fileStatus"@ != "downloadCount"@);
            assert("hashes"@.len() == 6);
            assert("downloadCount"@.len() == 13);
            assert("hashes"@ != "downloadCount"@);
            assert("fileDate"@.len() == 8);
            assert("downloadCount"@.len() == 13);
            assert("fileDate"@ != "downloadCount"@);
            assert("fileLength"@.len() == 10);
            assert("downloadCount"@.len() == 13);
            assert("fileLength"@ != "downloadCount"@);
            reveal_with_fuel(crate::json::obj_get, 27);
        }
        assert(crate::json::obj_get(o, "fileSizeOnDisk"@) == Option::Some((match x.file_size_on_disk { Option::Some(v) => JsonV::Int(v as int), Option::None => JsonV::Null }))) by {
            reveal_strlit("id");
            reveal_strlit("gameId");
            reveal_strlit("modId");
            reveal_strlit("isAvailable");
            reveal_strlit("displayName");
            reveal_strlit("fileName");
            reveal_strlit("releaseType");
            reveal_strlit("fileStatus");
            reveal_strlit("hashes");
            reveal_strlit("fileDate");
            reveal_strlit("fileLength");
            reveal_strlit("downloadCount");
            reveal_strlit("fileSizeOnDisk");
            assert("id"@.len() == 2);
            assert("fileSizeOnDisk"@.len() == 14);
            assert("id"@ != "fileSizeOnDisk"@);
            assert("gameId"@.len() == 6);
            assert("fileSizeOnDisk"@.len() == 14);
            assert("gameId"@ != "fileSizeOnDisk"@);
            assert("modId"@.len() == 5);
            assert("fileSizeOnDisk"@.len() == 14);
            assert("modId"@ != "fileSizeOnDisk"@);
            assert("isAvailable"@.len() == 11);
            assert("fileSizeOnDisk"@.len() == 14);
            assert("isAvailable"@ != "fileSizeOnDisk"@);
            assert("displayName"@.len() == 11);
            assert("fileSizeOnDisk"@.len() == 14);
            assert("displayName"@ != "fileSizeOnDisk"@);
            assert("fileName"@.len() == 8);
            assert("fileSizeOnDisk"@.len() == 14);
            assert("fileName"@ != "fileSizeOnDisk"@);
            assert("releaseType"@.len() == 11);
            assert("fileSizeOnDisk"@.len() == 14);
            assert("releaseType"@ != "fileSizeOnDisk"@);
            assert("fileStatus"@.len() == 10);
            assert("fileSizeOnDisk"@.len() == 14);
            assert("fileStatus"@ != "fileSizeOnDisk"@);
            assert("hashes"@.len() == 6);
            assert("fileSizeOnDisk"@.len() == 14);
            assert("hashes"@ != "fileSizeOnDisk"@);
            assert("fileDate"@.len() == 8);
            assert("fileSizeOnDisk"@.len() == 14);
            assert("fileDate"@ != "fileSizeOnDisk"@);
            assert("fileLength"@.len() == 10);
            assert("fileSizeOnDisk"@.len() == 14);
            assert("fileLength"@ != "fileSizeOnDisk"@);
            assert("downloadCount"@.len() == 13);
            assert("fileSizeOnDisk"@.len() == 14);
            assert("downloadCount"@ != "fileSizeOnDisk"@);
            reveal_with_fuel(crate::json::obj_get, 27);
        }
        assert(crate::json::obj_get(o, "downloadUrl"@) == Option::Some((match x.download_url { Option::Some(v) => JsonV::Str(v@), Option::None => JsonV::Null }))) by {
            reveal_strlit("id");
            reveal_strlit("gameId");
            reveal_strlit("modId");
            reveal_strlit("isAvailable");
            reveal_strlit("displayName");
            reveal_strlit("fileName");
            reveal_strlit("releaseType");
            reveal_strlit("fileStatus");
            reveal_strlit("hashes");
            reveal_strlit("fileDate");
            reveal_strlit("fileLength");
            reveal_strlit("downloadCount");
            reveal_strlit("fileSizeOnDisk");
            reveal_strlit("downloadUrl");
            assert("id"@.len() == 2);
            assert("downloadUrl"@.len() == 11);
            assert("id"@ != "downloadUrl"@);
            assert("gameId"@.len() == 6);
            assert("downloadUrl"@.len() == 11);
            assert("gameId"@ != "downloadUrl"@);
            assert("modId"@.len() == 5);
            assert("downloadUrl"@.len() == 11);
            assert("modId"@ != "downloadUrl"@);
            assert("isAvailable"@[0] == 'i');
            assert("downloadUrl"@[0] == 'd');
            assert("isAvailable"@ != "downloadUrl"@);
            assert("displayName"@[1] == 'i');
            assert("downloadUrl"@[1] == 'o');
            assert("displayName"@ != "downloadUrl"@);
            assert("fileName"@.len() == 8);
            assert("downloadUrl"@.len() == 11);
            assert("fileName"@ != "downloadUrl"@);
            assert("releaseType"@[0] == 'r');
            assert("downloadUrl"@[0] == 'd');
            assert("releaseType"@ != "downloadUrl"@);
            assert("fileStatus"@.len() == 10);
            assert("downloadUrl"@.len() == 11);
            assert("fileStatus"@ != "downloadUrl"@);
            assert("hashes"@.len() == 6);
            assert("downloadUrl"@.len() == 11);
            assert("hashes"@ != "downloadUrl"@);
            assert("fileDate"@.len() == 8);
            assert("downloadUrl"@.len() == 11);
            assert("fileDate"@ != "downloadUrl"@);
            assert("fileLength"@.len() == 10);
            assert("downloadUrl"@.len() == 11);
            assert("fileLength"@ != "downloadUrl"@);
            assert("downloadCount"@.len() == 13);
            assert("downloadUrl"@.len() == 11);
            assert("downloadCount"@ != "downloadUrl"@);
            assert("fileSizeOnDisk"@.len() == 14);
            assert("downloadUrl"@.len() == 11);
            assert("fileSizeOnDisk"@ != "downloadUrl"@);
            reveal_with_fuel(crate::json::obj_get, 27);
        }
        assert(crate::json::obj_get(o, "gameVersions"@) == Option::Some(JsonV::Arr(Seq::new(x.game_versions@.len(), |k: int| JsonV::Str(x.game_versions@[k]@))))) by {
            reveal_strlit("id");
            reveal_strlit("gameId");
            reveal_strlit("modId");
            reveal_strlit("isAvailable");
            reveal_strlit("displayName");
            reveal_strlit("fileName");
            reveal_strlit("releaseType");
            reveal_strlit("fileStatus");
            reveal_strlit("hashes");
            reveal_strlit("fileDate");
            reveal_strlit("fileLength");
            reveal_strlit("downloadCount");
            reveal_strlit("fileSizeOnDisk");
            reveal_strlit("downloadUrl");
            reveal_strlit("gameVersions");
            assert("id"@.len() == 2);
            assert("gameVersions"@.len() == 12);
            assert("id"@ != "gameVersions"@);
            assert("gameId"@.len() == 6);
            assert("gameVersions"@.len() == 12);
            assert("gameId"@ != "gameVersions"@);
            assert("modId"@.len() == 5);
            assert("gameVersions"@.len() == 12);
            assert("modId"@ != "gameVersions"@);
            assert("isAvailable"@.len() == 11);
            assert("gameVersions"@.len() == 12);
            assert("isAvailable"@ != "gameVersions"@);
            assert("displayName"@.len() == 11);
            assert("gameVersions"@.len() == 12);
            assert("displayName"@ != "gameVersions"@);
            assert("fileName"@.len() == 8);
            assert("gameVersions"@.len() == 12);
            assert("fileName"@ != "gameVersions"@);
            assert("releaseType"@.len() == 11);
            assert("gameVersions"@.len() == 12);
            assert("releaseType"@ != "gameVersions"@);
            assert("fileStatus"@.len() == 10);
            assert("gameVersions"@.len() == 12);
            assert("fileStatus"@ != "gameVersions"@);
            assert("hashes"@.len() == 6);
            assert("gameVersions"@.len() == 12);
            assert("hashes"@ != "gameVersions"@);
            assert("fileDate"@.len() == 8);
            assert("gameVersions"@.len() == 12);
            assert("fileDate"@ != "gameVersions"@);
            assert("fileLength"@.len() == 10);
            assert("gameVersions"@.len() == 12);
            assert("fileLength"@ != "gameVersions"@);
            assert("downloadCount"@.len() == 13);
            assert("gameVersions"@.len() == 12);
            assert("downloadCount"@ != "gameVersions"@);
            assert("fileSizeOnDisk"@.len() == 14);
            assert("gameVersions"@.len() == 12);
            assert("fileSizeOnDisk"@ != "gameVersions"@);
            assert("downloadUrl"@.len() == 11);
            assert("gameVersions"@.len() == 12);
            assert("downloadUrl"@ != "gameVersions"@);
            reveal_with_fuel(crate::json::obj_get, 27);
        }
        assert(crate::json::obj_get(o, "sortableGameVersions"@) == Option::Some(JsonV::Arr(Seq::new(x.sortable_game_versions@.len(), |k: int| x.sortable_game_versions@[k].jv())))) by {
            reveal_strlit("id");
            reveal_strlit("gameId");
            reveal_strlit("modId");
            reveal_strlit("isAvailable");
            reveal_strlit("displayName");
            reveal_strlit("fileName");
            reveal_strlit("releaseType");
            reveal_strlit("fileStatus");
            reveal_strlit("hashes");
            reveal_strlit("fileDate");
            reveal_strlit("fileLength");
            reveal_strlit("downloadCount");
            reveal_strlit("fileSizeOnDisk");
            reveal_strlit("downloadUrl");
            reveal_strlit("gameVersions");
            reveal_strlit("sortableGameVersions");
            assert("id"@.len() == 2);
            assert("sortableGameVersions"@.len() == 20);
            assert("id"@ != "sortableGameVersions"@);
            assert("gameId"@.len() == 6);
            assert("sortableGameVersions"@.len() == 20);
            assert("gameId"@ != "sortableGameVersions"@);
            assert("modId"@.len() == 5);
            assert("sortableGameVersions"@.len() == 20);
            assert("modId"@ != "sortableGameVersions"@);
            assert("isAvailable"@.len() == 11);
            assert("sortableGameVersions"@.len() == 20);
            assert("isAvailable"@ != "sortableGameVersions"@);
            assert("displayName"@.len() == 11);
            assert("sortableGameVersions"@.len() == 20);
            assert("displayName"@ != "sortableGameVersions"@);
            assert("fileName"@.len() == 8);
            assert("sortableGameVersions"@.len() == 20);
            assert("fileName"@ != "sortableGameVersions"@);
            assert("releaseType"@.len() == 11);
            assert("sortableGameVersions"@.len() == 20);
            assert("releaseType"@ != "sortableGameVersions"@);
            assert("fileStatus"@.len() == 10);
            assert("sortableGameVersions"@.len() == 20);
            assert("fileStatus"@ != "sortableGameVersions"@);
            assert("hashes"@.len() == 6);
            assert("sortableGameVersions"@.len() == 20);
            assert("hashes"@ != "sortableGameVersions"@);
            assert("fileDate"@.len() == 8);
            assert("sortableGameVersions"@.len() == 20);
            assert("fileDate"@ != "sortableGameVersions"@);
            assert("fileLength"@.len() == 10);
            assert("sortableGameVersions"@.len() == 20);
            assert("fileLength"@ != "sortableGameVersions"@);
            assert("downloadCount"@.len() == 13);
            assert("sortableGameVersions"@.len() == 20);
            assert("downloadCount"@ != "sortableGameVersions"@);
            assert("fileSizeOnDisk"@.len() == 14);
            assert("sortableGameVersions"@.len() == 20);
            assert("fileSizeOnDisk"@ != "sortableGameVersions"@);
            assert("downloadUrl"@.len() == 11);
            assert("sortableGameVersions"@.len() == 20);
            assert("downloadUrl"@ != "sortableGameVersions"@);
            assert("gameVersions"@.len() == 12);
            assert("sortableGameVersions"@.len() == 20);
            assert("gameVersions"@ != "sortableGameVersions"@);
            reveal_with_fuel(crate::json::obj_get, 27);
        }
        assert(crate::json::obj_get(o, "dependencies"@) == Option::Some(JsonV::Arr(Seq::new(x.dependencies@.len(), |k: int| x.dependencies@[k].jv())))) by {
            reveal_strlit("id");
            reveal_strlit("gameId");
            reveal_strlit("modId");
            reveal_strlit("isAvailable");
            reveal_strlit("displayName");
            reveal_strlit("fileName");
            reveal_strlit("releaseType");
            reveal_strlit("fileStatus");
            reveal_strlit("hashes");
            reveal_strlit("fileDate");
            reveal_strlit("fileLength");
            reveal_strlit("downloadCount");
            reveal_strlit("fileSizeOnDisk");
            reveal_strlit("downloadUrl");
            reveal_strlit("gameVersions");
            reveal_strlit("sortableGameVersions");
            reveal_strlit("dependencies");
            assert("id"@.len() == 2);
            assert("dependencies"@.len() == 12);
            assert("id"@ != "dependencies"@);
            assert("gameId"@.len() == 6);
            assert("dependencies"@.len() == 12);
            assert("gameId"@ != "dependencies"@);
            assert("modId"@.len() == 5);
            assert("dependencies"@.len() == 12);
            assert("modId"@ != "dependencies"@);
            assert("isAvailable"@.len() == 11);
            assert("dependencies"@.len() == 12);
            assert("isAvailable"@ != "dependencies"@);
            assert("displayName"@.len() == 11);
            assert("dependencies"@.len() == 12);
            assert("displayName"@ != "dependencies"@);
            assert("fileName"@.len() == 8);
            assert("dependencies"@.len() == 12);
            assert("fileName"@ != "dependencies"@);
            assert("releaseType"@.len() == 11);
            assert("dependencies"@.len() == 12);
            assert("releaseType"@ != "dependencies"@);
            assert("fileStatus"@.len() == 10);
            assert("dependencies"@.len() == 12);
            assert("fileStatus"@ != "dependencies"@);
            assert("hashes"@.len() == 6);
            assert("dependencies"@.len() == 12);
            assert("hashes"@ != "dependencies"@);
            assert("fileDate"@.len() == 8);
            assert("dependencies"@.len() == 12);
            assert("fileDate"@ != "dependencies"@);
            assert("fileLength"@.len() == 10);
            assert("dependencies"@.len() == 12);
            assert("fileLength"@ != "dependencies"@);
            assert("downloadCount"@.len() == 13);
            assert("dependencies"@.len() == 12);
            assert("downloadCount"@ != "dependencies"@);
            assert("fileSizeOnDisk"@.len() == 14);
            assert("dependencies"@.len() == 12);
            assert("fileSizeOnDisk"@ != "dependencies"@);
            assert("downloadUrl"@.len() == 11);
            assert("dependencies"@.len() == 12);
            assert("downloadUrl"@ != "dependencies"@);
            assert("gameVersions"@[0] == 'g');
            assert("dependencies"@[0] == 'd');
            assert("gameVersions"@ != "dependencies"@);
            assert("sortableGameVersions"@.len() == 20);
            assert("dependencies"@.len() == 12);
            assert("sortableGameVersions"@ != "dependencies"@);
            reveal_with_fuel(crate::json::obj_get, 27);
        }
        assert(crate::json::obj_get(o, "exposeAsAlternative"@) == Option::Some((match x.expose_as_alternative { Option::Some(v) => JsonV::Bool(v), Option::None => JsonV::Null }))) by {
            reveal_strlit("id");
            reveal_strlit("gameId");
            reveal_strlit("modId");
            reveal_strlit("isAvailable");
            reveal_strlit("displayName");
            reveal_strlit("fileName");
            reveal_strlit("releaseType");
            reveal_strlit("fileStatus");
            reveal_strlit("hashes");
            reveal_strlit("fileDate");
            reveal_strlit("fileLength");
            reveal_strlit("downloadCount");
            reveal_strlit("fileSizeOnDisk");
            reveal_strlit("downloadUrl");
            reveal_strlit("gameVersions");
            reveal_strlit("sortableGameVersions");
            reveal_strlit("dependencies");
            reveal_strlit("exposeAsAlternative");
            assert("id"@.len() == 2);
            assert("exposeAsAlternative"@.len() == 19);
            assert("id"@ != "exposeAsAlternative"@);
            assert("gameId"@.len() == 6);
            assert("exposeAsAlternative"@.len() == 19);
            assert("gameId"@ != "exposeAsAlternative"@);
            assert("modId"@.len() == 5);
            assert("exposeAsAlternative"@.len() == 19);
            assert("modId"@ != "exposeAsAlternative"@);
            assert("isAvailable"@.len() == 11);
            assert("exposeAsAlternative"@.len() == 19);
            assert("isAvailable"@ != "exposeAsAlternative"@);
            assert("displayName"@.len() == 11);
            assert("exposeAsAlternative"@.len() == 19);
            assert("displayName"@ != "exposeAsAlternative"@);
            assert("fileName"@.len() == 8);
            assert("exposeAsAlternative"@.len() == 19);
            assert("fileName"@ != "exposeAsAlternative"@);
            assert("releaseType"@.len() == 11);
            assert("exposeAsAlternative"@.len() == 19);
            assert("releaseType"@ != "exposeAsAlternative"@);
            assert("fileStatus"@.len() == 10);
            assert("exposeAsAlternative"@.len() == 19);
            assert("fileStatus"@ != "exposeAsAlternative"@);
            assert("hashes"@.len() == 6);
            assert("exposeAsAlternative"@.len() == 19);
            assert("hashes"@ != "exposeAsAlternative"@);
            assert("fileDate"@.len() == 8);
            assert("exposeAsAlternative"@.len() == 19);
            assert("fileDate"@ != "exposeAsAlternative"@);
            assert("fileLength"@.len() == 10);
            assert("exposeAsAlternative"@.len() == 19);
            assert("fileLength"@ != "exposeAsAlternative"@);
            assert("downloadCount"@.len() == 13);
            assert("exposeAsAlternative"@.len() == 19);
            assert("downloadCount"@ != "exposeAsAlternative"@);
            assert("fileSizeOnDisk"@.len() == 14);
            assert("exposeAsAlternative"@.len() == 19);
            assert("fileSizeOnDisk"@ != "exposeAsAlternative"@);
            assert("downloadUrl"@.len() == 11);
            assert("exposeAsAlternative"@.len() == 19);
            assert("downloadUrl"@ != "exposeAsAlternative"@);
            assert("gameVersions"@.len() == 12);
            assert("exposeAsAlternative"@.len() == 19);
            assert("gameVersions"@ != "exposeAsAlternative"@);
            assert("sortableGameVersions"@.len() == 20);
            assert("exposeAsAlternative"@.len() == 19);
            assert("sortableGameVersions"@ != "exposeAsAlternative"@);
            assert("dependencies"@.len() == 12);
            assert("exposeAsAlternative"@.len() == 19);
            assert("dependencies"@ != "exposeAsAlternative"@);
            reveal_with_fuel(crate::json::obj_get, 27);
        }
        assert(crate::json::obj_get(o, "parentProjectFileId"@) == Option::Some((match x.parent_project_file_id { Option::Some(v) => JsonV::Int(v as int), Option::None => JsonV::Null }))) by {
            reveal_strlit("id");
            reveal_strlit("gameId");
            reveal_strlit("modId");
            reveal_strlit("isAvailable");
            reveal_strlit("displayName");
            reveal_strlit("fileName");
            reveal_strlit("releaseType");
            reveal_strlit("fileStatus");
            reveal_strlit("hashes");
            reveal_strlit("fileDate");
            reveal_strlit("fileLength");
            reveal_strlit("downloadCount");
            reveal_strlit("fileSizeOnDisk");
            reveal_strlit("downloadUrl");
            reveal_strlit("gameVersions");
            reveal_strlit("sortableGameVersions");
            reveal_strlit("dependencies");
            reveal_strlit("exposeAsAlternative");
            reveal_strlit("parentProjectFileId");
            assert("id"@.len() == 2);
            assert("parentProjectFileId"@.len() == 19);
            assert("id"@ != "parentProjectFileId"@);
            assert("gameId"@.len() == 6);
            assert("parentProjectFileId"@.len() == 19);
            assert("gameId"@ != "parentProjectFileId"@);
            assert("modId"@.len() == 5);
            assert("parentProjectFileId"@.len() == 19);
            assert("modId"@ != "parentProjectFileId"@);
            assert("isAvailable"@.len() == 11);
            assert("parentProjectFileId"@.len() == 19);
            assert("isAvailable"@ != "parentProjectFileId"@);
            assert("displayName"@.len() == 11);
            assert("parentProjectFileId"@.len() == 19);
            assert("displayName"@ != "parentProjectFileId"@);
            assert("fileName"@.len() == 8);
            assert("parentProjectFileId"@.len() == 19);
            assert("fileName"@ != "parentProjectFileId"@);
            assert("releaseType"@.len() == 11);
            assert("parentProjectFileId"@.len() == 19);
            assert("releaseType"@ != "parentProjectFileId"@);
            assert("fileStatus"@.len() == 10);
            assert("parentProjectFileId"@.len() == 19);
            assert("fileStatus"@ != "parentProjectFileId"@);
            assert("hashes"@.len() == 6);
            assert("parentProjectFileId"@.len() == 19);
            assert("hashes"@ != "parentProjectFileId"@);
            assert("fileDate"@.len() == 8);
            assert("parentProjectFileId"@.len() == 19);
            assert("fileDate"@ != "parentProjectFileId"@);
            assert("fileLength"@.len() == 10);
            assert("parentProjectFileId"@.len() == 19);
            assert("fileLength"@ != "parentProjectFileId"@);
            assert("downloadCount"@.len() == 13);
            assert("parentProjectFileId"@.len() == 19);
            assert("downloadCount"@ != "parentProjectFileId"@);
            assert("fileSizeOnDisk"@.len() == 14);
            assert("parentProjectFileId"@.len() == 19);
            assert("fileSizeOnDisk"@ != "parentProjectFileId"@);
            assert("downloadUrl"@.len() == 11);
            assert("parentProjectFileId"@.len() == 19);
            assert("downloadUrl"@ != "parentProjectFileId"@);
            assert("gameVersions"@.len() == 12);
            assert("parentProjectFileId"@.len() == 19);
            assert("gameVersions"@ != "parentProjectFileId"@);
            assert("sortableGameVersions"@.len() == 20);
            assert("parentProjectFileId"@.len() == 19);
            assert("sortableGameVersions"@ != "parentProjectFileId"@);
            assert("dependencies"@.len() == 12);
            assert("parentProjectFileId"@.len() == 19);
            assert("dependencies"@ != "parentProjectFileId"@);
            assert("exposeAsAlternative"@[0] == 'e');
            assert("parentProjectFileId"@[0] == 'p');
            assert("exposeAsAlternative"@ != "parentProjectFileId"@);
            reveal_with_fuel(crate::json::obj_get, 27);
        }
        assert(crate::json::obj_get(o, "alternateFileId"@) == Option::Some((match x.alternate_file_id { Option::Some(v) => JsonV::Int(v as int), Option::None => JsonV::Null }))) by {
            reveal_strlit("id");
            reveal_strlit("gameId");
            reveal_strlit("modId");
            reveal_strlit("isAvailable");
            reveal_strlit("displayName");
            reveal_strlit("fileName");
            reveal_strlit("releaseType");
            reveal_strlit("fileStatus");
            reveal_strlit("hashes");
            reveal_strlit("fileDate");
            reveal_strlit("fileLength");
            reveal_strlit("downloadCount");
            reveal_strlit("fileSizeOnDisk");
            reveal_strlit("downloadUrl");
            reveal_strlit("gameVersions");
            reveal_strlit("sortableGameVersions");
            reveal_strlit("dependencies");
            reveal_strlit("exposeAsAlternative");
            reveal_strlit("parentProjectFileId");
            reveal_strlit("alternateFileId");
            assert("id"@.len() == 2);
            assert("alternateFileId"@.len() == 15);
            assert("id"@ != "alternateFileId"@);
            assert("gameId"@.len() == 6);
            assert("alternateFileId"@.len() == 15);
            assert("gameId"@ != "alternateFileId"@);
            assert("modId"@.len() == 5);
            assert("alternateFileId"@.len() == 15);
            assert("modId"@ != "alternateFileId"@);
            assert("isAvailable"@.len() == 11);
            assert("alternateFileId"@.len() == 15);
            assert("isAvailable"@ != "alternateFileId"@);
            assert("displayName"@.len() == 11);
            assert("alternateFileId"@.len() == 15);
            assert("displayName"@ != "alternateFileId"@);
            assert("fileName"@.len() == 8);
            assert("alternateFileId"@.len() == 15);
            assert("fileName"@ != "alternateFileId"@);
            assert("releaseType"@.len() == 11);
            assert("alternateFileId"@.len() == 15);
            assert("releaseType"@ != "alternateFileId"@);
            assert("fileStatus"@.len() == 10);
            assert("alternateFileId"@.len() == 15);
            assert("fileStatus"@ != "alternateFileId"@);
            assert("hashes"@.len() == 6);
            assert("alternateFileId"@.len() == 15);
            assert("hashes"@ != "alternateFileId"@);
            assert("fileDate"@.len() == 8);
            assert("alternateFileId"@.len() == 15);
            assert("fileDate"@ != "alternateFileId"@);
            assert("fileLength"@.len() == 10);
            assert("alternateFileId"@.len() == 15);
            assert("fileLength"@ != "alternateFileId"@);
            assert("downloadCount"@.len() == 13);
            assert("alternateFileId"@.len() == 15);
            assert("downloadCount"@ != "alternateFileId"@);
            assert("fileSizeOnDisk"@.len() == 14);
            assert("alternateFileId"@.len() == 15);
            assert("fileSizeOnDisk"@ != "alternateFileId"@);
            assert("downloadUrl"@.len() == 11);
            assert("alternateFileId"@.len() == 15);
            assert("downloadUrl"@ != "alternateFileId"@);
            assert("gameVersions"@.len() == 12);
            assert("alternateFileId"@.len() == 15);
            assert("gameVersions"@ != "alternateFileId"@);
            assert("sortableGameVersions"@.len() == 20);
            assert("alternateFileId"@.len() == 15);
            assert("sortableGameVersions"@ != "alternateFileId"@);
            assert("dependencies"@.len() == 12);
            assert("alternateFileId"@.len() == 15);
            assert("dependencies"@ != "alternateFileId"@);
            assert("exposeAsAlternative"@.len() == 19);
            assert("alternateFileId"@.len() == 15);
            assert("exposeAsAlternative"@ != "alternateFileId"@);
            assert("parentProjectFileId"@.len() == 19);
            assert("alternateFileId"@.len() == 15);
            assert("parentProjectFileId"@ != "alternateFileId"@);
            reveal_with_fuel(crate::json::obj_get, 27);
        }
        assert(crate::json::obj_get(o, "isServerPack"@) == Option::Some((match x.is_server_pack { Option::Some(v) => JsonV::Bool(v), Option::None => JsonV::Null }))) by {
            reveal_strlit("id");
            reveal_strlit("gameId");
            reveal_strlit("modId");
            reveal_strlit("isAvailable");
            reveal_strlit("displayName");
            reveal_strlit("fileName");
            reveal_strlit("releaseType");
            reveal_strlit("fileStatus");
            reveal_strlit("hashes");
            reveal_strlit("fileDate");
            reveal_strlit("fileLength");
            reveal_strlit("downloadCount");
            reveal_strlit("fileSizeOnDisk");
            reveal_strlit("downloadUrl");
            reveal_strlit("gameVersions");
            reveal_strlit("sortableGameVersions");
            reveal_strlit("dependencies");
            reveal_strlit("exposeAsAlternative");
            reveal_strlit("parentProjectFileId");
            reveal_strlit("alternateFileId");
            reveal_strlit("isServerPack");
            assert("id"@.len() == 2);
            assert("isServerPack"@.len() == 12);
            assert("id"@ != "isServerPack"@);
            assert("gameId"@.len() == 6);
            assert("isServerPack"@.len() == 12);
            assert("gameId"@ != "isServerPack"@);
            assert("modId"@.len() == 5);
            assert("isServerPack"@.len() == 12);
            assert("modId"@ != "isServerPack"@);
            assert("isAvailable"@.len() == 11);
            assert("isServerPack"@.len() == 12);
            assert("isAvailable"@ != "isServerPack"@);
            assert("displayName"@.len() == 11);
            assert("isServerPack"@.len() == 12);
            assert("displayName"@ != "isServerPack"@);
            assert("fileName"@.len() == 8);
            assert("isServerPack"@.len() == 12);
            assert("fileName"@ != "isServerPack"@);
            assert("releaseType"@.len() == 11);
            assert("isServerPack"@.len() == 12);
            assert("releaseType"@ != "isServerPack"@);
            assert("fileStatus"@.len() == 10);
            assert("isServerPack"@.len() == 12);
            assert("fileStatus"@ != "isServerPack"@);
            assert("hashes"@.len() == 6);
            assert("isServerPack"@.len() == 12);
            assert("hashes"@ != "isServerPack"@);
            assert("fileDate"@.len() == 8);
            assert("isServerPack"@.len() == 12);
            assert("fileDate"@ != "isServerPack"@);
            assert("fileLength"@.len() == 10);
            assert("isServerPack"@.len() == 12);
            assert("fileLength"@ != "isServerPack"@);
            assert("downloadCount"@.len() == 13);
            assert("isServerPack"@.len() == 12);
            assert("downloadCount"@ != "isServerPack"@);
            assert("fileSizeOnDisk"@.len() == 14);
            assert("isServerPack"@.len() == 12);
            assert("fileSizeOnDisk"@ != "isServerPack"@);
            assert("downloadUrl"@.len() == 11);
            assert("isServerPack"@.len() == 12);
            assert("downloadUrl"@ != "isServerPack"@);
            assert("gameVersions"@[0] == 'g');
            assert("isServerPack"@[0] == 'i');
            assert("gameVersions"@ != "isServerPack"@);
            assert("sortableGameVersions"@.len() == 20);
            assert("isServerPack"@.len() == 12);
            assert("sortableGameVersions"@ != "isServerPack"@);
            assert("dependencies"@[0] == 'd');
            assert("isServerPack"@[0] == 'i');
            assert("dependencies"@ != "isServerPack"@);
            assert("exposeAsAlternative"@.len() == 19);
            assert("isServerPack"@.len() == 12);
            assert("exposeAsAlternative"@ != "isServerPack"@);
            assert("parentProjectFileId"@.len() == 19);
            assert("isServerPack"@.len() == 12);
            assert("parentProjectFileId"@ != "isServerPack"@);
            assert("alternateFileId"@.len() == 15);
            assert("isServerPack"@.len() == 12);
            assert("alternateFileId"@ != "isServerPack"@);
            reveal_with_fuel(crate::json::obj_get, 27);
        }
        assert(crate::json::obj_get(o, "serverPackFileId"@) == Option::Some((match x.server_pack_file_id { Option::Some(v) => JsonV::Int(v as int), Option::None => JsonV::Null }))) by {
            reveal_strlit("id");
            reveal_strlit("gameId");
            reveal_strlit("modId");
            reveal_strlit("isAvailable");
            reveal_strlit("displayName");
            reveal_strlit("fileName");
            reveal_strlit("releaseType");
            reveal_strlit("fileStatus");
            reveal_strlit("hashes");
            reveal_strlit("fileDate");
            reveal_strlit("fileLength");
            reveal_strlit("downloadCount");
            reveal_strlit("fileSizeOnDisk");
            reveal_strlit("downloadUrl");
            reveal_strlit("gameVersions");
            reveal_strlit("sortableGameVersions");
            reveal_strlit("dependencies");
            reveal_strlit("exposeAsAlternative");
            reveal_strlit("parentProjectFileId");
            reveal_strlit("alternateFileId");
            reveal_strlit("isServerPack");
            reveal_strlit("serverPackFileId");
            assert("id"@.len() == 2);
            assert("serverPackFileId"@.len() == 16);
            assert("id"@ != "serverPackFileId"@);
            assert("gameId"@.len() == 6);
            assert("serverPackFileId"@.len() == 16);
            assert("gameId"@ != "serverPackFileId"@);
            assert("modId"@.len() == 5);
            assert("serverPackFileId"@.len() == 16);
            assert("modId"@ != "serverPackFileId"@);
            assert("isAvailable"@.len() == 11);
            assert("serverPackFileId"@.len() == 16);
            assert("isAvailable"@ != "serverPackFileId"@);
            assert("displayName"@.len() == 11);
            assert("serverPackFileId"@.len() == 16);
            assert("displayName"@ != "serverPackFileId"@);
            assert("fileName"@.len() == 8);
            assert("serverPackFileId"@.len() == 16);
            assert("fileName"@ != "serverPackFileId"@);
            assert("releaseType"@.len() == 11);
            assert("serverPackFileId"@.len() == 16);
            assert("releaseType"@ != "serverPackFileId"@);
            assert("fileStatus"@.len() == 10);
            assert("serverPackFileId"@.len() == 16);
            assert("fileStatus"@ != "serverPackFileId"@);
            assert("hashes"@.len() == 6);
            assert("serverPackFileId"@.len() == 16);
            assert("hashes"@ != "serverPackFileId"@);
            assert("fileDate"@.len() == 8);
            assert("serverPackFileId"@.len() == 16);
            assert("fileDate"@ != "serverPackFileId"@);
            assert("fileLength"@.len() == 10);
            assert("serverPackFileId"@.len() == 16);
            assert("fileLength"@ != "serverPackFileId"@);
            assert("downloadCount"@.len() == 13);
            assert("serverPackFileId"@.len() == 16);
            assert("downloadCount"@ != "serverPackFileId"@);
            assert("fileSizeOnDisk"@.len() == 14);
            assert("serverPackFileId"@.len() == 16);
            assert("fileSizeOnDisk"@ != "serverPackFileId"@);
            assert("downloadUrl"@.len() == 11);
            assert("serverPackFileId"@.len() == 16);
            assert("downloadUrl"@ != "serverPackFileId"@);
            assert("gameVersions"@.len() == 12);
            assert("serverPackFileId"@.len() == 16);
            assert("gameVersions"@ != "serverPackFileId"@);
            assert("sortableGameVersions"@.len() == 20);
            assert("serverPackFileId"@.len() == 16);
            assert("sortableGameVersions"@ != "serverPackFileId"@);
            assert("dependencies"@.len() == 12);
            assert("serverPackFileId"@.len() == 16);
            assert("dependencies"@ != "serverPackFileId"@);
            assert("exposeAsAlternative"@.len() == 19);
            assert("serverPackFileId"@.len() == 16);
            assert("exposeAsAlternative"@ != "serverPackFileId"@);
            assert("parentProjectFileId"@.len() == 19);
            assert("serverPackFileId"@.len() == 16);
            assert("parentProjectFileId"@ != "serverPackFileId"@);
            assert("alternateFileId"@.len() == 15);
            assert("serverPackFileId"@.len() == 16);
            assert("alternateFileId"@ != "serverPackFileId"@);
            assert("isServerPack"@.len() == 12);
            assert("serverPackFileId"@.len() == 16);
            assert("isServerPack"@ != "serverPackFileId"@);
            reveal_with_fuel(crate::json::obj_get, 27);
        }
        assert(crate::json::obj_get(o, "isEarlyAccessContent"@) == Option::Some((match x.is_early_access_content { Option::Some(v) => JsonV::Bool(v), Option::None => JsonV::Null }))) by {
            reveal_strlit("id");
            reveal_strlit("gameId");
            reveal_strlit("modId");
            reveal_strlit("isAvailable");
            reveal_strlit("displayName");
            reveal_strlit("fileName");
            reveal_strlit("releaseType");
            reveal_strlit("fileStatus");
            reveal_strlit("hashes");
            reveal_strlit("fileDate");
            reveal_strlit("fileLength");
            reveal_strlit("downloadCount");
            reveal_strlit("fileSizeOnDisk");
            reveal_strlit("downloadUrl");
            reveal_strlit("gameVersions");
            reveal_strlit("sortableGameVersions");
            reveal_strlit("dependencies");
            reveal_strlit("exposeAsAlternative");
            reveal_strlit("parentProjectFileId");
            reveal_strlit("alternateFileId");
            reveal_strlit("isServerPack");
            reveal_strlit("serverPackFileId");
            reveal_strlit("isEarlyAccessContent");
            assert("id"@.len() == 2);
            assert("isEarlyAccessContent"@.len() == 20);
            assert("id"@ != "isEarlyAccessContent"@);
            assert("gameId"@.len() == 6);
            assert("isEarlyAccessContent"@.len() == 20);
            assert("gameId"@ != "isEarlyAccessContent"@);
            assert("modId"@.len() == 5);
            assert("isEarlyAccessContent"@.len() == 20);
            assert("modId"@ != "isEarlyAccessContent"@);
            assert("isAvailable"@.len() == 11);
            assert("isEarlyAccessContent"@.len() == 20);
            assert("isAvailable"@ != "isEarlyAccessContent"@);
            assert("displayName"@.len() == 11);
            assert("isEarlyAccessContent"@.len() == 20);
            assert("displayName"@ != "isEarlyAccessContent"@);
            assert("fileName"@.len() == 8);
            assert("isEarlyAccessContent"@.len() == 20);
            assert("fileName"@ != "isEarlyAccessContent"@);
            assert("releaseType"@.len() == 11);
            assert("isEarlyAccessContent"@.len() == 20);
            assert("releaseType"@ != "isEarlyAccessContent"@);
            assert("fileStatus"@.len() == 10);
            assert("isEarlyAccessContent"@.len() == 20);
            assert("fileStatus"@ != "isEarlyAccessContent"@);
            assert("hashes"@.len() == 6);
            assert("isEarlyAccessContent"@.len() == 20);
            assert("hashes"@ != "isEarlyAccessContent"@);
            assert("fileDate"@.len() == 8);
            assert("isEarlyAccessContent"@.len() == 20);
            assert("fileDate"@ != "isEarlyAccessContent"@);
            assert("fileLength"@.len() == 10);
            assert("isEarlyAccessContent"@.len() == 20);
            assert("fileLength"@ != "isEarlyAccessContent"@);
            assert("downloadCount"@.len() == 13);
            assert("isEarlyAccessContent"@.len() == 20);
            assert("downloadCount"@ != "isEarlyAccessContent"@);
            assert("fileSizeOnDisk"@.len() == 14);
            assert("isEarlyAccessContent"@.len() == 20);
            assert("fileSizeOnDisk"@ != "isEarlyAccessContent"@);
            assert("downloadUrl"@.len() == 11);
            assert("isEarlyAccessContent"@.len() == 20);
            assert("downloadUrl"@ != "isEarlyAccessContent"@);
            assert("gameVersions"@.len() == 12);
            assert("isEarlyAccessContent"@.len() == 20);
            assert("gameVersions"@ != "isEarlyAccessContent"@);
            assert("sortableGameVersions"@[0] == 's');
            assert("isEarlyAccessContent"@[0] == 'i');
            assert("sortableGameVersions"@ != "isEarlyAccessContent"@);
            assert("dependencies"@.len() == 12);
            assert("isEarlyAccessContent"@.len() == 20);
            assert("dependencies"@ != "isEarlyAccessContent"@);
            assert("exposeAsAlternative"@.len() == 19);
            assert("isEarlyAccessContent"@.len() == 20);
            assert("exposeAsAlternative"@ != "isEarlyAccessContent"@);
            assert("parentProjectFileId"@.len() == 19);
            assert("isEarlyAccessContent"@.len() == 20);
            assert("parentProjectFileId"@ != "isEarlyAccessContent"@);
            assert("alternateFileId"@.len() == 15);
            assert("isEarlyAccessContent"@.len() == 20);
            assert("alternateFileId"@ != "isEarlyAccessContent"@);
            assert("isServerPack"@.len() == 12);
            assert("isEarlyAccessContent"@.len() == 20);
            assert("isServerPack"@ != "isEarlyAccessContent"@);
            assert("serverPackFileId"@.len() == 16);
            assert("isEarlyAccessContent"@.len() == 20);
            assert("serverPackFileId"@ != "isEarlyAccessContent"@);
            reveal_with_fuel(crate::json::obj_get, 27);
        }
        assert(crate::json::obj_get(o, "earlyAccessEndDate"@) == Option::Some((match x.early_access_end_date { Option::Some(v) => JsonV::Str(v@), Option::None => JsonV::Null }))) by {
            reveal_strlit("id");
            reveal_strlit("gameId");
            reveal_strlit("modId");
            reveal_strlit("isAvailable");
            reveal_strlit("displayName");
            reveal_strlit("fileName");
            reveal_strlit("releaseType");
            reveal_strlit("fileStatus");
            reveal_strlit("hashes");
            reveal_strlit("fileDate");
            reveal_strlit("fileLength");
            reveal_strlit("downloadCount");
            reveal_strlit("fileSizeOnDisk");
            reveal_strlit("downloadUrl");
            reveal_strlit("gameVersions");
            reveal_strlit("sortableGameVersions");
            reveal_strlit("dependencies");
            reveal_strlit("exposeAsAlternative");
            reveal_strlit("parentProjectFileId");
            reveal_strlit("alternateFileId");
            reveal_strlit("isServerPack");
            reveal_strlit("serverPackFileId");
            reveal_strlit("isEarlyAccessContent");
            reveal_strlit("earlyAccessEndDate");
            assert("id"@.len() == 2);
            assert("earlyAccessEndDate"@.len() == 18);
            assert("id"@ != "earlyAccessEndDate"@);
            assert("gameId"@.len() == 6);
            assert("earlyAccessEndDate"@.len() == 18);
            assert("gameId"@ != "earlyAccessEndDate"@);
            assert("modId"@.len() == 5);
            assert("earlyAccessEndDate"@.len() == 18);
            assert("modId"@ != "earlyAccessEndDate"@);
            assert("isAvailable"@.len() == 11);
            assert("earlyAccessEndDate"@.len() == 18);
            assert("isAvailable"@ != "earlyAccessEndDate"@);
            assert("displayName"@.len() == 11);
            assert("earlyAccessEndDate"@.len() == 18);
            assert("displayName"@ != "earlyAccessEndDate"@);
            assert("fileName"@.len() == 8);
            assert("earlyAccessEndDate"@.len() == 18);
            assert("fileName"@ != "earlyAccessEndDate"@);
            assert("releaseType"@.len() == 11);
            assert("earlyAccessEndDate"@.len() == 18);
            assert("releaseType"@ != "earlyAccessEndDate"@);
            assert("fileStatus"@.len() == 10);
            assert("earlyAccessEndDate"@.len() == 18);
            assert("fileStatus"@ != "earlyAccessEndDate"@);
            assert("hashes"@.len() == 6);
            assert("earlyAccessEndDate"@.len() == 18);
            assert("hashes"@ != "earlyAccessEndDate"@);
            assert("fileDate"@.len() == 8);
            assert("earlyAccessEndDate"@.len() == 18);
            assert("fileDate"@ != "earlyAccessEndDate"@);
            assert("fileLength"@.len() == 10);
            assert("earlyAccessEndDate"@.len() == 18);
            assert("fileLength"@ != "earlyAccessEndDate"@);
            assert("downloadCount"@.len() == 13);
            assert("earlyAccessEndDate"@.len() == 18);
            assert("downloadCount"@ != "earlyAccessEndDate"@);
            assert("fileSizeOnDisk"@.len() == 14);
            assert("earlyAccessEndDate"@.len() == 18);
            assert("fileSizeOnDisk"@ != "earlyAccessEndDate"@);
            assert("downloadUrl"@.len() == 11);
            assert("earlyAccessEndDate"@.len() == 18);
            assert("downloadUrl"@ != "earlyAccessEndDate"@);
            assert("gameVersions"@.len() == 12);
            assert("earlyAccessEndDate"@.len() == 18);
            assert("gameVersions"@ != "earlyAccessEndDate"@);
            assert("sortableGameVersions"@.len() == 20);
            assert("earlyAccessEndDate"@.len() == 18);
            assert("sortableGameVersions"@ != "earlyAccessEndDate"@);
            assert("dependencies"@.len() == 12);
            assert("earlyAccessEndDate"@.len() == 18);
            assert("dependencies"@ != "earlyAccessEndDate"@);
            assert("exposeAsAlternative"@.len() == 19);
            assert("earlyAccessEndDate"@.len() == 18);
            assert("exposeAsAlternative"@ != "earlyAccessEndDate"@);
            assert("parentProjectFileId"@.len() == 19);
            assert("earlyAccessEndDate"@.len() == 18);
            assert("parentProjectFileId"@ != "earlyAccessEndDate"@);
            assert("alternateFileId"@.len() == 15);
            assert("earlyAccessEndDate"@.len() == 18);
            assert("alternateFileId"@ != "earlyAccessEndDate"@);
            assert("isServerPack"@.len() == 12);
            assert("earlyAccessEndDate"@.len() == 18);
            assert("isServerPack"@ != "earlyAccessEndDate"@);
            assert("serverPackFileId"@.len() == 16);
            assert("earlyAccessEndDate"@.len() == 18);
            assert("serverPackFileId"@ != "earlyAccessEndDate"@);
            assert("isEarlyAccessContent"@.len() == 20);
            assert("earlyAccessEndDate"@.len() == 18);
            assert("isEarlyAccessContent"@ != "earlyAccessEndDate"@);
            reveal_with_fuel(crate::json::obj_get, 27);
        }
        assert(crate::json::obj_get(o, "fileFingerprint"@) == Option::Some(JsonV::Int(x.file_fingerprint as int))) by {
            reveal_strlit("id");
            reveal_strlit("gameId");
            reveal_strlit("modId");
            reveal_strlit("isAvailable");
            reveal_strlit("displayName");
            reveal_strlit("fileName");
            reveal_strlit("releaseType");
            reveal_strlit("fileStatus");
            reveal_strlit("hashes");
            reveal_strlit("fileDate");
            reveal_strlit("fileLength");
            reveal_strlit("downloadCount");
            reveal_strlit("fileSizeOnDisk");
            reveal_strlit("downloadUrl");
            reveal_strlit("gameVersions");
            reveal_strlit("sortableGameVersions");
            reveal_strlit("dependencies");
            reveal_strlit("exposeAsAlternative");
            reveal_strlit("parentProjectFileId");
            reveal_strlit("alternateFileId");
            reveal_strlit("isServerPack");
            reveal_strlit("serverPackFileId");
            reveal_strlit("isEarlyAccessContent");
            reveal_strlit("earlyAccessEndDate");
            reveal_strlit("fileFingerprint");
            assert("id"@.len() == 2);
            assert("fileFingerprint"@.len() == 15);
            assert("id"@ != "fileFingerprint"@);
            assert("gameId"@.len() == 6);
            assert("fileFingerprint"@.len() == 15);
            assert("gameId"@ != "fileFingerprint"@);
            assert("modId"@.len() == 5);
            assert("fileFingerprint"@.len() == 15);
            assert("modId"@ != "fileFingerprint"@);
            assert("isAvailable"@.len() == 11);
            assert("fileFingerprint"@.len() == 15);
            assert("isAvailable"@ != "fileFingerprint"@);
            assert("displayName"@.len() == 11);
            assert("fileFingerprint"@.len() == 15);
            assert("displayName"@ != "fileFingerprint"@);
            assert("fileName"@.len() == 8);
            assert("fileFingerprint"@.len() == 15);
            assert("fileName"@ != "fileFingerprint"@);
            assert("releaseType"@.len() == 11);
            assert("fileFingerprint"@.len() == 15);
            assert("releaseType"@ != "fileFingerprint"@);
            assert("fileStatus"@.len() == 10);
            assert("fileFingerprint"@.len() == 15);
            assert("fileStatus"@ != "fileFingerprint"@);
            assert("hashes"@.len() == 6);
            assert("fileFingerprint"@.len() == 15);
            assert("hashes"@ != "fileFingerprint"@);
            assert("fileDate"@.len() == 8);
            assert("fileFingerprint"@.len() == 15);
            assert("fileDate"@ != "fileFingerprint"@);
            assert("fileLength"@.len() == 10);
            assert("fileFingerprint"@.len() == 15);
            assert("fileLength"@ != "fileFingerprint"@);
            assert("downloadCount"@.len() == 13);
            assert("fileFingerprint"@.len() == 15);
            assert("downloadCount"@ != "fileFingerprint"@);
            assert("fileSizeOnDisk"@.len() == 14);
            assert("fileFingerprint"@.len() == 15);
            assert("fileSizeOnDisk"@ != "fileFingerprint"@);
            assert("downloadUrl"@.len() == 11);
            assert("fileFingerprint"@.len() == 15);
            assert("downloadUrl"@ != "fileFingerprint"@);
            assert("gameVersions"@.len() == 12);
            assert("fileFingerprint"@.len() == 15);
            assert("gameVersions"@ != "fileFingerprint"@);
            assert("sortableGameVersions"@.len() == 20);
            assert("fileFingerprint"@.len() == 15);
            assert("sortableGameVersions"@ != "fileFingerprint"@);
            assert("dependencies"@.len() == 12);
            assert("fileFingerprint"@.len() == 15);
            assert("dependencies"@ != "fileFingerprint"@);
            assert("exposeAsAlternative"@.len() == 19);
            assert("fileFingerprint"@.len() == 15);
            assert("exposeAsAlternative"@ != "fileFingerprint"@);
            assert("parentProjectFileId"@.len() == 19);
            assert("fileFingerprint"@.len() == 15);
            assert("parentProjectFileId"@ != "fileFingerprint"@);
            assert("alternateFileId"@[0] == 'a');
            assert("fileFingerprint"@[0] == 'f');
            assert("alternateFileId"@ != "fileFingerprint"@);
            assert("isServerPack"@.len() == 12);
            assert("fileFingerprint"@.len() == 15);
            assert("isServerPack"@ != "fileFingerprint"@);
            assert("serverPackFileId"@.len() == 16);
            assert("fileFingerprint"@.len() == 15);
            assert("serverPackFileId"@ != "fileFingerprint"@);
            assert("isEarlyAccessContent"@.len() == 20);
            assert("fileFingerprint"@.len() == 15);
            assert("isEarlyAccessContent"@ != "fileFingerprint"@);
            assert("earlyAccessEndDate"@.len() == 18);
            assert("fileFingerprint"@.len() == 15);
            assert("earlyAccessEndDate"@ != "fileFingerprint"@);
            reveal_with_fuel(crate::json::obj_get, 27);
        }
        assert(crate::json::obj_get(o, "modules"@) == Option::Some(JsonV::Arr(Seq::new(x.modules@.len(), |k: int| x.modules@[k].jv())))) by {
            reveal_strlit("id");
            reveal_strlit("gameId");
            reveal_strlit("modId");
            reveal_strlit("isAvailable");
            reveal_strlit("displayName");
            reveal_strlit("fileName");
            reveal_strlit("releaseType");
            reveal_strlit("fileStatus");
            reveal_strlit("hashes");
            reveal_strlit("fileDate");
            reveal_strlit("fileLength");
            reveal_strlit("downloadCount");
            reveal_strlit("fileSizeOnDisk");
            reveal_strlit("downloadUrl");
            reveal_strlit("gameVersions");
            reveal_strlit("sortableGameVersions");
            reveal_strlit("dependencies");
            reveal_strlit("exposeAsAlternative");
            reveal_strlit("parentProjectFileId");
            reveal_strlit("alternateFileId");
            reveal_strlit("isServerPack");
            reveal_strlit("serverPackFileId");
            reveal_strlit("isEarlyAccessContent");
            reveal_strlit("earlyAccessEndDate");
            reveal_strlit("fileFingerprint");
            reveal_strlit("modules");
            assert("id"@.len() == 2);
            assert("modules"@.len() == 7);
            assert("id"@ != "modules"@);
            assert("gameId"@.len() == 6);
            assert("modules"@.len() == 7);
            assert("gameId"@ != "modules"@);
            assert("modId"@.len() == 5);
            assert("modules"@.len() == 7);
            assert("modId"@ != "modules"@);
            assert("isAvailable"@.len() == 11);
            assert("modules"@.len() == 7);
            assert("isAvailable"@ != "modules"@);
            assert("displayName"@.len() == 11);
            assert("modules"@.len() == 7);
            assert("displayName"@ != "modules"@);
            assert("fileName"@.len() == 8);
            assert("modules"@.len() == 7);
            assert("fileName"@ != "modules"@);
            assert("releaseType"@.len() == 11);
            assert("modules"@.len() == 7);
            assert("releaseType"@ != "modules"@);
            assert("fileStatus"@.len() == 10);
            assert("modules"@.len() == 7);
            assert("fileStatus"@ != "modules"@);
            assert("hashes"@.len() == 6);
            assert("modules"@.len() == 7);
            assert("hashes"@ != "modules"@);
            assert("fileDate"@.len() == 8);
            assert("modules"@.len() == 7);
            assert("fileDate"@ != "modules"@);
            assert("fileLength"@.len() == 10);
            assert("modules"@.len() == 7);
            assert("fileLength"@ != "modules"@);
            assert("downloadCount"@.len() == 13);
            assert("modules"@.len() == 7);
            assert("downloadCount"@ != "modules"@);
            assert("fileSizeOnDisk"@.len() == 14);
            assert("modules"@.len() == 7);
            assert("fileSizeOnDisk"@ != "modules"@);
            assert("downloadUrl"@.len() == 11);
            assert("modules"@.len() == 7);
            assert("downloadUrl"@ != "modules"@);
            assert("gameVersions"@.len() == 12);
            assert("modules"@.len() == 7);
            assert("gameVersions"@ != "modules"@);
            assert("sortableGameVersions"@.len() == 20);
            assert("modules"@.len() == 7);
            assert("sortableGameVersions"@ != "modules"@);
            assert("dependencies"@.len() == 12);
            assert("modules"@.len() == 7);
            assert("dependencies"@ != "modules"@);
            assert("exposeAsAlternative"@.len() == 19);
            assert("modules"@.len() == 7);
            assert("exposeAsAlternative"@ != "modules"@);
            assert("parentProjectFileId"@.len() == 19);
            assert("modules"@.len() == 7);
            assert("parentProjectFileId"@ != "modules"@);
            assert("alternateFileId"@.len() == 15);
            assert("modules"@.len() == 7);
            assert("alternateFileId"@ != "modules"@);
            assert("isServerPack"@.len() == 12);
            assert("modules"@.len() == 7);
            assert("isServerPack"@ != "modules"@);
            assert("serverPackFileId"@.len() == 16);
            assert("modules"@.len() == 7);
            assert("serverPackFileId"@ != "modules"@);
            assert("isEarlyAccessContent"@.len() == 20);
            assert("modules"@.len() == 7);
            assert("isEarlyAccessContent"@ != "modules"@);
            assert("earlyAccessEndDate"@.len() == 18);
            assert("modules"@.len() == 7);
            assert("earlyAccessEndDate"@ != "modules"@);
            assert("fileFingerprint"@.len() == 15);
            assert("modules"@.len() == 7);
            assert("fileFingerprint"@ != "modules"@);
            reveal_with_fuel(crate::json::obj_get, 27);
        }
        x.release_type.lemma_code_inverse(0);
        x.file_status.lemma_code_inverse(0);
        assert forall|n: int| 0 <= n < x.hashes@.len() implies FileHash::decodes_to(
            (#[trigger] x.hashes@[n]).jv(), x.hashes@[n],
        ) by {
            FileHash::lemma_decodes_self(x.hashes@[n]);
        }
        assert(forall|n: int| 0 <= n < x.hashes@.len() ==> Seq::new(x.hashes@.len(),
            |k: int| x.hashes@[k].jv())[n] == (#[trigger] x.hashes@[n]).jv());
        crate::fields::lemma_str_items(Seq::new(x.game_versions@.len(), |k: int| JsonV::Str(x.game_versions@[k]@)), x.game_versions.deep_view());
        assert forall|n: int| 0 <= n < x.sortable_game_versions@.len() implies SortableGameVersion::decodes_to(
            (#[trigger] x.sortable_game_versions@[n]).jv(), x.sortable_game_versions@[n],
        ) by {
            SortableGameVersion::lemma_decodes_self(x.sortable_game_versions@[n]);
        }
        assert(forall|n: int| 0 <= n < x.sortable_game_versions@.len() ==> Seq::new(x.sortable_game_versions@.len(),
            |k: int| x.sortable_game_versions@[k].jv())[n] == (#[trigger] x.sortable_game_versions@[n]).jv());
        assert forall|n: int| 0 <= n < x.dependencies@.len() implies FileDependency::decodes_to(
            (#[trigger] x.dependencies@[n]).jv(), x.dependencies@[n],
        ) by {
            FileDependency::lemma_decodes_self(x.dependencies@[n]);
        }
        assert(forall|n: int| 0 <= n < x.dependencies@.len() ==> Seq::new(x.dependencies@.len(),
            |k: int| x.dependencies@[k].jv())[n] == (#[trigger] x.dependencies@[n]).jv());
        assert forall|n: int| 0 <= n < x.modules@.len() implies FileModule::decodes_to(
            (#[trigger] x.modules@[n]).jv(), x.modules@[n],
        ) by {
            FileModule::lemma_decodes_self(x.modules@[n]);
        }
        assert(forall|n: int| 0 <= n < x.modules@.len() ==> Seq::new(x.modules@.len(),
            |k: int| x.modules@[k].jv())[n] == (#[trigger] x.modules@[n]).jv());
    }

    /// Two values that one JSON document decodes to are equal, field for field.
    #[verifier::rlimit(100)]
    #[verifier::spinoff_prover]
    pub proof fn lemma_deterministic(j: JsonV, x: File, y: File)
        requires
            File::decodes_to(j, x),
            File::decodes_to(j, y),
        ensures
            y.id == x.id,
            y.game_id == x.game_id,
            y.mod_id == x.mod_id,
            y.is_available == x.is_available,
            crate::fields::view_opt_str(y.display_name) == crate::fields::view_opt_str(x.display_name),
            crate::fields::view_opt_str(y.file_name) == crate::fields::view_opt_str(x.file_name),
            y.release_type == x.release_type,
            y.file_status == x.file_status,
            y.hashes@.len() == x.hashes@.len() && (forall|n: int| 0 <= n < x.hashes@.len() ==> (#[trigger] y.hashes@[n]).jv() == x.hashes@[n].jv()),
            y.file_date@ == x.file_date@,
            y.file_length == x.file_length,
            y.download_count == x.download_count,
            y.file_size_on_disk == x.file_size_on_disk,
            crate::fields::view_opt_str(y.download_url) == crate::fields::view_opt_str(x.download_url),
            y.game_versions.deep_view() == x.game_versions.deep_view(),
            y.sortable_game_versions@.len() == x.sortable_game_versions@.len() && (forall|n: int| 0 <= n < x.sortable_game_versions@.len() ==> (#[trigger] y.sortable_game_versions@[n]).jv() == x.sortable_game_versions@[n].jv()),
            y.dependencies@.len() == x.dependencies@.len() && (forall|n: int| 0 <= n < x.dependencies@.len() ==> (#[trigger] y.dependencies@[n]).jv() == x.dependencies@[n].jv()),
            y.expose_as_alternative == x.expose_as_alternative,
            y.parent_project_file_id == x.parent_project_file_id,
            y.alternate_file_id == x.alternate_file_id,
            y.is_server_pack == x.is_server_pack,
            y.server_pack_file_id == x.server_pack_file_id,
            y.is_early_access_content == x.is_early_access_content,
            crate::fields::view_opt_str(y.early_access_end_date) == crate::fields::view_opt_str(x.early_access_end_date),
            y.file_fingerprint == x.file_fingerprint,
            y.modules@.len() == x.modules@.len() && (forall|n: int| 0 <= n < x.modules@.len() ==> (#[trigger] y.modules@[n]).jv() == x.modules@[n].jv()),
            y.jv() == x.jv(),
    {
        let o = j->Obj_0;
        match crate::json::obj_get(o, "hashes"@) {
            Option::Some(JsonV::Arr(items)) => {
                assert forall|n: int| 0 <= n < x.hashes@.len() implies (#[trigger] y.hashes@[n]).jv()
                    == x.hashes@[n].jv() by {
                    assert(FileHash::decodes_to(items[n], x.hashes@[n]));
                    assert(FileHash::decodes_to(items[n], y.hashes@[n]));
                    FileHash::lemma_deterministic(items[n], x.hashes@[n], y.hashes@[n]);
                }
            },
            _ => {
                assert(false);
            },
        }
        match crate::json::obj_get(o, "gameVersions"@) {
            Option::Some(JsonV::Arr(items)) => {
                assert(crate::fields::str_items(items) == Option::Some(x.game_versions.deep_view()));
                assert(crate::fields::str_items(items) == Option::Some(y.game_versions.deep_view()));
                assert(x.game_versions.deep_view() == y.game_versions.deep_view());
            },
            _ => {
                assert(false);
            },
        }
        match crate::json::obj_get(o, "sortableGameVersions"@) {
            Option::Some(JsonV::Arr(items)) => {
                assert forall|n: int| 0 <= n < x.sortable_game_versions@.len() implies (#[trigger] y.sortable_game_versions@[n]).jv()
                    == x.sortable_game_versions@[n].jv() by {
                    assert(SortableGameVersion::decodes_to(items[n], x.sortable_game_versions@[n]));
                    assert(SortableGameVersion::decodes_to(items[n], y.sortable_game_versions@[n]));
                    SortableGameVersion::lemma_deterministic(items[n], x.sortable_game_versions@[n], y.sortable_game_versions@[n]);
                }
            },
            _ => {
                assert(false);
            },
        }
        match crate::json::obj_get(o, "dependencies"@) {
            Option::Some(JsonV::Arr(items)) => {
                assert forall|n: int| 0 <= n < x.dependencies@.len() implies (#[trigger] y.dependencies@[n]).jv()
                    == x.dependencies@[n].jv() by {
                    assert(FileDependency::decodes_to(items[n], x.dependencies@[n]));
                    assert(FileDependency::decodes_to(items[n], y.dependencies@[n]));
                    FileDependency::lemma_deterministic(items[n], x.dependencies@[n], y.dependencies@[n]);
                }
            },
            _ => {
                assert(false);
            },
        }
        match crate::json::obj_get(o, "modules"@) {
            Option::Some(JsonV::Arr(items)) => {
                assert forall|n: int| 0 <= n < x.modules@.len() implies (#[trigger] y.modules@[n]).jv()
                    == x.modules@[n].jv() by {
                    assert(FileModule::decodes_to(items[n], x.modules@[n]));
                    assert(FileModule::decodes_to(items[n], y.modules@[n]));
                    FileModule::lemma_deterministic(items[n], x.modules@[n], y.modules@[n]);
                }
            },
            _ => {
                assert(false);
            },
        }
        assert(JsonV::Int(y.id as int) =~~= JsonV::Int(x.id as int));
        assert(JsonV::Int(y.game_id as int) =~~= JsonV::Int(x.game_id as int));
        assert(JsonV::Int(y.mod_id as int) =~~= JsonV::Int(x.mod_id as int));
        assert(JsonV::Bool(y.is_available) =~~= JsonV::Bool(x.is_available));
        assert((match y.display_name { Option::Some(v) => JsonV::Str(v@), Option::None => JsonV::Null }) =~~= (match x.display_name { Option::Some(v) => JsonV::Str(v@), Option::None => JsonV::Null }));
        assert((match y.file_name { Option::Some(v) => JsonV::Str(v@), Option::None => JsonV::Null }) =~~= (match x.file_name { Option::Some(v) => JsonV::Str(v@), Option::None => JsonV::Null }));
        assert(JsonV::Int(y.release_type.code()) =~~= JsonV::Int(x.release_type.code()));
        assert(JsonV::Int(y.file_status.code()) =~~= JsonV::Int(x.file_status.code()));
        assert(Seq::new(y.hashes@.len(), |k: int| y.hashes@[k].jv()) =~= Seq::new(x.hashes@.len(),
            |k: int| x.hashes@[k].jv()));
        assert(JsonV::Str(y.file_date@) =~~= JsonV::Str(x.file_date@));
        assert(JsonV::Int(y.file_length as int) =~~= JsonV::Int(x.file_length as int));
        assert(JsonV::Int(y.download_count as int) =~~= JsonV::Int(x.download_count as int));
        assert((match y.file_size_on_disk { Option::Some(v) => JsonV::Int(v as int), Option::None => JsonV::Null }) =~~= (match x.file_size_on_disk { Option::Some(v) => JsonV::Int(v as int), Option::None => JsonV::Null }));
        assert((match y.download_url { Option::Some(v) => JsonV::Str(v@), Option::None => JsonV::Null }) =~~= (match x.download_url { Option::Some(v) => JsonV::Str(v@), Option::None => JsonV::Null }));
        assert forall|q: int| 0 <= q < y.game_versions@.len() implies (#[trigger] y.game_versions@[q])@
            == x.game_versions@[q]@ by {
            assert(y.game_versions.deep_view().len() == y.game_versions@.len());
            assert(x.game_versions.deep_view().len() == x.game_versions@.len());
            assert(y.game_versions.deep_view()[q] == y.game_versions@[q].deep_view());
            assert(x.game_versions.deep_view()[q] == x.game_versions@[q].deep_view());
            assert(y.game_versions@[q].deep_view() == y.game_versions@[q]@);
            assert(x.game_versions@[q].deep_view() == x.game_versions@[q]@);
            assert(y.game_versions.deep_view()[q] == x.game_versions.deep_view()[q]);
        }
        assert(y.game_versions.deep_view().len() == y.game_versions@.len());
        assert(x.game_versions.deep_view().len() == x.game_versions@.len());
        assert(y.game_versions@.len() == x.game_versions@.len());
        assert(Seq::new(y.game_versions@.len(), |k: int| JsonV::Str(y.game_versions@[k]@)) =~= Seq::new(
            x.game_versions@.len(), |k: int| JsonV::Str(x.game_versions@[k]@)));
        assert(Seq::new(y.sortable_game_versions@.len(), |k: int| y.sortable_game_versions@[k].jv()) =~= Seq::new(x.sortable_game_versions@.len(),
            |k: int| x.sortable_game_versions@[k].jv()));
        assert(Seq::new(y.dependencies@.len(), |k: int| y.dependencies@[k].jv()) =~= Seq::new(x.dependencies@.len(),
            |k: int| x.dependencies@[k].jv()));
        assert((match y.expose_as_alternative { Option::Some(v) => JsonV::Bool(v), Option::None => JsonV::Null }) =~~= (match x.expose_as_alternative { Option::Some(v) => JsonV::Bool(v), Option::None => JsonV::Null }));
        assert((match y.parent_project_file_id { Option::Some(v) => JsonV::Int(v as int), Option::None => JsonV::Null }) =~~= (match x.parent_project_file_id { Option::Some(v) => JsonV::Int(v as int), Option::None => JsonV::Null }));
        assert((match y.alternate_file_id { Option::Some(v) => JsonV::Int(v as int), Option::None => JsonV::Null }) =~~= (match x.alternate_file_id { Option::Some(v) => JsonV::Int(v as int), Option::None => JsonV::Null }));
        assert((match y.is_server_pack { Option::Some(v) => JsonV::Bool(v), Option::None => JsonV::Null }) =~~= (match x.is_server_pack { Option::Some(v) => JsonV::Bool(v), Option::None => JsonV::Null }));
        assert((match y.server_pack_file_id { Option::Some(v) => JsonV::Int(v as int), Option::None => JsonV::Null }) =~~= (match x.server_pack_file_id { Option::Some(v) => JsonV::Int(v as int), Option::None => JsonV::Null }));
        assert((match y.is_early_access_content { Option::Some(v) => JsonV::Bool(v), Option::None => JsonV::Null }) =~~= (match x.is_early_access_content { Option::Some(v) => JsonV::Bool(v), Option::None => JsonV::Null }));
        assert((match y.early_access_end_date { Option::Some(v) => JsonV::Str(v@), Option::None => JsonV::Null }) =~~= (match x.early_access_end_date { Option::Some(v) => JsonV::Str(v@), Option::None => JsonV::Null }));
        assert(JsonV::Int(y.file_fingerprint as int) =~~= JsonV::Int(x.file_fingerprint as int));
        assert(Seq::new(y.modules@.len(), |k: int| y.modules@[k].jv()) =~= Seq::new(x.modules@.len(),
            |k: int| x.modules@[k].jv()));
        let oy = y.jv()->Obj_0;
        let ox = x.jv()->Obj_0;
        assert(oy[0] =~~= ox[0]);
        assert(oy[1] =~~= ox[1]);
        assert(oy[2] =~~= ox[2]);
        assert(oy[3] =~~= ox[3]);
        assert(oy[4] =~~= ox[4]);
        assert(oy[5] =~~= ox[5]);
        assert(oy[6] =~~= ox[6]);
        assert(oy[7] =~~= ox[7]);
        assert(oy[8] =~~= ox[8]);
        assert(oy[9] =~~= ox[9]);
        assert(oy[10] =~~= ox[10]);
        assert(oy[11] =~~= ox[11]);
        assert(oy[12] =~~= ox[12]);
        assert(oy[13] =~~= ox[13]);
        assert(oy[14] =~~= ox[14]);
        assert(oy[15] =~~= ox[15]);
        assert(oy[16] =~~= ox[16]);
        assert(oy[17] =~~= ox[17]);
        assert(oy[18] =~~= ox[18]);
        assert(oy[19] =~~= ox[19]);
        assert(oy[20] =~~= ox[20]);
        assert(oy[21] =~~= ox[21]);
        assert(oy[22] =~~= ox[22]);
        assert(oy[23] =~~= ox[23]);
        assert(oy[24] =~~= ox[24]);
        assert(oy[25] =~~= ox[25]);
        assert forall|n: int| 0 <= n < ox.len() implies oy[n] =~~= ox[n] by {
            if n == 0 {
                assert(oy[n] =~~= ox[n]);
            } else if n == 1 {
                assert(oy[n] =~~= ox[n]);
            } else if n == 2 {
                assert(oy[n] =~~= ox[n]);
            } else if n == 3 {
                assert(oy[n] =~~= ox[n]);
            } else if n == 4 {
                assert(oy[n] =~~= ox[n]);
            } else if n == 5 {
                assert(oy[n] =~~= ox[n]);
            } else if n == 6 {
                assert(oy[n] =~~= ox[n]);
            } else if n == 7 {
                assert(oy[n] =~~= ox[n]);
            } else if n == 8 {
                assert(oy[n] =~~= ox[n]);
            } else if n == 9 {
                assert(oy[n] =~~= ox[n]);
            } else if n == 10 {
                assert(oy[n] =~~= ox[n]);
            } else if n == 11 {
                assert(oy[n] =~~= ox[n]);
            } else if n == 12 {
                assert(oy[n] =~~= ox[n]);
            } else if n == 13 {
                assert(oy[n] =~~= ox[n]);
            } else if n == 14 {
                assert(oy[n] =~~= ox[n]);
            } else if n == 15 {
                assert(oy[n] =~~= ox[n]);
            } else if n == 16 {
                assert(oy[n] =~~= ox[n]);
            } else if n == 17 {
                assert(oy[n] =~~= ox[n]);
            } else if n == 18 {
                assert(oy[n] =~~= ox[n]);
            } else if n == 19 {
                assert(oy[n] =~~= ox[n]);
            } else if n == 20 {
                assert(oy[n] =~~= ox[n]);
            } else if n == 21 {
                assert(oy[n] =~~= ox[n]);
            } else if n == 22 {
                assert(oy[n] =~~= ox[n]);
            } else if n == 23 {
                assert(oy[n] =~~= ox[n]);
            } else if n == 24 {
                assert(oy[n] =~~= ox[n]);
            } else if n == 25 {
                assert(oy[n] =~~= ox[n]);
            }
        }
        assert(oy =~~= ox);
        assert(y.jv() =~~= x.jv());
    }
}

/// A mod on the catalogue.
#[derive(Debug, Clone)]
pub struct Mod {
    pub id: i32,
    pub game_id: i32,
    pub name: String,
    pub slug: String,
    pub links: ModLinks,
    pub summary: Option<String>,
    pub status: ModStatus,
    pub download_count: i64,
    pub is_featured: bool,
    pub primary_category_id: i32,
    pub categories: Vec<Category>,
    pub class_id: Option<i32>,
    pub authors: Vec<ModAuthor>,
    pub logo: Option<ModAsset>,
    pub screenshots: Vec<ModAsset>,
    pub main_file_id: i32,
    pub latest_files: Vec<File>,
    pub latest_files_indexes: Vec<FileIndex>,
    pub latest_early_access_files_indexes: Vec<FileIndex>,
    pub date_created: String,
    pub date_modified: String,
    pub date_released: String,
    pub allow_mod_distribution: Option<bool>,
    pub game_popularity_rank: i32,
    pub is_available: bool,
    pub thumbs_up_count: i32,
    pub rating: Option<String>,
}

impl Mod {
    /// The JSON document of this value, member for member.
    pub open spec fn jv(self) -> JsonV {
        JsonV::Obj(seq![
            ("id"@, JsonV::Int(self.id as int)),
            ("gameId"@, JsonV::Int(self.game_id as int)),
            ("name"@, JsonV::Str(self.name@)),
            ("slug"@, JsonV::Str(self.slug@)),
            ("links"@, self.links.jv()),
            ("summary"@, (match self.summary { Option::Some(v) => JsonV::Str(v@), Option::None => JsonV::Null })),
            ("status"@, JsonV::Int(self.status.code())),
            ("downloadCount"@, JsonV::Int(self.download_count as int)),
            ("isFeatured"@, JsonV::Bool(self.is_featured)),
            ("primaryCategoryId"@, JsonV::Int(self.primary_category_id as int)),
            ("categories"@, JsonV::Arr(Seq::new(self.categories@.len(), |k: int| self.categories@[k].jv()))),
            ("classId"@, (match self.class_id { Option::Some(v) => JsonV::Int(v as int), Option::None => JsonV::Null })),
            ("authors"@, JsonV::Arr(Seq::new(self.authors@.len(), |k: int| self.authors@[k].jv()))),
            ("logo"@, (match self.logo { Option::Some(v) => v.jv(), Option::None => JsonV::Null })),
            ("screenshots"@, JsonV::Arr(Seq::new(self.screenshots@.len(), |k: int| self.screenshots@[k].jv()))),
            ("mainFileId"@, JsonV::Int(self.main_file_id as int)),
            ("latestFiles"@, JsonV::Arr(Seq::new(self.latest_files@.len(), |k: int| self.latest_files@[k].jv()))),
            ("latestFilesIndexes"@, JsonV::Arr(Seq::new(self.latest_files_indexes@.len(), |k: int| self.latest_files_indexes@[k].jv()))),
            ("latestEarlyAccessFilesIndexes"@, JsonV::Arr(Seq::new(self.latest_early_access_files_indexes@.len(), |k: int| self.latest_early_access_files_indexes@[k].jv()))),
            ("dateCreated"@, JsonV::Str(self.date_created@)),
            ("dateModified"@, JsonV::Str(self.date_modified@)),
            ("dateReleased"@, JsonV::Str(self.date_released@)),
            ("allowModDistribution"@, (match self.allow_mod_distribution { Option::Some(v) => JsonV::Bool(v), Option::None => JsonV::Null })),
            ("gamePopularityRank"@, JsonV::Int(self.game_popularity_rank as int)),
            ("isAvailable"@, JsonV::Bool(self.is_available)),
            ("thumbsUpCount"@, JsonV::Int(self.thumbs_up_count as int)),
            ("rating"@, (match self.rating { Option::Some(v) => JsonV::Num(v@), Option::None => JsonV::Null })),
        ])
    }

    /// What it means for a JSON document to decode to this value.
    pub open spec fn decodes_to(j: JsonV, x: Mod) -> bool {
        &&& j matches JsonV::Obj(o)
        &&& crate::fields::jv_i32(o, "id"@) == Option::Some(x.id)
        &&& crate::fields::jv_i32(o, "gameId"@) == Option::Some(x.game_id)
        &&& crate::fields::jv_str(o, "name"@) == Option::Some(x.name@)
        &&& crate::fields::jv_str(o, "slug"@) == Option::Some(x.slug@)
        &&& crate::json::obj_get(o, "links"@) matches Option::Some(jj) && ModLinks::decodes_to(jj, x.links)
        &&& crate::fields::jv_opt_str(o, "summary"@) == Option::Some(crate::fields::view_opt_str(x.summary))
        &&& ModStatus::from_member(o, "status"@) == Option::Some(x.status)
        &&& crate::fields::jv_i64(o, "downloadCount"@) == Option::Some(x.download_count)
        &&& crate::fields::jv_bool(o, "isFeatured"@) == Option::Some(x.is_featured)
        &&& crate::fields::jv_i32(o, "primaryCategoryId"@) == Option::Some(x.primary_category_id)
        &&& crate::json::obj_get(o, "categories"@) matches Option::Some(JsonV::Arr(items)) && items.len() == x.categories@.len()
            && (forall|n: int| 0 <= n < items.len() ==> Category::decodes_to(#[trigger] items[n], x.categories@[n]))
        &&& crate::fields::jv_opt_i32(o, "classId"@) == Option::Some(x.class_id)
        &&& crate::json::obj_get(o, "authors"@) matches Option::Some(JsonV::Arr(items)) && items.len() == x.authors@.len()
            && (forall|n: int| 0 <= n < items.len() ==> ModAuthor::decodes_to(#[trigger] items[n], x.authors@[n]))
        &&& match crate::json::obj_get(o, "logo"@) {
            Option::None => x.logo is None,
            Option::Some(JsonV::Null) => x.logo is None,
            Option::Some(jj) => x.logo matches Option::Some(rr) && ModAsset::decodes_to(jj, rr),
        }
        &&& crate::json::obj_get(o, "screenshots"@) matches Option::Some(JsonV::Arr(items)) && items.len() == x.screenshots@.len()
            && (forall|n: int| 0 <= n < items.len() ==> ModAsset::decodes_to(#[trigger] items[n], x.screenshots@[n]))
        &&& crate::fields::jv_i32(o, "mainFileId"@) == Option::Some(x.main_file_id)
        &&& crate::json::obj_get(o, "latestFiles"@) matches Option::Some(JsonV::Arr(items)) && items.len() == x.latest_files@.len()
            && (forall|n: int| 0 <= n < items.len() ==> File::decodes_to(#[trigger] items[n], x.latest_files@[n]))
        &&& crate::json::obj_get(o, "latestFilesIndexes"@) matches Option::Some(JsonV::Arr(items)) && items.len() == x.latest_files_indexes@.len()
            && (forall|n: int| 0 <= n < items.len() ==> FileIndex::decodes_to(#[trigger] items[n], x.latest_files_indexes@[n]))
        &&& crate::json::obj_get(o, "latestEarlyAccessFilesIndexes"@) matches Option::Some(JsonV::Arr(items)) && items.len() == x.latest_early_access_files_indexes@.len()
            && (forall|n: int| 0 <= n < items.len() ==> FileIndex::decodes_to(#[trigger] items[n], x.latest_early_access_files_indexes@[n]))
        &&& crate::fields::jv_str(o, "dateCreated"@) == Option::Some(x.date_created@)
        &&& crate::fields::jv_str(o, "dateModified"@) == Option::Some(x.date_modified@)
        &&& crate::fields::jv_str(o, "dateReleased"@) == Option::Some(x.date_released@)
        &&& crate::fields::jv_opt_bool(o, "allowModDistribution"@) == Option::Some(x.allow_mod_distribution)
        &&& crate::fields::jv_i32(o, "gamePopularityRank"@) == Option::Some(x.game_popularity_rank)
        &&& crate::fields::jv_bool(o, "isAvailable"@) == Option::Some(x.is_available)
        &&& crate::fields::jv_i32(o, "thumbsUpCount"@) == Option::Some(x.thumbs_up_count)
        &&& crate::fields::jv_opt_num_text(o, "rating"@) == Option::Some(crate::fields::view_opt_str(x.rating))
    }

    #[verifier::rlimit(100)]
    #[verifier::spinoff_prover]
    fn members_part0(&self, rest: JsonMembers) -> (m: JsonMembers)
        ensures
            m@ == seq![
                ("id"@, JsonV::Int(self.id as int)),
                ("gameId"@, JsonV::Int(self.game_id as int)),
                ("name"@, JsonV::Str(self.name@)),
                ("slug"@, JsonV::Str(self.slug@)),
                ("links"@, self.links.jv()),
                ("summary"@, (match self.summary { Option::Some(v) => JsonV::Str(v@), Option::None => JsonV::Null })),
                ("status"@, JsonV::Int(self.status.code())),
            ] + rest@,
    {
        let ghost rest_v = rest@;
        let mut m = rest;
        m = crate::fields::cons_member("status", Json::Int(self.status.to_code()), m);
        m = crate::fields::cons_member("summary", crate::fields::opt_str_json(&self.summary), m);
        m = crate::fields::cons_member("links", self.links.to_json(), m);
        m = crate::fields::cons_member("slug", Json::Str(self.slug.clone()), m);
        m = crate::fields::cons_member("name", Json::Str(self.name.clone()), m);
        m = crate::fields::cons_member("gameId", Json::Int(self.game_id as i64), m);
        m = crate::fields::cons_member("id", Json::Int(self.id as i64), m);
        proof {
            let ghost m_v = m@;
            assert(m_v[0] =~~= ("id"@, JsonV::Int(self.id as int)));
            assert(m_v[1] =~~= ("gameId"@, JsonV::Int(self.game_id as int)));
            assert(m_v[2] =~~= ("name"@, JsonV::Str(self.name@)));
            assert(m_v[3] =~~= ("slug"@, JsonV::Str(self.slug@)));
            assert(m_v[4] =~~= ("links"@, self.links.jv()));
            assert(m_v[5] =~~= ("summary"@, (match self.summary { Option::Some(v) => JsonV::Str(v@), Option::None => JsonV::Null })));
            assert(m_v[6] =~~= ("status"@, JsonV::Int(self.status.code())));
            assert(m_v =~~= seq![
                ("id"@, JsonV::Int(self.id as int)),
                ("gameId"@, JsonV::Int(self.game_id as int)),
                ("name"@, JsonV::Str(self.name@)),
                ("slug"@, JsonV::Str(self.slug@)),
                ("links"@, self.links.jv()),
                ("summary"@, (match self.summary { Option::Some(v) => JsonV::Str(v@), Option::None => JsonV::Null })),
                ("status"@, JsonV::Int(self.status.code())),
            ] + rest_v);
        }
        m
    }

    #[verifier::rlimit(100)]
    #[verifier::spinoff_prover]
    fn members_part1(&self, rest: JsonMembers) -> (m: JsonMembers)
        ensures
            m@ == seq![
                ("downloadCount"@, JsonV::Int(self.download_count as int)),
                ("isFeatured"@, JsonV::Bool(self.is_featured)),
                ("primaryCategoryId"@, JsonV::Int(self.primary_category_id as int)),
                ("categories"@, JsonV::Arr(Seq::new(self.categories@.len(), |k: int| self.categories@[k].jv()))),
                ("classId"@, (match self.class_id { Option::Some(v) => JsonV::Int(v as int), Option::None => JsonV::Null })),
                ("authors"@, JsonV::Arr(Seq::new(self.authors@.len(), |k: int| self.authors@[k].jv()))),
                ("logo"@, (match self.logo { Option::Some(v) => v.jv(), Option::None => JsonV::Null })),
            ] + rest@,
    {
        let ghost rest_v = rest@;
        let mut m = rest;
        let e_logo: Json = match &self.logo {
            Option::Some(v) => v.to_json(),
            Option::None => Json::Null,
        };
        proof {
            assert(e_logo@ == (match self.logo { Option::Some(v) => v.jv(), Option::None => JsonV::Null }));
        }
        m = crate::fields::cons_member("logo", e_logo, m);
        let l_authors = ModAuthor::list_to_json(&self.authors, 0);
        let ghost lv_authors = l_authors@;
        let e_authors = Json::Arr(Box::new(l_authors));
        proof {
            assert(e_authors matches Json::Arr(lb) && crate::json::list_view(*lb) == lv_authors);
            assert(lv_authors =~= Seq::new(self.authors@.len(), |k: int| self.authors@[k].jv()));
            assert(e_authors@ =~~= JsonV::Arr(Seq::new(self.authors@.len(), |k: int| self.authors@[k].jv())));
        }
        m = crate::fields::cons_member("authors", e_authors, m);
        m = crate::fields::cons_member("classId", crate::fields::opt_i32_json(&self.class_id), m);
        let l_categories = Category::list_to_json(&self.categories, 0);
        let ghost lv_categories = l_categories@;
        let e_categories = Json::Arr(Box::new(l_categories));
        proof {
            assert(e_categories matches Json::Arr(lb) && crate::json::list_view(*lb) == lv_categories);
            assert(lv_categories =~= Seq::new(self.categories@.len(), |k: int| self.categories@[k].jv()));
            assert(e_categories@ =~~= JsonV::Arr(Seq::new(self.categories@.len(), |k: int| self.categories@[k].jv())));
        }
        m = crate::fields::cons_member("categories", e_categories, m);
        m = crate::fields::cons_member("primaryCategoryId", Json::Int(self.primary_category_id as i64), m);
        m = crate::fields::cons_member("isFeatured", Json::Bool(self.is_featured), m);
        m = crate::fields::cons_member("downloadCount", Json::Int(self.download_count), m);
        proof {
            let ghost m_v = m@;
            assert(m_v[0] =~~= ("downloadCount"@, JsonV::Int(self.download_count as int)));
            assert(m_v[1] =~~= ("isFeatured"@, JsonV::Bool(self.is_featured)));
            assert(m_v[2] =~~= ("primaryCategoryId"@, JsonV::Int(self.primary_category_id as int)));
            assert(m_v[3] =~~= ("categories"@, JsonV::Arr(Seq::new(self.categories@.len(), |k: int| self.categories@[k].jv()))));
            assert(m_v[4] =~~= ("classId"@, (match self.class_id { Option::Some(v) => JsonV::Int(v as int), Option::None => JsonV::Null })));
            assert(m_v[5] =~~= ("authors"@, JsonV::Arr(Seq::new(self.authors@.len(), |k: int| self.authors@[k].jv()))));
            assert(m_v[6] =~~= ("logo"@, (match self.logo { Option::Some(v) => v.jv(), Option::None => JsonV::Null })));
            assert(m_v =~~= seq![
                ("downloadCount"@, JsonV::Int(self.download_count as int)),
                ("isFeatured"@, JsonV::Bool(self.is_featured)),
                ("primaryCategoryId"@, JsonV::Int(self.primary_category_id as int)),
                ("categories"@, JsonV::Arr(Seq::new(self.categories@.len(), |k: int| self.categories@[k].jv()))),
                ("classId"@, (match self.class_id { Option::Some(v) => JsonV::Int(v as int), Option::None => JsonV::Null })),
                ("authors"@, JsonV::Arr(Seq::new(self.authors@.len(), |k: int| self.authors@[k].jv()))),
                ("logo"@, (match self.logo { Option::Some(v) => v.jv(), Option::None => JsonV::Null })),
            ] + rest_v);
        }
        m
    }

    #[verifier::rlimit(100)]
    #[verifier::spinoff_prover]
    fn members_part2(&self, rest: JsonMembers) -> (m: JsonMembers)
        ensures
            m@ == seq![
                ("screenshots"@, JsonV::Arr(Seq::new(self.screenshots@.len(), |k: int| self.screenshots@[k].jv()))),
                ("mainFileId"@, JsonV::Int(self.main_file_id as int)),
                ("latestFiles"@, JsonV::Arr(Seq::new(self.latest_files@.len(), |k: int| self.latest_files@[k].jv()))),
                ("latestFilesIndexes"@, JsonV::Arr(Seq::new(self.latest_files_indexes@.len(), |k: int| self.latest_files_indexes@[k].jv()))),
                ("latestEarlyAccessFilesIndexes"@, JsonV::Arr(Seq::new(self.latest_early_access_files_indexes@.len(), |k: int| self.latest_early_access_files_indexes@[k].jv()))),
                ("dateCreated"@, JsonV::Str(self.date_created@)),
                ("dateModified"@, JsonV::Str(self.date_modified@)),
            ] + rest@,
    {
        let ghost rest_v = rest@;
        let mut m = rest;
        m = crate::fields::cons_member("dateModified", Json::Str(self.date_modified.clone()), m);
        m = crate::fields::cons_member("dateCreated", Json::Str(self.date_created.clone()), m);
        let l_latest_early_access_files_indexes = FileIndex::list_to_json(&self.latest_early_access_files_indexes, 0);
        let ghost lv_latest_early_access_files_indexes = l_latest_early_access_files_indexes@;
        let e_latest_early_access_files_indexes = Json::Arr(Box::new(l_latest_early_access_files_indexes));
        proof {
            assert(e_latest_early_access_files_indexes matches Json::Arr(lb) && crate::json::list_view(*lb) == lv_latest_early_access_files_indexes);
            assert(lv_latest_early_access_files_indexes =~= Seq::new(self.latest_early_access_files_indexes@.len(), |k: int| self.latest_early_access_files_indexes@[k].jv()));
            assert(e_latest_early_access_files_indexes@ =~~= JsonV::Arr(Seq::new(self.latest_early_access_files_indexes@.len(), |k: int| self.latest_early_access_files_indexes@[k].jv())));
        }
        m = crate::fields::cons_member("latestEarlyAccessFilesIndexes", e_latest_early_access_files_indexes, m);
        let l_latest_files_indexes = FileIndex::list_to_json(&self.latest_files_indexes, 0);
        let ghost lv_latest_files_indexes = l_latest_files_indexes@;
        let e_latest_files_indexes = Json::Arr(Box::new(l_latest_files_indexes));
        proof {
            assert(e_latest_files_indexes matches Json::Arr(lb) && crate::json::list_view(*lb) == lv_latest_files_indexes);
            assert(lv_latest_files_indexes =~= Seq::new(self.latest_files_indexes@.len(), |k: int| self.latest_files_indexes@[k].jv()));
            assert(e_latest_files_indexes@ =~~= JsonV::Arr(Seq::new(self.latest_files_indexes@.len(), |k: int| self.latest_files_indexes@[k].jv())));
        }
        m = crate::fields::cons_member("latestFilesIndexes", e_latest_files_indexes, m);
        let l_latest_files = File::list_to_json(&self.latest_files, 0);
        let ghost lv_latest_files = l_latest_files@;
        let e_latest_files = Json::Arr(Box::new(l_latest_files));
        proof {
            assert(e_latest_files matches Json::Arr(lb) && crate::json::list_view(*lb) == lv_latest_files);
            assert(lv_latest_files =~= Seq::new(self.latest_files@.len(), |k: int| self.latest_files@[k].jv()));
            assert(e_latest_files@ =~~= JsonV::Arr(Seq::new(self.latest_files@.len(), |k: int| self.latest_files@[k].jv())));
        }
        m = crate::fields::cons_member("latestFiles", e_latest_files, m);
        m = crate::fields::cons_member("mainFileId", Json::Int(self.main_file_id as i64), m);
        let l_screenshots = ModAsset::list_to_json(&self.screenshots, 0);
        let ghost lv_screenshots = l_screenshots@;
        let e_screenshots = Json::Arr(Box::new(l_screenshots));
        proof {
            assert(e_screenshots matches Json::Arr(lb) && crate::json::list_view(*lb) == lv_screenshots);
            assert(lv_screenshots =~= Seq::new(self.screenshots@.len(), |k: int| self.screenshots@[k].jv()));
            assert(e_screenshots@ =~~= JsonV::Arr(Seq::new(self.screenshots@.len(), |k: int| self.screenshots@[k].jv())));
        }
        m = crate::fields::cons_member("screenshots", e_screenshots, m);
        proof {
            let ghost m_v = m@;
            assert(m_v[0] =~~= ("screenshots"@, JsonV::Arr(Seq::new(self.screenshots@.len(), |k: int| self.screenshots@[k].jv()))));
            assert(m_v[1] =~~= ("mainFileId"@, JsonV::Int(self.main_file_id as int)));
            assert(m_v[2] =~~= ("latestFiles"@, JsonV::Arr(Seq::new(self.latest_files@.len(), |k: int| self.latest_files@[k].jv()))));
            assert(m_v[3] =~~= ("latestFilesIndexes"@, JsonV::Arr(Seq::new(self.latest_files_indexes@.len(), |k: int| self.latest_files_indexes@[k].jv()))));
            assert(m_v[4] =~~= ("latestEarlyAccessFilesIndexes"@, JsonV::Arr(Seq::new(self.latest_early_access_files_indexes@.len(), |k: int| self.latest_early_access_files_indexes@[k].jv()))));
            assert(m_v[5] =~~= ("dateCreated"@, JsonV::Str(self.date_created@)));
            assert(m_v[6] =~~= ("dateModified"@, JsonV::Str(self.date_modified@)));
            assert(m_v =~~= seq![
                ("screenshots"@, JsonV::Arr(Seq::new(self.screenshots@.len(), |k: int| self.screenshots@[k].jv()))),
                ("mainFileId"@, JsonV::Int(self.main_file_id as int)),
                ("latestFiles"@, JsonV::Arr(Seq::new(self.latest_files@.len(), |k: int| self.latest_files@[k].jv()))),
                ("latestFilesIndexes"@, JsonV::Arr(Seq::new(self.latest_files_indexes@.len(), |k: int| self.latest_files_indexes@[k].jv()))),
                ("latestEarlyAccessFilesIndexes"@, JsonV::Arr(Seq::new(self.latest_early_access_files_indexes@.len(), |k: int| self.latest_early_access_files_indexes@[k].jv()))),
                ("dateCreated"@, JsonV::Str(self.date_created@)),
                ("dateModified"@, JsonV::Str(self.date_modified@)),
            ] + rest_v);
        }
        m
    }

    #[verifier::rlimit(100)]
    #[verifier::spinoff_prover]
    fn members_part3(&self, rest: JsonMembers) -> (m: JsonMembers)
        ensures
            m@ == seq![
                ("dateReleased"@, JsonV::Str(self.date_released@)),
                ("allowModDistribution"@, (match self.allow_mod_distribution { Option::Some(v) => JsonV::Bool(v), Option::None => JsonV::Null })),
                ("gamePopularityRank"@, JsonV::Int(self.game_popularity_rank as int)),
                ("isAvailable"@, JsonV::Bool(self.is_available)),
                ("thumbsUpCount"@, JsonV::Int(self.thumbs_up_count as int)),
                ("rating"@, (match self.rating { Option::Some(v) => JsonV::Num(v@), Option::None => JsonV::Null })),
            ] + rest@,
    {
        let ghost rest_v = rest@;
        let mut m = rest;
        let e_rating: Json = match &self.rating {
            Option::Some(v) => Json::Num(v.clone()),
            Option::None => Json::Null,
        };
        proof {
            assert(e_rating@ == (match self.rating { Option::Some(v) => JsonV::Num(v@), Option::None => JsonV::Null }));
        }
        m = crate::fields::cons_member("rating", e_rating, m);
        m = crate::fields::cons_member("thumbsUpCount", Json::Int(self.thumbs_up_count as i64), m);
        m = crate::fields::cons_member("isAvailable", Json::Bool(self.is_available), m);
        m = crate::fields::cons_member("gamePopularityRank", Json::Int(self.game_popularity_rank as i64), m);
        m = crate::fields::cons_member("allowModDistribution", crate::fields::opt_bool_json(&self.allow_mod_distribution), m);
        m = crate::fields::cons_member("dateReleased", Json::Str(self.date_released.clone()), m);
        proof {
            let ghost m_v = m@;
            assert(m_v[0] =~~= ("dateReleased"@, JsonV::Str(self.date_released@)));
            assert(m_v[1] =~~= ("allowModDistribution"@, (match self.allow_mod_distribution { Option::Some(v) => JsonV::Bool(v), Option::None => JsonV::Null })));
            assert(m_v[2] =~~= ("gamePopularityRank"@, JsonV::Int(self.game_popularity_rank as int)));
            assert(m_v[3] =~~= ("isAvailable"@, JsonV::Bool(self.is_available)));
            assert(m_v[4] =~~= ("thumbsUpCount"@, JsonV::Int(self.thumbs_up_count as int)));
            assert(m_v[5] =~~= ("rating"@, (match self.rating { Option::Some(v) => JsonV::Num(v@), Option::None => JsonV::Null })));
            assert(m_v =~~= seq![
                ("dateReleased"@, JsonV::Str(self.date_released@)),
                ("allowModDistribution"@, (match self.allow_mod_distribution { Option::Some(v) => JsonV::Bool(v), Option::None => JsonV::Null })),
                ("gamePopularityRank"@, JsonV::Int(self.game_popularity_rank as int)),
                ("isAvailable"@, JsonV::Bool(self.is_available)),
                ("thumbsUpCount"@, JsonV::Int(self.thumbs_up_count as int)),
                ("rating"@, (match self.rating { Option::Some(v) => JsonV::Num(v@), Option::None => JsonV::Null })),
            ] + rest_v);
        }
        m
    }

    #[verifier::rlimit(100)]
    #[verifier::spinoff_prover]
    pub fn to_json(&self) -> (r: Json)
        ensures
            r@ == self.jv(),
    {
        let mut m = JsonMembers::Nil;
        m = self.members_part3(m);
        m = self.members_part2(m);
        m = self.members_part1(m);
        m = self.members_part0(m);
        let ghost m_v = m@;
        let r = Json::Obj(Box::new(m));
        proof {
            assert(r matches Json::Obj(o2) && crate::json::members_view(*o2) == m_v);
            assert(r@ == JsonV::Obj(m_v));
            assert(m_v =~~= self.jv()->Obj_0);
            assert(r@ =~~= self.jv());
        }
        r
    }

    #[verifier::rlimit(100)]
    #[verifier::spinoff_prover]
    pub fn from_json(j: &Json) -> (r: Option<Mod>)
        ensures
            r matches Option::Some(x) ==> Mod::decodes_to(j@, x),
            r is None ==> forall|x: Mod| !Mod::decodes_to(j@, x),
    {
        match j {
            Json::Obj(m) => {
            let id = match crate::fields::get_i32(m, "id") {
                Option::Some(v) => v,
                Option::None => {
                    return Option::None;
                },
            };
            let game_id = match crate::fields::get_i32(m, "gameId") {
                Option::Some(v) => v,
                Option::None => {
                    return Option::None;
                },
            };
            let name = match crate::fields::get_str(m, "name") {
                Option::Some(v) => v,
                Option::None => {
                    return Option::None;
                },
            };
            let slug = match crate::fields::get_str(m, "slug") {
                Option::Some(v) => v,
                Option::None => {
                    return Option::None;
                },
            };
            let links = match crate::json::members_get(m, "links") {
                Option::Some(jj) => match ModLinks::from_json(jj) {
                    Option::Some(v) => v,
                    Option::None => {
                        return Option::None;
                    },
                },
                Option::None => {
                    return Option::None;
                },
            };
            let summary = match crate::fields::get_opt_str(m, "summary") {
                Option::Some(v) => v,
                Option::None => {
                    return Option::None;
                },
            };
            let status = match ModStatus::get_member(m, "status") {
                Option::Some(v) => v,
                Option::None => {
                    return Option::None;
                },
            };
            let download_count = match crate::fields::get_i64(m, "downloadCount") {
                Option::Some(v) => v,
                Option::None => {
                    return Option::None;
                },
            };
            let is_featured = match crate::fields::get_bool(m, "isFeatured") {
                Option::Some(v) => v,
                Option::None => {
                    return Option::None;
                },
            };
            let primary_category_id = match crate::fields::get_i32(m, "primaryCategoryId") {
                Option::Some(v) => v,
                Option::None => {
                    return Option::None;
                },
            };
            let categories = match crate::fields::get_arr(m, "categories") {
                Option::Some(l) => match Category::list_from_json(l) {
                    Option::Some(v) => v,
                    Option::None => {
                        proof {
                            assert forall|x: Mod| !Mod::decodes_to(j@, x) by {
                                if Mod::decodes_to(j@, x) {
                                    Category::lemma_list_undecodable(l@, x.categories@);
                                }
                            }
                        }
                        return Option::None;
                    },
                },
                Option::None => {
                    return Option::None;
                },
            };
            let class_id = match crate::fields::get_opt_i32(m, "classId") {
                Option::Some(v) => v,
                Option::None => {
                    return Option::None;
                },
            };
            let authors = match crate::fields::get_arr(m, "authors") {
                Option::Some(l) => match ModAuthor::list_from_json(l) {
                    Option::Some(v) => v,
                    Option::None => {
                        proof {
                            assert forall|x: Mod| !Mod::decodes_to(j@, x) by {
                                if Mod::decodes_to(j@, x) {
                                    ModAuthor::lemma_list_undecodable(l@, x.authors@);
                                }
                            }
                        }
                        return Option::None;
                    },
                },
                Option::None => {
                    return Option::None;
                },
            };
            let logo = match crate::json::members_get(m, "logo") {
                Option::Some(jj) => match jj {
                    Json::Null => Option::None,
                    _ => match ModAsset::from_json(jj) {
                        Option::Some(v) => Option::Some(v),
                        Option::None => {
                            return Option::None;
                        },
                    },
                },
                Option::None => Option::None,
            };
            let screenshots = match crate::fields::get_arr(m, "screenshots") {
                Option::Some(l) => match ModAsset::list_from_json(l) {
                    Option::Some(v) => v,
                    Option::None => {
                        proof {
                            assert forall|x: Mod| !Mod::decodes_to(j@, x) by {
                                if Mod::decodes_to(j@, x) {
                                    ModAsset::lemma_list_undecodable(l@, x.screenshots@);
                                }
                            }
                        }
                        return Option::None;
                    },
                },
                Option::None => {
                    return Option::None;
                },
            };
            let main_file_id = match crate::fields::get_i32(m, "mainFileId") {
                Option::Some(v) => v,
                Option::None => {
                    return Option::None;
                },
            };
            let latest_files = match crate::fields::get_arr(m, "latestFiles") {
                Option::Some(l) => match File::list_from_json(l) {
                    Option::Some(v) => v,
                    Option::None => {
                        proof {
                            assert forall|x: Mod| !Mod::decodes_to(j@, x) by {
                                if Mod::decodes_to(j@, x) {
                                    File::lemma_list_undecodable(l@, x.latest_files@);
                                }
                            }
                        }
                        return Option::None;
                    },
                },
                Option::None => {
                    return Option::None;
                },
            };
            let latest_files_indexes = match crate::fields::get_arr(m, "latestFilesIndexes") {
                Option::Some(l) => match FileIndex::list_from_json(l) {
                    Option::Some(v) => v,
                    Option::None => {
                        proof {
                            assert forall|x: Mod| !Mod::decodes_to(j@, x) by {
                                if Mod::decodes_to(j@, x) {
                                    FileIndex::lemma_list_undecodable(l@, x.latest_files_indexes@);
                                }
                            }
                        }
                        return Option::None;
                    },
                },
                Option::None => {
                    return Option::None;
                },
            };
            let latest_early_access_files_indexes = match crate::fields::get_arr(m, "latestEarlyAccessFilesIndexes") {
                Option::Some(l) => match FileIndex::list_from_json(l) {
                    Option::Some(v) => v,
                    Option::None => {
                        proof {
                            assert forall|x: Mod| !Mod::decodes_to(j@, x) by {
                                if Mod::decodes_to(j@, x) {
                                    FileIndex::lemma_list_undecodable(l@, x.latest_early_access_files_indexes@);
                                }
                            }
                        }
                        return Option::None;
                    },
                },
                Option::None => {
                    return Option::None;
                },
            };
            let date_created = match crate::fields::get_str(m, "dateCreated") {
                Option::Some(v) => v,
                Option::None => {
                    return Option::None;
                },
            };
            let date_modified = match crate::fields::get_str(m, "dateModified") {
                Option::Some(v) => v,
                Option::None => {
                    return Option::None;
                },
            };
            let date_released = match crate::fields::get_str(m, "dateReleased") {
                Option::Some(v) => v,
                Option::None => {
                    return Option::None;
                },
            };
            let allow_mod_distribution = match crate::fields::get_opt_bool(m, "allowModDistribution") {
                Option::Some(v) => v,
                Option::None => {
                    return Option::None;
                },
            };
            let game_popularity_rank = match crate::fields::get_i32(m, "gamePopularityRank") {
                Option::Some(v) => v,
                Option::None => {
                    return Option::None;
                },
            };
            let is_available = match crate::fields::get_bool(m, "isAvailable") {
                Option::Some(v) => v,
                Option::None => {
                    return Option::None;
                },
            };
            let thumbs_up_count = match crate::fields::get_i32(m, "thumbsUpCount") {
                Option::Some(v) => v,
                Option::None => {
                    return Option::None;
                },
            };
            let rating = match crate::fields::get_opt_num_text(m, "rating") {
                Option::Some(v) => v,
                Option::None => {
                    return Option::None;
                },
            };
                Option::Some(Mod {
                    id,
                    game_id,
                    name,
                    slug,
                    links,
                    summary,
                    status,
                    download_count,
                    is_featured,
                    primary_category_id,
                    categories,
                    class_id,
                    authors,
                    logo,
                    screenshots,
                    main_file_id,
                    latest_files,
                    latest_files_indexes,
                    latest_early_access_files_indexes,
                    date_created,
                    date_modified,
                    date_released,
                    allow_mod_distribution,
                    game_popularity_rank,
                    is_available,
                    thumbs_up_count,
                    rating,
                })
            },
            _ => Option::None,
        }
    }

    /// Builds the JSON array of a list of these values, from position `i` on.
    #[verifier::rlimit(100)]
    #[verifier::spinoff_prover]
    pub fn list_to_json(v: &Vec<Mod>, i: usize) -> (r: JsonList)
        requires
            i <= v@.len(),
        ensures
            r@ == Seq::new((v@.len() - i as int) as nat, |k: int| v@[i + k].jv()),
        decreases v@.len() - i,
    {
        if i < v.len() {
            let rest = Mod::list_to_json(v, i + 1);
            let ghost rest_v = rest@;
            let hd = v[i].to_json();
            let ghost hd_v = hd@;
            let r = JsonList::Cons(hd, Box::new(rest));
            proof {
                let target = Seq::new((v@.len() - i as int) as nat, |k: int| v@[i + k].jv());
                assert(r matches JsonList::Cons(h, t) && crate::json::json_view(h) == hd_v
                    && crate::json::list_view(*t) == rest_v);
                assert(crate::json::list_view(r) == seq![hd_v] + rest_v);
                assert forall|n: int| 0 <= n < target.len() implies crate::json::list_view(r)[n]
                    == target[n] by {
                    if n > 0 {
                        assert(crate::json::list_view(r)[n] == rest_v[n - 1]);
                        assert(rest_v[n - 1] == v@[i + 1 + (n - 1)].jv());
                    }
                }
                assert(r@ =~= target);
            }
            r
        } else {
            let r = JsonList::Nil;
            proof {
                assert(r@ =~= Seq::new((v@.len() - i as int) as nat, |k: int| v@[i + k].jv()));
            }
            r
        }
    }

    /// Decodes a JSON array of these values.
    #[verifier::rlimit(100)]
    #[verifier::spinoff_prover]
    pub fn list_from_json(l: &JsonList) -> (r: Option<Vec<Mod>>)
        ensures
            match r {
                Option::Some(v) => v@.len() == l@.len() && (forall|n: int|
                    0 <= n < l@.len() ==> Mod::decodes_to(#[trigger] l@[n], v@[n])),
                Option::None => Mod::list_undecodable(l@),
            },
        decreases *l,
    {
        match l {
            JsonList::Nil => {
                let r: Vec<Mod> = Vec::new();
                Option::Some(r)
            },
            JsonList::Cons(h, t) => {
                let t2: &JsonList = &*t;
                proof {
                    assert(l@[0] == h@);
                    assert(l@.drop_first() =~= t2@);
                }
                match Mod::from_json(h) {
                    Option::Some(x) => match Mod::list_from_json(t2) {
                        Option::Some(rest) => {
                            let ghost rest_v = rest@;
                            let mut out: Vec<Mod> = Vec::new();
                            out.push(x);
                            let mut rest = rest;
                            out.append(&mut rest);
                            proof {
                                assert(out@ == seq![x] + rest_v);
                                assert forall|n: int| 0 <= n < l@.len() implies Mod::decodes_to(
                                    #[trigger] l@[n], out@[n],
                                ) by {
                                    if n > 0 {
                                        assert(l@[n] == t2@[n - 1]);
                                        assert(out@[n] == rest_v[n - 1]);
                                    }
                                }
                            }
                            Option::Some(out)
                        },
                        Option::None => Option::None,
                    },
                    Option::None => Option::None,
                }
            },
        }
    }

    /// Whether some item of the array has no decoding.
    pub open spec fn list_undecodable(l: Seq<JsonV>) -> bool
        decreases l.len(),
    {
        l.len() > 0 && ((forall|x: Mod| !(#[trigger] Mod::decodes_to(l[0], x)))
            || Mod::list_undecodable(l.drop_first()))
    }

    /// An array with an undecodable item decodes to no list of values.
    #[verifier::rlimit(100)]
    #[verifier::spinoff_prover]
    pub proof fn lemma_list_undecodable(l: Seq<JsonV>, v: Seq<Mod>)
        requires
            Mod::list_undecodable(l),
            l.len() == v.len(),
        ensures
            !(forall|n: int| 0 <= n < l.len() ==> Mod::decodes_to(#[trigger] l[n], v[n])),
        decreases l.len(),
    {
        if forall|n: int| 0 <= n < l.len() ==> Mod::decodes_to(#[trigger] l[n], v[n]) {
            assert(Mod::decodes_to(l[0], v[0]));
            if forall|x: Mod| !(#[trigger] Mod::decodes_to(l[0], x)) {
                assert(!Mod::decodes_to(l[0], v[0]));
            } else {
                assert(Mod::list_undecodable(l.drop_first()));
                assert forall|n: int|
                    0 <= n < l.drop_first().len() implies Mod::decodes_to(
                    #[trigger] l.drop_first()[n], v.drop_first()[n],
                ) by {
                    assert(l.drop_first()[n] == l[n + 1]);
                    assert(v.drop_first()[n] == v[n + 1]);
                }
                Mod::lemma_list_undecodable(l.drop_first(), v.drop_first());
            }
        }
    }


    /// The JSON document of a value decodes back to it.
    #[verifier::rlimit(100)]
    #[verifier::spinoff_prover]
    pub proof fn lemma_decodes_self(x: Mod)
        ensures
            Mod::decodes_to(x.jv(), x),
    {
        let o = x.jv()->Obj_0;
        assert(crate::json::obj_get(o, "id"@) == Option::Some(JsonV::Int(x.id as int))) by {
            reveal_strlit("id");
            reveal_with_fuel(crate::json::obj_get, 28);
        }
        assert(crate::json::obj_get(o, "gameId"@) == Option::Some(JsonV::Int(x.game_id as int))) by {
            reveal_strlit("id");
            reveal_strlit("gameId");
            assert("id"@.len() == 2);
            assert("gameId"@.len() == 6);
            assert("id"@ != "gameId"@);
            reveal_with_fuel(crate::json::obj_get, 28);
        }
        assert(crate::json::obj_get(o, "name"@) == Option::Some(JsonV::Str(x.name@))) by {
            reveal_strlit("id");
            reveal_strlit("gameId");
            reveal_strlit("name");
            assert("id"@.len() == 2);
            assert("name"@.len() == 4);
            assert("id"@ != "name"@);
            assert("gameId"@.len() == 6);
            assert("name"@.len() == 4);
            assert("gameId"@ != "name"@);
            reveal_with_fuel(crate::json::obj_get, 28);
        }
        assert(crate::json::obj_get(o, "slug"@) == Option::Some(JsonV::Str(x.slug@))) by {
            reveal_strlit("id");
            reveal_strlit("gameId");
            reveal_strlit("name");
            reveal_strlit("slug");
            assert("id"@.len() == 2);
            assert("slug"@.len() == 4);
            assert("id"@ != "slug"@);
            assert("gameId"@.len() == 6);
            assert("slug"@.len() == 4);
            assert("gameId"@ != "slug"@);
            assert("name"@[0] == 'n');
            assert("slug"@[0] == 's');
            assert("name"@ != "slug"@);
            reveal_with_fuel(crate::json::obj_get, 28);
        }
        assert(crate::json::obj_get(o, "links"@) == Option::Some(x.links.jv())) by {
            reveal_strlit("id");
            reveal_strlit("gameId");
            reveal_strlit("name");
            reveal_strlit("slug");
            reveal_strlit("links");
            assert("id"@.len() == 2);
            assert("links"@.len() == 5);
            assert("id"@ != "links"@);
            assert("gameId"@.len() == 6);
            assert("links"@.len() == 5);
            assert("gameId"@ != "links"@);
            assert("name"@.len() == 4);
            assert("links"@.len() == 5);
            assert("name"@ != "links"@);
            assert("slug"@.len() == 4);
            assert("links"@.len() == 5);
            assert("slug"@ != "links"@);
            reveal_with_fuel(crate::json::obj_get, 28);
        }
        assert(crate::json::obj_get(o, "summary"@) == Option::Some((match x.summary { Option::Some(v) => JsonV::Str(v@), Option::None => JsonV::Null }))) by {
            reveal_strlit("id");
            reveal_strlit("gameId");
            reveal_strlit("name");
            reveal_strlit("slug");
            reveal_strlit("links");
            reveal_strlit("summary");
            assert("id"@.len() == 2);
            assert("summary"@.len() == 7);
            assert("id"@ != "summary"@);
            assert("gameId"@.len() == 6);
            assert("summary"@.len() == 7);
            assert("gameId"@ != "summary"@);
            assert("name"@.len() == 4);
            assert("summary"@.len() == 7);
            assert("name"@ != "summary"@);
            assert("slug"@.len() == 4);
            assert("summary"@.len() == 7);
            assert("slug"@ != "summary"@);
            assert("links"@.len() == 5);
            assert("summary"@.len() == 7);
            assert("links"@ != "summary"@);
            reveal_with_fuel(crate::json::obj_get, 28);
        }
        assert(crate::json::obj_get(o, "status"@) == Option::Some(JsonV::Int(x.status.code()))) by {
            reveal_strlit("id");
            reveal_strlit("gameId");
            reveal_strlit("name");
            reveal_strlit("slug");
            reveal_strlit("links");
            reveal_strlit("summary");
            reveal_strlit("status");
            assert("id"@.len() == 2);
            assert("status"@.len() == 6);
            assert("id"@ != "status"@);
            assert("gameId"@[0] == 'g');
            assert("status"@[0] == 's');
            assert("gameId"@ != "status"@);
            assert("name"@.len() == 4);
            assert("status"@.len() == 6);
            assert("name"@ != "status"@);
            assert("slug"@.len() == 4);
            assert("status"@.len() == 6);
            assert("slug"@ != "status"@);
            assert("links"@.len() == 5);
            assert("status"@.len() == 6);
            assert("links"@ != "status"@);
            assert("summary"@.len() == 7);
            assert("status"@.len() == 6);
            assert("summary"@ != "status"@);
            reveal_with_fuel(crate::json::obj_get, 28);
        }
        assert(crate::json::obj_get(o, "downloadCount"@) == Option::Some(JsonV::Int(x.download_count as int))) by {
            reveal_strlit("id");
            reveal_strlit("gameId");
            reveal_strlit("name");
            reveal_strlit("slug");
            reveal_strlit("links");
            reveal_strlit("summary");
            reveal_strlit("status");
            reveal_strlit("downloadCount");
            assert("id"@.len() == 2);
            assert("downloadCount"@.len() == 13);
            assert("id"@ != "downloadCount"@);
            assert("gameId"@.len() == 6);
            assert("downloadCount"@.len() == 13);
            assert("gameId"@ != "downloadCount"@);
            assert("name"@.len() == 4);
            assert("downloadCount"@.len() == 13);
            assert("name"@ != "downloadCount"@);
            assert("slug"@.len() == 4);
            assert("downloadCount"@.len() == 13);
            assert("slug"@ != "downloadCount"@);
            assert("links"@.len() == 5);
            assert("downloadCount"@.len() == 13);
            assert("links"@ != "downloadCount"@);
            assert("summary"@.len() == 7);
            assert("downloadCount"@.len() == 13);
            assert("summary"@ != "downloadCount"@);
            assert("status"@.len() == 6);
            assert("downloadCount"@.len() == 13);
            assert("status"@ != "downloadCount"@);
            reveal_with_fuel(crate::json::obj_get, 28);
        }
        assert(crate::json::obj_get(o, "isFeatured"@) == Option::Some(JsonV::Bool(x.is_featured))) by {
            reveal_strlit("id");
            reveal_strlit("gameId");
            reveal_strlit("name");
            reveal_strlit("slug");
            reveal_strlit("links");
            reveal_strlit("summary");
            reveal_strlit("status");
            reveal_strlit("downloadCount");
            reveal_strlit("isFeatured");
            assert("id"@.len() == 2);
            assert("isFeatured"@.len() == 10);
            assert("id"@ != "isFeatured"@);
            assert("gameId"@.len() == 6);
            assert("isFeatured"@.len() == 10);
            assert("gameId"@ != "isFeatured"@);
            assert("name"@.len() == 4);
            assert("isFeatured"@.len() == 10);
            assert("name"@ != "isFeatured"@);
            assert("slug"@.len() == 4);
            assert("isFeatured"@.len() == 10);
            assert("slug"@ != "isFeatured"@);
            assert("links"@.len() == 5);
            assert("isFeatured"@.len() == 10);
            assert("links"@ != "isFeatured"@);
            assert("summary"@.len() == 7);
            assert("isFeatured"@.len() == 10);
            assert("summary"@ != "isFeatured"@);
            assert("status"@.len() == 6);
            assert("isFeatured"@.len() == 10);
            assert("status"@ != "isFeatured"@);
            assert("downloadCount"@.len() == 13);
            assert("isFeatured"@.len() == 10);
            assert("downloadCount"@ != "isFeatured"@);
            reveal_with_fuel(crate::json::obj_get, 28);
        }
        assert(crate::json::obj_get(o, "primaryCategoryId"@) == Option::Some(JsonV::Int(x.primary_category_id as int))) by {
            reveal_strlit("id");
            reveal_strlit("gameId");
            reveal_strlit("name");
            reveal_strlit("slug");
            reveal_strlit("links");
            reveal_strlit("summary");
            reveal_strlit("status");
            reveal_strlit("downloadCount");
            reveal_strlit("isFeatured");
            reveal_strlit("primaryCategoryId");
            assert("id"@.len() == 2);
            assert("primaryCategoryId"@.len() == 17);
            assert("id"@ != "primaryCategoryId"@);
            assert("gameId"@.len() == 6);
            assert("primaryCategoryId"@.len() == 17);
            assert("gameId"@ != "primaryCategoryId"@);
            assert("name"@.len() == 4);
            assert("primaryCategoryId"@.len() == 17);
            assert("name"@ != "primaryCategoryId"@);
            assert("slug"@.len() == 4);
            assert("primaryCategoryId"@.len() == 17);
            assert("slug"@ != "primaryCategoryId"@);
            assert("links"@.len() == 5);
            assert("primaryCategoryId"@.len() == 17);
            assert("links"@ != "primaryCategoryId"@);
            assert("summary"@.len() == 7);
            assert("primaryCategoryId"@.len() == 17);
            assert("summary"@ != "primaryCategoryId"@);
            assert("status"@.len() == 6);
            assert("primaryCategoryId"@.len() == 17);
            assert("status"@ != "primaryCategoryId"@);
            assert("downloadCount"@.len() == 13);
            assert("primaryCategoryId"@.len() == 17);
            assert("downloadCount"@ != "primaryCategoryId"@);
            assert("isFeatured"@.len() == 10);
            assert("primaryCategoryId"@.len() == 17);
            assert("isFeatured"@ != "primaryCategoryId"@);
            reveal_with_fuel(crate::json::obj_get, 28);
        }
        assert(crate::json::obj_get(o, "categories"@) == Option::Some(JsonV::Arr(Seq::new(x.categories@.len(), |k: int| x.categories@[k].jv())))) by {
            reveal_strlit("id");
            reveal_strlit("gameId");
            reveal_strlit("name");
            reveal_strlit("slug");
            reveal_strlit("links");
            reveal_strlit("summary");
            reveal_strlit("status");
            reveal_strlit("downloadCount");
            reveal_strlit("isFeatured");
            reveal_strlit("primaryCategoryId");
            reveal_strlit("categories");
            assert("id"@.len() == 2);
            assert("categories"@.len() == 10);
            assert("id"@ != "categories"@);
            assert("gameId"@.len() == 6);
            assert("categories"@.len() == 10);
            assert("gameId"@ != "categories"@);
            assert("name"@.len() == 4);
            assert("categories"@.len() == 10);
            assert("name"@ != "categories"@);
            assert("slug"@.len() == 4);
            assert("categories"@.len() == 10);
            assert("slug"@ != "categories"@);
            assert("links"@.len() == 5);
            assert("categories"@.len() == 10);
            assert("links"@ != "categories"@);
            assert("summary"@.len() == 7);
            assert("categories"@.len() == 10);
            assert("summary"@ != "categories"@);
            assert("status"@.len() == 6);
            assert("categories"@.len() == 10);
            assert("status"@ != "categories"@);
            assert("downloadCount"@.len() == 13);
            assert("categories"@.len() == 10);
            assert("downloadCount"@ != "categories"@);
            assert("isFeatured"@[0] == 'i');
            assert("categories"@[0] == 'c');
            assert("isFeatured"@ != "categories"@);
            assert("primaryCategoryId"@.len() == 17);
            assert("categories"@.len() == 10);
            assert("primaryCategoryId"@ != "categories"@);
            reveal_with_fuel(crate::json::obj_get, 28);
        }
        assert(crate::json::obj_get(o, "classId"@) == Option::Some((match x.class_id { Option::Some(v) => JsonV::Int(v as int), Option::None => JsonV::Null }))) by {
            reveal_strlit("id");
            reveal_strlit("gameId");
            reveal_strlit("name");
            reveal_strlit("slug");
            reveal_strlit("links");
            reveal_strlit("summary");
            reveal_strlit("status");
            reveal_strlit("downloadCount");
            reveal_strlit("isFeatured");
            reveal_strlit("primaryCategoryId");
            reveal_strlit("categories");
            reveal_strlit("classId");
            assert("id"@.len() == 2);
            assert("classId"@.len() == 7);
            assert("id"@ != "classId"@);
            assert("gameId"@.len() == 6);
            assert("classId"@.len() == 7);
            assert("gameId"@ != "classId"@);
            assert("name"@.len() == 4);
            assert("classId"@.len() == 7);
            assert("name"@ != "classId"@);
            assert("slug"@.len() == 4);
            assert("classId"@.len() == 7);
            assert("slug"@ != "classId"@);
            assert("links"@.len() == 5);
            assert("classId"@.len() == 7);
            assert("links"@ != "classId"@);
            assert("summary"@[0] == 's');
            assert("classId"@[0] == 'c');
            assert("summary"@ != "classId"@);
            assert("status"@.len() == 6);
            assert("classId"@.len() == 7);
            assert("status"@ != "classId"@);
            assert("downloadCount"@.len() == 13);
            assert("classId"@.len() == 7);
            assert("downloadCount"@ != "classId"@);
            assert("isFeatured"@.len() == 10);
            assert("classId"@.len() == 7);
            assert("isFeatured"@ != "classId"@);
            assert("primaryCategoryId"@.len() == 17);
            assert("classId"@.len() == 7);
            assert("primaryCategoryId"@ != "classId"@);
            assert("categories"@.len() == 10);
            assert("classId"@.len() == 7);
            assert("categories"@ != "classId"@);
            reveal_with_fuel(crate::json::obj_get, 28);
        }
        assert(crate::json::obj_get(o, "authors"@) == Option::Some(JsonV::Arr(Seq::new(x.authors@.len(), |k: int| x.authors@[k].jv())))) by {
            reveal_strlit("id");
            reveal_strlit("gameId");
            reveal_strlit("name");
            reveal_strlit("slug");
            reveal_strlit("links");
            reveal_strlit("summary");
            reveal_strlit("status");
            reveal_strlit("downloadCount");
            reveal_strlit("isFeatured");
            reveal_strlit("primaryCategoryId");
            reveal_strlit("categories");
            reveal_strlit("classId");
            reveal_strlit("authors");
            assert("id"@.len() == 2);
            assert("authors"@.len() == 7);
            assert("id"@ != "authors"@);
            assert("gameId"@.len() == 6);
            assert("authors"@.len() == 7);
            assert("gameId"@ != "authors"@);
            assert("name"@.len() == 4);
            assert("authors"@.len() == 7);
            assert("name"@ != "authors"@);
            assert("slug"@.len() == 4);
            assert("authors"@.len() == 7);
            assert("slug"@ != "authors"@);
            assert("links"@.len() == 5);
            assert("authors"@.len() == 7);
            assert("links"@ != "authors"@);
            assert("summary"@[0] == 's');
            assert("authors"@[0] == 'a');
            assert("summary"@ != "authors"@);
            assert("status"@.len() == 6);
            assert("authors"@.len() == 7);
            assert("status"@ != "authors"@);
            assert("downloadCount"@.len() == 13);
            assert("authors"@.len() == 7);
            assert("downloadCount"@ != "authors"@);
            assert("isFeatured"@.len() == 10);
            assert("authors"@.len() == 7);
            assert("isFeatured"@ != "authors"@);
            assert("primaryCategoryId"@.len() == 17);
            assert("authors"@.len() == 7);
            assert("primaryCategoryId"@ != "authors"@);
            assert("categories"@.len() == 10);
            assert("authors"@.len() == 7);
            assert("categories"@ != "authors"@);
            assert("classId"@[0] == 'c');
            assert("authors"@[0] == 'a');
            assert("classId"@ != "authors"@);
            reveal_with_fuel(crate::json::obj_get, 28);
        }
        assert(crate::json::obj_get(o, "logo"@) == Option::Some((match x.logo { Option::Some(v) => v.jv(), Option::None => JsonV::Null }))) by {
            reveal_strlit("id");
            reveal_strlit("gameId");
            reveal_strlit("name");
            reveal_strlit("slug");
            reveal_strlit("links");
            reveal_strlit("summary");
            reveal_strlit("status");
            reveal_strlit("downloadCount");
            reveal_strlit("isFeatured");
            reveal_strlit("primaryCategoryId");
            reveal_strlit("categories");
            reveal_strlit("classId");
            reveal_strlit("authors");
            reveal_strlit("logo");
            assert("id"@.len() == 2);
            assert("logo"@.len() == 4);
            assert("id"@ != "logo"@);
            assert("gameId"@.len() == 6);
            assert("logo"@.len() == 4);
            assert("gameId"@ != "logo"@);
            assert("name"@[0] == 'n');
            assert("logo"@[0] == 'l');
            assert("name"@ != "logo"@);
            assert("slug"@[0] == 's');
            assert("logo"@[0] == 'l');
            assert("slug"@ != "logo"@);
            assert("links"@.len() == 5);
            assert("logo"@.len() == 4);
            assert("links"@ != "logo"@);
            assert("summary"@.len() == 7);
            assert("logo"@.len() == 4);
            assert("summary"@ != "logo"@);
            assert("status"@.len() == 6);
            assert("logo"@.len() == 4);
            assert("status"@ != "logo"@);
            assert("downloadCount"@.len() == 13);
            assert("logo"@.len() == 4);
            assert("downloadCount"@ != "logo"@);
            assert("isFeatured"@.len() == 10);
            assert("logo"@.len() == 4);
            assert("isFeatured"@ != "logo"@);
            assert("primaryCategoryId"@.len() == 17);
            assert("logo"@.len() == 4);
            assert("primaryCategoryId"@ != "logo"@);
            assert("categories"@.len() == 10);
            assert("logo"@.len() == 4);
            assert("categories"@ != "logo"@);
            assert("classId"@.len() == 7);
            assert("logo"@.len() == 4);
            assert("classId"@ != "logo"@);
            assert("authors"@.len() == 7);
            assert("logo"@.len() == 4);
            assert("authors"@ != "logo"@);
            reveal_with_fuel(crate::json::obj_get, 28);
        }
        assert(crate::json::obj_get(o, "screenshots"@) == Option::Some(JsonV::Arr(Seq::new(x.screenshots@.len(), |k: int| x.screenshots@[k].jv())))) by {
            reveal_strlit("id");
            reveal_strlit("gameId");
            reveal_strlit("name");
            reveal_strlit("slug");
            reveal_strlit("links");
            reveal_strlit("summary");
            reveal_strlit("status");
            reveal_strlit("downloadCount");
            reveal_strlit("isFeatured");
            reveal_strlit("primaryCategoryId");
            reveal_strlit("categories");
            reveal_strlit("classId");
            reveal_strlit("authors");
            reveal_strlit("logo");
            reveal_strlit("screenshots");
            assert("id"@.len() == 2);
            assert("screenshots"@.len() == 11);
            assert("id"@ != "screenshots"@);
            assert("gameId"@.len() == 6);
            assert("screenshots"@.len() == 11);
            assert("gameId"@ != "screenshots"@);
            assert("name"@.len() == 4);
            assert("screenshots"@.len() == 11);
            assert("name"@ != "screenshots"@);
            assert("slug"@.len() == 4);
            assert("screenshots"@.len() == 11);
            assert("slug"@ != "screenshots"@);
            assert("links"@.len() == 5);
            assert("screenshots"@.len() == 11);
            assert("links"@ != "screenshots"@);
            assert("summary"@.len() == 7);
            assert("screenshots"@.len() == 11);
            assert("summary"@ != "screenshots"@);
            assert("status"@.len() == 6);
            assert("screenshots"@.len() == 11);
            assert("status"@ != "screenshots"@);
            assert("downloadCount"@.len() == 13);
            assert("screenshots"@.len() == 11);
            assert("downloadCount"@ != "screenshots"@);
            assert("isFeatured"@.len() == 10);
            assert("screenshots"@.len() == 11);
            assert("isFeatured"@ != "screenshots"@);
            assert("primaryCategoryId"@.len() == 17);
            assert("screenshots"@.len() == 11);
            assert("primaryCategoryId"@ != "screenshots"@);
            assert("categories"@.len() == 10);
            assert("screenshots"@.len() == 11);
            assert("categories"@ != "screenshots"@);
            assert("classId"@.len() == 7);
            assert("screenshots"@.len() == 11);
            assert("classId"@ != "screenshots"@);
            assert("authors"@.len() == 7);
            assert("screenshots"@.len() == 11);
            assert("authors"@ != "screenshots"@);
            assert("logo"@.len() == 4);
            assert("screenshots"@.len() == 11);
            assert("logo"@ != "screenshots"@);
            reveal_with_fuel(crate::json::obj_get, 28);
        }
        assert(crate::json::obj_get(o, "mainFileId"@) == Option::Some(JsonV::Int(x.main_file_id as int))) by {
            reveal_strlit("id");
            reveal_strlit("gameId");
            reveal_strlit("name");
            reveal_strlit("slug");
            reveal_strlit("links");
            reveal_strlit("summary");
            reveal_strlit("status");
            reveal_strlit("downloadCount");
            reveal_strlit("isFeatured");
            reveal_strlit("primaryCategoryId");
            reveal_strlit("categories");
            reveal_strlit("classId");
            reveal_strlit("authors");
            reveal_strlit("logo");
            reveal_strlit("screenshots");
            reveal_strlit("mainFileId");
            assert("id"@.len() == 2);
            assert("mainFileId"@.len() == 10);
            assert("id"@ != "mainFileId"@);
            assert("gameId"@.len() == 6);
            assert("mainFileId"@.len() == 10);
            assert("gameId"@ != "mainFileId"@);
            assert("name"@.len() == 4);
            assert("mainFileId"@.len() == 10);
            assert("name"@ != "mainFileId"@);
            assert("slug"@.len() == 4);
            assert("mainFileId"@.len() == 10);
            assert("slug"@ != "mainFileId"@);
            assert("links"@.len() == 5);
            assert("mainFileId"@.len() == 10);
            assert("links"@ != "mainFileId"@);
            assert("summary"@.len() == 7);
            assert("mainFileId"@.len() == 10);
            assert("summary"@ != "mainFileId"@);
            assert("status"@.len() == 6);
            assert("mainFileId"@.len() == 10);
            assert("status"@ != "mainFileId"@);
            assert("downloadCount"@.len() == 13);
            assert("mainFileId"@.len() == 10);
            assert("downloadCount"@ != "mainFileId"@);
            assert("isFeatured"@[0] == 'i');
            assert("mainFileId"@[0] == 'm');
            assert("isFeatured"@ != "mainFileId"@);
            assert("primaryCategoryId"@.len() == 17);
            assert("mainFileId"@.len() == 10);
            assert("primaryCategoryId"@ != "mainFileId"@);
            assert("categories"@[0] == 'c');
            assert("mainFileId"@[0] == 'm');
            assert("categories"@ != "mainFileId"@);
            assert("classId"@.len() == 7);
            assert("mainFileId"@.len() == 10);
            assert("classId"@ != "mainFileId"@);
            assert("authors"@.len() == 7);
            assert("mainFileId"@.len() == 10);
            assert("authors"@ != "mainFileId"@);
            assert("logo"@.len() == 4);
            assert("mainFileId"@.len() == 10);
            assert("logo"@ != "mainFileId"@);
            assert("screenshots"@.len() == 11);
            assert("mainFileId"@.len() == 10);
            assert("screenshots"@ != "mainFileId"@);
            reveal_with_fuel(crate::json::obj_get, 28);
        }
        assert(crate::json::obj_get(o, "latestFiles"@) == Option::Some(JsonV::Arr(Seq::new(x.latest_files@.len(), |k: int| x.latest_files@[k].jv())))) by {
            reveal_strlit("id");
            reveal_strlit("gameId");
            reveal_strlit("name");
            reveal_strlit("slug");
            reveal_strlit("links");
            reveal_strlit("summary");
            reveal_strlit("status");
            reveal_strlit("downloadCount");
            reveal_strlit("isFeatured");
            reveal_strlit("primaryCategoryId");
            reveal_strlit("categories");
            reveal_strlit("classId");
            reveal_strlit("authors");
            reveal_strlit("logo");
            reveal_strlit("screenshots");
            reveal_strlit("mainFileId");
            reveal_strlit("latestFiles");
            assert("id"@.len() == 2);
            assert("latestFiles"@.len() == 11);
            assert("id"@ != "latestFiles"@);
            assert("gameId"@.len() == 6);
            assert("latestFiles"@.len() == 11);
            assert("gameId"@ != "latestFiles"@);
            assert("name"@.len() == 4);
            assert("latestFiles"@.len() == 11);
            assert("name"@ != "latestFiles"@);
            assert("slug"@.len() == 4);
            assert("latestFiles"@.len() == 11);
            assert("slug"@ != "latestFiles"@);
            assert("links"@.len() == 5);
            assert("latestFiles"@.len() == 11);
            assert("links"@ != "latestFiles"@);
            assert("summary"@.len() == 7);
            assert("latestFiles"@.len() == 11);
            assert("summary"@ != "latestFiles"@);
            assert("status"@.len() == 6);
            assert("latestFiles"@.len() == 11);
            assert("status"@ != "latestFiles"@);
            assert("downloadCount"@.len() == 13);
            assert("latestFiles"@.len() == 11);
            assert("downloadCount"@ != "latestFiles"@);
            assert("isFeatured"@.len() == 10);
            assert("latestFiles"@.len() == 11);
            assert("isFeatured"@ != "latestFiles"@);
            assert("primaryCategoryId"@.len() == 17);
            assert("latestFiles"@.len() == 11);
            assert("primaryCategoryId"@ != "latestFiles"@);
            assert("categories"@.len() == 10);
            assert("latestFiles"@.len() == 11);
            assert("categories"@ != "latestFiles"@);
            assert("classId"@.len() == 7);
            assert("latestFiles"@.len() == 11);
            assert("classId"@ != "latestFiles"@);
            assert("authors"@.len() == 7);
            assert("latestFiles"@.len() == 11);
            assert("authors"@ != "latestFiles"@);
            assert("logo"@.len() == 4);
            assert("latestFiles"@.len() == 11);
            assert("logo"@ != "latestFiles"@);
            assert("screenshots"@[0] == 's');
            assert("latestFiles"@[0] == 'l');
            assert("screenshots"@ != "latestFiles"@);
            assert("mainFileId"@.len() == 10);
            assert("latestFiles"@.len() == 11);
            assert("mainFileId"@ != "latestFiles"@);
            reveal_with_fuel(crate::json::obj_get, 28);
        }
        assert(crate::json::obj_get(o, "latestFilesIndexes"@) == Option::Some(JsonV::Arr(Seq::new(x.latest_files_indexes@.len(), |k: int| x.latest_files_indexes@[k].jv())))) by {
            reveal_strlit("id");
            reveal_strlit("gameId");
            reveal_strlit("name");
            reveal_strlit("slug");
            reveal_strlit("links");
            reveal_strlit("summary");
            reveal_strlit("status");
            reveal_strlit("downloadCount");
            reveal_strlit("isFeatured");
            reveal_strlit("primaryCategoryId");
            reveal_strlit("categories");
            reveal_strlit("classId");
            reveal_strlit("authors");
            reveal_strlit("logo");
            reveal_strlit("screenshots");
            reveal_strlit("mainFileId");
            reveal_strlit("latestFiles");
            reveal_strlit("latestFilesIndexes");
            assert("id"@.len() == 2);
            assert("latestFilesIndexes"@.len() == 18);
            assert("id"@ != "latestFilesIndexes"@);
            assert("gameId"@.len() == 6);
            assert("latestFilesIndexes"@.len() == 18);
            assert("gameId"@ != "latestFilesIndexes"@);
            assert("name"@.len() == 4);
            assert("latestFilesIndexes"@.len() == 18);
            assert("name"@ != "latestFilesIndexes"@);
            assert("slug"@.len() == 4);
            assert("latestFilesIndexes"@.len() == 18);
            assert("slug"@ != "latestFilesIndexes"@);
            assert("links"@.len() == 5);
            assert("latestFilesIndexes"@.len() == 18);
            assert("links"@ != "latestFilesIndexes"@);
            assert("summary"@.len() == 7);
            assert("latestFilesIndexes"@.len() == 18);
            assert("summary"@ != "latestFilesIndexes"@);
            assert("status"@.len() == 6);
            assert("latestFilesIndexes"@.len() == 18);
            assert("status"@ != "latestFilesIndexes"@);
            assert("downloadCount"@.len() == 13);
            assert("latestFilesIndexes"@.len() == 18);
            assert("downloadCount"@ != "latestFilesIndexes"@);
            assert("isFeatured"@.len() == 10);
            assert("latestFilesIndexes"@.len() == 18);
            assert("isFeatured"@ != "latestFilesIndexes"@);
            assert("primaryCategoryId"@.len() == 17);
            assert("latestFilesIndexes"@.len() == 18);
            assert("primaryCategoryId"@ != "latestFilesIndexes"@);
            assert("categories"@.len() == 10);
            assert("latestFilesIndexes"@.len() == 18);
            assert("categories"@ != "latestFilesIndexes"@);
            assert("classId"@.len() == 7);
            assert("latestFilesIndexes"@.len() == 18);
            assert("classId"@ != "latestFilesIndexes"@);
            assert("authors"@.len() == 7);
            assert("latestFilesIndexes"@.len() == 18);
            assert("authors"@ != "latestFilesIndexes"@);
            assert("logo"@.len() == 4);
            assert("latestFilesIndexes"@.len() == 18);
            assert("logo"@ != "latestFilesIndexes"@);
            assert("screenshots"@.len() == 11);
            assert("latestFilesIndexes"@.len() == 18);
            assert("screenshots"@ != "latestFilesIndexes"@);
            assert("mainFileId"@.len() == 10);
            assert("latestFilesIndexes"@.len() == 18);
            assert("mainFileId"@ != "latestFilesIndexes"@);
            assert("latestFiles"@.len() == 11);
            assert("latestFilesIndexes"@.len() == 18);
            assert("latestFiles"@ != "latestFilesIndexes"@);
            reveal_with_fuel(crate::json::obj_get, 28);
        }
        assert(crate::json::obj_get(o, "latestEarlyAccessFilesIndexes"@) == Option::Some(JsonV::Arr(Seq::new(x.latest_early_access_files_indexes@.len(), |k: int| x.latest_early_access_files_indexes@[k].jv())))) by {
            reveal_strlit("id");
            reveal_strlit("gameId");
            reveal_strlit("name");
            reveal_strlit("slug");
            reveal_strlit("links");
            reveal_strlit("summary");
            reveal_strlit("status");
            reveal_strlit("downloadCount");
            reveal_strlit("isFeatured");
            reveal_strlit("primaryCategoryId");
            reveal_strlit("categories");
            reveal_strlit("classId");
            reveal_strlit("authors");
            reveal_strlit("logo");
            reveal_strlit("screenshots");
            reveal_strlit("mainFileId");
            reveal_strlit("latestFiles");
            reveal_strlit("latestFilesIndexes");
            reveal_strlit("latestEarlyAccessFilesIndexes");
            assert("id"@.len() == 2);
            assert("latestEarlyAccessFilesIndexes"@.len() == 29);
            assert("id"@ != "latestEarlyAccessFilesIndexes"@);
            assert("gameId"@.len() == 6);
            assert("latestEarlyAccessFilesIndexes"@.len() == 29);
            assert("gameId"@ != "latestEarlyAccessFilesIndexes"@);
            assert("name"@.len() == 4);
            assert("latestEarlyAccessFilesIndexes"@.len() == 29);
            assert("name"@ != "latestEarlyAccessFilesIndexes"@);
            assert("slug"@.len() == 4);
            assert("latestEarlyAccessFilesIndexes"@.len() == 29);
            assert("slug"@ != "latestEarlyAccessFilesIndexes"@);
            assert("links"@.len() == 5);
            assert("latestEarlyAccessFilesIndexes"@.len() == 29);
            assert("links"@ != "latestEarlyAccessFilesIndexes"@);
            assert("summary"@.len() == 7);
            assert("latestEarlyAccessFilesIndexes"@.len() == 29);
            assert("summary"@ != "latestEarlyAccessFilesIndexes"@);
            assert("status"@.len() == 6);
            assert("latestEarlyAccessFilesIndexes"@.len() == 29);
            assert("status"@ != "latestEarlyAccessFilesIndexes"@);
            assert("downloadCount"@.len() == 13);
            assert("latestEarlyAccessFilesIndexes"@.len() == 29);
            assert("downloadCount"@ != "latestEarlyAccessFilesIndexes"@);
            assert("isFeatured"@.len() == 10);
            assert("latestEarlyAccessFilesIndexes"@.len() == 29);
            assert("isFeatured"@ != "latestEarlyAccessFilesIndexes"@);
            assert("primaryCategoryId"@.len() == 17);
            assert("latestEarlyAccessFilesIndexes"@.len() == 29);
            assert("primaryCategoryId"@ != "latestEarlyAccessFilesIndexes"@);
            assert("categories"@.len() == 10);
            assert("latestEarlyAccessFilesIndexes"@.len() == 29);
            assert("categories"@ != "latestEarlyAccessFilesIndexes"@);
            assert("classId"@.len() == 7);
            assert("latestEarlyAccessFilesIndexes"@.len() == 29);
            assert("classId"@ != "latestEarlyAccessFilesIndexes"@);
            assert("authors"@.len() == 7);
            assert("latestEarlyAccessFilesIndexes"@.len() == 29);
            assert("authors"@ != "latestEarlyAccessFilesIndexes"@);
            assert("logo"@.len() == 4);
            assert("latestEarlyAccessFilesIndexes"@.len() == 29);
            assert("logo"@ != "latestEarlyAccessFilesIndexes"@);
            assert("screenshots"@.len() == 11);
            assert("latestEarlyAccessFilesIndexes"@.len() == 29);
            assert("screenshots"@ != "latestEarlyAccessFilesIndexes"@);
            assert("mainFileId"@.len() == 10);
            assert("latestEarlyAccessFilesIndexes"@.len() == 29);
            assert("mainFileId"@ != "latestEarlyAccessFilesIndexes"@);
            assert("latestFiles"@.len() == 11);
            assert("latestEarlyAccessFilesIndexes"@.len() == 29);
            assert("latestFiles"@ != "latestEarlyAccessFilesIndexes"@);
            assert("latestFilesIndexes"@.len() == 18);
            assert("latestEarlyAccessFilesIndexes"@.len() == 29);
            assert("latestFilesIndexes"@ != "latestEarlyAccessFilesIndexes"@);
            reveal_with_fuel(crate::json::obj_get, 28);
        }
        assert(crate::json::obj_get(o, "dateCreated"@) == Option::Some(JsonV::Str(x.date_created@))) by {
            reveal_strlit("id");
            reveal_strlit("gameId");
            reveal_strlit("name");
            reveal_strlit("slug");
            reveal_strlit("links");
            reveal_strlit("summary");
            reveal_strlit("status");
            reveal_strlit("downloadCount");
            reveal_strlit("isFeatured");
            reveal_strlit("primaryCategoryId");
            reveal_strlit("categories");
            reveal_strlit("classId");
            reveal_strlit("authors");
            reveal_strlit("logo");
            reveal_strlit("screenshots");
            reveal_strlit("mainFileId");
            reveal_strlit("latestFiles");
            reveal_strlit("latestFilesIndexes");
            reveal_strlit("latestEarlyAccessFilesIndexes");
            reveal_strlit("dateCreated");
            assert("id"@.len() == 2);
            assert("dateCreated"@.len() == 11);
            assert("id"@ != "dateCreated"@);
            assert("gameId"@.len() == 6);
            assert("dateCreated"@.len() == 11);
            assert("gameId"@ != "dateCreated"@);
            assert("name"@.len() == 4);
            assert("dateCreated"@.len() == 11);
            assert("name"@ != "dateCreated"@);
            assert("slug"@.len() == 4);
            assert("dateCreated"@.len() == 11);
            assert("slug"@ != "dateCreated"@);
            assert("links"@.len() == 5);
            assert("dateCreated"@.len() == 11);
            assert("links"@ != "dateCreated"@);
            assert("summary"@.len() == 7);
            assert("dateCreated"@.len() == 11);
            assert("summary"@ != "dateCreated"@);
            assert("status"@.len() == 6);
            assert("dateCreated"@.len() == 11);
            assert("status"@ != "dateCreated"@);
            assert("downloadCount"@.len() == 13);
            assert("dateCreated"@.len() == 11);
            assert("downloadCount"@ != "dateCreated"@);
            assert("isFeatured"@.len() == 10);
            assert("dateCreated"@.len() == 11);
            assert("isFeatured"@ != "dateCreated"@);
            assert("primaryCategoryId"@.len() == 17);
            assert("dateCreated"@.len() == 11);
            assert("primaryCategoryId"@ != "dateCreated"@);
            assert("categories"@.len() == 10);
            assert("dateCreated"@.len() == 11);
            assert("categories"@ != "dateCreated"@);
            assert("classId"@.len() == 7);
            assert("dateCreated"@.len() == 11);
            assert("classId"@ != "dateCreated"@);
            assert("authors"@.len() == 7);
            assert("dateCreated"@.len() == 11);
            assert("authors"@ != "dateCreated"@);
            assert("logo"@.len() == 4);
            assert("dateCreated"@.len() == 11);
            assert("logo"@ != "dateCreated"@);
            assert("screenshots"@[0] == 's');
            assert("dateCreated"@[0] == 'd');
            assert("screenshots"@ != "dateCreated"@);
            assert("mainFileId"@.len() == 10);
            assert("dateCreated"@.len() == 11);
            assert("mainFileId"@ != "dateCreated"@);
            assert("latestFiles"@[0] == 'l');
            assert("dateCreated"@[0] == 'd');
            assert("latestFiles"@ != "dateCreated"@);
            assert("latestFilesIndexes"@.len() == 18);
            assert("dateCreated"@.len() == 11);
            assert("latestFilesIndexes"@ != "dateCreated"@);
            assert("latestEarlyAccessFilesIndexes"@.len() == 29);
            assert("dateCreated"@.len() == 11);
            assert("latestEarlyAccessFilesIndexes"@ != "dateCreated"@);
            reveal_with_fuel(crate::json::obj_get, 28);
        }
        assert(crate::json::obj_get(o, "dateModified"@) == Option::Some(JsonV::Str(x.date_modified@))) by {
            reveal_strlit("id");
            reveal_strlit("gameId");
            reveal_strlit("name");
            reveal_strlit("slug");
            reveal_strlit("links");
            reveal_strlit("summary");
            reveal_strlit("status");
            reveal_strlit("downloadCount");
            reveal_strlit("isFeatured");
            reveal_strlit("primaryCategoryId");
            reveal_strlit("categories");
            reveal_strlit("classId");
            reveal_strlit("authors");
            reveal_strlit("logo");
            reveal_strlit("screenshots");
            reveal_strlit("mainFileId");
            reveal_strlit("latestFiles");
            reveal_strlit("latestFilesIndexes");
            reveal_strlit("latestEarlyAccessFilesIndexes");
            reveal_strlit("dateCreated");
            reveal_strlit("dateModified");
            assert("id"@.len() == 2);
            assert("dateModified"@.len() == 12);
            assert("id"@ != "dateModified"@);
            assert("gameId"@.len() == 6);
            assert("dateModified"@.len() == 12);
            assert("gameId"@ != "dateModified"@);
            assert("name"@.len() == 4);
            assert("dateModified"@.len() == 12);
            assert("name"@ != "dateModified"@);
            assert("slug"@.len() == 4);
            assert("dateModified"@.len() == 12);
            assert("slug"@ != "dateModified"@);
            assert("links"@.len() == 5);
            assert("dateModified"@.len() == 12);
            assert("links"@ != "dateModified"@);
            assert("summary"@.len() == 7);
            assert("dateModified"@.len() == 12);
            assert("summary"@ != "dateModified"@);
            assert("status"@.len() == 6);
            assert("dateModified"@.len() == 12);
            assert("status"@ != "dateModified"@);
            assert("downloadCount"@.len() == 13);
            assert("dateModified"@.len() == 12);
            assert("downloadCount"@ != "dateModified"@);
            assert("isFeatured"@.len() == 10);
            assert("dateModified"@.len() == 12);
            assert("isFeatured"@ != "dateModified"@);
            assert("primaryCategoryId"@.len() == 17);
            assert("dateModified"@.len() == 12);
            assert("primaryCategoryId"@ != "dateModified"@);
            assert("categories"@.len() == 10);
            assert("dateModified"@.len() == 12);
            assert("categories"@ != "dateModified"@);
            assert("classId"@.len() == 7);
            assert("dateModified"@.len() == 12);
            assert("classId"@ != "dateModified"@);
            assert("authors"@.len() == 7);
            assert("dateModified"@.len() == 12);
            assert("authors"@ != "dateModified"@);
            assert("logo"@.len() == 4);
            assert("dateModified"@.len() == 12);
            assert("logo"@ != "dateModified"@);
            assert("screenshots"@.len() == 11);
            assert("dateModified"@.len() == 12);
            assert("screenshots"@ != "dateModified"@);
            assert("mainFileId"@.len() == 10);
            assert("dateModified"@.len() == 12);
            assert("mainFileId"@ != "dateModified"@);
            assert("latestFiles"@.len() == 11);
            assert("dateModified"@.len() == 12);
            assert("latestFiles"@ != "dateModified"@);
            assert("latestFilesIndexes"@.len() == 18);
            assert("dateModified"@.len() == 12);
            assert("latestFilesIndexes"@ != "dateModified"@);
            assert("latestEarlyAccessFilesIndexes"@.len() == 29);
            assert("dateModified"@.len() == 12);
            assert("latestEarlyAccessFilesIndexes"@ != "dateModified"@);
            assert("dateCreated"@.len() == 11);
            assert("dateModified"@.len() == 12);
            assert("dateCreated"@ != "dateModified"@);
            reveal_with_fuel(crate::json::obj_get, 28);
        }
        assert(crate::json::obj_get(o, "dateReleased"@) == Option::Some(JsonV::Str(x.date_released@))) by {
            reveal_strlit("id");
            reveal_strlit("gameId");
            reveal_strlit("name");
            reveal_strlit("slug");
            reveal_strlit("links");
            reveal_strlit("summary");
            reveal_strlit("status");
            reveal_strlit("downloadCount");
            reveal_strlit("isFeatured");
            reveal_strlit("primaryCategoryId");
            reveal_strlit("categories");
            reveal_strlit("classId");
            reveal_strlit("authors");
            reveal_strlit("logo");
            reveal_strlit("screenshots");
            reveal_strlit("mainFileId");
            reveal_strlit("latestFiles");
            reveal_strlit("latestFilesIndexes");
            reveal_strlit("latestEarlyAccessFilesIndexes");
            reveal_strlit("dateCreated");
            reveal_strlit("dateModified");
            reveal_strlit("dateReleased");
            assert("id"@.len() == 2);
            assert("dateReleased"@.len() == 12);
            assert("id"@ != "dateReleased"@);
            assert("gameId"@.len() == 6);
            assert("dateReleased"@.len() == 12);
            assert("gameId"@ != "dateReleased"@);
            assert("name"@.len() == 4);
            assert("dateReleased"@.len() == 12);
            assert("name"@ != "dateReleased"@);
            assert("slug"@.len() == 4);
            assert("dateReleased"@.len() == 12);
            assert("slug"@ != "dateReleased"@);
            assert("links"@.len() == 5);
            assert("dateReleased"@.len() == 12);
            assert("links"@ != "dateReleased"@);
            assert("summary"@.len() == 7);
            assert("dateReleased"@.len() == 12);
            assert("summary"@ != "dateReleased"@);
            assert("status"@.len() == 6);
            assert("dateReleased"@.len() == 12);
            assert("status"@ != "dateReleased"@);
            assert("downloadCount"@.len() == 13);
            assert("dateReleased"@.len() == 12);
            assert("downloadCount"@ != "dateReleased"@);
            assert("isFeatured"@.len() == 10);
            assert("dateReleased"@.len() == 12);
            assert("isFeatured"@ != "dateReleased"@);
            assert("primaryCategoryId"@.len() == 17);
            assert("dateReleased"@.len() == 12);
            assert("primaryCategoryId"@ != "dateReleased"@);
            assert("categories"@.len() == 10);
            assert("dateReleased"@.len() == 12);
            assert("categories"@ != "dateReleased"@);
            assert("classId"@.len() == 7);
            assert("dateReleased"@.len() == 12);
            assert("classId"@ != "dateReleased"@);
            assert("authors"@.len() == 7);
            assert("dateReleased"@.len() == 12);
            assert("authors"@ != "dateReleased"@);
            assert("logo"@.len() == 4);
            assert("dateReleased"@.len() == 12);
            assert("logo"@ != "dateReleased"@);
            assert("screenshots"@.len() == 11);
            assert("dateReleased"@.len() == 12);
            assert("screenshots"@ != "dateReleased"@);
            assert("mainFileId"@.len() == 10);
            assert("dateReleased"@.len() == 12);
            assert("mainFileId"@ != "dateReleased"@);
            assert("latestFiles"@.len() == 11);
            assert("dateReleased"@.len() == 12);
            assert("latestFiles"@ != "dateReleased"@);
            assert("latestFilesIndexes"@.len() == 18);
            assert("dateReleased"@.len() == 12);
            assert("latestFilesIndexes"@ != "dateReleased"@);
            assert("latestEarlyAccessFilesIndexes"@.len() == 29);
            assert("dateReleased"@.len() == 12);
            assert("latestEarlyAccessFilesIndexes"@ != "dateReleased"@);
            assert("dateCreated"@.len() == 11);
            assert("dateReleased"@.len() == 12);
            assert("dateCreated"@ != "dateReleased"@);
            assert("dateModified"@[4] == 'M');
            assert("dateReleased"@[4] == 'R');
            assert("dateModified"@ != "dateReleased"@);
            reveal_with_fuel(crate::json::obj_get, 28);
        }
        assert(crate::json::obj_get(o, "allowModDistribution"@) == Option::Some((match x.allow_mod_distribution { Option::Some(v) => JsonV::Bool(v), Option::None => JsonV::Null }))) by {
            reveal_strlit("id");
            reveal_strlit("gameId");
            reveal_strlit("name");
            reveal_strlit("slug");
            reveal_strlit("links");
            reveal_strlit("summary");
            reveal_strlit("status");
            reveal_strlit("downloadCount");
            reveal_strlit("isFeatured");
            reveal_strlit("primaryCategoryId");
            reveal_strlit("categories");
            reveal_strlit("classId");
            reveal_strlit("authors");
            reveal_strlit("logo");
            reveal_strlit("screenshots");
            reveal_strlit("mainFileId");
            reveal_strlit("latestFiles");
            reveal_strlit("latestFilesIndexes");
            reveal_strlit("latestEarlyAccessFilesIndexes");
            reveal_strlit("dateCreated");
            reveal_strlit("dateModified");
            reveal_strlit("dateReleased");
            reveal_strlit("allowModDistribution");
            assert("id"@.len() == 2);
            assert("allowModDistribution"@.len() == 20);
            assert("id"@ != "allowModDistribution"@);
            assert("gameId"@.len() == 6);
            assert("allowModDistribution"@.len() == 20);
            assert("gameId"@ != "allowModDistribution"@);
            assert("name"@.len() == 4);
            assert("allowModDistribution"@.len() == 20);
            assert("name"@ != "allowModDistribution"@);
            assert("slug"@.len() == 4);
            assert("allowModDistribution"@.len() == 20);
            assert("slug"@ != "allowModDistribution"@);
            assert("links"@.len() == 5);
            assert("allowModDistribution"@.len() == 20);
            assert("links"@ != "allowModDistribution"@);
            assert("summary"@.len() == 7);
            assert("allowModDistribution"@.len() == 20);
            assert("summary"@ != "allowModDistribution"@);
            assert("status"@.len() == 6);
            assert("allowModDistribution"@.len() == 20);
            assert("status"@ != "allowModDistribution"@);
            assert("downloadCount"@.len() == 13);
            assert("allowModDistribution"@.len() == 20);
            assert("downloadCount"@ != "allowModDistribution"@);
            assert("isFeatured"@.len() == 10);
            assert("allowModDistribution"@.len() == 20);
            assert("isFeatured"@ != "allowModDistribution"@);
            assert("primaryCategoryId"@.len() == 17);
            assert("allowModDistribution"@.len() == 20);
            assert("primaryCategoryId"@ != "allowModDistribution"@);
            assert("categories"@.len() == 10);
            assert("allowModDistribution"@.len() == 20);
            assert("categories"@ != "allowModDistribution"@);
            assert("classId"@.len() == 7);
            assert("allowModDistribution"@.len() == 20);
            assert("classId"@ != "allowModDistribution"@);
            assert("authors"@.len() == 7);
            assert("allowModDistribution"@.len() == 20);
            assert("authors"@ != "allowModDistribution"@);
            assert("logo"@.len() == 4);
            assert("allowModDistribution"@.len() == 20);
            assert("logo"@ != "allowModDistribution"@);
            assert("screenshots"@.len() == 11);
            assert("allowModDistribution"@.len() == 20);
            assert("screenshots"@ != "allowModDistribution"@);
            assert("mainFileId"@.len() == 10);
            assert("allowModDistribution"@.len() == 20);
            assert("mainFileId"@ != "allowModDistribution"@);
            assert("latestFiles"@.len() == 11);
            assert("allowModDistribution"@.len() == 20);
            assert("latestFiles"@ != "allowModDistribution"@);
            assert("latestFilesIndexes"@.len() == 18);
            assert("allowModDistribution"@.len() == 20);
            assert("latestFilesIndexes"@ != "allowModDistribution"@);
            assert("latestEarlyAccessFilesIndexes"@.len() == 29);
            assert("allowModDistribution"@.len() == 20);
            assert("latestEarlyAccessFilesIndexes"@ != "allowModDistribution"@);
            assert("dateCreated"@.len() == 11);
            assert("allowModDistribution"@.len() == 20);
            assert("dateCreated"@ != "allowModDistribution"@);
            assert("dateModified"@.len() == 12);
            assert("allowModDistribution"@.len() == 20);
            assert("dateModified"@ != "allowModDistribution"@);
            assert("dateReleased"@.len() == 12);
            assert("allowModDistribution"@.len() == 20);
            assert("dateReleased"@ != "allowModDistribution"@);
            reveal_with_fuel(crate::json::obj_get, 28);
        }
        assert(crate::json::obj_get(o, "gamePopularityRank"@) == Option::Some(JsonV::Int(x.game_popularity_rank as int))) by {
            reveal_strlit("id");
            reveal_strlit("gameId");
            reveal_strlit("name");
            reveal_strlit("slug");
            reveal_strlit("links");
            reveal_strlit("summary");
            reveal_strlit("status");
            reveal_strlit("downloadCount");
            reveal_strlit("isFeatured");
            reveal_strlit("primaryCategoryId");
            reveal_strlit("categories");
            reveal_strlit("classId");
            reveal_strlit("authors");
            reveal_strlit("logo");
            reveal_strlit("screenshots");
            reveal_strlit("mainFileId");
            reveal_strlit("latestFiles");
            reveal_strlit("latestFilesIndexes");
            reveal_strlit("latestEarlyAccessFilesIndexes");
            reveal_strlit("dateCreated");
            reveal_strlit("dateModified");
            reveal_strlit("dateReleased");
            reveal_strlit("allowModDistribution");
            reveal_strlit("gamePopularityRank");
            assert("id"@.len() == 2);
            assert("gamePopularityRank"@.len() == 18);
            assert("id"@ != "gamePopularityRank"@);
            assert("gameId"@.len() == 6);
            assert("gamePopularityRank"@.len() == 18);
            assert("gameId"@ != "gamePopularityRank"@);
            assert("name"@.len() == 4);
            assert("gamePopularityRank"@.len() == 18);
            assert("name"@ != "gamePopularityRank"@);
            assert("slug"@.len() == 4);
            assert("gamePopularityRank"@.len() == 18);
            assert("slug"@ != "gamePopularityRank"@);
            assert("links"@.len() == 5);
            assert("gamePopularityRank"@.len() == 18);
            assert("links"@ != "gamePopularityRank"@);
            assert("summary"@.len() == 7);
            assert("gamePopularityRank"@.len() == 18);
            assert("summary"@ != "gamePopularityRank"@);
            assert("status"@.len() == 6);
            assert("gamePopularityRank"@.len() == 18);
            assert("status"@ != "gamePopularityRank"@);
            assert("downloadCount"@.len() == 13);
            assert("gamePopularityRank"@.len() == 18);
            assert("downloadCount"@ != "gamePopularityRank"@);
            assert("isFeatured"@.len() == 10);
            assert("gamePopularityRank"@.len() == 18);
            assert("isFeatured"@ != "gamePopularityRank"@);
            assert("primaryCategoryId"@.len() == 17);
            assert("gamePopularityRank"@.len() == 18);
            assert("primaryCategoryId"@ != "gamePopularityRank"@);
            assert("categories"@.len() == 10);
            assert("gamePopularityRank"@.len() == 18);
            assert("categories"@ != "gamePopularityRank"@);
            assert("classId"@.len() == 7);
            assert("gamePopularityRank"@.len() == 18);
            assert("classId"@ != "gamePopularityRank"@);
            assert("authors"@.len() == 7);
            assert("gamePopularityRank"@.len() == 18);
            assert("authors"@ != "gamePopularityRank"@);
            assert("logo"@.len() == 4);
            assert("gamePopularityRank"@.len() == 18);
            assert("logo"@ != "gamePopularityRank"@);
            assert("screenshots"@.len() == 11);
            assert("gamePopularityRank"@.len() == 18);
            assert("screenshots"@ != "gamePopularityRank"@);
            assert("mainFileId"@.len() == 10);
            assert("gamePopularityRank"@.len() == 18);
            assert("mainFileId"@ != "gamePopularityRank"@);
            assert("latestFiles"@.len() == 11);
            assert("gamePopularityRank"@.len() == 18);
            assert("latestFiles"@ != "gamePopularityRank"@);
            assert("latestFilesIndexes"@[0] == 'l');
            assert("gamePopularityRank"@[0] == 'g');
            assert("latestFilesIndexes"@ != "gamePopularityRank"@);
            assert("latestEarlyAccessFilesIndexes"@.len() == 29);
            assert("gamePopularityRank"@.len() == 18);
            assert("latestEarlyAccessFilesIndexes"@ != "gamePopularityRank"@);
            assert("dateCreated"@.len() == 11);
            assert("gamePopularityRank"@.len() == 18);
            assert("dateCreated"@ != "gamePopularityRank"@);
            assert("dateModified"@.len() == 12);
            assert("gamePopularityRank"@.len() == 18);
            assert("dateModified"@ != "gamePopularityRank"@);
            assert("dateReleased"@.len() == 12);
            assert("gamePopularityRank"@.len() == 18);
            assert("dateReleased"@ != "gamePopularityRank"@);
            assert("allowModDistribution"@.len() == 20);
            assert("gamePopularityRank"@.len() == 18);
            assert("allowModDistribution"@ != "gamePopularityRank"@);
            reveal_with_fuel(crate::json::obj_get, 28);
        }
        assert(crate::json::obj_get(o, "isAvailable"@) == Option::Some(JsonV::Bool(x.is_available))) by {
            reveal_strlit("id");
            reveal_strlit("gameId");
            reveal_strlit("name");
            reveal_strlit("slug");
            reveal_strlit("links");
            reveal_strlit("summary");
            reveal_strlit("status");
            reveal_strlit("downloadCount");
            reveal_strlit("isFeatured");
            reveal_strlit("primaryCategoryId");
            reveal_strlit("categories");
            reveal_strlit("classId");
            reveal_strlit("authors");
            reveal_strlit("logo");
            reveal_strlit("screenshots");
            reveal_strlit("mainFileId");
            reveal_strlit("latestFiles");
            reveal_strlit("latestFilesIndexes");
            reveal_strlit("latestEarlyAccessFilesIndexes");
            reveal_strlit("dateCreated");
            reveal_strlit("dateModified");
            reveal_strlit("dateReleased");
            reveal_strlit("allowModDistribution");
            reveal_strlit("gamePopularityRank");
            reveal_strlit("isAvailable");
            assert("id"@.len() == 2);
            assert("isAvailable"@.len() == 11);
            assert("id"@ != "isAvailable"@);
            assert("gameId"@.len() == 6);
            assert("isAvailable"@.len() == 11);
            assert("gameId"@ != "isAvailable"@);
            assert("name"@.len() == 4);
            assert("isAvailable"@.len() == 11);
            assert("name"@ != "isAvailable"@);
            assert("slug"@.len() == 4);
            assert("isAvailable"@.len() == 11);
            assert("slug"@ != "isAvailable"@);
            assert("links"@.len() == 5);
            assert("isAvailable"@.len() == 11);
            assert("links"@ != "isAvailable"@);
            assert("summary"@.len() == 7);
            assert("isAvailable"@.len() == 11);
            assert("summary"@ != "isAvailable"@);
            assert("status"@.len() == 6);
            assert("isAvailable"@.len() == 11);
            assert("status"@ != "isAvailable"@);
            assert("downloadCount"@.len() == 13);
            assert("isAvailable"@.len() == 11);
            assert("downloadCount"@ != "isAvailable"@);
            assert("isFeatured"@.len() == 10);
            assert("isAvailable"@.len() == 11);
            assert("isFeatured"@ != "isAvailable"@);
            assert("primaryCategoryId"@.len() == 17);
            assert("isAvailable"@.len() == 11);
            assert("primaryCategoryId"@ != "isAvailable"@);
            assert("categories"@.len() == 10);
            assert("isAvailable"@.len() == 11);
            assert("categories"@ != "isAvailable"@);
            assert("classId"@.len() == 7);
            assert("isAvailable"@.len() == 11);
            assert("classId"@ != "isAvailable"@);
            assert("authors"@.len() == 7);
            assert("isAvailable"@.len() == 11);
            assert("authors"@ != "isAvailable"@);
            assert("logo"@.len() == 4);
            assert("isAvailable"@.len() == 11);
            assert("logo"@ != "isAvailable"@);
            assert("screenshots"@[0] == 's');
            assert("isAvailable"@[0] == 'i');
            assert("screenshots"@ != "isAvailable"@);
            assert("mainFileId"@.len() == 10);
            assert("isAvailable"@.len() == 11);
            assert("mainFileId"@ != "isAvailable"@);
            assert("latestFiles"@[0] == 'l');
            assert("isAvailable"@[0] == 'i');
            assert("latestFiles"@ != "isAvailable"@);
            assert("latestFilesIndexes"@.len() == 18);
            assert("isAvailable"@.len() == 11);
            assert("latestFilesIndexes"@ != "isAvailable"@);
            assert("latestEarlyAccessFilesIndexes"@.len() == 29);
            assert("isAvailable"@.len() == 11);
            assert("latestEarlyAccessFilesIndexes"@ != "isAvailable"@);
            assert("dateCreated"@[0] == 'd');
            assert("isAvailable"@[0] == 'i');
            assert("dateCreated"@ != "isAvailable"@);
            assert("dateModified"@.len() == 12);
            assert("isAvailable"@.len() == 11);
            assert("dateModified"@ != "isAvailable"@);
            assert("dateReleased"@.len() == 12);
            assert("isAvailable"@.len() == 11);
            assert("dateReleased"@ != "isAvailable"@);
            assert("allowModDistribution"@.len() == 20);
            assert("isAvailable"@.len() == 11);
            assert("allowModDistribution"@ != "isAvailable"@);
            assert("gamePopularityRank"@.len() == 18);
            assert("isAvailable"@.len() == 11);
            assert("gamePopularityRank"@ != "isAvailable"@);
            reveal_with_fuel(crate::json::obj_get, 28);
        }
        assert(crate::json::obj_get(o, "thumbsUpCount"@) == Option::Some(JsonV::Int(x.thumbs_up_count as int))) by {
            reveal_strlit("id");
            reveal_strlit("gameId");
            reveal_strlit("name");
            reveal_strlit("slug");
            reveal_strlit("links");
            reveal_strlit("summary");
            reveal_strlit("status");
            reveal_strlit("downloadCount");
            reveal_strlit("isFeatured");
            reveal_strlit("primaryCategoryId");
            reveal_strlit("categories");
            reveal_strlit("classId");
            reveal_strlit("authors");
            reveal_strlit("logo");
            reveal_strlit("screenshots");
            reveal_strlit("mainFileId");
            reveal_strlit("latestFiles");
            reveal_strlit("latestFilesIndexes");
            reveal_strlit("latestEarlyAccessFilesIndexes");
            reveal_strlit("dateCreated");
            reveal_strlit("dateModified");
            reveal_strlit("dateReleased");
            reveal_strlit("allowModDistribution");
            reveal_strlit("gamePopularityRank");
            reveal_strlit("isAvailable");
            reveal_strlit("thumbsUpCount");
            assert("id"@.len() == 2);
            assert("thumbsUpCount"@.len() == 13);
            assert("id"@ != "thumbsUpCount"@);
            assert("gameId"@.len() == 6);
            assert("thumbsUpCount"@.len() == 13);
            assert("gameId"@ != "thumbsUpCount"@);
            assert("name"@.len() == 4);
            assert("thumbsUpCount"@.len() == 13);
            assert("name"@ != "thumbsUpCount"@);
            assert("slug"@.len() == 4);
            assert("thumbsUpCount"@.len() == 13);
            assert("slug"@ != "thumbsUpCount"@);
            assert("links"@.len() == 5);
            assert("thumbsUpCount"@.len() == 13);
            assert("links"@ != "thumbsUpCount"@);
            assert("summary"@.len() == 7);
            assert("thumbsUpCount"@.len() == 13);
            assert("summary"@ != "thumbsUpCount"@);
            assert("status"@.len() == 6);
            assert("thumbsUpCount"@.len() == 13);
            assert("status"@ != "thumbsUpCount"@);
            assert("downloadCount"@[0] == 'd');
            assert("thumbsUpCount"@[0] == 't');
            assert("downloadCount"@ != "thumbsUpCount"@);
            assert("isFeatured"@.len() == 10);
            assert("thumbsUpCount"@.len() == 13);
            assert("isFeatured"@ != "thumbsUpCount"@);
            assert("primaryCategoryId"@.len() == 17);
            assert("thumbsUpCount"@.len() == 13);
            assert("primaryCategoryId"@ != "thumbsUpCount"@);
            assert("categories"@.len() == 10);
            assert("thumbsUpCount"@.len() == 13);
            assert("categories"@ != "thumbsUpCount"@);
            assert("classId"@.len() == 7);
            assert("thumbsUpCount"@.len() == 13);
            assert("classId"@ != "thumbsUpCount"@);
            assert("authors"@.len() == 7);
            assert("thumbsUpCount"@.len() == 13);
            assert("authors"@ != "thumbsUpCount"@);
            assert("logo"@.len() == 4);
            assert("thumbsUpCount"@.len() == 13);
            assert("logo"@ != "thumbsUpCount"@);
            assert("screenshots"@.len() == 11);
            assert("thumbsUpCount"@.len() == 13);
            assert("screenshots"@ != "thumbsUpCount"@);
            assert("mainFileId"@.len() == 10);
            assert("thumbsUpCount"@.len() == 13);
            assert("mainFileId"@ != "thumbsUpCount"@);
            assert("latestFiles"@.len() == 11);
            assert("thumbsUpCount"@.len() == 13);
            assert("latestFiles"@ != "thumbsUpCount"@);
            assert("latestFilesIndexes"@.len() == 18);
            assert("thumbsUpCount"@.len() == 13);
            assert("latestFilesIndexes"@ != "thumbsUpCount"@);
            assert("latestEarlyAccessFilesIndexes"@.len() == 29);
            assert("thumbsUpCount"@.len() == 13);
            assert("latestEarlyAccessFilesIndexes"@ != "thumbsUpCount"@);
            assert("dateCreated"@.len() == 11);
            assert("thumbsUpCount"@.len() == 13);
            assert("dateCreated"@ != "thumbsUpCount"@);
            assert("dateModified"@.len() == 12);
            assert("thumbsUpCount"@.len() == 13);
            assert("dateModified"@ != "thumbsUpCount"@);
            assert("dateReleased"@.len() == 12);
            assert("thumbsUpCount"@.len() == 13);
            assert("dateReleased"@ != "thumbsUpCount"@);
            assert("allowModDistribution"@.len() == 20);
            assert("thumbsUpCount"@.len() == 13);
            assert("allowModDistribution"@ != "thumbsUpCount"@);
            assert("gamePopularityRank"@.len() == 18);
            assert("thumbsUpCount"@.len() == 13);
            assert("gamePopularityRank"@ != "thumbsUpCount"@);
            assert("isAvailable"@.len() == 11);
            assert("thumbsUpCount"@.len() == 13);
            assert("isAvailable"@ != "thumbsUpCount"@);
            reveal_with_fuel(crate::json::obj_get, 28);
        }
        assert(crate::json::obj_get(o, "rating"@) == Option::Some((match x.rating { Option::Some(v) => JsonV::Num(v@), Option::None => JsonV::Null }))) by {
            reveal_strlit("id");
            reveal_strlit("gameId");
            reveal_strlit("name");
            reveal_strlit("slug");
            reveal_strlit("links");
            reveal_strlit("summary");
            reveal_strlit("status");
            reveal_strlit("downloadCount");
            reveal_strlit("isFeatured");
            reveal_strlit("primaryCategoryId");
            reveal_strlit("categories");
            reveal_strlit("classId");
            reveal_strlit("authors");
            reveal_strlit("logo");
            reveal_strlit("screenshots");
            reveal_strlit("mainFileId");
            reveal_strlit("latestFiles");
            reveal_strlit("latestFilesIndexes");
            reveal_strlit("latestEarlyAccessFilesIndexes");
            reveal_strlit("dateCreated");
            reveal_strlit("dateModified");
            reveal_strlit("dateReleased");
            reveal_strlit("allowModDistribution");
            reveal_strlit("gamePopularityRank");
            reveal_strlit("isAvailable");
            reveal_strlit("thumbsUpCount");
            reveal_strlit("rating");
            assert("id"@.len() == 2);
            assert("rating"@.len() == 6);
            assert("id"@ != "rating"@);
            assert("gameId"@[0] == 'g');
            assert("rating"@[0] == 'r');
            assert("gameId"@ != "rating"@);
            assert("name"@.len() == 4);
            assert("rating"@.len() == 6);
            assert("name"@ != "rating"@);
            assert("slug"@.len() == 4);
            assert("rating"@.len() == 6);
            assert("slug"@ != "rating"@);
            assert("links"@.len() == 5);
            assert("rating"@.len() == 6);
            assert("links"@ != "rating"@);
            assert("summary"@.len() == 7);
            assert("rating"@.len() == 6);
            assert("summary"@ != "rating"@);
            assert("status"@[0] == 's');
            assert("rating"@[0] == 'r');
            assert("status"@ != "rating"@);
            assert("downloadCount"@.len() == 13);
            assert("rating"@.len() == 6);
            assert("downloadCount"@ != "rating"@);
            assert("isFeatured"@.len() == 10);
            assert("rating"@.len() == 6);
            assert("isFeatured"@ != "rating"@);
            assert("primaryCategoryId"@.len() == 17);
            assert("rating"@.len() == 6);
            assert("primaryCategoryId"@ != "rating"@);
            assert("categories"@.len() == 10);
            assert("rating"@.len() == 6);
            assert("categories"@ != "rating"@);
            assert("classId"@.len() == 7);
            assert("rating"@.len() == 6);
            assert("classId"@ != "rating"@);
            assert("authors"@.len() == 7);
            assert("rating"@.len() == 6);
            assert("authors"@ != "rating"@);
            assert("logo"@.len() == 4);
            assert("rating"@.len() == 6);
            assert("logo"@ != "rating"@);
            assert("screenshots"@.len() == 11);
            assert("rating"@.len() == 6);
            assert("screenshots"@ != "rating"@);
            assert("mainFileId"@.len() == 10);
            assert("rating"@.len() == 6);
            assert("mainFileId"@ != "rating"@);
            assert("latestFiles"@.len() == 11);
            assert("rating"@.len() == 6);
            assert("latestFiles"@ != "rating"@);
            assert("latestFilesIndexes"@.len() == 18);
            assert("rating"@.len() == 6);
            assert("latestFilesIndexes"@ != "rating"@);
            assert("latestEarlyAccessFilesIndexes"@.len() == 29);
            assert("rating"@.len() == 6);
            assert("latestEarlyAccessFilesIndexes"@ != "rating"@);
            assert("dateCreated"@.len() == 11);
            assert("rating"@.len() == 6);
            assert("dateCreated"@ != "rating"@);
            assert("dateModified"@.len() == 12);
            assert("rating"@.len() == 6);
            assert("dateModified"@ != "rating"@);
            assert("dateReleased"@.len() == 12);
            assert("rating"@.len() == 6);
            assert("dateReleased"@ != "rating"@);
            assert("allowModDistribution"@.len() == 20);
            assert("rating"@.len() == 6);
            assert("allowModDistribution"@ != "rating"@);
            assert("gamePopularityRank"@.len() == 18);
            assert("rating"@.len() == 6);
            assert("gamePopularityRank"@ != "rating"@);
            assert("isAvailable"@.len() == 11);
            assert("rating"@.len() == 6);
            assert("isAvailable"@ != "rating"@);
            assert("thumbsUpCount"@.len() == 13);
            assert("rating"@.len() == 6);
            assert("thumbsUpCount"@ != "rating"@);
            reveal_with_fuel(crate::json::obj_get, 28);
        }
        ModLinks::lemma_decodes_self(x.links);
        x.status.lemma_code_inverse(0);
        assert forall|n: int| 0 <= n < x.categories@.len() implies Category::decodes_to(
            (#[trigger] x.categories@[n]).jv(), x.categories@[n],
        ) by {
            Category::lemma_decodes_self(x.categories@[n]);
        }
        assert(forall|n: int| 0 <= n < x.categories@.len() ==> Seq::new(x.categories@.len(),
            |k: int| x.categories@[k].jv())[n] == (#[trigger] x.categories@[n]).jv());
        assert forall|n: int| 0 <= n < x.authors@.len() implies ModAuthor::decodes_to(
            (#[trigger] x.authors@[n]).jv(), x.authors@[n],
        ) by {
            ModAuthor::lemma_decodes_self(x.authors@[n]);
        }
        assert(forall|n: int| 0 <= n < x.authors@.len() ==> Seq::new(x.authors@.len(),
            |k: int| x.authors@[k].jv())[n] == (#[trigger] x.authors@[n]).jv());
        match x.logo {
            Option::Some(r) => ModAsset::lemma_decodes_self(r),
            Option::None => {},
        }
        assert forall|n: int| 0 <= n < x.screenshots@.len() implies ModAsset::decodes_to(
            (#[trigger] x.screenshots@[n]).jv(), x.screenshots@[n],
        ) by {
            ModAsset::lemma_decodes_self(x.screenshots@[n]);
        }
        assert(forall|n: int| 0 <= n < x.screenshots@.len() ==> Seq::new(x.screenshots@.len(),
            |k: int| x.screenshots@[k].jv())[n] == (#[trigger] x.screenshots@[n]).jv());
        assert forall|n: int| 0 <= n < x.latest_files@.len() implies File::decodes_to(
            (#[trigger] x.latest_files@[n]).jv(), x.latest_files@[n],
        ) by {
            File::lemma_decodes_self(x.latest_files@[n]);
        }
        assert(forall|n: int| 0 <= n < x.latest_files@.len() ==> Seq::new(x.latest_files@.len(),
            |k: int| x.latest_files@[k].jv())[n] == (#[trigger] x.latest_files@[n]).jv());
        assert forall|n: int| 0 <= n < x.latest_files_indexes@.len() implies FileIndex::decodes_to(
            (#[trigger] x.latest_files_indexes@[n]).jv(), x.latest_files_indexes@[n],
        ) by {
            FileIndex::lemma_decodes_self(x.latest_files_indexes@[n]);
        }
        assert(forall|n: int| 0 <= n < x.latest_files_indexes@.len() ==> Seq::new(x.latest_files_indexes@.len(),
            |k: int| x.latest_files_indexes@[k].jv())[n] == (#[trigger] x.latest_files_indexes@[n]).jv());
        assert forall|n: int| 0 <= n < x.latest_early_access_files_indexes@.len() implies FileIndex::decodes_to(
            (#[trigger] x.latest_early_access_files_indexes@[n]).jv(), x.latest_early_access_files_indexes@[n],
        ) by {
            FileIndex::lemma_decodes_self(x.latest_early_access_files_indexes@[n]);
        }
        assert(forall|n: int| 0 <= n < x.latest_early_access_files_indexes@.len() ==> Seq::new(x.latest_early_access_files_indexes@.len(),
            |k: int| x.latest_early_access_files_indexes@[k].jv())[n] == (#[trigger] x.latest_early_access_files_indexes@[n]).jv());
    }

    /// Two values that one JSON document decodes to are equal, field for field.
    #[verifier::rlimit(100)]
    #[verifier::spinoff_prover]
    pub proof fn lemma_deterministic(j: JsonV, x: Mod, y: Mod)
        requires
            Mod::decodes_to(j, x),
            Mod::decodes_to(j, y),
        ensures
            y.id == x.id,
            y.game_id == x.game_id,
            y.name@ == x.name@,
            y.slug@ == x.slug@,
            y.links.jv() == x.links.jv(),
            crate::fields::view_opt_str(y.summary) == crate::fields::view_opt_str(x.summary),
            y.status == x.status,
            y.download_count == x.download_count,
            y.is_featured == x.is_featured,
            y.primary_category_id == x.primary_category_id,
            y.categories@.len() == x.categories@.len() && (forall|n: int| 0 <= n < x.categories@.len() ==> (#[trigger] y.categories@[n]).jv() == x.categories@[n].jv()),
            y.class_id == x.class_id,
            y.authors@.len() == x.authors@.len() && (forall|n: int| 0 <= n < x.authors@.len() ==> (#[trigger] y.authors@[n]).jv() == x.authors@[n].jv()),
            match (x.logo, y.logo) { (Option::None, Option::None) => true, (Option::Some(r1), Option::Some(r2)) => r2.jv() == r1.jv(), _ => false },
            y.screenshots@.len() == x.screenshots@.len() && (forall|n: int| 0 <= n < x.screenshots@.len() ==> (#[trigger] y.screenshots@[n]).jv() == x.screenshots@[n].jv()),
            y.main_file_id == x.main_file_id,
            y.latest_files@.len() == x.latest_files@.len() && (forall|n: int| 0 <= n < x.latest_files@.len() ==> (#[trigger] y.latest_files@[n]).jv() == x.latest_files@[n].jv()),
            y.latest_files_indexes@.len() == x.latest_files_indexes@.len() && (forall|n: int| 0 <= n < x.latest_files_indexes@.len() ==> (#[trigger] y.latest_files_indexes@[n]).jv() == x.latest_files_indexes@[n].jv()),
            y.latest_early_access_files_indexes@.len() == x.latest_early_access_files_indexes@.len() && (forall|n: int| 0 <= n < x.latest_early_access_files_indexes@.len() ==> (#[trigger] y.latest_early_access_files_indexes@[n]).jv() == x.latest_early_access_files_indexes@[n].jv()),
            y.date_created@ == x.date_created@,
            y.date_modified@ == x.date_modified@,
            y.date_released@ == x.date_released@,
            y.allow_mod_distribution == x.allow_mod_distribution,
            y.game_popularity_rank == x.game_popularity_rank,
            y.is_available == x.is_available,
            y.thumbs_up_count == x.thumbs_up_count,
            crate::fields::view_opt_str(y.rating) == crate::fields::view_opt_str(x.rating),
            y.jv() == x.jv(),
    {
        let o = j->Obj_0;
        match crate::json::obj_get(o, "links"@) {
            Option::Some(jj) => {
                ModLinks::lemma_deterministic(jj, x.links, y.links);
            },
            Option::None => {},
        }
        match crate::json::obj_get(o, "categories"@) {
            Option::Some(JsonV::Arr(items)) => {
                assert forall|n: int| 0 <= n < x.categories@.len() implies (#[trigger] y.categories@[n]).jv()
                    == x.categories@[n].jv() by {
                    assert(Category::decodes_to(items[n], x.categories@[n]));
                    assert(Category::decodes_to(items[n], y.categories@[n]));
                    Category::lemma_deterministic(items[n], x.categories@[n], y.categories@[n]);
                }
            },
            _ => {
                assert(false);
            },
        }
        match crate::json::obj_get(o, "authors"@) {
            Option::Some(JsonV::Arr(items)) => {
                assert forall|n: int| 0 <= n < x.authors@.len() implies (#[trigger] y.authors@[n]).jv()
                    == x.authors@[n].jv() by {
                    assert(ModAuthor::decodes_to(items[n], x.authors@[n]));
                    assert(ModAuthor::decodes_to(items[n], y.authors@[n]));
                    ModAuthor::lemma_deterministic(items[n], x.authors@[n], y.authors@[n]);
                }
            },
            _ => {
                assert(false);
            },
        }
        match crate::json::obj_get(o, "logo"@) {
            Option::Some(jj) => {
                if !(jj is Null) {
                    match (x.logo, y.logo) {
                        (Option::Some(xr), Option::Some(yr)) => {
                            ModAsset::lemma_deterministic(jj, xr, yr);
                        },
                        _ => {},
                    }
                }
            },
            Option::None => {},
        }
        match crate::json::obj_get(o, "screenshots"@) {
            Option::Some(JsonV::Arr(items)) => {
                assert forall|n: int| 0 <= n < x.screenshots@.len() implies (#[trigger] y.screenshots@[n]).jv()
                    == x.screenshots@[n].jv() by {
                    assert(ModAsset::decodes_to(items[n], x.screenshots@[n]));
                    assert(ModAsset::decodes_to(items[n], y.screenshots@[n]));
                    ModAsset::lemma_deterministic(items[n], x.screenshots@[n], y.screenshots@[n]);
                }
            },
            _ => {
                assert(false);
            },
        }
        match crate::json::obj_get(o, "latestFiles"@) {
            Option::Some(JsonV::Arr(items)) => {
                assert forall|n: int| 0 <= n < x.latest_files@.len() implies (#[trigger] y.latest_files@[n]).jv()
                    == x.latest_files@[n].jv() by {
                    assert(File::decodes_to(items[n], x.latest_files@[n]));
                    assert(File::decodes_to(items[n], y.latest_files@[n]));
                    File::lemma_deterministic(items[n], x.latest_files@[n], y.latest_files@[n]);
                }
            },
            _ => {
                assert(false);
            },
        }
        match crate::json::obj_get(o, "latestFilesIndexes"@) {
            Option::Some(JsonV::Arr(items)) => {
                assert forall|n: int| 0 <= n < x.latest_files_indexes@.len() implies (#[trigger] y.latest_files_indexes@[n]).jv()
                    == x.latest_files_indexes@[n].jv() by {
                    assert(FileIndex::decodes_to(items[n], x.latest_files_indexes@[n]));
                    assert(FileIndex::decodes_to(items[n], y.latest_files_indexes@[n]));
                    FileIndex::lemma_deterministic(items[n], x.latest_files_indexes@[n], y.latest_files_indexes@[n]);
                }
            },
            _ => {
                assert(false);
            },
        }
        match crate::json::obj_get(o, "latestEarlyAccessFilesIndexes"@) {
            Option::Some(JsonV::Arr(items)) => {
                assert forall|n: int| 0 <= n < x.latest_early_access_files_indexes@.len() implies (#[trigger] y.latest_early_access_files_indexes@[n]).jv()
                    == x.latest_early_access_files_indexes@[n].jv() by {
                    assert(FileIndex::decodes_to(items[n], x.latest_early_access_files_indexes@[n]));
                    assert(FileIndex::decodes_to(items[n], y.latest_early_access_files_indexes@[n]));
                    FileIndex::lemma_deterministic(items[n], x.latest_early_access_files_indexes@[n], y.latest_early_access_files_indexes@[n]);
                }
            },
            _ => {
                assert(false);
            },
        }
        assert(JsonV::Int(y.id as int) =~~= JsonV::Int(x.id as int));
        assert(JsonV::Int(y.game_id as int) =~~= JsonV::Int(x.game_id as int));
        assert(JsonV::Str(y.name@) =~~= JsonV::Str(x.name@));
        assert(JsonV::Str(y.slug@) =~~= JsonV::Str(x.slug@));
        assert(y.links.jv() =~~= x.links.jv());
        assert((match y.summary { Option::Some(v) => JsonV::Str(v@), Option::None => JsonV::Null }) =~~= (match x.summary { Option::Some(v) => JsonV::Str(v@), Option::None => JsonV::Null }));
        assert(JsonV::Int(y.status.code()) =~~= JsonV::Int(x.status.code()));
        assert(JsonV::Int(y.download_count as int) =~~= JsonV::Int(x.download_count as int));
        assert(JsonV::Bool(y.is_featured) =~~= JsonV::Bool(x.is_featured));
        assert(JsonV::Int(y.primary_category_id as int) =~~= JsonV::Int(x.primary_category_id as int));
        assert(Seq::new(y.categories@.len(), |k: int| y.categories@[k].jv()) =~= Seq::new(x.categories@.len(),
            |k: int| x.categories@[k].jv()));
        assert((match y.class_id { Option::Some(v) => JsonV::Int(v as int), Option::None => JsonV::Null }) =~~= (match x.class_id { Option::Some(v) => JsonV::Int(v as int), Option::None => JsonV::Null }));
        assert(Seq::new(y.authors@.len(), |k: int| y.authors@[k].jv()) =~= Seq::new(x.authors@.len(),
            |k: int| x.authors@[k].jv()));
        assert((match y.logo { Option::Some(v) => v.jv(), Option::None => JsonV::Null }) =~~= (match x.logo { Option::Some(v) => v.jv(), Option::None => JsonV::Null }));
        assert(Seq::new(y.screenshots@.len(), |k: int| y.screenshots@[k].jv()) =~= Seq::new(x.screenshots@.len(),
            |k: int| x.screenshots@[k].jv()));
        assert(JsonV::Int(y.main_file_id as int) =~~= JsonV::Int(x.main_file_id as int));
        assert(Seq::new(y.latest_files@.len(), |k: int| y.latest_files@[k].jv()) =~= Seq::new(x.latest_files@.len(),
            |k: int| x.latest_files@[k].jv()));
        assert(Seq::new(y.latest_files_indexes@.len(), |k: int| y.latest_files_indexes@[k].jv()) =~= Seq::new(x.latest_files_indexes@.len(),
            |k: int| x.latest_files_indexes@[k].jv()));
        assert(Seq::new(y.latest_early_access_files_indexes@.len(), |k: int| y.latest_early_access_files_indexes@[k].jv()) =~= Seq::new(x.latest_early_access_files_indexes@.len(),
            |k: int| x.latest_early_access_files_indexes@[k].jv()));
        assert(JsonV::Str(y.date_created@) =~~= JsonV::Str(x.date_created@));
        assert(JsonV::Str(y.date_modified@) =~~= JsonV::Str(x.date_modified@));
        assert(JsonV::Str(y.date_released@) =~~= JsonV::Str(x.date_released@));
        assert((match y.allow_mod_distribution { Option::Some(v) => JsonV::Bool(v), Option::None => JsonV::Null }) =~~= (match x.allow_mod_distribution { Option::Some(v) => JsonV::Bool(v), Option::None => JsonV::Null }));
        assert(JsonV::Int(y.game_popularity_rank as int) =~~= JsonV::Int(x.game_popularity_rank as int));
        assert(JsonV::Bool(y.is_available) =~~= JsonV::Bool(x.is_available));
        assert(JsonV::Int(y.thumbs_up_count as int) =~~= JsonV::Int(x.thumbs_up_count as int));
        assert((match y.rating { Option::Some(v) => JsonV::Num(v@), Option::None => JsonV::Null }) =~~= (match x.rating { Option::Some(v) => JsonV::Num(v@), Option::None => JsonV::Null }));
        let oy = y.jv()->Obj_0;
        let ox = x.jv()->Obj_0;
        assert(oy[0] =~~= ox[0]);
        assert(oy[1] =~~= ox[1]);
        assert(oy[2] =~~= ox[2]);
        assert(oy[3] =~~= ox[3]);
        assert(oy[4] =~~= ox[4]);
        assert(oy[5] =~~= ox[5]);
        assert(oy[6] =~~= ox[6]);
        assert(oy[7] =~~= ox[7]);
        assert(oy[8] =~~= ox[8]);
        assert(oy[9] =~~= ox[9]);
        assert(oy[10] =~~= ox[10]);
        assert(oy[11] =~~= ox[11]);
        assert(oy[12] =~~= ox[12]);
        assert(oy[13] =~~= ox[13]);
        assert(oy[14] =~~= ox[14]);
        assert(oy[15] =~~= ox[15]);
        assert(oy[16] =~~= ox[16]);
        assert(oy[17] =~~= ox[17]);
        assert(oy[18] =~~= ox[18]);
        assert(oy[19] =~~= ox[19]);
        assert(oy[20] =~~= ox[20]);
        assert(oy[21] =~~= ox[21]);
        assert(oy[22] =~~= ox[22]);
        assert(oy[23] =~~= ox[23]);
        assert(oy[24] =~~= ox[24]);
        assert(oy[25] =~~= ox[25]);
        assert(oy[26] =~~= ox[26]);
        assert forall|n: int| 0 <= n < ox.len() implies oy[n] =~~= ox[n] by {
            if n == 0 {
                assert(oy[n] =~~= ox[n]);
            } else if n == 1 {
                assert(oy[n] =~~= ox[n]);
            } else if n == 2 {
                assert(oy[n] =~~= ox[n]);
            } else if n == 3 {
                assert(oy[n] =~~= ox[n]);
            } else if n == 4 {
                assert(oy[n] =~~= ox[n]);
            } else if n == 5 {
                assert(oy[n] =~~= ox[n]);
            } else if n == 6 {
                assert(oy[n] =~~= ox[n]);
            } else if n == 7 {
                assert(oy[n] =~~= ox[n]);
            } else if n == 8 {
                assert(oy[n] =~~= ox[n]);
            } else if n == 9 {
                assert(oy[n] =~~= ox[n]);
            } else if n == 10 {
                assert(oy[n] =~~= ox[n]);
            } else if n == 11 {
                assert(oy[n] =~~= ox[n]);
            } else if n == 12 {
                assert(oy[n] =~~= ox[n]);
            } else if n == 13 {
                assert(oy[n] =~~= ox[n]);
            } else if n == 14 {
                assert(oy[n] =~~= ox[n]);
            } else if n == 15 {
                assert(oy[n] =~~= ox[n]);
            } else if n == 16 {
                assert(oy[n] =~~= ox[n]);
            } else if n == 17 {
                assert(oy[n] =~~= ox[n]);
            } else if n == 18 {
                assert(oy[n] =~~= ox[n]);
            } else if n == 19 {
                assert(oy[n] =~~= ox[n]);
            } else if n == 20 {
                assert(oy[n] =~~= ox[n]);
            } else if n == 21 {
                assert(oy[n] =~~= ox[n]);
            } else if n == 22 {
                assert(oy[n] =~~= ox[n]);
            } else if n == 23 {
                assert(oy[n] =~~= ox[n]);
            } else if n == 24 {
                assert(oy[n] =~~= ox[n]);
            } else if n == 25 {
                assert(oy[n] =~~= ox[n]);
            } else if n == 26 {
                assert(oy[n] =~~= ox[n]);
            }
        }
        assert(oy =~~= ox);
        assert(y.jv() =~~= x.jv());
    }
}

/// The featured, popular and recently updated mods of a game.
#[derive(Debug, Clone)]
pub struct FeaturedModsResponse {
    pub featured: Vec<Mod>,
    pub popular: Vec<Mod>,
    pub recently_updated: Vec<Mod>,
}

impl FeaturedModsResponse {
    /// The JSON document of this value, member for member.
    pub open spec fn jv(self) -> JsonV {
        JsonV::Obj(seq![
            ("featured"@, JsonV::Arr(Seq::new(self.featured@.len(), |k: int| self.featured@[k].jv()))),
            ("popular"@, JsonV::Arr(Seq::new(self.popular@.len(), |k: int| self.popular@[k].jv()))),
            ("recentlyUpdated"@, JsonV::Arr(Seq::new(self.recently_updated@.len(), |k: int| self.recently_updated@[k].jv()))),
        ])
    }

    /// What it means for a JSON document to decode to this value.
    pub open spec fn decodes_to(j: JsonV, x: FeaturedModsResponse) -> bool {
        &&& j matches JsonV::Obj(o)
        &&& crate::json::obj_get(o, "featured"@) matches Option::Some(JsonV::Arr(items)) && items.len() == x.featured@.len()
            && (forall|n: int| 0 <= n < items.len() ==> Mod::decodes_to(#[trigger] items[n], x.featured@[n]))
        &&& crate::json::obj_get(o, "popular"@) matches Option::Some(JsonV::Arr(items)) && items.len() == x.popular@.len()
            && (forall|n: int| 0 <= n < items.len() ==> Mod::decodes_to(#[trigger] items[n], x.popular@[n]))
        &&& crate::json::obj_get(o, "recentlyUpdated"@) matches Option::Some(JsonV::Arr(items)) && items.len() == x.recently_updated@.len()
            && (forall|n: int| 0 <= n < items.len() ==> Mod::decodes_to(#[trigger] items[n], x.recently_updated@[n]))
    }

    #[verifier::rlimit(100)]
    #[verifier::spinoff_prover]
    pub fn to_json(&self) -> (r: Json)
        ensures
            r@ == self.jv(),
    {
        let mut m = JsonMembers::Nil;
        let l_recently_updated = Mod::list_to_json(&self.recently_updated, 0);
        let ghost lv_recently_updated = l_recently_updated@;
        let e_recently_updated = Json::Arr(Box::new(l_recently_updated));
        proof {
            assert(e_recently_updated matches Json::Arr(lb) && crate::json::list_view(*lb) == lv_recently_updated);
            assert(lv_recently_updated =~= Seq::new(self.recently_updated@.len(), |k: int| self.recently_updated@[k].jv()));
            assert(e_recently_updated@ =~~= JsonV::Arr(Seq::new(self.recently_updated@.len(), |k: int| self.recently_updated@[k].jv())));
        }
        m = crate::fields::cons_member("recentlyUpdated", e_recently_updated, m);
        let l_popular = Mod::list_to_json(&self.popular, 0);
        let ghost lv_popular = l_popular@;
        let e_popular = Json::Arr(Box::new(l_popular));
        proof {
            assert(e_popular matches Json::Arr(lb) && crate::json::list_view(*lb) == lv_popular);
            assert(lv_popular =~= Seq::new(self.popular@.len(), |k: int| self.popular@[k].jv()));
            assert(e_popular@ =~~= JsonV::Arr(Seq::new(self.popular@.len(), |k: int| self.popular@[k].jv())));
        }
        m = crate::fields::cons_member("popular", e_popular, m);
        let l_featured = Mod::list_to_json(&self.featured, 0);
        let ghost lv_featured = l_featured@;
        let e_featured = Json::Arr(Box::new(l_featured));
        proof {
            assert(e_featured matches Json::Arr(lb) && crate::json::list_view(*lb) == lv_featured);
            assert(lv_featured =~= Seq::new(self.featured@.len(), |k: int| self.featured@[k].jv()));
            assert(e_featured@ =~~= JsonV::Arr(Seq::new(self.featured@.len(), |k: int| self.featured@[k].jv())));
        }
        m = crate::fields::cons_member("featured", e_featured, m);
        let ghost m_v = m@;
        let r = Json::Obj(Box::new(m));
        proof {
            assert(r matches Json::Obj(o2) && crate::json::members_view(*o2) == m_v);
            assert(r@ == JsonV::Obj(m_v));
            assert(m_v.len() == 3);
            assert(m_v[0] =~~= ("featured"@, JsonV::Arr(Seq::new(self.featured@.len(), |k: int| self.featured@[k].jv()))));
            assert(m_v[1] =~~= ("popular"@, JsonV::Arr(Seq::new(self.popular@.len(), |k: int| self.popular@[k].jv()))));
            assert(m_v[2] =~~= ("recentlyUpdated"@, JsonV::Arr(Seq::new(self.recently_updated@.len(), |k: int| self.recently_updated@[k].jv()))));
            assert(m_v =~~= self.jv()->Obj_0);
            assert(r@ =~~= self.jv());
        }
        r
    }

    #[verifier::rlimit(100)]
    #[verifier::spinoff_prover]
    pub fn from_json(j: &Json) -> (r: Option<FeaturedModsResponse>)
        ensures
            r matches Option::Some(x) ==> FeaturedModsResponse::decodes_to(j@, x),
            r is None ==> forall|x: FeaturedModsResponse| !FeaturedModsResponse::decodes_to(j@, x),
    {
        match j {
            Json::Obj(m) => {
            let featured = match crate::fields::get_arr(m, "featured") {
                Option::Some(l) => match Mod::list_from_json(l) {
                    Option::Some(v) => v,
                    Option::None => {
                        proof {
                            assert forall|x: FeaturedModsResponse| !FeaturedModsResponse::decodes_to(j@, x) by {
                                if FeaturedModsResponse::decodes_to(j@, x) {
                                    Mod::lemma_list_undecodable(l@, x.featured@);
                                }
                            }
                        }
                        return Option::None;
                    },
                },
                Option::None => {
                    return Option::None;
                },
            };
            let popular = match crate::fields::get_arr(m, "popular") {
                Option::Some(l) => match Mod::list_from_json(l) {
                    Option::Some(v) => v,
                    Option::None => {
                        proof {
                            assert forall|x: FeaturedModsResponse| !FeaturedModsResponse::decodes_to(j@, x) by {
                                if FeaturedModsResponse::decodes_to(j@, x) {
                                    Mod::lemma_list_undecodable(l@, x.popular@);
                                }
                            }
                        }
                        return Option::None;
                    },
                },
                Option::None => {
                    return Option::None;
                },
            };
            let recently_updated = match crate::fields::get_arr(m, "recentlyUpdated") {
                Option::Some(l) => match Mod::list_from_json(l) {
                    Option::Some(v) => v,
                    Option::None => {
                        proof {
                            assert forall|x: FeaturedModsResponse| !FeaturedModsResponse::decodes_to(j@, x) by {
                                if FeaturedModsResponse::decodes_to(j@, x) {
                                    Mod::lemma_list_undecodable(l@, x.recently_updated@);
                                }
                            }
                        }
                        return Option::None;
                    },
                },
                Option::None => {
                    return Option::None;
                },
            };
                Option::Some(FeaturedModsResponse {
                    featured,
                    popular,
                    recently_updated,
                })
            },
            _ => Option::None,
        }
    }



    /// The JSON document of a value decodes back to it.
    #[verifier::rlimit(100)]
    #[verifier::spinoff_prover]
    pub proof fn lemma_decodes_self(x: FeaturedModsResponse)
        ensures
            FeaturedModsResponse::decodes_to(x.jv(), x),
    {
        let o = x.jv()->Obj_0;
        assert(crate::json::obj_get(o, "featured"@) == Option::Some(JsonV::Arr(Seq::new(x.featured@.len(), |k: int| x.featured@[k].jv())))) by {
            reveal_strlit("featured");
            reveal_with_fuel(crate::json::obj_get, 4);
        }
        assert(crate::json::obj_get(o, "popular"@) == Option::Some(JsonV::Arr(Seq::new(x.popular@.len(), |k: int| x.popular@[k].jv())))) by {
            reveal_strlit("featured");
            reveal_strlit("popular");
            assert("featured"@.len() == 8);
            assert("popular"@.len() == 7);
            assert("featured"@ != "popular"@);
            reveal_with_fuel(crate::json::obj_get, 4);
        }
        assert(crate::json::obj_get(o, "recentlyUpdated"@) == Option::Some(JsonV::Arr(Seq::new(x.recently_updated@.len(), |k: int| x.recently_updated@[k].jv())))) by {
            reveal_strlit("featured");
            reveal_strlit("popular");
            reveal_strlit("recentlyUpdated");
            assert("featured"@.len() == 8);
            assert("recentlyUpdated"@.len() == 15);
            assert("featured"@ != "recentlyUpdated"@);
            assert("popular"@.len() == 7);
            assert("recentlyUpdated"@.len() == 15);
            assert("popular"@ != "recentlyUpdated"@);
            reveal_with_fuel(crate::json::obj_get, 4);
        }
        assert forall|n: int| 0 <= n < x.featured@.len() implies Mod::decodes_to(
            (#[trigger] x.featured@[n]).jv(), x.featured@[n],
        ) by {
            Mod::lemma_decodes_self(x.featured@[n]);
        }
        assert(forall|n: int| 0 <= n < x.featured@.len() ==> Seq::new(x.featured@.len(),
            |k: int| x.featured@[k].jv())[n] == (#[trigger] x.featured@[n]).jv());
        assert forall|n: int| 0 <= n < x.popular@.len() implies Mod::decodes_to(
            (#[trigger] x.popular@[n]).jv(), x.popular@[n],
        ) by {
            Mod::lemma_decodes_self(x.popular@[n]);
        }
        assert(forall|n: int| 0 <= n < x.popular@.len() ==> Seq::new(x.popular@.len(),
            |k: int| x.popular@[k].jv())[n] == (#[trigger] x.popular@[n]).jv());
        assert forall|n: int| 0 <= n < x.recently_updated@.len() implies Mod::decodes_to(
            (#[trigger] x.recently_updated@[n]).jv(), x.recently_updated@[n],
        ) by {
            Mod::lemma_decodes_self(x.recently_updated@[n]);
        }
        assert(forall|n: int| 0 <= n < x.recently_updated@.len() ==> Seq::new(x.recently_updated@.len(),
            |k: int| x.recently_updated@[k].jv())[n] == (#[trigger] x.recently_updated@[n]).jv());
    }

    /// Two values that one JSON document decodes to are equal, field for field.
    #[verifier::rlimit(100)]
    #[verifier::spinoff_prover]
    pub proof fn lemma_deterministic(j: JsonV, x: FeaturedModsResponse, y: FeaturedModsResponse)
        requires
            FeaturedModsResponse::decodes_to(j, x),
            FeaturedModsResponse::decodes_to(j, y),
        ensures
            y.featured@.len() == x.featured@.len() && (forall|n: int| 0 <= n < x.featured@.len() ==> (#[trigger] y.featured@[n]).jv() == x.featured@[n].jv()),
            y.popular@.len() == x.popular@.len() && (forall|n: int| 0 <= n < x.popular@.len() ==> (#[trigger] y.popular@[n]).jv() == x.popular@[n].jv()),
            y.recently_updated@.len() == x.recently_updated@.len() && (forall|n: int| 0 <= n < x.recently_updated@.len() ==> (#[trigger] y.recently_updated@[n]).jv() == x.recently_updated@[n].jv()),
            y.jv() == x.jv(),
    {
        let o = j->Obj_0;
        match crate::json::obj_get(o, "featured"@) {
            Option::Some(JsonV::Arr(items)) => {
                assert forall|n: int| 0 <= n < x.featured@.len() implies (#[trigger] y.featured@[n]).jv()
                    == x.featured@[n].jv() by {
                    assert(Mod::decodes_to(items[n], x.featured@[n]));
                    assert(Mod::decodes_to(items[n], y.featured@[n]));
                    Mod::lemma_deterministic(items[n], x.featured@[n], y.featured@[n]);
                }
            },
            _ => {
                assert(false);
            },
        }
        match crate::json::obj_get(o, "popular"@) {
            Option::Some(JsonV::Arr(items)) => {
                assert forall|n: int| 0 <= n < x.popular@.len() implies (#[trigger] y.popular@[n]).jv()
                    == x.popular@[n].jv() by {
                    assert(Mod::decodes_to(items[n], x.popular@[n]));
                    assert(Mod::decodes_to(items[n], y.popular@[n]));
                    Mod::lemma_deterministic(items[n], x.popular@[n], y.popular@[n]);
                }
            },
            _ => {
                assert(false);
            },
        }
        match crate::json::obj_get(o, "recentlyUpdated"@) {
            Option::Some(JsonV::Arr(items)) => {
                assert forall|n: int| 0 <= n < x.recently_updated@.len() implies (#[trigger] y.recently_updated@[n]).jv()
                    == x.recently_updated@[n].jv() by {
                    assert(Mod::decodes_to(items[n], x.recently_updated@[n]));
                    assert(Mod::decodes_to(items[n], y.recently_updated@[n]));
                    Mod::lemma_deterministic(items[n], x.recently_updated@[n], y.recently_updated@[n]);
                }
            },
            _ => {
                assert(false);
            },
        }
        assert(Seq::new(y.featured@.len(), |k: int| y.featured@[k].jv()) =~= Seq::new(x.featured@.len(),
            |k: int| x.featured@[k].jv()));
        assert(Seq::new(y.popular@.len(), |k: int| y.popular@[k].jv()) =~= Seq::new(x.popular@.len(),
            |k: int| x.popular@[k].jv()));
        assert(Seq::new(y.recently_updated@.len(), |k: int| y.recently_updated@[k].jv()) =~= Seq::new(x.recently_updated@.len(),
            |k: int| x.recently_updated@[k].jv()));
        let oy = y.jv()->Obj_0;
        let ox = x.jv()->Obj_0;
        assert(oy[0] =~~= ox[0]);
        assert(oy[1] =~~= ox[1]);
        assert(oy[2] =~~= ox[2]);
        assert forall|n: int| 0 <= n < ox.len() implies oy[n] =~~= ox[n] by {
            if n == 0 {
                assert(oy[n] =~~= ox[n]);
            } else if n == 1 {
                assert(oy[n] =~~= ox[n]);
            } else if n == 2 {
                assert(oy[n] =~~= ox[n]);
            }
        }
        assert(oy =~~= ox);
        assert(y.jv() =~~= x.jv());
    }
}

} // verus!
