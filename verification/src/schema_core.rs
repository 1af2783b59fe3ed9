//! The core records of the remote schema: games, versions, categories.
#![allow(unused_imports)]
use crate::enums::{CoreApiStatus, CoreStatus, FileRelationType, FileReleaseType, FileStatus,
    GameVersionStatus, GameVersionTypeStatus, HashAlgo, ModLoaderInstallMethod, ModLoaderType,
    ModStatus, ModsSearchSortField, SortOrder};
use crate::json::{Json, JsonList, JsonMembers, JsonV};
use vstd::prelude::*;

verus! {

broadcast use vstd::seq::group_seq_axioms, vstd::std_specs::vec::group_vec_axioms;


/// The window that a paged listing describes.
#[derive(Debug, Clone)]
pub struct Pagination {
    pub index: i32,
    pub page_size: i32,
    pub result_count: i32,
    pub total_count: i64,
}

impl Pagination {
    /// The JSON document of this value, member for member.
    pub open spec fn jv(self) -> JsonV {
        JsonV::Obj(seq![
            ("index"@, JsonV::Int(self.index as int)),
            ("pageSize"@, JsonV::Int(self.page_size as int)),
            ("resultCount"@, JsonV::Int(self.result_count as int)),
            ("totalCount"@, JsonV::Int(self.total_count as int)),
        ])
    }

    /// What it means for a JSON document to decode to this value.
    pub open spec fn decodes_to(j: JsonV, x: Pagination) -> bool {
        &&& j matches JsonV::Obj(o)
        &&& crate::fields::jv_i32(o, "index"@) == Option::Some(x.index)
        &&& crate::fields::jv_i32(o, "pageSize"@) == Option::Some(x.page_size)
        &&& crate::fields::jv_i32(o, "resultCount"@) == Option::Some(x.result_count)
        &&& crate::fields::jv_i64(o, "totalCount"@) == Option::Some(x.total_count)
    }

    pub fn to_json(&self) -> (r: Json)
        ensures
            r@ == self.jv(),
    {
        let mut m = JsonMembers::Nil;
        m = crate::fields::cons_member("totalCount", Json::Int(self.total_count), m);
        m = crate::fields::cons_member("resultCount", Json::Int(self.result_count as i64), m);
        m = crate::fields::cons_member("pageSize", Json::Int(self.page_size as i64), m);
        m = crate::fields::cons_member("index", Json::Int(self.index as i64), m);
        let ghost m_v = m@;
        let r = Json::Obj(Box::new(m));
        proof {
            assert(r matches Json::Obj(o2) && crate::json::members_view(*o2) == m_v);
            assert(r@ == JsonV::Obj(m_v));
            assert(m_v.len() == 4);
            assert(m_v[0] =~~= ("index"@, JsonV::Int(self.index as int)));
            assert(m_v[1] =~~= ("pageSize"@, JsonV::Int(self.page_size as int)));
            assert(m_v[2] =~~= ("resultCount"@, JsonV::Int(self.result_count as int)));
            assert(m_v[3] =~~= ("totalCount"@, JsonV::Int(self.total_count as int)));
            assert(m_v =~~= self.jv()->Obj_0);
            assert(r@ =~~= self.jv());
        }
        r
    }

    pub fn from_json(j: &Json) -> (r: Option<Pagination>)
        ensures
            r matches Option::Some(x) ==> Pagination::decodes_to(j@, x),
            r is None ==> forall|x: Pagination| !Pagination::decodes_to(j@, x),
    {
        match j {
            Json::Obj(m) => {
            let index = match crate::fields::get_i32(m, "index") {
                Option::Some(v) => v,
                Option::None => {
                    return Option::None;
                },
            };
            let page_size = match crate::fields::get_i32(m, "pageSize") {
                Option::Some(v) => v,
                Option::None => {
                    return Option::None;
                },
            };
            let result_count = match crate::fields::get_i32(m, "resultCount") {
                Option::Some(v) => v,
                Option::None => {
                    return Option::None;
                },
            };
            let total_count = match crate::fields::get_i64(m, "totalCount") {
                Option::Some(v) => v,
                Option::None => {
                    return Option::None;
                },
            };
                Option::Some(Pagination {
                    index,
                    page_size,
                    result_count,
                    total_count,
                })
            },
            _ => Option::None,
        }
    }



    /// The JSON document of a value decodes back to it.
    pub proof fn lemma_decodes_self(x: Pagination)
        ensures
            Pagination::decodes_to(x.jv(), x),
    {
        let o = x.jv()->Obj_0;
        assert(crate::json::obj_get(o, "index"@) == Option::Some(JsonV::Int(x.index as int))) by {
            reveal_strlit("index");
            reveal_with_fuel(crate::json::obj_get, 5);
        }
        assert(crate::json::obj_get(o, "pageSize"@) == Option::Some(JsonV::Int(x.page_size as int))) by {
            reveal_strlit("index");
            reveal_strlit("pageSize");
            assert("index"@.len() == 5);
            assert("pageSize"@.len() == 8);
            assert("index"@ != "pageSize"@);
            reveal_with_fuel(crate::json::obj_get, 5);
        }
        assert(crate::json::obj_get(o, "resultCount"@) == Option::Some(JsonV::Int(x.result_count as int))) by {
            reveal_strlit("index");
            reveal_strlit("pageSize");
            reveal_strlit("resultCount");
            assert("index"@.len() == 5);
            assert("resultCount"@.len() == 11);
            assert("index"@ != "resultCount"@);
            assert("pageSize"@.len() == 8);
            assert("resultCount"@.len() == 11);
            assert("pageSize"@ != "resultCount"@);
            reveal_with_fuel(crate::json::obj_get, 5);
        }
        assert(crate::json::obj_get(o, "totalCount"@) == Option::Some(JsonV::Int(x.total_count as int))) by {
            reveal_strlit("index");
            reveal_strlit("pageSize");
            reveal_strlit("resultCount");
            reveal_strlit("totalCount");
            assert("index"@.len() == 5);
            assert("totalCount"@.len() == 10);
            assert("index"@ != "totalCount"@);
            assert("pageSize"@.len() == 8);
            assert("totalCount"@.len() == 10);
            assert("pageSize"@ != "totalCount"@);
            assert("resultCount"@.len() == 11);
            assert("totalCount"@.len() == 10);
            assert("resultCount"@ != "totalCount"@);
            reveal_with_fuel(crate::json::obj_get, 5);
        }
    }

    /// Two values that one JSON document decodes to are equal, field for field.
    pub proof fn lemma_deterministic(j: JsonV, x: Pagination, y: Pagination)
        requires
            Pagination::decodes_to(j, x),
            Pagination::decodes_to(j, y),
        ensures
            y.index == x.index,
            y.page_size == x.page_size,
            y.result_count == x.result_count,
            y.total_count == x.total_count,
            y.jv() == x.jv(),
    {
        let o = j->Obj_0;
        assert(JsonV::Int(y.index as int) =~~= JsonV::Int(x.index as int));
        assert(JsonV::Int(y.page_size as int) =~~= JsonV::Int(x.page_size as int));
        assert(JsonV::Int(y.result_count as int) =~~= JsonV::Int(x.result_count as int));
        assert(JsonV::Int(y.total_count as int) =~~= JsonV::Int(x.total_count as int));
        let oy = y.jv()->Obj_0;
        let ox = x.jv()->Obj_0;
        assert(oy[0] =~~= ox[0]);
        assert(oy[1] =~~= ox[1]);
        assert(oy[2] =~~= ox[2]);
        assert(oy[3] =~~= ox[3]);
        assert forall|n: int| 0 <= n < ox.len() implies oy[n] =~~= ox[n] by {
            if n == 0 {
                assert(oy[n] =~~= ox[n]);
            } else if n == 1 {
                assert(oy[n] =~~= ox[n]);
            } else if n == 2 {
                assert(oy[n] =~~= ox[n]);
            } else if n == 3 {
                assert(oy[n] =~~= ox[n]);
            }
        }
        assert(oy =~~= ox);
        assert(y.jv() =~~= x.jv());
    }
}

/// The artwork locations of a game.
#[derive(Debug, Clone)]
pub struct GameAssets {
    pub icon_url: Option<String>,
    pub tile_url: Option<String>,
    pub cover_url: Option<String>,
}

impl GameAssets {
    /// The JSON document of this value, member for member.
    pub open spec fn jv(self) -> JsonV {
        JsonV::Obj(seq![
            ("iconUrl"@, (match self.icon_url { Option::Some(v) => JsonV::Str(v@), Option::None => JsonV::Null })),
            ("tileUrl"@, (match self.tile_url { Option::Some(v) => JsonV::Str(v@), Option::None => JsonV::Null })),
            ("coverUrl"@, (match self.cover_url { Option::Some(v) => JsonV::Str(v@), Option::None => JsonV::Null })),
        ])
    }

    /// What it means for a JSON document to decode to this value.
    pub open spec fn decodes_to(j: JsonV, x: GameAssets) -> bool {
        &&& j matches JsonV::Obj(o)
        &&& crate::fields::jv_opt_str(o, "iconUrl"@) == Option::Some(crate::fields::view_opt_str(x.icon_url))
        &&& crate::fields::jv_opt_str(o, "tileUrl"@) == Option::Some(crate::fields::view_opt_str(x.tile_url))
        &&& crate::fields::jv_opt_str(o, "coverUrl"@) == Option::Some(crate::fields::view_opt_str(x.cover_url))
    }

    pub fn to_json(&self) -> (r: Json)
        ensures
            r@ == self.jv(),
    {
        let mut m = JsonMembers::Nil;
        m = crate::fields::cons_member("coverUrl", crate::fields::opt_str_json(&self.cover_url), m);
        m = crate::fields::cons_member("tileUrl", crate::fields::opt_str_json(&self.tile_url), m);
        m = crate::fields::cons_member("iconUrl", crate::fields::opt_str_json(&self.icon_url), m);
        let ghost m_v = m@;
        let r = Json::Obj(Box::new(m));
        proof {
            assert(r matches Json::Obj(o2) && crate::json::members_view(*o2) == m_v);
            assert(r@ == JsonV::Obj(m_v));
            assert(m_v.len() == 3);
            assert(m_v[0] =~~= ("iconUrl"@, (match self.icon_url { Option::Some(v) => JsonV::Str(v@), Option::None => JsonV::Null })));
            assert(m_v[1] =~~= ("tileUrl"@, (match self.tile_url { Option::Some(v) => JsonV::Str(v@), Option::None => JsonV::Null })));
            assert(m_v[2] =~~= ("coverUrl"@, (match self.cover_url { Option::Some(v) => JsonV::Str(v@), Option::None => JsonV::Null })));
            assert(m_v =~~= self.jv()->Obj_0);
            assert(r@ =~~= self.jv());
        }
        r
    }

    pub fn from_json(j: &Json) -> (r: Option<GameAssets>)
        ensures
            r matches Option::Some(x) ==> GameAssets::decodes_to(j@, x),
            r is None ==> forall|x: GameAssets| !GameAssets::decodes_to(j@, x),
    {
        match j {
            Json::Obj(m) => {
            let icon_url = match crate::fields::get_opt_str(m, "iconUrl") {
                Option::Some(v) => v,
                Option::None => {
                    return Option::None;
                },
            };
            let tile_url = match crate::fields::get_opt_str(m, "tileUrl") {
                Option::Some(v) => v,
                Option::None => {
                    return Option::None;
                },
            };
            let cover_url = match crate::fields::get_opt_str(m, "coverUrl") {
                Option::Some(v) => v,
                Option::None => {
                    return Option::None;
                },
            };
                Option::Some(GameAssets {
                    icon_url,
                    tile_url,
                    cover_url,
                })
            },
            _ => Option::None,
        }
    }



    /// The JSON document of a value decodes back to it.
    pub proof fn lemma_decodes_self(x: GameAssets)
        ensures
            GameAssets::decodes_to(x.jv(), x),
    {
        let o = x.jv()->Obj_0;
        assert(crate::json::obj_get(o, "iconUrl"@) == Option::Some((match x.icon_url { Option::Some(v) => JsonV::Str(v@), Option::None => JsonV::Null }))) by {
            reveal_strlit("iconUrl");
            reveal_with_fuel(crate::json::obj_get, 4);
        }
        assert(crate::json::obj_get(o, "tileUrl"@) == Option::Some((match x.tile_url { Option::Some(v) => JsonV::Str(v@), Option::None => JsonV::Null }))) by {
            reveal_strlit("iconUrl");
            reveal_strlit("tileUrl");
            assert("iconUrl"@[0] == 'i');
            assert("tileUrl"@[0] == 't');
            assert("iconUrl"@ != "tileUrl"@);
            reveal_with_fuel(crate::json::obj_get, 4);
        }
        assert(crate::json::obj_get(o, "coverUrl"@) == Option::Some((match x.cover_url { Option::Some(v) => JsonV::Str(v@), Option::None => JsonV::Null }))) by {
            reveal_strlit("iconUrl");
            reveal_strlit("tileUrl");
            reveal_strlit("coverUrl");
            assert("iconUrl"@.len() == 7);
            assert("coverUrl"@.len() == 8);
            assert("iconUrl"@ != "coverUrl"@);
            assert("tileUrl"@.len() == 7);
            assert("coverUrl"@.len() == 8);
            assert("tileUrl"@ != "coverUrl"@);
            reveal_with_fuel(crate::json::obj_get, 4);
        }
    }

    /// Two values that one JSON document decodes to are equal, field for field.
    pub proof fn lemma_deterministic(j: JsonV, x: GameAssets, y: GameAssets)
        requires
            GameAssets::decodes_to(j, x),
            GameAssets::decodes_to(j, y),
        ensures
            crate::fields::view_opt_str(y.icon_url) == crate::fields::view_opt_str(x.icon_url),
            crate::fields::view_opt_str(y.tile_url) == crate::fields::view_opt_str(x.tile_url),
            crate::fields::view_opt_str(y.cover_url) == crate::fields::view_opt_str(x.cover_url),
            y.jv() == x.jv(),
    {
        let o = j->Obj_0;
        assert((match y.icon_url { Option::Some(v) => JsonV::Str(v@), Option::None => JsonV::Null }) =~~= (match x.icon_url { Option::Some(v) => JsonV::Str(v@), Option::None => JsonV::Null }));
        assert((match y.tile_url { Option::Some(v) => JsonV::Str(v@), Option::None => JsonV::Null }) =~~= (match x.tile_url { Option::Some(v) => JsonV::Str(v@), Option::None => JsonV::Null }));
        assert((match y.cover_url { Option::Some(v) => JsonV::Str(v@), Option::None => JsonV::Null }) =~~= (match x.cover_url { Option::Some(v) => JsonV::Str(v@), Option::None => JsonV::Null }));
        let oy = y.jv()->Obj_0;
        let ox = x.jv()->Obj_0;
        assert(oy[0] =~~= ox[0]);
        assert(oy[1] =~~= ox[1]);
        assert(oy[2] =~~= ox[2]);
        assert forall|n: int| 0 <= n < ox.len() implies oy[n] =~~= ox[n] by {
            if n == 0 {
                assert(oy[n] =~~= ox[n]);
            } else if n == 1 {
                assert(oy[n] =~~= ox[n]);
            } else if n == 2 {
                assert(oy[n] =~~= ox[n]);
            }
        }
        assert(oy =~~= ox);
        assert(y.jv() =~~= x.jv());
    }
}

/// A game on the catalogue.
#[derive(Debug, Clone)]
pub struct Game {
    pub id: i32,
    pub name: String,
    pub slug: String,
    pub date_modified: String,
    pub assets: GameAssets,
    pub status: CoreStatus,
    pub api_status: CoreApiStatus,
}

impl Game {
    /// The JSON document of this value, member for member.
    pub open spec fn jv(self) -> JsonV {
        JsonV::Obj(seq![
            ("id"@, JsonV::Int(self.id as int)),
            ("name"@, JsonV::Str(self.name@)),
            ("slug"@, JsonV::Str(self.slug@)),
            ("dateModified"@, JsonV::Str(self.date_modified@)),
            ("assets"@, self.assets.jv()),
            ("status"@, JsonV::Int(self.status.code())),
            ("apiStatus"@, JsonV::Int(self.api_status.code())),
        ])
    }

    /// What it means for a JSON document to decode to this value.
    pub open spec fn decodes_to(j: JsonV, x: Game) -> bool {
        &&& j matches JsonV::Obj(o)
        &&& crate::fields::jv_i32(o, "id"@) == Option::Some(x.id)
        &&& crate::fields::jv_str(o, "name"@) == Option::Some(x.name@)
        &&& crate::fields::jv_str(o, "slug"@) == Option::Some(x.slug@)
        &&& crate::fields::jv_str(o, "dateModified"@) == Option::Some(x.date_modified@)
        &&& crate::json::obj_get(o, "assets"@) matches Option::Some(jj) && GameAssets::decodes_to(jj, x.assets)
        &&& CoreStatus::from_member(o, "status"@) == Option::Some(x.status)
        &&& CoreApiStatus::from_member(o, "apiStatus"@) == Option::Some(x.api_status)
    }

    pub fn to_json(&self) -> (r: Json)
        ensures
            r@ == self.jv(),
    {
        let mut m = JsonMembers::Nil;
        m = crate::fields::cons_member("apiStatus", Json::Int(self.api_status.to_code()), m);
        m = crate::fields::cons_member("status", Json::Int(self.status.to_code()), m);
        m = crate::fields::cons_member("assets", self.assets.to_json(), m);
        m = crate::fields::cons_member("dateModified", Json::Str(self.date_modified.clone()), m);
        m = crate::fields::cons_member("slug", Json::Str(self.slug.clone()), m);
        m = crate::fields::cons_member("name", Json::Str(self.name.clone()), m);
        m = crate::fields::cons_member("id", Json::Int(self.id as i64), m);
        let ghost m_v = m@;
        let r = Json::Obj(Box::new(m));
        proof {
            assert(r matches Json::Obj(o2) && crate::json::members_view(*o2) == m_v);
            assert(r@ == JsonV::Obj(m_v));
            assert(m_v.len() == 7);
            assert(m_v[0] =~~= ("id"@, JsonV::Int(self.id as int)));
            assert(m_v[1] =~~= ("name"@, JsonV::Str(self.name@)));
            assert(m_v[2] =~~= ("slug"@, JsonV::Str(self.slug@)));
            assert(m_v[3] =~~= ("dateModified"@, JsonV::Str(self.date_modified@)));
            assert(m_v[4] =~~= ("assets"@, self.assets.jv()));
            assert(m_v[5] =~~= ("status"@, JsonV::Int(self.status.code())));
            assert(m_v[6] =~~= ("apiStatus"@, JsonV::Int(self.api_status.code())));
            assert(m_v =~~= self.jv()->Obj_0);
            assert(r@ =~~= self.jv());
        }
        r
    }

    pub fn from_json(j: &Json) -> (r: Option<Game>)
        ensures
            r matches Option::Some(x) ==> Game::decodes_to(j@, x),
            r is None ==> forall|x: Game| !Game::decodes_to(j@, x),
    {
        match j {
            Json::Obj(m) => {
            let id = match crate::fields::get_i32(m, "id") {
                Option::Some(v) => v,
                Option::None => {
                    return Option::None;
                },
            };
            let name = match crate::fields::get_str(m, "name") {
                Option::Some(v) => v,
                Option::None => {
                    return Option::None;
                },
            };
            let slug = match crate::fields::get_str(m, "slug") {
                Option::Some(v) => v,
                Option::None => {
                    return Option::None;
                },
            };
            let date_modified = match crate::fields::get_str(m, "dateModified") {
                Option::Some(v) => v,
                Option::None => {
                    return Option::None;
                },
            };
            let assets = match crate::json::members_get(m, "assets") {
                Option::Some(jj) => match GameAssets::from_json(jj) {
                    Option::Some(v) => v,
                    Option::None => {
                        return Option::None;
                    },
                },
                Option::None => {
                    return Option::None;
                },
            };
            let status = match CoreStatus::get_member(m, "status") {
                Option::Some(v) => v,
                Option::None => {
                    return Option::None;
                },
            };
            let api_status = match CoreApiStatus::get_member(m, "apiStatus") {
                Option::Some(v) => v,
                Option::None => {
                    return Option::None;
                },
            };
                Option::Some(Game {
                    id,
                    name,
                    slug,
                    date_modified,
                    assets,
                    status,
                    api_status,
                })
            },
            _ => Option::None,
        }
    }

    /// Builds the JSON array of a list of these values, from position `i` on.
    pub fn list_to_json(v: &Vec<Game>, i: usize) -> (r: JsonList)
        requires
            i <= v@.len(),
        ensures
            r@ == Seq::new((v@.len() - i as int) as nat, |k: int| v@[i + k].jv()),
        decreases v@.len() - i,
    {
        if i < v.len() {
            let rest = Game::list_to_json(v, i + 1);
            let ghost rest_v = rest@;
            let hd = v[i].to_json();
            let ghost hd_v = hd@;
            let r = JsonList::Cons(hd, Box::new(rest));
            proof {
                let target = Seq::new((v@.len() - i as int) as nat, |k: int| v@[i + k].jv());
                assert(r matches JsonList::Cons(h, t) && crate::json::json_view(h) == hd_v
                    && crate::json::list_view(*t) == rest_v);
                assert(crate::json::list_view(r) == seq![hd_v] + rest_v);
                assert forall|n: int| 0 <= n < target.len() implies crate::json::list_view(r)[n]
                    == target[n] by {
                    if n > 0 {
                        assert(crate::json::list_view(r)[n] == rest_v[n - 1]);
                        assert(rest_v[n - 1] == v@[i + 1 + (n - 1)].jv());
                    }
                }
                assert(r@ =~= target);
            }
            r
        } else {
            let r = JsonList::Nil;
            proof {
                assert(r@ =~= Seq::new((v@.len() - i as int) as nat, |k: int| v@[i + k].jv()));
            }
            r
        }
    }

    /// Decodes a JSON array of these values.
    pub fn list_from_json(l: &JsonList) -> (r: Option<Vec<Game>>)
        ensures
            match r {
                Option::Some(v) => v@.len() == l@.len() && (forall|n: int|
                    0 <= n < l@.len() ==> Game::decodes_to(#[trigger] l@[n], v@[n])),
                Option::None => Game::list_undecodable(l@),
            },
        decreases *l,
    {
        match l {
            JsonList::Nil => {
                let r: Vec<Game> = Vec::new();
                Option::Some(r)
            },
            JsonList::Cons(h, t) => {
                let t2: &JsonList = &*t;
                proof {
                    assert(l@[0] == h@);
                    assert(l@.drop_first() =~= t2@);
                }
                match Game::from_json(h) {
                    Option::Some(x) => match Game::list_from_json(t2) {
                        Option::Some(rest) => {
                            let ghost rest_v = rest@;
                            let mut out: Vec<Game> = Vec::new();
                            out.push(x);
                            let mut rest = rest;
                            out.append(&mut rest);
                            proof {
                                assert(out@ == seq![x] + rest_v);
                                assert forall|n: int| 0 <= n < l@.len() implies Game::decodes_to(
                                    #[trigger] l@[n], out@[n],
                                ) by {
                                    if n > 0 {
                                        assert(l@[n] == t2@[n - 1]);
                                        assert(out@[n] == rest_v[n - 1]);
                                    }
                                }
                            }
                            Option::Some(out)
                        },
                        Option::None => Option::None,
                    },
                    Option::None => Option::None,
                }
            },
        }
    }

    /// Whether some item of the array has no decoding.
    pub open spec fn list_undecodable(l: Seq<JsonV>) -> bool
        decreases l.len(),
    {
        l.len() > 0 && ((forall|x: Game| !(#[trigger] Game::decodes_to(l[0], x)))
            || Game::list_undecodable(l.drop_first()))
    }

    /// An array with an undecodable item decodes to no list of values.
    pub proof fn lemma_list_undecodable(l: Seq<JsonV>, v: Seq<Game>)
        requires
            Game::list_undecodable(l),
            l.len() == v.len(),
        ensures
            !(forall|n: int| 0 <= n < l.len() ==> Game::decodes_to(#[trigger] l[n], v[n])),
        decreases l.len(),
    {
        if forall|n: int| 0 <= n < l.len() ==> Game::decodes_to(#[trigger] l[n], v[n]) {
            assert(Game::decodes_to(l[0], v[0]));
            if forall|x: Game| !(#[trigger] Game::decodes_to(l[0], x)) {
                assert(!Game::decodes_to(l[0], v[0]));
            } else {
                assert(Game::list_undecodable(l.drop_first()));
                assert forall|n: int|
                    0 <= n < l.drop_first().len() implies Game::decodes_to(
                    #[trigger] l.drop_first()[n], v.drop_first()[n],
                ) by {
                    assert(l.drop_first()[n] == l[n + 1]);
                    assert(v.drop_first()[n] == v[n + 1]);
                }
                Game::lemma_list_undecodable(l.drop_first(), v.drop_first());
            }
        }
    }


    /// The JSON document of a value decodes back to it.
    pub proof fn lemma_decodes_self(x: Game)
        ensures
            Game::decodes_to(x.jv(), x),
    {
        let o = x.jv()->Obj_0;
        assert(crate::json::obj_get(o, "id"@) == Option::Some(JsonV::Int(x.id as int))) by {
            reveal_strlit("id");
            reveal_with_fuel(crate::json::obj_get, 8);
        }
        assert(crate::json::obj_get(o, "name"@) == Option::Some(JsonV::Str(x.name@))) by {
            reveal_strlit("id");
            reveal_strlit("name");
            assert("id"@.len() == 2);
            assert("name"@.len() == 4);
            assert("id"@ != "name"@);
            reveal_with_fuel(crate::json::obj_get, 8);
        }
        assert(crate::json::obj_get(o, "slug"@) == Option::Some(JsonV::Str(x.slug@))) by {
            reveal_strlit("id");
            reveal_strlit("name");
            reveal_strlit("slug");
            assert("id"@.len() == 2);
            assert("slug"@.len() == 4);
            assert("id"@ != "slug"@);
            assert("name"@[0] == 'n');
            assert("slug"@[0] == 's');
            assert("name"@ != "slug"@);
            reveal_with_fuel(crate::json::obj_get, 8);
        }
        assert(crate::json::obj_get(o, "dateModified"@) == Option::Some(JsonV::Str(x.date_modified@))) by {
            reveal_strlit("id");
            reveal_strlit("name");
            reveal_strlit("slug");
            reveal_strlit("dateModified");
            assert("id"@.len() == 2);
            assert("dateModified"@.len() == 12);
            assert("id"@ != "dateModified"@);
            assert("name"@.len() == 4);
            assert("dateModified"@.len() == 12);
            assert("name"@ != "dateModified"@);
            assert("slug"@.len() == 4);
            assert("dateModified"@.len() == 12);
            assert("slug"@ != "dateModified"@);
            reveal_with_fuel(crate::json::obj_get, 8);
        }
        assert(crate::json::obj_get(o, "assets"@) == Option::Some(x.assets.jv())) by {
            reveal_strlit("id");
            reveal_strlit("name");
            reveal_strlit("slug");
            reveal_strlit("dateModified");
            reveal_strlit("assets");
            assert("id"@.len() == 2);
            assert("assets"@.len() == 6);
            assert("id"@ != "assets"@);
            assert("name"@.len() == 4);
            assert("assets"@.len() == 6);
            assert("name"@ != "assets"@);
            assert("slug"@.len() == 4);
            assert("assets"@.len() == 6);
            assert("slug"@ != "assets"@);
            assert("dateModified"@.len() == 12);
            assert("assets"@.len() == 6);
            assert("dateModified"@ != "assets"@);
            reveal_with_fuel(crate::json::obj_get, 8);
        }
        assert(crate::json::obj_get(o, "status"@) == Option::Some(JsonV::Int(x.status.code()))) by {
            reveal_strlit("id");
            reveal_strlit("name");
            reveal_strlit("slug");
            reveal_strlit("dateModified");
            reveal_strlit("assets");
            reveal_strlit("status");
            assert("id"@.len() == 2);
            assert("status"@.len() == 6);
            assert("id"@ != "status"@);
            assert("name"@.len() == 4);
            assert("status"@.len() == 6);
            assert("name"@ != "status"@);
            assert("slug"@.len() == 4);
            assert("status"@.len() == 6);
            assert("slug"@ != "status"@);
            assert("dateModified"@.len() == 12);
            assert("status"@.len() == 6);
            assert("dateModified"@ != "status"@);
            assert("assets"@[0] == 'a');
            assert("status"@[0] == 's');
            assert("assets"@ != "status"@);
            reveal_with_fuel(crate::json::obj_get, 8);
        }
        assert(crate::json::obj_get(o, "apiStatus"@) == Option::Some(JsonV::Int(x.api_status.code()))) by {
            reveal_strlit("id");
            reveal_strlit("name");
            reveal_strlit("slug");
            reveal_strlit("dateModified");
            reveal_strlit("assets");
            reveal_strlit("status");
            reveal_strlit("apiStatus");
            assert("id"@.len() == 2);
            assert("apiStatus"@.len() == 9);
            assert("id"@ != "apiStatus"@);
            assert("name"@.len() == 4);
            assert("apiStatus"@.len() == 9);
            assert("name"@ != "apiStatus"@);
            assert("slug"@.len() == 4);
            assert("apiStatus"@.len() == 9);
            assert("slug"@ != "apiStatus"@);
            assert("dateModified"@.len() == 12);
            assert("apiStatus"@.len() == 9);
            assert("dateModified"@ != "apiStatus"@);
            assert("assets"@.len() == 6);
            assert("apiStatus"@.len() == 9);
            assert("assets"@ != "apiStatus"@);
            assert("status"@.len() == 6);
            assert("apiStatus"@.len() == 9);
            assert("status"@ != "apiStatus"@);
            reveal_with_fuel(crate::json::obj_get, 8);
        }
        GameAssets::lemma_decodes_self(x.assets);
        x.status.lemma_code_inverse(0);
        x.api_status.lemma_code_inverse(0);
    }

    /// Two values that one JSON document decodes to are equal, field for field.
    pub proof fn lemma_deterministic(j: JsonV, x: Game, y: Game)
        requires
            Game::decodes_to(j, x),
            Game::decodes_to(j, y),
        ensures
            y.id == x.id,
            y.name@ == x.name@,
            y.slug@ == x.slug@,
            y.date_modified@ == x.date_modified@,
            y.assets.jv() == x.assets.jv(),
            y.status == x.status,
            y.api_status == x.api_status,
            y.jv() == x.jv(),
    {
        let o = j->Obj_0;
        match crate::json::obj_get(o, "assets"@) {
            Option::Some(jj) => {
                GameAssets::lemma_deterministic(jj, x.assets, y.assets);
            },
            Option::None => {},
        }
        assert(JsonV::Int(y.id as int) =~~= JsonV::Int(x.id as int));
        assert(JsonV::Str(y.name@) =~~= JsonV::Str(x.name@));
        assert(JsonV::Str(y.slug@) =~~= JsonV::Str(x.slug@));
        assert(JsonV::Str(y.date_modified@) =~~= JsonV::Str(x.date_modified@));
        assert(y.assets.jv() =~~= x.assets.jv());
        assert(JsonV::Int(y.status.code()) =~~= JsonV::Int(x.status.code()));
        assert(JsonV::Int(y.api_status.code()) =~~= JsonV::Int(x.api_status.code()));
        let oy = y.jv()->Obj_0;
        let ox = x.jv()->Obj_0;
        assert(oy[0] =~~= ox[0]);
        assert(oy[1] =~~= ox[1]);
        assert(oy[2] =~~= ox[2]);
        assert(oy[3] =~~= ox[3]);
        assert(oy[4] =~~= ox[4]);
        assert(oy[5] =~~= ox[5]);
        assert(oy[6] =~~= ox[6]);
        assert forall|n: int| 0 <= n < ox.len() implies oy[n] =~~= ox[n] by {
            if n == 0 {
                assert(oy[n] =~~= ox[n]);
            } else if n == 1 {
                assert(oy[n] =~~= ox[n]);
            } else if n == 2 {
                assert(oy[n] =~~= ox[n]);
            } else if n == 3 {
                assert(oy[n] =~~= ox[n]);
            } else if n == 4 {
                assert(oy[n] =~~= ox[n]);
            } else if n == 5 {
                assert(oy[n] =~~= ox[n]);
            } else if n == 6 {
                assert(oy[n] =~~= ox[n]);
            }
        }
        assert(oy =~~= ox);
        assert(y.jv() =~~= x.jv());
    }
}

/// One version of a game.
#[derive(Debug, Clone)]
pub struct GameVersion {
    pub id: i32,
    pub slug: String,
    pub name: String,
}

impl GameVersion {
    /// The JSON document of this value, member for member.
    pub open spec fn jv(self) -> JsonV {
        JsonV::Obj(seq![
            ("id"@, JsonV::Int(self.id as int)),
            ("slug"@, JsonV::Str(self.slug@)),
            ("name"@, JsonV::Str(self.name@)),
        ])
    }

    /// What it means for a JSON document to decode to this value.
    pub open spec fn decodes_to(j: JsonV, x: GameVersion) -> bool {
        &&& j matches JsonV::Obj(o)
        &&& crate::fields::jv_i32(o, "id"@) == Option::Some(x.id)
        &&& crate::fields::jv_str(o, "slug"@) == Option::Some(x.slug@)
        &&& crate::fields::jv_str(o, "name"@) == Option::Some(x.name@)
    }

    pub fn to_json(&self) -> (r: Json)
        ensures
            r@ == self.jv(),
    {
        let mut m = JsonMembers::Nil;
        m = crate::fields::cons_member("name", Json::Str(self.name.clone()), m);
        m = crate::fields::cons_member("slug", Json::Str(self.slug.clone()), m);
        m = crate::fields::cons_member("id", Json::Int(self.id as i64), m);
        let ghost m_v = m@;
        let r = Json::Obj(Box::new(m));
        proof {
            assert(r matches Json::Obj(o2) && crate::json::members_view(*o2) == m_v);
            assert(r@ == JsonV::Obj(m_v));
            assert(m_v.len() == 3);
            assert(m_v[0] =~~= ("id"@, JsonV::Int(self.id as int)));
            assert(m_v[1] =~~= ("slug"@, JsonV::Str(self.slug@)));
            assert(m_v[2] =~~= ("name"@, JsonV::Str(self.name@)));
            assert(m_v =~~= self.jv()->Obj_0);
            assert(r@ =~~= self.jv());
        }
        r
    }

    pub fn from_json(j: &Json) -> (r: Option<GameVersion>)
        ensures
            r matches Option::Some(x) ==> GameVersion::decodes_to(j@, x),
            r is None ==> forall|x: GameVersion| !GameVersion::decodes_to(j@, x),
    {
        match j {
            Json::Obj(m) => {
            let id = match crate::fields::get_i32(m, "id") {
                Option::Some(v) => v,
                Option::None => {
                    return Option::None;
                },
            };
            let slug = match crate::fields::get_str(m, "slug") {
                Option::Some(v) => v,
                Option::None => {
                    return Option::None;
                },
            };
            let name = match crate::fields::get_str(m, "name") {
                Option::Some(v) => v,
                Option::None => {
                    return Option::None;
                },
            };
                Option::Some(GameVersion {
                    id,
                    slug,
                    name,
                })
            },
            _ => Option::None,
        }
    }

    /// Builds the JSON array of a list of these values, from position `i` on.
    pub fn list_to_json(v: &Vec<GameVersion>, i: usize) -> (r: JsonList)
        requires
            i <= v@.len(),
        ensures
            r@ == Seq::new((v@.len() - i as int) as nat, |k: int| v@[i + k].jv()),
        decreases v@.len() - i,
    {
        if i < v.len() {
            let rest = GameVersion::list_to_json(v, i + 1);
            let ghost rest_v = rest@;
            let hd = v[i].to_json();
            let ghost hd_v = hd@;
            let r = JsonList::Cons(hd, Box::new(rest));
            proof {
                let target = Seq::new((v@.len() - i as int) as nat, |k: int| v@[i + k].jv());
                assert(r matches JsonList::Cons(h, t) && crate::json::json_view(h) == hd_v
                    && crate::json::list_view(*t) == rest_v);
                assert(crate::json::list_view(r) == seq![hd_v] + rest_v);
                assert forall|n: int| 0 <= n < target.len() implies crate::json::list_view(r)[n]
                    == target[n] by {
                    if n > 0 {
                        assert(crate::json::list_view(r)[n] == rest_v[n - 1]);
                        assert(rest_v[n - 1] == v@[i + 1 + (n - 1)].jv());
                    }
                }
                assert(r@ =~= target);
            }
            r
        } else {
            let r = JsonList::Nil;
            proof {
                assert(r@ =~= Seq::new((v@.len() - i as int) as nat, |k: int| v@[i + k].jv()));
            }
            r
        }
    }

    /// Decodes a JSON array of these values.
    pub fn list_from_json(l: &JsonList) -> (r: Option<Vec<GameVersion>>)
        ensures
            match r {
                Option::Some(v) => v@.len() == l@.len() && (forall|n: int|
                    0 <= n < l@.len() ==> GameVersion::decodes_to(#[trigger] l@[n], v@[n])),
                Option::None => GameVersion::list_undecodable(l@),
            },
        decreases *l,
    {
        match l {
            JsonList::Nil => {
                let r: Vec<GameVersion> = Vec::new();
                Option::Some(r)
            },
            JsonList::Cons(h, t) => {
                let t2: &JsonList = &*t;
                proof {
                    assert(l@[0] == h@);
                    assert(l@.drop_first() =~= t2@);
                }
                match GameVersion::from_json(h) {
                    Option::Some(x) => match GameVersion::list_from_json(t2) {
                        Option::Some(rest) => {
                            let ghost rest_v = rest@;
                            let mut out: Vec<GameVersion> = Vec::new();
                            out.push(x);
                            let mut rest = rest;
                            out.append(&mut rest);
                            proof {
                                assert(out@ == seq![x] + rest_v);
                                assert forall|n: int| 0 <= n < l@.len() implies GameVersion::decodes_to(
                                    #[trigger] l@[n], out@[n],
                                ) by {
                                    if n > 0 {
                                        assert(l@[n] == t2@[n - 1]);
                                        assert(out@[n] == rest_v[n - 1]);
                                    }
                                }
                            }
                            Option::Some(out)
                        },
                        Option::None => Option::None,
                    },
                    Option::None => Option::None,
                }
            },
        }
    }

    /// Whether some item of the array has no decoding.
    pub open spec fn list_undecodable(l: Seq<JsonV>) -> bool
        decreases l.len(),
    {
        l.len() > 0 && ((forall|x: GameVersion| !(#[trigger] GameVersion::decodes_to(l[0], x)))
            || GameVersion::list_undecodable(l.drop_first()))
    }

    /// An array with an undecodable item decodes to no list of values.
    pub proof fn lemma_list_undecodable(l: Seq<JsonV>, v: Seq<GameVersion>)
        requires
            GameVersion::list_undecodable(l),
            l.len() == v.len(),
        ensures
            !(forall|n: int| 0 <= n < l.len() ==> GameVersion::decodes_to(#[trigger] l[n], v[n])),
        decreases l.len(),
    {
        if forall|n: int| 0 <= n < l.len() ==> GameVersion::decodes_to(#[trigger] l[n], v[n]) {
            assert(GameVersion::decodes_to(l[0], v[0]));
            if forall|x: GameVersion| !(#[trigger] GameVersion::decodes_to(l[0], x)) {
                assert(!GameVersion::decodes_to(l[0], v[0]));
            } else {
                assert(GameVersion::list_undecodable(l.drop_first()));
                assert forall|n: int|
                    0 <= n < l.drop_first().len() implies GameVersion::decodes_to(
                    #[trigger] l.drop_first()[n], v.drop_first()[n],
                ) by {
                    assert(l.drop_first()[n] == l[n + 1]);
                    assert(v.drop_first()[n] == v[n + 1]);
                }
                GameVersion::lemma_list_undecodable(l.drop_first(), v.drop_first());
            }
        }
    }


    /// The JSON document of a value decodes back to it.
    pub proof fn lemma_decodes_self(x: GameVersion)
        ensures
            GameVersion::decodes_to(x.jv(), x),
    {
        let o = x.jv()->Obj_0;
        assert(crate::json::obj_get(o, "id"@) == Option::Some(JsonV::Int(x.id as int))) by {
            reveal_strlit("id");
            reveal_with_fuel(crate::json::obj_get, 4);
        }
        assert(crate::json::obj_get(o, "slug"@) == Option::Some(JsonV::Str(x.slug@))) by {
            reveal_strlit("id");
            reveal_strlit("slug");
            assert("id"@.len() == 2);
            assert("slug"@.len() == 4);
            assert("id"@ != "slug"@);
            reveal_with_fuel(crate::json::obj_get, 4);
        }
        assert(crate::json::obj_get(o, "name"@) == Option::Some(JsonV::Str(x.name@))) by {
            reveal_strlit("id");
            reveal_strlit("slug");
            reveal_strlit("name");
            assert("id"@.len() == 2);
            assert("name"@.len() == 4);
            assert("id"@ != "name"@);
            assert("slug"@[0] == 's');
            assert("name"@[0] == 'n');
            assert("slug"@ != "name"@);
            reveal_with_fuel(crate::json::obj_get, 4);
        }
    }

    /// Two values that one JSON document decodes to are equal, field for field.
    pub proof fn lemma_deterministic(j: JsonV, x: GameVersion, y: GameVersion)
        requires
            GameVersion::decodes_to(j, x),
            GameVersion::decodes_to(j, y),
        ensures
            y.id == x.id,
            y.slug@ == x.slug@,
            y.name@ == x.name@,
            y.jv() == x.jv(),
    {
        let o = j->Obj_0;
        assert(JsonV::Int(y.id as int) =~~= JsonV::Int(x.id as int));
        assert(JsonV::Str(y.slug@) =~~= JsonV::Str(x.slug@));
        assert(JsonV::Str(y.name@) =~~= JsonV::Str(x.name@));
        let oy = y.jv()->Obj_0;
        let ox = x.jv()->Obj_0;
        assert(oy[0] =~~= ox[0]);
        assert(oy[1] =~~= ox[1]);
        assert(oy[2] =~~= ox[2]);
        assert forall|n: int| 0 <= n < ox.len() implies oy[n] =~~= ox[n] by {
            if n == 0 {
                assert(oy[n] =~~= ox[n]);
            } else if n == 1 {
                assert(oy[n] =~~= ox[n]);
            } else if n == 2 {
                assert(oy[n] =~~= ox[n]);
            }
        }
        assert(oy =~~= ox);
        assert(y.jv() =~~= x.jv());
    }
}

/// The versions under one version type, as bare strings.
#[derive(Debug, Clone)]
pub struct GameVersionsByTypeV1 {
    pub version_type: i32,
    pub versions: Vec<String>,
}

impl GameVersionsByTypeV1 {
    /// The JSON document of this value, member for member.
    pub open spec fn jv(self) -> JsonV {
        JsonV::Obj(seq![
            ("type"@, JsonV::Int(self.version_type as int)),
            ("versions"@, JsonV::Arr(Seq::new(self.versions@.len(), |k: int| JsonV::Str(self.versions@[k]@)))),
        ])
    }

    /// What it means for a JSON document to decode to this value.
    pub open spec fn decodes_to(j: JsonV, x: GameVersionsByTypeV1) -> bool {
        &&& j matches JsonV::Obj(o)
        &&& crate::fields::jv_i32(o, "type"@) == Option::Some(x.version_type)
        &&& crate::json::obj_get(o, "versions"@) matches Option::Some(JsonV::Arr(items))
            && crate::fields::str_items(items) == Option::Some(x.versions.deep_view())
    }

    pub fn to_json(&self) -> (r: Json)
        ensures
            r@ == self.jv(),
    {
        let mut m = JsonMembers::Nil;
        let l_versions = crate::fields::strs_to_list(&self.versions, 0);
        let ghost lv_versions = l_versions@;
        let e_versions = Json::Arr(Box::new(l_versions));
        proof {
            assert(e_versions matches Json::Arr(lb) && crate::json::list_view(*lb) == lv_versions);
            assert(lv_versions =~= Seq::new(self.versions@.len(), |k: int| JsonV::Str(self.versions@[k]@)));
            assert(e_versions@ =~~= JsonV::Arr(Seq::new(self.versions@.len(), |k: int| JsonV::Str(self.versions@[k]@))));
        }
        m = crate::fields::cons_member("versions", e_versions, m);
        m = crate::fields::cons_member("type", Json::Int(self.version_type as i64), m);
        let ghost m_v = m@;
        let r = Json::Obj(Box::new(m));
        proof {
            assert(r matches Json::Obj(o2) && crate::json::members_view(*o2) == m_v);
            assert(r@ == JsonV::Obj(m_v));
            assert(m_v.len() == 2);
            assert(m_v[0] =~~= ("type"@, JsonV::Int(self.version_type as int)));
            assert(m_v[1] =~~= ("versions"@, JsonV::Arr(Seq::new(self.versions@.len(), |k: int| JsonV::Str(self.versions@[k]@)))));
            assert(m_v =~~= self.jv()->Obj_0);
            assert(r@ =~~= self.jv());
        }
        r
    }

    pub fn from_json(j: &Json) -> (r: Option<GameVersionsByTypeV1>)
        ensures
            r matches Option::Some(x) ==> GameVersionsByTypeV1::decodes_to(j@, x),
            r is None ==> forall|x: GameVersionsByTypeV1| !GameVersionsByTypeV1::decodes_to(j@, x),
    {
        match j {
            Json::Obj(m) => {
            let version_type = match crate::fields::get_i32(m, "type") {
                Option::Some(v) => v,
                Option::None => {
                    return Option::None;
                },
            };
            let versions = match crate::fields::get_arr(m, "versions") {
                Option::Some(l) => match crate::fields::list_strs(l) {
                    Option::Some(v) => v,
                    Option::None => {
                        return Option::None;
                    },
                },
                Option::None => {
                    return Option::None;
                },
            };
                Option::Some(GameVersionsByTypeV1 {
                    version_type,
                    versions,
                })
            },
            _ => Option::None,
        }
    }

    /// Builds the JSON array of a list of these values, from position `i` on.
    pub fn list_to_json(v: &Vec<GameVersionsByTypeV1>, i: usize) -> (r: JsonList)
        requires
            i <= v@.len(),
        ensures
            r@ == Seq::new((v@.len() - i as int) as nat, |k: int| v@[i + k].jv()),
        decreases v@.len() - i,
    {
        if i < v.len() {
            let rest = GameVersionsByTypeV1::list_to_json(v, i + 1);
            let ghost rest_v = rest@;
            let hd = v[i].to_json();
            let ghost hd_v = hd@;
            let r = JsonList::Cons(hd, Box::new(rest));
            proof {
                let target = Seq::new((v@.len() - i as int) as nat, |k: int| v@[i + k].jv());
                assert(r matches JsonList::Cons(h, t) && crate::json::json_view(h) == hd_v
                    && crate::json::list_view(*t) == rest_v);
                assert(crate::json::list_view(r) == seq![hd_v] + rest_v);
                assert forall|n: int| 0 <= n < target.len() implies crate::json::list_view(r)[n]
                    == target[n] by {
                    if n > 0 {
                        assert(crate::json::list_view(r)[n] == rest_v[n - 1]);
                        assert(rest_v[n - 1] == v@[i + 1 + (n - 1)].jv());
                    }
                }
                assert(r@ =~= target);
            }
            r
        } else {
            let r = JsonList::Nil;
            proof {
                assert(r@ =~= Seq::new((v@.len() - i as int) as nat, |k: int| v@[i + k].jv()));
            }
            r
        }
    }

    /// Decodes a JSON array of these values.
    pub fn list_from_json(l: &JsonList) -> (r: Option<Vec<GameVersionsByTypeV1>>)
        ensures
            match r {
                Option::Some(v) => v@.len() == l@.len() && (forall|n: int|
                    0 <= n < l@.len() ==> GameVersionsByTypeV1::decodes_to(#[trigger] l@[n], v@[n])),
                Option::None => GameVersionsByTypeV1::list_undecodable(l@),
            },
        decreases *l,
    {
        match l {
            JsonList::Nil => {
                let r: Vec<GameVersionsByTypeV1> = Vec::new();
                Option::Some(r)
            },
            JsonList::Cons(h, t) => {
                let t2: &JsonList = &*t;
                proof {
                    assert(l@[0] == h@);
                    assert(l@.drop_first() =~= t2@);
                }
                match GameVersionsByTypeV1::from_json(h) {
                    Option::Some(x) => match GameVersionsByTypeV1::list_from_json(t2) {
                        Option::Some(rest) => {
                            let ghost rest_v = rest@;
                            let mut out: Vec<GameVersionsByTypeV1> = Vec::new();
                            out.push(x);
                            let mut rest = rest;
                            out.append(&mut rest);
                            proof {
                                assert(out@ == seq![x] + rest_v);
                                assert forall|n: int| 0 <= n < l@.len() implies GameVersionsByTypeV1::decodes_to(
                                    #[trigger] l@[n], out@[n],
                                ) by {
                                    if n > 0 {
                                        assert(l@[n] == t2@[n - 1]);
                                        assert(out@[n] == rest_v[n - 1]);
                                    }
                                }
                            }
                            Option::Some(out)
                        },
                        Option::None => Option::None,
                    },
                    Option::None => Option::None,
                }
            },
        }
    }

    /// Whether some item of the array has no decoding.
    pub open spec fn list_undecodable(l: Seq<JsonV>) -> bool
        decreases l.len(),
    {
        l.len() > 0 && ((forall|x: GameVersionsByTypeV1| !(#[trigger] GameVersionsByTypeV1::decodes_to(l[0], x)))
            || GameVersionsByTypeV1::list_undecodable(l.drop_first()))
    }

    /// An array with an undecodable item decodes to no list of values.
    pub proof fn lemma_list_undecodable(l: Seq<JsonV>, v: Seq<GameVersionsByTypeV1>)
        requires
            GameVersionsByTypeV1::list_undecodable(l),
            l.len() == v.len(),
        ensures
            !(forall|n: int| 0 <= n < l.len() ==> GameVersionsByTypeV1::decodes_to(#[trigger] l[n], v[n])),
        decreases l.len(),
    {
        if forall|n: int| 0 <= n < l.len() ==> GameVersionsByTypeV1::decodes_to(#[trigger] l[n], v[n]) {
            assert(GameVersionsByTypeV1::decodes_to(l[0], v[0]));
            if forall|x: GameVersionsByTypeV1| !(#[trigger] GameVersionsByTypeV1::decodes_to(l[0], x)) {
                assert(!GameVersionsByTypeV1::decodes_to(l[0], v[0]));
            } else {
                assert(GameVersionsByTypeV1::list_undecodable(l.drop_first()));
                assert forall|n: int|
                    0 <= n < l.drop_first().len() implies GameVersionsByTypeV1::decodes_to(
                    #[trigger] l.drop_first()[n], v.drop_first()[n],
                ) by {
                    assert(l.drop_first()[n] == l[n + 1]);
                    assert(v.drop_first()[n] == v[n + 1]);
                }
                GameVersionsByTypeV1::lemma_list_undecodable(l.drop_first(), v.drop_first());
            }
        }
    }


    /// The JSON document of a value decodes back to it.
    pub proof fn lemma_decodes_self(x: GameVersionsByTypeV1)
        ensures
            GameVersionsByTypeV1::decodes_to(x.jv(), x),
    {
        let o = x.jv()->Obj_0;
        assert(crate::json::obj_get(o, "type"@) == Option::Some(JsonV::Int(x.version_type as int))) by {
            reveal_strlit("type");
            reveal_with_fuel(crate::json::obj_get, 3);
        }
        assert(crate::json::obj_get(o, "versions"@) == Option::Some(JsonV::Arr(Seq::new(x.versions@.len(), |k: int| JsonV::Str(x.versions@[k]@))))) by {
            reveal_strlit("type");
            reveal_strlit("versions");
            assert("type"@.len() == 4);
            assert("versions"@.len() == 8);
            assert("type"@ != "versions"@);
            reveal_with_fuel(crate::json::obj_get, 3);
        }
        crate::fields::lemma_str_items(Seq::new(x.versions@.len(), |k: int| JsonV::Str(x.versions@[k]@)), x.versions.deep_view());
    }

    /// Two values that one JSON document decodes to are equal, field for field.
    pub proof fn lemma_deterministic(j: JsonV, x: GameVersionsByTypeV1, y: GameVersionsByTypeV1)
        requires
            GameVersionsByTypeV1::decodes_to(j, x),
            GameVersionsByTypeV1::decodes_to(j, y),
        ensures
            y.version_type == x.version_type,
            y.versions.deep_view() == x.versions.deep_view(),
            y.jv() == x.jv(),
    {
        let o = j->Obj_0;
        match crate::json::obj_get(o, "versions"@) {
            Option::Some(JsonV::Arr(items)) => {
                assert(crate::fields::str_items(items) == Option::Some(x.versions.deep_view()));
                assert(crate::fields::str_items(items) == Option::Some(y.versions.deep_view()));
                assert(x.versions.deep_view() == y.versions.deep_view());
            },
            _ => {
                assert(false);
            },
        }
        assert(JsonV::Int(y.version_type as int) =~~= JsonV::Int(x.version_type as int));
        assert forall|q: int| 0 <= q < y.versions@.len() implies (#[trigger] y.versions@[q])@
            == x.versions@[q]@ by {
            assert(y.versions.deep_view().len() == y.versions@.len());
            assert(x.versions.deep_view().len() == x.versions@.len());
            assert(y.versions.deep_view()[q] == y.versions@[q].deep_view());
            assert(x.versions.deep_view()[q] == x.versions@[q].deep_view());
            assert(y.versions@[q].deep_view() == y.versions@[q]@);
            assert(x.versions@[q].deep_view() == x.versions@[q]@);
            assert(y.versions.deep_view()[q] == x.versions.deep_view()[q]);
        }
        assert(y.versions.deep_view().len() == y.versions@.len());
        assert(x.versions.deep_view().len() == x.versions@.len());
        assert(y.versions@.len() == x.versions@.len());
        assert(Seq::new(y.versions@.len(), |k: int| JsonV::Str(y.versions@[k]@)) =~= Seq::new(
            x.versions@.len(), |k: int| JsonV::Str(x.versions@[k]@)));
        let oy = y.jv()->Obj_0;
        let ox = x.jv()->Obj_0;
        assert(oy[0] =~~= ox[0]);
        assert(oy[1] =~~= ox[1]);
        assert forall|n: int| 0 <= n < ox.len() implies oy[n] =~~= ox[n] by {
            if n == 0 {
                assert(oy[n] =~~= ox[n]);
            } else if n == 1 {
                assert(oy[n] =~~= ox[n]);
            }
        }
        assert(oy =~~= ox);
        assert(y.jv() =~~= x.jv());
    }
}

/// The versions under one version type, as full records.
#[derive(Debug, Clone)]
pub struct GameVersionsByType {
    pub version_type: i32,
    pub versions: Vec<GameVersion>,
}

impl GameVersionsByType {
    /// The JSON document of this value, member for member.
    pub open spec fn jv(self) -> JsonV {
        JsonV::Obj(seq![
            ("type"@, JsonV::Int(self.version_type as int)),
            ("versions"@, JsonV::Arr(Seq::new(self.versions@.len(), |k: int| self.versions@[k].jv()))),
        ])
    }

    /// What it means for a JSON document to decode to this value.
    pub open spec fn decodes_to(j: JsonV, x: GameVersionsByType) -> bool {
        &&& j matches JsonV::Obj(o)
        &&& crate::fields::jv_i32(o, "type"@) == Option::Some(x.version_type)
        &&& crate::json::obj_get(o, "versions"@) matches Option::Some(JsonV::Arr(items)) && items.len() == x.versions@.len()
            && (forall|n: int| 0 <= n < items.len() ==> GameVersion::decodes_to(#[trigger] items[n], x.versions@[n]))
    }

    pub fn to_json(&self) -> (r: Json)
        ensures
            r@ == self.jv(),
    {
        let mut m = JsonMembers::Nil;
        let l_versions = GameVersion::list_to_json(&self.versions, 0);
        let ghost lv_versions = l_versions@;
        let e_versions = Json::Arr(Box::new(l_versions));
        proof {
            assert(e_versions matches Json::Arr(lb) && crate::json::list_view(*lb) == lv_versions);
            assert(lv_versions =~= Seq::new(self.versions@.len(), |k: int| self.versions@[k].jv()));
            assert(e_versions@ =~~= JsonV::Arr(Seq::new(self.versions@.len(), |k: int| self.versions@[k].jv())));
        }
        m = crate::fields::cons_member("versions", e_versions, m);
        m = crate::fields::cons_member("type", Json::Int(self.version_type as i64), m);
        let ghost m_v = m@;
        let r = Json::Obj(Box::new(m));
        proof {
            assert(r matches Json::Obj(o2) && crate::json::members_view(*o2) == m_v);
            assert(r@ == JsonV::Obj(m_v));
            assert(m_v.len() == 2);
            assert(m_v[0] =~~= ("type"@, JsonV::Int(self.version_type as int)));
            assert(m_v[1] =~~= ("versions"@, JsonV::Arr(Seq::new(self.versions@.len(), |k: int| self.versions@[k].jv()))));
            assert(m_v =~~= self.jv()->Obj_0);
            assert(r@ =~~= self.jv());
        }
        r
    }

    pub fn from_json(j: &Json) -> (r: Option<GameVersionsByType>)
        ensures
            r matches Option::Some(x) ==> GameVersionsByType::decodes_to(j@, x),
            r is None ==> forall|x: GameVersionsByType| !GameVersionsByType::decodes_to(j@, x),
    {
        match j {
            Json::Obj(m) => {
            let version_type = match crate::fields::get_i32(m, "type") {
                Option::Some(v) => v,
                Option::None => {
                    return Option::None;
                },
            };
            let versions = match crate::fields::get_arr(m, "versions") {
                Option::Some(l) => match GameVersion::list_from_json(l) {
                    Option::Some(v) => v,
                    Option::None => {
                        proof {
                            assert forall|x: GameVersionsByType| !GameVersionsByType::decodes_to(j@, x) by {
                                if GameVersionsByType::decodes_to(j@, x) {
                                    GameVersion::lemma_list_undecodable(l@, x.versions@);
                                }
                            }
                        }
                        return Option::None;
                    },
                },
                Option::None => {
                    return Option::None;
                },
            };
                Option::Some(GameVersionsByType {
                    version_type,
                    versions,
                })
            },
            _ => Option::None,
        }
    }

    /// Builds the JSON array of a list of these values, from position `i` on.
    pub fn list_to_json(v: &Vec<GameVersionsByType>, i: usize) -> (r: JsonList)
        requires
            i <= v@.len(),
        ensures
            r@ == Seq::new((v@.len() - i as int) as nat, |k: int| v@[i + k].jv()),
        decreases v@.len() - i,
    {
        if i < v.len() {
            let rest = GameVersionsByType::list_to_json(v, i + 1);
            let ghost rest_v = rest@;
            let hd = v[i].to_json();
            let ghost hd_v = hd@;
            let r = JsonList::Cons(hd, Box::new(rest));
            proof {
                let target = Seq::new((v@.len() - i as int) as nat, |k: int| v@[i + k].jv());
                assert(r matches JsonList::Cons(h, t) && crate::json::json_view(h) == hd_v
                    && crate::json::list_view(*t) == rest_v);
                assert(crate::json::list_view(r) == seq![hd_v] + rest_v);
                assert forall|n: int| 0 <= n < target.len() implies crate::json::list_view(r)[n]
                    == target[n] by {
                    if n > 0 {
                        assert(crate::json::list_view(r)[n] == rest_v[n - 1]);
                        assert(rest_v[n - 1] == v@[i + 1 + (n - 1)].jv());
                    }
                }
                assert(r@ =~= target);
            }
            r
        } else {
            let r = JsonList::Nil;
            proof {
                assert(r@ =~= Seq::new((v@.len() - i as int) as nat, |k: int| v@[i + k].jv()));
            }
            r
        }
    }

    /// Decodes a JSON array of these values.
    pub fn list_from_json(l: &JsonList) -> (r: Option<Vec<GameVersionsByType>>)
        ensures
            match r {
                Option::Some(v) => v@.len() == l@.len() && (forall|n: int|
                    0 <= n < l@.len() ==> GameVersionsByType::decodes_to(#[trigger] l@[n], v@[n])),
                Option::None => GameVersionsByType::list_undecodable(l@),
            },
        decreases *l,
    {
        match l {
            JsonList::Nil => {
                let r: Vec<GameVersionsByType> = Vec::new();
                Option::Some(r)
            },
            JsonList::Cons(h, t) => {
                let t2: &JsonList = &*t;
                proof {
                    assert(l@[0] == h@);
                    assert(l@.drop_first() =~= t2@);
                }
                match GameVersionsByType::from_json(h) {
                    Option::Some(x) => match GameVersionsByType::list_from_json(t2) {
                        Option::Some(rest) => {
                            let ghost rest_v = rest@;
                            let mut out: Vec<GameVersionsByType> = Vec::new();
                            out.push(x);
                            let mut rest = rest;
                            out.append(&mut rest);
                            proof {
                                assert(out@ == seq![x] + rest_v);
                                assert forall|n: int| 0 <= n < l@.len() implies GameVersionsByType::decodes_to(
                                    #[trigger] l@[n], out@[n],
                                ) by {
                                    if n > 0 {
                                        assert(l@[n] == t2@[n - 1]);
                                        assert(out@[n] == rest_v[n - 1]);
                                    }
                                }
                            }
                            Option::Some(out)
                        },
                        Option::None => Option::None,
                    },
                    Option::None => Option::None,
                }
            },
        }
    }

    /// Whether some item of the array has no decoding.
    pub open spec fn list_undecodable(l: Seq<JsonV>) -> bool
        decreases l.len(),
    {
        l.len() > 0 && ((forall|x: GameVersionsByType| !(#[trigger] GameVersionsByType::decodes_to(l[0], x)))
            || GameVersionsByType::list_undecodable(l.drop_first()))
    }

    /// An array with an undecodable item decodes to no list of values.
    pub proof fn lemma_list_undecodable(l: Seq<JsonV>, v: Seq<GameVersionsByType>)
        requires
            GameVersionsByType::list_undecodable(l),
            l.len() == v.len(),
        ensures
            !(forall|n: int| 0 <= n < l.len() ==> GameVersionsByType::decodes_to(#[trigger] l[n], v[n])),
        decreases l.len(),
    {
        if forall|n: int| 0 <= n < l.len() ==> GameVersionsByType::decodes_to(#[trigger] l[n], v[n]) {
            assert(GameVersionsByType::decodes_to(l[0], v[0]));
            if forall|x: GameVersionsByType| !(#[trigger] GameVersionsByType::decodes_to(l[0], x)) {
                assert(!GameVersionsByType::decodes_to(l[0], v[0]));
            } else {
                assert(GameVersionsByType::list_undecodable(l.drop_first()));
                assert forall|n: int|
                    0 <= n < l.drop_first().len() implies GameVersionsByType::decodes_to(
                    #[trigger] l.drop_first()[n], v.drop_first()[n],
                ) by {
                    assert(l.drop_first()[n] == l[n + 1]);
                    assert(v.drop_first()[n] == v[n + 1]);
                }
                GameVersionsByType::lemma_list_undecodable(l.drop_first(), v.drop_first());
            }
        }
    }


    /// The JSON document of a value decodes back to it.
    pub proof fn lemma_decodes_self(x: GameVersionsByType)
        ensures
            GameVersionsByType::decodes_to(x.jv(), x),
    {
        let o = x.jv()->Obj_0;
        assert(crate::json::obj_get(o, "type"@) == Option::Some(JsonV::Int(x.version_type as int))) by {
            reveal_strlit("type");
            reveal_with_fuel(crate::json::obj_get, 3);
        }
        assert(crate::json::obj_get(o, "versions"@) == Option::Some(JsonV::Arr(Seq::new(x.versions@.len(), |k: int| x.versions@[k].jv())))) by {
            reveal_strlit("type");
            reveal_strlit("versions");
            assert("type"@.len() == 4);
            assert("versions"@.len() == 8);
            assert("type"@ != "versions"@);
            reveal_with_fuel(crate::json::obj_get, 3);
        }
        assert forall|n: int| 0 <= n < x.versions@.len() implies GameVersion::decodes_to(
            (#[trigger] x.versions@[n]).jv(), x.versions@[n],
        ) by {
            GameVersion::lemma_decodes_self(x.versions@[n]);
        }
        assert(forall|n: int| 0 <= n < x.versions@.len() ==> Seq::new(x.versions@.len(),
            |k: int| x.versions@[k].jv())[n] == (#[trigger] x.versions@[n]).jv());
    }

    /// Two values that one JSON document decodes to are equal, field for field.
    pub proof fn lemma_deterministic(j: JsonV, x: GameVersionsByType, y: GameVersionsByType)
        requires
            GameVersionsByType::decodes_to(j, x),
            GameVersionsByType::decodes_to(j, y),
        ensures
            y.version_type == x.version_type,
            y.versions@.len() == x.versions@.len() && (forall|n: int| 0 <= n < x.versions@.len() ==> (#[trigger] y.versions@[n]).jv() == x.versions@[n].jv()),
            y.jv() == x.jv(),
    {
        let o = j->Obj_0;
        match crate::json::obj_get(o, "versions"@) {
            Option::Some(JsonV::Arr(items)) => {
                assert forall|n: int| 0 <= n < x.versions@.len() implies (#[trigger] y.versions@[n]).jv()
                    == x.versions@[n].jv() by {
                    assert(GameVersion::decodes_to(items[n], x.versions@[n]));
                    assert(GameVersion::decodes_to(items[n], y.versions@[n]));
                    GameVersion::lemma_deterministic(items[n], x.versions@[n], y.versions@[n]);
                }
            },
            _ => {
                assert(false);
            },
        }
        assert(JsonV::Int(y.version_type as int) =~~= JsonV::Int(x.version_type as int));
        assert(Seq::new(y.versions@.len(), |k: int| y.versions@[k].jv()) =~= Seq::new(x.versions@.len(),
            |k: int| x.versions@[k].jv()));
        let oy = y.jv()->Obj_0;
        let ox = x.jv()->Obj_0;
        assert(oy[0] =~~= ox[0]);
        assert(oy[1] =~~= ox[1]);
        assert forall|n: int| 0 <= n < ox.len() implies oy[n] =~~= ox[n] by {
            if n == 0 {
                assert(oy[n] =~~= ox[n]);
            } else if n == 1 {
                assert(oy[n] =~~= ox[n]);
            }
        }
        assert(oy =~~= ox);
        assert(y.jv() =~~= x.jv());
    }
}

/// A named group of versions of a game.
#[derive(Debug, Clone)]
pub struct GameVersionType {
    pub id: i32,
    pub game_id: i32,
    pub name: String,
    pub slug: String,
    pub is_syncable: bool,
    pub status: GameVersionTypeStatus,
}

impl GameVersionType {
    /// The JSON document of this value, member for member.
    pub open spec fn jv(self) -> JsonV {
        JsonV::Obj(seq![
            ("id"@, JsonV::Int(self.id as int)),
            ("gameId"@, JsonV::Int(self.game_id as int)),
            ("name"@, JsonV::Str(self.name@)),
            ("slug"@, JsonV::Str(self.slug@)),
            ("isSyncable"@, JsonV::Bool(self.is_syncable)),
            ("status"@, JsonV::Int(self.status.code())),
        ])
    }

    /// What it means for a JSON document to decode to this value.
    pub open spec fn decodes_to(j: JsonV, x: GameVersionType) -> bool {
        &&& j matches JsonV::Obj(o)
        &&& crate::fields::jv_i32(o, "id"@) == Option::Some(x.id)
        &&& crate::fields::jv_i32(o, "gameId"@) == Option::Some(x.game_id)
        &&& crate::fields::jv_str(o, "name"@) == Option::Some(x.name@)
        &&& crate::fields::jv_str(o, "slug"@) == Option::Some(x.slug@)
        &&& crate::fields::jv_bool(o, "isSyncable"@) == Option::Some(x.is_syncable)
        &&& GameVersionTypeStatus::from_member(o, "status"@) == Option::Some(x.status)
    }

    pub fn to_json(&self) -> (r: Json)
        ensures
            r@ == self.jv(),
    {
        let mut m = JsonMembers::Nil;
        m = crate::fields::cons_member("status", Json::Int(self.status.to_code()), m);
        m = crate::fields::cons_member("isSyncable", Json::Bool(self.is_syncable), m);
        m = crate::fields::cons_member("slug", Json::Str(self.slug.clone()), m);
        m = crate::fields::cons_member("name", Json::Str(self.name.clone()), m);
        m = crate::fields::cons_member("gameId", Json::Int(self.game_id as i64), m);
        m = crate::fields::cons_member("id", Json::Int(self.id as i64), m);
        let ghost m_v = m@;
        let r = Json::Obj(Box::new(m));
        proof {
            assert(r matches Json::Obj(o2) && crate::json::members_view(*o2) == m_v);
            assert(r@ == JsonV::Obj(m_v));
            assert(m_v.len() == 6);
            assert(m_v[0] =~~= ("id"@, JsonV::Int(self.id as int)));
            assert(m_v[1] =~~= ("gameId"@, JsonV::Int(self.game_id as int)));
            assert(m_v[2] =~~= ("name"@, JsonV::Str(self.name@)));
            assert(m_v[3] =~~= ("slug"@, JsonV::Str(self.slug@)));
            assert(m_v[4] =~~= ("isSyncable"@, JsonV::Bool(self.is_syncable)));
            assert(m_v[5] =~~= ("status"@, JsonV::Int(self.status.code())));
            assert(m_v =~~= self.jv()->Obj_0);
            assert(r@ =~~= self.jv());
        }
        r
    }

    pub fn from_json(j: &Json) -> (r: Option<GameVersionType>)
        ensures
            r matches Option::Some(x) ==> GameVersionType::decodes_to(j@, x),
            r is None ==> forall|x: GameVersionType| !GameVersionType::decodes_to(j@, x),
    {
        match j {
            Json::Obj(m) => {
            let id = match crate::fields::get_i32(m, "id") {
                Option::Some(v) => v,
                Option::None => {
                    return Option::None;
                },
            };
            let game_id = match crate::fields::get_i32(m, "gameId") {
                Option::Some(v) => v,
                Option::None => {
                    return Option::None;
                },
            };
            let name = match crate::fields::get_str(m, "name") {
                Option::Some(v) => v,
                Option::None => {
                    return Option::None;
                },
            };
            let slug = match crate::fields::get_str(m, "slug") {
                Option::Some(v) => v,
                Option::None => {
                    return Option::None;
                },
            };
            let is_syncable = match crate::fields::get_bool(m, "isSyncable") {
                Option::Some(v) => v,
                Option::None => {
                    return Option::None;
                },
            };
            let status = match GameVersionTypeStatus::get_member(m, "status") {
                Option::Some(v) => v,
                Option::None => {
                    return Option::None;
                },
            };
                Option::Some(GameVersionType {
                    id,
                    game_id,
                    name,
                    slug,
                    is_syncable,
                    status,
                })
            },
            _ => Option::None,
        }
    }

    /// Builds the JSON array of a list of these values, from position `i` on.
    pub fn list_to_json(v: &Vec<GameVersionType>, i: usize) -> (r: JsonList)
        requires
            i <= v@.len(),
        ensures
            r@ == Seq::new((v@.len() - i as int) as nat, |k: int| v@[i + k].jv()),
        decreases v@.len() - i,
    {
        if i < v.len() {
            let rest = GameVersionType::list_to_json(v, i + 1);
            let ghost rest_v = rest@;
            let hd = v[i].to_json();
            let ghost hd_v = hd@;
            let r = JsonList::Cons(hd, Box::new(rest));
            proof {
                let target = Seq::new((v@.len() - i as int) as nat, |k: int| v@[i + k].jv());
                assert(r matches JsonList::Cons(h, t) && crate::json::json_view(h) == hd_v
                    && crate::json::list_view(*t) == rest_v);
                assert(crate::json::list_view(r) == seq![hd_v] + rest_v);
                assert forall|n: int| 0 <= n < target.len() implies crate::json::list_view(r)[n]
                    == target[n] by {
                    if n > 0 {
                        assert(crate::json::list_view(r)[n] == rest_v[n - 1]);
                        assert(rest_v[n - 1] == v@[i + 1 + (n - 1)].jv());
                    }
                }
                assert(r@ =~= target);
            }
            r
        } else {
            let r = JsonList::Nil;
            proof {
                assert(r@ =~= Seq::new((v@.len() - i as int) as nat, |k: int| v@[i + k].jv()));
            }
            r
        }
    }

    /// Decodes a JSON array of these values.
    pub fn list_from_json(l: &JsonList) -> (r: Option<Vec<GameVersionType>>)
        ensures
            match r {
                Option::Some(v) => v@.len() == l@.len() && (forall|n: int|
                    0 <= n < l@.len() ==> GameVersionType::decodes_to(#[trigger] l@[n], v@[n])),
                Option::None => GameVersionType::list_undecodable(l@),
            },
        decreases *l,
    {
        match l {
            JsonList::Nil => {
                let r: Vec<GameVersionType> = Vec::new();
                Option::Some(r)
            },
            JsonList::Cons(h, t) => {
                let t2: &JsonList = &*t;
                proof {
                    assert(l@[0] == h@);
                    assert(l@.drop_first() =~= t2@);
                }
                match GameVersionType::from_json(h) {
                    Option::Some(x) => match GameVersionType::list_from_json(t2) {
                        Option::Some(rest) => {
                            let ghost rest_v = rest@;
                            let mut out: Vec<GameVersionType> = Vec::new();
                            out.push(x);
                            let mut rest = rest;
                            out.append(&mut rest);
                            proof {
                                assert(out@ == seq![x] + rest_v);
                                assert forall|n: int| 0 <= n < l@.len() implies GameVersionType::decodes_to(
                                    #[trigger] l@[n], out@[n],
                                ) by {
                                    if n > 0 {
                                        assert(l@[n] == t2@[n - 1]);
                                        assert(out@[n] == rest_v[n - 1]);
                                    }
                                }
                            }
                            Option::Some(out)
                        },
                        Option::None => Option::None,
                    },
                    Option::None => Option::None,
                }
            },
        }
    }

    /// Whether some item of the array has no decoding.
    pub open spec fn list_undecodable(l: Seq<JsonV>) -> bool
        decreases l.len(),
    {
        l.len() > 0 && ((forall|x: GameVersionType| !(#[trigger] GameVersionType::decodes_to(l[0], x)))
            || GameVersionType::list_undecodable(l.drop_first()))
    }

    /// An array with an undecodable item decodes to no list of values.
    pub proof fn lemma_list_undecodable(l: Seq<JsonV>, v: Seq<GameVersionType>)
        requires
            GameVersionType::list_undecodable(l),
            l.len() == v.len(),
        ensures
            !(forall|n: int| 0 <= n < l.len() ==> GameVersionType::decodes_to(#[trigger] l[n], v[n])),
        decreases l.len(),
    {
        if forall|n: int| 0 <= n < l.len() ==> GameVersionType::decodes_to(#[trigger] l[n], v[n]) {
            assert(GameVersionType::decodes_to(l[0], v[0]));
            if forall|x: GameVersionType| !(#[trigger] GameVersionType::decodes_to(l[0], x)) {
                assert(!GameVersionType::decodes_to(l[0], v[0]));
            } else {
                assert(GameVersionType::list_undecodable(l.drop_first()));
                assert forall|n: int|
                    0 <= n < l.drop_first().len() implies GameVersionType::decodes_to(
                    #[trigger] l.drop_first()[n], v.drop_first()[n],
                ) by {
                    assert(l.drop_first()[n] == l[n + 1]);
                    assert(v.drop_first()[n] == v[n + 1]);
                }
                GameVersionType::lemma_list_undecodable(l.drop_first(), v.drop_first());
            }
        }
    }


    /// The JSON document of a value decodes back to it.
    pub proof fn lemma_decodes_self(x: GameVersionType)
        ensures
            GameVersionType::decodes_to(x.jv(), x),
    {
        let o = x.jv()->Obj_0;
        assert(crate::json::obj_get(o, "id"@) == Option::Some(JsonV::Int(x.id as int))) by {
            reveal_strlit("id");
            reveal_with_fuel(crate::json::obj_get, 7);
        }
        assert(crate::json::obj_get(o, "gameId"@) == Option::Some(JsonV::Int(x.game_id as int))) by {
            reveal_strlit("id");
            reveal_strlit("gameId");
            assert("id"@.len() == 2);
            assert("gameId"@.len() == 6);
            assert("id"@ != "gameId"@);
            reveal_with_fuel(crate::json::obj_get, 7);
        }
        assert(crate::json::obj_get(o, "name"@) == Option::Some(JsonV::Str(x.name@))) by {
            reveal_strlit("id");
            reveal_strlit("gameId");
            reveal_strlit("name");
            assert("id"@.len() == 2);
            assert("name"@.len() == 4);
            assert("id"@ != "name"@);
            assert("gameId"@.len() == 6);
            assert("name"@.len() == 4);
            assert("gameId"@ != "name"@);
            reveal_with_fuel(crate::json::obj_get, 7);
        }
        assert(crate::json::obj_get(o, "slug"@) == Option::Some(JsonV::Str(x.slug@))) by {
            reveal_strlit("id");
            reveal_strlit("gameId");
            reveal_strlit("name");
            reveal_strlit("slug");
            assert("id"@.len() == 2);
            assert("slug"@.len() == 4);
            assert("id"@ != "slug"@);
            assert("gameId"@.len() == 6);
            assert("slug"@.len() == 4);
            assert("gameId"@ != "slug"@);
            assert("name"@[0] == 'n');
            assert("slug"@[0] == 's');
            assert("name"@ != "slug"@);
            reveal_with_fuel(crate::json::obj_get, 7);
        }
        assert(crate::json::obj_get(o, "isSyncable"@) == Option::Some(JsonV::Bool(x.is_syncable))) by {
            reveal_strlit("id");
            reveal_strlit("gameId");
            reveal_strlit("name");
            reveal_strlit("slug");
            reveal_strlit("isSyncable");
            assert("id"@.len() == 2);
            assert("isSyncable"@.len() == 10);
            assert("id"@ != "isSyncable"@);
            assert("gameId"@.len() == 6);
            assert("isSyncable"@.len() == 10);
            assert("gameId"@ != "isSyncable"@);
            assert("name"@.len() == 4);
            assert("isSyncable"@.len() == 10);
            assert("name"@ != "isSyncable"@);
            assert("slug"@.len() == 4);
            assert("isSyncable"@.len() == 10);
            assert("slug"@ != "isSyncable"@);
            reveal_with_fuel(crate::json::obj_get, 7);
        }
        assert(crate::json::obj_get(o, "status"@) == Option::Some(JsonV::Int(x.status.code()))) by {
            reveal_strlit("id");
            reveal_strlit("gameId");
            reveal_strlit("name");
            reveal_strlit("slug");
            reveal_strlit("isSyncable");
            reveal_strlit("status");
            assert("id"@.len() == 2);
            assert("status"@.len() == 6);
            assert("id"@ != "status"@);
            assert("gameId"@[0] == 'g');
            assert("status"@[0] == 's');
            assert("gameId"@ != "status"@);
            assert("name"@.len() == 4);
            assert("status"@.len() == 6);
            assert("name"@ != "status"@);
            assert("slug"@.len() == 4);
            assert("status"@.len() == 6);
            assert("slug"@ != "status"@);
            assert("isSyncable"@.len() == 10);
            assert("status"@.len() == 6);
            assert("isSyncable"@ != "status"@);
            reveal_with_fuel(crate::json::obj_get, 7);
        }
        x.status.lemma_code_inverse(0);
    }

    /// Two values that one JSON document decodes to are equal, field for field.
    pub proof fn lemma_deterministic(j: JsonV, x: GameVersionType, y: GameVersionType)
        requires
            GameVersionType::decodes_to(j, x),
            GameVersionType::decodes_to(j, y),
        ensures
            y.id == x.id,
            y.game_id == x.game_id,
            y.name@ == x.name@,
            y.slug@ == x.slug@,
            y.is_syncable == x.is_syncable,
            y.status == x.status,
            y.jv() == x.jv(),
    {
        let o = j->Obj_0;
        assert(JsonV::Int(y.id as int) =~~= JsonV::Int(x.id as int));
        assert(JsonV::Int(y.game_id as int) =~~= JsonV::Int(x.game_id as int));
        assert(JsonV::Str(y.name@) =~~= JsonV::Str(x.name@));
        assert(JsonV::Str(y.slug@) =~~= JsonV::Str(x.slug@));
        assert(JsonV::Bool(y.is_syncable) =~~= JsonV::Bool(x.is_syncable));
        assert(JsonV::Int(y.status.code()) =~~= JsonV::Int(x.status.code()));
        let oy = y.jv()->Obj_0;
        let ox = x.jv()->Obj_0;
        assert(oy[0] =~~= ox[0]);
        assert(oy[1] =~~= ox[1]);
        assert(oy[2] =~~= ox[2]);
        assert(oy[3] =~~= ox[3]);
        assert(oy[4] =~~= ox[4]);
        assert(oy[5] =~~= ox[5]);
        assert forall|n: int| 0 <= n < ox.len() implies oy[n] =~~= ox[n] by {
            if n == 0 {
                assert(oy[n] =~~= ox[n]);
            } else if n == 1 {
                assert(oy[n] =~~= ox[n]);
            } else if n == 2 {
                assert(oy[n] =~~= ox[n]);
            } else if n == 3 {
                assert(oy[n] =~~= ox[n]);
            } else if n == 4 {
                assert(oy[n] =~~= ox[n]);
            } else if n == 5 {
                assert(oy[n] =~~= ox[n]);
            }
        }
        assert(oy =~~= ox);
        assert(y.jv() =~~= x.jv());
    }
}

/// A category or class that mods are filed under.
#[derive(Debug, Clone)]
pub struct Category {
    pub id: i32,
    pub game_id: i32,
    pub name: String,
    pub slug: String,
    pub url: Option<String>,
    pub icon_url: Option<String>,
    pub date_modified: String,
    pub is_class: Option<bool>,
    pub class_id: Option<i32>,
    pub parent_category_id: Option<i32>,
    pub display_index: Option<i32>,
}

impl Category {
    /// The JSON document of this value, member for member.
    pub open spec fn jv(self) -> JsonV {
        JsonV::Obj(seq![
            ("id"@, JsonV::Int(self.id as int)),
            ("gameId"@, JsonV::Int(self.game_id as int)),
            ("name"@, JsonV::Str(self.name@)),
            ("slug"@, JsonV::Str(self.slug@)),
            ("url"@, (match self.url { Option::Some(v) => JsonV::Str(v@), Option::None => JsonV::Null })),
            ("iconUrl"@, (match self.icon_url { Option::Some(v) => JsonV::Str(v@), Option::None => JsonV::Null })),
            ("dateModified"@, JsonV::Str(self.date_modified@)),
            ("isClass"@, (match self.is_class { Option::Some(v) => JsonV::Bool(v), Option::None => JsonV::Null })),
            ("classId"@, (match self.class_id { Option::Some(v) => JsonV::Int(v as int), Option::None => JsonV::Null })),
            ("parentCategoryId"@, (match self.parent_category_id { Option::Some(v) => JsonV::Int(v as int), Option::None => JsonV::Null })),
            ("displayIndex"@, (match self.display_index { Option::Some(v) => JsonV::Int(v as int), Option::None => JsonV::Null })),
        ])
    }

    /// What it means for a JSON document to decode to this value.
    pub open spec fn decodes_to(j: JsonV, x: Category) -> bool {
        &&& j matches JsonV::Obj(o)
        &&& crate::fields::jv_i32(o, "id"@) == Option::Some(x.id)
        &&& crate::fields::jv_i32(o, "gameId"@) == Option::Some(x.game_id)
        &&& crate::fields::jv_str(o, "name"@) == Option::Some(x.name@)
        &&& crate::fields::jv_str(o, "slug"@) == Option::Some(x.slug@)
        &&& crate::fields::jv_opt_str(o, "url"@) == Option::Some(crate::fields::view_opt_str(x.url))
        &&& crate::fields::jv_opt_str(o, "iconUrl"@) == Option::Some(crate::fields::view_opt_str(x.icon_url))
        &&& crate::fields::jv_str(o, "dateModified"@) == Option::Some(x.date_modified@)
        &&& crate::fields::jv_opt_bool(o, "isClass"@) == Option::Some(x.is_class)
        &&& crate::fields::jv_opt_i32(o, "classId"@) == Option::Some(x.class_id)
        &&& crate::fields::jv_opt_i32(o, "parentCategoryId"@) == Option::Some(x.parent_category_id)
        &&& crate::fields::jv_opt_i32(o, "displayIndex"@) == Option::Some(x.display_index)
    }

    #[verifier::rlimit(60)]
    #[verifier::spinoff_prover]
    fn members_part0(&self, rest: JsonMembers) -> (m: JsonMembers)
        ensures
            m@ == seq![
                ("id"@, JsonV::Int(self.id as int)),
                ("gameId"@, JsonV::Int(self.game_id as int)),
                ("name"@, JsonV::Str(self.name@)),
                ("slug"@, JsonV::Str(self.slug@)),
                ("url"@, (match self.url { Option::Some(v) => JsonV::Str(v@), Option::None => JsonV::Null })),
                ("iconUrl"@, (match self.icon_url { Option::Some(v) => JsonV::Str(v@), Option::None => JsonV::Null })),
                ("dateModified"@, JsonV::Str(self.date_modified@)),
            ] + rest@,
    {
        let ghost rest_v = rest@;
        let mut m = rest;
        m = crate::fields::cons_member("dateModified", Json::Str(self.date_modified.clone()), m);
        m = crate::fields::cons_member("iconUrl", crate::fields::opt_str_json(&self.icon_url), m);
        m = crate::fields::cons_member("url", crate::fields::opt_str_json(&self.url), m);
        m = crate::fields::cons_member("slug", Json::Str(self.slug.clone()), m);
        m = crate::fields::cons_member("name", Json::Str(self.name.clone()), m);
        m = crate::fields::cons_member("gameId", Json::Int(self.game_id as i64), m);
        m = crate::fields::cons_member("id", Json::Int(self.id as i64), m);
        proof {
            let ghost m_v = m@;
            assert(m_v[0] =~~= ("id"@, JsonV::Int(self.id as int)));
            assert(m_v[1] =~~= ("gameId"@, JsonV::Int(self.game_id as int)));
            assert(m_v[2] =~~= ("name"@, JsonV::Str(self.name@)));
            assert(m_v[3] =~~= ("slug"@, JsonV::Str(self.slug@)));
            assert(m_v[4] =~~= ("url"@, (match self.url { Option::Some(v) => JsonV::Str(v@), Option::None => JsonV::Null })));
            assert(m_v[5] =~~= ("iconUrl"@, (match self.icon_url { Option::Some(v) => JsonV::Str(v@), Option::None => JsonV::Null })));
            assert(m_v[6] =~~= ("dateModified"@, JsonV::Str(self.date_modified@)));
            assert(m_v =~~= seq![
                ("id"@, JsonV::Int(self.id as int)),
                ("gameId"@, JsonV::Int(self.game_id as int)),
                ("name"@, JsonV::Str(self.name@)),
                ("slug"@, JsonV::Str(self.slug@)),
                ("url"@, (match self.url { Option::Some(v) => JsonV::Str(v@), Option::None => JsonV::Null })),
                ("iconUrl"@, (match self.icon_url { Option::Some(v) => JsonV::Str(v@), Option::None => JsonV::Null })),
                ("dateModified"@, JsonV::Str(self.date_modified@)),
            ] + rest_v);
        }
        m
    }

    #[verifier::rlimit(60)]
    #[verifier::spinoff_prover]
    fn members_part1(&self, rest: JsonMembers) -> (m: JsonMembers)
        ensures
            m@ == seq![
                ("isClass"@, (match self.is_class { Option::Some(v) => JsonV::Bool(v), Option::None => JsonV::Null })),
                ("classId"@, (match self.class_id { Option::Some(v) => JsonV::Int(v as int), Option::None => JsonV::Null })),
                ("parentCategoryId"@, (match self.parent_category_id { Option::Some(v) => JsonV::Int(v as int), Option::None => JsonV::Null })),
                ("displayIndex"@, (match self.display_index { Option::Some(v) => JsonV::Int(v as int), Option::None => JsonV::Null })),
            ] + rest@,
    {
        let ghost rest_v = rest@;
        let mut m = rest;
        m = crate::fields::cons_member("displayIndex", crate::fields::opt_i32_json(&self.display_index), m);
        m = crate::fields::cons_member("parentCategoryId", crate::fields::opt_i32_json(&self.parent_category_id), m);
        m = crate::fields::cons_member("classId", crate::fields::opt_i32_json(&self.class_id), m);
        m = crate::fields::cons_member("isClass", crate::fields::opt_bool_json(&self.is_class), m);
        proof {
            let ghost m_v = m@;
            assert(m_v[0] =~~= ("isClass"@, (match self.is_class { Option::Some(v) => JsonV::Bool(v), Option::None => JsonV::Null })));
            assert(m_v[1] =~~= ("classId"@, (match self.class_id { Option::Some(v) => JsonV::Int(v as int), Option::None => JsonV::Null })));
            assert(m_v[2] =~~= ("parentCategoryId"@, (match self.parent_category_id { Option::Some(v) => JsonV::Int(v as int), Option::None => JsonV::Null })));
            assert(m_v[3] =~~= ("displayIndex"@, (match self.display_index { Option::Some(v) => JsonV::Int(v as int), Option::None => JsonV::Null })));
            assert(m_v =~~= seq![
                ("isClass"@, (match self.is_class { Option::Some(v) => JsonV::Bool(v), Option::None => JsonV::Null })),
                ("classId"@, (match self.class_id { Option::Some(v) => JsonV::Int(v as int), Option::None => JsonV::Null })),
                ("parentCategoryId"@, (match self.parent_category_id { Option::Some(v) => JsonV::Int(v as int), Option::None => JsonV::Null })),
                ("displayIndex"@, (match self.display_index { Option::Some(v) => JsonV::Int(v as int), Option::None => JsonV::Null })),
            ] + rest_v);
        }
        m
    }

    #[verifier::rlimit(60)]
    #[verifier::spinoff_prover]
    pub fn to_json(&self) -> (r: Json)
        ensures
            r@ == self.jv(),
    {
        let mut m = JsonMembers::Nil;
        m = self.members_part1(m);
        m = self.members_part0(m);
        let ghost m_v = m@;
        let r = Json::Obj(Box::new(m));
        proof {
            assert(r matches Json::Obj(o2) && crate::json::members_view(*o2) == m_v);
            assert(r@ == JsonV::Obj(m_v));
            assert(m_v =~~= self.jv()->Obj_0);
            assert(r@ =~~= self.jv());
        }
        r
    }

    #[verifier::rlimit(60)]
    #[verifier::spinoff_prover]
    pub fn from_json(j: &Json) -> (r: Option<Category>)
        ensures
            r matches Option::Some(x) ==> Category::decodes_to(j@, x),
            r is None ==> forall|x: Category| !Category::decodes_to(j@, x),
    {
        match j {
            Json::Obj(m) => {
            let id = match crate::fields::get_i32(m, "id") {
                Option::Some(v) => v,
                Option::None => {
                    return Option::None;
                },
            };
            let game_id = match crate::fields::get_i32(m, "gameId") {
                Option::Some(v) => v,
                Option::None => {
                    return Option::None;
                },
            };
            let name = match crate::fields::get_str(m, "name") {
                Option::Some(v) => v,
                Option::None => {
                    return Option::None;
                },
            };
            let slug = match crate::fields::get_str(m, "slug") {
                Option::Some(v) => v,
                Option::None => {
                    return Option::None;
                },
            };
            let url = match crate::fields::get_opt_str(m, "url") {
                Option::Some(v) => v,
                Option::None => {
                    return Option::None;
                },
            };
            let icon_url = match crate::fields::get_opt_str(m, "iconUrl") {
                Option::Some(v) => v,
                Option::None => {
                    return Option::None;
                },
            };
            let date_modified = match crate::fields::get_str(m, "dateModified") {
                Option::Some(v) => v,
                Option::None => {
                    return Option::None;
                },
            };
            let is_class = match crate::fields::get_opt_bool(m, "isClass") {
                Option::Some(v) => v,
                Option::None => {
                    return Option::None;
                },
            };
            let class_id = match crate::fields::get_opt_i32(m, "classId") {
                Option::Some(v) => v,
                Option::None => {
                    return Option::None;
                },
            };
            let parent_category_id = match crate::fields::get_opt_i32(m, "parentCategoryId") {
                Option::Some(v) => v,
                Option::None => {
                    return Option::None;
                },
            };
            let display_index = match crate::fields::get_opt_i32(m, "displayIndex") {
                Option::Some(v) => v,
                Option::None => {
                    return Option::None;
                },
            };
                Option::Some(Category {
                    id,
                    game_id,
                    name,
                    slug,
                    url,
                    icon_url,
                    date_modified,
                    is_class,
                    class_id,
                    parent_category_id,
                    display_index,
                })
            },
            _ => Option::None,
        }
    }

    /// Builds the JSON array of a list of these values, from position `i` on.
    #[verifier::rlimit(60)]
    #[verifier::spinoff_prover]
    pub fn list_to_json(v: &Vec<Category>, i: usize) -> (r: JsonList)
        requires
            i <= v@.len(),
        ensures
            r@ == Seq::new((v@.len() - i as int) as nat, |k: int| v@[i + k].jv()),
        decreases v@.len() - i,
    {
        if i < v.len() {
            let rest = Category::list_to_json(v, i + 1);
            let ghost rest_v = rest@;
            let hd = v[i].to_json();
            let ghost hd_v = hd@;
            let r = JsonList::Cons(hd, Box::new(rest));
            proof {
                let target = Seq::new((v@.len() - i as int) as nat, |k: int| v@[i + k].jv());
                assert(r matches JsonList::Cons(h, t) && crate::json::json_view(h) == hd_v
                    && crate::json::list_view(*t) == rest_v);
                assert(crate::json::list_view(r) == seq![hd_v] + rest_v);
                assert forall|n: int| 0 <= n < target.len() implies crate::json::list_view(r)[n]
                    == target[n] by {
                    if n > 0 {
                        assert(crate::json::list_view(r)[n] == rest_v[n - 1]);
                        assert(rest_v[n - 1] == v@[i + 1 + (n - 1)].jv());
                    }
                }
                assert(r@ =~= target);
            }
            r
        } else {
            let r = JsonList::Nil;
            proof {
                assert(r@ =~= Seq::new((v@.len() - i as int) as nat, |k: int| v@[i + k].jv()));
            }
            r
        }
    }

    /// Decodes a JSON array of these values.
    #[verifier::rlimit(60)]
    #[verifier::spinoff_prover]
    pub fn list_from_json(l: &JsonList) -> (r: Option<Vec<Category>>)
        ensures
            match r {
                Option::Some(v) => v@.len() == l@.len() && (forall|n: int|
                    0 <= n < l@.len() ==> Category::decodes_to(#[trigger] l@[n], v@[n])),
                Option::None => Category::list_undecodable(l@),
            },
        decreases *l,
    {
        match l {
            JsonList::Nil => {
                let r: Vec<Category> = Vec::new();
                Option::Some(r)
            },
            JsonList::Cons(h, t) => {
                let t2: &JsonList = &*t;
                proof {
                    assert(l@[0] == h@);
                    assert(l@.drop_first() =~= t2@);
                }
                match Category::from_json(h) {
                    Option::Some(x) => match Category::list_from_json(t2) {
                        Option::Some(rest) => {
                            let ghost rest_v = rest@;
                            let mut out: Vec<Category> = Vec::new();
                            out.push(x);
                            let mut rest = rest;
                            out.append(&mut rest);
                            proof {
                                assert(out@ == seq![x] + rest_v);
                                assert forall|n: int| 0 <= n < l@.len() implies Category::decodes_to(
                                    #[trigger] l@[n], out@[n],
                                ) by {
                                    if n > 0 {
                                        assert(l@[n] == t2@[n - 1]);
                                        assert(out@[n] == rest_v[n - 1]);
                                    }
                                }
                            }
                            Option::Some(out)
                        },
                        Option::None => Option::None,
                    },
                    Option::None => Option::None,
                }
            },
        }
    }

    /// Whether some item of the array has no decoding.
    pub open spec fn list_undecodable(l: Seq<JsonV>) -> bool
        decreases l.len(),
    {
        l.len() > 0 && ((forall|x: Category| !(#[trigger] Category::decodes_to(l[0], x)))
            || Category::list_undecodable(l.drop_first()))
    }

    /// An array with an undecodable item decodes to no list of values.
    #[verifier::rlimit(60)]
    #[verifier::spinoff_prover]
    pub proof fn lemma_list_undecodable(l: Seq<JsonV>, v: Seq<Category>)
        requires
            Category::list_undecodable(l),
            l.len() == v.len(),
        ensures
            !(forall|n: int| 0 <= n < l.len() ==> Category::decodes_to(#[trigger] l[n], v[n])),
        decreases l.len(),
    {
        if forall|n: int| 0 <= n < l.len() ==> Category::decodes_to(#[trigger] l[n], v[n]) {
            assert(Category::decodes_to(l[0], v[0]));
            if forall|x: Category| !(#[trigger] Category::decodes_to(l[0], x)) {
                assert(!Category::decodes_to(l[0], v[0]));
            } else {
                assert(Category::list_undecodable(l.drop_first()));
                assert forall|n: int|
                    0 <= n < l.drop_first().len() implies Category::decodes_to(
                    #[trigger] l.drop_first()[n], v.drop_first()[n],
                ) by {
                    assert(l.drop_first()[n] == l[n + 1]);
                    assert(v.drop_first()[n] == v[n + 1]);
                }
                Category::lemma_list_undecodable(l.drop_first(), v.drop_first());
            }
        }
    }


    /// The JSON document of a value decodes back to it.
    #[verifier::rlimit(60)]
    #[verifier::spinoff_prover]
    pub proof fn lemma_decodes_self(x: Category)
        ensures
            Category::decodes_to(x.jv(), x),
    {
        let o = x.jv()->Obj_0;
        assert(crate::json::obj_get(o, "id"@) == Option::Some(JsonV::Int(x.id as int))) by {
            reveal_strlit("id");
            reveal_with_fuel(crate::json::obj_get, 12);
        }
        assert(crate::json::obj_get(o, "gameId"@) == Option::Some(JsonV::Int(x.game_id as int))) by {
            reveal_strlit("id");
            reveal_strlit("gameId");
            assert("id"@.len() == 2);
            assert("gameId"@.len() == 6);
            assert("id"@ != "gameId"@);
            reveal_with_fuel(crate::json::obj_get, 12);
        }
        assert(crate::json::obj_get(o, "name"@) == Option::Some(JsonV::Str(x.name@))) by {
            reveal_strlit("id");
            reveal_strlit("gameId");
            reveal_strlit("name");
            assert("id"@.len() == 2);
            assert("name"@.len() == 4);
            assert("id"@ != "name"@);
            assert("gameId"@.len() == 6);
            assert("name"@.len() == 4);
            assert("gameId"@ != "name"@);
            reveal_with_fuel(crate::json::obj_get, 12);
        }
        assert(crate::json::obj_get(o, "slug"@) == Option::Some(JsonV::Str(x.slug@))) by {
            reveal_strlit("id");
            reveal_strlit("gameId");
            reveal_strlit("name");
            reveal_strlit("slug");
            assert("id"@.len() == 2);
            assert("slug"@.len() == 4);
            assert("id"@ != "slug"@);
            assert("gameId"@.len() == 6);
            assert("slug"@.len() == 4);
            assert("gameId"@ != "slug"@);
            assert("name"@[0] == 'n');
            assert("slug"@[0] == 's');
            assert("name"@ != "slug"@);
            reveal_with_fuel(crate::json::obj_get, 12);
        }
        assert(crate::json::obj_get(o, "url"@) == Option::Some((match x.url { Option::Some(v) => JsonV::Str(v@), Option::None => JsonV::Null }))) by {
            reveal_strlit("id");
            reveal_strlit("gameId");
            reveal_strlit("name");
            reveal_strlit("slug");
            reveal_strlit("url");
            assert("id"@.len() == 2);
            assert("url"@.len() == 3);
            assert("id"@ != "url"@);
            assert("gameId"@.len() == 6);
            assert("url"@.len() == 3);
            assert("gameId"@ != "url"@);
            assert("name"@.len() == 4);
            assert("url"@.len() == 3);
            assert("name"@ != "url"@);
            assert("slug"@.len() == 4);
            assert("url"@.len() == 3);
            assert("slug"@ != "url"@);
            reveal_with_fuel(crate::json::obj_get, 12);
        }
        assert(crate::json::obj_get(o, "iconUrl"@) == Option::Some((match x.icon_url { Option::Some(v) => JsonV::Str(v@), Option::None => JsonV::Null }))) by {
            reveal_strlit("id");
            reveal_strlit("gameId");
            reveal_strlit("name");
            reveal_strlit("slug");
            reveal_strlit("url");
            reveal_strlit("iconUrl");
            assert("id"@.len() == 2);
            assert("iconUrl"@.len() == 7);
            assert("id"@ != "iconUrl"@);
            assert("gameId"@.len() == 6);
            assert("iconUrl"@.len() == 7);
            assert("gameId"@ != "iconUrl"@);
            assert("name"@.len() == 4);
            assert("iconUrl"@.len() == 7);
            assert("name"@ != "iconUrl"@);
            assert("slug"@.len() == 4);
            assert("iconUrl"@.len() == 7);
            assert("slug"@ != "iconUrl"@);
            assert("url"@.len() == 3);
            assert("iconUrl"@.len() == 7);
            assert("url"@ != "iconUrl"@);
            reveal_with_fuel(crate::json::obj_get, 12);
        }
        assert(crate::json::obj_get(o, "dateModified"@) == Option::Some(JsonV::Str(x.date_modified@))) by {
            reveal_strlit("id");
            reveal_strlit("gameId");
            reveal_strlit("name");
            reveal_strlit("slug");
            reveal_strlit("url");
            reveal_strlit("iconUrl");
            reveal_strlit("dateModified");
            assert("id"@.len() == 2);
            assert("dateModified"@.len() == 12);
            assert("id"@ != "dateModified"@);
            assert("gameId"@.len() == 6);
            assert("dateModified"@.len() == 12);
            assert("gameId"@ != "dateModified"@);
            assert("name"@.len() == 4);
            assert("dateModified"@.len() == 12);
            assert("name"@ != "dateModified"@);
            assert("slug"@.len() == 4);
            assert("dateModified"@.len() == 12);
            assert("slug"@ != "dateModified"@);
            assert("url"@.len() == 3);
            assert("dateModified"@.len() == 12);
            assert("url"@ != "dateModified"@);
            assert("iconUrl"@.len() == 7);
            assert("dateModified"@.len() == 12);
            assert("iconUrl"@ != "dateModified"@);
            reveal_with_fuel(crate::json::obj_get, 12);
        }
        assert(crate::json::obj_get(o, "isClass"@) == Option::Some((match x.is_class { Option::Some(v) => JsonV::Bool(v), Option::None => JsonV::Null }))) by {
            reveal_strlit("id");
            reveal_strlit("gameId");
            reveal_strlit("name");
            reveal_strlit("slug");
            reveal_strlit("url");
            reveal_strlit("iconUrl");
            reveal_strlit("dateModified");
            reveal_strlit("isClass");
            assert("id"@.len() == 2);
            assert("isClass"@.len() == 7);
            assert("id"@ != "isClass"@);
            assert("gameId"@.len() == 6);
            assert("isClass"@.len() == 7);
            assert("gameId"@ != "isClass"@);
            assert("name"@.len() == 4);
            assert("isClass"@.len() == 7);
            assert("name"@ != "isClass"@);
            assert("slug"@.len() == 4);
            assert("isClass"@.len() == 7);
            assert("slug"@ != "isClass"@);
            assert("url"@.len() == 3);
            assert("isClass"@.len() == 7);
            assert("url"@ != "isClass"@);
            assert("iconUrl"@[1] == 'c');
            assert("isClass"@[1] == 's');
            assert("iconUrl"@ != "isClass"@);
            assert("dateModified"@.len() == 12);
            assert("isClass"@.len() == 7);
            assert("dateModified"@ != "isClass"@);
            reveal_with_fuel(crate::json::obj_get, 12);
        }
        assert(crate::json::obj_get(o, "classId"@) == Option::Some((match x.class_id { Option::Some(v) => JsonV::Int(v as int), Option::None => JsonV::Null }))) by {
            reveal_strlit("id");
            reveal_strlit("gameId");
            reveal_strlit("name");
            reveal_strlit("slug");
            reveal_strlit("url");
            reveal_strlit("iconUrl");
            reveal_strlit("dateModified");
            reveal_strlit("isClass");
            reveal_strlit("classId");
            assert("id"@.len() == 2);
            assert("classId"@.len() == 7);
            assert("id"@ != "classId"@);
            assert("gameId"@.len() == 6);
            assert("classId"@.len() == 7);
            assert("gameId"@ != "classId"@);
            assert("name"@.len() == 4);
            assert("classId"@.len() == 7);
            assert("name"@ != "classId"@);
            assert("slug"@.len() == 4);
            assert("classId"@.len() == 7);
            assert("slug"@ != "classId"@);
            assert("url"@.len() == 3);
            assert("classId"@.len() == 7);
            assert("url"@ != "classId"@);
            assert("iconUrl"@[0] == 'i');
            assert("classId"@[0] == 'c');
            assert("iconUrl"@ != "classId"@);
            assert("dateModified"@.len() == 12);
            assert("classId"@.len() == 7);
            assert("dateModified"@ != "classId"@);
            assert("isClass"@[0] == 'i');
            assert("classId"@[0] == 'c');
            assert("isClass"@ != "classId"@);
            reveal_with_fuel(crate::json::obj_get, 12);
        }
        assert(crate::json::obj_get(o, "parentCategoryId"@) == Option::Some((match x.parent_category_id { Option::Some(v) => JsonV::Int(v as int), Option::None => JsonV::Null }))) by {
            reveal_strlit("id");
            reveal_strlit("gameId");
            reveal_strlit("name");
            reveal_strlit("slug");
            reveal_strlit("url");
            reveal_strlit("iconUrl");
            reveal_strlit("dateModified");
            reveal_strlit("isClass");
            reveal_strlit("classId");
            reveal_strlit("parentCategoryId");
            assert("id"@.len() == 2);
            assert("parentCategoryId"@.len() == 16);
            assert("id"@ != "parentCategoryId"@);
            assert("gameId"@.len() == 6);
            assert("parentCategoryId"@.len() == 16);
            assert("gameId"@ != "parentCategoryId"@);
            assert("name"@.len() == 4);
            assert("parentCategoryId"@.len() == 16);
            assert("name"@ != "parentCategoryId"@);
            assert("slug"@.len() == 4);
            assert("parentCategoryId"@.len() == 16);
            assert("slug"@ != "parentCategoryId"@);
            assert("url"@.len() == 3);
            assert("parentCategoryId"@.len() == 16);
            assert("url"@ != "parentCategoryId"@);
            assert("iconUrl"@.len() == 7);
            assert("parentCategoryId"@.len() == 16);
            assert("iconUrl"@ != "parentCategoryId"@);
            assert("dateModified"@.len() == 12);
            assert("parentCategoryId"@.len() == 16);
            assert("dateModified"@ != "parentCategoryId"@);
            assert("isClass"@.len() == 7);
            assert("parentCategoryId"@.len() == 16);
            assert("isClass"@ != "parentCategoryId"@);
            assert("classId"@.len() == 7);
            assert("parentCategoryId"@.len() == 16);
            assert("classId"@ != "parentCategoryId"@);
            reveal_with_fuel(crate::json::obj_get, 12);
        }
        assert(crate::json::obj_get(o, "displayIndex"@) == Option::Some((match x.display_index { Option::Some(v) => JsonV::Int(v as int), Option::None => JsonV::Null }))) by {
            reveal_strlit("id");
            reveal_strlit("gameId");
            reveal_strlit("name");
            reveal_strlit("slug");
            reveal_strlit("url");
            reveal_strlit("iconUrl");
            reveal_strlit("dateModified");
            reveal_strlit("isClass");
            reveal_strlit("classId");
            reveal_strlit("parentCategoryId");
            reveal_strlit("displayIndex");
            assert("id"@.len() == 2);
            assert("displayIndex"@.len() == 12);
            assert("id"@ != "displayIndex"@);
            assert("gameId"@.len() == 6);
            assert("displayIndex"@.len() == 12);
            assert("gameId"@ != "displayIndex"@);
            assert("name"@.len() == 4);
            assert("displayIndex"@.len() == 12);
            assert("name"@ != "displayIndex"@);
            assert("slug"@.len() == 4);
            assert("displayIndex"@.len() == 12);
            assert("slug"@ != "displayIndex"@);
            assert("url"@.len() == 3);
            assert("displayIndex"@.len() == 12);
            assert("url"@ != "displayIndex"@);
            assert("iconUrl"@.len() == 7);
            assert("displayIndex"@.len() == 12);
            assert("iconUrl"@ != "displayIndex"@);
            assert("dateModified"@[1] == 'a');
            assert("displayIndex"@[1] == 'i');
            assert("dateModified"@ != "displayIndex"@);
            assert("isClass"@.len() == 7);
            assert("displayIndex"@.len() == 12);
            assert("isClass"@ != "displayIndex"@);
            assert("classId"@.len() == 7);
            assert("displayIndex"@.len() == 12);
            assert("classId"@ != "displayIndex"@);
            assert("parentCategoryId"@.len() == 16);
            assert("displayIndex"@.len() == 12);
            assert("parentCategoryId"@ != "displayIndex"@);
            reveal_with_fuel(crate::json::obj_get, 12);
        }
    }

    /// Two values that one JSON document decodes to are equal, field for field.
    #[verifier::rlimit(60)]
    #[verifier::spinoff_prover]
    pub proof fn lemma_deterministic(j: JsonV, x: Category, y: Category)
        requires
            Category::decodes_to(j, x),
            Category::decodes_to(j, y),
        ensures
            y.id == x.id,
            y.game_id == x.game_id,
            y.name@ == x.name@,
            y.slug@ == x.slug@,
            crate::fields::view_opt_str(y.url) == crate::fields::view_opt_str(x.url),
            crate::fields::view_opt_str(y.icon_url) == crate::fields::view_opt_str(x.icon_url),
            y.date_modified@ == x.date_modified@,
            y.is_class == x.is_class,
            y.class_id == x.class_id,
            y.parent_category_id == x.parent_category_id,
            y.display_index == x.display_index,
            y.jv() == x.jv(),
    {
        let o = j->Obj_0;
        assert(JsonV::Int(y.id as int) =~~= JsonV::Int(x.id as int));
        assert(JsonV::Int(y.game_id as int) =~~= JsonV::Int(x.game_id as int));
        assert(JsonV::Str(y.name@) =~~= JsonV::Str(x.name@));
        assert(JsonV::Str(y.slug@) =~~= JsonV::Str(x.slug@));
        assert((match y.url { Option::Some(v) => JsonV::Str(v@), Option::None => JsonV::Null }) =~~= (match x.url { Option::Some(v) => JsonV::Str(v@), Option::None => JsonV::Null }));
        assert((match y.icon_url { Option::Some(v) => JsonV::Str(v@), Option::None => JsonV::Null }) =~~= (match x.icon_url { Option::Some(v) => JsonV::Str(v@), Option::None => JsonV::Null }));
        assert(JsonV::Str(y.date_modified@) =~~= JsonV::Str(x.date_modified@));
        assert((match y.is_class { Option::Some(v) => JsonV::Bool(v), Option::None => JsonV::Null }) =~~= (match x.is_class { Option::Some(v) => JsonV::Bool(v), Option::None => JsonV::Null }));
        assert((match y.class_id { Option::Some(v) => JsonV::Int(v as int), Option::None => JsonV::Null }) =~~= (match x.class_id { Option::Some(v) => JsonV::Int(v as int), Option::None => JsonV::Null }));
        assert((match y.parent_category_id { Option::Some(v) => JsonV::Int(v as int), Option::None => JsonV::Null }) =~~= (match x.parent_category_id { Option::Some(v) => JsonV::Int(v as int), Option::None => JsonV::Null }));
        assert((match y.display_index { Option::Some(v) => JsonV::Int(v as int), Option::None => JsonV::Null }) =~~= (match x.display_index { Option::Some(v) => JsonV::Int(v as int), Option::None => JsonV::Null }));
        let oy = y.jv()->Obj_0;
        let ox = x.jv()->Obj_0;
        assert(oy[0] =~~= ox[0]);
        assert(oy[1] =~~= ox[1]);
        assert(oy[2] =~~= ox[2]);
        assert(oy[3] =~~= ox[3]);
        assert(oy[4] =~~= ox[4]);
        assert(oy[5] =~~= ox[5]);
        assert(oy[6] =~~= ox[6]);
        assert(oy[7] =~~= ox[7]);
        assert(oy[8] =~~= ox[8]);
        assert(oy[9] =~~= ox[9]);
        assert(oy[10] =~~= ox[10]);
        assert forall|n: int| 0 <= n < ox.len() implies oy[n] =~~= ox[n] by {
            if n == 0 {
                assert(oy[n] =~~= ox[n]);
            } else if n == 1 {
                assert(oy[n] =~~= ox[n]);
            } else if n == 2 {
                assert(oy[n] =~~= ox[n]);
            } else if n == 3 {
                assert(oy[n] =~~= ox[n]);
            } else if n == 4 {
                assert(oy[n] =~~= ox[n]);
            } else if n == 5 {
                assert(oy[n] =~~= ox[n]);
            } else if n == 6 {
                assert(oy[n] =~~= ox[n]);
            } else if n == 7 {
                assert(oy[n] =~~= ox[n]);
            } else if n == 8 {
                assert(oy[n] =~~= ox[n]);
            } else if n == 9 {
                assert(oy[n] =~~= ox[n]);
            } else if n == 10 {
                assert(oy[n] =~~= ox[n]);
            }
        }
        assert(oy =~~= ox);
        assert(y.jv() =~~= x.jv());
    }
}

} // verus!
