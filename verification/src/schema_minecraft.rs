//! The records of the Minecraft-specific endpoints.
#![allow(unused_imports)]
use crate::enums::{CoreApiStatus, CoreStatus, FileRelationType, FileReleaseType, FileStatus,
    GameVersionStatus, GameVersionTypeStatus, HashAlgo, ModLoaderInstallMethod, ModLoaderType,
    ModStatus, ModsSearchSortField, SortOrder};
use crate::json::{Json, JsonList, JsonMembers, JsonV};
use vstd::prelude::*;

verus! {

broadcast use vstd::seq::group_seq_axioms, vstd::std_specs::vec::group_vec_axioms;


/// One Minecraft version as the service lists it.
#[derive(Debug, Clone)]
pub struct MinecraftGameVersion {
    pub id: i32,
    pub game_version_id: i32,
    pub version_string: String,
    pub jar_download_url: String,
    pub json_download_url: String,
    pub approved: bool,
    pub date_modified: String,
    pub game_version_type_id: i32,
    pub game_version_status: GameVersionStatus,
    pub game_version_type_status: GameVersionTypeStatus,
}

impl MinecraftGameVersion {
    /// The JSON document of this value, member for member.
    pub open spec fn jv(self) -> JsonV {
        JsonV::Obj(seq![
            ("id"@, JsonV::Int(self.id as int)),
            ("gameVersionId"@, JsonV::Int(self.game_version_id as int)),
            ("versionString"@, JsonV::Str(self.version_string@)),
            ("jarDownloadUrl"@, JsonV::Str(self.jar_download_url@)),
            ("jsonDownloadUrl"@, JsonV::Str(self.json_download_url@)),
            ("approved"@, JsonV::Bool(self.approved)),
            ("dateModified"@, JsonV::Str(self.date_modified@)),
            ("gameVersionTypeId"@, JsonV::Int(self.game_version_type_id as int)),
            ("gameVersionStatus"@, JsonV::Int(self.game_version_status.code())),
            ("gameVersionTypeStatus"@, JsonV::Int(self.game_version_type_status.code())),
        ])
    }

    /// What it means for a JSON document to decode to this value.
    pub open spec fn decodes_to(j: JsonV, x: MinecraftGameVersion) -> bool {
        &&& j matches JsonV::Obj(o)
        &&& crate::fields::jv_i32(o, "id"@) == Option::Some(x.id)
        &&& crate::fields::jv_i32(o, "gameVersionId"@) == Option::Some(x.game_version_id)
        &&& crate::fields::jv_str(o, "versionString"@) == Option::Some(x.version_string@)
        &&& crate::fields::jv_str(o, "jarDownloadUrl"@) == Option::Some(x.jar_download_url@)
        &&& crate::fields::jv_str(o, "jsonDownloadUrl"@) == Option::Some(x.json_download_url@)
        &&& crate::fields::jv_bool(o, "approved"@) == Option::Some(x.approved)
        &&& crate::fields::jv_str(o, "dateModified"@) == Option::Some(x.date_modified@)
        &&& crate::fields::jv_i32(o, "gameVersionTypeId"@) == Option::Some(x.game_version_type_id)
        &&& GameVersionStatus::from_member(o, "gameVersionStatus"@) == Option::Some(x.game_version_status)
        &&& GameVersionTypeStatus::from_member(o, "gameVersionTypeStatus"@) == Option::Some(x.game_version_type_status)
    }

    #[verifier::rlimit(60)]
    #[verifier::spinoff_prover]
    fn members_part0(&self, rest: JsonMembers) -> (m: JsonMembers)
        ensures
            m@ == seq![
                ("id"@, JsonV::Int(self.id as int)),
                ("gameVersionId"@, JsonV::Int(self.game_version_id as int)),
                ("versionString"@, JsonV::Str(self.version_string@)),
                ("jarDownloadUrl"@, JsonV::Str(self.jar_download_url@)),
                ("jsonDownloadUrl"@, JsonV::Str(self.json_download_url@)),
                ("approved"@, JsonV::Bool(self.approved)),
                ("dateModified"@, JsonV::Str(self.date_modified@)),
            ] + rest@,
    {
        let ghost rest_v = rest@;
        let mut m = rest;
        m = crate::fields::cons_member("dateModified", Json::Str(self.date_modified.clone()), m);
        m = crate::fields::cons_member("approved", Json::Bool(self.approved), m);
        m = crate::fields::cons_member("jsonDownloadUrl", Json::Str(self.json_download_url.clone()), m);
        m = crate::fields::cons_member("jarDownloadUrl", Json::Str(self.jar_download_url.clone()), m);
        m = crate::fields::cons_member("versionString", Json::Str(self.version_string.clone()), m);
        m = crate::fields::cons_member("gameVersionId", Json::Int(self.game_version_id as i64), m);
        m = crate::fields::cons_member("id", Json::Int(self.id as i64), m);
        proof {
            let ghost m_v = m@;
            assert(m_v[0] =~~= ("id"@, JsonV::Int(self.id as int)));
            assert(m_v[1] =~~= ("gameVersionId"@, JsonV::Int(self.game_version_id as int)));
            assert(m_v[2] =~~= ("versionString"@, JsonV::Str(self.version_string@)));
            assert(m_v[3] =~~= ("jarDownloadUrl"@, JsonV::Str(self.jar_download_url@)));
            assert(m_v[4] =~~= ("jsonDownloadUrl"@, JsonV::Str(self.json_download_url@)));
            assert(m_v[5] =~~= ("approved"@, JsonV::Bool(self.approved)));
            assert(m_v[6] =~~= ("dateModified"@, JsonV::Str(self.date_modified@)));
            assert(m_v =~~= seq![
                ("id"@, JsonV::Int(self.id as int)),
                ("gameVersionId"@, JsonV::Int(self.game_version_id as int)),
                ("versionString"@, JsonV::Str(self.version_string@)),
                ("jarDownloadUrl"@, JsonV::Str(self.jar_download_url@)),
                ("jsonDownloadUrl"@, JsonV::Str(self.json_download_url@)),
                ("approved"@, JsonV::Bool(self.approved)),
                ("dateModified"@, JsonV::Str(self.date_modified@)),
            ] + rest_v);
        }
        m
    }

    #[verifier::rlimit(60)]
    #[verifier::spinoff_prover]
    fn members_part1(&self, rest: JsonMembers) -> (m: JsonMembers)
        ensures
            m@ == seq![
                ("gameVersionTypeId"@, JsonV::Int(self.game_version_type_id as int)),
                ("gameVersionStatus"@, JsonV::Int(self.game_version_status.code())),
                ("gameVersionTypeStatus"@, JsonV::Int(self.game_version_type_status.code())),
            ] + rest@,
    {
        let ghost rest_v = rest@;
        let mut m = rest;
        m = crate::fields::cons_member("gameVersionTypeStatus", Json::Int(self.game_version_type_status.to_code()), m);
        m = crate::fields::cons_member("gameVersionStatus", Json::Int(self.game_version_status.to_code()), m);
        m = crate::fields::cons_member("gameVersionTypeId", Json::Int(self.game_version_type_id as i64), m);
        proof {
            let ghost m_v = m@;
            assert(m_v[0] =~~= ("gameVersionTypeId"@, JsonV::Int(self.game_version_type_id as int)));
            assert(m_v[1] =~~= ("gameVersionStatus"@, JsonV::Int(self.game_version_status.code())));
            assert(m_v[2] =~~= ("gameVersionTypeStatus"@, JsonV::Int(self.game_version_type_status.code())));
            assert(m_v =~~= seq![
                ("gameVersionTypeId"@, JsonV::Int(self.game_version_type_id as int)),
                ("gameVersionStatus"@, JsonV::Int(self.game_version_status.code())),
                ("gameVersionTypeStatus"@, JsonV::Int(self.game_version_type_status.code())),
            ] + rest_v);
        }
        m
    }

    #[verifier::rlimit(60)]
    #[verifier::spinoff_prover]
    pub fn to_json(&self) -> (r: Json)
        ensures
            r@ == self.jv(),
    {
        let mut m = JsonMembers::Nil;
        m = self.members_part1(m);
        m = self.members_part0(m);
        let ghost m_v = m@;
        let r = Json::Obj(Box::new(m));
        proof {
            assert(r matches Json::Obj(o2) && crate::json::members_view(*o2) == m_v);
            assert(r@ == JsonV::Obj(m_v));
            assert(m_v =~~= self.jv()->Obj_0);
            assert(r@ =~~= self.jv());
        }
        r
    }

    #[verifier::rlimit(60)]
    #[verifier::spinoff_prover]
    pub fn from_json(j: &Json) -> (r: Option<MinecraftGameVersion>)
        ensures
            r matches Option::Some(x) ==> MinecraftGameVersion::decodes_to(j@, x),
            r is None ==> forall|x: MinecraftGameVersion| !MinecraftGameVersion::decodes_to(j@, x),
    {
        match j {
            Json::Obj(m) => {
            let id = match crate::fields::get_i32(m, "id") {
                Option::Some(v) => v,
                Option::None => {
                    return Option::None;
                },
            };
            let game_version_id = match crate::fields::get_i32(m, "gameVersionId") {
                Option::Some(v) => v,
                Option::None => {
                    return Option::None;
                },
            };
            let version_string = match crate::fields::get_str(m, "versionString") {
                Option::Some(v) => v,
                Option::None => {
                    return Option::None;
                },
            };
            let jar_download_url = match crate::fields::get_str(m, "jarDownloadUrl") {
                Option::Some(v) => v,
                Option::None => {
                    return Option::None;
                },
            };
            let json_download_url = match crate::fields::get_str(m, "jsonDownloadUrl") {
                Option::Some(v) => v,
                Option::None => {
                    return Option::None;
                },
            };
            let approved = match crate::fields::get_bool(m, "approved") {
                Option::Some(v) => v,
                Option::None => {
                    return Option::None;
                },
            };
            let date_modified = match crate::fields::get_str(m, "dateModified") {
                Option::Some(v) => v,
                Option::None => {
                    return Option::None;
                },
            };
            let game_version_type_id = match crate::fields::get_i32(m, "gameVersionTypeId") {
                Option::Some(v) => v,
                Option::None => {
                    return Option::None;
                },
            };
            let game_version_status = match GameVersionStatus::get_member(m, "gameVersionStatus") {
                Option::Some(v) => v,
                Option::None => {
                    return Option::None;
                },
            };
            let game_version_type_status = match GameVersionTypeStatus::get_member(m, "gameVersionTypeStatus") {
                Option::Some(v) => v,
                Option::None => {
                    return Option::None;
                },
            };
                Option::Some(MinecraftGameVersion {
                    id,
                    game_version_id,
                    version_string,
                    jar_download_url,
                    json_download_url,
                    approved,
                    date_modified,
                    game_version_type_id,
                    game_version_status,
                    game_version_type_status,
                })
            },
            _ => Option::None,
        }
    }

    /// Builds the JSON array of a list of these values, from position `i` on.
    #[verifier::rlimit(60)]
    #[verifier::spinoff_prover]
    pub fn list_to_json(v: &Vec<MinecraftGameVersion>, i: usize) -> (r: JsonList)
        requires
            i <= v@.len(),
        ensures
            r@ == Seq::new((v@.len() - i as int) as nat, |k: int| v@[i + k].jv()),
        decreases v@.len() - i,
    {
        if i < v.len() {
            let rest = MinecraftGameVersion::list_to_json(v, i + 1);
            let ghost rest_v = rest@;
            let hd = v[i].to_json();
            let ghost hd_v = hd@;
            let r = JsonList::Cons(hd, Box::new(rest));
            proof {
                let target = Seq::new((v@.len() - i as int) as nat, |k: int| v@[i + k].jv());
                assert(r matches JsonList::Cons(h, t) && crate::json::json_view(h) == hd_v
                    && crate::json::list_view(*t) == rest_v);
                assert(crate::json::list_view(r) == seq![hd_v] + rest_v);
                assert forall|n: int| 0 <= n < target.len() implies crate::json::list_view(r)[n]
                    == target[n] by {
                    if n > 0 {
                        assert(crate::json::list_view(r)[n] == rest_v[n - 1]);
                        assert(rest_v[n - 1] == v@[i + 1 + (n - 1)].jv());
                    }
                }
                assert(r@ =~= target);
            }
            r
        } else {
            let r = JsonList::Nil;
            proof {
                assert(r@ =~= Seq::new((v@.len() - i as int) as nat, |k: int| v@[i + k].jv()));
            }
            r
        }
    }

    /// Decodes a JSON array of these values.
    #[verifier::rlimit(60)]
    #[verifier::spinoff_prover]
    pub fn list_from_json(l: &JsonList) -> (r: Option<Vec<MinecraftGameVersion>>)
        ensures
            match r {
                Option::Some(v) => v@.len() == l@.len() && (forall|n: int|
                    0 <= n < l@.len() ==> MinecraftGameVersion::decodes_to(#[trigger] l@[n], v@[n])),
                Option::None => MinecraftGameVersion::list_undecodable(l@),
            },
        decreases *l,
    {
        match l {
            JsonList::Nil => {
                let r: Vec<MinecraftGameVersion> = Vec::new();
                Option::Some(r)
            },
            JsonList::Cons(h, t) => {
                let t2: &JsonList = &*t;
                proof {
                    assert(l@[0] == h@);
                    assert(l@.drop_first() =~= t2@);
                }
                match MinecraftGameVersion::from_json(h) {
                    Option::Some(x) => match MinecraftGameVersion::list_from_json(t2) {
                        Option::Some(rest) => {
                            let ghost rest_v = rest@;
                            let mut out: Vec<MinecraftGameVersion> = Vec::new();
                            out.push(x);
                            let mut rest = rest;
                            out.append(&mut rest);
                            proof {
                                assert(out@ == seq![x] + rest_v);
                                assert forall|n: int| 0 <= n < l@.len() implies MinecraftGameVersion::decodes_to(
                                    #[trigger] l@[n], out@[n],
                                ) by {
                                    if n > 0 {
                                        assert(l@[n] == t2@[n - 1]);
                                        assert(out@[n] == rest_v[n - 1]);
                                    }
                                }
                            }
                            Option::Some(out)
                        },
                        Option::None => Option::None,
                    },
                    Option::None => Option::None,
                }
            },
        }
    }

    /// Whether some item of the array has no decoding.
    pub open spec fn list_undecodable(l: Seq<JsonV>) -> bool
        decreases l.len(),
    {
        l.len() > 0 && ((forall|x: MinecraftGameVersion| !(#[trigger] MinecraftGameVersion::decodes_to(l[0], x)))
            || MinecraftGameVersion::list_undecodable(l.drop_first()))
    }

    /// An array with an undecodable item decodes to no list of values.
    #[verifier::rlimit(60)]
    #[verifier::spinoff_prover]
    pub proof fn lemma_list_undecodable(l: Seq<JsonV>, v: Seq<MinecraftGameVersion>)
        requires
            MinecraftGameVersion::list_undecodable(l),
            l.len() == v.len(),
        ensures
            !(forall|n: int| 0 <= n < l.len() ==> MinecraftGameVersion::decodes_to(#[trigger] l[n], v[n])),
        decreases l.len(),
    {
        if forall|n: int| 0 <= n < l.len() ==> MinecraftGameVersion::decodes_to(#[trigger] l[n], v[n]) {
            assert(MinecraftGameVersion::decodes_to(l[0], v[0]));
            if forall|x: MinecraftGameVersion| !(#[trigger] MinecraftGameVersion::decodes_to(l[0], x)) {
                assert(!MinecraftGameVersion::decodes_to(l[0], v[0]));
            } else {
                assert(MinecraftGameVersion::list_undecodable(l.drop_first()));
                assert forall|n: int|
                    0 <= n < l.drop_first().len() implies MinecraftGameVersion::decodes_to(
                    #[trigger] l.drop_first()[n], v.drop_first()[n],
                ) by {
                    assert(l.drop_first()[n] == l[n + 1]);
                    assert(v.drop_first()[n] == v[n + 1]);
                }
                MinecraftGameVersion::lemma_list_undecodable(l.drop_first(), v.drop_first());
            }
        }
    }


    /// The JSON document of a value decodes back to it.
    #[verifier::rlimit(60)]
    #[verifier::spinoff_prover]
    pub proof fn lemma_decodes_self(x: MinecraftGameVersion)
        ensures
            MinecraftGameVersion::decodes_to(x.jv(), x),
    {
        let o = x.jv()->Obj_0;
        assert(crate::json::obj_get(o, "id"@) == Option::Some(JsonV::Int(x.id as int))) by {
            reveal_strlit("id");
            reveal_with_fuel(crate::json::obj_get, 11);
        }
        assert(crate::json::obj_get(o, "gameVersionId"@) == Option::Some(JsonV::Int(x.game_version_id as int))) by {
            reveal_strlit("id");
            reveal_strlit("gameVersionId");
            assert("id"@.len() == 2);
            assert("gameVersionId"@.len() == 13);
            assert("id"@ != "gameVersionId"@);
            reveal_with_fuel(crate::json::obj_get, 11);
        }
        assert(crate::json::obj_get(o, "versionString"@) == Option::Some(JsonV::Str(x.version_string@))) by {
            reveal_strlit("id");
            reveal_strlit("gameVersionId");
            reveal_strlit("versionString");
            assert("id"@.len() == 2);
            assert("versionString"@.len() == 13);
            assert("id"@ != "versionString"@);
            assert("gameVersionId"@[0] == 'g');
            assert("versionString"@[0] == 'v');
            assert("gameVersionId"@ != "versionString"@);
            reveal_with_fuel(crate::json::obj_get, 11);
        }
        assert(crate::json::obj_get(o, "jarDownloadUrl"@) == Option::Some(JsonV::Str(x.jar_download_url@))) by {
            reveal_strlit("id");
            reveal_strlit("gameVersionId");
            reveal_strlit("versionString");
            reveal_strlit("jarDownloadUrl");
            assert("id"@.len() == 2);
            assert("jarDownloadUrl"@.len() == 14);
            assert("id"@ != "jarDownloadUrl"@);
            assert("gameVersionId"@.len() == 13);
            assert("jarDownloadUrl"@.len() == 14);
            assert("gameVersionId"@ != "jarDownloadUrl"@);
            assert("versionString"@.len() == 13);
            assert("jarDownloadUrl"@.len() == 14);
            assert("versionString"@ != "jarDownloadUrl"@);
            reveal_with_fuel(crate::json::obj_get, 11);
        }
        assert(crate::json::obj_get(o, "jsonDownloadUrl"@) == Option::Some(JsonV::Str(x.json_download_url@))) by {
            reveal_strlit("id");
            reveal_strlit("gameVersionId");
            reveal_strlit("versionString");
            reveal_strlit("jarDownloadUrl");
            reveal_strlit("jsonDownloadUrl");
            assert("id"@.len() == 2);
            assert("jsonDownloadUrl"@.len() == 15);
            assert("id"@ != "jsonDownloadUrl"@);
            assert("gameVersionId"@.len() == 13);
            assert("jsonDownloadUrl"@.len() == 15);
            assert("gameVersionId"@ != "jsonDownloadUrl"@);
            assert("versionString"@.len() == 13);
            assert("jsonDownloadUrl"@.len() == 15);
            assert("versionString"@ != "jsonDownloadUrl"@);
            assert("jarDownloadUrl"@.len() == 14);
            assert("jsonDownloadUrl"@.len() == 15);
            assert("jarDownloadUrl"@ != "jsonDownloadUrl"@);
            reveal_with_fuel(crate::json::obj_get, 11);
        }
        assert(crate::json::obj_get(o, "approved"@) == Option::Some(JsonV::Bool(x.approved))) by {
            reveal_strlit("id");
            reveal_strlit("gameVersionId");
            reveal_strlit("versionString");
            reveal_strlit("jarDownloadUrl");
            reveal_strlit("jsonDownloadUrl");
            reveal_strlit("approved");
            assert("id"@.len() == 2);
            assert("approved"@.len() == 8);
            assert("id"@ != "approved"@);
            assert("gameVersionId"@.len() == 13);
            assert("approved"@.len() == 8);
            assert("gameVersionId"@ != "approved"@);
            assert("versionString"@.len() == 13);
            assert("approved"@.len() == 8);
            assert("versionString"@ != "approved"@);
            assert("jarDownloadUrl"@.len() == 14);
            assert("approved"@.len() == 8);
            assert("jarDownloadUrl"@ != "approved"@);
            assert("jsonDownloadUrl"@.len() == 15);
            assert("approved"@.len() == 8);
            assert("jsonDownloadUrl"@ != "approved"@);
            reveal_with_fuel(crate::json::obj_get, 11);
        }
        assert(crate::json::obj_get(o, "dateModified"@) == Option::Some(JsonV::Str(x.date_modified@))) by {
            reveal_strlit("id");
            reveal_strlit("gameVersionId");
            reveal_strlit("versionString");
            reveal_strlit("jarDownloadUrl");
            reveal_strlit("jsonDownloadUrl");
            reveal_strlit("approved");
            reveal_strlit("dateModified");
            assert("id"@.len() == 2);
            assert("dateModified"@.len() == 12);
            assert("id"@ != "dateModified"@);
            assert("gameVersionId"@.len() == 13);
            assert("dateModified"@.len() == 12);
            assert("gameVersionId"@ != "dateModified"@);
            assert("versionString"@.len() == 13);
            assert("dateModified"@.len() == 12);
            assert("versionString"@ != "dateModified"@);
            assert("jarDownloadUrl"@.len() == 14);
            assert("dateModified"@.len() == 12);
            assert("jarDownloadUrl"@ != "dateModified"@);
            assert("jsonDownloadUrl"@.len() == 15);
            assert("dateModified"@.len() == 12);
            assert("jsonDownloadUrl"@ != "dateModified"@);
            assert("approved"@.len() == 8);
            assert("dateModified"@.len() == 12);
            assert("approved"@ != "dateModified"@);
            reveal_with_fuel(crate::json::obj_get, 11);
        }
        assert(crate::json::obj_get(o, "gameVersionTypeId"@) == Option::Some(JsonV::Int(x.game_version_type_id as int))) by {
            reveal_strlit("id");
            reveal_strlit("gameVersionId");
            reveal_strlit("versionString");
            reveal_strlit("jarDownloadUrl");
            reveal_strlit("jsonDownloadUrl");
            reveal_strlit("approved");
            reveal_strlit("dateModified");
            reveal_strlit("gameVersionTypeId");
            assert("id"@.len() == 2);
            assert("gameVersionTypeId"@.len() == 17);
            assert("id"@ != "gameVersionTypeId"@);
            assert("gameVersionId"@.len() == 13);
            assert("gameVersionTypeId"@.len() == 17);
            assert("gameVersionId"@ != "gameVersionTypeId"@);
            assert("versionString"@.len() == 13);
            assert("gameVersionTypeId"@.len() == 17);
            assert("versionString"@ != "gameVersionTypeId"@);
            assert("jarDownloadUrl"@.len() == 14);
            assert("gameVersionTypeId"@.len() == 17);
            assert("jarDownloadUrl"@ != "gameVersionTypeId"@);
            assert("jsonDownloadUrl"@.len() == 15);
            assert("gameVersionTypeId"@.len() == 17);
            assert("jsonDownloadUrl"@ != "gameVersionTypeId"@);
            assert("approved"@.len() == 8);
            assert("gameVersionTypeId"@.len() == 17);
            assert("approved"@ != "gameVersionTypeId"@);
            assert("dateModified"@.len() == 12);
            assert("gameVersionTypeId"@.len() == 17);
            assert("dateModified"@ != "gameVersionTypeId"@);
            reveal_with_fuel(crate::json::obj_get, 11);
        }
        assert(crate::json::obj_get(o, "gameVersionStatus"@) == Option::Some(JsonV::Int(x.game_version_status.code()))) by {
            reveal_strlit("id");
            reveal_strlit("gameVersionId");
            reveal_strlit("versionString");
            reveal_strlit("jarDownloadUrl");
            reveal_strlit("jsonDownloadUrl");
            reveal_strlit("approved");
            reveal_strlit("dateModified");
            reveal_strlit("gameVersionTypeId");
            reveal_strlit("gameVersionStatus");
            assert("id"@.len() == 2);
            assert("gameVersionStatus"@.len() == 17);
            assert("id"@ != "gameVersionStatus"@);
            assert("gameVersionId"@.len() == 13);
            assert("gameVersionStatus"@.len() == 17);
            assert("gameVersionId"@ != "gameVersionStatus"@);
            assert("versionString"@.len() == 13);
            assert("gameVersionStatus"@.len() == 17);
            assert("versionString"@ != "gameVersionStatus"@);
            assert("jarDownloadUrl"@.len() == 14);
            assert("gameVersionStatus"@.len() == 17);
            assert("jarDownloadUrl"@ != "gameVersionStatus"@);
            assert("jsonDownloadUrl"@.len() == 15);
            assert("gameVersionStatus"@.len() == 17);
            assert("jsonDownloadUrl"@ != "gameVersionStatus"@);
            assert("approved"@.len() == 8);
            assert("gameVersionStatus"@.len() == 17);
            assert("approved"@ != "gameVersionStatus"@);
            assert("dateModified"@.len() == 12);
            assert("gameVersionStatus"@.len() == 17);
            assert("dateModified"@ != "gameVersionStatus"@);
            assert("gameVersionTypeId"@[11] == 'T');
            assert("gameVersionStatus"@[11] == 'S');
            assert("gameVersionTypeId"@ != "gameVersionStatus"@);
            reveal_with_fuel(crate::json::obj_get, 11);
        }
        assert(crate::json::obj_get(o, "gameVersionTypeStatus"@) == Option::Some(JsonV::Int(x.game_version_type_status.code()))) by {
            reveal_strlit("id");
            reveal_strlit("gameVersionId");
            reveal_strlit("versionString");
            reveal_strlit("jarDownloadUrl");
            reveal_strlit("jsonDownloadUrl");
            reveal_strlit("approved");
            reveal_strlit("dateModified");
            reveal_strlit("gameVersionTypeId");
            reveal_strlit("gameVersionStatus");
            reveal_strlit("gameVersionTypeStatus");
            assert("id"@.len() == 2);
            assert("gameVersionTypeStatus"@.len() == 21);
            assert("id"@ != "gameVersionTypeStatus"@);
            assert("gameVersionId"@.len() == 13);
            assert("gameVersionTypeStatus"@.len() == 21);
            assert("gameVersionId"@ != "gameVersionTypeStatus"@);
            assert("versionString"@.len() == 13);
            assert("gameVersionTypeStatus"@.len() == 21);
            assert("versionString"@ != "gameVersionTypeStatus"@);
            assert("jarDownloadUrl"@.len() == 14);
            assert("gameVersionTypeStatus"@.len() == 21);
            assert("jarDownloadUrl"@ != "gameVersionTypeStatus"@);
            assert("jsonDownloadUrl"@.len() == 15);
            assert("gameVersionTypeStatus"@.len() == 21);
            assert("jsonDownloadUrl"@ != "gameVersionTypeStatus"@);
            assert("approved"@.len() == 8);
            assert("gameVersionTypeStatus"@.len() == 21);
            assert("approved"@ != "gameVersionTypeStatus"@);
            assert("dateModified"@.len() == 12);
            assert("gameVersionTypeStatus"@.len() == 21);
            assert("dateModified"@ != "gameVersionTypeStatus"@);
            assert("gameVersionTypeId"@.len() == 17);
            assert("gameVersionTypeStatus"@.len() == 21);
            assert("gameVersionTypeId"@ != "gameVersionTypeStatus"@);
            assert("gameVersionStatus"@.len() == 17);
            assert("gameVersionTypeStatus"@.len() == 21);
            assert("gameVersionStatus"@ != "gameVersionTypeStatus"@);
            reveal_with_fuel(crate::json::obj_get, 11);
        }
        x.game_version_status.lemma_code_inverse(0);
        x.game_version_type_status.lemma_code_inverse(0);
    }

    /// Two values that one JSON document decodes to are equal, field for field.
    #[verifier::rlimit(60)]
    #[verifier::spinoff_prover]
    pub proof fn lemma_deterministic(j: JsonV, x: MinecraftGameVersion, y: MinecraftGameVersion)
        requires
            MinecraftGameVersion::decodes_to(j, x),
            MinecraftGameVersion::decodes_to(j, y),
        ensures
            y.id == x.id,
            y.game_version_id == x.game_version_id,
            y.version_string@ == x.version_string@,
            y.jar_download_url@ == x.jar_download_url@,
            y.json_download_url@ == x.json_download_url@,
            y.approved == x.approved,
            y.date_modified@ == x.date_modified@,
            y.game_version_type_id == x.game_version_type_id,
            y.game_version_status == x.game_version_status,
            y.game_version_type_status == x.game_version_type_status,
            y.jv() == x.jv(),
    {
        let o = j->Obj_0;
        assert(JsonV::Int(y.id as int) =~~= JsonV::Int(x.id as int));
        assert(JsonV::Int(y.game_version_id as int) =~~= JsonV::Int(x.game_version_id as int));
        assert(JsonV::Str(y.version_string@) =~~= JsonV::Str(x.version_string@));
        assert(JsonV::Str(y.jar_download_url@) =~~= JsonV::Str(x.jar_download_url@));
        assert(JsonV::Str(y.json_download_url@) =~~= JsonV::Str(x.json_download_url@));
        assert(JsonV::Bool(y.approved) =~~= JsonV::Bool(x.approved));
        assert(JsonV::Str(y.date_modified@) =~~= JsonV::Str(x.date_modified@));
        assert(JsonV::Int(y.game_version_type_id as int) =~~= JsonV::Int(x.game_version_type_id as int));
        assert(JsonV::Int(y.game_version_status.code()) =~~= JsonV::Int(x.game_version_status.code()));
        assert(JsonV::Int(y.game_version_type_status.code()) =~~= JsonV::Int(x.game_version_type_status.code()));
        let oy = y.jv()->Obj_0;
        let ox = x.jv()->Obj_0;
        assert(oy[0] =~~= ox[0]);
        assert(oy[1] =~~= ox[1]);
        assert(oy[2] =~~= ox[2]);
        assert(oy[3] =~~= ox[3]);
        assert(oy[4] =~~= ox[4]);
        assert(oy[5] =~~= ox[5]);
        assert(oy[6] =~~= ox[6]);
        assert(oy[7] =~~= ox[7]);
        assert(oy[8] =~~= ox[8]);
        assert(oy[9] =~~= ox[9]);
        assert forall|n: int| 0 <= n < ox.len() implies oy[n] =~~= ox[n] by {
            if n == 0 {
                assert(oy[n] =~~= ox[n]);
            } else if n == 1 {
                assert(oy[n] =~~= ox[n]);
            } else if n == 2 {
                assert(oy[n] =~~= ox[n]);
            } else if n == 3 {
                assert(oy[n] =~~= ox[n]);
            } else if n == 4 {
                assert(oy[n] =~~= ox[n]);
            } else if n == 5 {
                assert(oy[n] =~~= ox[n]);
            } else if n == 6 {
                assert(oy[n] =~~= ox[n]);
            } else if n == 7 {
                assert(oy[n] =~~= ox[n]);
            } else if n == 8 {
                assert(oy[n] =~~= ox[n]);
            } else if n == 9 {
                assert(oy[n] =~~= ox[n]);
            }
        }
        assert(oy =~~= ox);
        assert(y.jv() =~~= x.jv());
    }
}

/// A mod-loader entry in the loader listing.
#[derive(Debug, Clone)]
pub struct MinecraftModLoaderIndex {
    pub name: String,
    pub game_version: String,
    pub latest: bool,
    pub recommended: bool,
    pub date_modified: String,
    pub loader_type: ModLoaderType,
}

impl MinecraftModLoaderIndex {
    /// The JSON document of this value, member for member.
    pub open spec fn jv(self) -> JsonV {
        JsonV::Obj(seq![
            ("name"@, JsonV::Str(self.name@)),
            ("gameVersion"@, JsonV::Str(self.game_version@)),
            ("latest"@, JsonV::Bool(self.latest)),
            ("recommended"@, JsonV::Bool(self.recommended)),
            ("dateModified"@, JsonV::Str(self.date_modified@)),
            ("type"@, JsonV::Int(self.loader_type.code())),
        ])
    }

    /// What it means for a JSON document to decode to this value.
    pub open spec fn decodes_to(j: JsonV, x: MinecraftModLoaderIndex) -> bool {
        &&& j matches JsonV::Obj(o)
        &&& crate::fields::jv_str(o, "name"@) == Option::Some(x.name@)
        &&& crate::fields::jv_str(o, "gameVersion"@) == Option::Some(x.game_version@)
        &&& crate::fields::jv_bool(o, "latest"@) == Option::Some(x.latest)
        &&& crate::fields::jv_bool(o, "recommended"@) == Option::Some(x.recommended)
        &&& crate::fields::jv_str(o, "dateModified"@) == Option::Some(x.date_modified@)
        &&& ModLoaderType::from_member(o, "type"@) == Option::Some(x.loader_type)
    }

    pub fn to_json(&self) -> (r: Json)
        ensures
            r@ == self.jv(),
    {
        let mut m = JsonMembers::Nil;
        m = crate::fields::cons_member("type", Json::Int(self.loader_type.to_code()), m);
        m = crate::fields::cons_member("dateModified", Json::Str(self.date_modified.clone()), m);
        m = crate::fields::cons_member("recommended", Json::Bool(self.recommended), m);
        m = crate::fields::cons_member("latest", Json::Bool(self.latest), m);
        m = crate::fields::cons_member("gameVersion", Json::Str(self.game_version.clone()), m);
        m = crate::fields::cons_member("name", Json::Str(self.name.clone()), m);
        let ghost m_v = m@;
        let r = Json::Obj(Box::new(m));
        proof {
            assert(r matches Json::Obj(o2) && crate::json::members_view(*o2) == m_v);
            assert(r@ == JsonV::Obj(m_v));
            assert(m_v.len() == 6);
            assert(m_v[0] =~~= ("name"@, JsonV::Str(self.name@)));
            assert(m_v[1] =~~= ("gameVersion"@, JsonV::Str(self.game_version@)));
            assert(m_v[2] =~~= ("latest"@, JsonV::Bool(self.latest)));
            assert(m_v[3] =~~= ("recommended"@, JsonV::Bool(self.recommended)));
            assert(m_v[4] =~~= ("dateModified"@, JsonV::Str(self.date_modified@)));
            assert(m_v[5] =~~= ("type"@, JsonV::Int(self.loader_type.code())));
            assert(m_v =~~= self.jv()->Obj_0);
            assert(r@ =~~= self.jv());
        }
        r
    }

    pub fn from_json(j: &Json) -> (r: Option<MinecraftModLoaderIndex>)
        ensures
            r matches Option::Some(x) ==> MinecraftModLoaderIndex::decodes_to(j@, x),
            r is None ==> forall|x: MinecraftModLoaderIndex| !MinecraftModLoaderIndex::decodes_to(j@, x),
    {
        match j {
            Json::Obj(m) => {
            let name = match crate::fields::get_str(m, "name") {
                Option::Some(v) => v,
                Option::None => {
                    return Option::None;
                },
            };
            let game_version = match crate::fields::get_str(m, "gameVersion") {
                Option::Some(v) => v,
                Option::None => {
                    return Option::None;
                },
            };
            let latest = match crate::fields::get_bool(m, "latest") {
                Option::Some(v) => v,
                Option::None => {
                    return Option::None;
                },
            };
            let recommended = match crate::fields::get_bool(m, "recommended") {
                Option::Some(v) => v,
                Option::None => {
                    return Option::None;
                },
            };
            let date_modified = match crate::fields::get_str(m, "dateModified") {
                Option::Some(v) => v,
                Option::None => {
                    return Option::None;
                },
            };
            let loader_type = match ModLoaderType::get_member(m, "type") {
                Option::Some(v) => v,
                Option::None => {
                    return Option::None;
                },
            };
                Option::Some(MinecraftModLoaderIndex {
                    name,
                    game_version,
                    latest,
                    recommended,
                    date_modified,
                    loader_type,
                })
            },
            _ => Option::None,
        }
    }

    /// Builds the JSON array of a list of these values, from position `i` on.
    pub fn list_to_json(v: &Vec<MinecraftModLoaderIndex>, i: usize) -> (r: JsonList)
        requires
            i <= v@.len(),
        ensures
            r@ == Seq::new((v@.len() - i as int) as nat, |k: int| v@[i + k].jv()),
        decreases v@.len() - i,
    {
        if i < v.len() {
            let rest = MinecraftModLoaderIndex::list_to_json(v, i + 1);
            let ghost rest_v = rest@;
            let hd = v[i].to_json();
            let ghost hd_v = hd@;
            let r = JsonList::Cons(hd, Box::new(rest));
            proof {
                let target = Seq::new((v@.len() - i as int) as nat, |k: int| v@[i + k].jv());
                assert(r matches JsonList::Cons(h, t) && crate::json::json_view(h) == hd_v
                    && crate::json::list_view(*t) == rest_v);
                assert(crate::json::list_view(r) == seq![hd_v] + rest_v);
                assert forall|n: int| 0 <= n < target.len() implies crate::json::list_view(r)[n]
                    == target[n] by {
                    if n > 0 {
                        assert(crate::json::list_view(r)[n] == rest_v[n - 1]);
                        assert(rest_v[n - 1] == v@[i + 1 + (n - 1)].jv());
                    }
                }
                assert(r@ =~= target);
            }
            r
        } else {
            let r = JsonList::Nil;
            proof {
                assert(r@ =~= Seq::new((v@.len() - i as int) as nat, |k: int| v@[i + k].jv()));
            }
            r
        }
    }

    /// Decodes a JSON array of these values.
    pub fn list_from_json(l: &JsonList) -> (r: Option<Vec<MinecraftModLoaderIndex>>)
        ensures
            match r {
                Option::Some(v) => v@.len() == l@.len() && (forall|n: int|
                    0 <= n < l@.len() ==> MinecraftModLoaderIndex::decodes_to(#[trigger] l@[n], v@[n])),
                Option::None => MinecraftModLoaderIndex::list_undecodable(l@),
            },
        decreases *l,
    {
        match l {
            JsonList::Nil => {
                let r: Vec<MinecraftModLoaderIndex> = Vec::new();
                Option::Some(r)
            },
            JsonList::Cons(h, t) => {
                let t2: &JsonList = &*t;
                proof {
                    assert(l@[0] == h@);
                    assert(l@.drop_first() =~= t2@);
                }
                match MinecraftModLoaderIndex::from_json(h) {
                    Option::Some(x) => match MinecraftModLoaderIndex::list_from_json(t2) {
                        Option::Some(rest) => {
                            let ghost rest_v = rest@;
                            let mut out: Vec<MinecraftModLoaderIndex> = Vec::new();
                            out.push(x);
                            let mut rest = rest;
                            out.append(&mut rest);
                            proof {
                                assert(out@ == seq![x] + rest_v);
                                assert forall|n: int| 0 <= n < l@.len() implies MinecraftModLoaderIndex::decodes_to(
                                    #[trigger] l@[n], out@[n],
                                ) by {
                                    if n > 0 {
                                        assert(l@[n] == t2@[n - 1]);
                                        assert(out@[n] == rest_v[n - 1]);
                                    }
                                }
                            }
                            Option::Some(out)
                        },
                        Option::None => Option::None,
                    },
                    Option::None => Option::None,
                }
            },
        }
    }

    /// Whether some item of the array has no decoding.
    pub open spec fn list_undecodable(l: Seq<JsonV>) -> bool
        decreases l.len(),
    {
        l.len() > 0 && ((forall|x: MinecraftModLoaderIndex| !(#[trigger] MinecraftModLoaderIndex::decodes_to(l[0], x)))
            || MinecraftModLoaderIndex::list_undecodable(l.drop_first()))
    }

    /// An array with an undecodable item decodes to no list of values.
    pub proof fn lemma_list_undecodable(l: Seq<JsonV>, v: Seq<MinecraftModLoaderIndex>)
        requires
            MinecraftModLoaderIndex::list_undecodable(l),
            l.len() == v.len(),
        ensures
            !(forall|n: int| 0 <= n < l.len() ==> MinecraftModLoaderIndex::decodes_to(#[trigger] l[n], v[n])),
        decreases l.len(),
    {
        if forall|n: int| 0 <= n < l.len() ==> MinecraftModLoaderIndex::decodes_to(#[trigger] l[n], v[n]) {
            assert(MinecraftModLoaderIndex::decodes_to(l[0], v[0]));
            if forall|x: MinecraftModLoaderIndex| !(#[trigger] MinecraftModLoaderIndex::decodes_to(l[0], x)) {
                assert(!MinecraftModLoaderIndex::decodes_to(l[0], v[0]));
            } else {
                assert(MinecraftModLoaderIndex::list_undecodable(l.drop_first()));
                assert forall|n: int|
                    0 <= n < l.drop_first().len() implies MinecraftModLoaderIndex::decodes_to(
                    #[trigger] l.drop_first()[n], v.drop_first()[n],
                ) by {
                    assert(l.drop_first()[n] == l[n + 1]);
                    assert(v.drop_first()[n] == v[n + 1]);
                }
                MinecraftModLoaderIndex::lemma_list_undecodable(l.drop_first(), v.drop_first());
            }
        }
    }


    /// The JSON document of a value decodes back to it.
    pub proof fn lemma_decodes_self(x: MinecraftModLoaderIndex)
        ensures
            MinecraftModLoaderIndex::decodes_to(x.jv(), x),
    {
        let o = x.jv()->Obj_0;
        assert(crate::json::obj_get(o, "name"@) == Option::Some(JsonV::Str(x.name@))) by {
            reveal_strlit("name");
            reveal_with_fuel(crate::json::obj_get, 7);
        }
        assert(crate::json::obj_get(o, "gameVersion"@) == Option::Some(JsonV::Str(x.game_version@))) by {
            reveal_strlit("name");
            reveal_strlit("gameVersion");
            assert("name"@.len() == 4);
            assert("gameVersion"@.len() == 11);
            assert("name"@ != "gameVersion"@);
            reveal_with_fuel(crate::json::obj_get, 7);
        }
        assert(crate::json::obj_get(o, "latest"@) == Option::Some(JsonV::Bool(x.latest))) by {
            reveal_strlit("name");
            reveal_strlit("gameVersion");
            reveal_strlit("latest");
            assert("name"@.len() == 4);
            assert("latest"@.len() == 6);
            assert("name"@ != "latest"@);
            assert("gameVersion"@.len() == 11);
            assert("latest"@.len() == 6);
            assert("gameVersion"@ != "latest"@);
            reveal_with_fuel(crate::json::obj_get, 7);
        }
        assert(crate::json::obj_get(o, "recommended"@) == Option::Some(JsonV::Bool(x.recommended))) by {
            reveal_strlit("name");
            reveal_strlit("gameVersion");
            reveal_strlit("latest");
            reveal_strlit("recommended");
            assert("name"@.len() == 4);
            assert("recommended"@.len() == 11);
            assert("name"@ != "recommended"@);
            assert("gameVersion"@[0] == 'g');
            assert("recommended"@[0] == 'r');
            assert("gameVersion"@ != "recommended"@);
            assert("latest"@.len() == 6);
            assert("recommended"@.len() == 11);
            assert("latest"@ != "recommended"@);
            reveal_with_fuel(crate::json::obj_get, 7);
        }
        assert(crate::json::obj_get(o, "dateModified"@) == Option::Some(JsonV::Str(x.date_modified@))) by {
            reveal_strlit("name");
            reveal_strlit("gameVersion");
            reveal_strlit("latest");
            reveal_strlit("recommended");
            reveal_strlit("dateModified");
            assert("name"@.len() == 4);
            assert("dateModified"@.len() == 12);
            assert("name"@ != "dateModified"@);
            assert("gameVersion"@.len() == 11);
            assert("dateModified"@.len() == 12);
            assert("gameVersion"@ != "dateModified"@);
            assert("latest"@.len() == 6);
            assert("dateModified"@.len() == 12);
            assert("latest"@ != "dateModified"@);
            assert("recommended"@.len() == 11);
            assert("dateModified"@.len() == 12);
            assert("recommended"@ != "dateModified"@);
            reveal_with_fuel(crate::json::obj_get, 7);
        }
        assert(crate::json::obj_get(o, "type"@) == Option::Some(JsonV::Int(x.loader_type.code()))) by {
            reveal_strlit("name");
            reveal_strlit("gameVersion");
            reveal_strlit("latest");
            reveal_strlit("recommended");
            reveal_strlit("dateModified");
            reveal_strlit("type");
            assert("name"@[0] == 'n');
            assert("type"@[0] == 't');
            assert("name"@ != "type"@);
            assert("gameVersion"@.len() == 11);
            assert("type"@.len() == 4);
            assert("gameVersion"@ != "type"@);
            assert("latest"@.len() == 6);
            assert("type"@.len() == 4);
            assert("latest"@ != "type"@);
            assert("recommended"@.len() == 11);
            assert("type"@.len() == 4);
            assert("recommended"@ != "type"@);
            assert("dateModified"@.len() == 12);
            assert("type"@.len() == 4);
            assert("dateModified"@ != "type"@);
            reveal_with_fuel(crate::json::obj_get, 7);
        }
        x.loader_type.lemma_code_inverse(0);
    }

    /// Two values that one JSON document decodes to are equal, field for field.
    pub proof fn lemma_deterministic(j: JsonV, x: MinecraftModLoaderIndex, y: MinecraftModLoaderIndex)
        requires
            MinecraftModLoaderIndex::decodes_to(j, x),
            MinecraftModLoaderIndex::decodes_to(j, y),
        ensures
            y.name@ == x.name@,
            y.game_version@ == x.game_version@,
            y.latest == x.latest,
            y.recommended == x.recommended,
            y.date_modified@ == x.date_modified@,
            y.loader_type == x.loader_type,
            y.jv() == x.jv(),
    {
        let o = j->Obj_0;
        assert(JsonV::Str(y.name@) =~~= JsonV::Str(x.name@));
        assert(JsonV::Str(y.game_version@) =~~= JsonV::Str(x.game_version@));
        assert(JsonV::Bool(y.latest) =~~= JsonV::Bool(x.latest));
        assert(JsonV::Bool(y.recommended) =~~= JsonV::Bool(x.recommended));
        assert(JsonV::Str(y.date_modified@) =~~= JsonV::Str(x.date_modified@));
        assert(JsonV::Int(y.loader_type.code()) =~~= JsonV::Int(x.loader_type.code()));
        let oy = y.jv()->Obj_0;
        let ox = x.jv()->Obj_0;
        assert(oy[0] =~~= ox[0]);
        assert(oy[1] =~~= ox[1]);
        assert(oy[2] =~~= ox[2]);
        assert(oy[3] =~~= ox[3]);
        assert(oy[4] =~~= ox[4]);
        assert(oy[5] =~~= ox[5]);
        assert forall|n: int| 0 <= n < ox.len() implies oy[n] =~~= ox[n] by {
            if n == 0 {
                assert(oy[n] =~~= ox[n]);
            } else if n == 1 {
                assert(oy[n] =~~= ox[n]);
            } else if n == 2 {
                assert(oy[n] =~~= ox[n]);
            } else if n == 3 {
                assert(oy[n] =~~= ox[n]);
            } else if n == 4 {
                assert(oy[n] =~~= ox[n]);
            } else if n == 5 {
                assert(oy[n] =~~= ox[n]);
            }
        }
        assert(oy =~~= ox);
        assert(y.jv() =~~= x.jv());
    }
}

/// Everything the service reports about one mod-loader version.
#[derive(Debug, Clone)]
pub struct MinecraftModLoaderVersion {
    pub id: i32,
    pub game_version_id: i32,
    pub minecraft_game_version_id: i32,
    pub forge_version: String,
    pub name: String,
    pub loader_type: ModLoaderType,
    pub download_url: String,
    pub filename: String,
    pub install_method: ModLoaderInstallMethod,
    pub latest: bool,
    pub recommended: bool,
    pub approved: bool,
    pub date_modified: String,
    pub maven_version_string: String,
    pub version_json: String,
    pub libraries_install_location: String,
    pub minecraft_version: String,
    pub additional_files_json: String,
    pub mod_loader_game_version_id: i32,
    pub mod_loader_game_version_type_id: i32,
    pub mod_loader_game_version_status: GameVersionStatus,
    pub mod_loader_game_version_type_status: GameVersionTypeStatus,
    pub mc_game_version_id: i32,
    pub mc_game_version_type_id: i32,
    pub mc_game_version_status: GameVersionStatus,
    pub mc_game_version_type_status: GameVersionTypeStatus,
    pub install_profile_json: String,
}

impl MinecraftModLoaderVersion {
    /// The JSON document of this value, member for member.
    pub open spec fn jv(self) -> JsonV {
        JsonV::Obj(seq![
            ("id"@, JsonV::Int(self.id as int)),
            ("gameVersionId"@, JsonV::Int(self.game_version_id as int)),
            ("minecraftGameVersionId"@, JsonV::Int(self.minecraft_game_version_id as int)),
            ("forgeVersion"@, JsonV::Str(self.forge_version@)),
            ("name"@, JsonV::Str(self.name@)),
            ("type"@, JsonV::Int(self.loader_type.code())),
            ("downloadUrl"@, JsonV::Str(self.download_url@)),
            ("filename"@, JsonV::Str(self.filename@)),
            ("installMethod"@, JsonV::Int(self.install_method.code())),
            ("latest"@, JsonV::Bool(self.latest)),
            ("recommended"@, JsonV::Bool(self.recommended)),
            ("approved"@, JsonV::Bool(self.approved)),
            ("dateModified"@, JsonV::Str(self.date_modified@)),
            ("mavenVersionString"@, JsonV::Str(self.maven_version_string@)),
            ("versionJson"@, JsonV::Str(self.version_json@)),
            ("librariesInstallLocation"@, JsonV::Str(self.libraries_install_location@)),
            ("minecraftVersion"@, JsonV::Str(self.minecraft_version@)),
            ("additionalFilesJson"@, JsonV::Str(self.additional_files_json@)),
            ("modLoaderGameVersionId"@, JsonV::Int(self.mod_loader_game_version_id as int)),
            ("modLoaderGameVersionTypeId"@, JsonV::Int(self.mod_loader_game_version_type_id as int)),
            ("modLoaderGameVersionStatus"@, JsonV::Int(self.mod_loader_game_version_status.code())),
            ("modLoaderGameVersionTypeStatus"@, JsonV::Int(self.mod_loader_game_version_type_status.code())),
            ("mcGameVersionId"@, JsonV::Int(self.mc_game_version_id as int)),
            ("mcGameVersionTypeId"@, JsonV::Int(self.mc_game_version_type_id as int)),
            ("mcGameVersionStatus"@, JsonV::Int(self.mc_game_version_status.code())),
            ("mcGameVersionTypeStatus"@, JsonV::Int(self.mc_game_version_type_status.code())),
            ("installProfileJson"@, JsonV::Str(self.install_profile_json@)),
        ])
    }

    /// What it means for a JSON document to decode to this value.
    pub open spec fn decodes_to(j: JsonV, x: MinecraftModLoaderVersion) -> bool {
        &&& j matches JsonV::Obj(o)
        &&& crate::fields::jv_i32(o, "id"@) == Option::Some(x.id)
        &&& crate::fields::jv_i32(o, "gameVersionId"@) == Option::Some(x.game_version_id)
        &&& crate::fields::jv_i32(o, "minecraftGameVersionId"@) == Option::Some(x.minecraft_game_version_id)
        &&& crate::fields::jv_str(o, "forgeVersion"@) == Option::Some(x.forge_version@)
        &&& crate::fields::jv_str(o, "name"@) == Option::Some(x.name@)
        &&& ModLoaderType::from_member(o, "type"@) == Option::Some(x.loader_type)
        &&& crate::fields::jv_str(o, "downloadUrl"@) == Option::Some(x.download_url@)
        &&& crate::fields::jv_str(o, "filename"@) == Option::Some(x.filename@)
        &&& ModLoaderInstallMethod::from_member(o, "installMethod"@) == Option::Some(x.install_method)
        &&& crate::fields::jv_bool(o, "latest"@) == Option::Some(x.latest)
        &&& crate::fields::jv_bool(o, "recommended"@) == Option::Some(x.recommended)
        &&& crate::fields::jv_bool(o, "approved"@) == Option::Some(x.approved)
        &&& crate::fields::jv_str(o, "dateModified"@) == Option::Some(x.date_modified@)
        &&& crate::fields::jv_str(o, "mavenVersionString"@) == Option::Some(x.maven_version_string@)
        &&& crate::fields::jv_str(o, "versionJson"@) == Option::Some(x.version_json@)
        &&& crate::fields::jv_str(o, "librariesInstallLocation"@) == Option::Some(x.libraries_install_location@)
        &&& crate::fields::jv_str(o, "minecraftVersion"@) == Option::Some(x.minecraft_version@)
        &&& crate::fields::jv_str(o, "additionalFilesJson"@) == Option::Some(x.additional_files_json@)
        &&& crate::fields::jv_i32(o, "modLoaderGameVersionId"@) == Option::Some(x.mod_loader_game_version_id)
        &&& crate::fields::jv_i32(o, "modLoaderGameVersionTypeId"@) == Option::Some(x.mod_loader_game_version_type_id)
        &&& GameVersionStatus::from_member(o, "modLoaderGameVersionStatus"@) == Option::Some(x.mod_loader_game_version_status)
        &&& GameVersionTypeStatus::from_member(o, "modLoaderGameVersionTypeStatus"@) == Option::Some(x.mod_loader_game_version_type_status)
        &&& crate::fields::jv_i32(o, "mcGameVersionId"@) == Option::Some(x.mc_game_version_id)
        &&& crate::fields::jv_i32(o, "mcGameVersionTypeId"@) == Option::Some(x.mc_game_version_type_id)
        &&& GameVersionStatus::from_member(o, "mcGameVersionStatus"@) == Option::Some(x.mc_game_version_status)
        &&& GameVersionTypeStatus::from_member(o, "mcGameVersionTypeStatus"@) == Option::Some(x.mc_game_version_type_status)
        &&& crate::fields::jv_str(o, "installProfileJson"@) == Option::Some(x.install_profile_json@)
    }

    #[verifier::rlimit(100)]
    #[verifier::spinoff_prover]
    fn members_part0(&self, rest: JsonMembers) -> (m: JsonMembers)
        ensures
            m@ == seq![
                ("id"@, JsonV::Int(self.id as int)),
                ("gameVersionId"@, JsonV::Int(self.game_version_id as int)),
                ("minecraftGameVersionId"@, JsonV::Int(self.minecraft_game_version_id as int)),
                ("forgeVersion"@, JsonV::Str(self.forge_version@)),
                ("name"@, JsonV::Str(self.name@)),
                ("type"@, JsonV::Int(self.loader_type.code())),
                ("downloadUrl"@, JsonV::Str(self.download_url@)),
            ] + rest@,
    {
        let ghost rest_v = rest@;
        let mut m = rest;
        m = crate::fields::cons_member("downloadUrl", Json::Str(self.download_url.clone()), m);
        m = crate::fields::cons_member("type", Json::Int(self.loader_type.to_code()), m);
        m = crate::fields::cons_member("name", Json::Str(self.name.clone()), m);
        m = crate::fields::cons_member("forgeVersion", Json::Str(self.forge_version.clone()), m);
        m = crate::fields::cons_member("minecraftGameVersionId", Json::Int(self.minecraft_game_version_id as i64), m);
        m = crate::fields::cons_member("gameVersionId", Json::Int(self.game_version_id as i64), m);
        m = crate::fields::cons_member("id", Json::Int(self.id as i64), m);
        proof {
            let ghost m_v = m@;
            assert(m_v[0] =~~= ("id"@, JsonV::Int(self.id as int)));
            assert(m_v[1] =~~= ("gameVersionId"@, JsonV::Int(self.game_version_id as int)));
            assert(m_v[2] =~~= ("minecraftGameVersionId"@, JsonV::Int(self.minecraft_game_version_id as int)));
            assert(m_v[3] =~~= ("forgeVersion"@, JsonV::Str(self.forge_version@)));
            assert(m_v[4] =~~= ("name"@, JsonV::Str(self.name@)));
            assert(m_v[5] =~~= ("type"@, JsonV::Int(self.loader_type.code())));
            assert(m_v[6] =~~= ("downloadUrl"@, JsonV::Str(self.download_url@)));
            assert(m_v =~~= seq![
                ("id"@, JsonV::Int(self.id as int)),
                ("gameVersionId"@, JsonV::Int(self.game_version_id as int)),
                ("minecraftGameVersionId"@, JsonV::Int(self.minecraft_game_version_id as int)),
                ("forgeVersion"@, JsonV::Str(self.forge_version@)),
                ("name"@, JsonV::Str(self.name@)),
                ("type"@, JsonV::Int(self.loader_type.code())),
                ("downloadUrl"@, JsonV::Str(self.download_url@)),
            ] + rest_v);
        }
        m
    }

    #[verifier::rlimit(100)]
    #[verifier::spinoff_prover]
    fn members_part1(&self, rest: JsonMembers) -> (m: JsonMembers)
        ensures
            m@ == seq![
                ("filename"@, JsonV::Str(self.filename@)),
                ("installMethod"@, JsonV::Int(self.install_method.code())),
                ("latest"@, JsonV::Bool(self.latest)),
                ("recommended"@, JsonV::Bool(self.recommended)),
                ("approved"@, JsonV::Bool(self.approved)),
                ("dateModified"@, JsonV::Str(self.date_modified@)),
                ("mavenVersionString"@, JsonV::Str(self.maven_version_string@)),
            ] + rest@,
    {
        let ghost rest_v = rest@;
        let mut m = rest;
        m = crate::fields::cons_member("mavenVersionString", Json::Str(self.maven_version_string.clone()), m);
        m = crate::fields::cons_member("dateModified", Json::Str(self.date_modified.clone()), m);
        m = crate::fields::cons_member("approved", Json::Bool(self.approved), m);
        m = crate::fields::cons_member("recommended", Json::Bool(self.recommended), m);
        m = crate::fields::cons_member("latest", Json::Bool(self.latest), m);
        m = crate::fields::cons_member("installMethod", Json::Int(self.install_method.to_code()), m);
        m = crate::fields::cons_member("filename", Json::Str(self.filename.clone()), m);
        proof {
            let ghost m_v = m@;
            assert(m_v[0] =~~= ("filename"@, JsonV::Str(self.filename@)));
            assert(m_v[1] =~~= ("installMethod"@, JsonV::Int(self.install_method.code())));
            assert(m_v[2] =~~= ("latest"@, JsonV::Bool(self.latest)));
            assert(m_v[3] =~~= ("recommended"@, JsonV::Bool(self.recommended)));
            assert(m_v[4] =~~= ("approved"@, JsonV::Bool(self.approved)));
            assert(m_v[5] =~~= ("dateModified"@, JsonV::Str(self.date_modified@)));
            assert(m_v[6] =~~= ("mavenVersionString"@, JsonV::Str(self.maven_version_string@)));
            assert(m_v =~~= seq![
                ("filename"@, JsonV::Str(self.filename@)),
                ("installMethod"@, JsonV::Int(self.install_method.code())),
                ("latest"@, JsonV::Bool(self.latest)),
                ("recommended"@, JsonV::Bool(self.recommended)),
                ("approved"@, JsonV::Bool(self.approved)),
                ("dateModified"@, JsonV::Str(self.date_modified@)),
                ("mavenVersionString"@, JsonV::Str(self.maven_version_string@)),
            ] + rest_v);
        }
        m
    }

    #[verifier::rlimit(100)]
    #[verifier::spinoff_prover]
    fn members_part2(&self, rest: JsonMembers) -> (m: JsonMembers)
        ensures
            m@ == seq![
                ("versionJson"@, JsonV::Str(self.version_json@)),
                ("librariesInstallLocation"@, JsonV::Str(self.libraries_install_location@)),
                ("minecraftVersion"@, JsonV::Str(self.minecraft_version@)),
                ("additionalFilesJson"@, JsonV::Str(self.additional_files_json@)),
                ("modLoaderGameVersionId"@, JsonV::Int(self.mod_loader_game_version_id as int)),
                ("modLoaderGameVersionTypeId"@, JsonV::Int(self.mod_loader_game_version_type_id as int)),
                ("modLoaderGameVersionStatus"@, JsonV::Int(self.mod_loader_game_version_status.code())),
            ] + rest@,
    {
        let ghost rest_v = rest@;
        let mut m = rest;
        m = crate::fields::cons_member("modLoaderGameVersionStatus", Json::Int(self.mod_loader_game_version_status.to_code()), m);
        m = crate::fields::cons_member("modLoaderGameVersionTypeId", Json::Int(self.mod_loader_game_version_type_id as i64), m);
        m = crate::fields::cons_member("modLoaderGameVersionId", Json::Int(self.mod_loader_game_version_id as i64), m);
        m = crate::fields::cons_member("additionalFilesJson", Json::Str(self.additional_files_json.clone()), m);
        m = crate::fields::cons_member("minecraftVersion", Json::Str(self.minecraft_version.clone()), m);
        m = crate::fields::cons_member("librariesInstallLocation", Json::Str(self.libraries_install_location.clone()), m);
        m = crate::fields::cons_member("versionJson", Json::Str(self.version_json.clone()), m);
        proof {
            let ghost m_v = m@;
            assert(m_v[0] =~~= ("versionJson"@, JsonV::Str(self.version_json@)));
            assert(m_v[1] =~~= ("librariesInstallLocation"@, JsonV::Str(self.libraries_install_location@)));
            assert(m_v[2] =~~= ("minecraftVersion"@, JsonV::Str(self.minecraft_version@)));
            assert(m_v[3] =~~= ("additionalFilesJson"@, JsonV::Str(self.additional_files_json@)));
            assert(m_v[4] =~~= ("modLoaderGameVersionId"@, JsonV::Int(self.mod_loader_game_version_id as int)));
            assert(m_v[5] =~~= ("modLoaderGameVersionTypeId"@, JsonV::Int(self.mod_loader_game_version_type_id as int)));
            assert(m_v[6] =~~= ("modLoaderGameVersionStatus"@, JsonV::Int(self.mod_loader_game_version_status.code())));
            assert(m_v =~~= seq![
                ("versionJson"@, JsonV::Str(self.version_json@)),
                ("librariesInstallLocation"@, JsonV::Str(self.libraries_install_location@)),
                ("minecraftVersion"@, JsonV::Str(self.minecraft_version@)),
                ("additionalFilesJson"@, JsonV::Str(self.additional_files_json@)),
                ("modLoaderGameVersionId"@, JsonV::Int(self.mod_loader_game_version_id as int)),
                ("modLoaderGameVersionTypeId"@, JsonV::Int(self.mod_loader_game_version_type_id as int)),
                ("modLoaderGameVersionStatus"@, JsonV::Int(self.mod_loader_game_version_status.code())),
            ] + rest_v);
        }
        m
    }

    #[verifier::rlimit(100)]
    #[verifier::spinoff_prover]
    fn members_part3(&self, rest: JsonMembers) -> (m: JsonMembers)
        ensures
            m@ == seq![
                ("modLoaderGameVersionTypeStatus"@, JsonV::Int(self.mod_loader_game_version_type_status.code())),
                ("mcGameVersionId"@, JsonV::Int(self.mc_game_version_id as int)),
                ("mcGameVersionTypeId"@, JsonV::Int(self.mc_game_version_type_id as int)),
                ("mcGameVersionStatus"@, JsonV::Int(self.mc_game_version_status.code())),
                ("mcGameVersionTypeStatus"@, JsonV::Int(self.mc_game_version_type_status.code())),
                ("installProfileJson"@, JsonV::Str(self.install_profile_json@)),
            ] + rest@,
    {
        let ghost rest_v = rest@;
        let mut m = rest;
        m = crate::fields::cons_member("installProfileJson", Json::Str(self.install_profile_json.clone()), m);
        m = crate::fields::cons_member("mcGameVersionTypeStatus", Json::Int(self.mc_game_version_type_status.to_code()), m);
        m = crate::fields::cons_member("mcGameVersionStatus", Json::Int(self.mc_game_version_status.to_code()), m);
        m = crate::fields::cons_member("mcGameVersionTypeId", Json::Int(self.mc_game_version_type_id as i64), m);
        m = crate::fields::cons_member("mcGameVersionId", Json::Int(self.mc_game_version_id as i64), m);
        m = crate::fields::cons_member("modLoaderGameVersionTypeStatus", Json::Int(self.mod_loader_game_version_type_status.to_code()), m);
        proof {
            let ghost m_v = m@;
            assert(m_v[0] =~~= ("modLoaderGameVersionTypeStatus"@, JsonV::Int(self.mod_loader_game_version_type_status.code())));
            assert(m_v[1] =~~= ("mcGameVersionId"@, JsonV::Int(self.mc_game_version_id as int)));
            assert(m_v[2] =~~= ("mcGameVersionTypeId"@, JsonV::Int(self.mc_game_version_type_id as int)));
            assert(m_v[3] =~~= ("mcGameVersionStatus"@, JsonV::Int(self.mc_game_version_status.code())));
            assert(m_v[4] =~~= ("mcGameVersionTypeStatus"@, JsonV::Int(self.mc_game_version_type_status.code())));
            assert(m_v[5] =~~= ("installProfileJson"@, JsonV::Str(self.install_profile_json@)));
            assert(m_v =~~= seq![
                ("modLoaderGameVersionTypeStatus"@, JsonV::Int(self.mod_loader_game_version_type_status.code())),
                ("mcGameVersionId"@, JsonV::Int(self.mc_game_version_id as int)),
                ("mcGameVersionTypeId"@, JsonV::Int(self.mc_game_version_type_id as int)),
                ("mcGameVersionStatus"@, JsonV::Int(self.mc_game_version_status.code())),
                ("mcGameVersionTypeStatus"@, JsonV::Int(self.mc_game_version_type_status.code())),
                ("installProfileJson"@, JsonV::Str(self.install_profile_json@)),
            ] + rest_v);
        }
        m
    }

    #[verifier::rlimit(100)]
    #[verifier::spinoff_prover]
    pub fn to_json(&self) -> (r: Json)
        ensures
            r@ == self.jv(),
    {
        let mut m = JsonMembers::Nil;
        m = self.members_part3(m);
        m = self.members_part2(m);
        m = self.members_part1(m);
        m = self.members_part0(m);
        let ghost m_v = m@;
        let r = Json::Obj(Box::new(m));
        proof {
            assert(r matches Json::Obj(o2) && crate::json::members_view(*o2) == m_v);
            assert(r@ == JsonV::Obj(m_v));
            assert(m_v =~~= self.jv()->Obj_0);
            assert(r@ =~~= self.jv());
        }
        r
    }

    #[verifier::rlimit(100)]
    #[verifier::spinoff_prover]
    pub fn from_json(j: &Json) -> (r: Option<MinecraftModLoaderVersion>)
        ensures
            r matches Option::Some(x) ==> MinecraftModLoaderVersion::decodes_to(j@, x),
            r is None ==> forall|x: MinecraftModLoaderVersion| !MinecraftModLoaderVersion::decodes_to(j@, x),
    {
        match j {
            Json::Obj(m) => {
            let id = match crate::fields::get_i32(m, "id") {
                Option::Some(v) => v,
                Option::None => {
                    return Option::None;
                },
            };
            let game_version_id = match crate::fields::get_i32(m, "gameVersionId") {
                Option::Some(v) => v,
                Option::None => {
                    return Option::None;
                },
            };
            let minecraft_game_version_id = match crate::fields::get_i32(m, "minecraftGameVersionId") {
                Option::Some(v) => v,
                Option::None => {
                    return Option::None;
                },
            };
            let forge_version = match crate::fields::get_str(m, "forgeVersion") {
                Option::Some(v) => v,
                Option::None => {
                    return Option::None;
                },
            };
            let name = match crate::fields::get_str(m, "name") {
                Option::Some(v) => v,
                Option::None => {
                    return Option::None;
                },
            };
            let loader_type = match ModLoaderType::get_member(m, "type") {
                Option::Some(v) => v,
                Option::None => {
                    return Option::None;
                },
            };
            let download_url = match crate::fields::get_str(m, "downloadUrl") {
                Option::Some(v) => v,
                Option::None => {
                    return Option::None;
                },
            };
            let filename = match crate::fields::get_str(m, "filename") {
                Option::Some(v) => v,
                Option::None => {
                    return Option::None;
                },
            };
            let install_method = match ModLoaderInstallMethod::get_member(m, "installMethod") {
                Option::Some(v) => v,
                Option::None => {
                    return Option::None;
                },
            };
            let latest = match crate::fields::get_bool(m, "latest") {
                Option::Some(v) => v,
                Option::None => {
                    return Option::None;
                },
            };
            let recommended = match crate::fields::get_bool(m, "recommended") {
                Option::Some(v) => v,
                Option::None => {
                    return Option::None;
                },
            };
            let approved = match crate::fields::get_bool(m, "approved") {
                Option::Some(v) => v,
                Option::None => {
                    return Option::None;
                },
            };
            let date_modified = match crate::fields::get_str(m, "dateModified") {
                Option::Some(v) => v,
                Option::None => {
                    return Option::None;
                },
            };
            let maven_version_string = match crate::fields::get_str(m, "mavenVersionString") {
                Option::Some(v) => v,
                Option::None => {
                    return Option::None;
                },
            };
            let version_json = match crate::fields::get_str(m, "versionJson") {
                Option::Some(v) => v,
                Option::None => {
                    return Option::None;
                },
            };
            let libraries_install_location = match crate::fields::get_str(m, "librariesInstallLocation") {
                Option::Some(v) => v,
                Option::None => {
                    return Option::None;
                },
            };
            let minecraft_version = match crate::fields::get_str(m, "minecraftVersion") {
                Option::Some(v) => v,
                Option::None => {
                    return Option::None;
                },
            };
            let additional_files_json = match crate::fields::get_str(m, "additionalFilesJson") {
                Option::Some(v) => v,
                Option::None => {
                    return Option::None;
                },
            };
            let mod_loader_game_version_id = match crate::fields::get_i32(m, "modLoaderGameVersionId") {
                Option::Some(v) => v,
                Option::None => {
                    return Option::None;
                },
            };
            let mod_loader_game_version_type_id = match crate::fields::get_i32(m, "modLoaderGameVersionTypeId") {
                Option::Some(v) => v,
                Option::None => {
                    return Option::None;
                },
            };
            let mod_loader_game_version_status = match GameVersionStatus::get_member(m, "modLoaderGameVersionStatus") {
                Option::Some(v) => v,
                Option::None => {
                    return Option::None;
                },
            };
            let mod_loader_game_version_type_status = match GameVersionTypeStatus::get_member(m, "modLoaderGameVersionTypeStatus") {
                Option::Some(v) => v,
                Option::None => {
                    return Option::None;
                },
            };
            let mc_game_version_id = match crate::fields::get_i32(m, "mcGameVersionId") {
                Option::Some(v) => v,
                Option::None => {
                    return Option::None;
                },
            };
            let mc_game_version_type_id = match crate::fields::get_i32(m, "mcGameVersionTypeId") {
                Option::Some(v) => v,
                Option::None => {
                    return Option::None;
                },
            };
            let mc_game_version_status = match GameVersionStatus::get_member(m, "mcGameVersionStatus") {
                Option::Some(v) => v,
                Option::None => {
                    return Option::None;
                },
            };
            let mc_game_version_type_status = match GameVersionTypeStatus::get_member(m, "mcGameVersionTypeStatus") {
                Option::Some(v) => v,
                Option::None => {
                    return Option::None;
                },
            };
            let install_profile_json = match crate::fields::get_str(m, "installProfileJson") {
                Option::Some(v) => v,
                Option::None => {
                    return Option::None;
                },
            };
                Option::Some(MinecraftModLoaderVersion {
                    id,
                    game_version_id,
                    minecraft_game_version_id,
                    forge_version,
                    name,
                    loader_type,
                    download_url,
                    filename,
                    install_method,
                    latest,
                    recommended,
                    approved,
                    date_modified,
                    maven_version_string,
                    version_json,
                    libraries_install_location,
                    minecraft_version,
                    additional_files_json,
                    mod_loader_game_version_id,
                    mod_loader_game_version_type_id,
                    mod_loader_game_version_status,
                    mod_loader_game_version_type_status,
                    mc_game_version_id,
                    mc_game_version_type_id,
                    mc_game_version_status,
                    mc_game_version_type_status,
                    install_profile_json,
                })
            },
            _ => Option::None,
        }
    }



    /// The JSON document of a value decodes back to it.
    #[verifier::rlimit(100)]
    #[verifier::spinoff_prover]
    pub proof fn lemma_decodes_self(x: MinecraftModLoaderVersion)
        ensures
            MinecraftModLoaderVersion::decodes_to(x.jv(), x),
    {
        let o = x.jv()->Obj_0;
        assert(crate::json::obj_get(o, "id"@) == Option::Some(JsonV::Int(x.id as int))) by {
            reveal_strlit("id");
            reveal_with_fuel(crate::json::obj_get, 28);
        }
        assert(crate::json::obj_get(o, "gameVersionId"@) == Option::Some(JsonV::Int(x.game_version_id as int))) by {
            reveal_strlit("id");
            reveal_strlit("gameVersionId");
            assert("id"@.len() == 2);
            assert("gameVersionId"@.len() == 13);
            assert("id"@ != "gameVersionId"@);
            reveal_with_fuel(crate::json::obj_get, 28);
        }
        assert(crate::json::obj_get(o, "minecraftGameVersionId"@) == Option::Some(JsonV::Int(x.minecraft_game_version_id as int))) by {
            reveal_strlit("id");
            reveal_strlit("gameVersionId");
            reveal_strlit("minecraftGameVersionId");
            assert("id"@.len() == 2);
            assert("minecraftGameVersionId"@.len() == 22);
            assert("id"@ != "minecraftGameVersionId"@);
            assert("gameVersionId"@.len() == 13);
            assert("minecraftGameVersionId"@.len() == 22);
            assert("gameVersionId"@ != "minecraftGameVersionId"@);
            reveal_with_fuel(crate::json::obj_get, 28);
        }
        assert(crate::json::obj_get(o, "forgeVersion"@) == Option::Some(JsonV::Str(x.forge_version@))) by {
            reveal_strlit("id");
            reveal_strlit("gameVersionId");
            reveal_strlit("minecraftGameVersionId");
            reveal_strlit("forgeVersion");
            assert("id"@.len() == 2);
            assert("forgeVersion"@.len() == 12);
            assert("id"@ != "forgeVersion"@);
            assert("gameVersionId"@.len() == 13);
            assert("forgeVersion"@.len() == 12);
            assert("gameVersionId"@ != "forgeVersion"@);
            assert("minecraftGameVersionId"@.len() == 22);
            assert("forgeVersion"@.len() == 12);
            assert("minecraftGameVersionId"@ != "forgeVersion"@);
            reveal_with_fuel(crate::json::obj_get, 28);
        }
        assert(crate::json::obj_get(o, "name"@) == Option::Some(JsonV::Str(x.name@))) by {
            reveal_strlit("id");
            reveal_strlit("gameVersionId");
            reveal_strlit("minecraftGameVersionId");
            reveal_strlit("forgeVersion");
            reveal_strlit("name");
            assert("id"@.len() == 2);
            assert("name"@.len() == 4);
            assert("id"@ != "name"@);
            assert("gameVersionId"@.len() == 13);
            assert("name"@.len() == 4);
            assert("gameVersionId"@ != "name"@);
            assert("minecraftGameVersionId"@.len() == 22);
            assert("name"@.len() == 4);
            assert("minecraftGameVersionId"@ != "name"@);
            assert("forgeVersion"@.len() == 12);
            assert("name"@.len() == 4);
            assert("forgeVersion"@ != "name"@);
            reveal_with_fuel(crate::json::obj_get, 28);
        }
        assert(crate::json::obj_get(o, "type"@) == Option::Some(JsonV::Int(x.loader_type.code()))) by {
            reveal_strlit("id");
            reveal_strlit("gameVersionId");
            reveal_strlit("minecraftGameVersionId");
            reveal_strlit("forgeVersion");
            reveal_strlit("name");
            reveal_strlit("type");
            assert("id"@.len() == 2);
            assert("type"@.len() == 4);
            assert("id"@ != "type"@);
            assert("gameVersionId"@.len() == 13);
            assert("type"@.len() == 4);
            assert("gameVersionId"@ != "type"@);
            assert("minecraftGameVersionId"@.len() == 22);
            assert("type"@.len() == 4);
            assert("minecraftGameVersionId"@ != "type"@);
            assert("forgeVersion"@.len() == 12);
            assert("type"@.len() == 4);
            assert("forgeVersion"@ != "type"@);
            assert("name"@[0] == 'n');
            assert("type"@[0] == 't');
            assert("name"@ != "type"@);
            reveal_with_fuel(crate::json::obj_get, 28);
        }
        assert(crate::json::obj_get(o, "downloadUrl"@) == Option::Some(JsonV::Str(x.download_url@))) by {
            reveal_strlit("id");
            reveal_strlit("gameVersionId");
            reveal_strlit("minecraftGameVersionId");
            reveal_strlit("forgeVersion");
            reveal_strlit("name");
            reveal_strlit("type");
            reveal_strlit("downloadUrl");
            assert("id"@.len() == 2);
            assert("downloadUrl"@.len() == 11);
            assert("id"@ != "downloadUrl"@);
            assert("gameVersionId"@.len() == 13);
            assert("downloadUrl"@.len() == 11);
            assert("gameVersionId"@ != "downloadUrl"@);
            assert("minecraftGameVersionId"@.len() == 22);
            assert("downloadUrl"@.len() == 11);
            assert("minecraftGameVersionId"@ != "downloadUrl"@);
            assert("forgeVersion"@.len() == 12);
            assert("downloadUrl"@.len() == 11);
            assert("forgeVersion"@ != "downloadUrl"@);
            assert("name"@.len() == 4);
            assert("downloadUrl"@.len() == 11);
            assert("name"@ != "downloadUrl"@);
            assert("type"@.len() == 4);
            assert("downloadUrl"@.len() == 11);
            assert("type"@ != "downloadUrl"@);
            reveal_with_fuel(crate::json::obj_get, 28);
        }
        assert(crate::json::obj_get(o, "filename"@) == Option::Some(JsonV::Str(x.filename@))) by {
            reveal_strlit("id");
            reveal_strlit("gameVersionId");
            reveal_strlit("minecraftGameVersionId");
            reveal_strlit("forgeVersion");
            reveal_strlit("name");
            reveal_strlit("type");
            reveal_strlit("downloadUrl");
            reveal_strlit("filename");
            assert("id"@.len() == 2);
            assert("filename"@.len() == 8);
            assert("id"@ != "filename"@);
            assert("gameVersionId"@.len() == 13);
            assert("filename"@.len() == 8);
            assert("gameVersionId"@ != "filename"@);
            assert("minecraftGameVersionId"@.len() == 22);
            assert("filename"@.len() == 8);
            assert("minecraftGameVersionId"@ != "filename"@);
            assert("forgeVersion"@.len() == 12);
            assert("filename"@.len() == 8);
            assert("forgeVersion"@ != "filename"@);
            assert("name"@.len() == 4);
            assert("filename"@.len() == 8);
            assert("name"@ != "filename"@);
            assert("type"@.len() == 4);
            assert("filename"@.len() == 8);
            assert("type"@ != "filename"@);
            assert("downloadUrl"@.len() == 11);
            assert("filename"@.len() == 8);
            assert("downloadUrl"@ != "filename"@);
            reveal_with_fuel(crate::json::obj_get, 28);
        }
        assert(crate::json::obj_get(o, "installMethod"@) == Option::Some(JsonV::Int(x.install_method.code()))) by {
            reveal_strlit("id");
            reveal_strlit("gameVersionId");
            reveal_strlit("minecraftGameVersionId");
            reveal_strlit("forgeVersion");
            reveal_strlit("name");
            reveal_strlit("type");
            reveal_strlit("downloadUrl");
            reveal_strlit("filename");
            reveal_strlit("installMethod");
            assert("id"@.len() == 2);
            assert("installMethod"@.len() == 13);
            assert("id"@ != "installMethod"@);
            assert("gameVersionId"@[0] == 'g');
            assert("installMethod"@[0] == 'i');
            assert("gameVersionId"@ != "installMethod"@);
            assert("minecraftGameVersionId"@.len() == 22);
            assert("installMethod"@.len() == 13);
            assert("minecraftGameVersionId"@ != "installMethod"@);
            assert("forgeVersion"@.len() == 12);
            assert("installMethod"@.len() == 13);
            assert("forgeVersion"@ != "installMethod"@);
            assert("name"@.len() == 4);
            assert("installMethod"@.len() == 13);
            assert("name"@ != "installMethod"@);
            assert("type"@.len() == 4);
            assert("installMethod"@.len() == 13);
            assert("type"@ != "installMethod"@);
            assert("downloadUrl"@.len() == 11);
            assert("installMethod"@.len() == 13);
            assert("downloadUrl"@ != "installMethod"@);
            assert("filename"@.len() == 8);
            assert("installMethod"@.len() == 13);
            assert("filename"@ != "installMethod"@);
            reveal_with_fuel(crate::json::obj_get, 28);
        }
        assert(crate::json::obj_get(o, "latest"@) == Option::Some(JsonV::Bool(x.latest))) by {
            reveal_strlit("id");
            reveal_strlit("gameVersionId");
            reveal_strlit("minecraftGameVersionId");
            reveal_strlit("forgeVersion");
            reveal_strlit("name");
            reveal_strlit("type");
            reveal_strlit("downloadUrl");
            reveal_strlit("filename");
            reveal_strlit("installMethod");
            reveal_strlit("latest");
            assert("id"@.len() == 2);
            assert("latest"@.len() == 6);
            assert("id"@ != "latest"@);
            assert("gameVersionId"@.len() == 13);
            assert("latest"@.len() == 6);
            assert("gameVersionId"@ != "latest"@);
            assert("minecraftGameVersionId"@.len() == 22);
            assert("latest"@.len() == 6);
            assert("minecraftGameVersionId"@ != "latest"@);
            assert("forgeVersion"@.len() == 12);
            assert("latest"@.len() == 6);
            assert("forgeVersion"@ != "latest"@);
            assert("name"@.len() == 4);
            assert("latest"@.len() == 6);
            assert("name"@ != "latest"@);
            assert("type"@.len() == 4);
            assert("latest"@.len() == 6);
            assert("type"@ != "latest"@);
            assert("downloadUrl"@.len() == 11);
            assert("latest"@.len() == 6);
            assert("downloadUrl"@ != "latest"@);
            assert("filename"@.len() == 8);
            assert("latest"@.len() == 6);
            assert("filename"@ != "latest"@);
            assert("installMethod"@.len() == 13);
            assert("latest"@.len() == 6);
            assert("installMethod"@ != "latest"@);
            reveal_with_fuel(crate::json::obj_get, 28);
        }
        assert(crate::json::obj_get(o, "recommended"@) == Option::Some(JsonV::Bool(x.recommended))) by {
            reveal_strlit("id");
            reveal_strlit("gameVersionId");
            reveal_strlit("minecraftGameVersionId");
            reveal_strlit("forgeVersion");
            reveal_strlit("name");
            reveal_strlit("type");
            reveal_strlit("downloadUrl");
            reveal_strlit("filename");
            reveal_strlit("installMethod");
            reveal_strlit("latest");
            reveal_strlit("recommended");
            assert("id"@.len() == 2);
            assert("recommended"@.len() == 11);
            assert("id"@ != "recommended"@);
            assert("gameVersionId"@.len() == 13);
            assert("recommended"@.len() == 11);
            assert("gameVersionId"@ != "recommended"@);
            assert("minecraftGameVersionId"@.len() == 22);
            assert("recommended"@.len() == 11);
            assert("minecraftGameVersionId"@ != "recommended"@);
            assert("forgeVersion"@.len() == 12);
            assert("recommended"@.len() == 11);
            assert("forgeVersion"@ != "recommended"@);
            assert("name"@.len() == 4);
            assert("recommended"@.len() == 11);
            assert("name"@ != "recommended"@);
            assert("type"@.len() == 4);
            assert("recommended"@.len() == 11);
            assert("type"@ != "recommended"@);
            assert("downloadUrl"@[0] == 'd');
            assert("recommended"@[0] == 'r');
            assert("downloadUrl"@ != "recommended"@);
            assert("filename"@.len() == 8);
            assert("recommended"@.len() == 11);
            assert("filename"@ != "recommended"@);
            assert("installMethod"@.len() == 13);
            assert("recommended"@.len() == 11);
            assert("installMethod"@ != "recommended"@);
            assert("latest"@.len() == 6);
            assert("recommended"@.len() == 11);
            assert("latest"@ != "recommended"@);
            reveal_with_fuel(crate::json::obj_get, 28);
        }
        assert(crate::json::obj_get(o, "approved"@) == Option::Some(JsonV::Bool(x.approved))) by {
            reveal_strlit("id");
            reveal_strlit("gameVersionId");
            reveal_strlit("minecraftGameVersionId");
            reveal_strlit("forgeVersion");
            reveal_strlit("name");
            reveal_strlit("type");
            reveal_strlit("downloadUrl");
            reveal_strlit("filename");
            reveal_strlit("installMethod");
            reveal_strlit("latest");
            reveal_strlit("recommended");
            reveal_strlit("approved");
            assert("id"@.len() == 2);
            assert("approved"@.len() == 8);
            assert("id"@ != "approved"@);
            assert("gameVersionId"@.len() == 13);
            assert("approved"@.len() == 8);
            assert("gameVersionId"@ != "approved"@);
            assert("minecraftGameVersionId"@.len() == 22);
            assert("approved"@.len() == 8);
            assert("minecraftGameVersionId"@ != "approved"@);
            assert("forgeVersion"@.len() == 12);
            assert("approved"@.len() == 8);
            assert("forgeVersion"@ != "approved"@);
            assert("name"@.len() == 4);
            assert("approved"@.len() == 8);
            assert("name"@ != "approved"@);
            assert("type"@.len() == 4);
            assert("approved"@.len() == 8);
            assert("type"@ != "approved"@);
            assert("downloadUrl"@.len() == 11);
            assert("approved"@.len() == 8);
            assert("downloadUrl"@ != "approved"@);
            assert("filename"@[0] == 'f');
            assert("approved"@[0] == 'a');
            assert("filename"@ != "approved"@);
            assert("installMethod"@.len() == 13);
            assert("approved"@.len() == 8);
            assert("installMethod"@ != "approved"@);
            assert("latest"@.len() == 6);
            assert("approved"@.len() == 8);
            assert("latest"@ != "approved"@);
            assert("recommended"@.len() == 11);
            assert("approved"@.len() == 8);
            assert("recommended"@ != "approved"@);
            reveal_with_fuel(crate::json::obj_get, 28);
        }
        assert(crate::json::obj_get(o, "dateModified"@) == Option::Some(JsonV::Str(x.date_modified@))) by {
            reveal_strlit("id");
            reveal_strlit("gameVersionId");
            reveal_strlit("minecraftGameVersionId");
            reveal_strlit("forgeVersion");
            reveal_strlit("name");
            reveal_strlit("type");
            reveal_strlit("downloadUrl");
            reveal_strlit("filename");
            reveal_strlit("installMethod");
            reveal_strlit("latest");
            reveal_strlit("recommended");
            reveal_strlit("approved");
            reveal_strlit("dateModified");
            assert("id"@.len() == 2);
            assert("dateModified"@.len() == 12);
            assert("id"@ != "dateModified"@);
            assert("gameVersionId"@.len() == 13);
            assert("dateModified"@.len() == 12);
            assert("gameVersionId"@ != "dateModified"@);
            assert("minecraftGameVersionId"@.len() == 22);
            assert("dateModified"@.len() == 12);
            assert("minecraftGameVersionId"@ != "dateModified"@);
            assert("forgeVersion"@[0] == 'f');
            assert("dateModified"@[0] == 'd');
            assert("forgeVersion"@ != "dateModified"@);
            assert("name"@.len() == 4);
            assert("dateModified"@.len() == 12);
            assert("name"@ != "dateModified"@);
            assert("type"@.len() == 4);
            assert("dateModified"@.len() == 12);
            assert("type"@ != "dateModified"@);
            assert("downloadUrl"@.len() == 11);
            assert("dateModified"@.len() == 12);
            assert("downloadUrl"@ != "dateModified"@);
            assert("filename"@.len() == 8);
            assert("dateModified"@.len() == 12);
            assert("filename"@ != "dateModified"@);
            assert("installMethod"@.len() == 13);
            assert("dateModified"@.len() == 12);
            assert("installMethod"@ != "dateModified"@);
            assert("latest"@.len() == 6);
            assert("dateModified"@.len() == 12);
            assert("latest"@ != "dateModified"@);
            assert("recommended"@.len() == 11);
            assert("dateModified"@.len() == 12);
            assert("recommended"@ != "dateModified"@);
            assert("approved"@.len() == 8);
            assert("dateModified"@.len() == 12);
            assert("approved"@ != "dateModified"@);
            reveal_with_fuel(crate::json::obj_get, 28);
        }
        assert(crate::json::obj_get(o, "mavenVersionString"@) == Option::Some(JsonV::Str(x.maven_version_string@))) by {
            reveal_strlit("id");
            reveal_strlit("gameVersionId");
            reveal_strlit("minecraftGameVersionId");
            reveal_strlit("forgeVersion");
            reveal_strlit("name");
            reveal_strlit("type");
            reveal_strlit("downloadUrl");
            reveal_strlit("filename");
            reveal_strlit("installMethod");
            reveal_strlit("latest");
            reveal_strlit("recommended");
            reveal_strlit("approved");
            reveal_strlit("dateModified");
            reveal_strlit("mavenVersionString");
            assert("id"@.len() == 2);
            assert("mavenVersionString"@.len() == 18);
            assert("id"@ != "mavenVersionString"@);
            assert("gameVersionId"@.len() == 13);
            assert("mavenVersionString"@.len() == 18);
            assert("gameVersionId"@ != "mavenVersionString"@);
            assert("minecraftGameVersionId"@.len() == 22);
            assert("mavenVersionString"@.len() == 18);
            assert("minecraftGameVersionId"@ != "mavenVersionString"@);
            assert("forgeVersion"@.len() == 12);
            assert("mavenVersionString"@.len() == 18);
            assert("forgeVersion"@ != "mavenVersionString"@);
            assert("name"@.len() == 4);
            assert("mavenVersionString"@.len() == 18);
            assert("name"@ != "mavenVersionString"@);
            assert("type"@.len() == 4);
            assert("mavenVersionString"@.len() == 18);
            assert("type"@ != "mavenVersionString"@);
            assert("downloadUrl"@.len() == 11);
            assert("mavenVersionString"@.len() == 18);
            assert("downloadUrl"@ != "mavenVersionString"@);
            assert("filename"@.len() == 8);
            assert("mavenVersionString"@.len() == 18);
            assert("filename"@ != "mavenVersionString"@);
            assert("installMethod"@.len() == 13);
            assert("mavenVersionString"@.len() == 18);
            assert("installMethod"@ != "mavenVersionString"@);
            assert("latest"@.len() == 6);
            assert("mavenVersionString"@.len() == 18);
            assert("latest"@ != "mavenVersionString"@);
            assert("recommended"@.len() == 11);
            assert("mavenVersionString"@.len() == 18);
            assert("recommended"@ != "mavenVersionString"@);
            assert("approved"@.len() == 8);
            assert("mavenVersionString"@.len() == 18);
            assert("approved"@ != "mavenVersionString"@);
            assert("dateModified"@.len() == 12);
            assert("mavenVersionString"@.len() == 18);
            assert("dateModified"@ != "mavenVersionString"@);
            reveal_with_fuel(crate::json::obj_get, 28);
        }
        assert(crate::json::obj_get(o, "versionJson"@) == Option::Some(JsonV::Str(x.version_json@))) by {
            reveal_strlit("id");
            reveal_strlit("gameVersionId");
            reveal_strlit("minecraftGameVersionId");
            reveal_strlit("forgeVersion");
            reveal_strlit("name");
            reveal_strlit("type");
            reveal_strlit("downloadUrl");
            reveal_strlit("filename");
            reveal_strlit("installMethod");
            reveal_strlit("latest");
            reveal_strlit("recommended");
            reveal_strlit("approved");
            reveal_strlit("dateModified");
            reveal_strlit("mavenVersionString");
            reveal_strlit("versionJson");
            assert("id"@.len() == 2);
            assert("versionJson"@.len() == 11);
            assert("id"@ != "versionJson"@);
            assert("gameVersionId"@.len() == 13);
            assert("versionJson"@.len() == 11);
            assert("gameVersionId"@ != "versionJson"@);
            assert("minecraftGameVersionId"@.len() == 22);
            assert("versionJson"@.len() == 11);
            assert("minecraftGameVersionId"@ != "versionJson"@);
            assert("forgeVersion"@.len() == 12);
            assert("versionJson"@.len() == 11);
            assert("forgeVersion"@ != "versionJson"@);
            assert("name"@.len() == 4);
            assert("versionJson"@.len() == 11);
            assert("name"@ != "versionJson"@);
            assert("type"@.len() == 4);
            assert("versionJson"@.len() == 11);
            assert("type"@ != "versionJson"@);
            assert("downloadUrl"@[0] == 'd');
            assert("versionJson"@[0] == 'v');
            assert("downloadUrl"@ != "versionJson"@);
            assert("filename"@.len() == 8);
            assert("versionJson"@.len() == 11);
            assert("filename"@ != "versionJson"@);
            assert("installMethod"@.len() == 13);
            assert("versionJson"@.len() == 11);
            assert("installMethod"@ != "versionJson"@);
            assert("latest"@.len() == 6);
            assert("versionJson"@.len() == 11);
            assert("latest"@ != "versionJson"@);
            assert("recommended"@[0] == 'r');
            assert("versionJson"@[0] == 'v');
            assert("recommended"@ != "versionJson"@);
            assert("approved"@.len() == 8);
            assert("versionJson"@.len() == 11);
            assert("approved"@ != "versionJson"@);
            assert("dateModified"@.len() == 12);
            assert("versionJson"@.len() == 11);
            assert("dateModified"@ != "versionJson"@);
            assert("mavenVersionString"@.len() == 18);
            assert("versionJson"@.len() == 11);
            assert("mavenVersionString"@ != "versionJson"@);
            reveal_with_fuel(crate::json::obj_get, 28);
        }
        assert(crate::json::obj_get(o, "librariesInstallLocation"@) == Option::Some(JsonV::Str(x.libraries_install_location@))) by {
            reveal_strlit("id");
            reveal_strlit("gameVersionId");
            reveal_strlit("minecraftGameVersionId");
            reveal_strlit("forgeVersion");
            reveal_strlit("name");
            reveal_strlit("type");
            reveal_strlit("downloadUrl");
            reveal_strlit("filename");
            reveal_strlit("installMethod");
            reveal_strlit("latest");
            reveal_strlit("recommended");
            reveal_strlit("approved");
            reveal_strlit("dateModified");
            reveal_strlit("mavenVersionString");
            reveal_strlit("versionJson");
            reveal_strlit("librariesInstallLocation");
            assert("id"@.len() == 2);
            assert("librariesInstallLocation"@.len() == 24);
            assert("id"@ != "librariesInstallLocation"@);
            assert("gameVersionId"@.len() == 13);
            assert("librariesInstallLocation"@.len() == 24);
            assert("gameVersionId"@ != "librariesInstallLocation"@);
            assert("minecraftGameVersionId"@.len() == 22);
            assert("librariesInstallLocation"@.len() == 24);
            assert("minecraftGameVersionId"@ != "librariesInstallLocation"@);
            assert("forgeVersion"@.len() == 12);
            assert("librariesInstallLocation"@.len() == 24);
            assert("forgeVersion"@ != "librariesInstallLocation"@);
            assert("name"@.len() == 4);
            assert("librariesInstallLocation"@.len() == 24);
            assert("name"@ != "librariesInstallLocation"@);
            assert("type"@.len() == 4);
            assert("librariesInstallLocation"@.len() == 24);
            assert("type"@ != "librariesInstallLocation"@);
            assert("downloadUrl"@.len() == 11);
            assert("librariesInstallLocation"@.len() == 24);
            assert("downloadUrl"@ != "librariesInstallLocation"@);
            assert("filename"@.len() == 8);
            assert("librariesInstallLocation"@.len() == 24);
            assert("filename"@ != "librariesInstallLocation"@);
            assert("installMethod"@.len() == 13);
            assert("librariesInstallLocation"@.len() == 24);
            assert("installMethod"@ != "librariesInstallLocation"@);
            assert("latest"@.len() == 6);
            assert("librariesInstallLocation"@.len() == 24);
            assert("latest"@ != "librariesInstallLocation"@);
            assert("recommended"@.len() == 11);
            assert("librariesInstallLocation"@.len() == 24);
            assert("recommended"@ != "librariesInstallLocation"@);
            assert("approved"@.len() == 8);
            assert("librariesInstallLocation"@.len() == 24);
            assert("approved"@ != "librariesInstallLocation"@);
            assert("dateModified"@.len() == 12);
            assert("librariesInstallLocation"@.len() == 24);
            assert("dateModified"@ != "librariesInstallLocation"@);
            assert("mavenVersionString"@.len() == 18);
            assert("librariesInstallLocation"@.len() == 24);
            assert("mavenVersionString"@ != "librariesInstallLocation"@);
            assert("versionJson"@.len() == 11);
            assert("librariesInstallLocation"@.len() == 24);
            assert("versionJson"@ != "librariesInstallLocation"@);
            reveal_with_fuel(crate::json::obj_get, 28);
        }
        assert(crate::json::obj_get(o, "minecraftVersion"@) == Option::Some(JsonV::Str(x.minecraft_version@))) by {
            reveal_strlit("id");
            reveal_strlit("gameVersionId");
            reveal_strlit("minecraftGameVersionId");
            reveal_strlit("forgeVersion");
            reveal_strlit("name");
            reveal_strlit("type");
            reveal_strlit("downloadUrl");
            reveal_strlit("filename");
            reveal_strlit("installMethod");
            reveal_strlit("latest");
            reveal_strlit("recommended");
            reveal_strlit("approved");
            reveal_strlit("dateModified");
            reveal_strlit("mavenVersionString");
            reveal_strlit("versionJson");
            reveal_strlit("librariesInstallLocation");
            reveal_strlit("minecraftVersion");
            assert("id"@.len() == 2);
            assert("minecraftVersion"@.len() == 16);
            assert("id"@ != "minecraftVersion"@);
            assert("gameVersionId"@.len() == 13);
            assert("minecraftVersion"@.len() == 16);
            assert("gameVersionId"@ != "minecraftVersion"@);
            assert("minecraftGameVersionId"@.len() == 22);
            assert("minecraftVersion"@.len() == 16);
            assert("minecraftGameVersionId"@ != "minecraftVersion"@);
            assert("forgeVersion"@.len() == 12);
            assert("minecraftVersion"@.len() == 16);
            assert("forgeVersion"@ != "minecraftVersion"@);
            assert("name"@.len() == 4);
            assert("minecraftVersion"@.len() == 16);
            assert("name"@ != "minecraftVersion"@);
            assert("type"@.len() == 4);
            assert("minecraftVersion"@.len() == 16);
            assert("type"@ != "minecraftVersion"@);
            assert("downloadUrl"@.len() == 11);
            assert("minecraftVersion"@.len() == 16);
            assert("downloadUrl"@ != "minecraftVersion"@);
            assert("filename"@.len() == 8);
            assert("minecraftVersion"@.len() == 16);
            assert("filename"@ != "minecraftVersion"@);
            assert("installMethod"@.len() == 13);
            assert("minecraftVersion"@.len() == 16);
            assert("installMethod"@ != "minecraftVersion"@);
            assert("latest"@.len() == 6);
            assert("minecraftVersion"@.len() == 16);
            assert("latest"@ != "minecraftVersion"@);
            assert("recommended"@.len() == 11);
            assert("minecraftVersion"@.len() == 16);
            assert("recommended"@ != "minecraftVersion"@);
            assert("approved"@.len() == 8);
            assert("minecraftVersion"@.len() == 16);
            assert("approved"@ != "minecraftVersion"@);
            assert("dateModified"@.len() == 12);
            assert("minecraftVersion"@.len() == 16);
            assert("dateModified"@ != "minecraftVersion"@);
            assert("mavenVersionString"@.len() == 18);
            assert("minecraftVersion"@.len() == 16);
            assert("mavenVersionString"@ != "minecraftVersion"@);
            assert("versionJson"@.len() == 11);
            assert("minecraftVersion"@.len() == 16);
            assert("versionJson"@ != "minecraftVersion"@);
            assert("librariesInstallLocation"@.len() == 24);
            assert("minecraftVersion"@.len() == 16);
            assert("librariesInstallLocation"@ != "minecraftVersion"@);
            reveal_with_fuel(crate::json::obj_get, 28);
        }
        assert(crate::json::obj_get(o, "additionalFilesJson"@) == Option::Some(JsonV::Str(x.additional_files_json@))) by {
            reveal_strlit("id");
            reveal_strlit("gameVersionId");
            reveal_strlit("minecraftGameVersionId");
            reveal_strlit("forgeVersion");
            reveal_strlit("name");
            reveal_strlit("type");
            reveal_strlit("downloadUrl");
            reveal_strlit("filename");
            reveal_strlit("installMethod");
            reveal_strlit("latest");
            reveal_strlit("recommended");
            reveal_strlit("approved");
            reveal_strlit("dateModified");
            reveal_strlit("mavenVersionString");
            reveal_strlit("versionJson");
            reveal_strlit("librariesInstallLocation");
            reveal_strlit("minecraftVersion");
            reveal_strlit("additionalFilesJson");
            assert("id"@.len() == 2);
            assert("additionalFilesJson"@.len() == 19);
            assert("id"@ != "additionalFilesJson"@);
            assert("gameVersionId"@.len() == 13);
            assert("additionalFilesJson"@.len() == 19);
            assert("gameVersionId"@ != "additionalFilesJson"@);
            assert("minecraftGameVersionId"@.len() == 22);
            assert("additionalFilesJson"@.len() == 19);
            assert("minecraftGameVersionId"@ != "additionalFilesJson"@);
            assert("forgeVersion"@.len() == 12);
            assert("additionalFilesJson"@.len() == 19);
            assert("forgeVersion"@ != "additionalFilesJson"@);
            assert("name"@.len() == 4);
            assert("additionalFilesJson"@.len() == 19);
            assert("name"@ != "additionalFilesJson"@);
            assert("type"@.len() == 4);
            assert("additionalFilesJson"@.len() == 19);
            assert("type"@ != "additionalFilesJson"@);
            assert("downloadUrl"@.len() == 11);
            assert("additionalFilesJson"@.len() == 19);
            assert("downloadUrl"@ != "additionalFilesJson"@);
            assert("filename"@.len() == 8);
            assert("additionalFilesJson"@.len() == 19);
            assert("filename"@ != "additionalFilesJson"@);
            assert("installMethod"@.len() == 13);
            assert("additionalFilesJson"@.len() == 19);
            assert("installMethod"@ != "additionalFilesJson"@);
            assert("latest"@.len() == 6);
            assert("additionalFilesJson"@.len() == 19);
            assert("latest"@ != "additionalFilesJson"@);
            assert("recommended"@.len() == 11);
            assert("additionalFilesJson"@.len() == 19);
            assert("recommended"@ != "additionalFilesJson"@);
            assert("approved"@.len() == 8);
            assert("additionalFilesJson"@.len() == 19);
            assert("approved"@ != "additionalFilesJson"@);
            assert("dateModified"@.len() == 12);
            assert("additionalFilesJson"@.len() == 19);
            assert("dateModified"@ != "additionalFilesJson"@);
            assert("mavenVersionString"@.len() == 18);
            assert("additionalFilesJson"@.len() == 19);
            assert("mavenVersionString"@ != "additionalFilesJson"@);
            assert("versionJson"@.len() == 11);
            assert("additionalFilesJson"@.len() == 19);
            assert("versionJson"@ != "additionalFilesJson"@);
            assert("librariesInstallLocation"@.len() == 24);
            assert("additionalFilesJson"@.len() == 19);
            assert("librariesInstallLocation"@ != "additionalFilesJson"@);
            assert("minecraftVersion"@.len() == 16);
            assert("additionalFilesJson"@.len() == 19);
            assert("minecraftVersion"@ != "additionalFilesJson"@);
            reveal_with_fuel(crate::json::obj_get, 28);
        }
        assert(crate::json::obj_get(o, "modLoaderGameVersionId"@) == Option::Some(JsonV::Int(x.mod_loader_game_version_id as int))) by {
            reveal_strlit("id");
            reveal_strlit("gameVersionId");
            reveal_strlit("minecraftGameVersionId");
            reveal_strlit("forgeVersion");
            reveal_strlit("name");
            reveal_strlit("type");
            reveal_strlit("downloadUrl");
            reveal_strlit("filename");
            reveal_strlit("installMethod");
            reveal_strlit("latest");
            reveal_strlit("recommended");
            reveal_strlit("approved");
            reveal_strlit("dateModified");
            reveal_strlit("mavenVersionString");
            reveal_strlit("versionJson");
            reveal_strlit("librariesInstallLocation");
            reveal_strlit("minecraftVersion");
            reveal_strlit("additionalFilesJson");
            reveal_strlit("modLoaderGameVersionId");
            assert("id"@.len() == 2);
            assert("modLoaderGameVersionId"@.len() == 22);
            assert("id"@ != "modLoaderGameVersionId"@);
            assert("gameVersionId"@.len() == 13);
            assert("modLoaderGameVersionId"@.len() == 22);
            assert("gameVersionId"@ != "modLoaderGameVersionId"@);
            assert("minecraftGameVersionId"@[1] == 'i');
            assert("modLoaderGameVersionId"@[1] == 'o');
            assert("minecraftGameVersionId"@ != "modLoaderGameVersionId"@);
            assert("forgeVersion"@.len() == 12);
            assert("modLoaderGameVersionId"@.len() == 22);
            assert("forgeVersion"@ != "modLoaderGameVersionId"@);
            assert("name"@.len() == 4);
            assert("modLoaderGameVersionId"@.len() == 22);
            assert("name"@ != "modLoaderGameVersionId"@);
            assert("type"@.len() == 4);
            assert("modLoaderGameVersionId"@.len() == 22);
            assert("type"@ != "modLoaderGameVersionId"@);
            assert("downloadUrl"@.len() == 11);
            assert("modLoaderGameVersionId"@.len() == 22);
            assert("downloadUrl"@ != "modLoaderGameVersionId"@);
            assert("filename"@.len() == 8);
            assert("modLoaderGameVersionId"@.len() == 22);
            assert("filename"@ != "modLoaderGameVersionId"@);
            assert("installMethod"@.len() == 13);
            assert("modLoaderGameVersionId"@.len() == 22);
            assert("installMethod"@ != "modLoaderGameVersionId"@);
            assert("latest"@.len() == 6);
            assert("modLoaderGameVersionId"@.len() == 22);
            assert("latest"@ != "modLoaderGameVersionId"@);
            assert("recommended"@.len() == 11);
            assert("modLoaderGameVersionId"@.len() == 22);
            assert("recommended"@ != "modLoaderGameVersionId"@);
            assert("approved"@.len() == 8);
            assert("modLoaderGameVersionId"@.len() == 22);
            assert("approved"@ != "modLoaderGameVersionId"@);
            assert("dateModified"@.len() == 12);
            assert("modLoaderGameVersionId"@.len() == 22);
            assert("dateModified"@ != "modLoaderGameVersionId"@);
            assert("mavenVersionString"@.len() == 18);
            assert("modLoaderGameVersionId"@.len() == 22);
            assert("mavenVersionString"@ != "modLoaderGameVersionId"@);
            assert("versionJson"@.len() == 11);
            assert("modLoaderGameVersionId"@.len() == 22);
            assert("versionJson"@ != "modLoaderGameVersionId"@);
            assert("librariesInstallLocation"@.len() == 24);
            assert("modLoaderGameVersionId"@.len() == 22);
            assert("librariesInstallLocation"@ != "modLoaderGameVersionId"@);
            assert("minecraftVersion"@.len() == 16);
            assert("modLoaderGameVersionId"@.len() == 22);
            assert("minecraftVersion"@ != "modLoaderGameVersionId"@);
            assert("additionalFilesJson"@.len() == 19);
            assert("modLoaderGameVersionId"@.len() == 22);
            assert("additionalFilesJson"@ != "modLoaderGameVersionId"@);
            reveal_with_fuel(crate::json::obj_get, 28);
        }
        assert(crate::json::obj_get(o, "modLoaderGameVersionTypeId"@) == Option::Some(JsonV::Int(x.mod_loader_game_version_type_id as int))) by {
            reveal_strlit("id");
            reveal_strlit("gameVersionId");
            reveal_strlit("minecraftGameVersionId");
            reveal_strlit("forgeVersion");
            reveal_strlit("name");
            reveal_strlit("type");
            reveal_strlit("downloadUrl");
            reveal_strlit("filename");
            reveal_strlit("installMethod");
            reveal_strlit("latest");
            reveal_strlit("recommended");
            reveal_strlit("approved");
            reveal_strlit("dateModified");
            reveal_strlit("mavenVersionString");
            reveal_strlit("versionJson");
            reveal_strlit("librariesInstallLocation");
            reveal_strlit("minecraftVersion");
            reveal_strlit("additionalFilesJson");
            reveal_strlit("modLoaderGameVersionId");
            reveal_strlit("modLoaderGameVersionTypeId");
            assert("id"@.len() == 2);
            assert("modLoaderGameVersionTypeId"@.len() == 26);
            assert("id"@ != "modLoaderGameVersionTypeId"@);
            assert("gameVersionId"@.len() == 13);
            assert("modLoaderGameVersionTypeId"@.len() == 26);
            assert("gameVersionId"@ != "modLoaderGameVersionTypeId"@);
            assert("minecraftGameVersionId"@.len() == 22);
            assert("modLoaderGameVersionTypeId"@.len() == 26);
            assert("minecraftGameVersionId"@ != "modLoaderGameVersionTypeId"@);
            assert("forgeVersion"@.len() == 12);
            assert("modLoaderGameVersionTypeId"@.len() == 26);
            assert("forgeVersion"@ != "modLoaderGameVersionTypeId"@);
            assert("name"@.len() == 4);
            assert("modLoaderGameVersionTypeId"@.len() == 26);
            assert("name"@ != "modLoaderGameVersionTypeId"@);
            assert("type"@.len() == 4);
            assert("modLoaderGameVersionTypeId"@.len() == 26);
            assert("type"@ != "modLoaderGameVersionTypeId"@);
            assert("downloadUrl"@.len() == 11);
            assert("modLoaderGameVersionTypeId"@.len() == 26);
            assert("downloadUrl"@ != "modLoaderGameVersionTypeId"@);
            assert("filename"@.len() == 8);
            assert("modLoaderGameVersionTypeId"@.len() == 26);
            assert("filename"@ != "modLoaderGameVersionTypeId"@);
            assert("installMethod"@.len() == 13);
            assert("modLoaderGameVersionTypeId"@.len() == 26);
            assert("installMethod"@ != "modLoaderGameVersionTypeId"@);
            assert("latest"@.len() == 6);
            assert("modLoaderGameVersionTypeId"@.len() == 26);
            assert("latest"@ != "modLoaderGameVersionTypeId"@);
            assert("recommended"@.len() == 11);
            assert("modLoaderGameVersionTypeId"@.len() == 26);
            assert("recommended"@ != "modLoaderGameVersionTypeId"@);
            assert("approved"@.len() == 8);
            assert("modLoaderGameVersionTypeId"@.len() == 26);
            assert("approved"@ != "modLoaderGameVersionTypeId"@);
            assert("dateModified"@.len() == 12);
            assert("modLoaderGameVersionTypeId"@.len() == 26);
            assert("dateModified"@ != "modLoaderGameVersionTypeId"@);
            assert("mavenVersionString"@.len() == 18);
            assert("modLoaderGameVersionTypeId"@.len() == 26);
            assert("mavenVersionString"@ != "modLoaderGameVersionTypeId"@);
            assert("versionJson"@.len() == 11);
            assert("modLoaderGameVersionTypeId"@.len() == 26);
            assert("versionJson"@ != "modLoaderGameVersionTypeId"@);
            assert("librariesInstallLocation"@.len() == 24);
            assert("modLoaderGameVersionTypeId"@.len() == 26);
            assert("librariesInstallLocation"@ != "modLoaderGameVersionTypeId"@);
            assert("minecraftVersion"@.len() == 16);
            assert("modLoaderGameVersionTypeId"@.len() == 26);
            assert("minecraftVersion"@ != "modLoaderGameVersionTypeId"@);
            assert("additionalFilesJson"@.len() == 19);
            assert("modLoaderGameVersionTypeId"@.len() == 26);
            assert("additionalFilesJson"@ != "modLoaderGameVersionTypeId"@);
            assert("modLoaderGameVersionId"@.len() == 22);
            assert("modLoaderGameVersionTypeId"@.len() == 26);
            assert("modLoaderGameVersionId"@ != "modLoaderGameVersionTypeId"@);
            reveal_with_fuel(crate::json::obj_get, 28);
        }
        assert(crate::json::obj_get(o, "modLoaderGameVersionStatus"@) == Option::Some(JsonV::Int(x.mod_loader_game_version_status.code()))) by {
            reveal_strlit("id");
            reveal_strlit("gameVersionId");
            reveal_strlit("minecraftGameVersionId");
            reveal_strlit("forgeVersion");
            reveal_strlit("name");
            reveal_strlit("type");
            reveal_strlit("downloadUrl");
            reveal_strlit("filename");
            reveal_strlit("installMethod");
            reveal_strlit("latest");
            reveal_strlit("recommended");
            reveal_strlit("approved");
            reveal_strlit("dateModified");
            reveal_strlit("mavenVersionString");
            reveal_strlit("versionJson");
            reveal_strlit("librariesInstallLocation");
            reveal_strlit("minecraftVersion");
            reveal_strlit("additionalFilesJson");
            reveal_strlit("modLoaderGameVersionId");
            reveal_strlit("modLoaderGameVersionTypeId");
            reveal_strlit("modLoaderGameVersionStatus");
            assert("id"@.len() == 2);
            assert("modLoaderGameVersionStatus"@.len() == 26);
            assert("id"@ != "modLoaderGameVersionStatus"@);
            assert("gameVersionId"@.len() == 13);
            assert("modLoaderGameVersionStatus"@.len() == 26);
            assert("gameVersionId"@ != "modLoaderGameVersionStatus"@);
            assert("minecraftGameVersionId"@.len() == 22);
            assert("modLoaderGameVersionStatus"@.len() == 26);
            assert("minecraftGameVersionId"@ != "modLoaderGameVersionStatus"@);
            assert("forgeVersion"@.len() == 12);
            assert("modLoaderGameVersionStatus"@.len() == 26);
            assert("forgeVersion"@ != "modLoaderGameVersionStatus"@);
            assert("name"@.len() == 4);
            assert("modLoaderGameVersionStatus"@.len() == 26);
            assert("name"@ != "modLoaderGameVersionStatus"@);
            assert("type"@.len() == 4);
            assert("modLoaderGameVersionStatus"@.len() == 26);
            assert("type"@ != "modLoaderGameVersionStatus"@);
            assert("downloadUrl"@.len() == 11);
            assert("modLoaderGameVersionStatus"@.len() == 26);
            assert("downloadUrl"@ != "modLoaderGameVersionStatus"@);
            assert("filename"@.len() == 8);
            assert("modLoaderGameVersionStatus"@.len() == 26);
            assert("filename"@ != "modLoaderGameVersionStatus"@);
            assert("installMethod"@.len() == 13);
            assert("modLoaderGameVersionStatus"@.len() == 26);
            assert("installMethod"@ != "modLoaderGameVersionStatus"@);
            assert("latest"@.len() == 6);
            assert("modLoaderGameVersionStatus"@.len() == 26);
            assert("latest"@ != "modLoaderGameVersionStatus"@);
            assert("recommended"@.len() == 11);
            assert("modLoaderGameVersionStatus"@.len() == 26);
            assert("recommended"@ != "modLoaderGameVersionStatus"@);
            assert("approved"@.len() == 8);
            assert("modLoaderGameVersionStatus"@.len() == 26);
            assert("approved"@ != "modLoaderGameVersionStatus"@);
            assert("dateModified"@.len() == 12);
            assert("modLoaderGameVersionStatus"@.len() == 26);
            assert("dateModified"@ != "modLoaderGameVersionStatus"@);
            assert("mavenVersionString"@.len() == 18);
            assert("modLoaderGameVersionStatus"@.len() == 26);
            assert("mavenVersionString"@ != "modLoaderGameVersionStatus"@);
            assert("versionJson"@.len() == 11);
            assert("modLoaderGameVersionStatus"@.len() == 26);
            assert("versionJson"@ != "modLoaderGameVersionStatus"@);
            assert("librariesInstallLocation"@.len() == 24);
            assert("modLoaderGameVersionStatus"@.len() == 26);
            assert("librariesInstallLocation"@ != "modLoaderGameVersionStatus"@);
            assert("minecraftVersion"@.len() == 16);
            assert("modLoaderGameVersionStatus"@.len() == 26);
            assert("minecraftVersion"@ != "modLoaderGameVersionStatus"@);
            assert("additionalFilesJson"@.len() == 19);
            assert("modLoaderGameVersionStatus"@.len() == 26);
            assert("additionalFilesJson"@ != "modLoaderGameVersionStatus"@);
            assert("modLoaderGameVersionId"@.len() == 22);
            assert("modLoaderGameVersionStatus"@.len() == 26);
            assert("modLoaderGameVersionId"@ != "modLoaderGameVersionStatus"@);
            assert("modLoaderGameVersionTypeId"@[20] == 'T');
            assert("modLoaderGameVersionStatus"@[20] == 'S');
            assert("modLoaderGameVersionTypeId"@ != "modLoaderGameVersionStatus"@);
            reveal_with_fuel(crate::json::obj_get, 28);
        }
        assert(crate::json::obj_get(o, "modLoaderGameVersionTypeStatus"@) == Option::Some(JsonV::Int(x.mod_loader_game_version_type_status.code()))) by {
            reveal_strlit("id");
            reveal_strlit("gameVersionId");
            reveal_strlit("minecraftGameVersionId");
            reveal_strlit("forgeVersion");
            reveal_strlit("name");
            reveal_strlit("type");
            reveal_strlit("downloadUrl");
            reveal_strlit("filename");
            reveal_strlit("installMethod");
            reveal_strlit("latest");
            reveal_strlit("recommended");
            reveal_strlit("approved");
            reveal_strlit("dateModified");
            reveal_strlit("mavenVersionString");
            reveal_strlit("versionJson");
            reveal_strlit("librariesInstallLocation");
            reveal_strlit("minecraftVersion");
            reveal_strlit("additionalFilesJson");
            reveal_strlit("modLoaderGameVersionId");
            reveal_strlit("modLoaderGameVersionTypeId");
            reveal_strlit("modLoaderGameVersionStatus");
            reveal_strlit("modLoaderGameVersionTypeStatus");
            assert("id"@.len() == 2);
            assert("modLoaderGameVersionTypeStatus"@.len() == 30);
            assert("id"@ != "modLoaderGameVersionTypeStatus"@);
            assert("gameVersionId"@.len() == 13);
            assert("modLoaderGameVersionTypeStatus"@.len() == 30);
            assert("gameVersionId"@ != "modLoaderGameVersionTypeStatus"@);
            assert("minecraftGameVersionId"@.len() == 22);
            assert("modLoaderGameVersionTypeStatus"@.len() == 30);
            assert("minecraftGameVersionId"@ != "modLoaderGameVersionTypeStatus"@);
            assert("forgeVersion"@.len() == 12);
            assert("modLoaderGameVersionTypeStatus"@.len() == 30);
            assert("forgeVersion"@ != "modLoaderGameVersionTypeStatus"@);
            assert("name"@.len() == 4);
            assert("modLoaderGameVersionTypeStatus"@.len() == 30);
            assert("name"@ != "modLoaderGameVersionTypeStatus"@);
            assert("type"@.len() == 4);
            assert("modLoaderGameVersionTypeStatus"@.len() == 30);
            assert("type"@ != "modLoaderGameVersionTypeStatus"@);
            assert("downloadUrl"@.len() == 11);
            assert("modLoaderGameVersionTypeStatus"@.len() == 30);
            assert("downloadUrl"@ != "modLoaderGameVersionTypeStatus"@);
            assert("filename"@.len() == 8);
            assert("modLoaderGameVersionTypeStatus"@.len() == 30);
            assert("filename"@ != "modLoaderGameVersionTypeStatus"@);
            assert("installMethod"@.len() == 13);
            assert("modLoaderGameVersionTypeStatus"@.len() == 30);
            assert("installMethod"@ != "modLoaderGameVersionTypeStatus"@);
            assert("latest"@.len() == 6);
            assert("modLoaderGameVersionTypeStatus"@.len() == 30);
            assert("latest"@ != "modLoaderGameVersionTypeStatus"@);
            assert("recommended"@.len() == 11);
            assert("modLoaderGameVersionTypeStatus"@.len() == 30);
            assert("recommended"@ != "modLoaderGameVersionTypeStatus"@);
            assert("approved"@.len() == 8);
            assert("modLoaderGameVersionTypeStatus"@.len() == 30);
            assert("approved"@ != "modLoaderGameVersionTypeStatus"@);
            assert("dateModified"@.len() == 12);
            assert("modLoaderGameVersionTypeStatus"@.len() == 30);
            assert("dateModified"@ != "modLoaderGameVersionTypeStatus"@);
            assert("mavenVersionString"@.len() == 18);
            assert("modLoaderGameVersionTypeStatus"@.len() == 30);
            assert("mavenVersionString"@ != "modLoaderGameVersionTypeStatus"@);
            assert("versionJson"@.len() == 11);
            assert("modLoaderGameVersionTypeStatus"@.len() == 30);
            assert("versionJson"@ != "modLoaderGameVersionTypeStatus"@);
            assert("librariesInstallLocation"@.len() == 24);
            assert("modLoaderGameVersionTypeStatus"@.len() == 30);
            assert("librariesInstallLocation"@ != "modLoaderGameVersionTypeStatus"@);
            assert("minecraftVersion"@.len() == 16);
            assert("modLoaderGameVersionTypeStatus"@.len() == 30);
            assert("minecraftVersion"@ != "modLoaderGameVersionTypeStatus"@);
            assert("additionalFilesJson"@.len() == 19);
            assert("modLoaderGameVersionTypeStatus"@.len() == 30);
            assert("additionalFilesJson"@ != "modLoaderGameVersionTypeStatus"@);
            assert("modLoaderGameVersionId"@.len() == 22);
            assert("modLoaderGameVersionTypeStatus"@.len() == 30);
            assert("modLoaderGameVersionId"@ != "modLoaderGameVersionTypeStatus"@);
            assert("modLoaderGameVersionTypeId"@.len() == 26);
            assert("modLoaderGameVersionTypeStatus"@.len() == 30);
            assert("modLoaderGameVersionTypeId"@ != "modLoaderGameVersionTypeStatus"@);
            assert("modLoaderGameVersionStatus"@.len() == 26);
            assert("modLoaderGameVersionTypeStatus"@.len() == 30);
            assert("modLoaderGameVersionStatus"@ != "modLoaderGameVersionTypeStatus"@);
            reveal_with_fuel(crate::json::obj_get, 28);
        }
        assert(crate::json::obj_get(o, "mcGameVersionId"@) == Option::Some(JsonV::Int(x.mc_game_version_id as int))) by {
            reveal_strlit("id");
            reveal_strlit("gameVersionId");
            reveal_strlit("minecraftGameVersionId");
            reveal_strlit("forgeVersion");
            reveal_strlit("name");
            reveal_strlit("type");
            reveal_strlit("downloadUrl");
            reveal_strlit("filename");
            reveal_strlit("installMethod");
            reveal_strlit("latest");
            reveal_strlit("recommended");
            reveal_strlit("approved");
            reveal_strlit("dateModified");
            reveal_strlit("mavenVersionString");
            reveal_strlit("versionJson");
            reveal_strlit("librariesInstallLocation");
            reveal_strlit("minecraftVersion");
            reveal_strlit("additionalFilesJson");
            reveal_strlit("modLoaderGameVersionId");
            reveal_strlit("modLoaderGameVersionTypeId");
            reveal_strlit("modLoaderGameVersionStatus");
            reveal_strlit("modLoaderGameVersionTypeStatus");
            reveal_strlit("mcGameVersionId");
            assert("id"@.len() == 2);
            assert("mcGameVersionId"@.len() == 15);
            assert("id"@ != "mcGameVersionId"@);
            assert("gameVersionId"@.len() == 13);
            assert("mcGameVersionId"@.len() == 15);
            assert("gameVersionId"@ != "mcGameVersionId"@);
            assert("minecraftGameVersionId"@.len() == 22);
            assert("mcGameVersionId"@.len() == 15);
            assert("minecraftGameVersionId"@ != "mcGameVersionId"@);
            assert("forgeVersion"@.len() == 12);
            assert("mcGameVersionId"@.len() == 15);
            assert("forgeVersion"@ != "mcGameVersionId"@);
            assert("name"@.len() == 4);
            assert("mcGameVersionId"@.len() == 15);
            assert("name"@ != "mcGameVersionId"@);
            assert("type"@.len() == 4);
            assert("mcGameVersionId"@.len() == 15);
            assert("type"@ != "mcGameVersionId"@);
            assert("downloadUrl"@.len() == 11);
            assert("mcGameVersionId"@.len() == 15);
            assert("downloadUrl"@ != "mcGameVersionId"@);
            assert("filename"@.len() == 8);
            assert("mcGameVersionId"@.len() == 15);
            assert("filename"@ != "mcGameVersionId"@);
            assert("installMethod"@.len() == 13);
            assert("mcGameVersionId"@.len() == 15);
            assert("installMethod"@ != "mcGameVersionId"@);
            assert("latest"@.len() == 6);
            assert("mcGameVersionId"@.len() == 15);
            assert("latest"@ != "mcGameVersionId"@);
            assert("recommended"@.len() == 11);
            assert("mcGameVersionId"@.len() == 15);
            assert("recommended"@ != "mcGameVersionId"@);
            assert("approved"@.len() == 8);
            assert("mcGameVersionId"@.len() == 15);
            assert("approved"@ != "mcGameVersionId"@);
            assert("dateModified"@.len() == 12);
            assert("mcGameVersionId"@.len() == 15);
            assert("dateModified"@ != "mcGameVersionId"@);
            assert("mavenVersionString"@.len() == 18);
            assert("mcGameVersionId"@.len() == 15);
            assert("mavenVersionString"@ != "mcGameVersionId"@);
            assert("versionJson"@.len() == 11);
            assert("mcGameVersionId"@.len() == 15);
            assert("versionJson"@ != "mcGameVersionId"@);
            assert("librariesInstallLocation"@.len() == 24);
            assert("mcGameVersionId"@.len() == 15);
            assert("librariesInstallLocation"@ != "mcGameVersionId"@);
            assert("minecraftVersion"@.len() == 16);
            assert("mcGameVersionId"@.len() == 15);
            assert("minecraftVersion"@ != "mcGameVersionId"@);
            assert("additionalFilesJson"@.len() == 19);
            assert("mcGameVersionId"@.len() == 15);
            assert("additionalFilesJson"@ != "mcGameVersionId"@);
            assert("modLoaderGameVersionId"@.len() == 22);
            assert("mcGameVersionId"@.len() == 15);
            assert("modLoaderGameVersionId"@ != "mcGameVersionId"@);
            assert("modLoaderGameVersionTypeId"@.len() == 26);
            assert("mcGameVersionId"@.len() == 15);
            assert("modLoaderGameVersionTypeId"@ != "mcGameVersionId"@);
            assert("modLoaderGameVersionStatus"@.len() == 26);
            assert("mcGameVersionId"@.len() == 15);
            assert("modLoaderGameVersionStatus"@ != "mcGameVersionId"@);
            assert("modLoaderGameVersionTypeStatus"@.len() == 30);
            assert("mcGameVersionId"@.len() == 15);
            assert("modLoaderGameVersionTypeStatus"@ != "mcGameVersionId"@);
            reveal_with_fuel(crate::json::obj_get, 28);
        }
        assert(crate::json::obj_get(o, "mcGameVersionTypeId"@) == Option::Some(JsonV::Int(x.mc_game_version_type_id as int))) by {
            reveal_strlit("id");
            reveal_strlit("gameVersionId");
            reveal_strlit("minecraftGameVersionId");
            reveal_strlit("forgeVersion");
            reveal_strlit("name");
            reveal_strlit("type");
            reveal_strlit("downloadUrl");
            reveal_strlit("filename");
            reveal_strlit("installMethod");
            reveal_strlit("latest");
            reveal_strlit("recommended");
            reveal_strlit("approved");
            reveal_strlit("dateModified");
            reveal_strlit("mavenVersionString");
            reveal_strlit("versionJson");
            reveal_strlit("librariesInstallLocation");
            reveal_strlit("minecraftVersion");
            reveal_strlit("additionalFilesJson");
            reveal_strlit("modLoaderGameVersionId");
            reveal_strlit("modLoaderGameVersionTypeId");
            reveal_strlit("modLoaderGameVersionStatus");
            reveal_strlit("modLoaderGameVersionTypeStatus");
            reveal_strlit("mcGameVersionId");
            reveal_strlit("mcGameVersionTypeId");
            assert("id"@.len() == 2);
            assert("mcGameVersionTypeId"@.len() == 19);
            assert("id"@ != "mcGameVersionTypeId"@);
            assert("gameVersionId"@.len() == 13);
            assert("mcGameVersionTypeId"@.len() == 19);
            assert("gameVersionId"@ != "mcGameVersionTypeId"@);
            assert("minecraftGameVersionId"@.len() == 22);
            assert("mcGameVersionTypeId"@.len() == 19);
            assert("minecraftGameVersionId"@ != "mcGameVersionTypeId"@);
            assert("forgeVersion"@.len() == 12);
            assert("mcGameVersionTypeId"@.len() == 19);
            assert("forgeVersion"@ != "mcGameVersionTypeId"@);
            assert("name"@.len() == 4);
            assert("mcGameVersionTypeId"@.len() == 19);
            assert("name"@ != "mcGameVersionTypeId"@);
            assert("type"@.len() == 4);
            assert("mcGameVersionTypeId"@.len() == 19);
            assert("type"@ != "mcGameVersionTypeId"@);
            assert("downloadUrl"@.len() == 11);
            assert("mcGameVersionTypeId"@.len() == 19);
            assert("downloadUrl"@ != "mcGameVersionTypeId"@);
            assert("filename"@.len() == 8);
            assert("mcGameVersionTypeId"@.len() == 19);
            assert("filename"@ != "mcGameVersionTypeId"@);
            assert("installMethod"@.len() == 13);
            assert("mcGameVersionTypeId"@.len() == 19);
            assert("installMethod"@ != "mcGameVersionTypeId"@);
            assert("latest"@.len() == 6);
            assert("mcGameVersionTypeId"@.len() == 19);
            assert("latest"@ != "mcGameVersionTypeId"@);
            assert("recommended"@.len() == 11);
            assert("mcGameVersionTypeId"@.len() == 19);
            assert("recommended"@ != "mcGameVersionTypeId"@);
            assert("approved"@.len() == 8);
            assert("mcGameVersionTypeId"@.len() == 19);
            assert("approved"@ != "mcGameVersionTypeId"@);
            assert("dateModified"@.len() == 12);
            assert("mcGameVersionTypeId"@.len() == 19);
            assert("dateModified"@ != "mcGameVersionTypeId"@);
            assert("mavenVersionString"@.len() == 18);
            assert("mcGameVersionTypeId"@.len() == 19);
            assert("mavenVersionString"@ != "mcGameVersionTypeId"@);
            assert("versionJson"@.len() == 11);
            assert("mcGameVersionTypeId"@.len() == 19);
            assert("versionJson"@ != "mcGameVersionTypeId"@);
            assert("librariesInstallLocation"@.len() == 24);
            assert("mcGameVersionTypeId"@.len() == 19);
            assert("librariesInstallLocation"@ != "mcGameVersionTypeId"@);
            assert("minecraftVersion"@.len() == 16);
            assert("mcGameVersionTypeId"@.len() == 19);
            assert("minecraftVersion"@ != "mcGameVersionTypeId"@);
            assert("additionalFilesJson"@[0] == 'a');
            assert("mcGameVersionTypeId"@[0] == 'm');
            assert("additionalFilesJson"@ != "mcGameVersionTypeId"@);
            assert("modLoaderGameVersionId"@.len() == 22);
            assert("mcGameVersionTypeId"@.len() == 19);
            assert("modLoaderGameVersionId"@ != "mcGameVersionTypeId"@);
            assert("modLoaderGameVersionTypeId"@.len() == 26);
            assert("mcGameVersionTypeId"@.len() == 19);
            assert("modLoaderGameVersionTypeId"@ != "mcGameVersionTypeId"@);
            assert("modLoaderGameVersionStatus"@.len() == 26);
            assert("mcGameVersionTypeId"@.len() == 19);
            assert("modLoaderGameVersionStatus"@ != "mcGameVersionTypeId"@);
            assert("modLoaderGameVersionTypeStatus"@.len() == 30);
            assert("mcGameVersionTypeId"@.len() == 19);
            assert("modLoaderGameVersionTypeStatus"@ != "mcGameVersionTypeId"@);
            assert("mcGameVersionId"@.len() == 15);
            assert("mcGameVersionTypeId"@.len() == 19);
            assert("mcGameVersionId"@ != "mcGameVersionTypeId"@);
            reveal_with_fuel(crate::json::obj_get, 28);
        }
        assert(crate::json::obj_get(o, "mcGameVersionStatus"@) == Option::Some(JsonV::Int(x.mc_game_version_status.code()))) by {
            reveal_strlit("id");
            reveal_strlit("gameVersionId");
            reveal_strlit("minecraftGameVersionId");
            reveal_strlit("forgeVersion");
            reveal_strlit("name");
            reveal_strlit("type");
            reveal_strlit("downloadUrl");
            reveal_strlit("filename");
            reveal_strlit("installMethod");
            reveal_strlit("latest");
            reveal_strlit("recommended");
            reveal_strlit("approved");
            reveal_strlit("dateModified");
            reveal_strlit("mavenVersionString");
            reveal_strlit("versionJson");
            reveal_strlit("librariesInstallLocation");
            reveal_strlit("minecraftVersion");
            reveal_strlit("additionalFilesJson");
            reveal_strlit("modLoaderGameVersionId");
            reveal_strlit("modLoaderGameVersionTypeId");
            reveal_strlit("modLoaderGameVersionStatus");
            reveal_strlit("modLoaderGameVersionTypeStatus");
            reveal_strlit("mcGameVersionId");
            reveal_strlit("mcGameVersionTypeId");
            reveal_strlit("mcGameVersionStatus");
            assert("id"@.len() == 2);
            assert("mcGameVersionStatus"@.len() == 19);
            assert("id"@ != "mcGameVersionStatus"@);
            assert("gameVersionId"@.len() == 13);
            assert("mcGameVersionStatus"@.len() == 19);
            assert("gameVersionId"@ != "mcGameVersionStatus"@);
            assert("minecraftGameVersionId"@.len() == 22);
            assert("mcGameVersionStatus"@.len() == 19);
            assert("minecraftGameVersionId"@ != "mcGameVersionStatus"@);
            assert("forgeVersion"@.len() == 12);
            assert("mcGameVersionStatus"@.len() == 19);
            assert("forgeVersion"@ != "mcGameVersionStatus"@);
            assert("name"@.len() == 4);
            assert("mcGameVersionStatus"@.len() == 19);
            assert("name"@ != "mcGameVersionStatus"@);
            assert("type"@.len() == 4);
            assert("mcGameVersionStatus"@.len() == 19);
            assert("type"@ != "mcGameVersionStatus"@);
            assert("downloadUrl"@.len() == 11);
            assert("mcGameVersionStatus"@.len() == 19);
            assert("downloadUrl"@ != "mcGameVersionStatus"@);
            assert("filename"@.len() == 8);
            assert("mcGameVersionStatus"@.len() == 19);
            assert("filename"@ != "mcGameVersionStatus"@);
            assert("installMethod"@.len() == 13);
            assert("mcGameVersionStatus"@.len() == 19);
            assert("installMethod"@ != "mcGameVersionStatus"@);
            assert("latest"@.len() == 6);
            assert("mcGameVersionStatus"@.len() == 19);
            assert("latest"@ != "mcGameVersionStatus"@);
            assert("recommended"@.len() == 11);
            assert("mcGameVersionStatus"@.len() == 19);
            assert("recommended"@ != "mcGameVersionStatus"@);
            assert("approved"@.len() == 8);
            assert("mcGameVersionStatus"@.len() == 19);
            assert("approved"@ != "mcGameVersionStatus"@);
            assert("dateModified"@.len() == 12);
            assert("mcGameVersionStatus"@.len() == 19);
            assert("dateModified"@ != "mcGameVersionStatus"@);
            assert("mavenVersionString"@.len() == 18);
            assert("mcGameVersionStatus"@.len() == 19);
            assert("mavenVersionString"@ != "mcGameVersionStatus"@);
            assert("versionJson"@.len() == 11);
            assert("mcGameVersionStatus"@.len() == 19);
            assert("versionJson"@ != "mcGameVersionStatus"@);
            assert("librariesInstallLocation"@.len() == 24);
            assert("mcGameVersionStatus"@.len() == 19);
            assert("librariesInstallLocation"@ != "mcGameVersionStatus"@);
            assert("minecraftVersion"@.len() == 16);
            assert("mcGameVersionStatus"@.len() == 19);
            assert("minecraftVersion"@ != "mcGameVersionStatus"@);
            assert("additionalFilesJson"@[0] == 'a');
            assert("mcGameVersionStatus"@[0] == 'm');
            assert("additionalFilesJson"@ != "mcGameVersionStatus"@);
            assert("modLoaderGameVersionId"@.len() == 22);
            assert("mcGameVersionStatus"@.len() == 19);
            assert("modLoaderGameVersionId"@ != "mcGameVersionStatus"@);
            assert("modLoaderGameVersionTypeId"@.len() == 26);
            assert("mcGameVersionStatus"@.len() == 19);
            assert("modLoaderGameVersionTypeId"@ != "mcGameVersionStatus"@);
            assert("modLoaderGameVersionStatus"@.len() == 26);
            assert("mcGameVersionStatus"@.len() == 19);
            assert("modLoaderGameVersionStatus"@ != "mcGameVersionStatus"@);
            assert("modLoaderGameVersionTypeStatus"@.len() == 30);
            assert("mcGameVersionStatus"@.len() == 19);
            assert("modLoaderGameVersionTypeStatus"@ != "mcGameVersionStatus"@);
            assert("mcGameVersionId"@.len() == 15);
            assert("mcGameVersionStatus"@.len() == 19);
            assert("mcGameVersionId"@ != "mcGameVersionStatus"@);
            assert("mcGameVersionTypeId"@[13] == 'T');
            assert("mcGameVersionStatus"@[13] == 'S');
            assert("mcGameVersionTypeId"@ != "mcGameVersionStatus"@);
            reveal_with_fuel(crate::json::obj_get, 28);
        }
        assert(crate::json::obj_get(o, "mcGameVersionTypeStatus"@) == Option::Some(JsonV::Int(x.mc_game_version_type_status.code()))) by {
            reveal_strlit("id");
            reveal_strlit("gameVersionId");
            reveal_strlit("minecraftGameVersionId");
            reveal_strlit("forgeVersion");
            reveal_strlit("name");
            reveal_strlit("type");
            reveal_strlit("downloadUrl");
            reveal_strlit("filename");
            reveal_strlit("installMethod");
            reveal_strlit("latest");
            reveal_strlit("recommended");
            reveal_strlit("approved");
            reveal_strlit("dateModified");
            reveal_strlit("mavenVersionString");
            reveal_strlit("versionJson");
            reveal_strlit("librariesInstallLocation");
            reveal_strlit("minecraftVersion");
            reveal_strlit("additionalFilesJson");
            reveal_strlit("modLoaderGameVersionId");
            reveal_strlit("modLoaderGameVersionTypeId");
            reveal_strlit("modLoaderGameVersionStatus");
            reveal_strlit("modLoaderGameVersionTypeStatus");
            reveal_strlit("mcGameVersionId");
            reveal_strlit("mcGameVersionTypeId");
            reveal_strlit("mcGameVersionStatus");
            reveal_strlit("mcGameVersionTypeStatus");
            assert("id"@.len() == 2);
            assert("mcGameVersionTypeStatus"@.len() == 23);
            assert("id"@ != "mcGameVersionTypeStatus"@);
            assert("gameVersionId"@.len() == 13);
            assert("mcGameVersionTypeStatus"@.len() == 23);
            assert("gameVersionId"@ != "mcGameVersionTypeStatus"@);
            assert("minecraftGameVersionId"@.len() == 22);
            assert("mcGameVersionTypeStatus"@.len() == 23);
            assert("minecraftGameVersionId"@ != "mcGameVersionTypeStatus"@);
            assert("forgeVersion"@.len() == 12);
            assert("mcGameVersionTypeStatus"@.len() == 23);
            assert("forgeVersion"@ != "mcGameVersionTypeStatus"@);
            assert("name"@.len() == 4);
            assert("mcGameVersionTypeStatus"@.len() == 23);
            assert("name"@ != "mcGameVersionTypeStatus"@);
            assert("type"@.len() == 4);
            assert("mcGameVersionTypeStatus"@.len() == 23);
            assert("type"@ != "mcGameVersionTypeStatus"@);
            assert("downloadUrl"@.len() == 11);
            assert("mcGameVersionTypeStatus"@.len() == 23);
            assert("downloadUrl"@ != "mcGameVersionTypeStatus"@);
            assert("filename"@.len() == 8);
            assert("mcGameVersionTypeStatus"@.len() == 23);
            assert("filename"@ != "mcGameVersionTypeStatus"@);
            assert("installMethod"@.len() == 13);
            assert("mcGameVersionTypeStatus"@.len() == 23);
            assert("installMethod"@ != "mcGameVersionTypeStatus"@);
            assert("latest"@.len() == 6);
            assert("mcGameVersionTypeStatus"@.len() == 23);
            assert("latest"@ != "mcGameVersionTypeStatus"@);
            assert("recommended"@.len() == 11);
            assert("mcGameVersionTypeStatus"@.len() == 23);
            assert("recommended"@ != "mcGameVersionTypeStatus"@);
            assert("approved"@.len() == 8);
            assert("mcGameVersionTypeStatus"@.len() == 23);
            assert("approved"@ != "mcGameVersionTypeStatus"@);
            assert("dateModified"@.len() == 12);
            assert("mcGameVersionTypeStatus"@.len() == 23);
            assert("dateModified"@ != "mcGameVersionTypeStatus"@);
            assert("mavenVersionString"@.len() == 18);
            assert("mcGameVersionTypeStatus"@.len() == 23);
            assert("mavenVersionString"@ != "mcGameVersionTypeStatus"@);
            assert("versionJson"@.len() == 11);
            assert("mcGameVersionTypeStatus"@.len() == 23);
            assert("versionJson"@ != "mcGameVersionTypeStatus"@);
            assert("librariesInstallLocation"@.len() == 24);
            assert("mcGameVersionTypeStatus"@.len() == 23);
            assert("librariesInstallLocation"@ != "mcGameVersionTypeStatus"@);
            assert("minecraftVersion"@.len() == 16);
            assert("mcGameVersionTypeStatus"@.len() == 23);
            assert("minecraftVersion"@ != "mcGameVersionTypeStatus"@);
            assert("additionalFilesJson"@.len() == 19);
            assert("mcGameVersionTypeStatus"@.len() == 23);
            assert("additionalFilesJson"@ != "mcGameVersionTypeStatus"@);
            assert("modLoaderGameVersionId"@.len() == 22);
            assert("mcGameVersionTypeStatus"@.len() == 23);
            assert("modLoaderGameVersionId"@ != "mcGameVersionTypeStatus"@);
            assert("modLoaderGameVersionTypeId"@.len() == 26);
            assert("mcGameVersionTypeStatus"@.len() == 23);
            assert("modLoaderGameVersionTypeId"@ != "mcGameVersionTypeStatus"@);
            assert("modLoaderGameVersionStatus"@.len() == 26);
            assert("mcGameVersionTypeStatus"@.len() == 23);
            assert("modLoaderGameVersionStatus"@ != "mcGameVersionTypeStatus"@);
            assert("modLoaderGameVersionTypeStatus"@.len() == 30);
            assert("mcGameVersionTypeStatus"@.len() == 23);
            assert("modLoaderGameVersionTypeStatus"@ != "mcGameVersionTypeStatus"@);
            assert("mcGameVersionId"@.len() == 15);
            assert("mcGameVersionTypeStatus"@.len() == 23);
            assert("mcGameVersionId"@ != "mcGameVersionTypeStatus"@);
            assert("mcGameVersionTypeId"@.len() == 19);
            assert("mcGameVersionTypeStatus"@.len() == 23);
            assert("mcGameVersionTypeId"@ != "mcGameVersionTypeStatus"@);
            assert("mcGameVersionStatus"@.len() == 19);
            assert("mcGameVersionTypeStatus"@.len() == 23);
            assert("mcGameVersionStatus"@ != "mcGameVersionTypeStatus"@);
            reveal_with_fuel(crate::json::obj_get, 28);
        }
        assert(crate::json::obj_get(o, "installProfileJson"@) == Option::Some(JsonV::Str(x.install_profile_json@))) by {
            reveal_strlit("id");
            reveal_strlit("gameVersionId");
            reveal_strlit("minecraftGameVersionId");
            reveal_strlit("forgeVersion");
            reveal_strlit("name");
            reveal_strlit("type");
            reveal_strlit("downloadUrl");
            reveal_strlit("filename");
            reveal_strlit("installMethod");
            reveal_strlit("latest");
            reveal_strlit("recommended");
            reveal_strlit("approved");
            reveal_strlit("dateModified");
            reveal_strlit("mavenVersionString");
            reveal_strlit("versionJson");
            reveal_strlit("librariesInstallLocation");
            reveal_strlit("minecraftVersion");
            reveal_strlit("additionalFilesJson");
            reveal_strlit("modLoaderGameVersionId");
            reveal_strlit("modLoaderGameVersionTypeId");
            reveal_strlit("modLoaderGameVersionStatus");
            reveal_strlit("modLoaderGameVersionTypeStatus");
            reveal_strlit("mcGameVersionId");
            reveal_strlit("mcGameVersionTypeId");
            reveal_strlit("mcGameVersionStatus");
            reveal_strlit("mcGameVersionTypeStatus");
            reveal_strlit("installProfileJson");
            assert("id"@.len() == 2);
            assert("installProfileJson"@.len() == 18);
            assert("id"@ != "installProfileJson"@);
            assert("gameVersionId"@.len() == 13);
            assert("installProfileJson"@.len() == 18);
            assert("gameVersionId"@ != "installProfileJson"@);
            assert("minecraftGameVersionId"@.len() == 22);
            assert("installProfileJson"@.len() == 18);
            assert("minecraftGameVersionId"@ != "installProfileJson"@);
            assert("forgeVersion"@.len() == 12);
            assert("installProfileJson"@.len() == 18);
            assert("forgeVersion"@ != "installProfileJson"@);
            assert("name"@.len() == 4);
            assert("installProfileJson"@.len() == 18);
            assert("name"@ != "installProfileJson"@);
            assert("type"@.len() == 4);
            assert("installProfileJson"@.len() == 18);
            assert("type"@ != "installProfileJson"@);
            assert("downloadUrl"@.len() == 11);
            assert("installProfileJson"@.len() == 18);
            assert("downloadUrl"@ != "installProfileJson"@);
            assert("filename"@.len() == 8);
            assert("installProfileJson"@.len() == 18);
            assert("filename"@ != "installProfileJson"@);
            assert("installMethod"@.len() == 13);
            assert("installProfileJson"@.len() == 18);
            assert("installMethod"@ != "installProfileJson"@);
            assert("latest"@.len() == 6);
            assert("installProfileJson"@.len() == 18);
            assert("latest"@ != "installProfileJson"@);
            assert("recommended"@.len() == 11);
            assert("installProfileJson"@.len() == 18);
            assert("recommended"@ != "installProfileJson"@);
            assert("approved"@.len() == 8);
            assert("installProfileJson"@.len() == 18);
            assert("approved"@ != "installProfileJson"@);
            assert("dateModified"@.len() == 12);
            assert("installProfileJson"@.len() == 18);
            assert("dateModified"@ != "installProfileJson"@);
            assert("mavenVersionString"@[0] == 'm');
            assert("installProfileJson"@[0] == 'i');
            assert("mavenVersionString"@ != "installProfileJson"@);
            assert("versionJson"@.len() == 11);
            assert("installProfileJson"@.len() == 18);
            assert("versionJson"@ != "installProfileJson"@);
            assert("librariesInstallLocation"@.len() == 24);
            assert("installProfileJson"@.len() == 18);
            assert("librariesInstallLocation"@ != "installProfileJson"@);
            assert("minecraftVersion"@.len() == 16);
            assert("installProfileJson"@.len() == 18);
            assert("minecraftVersion"@ != "installProfileJson"@);
            assert("additionalFilesJson"@.len() == 19);
            assert("installProfileJson"@.len() == 18);
            assert("additionalFilesJson"@ != "installProfileJson"@);
            assert("modLoaderGameVersionId"@.len() == 22);
            assert("installProfileJson"@.len() == 18);
            assert("modLoaderGameVersionId"@ != "installProfileJson"@);
            assert("modLoaderGameVersionTypeId"@.len() == 26);
            assert("installProfileJson"@.len() == 18);
            assert("modLoaderGameVersionTypeId"@ != "installProfileJson"@);
            assert("modLoaderGameVersionStatus"@.len() == 26);
            assert("installProfileJson"@.len() == 18);
            assert("modLoaderGameVersionStatus"@ != "installProfileJson"@);
            assert("modLoaderGameVersionTypeStatus"@.len() == 30);
            assert("installProfileJson"@.len() == 18);
            assert("modLoaderGameVersionTypeStatus"@ != "installProfileJson"@);
            assert("mcGameVersionId"@.len() == 15);
            assert("installProfileJson"@.len() == 18);
            assert("mcGameVersionId"@ != "installProfileJson"@);
            assert("mcGameVersionTypeId"@.len() == 19);
            assert("installProfileJson"@.len() == 18);
            assert("mcGameVersionTypeId"@ != "installProfileJson"@);
            assert("mcGameVersionStatus"@.len() == 19);
            assert("installProfileJson"@.len() == 18);
            assert("mcGameVersionStatus"@ != "installProfileJson"@);
            assert("mcGameVersionTypeStatus"@.len() == 23);
            assert("installProfileJson"@.len() == 18);
            assert("mcGameVersionTypeStatus"@ != "installProfileJson"@);
            reveal_with_fuel(crate::json::obj_get, 28);
        }
        x.loader_type.lemma_code_inverse(0);
        x.install_method.lemma_code_inverse(0);
        x.mod_loader_game_version_status.lemma_code_inverse(0);
        x.mod_loader_game_version_type_status.lemma_code_inverse(0);
        x.mc_game_version_status.lemma_code_inverse(0);
        x.mc_game_version_type_status.lemma_code_inverse(0);
    }

    /// Two values that one JSON document decodes to are equal, field for field.
    #[verifier::rlimit(100)]
    #[verifier::spinoff_prover]
    pub proof fn lemma_deterministic(j: JsonV, x: MinecraftModLoaderVersion, y: MinecraftModLoaderVersion)
        requires
            MinecraftModLoaderVersion::decodes_to(j, x),
            MinecraftModLoaderVersion::decodes_to(j, y),
        ensures
            y.id == x.id,
            y.game_version_id == x.game_version_id,
            y.minecraft_game_version_id == x.minecraft_game_version_id,
            y.forge_version@ == x.forge_version@,
            y.name@ == x.name@,
            y.loader_type == x.loader_type,
            y.download_url@ == x.download_url@,
            y.filename@ == x.filename@,
            y.install_method == x.install_method,
            y.latest == x.latest,
            y.recommended == x.recommended,
            y.approved == x.approved,
            y.date_modified@ == x.date_modified@,
            y.maven_version_string@ == x.maven_version_string@,
            y.version_json@ == x.version_json@,
            y.libraries_install_location@ == x.libraries_install_location@,
            y.minecraft_version@ == x.minecraft_version@,
            y.additional_files_json@ == x.additional_files_json@,
            y.mod_loader_game_version_id == x.mod_loader_game_version_id,
            y.mod_loader_game_version_type_id == x.mod_loader_game_version_type_id,
            y.mod_loader_game_version_status == x.mod_loader_game_version_status,
            y.mod_loader_game_version_type_status == x.mod_loader_game_version_type_status,
            y.mc_game_version_id == x.mc_game_version_id,
            y.mc_game_version_type_id == x.mc_game_version_type_id,
            y.mc_game_version_status == x.mc_game_version_status,
            y.mc_game_version_type_status == x.mc_game_version_type_status,
            y.install_profile_json@ == x.install_profile_json@,
            y.jv() == x.jv(),
    {
        let o = j->Obj_0;
        assert(JsonV::Int(y.id as int) =~~= JsonV::Int(x.id as int));
        assert(JsonV::Int(y.game_version_id as int) =~~= JsonV::Int(x.game_version_id as int));
        assert(JsonV::Int(y.minecraft_game_version_id as int) =~~= JsonV::Int(x.minecraft_game_version_id as int));
        assert(JsonV::Str(y.forge_version@) =~~= JsonV::Str(x.forge_version@));
        assert(JsonV::Str(y.name@) =~~= JsonV::Str(x.name@));
        assert(JsonV::Int(y.loader_type.code()) =~~= JsonV::Int(x.loader_type.code()));
        assert(JsonV::Str(y.download_url@) =~~= JsonV::Str(x.download_url@));
        assert(JsonV::Str(y.filename@) =~~= JsonV::Str(x.filename@));
        assert(JsonV::Int(y.install_method.code()) =~~= JsonV::Int(x.install_method.code()));
        assert(JsonV::Bool(y.latest) =~~= JsonV::Bool(x.latest));
        assert(JsonV::Bool(y.recommended) =~~= JsonV::Bool(x.recommended));
        assert(JsonV::Bool(y.approved) =~~= JsonV::Bool(x.approved));
        assert(JsonV::Str(y.date_modified@) =~~= JsonV::Str(x.date_modified@));
        assert(JsonV::Str(y.maven_version_string@) =~~= JsonV::Str(x.maven_version_string@));
        assert(JsonV::Str(y.version_json@) =~~= JsonV::Str(x.version_json@));
        assert(JsonV::Str(y.libraries_install_location@) =~~= JsonV::Str(x.libraries_install_location@));
        assert(JsonV::Str(y.minecraft_version@) =~~= JsonV::Str(x.minecraft_version@));
        assert(JsonV::Str(y.additional_files_json@) =~~= JsonV::Str(x.additional_files_json@));
        assert(JsonV::Int(y.mod_loader_game_version_id as int) =~~= JsonV::Int(x.mod_loader_game_version_id as int));
        assert(JsonV::Int(y.mod_loader_game_version_type_id as int) =~~= JsonV::Int(x.mod_loader_game_version_type_id as int));
        assert(JsonV::Int(y.mod_loader_game_version_status.code()) =~~= JsonV::Int(x.mod_loader_game_version_status.code()));
        assert(JsonV::Int(y.mod_loader_game_version_type_status.code()) =~~= JsonV::Int(x.mod_loader_game_version_type_status.code()));
        assert(JsonV::Int(y.mc_game_version_id as int) =~~= JsonV::Int(x.mc_game_version_id as int));
        assert(JsonV::Int(y.mc_game_version_type_id as int) =~~= JsonV::Int(x.mc_game_version_type_id as int));
        assert(JsonV::Int(y.mc_game_version_status.code()) =~~= JsonV::Int(x.mc_game_version_status.code()));
        assert(JsonV::Int(y.mc_game_version_type_status.code()) =~~= JsonV::Int(x.mc_game_version_type_status.code()));
        assert(JsonV::Str(y.install_profile_json@) =~~= JsonV::Str(x.install_profile_json@));
        let oy = y.jv()->Obj_0;
        let ox = x.jv()->Obj_0;
        assert(oy[0] =~~= ox[0]);
        assert(oy[1] =~~= ox[1]);
        assert(oy[2] =~~= ox[2]);
        assert(oy[3] =~~= ox[3]);
        assert(oy[4] =~~= ox[4]);
        assert(oy[5] =~~= ox[5]);
        assert(oy[6] =~~= ox[6]);
        assert(oy[7] =~~= ox[7]);
        assert(oy[8] =~~= ox[8]);
        assert(oy[9] =~~= ox[9]);
        assert(oy[10] =~~= ox[10]);
        assert(oy[11] =~~= ox[11]);
        assert(oy[12] =~~= ox[12]);
        assert(oy[13] =~~= ox[13]);
        assert(oy[14] =~~= ox[14]);
        assert(oy[15] =~~= ox[15]);
        assert(oy[16] =~~= ox[16]);
        assert(oy[17] =~~= ox[17]);
        assert(oy[18] =~~= ox[18]);
        assert(oy[19] =~~= ox[19]);
        assert(oy[20] =~~= ox[20]);
        assert(oy[21] =~~= ox[21]);
        assert(oy[22] =~~= ox[22]);
        assert(oy[23] =~~= ox[23]);
        assert(oy[24] =~~= ox[24]);
        assert(oy[25] =~~= ox[25]);
        assert(oy[26] =~~= ox[26]);
        assert forall|n: int| 0 <= n < ox.len() implies oy[n] =~~= ox[n] by {
            if n == 0 {
                assert(oy[n] =~~= ox[n]);
            } else if n == 1 {
                assert(oy[n] =~~= ox[n]);
            } else if n == 2 {
                assert(oy[n] =~~= ox[n]);
            } else if n == 3 {
                assert(oy[n] =~~= ox[n]);
            } else if n == 4 {
                assert(oy[n] =~~= ox[n]);
            } else if n == 5 {
                assert(oy[n] =~~= ox[n]);
            } else if n == 6 {
                assert(oy[n] =~~= ox[n]);
            } else if n == 7 {
                assert(oy[n] =~~= ox[n]);
            } else if n == 8 {
                assert(oy[n] =~~= ox[n]);
            } else if n == 9 {
                assert(oy[n] =~~= ox[n]);
            } else if n == 10 {
                assert(oy[n] =~~= ox[n]);
            } else if n == 11 {
                assert(oy[n] =~~= ox[n]);
            } else if n == 12 {
                assert(oy[n] =~~= ox[n]);
            } else if n == 13 {
                assert(oy[n] =~~= ox[n]);
            } else if n == 14 {
                assert(oy[n] =~~= ox[n]);
            } else if n == 15 {
                assert(oy[n] =~~= ox[n]);
            } else if n == 16 {
                assert(oy[n] =~~= ox[n]);
            } else if n == 17 {
                assert(oy[n] =~~= ox[n]);
            } else if n == 18 {
                assert(oy[n] =~~= ox[n]);
            } else if n == 19 {
                assert(oy[n] =~~= ox[n]);
            } else if n == 20 {
                assert(oy[n] =~~= ox[n]);
            } else if n == 21 {
                assert(oy[n] =~~= ox[n]);
            } else if n == 22 {
                assert(oy[n] =~~= ox[n]);
            } else if n == 23 {
                assert(oy[n] =~~= ox[n]);
            } else if n == 24 {
                assert(oy[n] =~~= ox[n]);
            } else if n == 25 {
                assert(oy[n] =~~= ox[n]);
            } else if n == 26 {
                assert(oy[n] =~~= ox[n]);
            }
        }
        assert(oy =~~= ox);
        assert(y.jv() =~~= x.jv());
    }
}

} // verus!
