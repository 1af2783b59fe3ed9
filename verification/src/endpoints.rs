//! The endpoint table: one URL builder for each remote path, and one
//! decoder for each response shape. A decoder turns a status code and a
//! body into the typed response: a non-2xx status is a remote error with
//! that code, a success body that does not parse or decode is a decoding
//! error, and anything else is the decoded value.
#![allow(unused_imports)]
use crate::num::int_rep;
use crate::parse::parse_text;
use crate::responses::{ApiResponseOfListOfMinecraftGameVersion,
    ApiResponseOfListOfMinecraftModLoaderIndex, ApiResponseOfMinecraftGameVersion,
    ApiResponseOfMinecraftModLoaderVersion, GetCategoriesResponse, GetFeaturedModsResponse,
    GetFilesResponse, GetFingerprintMatchesResponse, GetFingerprintsFuzzyMatchesResponse,
    GetGameResponse, GetGamesResponse, GetModFileResponse, GetModFilesResponse,
    GetModResponse, GetModsResponse, GetVersionTypesResponse, GetVersionsResponse,
    GetVersionsResponseV1, SearchModsResponse, StringResponse};
use crate::ApiError;
use vstd::prelude::*;

verus! {

broadcast use vstd::seq::group_seq_axioms, vstd::std_specs::vec::group_vec_axioms;

pub fn games_url() -> (r: String)
    ensures
        r@ == "https://api.curseforge.com/v1/games"@,
{
    let mut out = crate::text::str_chars("https://api.curseforge.com/v1/games");
    crate::text::chars_to_string(out)
}

pub fn game_url(game_id: i32) -> (r: String)
    ensures
        r@ == "https://api.curseforge.com/v1/games/"@ + int_rep(game_id as int),
{
    let mut out = crate::text::str_chars("https://api.curseforge.com/v1/games/");
    let mut seg_1 = crate::num::int_chars_i64(game_id as i64);
    out.append(&mut seg_1);
    crate::text::chars_to_string(out)
}

pub fn version_types_url(game_id: i32) -> (r: String)
    ensures
        r@ == "https://api.curseforge.com/v1/games/"@ + int_rep(game_id as int) + "/version-types"@,
{
    let mut out = crate::text::str_chars("https://api.curseforge.com/v1/games/");
    let mut seg_1 = crate::num::int_chars_i64(game_id as i64);
    out.append(&mut seg_1);
    let mut lit_1 = crate::text::str_chars("/version-types");
    out.append(&mut lit_1);
    crate::text::chars_to_string(out)
}

pub fn versions_v1_url(game_id: i32) -> (r: String)
    ensures
        r@ == "https://api.curseforge.com/v1/games/"@ + int_rep(game_id as int) + "/versions"@,
{
    let mut out = crate::text::str_chars("https://api.curseforge.com/v1/games/");
    let mut seg_1 = crate::num::int_chars_i64(game_id as i64);
    out.append(&mut seg_1);
    let mut lit_1 = crate::text::str_chars("/versions");
    out.append(&mut lit_1);
    crate::text::chars_to_string(out)
}

pub fn versions_url(game_id: i32) -> (r: String)
    ensures
        r@ == "https://api.curseforge.com/v2/games/"@ + int_rep(game_id as int) + "/versions"@,
{
    let mut out = crate::text::str_chars("https://api.curseforge.com/v2/games/");
    let mut seg_1 = crate::num::int_chars_i64(game_id as i64);
    out.append(&mut seg_1);
    let mut lit_1 = crate::text::str_chars("/versions");
    out.append(&mut lit_1);
    crate::text::chars_to_string(out)
}

pub fn categories_url() -> (r: String)
    ensures
        r@ == "https://api.curseforge.com/v1/categories"@,
{
    let mut out = crate::text::str_chars("https://api.curseforge.com/v1/categories");
    crate::text::chars_to_string(out)
}

pub fn search_mods_url() -> (r: String)
    ensures
        r@ == "https://api.curseforge.com/v1/mods/search"@,
{
    let mut out = crate::text::str_chars("https://api.curseforge.com/v1/mods/search");
    crate::text::chars_to_string(out)
}

pub fn mod_url(mod_id: i32) -> (r: String)
    ensures
        r@ == "https://api.curseforge.com/v1/mods/"@ + int_rep(mod_id as int),
{
    let mut out = crate::text::str_chars("https://api.curseforge.com/v1/mods/");
    let mut seg_1 = crate::num::int_chars_i64(mod_id as i64);
    out.append(&mut seg_1);
    crate::text::chars_to_string(out)
}

pub fn mods_url() -> (r: String)
    ensures
        r@ == "https://api.curseforge.com/v1/mods"@,
{
    let mut out = crate::text::str_chars("https://api.curseforge.com/v1/mods");
    crate::text::chars_to_string(out)
}

pub fn featured_mods_url() -> (r: String)
    ensures
        r@ == "https://api.curseforge.com/v1/mods/featured"@,
{
    let mut out = crate::text::str_chars("https://api.curseforge.com/v1/mods/featured");
    crate::text::chars_to_string(out)
}

pub fn mod_description_url(mod_id: i32) -> (r: String)
    ensures
        r@ == "https://api.curseforge.com/v1/mods/"@ + int_rep(mod_id as int) + "/description"@,
{
    let mut out = crate::text::str_chars("https://api.curseforge.com/v1/mods/");
    let mut seg_1 = crate::num::int_chars_i64(mod_id as i64);
    out.append(&mut seg_1);
    let mut lit_1 = crate::text::str_chars("/description");
    out.append(&mut lit_1);
    crate::text::chars_to_string(out)
}

pub fn mod_file_url(mod_id: i32, file_id: i32) -> (r: String)
    ensures
        r@ == "https://api.curseforge.com/v1/mods/"@ + int_rep(mod_id as int) + "/files/"@ + int_rep(file_id as int),
{
    let mut out = crate::text::str_chars("https://api.curseforge.com/v1/mods/");
    let mut seg_1 = crate::num::int_chars_i64(mod_id as i64);
    out.append(&mut seg_1);
    let mut lit_1 = crate::text::str_chars("/files/");
    out.append(&mut lit_1);
    let mut seg_2 = crate::num::int_chars_i64(file_id as i64);
    out.append(&mut seg_2);
    crate::text::chars_to_string(out)
}

pub fn mod_files_url(mod_id: i32) -> (r: String)
    ensures
        r@ == "https://api.curseforge.com/v1/mods/"@ + int_rep(mod_id as int) + "/files"@,
{
    let mut out = crate::text::str_chars("https://api.curseforge.com/v1/mods/");
    let mut seg_1 = crate::num::int_chars_i64(mod_id as i64);
    out.append(&mut seg_1);
    let mut lit_1 = crate::text::str_chars("/files");
    out.append(&mut lit_1);
    crate::text::chars_to_string(out)
}

pub fn files_url() -> (r: String)
    ensures
        r@ == "https://api.curseforge.com/v1/mods/files"@,
{
    let mut out = crate::text::str_chars("https://api.curseforge.com/v1/mods/files");
    crate::text::chars_to_string(out)
}

pub fn mod_file_changelog_url(mod_id: i32, file_id: i32) -> (r: String)
    ensures
        r@ == "https://api.curseforge.com/v1/mods/"@ + int_rep(mod_id as int) + "/files/"@ + int_rep(file_id as int) + "/changelog"@,
{
    let mut out = crate::text::str_chars("https://api.curseforge.com/v1/mods/");
    let mut seg_1 = crate::num::int_chars_i64(mod_id as i64);
    out.append(&mut seg_1);
    let mut lit_1 = crate::text::str_chars("/files/");
    out.append(&mut lit_1);
    let mut seg_2 = crate::num::int_chars_i64(file_id as i64);
    out.append(&mut seg_2);
    let mut lit_2 = crate::text::str_chars("/changelog");
    out.append(&mut lit_2);
    crate::text::chars_to_string(out)
}

pub fn mod_file_download_url_url(mod_id: i32, file_id: i32) -> (r: String)
    ensures
        r@ == "https://api.curseforge.com/v1/mods/"@ + int_rep(mod_id as int) + "/files/"@ + int_rep(file_id as int) + "/download-url"@,
{
    let mut out = crate::text::str_chars("https://api.curseforge.com/v1/mods/");
    let mut seg_1 = crate::num::int_chars_i64(mod_id as i64);
    out.append(&mut seg_1);
    let mut lit_1 = crate::text::str_chars("/files/");
    out.append(&mut lit_1);
    let mut seg_2 = crate::num::int_chars_i64(file_id as i64);
    out.append(&mut seg_2);
    let mut lit_2 = crate::text::str_chars("/download-url");
    out.append(&mut lit_2);
    crate::text::chars_to_string(out)
}

pub fn fingerprints_url() -> (r: String)
    ensures
        r@ == "https://api.curseforge.com/v1/fingerprints"@,
{
    let mut out = crate::text::str_chars("https://api.curseforge.com/v1/fingerprints");
    crate::text::chars_to_string(out)
}

pub fn fingerprints_by_game_url(game_id: i32) -> (r: String)
    ensures
        r@ == "https://api.curseforge.com/v1/fingerprints/"@ + int_rep(game_id as int),
{
    let mut out = crate::text::str_chars("https://api.curseforge.com/v1/fingerprints/");
    let mut seg_1 = crate::num::int_chars_i64(game_id as i64);
    out.append(&mut seg_1);
    crate::text::chars_to_string(out)
}

pub fn fingerprints_fuzzy_url() -> (r: String)
    ensures
        r@ == "https://api.curseforge.com/v1/fingerprints/fuzzy"@,
{
    let mut out = crate::text::str_chars("https://api.curseforge.com/v1/fingerprints/fuzzy");
    crate::text::chars_to_string(out)
}

pub fn fingerprints_fuzzy_by_game_url(game_id: i32) -> (r: String)
    ensures
        r@ == "https://api.curseforge.com/v1/fingerprints/fuzzy/"@ + int_rep(game_id as int),
{
    let mut out = crate::text::str_chars("https://api.curseforge.com/v1/fingerprints/fuzzy/");
    let mut seg_1 = crate::num::int_chars_i64(game_id as i64);
    out.append(&mut seg_1);
    crate::text::chars_to_string(out)
}

pub fn minecraft_versions_url() -> (r: String)
    ensures
        r@ == "https://api.curseforge.com/v1/minecraft/versions"@,
{
    let mut out = crate::text::str_chars("https://api.curseforge.com/v1/minecraft/versions");
    crate::text::chars_to_string(out)
}

pub fn minecraft_version_url(version: &str) -> (r: String)
    ensures
        r@ == "https://api.curseforge.com/v1/minecraft/versions/"@ + version@,
{
    let mut out = crate::text::str_chars("https://api.curseforge.com/v1/minecraft/versions/");
    let mut seg_1 = crate::text::str_chars(version);
    out.append(&mut seg_1);
    crate::text::chars_to_string(out)
}

pub fn minecraft_mod_loaders_url() -> (r: String)
    ensures
        r@ == "https://api.curseforge.com/v1/minecraft/modloader"@,
{
    let mut out = crate::text::str_chars("https://api.curseforge.com/v1/minecraft/modloader");
    crate::text::chars_to_string(out)
}

pub fn minecraft_mod_loader_url(mod_loader: &str) -> (r: String)
    ensures
        r@ == "https://api.curseforge.com/v1/minecraft/modloader/"@ + mod_loader@,
{
    let mut out = crate::text::str_chars("https://api.curseforge.com/v1/minecraft/modloader/");
    let mut seg_1 = crate::text::str_chars(mod_loader);
    out.append(&mut seg_1);
    crate::text::chars_to_string(out)
}

pub fn decode_get_games(status: u16, body: &str) -> (r: Result<GetGamesResponse, ApiError>)
    ensures
        !(200 <= status < 300) ==> r == Result::<GetGamesResponse, ApiError>::Err(
            ApiError::RemoteApiError(status),
        ),
        200 <= status < 300 ==> match parse_text(body@) {
            Option::None => r == Result::<GetGamesResponse, ApiError>::Err(ApiError::DecodingError),
            Option::Some(jv) => match r {
                Result::Ok(resp) => GetGamesResponse::decodes_to(jv, resp),
                Result::Err(e) => e == ApiError::DecodingError && (forall|x: GetGamesResponse|
                    !GetGamesResponse::decodes_to(jv, x)),
            },
        },
{
    if !(200 <= status && status < 300) {
        return Result::Err(ApiError::RemoteApiError(status));
    }
    match crate::parse::from_text(body) {
        Option::None => Result::Err(ApiError::DecodingError),
        Option::Some(j) => match GetGamesResponse::from_json(&j) {
            Option::Some(resp) => Result::Ok(resp),
            Option::None => Result::Err(ApiError::DecodingError),
        },
    }
}

pub fn decode_get_game(status: u16, body: &str) -> (r: Result<GetGameResponse, ApiError>)
    ensures
        !(200 <= status < 300) ==> r == Result::<GetGameResponse, ApiError>::Err(
            ApiError::RemoteApiError(status),
        ),
        200 <= status < 300 ==> match parse_text(body@) {
            Option::None => r == Result::<GetGameResponse, ApiError>::Err(ApiError::DecodingError),
            Option::Some(jv) => match r {
                Result::Ok(resp) => GetGameResponse::decodes_to(jv, resp),
                Result::Err(e) => e == ApiError::DecodingError && (forall|x: GetGameResponse|
                    !GetGameResponse::decodes_to(jv, x)),
            },
        },
{
    if !(200 <= status && status < 300) {
        return Result::Err(ApiError::RemoteApiError(status));
    }
    match crate::parse::from_text(body) {
        Option::None => Result::Err(ApiError::DecodingError),
        Option::Some(j) => match GetGameResponse::from_json(&j) {
            Option::Some(resp) => Result::Ok(resp),
            Option::None => Result::Err(ApiError::DecodingError),
        },
    }
}

pub fn decode_get_version_types(status: u16, body: &str) -> (r: Result<GetVersionTypesResponse, ApiError>)
    ensures
        !(200 <= status < 300) ==> r == Result::<GetVersionTypesResponse, ApiError>::Err(
            ApiError::RemoteApiError(status),
        ),
        200 <= status < 300 ==> match parse_text(body@) {
            Option::None => r == Result::<GetVersionTypesResponse, ApiError>::Err(ApiError::DecodingError),
            Option::Some(jv) => match r {
                Result::Ok(resp) => GetVersionTypesResponse::decodes_to(jv, resp),
                Result::Err(e) => e == ApiError::DecodingError && (forall|x: GetVersionTypesResponse|
                    !GetVersionTypesResponse::decodes_to(jv, x)),
            },
        },
{
    if !(200 <= status && status < 300) {
        return Result::Err(ApiError::RemoteApiError(status));
    }
    match crate::parse::from_text(body) {
        Option::None => Result::Err(ApiError::DecodingError),
        Option::Some(j) => match GetVersionTypesResponse::from_json(&j) {
            Option::Some(resp) => Result::Ok(resp),
            Option::None => Result::Err(ApiError::DecodingError),
        },
    }
}

pub fn decode_get_versions_v1(status: u16, body: &str) -> (r: Result<GetVersionsResponseV1, ApiError>)
    ensures
        !(200 <= status < 300) ==> r == Result::<GetVersionsResponseV1, ApiError>::Err(
            ApiError::RemoteApiError(status),
        ),
        200 <= status < 300 ==> match parse_text(body@) {
            Option::None => r == Result::<GetVersionsResponseV1, ApiError>::Err(ApiError::DecodingError),
            Option::Some(jv) => match r {
                Result::Ok(resp) => GetVersionsResponseV1::decodes_to(jv, resp),
                Result::Err(e) => e == ApiError::DecodingError && (forall|x: GetVersionsResponseV1|
                    !GetVersionsResponseV1::decodes_to(jv, x)),
            },
        },
{
    if !(200 <= status && status < 300) {
        return Result::Err(ApiError::RemoteApiError(status));
    }
    match crate::parse::from_text(body) {
        Option::None => Result::Err(ApiError::DecodingError),
        Option::Some(j) => match GetVersionsResponseV1::from_json(&j) {
            Option::Some(resp) => Result::Ok(resp),
            Option::None => Result::Err(ApiError::DecodingError),
        },
    }
}

pub fn decode_get_versions(status: u16, body: &str) -> (r: Result<GetVersionsResponse, ApiError>)
    ensures
        !(200 <= status < 300) ==> r == Result::<GetVersionsResponse, ApiError>::Err(
            ApiError::RemoteApiError(status),
        ),
        200 <= status < 300 ==> match parse_text(body@) {
            Option::None => r == Result::<GetVersionsResponse, ApiError>::Err(ApiError::DecodingError),
            Option::Some(jv) => match r {
                Result::Ok(resp) => GetVersionsResponse::decodes_to(jv, resp),
                Result::Err(e) => e == ApiError::DecodingError && (forall|x: GetVersionsResponse|
                    !GetVersionsResponse::decodes_to(jv, x)),
            },
        },
{
    if !(200 <= status && status < 300) {
        return Result::Err(ApiError::RemoteApiError(status));
    }
    match crate::parse::from_text(body) {
        Option::None => Result::Err(ApiError::DecodingError),
        Option::Some(j) => match GetVersionsResponse::from_json(&j) {
            Option::Some(resp) => Result::Ok(resp),
            Option::None => Result::Err(ApiError::DecodingError),
        },
    }
}

pub fn decode_get_categories(status: u16, body: &str) -> (r: Result<GetCategoriesResponse, ApiError>)
    ensures
        !(200 <= status < 300) ==> r == Result::<GetCategoriesResponse, ApiError>::Err(
            ApiError::RemoteApiError(status),
        ),
        200 <= status < 300 ==> match parse_text(body@) {
            Option::None => r == Result::<GetCategoriesResponse, ApiError>::Err(ApiError::DecodingError),
            Option::Some(jv) => match r {
                Result::Ok(resp) => GetCategoriesResponse::decodes_to(jv, resp),
                Result::Err(e) => e == ApiError::DecodingError && (forall|x: GetCategoriesResponse|
                    !GetCategoriesResponse::decodes_to(jv, x)),
            },
        },
{
    if !(200 <= status && status < 300) {
        return Result::Err(ApiError::RemoteApiError(status));
    }
    match crate::parse::from_text(body) {
        Option::None => Result::Err(ApiError::DecodingError),
        Option::Some(j) => match GetCategoriesResponse::from_json(&j) {
            Option::Some(resp) => Result::Ok(resp),
            Option::None => Result::Err(ApiError::DecodingError),
        },
    }
}

pub fn decode_search_mods(status: u16, body: &str) -> (r: Result<SearchModsResponse, ApiError>)
    ensures
        !(200 <= status < 300) ==> r == Result::<SearchModsResponse, ApiError>::Err(
            ApiError::RemoteApiError(status),
        ),
        200 <= status < 300 ==> match parse_text(body@) {
            Option::None => r == Result::<SearchModsResponse, ApiError>::Err(ApiError::DecodingError),
            Option::Some(jv) => match r {
                Result::Ok(resp) => SearchModsResponse::decodes_to(jv, resp),
                Result::Err(e) => e == ApiError::DecodingError && (forall|x: SearchModsResponse|
                    !SearchModsResponse::decodes_to(jv, x)),
            },
        },
{
    if !(200 <= status && status < 300) {
        return Result::Err(ApiError::RemoteApiError(status));
    }
    match crate::parse::from_text(body) {
        Option::None => Result::Err(ApiError::DecodingError),
        Option::Some(j) => match SearchModsResponse::from_json(&j) {
            Option::Some(resp) => Result::Ok(resp),
            Option::None => Result::Err(ApiError::DecodingError),
        },
    }
}

pub fn decode_get_mod(status: u16, body: &str) -> (r: Result<GetModResponse, ApiError>)
    ensures
        !(200 <= status < 300) ==> r == Result::<GetModResponse, ApiError>::Err(
            ApiError::RemoteApiError(status),
        ),
        200 <= status < 300 ==> match parse_text(body@) {
            Option::None => r == Result::<GetModResponse, ApiError>::Err(ApiError::DecodingError),
            Option::Some(jv) => match r {
                Result::Ok(resp) => GetModResponse::decodes_to(jv, resp),
                Result::Err(e) => e == ApiError::DecodingError && (forall|x: GetModResponse|
                    !GetModResponse::decodes_to(jv, x)),
            },
        },
{
    if !(200 <= status && status < 300) {
        return Result::Err(ApiError::RemoteApiError(status));
    }
    match crate::parse::from_text(body) {
        Option::None => Result::Err(ApiError::DecodingError),
        Option::Some(j) => match GetModResponse::from_json(&j) {
            Option::Some(resp) => Result::Ok(resp),
            Option::None => Result::Err(ApiError::DecodingError),
        },
    }
}

pub fn decode_get_mods(status: u16, body: &str) -> (r: Result<GetModsResponse, ApiError>)
    ensures
        !(200 <= status < 300) ==> r == Result::<GetModsResponse, ApiError>::Err(
            ApiError::RemoteApiError(status),
        ),
        200 <= status < 300 ==> match parse_text(body@) {
            Option::None => r == Result::<GetModsResponse, ApiError>::Err(ApiError::DecodingError),
            Option::Some(jv) => match r {
                Result::Ok(resp) => GetModsResponse::decodes_to(jv, resp),
                Result::Err(e) => e == ApiError::DecodingError && (forall|x: GetModsResponse|
                    !GetModsResponse::decodes_to(jv, x)),
            },
        },
{
    if !(200 <= status && status < 300) {
        return Result::Err(ApiError::RemoteApiError(status));
    }
    match crate::parse::from_text(body) {
        Option::None => Result::Err(ApiError::DecodingError),
        Option::Some(j) => match GetModsResponse::from_json(&j) {
            Option::Some(resp) => Result::Ok(resp),
            Option::None => Result::Err(ApiError::DecodingError),
        },
    }
}

pub fn decode_get_featured_mods(status: u16, body: &str) -> (r: Result<GetFeaturedModsResponse, ApiError>)
    ensures
        !(200 <= status < 300) ==> r == Result::<GetFeaturedModsResponse, ApiError>::Err(
            ApiError::RemoteApiError(status),
        ),
        200 <= status < 300 ==> match parse_text(body@) {
            Option::None => r == Result::<GetFeaturedModsResponse, ApiError>::Err(ApiError::DecodingError),
            Option::Some(jv) => match r {
                Result::Ok(resp) => GetFeaturedModsResponse::decodes_to(jv, resp),
                Result::Err(e) => e == ApiError::DecodingError && (forall|x: GetFeaturedModsResponse|
                    !GetFeaturedModsResponse::decodes_to(jv, x)),
            },
        },
{
    if !(200 <= status && status < 300) {
        return Result::Err(ApiError::RemoteApiError(status));
    }
    match crate::parse::from_text(body) {
        Option::None => Result::Err(ApiError::DecodingError),
        Option::Some(j) => match GetFeaturedModsResponse::from_json(&j) {
            Option::Some(resp) => Result::Ok(resp),
            Option::None => Result::Err(ApiError::DecodingError),
        },
    }
}

pub fn decode_string_data(status: u16, body: &str) -> (r: Result<StringResponse, ApiError>)
    ensures
        !(200 <= status < 300) ==> r == Result::<StringResponse, ApiError>::Err(
            ApiError::RemoteApiError(status),
        ),
        200 <= status < 300 ==> match parse_text(body@) {
            Option::None => r == Result::<StringResponse, ApiError>::Err(ApiError::DecodingError),
            Option::Some(jv) => match r {
                Result::Ok(resp) => StringResponse::decodes_to(jv, resp),
                Result::Err(e) => e == ApiError::DecodingError && (forall|x: StringResponse|
                    !StringResponse::decodes_to(jv, x)),
            },
        },
{
    if !(200 <= status && status < 300) {
        return Result::Err(ApiError::RemoteApiError(status));
    }
    match crate::parse::from_text(body) {
        Option::None => Result::Err(ApiError::DecodingError),
        Option::Some(j) => match StringResponse::from_json(&j) {
            Option::Some(resp) => Result::Ok(resp),
            Option::None => Result::Err(ApiError::DecodingError),
        },
    }
}

pub fn decode_get_mod_file(status: u16, body: &str) -> (r: Result<GetModFileResponse, ApiError>)
    ensures
        !(200 <= status < 300) ==> r == Result::<GetModFileResponse, ApiError>::Err(
            ApiError::RemoteApiError(status),
        ),
        200 <= status < 300 ==> match parse_text(body@) {
            Option::None => r == Result::<GetModFileResponse, ApiError>::Err(ApiError::DecodingError),
            Option::Some(jv) => match r {
                Result::Ok(resp) => GetModFileResponse::decodes_to(jv, resp),
                Result::Err(e) => e == ApiError::DecodingError && (forall|x: GetModFileResponse|
                    !GetModFileResponse::decodes_to(jv, x)),
            },
        },
{
    if !(200 <= status && status < 300) {
        return Result::Err(ApiError::RemoteApiError(status));
    }
    match crate::parse::from_text(body) {
        Option::None => Result::Err(ApiError::DecodingError),
        Option::Some(j) => match GetModFileResponse::from_json(&j) {
            Option::Some(resp) => Result::Ok(resp),
            Option::None => Result::Err(ApiError::DecodingError),
        },
    }
}

pub fn decode_get_mod_files(status: u16, body: &str) -> (r: Result<GetModFilesResponse, ApiError>)
    ensures
        !(200 <= status < 300) ==> r == Result::<GetModFilesResponse, ApiError>::Err(
            ApiError::RemoteApiError(status),
        ),
        200 <= status < 300 ==> match parse_text(body@) {
            Option::None => r == Result::<GetModFilesResponse, ApiError>::Err(ApiError::DecodingError),
            Option::Some(jv) => match r {
                Result::Ok(resp) => GetModFilesResponse::decodes_to(jv, resp),
                Result::Err(e) => e == ApiError::DecodingError && (forall|x: GetModFilesResponse|
                    !GetModFilesResponse::decodes_to(jv, x)),
            },
        },
{
    if !(200 <= status && status < 300) {
        return Result::Err(ApiError::RemoteApiError(status));
    }
    match crate::parse::from_text(body) {
        Option::None => Result::Err(ApiError::DecodingError),
        Option::Some(j) => match GetModFilesResponse::from_json(&j) {
            Option::Some(resp) => Result::Ok(resp),
            Option::None => Result::Err(ApiError::DecodingError),
        },
    }
}

pub fn decode_get_files(status: u16, body: &str) -> (r: Result<GetFilesResponse, ApiError>)
    ensures
        !(200 <= status < 300) ==> r == Result::<GetFilesResponse, ApiError>::Err(
            ApiError::RemoteApiError(status),
        ),
        200 <= status < 300 ==> match parse_text(body@) {
            Option::None => r == Result::<GetFilesResponse, ApiError>::Err(ApiError::DecodingError),
            Option::Some(jv) => match r {
                Result::Ok(resp) => GetFilesResponse::decodes_to(jv, resp),
                Result::Err(e) => e == ApiError::DecodingError && (forall|x: GetFilesResponse|
                    !GetFilesResponse::decodes_to(jv, x)),
            },
        },
{
    if !(200 <= status && status < 300) {
        return Result::Err(ApiError::RemoteApiError(status));
    }
    match crate::parse::from_text(body) {
        Option::None => Result::Err(ApiError::DecodingError),
        Option::Some(j) => match GetFilesResponse::from_json(&j) {
            Option::Some(resp) => Result::Ok(resp),
            Option::None => Result::Err(ApiError::DecodingError),
        },
    }
}

pub fn decode_get_fingerprint_matches(status: u16, body: &str) -> (r: Result<GetFingerprintMatchesResponse, ApiError>)
    ensures
        !(200 <= status < 300) ==> r == Result::<GetFingerprintMatchesResponse, ApiError>::Err(
            ApiError::RemoteApiError(status),
        ),
        200 <= status < 300 ==> match parse_text(body@) {
            Option::None => r == Result::<GetFingerprintMatchesResponse, ApiError>::Err(ApiError::DecodingError),
            Option::Some(jv) => match r {
                Result::Ok(resp) => GetFingerprintMatchesResponse::decodes_to(jv, resp),
                Result::Err(e) => e == ApiError::DecodingError && (forall|x: GetFingerprintMatchesResponse|
                    !GetFingerprintMatchesResponse::decodes_to(jv, x)),
            },
        },
{
    if !(200 <= status && status < 300) {
        return Result::Err(ApiError::RemoteApiError(status));
    }
    match crate::parse::from_text(body) {
        Option::None => Result::Err(ApiError::DecodingError),
        Option::Some(j) => match GetFingerprintMatchesResponse::from_json(&j) {
            Option::Some(resp) => Result::Ok(resp),
            Option::None => Result::Err(ApiError::DecodingError),
        },
    }
}

pub fn decode_get_fingerprint_fuzzy_matches(status: u16, body: &str) -> (r: Result<GetFingerprintsFuzzyMatchesResponse, ApiError>)
    ensures
        !(200 <= status < 300) ==> r == Result::<GetFingerprintsFuzzyMatchesResponse, ApiError>::Err(
            ApiError::RemoteApiError(status),
        ),
        200 <= status < 300 ==> match parse_text(body@) {
            Option::None => r == Result::<GetFingerprintsFuzzyMatchesResponse, ApiError>::Err(ApiError::DecodingError),
            Option::Some(jv) => match r {
                Result::Ok(resp) => GetFingerprintsFuzzyMatchesResponse::decodes_to(jv, resp),
                Result::Err(e) => e == ApiError::DecodingError && (forall|x: GetFingerprintsFuzzyMatchesResponse|
                    !GetFingerprintsFuzzyMatchesResponse::decodes_to(jv, x)),
            },
        },
{
    if !(200 <= status && status < 300) {
        return Result::Err(ApiError::RemoteApiError(status));
    }
    match crate::parse::from_text(body) {
        Option::None => Result::Err(ApiError::DecodingError),
        Option::Some(j) => match GetFingerprintsFuzzyMatchesResponse::from_json(&j) {
            Option::Some(resp) => Result::Ok(resp),
            Option::None => Result::Err(ApiError::DecodingError),
        },
    }
}

pub fn decode_minecraft_versions(status: u16, body: &str) -> (r: Result<ApiResponseOfListOfMinecraftGameVersion, ApiError>)
    ensures
        !(200 <= status < 300) ==> r == Result::<ApiResponseOfListOfMinecraftGameVersion, ApiError>::Err(
            ApiError::RemoteApiError(status),
        ),
        200 <= status < 300 ==> match parse_text(body@) {
            Option::None => r == Result::<ApiResponseOfListOfMinecraftGameVersion, ApiError>::Err(ApiError::DecodingError),
            Option::Some(jv) => match r {
                Result::Ok(resp) => ApiResponseOfListOfMinecraftGameVersion::decodes_to(jv, resp),
                Result::Err(e) => e == ApiError::DecodingError && (forall|x: ApiResponseOfListOfMinecraftGameVersion|
                    !ApiResponseOfListOfMinecraftGameVersion::decodes_to(jv, x)),
            },
        },
{
    if !(200 <= status && status < 300) {
        return Result::Err(ApiError::RemoteApiError(status));
    }
    match crate::parse::from_text(body) {
        Option::None => Result::Err(ApiError::DecodingError),
        Option::Some(j) => match ApiResponseOfListOfMinecraftGameVersion::from_json(&j) {
            Option::Some(resp) => Result::Ok(resp),
            Option::None => Result::Err(ApiError::DecodingError),
        },
    }
}

pub fn decode_minecraft_version(status: u16, body: &str) -> (r: Result<ApiResponseOfMinecraftGameVersion, ApiError>)
    ensures
        !(200 <= status < 300) ==> r == Result::<ApiResponseOfMinecraftGameVersion, ApiError>::Err(
            ApiError::RemoteApiError(status),
        ),
        200 <= status < 300 ==> match parse_text(body@) {
            Option::None => r == Result::<ApiResponseOfMinecraftGameVersion, ApiError>::Err(ApiError::DecodingError),
            Option::Some(jv) => match r {
                Result::Ok(resp) => ApiResponseOfMinecraftGameVersion::decodes_to(jv, resp),
                Result::Err(e) => e == ApiError::DecodingError && (forall|x: ApiResponseOfMinecraftGameVersion|
                    !ApiResponseOfMinecraftGameVersion::decodes_to(jv, x)),
            },
        },
{
    if !(200 <= status && status < 300) {
        return Result::Err(ApiError::RemoteApiError(status));
    }
    match crate::parse::from_text(body) {
        Option::None => Result::Err(ApiError::DecodingError),
        Option::Some(j) => match ApiResponseOfMinecraftGameVersion::from_json(&j) {
            Option::Some(resp) => Result::Ok(resp),
            Option::None => Result::Err(ApiError::DecodingError),
        },
    }
}

pub fn decode_minecraft_mod_loaders(status: u16, body: &str) -> (r: Result<ApiResponseOfListOfMinecraftModLoaderIndex, ApiError>)
    ensures
        !(200 <= status < 300) ==> r == Result::<ApiResponseOfListOfMinecraftModLoaderIndex, ApiError>::Err(
            ApiError::RemoteApiError(status),
        ),
        200 <= status < 300 ==> match parse_text(body@) {
            Option::None => r == Result::<ApiResponseOfListOfMinecraftModLoaderIndex, ApiError>::Err(ApiError::DecodingError),
            Option::Some(jv) => match r {
                Result::Ok(resp) => ApiResponseOfListOfMinecraftModLoaderIndex::decodes_to(jv, resp),
                Result::Err(e) => e == ApiError::DecodingError && (forall|x: ApiResponseOfListOfMinecraftModLoaderIndex|
                    !ApiResponseOfListOfMinecraftModLoaderIndex::decodes_to(jv, x)),
            },
        },
{
    if !(200 <= status && status < 300) {
        return Result::Err(ApiError::RemoteApiError(status));
    }
    match crate::parse::from_text(body) {
        Option::None => Result::Err(ApiError::DecodingError),
        Option::Some(j) => match ApiResponseOfListOfMinecraftModLoaderIndex::from_json(&j) {
            Option::Some(resp) => Result::Ok(resp),
            Option::None => Result::Err(ApiError::DecodingError),
        },
    }
}

pub fn decode_minecraft_mod_loader(status: u16, body: &str) -> (r: Result<ApiResponseOfMinecraftModLoaderVersion, ApiError>)
    ensures
        !(200 <= status < 300) ==> r == Result::<ApiResponseOfMinecraftModLoaderVersion, ApiError>::Err(
            ApiError::RemoteApiError(status),
        ),
        200 <= status < 300 ==> match parse_text(body@) {
            Option::None => r == Result::<ApiResponseOfMinecraftModLoaderVersion, ApiError>::Err(ApiError::DecodingError),
            Option::Some(jv) => match r {
                Result::Ok(resp) => ApiResponseOfMinecraftModLoaderVersion::decodes_to(jv, resp),
                Result::Err(e) => e == ApiError::DecodingError && (forall|x: ApiResponseOfMinecraftModLoaderVersion|
                    !ApiResponseOfMinecraftModLoaderVersion::decodes_to(jv, x)),
            },
        },
{
    if !(200 <= status && status < 300) {
        return Result::Err(ApiError::RemoteApiError(status));
    }
    match crate::parse::from_text(body) {
        Option::None => Result::Err(ApiError::DecodingError),
        Option::Some(j) => match ApiResponseOfMinecraftModLoaderVersion::from_json(&j) {
            Option::Some(resp) => Result::Ok(resp),
            Option::None => Result::Err(ApiError::DecodingError),
        },
    }
}

} // verus!
