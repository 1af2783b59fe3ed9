use curseforge::endpoints::{
    decode_get_game, decode_get_games, decode_search_mods, decode_string_data, game_url,
    games_url, minecraft_mod_loader_url, mod_file_url, search_mods_url,
};
use curseforge::enums::{ModsSearchSortField, SortOrder};
use curseforge::params::{GetGamesParams, GetModDescriptionParams, SearchModsParams};
use curseforge::query::query_string;
use curseforge::ApiError;
use curseforge::CurseForge;

fn search(game_id: i32) -> SearchModsParams {
    SearchModsParams {
        game_id,
        class_id: None,
        category_id: None,
        category_ids: None,
        game_version: None,
        game_versions: None,
        search_filter: None,
        sort_field: None,
        sort_order: None,
        mod_loader_type: None,
        mod_loader_types: None,
        game_version_type_id: None,
        author_id: None,
        primary_author_id: None,
        slug: None,
        index: None,
        page_size: None,
    }
}

#[test]
fn search_mods_query_is_exact() {
    let mut p = search(432);
    p.search_filter = Some("Complementary Shaders".to_string());
    p.sort_field = Some(ModsSearchSortField::TotalDownloads);
    p.sort_order = Some(SortOrder::Desc);
    let q = query_string(&p.to_query_pairs());
    assert_eq!(q, "gameId=432&searchFilter=Complementary+Shaders&sortField=6&sortOrder=desc");
}

#[test]
fn unset_fields_never_appear() {
    let p = search(100);
    let pairs = p.to_query_pairs();
    assert_eq!(pairs.len(), 1);
    assert_eq!(pairs[0].0, "gameId");
    assert_eq!(pairs[0].1, "100");
    let g = GetGamesParams { index: None, page_size: Some(25) };
    let gp = g.to_query_pairs();
    assert_eq!(gp.len(), 1);
    assert_eq!(gp[0].0, "pageSize");
    assert_eq!(gp[0].1, "25");
    let d = GetModDescriptionParams { raw: None, stripped: None, markup: None };
    assert_eq!(d.to_query_pairs().len(), 0);
    assert_eq!(query_string(&d.to_query_pairs()), "");
}

#[test]
fn form_encoding_escapes_reserved_characters() {
    let mut p = search(1);
    p.game_versions = Some("[\"1.19.1\",\"1.19.2\"]".to_string());
    let q = query_string(&p.to_query_pairs());
    assert_eq!(q, "gameId=1&gameVersions=%5B%221.19.1%22%2C%221.19.2%22%5D");
}

#[test]
fn urls_embed_identifiers() {
    assert_eq!(games_url(), "https://api.curseforge.com/v1/games");
    assert_eq!(game_url(432), "https://api.curseforge.com/v1/games/432");
    assert_eq!(
        mod_file_url(238222, 4711),
        "https://api.curseforge.com/v1/mods/238222/files/4711"
    );
    assert_eq!(search_mods_url(), "https://api.curseforge.com/v1/mods/search");
    assert_eq!(
        minecraft_mod_loader_url("forge-1.19"),
        "https://api.curseforge.com/v1/minecraft/modloader/forge-1.19"
    );
}

#[test]
fn non_2xx_statuses_become_remote_errors() {
    assert!(matches!(
        decode_get_game(404, "{\"data\":{}}"),
        Err(ApiError::RemoteApiError(404))
    ));
    assert!(matches!(decode_get_games(500, ""), Err(ApiError::RemoteApiError(500))));
    assert!(matches!(decode_search_mods(199, "{}"), Err(ApiError::RemoteApiError(199))));
    assert!(matches!(decode_search_mods(300, "{}"), Err(ApiError::RemoteApiError(300))));
}

#[test]
fn malformed_success_bodies_become_decoding_errors() {
    assert!(matches!(decode_get_game(200, "{not json"), Err(ApiError::DecodingError)));
    assert!(matches!(decode_get_game(200, "[1,2]"), Err(ApiError::DecodingError)));
    assert!(matches!(decode_string_data(200, "{\"data\":7}"), Err(ApiError::DecodingError)));
}

#[test]
fn string_bodies_decode() {
    let r = decode_string_data(200, "{\"data\":\"hello world\"}").expect("decodable");
    assert_eq!(r.data, "hello world");
}

#[test]
fn construction_rejects_bad_keys() {
    assert!(matches!(CurseForge::new("line\nbreak"), Err(ApiError::ConfigurationError)));
    assert!(matches!(CurseForge::new("del\u{7f}"), Err(ApiError::ConfigurationError)));
    let c = CurseForge::new("abc123-XYZ.key").expect("a plain key is accepted");
    assert_eq!(c.api_key(), "abc123-XYZ.key");
}
