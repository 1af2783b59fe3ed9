use curseforge::enums::{
    CoreApiStatus, CoreStatus, FileReleaseType, HashAlgo, ModLoaderType, ModsSearchSortField,
    SortOrder,
};
use curseforge::json::Json;
use curseforge::parse::from_text;
use curseforge::schema_core::{Game, GameAssets, Pagination};
use curseforge::schema_mods::{FileHash, ModAuthor};
use curseforge::text::to_text;

#[test]
fn release_type_codes_are_exact() {
    assert_eq!(FileReleaseType::decode(2), Some(FileReleaseType::Beta));
    assert_eq!(FileReleaseType::decode(1), Some(FileReleaseType::Release));
    assert_eq!(FileReleaseType::decode(3), Some(FileReleaseType::Alpha));
    assert_eq!(FileReleaseType::decode(0), None);
    assert_eq!(FileReleaseType::decode(4), None);
    assert_eq!(FileReleaseType::Beta.to_code(), 2);
}

#[test]
fn loader_and_sort_codes_are_exact() {
    assert_eq!(ModLoaderType::Any.to_code(), 0);
    assert_eq!(ModLoaderType::decode(4), Some(ModLoaderType::Fabric));
    assert_eq!(ModsSearchSortField::TotalDownloads.to_code(), 6);
    assert_eq!(HashAlgo::decode(2), Some(HashAlgo::Md5));
    assert_eq!(SortOrder::Desc.to_rep(), "desc");
    assert_eq!(SortOrder::decode_rep("asc"), Some(SortOrder::Asc));
    assert_eq!(SortOrder::decode_rep("Desc"), None);
}

#[test]
fn pagination_round_trips_through_text() {
    let p = Pagination { index: 3, page_size: 50, result_count: 50, total_count: 12345 };
    let text = to_text(&p.to_json());
    assert_eq!(
        text,
        "{\"index\":3,\"pageSize\":50,\"resultCount\":50,\"totalCount\":12345}"
    );
    let parsed = from_text(&text).expect("well-formed text");
    let q = Pagination::from_json(&parsed).expect("decodable");
    assert_eq!(q.index, p.index);
    assert_eq!(q.page_size, p.page_size);
    assert_eq!(q.result_count, p.result_count);
    assert_eq!(q.total_count, p.total_count);
}

#[test]
fn game_round_trips_through_text() {
    let g = Game {
        id: 432,
        name: "Minecraft".to_string(),
        slug: "minecraft".to_string(),
        date_modified: "2024-01-02T03:04:05Z".to_string(),
        assets: GameAssets { icon_url: Some("https://x/i.png".to_string()), tile_url: None, cover_url: None },
        status: CoreStatus::Live,
        api_status: CoreApiStatus::Public,
    };
    let text = to_text(&g.to_json());
    let parsed = from_text(&text).expect("well-formed text");
    let h = Game::from_json(&parsed).expect("decodable");
    assert_eq!(h.id, g.id);
    assert_eq!(h.name, g.name);
    assert_eq!(h.slug, g.slug);
    assert_eq!(h.date_modified, g.date_modified);
    assert_eq!(h.assets.icon_url, g.assets.icon_url);
    assert_eq!(h.assets.tile_url, None);
    assert_eq!(h.status, CoreStatus::Live);
    assert_eq!(h.api_status, CoreApiStatus::Public);
}

#[test]
fn decoding_ignores_unknown_members_and_order() {
    let text = "{\"url\":\"https://a\",\"extra\":[1,2,{}],\"name\":\"n\",\"id\":7}";
    let parsed = from_text(text).expect("well-formed text");
    let a = ModAuthor::from_json(&parsed).expect("decodable");
    assert_eq!(a.id, 7);
    assert_eq!(a.name, "n");
    assert_eq!(a.url, "https://a");
}

#[test]
fn missing_required_member_fails() {
    let text = "{\"value\":\"abc\"}";
    let parsed = from_text(text).expect("well-formed text");
    assert!(FileHash::from_json(&parsed).is_none());
    let bad_code = from_text("{\"value\":\"abc\",\"algo\":9}").unwrap();
    assert!(FileHash::from_json(&bad_code).is_none());
    let good = from_text("{\"value\":\"abc\",\"algo\":1}").unwrap();
    let h = FileHash::from_json(&good).expect("decodable");
    assert_eq!(h.algo, HashAlgo::Sha1);
}

#[test]
fn strings_escape_and_unescape() {
    let j = Json::Str("a\"b\\c\nd\te".to_string());
    let text = to_text(&j);
    assert_eq!(text, "\"a\\\"b\\\\c\\nd\\te\"");
    let back = from_text(&text).expect("well-formed text");
    assert_eq!(to_text(&back), text);
}

#[test]
fn numbers_parse_exactly() {
    assert_eq!(to_text(&from_text("-12").unwrap()), "-12");
    assert_eq!(to_text(&from_text("0").unwrap()), "0");
    // a non-integer number keeps its lexeme
    assert_eq!(to_text(&from_text("4.5").unwrap()), "4.5");
    assert_eq!(to_text(&from_text("1e3").unwrap()), "1e3");
    // an integer beyond 64 bits keeps its lexeme
    let big = "123456789012345678901234567890";
    assert_eq!(to_text(&from_text(big).unwrap()), big);
    assert_eq!(to_text(&from_text("9223372036854775807").unwrap()), "9223372036854775807");
    assert_eq!(to_text(&from_text("-9223372036854775808").unwrap()), "-9223372036854775808");
}

#[test]
fn malformed_texts_are_rejected() {
    assert!(from_text("{").is_none());
    assert!(from_text("{\"a\":}").is_none());
    assert!(from_text("[1,2,").is_none());
    assert!(from_text("nul").is_none());
    assert!(from_text("\"unterminated").is_none());
    assert!(from_text("01").is_none() || to_text(&from_text("01").unwrap()) != "01");
    assert!(from_text("{}x").is_none());
    assert!(from_text("").is_none());
}

#[test]
fn whitespace_and_unicode_escapes_are_accepted() {
    let text = " { \"a\" : [ 1 , true , null ] } ";
    let parsed = from_text(text).expect("well-formed text");
    assert_eq!(to_text(&parsed), "{\"a\":[1,true,null]}");
    let esc = from_text("\"\\u0041\\u00e9\"").expect("well-formed text");
    assert_eq!(to_text(&esc), "\"A\u{e9}\"");
}
