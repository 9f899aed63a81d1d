//! Media references, base64 data and downloads.
use relay::json::Json;
use relay::media::{
    after_download, b64_data, collect_image_urls, collect_media_values, decode_b64, downloaded_image,
    ensure_image_roles_for_multimodal, infer_image_default_roles, is_b64, needed_downloads,
    parse_data_uri_to_inline_data, parse_image_data, parse_media_item, place_items, resolve_image,
    resolve_image_urls, sniff_mime, DownloadStep, Fetched,
};

fn j(s: &str) -> Json {
    Json::parse(s).unwrap()
}

fn same_json(a: &Json, b: &str) {
    assert_eq!(a.to_text(), j(b).to_text());
}

#[test]
fn media_come_from_the_first_field_that_lists_any() {
    let body = j(r#"{"images":[],"image_urls":"u1","videos":[1]}"#);
    let found = collect_media_values(&body, &vec!["images", "image_urls", "videos"]);
    assert_eq!(found.len(), 1);
    same_json(&found[0], r#""u1""#);
    assert!(collect_media_values(&body, &vec!["absent"]).is_empty());
}

#[test]
fn addresses_skip_empty_and_foreign_elements() {
    let body = j(
        r#"{"image":["a","",{"url":"b"},{"image":"c","url":"d"},{"image_url":""},7,{"video_url":"e"}]}"#,
    );
    let urls = collect_image_urls(&body, &vec!["image"]);
    assert_eq!(urls, vec!["a", "b", "c", "e"]);
}

#[test]
fn an_element_names_its_role_or_its_type() {
    let item = j(r#"{"url":"u","type":"first_frame"}"#);
    assert_eq!(parse_media_item(&item, "x"), (Some("u"), "first_frame"));
    let item = j(r#"{"url":"u","role":"last_frame","type":"first_frame"}"#);
    assert_eq!(parse_media_item(&item, "x"), (Some("u"), "last_frame"));
    let item = j(r#"{"url":"u","role":3,"type":"first_frame"}"#);
    assert_eq!(parse_media_item(&item, "x"), (Some("u"), "x"));
    assert_eq!(parse_media_item(&j(r#""u""#), "x"), (Some("u"), "x"));
    assert_eq!(parse_media_item(&j("[1]"), "x"), (None, "x"));
}

#[test]
fn default_roles_follow_the_number_of_images() {
    assert!(infer_image_default_roles(0).is_empty());
    assert_eq!(infer_image_default_roles(1), vec!["first_frame"]);
    assert_eq!(infer_image_default_roles(2), vec!["first_frame", "last_frame"]);
    assert_eq!(
        infer_image_default_roles(3),
        vec!["reference_image", "reference_image", "reference_image"]
    );
}

#[test]
fn placed_items_keep_their_place_in_the_roles() {
    let items = vec![j(r#""""#), j(r#""b""#)];
    let placed = place_items(&items, None, false);
    assert_eq!(placed.len(), 1);
    assert_eq!(placed[0].url, "b");
    assert_eq!(placed[0].role, "last_frame");
    assert_eq!(place_items(&items, Some("r"), true).len(), 2);
}

#[test]
fn images_beside_a_video_become_references() {
    let content = j(
        r#"[{"type":"image_url","role":"first_frame"},{"type":"image_url"},{"type":"video_url"}]"#,
    );
    let once = ensure_image_roles_for_multimodal(content);
    same_json(
        &once,
        r#"[{"type":"image_url","role":"reference_image"},{"type":"image_url","role":"reference_image"},{"type":"video_url"}]"#,
    );
    let text = once.to_text();
    assert_eq!(ensure_image_roles_for_multimodal(once).to_text(), text);
    let alone = j(r#"[{"type":"image_url","role":"first_frame"}]"#);
    let text = alone.to_text();
    assert_eq!(ensure_image_roles_for_multimodal(alone).to_text(), text);
}

#[test]
fn base64_is_told_from_addresses() {
    assert!(is_b64(" data:x ", 101));
    assert!(!is_b64("http://a", 1));
    assert!(is_b64("abc", 1));
    assert!(!is_b64("abc", 101));
    assert!(is_b64(&"a".repeat(101), 101));
    assert!(!is_b64("  ", 1));
    assert_eq!(b64_data(" data:image/png;base64,QUJD "), "QUJD");
    assert_eq!(b64_data("data:nothing"), "data:nothing");
    assert_eq!(b64_data(" QUJD"), "QUJD");
}

#[test]
fn data_addresses_become_inline_data() {
    let r = parse_data_uri_to_inline_data("data:image/webp;base64,QUJD").unwrap();
    same_json(&r, r#"{"mime_type":"image/webp","data":"QUJD"}"#);
    let r = parse_data_uri_to_inline_data("data:;base64,QUJD").unwrap();
    same_json(&r, r#"{"mime_type":"image/png","data":"QUJD"}"#);
    assert!(parse_data_uri_to_inline_data("data:image/png").is_none());
    assert!(parse_data_uri_to_inline_data("short").is_none());
    let long = "A".repeat(101);
    let r = parse_data_uri_to_inline_data(&long).unwrap();
    assert_eq!(r.get_str("data"), Some(long.as_str()));
}

#[test]
fn base64_is_decoded_with_padding_and_without() {
    assert_eq!(decode_b64("QUI="), Some(b"AB".to_vec()));
    assert_eq!(decode_b64("QUI"), Some(b"AB".to_vec()));
    assert_eq!(decode_b64("??"), None);
}

#[test]
fn image_types_show_in_the_first_bytes() {
    let mut jpeg = vec![0xFFu8, 0xD8, 0xFF];
    jpeg.extend([0u8; 10]);
    assert_eq!(sniff_mime(&jpeg), "image/jpeg");
    let gif = b"GIF89a.......".to_vec();
    assert_eq!(sniff_mime(&gif), "image/gif");
    let webp = b"RIFF....WEBPVP8 ".to_vec();
    assert_eq!(sniff_mime(&webp), "image/webp");
    let png = vec![0x89u8, 0x50, 0x4E, 0x47, 0x0D, 0x0A, 0x1A, 0x0A, 0, 0, 0];
    assert_eq!(sniff_mime(&png), "image/png");
    assert_eq!(sniff_mime(&vec![1u8; 11]), "image/png");
}

#[test]
fn image_data_are_read_from_addresses_and_from_plain_text() {
    let (b, m) = parse_image_data("data:image/gif;base64,QUJD").unwrap();
    assert_eq!((b.as_slice(), m.as_str()), (b"ABC".as_slice(), "image/gif"));
    assert!(parse_image_data("data:image/gif,QUJD").is_none());
    assert!(parse_image_data("data:image/gif;base64,??").is_none());
    assert!(parse_image_data("QUJD").is_none());
    let (b, m) = parse_image_data("R0lGODlhAAAAAAAAAAA=").unwrap();
    assert_eq!(b.len(), 14);
    assert_eq!(m, "image/gif");
    assert!(parse_image_data("R0lGODlh.AAAAAAAAAA=").is_none());
    assert!(parse_image_data("").is_none());
}

#[test]
fn a_download_becomes_inline_data() {
    let r = downloaded_image(Some("image/jpeg; charset=x"), b"ABC");
    same_json(&r, r#"{"mime_type":"image/jpeg","data":"QUJD"}"#);
    let r = downloaded_image(None, b"");
    same_json(&r, r#"{"mime_type":"image/png","data":""}"#);
}

#[test]
fn each_address_is_downloaded_once() {
    let urls: Vec<String> = ["http://a", " http://a ", "data:,x", "ftp://b", "https://c"]
        .iter()
        .map(|s| s.to_string())
        .collect();
    assert_eq!(needed_downloads(&urls), vec!["http://a", "https://c"]);
}

#[test]
fn images_resolve_from_data_and_from_downloads() {
    let got = vec![
        Fetched {
            url: "http://a".to_string(),
            data: Some(j(r#"{"mime_type":"image/png","data":"QQ=="}"#)),
        },
        Fetched {
            url: "http://b".to_string(),
            data: None,
        },
    ];
    let urls: Vec<String> = [" http://a", "http://b", "data:image/png;base64,QUJD", "nothing"]
        .iter()
        .map(|s| s.to_string())
        .collect();
    let r = resolve_image_urls(&urls, &got);
    assert_eq!(r.len(), 4);
    same_json(r[0].as_ref().unwrap(), r#"{"mime_type":"image/png","data":"QQ=="}"#);
    assert!(r[1].is_none());
    same_json(r[2].as_ref().unwrap(), r#"{"mime_type":"image/png","data":"QUJD"}"#);
    assert!(r[3].is_none());
    assert!(resolve_image("http://unknown", &got).is_none());
}

#[test]
fn images_are_asked_for_twice_at_most() {
    assert_eq!(after_download(1, true), DownloadStep::Done);
    assert_eq!(after_download(1, false), DownloadStep::Again);
    assert_eq!(after_download(2, false), DownloadStep::GivenUp);
}
