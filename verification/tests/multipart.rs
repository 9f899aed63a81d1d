//! Forms: from their fields to JSON, and from JSON to their parts.
use relay::json::Json;
use relay::media::Fetched;
use relay::multipart::{
    build_edits_multipart, edit_image_urls, file_data_uri, parse_multipart_to_json, EditPart,
    FieldValue, FormField,
};

fn text(name: &str, value: &str) -> FormField {
    FormField { name: name.to_string(), value: FieldValue::Text(value.to_string()) }
}

fn file(name: &str, mime: Option<&str>, bytes: &[u8]) -> FormField {
    FormField {
        name: name.to_string(),
        value: FieldValue::File(mime.map(|m| m.to_string()), bytes.to_vec()),
    }
}

#[test]
fn texts_are_json_or_themselves() {
    let v = parse_multipart_to_json(&vec![
        text("n", "2"),
        text("prompt", "a cat"),
        text("size", "1024x1024"),
        text("b", "true"),
        text("o", r#"{"a":[1]}"#),
        text("", "lost"),
    ]);
    assert_eq!(
        v.to_text(),
        r#"{"b":true,"n":2,"o":{"a":[1]},"prompt":"a cat","size":"1024x1024"}"#
    );
}

#[test]
fn repeated_fields_become_a_list() {
    let v = parse_multipart_to_json(&vec![text("a", "x"), text("a", "y"), text("a", "3"), text("b", "[1]"), text("b", "2")]);
    assert_eq!(v.to_text(), r#"{"a":["x","y",3],"b":[1,2]}"#);
}

#[test]
fn files_become_data_addresses() {
    let v = parse_multipart_to_json(&vec![
        file("a", Some("image/png"), &[0xff, 0xfe, 0x00]),
        file("b", None, &[0xff]),
    ]);
    assert_eq!(
        v.to_text(),
        r#"{"a":"data:image/png;base64,//4A","b":"data:application/octet-stream;base64,/w=="}"#
    );
}

#[test]
fn files_that_write_base64_are_taken_as_they_are() {
    assert_eq!(
        file_data_uri(Some("image/png"), &b" data:image/gif;base64,AAAA\n".to_vec()),
        "data:image/gif;base64,AAAA"
    );
    assert_eq!(file_data_uri(Some("image/png"), &b"AAAA\n".to_vec()), "data:image/png;base64,AAAA");
    assert_eq!(file_data_uri(Some("image/png"), &b"AAA".to_vec()), "data:image/png;base64,QUFB");
    assert_eq!(file_data_uri(Some("image/png"), &b"a-b!".to_vec()), "data:image/png;base64,YS1iIQ==");
    assert_eq!(file_data_uri(Some("image/png"), &vec![]), "data:image/png;base64,");
}

fn show(p: &EditPart) -> String {
    match p {
        EditPart::File(n, f, m, b) => format!("{} {} {} {:?}", n, f, m, b),
        EditPart::Text(n, t) => format!("{}={}", n, t),
    }
}

#[test]
fn edits_send_images_as_files_and_the_rest_as_text() {
    let body = Json::parse(
        r#"{"image":["data:image/png;base64,AAAA","http://h/x","http://h/y"],"mask":" data:image/webp;base64,//4A ","prompt":"p","n":2,"user":null,"o":{"a":1}}"#,
    )
    .unwrap();
    assert_eq!(
        edit_image_urls(&body),
        vec!["data:image/png;base64,AAAA", "http://h/x", "http://h/y", " data:image/webp;base64,//4A "]
    );
    let got = vec![
        Fetched {
            url: "http://h/x".to_string(),
            data: Json::parse(r#"{"mime_type":"image/jpeg; q=1","data":"//4A"}"#),
        },
        Fetched { url: "http://h/y".to_string(), data: None },
    ];
    let parts: Vec<String> = build_edits_multipart(&body, &got).iter().map(show).collect();
    assert_eq!(
        parts,
        vec![
            "image[] image.png image/png [0, 0, 0]",
            "image[] image.jpeg image/jpeg; q=1 [255, 254, 0]",
            "image[]=http://h/y",
            "mask mask.webp image/webp [255, 254, 0]",
            "n=2",
            r#"o={"a":1}"#,
            "prompt=p",
        ]
    );
}

#[test]
fn a_single_image_has_a_plain_name() {
    let body = Json::parse(r#"{"images":"data:image/png;base64,AAAA","mask":"  "}"#).unwrap();
    let parts: Vec<String> = build_edits_multipart(&body, &vec![]).iter().map(show).collect();
    assert_eq!(parts, vec!["image image.png image/png [0, 0, 0]"]);
}
