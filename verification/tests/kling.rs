//! Kling requests.
use relay::json::Json;
use relay::kling::{
    build_kling_body, build_kling_v3_body, is_kling_end_frame, is_kling_first_frame,
    kling_v3_build_options, kling_v3_build_settings, kling_v3_content_item, kling_v3_image_type,
};

fn j(s: &str) -> Json {
    Json::parse(s).unwrap()
}

fn same_json(a: &Json, b: &str) {
    assert_eq!(a.to_text(), j(b).to_text());
}

#[test]
fn frame_roles_have_several_names() {
    for r in ["first_frame", "first"] {
        assert!(is_kling_first_frame(r));
        assert!(!is_kling_end_frame(r));
    }
    for r in ["last_frame", "end_frame", "last", "tail"] {
        assert!(is_kling_end_frame(r));
        assert!(!is_kling_first_frame(r));
    }
    assert!(!is_kling_first_frame("FIRST"));
}

#[test]
fn a_text_video_gets_a_mode_and_keeps_known_members() {
    let r = build_kling_body(
        "kling-v1",
        &j(r#"{"model":"m","prompt":"p","resolution":"1080P","generate_audio":"true","ratio":"16:9","foo":1}"#),
        "视频",
        "/v1/videos/text2video",
    );
    same_json(
        &r,
        r#"{"model_name":"kling-v1","prompt":"p","sound":"on","aspect_ratio":"16:9","mode":"pro"}"#,
    );
}

#[test]
fn two_images_are_the_first_and_the_last_frame() {
    let r = build_kling_body("k", &j(r#"{"images":["a","b"]}"#), "视频", "/v1/videos/text2video");
    same_json(&r, r#"{"model_name":"k","mode":"std","image":"a","image_tail":"b"}"#);
    let r = build_kling_body(
        "k",
        &j(r#"{"images":["a",{"url":"b","role":"first"}],"mode":"4k"}"#),
        "视频",
        "/v1/videos/text2video",
    );
    same_json(&r, r#"{"model_name":"k","mode":"4k","image":"b","image_tail":"a"}"#);
}

#[test]
fn three_images_or_a_reference_make_a_list() {
    let r = build_kling_body("k", &j(r#"{"image_urls":["a","b","c"]}"#), "视频", "/x");
    same_json(
        &r,
        r#"{"model_name":"k","mode":"std","image_list":[{"image":"a"},{"image":"b"},{"image":"c"}]}"#,
    );
    let r = build_kling_body(
        "k",
        &j(r#"{"images":[{"url":"a","role":"reference_image"}]}"#),
        "视频",
        "/x",
    );
    same_json(&r, r#"{"model_name":"k","mode":"std","image_list":[{"image":"a"}]}"#);
}

#[test]
fn the_omni_interface_lists_images_and_videos() {
    let r = build_kling_body(
        "k",
        &j(r#"{"images":["a","b"],"videos":["v",{"url":"w","role":"feature"}]}"#),
        "视频",
        "/v1/videos/omni-video",
    );
    same_json(
        &r,
        r#"{"model_name":"k","mode":"std",
            "image_list":[{"image_url":"a","type":"first_frame"},{"image_url":"b","type":"end_frame"}],
            "video_list":[{"video_url":"v","refer_type":"base"},{"video_url":"w","refer_type":"feature"}]}"#,
    );
    let r = build_kling_body(
        "k",
        &j(r#"{"images":["a",{"url":"b","role":"tail"},"c"]}"#),
        "视频",
        "/v1/videos/omni-video",
    );
    same_json(
        &r,
        r#"{"model_name":"k","mode":"std",
            "image_list":[{"image_url":"a"},{"image_url":"b","type":"end_frame"},{"image_url":"c"}]}"#,
    );
}

#[test]
fn native_members_are_not_overridden() {
    let r = build_kling_body(
        "k",
        &j(r#"{"model_name":"n","image":"x","images":["a","b"]}"#),
        "视频",
        "/x",
    );
    same_json(&r, r#"{"model_name":"n","mode":"std","image":"x"}"#);
}

#[test]
fn kling_images_have_a_resolution_and_lists() {
    let r = build_kling_body("k", &j(r#"{"prompt":"p","image":"a"}"#), "图片", "/v1/images/generations");
    same_json(&r, r#"{"model_name":"k","prompt":"p","resolution":"1k","image":"a"}"#);
    let r = build_kling_body(
        "k",
        &j(r#"{"size":"2k","image_urls":["a","b"]}"#),
        "图片",
        "/v1/images/generations",
    );
    same_json(
        &r,
        r#"{"model_name":"k","resolution":"2k","subject_image_list":[{"subject_image":"a"},{"subject_image":"b"}]}"#,
    );
    let r = build_kling_body("k", &j(r#"{"image":["a"]}"#), "图片", "/v1/images/omni-image");
    same_json(&r, r#"{"model_name":"k","resolution":"1k","image_list":[{"image":"a"}]}"#);
    let r = build_kling_body("k", &j(r#"{"image":[]}"#), "图片", "/v1/images/generations");
    same_json(&r, r#"{"model_name":"k","resolution":"1k"}"#);
}

#[test]
fn image_types_of_contents() {
    assert_eq!(kling_v3_image_type("", 0, true), "first_frame");
    assert_eq!(kling_v3_image_type("", 1, true), "last_frame");
    assert_eq!(kling_v3_image_type("TAIL", 0, false), "last_frame");
    assert_eq!(kling_v3_image_type("Reference_Image", 0, false), "refer_image");
    assert_eq!(kling_v3_image_type("other", 0, false), "first_frame");
    assert_eq!(kling_v3_image_type("other", 1, false), "refer_image");
    same_json(&kling_v3_content_item("t", "u"), r#"{"type":"t","url":"u"}"#);
}

#[test]
fn settings_come_from_the_settings_or_from_the_top() {
    same_json(&kling_v3_build_settings(&j("{}")), r#"{"resolution":"720p","audio":"off"}"#);
    same_json(
        &kling_v3_build_settings(&j(
            r#"{"settings":{"resolution":"1080P","audio":"On"},"duration":"5","ratio":"1:1","multi_shot":true}"#,
        )),
        r#"{"resolution":"1080p","duration":"5","audio":"native","aspect_ratio":"1:1","multi_shot":true}"#,
    );
    same_json(
        &kling_v3_build_settings(&j(r#"{"resolution":"","generate_audio":true}"#)),
        r#"{"resolution":"720p","audio":"native"}"#,
    );
}

#[test]
fn options_at_the_top_fill_those_that_are_free() {
    let o = kling_v3_build_options(&j(
        r#"{"options":{"callback_url":"x"},"callback_url":"y","external_task_id":"z"}"#,
    ));
    assert_eq!(
        Json::Obj(o).to_text(),
        j(r#"{"callback_url":"x","external_task_id":"z"}"#).to_text()
    );
}

#[test]
fn a_text_request_keeps_its_prompt_at_the_top() {
    let r = build_kling_v3_body(&j(r#"{"model":"m","prompt":"p"}"#), "/text-to-video/k");
    same_json(&r, r#"{"prompt":"p","settings":{"resolution":"720p","audio":"off"}}"#);
}

#[test]
fn an_image_request_puts_its_prompt_into_the_contents() {
    let r = build_kling_v3_body(
        &j(r#"{"prompt":"p","images":["a"],"videos":[{"url":"v","role":"FEATURE"}],"watermark_info":{}}"#),
        "/image-to-video/k",
    );
    same_json(
        &r,
        r#"{"contents":[{"type":"prompt","text":"p"},{"type":"first_frame","url":"a"},{"type":"feature_video","url":"v"}],
            "settings":{"resolution":"720p","audio":"off"},"options":{"watermark_info":{}}}"#,
    );
}

#[test]
fn a_native_omni_request_moves_its_prompt() {
    let r = build_kling_v3_body(
        &j(r#"{"model":"m","prompt":" p ","contents":[{"type":"first_frame","url":"a"}],"settings":{"audio":"x"}}"#),
        "/omni-video/k",
    );
    same_json(
        &r,
        r#"{"contents":[{"type":"prompt","text":"p"},{"type":"first_frame","url":"a"}],
            "settings":{"audio":"x","resolution":"720p"}}"#,
    );
    let r = build_kling_v3_body(
        &j(r#"{"prompt":"q","contents":[{"type":"prompt","text":"p"}]}"#),
        "/omni-video/k",
    );
    same_json(
        &r,
        r#"{"contents":[{"type":"prompt","text":"p"}],"settings":{"audio":"off","resolution":"720p"}}"#,
    );
}

#[test]
fn omni_videos_come_from_either_field() {
    let want = r#"[{"video_url":"v","refer_type":"base"}]"#;
    for field in ["videos", "video_urls"] {
        let body = j(&format!(r#"{{"{}":["v"]}}"#, field));
        let r = build_kling_body("k", &body, "视频", "/v1/videos/omni-video");
        assert_eq!(r.get("video_list").unwrap().to_text(), j(want).to_text());
    }
}
