//! Image and video requests.
use relay::attempt::{answer_value, ImageRoute};
use relay::forward::{default_openai_forward, ResolvedForward};
use relay::json::Json;
use relay::relay_image::{
    answer_id, client_content_type, content_type_is_multipart, follow_request_path, has_image,
    image_answer, image_request_path, is_jimeng_target, jimeng_note, note_freeze,
    plugin_tag_client_ct, plugin_tag_jimeng_poll, read_request, route_image, timeout_text,
};
use relay::relay_video::{
    asset_conversion, cascade_resolution, checked_resolution, conversion_error, conversion_log,
    enhance_tool, inactive_text, is_comfyui, make_cascade_note, mapping_note, note_text,
    request_note, video_entry_path, video_model, video_note, CascadeStage, Conversion, VideoModel,
};

fn j(s: &str) -> Json {
    Json::parse(s).unwrap()
}

fn forward() -> ResolvedForward {
    default_openai_forward("/v1/images/generations")
}

#[test]
fn forms_are_known_by_their_content_type() {
    assert!(content_type_is_multipart(Some("Multipart/Form-Data; boundary=x")));
    assert!(!content_type_is_multipart(Some("application/json")));
    assert!(!content_type_is_multipart(None));
    assert_eq!(client_content_type(true), "multipart/form-data");
    assert_eq!(plugin_tag_client_ct(client_content_type(false)), r#"{"client_ct":"application/json"}"#);
}

#[test]
fn tasks_note_how_they_are_asked_for() {
    assert_eq!(
        plugin_tag_jimeng_poll("c", "k", "url", true),
        r#"{"client_ct":"c","jimeng_poll":{"req_key":"k","response_format":"url","watermark":true}}"#
    );
    assert_eq!(
        jimeng_note("c", &j("{}"), &j(r#"{"response_format":"b64_json"}"#), "m"),
        r#"{"client_ct":"c","jimeng_poll":{"req_key":"m","response_format":"b64_json","watermark":false}}"#
    );
    assert_eq!(
        jimeng_note("c", &j(r#"{"req_key":"k"}"#), &j(r#"{"watermark":true}"#), "m"),
        r#"{"client_ct":"c","jimeng_poll":{"req_key":"k","response_format":"url","watermark":true}}"#
    );
    let mut f = forward();
    f.target_type = "jimeng_t2i".to_string();
    assert!(is_jimeng_target(&f));
    f.target_type = "jimeng".to_string();
    assert!(!is_jimeng_target(&f));
}

#[test]
fn native_image_paths_count_as_generations() {
    for p in ["/v1/images/omni-image", "/v1/images/multi-image2image", "/v1/images/edits"] {
        assert_eq!(image_request_path(p), "/v1/images/generations");
    }
    assert_eq!(image_request_path("/v1/images/x"), "/v1/images/x");
    for (t, p) in [("openai", "/raw"), ("gpt", "/raw"), ("apimart", "/raw"), ("ali", "/up")] {
        let mut f = forward();
        f.target_type = t.to_string();
        f.upstream_path = "/up".to_string();
        follow_request_path(&mut f, "/raw");
        assert_eq!(f.upstream_path, p);
        assert_eq!(f.target_type, t);
    }
}

#[test]
fn answers_are_waited_for_recorded_or_handed_out() {
    let openai = j("{}");
    let native = j(r#"{"model_name":"m"}"#);
    let mut f = forward();
    f.poll_path = None;
    assert_eq!(route_image(&openai, &f, "t", false), ImageRoute::Wait);
    assert_eq!(route_image(&openai, &f, "t", true), ImageRoute::Answer);
    assert_eq!(route_image(&openai, &f, "", false), ImageRoute::Answer);
    assert_eq!(route_image(&native, &f, "t", false), ImageRoute::Freeze);
    assert_eq!(route_image(&native, &f, "t", true), ImageRoute::Answer);
    f.poll_path = Some("/poll".to_string());
    assert_eq!(route_image(&openai, &f, "t", true), ImageRoute::Freeze);
    assert_eq!(route_image(&openai, &f, "t", false), ImageRoute::Freeze);
    assert_eq!(route_image(&native, &f, "", false), ImageRoute::Answer);
}

#[test]
fn failures_and_tasks_have_their_notes() {
    assert!(has_image(Some(1)) && !has_image(Some(0)) && !has_image(None));
    assert_eq!(timeout_text("t1"), "任务处理超时，请稍后查询结果，任务ID: t1");
    assert_eq!(note_freeze(true), "异步任务预扣费冻结");
    assert_eq!(note_freeze(false), "异步任务处理中(冻结)");
    assert_eq!(answer_id("t", Some("l")), Some("t"));
    assert_eq!(answer_id("", Some("l")), Some("l"));
    assert_eq!(answer_id("", None), None);
}

#[test]
fn tools_stand_for_models() {
    let b = j("{}");
    for (p, m) in [
        ("/api/v1/tools/enhance-video-fast", "vve-ft"),
        ("/api/v1/tools/enhance-video-generative", "vve-gt"),
        ("/api/v1/tools/erase-video-subtitle-pro", "vvs-ep"),
        ("/api/v1/tools/erase-video-subtitle", "vvs-er"),
        ("/api/v1/tools/enhance-video", "vve-sd"),
    ] {
        assert_eq!(enhance_tool(p, &b), Some(m));
    }
    let pro = j(r#"{"tool_version":"professional"}"#);
    assert_eq!(enhance_tool("/tools/enhance-video", &pro), Some("vve-pf"));
    assert_eq!(enhance_tool("/v1/videos", &pro), None);
    assert!(matches!(video_model("/x", &j(r#"{"model":"m","model_name":"n"}"#)), VideoModel::Named(m) if m == "m"));
    assert!(matches!(video_model("/x", &j(r#"{"model_name":"n"}"#)), VideoModel::Named(m) if m == "n"));
    assert!(matches!(video_model("/tools/enhance-video", &b), VideoModel::Tool("vve-sd")));
    assert!(matches!(video_model("/x", &b), VideoModel::Missing));
    assert_eq!(inactive_text("vve-sd"), "预置画质增强模型 (mid: vve-sd) 未在系统启用或未激活");
    assert_eq!(video_entry_path("/v1/videos/text2video"), "/v1/video/generations");
    assert_eq!(video_entry_path("/v1/videos"), "/v1/videos");
}

#[test]
fn cascades_aim_at_a_resolution() {
    let none = j("{}");
    assert_eq!(cascade_resolution(&j(r#"{"resolution":" 1080P "}"#), &none), Ok("1080p".to_string()));
    assert_eq!(cascade_resolution(&none, &j(r#"{"resolution":"4K"}"#)), Ok("4k".to_string()));
    assert_eq!(cascade_resolution(&none, &none), Ok("720p".to_string()));
    assert_eq!(
        cascade_resolution(&j(r#"{"resolution":[1080]}"#), &none),
        Err("此模型不支持的分辨率: [1080]".to_string())
    );
    let mut f = forward();
    f.is_cascade = false;
    let up = j(r#"{"resolution":"480p"}"#);
    assert_eq!(checked_resolution(&f, &j(r#"{"resolution":"720p"}"#), &up), Some("720p"));
    assert_eq!(checked_resolution(&f, &none, &up), Some("480p"));
    assert_eq!(checked_resolution(&f, &j(r#"{"resolution":7}"#), &up), None);
    f.is_cascade = true;
    assert_eq!(checked_resolution(&f, &none, &up), None);
}

#[test]
fn cascades_note_their_second_stage() {
    let mut f = forward();
    f.target_type = "t".to_string();
    f.upstream_path = "/u".to_string();
    f.auth_type = "bearer".to_string();
    f.poll_path = None;
    let mut s = CascadeStage {
        mid: "m".to_string(),
        resolution: "1080p".to_string(),
        version: "v".to_string(),
        final_model: "fm".to_string(),
        base_url: "b".to_string(),
        api_key: "k".to_string(),
        channel_id: 5,
        channel_name: "c".to_string(),
        rate: j("1.5"),
        scene: None,
        input_duration: None,
    };
    let plain = r#""api_key":"k","auth_type":"bearer","base_url":"b","ch_id":5,"ch_name":"c","final_model":"fm","#;
    let rest = r#""mid":"m","poll_path":null,"rate":1.5,"resolution":"1080p","#;
    assert_eq!(
        make_cascade_note(&s, &f).to_text(),
        format!("{{{}{}{}", plain, rest, r#""target_type":"t","upstream_path":"/u","version":"v"}"#)
    );
    s.scene = Some("aigc".to_string());
    s.input_duration = Some(j("3.5"));
    f.poll_path = Some("/p".to_string());
    let note = make_cascade_note(&s, &f);
    assert_eq!(note.get("scene").unwrap().to_text(), r#""aigc""#);
    assert_eq!(note.get("input_duration").unwrap().to_text(), "3.5");
    assert_eq!(note.get("poll_path").unwrap().to_text(), r#""/p""#);
    assert_eq!(request_note(Some(&j("1"))).to_text(), r#"{"cascade":1}"#);
    assert_eq!(note_text(&request_note(None)), None);
    assert_eq!(note_text(&Json::Null), None);
    assert_eq!(note_text(&j(r#"{"a":1}"#)), Some(r#"{"a":1}"#.to_string()));
}

#[test]
fn the_upstream_converts_assets_before_a_plugin() {
    let mut f = forward();
    f.upstream_asset_convert = false;
    f.asset_convert = false;
    assert_eq!(asset_conversion(&f), Conversion::Nobody);
    f.asset_convert = true;
    assert_eq!(asset_conversion(&f), Conversion::Plugin);
    f.upstream_asset_convert = true;
    f.upstream_asset_binding_id = None;
    assert_eq!(asset_conversion(&f), Conversion::Unbound);
    f.upstream_asset_binding_id = Some(8);
    assert_eq!(asset_conversion(&f), Conversion::Upstream(8));
    let two = vec!["a".to_string(), "b".to_string()];
    assert_eq!(conversion_log(true, &two), Some("上游素材转换: a | b".to_string()));
    assert_eq!(conversion_log(false, &two), Some("素材转换: a | b".to_string()));
    assert_eq!(conversion_error(true, &two), Some("上游素材转换失败: a; b".to_string()));
    assert_eq!(conversion_error(false, &two), Some("素材转换失败: a; b".to_string()));
    assert_eq!(conversion_log(true, &vec![]), None);
    assert_eq!(conversion_error(false, &vec![]), None);
}

#[test]
fn video_tasks_note_conversion_and_mapping() {
    let m = mapping_note("s", "a", "b");
    assert_eq!(m, "s: a ➞ b");
    assert_eq!(video_note(true, Some("c"), Some(&m)), "异步任务预扣费冻结 | c | s: a ➞ b");
    assert_eq!(video_note(false, None, None), "异步任务处理中(冻结)");
    let mut f = forward();
    assert!(!is_comfyui(&f));
    f.target_type = "comfyui".to_string();
    assert!(is_comfyui(&f));
}

#[test]
fn texts_are_read_as_json_or_refused() {
    assert_eq!(read_request(r#"{"a":1}"#).unwrap().to_text(), r#"{"a":1}"#);
    assert_eq!(read_request("x").unwrap_err(), "Invalid JSON: expected value at line 1 column 1");
    assert_eq!(answer_value("[1]").to_text(), "[1]");
    assert_eq!(answer_value("x").to_text(), "null");
    assert_eq!(image_answer("[1]").to_text(), "[1]");
    assert_eq!(image_answer("x").to_text(), "{}");
}
