//! Request bodies of DashScope, Volcengine, MiniMax, ATP, Jimeng, Bytefor and
//! Tencent.
use relay::content::{
    build_atp_video_body, build_content_array, build_minimax_image_body, build_minimax_video_body,
    build_volcengine_content_body, build_volcengine_video_body,
};
use relay::dashscope::{build_dashscope_image_body, build_dashscope_video_body};
use relay::jimeng::{
    build_bytefor_video_body, build_jimeng_image_body, build_jimeng_video_body,
    build_volcengine_media_enhance_body, volc_enhance_tool_version,
};
use relay::json::Json;
use relay::ratio::{size_sides, size_to_ratio, StandardRatio};
use relay::tencent::{
    build_tencent_vod_image_body, build_tencent_vod_video_body, split_model,
    tc_build_video_output_config, tc_content_media_url, tc_en_dis, tc_file, tc_list_image_role,
    tc_video_prompt, tc_video_usage,
};

fn j(s: &str) -> Json {
    Json::parse(s).unwrap()
}

fn same_json(a: &Json, b: &str) {
    assert_eq!(a.to_text(), j(b).to_text());
}

#[test]
fn dashscope_images_wrap_the_prompt_as_a_message() {
    let r = build_dashscope_image_body(
        "m",
        &j(r#"{"image":"a","size":"1024x768","n":2,"negative_prompt":"x","seed":7,"foo":1}"#),
    );
    same_json(
        &r,
        r#"{"model":"m",
            "input":{"messages":[{"role":"user","content":[{"image":"a"},{"text":"Generate an image"}]}]},
            "parameters":{"negative_prompt":"x","n":2,"size":"1024*768","seed":7}}"#,
    );
}

#[test]
fn dashscope_images_convert_messages() {
    let r = build_dashscope_image_body(
        "m",
        &j(r#"{"messages":[{"content":"hi"},
            {"role":"assistant","content":[{"type":"text","text":"t"},{"type":"image_url","image_url":{"url":"u"}},
                {"type":"other"},{"image":"i"},{"text":"n"},5]}]}"#),
    );
    same_json(
        &r,
        r#"{"model":"m","input":{"messages":[
            {"role":"user","content":[{"text":"hi"}]},
            {"role":"assistant","content":[{"text":"t"},{"image":"u"},{"image":"i"},{"text":"n"}]}]},
            "parameters":{}}"#,
    );
}

#[test]
fn dashscope_keeps_a_request_with_an_input() {
    let r = build_dashscope_image_body("m", &j(r#"{"model":"x","input":{"a":1}}"#));
    same_json(&r, r#"{"model":"m","input":{"a":1}}"#);
    let r = build_dashscope_video_body("m", &j(r#"{"input":{},"size":"9"}"#));
    same_json(&r, r#"{"model":"m","input":{},"size":"9"}"#);
}

#[test]
fn dashscope_videos_have_media_and_parameters() {
    let r = build_dashscope_video_body(
        "wan",
        &j(r#"{"prompt":"p","images":["a","b"],"videos":["v"],"audios":["s"],"files":["f"],"links":["l"],
            "size":"1080p","generate_audio":true}"#),
    );
    same_json(
        &r,
        r#"{"model":"wan","input":{"prompt":"p","media":[
            {"type":"first_frame","url":"a"},{"type":"last_frame","url":"b"},
            {"type":"reference_video","url":"v"},{"type":"reference_audio","url":"s"},
            {"type":"file","url":"f"},{"type":"link","url":"l"}]},
            "parameters":{"resolution":"1080P","duration":5,"audio":true}}"#,
    );
    let r = build_dashscope_video_body("HappyHorse-1", &j(r#"{"videos":["v"],"audio":false,"generate_audio":true}"#));
    same_json(
        &r,
        r#"{"model":"HappyHorse-1","input":{"prompt":"","media":[{"type":"video","url":"v"}]},
            "parameters":{"resolution":"720P","duration":5,"audio":false}}"#,
    );
}

#[test]
fn content_arrays_come_from_prompt_and_media() {
    let r = build_content_array(&j(r#"{"images":["a"],"videos":["v"]}"#));
    same_json(
        &r,
        r#"[{"type":"text","text":"Generate content"},
            {"type":"image_url","image_url":{"url":"a"},"role":"reference_image"},
            {"type":"video_url","video_url":{"url":"v"},"role":"reference_video"}]"#,
    );
    let r = build_content_array(&j(r#"{"prompt":"p","images":[{"url":"a","role":"last_frame"}]}"#));
    same_json(
        &r,
        r#"[{"type":"text","text":"p"},{"type":"image_url","image_url":{"url":"a"},"role":"last_frame"}]"#,
    );
    let r = build_content_array(&j(r#"{"content":[1]}"#));
    same_json(&r, "[1]");
}

#[test]
fn volcengine_tasks_expire_and_have_a_resolution() {
    let r = build_volcengine_content_body("m", &j(r#"{"content":[],"seed":3,"foo":1}"#));
    same_json(&r, r#"{"model":"m","content":[],"seed":3,"execution_expires_after":3600}"#);
    let r = build_volcengine_video_body("m", &j(r#"{"content":[],"resolution":"1080P","execution_expires_after":9}"#));
    same_json(&r, r#"{"model":"m","content":[],"resolution":"1080p","execution_expires_after":9}"#);
    let r = build_volcengine_video_body("m", &j(r#"{"content":[]}"#));
    same_json(&r, r#"{"model":"m","content":[],"resolution":"720p","execution_expires_after":3600}"#);
}

#[test]
fn minimax_videos_rename_the_watermark() {
    let r = build_minimax_video_body("m", &j(r#"{"content":[],"watermark":true,"duration":6}"#));
    same_json(&r, r#"{"model":"m","content":[],"duration":6,"aigc_watermark":true}"#);
    let r = build_minimax_video_body("m", &j(r#"{"content":[],"watermark":true,"aigc_watermark":false}"#));
    same_json(&r, r#"{"model":"m","content":[],"aigc_watermark":false}"#);
}

#[test]
fn minimax_images_map_size_format_and_references() {
    let r = build_minimax_image_body(
        "m",
        &j(r#"{"prompt":"p","size":"1024x1024","response_format":"b64_json","image":"a","style":null,"watermark":1}"#),
        Some(StandardRatio::Square),
    );
    same_json(
        &r,
        r#"{"model":"m","prompt":"p","aspect_ratio":"1:1","response_format":"base64","aigc_watermark":1,
            "subject_reference":[{"type":"character","image_file":"a"}]}"#,
    );
    let r = build_minimax_image_body("m", &j(r#"{"width":1,"height":2,"ratio":"1:1"}"#), None);
    same_json(&r, r#"{"model":"m","width":1,"height":2}"#);
    let r = build_minimax_image_body("m", &j(r#"{"width":1,"ratio":"2:1"}"#), None);
    same_json(&r, r#"{"model":"m","width":1,"aspect_ratio":"2:1"}"#);
}

#[test]
fn atp_takes_three_forms() {
    let r = build_atp_video_body("m", &j(r#"{"content":[{"a":1},"x"],"duration":7.9}"#));
    same_json(&r, r#"{"model":"m","content":[{"a":1}],"duration":7}"#);
    let r = build_atp_video_body(
        "m",
        &j(r#"{"input":{"prompt":"p","media":[{"type":"first_frame","url":"a"},{"type":"video","url":"v"},
                {"type":"x","url":"y","z":1},{"type":"video"}]},
            "parameters":{"resolution":"720P","aspect_ratio":"1:1","duration":3,"watermark":false,"seed":4,"generate_audio":true}}"#),
    );
    same_json(
        &r,
        r#"{"model":"m","content":[{"type":"text","text":"p"},
            {"type":"image_url","image_url":{"url":"a"},"role":"first_frame"},
            {"type":"video_url","video_url":{"url":"v"}},{"type":"x","url":"y","z":1}],
            "resolution":"720P","ratio":"1:1","duration":3,"watermark":false,"seed":4,"generate_audio":true}"#,
    );
    let r = build_atp_video_body("m", &j(r#"{"prompt":"p","images":["a"],"videos":["v"],"ratio":""}"#));
    same_json(
        &r,
        r#"{"model":"m","content":[{"type":"text","text":"p"},
            {"type":"image_url","image_url":{"url":"a"},"role":"first_frame"},
            {"type":"video_url","video_url":{"url":"v"}}],"duration":5}"#,
    );
}

#[test]
fn jimeng_images_have_sides_and_addresses() {
    let r = build_jimeng_image_body(
        "k",
        &j(r#"{"model":"m","size":"1024X768","image":"a","response_format":"url","watermark":true,"seed":1}"#),
    );
    same_json(&r, r#"{"req_key":"k","width":1024,"height":768,"image_urls":["a"],"seed":1}"#);
    let r = build_jimeng_image_body("k", &j(r#"{"image":["a"],"image_urls":["b"]}"#));
    same_json(&r, r#"{"req_key":"k","image_urls":["a"]}"#);
    let r = build_jimeng_image_body("k", &j(r#"{"image_urls":["b","c"]}"#));
    same_json(&r, r#"{"req_key":"k","image_urls":["b","c"]}"#);
    for own in [r#""u""#, r#"[{"image":"u","a":"b"}]"#, "null", "[]"] {
        let body = j(&format!(r#"{{"image_urls":{}}}"#, own));
        let r = build_jimeng_image_body("k", &body);
        same_json(r.get("image_urls").unwrap(), own);
        let r = build_jimeng_video_body("k", &body);
        same_json(r.get("image_urls").unwrap(), own);
        assert!(r.get("binary_data_base64").is_none());
    }
    let r = build_jimeng_image_body("k", &j(r#"{"size":"2k","width":5}"#));
    same_json(&r, r#"{"req_key":"k","width":5}"#);
}

#[test]
fn jimeng_videos_count_frames() {
    let r = build_jimeng_video_body("k", &j(r#"{"duration":5,"size":"16:9","images":["http://a"]}"#));
    same_json(&r, r#"{"req_key":"k","frames":121,"aspect_ratio":"16:9","image_urls":["http://a"]}"#);
    let r = build_jimeng_video_body(
        "k",
        &j(r#"{"duration":5.5,"ratio":"1:1","images":["data:image/png;base64,QQ==","QUJD"]}"#),
    );
    same_json(&r, r#"{"req_key":"k","frames":241,"aspect_ratio":"1:1","binary_data_base64":["QQ==","QUJD"]}"#);
    let r = build_jimeng_video_body("k", &j(r#"{"images":["http://a"],"image_urls":["http://b"]}"#));
    same_json(&r, r#"{"req_key":"k","frames":121,"image_urls":["http://a"]}"#);
    let r = build_jimeng_video_body("k", &j(r#"{"images":["QUJD"],"image_urls":["http://b"]}"#));
    same_json(&r, r#"{"req_key":"k","frames":121,"binary_data_base64":["QUJD"]}"#);
    let r = build_jimeng_video_body("k", &j(r#"{"image_urls":["http://b"],"binary_data_base64":["x"]}"#));
    same_json(&r, r#"{"req_key":"k","frames":121,"image_urls":["http://b"],"binary_data_base64":["x"]}"#);
    let r = build_jimeng_video_body("k", &j(r#"{"duration":"8"}"#));
    same_json(&r, r#"{"req_key":"k","frames":121}"#);
}

#[test]
fn bytefor_normalises_its_members() {
    let r = build_bytefor_video_body(
        "m",
        &j(r#"{"duration":8,"size":"9:16","quality":"HD","reference_mode":"all","images":["a"],"videos":["v"],"n":1}"#),
    );
    same_json(
        &r,
        r#"{"model":"m","duration":"8s","aspectRatio":"9:16","resolution":"1080P","referenceMode":"全能参考","images":["a","v"]}"#,
    );
    let r = build_bytefor_video_body("m", &j(r#"{"duration":"10S","resolution":"480p"}"#));
    same_json(&r, r#"{"model":"m","duration":"10s","aspectRatio":"16:9","resolution":"480P"}"#);
    let r = build_bytefor_video_body("m", &j(r#"{"duration":2.5,"quality":"fast"}"#));
    same_json(&r, r#"{"model":"m","duration":"2.5s","aspectRatio":"16:9","resolution":"720P"}"#);
    let r = build_bytefor_video_body("m", &j("{}"));
    same_json(&r, r#"{"model":"m","duration":"5s","aspectRatio":"16:9","resolution":"720P"}"#);
}

#[test]
fn enhancement_tools_have_versions() {
    assert_eq!(volc_enhance_tool_version("vve-sd"), Some("standard"));
    assert_eq!(volc_enhance_tool_version("vve-pf"), Some("professional"));
    assert_eq!(volc_enhance_tool_version("vve-ft"), None);
    let r = build_volcengine_media_enhance_body("vve-pf", &j(r#"{"video_url":"v","fps":30,"model":"m"}"#));
    same_json(&r, r#"{"video_url":"v","tool_version":"professional","fps":30}"#);
}

#[test]
fn sizes_become_ratios() {
    assert_eq!(size_to_ratio(" 16:9 ", None), Some("16:9"));
    assert_eq!(size_to_ratio("", None), None);
    assert_eq!(size_to_ratio("auto", None), Some("auto"));
    assert_eq!(size_to_ratio("1920x1080", Some(StandardRatio::SixteenNine)), Some("16:9"));
    assert_eq!(size_to_ratio("0x1080", None), Some("0x1080"));
    assert_eq!(size_sides("1920 * 1080"), Some(("1920", "1080")));
    assert_eq!(size_sides("16:9"), None);
    assert_eq!(size_sides("auto"), None);
}

#[test]
fn tencent_models_have_versions() {
    assert_eq!(split_model("GEM@2.5"), ("GEM", "2.5"));
    assert_eq!(split_model("GEM"), ("GEM", ""));
    assert_eq!(tc_en_dis(true), "Enabled");
    assert_eq!(tc_en_dis(false), "Disabled");
    assert_eq!(tc_list_image_role("end_frame"), "last_frame");
    assert_eq!(tc_list_image_role("x"), "reference_image");
    assert_eq!(tc_content_media_url(&j(r#"{"image_url":"u"}"#)), Some("u"));
    assert_eq!(tc_content_media_url(&j(r#"{"url":"","image_url":"u"}"#)), None);
}

#[test]
fn tencent_files_are_data_or_addresses() {
    same_json(&tc_file("data:image/png;base64,QQ=="), r#"{"Type":"Base64","Base64":"QQ=="}"#);
    same_json(&tc_file(" http://a "), r#"{"Type":"Url","Url":"http://a"}"#);
    assert_eq!(tc_video_usage("", 0, 2, false), "FirstFrame");
    assert_eq!(tc_video_usage("", 1, 2, false), "LastFrame");
    assert_eq!(tc_video_usage("", 0, 1, true), "Reference");
    assert_eq!(tc_video_usage("", 0, 3, false), "Reference");
    assert_eq!(tc_video_usage("last_frame", 0, 3, true), "LastFrame");
    assert_eq!(tc_video_usage("", 0, 1, false), "FirstFrame");
}

#[test]
fn tencent_prompts_stand_at_the_top_or_in_the_contents() {
    assert_eq!(tc_video_prompt(&j(r#"{"Prompt":" p "}"#)), Some("p"));
    assert_eq!(
        tc_video_prompt(&j(r#"{"prompt":" ","contents":[{"type":"prompt","text":""},{"type":"prompt","text":"q"}]}"#)),
        Some("q")
    );
    assert_eq!(tc_video_prompt(&j("{}")), None);
}

#[test]
fn tencent_images_map_to_pascal_case() {
    let r = build_tencent_vod_image_body(
        "GEM@3",
        &j(r#"{"prompt":"p","image":["http://a"],"n":2,"resolution":"2k","size":"100x100","watermark":true,"seed":5,"prompt_extend":"Enabled"}"#),
        Some(StandardRatio::Square),
    );
    same_json(
        &r,
        r#"{"ModelName":"GEM","ModelVersion":"3","Prompt":"p","FileInfos":[{"Type":"Url","Url":"http://a"}],
            "OutputConfig":{"OutputImageCount":2,"Resolution":"2K","AspectRatio":"1:1","LogoAdd":"Enabled"},
            "Seed":5,"EnhancePrompt":"Enabled"}"#,
    );
}

#[test]
fn tencent_video_output_follows_the_settings() {
    same_json(
        &tc_build_video_output_config(&j(r#"{"mode":"pro","duration":"5","service_tier":"flex","sound":"ON","ratio":"1:1"}"#)),
        r#"{"Resolution":"1080P","AspectRatio":"1:1","Duration":5.0,"OffPeak":"Enabled","AudioGeneration":"Enabled",
            "InputComplianceCheck":"Disabled","OutputComplianceCheck":"Disabled"}"#,
    );
    same_json(
        &tc_build_video_output_config(&j(r#"{"settings":{"resolution":"720p","audio":"off"},"duration":8}"#)),
        r#"{"Resolution":"720P","Duration":8.0,"AudioGeneration":"Disabled",
            "InputComplianceCheck":"Disabled","OutputComplianceCheck":"Disabled"}"#,
    );
}

#[test]
fn tencent_videos_collect_files_and_the_last_frame() {
    let r = build_tencent_vod_video_body(
        "Kling@2.1",
        &j(r#"{"prompt":"p","images":["http://a","http://b"],"OutputConfig":{}}"#),
    );
    same_json(
        &r,
        r#"{"ModelName":"Kling","ModelVersion":"2.1","Prompt":"p","LastFrameUrl":"http://b",
            "FileInfos":[{"Type":"Url","Url":"http://a","Usage":"FirstFrame"}],"OutputConfig":{}}"#,
    );
    let r = build_tencent_vod_video_body(
        "K",
        &j(r#"{"contents":[{"type":"prompt","text":"q"},{"type":"last_frame","url":"data:,QQ=="},{"type":"base_video","url":"http://v"}],
            "OutputConfig":{},"LastFrameUrl":"x"}"#),
    );
    same_json(
        &r,
        r#"{"ModelName":"K","Prompt":"q","LastFrameUrl":"x",
            "FileInfos":[{"Type":"Url","Url":"http://v","Category":"Video","Usage":"Reference"},
                {"Type":"Base64","Base64":"QQ==","Usage":"LastFrame"}],"OutputConfig":{}}"#,
    );
}

#[test]
fn tencent_images_beside_a_video_are_references() {
    let body = j(r#"{"images":["https://a/i.png"],"videos":["https://a/v.mp4"]}"#);
    let r = build_tencent_vod_video_body("Kling@2.1", &body);
    same_json(
        r.get("FileInfos").unwrap(),
        r#"[{"Type":"Url","Url":"https://a/i.png","Usage":"Reference"},
            {"Type":"Url","Url":"https://a/v.mp4","Category":"Video","Usage":"Reference"}]"#,
    );
    let body = j(
        r#"{"images":["https://a/i.png",{"url":"https://a/j.png","role":"first_frame"}],
            "contents":[{"type":"base_video","url":"https://a/v.mp4"}]}"#,
    );
    let r = build_tencent_vod_video_body("Kling@2.1", &body);
    same_json(
        r.get("FileInfos").unwrap(),
        r#"[{"Type":"Url","Url":"https://a/i.png","Usage":"Reference"},
            {"Type":"Url","Url":"https://a/j.png","Usage":"FirstFrame"},
            {"Type":"Url","Url":"https://a/v.mp4","Category":"Video","Usage":"Reference"}]"#,
    );
    let r = build_tencent_vod_video_body("Kling@2.1", &j(r#"{"images":["https://a/i.png"]}"#));
    same_json(
        r.get("FileInfos").unwrap(),
        r#"[{"Type":"Url","Url":"https://a/i.png","Usage":"FirstFrame"}]"#,
    );
}
