//! Forward rules and addresses.
use relay::double::{Double, ONE};
use relay::forward::{
    apply_channel_provider, build_upstream_url, default_openai_forward, infer_forward_from_base_url,
    lookup_res_mul, make_forward, model_has_forward_rules, normalize_res_mul_key,
    parse_comfyui_server_ids, parse_forward_config, parse_res_mul, parse_res_str_map,
    parse_rule_ids, pick_best, refine_target_type, resolve_forward_rule,
    resolve_kling_dynamic_path, resolve_volcengine_media_enhance_path, score_paths,
    upstream_request_path, Channel, ForwardRule, Plugins, ResolvedForward,
};
use relay::json::Json;

fn j(s: &str) -> Json {
    Json::parse(s).unwrap()
}

fn rule(eid: &str, category: &str, config: &str) -> ForwardRule {
    ForwardRule {
        eid: eid.to_string(),
        category: category.to_string(),
        config_json: config.to_string(),
    }
}

const NONE: Plugins = Plugins {
    volcengine_enhance: false,
    commercial: false,
};

fn infer(url: &str, category: &str) -> ResolvedForward {
    infer_forward_from_base_url(url, category, "/v1/cat", None, NONE)
}

fn ends(f: &ResolvedForward) -> (&str, &str, &str) {
    (f.target_type.as_str(), f.upstream_path.as_str(), f.auth_type.as_str())
}

#[test]
fn resolutions_have_one_name_each() {
    for (a, b) in [(" 480 ", "480p"), ("720P", "720p"), ("1080", "1080p"), ("2KP", "2k"), ("4k", "4k"), ("8K", "8k")] {
        assert_eq!(normalize_res_mul_key(a), b);
        assert_eq!(normalize_res_mul_key(b), b);
    }
}

#[test]
fn factors_are_positive_numbers_by_resolution() {
    let m = parse_res_mul(&j(r#"{"res_mul":{"1080":2,"720p":0,"4K":1.5,"x":"3"}}"#));
    assert_eq!(lookup_res_mul(&m, "1080P"), Double { bits: 2.0f64.to_bits() });
    assert_eq!(lookup_res_mul(&m, "4k"), Double { bits: 1.5f64.to_bits() });
    assert_eq!(lookup_res_mul(&m, "720p"), Double { bits: ONE });
    assert_eq!(lookup_res_mul(&m, "x"), Double { bits: ONE });
    let w = parse_res_str_map(&j(r#"{"res_base":{"1080":" 720P ","4k":"","2k":5}}"#), "res_base");
    assert_eq!(Json::Obj(w).to_text(), r#"{"1080p":"720p"}"#);
}

#[test]
fn nodes_are_positive_and_listed_once() {
    assert_eq!(parse_comfyui_server_ids(&j(r#"{"comfyui_server_ids":[4,-1,0,2,4,"5"]}"#)), vec![4, 2]);
    assert_eq!(parse_comfyui_server_ids(&j(r#"{"comfyui_server_ids":[0],"comfyui_server_id":3}"#)), vec![3]);
    assert!(parse_comfyui_server_ids(&j("null")).is_empty());
}

#[test]
fn a_configuration_has_defaults() {
    let f = parse_forward_config(&j("{}"), "/v1/chat/completions", "e", Some("m".to_string()));
    assert_eq!(ends(&f), ("openai", "/v1/chat/completions", "bearer"));
    assert_eq!(f.asset_convert_ns, "asset_manager");
    assert!(f.crop_480p && !f.is_cascade && !f.content_to_prompt);
    assert_eq!((f.eid.as_str(), f.mid.as_deref()), ("e", Some("m")));
    let f = parse_forward_config(
        &j(r#"{"target_type":"gemini","auth_type":"query_key","path_rewrite":{"old":"/chat/completions","new":"/x"},
            "moderation":true,"crop_480p":false,"is_cascade":true,"poll_path":"/p","comfyui_server_ids":[7,8],
            "upstream_asset_convert":true,"upstream_asset_binding_id":9,"comfyui_dispatch":""}"#),
        "/v1/chat/completions",
        "e",
        None,
    );
    assert_eq!(ends(&f), ("gemini", "/v1/x", "query_key"));
    assert!(f.asset_moderation && !f.crop_480p && f.is_cascade && f.upstream_asset_convert);
    assert_eq!(f.poll_path.as_deref(), Some("/p"));
    assert_eq!((f.comfyui_server_id, f.upstream_asset_binding_id), (Some(7), Some(9)));
    assert_eq!(f.comfyui_dispatch, None);
    let f = parse_forward_config(&j(r#"{"path_rewrite":{"old":"zzz","new":"/n"}}"#), "/v1/c", "", None);
    assert_eq!(f.upstream_path, "/n");
}

#[test]
fn rule_lists_are_arrays_of_integers() {
    assert_eq!(parse_rule_ids("[1,5,8]"), vec![1, 5, 8]);
    assert!(parse_rule_ids("[1,\"x\"]").is_empty());
    assert!(parse_rule_ids("nonsense").is_empty());
    assert!(model_has_forward_rules(Some("[3]")));
    assert!(!model_has_forward_rules(Some("[]")));
    assert!(!model_has_forward_rules(None));
}

#[test]
fn paths_are_scored() {
    let chat = "/v1/chat/completions";
    assert_eq!(score_paths("", "", chat, chat), 2);
    assert_eq!(score_paths(chat, chat, chat, chat), 2);
    assert_eq!(score_paths(chat, "/api/v3/chat", chat, chat), 1);
    assert_eq!(score_paths(chat, "/api/v3/chat", "/api/v3/chat", chat), 3);
    assert_eq!(score_paths("/other", "/api/v3/chat", "/other", chat), 3);
    assert_eq!(score_paths("/other", "/x", chat, chat), 0);
    assert_eq!(score_paths("", "", "/unknown", chat), 0);
    assert_eq!(pick_best(&vec![0, 2, 1, 2]), Some(1));
    assert_eq!(pick_best(&vec![0, 0]), None);
}

#[test]
fn the_best_rule_of_the_category_is_taken() {
    let rules = vec![
        rule("a", "聊天", r#"{"path_rewrite":{"old":"/v1/chat/completions","new":"/native"},"target_type":"t1"}"#),
        rule("b", "聊天", r#"{"target_type":"t2"}"#),
        rule("c", "图片", r#"{"target_type":"t3"}"#),
        rule("d", "聊天", "broken"),
    ];
    let chat = "/v1/chat/completions";
    let f = resolve_forward_rule(&rules, "聊天", chat, chat, "mid").unwrap();
    assert_eq!((f.eid.as_str(), f.target_type.as_str(), f.mid.as_deref()), ("b", "t2", Some("mid")));
    let f = resolve_forward_rule(&rules, "聊天", "/native", chat, "mid").unwrap();
    assert_eq!((f.eid.as_str(), f.upstream_path.as_str()), ("a", "/native"));
    assert!(resolve_forward_rule(&rules, "聊天", "/elsewhere", chat, "mid").is_none());
    assert!(resolve_forward_rule(&rules, "视频", chat, chat, "mid").is_none());
    assert!(resolve_forward_rule(&Vec::new(), "聊天", chat, chat, "mid").is_none());
}

#[test]
fn addresses_refine_the_target() {
    let mut f = default_openai_forward("/v1/x");
    refine_target_type(&mut f, "https://API.apimart.ai");
    assert_eq!(f.target_type, "apimart");
    let mut f = make_forward("gpt", "/v1/x", "bearer");
    refine_target_type(&mut f, "https://api.apimart.ai");
    assert_eq!(f.target_type, "gpt");
}

#[test]
fn channels_of_comfyui_override_the_target() {
    let mut f = ResolvedForward::default();
    let ch = Channel {
        provider_type: "comfyui".to_string(),
        config: r#"{"comfyui_server_id":3}"#.to_string(),
    };
    apply_channel_provider(&mut f, &ch);
    assert_eq!(f.comfyui_server_ids, vec![3]);
    let mut f = ResolvedForward::default();
    let ch = Channel {
        provider_type: "comfyui".to_string(),
        config: "no json".to_string(),
    };
    apply_channel_provider(&mut f, &ch);
    assert_eq!(f.target_type, "openai");
}

#[test]
fn vendors_are_known_by_their_hosts() {
    let f = infer("https://DashScope.aliyuncs.com", "视频");
    assert_eq!(ends(&f), ("dashscope", "/api/v1/services/aigc/video-generation/video-synthesis", "bearer"));
    assert_eq!(f.poll_path.as_deref(), Some("/api/v1/tasks/${task_id}"));
    assert_eq!(infer("dashscope", "向量").upstream_path, "/compatible-mode/v1/embeddings");
    assert_eq!(infer("dashscope", "聊天").upstream_path, "/v1/chat/completions");
    assert_eq!(ends(&infer("https://openspeech.bytedance.com", "语音")), ("volcengine_tts", "/api/v3/tts/unidirectional/sse", "volcengine_tts"));
    assert_eq!(ends(&infer("https://visual.volcengineapi.com", "图片")), ("jimeng_image", "/", "jimeng"));
    assert_eq!(ends(&infer("https://ark.volces.com", "图片")), ("volcengine_image", "/api/v3/images/generations", "bearer"));
    assert_eq!(infer("https://ark.volces.com", "聊天").target_type, "volcengine_chat");
    assert_eq!(ends(&infer("https://generativelanguage.googleapis.com", "图片")), ("gemini_image", "/v1beta/models/${model}:generateContent", "query_key"));
    assert_eq!(ends(&infer("https://api.anthropic.com", "聊天")), ("anthropic", "/v1/messages", "x-api-key"));
    assert_eq!(infer("https://api.klingai.com", "视频").upstream_path, "/v1/videos/text2video");
    assert_eq!(infer("https://api.minimaxi.com", "视频").poll_path.as_deref(), Some("/v2/query/video_generation/${task_id}"));
    assert_eq!(infer("https://atptoken.ai", "视频").target_type, "atp_video");
    assert_eq!(infer("https://atptoken.ai", "图片").upstream_path, "/v1/cat");
    assert_eq!(infer("https://vod.tencentcloudapi.com", "视频").target_type, "tencent_vod_video");
    assert_eq!(ends(&infer("https://other", "x")), ("openai", "/v1/cat", "bearer"));
}

#[test]
fn enhancement_paths_follow_the_lasting_id() {
    let on = Plugins {
        volcengine_enhance: true,
        commercial: false,
    };
    let f = infer_forward_from_base_url("https://mediakit.volces.com", "视频增强", "/c", Some("vvs-er"), on);
    assert_eq!(ends(&f), ("volcengine_media_enhance", "/api/v1/tools/erase-video-subtitle", "bearer"));
    let f = infer_forward_from_base_url("https://mediakit.volces.com", "视频", "/c", Some("vvs-er"), NONE);
    assert_eq!(f.target_type, "volcengine");
    let mut f = ResolvedForward::default();
    f.mid = Some("vve-ft".to_string());
    resolve_volcengine_media_enhance_path(&mut f, NONE);
    assert_eq!(f.target_type, "openai");
    resolve_volcengine_media_enhance_path(&mut f, on);
    assert_eq!(f.upstream_path, "/api/v1/tools/enhance-video-fast");
}

#[test]
fn addresses_are_built_from_base_and_path() {
    let f = make_forward("gemini", "/m/${model}:x", "query_key");
    assert_eq!(upstream_request_path(&f, "g-1"), "/m/g-1:x");
    assert_eq!(build_upstream_url("https://h", &f, "https://h/m/g-1:x", "k"), "https://h/m/g-1:x?key=k");
    let f = make_forward("jimeng_video", "/", "jimeng");
    assert_eq!(
        build_upstream_url("https://h//", &f, "unused", "k"),
        "https://h/?Action=CVSync2AsyncSubmitTask&Version=2022-08-31"
    );
    let f = make_forward("openai", "/p", "bearer");
    assert_eq!(build_upstream_url("https://h", &f, "https://h/p", "k"), "https://h/p");
}

#[test]
fn kling_paths_follow_the_body() {
    fn go(target: &str, path: &str, body: &str) -> String {
        let mut f = make_forward(target, path, "bearer");
        resolve_kling_dynamic_path(&mut f, &Json::parse(body).unwrap());
        f.upstream_path
    }
    let old = "/v1/videos/text2video";
    assert_eq!(go("kling", old, r#"{"image_list":[1]}"#), "/v1/videos/multi-image2video");
    assert_eq!(go("kling", old, r#"{"image_list":[],"image_tail":"x"}"#), "/v1/videos/image2video");
    assert_eq!(go("kling", "/v1/videos/image2video", "{}"), old);
    assert_eq!(go("kling", "/v1/videos/omni-video", r#"{"image":1}"#), "/v1/videos/omni-video");
    assert_eq!(go("kling", "/v1/images/generations", r#"{"subject_image_list":[1]}"#), "/v1/images/multi-image2image");
    assert_eq!(go("kling", "/v1/images/generations", "{}"), "/v1/images/generations");
    assert_eq!(go("kling_video", "/text-to-video/${model}", r#"{"contents":[1]}"#), "/image-to-video/${model}");
    assert_eq!(go("kling_video", "/v3/image-to-video/k", "{}"), "/text-to-video/k");
    assert_eq!(go("kling_video", "/image-to-video/", "{}"), "/image-to-video/");
    assert_eq!(go("openai", old, r#"{"image":1}"#), old);
}
