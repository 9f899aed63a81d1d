//! Requests in the form of their target.
use relay::forward::{make_forward, Plugins, ResolvedForward};
use relay::json::Json;
use relay::media::Fetched;
use relay::request::{
    apply_content_to_prompt, build_anthropic_body, build_gemini_chat_body, build_gemini_image_body,
    build_gpt_image_body, build_speech_body, build_volcengine_image_body, gemini_reference_urls,
    is_token_billing, reference_urls, transform_request_body, RequestContext,
};

fn j(s: &str) -> Json {
    Json::parse(s).unwrap()
}

fn same_json(a: &Json, b: &str) {
    assert_eq!(a.to_text(), j(b).to_text());
}

fn cx(category: &str, token_billing: bool) -> RequestContext {
    RequestContext {
        model: "up".to_string(),
        category: category.to_string(),
        token_billing,
        nearest: None,
        fetched: Vec::new(),
        plugins: Plugins {
            volcengine_enhance: false,
            commercial: false,
        },
    }
}

fn to(target: &str) -> ResolvedForward {
    make_forward(target, "/x", "bearer")
}

#[test]
fn volcengine_images_take_size_images_and_sequences() {
    let r = build_volcengine_image_body("m", &j(r#"{"resolution":"4k","image":["a","b"],"n":3}"#));
    same_json(
        &r,
        r#"{"model":"m","size":"4k","image":["a","b"],"sequential_image_generation":"auto",
            "sequential_image_generation_options":{"max_images":3}}"#,
    );
    let r = build_volcengine_image_body("m", &j(r#"{"image_urls":["a"],"n":1}"#));
    same_json(&r, r#"{"model":"m","size":"2k","image":"a"}"#);
}

#[test]
fn gpt_images_are_one_array() {
    let r = build_gpt_image_body("m", &j(r#"{"image[]":["a"],"image_urls":[],"n":1}"#));
    same_json(&r, r#"{"model":"m","images":[{"image_url":"a"}],"n":1}"#);
    let r = build_gpt_image_body("m", &j(r#"{"image":[],"prompt":"p"}"#));
    same_json(&r, r#"{"model":"m","prompt":"p"}"#);
}

#[test]
fn gemini_images_inline_what_was_fetched() {
    let body = j(r#"{"prompt":"p","n":2,"size":"16:9","image":["http://a","http://b"],"google_search":true}"#);
    assert_eq!(gemini_reference_urls(&body), vec!["http://a", "http://b"]);
    let got = vec![Fetched {
        url: "http://b".to_string(),
        data: Some(j(r#"{"mime_type":"image/png","data":"QQ=="}"#)),
    }];
    same_json(
        &build_gemini_image_body(&body, &got),
        r#"{"contents":[{"parts":[{"text":"p"},{"inline_data":{"mime_type":"image/png","data":"QQ=="}}],"role":"user"}],
            "generationConfig":{"responseModalities":["IMAGE"],"candidateCount":2,
                "imageConfig":{"aspectRatio":"16:9","imageSize":"1k"}},
            "tools":[{"google_search":{}}]}"#,
    );
    same_json(
        &build_gemini_image_body(&j(r#"{"size":"2k"}"#), &Vec::new()),
        r#"{"contents":[{"parts":[{"text":"Generate an image"}],"role":"user"}],
            "generationConfig":{"responseModalities":["IMAGE"],"imageConfig":{"imageSize":"2k"}}}"#,
    );
}

#[test]
fn gemini_chats_part_system_from_contents() {
    let r = build_gemini_chat_body(&j(
        r#"{"messages":[{"role":"system","content":"s"},{"role":"assistant","content":"a"},{"content":[1]},{"role":"user","content":null}],
            "temperature":0.5,"top_p":1,"max_tokens":9,"stream_options":null}"#,
    ));
    same_json(
        &r,
        r#"{"contents":[{"role":"model","parts":[{"text":"a"}]},{"role":"user","parts":[{"text":"[1]"}]}],
            "systemInstruction":{"parts":[{"text":"s"}]},
            "generationConfig":{"temperature":0.5,"topP":1,"maxOutputTokens":9},"stream_options":null}"#,
    );
    same_json(&build_gemini_chat_body(&j("{}")), r#"{"contents":[]}"#);
}

#[test]
fn anthropic_chats_take_the_system_text_apart() {
    let r = build_anthropic_body(
        "m",
        &j(r#"{"messages":[{"role":"system","content":"s"},{"role":"user","content":[1]},{"content":"x"}],"top_k":3,"foo":1}"#),
    );
    same_json(
        &r,
        r#"{"model":"m","messages":[{"role":"user","content":[1]},{"role":"user","content":"x"}],"max_tokens":4096,"system":"s","top_k":3}"#,
    );
    let r = build_anthropic_body("m", &j(r#"{"system":"top","messages":[{"role":"system","content":"s"}],"max_tokens":5}"#));
    same_json(&r, r#"{"model":"m","messages":[],"max_tokens":5,"system":"top"}"#);
}

#[test]
fn speech_is_put_into_the_form_of_the_vendor() {
    same_json(
        &build_speech_body(&j(r#"{"input":"t","voice":"v","speed":2,"mix_speaker":{"a":1}}"#)),
        r#"{"user":{"uid":"tokensbyte"},"req_params":{"text":"t","speaker":"v",
            "audio_params":{"format":"mp3","sample_rate":24000,"speech_rate":2},"mix_speaker":{"a":1}}}"#,
    );
    same_json(
        &build_speech_body(&j(r#"{"req_params":{"x":1}}"#)),
        r#"{"req_params":{"x":1},"user":{"uid":"tokensbyte"}}"#,
    );
}

#[test]
fn contents_become_prompts_where_there_is_none() {
    let mut v = j(r#"{"content":[{"a":1},{"text":"t"}]}"#);
    apply_content_to_prompt(&mut v);
    same_json(&v, r#"{"content":[{"a":1},{"text":"t"}],"prompt":"t"}"#);
    let mut v = j(r#"{"content":"c","prompt":"p"}"#);
    apply_content_to_prompt(&mut v);
    same_json(&v, r#"{"content":"c","prompt":"p"}"#);
    let mut v = j(r#"{"content":7}"#);
    apply_content_to_prompt(&mut v);
    same_json(&v, r#"{"content":7}"#);
}

#[test]
fn openai_videos_get_defaults_unless_tokens_are_billed() {
    let body = j(r#"{"prompt":"p"}"#);
    same_json(
        &transform_request_body(&to("openai"), &cx("视频", false), &body),
        r#"{"model":"up","prompt":"p","resolution":"720p","duration":5}"#,
    );
    same_json(
        &transform_request_body(&to("openai"), &cx("视频", true), &body),
        r#"{"model":"up","prompt":"p"}"#,
    );
}

#[test]
fn apimart_takes_the_ratio_for_a_resolution() {
    let body = j(r#"{"size":" 2K ","ratio":"16:9"}"#);
    same_json(
        &transform_request_body(&to("apimart"), &cx("图片", true), &body),
        r#"{"model":"up","size":"16:9"}"#,
    );
    let body = j(r#"{"size":"1024x1024","ratio":"16:9"}"#);
    same_json(
        &transform_request_body(&to("apimart"), &cx("图片", true), &body),
        r#"{"model":"up","size":"1024x1024","ratio":"16:9"}"#,
    );
}

#[test]
fn web_search_has_the_form_of_the_target() {
    let body = j(r#"{"web_search":true,"content":[]}"#);
    same_json(
        &transform_request_body(&to("volcengine"), &cx("视频", true), &body),
        r#"{"model":"up","content":[],"execution_expires_after":3600,"resolution":"720p","tools":[{"type":"web_search"}]}"#,
    );
    same_json(
        &transform_request_body(&to("gemini"), &cx("聊天", true), &j(r#"{"web_search":true}"#)),
        r#"{"contents":[],"tools":[{"google_search":{}}]}"#,
    );
    same_json(
        &transform_request_body(&to("openai"), &cx("聊天", true), &j(r#"{"web_search":true}"#)),
        r#"{"model":"up","web_search":true}"#,
    );
}

#[test]
fn streamed_chats_ask_for_their_usage() {
    same_json(
        &transform_request_body(&to("openai"), &cx("聊天", true), &j(r#"{"stream":true}"#)),
        r#"{"model":"up","stream":true,"stream_options":{"include_usage":true}}"#,
    );
    same_json(
        &transform_request_body(
            &to("volcengine_chat"),
            &cx("聊天", true),
            &j(r#"{"stream":true,"stream_options":{"a":1,"include_usage":false}}"#),
        ),
        r#"{"model":"up","stream":true,"stream_options":{"a":1,"include_usage":true}}"#,
    );
    same_json(
        &transform_request_body(&to("gpt"), &cx("聊天", true), &j(r#"{"stream":true}"#)),
        r#"{"model":"up","stream":true}"#,
    );
}

#[test]
fn native_speech_goes_as_it_is() {
    let mut f = to("volcengine_tts");
    f.content_to_prompt = true;
    same_json(
        &transform_request_body(&f, &cx("语音", true), &j(r#"{"req_params":{},"content":"c"}"#)),
        r#"{"req_params":{},"content":"c","user":{"uid":"tokensbyte"}}"#,
    );
}

#[test]
fn content_to_prompt_is_done_last() {
    let mut f = to("volcengine");
    f.content_to_prompt = true;
    same_json(
        &transform_request_body(&f, &cx("视频", true), &j(r#"{"prompt":"p"}"#)),
        r#"{"model":"up","content":[{"type":"text","text":"p"}],"execution_expires_after":3600,"resolution":"720p","prompt":"p"}"#,
    );
}

#[test]
fn enhancement_needs_its_plugin() {
    let body = j(r#"{"video_url":"v","foo":1}"#);
    let mut f = to("volcengine_media_enhance");
    f.mid = Some("vve-sd".to_string());
    same_json(&transform_request_body(&f, &cx("视频增强", true), &body), r#"{"video_url":"v","foo":1}"#);
    let mut c = cx("视频增强", true);
    c.plugins.volcengine_enhance = true;
    same_json(
        &transform_request_body(&f, &c, &body),
        r#"{"video_url":"v","tool_version":"standard"}"#,
    );
}

#[test]
fn only_gemini_images_need_downloads() {
    let body = j(r#"{"image":["http://a","data:image/png;base64,AAAA"]}"#);
    let f = make_forward("gemini_image", "/p", "bearer");
    assert_eq!(reference_urls(&f, &body), vec!["http://a", "data:image/png;base64,AAAA"]);
    assert!(reference_urls(&make_forward("gpt", "/p", "bearer"), &body).is_empty());
    assert!(!is_token_billing(None));
}

#[test]
fn volcengine_chats_keep_the_openai_format() {
    let body = j(r#"{"model":"x","messages":[{"role":"user","content":"hi"}]}"#);
    for target in ["volcengine", "volcengine_chat"] {
        same_json(
            &transform_request_body(&to(target), &cx("聊天", false), &body),
            r#"{"model":"up","messages":[{"role":"user","content":"hi"}]}"#,
        );
        same_json(
            &transform_request_body(&to(target), &cx("聊天", false), &j(r#"{"stream":true}"#)),
            r#"{"model":"up","stream":true,"stream_options":{"include_usage":true}}"#,
        );
        same_json(
            &transform_request_body(&to(target), &cx("聊天", false), &j(r#"{"web_search":true}"#)),
            r#"{"model":"up","tools":[{"type":"web_search"}]}"#,
        );
    }
}

#[test]
fn gpt_images_come_from_all_fields_once() {
    let r = build_gpt_image_body("m", &j(r#"{"image":["a","a"],"image_urls":"b","images":[{"url":"a"},"c"]}"#));
    same_json(&r, r#"{"model":"m","images":[{"image_url":"a"},{"image_url":"b"},{"image_url":"c"}]}"#);
}
