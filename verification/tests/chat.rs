//! Chat responses, stream lines and usage.
use relay::attempt::{check_upstream_post_error, unsupported_text};
use relay::chat::{
    chat_response_at, create_openai_chunk, sse_line_at, transform_chat_response, transform_sse_line,
    Stamp,
};
use relay::double::{Double, ONE};
use relay::forward::make_forward;
use relay::json::Json;
use relay::relay_chat::{
    asks_stream, chat_endpoint, chat_is_streamed, chat_reply, endpoint, passed_body,
    required_model, responses_forward, stream_body, stream_path, stream_url,
};
use relay::relay_generic::{cover_total, infer_category};
use relay::usage::{estimate_prompt_tokens, read_token_counts, scale_usage_in_json, UsageTokens};

fn j(s: &str) -> Json {
    Json::parse(s).unwrap()
}

fn same_json(a: &Json, b: &str) {
    assert_eq!(a.to_text(), j(b).to_text());
}

fn at(id: &str, created: i64) -> Stamp {
    Stamp {
        id: id.to_string(),
        created,
    }
}

fn usage(prompt: i32, completion: i32, total: i32) -> UsageTokens {
    UsageTokens {
        prompt,
        completion,
        total,
        cached: 0,
        cache_write: 0,
        cache_creation: 0,
        image_tokens: 0,
        audio_tokens: 0,
        audio_cached_tokens: 0,
        has_total_tokens: true,
    }
}

#[test]
fn a_chunk_has_the_openai_form() {
    same_json(
        &create_openai_chunk("hi", "m", &at("x", 9)),
        r#"{"id":"x","object":"chat.completion.chunk","created":9,"model":"m",
            "choices":[{"index":0,"delta":{"role":"assistant","content":"hi"},"finish_reason":null}]}"#,
    );
}

#[test]
fn stream_lines_without_data_give_nothing() {
    assert_eq!(transform_sse_line("openai", "event: x", "m"), None);
    assert_eq!(transform_sse_line("openai", "data: [DONE]", "m"), None);
    assert_eq!(transform_sse_line("openai", "data: {x", "m"), Some("{x".to_string()));
    assert_eq!(transform_sse_line("anthropic", "data: {x", "m"), None);
    assert_eq!(transform_sse_line("anthropic", r#"data: {"type":"ping"}"#, "m"), None);
}

#[test]
fn anthropic_deltas_become_chunks() {
    let r = sse_line_at(
        "anthropic",
        r#"data: {"type":"content_block_delta","delta":{"text":"hi"}}"#,
        "m",
        &at("x", 9),
        &at("y", 10),
    );
    assert_eq!(r.unwrap(), create_openai_chunk("hi", "m", &at("x", 9)).to_text());
    let r = transform_sse_line(
        "anthropic",
        r#"data: {"type":"content_block_delta","delta":{"text":"hi"}}"#,
        "m",
    );
    assert!(r.unwrap().contains(r#""content":"hi""#));
}

#[test]
fn gemini_events_become_text_and_usage() {
    let r = sse_line_at(
        "gemini",
        r#"data: {"candidates":[{"content":{"parts":[{"text":"hi"}]}}],"usageMetadata":{"promptTokenCount":3,"totalTokenCount":10,"cachedContentTokenCount":2}}"#,
        "m",
        &at("x", 9),
        &at("y", 10),
    )
    .unwrap();
    let (text, rest) = r.split_once("\n\ndata: ").unwrap();
    assert_eq!(text, create_openai_chunk("hi", "m", &at("x", 9)).to_text());
    same_json(
        &j(rest),
        r#"{"id":"y","object":"chat.completion.chunk","created":10,"model":"m","choices":[],
            "usage":{"prompt_tokens":3,"completion_tokens":7,"total_tokens":10,"prompt_tokens_details":{"cached_tokens":2}}}"#,
    );
    let r = sse_line_at(
        "gemini",
        r#"data: {"usageMetadata":{"promptTokenCount":5,"totalTokenCount":3}}"#,
        "m",
        &at("x", 9),
        &at("y", 10),
    )
    .unwrap();
    same_json(
        &j(&r),
        r#"{"id":"y","object":"chat.completion.chunk","created":10,"model":"m","choices":[],
            "usage":{"prompt_tokens":5,"completion_tokens":0,"total_tokens":3}}"#,
    );
    assert_eq!(sse_line_at("gemini", "data: {}", "m", &at("x", 9), &at("y", 10)), None);
}

#[test]
fn anthropic_responses_become_completions() {
    let text = r#"{"id":"i","type":"message","content":[{"type":"tool"},{"type":"text","text":"hi"}],"usage":{"cache_creation":{"a":1}}}"#;
    let mut u = usage(4, 5, 9);
    u.cached = 2;
    u.cache_creation = 3;
    let parsed = Json::parse(text);
    let want = r#"{"id":"i","object":"chat.completion","created":7,"model":"m",
        "choices":[{"index":0,"message":{"role":"assistant","content":"hi"},"finish_reason":"stop"}],
        "usage":{"prompt_tokens":4,"completion_tokens":5,"total_tokens":9,"cache_creation":{"a":1},
            "prompt_tokens_details":{"cached_tokens":2,"cache_creation_tokens":3}}}"#;
    same_json(&j(&chat_response_at(text, &parsed, "anthropic", "m", &u, &at("z", 7))), want);
    same_json(&j(&chat_response_at(text, &parsed, "openai", "m", &u, &at("z", 7))), want);
    assert_eq!(transform_chat_response("no json", "anthropic", "m", &u), "no json");
    assert_eq!(transform_chat_response(r#"{"a":1}"#, "openai", "m", &u), r#"{"a":1}"#);
}

#[test]
fn gemini_responses_become_completions() {
    let text = r#"{"candidates":[{"content":{"parts":[{"text":"hi"}]},"finishReason":"MAX"}]}"#;
    let parsed = Json::parse(text);
    same_json(
        &j(&chat_response_at(text, &parsed, "gemini", "m", &usage(1, 2, 3), &at("z", 7))),
        r#"{"id":"z","object":"chat.completion","created":7,"model":"m",
            "choices":[{"index":0,"message":{"role":"assistant","content":"hi"},"finish_reason":"MAX"}],
            "usage":{"prompt_tokens":1,"completion_tokens":2,"total_tokens":3}}"#,
    );
}

#[test]
fn prompts_are_estimated_by_their_bytes() {
    assert_eq!(estimate_prompt_tokens(&j(r#"{"messages":[{"content":"12345"},{"content":[1]}]}"#)), 2);
    assert_eq!(estimate_prompt_tokens(&j(r#"{"input":"你好"}"#)), 2);
    assert_eq!(
        estimate_prompt_tokens(&j(r#"{"input":[{"text":"1234","content":"x"},{"content":"1"}],"instructions":"123"}"#)),
        2
    );
    assert_eq!(estimate_prompt_tokens(&j("{}")), 0);
}

#[test]
fn token_counts_are_read_and_replaced() {
    let u = j(r#"{"prompt_tokens":3,"total_tokens":0,"image_tokens":2,"output_tokens":1.5}"#);
    assert_eq!(read_token_counts(Some(&u)), vec![3, 0, 0, 0, 0, 2]);
    assert_eq!(read_token_counts(None), vec![0; 6]);
    let mut root = j(r#"{"usage":{"prompt_tokens":3,"total_tokens":0},"data":{"usage":{"input_tokens":5}}}"#);
    let two = Double { bits: 2.0f64.to_bits() };
    scale_usage_in_json(&mut root, two, &vec![6, 0, 0, 0, 0, 0], &vec![0, 0, 0, 10, 0, 0]);
    same_json(
        &root,
        r#"{"usage":{"prompt_tokens":6,"total_tokens":0},"data":{"usage":{"input_tokens":10}}}"#,
    );
    let before = root.to_text();
    scale_usage_in_json(&mut root, Double { bits: ONE }, &vec![1; 6], &vec![1; 6]);
    assert_eq!(root.to_text(), before);
}

#[test]
fn requests_name_their_model() {
    assert_eq!(required_model(&j(r#"{"model":"a"}"#), false), Ok("a"));
    assert_eq!(required_model(&j(r#"{"model_name":"b"}"#), true), Ok("b"));
    assert_eq!(
        required_model(&j(r#"{"model_name":"b"}"#), false),
        Err("Missing required parameter: model")
    );
    assert!(asks_stream(&j(r#"{"stream":true}"#)));
    assert!(!asks_stream(&j(r#"{"stream":"true"}"#)));
}

#[test]
fn streams_have_bodies_and_addresses_of_their_own() {
    let gemini = make_forward("gemini", "/v1beta/models/${model}:generateContent", "query_key");
    assert!(!chat_is_streamed(false, &gemini));
    assert!(chat_is_streamed(false, &make_forward("gemini", "/x:streamGenerateContent", "bearer")));
    same_json(&stream_body("openai", &j(r#"{"a":1}"#)), r#"{"a":1,"stream":true}"#);
    same_json(&stream_body("gemini", &j(r#"{"a":1}"#)), r#"{"a":1}"#);
    assert_eq!(stream_path("/m:generateContent"), "/m:streamGenerateContent?alt=sse");
    assert_eq!(stream_url(&gemini, "u", "https://h/p?alt=sse", "k"), "https://h/p?alt=sse&key=k");
    assert_eq!(stream_url(&gemini, "u", "https://h/p", "k"), "https://h/p?key=k");
    let openai = make_forward("openai", "/p", "bearer");
    assert_eq!(stream_url(&openai, "u", "j", "k"), "u");
}

#[test]
fn log_entries_name_both_ends() {
    assert_eq!(chat_endpoint("/v1/chat", "https://h?key=secretkey12", "secretkey12"), "/v1/chat|https://h?key=secr******ey12");
    let f = make_forward("gemini", "/m/${model}", "bearer");
    assert_eq!(endpoint("/v1/x", &f, "g"), "/v1/x|/m/g");
}

#[test]
fn messages_are_answered_as_they_came() {
    let u = usage(0, 0, 0);
    let text = r#"{"type":"message","content":[]}"#;
    assert_eq!(chat_reply("/v1/messages", text, "openai", "m", &u), text);
    assert!(chat_reply("/v1/chat/completions", text, "openai", "m", &u).contains("chat.completion"));
}

#[test]
fn responses_have_a_forward_of_their_own() {
    let f = responses_forward("https://ark.CN-beijing.volces.com");
    assert_eq!((f.target_type.as_str(), f.upstream_path.as_str()), ("volcengine_chat", "/api/v3/responses"));
    let f = responses_forward("https://api.example.com");
    assert_eq!((f.target_type.as_str(), f.upstream_path.as_str()), ("openai", "/v1/responses"));
    same_json(&passed_body(&j(r#"{"model":"a","x":1}"#), "b"), r#"{"model":"b","x":1}"#);
}

#[test]
fn a_total_that_is_not_covered_becomes_input() {
    assert_eq!(cover_total(usage(3, 2, 10)).prompt, 8);
    assert_eq!(cover_total(usage(3, 2, 5)).prompt, 3);
    assert_eq!(cover_total(usage(-3, 0, 0)).prompt, -3);
    let mut u = usage(0, 0, 7);
    u.image_tokens = 2;
    assert_eq!(cover_total(u).prompt, 5);
    assert_eq!(infer_category("/v1/rerank"), "排序");
    assert_eq!(infer_category("/v1/embeddings"), "向量");
}

#[test]
fn failures_in_answers_are_told_in_the_format_of_the_client() {
    assert_eq!(check_upstream_post_error("b", false, true, "f"), ("b".to_string(), None));
    assert_eq!(check_upstream_post_error("b", true, true, "f"), ("f".to_string(), Some("f".to_string())));
    assert_eq!(check_upstream_post_error("b", true, false, "f"), ("b".to_string(), Some("b".to_string())));
    assert_eq!(unsupported_text("m"), "模型 'm' 不支持当前接口，请检查模型对应的转发规则");
}
