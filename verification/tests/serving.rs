//! How requests are served: the steps, what goes to the upstream, and what is
//! recorded.
use relay::attempt::{
    tells_as_openai, Deposit, End, Event, Failure, ImageRoute, Kind, Serving, Waited, Work,
};
use relay::double::Double;
use relay::exchange::{
    body_category, came_as_stream, chat_exchange, fit_forward, form_exchange, generic_exchange,
    maps_by_body, post_exchange,
    responses_exchange, wants_stream,
};
use relay::forward::{make_forward, Channel, ResolvedForward};
use relay::json::Json;
use relay::ledger::{freeze_image, freeze_video, note_failure, settle};
use relay::multipart::EditPart;
use relay::bill::ExtractedFeatures;
use relay::relay_image::{billed_features, image_reply};
use relay::relay_video::{
    comfyui_answer, first_stage_body, lacks_length, measures_input, video_category, video_model,
};
use relay::usage::UsageTokens;

fn j(s: &str) -> Json {
    Json::parse(s).unwrap()
}

fn d(x: f64) -> Double {
    Double { bits: x.to_bits() }
}

/// Serves a request through some events and lists the work after each.
fn walk(kind: Kind, events: &[Event]) -> (Serving, Vec<Work>) {
    let mut s = Serving::begin(kind);
    let mut seen = Vec::new();
    for e in events {
        s = s.advance(*e);
        seen.push(s.work);
    }
    (s, seen)
}

/// The events up to sending.
fn to_send(kind: Kind, streamed: bool) -> Vec<Event> {
    let mut e = vec![
        Event::More(true),
        Event::Chosen(true),
        Event::Allowed(Some(d(2.5))),
        Event::RuleFound(true),
        Event::Prepared(streamed),
    ];
    if kind != Kind::Chat && kind != Kind::Responses {
        e.push(Event::Logged(Some(7)));
    }
    if kind == Kind::Video {
        e.push(Event::Converted(true));
    }
    e
}

fn then(kind: Kind, streamed: bool, more: &[Event]) -> Serving {
    let mut e = to_send(kind, streamed);
    e.extend_from_slice(more);
    walk(kind, &e).0
}

#[test]
fn a_chat_goes_from_channel_to_reply() {
    let (s, seen) = walk(
        Kind::Chat,
        &[
            Event::More(true),
            Event::Chosen(true),
            Event::Allowed(Some(d(2.5))),
            Event::RuleFound(false),
            Event::HasRules(false),
            Event::Prepared(false),
            Event::Logged(Some(7)),
            Event::Answered(true, false),
            Event::Checked(true),
            Event::Deducted(Some(d(0.5))),
            Event::Done,
            Event::Done,
            Event::More(true),
        ],
    );
    assert_eq!(
        seen,
        vec![
            Work::Select,
            Work::Access,
            Work::FindRule,
            Work::AskRules,
            Work::Prepare,
            Work::Send,
            Work::Send,
            Work::ReadBody,
            Work::Deduct(false),
            Work::Settle,
            Work::Reply,
            Work::Stop(End::Answered),
            Work::Stop(End::Answered),
        ]
    );
    assert_eq!(s.entry, Some(7));
    assert_eq!(s.deposit, Some(Deposit { amount: d(2.5), gift: d(0.5) }));
}

#[test]
fn one_request_makes_one_entry() {
    for kind in [Kind::Chat, Kind::Responses, Kind::Image, Kind::Video, Kind::Generic] {
        let mut s = Serving::begin(kind);
        let mut made = 0;
        for attempt in 0..3 {
            for e in [
                Event::More(true),
                Event::Chosen(true),
                Event::Allowed(Some(d(1.0))),
                Event::RuleFound(true),
                Event::Prepared(false),
            ] {
                s = s.advance(e);
            }
            if s.makes_entry() {
                made += 1;
                s = s.advance(Event::Logged(Some(100 + attempt)));
            }
            s = s.advance(Event::Converted(true));
            assert_eq!(s.work, Work::Send);
            s = s.advance(Event::Logged(Some(200)));
            assert_eq!(s.entry, Some(100));
            s = s.advance(Event::Unreachable).advance(Event::Retry(true));
        }
        assert_eq!(made, 1);
    }
}

#[test]
fn failures_before_the_charge_give_nothing_back() {
    let k = Kind::Generic;
    for (more, failure) in [
        (vec![Event::Unreachable], Failure::Transport),
        (vec![Event::Answered(false, true)], Failure::Status),
        (vec![Event::NotServed], Failure::NotServed),
        (vec![Event::Answered(true, true), Event::Checked(false)], Failure::Business),
        (
            vec![Event::Answered(true, false), Event::Checked(true), Event::Deducted(None)],
            Failure::Refused,
        ),
    ] {
        let s = then(k, true, &more);
        assert_eq!(s.work, Work::Report(failure));
        assert_eq!(s.refund(), None);
        assert_eq!(s.advance(Event::Retry(true)).work, Work::Continue);
        assert_eq!(s.advance(Event::Retry(false)).work, Work::Stop(End::Exhausted));
    }
    let chat = [Event::Answered(true, false), Event::Checked(true), Event::Deducted(None)];
    assert_eq!(then(Kind::Chat, false, &chat).work, Work::Stop(End::Denied));
}

#[test]
fn failures_after_the_charge_give_it_back() {
    let charged = [
        Event::Answered(true, false),
        Event::Checked(true),
        Event::Deducted(Some(d(0.0))),
    ];
    for (more, failure) in [
        (
            vec![Event::Routed(ImageRoute::Wait), Event::Waited(Waited::Failed)],
            Failure::TaskFailed,
        ),
        (
            vec![Event::Routed(ImageRoute::Wait), Event::Waited(Waited::TimedOut)],
            Failure::TaskTimedOut,
        ),
        (vec![Event::Routed(ImageRoute::Answer), Event::Counted(false)], Failure::NoImage),
    ] {
        let mut e = charged.to_vec();
        e.extend(more);
        let s = then(Kind::Image, false, &e);
        assert_eq!(s.work, Work::Report(failure));
        assert_eq!(s.refund(), Some(Deposit { amount: d(2.5), gift: d(0.0) }));
        assert_eq!(s.advance(Event::Retry(true)).deposit, None);
    }
}

#[test]
fn requests_end_early() {
    assert_eq!(walk(Kind::Chat, &[Event::More(false)]).0.work, Work::Stop(End::Exhausted));
    let none = [Event::More(true), Event::Chosen(false)];
    assert_eq!(walk(Kind::Chat, &none).0.work, Work::Stop(End::NoChannel));
    let denied = [Event::More(true), Event::Chosen(true), Event::Allowed(None)];
    assert_eq!(walk(Kind::Chat, &denied).0.work, Work::Stop(End::Denied));
    let rules = [
        Event::More(true),
        Event::Chosen(true),
        Event::Allowed(Some(d(0.0))),
        Event::RuleFound(false),
        Event::HasRules(true),
    ];
    assert_eq!(walk(Kind::Image, &rules).0.work, Work::Stop(End::Unsupported));
    assert_eq!(walk(Kind::Responses, &rules).0.work, Work::Prepare);
    let s = walk(Kind::Video, &to_send(Kind::Video, false)[..4]).0;
    assert_eq!(s.advance(Event::Rejected).work, Work::Stop(End::Aborted));
    let s = walk(Kind::Video, &to_send(Kind::Video, false)[..6]).0;
    assert_eq!(s.advance(Event::Converted(false)).work, Work::Stop(End::Aborted));
    assert_eq!(then(Kind::Image, false, &[Event::Died]).work, Work::Stop(End::Broken));
    assert_eq!(then(Kind::Chat, false, &[Event::Died]).work, Work::Send);
}

#[test]
fn streams_are_charged_before_they_begin() {
    let begun = [Event::Answered(true, false)];
    for kind in [Kind::Chat, Kind::Responses, Kind::Image] {
        let s = then(kind, true, &begun);
        assert_eq!(s.work, Work::Deduct(true));
        assert_eq!(s.charged_as_stream(), kind != Kind::Image);
        assert!(!s.is_timed());
        assert_eq!(s.advance(Event::Deducted(Some(d(0.0)))).work, Work::Stop(End::Streaming));
        assert_eq!(then(kind, false, &[Event::Answered(true, true)]).work, Work::Deduct(true));
    }
    let s = then(Kind::Video, true, &[Event::Answered(true, true)]);
    assert_eq!(s.work, Work::ReadBody);
    assert!(s.is_timed());
}

#[test]
fn answers_are_settled_or_frozen() {
    let charged = [Event::Answered(true, false), Event::Checked(true), Event::Deducted(Some(d(0.0)))];
    assert_eq!(then(Kind::Responses, false, &charged).work, Work::Settle);
    assert_eq!(then(Kind::Generic, false, &charged).work, Work::Settle);
    assert_eq!(then(Kind::Video, false, &[Event::Taken]).work, Work::Deduct(false));
    assert_eq!(then(Kind::Image, false, &[Event::Taken]).work, Work::Send);
    let v = then(Kind::Video, false, &charged);
    assert_eq!(v.work, Work::Freeze);
    assert_eq!(v.advance(Event::Done).work, Work::Reply);
    let i = then(Kind::Image, false, &charged);
    assert_eq!(i.work, Work::Route);
    assert_eq!(i.advance(Event::Routed(ImageRoute::Freeze)).work, Work::Freeze);
    let waited = i.advance(Event::Routed(ImageRoute::Wait)).advance(Event::Waited(Waited::Succeeded));
    assert_eq!(waited.work, Work::CountImages);
    assert_eq!(waited.advance(Event::Counted(true)).work, Work::Settle);
}

#[test]
fn failures_are_told_in_the_clients_format() {
    assert!(tells_as_openai(Kind::Image, true, false));
    assert!(!tells_as_openai(Kind::Image, true, true));
    assert!(!tells_as_openai(Kind::Image, false, false));
    assert!(tells_as_openai(Kind::Video, true, true));
    assert!(!tells_as_openai(Kind::Chat, true, false));
    assert_eq!(image_reply(&j(r#"{"model_name":"m"}"#), "raw", "made"), "raw");
    assert_eq!(image_reply(&j(r#"{"model":"m"}"#), "raw", "made"), "made");
}

fn forward(target: &str, auth: &str) -> ResolvedForward {
    make_forward(target, "/p/${model}", auth)
}

fn header(h: &[(String, String)], name: &str) -> Option<String> {
    h.iter().find(|x| x.0 == name).map(|x| x.1.clone())
}

#[test]
fn rules_are_adapted_to_the_request() {
    let ch = Channel {
        provider_type: "comfyui".to_string(),
        config: r#"{"comfyui_server_id":3}"#.to_string(),
    };
    let fit = |kind| {
        let mut f = forward("openai", "bearer");
        fit_forward(kind, &mut f, "https://API.apimart.ai", "/raw", &ch);
        (f.target_type, f.upstream_path)
    };
    let pair = |a: &str, b: &str| (a.to_string(), b.to_string());
    assert_eq!(fit(Kind::Chat), pair("openai", "/p/${model}"));
    assert_eq!(fit(Kind::Responses), pair("openai", "/p/${model}"));
    assert_eq!(fit(Kind::Generic), pair("apimart", "/p/${model}"));
    assert_eq!(fit(Kind::Image), pair("apimart", "/raw"));
    assert_eq!(fit(Kind::Video).0, "comfyui");
    assert!(came_as_stream(Kind::Chat, true, false) && !came_as_stream(Kind::Chat, false, true));
    assert!(came_as_stream(Kind::Image, false, true) && !came_as_stream(Kind::Image, true, false));
    assert_eq!(body_category(Kind::Chat, "图片"), "聊天");
    assert_eq!(body_category(Kind::Image, "图片"), "图片");
    assert!(maps_by_body(Kind::Video) && !maps_by_body(Kind::Generic));
    let f = forward("openai", "bearer");
    let g = make_forward("gemini", "/m:streamGenerateContent", "bearer");
    let asks = j(r#"{"stream":true}"#);
    assert!(wants_stream(Kind::Chat, &asks, &f) && wants_stream(Kind::Image, &asks, &f));
    assert!(!wants_stream(Kind::Video, &asks, &f) && !wants_stream(Kind::Generic, &asks, &f));
    assert!(wants_stream(Kind::Chat, &j("{}"), &g) && !wants_stream(Kind::Responses, &j("{}"), &g));
}

#[test]
fn chats_go_to_the_upstream() {
    let f = forward("openai", "bearer");
    let body = j(r#"{"model":"m"}"#);
    let x = chat_exchange("/v1/c", &f, &body, "http://h", "http://h/p/m", "", "sk-secretkey", false);
    assert_eq!(x.url, "http://h/p/m");
    assert_eq!(x.body.to_text(), r#"{"model":"m"}"#);
    assert_eq!(x.endpoint, "/v1/c|http://h/p/m");
    assert_eq!(header(&x.headers, "Authorization"), Some("Bearer sk-secretkey".to_string()));
    let x = chat_exchange("/v1/c", &f, &body, "http://h", "http://h/p/m", "", "k", true);
    assert_eq!(x.body.to_text(), r#"{"model":"m","stream":true}"#);
    let g = forward("gemini", "query_key");
    let x = chat_exchange("/v1/c", &g, &body, "http://h", "http://h/g", "http://h/s?alt=sse", "sk-secretkey", true);
    assert_eq!(x.url, "http://h/s?alt=sse&key=sk-secretkey");
    assert_eq!(x.body.to_text(), r#"{"model":"m"}"#);
    assert!(x.endpoint.starts_with("/v1/c|http://h/g?key="));
    assert!(!x.endpoint.contains("sk-secretkey"));
}

#[test]
fn what_is_passed_through_gets_the_upstreams_model() {
    let f = forward("openai", "bearer");
    let body = j(r#"{"model":"m","input":[1],"stream":false}"#);
    let x = responses_exchange("/v1/r", &f, "up", &body, "http://h", "http://h/p/up", "k", true);
    assert_eq!(x.body.to_text(), r#"{"input":[1],"model":"up","stream":true}"#);
    assert_eq!(x.endpoint, "/v1/r|/p/up");
    let x = responses_exchange("/v1/r", &f, "up", &body, "http://h", "http://h/p/up", "k", false);
    assert_eq!(x.body.to_text(), r#"{"input":[1],"model":"up","stream":false}"#);
    let x = generic_exchange("/v1/e", &f, "up", &body, "http://h", "http://h/p/up", "k");
    assert_eq!(x.body.to_text(), r#"{"input":[1],"model":"up","stream":false}"#);
    assert_eq!(x.signed_body, None);
    assert_eq!(header(&x.headers, "Authorization"), Some("Bearer k".to_string()));
}

#[test]
fn signed_bodies_are_sent_as_they_were_signed() {
    let f = forward("tencent_vod_image", "bearer");
    let x = post_exchange("/v1/i", &f, "m", &j(r#"{"a":1}"#), "http://h", "http://h/p/m", "id:key:55");
    assert_eq!(x.body.to_text(), r#"{"SubAppId":55,"a":1}"#);
    assert_eq!(x.signed_body, Some(x.body.to_text()));
    assert!(header(&x.headers, "authorization").unwrap().starts_with("TC3-HMAC-SHA256 Credential=id/"));
}

#[test]
fn forms_stay_forms() {
    let f = forward("gpt", "bearer");
    let x = form_exchange(
        "/v1/images/edits",
        &f,
        "m",
        &j(r#"{"prompt":"p","image":"data:image/png;base64,AAAA"}"#),
        &vec![],
        "http://h",
        "http://h/p/m",
        "k",
    );
    assert_eq!(x.url, "http://h/p/m");
    assert_eq!(x.endpoint, "/v1/images/edits|/p/m");
    assert_eq!(x.parts.len(), 2);
    assert!(matches!(&x.parts[0], EditPart::File(n, _, _, b) if n == "image" && b == &vec![0, 0, 0]));
    assert!(matches!(&x.parts[1], EditPart::Text(n, t) if n == "prompt" && t == "p"));
}

#[test]
fn entries_hold_what_was_charged() {
    let dep = Deposit { amount: d(2.5), gift: d(0.5) };
    let free = Deposit { amount: d(0.0), gift: d(0.0) };
    let e = freeze_image(dep);
    assert_eq!((e.prompt_tokens, e.completion_tokens, e.cached_tokens, e.status_code), (0, 0, 0, 200));
    assert_eq!((e.cost, e.deposit), (d(2.5), dep));
    assert_eq!(e.billing_detail, "异步任务预扣费冻结");
    assert_eq!(freeze_image(free).billing_detail, "异步任务处理中(冻结)");
    let v = freeze_video(dep, Some("c"), Some("m"));
    assert_eq!(v.billing_detail, "异步任务预扣费冻结 | c | m");
    let u = UsageTokens {
        prompt: 10,
        completion: 5,
        total: 15,
        cached: 3,
        cache_write: 0,
        cache_creation: 0,
        image_tokens: 0,
        audio_tokens: 0,
        audio_cached_tokens: 0,
        has_total_tokens: true,
    };
    let s = settle(Kind::Chat, &u, d(1.25), dep, "x");
    assert_eq!((s.prompt_tokens, s.completion_tokens, s.cached_tokens), (10, 5, 3));
    assert_eq!((s.cost, s.billing_detail.as_str()), (d(1.25), "x"));
    assert_eq!(settle(Kind::Image, &u, d(1.25), dep, "x").cached_tokens, 0);
}

#[test]
fn counted_images_are_billed() {
    let mut f = ExtractedFeatures::default();
    f.image_count = Some(4);
    f.size = Some("1x1".to_string());
    let g = billed_features(f, Some(2));
    assert_eq!((g.image_count, g.size.as_deref()), (Some(2), Some("1x1")));
    assert_eq!(billed_features(g, None).image_count, Some(2));
}

#[test]
fn failures_have_their_notes() {
    let dep = Some(Deposit { amount: d(2.5), gift: d(0.5) });
    let free = Some(Deposit { amount: d(0.0), gift: d(0.0) });
    let k = Kind::Image;
    let note = |f, r| note_failure(k, f, r, None).unwrap();
    assert_eq!(note(Failure::TaskFailed, dep), "同步轮询任务失败，预扣费已退回");
    assert_eq!(note(Failure::TaskFailed, free), "同步轮询任务失败");
    assert_eq!(note(Failure::TaskTimedOut, dep), "同步轮询超时，预扣费已退回");
    assert_eq!(note(Failure::TaskTimedOut, free), "同步轮询超时");
    assert_eq!(note(Failure::NoImage, dep), "同步空响应，预扣费已退回");
    assert_eq!(note(Failure::NoImage, free), "同步空响应");
    assert_eq!(note(Failure::Business, None), "请求失败");
    assert_eq!(note_failure(k, Failure::Status, None, Some("c")), None);
    assert_eq!(note_failure(Kind::Video, Failure::Status, None, Some("c")), Some("c".to_string()));
    assert_eq!(note_failure(Kind::Video, Failure::Transport, None, None), None);
    assert_eq!(note_failure(Kind::Video, Failure::NotServed, None, Some("c")), None);
    assert_eq!(note_failure(Kind::Chat, Failure::Business, None, None), None);
}

#[test]
fn cascades_begin_at_their_base() {
    assert_eq!(
        first_stage_body(&j(r#"{"resolution":"1080p","a":1}"#), "720p").to_text(),
        r#"{"a":1,"resolution":"720p"}"#
    );
    assert!(!measures_input(None, 3));
    assert!(lacks_length(d(0.0)) && lacks_length(d(-1.0)) && !lacks_length(d(0.5)) && !lacks_length(d(f64::NAN)));
    assert_eq!(video_category(&video_model("/tools/enhance-video", &j("{}"))), "视频增强");
    assert_eq!(video_category(&video_model("/x", &j(r#"{"model":"m"}"#))), "视频");
    assert_eq!(comfyui_answer("p"), r#"{"id":"p","prompt_id":"p","status":"pending"}"#);
}
