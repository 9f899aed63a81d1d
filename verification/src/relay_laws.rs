//! What holds of the way a request takes: its path, its model, its notes and
//! its answer.
use vstd::prelude::*;
use vstd::string::*;
use crate::attempt::{Deposit, Failure, Kind};
use crate::usage::UsageTokens;
use crate::exchange::{fitted, response_body};
use crate::forward::{Channel, ForwardModel};
use crate::json::{text_at, Jv};
use crate::ledger::{failure_note, is_frozen, Entry};
use crate::relay_chat::{
    asked_model, chat_answer, gemini_stream_path, response_forward, stream_address, streamed_body,
};
use crate::relay_image::{freeze_note, image_route, is_form, on_request_path, poll_note, rule_path};
use crate::relay_video::{
    also_noted, cascade_note, cascade_target, entry_path, tool_model, with_cascade, CascadeStage,
};
use crate::text::{ascii_small, holds, occurs_at, trimmed};
use crate::text_laws::law_replaced_last;

verus! {

/// The model that a request asks for, which some requests name otherwise.
pub proof fn law_asked_model(body: Jv, m: Seq<char>)
    ensures
        text_at(body, "model"@) == Some(m) ==> asked_model(body, true) == Some(m) && asked_model(
            body,
            false,
        ) == Some(m),
        text_at(body, "model"@) is None ==> asked_model(body, true) == text_at(body, "model_name"@)
            && asked_model(body, false) is None,
{
}

/// A body that is to be streamed says so, but for Gemini, whose path says it.
pub proof fn law_streamed_body(target: Seq<char>, body: Jv, key: Seq<char>, r: Jv)
    requires
        body is Obj,
        r == streamed_body(target, body),
    ensures
        target == "gemini"@ ==> r == body,
        target != "gemini"@ ==> r.member("stream"@) == Some(Jv::Bool(true)),
        key != "stream"@ ==> r.member(key) == body.member(key),
{
}

/// The body of a request in the newer form names the model, and says that it
/// is streamed where it is.
pub proof fn law_response_body(body: Jv, model: Seq<char>, key: Seq<char>)
    requires
        body is Obj,
    ensures
        text_at(response_body(body, model, true), "model"@) == Some(model),
        text_at(response_body(body, model, false), "model"@) == Some(model),
        response_body(body, model, true).member("stream"@) == Some(Jv::Bool(true)),
        response_body(body, model, false).member("stream"@) == body.member("stream"@),
        key != "model"@ && key != "stream"@ ==> response_body(body, model, true).member(key)
            == body.member(key) && response_body(body, model, false).member(key) == body.member(
            key,
        ),
{
    reveal_strlit("model");
    reveal_strlit("stream");
    assert("model"@.len() == 5);
    assert("stream"@.len() == 6);
}

/// The path of a Gemini stream: the other method, with events for its answer.
pub proof fn law_gemini_stream_path(head: Seq<char>)
    requires
        !head.contains(':'),
    ensures
        gemini_stream_path(head + ":generateContent"@) == head + ":streamGenerateContent"@
            + "?alt=sse"@,
{
    reveal_strlit(":generateContent");
    let p = ":generateContent"@;
    assert(p[0] == ':');
    assert forall|j: int| 0 <= j < head.len() implies !#[trigger] occurs_at(head + p, p, j) by {
        if occurs_at(head + p, p, j) {
            assert((head + p).subrange(j, j + p.len())[0] == ':');
            assert(head[j] == ':');
        }
    }
    let s = head + p;
    assert(s.skip(head.len() as int) =~= p);
    assert(s.take(head.len() as int) =~= head);
    law_replaced_last(s, head.len() as int, p, ":streamGenerateContent"@);
}

/// The address of a stream: that of the request, but for Gemini, whose address
/// carries the key where that is the way to authenticate.
pub proof fn law_stream_address(
    f: ForwardModel,
    url: Seq<char>,
    joined: Seq<char>,
    key: Seq<char>,
    r: Seq<char>,
)
    requires
        r == stream_address(f, url, joined, key),
    ensures
        f.target_type != "gemini"@ ==> r == url,
        f.target_type == "gemini"@ && f.auth_type == "bearer"@ ==> r == joined,
        f.target_type == "gemini"@ && f.auth_type == "query_key"@ && holds(joined, "?"@) ==> r
            == joined + "&key="@ + key,
        f.target_type == "gemini"@ && f.auth_type == "query_key"@ && !holds(joined, "?"@) ==> r
            == joined + "?key="@ + key,
{
    reveal_strlit("bearer");
    reveal_strlit("query_key");
    assert("bearer"@.len() == 6);
    assert("query_key"@.len() == 9);
}

/// A client of Anthropic's interface gets the answer as it came.
pub proof fn law_native_answer(
    path: Seq<char>,
    response: Seq<char>,
    parsed: Option<Jv>,
    target: Seq<char>,
    model: Seq<char>,
    u: UsageTokens,
    id: Seq<char>,
    created: int,
)
    ensures
        "/messages"@.is_suffix_of(path) ==> chat_answer(
            path,
            response,
            parsed,
            target,
            model,
            u,
            id,
            created,
        ) == response,
        !"/messages"@.is_suffix_of(path) ==> chat_answer(
            path,
            response,
            parsed,
            target,
            model,
            u,
            id,
            created,
        ) == crate::chat::openai_response(response, parsed, target, model, u, id, created),
{
}

/// Where the newer form of a chat goes.
pub proof fn law_response_address(url: Seq<char>, f: ForwardModel)
    requires
        f == response_forward(url),
    ensures
        holds(url, "volces.com"@) || holds(url, "volcengine"@) ==> f.target_type
            == "volcengine_chat"@ && f.upstream_path == "/api/v3/responses"@,
        !holds(url, "volces.com"@) && !holds(url, "volcengine"@) ==> f.target_type == "openai"@
            && f.upstream_path == "/v1/responses"@,
        f.auth_type == "bearer"@,
{
}

// ---------------------------------------------------------------- images

/// A form is told by its content type, whatever its letters.
pub proof fn law_is_form(ct: Seq<char>)
    ensures
        is_form(Some(ct)) == holds(ascii_small(ct), "multipart/form-data"@),
        !is_form(None),
{
}

/// The rule for an edit is that for an image; any other path has its own.
pub proof fn law_rule_path(path: Seq<char>)
    ensures
        holds(path, "omni-image"@) || holds(path, "multi-image2image"@) || holds(path, "edits"@)
            ==> rule_path(path) == "/v1/images/generations"@,
        !holds(path, "omni-image"@) && !holds(path, "multi-image2image"@) && !holds(path, "edits"@)
            ==> rule_path(path) == path,
{
}

/// An image request in the OpenAI form goes to the path that was asked for;
/// any other to the path of its rule. Nothing else changes.
pub proof fn law_request_path_of_images(f: ForwardModel, path: Seq<char>, r: ForwardModel)
    requires
        r == on_request_path(f, path),
    ensures
        f.target_type == "gpt"@ || f.target_type == "openai"@ || f.target_type == "apimart"@
            ==> r.upstream_path == path,
        f.target_type != "gpt"@ && f.target_type != "openai"@ && f.target_type != "apimart"@ ==> r
            == f,
        r.target_type == f.target_type && r.auth_type == f.auth_type && r.poll_path == f.poll_path,
{
}

/// What a task of Jimeng is polled with.
pub proof fn law_poll_note(ct: Seq<char>, key: Seq<char>, form: Seq<char>, mark: bool, n: Jv)
    requires
        n == poll_note(ct, key, form, mark),
    ensures
        text_at(n, "client_ct"@) == Some(ct),
        text_at(n.at("jimeng_poll"@), "req_key"@) == Some(key),
        text_at(n.at("jimeng_poll"@), "response_format"@) == Some(form),
        n.at("jimeng_poll"@).member("watermark"@) == Some(Jv::Bool(mark)),
{
    reveal_strlit("client_ct");
    reveal_strlit("jimeng_poll");
    reveal_strlit("req_key");
    reveal_strlit("response_format");
    reveal_strlit("watermark");
    assert("client_ct"@.len() == 9);
    assert("jimeng_poll"@.len() == 11);
    assert("req_key"@.len() == 7);
    assert("response_format"@.len() == 15);
    assert("watermark"@.len() == 9);
    assert("client_ct"@[0] == 'c');
    assert("watermark"@[0] == 'w');
}

/// An answer with a task: one in the vendor's own form is frozen until it is
/// asked for, unless its images are there; one with a path to poll is frozen;
/// any other is waited for, unless its images are there.
pub proof fn law_image_route(has_poll: bool, has_media: bool)
    ensures
        image_route(true, true, has_poll, false) is Freeze,
        image_route(true, true, has_poll, true) is Answer,
        image_route(false, true, true, has_media) is Freeze,
        image_route(false, true, false, false) is Wait,
        image_route(false, true, false, true) is Answer,
        image_route(true, false, has_poll, has_media) is Answer,
        image_route(false, false, has_poll, has_media) is Answer,
{
}

// ---------------------------------------------------------------- videos

/// A video request comes in by one of two paths.
pub proof fn law_entry_path(path: Seq<char>)
    ensures
        "/v1/videos/"@.is_prefix_of(path) ==> entry_path(path) == "/v1/video/generations"@,
        !"/v1/videos/"@.is_prefix_of(path) ==> entry_path(path) == path,
{
}

/// The model that a tool stands for.
pub proof fn law_tool_model(path: Seq<char>, body: Jv, m: Option<Seq<char>>)
    requires
        m == tool_model(path, body),
    ensures
        holds(path, "/tools/enhance-video-fast"@) ==> m == Some("vve-ft"@),
        !holds(path, "/tools/enhance-video-fast"@) && holds(
            path,
            "/tools/enhance-video-generative"@,
        ) ==> m == Some("vve-gt"@),
        !holds(path, "/tools/enhance-video"@) && !holds(path, "/tools/enhance-video-fast"@)
            && !holds(path, "/tools/enhance-video-generative"@) && holds(
            path,
            "/tools/erase-video-subtitle-pro"@,
        ) ==> m == Some("vvs-ep"@),
        !holds(path, "/tools/enhance-video"@) && !holds(path, "/tools/enhance-video-fast"@)
            && !holds(path, "/tools/enhance-video-generative"@) && !holds(
            path,
            "/tools/erase-video-subtitle-pro"@,
        ) && holds(path, "/tools/erase-video-subtitle"@) ==> m == Some("vvs-er"@),
        holds(path, "/tools/enhance-video"@) && !holds(path, "/tools/enhance-video-fast"@)
            && !holds(path, "/tools/enhance-video-generative"@) && !holds(
            path,
            "/tools/erase-video-subtitle-pro"@,
        ) && !holds(path, "/tools/erase-video-subtitle"@) ==> m == Some(
            if text_at(body, "tool_version"@) == Some("professional"@) {
                "vve-pf"@
            } else {
                "vve-sd"@
            },
        ),
{
}

/// The resolution that a second stage is to reach: what the request asks for,
/// or else what goes upstream, or else the common one, in small letters.
pub proof fn law_cascade_target(body: Jv, upstream: Jv, t: Option<Seq<char>>)
    requires
        t == cascade_target(body, upstream),
    ensures
        body.member("resolution"@) matches Some(Jv::Str(s)) ==> t == Some(ascii_small(trimmed(s))),
        body.member("resolution"@) is Some && text_at(body, "resolution"@) is None ==> t is None,
        body.member("resolution"@) is None ==> (text_at(upstream, "resolution"@) matches Some(s)
            ==> t == Some(ascii_small(trimmed(s)))),
        body.member("resolution"@) is None && text_at(upstream, "resolution"@) is None ==> t
            == Some("720p"@),
{
    reveal_strlit("720p");
    assert(trimmed("720p"@) == "720p"@);
    assert(ascii_small("720p"@) =~= "720p"@);
}

/// What is noted of a second stage, each thing under its name.
pub proof fn law_cascade_note(s: CascadeStage, f: ForwardModel, n: Jv)
    requires
        n == cascade_note(s, f),
    ensures
        text_at(n, "mid"@) == Some(s.mid@),
        text_at(n, "resolution"@) == Some(s.resolution@),
        text_at(n, "version"@) == Some(s.version@),
        text_at(n, "final_model"@) == Some(s.final_model@),
        text_at(n, "base_url"@) == Some(s.base_url@),
        text_at(n, "api_key"@) == Some(s.api_key@),
        n.member("ch_id"@) == Some(Jv::Int(s.channel_id as int)),
        text_at(n, "ch_name"@) == Some(s.channel_name@),
        n.member("rate"@) == Some(s.rate@),
        text_at(n, "auth_type"@) == Some(f.auth_type),
        text_at(n, "upstream_path"@) == Some(f.upstream_path),
        text_at(n, "target_type"@) == Some(f.target_type),
        text_at(n, "poll_path"@) == f.poll_path,
        s.scene matches Some(t) ==> text_at(n, "scene"@) == Some(t@),
        s.scene is None ==> n.member("scene"@) is None,
        s.input_duration matches Some(d) ==> n.member("input_duration"@) == Some(d@),
        s.input_duration is None ==> n.member("input_duration"@) is None,
{
    reveal_strlit("api_key");
    reveal_strlit("auth_type");
    reveal_strlit("base_url");
    reveal_strlit("ch_id");
    reveal_strlit("ch_name");
    reveal_strlit("final_model");
    reveal_strlit("input_duration");
    reveal_strlit("mid");
    reveal_strlit("poll_path");
    reveal_strlit("rate");
    reveal_strlit("resolution");
    reveal_strlit("scene");
    reveal_strlit("target_type");
    reveal_strlit("upstream_path");
    reveal_strlit("version");
    assert("api_key"@.len() == 7);
    assert("auth_type"@.len() == 9);
    assert("base_url"@.len() == 8);
    assert("ch_id"@.len() == 5);
    assert("ch_name"@.len() == 7);
    assert("final_model"@.len() == 11);
    assert("input_duration"@.len() == 14);
    assert("mid"@.len() == 3);
    assert("poll_path"@.len() == 9);
    assert("rate"@.len() == 4);
    assert("resolution"@.len() == 10);
    assert("scene"@.len() == 5);
    assert("target_type"@.len() == 11);
    assert("upstream_path"@.len() == 13);
    assert("version"@.len() == 7);
    assert("api_key"@[0] == 'a');
    assert("ch_name"@[0] == 'c');
    assert("version"@[0] == 'v');
    assert("auth_type"@[0] == 'a');
    assert("poll_path"@[0] == 'p');
    assert("ch_id"@[0] == 'c');
    assert("scene"@[0] == 's');
    assert("final_model"@[0] == 'f');
    assert("target_type"@[0] == 't');
}

/// The note of a second stage stands beside what is noted already.
pub proof fn law_with_cascade(tag: Jv, c: Jv, key: Seq<char>)
    requires
        tag is Obj,
    ensures
        with_cascade(tag, Some(c)).member("cascade"@) == Some(c),
        key != "cascade"@ ==> with_cascade(tag, Some(c)).member(key) == tag.member(key),
        with_cascade(tag, None) == tag,
{
}

/// A further note stands behind the first.
pub proof fn law_also_noted(note: Seq<char>, more: Seq<char>)
    ensures
        also_noted(note, Some(more)) == note + " | "@ + more,
        also_noted(note, None) == note,
{
}

// ---------------------------------------------------------------- notes

/// What is noted of a request that failed after it was charged: why, and that
/// the charge was given back where it was.
pub proof fn law_failure_note(kind: Kind, refunded: bool, conversion: Option<Seq<char>>)
    ensures
        failure_note(kind, Failure::TaskFailed, true, conversion) == Some(
            "同步轮询任务失败，预扣费已退回"@,
        ),
        failure_note(kind, Failure::TaskFailed, false, conversion) == Some("同步轮询任务失败"@),
        failure_note(kind, Failure::TaskTimedOut, true, conversion) == Some(
            "同步轮询超时，预扣费已退回"@,
        ),
        failure_note(kind, Failure::TaskTimedOut, false, conversion) == Some("同步轮询超时"@),
        failure_note(kind, Failure::NoImage, true, conversion) == Some("同步空响应，预扣费已退回"@),
        failure_note(kind, Failure::NoImage, false, conversion) == Some("同步空响应"@),
        kind == Kind::Image || kind == Kind::Video ==> failure_note(
            kind,
            Failure::Business,
            refunded,
            conversion,
        ) == Some("请求失败"@),
        kind != Kind::Image && kind != Kind::Video ==> failure_note(
            kind,
            Failure::Business,
            refunded,
            conversion,
        ) is None,
        failure_note(Kind::Video, Failure::Transport, refunded, conversion) == conversion,
        failure_note(Kind::Video, Failure::Status, refunded, conversion) == conversion,
        kind != Kind::Video ==> failure_note(kind, Failure::Transport, refunded, conversion) is None
            && failure_note(kind, Failure::Status, refunded, conversion) is None,
        failure_note(kind, Failure::NotServed, refunded, conversion) is None,
        failure_note(kind, Failure::Refused, refunded, conversion) is None,
{
}

/// An entry for an amount that is held back: no tokens yet, the deposit for its
/// cost, and the detail that was given.
pub proof fn law_frozen(e: Entry, deposit: Deposit, detail: Seq<char>)
    requires
        is_frozen(e, deposit, detail),
    ensures
        e.prompt_tokens == 0,
        e.completion_tokens == 0,
        e.cached_tokens == 0,
        e.cost == deposit.amount,
        e.deposit == deposit,
        e.status_code == 200,
        e.billing_detail@ == detail,
{
}

/// What is noted of an amount that is held back.
pub proof fn law_freeze_note()
    ensures
        freeze_note(true) == "异步任务预扣费冻结"@,
        freeze_note(false) == "异步任务处理中(冻结)"@,
{
}

/// What the kind of a request makes of its rule: a chat takes it as it is; the
/// other kinds know APIMart by its address, and images go to the path that was
/// asked for.
pub proof fn law_fitted(
    f: ForwardModel,
    low_url: Seq<char>,
    path: Seq<char>,
    ch: Channel,
)
    ensures
        fitted(Kind::Chat, f, low_url, path, ch) == f,
        fitted(Kind::Responses, f, low_url, path, ch) == f,
        f.target_type == "openai"@ && holds(low_url, "apimart.ai"@) ==> fitted(
            Kind::Generic,
            f,
            low_url,
            path,
            ch,
        ).target_type == "apimart"@ && fitted(Kind::Image, f, low_url, path, ch).target_type
            == "apimart"@,
        f.target_type != "openai"@ || !holds(low_url, "apimart.ai"@) ==> fitted(
            Kind::Generic,
            f,
            low_url,
            path,
            ch,
        ) == f,
        f.target_type == "openai"@ ==> fitted(Kind::Image, f, low_url, path, ch).upstream_path
            == path,
        f.target_type == "gemini_image"@ ==> fitted(Kind::Image, f, low_url, path, ch) == f,
        f.target_type == "kling"@ && ch.provider_type@ != "comfyui"@ ==> fitted(
            Kind::Video,
            f,
            low_url,
            path,
            ch,
        ) == f,
{
    reveal_strlit("apimart");
    reveal_strlit("gemini_image");
    reveal_strlit("gpt");
    reveal_strlit("kling");
    reveal_strlit("openai");
    assert("apimart"@.len() == 7);
    assert("gemini_image"@.len() == 12);
    assert("gpt"@.len() == 3);
    assert("kling"@.len() == 5);
    assert("openai"@.len() == 6);
}

} // verus!
