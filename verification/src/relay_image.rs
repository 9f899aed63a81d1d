//! Image requests: how they came in, which path they take, and what becomes of
//! the upstream's answer.
use vstd::prelude::*;
use vstd::string::*;
use crate::attempt::ImageRoute;
use crate::bill::ExtractedFeatures;
use crate::forward::{ForwardModel, ResolvedForward};
use crate::json::{
    flag_or, is_plain, is_private_key, json_error, json_text, opt_text, parsed_json, read_error, single, text_or, Json, Jv,
};
use crate::text::{ascii_small, contains, holds, same, starts_with, to_ascii_lowercase};

verus! {

/// Reads the JSON text of a request.
pub fn read_request(text: &str) -> (r: Result<Json, String>)
    ensures
        match r {
            Ok(j) => parsed_json(text@) == Some(j@),
            Err(e) => parsed_json(text@) is None && e@ == "Invalid JSON: "@ + json_error(text@),
        },
{
    match Json::parse(text) {
        Some(j) => Ok(j),
        None => {
            let mut e = "Invalid JSON: ".to_owned();
            match read_error(text) {
                Some(m) => {
                    e.append(m.as_str());
                },
                None => {},
            }
            Err(e)
        },
    }
}

/// Whether a content type is that of a form, in letters of either case and
/// with whatever stands round it.
pub open spec fn is_form(content_type: Option<Seq<char>>) -> bool {
    match content_type {
        Some(ct) => holds(ascii_small(ct), "multipart/form-data"@),
        None => false,
    }
}

/// Whether a content type is that of a form.
pub fn content_type_is_multipart(content_type: Option<&str>) -> (r: bool)
    ensures
        r == is_form(opt_text(content_type)),
{
    match content_type {
        Some(ct) => {
            let low = to_ascii_lowercase(ct);
            contains(low.as_str(), "multipart/form-data")
        },
        None => false,
    }
}

/// The content type under which a client sent its request.
pub fn client_content_type(is_multipart: bool) -> (r: &'static str)
    ensures
        r@ == if is_multipart {
            "multipart/form-data"@
        } else {
            "application/json"@
        },
{
    if is_multipart {
        "multipart/form-data"
    } else {
        "application/json"
    }
}

/// The note that is kept with a request: its content type.
pub fn plugin_tag_client_ct(client_ct: &str) -> (r: String)
    ensures
        r@ == json_text(single("client_ct"@, Jv::Str(client_ct@))),
{
    Json::empty().with("client_ct", Json::text(client_ct)).to_text()
}

/// What a Jimeng task is asked for with later.
pub open spec fn poll_note(
    client_ct: Seq<char>,
    req_key: Seq<char>,
    response_format: Seq<char>,
    watermark: bool,
) -> Jv {
    single("client_ct"@, Jv::Str(client_ct)).with(
        "jimeng_poll"@,
        single("req_key"@, Jv::Str(req_key)).with(
            "response_format"@,
            Jv::Str(response_format),
        ).with("watermark"@, Jv::Bool(watermark)),
    )
}

/// The note that is kept with a Jimeng task: its content type, and what it is
/// asked for with later. It can be read back.
pub fn plugin_tag_jimeng_poll(
    client_ct: &str,
    req_key: &str,
    response_format: &str,
    watermark: bool,
) -> (r: String)
    ensures
        r@ == json_text(poll_note(client_ct@, req_key@, response_format@, watermark)),
        parsed_json(r@) == Some(poll_note(client_ct@, req_key@, response_format@, watermark)),
{
    let poll = Json::empty().with("req_key", Json::text(req_key)).with(
        "response_format",
        Json::text(response_format),
    ).with("watermark", Json::Bool(watermark));
    proof {
        reveal_with_fuel(is_plain, 3);
        reveal_strlit("$serde_json::private::");
        reveal_strlit("client_ct");
        reveal_strlit("jimeng_poll");
        reveal_strlit("req_key");
        reveal_strlit("response_format");
        reveal_strlit("watermark");
        assert forall|k: Seq<char>| #[trigger] is_private_key(k) implies k[0] == '$' by {
            assert(k.take("$serde_json::private::"@.len() as int)[0] == '$');
        }
    }
    Json::empty().with("client_ct", Json::text(client_ct)).with("jimeng_poll", poll).to_text()
}

/// Makes the note of a Jimeng task from the request and from what went to the
/// upstream.
pub fn jimeng_note(client_ct: &str, upstream_body: &Json, body: &Json, model: &str) -> (r: String)
    ensures
        r@ == json_text(
            poll_note(
                client_ct@,
                text_or(upstream_body@, "req_key"@, model@),
                text_or(body@, "response_format"@, "url"@),
                flag_or(body@, "watermark"@, false),
            ),
        ),
        parsed_json(r@) == Some(
            poll_note(
                client_ct@,
                text_or(upstream_body@, "req_key"@, model@),
                text_or(body@, "response_format"@, "url"@),
                flag_or(body@, "watermark"@, false),
            ),
        ),
{
    plugin_tag_jimeng_poll(
        client_ct,
        upstream_body.get_str_or("req_key", model),
        body.get_str_or("response_format", "url"),
        body.get_bool_or("watermark", false),
    )
}

/// Whether a Jimeng task is served.
pub fn is_jimeng_target(resolved: &ResolvedForward) -> (r: bool)
    ensures
        r == "jimeng_"@.is_prefix_of(resolved.target_type@),
{
    starts_with(resolved.target_type.as_str(), "jimeng_")
}

/// The path under which rules are looked up: native paths of images, and
/// edits, count as generations.
pub open spec fn rule_path(raw_path: Seq<char>) -> Seq<char> {
    if holds(raw_path, "omni-image"@) || holds(raw_path, "multi-image2image"@) || holds(
        raw_path,
        "edits"@,
    ) {
        "/v1/images/generations"@
    } else {
        raw_path
    }
}

/// Finds the path under which rules are looked up.
pub fn image_request_path(raw_path: &str) -> (r: &str)
    ensures
        r@ == rule_path(raw_path@),
{
    if contains(raw_path, "omni-image") || contains(raw_path, "multi-image2image") || contains(
        raw_path,
        "edits",
    ) {
        "/v1/images/generations"
    } else {
        raw_path
    }
}

/// How an image request is forwarded: upstreams of the OpenAI interface are
/// asked under the path of the request.
pub open spec fn on_request_path(f: ForwardModel, raw_path: Seq<char>) -> ForwardModel {
    if f.target_type == "gpt"@ || f.target_type == "openai"@ || f.target_type == "apimart"@ {
        ForwardModel { upstream_path: raw_path, ..f }
    } else {
        f
    }
}

/// Asks upstreams of the OpenAI interface under the path of the request.
pub fn follow_request_path(resolved: &mut ResolvedForward, raw_path: &str)
    ensures
        final(resolved)@ == on_request_path(old(resolved)@, raw_path@),
{
    if same(resolved.target_type.as_str(), "gpt") || same(
        resolved.target_type.as_str(),
        "openai",
    ) || same(resolved.target_type.as_str(), "apimart") {
        resolved.upstream_path = raw_path.to_owned();
    }
}

/// What the upstream answered an image request, as JSON; an empty object where
/// it is none.
pub fn image_answer(text: &str) -> (r: Json)
    ensures
        r@ == match parsed_json(text@) {
            Some(v) => v,
            None => Jv::Obj(Map::empty()),
        },
{
    match Json::parse(text) {
        Some(v) => v,
        None => Json::empty(),
    }
}

/// What becomes of the answer. A client of the OpenAI interface waits for a
/// task that cannot be asked for later and has no media yet; a task that can be
/// is recorded. A client of a native interface always gets a task to ask for
/// later, unless there are media already.
pub open spec fn image_route(native: bool, has_task: bool, has_poll: bool, has_media: bool) -> ImageRoute {
    if !has_task {
        ImageRoute::Answer
    } else if native {
        if has_media {
            ImageRoute::Answer
        } else {
            ImageRoute::Freeze
        }
    } else if has_poll {
        ImageRoute::Freeze
    } else if has_media {
        ImageRoute::Answer
    } else {
        ImageRoute::Wait
    }
}

/// Decides what becomes of the answer to a request, given the task that it
/// names and whether it holds media.
pub fn route_image(body: &Json, resolved: &ResolvedForward, task_id: &str, has_media: bool) -> (r:
    ImageRoute)
    ensures
        r == image_route(
            body@.member("model_name"@) is Some,
            task_id@.len() > 0,
            resolved.poll_path is Some,
            has_media,
        ),
{
    let has_task = !task_id.is_empty();
    let has_poll = resolved.poll_path.is_some();
    if body.get("model_name").is_none() {
        if has_task && !has_poll && !has_media {
            ImageRoute::Wait
        } else if has_task && has_poll {
            ImageRoute::Freeze
        } else {
            ImageRoute::Answer
        }
    } else if has_task && !has_media {
        ImageRoute::Freeze
    } else {
        ImageRoute::Answer
    }
}

/// An answer with media is never waited for, and an answer without a task is
/// handed out at once.
pub proof fn law_media_are_not_waited_for(
    native: bool,
    has_task: bool,
    has_poll: bool,
    has_media: bool,
)
    ensures
        has_media ==> !(image_route(native, has_task, has_poll, has_media) is Wait),
        !has_task ==> image_route(native, has_task, has_poll, has_media) is Answer,
        image_route(native, has_task, has_poll, has_media) is Wait ==> !native && !has_poll,
{
}

/// Whether the answer holds an image.
pub fn has_image(count: Option<i32>) -> (r: bool)
    ensures
        r == (count is Some && count->Some_0 > 0),
{
    match count {
        Some(n) => n > 0,
        None => false,
    }
}

/// What a request is billed by: as many images as the answer holds, where they
/// were counted, whatever the request asked for.
pub fn billed_features(f: ExtractedFeatures, images: Option<i32>) -> (r: ExtractedFeatures)
    ensures
        r == (ExtractedFeatures {
            image_count: if images is Some {
                images
            } else {
                f.image_count
            },
            ..f
        }),
{
    let mut out = f;
    if images.is_some() {
        out.image_count = images;
    }
    out
}

/// What is said of an answer without an image.
pub const NO_IMAGE: &'static str = "上游返回空响应或无有效图片";

/// What is said of a task that took too long.
pub fn timeout_text(task_id: &str) -> (r: String)
    ensures
        r@ == "任务处理超时，请稍后查询结果，任务ID: "@ + task_id@,
{
    let mut out = "任务处理超时，请稍后查询结果，任务ID: ".to_owned();
    out.append(task_id);
    out
}

/// What is noted of a task that is settled later.
pub open spec fn freeze_note(charged: bool) -> Seq<char> {
    if charged {
        "异步任务预扣费冻结"@
    } else {
        "异步任务处理中(冻结)"@
    }
}

/// Notes a task that is settled later.
pub fn note_freeze(charged: bool) -> (r: &'static str)
    ensures
        r@ == freeze_note(charged),
{
    if charged {
        "异步任务预扣费冻结"
    } else {
        "异步任务处理中(冻结)"
    }
}

/// The identifier under which an answer is handed out: that of its task, or
/// else that of its log entry.
pub fn answer_id<'a>(task_id: &'a str, log_id: Option<&'a str>) -> (r: Option<&'a str>)
    ensures
        opt_text(r) == if task_id@.len() == 0 {
            opt_text(log_id)
        } else {
            Some(task_id@)
        },
{
    if task_id.is_empty() {
        log_id
    } else {
        Some(task_id)
    }
}

/// What an image request is answered: a native request gets the upstream's
/// answer as it came, any other one in its own format.
pub fn image_reply<'a>(body: &Json, response: &'a str, formatted: &'a str) -> (r: &'a str)
    ensures
        r@ == if body@.member("model_name"@) is Some {
            response@
        } else {
            formatted@
        },
{
    if body.get("model_name").is_some() {
        response
    } else {
        formatted
    }
}

} // verus!
