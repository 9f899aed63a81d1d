//! Chat and response requests: which model and stream they ask for, and what
//! goes to the upstream and back.
use vstd::prelude::*;
use vstd::string::*;
use crate::auth::{key_hidden, mask_key_in_string};
use crate::chat::{openai_response, transform_chat_response, Stamp};
use crate::forward::{
    default_openai_forward, forward_to, make_forward, request_path, upstream_request_path,
    ForwardModel, ResolvedForward,
};
use crate::json::{flag_or, parsed_json, text_at, Json, Jv};
use crate::text::{
    contains, ends_with, holds, small_letters, replace, replaced, same, to_lowercase,
};
use crate::usage::UsageTokens;

verus! {

/// What is said of a request without a model.
pub const MISSING_MODEL: &'static str = "Missing required parameter: model";

/// The model that a request asks for; some interfaces take its name too.
pub open spec fn asked_model(body: Jv, or_name: bool) -> Option<Seq<char>> {
    match text_at(body, "model"@) {
        Some(m) => Some(m),
        None => if or_name {
            text_at(body, "model_name"@)
        } else {
            None
        },
    }
}

/// Reads the model that a request asks for.
pub fn required_model(body: &Json, or_name: bool) -> (r: Result<&str, &'static str>)
    ensures
        match r {
            Ok(m) => asked_model(body@, or_name) == Some(m@),
            Err(e) => asked_model(body@, or_name) is None && e@
                == "Missing required parameter: model"@,
        },
{
    match body.get_str("model") {
        Some(m) => Ok(m),
        None => {
            if or_name {
                match body.get_str("model_name") {
                    Some(m) => {
                        return Ok(m);
                    },
                    None => {},
                }
            }
            Err(MISSING_MODEL)
        },
    }
}

/// Whether a request asks for a stream.
pub fn asks_stream(body: &Json) -> (r: bool)
    ensures
        r == flag_or(body@, "stream"@, false),
{
    body.get_bool_or("stream", false)
}

/// Whether a chat is streamed: it was asked for, or the upstream's path always
/// answers with one.
pub fn chat_is_streamed(asked: bool, resolved: &ResolvedForward) -> (r: bool)
    ensures
        r == (asked || holds(resolved.upstream_path@, "streamGenerateContent"@)),
{
    asked || contains(resolved.upstream_path.as_str(), "streamGenerateContent")
}

/// A body that asks for a stream. Gemini asks for it in its address instead.
pub open spec fn streamed_body(target_type: Seq<char>, body: Jv) -> Jv {
    if target_type == "gemini"@ {
        body
    } else {
        body.with("stream"@, Jv::Bool(true))
    }
}

/// Makes a body ask for a stream.
pub fn stream_body(target_type: &str, body: &Json) -> (r: Json)
    requires
        target_type@ != "gemini"@ ==> body@.assignable(),
    ensures
        r@ == streamed_body(target_type@, body@),
{
    let mut out = body.dup();
    if !same(target_type, "gemini") {
        out.set("stream", Json::Bool(true));
    }
    out
}

/// The path of Gemini that answers with a stream.
pub open spec fn gemini_stream_path(path: Seq<char>) -> Seq<char> {
    replaced(path, ":generateContent"@, ":streamGenerateContent"@) + "?alt=sse"@
}

/// Makes the path of Gemini that answers with a stream.
pub fn stream_path(path: &str) -> (r: String)
    ensures
        r@ == gemini_stream_path(path@),
{
    proof {
        reveal_strlit(":generateContent");
    }
    let mut out = replace(path, ":generateContent", ":streamGenerateContent");
    out.append("?alt=sse");
    out
}

/// The address of a streamed chat: for Gemini that of the path with a stream,
/// with the key in the query where it belongs there; for others the address of
/// a plain chat.
pub open spec fn stream_address(
    f: ForwardModel,
    url: Seq<char>,
    joined: Seq<char>,
    api_key: Seq<char>,
) -> Seq<char> {
    if f.target_type != "gemini"@ {
        url
    } else if f.auth_type != "query_key"@ {
        joined
    } else if holds(joined, "?"@) {
        joined + "&key="@ + api_key
    } else {
        joined + "?key="@ + api_key
    }
}

/// Makes the address of a streamed chat. `joined` is the base address joined
/// with the path of Gemini that answers with a stream.
pub fn stream_url(resolved: &ResolvedForward, url: &str, joined: &str, api_key: &str) -> (r: String)
    ensures
        r@ == stream_address(resolved@, url@, joined@, api_key@),
{
    if !same(resolved.target_type.as_str(), "gemini") {
        return url.to_owned();
    }
    let mut out = joined.to_owned();
    if same(resolved.auth_type.as_str(), "query_key") {
        if contains(joined, "?") {
            out.append("&key=");
        } else {
            out.append("?key=");
        }
        out.append(api_key);
    }
    out
}

/// How a chat is named in the log: by the path of the request and the address
/// that was asked, with its key hidden.
pub fn chat_endpoint(raw_path: &str, url: &str, api_key: &str) -> (r: String)
    ensures
        r@ == raw_path@ + "|"@ + key_hidden(url@, api_key@),
{
    let mut out = raw_path.to_owned();
    out.append("|");
    let hidden = mask_key_in_string(url, api_key);
    out.append(hidden.as_str());
    out
}

/// How any other request is named in the log: by its path and the upstream's.
pub fn endpoint(raw_path: &str, resolved: &ResolvedForward, model: &str) -> (r: String)
    ensures
        r@ == raw_path@ + "|"@ + request_path(resolved@, model@),
{
    let mut out = raw_path.to_owned();
    out.append("|");
    let path = upstream_request_path(resolved, model);
    out.append(path.as_str());
    out
}

/// What a chat is answered: the upstream's answer as it is under a path of
/// messages, and in the format of OpenAI elsewhere.
pub open spec fn chat_answer(
    raw_path: Seq<char>,
    response: Seq<char>,
    parsed: Option<Jv>,
    target_type: Seq<char>,
    model: Seq<char>,
    usage: UsageTokens,
    id: Seq<char>,
    created: int,
) -> Seq<char> {
    if "/messages"@.is_suffix_of(raw_path) {
        response
    } else {
        openai_response(response, parsed, target_type, model, usage, id, created)
    }
}

/// Makes the answer to a chat.
pub fn chat_reply(
    raw_path: &str,
    response: &str,
    target_type: &str,
    model: &str,
    usage: &UsageTokens,
) -> (r: String)
    ensures
        exists|at: Stamp|
            r@ == #[trigger] chat_answer(
                raw_path@,
                response@,
                parsed_json(response@),
                target_type@,
                model@,
                *usage,
                at.id@,
                at.created as int,
            ),
        "/messages"@.is_suffix_of(raw_path@) ==> r@ == response@,
{
    if ends_with(raw_path, "/messages") {
        let r = response.to_owned();
        let ghost at = arbitrary::<Stamp>();
        assert(r@ == chat_answer(
            raw_path@,
            response@,
            parsed_json(response@),
            target_type@,
            model@,
            *usage,
            at.id@,
            at.created as int,
        ));
        r
    } else {
        let r = transform_chat_response(response, target_type, model, usage);
        proof {
            let at = choose|at: Stamp|
                r@ == #[trigger] openai_response(
                    response@,
                    parsed_json(response@),
                    target_type@,
                    model@,
                    *usage,
                    at.id@,
                    at.created as int,
                );
            assert(r@ == chat_answer(
                raw_path@,
                response@,
                parsed_json(response@),
                target_type@,
                model@,
                *usage,
                at.id@,
                at.created as int,
            ));
        }
        r
    }
}

/// How a request for a response is forwarded where no rule says it.
pub open spec fn response_forward(low_url: Seq<char>) -> ForwardModel {
    if holds(low_url, "volces.com"@) || holds(low_url, "volcengine"@) {
        forward_to("volcengine_chat"@, "/api/v3/responses"@, "bearer"@)
    } else {
        forward_to("openai"@, "/v1/responses"@, "bearer"@)
    }
}

/// Decides by the host, in small letters, how a request for a response is
/// forwarded.
pub fn responses_forward_for(low_url: &str) -> (r: ResolvedForward)
    ensures
        r@ == response_forward(low_url@),
{
    if contains(low_url, "volces.com") || contains(low_url, "volcengine") {
        make_forward("volcengine_chat", "/api/v3/responses", "bearer")
    } else {
        default_openai_forward("/v1/responses")
    }
}

/// Decides by the channel how a request for a response is forwarded.
pub fn responses_forward(base_url: &str) -> (r: ResolvedForward)
    ensures
        r@ == response_forward(small_letters(base_url@)),
{
    let low = to_lowercase(base_url);
    responses_forward_for(low.as_str())
}

/// The body of a request that is passed through: as it came, with the model
/// that the upstream knows.
pub fn passed_body(body: &Json, model: &str) -> (r: Json)
    requires
        body@.assignable(),
    ensures
        r@ == body@.with("model"@, Jv::Str(model@)),
{
    let mut out = body.dup();
    out.set("model", Json::text(model));
    out
}

} // verus!
