//! What goes to the upstream: how the rule is adapted, the address, the
//! headers and the body of a request, and the name under which it is logged.
use vstd::prelude::*;
use vstd::string::*;
use crate::attempt::Kind;
use crate::auth::{
    apply_request_auth, auth_headers, build_auth_headers, carries_token, header_views, is_tencent,
    key_hidden, kling_jwt, posted_body, posting,
};
use crate::forward::{
    apply_channel_provider, build_upstream_url, channel_config, refine_target_type, refined_type,
    request_path, upstream_url, with_comfyui, Channel, ForwardModel, ResolvedForward,
};
use crate::json::{flag_or, opt_string, Json, Jv};
use crate::media::{fetched_views, Fetched};
use crate::multipart::{build_edits_multipart, edit_parts, part_views, EditPart};
use crate::relay_chat::{
    asks_stream, chat_endpoint, chat_is_streamed, endpoint, passed_body, stream_address,
    stream_body, stream_url, streamed_body,
};
use crate::relay_image::{follow_request_path, on_request_path};
use crate::text::{holds, small_letters};

verus! {

/// How a kind of request adapts the rule that was found: images, videos and
/// what is passed through refine it by the address of the channel; images
/// follow the path of the request; videos take over what the channel sets.
pub open spec fn fitted(
    kind: Kind,
    f: ForwardModel,
    low_url: Seq<char>,
    raw_path: Seq<char>,
    ch: Channel,
) -> ForwardModel {
    let refined = ForwardModel { target_type: refined_type(f.target_type, low_url), ..f };
    match kind {
        Kind::Chat | Kind::Responses => f,
        Kind::Generic => refined,
        Kind::Image => on_request_path(refined, raw_path),
        Kind::Video => if ch.provider_type@ == "comfyui"@ {
            with_comfyui(refined, channel_config(ch.config@))
        } else {
            refined
        },
    }
}

/// Adapts the rule that was found to the kind of request and to the channel.
pub fn fit_forward(
    kind: Kind,
    resolved: &mut ResolvedForward,
    base_url: &str,
    raw_path: &str,
    ch: &Channel,
)
    ensures
        final(resolved)@ == fitted(
            kind,
            old(resolved)@,
            small_letters(base_url@),
            raw_path@,
            *ch,
        ),
{
    match kind {
        Kind::Chat | Kind::Responses => {},
        Kind::Generic => {
            refine_target_type(resolved, base_url);
        },
        Kind::Image => {
            refine_target_type(resolved, base_url);
            follow_request_path(resolved, raw_path);
        },
        Kind::Video => {
            refine_target_type(resolved, base_url);
            apply_channel_provider(resolved, ch);
        },
    }
}

/// Whether a request is for a stream: a chat where it asks for one or the
/// upstream always sends one, a response or an image where it asks for one.
pub fn wants_stream(kind: Kind, body: &Json, resolved: &ResolvedForward) -> (r: bool)
    ensures
        r == match kind {
            Kind::Chat => flag_or(body@, "stream"@, false) || holds(
                resolved.upstream_path@,
                "streamGenerateContent"@,
            ),
            Kind::Responses | Kind::Image => flag_or(body@, "stream"@, false),
            Kind::Video | Kind::Generic => false,
        },
{
    match kind {
        Kind::Chat => chat_is_streamed(asks_stream(body), resolved),
        Kind::Responses | Kind::Image => asks_stream(body),
        Kind::Video | Kind::Generic => false,
    }
}

/// Whether an answer is taken as a stream: a chat by its content type, any
/// other by whether it is one of server-sent events.
pub fn came_as_stream(kind: Kind, stream_content: bool, event_stream: bool) -> (r: bool)
    ensures
        r == if kind == Kind::Chat {
            stream_content
        } else {
            event_stream
        },
{
    if kind == Kind::Chat {
        stream_content
    } else {
        event_stream
    }
}

/// Whether the mapping of a model depends on the resolution that the body asks
/// for: that of images and videos does.
pub fn maps_by_body(kind: Kind) -> (r: bool)
    ensures
        r == (kind == Kind::Image || kind == Kind::Video),
{
    kind == Kind::Image || kind == Kind::Video
}

/// The category by which the body of a request is put into the form of its
/// target: a chat is one whatever the category of its model.
pub fn body_category<'a>(kind: Kind, resolved: &'a str) -> (r: &'a str)
    ensures
        r@ == if kind == Kind::Chat {
            "聊天"@
        } else {
            resolved@
        },
{
    if kind == Kind::Chat {
        "聊天"
    } else {
        resolved
    }
}

/// A request to an upstream.
pub struct Exchange {
    pub url: String,
    pub headers: Vec<(String, String)>,
    pub body: Json,
    /// The name under which the request is logged.
    pub endpoint: String,
}

/// Whether headers are those of a request at some time: the time matters only
/// where they carry a token.
pub open spec fn are_headers_of(
    headers: Seq<(Seq<char>, Seq<char>)>,
    f: ForwardModel,
    api_key: Seq<char>,
) -> bool {
    if carries_token(f) {
        exists|now: i64|
            headers == #[trigger] auth_headers(f, api_key, true, kling_jwt(api_key, now as int))
    } else {
        headers == auth_headers(f, api_key, true, None)
    }
}

fn key_headers(resolved: &ResolvedForward, api_key: &str) -> (r: Vec<(String, String)>)
    ensures
        are_headers_of(header_views(r@), resolved@, api_key@),
{
    build_auth_headers(resolved, api_key, true)
}

/// Makes the request for a chat. `joined` is the path of the request joined to
/// the base address, and `joined_stream` the one of Gemini that answers with a
/// stream. The log names the address of a plain chat even for a stream.
pub fn chat_exchange(
    raw_path: &str,
    resolved: &ResolvedForward,
    upstream_body: &Json,
    base_url: &str,
    joined: &str,
    joined_stream: &str,
    api_key: &str,
    streamed: bool,
) -> (r: Exchange)
    requires
        streamed && resolved.target_type@ != "gemini"@ ==> upstream_body@.assignable(),
    ensures
        r.url@ == ({
            let plain = upstream_url(base_url@, resolved@, joined@, api_key@);
            if streamed {
                stream_address(resolved@, plain, joined_stream@, api_key@)
            } else {
                plain
            }
        }),
        are_headers_of(header_views(r.headers@), resolved@, api_key@),
        r.body@ == if streamed {
            streamed_body(resolved.target_type@, upstream_body@)
        } else {
            upstream_body@
        },
        r.endpoint@ == raw_path@ + "|"@ + key_hidden(
            upstream_url(base_url@, resolved@, joined@, api_key@),
            api_key@,
        ),
{
    let plain = build_upstream_url(base_url, resolved, joined, api_key);
    let name = chat_endpoint(raw_path, plain.as_str(), api_key);
    let headers = key_headers(resolved, api_key);
    if streamed {
        let url = stream_url(resolved, plain.as_str(), joined_stream, api_key);
        let body = stream_body(resolved.target_type.as_str(), upstream_body);
        Exchange { url, headers, body, endpoint: name }
    } else {
        Exchange { url: plain, headers, body: upstream_body.dup(), endpoint: name }
    }
}

/// The body of a request for a response: the client's, with the model that the
/// upstream knows, and asking for a stream where the client does.
pub open spec fn response_body(body: Jv, model: Seq<char>, streamed: bool) -> Jv {
    let named = body.with("model"@, Jv::Str(model));
    if streamed {
        named.with("stream"@, Jv::Bool(true))
    } else {
        named
    }
}

/// Makes the request for a response. `joined` is the path of the request
/// joined to the base address.
pub fn responses_exchange(
    raw_path: &str,
    resolved: &ResolvedForward,
    model: &str,
    body: &Json,
    base_url: &str,
    joined: &str,
    api_key: &str,
    streamed: bool,
) -> (r: Exchange)
    requires
        body@.assignable(),
    ensures
        r.url@ == upstream_url(base_url@, resolved@, joined@, api_key@),
        are_headers_of(header_views(r.headers@), resolved@, api_key@),
        r.body@ == response_body(body@, model@, streamed),
        r.endpoint@ == raw_path@ + "|"@ + request_path(resolved@, model@),
{
    let url = build_upstream_url(base_url, resolved, joined, api_key);
    let headers = key_headers(resolved, api_key);
    let mut sent = passed_body(body, model);
    if streamed {
        sent.set("stream", Json::Bool(true));
    }
    Exchange { url, headers, body: sent, endpoint: endpoint(raw_path, resolved, model) }
}

/// A request to an upstream that may be sent as the text that was signed.
pub struct Post {
    pub url: String,
    pub headers: Vec<(String, String)>,
    /// The JSON of the body; it is also what the log holds.
    pub body: Json,
    /// The text of the body, where it was signed.
    pub signed_body: Option<String>,
    /// The name under which the request is logged.
    pub endpoint: String,
}

/// Makes the request for an image or a video from a body in the upstream's
/// format. `joined` is the path of the request joined to the base address.
pub fn post_exchange(
    raw_path: &str,
    resolved: &ResolvedForward,
    model: &str,
    upstream_body: &Json,
    base_url: &str,
    joined: &str,
    api_key: &str,
) -> (r: Post)
    requires
        is_tencent(resolved@.target_type) ==> upstream_body@.assignable(),
    ensures
        r.url@ == upstream_url(base_url@, resolved@, joined@, api_key@),
        r.body@ == posted_body(resolved@, api_key@, upstream_body@),
        exists|timestamp: i64, date: Seq<char>|
            (header_views(r.headers@), opt_string(r.signed_body)) == #[trigger] posting(
                resolved@,
                api_key@,
                upstream_body@,
                timestamp as int,
                date,
            ),
        r.endpoint@ == raw_path@ + "|"@ + request_path(resolved@, model@),
{
    let url = build_upstream_url(base_url, resolved, joined, api_key);
    let mut body = upstream_body.dup();
    let posting = apply_request_auth(resolved, api_key, &mut body, base_url);
    Post {
        url,
        headers: posting.headers,
        body,
        signed_body: posting.signed_body,
        endpoint: endpoint(raw_path, resolved, model),
    }
}

/// Makes the request for what is passed through as it is: the client's body
/// with the model that the upstream knows.
pub fn generic_exchange(
    raw_path: &str,
    resolved: &ResolvedForward,
    model: &str,
    body: &Json,
    base_url: &str,
    joined: &str,
    api_key: &str,
) -> (r: Post)
    requires
        body@.assignable(),
    ensures
        r.url@ == upstream_url(base_url@, resolved@, joined@, api_key@),
        r.body@ == posted_body(resolved@, api_key@, response_body(body@, model@, false)),
        exists|timestamp: i64, date: Seq<char>|
            (header_views(r.headers@), opt_string(r.signed_body)) == #[trigger] posting(
                resolved@,
                api_key@,
                response_body(body@, model@, false),
                timestamp as int,
                date,
            ),
        r.endpoint@ == raw_path@ + "|"@ + request_path(resolved@, model@),
{
    let sent = passed_body(body, model);
    post_exchange(raw_path, resolved, model, &sent, base_url, joined, api_key)
}

/// A request that is sent as a form.
pub struct FormPost {
    pub url: String,
    pub headers: Vec<(String, String)>,
    pub parts: Vec<EditPart>,
    /// The name under which the request is logged.
    pub endpoint: String,
}

/// Makes the request for an image as a form: so it is sent where the client
/// sent one. `got` holds what was downloaded.
pub fn form_exchange(
    raw_path: &str,
    resolved: &ResolvedForward,
    model: &str,
    upstream_body: &Json,
    got: &Vec<Fetched>,
    base_url: &str,
    joined: &str,
    api_key: &str,
) -> (r: FormPost)
    ensures
        r.url@ == upstream_url(base_url@, resolved@, joined@, api_key@),
        are_headers_of(header_views(r.headers@), resolved@, api_key@),
        part_views(r.parts@) == edit_parts(upstream_body@, fetched_views(got@)),
        r.endpoint@ == raw_path@ + "|"@ + request_path(resolved@, model@),
{
    FormPost {
        url: build_upstream_url(base_url, resolved, joined, api_key),
        headers: key_headers(resolved, api_key),
        parts: build_edits_multipart(upstream_body, got),
        endpoint: endpoint(raw_path, resolved, model),
    }
}

/// What is passed through changes nothing but the model, and the wish for a
/// stream where there is one.
pub proof fn law_passed_through(body: Jv, model: Seq<char>, streamed: bool, key: Seq<char>)
    requires
        body is Obj,
    ensures
        response_body(body, model, streamed).member("model"@) == Some(Jv::Str(model)),
        key != "model"@ && key != "stream"@ ==> response_body(body, model, streamed).member(key)
            == body.member(key),
        !streamed && key != "model"@ ==> response_body(body, model, streamed).member(key)
            == body.member(key),
        streamed ==> response_body(body, model, streamed).member("stream"@) == Some(
            Jv::Bool(true),
        ),
{
    reveal_strlit("model");
    reveal_strlit("stream");
    assert("model"@.len() != "stream"@.len());
}

} // verus!
