//! Chat responses and stream chunks in the OpenAI form.
use vstd::prelude::*;
use vstd::string::*;
use crate::clock::{fresh_id, now_seconds};
use crate::json::{
    int_or, items_at, json_text, member_of, opt_string, opt_text, opt_view, parsed_json, single,
    text_at, text_in, text_or, views, Json, Jv,
};
use crate::text::{same, skip, starts_with};
use crate::usage::UsageTokens;

verus! {

/// A fresh id and the time of a chunk.
pub struct Stamp {
    pub id: String,
    pub created: i64,
}

/// Takes a fresh id and the present time. Nothing is claimed of them.
fn stamp() -> (r: Stamp) {
    Stamp { id: fresh_id(), created: now_seconds() }
}

// ---------------------------------------------------------------- stream chunks

/// The head of a chunk.
pub open spec fn chunk_head(id: Seq<char>, created: int, model: Seq<char>) -> Jv {
    single("id"@, Jv::Str(id)).with("object"@, Jv::Str("chat.completion.chunk"@)).with(
        "created"@,
        Jv::Int(created),
    ).with("model"@, Jv::Str(model))
}

/// A chunk that carries a text.
pub open spec fn text_chunk(text: Seq<char>, model: Seq<char>, id: Seq<char>, created: int) -> Jv {
    let delta = single("role"@, Jv::Str("assistant"@)).with("content"@, Jv::Str(text));
    let choice = single("index"@, Jv::Int(0)).with("delta"@, delta).with(
        "finish_reason"@,
        Jv::Null,
    );
    chunk_head(id, created, model).with("choices"@, Jv::Arr(seq![choice]))
}

fn make_chunk_head(id: &str, created: i64, model: &str) -> (r: Json)
    ensures
        r@ == chunk_head(id@, created as int, model@),
        r@ is Obj,
{
    Json::empty().with("id", Json::text(id)).with("object", Json::text("chat.completion.chunk")).with(
        "created",
        Json::number(created),
    ).with("model", Json::text(model))
}

fn array_of(item: Json) -> (r: Json)
    ensures
        r@ == Jv::Arr(seq![item@]),
{
    let mut a: Vec<Json> = Vec::new();
    a.push(item);
    assert(views(a@) =~= seq![item@]);
    Json::arr(a)
}

/// Makes a chunk that carries a text.
pub fn create_openai_chunk(text: &str, model: &str, at: &Stamp) -> (r: Json)
    ensures
        r@ == text_chunk(text@, model@, at.id@, at.created as int),
{
    let delta = Json::empty().with("role", Json::text("assistant")).with(
        "content",
        Json::text(text),
    );
    let choice = Json::empty().with("index", Json::number(0)).with("delta", delta).with(
        "finish_reason",
        Json::Null,
    );
    make_chunk_head(at.id.as_str(), at.created, model).with("choices", array_of(choice))
}

/// The chunk of an Anthropic event: the text that a content block gains.
pub open spec fn anthropic_chunk(
    event: Option<Jv>,
    model: Seq<char>,
    id: Seq<char>,
    created: int,
) -> Option<Seq<char>> {
    match event {
        Some(v) => if text_at(v, "type"@) == Some("content_block_delta"@) {
            match text_in(member_of(v.member("delta"@), "text"@)) {
                Some(t) => Some(json_text(text_chunk(t, model, id, created))),
                None => None,
            }
        } else {
            None
        },
        None => None,
    }
}

/// Makes the chunk of an Anthropic event.
pub fn anthropic_chunk_of(event: &Option<Json>, model: &str, at: &Stamp) -> (r: Option<String>)
    ensures
        opt_string(r) == anthropic_chunk(
            match *event {
                Some(v) => Some(v@),
                None => None,
            },
            model@,
            at.id@,
            at.created as int,
        ),
{
    match event {
        Some(v) => {
            let delta = match v.get_str("type") {
                Some(t) => same(t, "content_block_delta"),
                None => false,
            };
            if !delta {
                return None;
            }
            let text = match v.get("delta") {
                Some(d) => d.get_str("text"),
                None => None,
            };
            match text {
                Some(t) => Some(create_openai_chunk(t, model, at).to_text()),
                None => None,
            }
        },
        None => None,
    }
}

/// A value found step by step; nothing where a step is missing.
pub open spec fn element_in(o: Option<Jv>, i: int) -> Option<Jv> {
    match o {
        Some(v) => v.element(i),
        None => None,
    }
}

/// The first candidate of a Gemini response.
pub open spec fn first_candidate(v: Jv) -> Option<Jv> {
    element_in(v.member("candidates"@), 0)
}

/// The text of the first part of the first candidate.
pub open spec fn candidate_text(v: Jv) -> Option<Seq<char>> {
    text_in(
        member_of(
            element_in(member_of(member_of(first_candidate(v), "content"@), "parts"@), 0),
            "text"@,
        ),
    )
}

fn get_first_candidate(v: &Json) -> (r: Option<&Json>)
    ensures
        opt_view(r) == first_candidate(v@),
{
    match v.get("candidates") {
        Some(c) => c.get_index(0),
        None => None,
    }
}

fn get_candidate_text(v: &Json) -> (r: Option<&str>)
    ensures
        opt_text(r) == candidate_text(v@),
{
    match get_first_candidate(v) {
        Some(c) => match c.get("content") {
            Some(content) => match content.get("parts") {
                Some(parts) => match parts.get_index(0) {
                    Some(p) => p.get_str("text"),
                    None => None,
                },
                None => None,
            },
            None => None,
        },
        None => None,
    }
}

/// The usage of a Gemini response in the OpenAI form.
pub open spec fn gemini_usage(meta: Jv) -> Jv {
    let prompt = int_or(meta, "promptTokenCount"@, 0);
    let total = int_or(meta, "totalTokenCount"@, 0);
    let cached = int_or(meta, "cachedContentTokenCount"@, 0);
    let completion = if total > prompt {
        total - prompt
    } else {
        0
    };
    let a = single("prompt_tokens"@, Jv::Int(prompt)).with(
        "completion_tokens"@,
        Jv::Int(completion),
    ).with("total_tokens"@, Jv::Int(total));
    if cached > 0 {
        a.with("prompt_tokens_details"@, single("cached_tokens"@, Jv::Int(cached)))
    } else {
        a
    }
}

/// A chunk that carries the usage.
pub open spec fn usage_chunk(usage: Jv, model: Seq<char>, id: Seq<char>, created: int) -> Jv {
    chunk_head(id, created, model).with("choices"@, Jv::Arr(Seq::empty())).with("usage"@, usage)
}

/// The chunks of a Gemini event: its text, then its usage, as far as it has them.
pub open spec fn gemini_chunks(
    event: Option<Jv>,
    model: Seq<char>,
    id1: Seq<char>,
    created1: int,
    id2: Seq<char>,
    created2: int,
) -> Option<Seq<char>> {
    match event {
        Some(v) => {
            let text = match candidate_text(v) {
                Some(t) => Some(json_text(text_chunk(t, model, id1, created1))),
                None => None,
            };
            let usage = match v.member("usageMetadata"@) {
                Some(meta) => Some(
                    json_text(usage_chunk(gemini_usage(meta), model, id2, created2)),
                ),
                None => None,
            };
            match (text, usage) {
                (Some(t), Some(u)) => Some(t + "\n\ndata: "@ + u),
                (Some(t), None) => Some(t),
                (None, Some(u)) => Some(u),
                (None, None) => None,
            }
        },
        None => None,
    }
}

fn make_gemini_usage(meta: &Json) -> (r: Json)
    ensures
        r@ == gemini_usage(meta@),
{
    let prompt: i64 = meta.get_i64_or("promptTokenCount", 0);
    let total: i64 = meta.get_i64_or("totalTokenCount", 0);
    let cached: i64 = meta.get_i64_or("cachedContentTokenCount", 0);
    let completion: i128 = if total > prompt {
        total as i128 - prompt as i128
    } else {
        0
    };
    let mut usage = Json::empty().with("prompt_tokens", Json::number(prompt)).with(
        "completion_tokens",
        Json::Int(completion),
    ).with("total_tokens", Json::number(total));
    if cached > 0 {
        usage.set(
            "prompt_tokens_details",
            Json::empty().with("cached_tokens", Json::number(cached)),
        );
    }
    usage
}

/// Makes the chunks of a Gemini event.
pub fn gemini_chunks_of(event: &Option<Json>, model: &str, first: &Stamp, second: &Stamp) -> (r:
    Option<String>)
    ensures
        opt_string(r) == gemini_chunks(
            match *event {
                Some(v) => Some(v@),
                None => None,
            },
            model@,
            first.id@,
            first.created as int,
            second.id@,
            second.created as int,
        ),
{
    match event {
        Some(v) => {
            let text = match get_candidate_text(v) {
                Some(t) => Some(create_openai_chunk(t, model, first).to_text()),
                None => None,
            };
            let usage = match v.get("usageMetadata") {
                Some(meta) => {
                    let none: Vec<Json> = Vec::new();
                    proof {
                        assert(views(none@) =~= Seq::<Jv>::empty());
                    }
                    let chunk = make_chunk_head(second.id.as_str(), second.created, model).with(
                        "choices",
                        Json::arr(none),
                    ).with("usage", make_gemini_usage(meta));
                    Some(chunk.to_text())
                },
                None => None,
            };
            match text {
                Some(t) => {
                    let mut out = t;
                    match usage {
                        Some(u) => {
                            out.append("\n\ndata: ");
                            out.append(u.as_str());
                        },
                        None => {},
                    }
                    Some(out)
                },
                None => usage,
            }
        },
        None => None,
    }
}

/// The data of a stream line, where it carries any.
pub open spec fn line_data(line: Seq<char>) -> Option<Seq<char>> {
    if "data: "@.is_prefix_of(line) && line.skip(6) != "[DONE]"@ {
        Some(line.skip(6))
    } else {
        None
    }
}

/// A stream line in the OpenAI form.
pub open spec fn openai_line(
    target: Seq<char>,
    line: Seq<char>,
    model: Seq<char>,
    id1: Seq<char>,
    created1: int,
    id2: Seq<char>,
    created2: int,
) -> Option<Seq<char>> {
    match line_data(line) {
        Some(data) => if target == "anthropic"@ {
            anthropic_chunk(parsed_json(data), model, id1, created1)
        } else if target == "gemini"@ {
            gemini_chunks(parsed_json(data), model, id1, created1, id2, created2)
        } else {
            Some(data)
        },
        None => None,
    }
}

/// Puts a stream line into the OpenAI form, with given ids and times.
pub fn sse_line_at(target_type: &str, line: &str, model: &str, first: &Stamp, second: &Stamp) -> (r:
    Option<String>)
    ensures
        opt_string(r) == openai_line(
            target_type@,
            line@,
            model@,
            first.id@,
            first.created as int,
            second.id@,
            second.created as int,
        ),
{
    proof {
        reveal_strlit("data: ");
    }
    if !starts_with(line, "data: ") {
        return None;
    }
    let data = skip(line, 6);
    if same(data, "[DONE]") {
        return None;
    }
    if same(target_type, "anthropic") {
        let event = Json::parse(data);
        anthropic_chunk_of(&event, model, first)
    } else if same(target_type, "gemini") {
        let event = Json::parse(data);
        gemini_chunks_of(&event, model, first, second)
    } else {
        Some(data.to_owned())
    }
}

/// Puts a stream line into the OpenAI form. A line without data, or with the
/// end mark, gives nothing; lines of other targets pass as they are.
pub fn transform_sse_line(target_type: &str, line: &str, model: &str) -> (r: Option<String>)
    ensures
        exists|first: Stamp, second: Stamp|
            opt_string(r) == #[trigger] openai_line(
                target_type@,
                line@,
                model@,
                first.id@,
                first.created as int,
                second.id@,
                second.created as int,
            ),
        line_data(line@) is None ==> r is None,
        target_type@ != "anthropic"@ && target_type@ != "gemini"@ ==> opt_string(r) == line_data(
            line@,
        ),
{
    let first = stamp();
    let second = stamp();
    let r = sse_line_at(target_type, line, model, &first, &second);
    assert(opt_string(r) == openai_line(
        target_type@,
        line@,
        model@,
        first.id@,
        first.created as int,
        second.id@,
        second.created as int,
    ));
    r
}

// ---------------------------------------------------------------- whole responses

/// A whole chat response.
pub open spec fn completion(
    id: Seq<char>,
    created: int,
    model: Seq<char>,
    content: Seq<char>,
    finish: Seq<char>,
    usage: Jv,
) -> Jv {
    let message = single("role"@, Jv::Str("assistant"@)).with("content"@, Jv::Str(content));
    let choice = single("index"@, Jv::Int(0)).with("message"@, message).with(
        "finish_reason"@,
        Jv::Str(finish),
    );
    single("id"@, Jv::Str(id)).with("object"@, Jv::Str("chat.completion"@)).with(
        "created"@,
        Jv::Int(created),
    ).with("model"@, Jv::Str(model)).with("choices"@, Jv::Arr(seq![choice])).with("usage"@, usage)
}

fn make_completion(
    id: &str,
    created: i64,
    model: &str,
    content: &str,
    finish: &str,
    usage: Json,
) -> (r: Json)
    ensures
        r@ == completion(id@, created as int, model@, content@, finish@, usage@),
{
    let message = Json::empty().with("role", Json::text("assistant")).with(
        "content",
        Json::text(content),
    );
    let choice = Json::empty().with("index", Json::number(0)).with("message", message).with(
        "finish_reason",
        Json::text(finish),
    );
    Json::empty().with("id", Json::text(id)).with("object", Json::text("chat.completion")).with(
        "created",
        Json::number(created),
    ).with("model", Json::text(model)).with("choices", array_of(choice)).with("usage", usage)
}

/// The three counts that every usage has.
pub open spec fn basic_usage(u: UsageTokens) -> Jv {
    single("prompt_tokens"@, Jv::Int(u.prompt as int)).with(
        "completion_tokens"@,
        Jv::Int(u.completion as int),
    ).with("total_tokens"@, Jv::Int(u.total as int))
}

fn make_basic_usage(u: &UsageTokens) -> (r: Json)
    ensures
        r@ == basic_usage(*u),
        r@ is Obj,
{
    Json::empty().with("prompt_tokens", Json::number(u.prompt as i64)).with(
        "completion_tokens",
        Json::number(u.completion as i64),
    ).with("total_tokens", Json::number(u.total as i64))
}

/// The first text block of an Anthropic response.
pub open spec fn first_text_block(items: Seq<Jv>) -> Seq<char>
    decreases items.len(),
{
    if items.len() == 0 {
        ""@
    } else if text_at(items[0], "type"@) == Some("text"@) {
        text_or(items[0], "text"@, ""@)
    } else {
        first_text_block(items.drop_first())
    }
}

fn find_text_block(items: &Vec<Json>) -> (r: String)
    ensures
        r@ == first_text_block(views(items@)),
{
    let ghost all = views(items@);
    let mut i: usize = 0;
    proof {
        assert(all.skip(0) =~= all);
    }
    while i < items.len()
        invariant
            i <= items@.len(),
            all == views(items@),
            first_text_block(all) == first_text_block(all.skip(i as int)),
        decreases items@.len() - i,
    {
        proof {
            assert(all.skip(i as int).drop_first() =~= all.skip(i + 1));
            assert(all.skip(i as int)[0] == items@[i as int]@);
        }
        let block = match items[i].get_str("type") {
            Some(t) => same(t, "text"),
            None => false,
        };
        if block {
            return items[i].get_str_or("text", "").to_owned();
        }
        i += 1;
    }
    "".to_owned()
}

/// The usage of an Anthropic response in the OpenAI form.
pub open spec fn anthropic_usage(v: Jv, u: UsageTokens) -> Jv {
    let a = basic_usage(u).with(
        "cache_creation"@,
        match member_of(v.member("usage"@), "cache_creation"@) {
            Some(c) => c,
            None => Jv::Null,
        },
    );
    if u.cached > 0 || u.cache_creation > 0 {
        a.with(
            "prompt_tokens_details"@,
            single("cached_tokens"@, Jv::Int(u.cached as int)).with(
                "cache_creation_tokens"@,
                Jv::Int(u.cache_creation as int),
            ),
        )
    } else {
        a
    }
}

/// An Anthropic response in the OpenAI form.
pub open spec fn anthropic_completion(
    v: Jv,
    model: Seq<char>,
    u: UsageTokens,
    created: int,
) -> Jv {
    completion(
        text_or(v, "id"@, ""@),
        created,
        model,
        match items_at(v, "content"@) {
            Some(a) => first_text_block(a),
            None => ""@,
        },
        "stop"@,
        anthropic_usage(v, u),
    )
}

/// Puts an Anthropic response into the OpenAI form.
pub fn make_anthropic_completion(v: &Json, model: &str, u: &UsageTokens, created: i64) -> (r: Json)
    ensures
        r@ == anthropic_completion(v@, model@, *u, created as int),
{
    let content = match v.get_array("content") {
        Some(a) => find_text_block(a),
        None => "".to_owned(),
    };
    let creation = match v.get("usage") {
        Some(usage) => usage.copy_at("cache_creation"),
        None => Json::Null,
    };
    let mut usage = make_basic_usage(u).with("cache_creation", creation);
    if u.cached > 0 || u.cache_creation > 0 {
        usage.set(
            "prompt_tokens_details",
            Json::empty().with("cached_tokens", Json::number(u.cached as i64)).with(
                "cache_creation_tokens",
                Json::number(u.cache_creation as i64),
            ),
        );
    }
    make_completion(v.get_str_or("id", ""), created, model, content.as_str(), "stop", usage)
}

/// The usage of a whole Gemini response in the OpenAI form.
pub open spec fn gemini_response_usage(u: UsageTokens) -> Jv {
    if u.cached > 0 {
        basic_usage(u).with(
            "prompt_tokens_details"@,
            single("cached_tokens"@, Jv::Int(u.cached as int)),
        )
    } else {
        basic_usage(u)
    }
}

/// A Gemini response in the OpenAI form.
pub open spec fn gemini_completion(
    v: Jv,
    model: Seq<char>,
    u: UsageTokens,
    id: Seq<char>,
    created: int,
) -> Jv {
    completion(
        id,
        created,
        model,
        match candidate_text(v) {
            Some(t) => t,
            None => ""@,
        },
        match text_in(member_of(first_candidate(v), "finishReason"@)) {
            Some(f) => f,
            None => "stop"@,
        },
        gemini_response_usage(u),
    )
}

/// Puts a Gemini response into the OpenAI form.
pub fn make_gemini_completion(v: &Json, model: &str, u: &UsageTokens, at: &Stamp) -> (r: Json)
    ensures
        r@ == gemini_completion(v@, model@, *u, at.id@, at.created as int),
{
    let content = match get_candidate_text(v) {
        Some(t) => t,
        None => "",
    };
    let finish = match get_first_candidate(v) {
        Some(c) => c.get_str_or("finishReason", "stop"),
        None => "stop",
    };
    let mut usage = make_basic_usage(u);
    if u.cached > 0 {
        usage.set(
            "prompt_tokens_details",
            Json::empty().with("cached_tokens", Json::number(u.cached as i64)),
        );
    }
    make_completion(at.id.as_str(), at.created, model, content, finish, usage)
}

/// A chat response in the OpenAI form: those of Anthropic (also where only its
/// form shows it) and of Gemini are put into it; one that is no JSON, or has
/// that form already, passes as it is.
pub open spec fn openai_response(
    response: Seq<char>,
    parsed: Option<Jv>,
    target: Seq<char>,
    model: Seq<char>,
    u: UsageTokens,
    id: Seq<char>,
    created: int,
) -> Seq<char> {
    match parsed {
        Some(v) => if target == "anthropic"@ {
            json_text(anthropic_completion(v, model, u, created))
        } else if target == "gemini"@ || target == "gemini_image"@ {
            json_text(gemini_completion(v, model, u, id, created))
        } else if text_at(v, "type"@) == Some("message"@) {
            json_text(anthropic_completion(v, model, u, created))
        } else {
            response
        },
        None => response,
    }
}

/// Puts a chat response into the OpenAI form, given the response as JSON.
pub fn chat_response_at(
    response: &str,
    parsed: &Option<Json>,
    target_type: &str,
    model: &str,
    usage: &UsageTokens,
    at: &Stamp,
) -> (r: String)
    ensures
        r@ == openai_response(
            response@,
            match *parsed {
                Some(v) => Some(v@),
                None => None,
            },
            target_type@,
            model@,
            *usage,
            at.id@,
            at.created as int,
        ),
{
    match parsed {
        Some(v) => {
            if same(target_type, "anthropic") {
                make_anthropic_completion(v, model, usage, at.created).to_text()
            } else if same(target_type, "gemini") || same(target_type, "gemini_image") {
                make_gemini_completion(v, model, usage, at).to_text()
            } else {
                let message = match v.get_str("type") {
                    Some(t) => same(t, "message"),
                    None => false,
                };
                if message {
                    make_anthropic_completion(v, model, usage, at.created).to_text()
                } else {
                    response.to_owned()
                }
            }
        },
        None => response.to_owned(),
    }
}

/// Puts a chat response into the OpenAI form; `usage` is what the response
/// says of its tokens.
pub fn transform_chat_response(
    response: &str,
    target_type: &str,
    model: &str,
    usage: &UsageTokens,
) -> (r: String)
    ensures
        exists|at: Stamp|
            r@ == #[trigger] openai_response(
                response@,
                parsed_json(response@),
                target_type@,
                model@,
                *usage,
                at.id@,
                at.created as int,
            ),
        parsed_json(response@) is None ==> r@ == response@,
{
    let at = stamp();
    let parsed = Json::parse(response);
    let r = chat_response_at(response, &parsed, target_type, model, usage, &at);
    assert(r@ == openai_response(
        response@,
        parsed_json(response@),
        target_type@,
        model@,
        *usage,
        at.id@,
        at.created as int,
    ));
    r
}

} // verus!
