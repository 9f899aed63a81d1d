//! The body that goes upstream: an OpenAI request in the form of the target
//! protocol.
use vstd::prelude::*;
use vstd::string::*;
use crate::bill::BillingRule;
use crate::content::{
    atp_video_body, build_atp_video_body, build_minimax_image_body, build_minimax_video_body,
    build_volcengine_video_body, minimax_image_body, minimax_video_body, volcengine_video_body,
};
use crate::dashscope::{
    build_dashscope_image_body, build_dashscope_video_body, dashscope_image_body,
    dashscope_video_body, with_default, with_model,
};
use crate::forward::{ForwardModel, Plugins, ResolvedForward};
use crate::jimeng::{
    build_bytefor_video_body, build_jimeng_image_body, build_jimeng_video_body,
    build_volcengine_media_enhance_body, bytefor_video_body, jimeng_image_body, jimeng_video_body,
    media_enhance_body,
};
use crate::json::{
    carry, carry_all, filled_text_at, flag_or, int_at, int_or, items_in, json_text, list2,
    names, no_members, set_text, single, string_array, tagged, tagged_array, text_array, text_at,
    text_or, texts, views, with_text, Json, Jv,
};
use crate::kling::{build_kling_body, build_kling_v3_body, kling_body, kling_v3_body};
use crate::media::{
    collect_image_urls, fetched_views, image_urls, resolve_image, resolved_image, Fetched,
};
use crate::ratio::StandardRatio;
use crate::tencent::{
    add_addresses, build_tencent_vod_image_body, build_tencent_vod_video_body, push_all,
    tencent_image_body, tencent_video_body,
};
use crate::text::{contains, ends_with, holds, small_letters, same, to_lowercase, trim, trimmed};

verus! {

// ---------------------------------------------------------------- Volcengine images

/// The images of a request under one key: one as a text, several as an array.
pub open spec fn with_images(r: Jv, urls: Seq<Seq<char>>) -> Jv {
    if urls.len() == 0 {
        r
    } else if urls.len() == 1 {
        r.with("image"@, Jv::Str(urls[0]))
    } else {
        r.with("image"@, text_array(urls))
    }
}

/// The body of a Volcengine image request: the resolution is the size where
/// there is none, and several images are asked for as a sequence.
pub open spec fn volcengine_image_body(model: Seq<char>, body: Jv) -> Jv {
    let a = with_model(body, model);
    let b = if a.member("size"@) is None {
        a.with(
            "size"@,
            Jv::Str(
                match filled_text_at(a, "resolution"@) {
                    Some(r) => r,
                    None => "2k"@,
                },
            ),
        )
    } else {
        a
    };
    let c = b.without("resolution"@).without("image"@).without("image_urls"@);
    let d = with_images(c, image_urls(body, seq!["image"@, "image_urls"@]));
    let n = int_or(body, "n"@, 1);
    let e = if n > 1 {
        d.with("sequential_image_generation"@, Jv::Str("auto"@)).with(
            "sequential_image_generation_options"@,
            single("max_images"@, Jv::Int(n)),
        )
    } else {
        d
    };
    e.without("n"@)
}

/// Builds the body of a Volcengine image request.
pub fn build_volcengine_image_body(model: &str, body: &Json) -> (r: Json)
    requires
        body@.assignable(),
    ensures
        r@ == volcengine_image_body(model@, body@),
        r@ is Obj,
{
    let mut fwd = body.dup();
    fwd.set("model", Json::text(model));
    if !fwd.has("size") {
        let size = match fwd.get_filled_str("resolution") {
            Some(r) => r.to_owned(),
            None => "2k".to_owned(),
        };
        fwd.set("size", Json::text(size.as_str()));
    }
    fwd.del("resolution");
    let fields = list2("image", "image_urls");
    let urls = collect_image_urls(body, &fields);
    fwd.del("image");
    fwd.del("image_urls");
    if urls.len() == 1 {
        assert(texts(urls@)[0] == urls@[0]@);
        fwd.set("image", Json::text(urls[0].as_str()));
    } else if urls.len() > 1 {
        fwd.set("image", string_array(&urls));
    }
    let n: i64 = body.get_i64_or("n", 1);
    if n > 1 {
        fwd.set("sequential_image_generation", Json::text("auto"));
        fwd.set(
            "sequential_image_generation_options",
            Json::empty().with("max_images", Json::number(n)),
        );
    }
    fwd.del("n");
    fwd
}

/// The images of a GPT image request: those of all its fields, each once.
pub open spec fn gpt_images(body: Jv) -> Seq<Seq<char>> {
    let a = push_all(Seq::empty(), image_urls(body, seq!["image"@]));
    let b = push_all(a, image_urls(body, seq!["image_urls"@]));
    let c = push_all(b, image_urls(body, seq!["images"@]));
    push_all(c, image_urls(body, seq!["image[]"@]))
}

/// The body of a GPT image request: its images in one array.
pub open spec fn gpt_image_body(model: Seq<char>, body: Jv) -> Jv {
    let urls = gpt_images(body);
    let a = with_model(body, model).without("image"@).without("images"@).without(
        "image_urls"@,
    ).without("image[]"@);
    if urls.len() > 0 {
        a.with("images"@, tagged(urls, "image_url"@))
    } else {
        a
    }
}

/// Builds the body of a GPT image request.
pub fn build_gpt_image_body(model: &str, body: &Json) -> (r: Json)
    requires
        body@.assignable(),
    ensures
        r@ == gpt_image_body(model@, body@),
        r@ is Obj,
{
    let mut fwd = body.dup();
    fwd.set("model", Json::text(model));
    let mut urls: Vec<String> = Vec::new();
    assert(texts(urls@) =~= Seq::<Seq<char>>::empty());
    add_addresses(&mut urls, body, "image");
    add_addresses(&mut urls, body, "image_urls");
    add_addresses(&mut urls, body, "images");
    add_addresses(&mut urls, body, "image[]");
    fwd.del("image");
    fwd.del("images");
    fwd.del("image_urls");
    fwd.del("image[]");
    if urls.len() > 0 {
        fwd.set("images", tagged_array(&urls, "image_url"));
    }
    fwd
}

// ---------------------------------------------------------------- Gemini

/// The image settings: the ratio, or a size with a colon in it; the
/// resolution, or any other size, "1k" where there is none.
pub open spec fn gemini_image_config(body: Jv) -> Jv {
    let size = text_or(body, "size"@, ""@);
    let is_ratio = holds(size, ":"@);
    let a = with_text(
        no_members(),
        "aspectRatio"@,
        match text_at(body, "ratio"@) {
            Some(r) => Some(r),
            None => if is_ratio {
                Some(size)
            } else {
                None
            },
        },
    );
    a.with(
        "imageSize"@,
        Jv::Str(
            match text_at(body, "resolution"@) {
                Some(r) => r,
                None => if !is_ratio && size.len() > 0 {
                    size
                } else {
                    "1k"@
                },
            },
        ),
    )
}

/// The generation settings of an image request.
pub open spec fn gemini_generation(body: Jv) -> Jv {
    let a = single("responseModalities"@, Jv::Arr(seq![Jv::Str("IMAGE"@)]));
    let b = match int_at(body, "n"@) {
        Some(n) => if n > 1 {
            a.with("candidateCount"@, Jv::Int(n))
        } else {
            a
        },
        None => a,
    };
    b.with("imageConfig"@, gemini_image_config(body))
}

/// The images that could be resolved, as parts.
pub open spec fn inline_parts(
    urls: Seq<Seq<char>>,
    got: Seq<(Seq<char>, Option<Jv>)>,
) -> Seq<Jv>
    decreases urls.len(),
{
    if urls.len() == 0 {
        Seq::empty()
    } else {
        let done = inline_parts(urls.drop_last(), got);
        match resolved_image(urls.last(), got) {
            Some(v) => done.push(single("inline_data"@, v)),
            None => done,
        }
    }
}

/// The switch that turns search on.
pub open spec fn search_tools() -> Jv {
    Jv::Arr(seq![single("google_search"@, no_members())])
}

/// The body of a Gemini image request: the prompt, then the images.
pub open spec fn gemini_image_body(body: Jv, got: Seq<(Seq<char>, Option<Jv>)>) -> Jv {
    let parts = seq![single("text"@, Jv::Str(text_or(body, "prompt"@, "Generate an image"@)))]
        + inline_parts(image_urls(body, seq!["image"@, "image_urls"@]), got);
    let a = single(
        "contents"@,
        Jv::Arr(seq![single("parts"@, Jv::Arr(parts)).with("role"@, Jv::Str("user"@))]),
    ).with("generationConfig"@, gemini_generation(body));
    if flag_or(body, "google_search"@, false) || flag_or(body, "google_image_search"@, false) {
        a.with("tools"@, search_tools())
    } else {
        a
    }
}

/// The reference images of a Gemini image request, which have to be resolved
/// before its body is built.
pub fn gemini_reference_urls(body: &Json) -> (r: Vec<String>)
    ensures
        texts(r@) == image_urls(body@, seq!["image"@, "image_urls"@]),
{
    let fields = list2("image", "image_urls");
    collect_image_urls(body, &fields)
}

/// The images that have to be resolved before a request is put into the form
/// of its target: those of Gemini images alone.
pub fn reference_urls(resolved: &ResolvedForward, body: &Json) -> (r: Vec<String>)
    ensures
        texts(r@) == if resolved.target_type@ == "gemini_image"@ {
            image_urls(body@, seq!["image"@, "image_urls"@])
        } else {
            Seq::empty()
        },
{
    if same(resolved.target_type.as_str(), "gemini_image") {
        gemini_reference_urls(body)
    } else {
        let none: Vec<String> = Vec::new();
        assert(texts(none@) =~= Seq::empty());
        none
    }
}

/// Whether a model is billed by tokens.
pub fn is_token_billing(rule: Option<&BillingRule>) -> (r: bool)
    ensures
        r == (rule is Some && rule->Some_0.billing_type@ == "tokens"@),
{
    match rule {
        Some(b) => same(b.billing_type.as_str(), "tokens"),
        None => false,
    }
}

fn make_search_tools() -> (r: Json)
    ensures
        r@ == search_tools(),
{
    let mut tools: Vec<Json> = Vec::new();
    tools.push(Json::empty().with("google_search", Json::empty()));
    assert(views(tools@) =~= seq![single("google_search"@, no_members())]);
    Json::arr(tools)
}

fn make_gemini_generation(body: &Json) -> (r: Json)
    ensures
        r@ == gemini_generation(body@),
{
    let mut modes: Vec<Json> = Vec::new();
    modes.push(Json::text("IMAGE"));
    assert(views(modes@) =~= seq![Jv::Str("IMAGE"@)]);
    let mut gen = Json::empty().with("responseModalities", Json::arr(modes));
    match body.get_i64("n") {
        Some(n) => {
            if n > 1 {
                gen.set("candidateCount", Json::number(n));
            }
        },
        None => {},
    }
    let size = body.get_str_or("size", "");
    let is_ratio = contains(size, ":");
    let mut cfg = Json::empty();
    let ratio = match body.get_str("ratio") {
        Some(r) => Some(r),
        None => if is_ratio {
            Some(size)
        } else {
            None
        },
    };
    set_text(&mut cfg, "aspectRatio", ratio);
    let image_size = match body.get_str("resolution") {
        Some(r) => r,
        None => if !is_ratio && !size.is_empty() {
            size
        } else {
            "1k"
        },
    };
    cfg.set("imageSize", Json::text(image_size));
    gen.set("imageConfig", cfg);
    gen
}

/// Builds the body of a Gemini image request, given what was downloaded.
pub fn build_gemini_image_body(body: &Json, got: &Vec<Fetched>) -> (r: Json)
    ensures
        r@ == gemini_image_body(body@, fetched_views(got@)),
        r@ is Obj,
{
    let urls = gemini_reference_urls(body);
    let ghost all = texts(urls@);
    let ghost g = fetched_views(got@);
    let mut parts: Vec<Json> = Vec::new();
    let text = Json::empty().with(
        "text",
        Json::text(body.get_str_or("prompt", "Generate an image")),
    );
    parts.push(text);
    let ghost head = seq![text@];
    let mut i: usize = 0;
    proof {
        assert(all.take(0) =~= Seq::<Seq<char>>::empty());
        assert(views(parts@) =~= head + Seq::<Jv>::empty());
    }
    while i < urls.len()
        invariant
            i <= urls@.len(),
            all == texts(urls@),
            g == fetched_views(got@),
            views(parts@) == head + inline_parts(all.take(i as int), g),
        decreases urls@.len() - i,
    {
        proof {
            assert(all.take(i + 1).drop_last() =~= all.take(i as int));
            assert(all.take(i + 1).last() == urls@[i as int]@);
        }
        match resolve_image(urls[i].as_str(), got) {
            Some(v) => {
                let ghost before = parts@;
                let part = Json::empty().with("inline_data", v);
                parts.push(part);
                proof {
                    assert(views(parts@) =~= views(before).push(part@));
                    assert(head + inline_parts(all.take(i as int), g).push(part@) =~= (head
                        + inline_parts(all.take(i as int), g)).push(part@));
                }
            },
            None => {},
        }
        i += 1;
    }
    proof {
        assert(all.take(i as int) =~= all);
    }
    let message = Json::empty().with("parts", Json::arr(parts)).with("role", Json::text("user"));
    let mut contents: Vec<Json> = Vec::new();
    contents.push(message);
    assert(views(contents@) =~= seq![message@]);
    let mut result = Json::empty().with("contents", Json::arr(contents)).with(
        "generationConfig",
        make_gemini_generation(body),
    );
    if body.get_bool_or("google_search", false) || body.get_bool_or("google_image_search", false) {
        result.set("tools", make_search_tools());
    }
    result
}

/// The text of a message: its content, or the JSON text of what else it holds.
pub open spec fn message_text(msg: Jv) -> Option<Seq<char>> {
    match msg.at("content"@) {
        Jv::Str(s) => Some(s),
        Jv::Null => None,
        v => Some(json_text(v)),
    }
}

/// The role of a message.
pub open spec fn message_role(msg: Jv) -> Seq<char> {
    text_or(msg, "role"@, "user"@)
}

/// A text as the parts of a Gemini message.
pub open spec fn text_parts(text: Seq<char>) -> Jv {
    Jv::Arr(seq![single("text"@, Jv::Str(text))])
}

/// The messages of a chat that are no system messages and hold a text.
pub open spec fn gemini_contents(msgs: Seq<Jv>) -> Seq<Jv>
    decreases msgs.len(),
{
    if msgs.len() == 0 {
        Seq::empty()
    } else {
        let done = gemini_contents(msgs.drop_last());
        let msg = msgs.last();
        match message_text(msg) {
            Some(t) => if message_role(msg) == "system"@ {
                done
            } else {
                done.push(
                    single(
                        "role"@,
                        Jv::Str(
                            if message_role(msg) == "assistant"@ {
                                "model"@
                            } else {
                                "user"@
                            },
                        ),
                    ).with("parts"@, text_parts(t)),
                )
            },
            None => done,
        }
    }
}

/// The last system message that holds a text.
pub open spec fn gemini_system(msgs: Seq<Jv>) -> Option<Seq<char>>
    decreases msgs.len(),
{
    if msgs.len() == 0 {
        None
    } else if message_role(msgs.last()) == "system"@ && message_text(msgs.last()) is Some {
        message_text(msgs.last())
    } else {
        gemini_system(msgs.drop_last())
    }
}

/// The generation settings of a chat that has none of its own.
pub open spec fn gemini_chat_config(body: Jv) -> Jv {
    carry(
        carry(
            carry(no_members(), body, "temperature"@, "temperature"@),
            body,
            "top_p"@,
            "topP"@,
        ),
        body,
        "max_tokens"@,
        "maxOutputTokens"@,
    )
}

/// The body of a Gemini chat request.
pub open spec fn gemini_chat_body(body: Jv) -> Jv {
    let msgs = items_in(body.member("messages"@));
    let a = single("contents"@, Jv::Arr(gemini_contents(msgs)));
    let b = match gemini_system(msgs) {
        Some(t) => a.with("systemInstruction"@, single("parts"@, text_parts(t))),
        None => a,
    };
    let c = match body.member("generationConfig"@) {
        Some(gc) => b.with("generationConfig"@, gc),
        None => if gemini_chat_config(body) == no_members() {
            b
        } else {
            b.with("generationConfig"@, gemini_chat_config(body))
        },
    };
    carry(c, body, "stream_options"@, "stream_options"@)
}

fn read_message_text(msg: &Json) -> (r: Option<String>)
    ensures
        match r {
            Some(t) => message_text(msg@) == Some(t@),
            None => message_text(msg@) is None,
        },
{
    match msg.get("content") {
        Some(v) => match v {
            Json::Str(s) => Some(s.clone()),
            Json::Null => None,
            _ => Some(v.to_text()),
        },
        None => None,
    }
}

fn make_text_parts(text: &str) -> (r: Json)
    ensures
        r@ == text_parts(text@),
{
    let mut parts: Vec<Json> = Vec::new();
    parts.push(Json::empty().with("text", Json::text(text)));
    assert(views(parts@) =~= seq![single("text"@, Jv::Str(text@))]);
    Json::arr(parts)
}

/// Builds the body of a Gemini chat request.
pub fn build_gemini_chat_body(body: &Json) -> (r: Json)
    ensures
        r@ == gemini_chat_body(body@),
        r@ is Obj,
{
    let mut contents: Vec<Json> = Vec::new();
    let mut system: Option<String> = None;
    let none: Vec<Json> = Vec::new();
    let msgs = match body.get_array("messages") {
        Some(m) => m,
        None => &none,
    };
    let ghost all = views(msgs@);
    let mut i: usize = 0;
    proof {
        assert(views(none@) =~= Seq::<Jv>::empty());
        assert(all == items_in(body@.member("messages"@)));
        assert(all.take(0) =~= Seq::<Jv>::empty());
        assert(views(contents@) =~= Seq::<Jv>::empty());
    }
    while i < msgs.len()
        invariant
            i <= msgs@.len(),
            all == views(msgs@),
            views(contents@) == gemini_contents(all.take(i as int)),
            match system {
                Some(s) => gemini_system(all.take(i as int)) == Some(s@),
                None => gemini_system(all.take(i as int)) is None,
            },
        decreases msgs@.len() - i,
    {
        let msg = &msgs[i];
        proof {
            assert(all.take(i + 1).drop_last() =~= all.take(i as int));
            assert(all.take(i + 1).last() == msg@);
        }
        match read_message_text(msg) {
            Some(t) => {
                let role = msg.get_str_or("role", "user");
                if same(role, "system") {
                    system = Some(t);
                } else {
                    let name = if same(role, "assistant") {
                        "model"
                    } else {
                        "user"
                    };
                    let entry = Json::empty().with("role", Json::text(name)).with(
                        "parts",
                        make_text_parts(t.as_str()),
                    );
                    let ghost before = contents@;
                    contents.push(entry);
                    proof {
                        assert(views(contents@) =~= views(before).push(entry@));
                    }
                }
            },
            None => {},
        }
        i += 1;
    }
    proof {
        assert(all.take(i as int) =~= all);
    }
    let mut result = Json::empty().with("contents", Json::arr(contents));
    match &system {
        Some(t) => {
            result.set(
                "systemInstruction",
                Json::empty().with("parts", make_text_parts(t.as_str())),
            );
        },
        None => {},
    }
    match body.get("generationConfig") {
        Some(gc) => {
            result.set("generationConfig", gc.dup());
        },
        None => {
            let mut cfg = Json::empty();
            cfg.carry(body, "temperature", "temperature");
            cfg.carry(body, "top_p", "topP");
            cfg.carry(body, "max_tokens", "maxOutputTokens");
            let empty = match &cfg {
                Json::Obj(m) => m.is_empty(),
                _ => true,
            };
            if !empty {
                result.set("generationConfig", cfg);
            }
        },
    }
    result.carry(body, "stream_options", "stream_options");
    result
}

// ---------------------------------------------------------------- Anthropic

/// The messages of a chat that are no system messages.
pub open spec fn anthropic_messages(msgs: Seq<Jv>) -> Seq<Jv>
    decreases msgs.len(),
{
    if msgs.len() == 0 {
        Seq::empty()
    } else {
        let done = anthropic_messages(msgs.drop_last());
        let msg = msgs.last();
        if message_role(msg) == "system"@ {
            done
        } else {
            done.push(
                single("role"@, Jv::Str(message_role(msg))).with("content"@, msg.at("content"@)),
            )
        }
    }
}

/// What the last system message holds, where it is not null.
pub open spec fn system_content(msgs: Seq<Jv>) -> Option<Jv>
    decreases msgs.len(),
{
    if msgs.len() == 0 {
        None
    } else if message_role(msgs.last()) == "system"@ {
        if msgs.last().at("content"@) is Null {
            None
        } else {
            Some(msgs.last().at("content"@))
        }
    } else {
        system_content(msgs.drop_last())
    }
}

/// The members that an Anthropic request takes over as they are.
pub open spec fn anthropic_keys() -> Seq<Seq<char>> {
    seq![
        "temperature"@,
        "top_p"@,
        "top_k"@,
        "stream"@,
        "stop_sequences"@,
        "metadata"@,
        "tools"@,
        "tool_choice"@,
        "thinking"@,
        "reasoning_effort"@,
    ]
}

/// The body of an Anthropic chat request: the system text at the top comes
/// before one among the messages.
pub open spec fn anthropic_body(model: Seq<char>, body: Jv) -> Jv {
    let msgs = items_in(body.member("messages"@));
    let a = single("model"@, Jv::Str(model)).with(
        "messages"@,
        Jv::Arr(anthropic_messages(msgs)),
    ).with("max_tokens"@, Jv::Int(int_or(body, "max_tokens"@, 4096)));
    let b = match body.member("system"@) {
        Some(sys) => a.with("system"@, sys),
        None => match system_content(msgs) {
            Some(sys) => a.with("system"@, sys),
            None => a,
        },
    };
    carry_all(b, body, anthropic_keys())
}

fn anthropic_key_list() -> (r: Vec<&'static str>)
    ensures
        names(r@) == anthropic_keys(),
{
    let r = vec![
        "temperature",
        "top_p",
        "top_k",
        "stream",
        "stop_sequences",
        "metadata",
        "tools",
        "tool_choice",
        "thinking",
        "reasoning_effort",
    ];
    assert(names(r@) =~= anthropic_keys());
    r
}

/// Builds the body of an Anthropic chat request.
pub fn build_anthropic_body(model: &str, body: &Json) -> (r: Json)
    ensures
        r@ == anthropic_body(model@, body@),
        r@ is Obj,
{
    let mut messages: Vec<Json> = Vec::new();
    let mut system: Option<Json> = None;
    let none: Vec<Json> = Vec::new();
    let msgs = match body.get_array("messages") {
        Some(m) => m,
        None => &none,
    };
    let ghost all = views(msgs@);
    let mut i: usize = 0;
    proof {
        assert(views(none@) =~= Seq::<Jv>::empty());
        assert(all == items_in(body@.member("messages"@)));
        assert(all.take(0) =~= Seq::<Jv>::empty());
        assert(views(messages@) =~= Seq::<Jv>::empty());
    }
    while i < msgs.len()
        invariant
            i <= msgs@.len(),
            all == views(msgs@),
            views(messages@) == anthropic_messages(all.take(i as int)),
            match system {
                Some(s) => system_content(all.take(i as int)) == Some(s@),
                None => system_content(all.take(i as int)) is None,
            },
        decreases msgs@.len() - i,
    {
        let msg = &msgs[i];
        proof {
            assert(all.take(i + 1).drop_last() =~= all.take(i as int));
            assert(all.take(i + 1).last() == msg@);
        }
        let role = msg.get_str_or("role", "user");
        let content = msg.copy_at("content");
        if same(role, "system") {
            system = if content.is_null() {
                None
            } else {
                Some(content)
            };
        } else {
            let entry = Json::empty().with("role", Json::text(role)).with("content", content);
            let ghost before = messages@;
            messages.push(entry);
            proof {
                assert(views(messages@) =~= views(before).push(entry@));
            }
        }
        i += 1;
    }
    proof {
        assert(all.take(i as int) =~= all);
    }
    let mut result = Json::empty().with("model", Json::text(model)).with(
        "messages",
        Json::arr(messages),
    ).with("max_tokens", Json::number(body.get_i64_or("max_tokens", 4096)));
    match body.get("system") {
        Some(sys) => {
            result.set("system", sys.dup());
        },
        None => {
            match system {
                Some(sys) => {
                    result.set("system", sys);
                },
                None => {},
            }
        },
    }
    let keys = anthropic_key_list();
    result.carry_all(body, &keys);
    result
}

// ---------------------------------------------------------------- speech

/// The user of a speech request.
pub open spec fn speech_user() -> Jv {
    single("uid"@, Jv::Str("tokensbyte"@))
}

/// The body of a speech request: one in the form of the vendor keeps it, with
/// a user; any other is put into that form.
pub open spec fn speech_body(body: Jv) -> Jv {
    if body.member("req_params"@) is Some {
        with_default(body, "user"@, speech_user())
    } else {
        let speed = match body.member("speed"@) {
            Some(v) => if v.is_number() {
                v
            } else {
                Jv::Int(0)
            },
            None => Jv::Int(0),
        };
        let audio = single("format"@, Jv::Str(text_or(body, "response_format"@, "mp3"@))).with(
            "sample_rate"@,
            Jv::Int(int_or(body, "sample_rate"@, 24000)),
        ).with("speech_rate"@, speed);
        let params = single("text"@, Jv::Str(text_or(body, "input"@, ""@))).with(
            "speaker"@,
            Jv::Str(text_or(body, "voice"@, ""@)),
        ).with("audio_params"@, audio);
        single("user"@, speech_user()).with(
            "req_params"@,
            carry(params, body, "mix_speaker"@, "mix_speaker"@),
        )
    }
}

fn make_speech_user() -> (r: Json)
    ensures
        r@ == speech_user(),
{
    Json::empty().with("uid", Json::text("tokensbyte"))
}

/// Builds the body of a speech request.
pub fn build_speech_body(body: &Json) -> (r: Json)
    ensures
        r@ == speech_body(body@),
        r@ is Obj,
{
    if body.has("req_params") {
        let mut fwd = body.dup();
        if !fwd.has("user") {
            fwd.set("user", make_speech_user());
        }
        return fwd;
    }
    let speed = match body.get("speed") {
        Some(v) => if v.is_number() {
            v.dup()
        } else {
            Json::number(0)
        },
        None => Json::number(0),
    };
    let audio = Json::empty().with(
        "format",
        Json::text(body.get_str_or("response_format", "mp3")),
    ).with("sample_rate", Json::number(body.get_i64_or("sample_rate", 24000))).with(
        "speech_rate",
        speed,
    );
    let mut params = Json::empty().with("text", Json::text(body.get_str_or("input", ""))).with(
        "speaker",
        Json::text(body.get_str_or("voice", "")),
    ).with("audio_params", audio);
    params.carry(body, "mix_speaker", "mix_speaker");
    Json::empty().with("user", make_speech_user()).with("req_params", params)
}

// ---------------------------------------------------------------- what every body goes through

/// The body with the search switch in the form of the target. All of
/// Volcengine has one form.
pub open spec fn with_web_search(r: Jv, asked: Jv, target: Seq<char>) -> Jv {
    if !flag_or(asked, "web_search"@, false) {
        r
    } else if target == "volcengine"@ || target == "volcengine_image"@ || target
        == "volcengine_chat"@ {
        r.with(
            "tools"@,
            Jv::Arr(seq![single("type"@, Jv::Str("web_search"@))]),
        ).without("web_search"@)
    } else if target == "gemini"@ || target == "gemini_image"@ {
        r.with("tools"@, search_tools()).without("web_search"@)
    } else {
        r
    }
}

/// Puts the search switch into the form of the target.
fn convert_web_search(result: &mut Json, asked: &Json, target_type: &str)
    ensures
        final(result)@ == with_web_search(old(result)@, asked@, target_type@),
{
    if !asked.get_bool_or("web_search", false) {
        return ;
    }
    if same(target_type, "volcengine") || same(target_type, "volcengine_image") || same(
        target_type,
        "volcengine_chat",
    ) {
        let mut tools: Vec<Json> = Vec::new();
        tools.push(Json::empty().with("type", Json::text("web_search")));
        assert(views(tools@) =~= seq![single("type"@, Jv::Str("web_search"@))]);
        result.assign("tools", Json::arr(tools));
        result.del("web_search");
    } else if same(target_type, "gemini") || same(target_type, "gemini_image") {
        result.assign("tools", make_search_tools());
        result.del("web_search");
    }
}

/// The first text among content elements.
pub open spec fn first_text(items: Seq<Jv>) -> Option<Seq<char>>
    decreases items.len(),
{
    if items.len() == 0 {
        None
    } else {
        match text_at(items[0], "text"@) {
            Some(t) => Some(t),
            None => first_text(items.drop_first()),
        }
    }
}

/// The body with its content as its prompt, where it has none.
pub open spec fn with_content_prompt(r: Jv) -> Jv {
    if r.member("prompt"@) is Some {
        r
    } else {
        match r.member("content"@) {
            Some(Jv::Str(s)) => r.with("prompt"@, Jv::Str(s)),
            Some(Jv::Arr(a)) => with_text(r, "prompt"@, first_text(a)),
            _ => r,
        }
    }
}

fn find_first_text(items: &Vec<Json>) -> (r: Option<String>)
    ensures
        match r {
            Some(t) => first_text(views(items@)) == Some(t@),
            None => first_text(views(items@)) is None,
        },
{
    let ghost all = views(items@);
    let mut i: usize = 0;
    proof {
        assert(all.skip(0) =~= all);
    }
    while i < items.len()
        invariant
            i <= items@.len(),
            all == views(items@),
            first_text(all) == first_text(all.skip(i as int)),
        decreases items@.len() - i,
    {
        proof {
            assert(all.skip(i as int).drop_first() =~= all.skip(i + 1));
            assert(all.skip(i as int)[0] == items@[i as int]@);
        }
        match items[i].get_str("text") {
            Some(t) => {
                return Some(t.to_owned());
            },
            None => {},
        }
        i += 1;
    }
    None
}

/// Makes the content the prompt, where there is none.
pub fn apply_content_to_prompt(result: &mut Json)
    ensures
        final(result)@ == with_content_prompt(old(result)@),
{
    if result.has("prompt") {
        return ;
    }
    let text = match result.get("content") {
        Some(c) => match c {
            Json::Str(s) => Some(s.clone()),
            _ => match c.as_array() {
                Some(a) => find_first_text(a),
                None => None,
            },
        },
        None => None,
    };
    match text {
        Some(t) => {
            result.set("prompt", Json::text(t.as_str()));
        },
        None => {},
    }
}

/// A video request with a resolution and a duration.
pub open spec fn with_video_defaults(r: Jv) -> Jv {
    with_default(with_default(r, "resolution"@, Jv::Str("720p"@)), "duration"@, Jv::Int(5))
}

/// An APIMart request whose size is a resolution: the ratio takes its place.
pub open spec fn with_apimart_size(r: Jv) -> Jv {
    match text_at(r, "size"@) {
        Some(size) => if "k"@.is_suffix_of(small_letters(trimmed(size))) {
            match r.member("ratio"@) {
                Some(ratio) => r.with("size"@, ratio).without("ratio"@),
                None => r,
            }
        } else {
            r
        },
        None => r,
    }
}

/// A streamed chat asks for its usage.
pub open spec fn with_usage_option(r: Jv) -> Jv {
    match r {
        Jv::Obj(_) => match r.member("stream_options"@) {
            Some(Jv::Obj(o)) => r.with(
                "stream_options"@,
                Jv::Obj(o.insert("include_usage"@, Jv::Bool(true))),
            ),
            _ => r.with("stream_options"@, single("include_usage"@, Jv::Bool(true))),
        },
        _ => r,
    }
}

fn put_usage_option(result: &mut Json)
    ensures
        final(result)@ == with_usage_option(old(result)@),
{
    let object = match &*result {
        Json::Obj(_) => true,
        _ => false,
    };
    if !object {
        return ;
    }
    let options = match result.get("stream_options") {
        Some(v) => match v {
            Json::Obj(m) => {
                let mut o = m.dup();
                o.insert("include_usage", Json::Bool(true));
                Json::Obj(o)
            },
            _ => Json::empty().with("include_usage", Json::Bool(true)),
        },
        None => Json::empty().with("include_usage", Json::Bool(true)),
    };
    result.set("stream_options", options);
}

// ---------------------------------------------------------------- the whole

/// What the body of a request depends on beside the request itself.
pub struct RequestModel {
    pub model: Seq<char>,
    pub category: Seq<char>,
    pub token_billing: bool,
    pub nearest: Option<StandardRatio>,
    pub fetched: Seq<(Seq<char>, Option<Jv>)>,
    pub plugins: Plugins,
}

/// What the body of a request depends on beside the request itself.
pub struct RequestContext {
    /// The model to ask for upstream.
    pub model: String,
    /// The category of the request.
    pub category: String,
    /// Whether the model is billed by tokens.
    pub token_billing: bool,
    /// The standard ratio nearest to the sides of the requested size.
    pub nearest: Option<StandardRatio>,
    /// The images that were downloaded.
    pub fetched: Vec<Fetched>,
    /// The optional parts of the deployment.
    pub plugins: Plugins,
}

impl View for RequestContext {
    type V = RequestModel;

    open spec fn view(&self) -> RequestModel {
        RequestModel {
            model: self.model@,
            category: self.category@,
            token_billing: self.token_billing,
            nearest: self.nearest,
            fetched: fetched_views(self.fetched@),
            plugins: self.plugins,
        }
    }
}

/// Whether a request stays in the format of OpenAI for Volcengine: chats do.
pub open spec fn is_volcengine_chat(target: Seq<char>, category: Seq<char>) -> bool {
    target == "volcengine_chat"@ || (target == "volcengine"@ && category == "聊天"@)
}

/// The targets whose body is built anew.
pub open spec fn builds_anew(target: Seq<char>) -> bool {
    target == "volcengine_media_enhance"@ || target == "atp_video"@ || target == "kling"@ || target
        == "kling_video"@ || target == "dashscope"@ || target == "dashscope_image"@ || target
        == "volcengine"@ || target == "minimax_video"@ || target == "minimax_image"@ || target
        == "gemini_image"@ || target == "gemini"@ || target == "anthropic"@ || target
        == "tencent_vod_image"@ || target == "tencent_vod_video"@ || target == "volcengine_tts"@
}

/// The targets whose body is a copy of the request with members assigned: the
/// request has to be an object (or null, which becomes one).
pub open spec fn copies_request(target: Seq<char>, category: Seq<char>) -> bool {
    target == "bytefor_video"@ || target == "volcengine_image"@ || target == "jimeng_image"@
        || target == "jimeng_video"@ || target == "gpt"@ || is_volcengine_chat(target, category)
        || !builds_anew(target)
}

/// The request in the form of its target.
pub open spec fn converted(f: ForwardModel, cx: RequestModel, body: Jv) -> Jv {
    let t = f.target_type;
    if t == "volcengine_media_enhance"@ {
        if cx.plugins.volcengine_enhance {
            media_enhance_body(
                match f.mid {
                    Some(m) => m,
                    None => ""@,
                },
                body,
            )
        } else {
            body
        }
    } else if t == "bytefor_video"@ {
        bytefor_video_body(cx.model, body)
    } else if t == "atp_video"@ {
        atp_video_body(cx.model, body)
    } else if t == "kling"@ {
        kling_body(cx.model, body, cx.category, f.upstream_path)
    } else if t == "kling_video"@ {
        kling_v3_body(body, f.upstream_path)
    } else if t == "dashscope"@ {
        dashscope_video_body(cx.model, body)
    } else if t == "volcengine_image"@ {
        volcengine_image_body(cx.model, body)
    } else if t == "dashscope_image"@ {
        dashscope_image_body(cx.model, body)
    } else if t == "volcengine"@ && cx.category != "聊天"@ {
        volcengine_video_body(cx.model, body)
    } else if t == "minimax_video"@ {
        minimax_video_body(cx.model, body)
    } else if t == "minimax_image"@ {
        minimax_image_body(cx.model, body, cx.nearest)
    } else if t == "gemini_image"@ {
        gemini_image_body(body, cx.fetched)
    } else if t == "gemini"@ {
        gemini_chat_body(body)
    } else if t == "anthropic"@ {
        anthropic_body(cx.model, body)
    } else if t == "tencent_vod_image"@ {
        tencent_image_body(cx.model, body, cx.nearest)
    } else if t == "tencent_vod_video"@ {
        tencent_video_body(cx.model, body)
    } else if t == "jimeng_image"@ {
        jimeng_image_body(cx.model, body)
    } else if t == "jimeng_video"@ {
        jimeng_video_body(cx.model, body)
    } else if t == "gpt"@ && cx.category == "图片"@ {
        gpt_image_body(cx.model, body)
    } else if t == "volcengine_tts"@ {
        speech_body(body)
    } else {
        with_model(body, cx.model)
    }
}

/// What every body goes through after it has been put into the form of its
/// target.
pub open spec fn finished(f: ForwardModel, cx: RequestModel, body: Jv, r: Jv) -> Jv {
    let t = f.target_type;
    let a = if cx.category == "视频"@ && !cx.token_billing && (t == "openai"@ || t
        == "apimart"@) {
        with_video_defaults(r)
    } else {
        r
    };
    let b = if t == "apimart"@ {
        with_apimart_size(a)
    } else {
        a
    };
    let c = with_web_search(b, body, t);
    let d = if cx.category == "聊天"@ && flag_or(body, "stream"@, false) && (t == "openai"@
        || is_volcengine_chat(t, cx.category)) {
        with_usage_option(c)
    } else {
        c
    };
    if f.content_to_prompt {
        with_content_prompt(d)
    } else {
        d
    }
}

/// The body that goes upstream. A speech request in the form of the vendor
/// goes as it is.
pub open spec fn upstream_body(f: ForwardModel, cx: RequestModel, body: Jv) -> Jv {
    let r = converted(f, cx, body);
    if f.target_type == "volcengine_tts"@ && body.member("req_params"@) is Some {
        r
    } else {
        finished(f, cx, body, r)
    }
}

fn copy_with_model(model: &str, body: &Json) -> (r: Json)
    requires
        body@.assignable(),
    ensures
        r@ == with_model(body@, model@),
        r@ is Obj,
{
    let mut fwd = body.dup();
    fwd.set("model", Json::text(model));
    fwd
}

/// Puts the request into the form of its target.
fn convert(resolved: &ResolvedForward, cx: &RequestContext, body: &Json) -> (r: Json)
    requires
        copies_request(resolved@.target_type, cx@.category) ==> body@.assignable(),
    ensures
        r@ == converted(resolved@, cx@, body@),
{
    let t = resolved.target_type.as_str();
    let model = cx.model.as_str();
    if same(t, "volcengine_media_enhance") {
        if cx.plugins.volcengine_enhance {
            match &resolved.mid {
                Some(m) => build_volcengine_media_enhance_body(m.as_str(), body),
                None => build_volcengine_media_enhance_body("", body),
            }
        } else {
            body.dup()
        }
    } else if same(t, "bytefor_video") {
        build_bytefor_video_body(model, body)
    } else if same(t, "atp_video") {
        build_atp_video_body(model, body)
    } else if same(t, "kling") {
        build_kling_body(model, body, cx.category.as_str(), resolved.upstream_path.as_str())
    } else if same(t, "kling_video") {
        build_kling_v3_body(body, resolved.upstream_path.as_str())
    } else if same(t, "dashscope") {
        build_dashscope_video_body(model, body)
    } else if same(t, "volcengine_image") {
        build_volcengine_image_body(model, body)
    } else if same(t, "dashscope_image") {
        build_dashscope_image_body(model, body)
    } else if same(t, "volcengine") && !same(cx.category.as_str(), "聊天") {
        build_volcengine_video_body(model, body)
    } else if same(t, "minimax_video") {
        build_minimax_video_body(model, body)
    } else if same(t, "minimax_image") {
        build_minimax_image_body(model, body, cx.nearest)
    } else if same(t, "gemini_image") {
        build_gemini_image_body(body, &cx.fetched)
    } else if same(t, "gemini") {
        build_gemini_chat_body(body)
    } else if same(t, "anthropic") {
        build_anthropic_body(model, body)
    } else if same(t, "tencent_vod_image") {
        build_tencent_vod_image_body(model, body, cx.nearest)
    } else if same(t, "tencent_vod_video") {
        build_tencent_vod_video_body(model, body)
    } else if same(t, "jimeng_image") {
        build_jimeng_image_body(model, body)
    } else if same(t, "jimeng_video") {
        build_jimeng_video_body(model, body)
    } else if same(t, "gpt") && same(cx.category.as_str(), "图片") {
        build_gpt_image_body(model, body)
    } else if same(t, "volcengine_tts") {
        build_speech_body(body)
    } else {
        copy_with_model(model, body)
    }
}

fn finish(resolved: &ResolvedForward, cx: &RequestContext, body: &Json, made: Json) -> (r: Json)
    ensures
        r@ == finished(resolved@, cx@, body@, made@),
{
    let t = resolved.target_type.as_str();
    let mut result = made;
    if same(cx.category.as_str(), "视频") && !cx.token_billing && (same(t, "openai") || same(
        t,
        "apimart",
    )) {
        if !result.has("resolution") {
            result.assign("resolution", Json::text("720p"));
        }
        if !result.has("duration") {
            result.assign("duration", Json::number(5));
        }
    }
    if same(t, "apimart") {
        let ends_in_k = match result.get_str("size") {
            Some(size) => {
                let low = to_lowercase(trim(size));
                ends_with(low.as_str(), "k")
            },
            None => false,
        };
        if ends_in_k {
            let ratio = match result.get("ratio") {
                Some(v) => Some(v.dup()),
                None => None,
            };
            match ratio {
                Some(v) => {
                    result.assign("size", v);
                    result.del("ratio");
                },
                None => {},
            }
        }
    }
    convert_web_search(&mut result, body, t);
    if same(cx.category.as_str(), "聊天") && body.get_bool_or("stream", false) && (same(
        t,
        "openai",
    ) || same(t, "volcengine_chat") || same(t, "volcengine")) {
        put_usage_option(&mut result);
    }
    if resolved.content_to_prompt {
        apply_content_to_prompt(&mut result);
    }
    result
}

/// Puts an OpenAI request into the form of its target protocol. Targets whose
/// body is a copy of the request want an object.
pub fn transform_request_body(resolved: &ResolvedForward, cx: &RequestContext, body: &Json) -> (r:
    Json)
    requires
        copies_request(resolved@.target_type, cx@.category) ==> body@.assignable(),
    ensures
        r@ == upstream_body(resolved@, cx@, body@),
{
    let t = resolved.target_type.as_str();
    let made = convert(resolved, cx, body);
    if same(t, "volcengine_tts") && body.has("req_params") {
        return made;
    }
    finish(resolved, cx, body, made)
}

} // verus!
