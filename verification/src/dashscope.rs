//! Request bodies of the DashScope API: a model, an input and parameters.
use vstd::prelude::*;
use vstd::string::*;
use crate::json::{
    carry_all, items_at, list1, list2, member_of, names, no_members, set_int, set_text, single,
    switched_on, text_at, text_in, text_or, texts, views, with_int, with_text, int_at, Json, Jv,
    tagged,
};
use crate::media::{
    collect_image_urls, collect_media_values, image_urls, media_values, place_items, placed,
    placed_views, Placed,
};
use crate::text::{
    ascii_small, contains, holds, replace, replaced, same, to_ascii_lowercase, to_uppercase,
    capital_letters,
};

verus! {

/// The body with the model put in.
pub open spec fn with_model(body: Jv, model: Seq<char>) -> Jv {
    body.with("model"@, Jv::Str(model))
}

// ---------------------------------------------------------------- images

/// An element of a message: texts and images under their own names, elements
/// without a type as they are, anything else not at all.
pub open spec fn message_element(item: Jv) -> Option<Jv> {
    match text_at(item, "type"@) {
        Some(t) => if t == "text"@ {
            match text_at(item, "text"@) {
                Some(s) => Some(single("text"@, Jv::Str(s))),
                None => None,
            }
        } else if t == "image_url"@ {
            match text_in(member_of(item.member("image_url"@), "url"@)) {
                Some(u) => Some(single("image"@, Jv::Str(u))),
                None => None,
            }
        } else {
            None
        },
        None => if text_at(item, "image"@) is Some || text_at(item, "text"@) is Some {
            Some(item)
        } else {
            None
        },
    }
}

/// The elements of a message that are taken over.
pub open spec fn message_elements(items: Seq<Jv>) -> Seq<Jv>
    decreases items.len(),
{
    if items.len() == 0 {
        Seq::empty()
    } else {
        let done = message_elements(items.drop_last());
        match message_element(items.last()) {
            Some(e) => done.push(e),
            None => done,
        }
    }
}

/// The content of a message: a text is its only element.
pub open spec fn message_content(msg: Jv) -> Seq<Jv> {
    match msg.member("content"@) {
        Some(Jv::Str(t)) => seq![single("text"@, Jv::Str(t))],
        Some(Jv::Arr(a)) => message_elements(a),
        _ => Seq::empty(),
    }
}

/// A message with its role and its content.
pub open spec fn message(role: Seq<char>, content: Seq<Jv>) -> Jv {
    single("role"@, Jv::Str(role)).with("content"@, Jv::Arr(content))
}

/// The messages of a chat-like request.
pub open spec fn converted_messages(msgs: Seq<Jv>) -> Jv {
    Jv::Arr(msgs.map_values(|m: Jv| message(text_or(m, "role"@, "user"@), message_content(m))))
}

fn make_message(role: &str, content: Vec<Json>) -> (r: Json)
    ensures
        r@ == message(role@, views(content@)),
{
    Json::empty().with("role", Json::text(role)).with("content", Json::arr(content))
}

fn make_element(item: &Json) -> (r: Option<Json>)
    ensures
        match r {
            Some(j) => message_element(item@) == Some(j@),
            None => message_element(item@) is None,
        },
{
    match item.get_str("type") {
        Some(t) => {
            if same(t, "text") {
                match item.get_str("text") {
                    Some(s) => Some(Json::empty().with("text", Json::text(s))),
                    None => None,
                }
            } else if same(t, "image_url") {
                let url = match item.get("image_url") {
                    Some(v) => v.get_str("url"),
                    None => None,
                };
                match url {
                    Some(u) => Some(Json::empty().with("image", Json::text(u))),
                    None => None,
                }
            } else {
                None
            }
        },
        None => {
            if item.get_str("image").is_some() || item.get_str("text").is_some() {
                Some(item.dup())
            } else {
                None
            }
        },
    }
}

fn make_content(msg: &Json) -> (r: Vec<Json>)
    ensures
        views(r@) == message_content(msg@),
{
    let mut out: Vec<Json> = Vec::new();
    proof {
        assert(views(out@) =~= Seq::<Jv>::empty());
    }
    match msg.get("content") {
        Some(content) => {
            match content {
                Json::Str(t) => {
                    out.push(Json::empty().with("text", Json::text(t.as_str())));
                    proof {
                        assert(views(out@) =~= seq![single("text"@, Jv::Str(t@))]);
                    }
                },
                _ => {
                    match content.as_array() {
                        Some(arr) => {
                            let ghost all = views(arr@);
                            let mut i: usize = 0;
                            proof {
                                assert(all.take(0) =~= Seq::<Jv>::empty());
                            }
                            while i < arr.len()
                                invariant
                                    i <= arr@.len(),
                                    all == views(arr@),
                                    views(out@) == message_elements(all.take(i as int)),
                                decreases arr@.len() - i,
                            {
                                proof {
                                    assert(all.take(i + 1).drop_last() =~= all.take(i as int));
                                    assert(all.take(i + 1).last() == arr@[i as int]@);
                                }
                                match make_element(&arr[i]) {
                                    Some(e) => {
                                        let ghost before = out@;
                                        out.push(e);
                                        proof {
                                            assert(views(out@) =~= views(before).push(e@));
                                        }
                                    },
                                    None => {},
                                }
                                i += 1;
                            }
                            proof {
                                assert(all.take(i as int) =~= all);
                            }
                        },
                        None => {},
                    }
                },
            }
        },
        None => {},
    }
    out
}

fn make_messages(msgs: &Vec<Json>) -> (r: Json)
    ensures
        r@ == converted_messages(views(msgs@)),
{
    let mut out: Vec<Json> = Vec::new();
    let mut i: usize = 0;
    while i < msgs.len()
        invariant
            i <= msgs@.len(),
            out@.len() == i,
            forall|k: int|
                0 <= k < i ==> #[trigger] out@[k]@ == message(
                    text_or(msgs@[k]@, "role"@, "user"@),
                    message_content(msgs@[k]@),
                ),
        decreases msgs@.len() - i,
    {
        let content = make_content(&msgs[i]);
        out.push(make_message(msgs[i].get_str_or("role", "user"), content));
        i += 1;
    }
    proof {
        assert(views(out@) =~= converted_messages(views(msgs@))->Arr_0);
    }
    Json::arr(out)
}

/// One message of the user: the images of the request, then its prompt.
pub open spec fn prompt_messages(body: Jv) -> Jv {
    let images = tagged(image_urls(body, seq!["image"@, "image_urls"@]), "image"@)->Arr_0;
    let text = single("text"@, Jv::Str(text_or(body, "prompt"@, "Generate an image"@)));
    Jv::Arr(seq![message("user"@, images.push(text))])
}

fn make_prompt_messages(body: &Json) -> (r: Json)
    ensures
        r@ == prompt_messages(body@),
{
    let fields = list2("image", "image_urls");
    let urls = collect_image_urls(body, &fields);
    let ghost images = tagged(texts(urls@), "image"@)->Arr_0;
    let mut content: Vec<Json> = Vec::new();
    let mut i: usize = 0;
    while i < urls.len()
        invariant
            i <= urls@.len(),
            content@.len() == i,
            forall|k: int|
                0 <= k < i ==> #[trigger] content@[k]@ == single("image"@, Jv::Str(urls@[k]@)),
        decreases urls@.len() - i,
    {
        content.push(Json::empty().with("image", Json::text(urls[i].as_str())));
        i += 1;
    }
    proof {
        assert(views(content@) =~= images);
    }
    let ghost before = content@;
    let text = Json::empty().with(
        "text",
        Json::text(body.get_str_or("prompt", "Generate an image")),
    );
    content.push(text);
    proof {
        assert(views(content@) =~= views(before).push(text@));
    }
    let mut msgs: Vec<Json> = Vec::new();
    let ghost c = views(content@);
    msgs.push(make_message("user", content));
    proof {
        assert(views(msgs@) =~= seq![message("user"@, c)]);
    }
    Json::arr(msgs)
}

/// The members that the image parameters take over as they are.
pub open spec fn image_param_keys() -> Seq<Seq<char>> {
    seq!["style"@, "quality"@, "prompt_extend"@, "watermark"@, "seed"@]
}

/// The parameters of an image request: a size is written with a star.
pub open spec fn image_params(body: Jv) -> Jv {
    let a = with_text(no_members(), "negative_prompt"@, text_at(body, "negative_prompt"@));
    let b = with_int(a, "n"@, int_at(body, "n"@));
    let c = match text_at(body, "size"@) {
        Some(size) => b.with("size"@, Jv::Str(replaced(size, "x"@, "*"@))),
        None => b,
    };
    carry_all(c, body, image_param_keys())
}

/// The body of an image request. A request that has an input keeps its form.
pub open spec fn dashscope_image_body(model: Seq<char>, body: Jv) -> Jv {
    if body.member("input"@) is Some {
        with_model(body, model)
    } else {
        let messages = match items_at(body, "messages"@) {
            Some(msgs) => converted_messages(msgs),
            None => prompt_messages(body),
        };
        single("model"@, Jv::Str(model)).with("input"@, single("messages"@, messages)).with(
            "parameters"@,
            image_params(body),
        )
    }
}

/// Builds the body of an image request.
pub fn build_dashscope_image_body(model: &str, body: &Json) -> (r: Json)
    ensures
        r@ == dashscope_image_body(model@, body@),
{
    if body.has("input") {
        let mut fwd = body.dup();
        fwd.set("model", Json::text(model));
        return fwd;
    }
    let messages = match body.get_array("messages") {
        Some(msgs) => make_messages(msgs),
        None => make_prompt_messages(body),
    };
    let mut params = Json::empty();
    set_text(&mut params, "negative_prompt", body.get_str("negative_prompt"));
    set_int(&mut params, "n", body.get_i64("n"));
    match body.get_str("size") {
        Some(size) => {
            proof {
                reveal_strlit("x");
            }
            let starred = replace(size, "x", "*");
            params.set("size", Json::text(starred.as_str()));
        },
        None => {},
    }
    let keys = vec!["style", "quality", "prompt_extend", "watermark", "seed"];
    assert(names(keys@) =~= image_param_keys());
    params.carry_all(body, &keys);
    Json::empty().with("model", Json::text(model)).with(
        "input",
        Json::empty().with("messages", messages),
    ).with("parameters", params)
}

// ---------------------------------------------------------------- videos

/// The members that the video parameters take over as they are.
pub open spec fn video_param_keys() -> Seq<Seq<char>> {
    seq![
        "resolution"@,
        "ratio"@,
        "duration"@,
        "prompt_extend"@,
        "watermark"@,
        "seed"@,
        "audio"@,
    ]
}

/// Media elements with their kinds.
pub open spec fn typed_media(items: Seq<(Seq<char>, Seq<char>)>) -> Seq<Jv> {
    items.map_values(
        |p: (Seq<char>, Seq<char>)| single("type"@, Jv::Str(p.1)).with("url"@, Jv::Str(p.0)),
    )
}

/// The media under one field, of a kind unless they name another.
pub open spec fn media_of_kind(body: Jv, field: Seq<char>, kind: Seq<char>) -> Seq<Jv> {
    typed_media(placed(media_values(body, seq![field]), Some(kind), false))
}

/// The media of a request: images, videos, audios, files and links.
pub open spec fn video_media(model: Seq<char>, body: Jv) -> Seq<Jv> {
    let video_kind = if holds(ascii_small(model), "happyhorse"@) {
        "video"@
    } else {
        "reference_video"@
    };
    typed_media(placed(media_values(body, seq!["images"@, "image_urls"@]), None, false))
        + media_of_kind(body, "videos"@, video_kind) + media_of_kind(
        body,
        "audios"@,
        "reference_audio"@,
    ) + media_of_kind(body, "files"@, "file"@) + media_of_kind(body, "links"@, "link"@)
}

fn push_typed(out: &mut Vec<Json>, items: &Vec<Placed>)
    ensures
        views(final(out)@) == views(old(out)@) + typed_media(placed_views(items@)),
{
    let ghost head = views(out@);
    let ghost want = typed_media(placed_views(items@));
    let mut i: usize = 0;
    proof {
        assert(views(out@) =~= head + want.take(0));
    }
    while i < items.len()
        invariant
            i <= items@.len(),
            want == typed_media(placed_views(items@)),
            views(out@) == head + want.take(i as int),
        decreases items@.len() - i,
    {
        let entry = Json::empty().with("type", Json::text(items[i].role.as_str())).with(
            "url",
            Json::text(items[i].url.as_str()),
        );
        let ghost before = out@;
        proof {
            assert(want[i as int] == entry@);
        }
        out.push(entry);
        proof {
            assert(views(out@) =~= views(before).push(entry@));
            assert(want.take(i + 1) =~= want.take(i as int).push(entry@));
            assert(views(out@) =~= head + want.take(i + 1));
        }
        i += 1;
    }
    proof {
        assert(want.take(i as int) =~= want);
    }
}

fn push_kind(out: &mut Vec<Json>, body: &Json, field: &str, kind: &str)
    ensures
        views(final(out)@) == views(old(out)@) + media_of_kind(body@, field@, kind@),
{
    let fields = list1(field);
    let values = collect_media_values(body, &fields);
    let items = place_items(&values, Some(kind), false);
    push_typed(out, &items);
}

fn make_video_media(model: &str, body: &Json) -> (r: Vec<Json>)
    ensures
        views(r@) == video_media(model@, body@),
{
    let low = to_ascii_lowercase(model);
    let video_kind = if contains(low.as_str(), "happyhorse") {
        "video"
    } else {
        "reference_video"
    };
    let mut out: Vec<Json> = Vec::new();
    proof {
        assert(views(out@) =~= Seq::<Jv>::empty());
    }
    let fields = list2("images", "image_urls");
    let values = collect_media_values(body, &fields);
    let items = place_items(&values, None, false);
    push_typed(&mut out, &items);
    proof {
        assert(Seq::<Jv>::empty() + typed_media(placed_views(items@)) =~= typed_media(
            placed_views(items@),
        ));
    }
    push_kind(&mut out, body, "videos", video_kind);
    push_kind(&mut out, body, "audios", "reference_audio");
    push_kind(&mut out, body, "files", "file");
    push_kind(&mut out, body, "links", "link");
    out
}

/// The input of a video request.
pub open spec fn video_input(model: Seq<char>, body: Jv) -> Jv {
    let a = single("prompt"@, Jv::Str(text_or(body, "prompt"@, ""@)));
    let b = with_text(a, "negative_prompt"@, text_at(body, "negative_prompt"@));
    let c = with_text(b, "audio_url"@, text_at(body, "audio_url"@));
    match body.member("media"@) {
        Some(Jv::Arr(m)) => c.with("media"@, Jv::Arr(m)),
        _ => if video_media(model, body).len() > 0 {
            c.with("media"@, Jv::Arr(video_media(model, body)))
        } else {
            c
        },
    }
}

/// A member put in where the key is still free.
pub open spec fn with_default(r: Jv, key: Seq<char>, v: Jv) -> Jv {
    if r.member(key) is None {
        r.with(key, v)
    } else {
        r
    }
}

fn set_default(r: &mut Json, key: &str, v: Json)
    requires
        old(r)@ is Obj,
    ensures
        final(r)@ == with_default(old(r)@, key@, v@),
        final(r)@ is Obj,
{
    if !r.has(key) {
        r.set(key, v);
    }
}

/// The resolution of a video request: its own or its size, in capital letters.
pub open spec fn with_video_resolution(params: Jv, body: Jv) -> Jv {
    match params.member("resolution"@) {
        Some(Jv::Str(res)) => params.with("resolution"@, Jv::Str(capital_letters(res))),
        Some(_) => params,
        None => match text_at(body, "size"@) {
            Some(size) => params.with("resolution"@, Jv::Str(capital_letters(size))),
            None => params.with("resolution"@, Jv::Str("720P"@)),
        },
    }
}

/// The parameters of a video request.
pub open spec fn video_params(body: Jv) -> Jv {
    let a = carry_all(no_members(), body, video_param_keys());
    let b = with_video_resolution(a, body);
    let c = with_default(b, "duration"@, Jv::Int(5));
    match body.member("generate_audio"@) {
        Some(ga) => with_default(c, "audio"@, Jv::Bool(switched_on(ga))),
        None => c,
    }
}

/// The body of a video request. A request that has an input keeps its form.
pub open spec fn dashscope_video_body(model: Seq<char>, body: Jv) -> Jv {
    if body.member("input"@) is Some {
        with_model(body, model)
    } else {
        single("model"@, Jv::Str(model)).with("input"@, video_input(model, body)).with(
            "parameters"@,
            video_params(body),
        )
    }
}

fn make_video_input(model: &str, body: &Json) -> (r: Json)
    ensures
        r@ == video_input(model@, body@),
{
    let mut input = Json::empty().with("prompt", Json::text(body.get_str_or("prompt", "")));
    set_text(&mut input, "negative_prompt", body.get_str("negative_prompt"));
    set_text(&mut input, "audio_url", body.get_str("audio_url"));
    match body.get("media") {
        Some(v) => {
            match v {
                Json::Arr(_) => {
                    input.set("media", v.dup());
                    return input;
                },
                _ => {},
            }
        },
        None => {},
    }
    let media = make_video_media(model, body);
    if media.len() > 0 {
        input.set("media", Json::arr(media));
    }
    input
}

fn make_video_params(body: &Json) -> (r: Json)
    ensures
        r@ == video_params(body@),
{
    let mut params = Json::empty();
    let keys = vec![
        "resolution",
        "ratio",
        "duration",
        "prompt_extend",
        "watermark",
        "seed",
        "audio",
    ];
    assert(names(keys@) =~= video_param_keys());
    params.carry_all(body, &keys);
    if params.has("resolution") {
        let upper = match params.get_str("resolution") {
            Some(res) => Some(to_uppercase(res)),
            None => None,
        };
        match upper {
            Some(u) => {
                params.set("resolution", Json::text(u.as_str()));
            },
            None => {},
        }
    } else {
        match body.get_str("size") {
            Some(size) => {
                let u = to_uppercase(size);
                params.set("resolution", Json::text(u.as_str()));
            },
            None => {
                params.set("resolution", Json::text("720P"));
            },
        }
    }
    set_default(&mut params, "duration", Json::number(5));
    match body.get("generate_audio") {
        Some(ga) => {
            set_default(&mut params, "audio", Json::Bool(ga.is_on()));
        },
        None => {},
    }
    params
}

/// Builds the body of a video request.
pub fn build_dashscope_video_body(model: &str, body: &Json) -> (r: Json)
    ensures
        r@ == dashscope_video_body(model@, body@),
{
    if body.has("input") {
        let mut fwd = body.dup();
        fwd.set("model", Json::text(model));
        return fwd;
    }
    let input = make_video_input(model, body);
    let params = make_video_params(body);
    Json::empty().with("model", Json::text(model)).with("input", input).with("parameters", params)
}

} // verus!
