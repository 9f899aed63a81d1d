//! Request bodies built round a content array: Volcengine video, MiniMax
//! video and image, ATP video.
use vstd::prelude::*;
use vstd::string::*;
use crate::double::{whole_i64, whole_number};
use crate::json::{
    carry_all, filled, filled_text_at, items_at, list1, list2, list3, member_of, names, opt_filled,
    opt_str, opt_view, or_get, or_member, set_flag, set_int, set_some, set_text, single, stripped,
    text_at, text_in, text_or, texts, views, with_flag, with_int, with_some, with_text, Json, Jv,
};
use crate::media::{
    collect_image_urls, collect_media_values, ensure_image_roles_for_multimodal, image_urls,
    media_values, place_items, placed, placed_views, with_image_roles, Placed,
};
use crate::ratio::{ratio_of, size_to_ratio, StandardRatio};
use crate::text::{small_letters, same, to_lowercase};

verus! {

/// A media element of a content array: an address under the name of its kind.
pub open spec fn media_entry(kind: Seq<char>, url: Seq<char>) -> Jv {
    single("type"@, Jv::Str(kind)).with(kind, single("url"@, Jv::Str(url)))
}

/// Media elements of one kind, each with its role.
pub open spec fn media_entries(kind: Seq<char>, items: Seq<(Seq<char>, Seq<char>)>) -> Seq<Jv> {
    items.map_values(
        |p: (Seq<char>, Seq<char>)| media_entry(kind, p.0).with("role"@, Jv::Str(p.1)),
    )
}

fn make_entry(kind: &str, url: &str) -> (r: Json)
    ensures
        r@ == media_entry(kind@, url@),
        r@ is Obj,
{
    Json::empty().with("type", Json::text(kind)).with(
        kind,
        Json::empty().with("url", Json::text(url)),
    )
}

fn push_entries(out: &mut Vec<Json>, kind: &str, items: &Vec<Placed>)
    ensures
        views(final(out)@) == views(old(out)@) + media_entries(kind@, placed_views(items@)),
{
    let ghost head = views(out@);
    let ghost want = media_entries(kind@, placed_views(items@));
    let mut i: usize = 0;
    proof {
        assert(views(out@) =~= head + want.take(0));
    }
    while i < items.len()
        invariant
            i <= items@.len(),
            want == media_entries(kind@, placed_views(items@)),
            views(out@) == head + want.take(i as int),
        decreases items@.len() - i,
    {
        let entry = make_entry(kind, items[i].url.as_str()).with(
            "role",
            Json::text(items[i].role.as_str()),
        );
        let ghost before = out@;
        proof {
            assert(want[i as int] == entry@);
        }
        out.push(entry);
        proof {
            assert(views(out@) =~= views(before).push(entry@));
            assert(want.take(i + 1) =~= want.take(i as int).push(entry@));
            assert(views(out@) =~= head + want.take(i + 1));
        }
        i += 1;
    }
    proof {
        assert(want.take(i as int) =~= want);
    }
}

/// A text element of a content array.
pub open spec fn text_entry(text: Seq<char>) -> Jv {
    single("type"@, Jv::Str("text"@)).with("text"@, Jv::Str(text))
}

fn make_text_entry(text: &str) -> (r: Json)
    ensures
        r@ == text_entry(text@),
{
    Json::empty().with("type", Json::text("text")).with("text", Json::text(text))
}

/// The content that prompt, images, videos and audios make.
pub open spec fn collected_content(body: Jv) -> Seq<Jv> {
    seq![text_entry(text_or(body, "prompt"@, "Generate content"@))] + media_entries(
        "image_url"@,
        placed(media_values(body, seq!["images"@, "image_urls"@]), None, true),
    ) + media_entries(
        "video_url"@,
        placed(media_values(body, seq!["videos"@]), Some("reference_video"@), true),
    ) + media_entries(
        "audio_url"@,
        placed(media_values(body, seq!["audios"@]), Some("reference_audio"@), true),
    )
}

/// The content array of a request: its own, or the one that its prompt and
/// media make; beside a video or an audio every image is a reference.
pub open spec fn content_array(body: Jv) -> Jv {
    with_image_roles(
        match items_at(body, "content"@) {
            Some(a) => Jv::Arr(a),
            None => Jv::Arr(collected_content(body)),
        },
    )
}

fn collect_content(body: &Json) -> (r: Json)
    ensures
        r@ == Jv::Arr(collected_content(body@)),
{
    let mut parts: Vec<Json> = Vec::new();
    parts.push(make_text_entry(body.get_str_or("prompt", "Generate content")));
    proof {
        assert(views(parts@) =~= seq![text_entry(text_or(body@, "prompt"@, "Generate content"@))]);
    }
    let image_fields = list2("images", "image_urls");
    let images = collect_media_values(body, &image_fields);
    let placed_images = place_items(&images, None, true);
    push_entries(&mut parts, "image_url", &placed_images);
    let video_fields = list1("videos");
    let videos = collect_media_values(body, &video_fields);
    let placed_videos = place_items(&videos, Some("reference_video"), true);
    push_entries(&mut parts, "video_url", &placed_videos);
    let audio_fields = list1("audios");
    let audios = collect_media_values(body, &audio_fields);
    let placed_audios = place_items(&audios, Some("reference_audio"), true);
    push_entries(&mut parts, "audio_url", &placed_audios);
    Json::arr(parts)
}

/// Builds the content array of a request.
pub fn build_content_array(body: &Json) -> (r: Json)
    ensures
        r@ == content_array(body@),
{
    let content = match body.get("content") {
        Some(c) => match c {
            Json::Arr(_) => c.dup(),
            _ => collect_content(body),
        },
        None => collect_content(body),
    };
    ensure_image_roles_for_multimodal(content)
}

// ---------------------------------------------------------------- Volcengine

/// The members that the Volcengine interface takes over as they are.
pub open spec fn volcengine_keys() -> Seq<Seq<char>> {
    seq![
        "ratio"@,
        "resolution"@,
        "duration"@,
        "camera_fixed"@,
        "seed"@,
        "generate_audio"@,
        "return_last_frame"@,
        "watermark"@,
        "stream"@,
        "callback_url"@,
        "service_tier"@,
        "execution_expires_after"@,
        "draft"@,
        "tools"@,
        "safety_identifier"@,
        "priority"@,
        "frames"@,
        "omni_reference_task_type"@,
        "output_format"@,
        "bitrate_mode"@,
    ]
}

fn volcengine_key_list() -> (r: Vec<&'static str>)
    ensures
        names(r@) == volcengine_keys(),
{
    let r = vec![
        "ratio",
        "resolution",
        "duration",
        "camera_fixed",
        "seed",
        "generate_audio",
        "return_last_frame",
        "watermark",
        "stream",
        "callback_url",
        "service_tier",
        "execution_expires_after",
        "draft",
        "tools",
        "safety_identifier",
        "priority",
        "frames",
        "omni_reference_task_type",
        "output_format",
        "bitrate_mode",
    ];
    assert(names(r@) =~= volcengine_keys());
    r
}

/// A model, a content array and the members on a list.
pub open spec fn content_body(model: Seq<char>, body: Jv, keys: Seq<Seq<char>>) -> Jv {
    carry_all(
        single("model"@, Jv::Str(model)).with("content"@, content_array(body)),
        body,
        keys,
    )
}

fn make_content_body(model: &str, body: &Json, keys: &Vec<&str>) -> (r: Json)
    ensures
        r@ == content_body(model@, body@, names(keys@)),
        r@ is Obj,
{
    let content = build_content_array(body);
    let mut result = Json::empty().with("model", Json::text(model)).with("content", content);
    result.carry_all(body, keys);
    result
}

/// The Volcengine body: a task expires after an hour unless it says otherwise.
pub open spec fn volcengine_content_body(model: Seq<char>, body: Jv) -> Jv {
    let a = content_body(model, body, volcengine_keys());
    if a.member("execution_expires_after"@) is None {
        a.with("execution_expires_after"@, Jv::Int(3600))
    } else {
        a
    }
}

pub fn build_volcengine_content_body(model: &str, body: &Json) -> (r: Json)
    ensures
        r@ == volcengine_content_body(model@, body@),
        r@ is Obj,
{
    let keys = volcengine_key_list();
    let mut result = make_content_body(model, body, &keys);
    if !result.has("execution_expires_after") {
        result.set("execution_expires_after", Json::number(3600));
    }
    result
}

/// The Volcengine video body: its resolution in small letters, 720p where it
/// names none.
pub open spec fn volcengine_video_body(model: Seq<char>, body: Jv) -> Jv {
    let a = volcengine_content_body(model, body);
    match text_at(a, "resolution"@) {
        Some(res) => a.with("resolution"@, Jv::Str(small_letters(res))),
        None => a.with("resolution"@, Jv::Str("720p"@)),
    }
}

pub fn build_volcengine_video_body(model: &str, body: &Json) -> (r: Json)
    ensures
        r@ == volcengine_video_body(model@, body@),
        r@ is Obj,
{
    let mut fwd = build_volcengine_content_body(model, body);
    let low = match fwd.get_str("resolution") {
        Some(res) => to_lowercase(res),
        None => "720p".to_owned(),
    };
    fwd.set("resolution", Json::text(low.as_str()));
    fwd
}

// ---------------------------------------------------------------- MiniMax

/// The members that the MiniMax video interface takes over as they are.
pub open spec fn minimax_video_keys() -> Seq<Seq<char>> {
    seq!["resolution"@, "ratio"@, "duration"@, "callback_url"@]
}

/// The MiniMax video body: a watermark under its own name, or the general one.
pub open spec fn minimax_video_body(model: Seq<char>, body: Jv) -> Jv {
    with_some(
        content_body(model, body, minimax_video_keys()),
        "aigc_watermark"@,
        or_member(body.member("aigc_watermark"@), body, "watermark"@),
    )
}

pub fn build_minimax_video_body(model: &str, body: &Json) -> (r: Json)
    ensures
        r@ == minimax_video_body(model@, body@),
{
    let keys = vec!["resolution", "ratio", "duration", "callback_url"];
    assert(names(keys@) =~= minimax_video_keys());
    let mut result = make_content_body(model, body, &keys);
    set_some(
        &mut result,
        "aigc_watermark",
        or_get(body.get("aigc_watermark"), body, "watermark"),
    );
    result
}

/// The members that the MiniMax image interface takes over as they are.
pub open spec fn minimax_image_keys() -> Seq<Seq<char>> {
    seq![
        "prompt"@,
        "aspect_ratio"@,
        "width"@,
        "height"@,
        "n"@,
        "seed"@,
        "style"@,
        "prompt_optimizer"@,
        "aigc_watermark"@,
        "subject_reference"@,
        "response_format"@,
    ]
}

fn minimax_image_key_list() -> (r: Vec<&'static str>)
    ensures
        names(r@) == minimax_image_keys(),
{
    let r = vec![
        "prompt",
        "aspect_ratio",
        "width",
        "height",
        "n",
        "seed",
        "style",
        "prompt_optimizer",
        "aigc_watermark",
        "subject_reference",
        "response_format",
    ];
    assert(names(r@) =~= minimax_image_keys());
    r
}

/// The aspect ratio of an image: its own, unless it has one or both sides are
/// given; else the ratio, else the one of its size.
pub open spec fn with_minimax_ratio(r: Jv, body: Jv, nearest: Option<StandardRatio>) -> Jv {
    let sides = r.member("width"@) is Some && r.member("height"@) is Some;
    if r.member("aspect_ratio"@) is Some || sides {
        r
    } else {
        match filled_text_at(body, "ratio"@) {
            Some(ratio) => r.with("aspect_ratio"@, Jv::Str(ratio)),
            None => match text_at(body, "size"@) {
                Some(size) => with_text(r, "aspect_ratio"@, ratio_of(size, nearest)),
                None => r,
            },
        }
    }
}

/// Character references, one for each image.
pub open spec fn character_references(urls: Seq<Seq<char>>) -> Jv {
    Jv::Arr(
        urls.map_values(
            |u: Seq<char>|
                single("type"@, Jv::Str("character"@)).with("image_file"@, Jv::Str(u)),
        ),
    )
}

/// The MiniMax image body.
pub open spec fn minimax_image_body(
    model: Seq<char>,
    body: Jv,
    nearest: Option<StandardRatio>,
) -> Jv {
    let a = carry_all(
        single("model"@, Jv::Str(model)),
        stripped(body),
        minimax_image_keys(),
    );
    let b = with_minimax_ratio(a, body, nearest);
    let c = if b.member("aigc_watermark"@) is None {
        with_some(b, "aigc_watermark"@, body.member("watermark"@))
    } else {
        b
    };
    let d = if text_at(c, "response_format"@) == Some("b64_json"@) {
        c.with("response_format"@, Jv::Str("base64"@))
    } else {
        c
    };
    let urls = image_urls(body, seq!["image"@, "image_urls"@, "image[]"@]);
    if d.member("subject_reference"@) is None && urls.len() > 0 {
        d.with("subject_reference"@, character_references(urls))
    } else {
        d
    }
}

fn make_references(urls: &Vec<String>) -> (r: Json)
    ensures
        r@ == character_references(texts(urls@)),
{
    let mut out: Vec<Json> = Vec::new();
    let mut i: usize = 0;
    while i < urls.len()
        invariant
            i <= urls@.len(),
            out@.len() == i,
            forall|k: int|
                0 <= k < i ==> #[trigger] out@[k]@ == single("type"@, Jv::Str("character"@)).with(
                    "image_file"@,
                    Jv::Str(urls@[k]@),
                ),
        decreases urls@.len() - i,
    {
        out.push(
            Json::empty().with("type", Json::text("character")).with(
                "image_file",
                Json::text(urls[i].as_str()),
            ),
        );
        i += 1;
    }
    proof {
        assert(views(out@) =~= character_references(texts(urls@))->Arr_0);
    }
    Json::arr(out)
}

fn put_minimax_ratio(result: &mut Json, body: &Json, nearest: Option<StandardRatio>)
    requires
        old(result)@ is Obj,
    ensures
        final(result)@ == with_minimax_ratio(old(result)@, body@, nearest),
        final(result)@ is Obj,
{
    let sides = result.has("width") && result.has("height");
    if result.has("aspect_ratio") || sides {
        return ;
    }
    match body.get_filled_str("ratio") {
        Some(ratio) => {
            result.set("aspect_ratio", Json::text(ratio));
        },
        None => {
            match body.get_str("size") {
                Some(size) => {
                    set_text(result, "aspect_ratio", size_to_ratio(size, nearest));
                },
                None => {},
            }
        },
    }
}

/// Builds the MiniMax image body. `nearest` is the standard ratio nearest to
/// the sides of the requested size, where it names two.
pub fn build_minimax_image_body(
    model: &str,
    body: &Json,
    nearest: Option<StandardRatio>,
) -> (r: Json)
    ensures
        r@ == minimax_image_body(model@, body@, nearest),
{
    let mut result = Json::empty().with("model", Json::text(model));
    let keys = minimax_image_key_list();
    let present = body.without_nulls();
    result.carry_all(&present, &keys);
    put_minimax_ratio(&mut result, body, nearest);
    if !result.has("aigc_watermark") {
        set_some(&mut result, "aigc_watermark", body.get("watermark"));
    }
    let b64 = match result.get_str("response_format") {
        Some(f) => same(f, "b64_json"),
        None => false,
    };
    if b64 {
        result.set("response_format", Json::text("base64"));
    }
    if !result.has("subject_reference") {
        let fields = list3("image", "image_urls", "image[]");
        let urls = collect_image_urls(body, &fields);
        if urls.len() > 0 {
            result.set("subject_reference", make_references(&urls));
        }
    }
    result
}

// ---------------------------------------------------------------- ATP

/// A value of a request in either form: under the object that the nested form
/// has for it, or else at the top.
pub open spec fn nested(body: Jv, group: Seq<char>, key: Seq<char>) -> Option<Jv> {
    or_member(member_of(body.member(group), key), body, key)
}

fn get_nested<'a>(body: &'a Json, group: &str, key: &str) -> (r: Option<&'a Json>)
    ensures
        opt_view(r) == nested(body@, group@, key@),
{
    let inner = match body.get(group) {
        Some(g) => g.get(key),
        None => None,
    };
    or_get(inner, body, key)
}

/// The elements that are objects.
pub open spec fn objects_only(items: Seq<Jv>) -> Seq<Jv>
    decreases items.len(),
{
    if items.len() == 0 {
        Seq::empty()
    } else {
        let done = objects_only(items.drop_last());
        if items.last() is Obj {
            done.push(items.last())
        } else {
            done
        }
    }
}

fn keep_objects(items: &Vec<Json>) -> (r: Vec<Json>)
    ensures
        views(r@) == objects_only(views(items@)),
{
    let ghost all = views(items@);
    let mut out: Vec<Json> = Vec::new();
    let mut i: usize = 0;
    proof {
        assert(all.take(0) =~= Seq::<Jv>::empty());
        assert(views(out@) =~= Seq::<Jv>::empty());
    }
    while i < items.len()
        invariant
            i <= items@.len(),
            all == views(items@),
            views(out@) == objects_only(all.take(i as int)),
        decreases items@.len() - i,
    {
        proof {
            assert(all.take(i + 1).drop_last() =~= all.take(i as int));
            assert(all.take(i + 1).last() == items@[i as int]@);
        }
        let object = match &items[i] {
            Json::Obj(_) => true,
            _ => false,
        };
        if object {
            let ghost before = out@;
            let item = items[i].dup();
            out.push(item);
            proof {
                assert(views(out@) =~= views(before).push(item@));
            }
        }
        i += 1;
    }
    proof {
        assert(all.take(i as int) =~= all);
    }
    out
}

/// An element of the nested form: frames and references are images with that
/// role, videos are videos, anything else stays; without an address it is
/// dropped.
pub open spec fn atp_element(item: Jv) -> Option<Jv> {
    let kind = text_or(item, "type"@, ""@);
    let url = text_or(item, "url"@, ""@);
    if url.len() == 0 {
        None
    } else if kind == "first_frame"@ || kind == "last_frame"@ || kind == "reference_image"@ {
        Some(media_entry("image_url"@, url).with("role"@, Jv::Str(kind)))
    } else if kind == "video"@ || kind == "reference_video"@ {
        Some(media_entry("video_url"@, url))
    } else {
        Some(item)
    }
}

pub open spec fn atp_elements(items: Seq<Jv>) -> Seq<Jv>
    decreases items.len(),
{
    if items.len() == 0 {
        Seq::empty()
    } else {
        let done = atp_elements(items.drop_last());
        match atp_element(items.last()) {
            Some(e) => done.push(e),
            None => done,
        }
    }
}

fn make_atp_element(item: &Json) -> (r: Option<Json>)
    ensures
        match r {
            Some(j) => atp_element(item@) == Some(j@),
            None => atp_element(item@) is None,
        },
{
    let kind = item.get_str_or("type", "");
    let url = item.get_str_or("url", "");
    if url.is_empty() {
        None
    } else if same(kind, "first_frame") || same(kind, "last_frame") || same(
        kind,
        "reference_image",
    ) {
        Some(make_entry("image_url", url).with("role", Json::text(kind)))
    } else if same(kind, "video") || same(kind, "reference_video") {
        Some(make_entry("video_url", url))
    } else {
        Some(item.dup())
    }
}

fn push_atp_elements(out: &mut Vec<Json>, items: &Vec<Json>)
    ensures
        views(final(out)@) == views(old(out)@) + atp_elements(views(items@)),
{
    let ghost head = views(out@);
    let ghost all = views(items@);
    let mut i: usize = 0;
    proof {
        assert(all.take(0) =~= Seq::<Jv>::empty());
        assert(views(out@) =~= head + Seq::<Jv>::empty());
    }
    while i < items.len()
        invariant
            i <= items@.len(),
            all == views(items@),
            views(out@) == head + atp_elements(all.take(i as int)),
        decreases items@.len() - i,
    {
        proof {
            assert(all.take(i + 1).drop_last() =~= all.take(i as int));
            assert(all.take(i + 1).last() == items@[i as int]@);
        }
        match make_atp_element(&items[i]) {
            Some(e) => {
                let ghost before = out@;
                out.push(e);
                proof {
                    assert(views(out@) =~= views(before).push(e@));
                    assert(head + atp_elements(all.take(i as int)).push(e@) =~= (head
                        + atp_elements(all.take(i as int))).push(e@));
                }
            },
            None => {},
        }
        i += 1;
    }
    proof {
        assert(all.take(i as int) =~= all);
    }
}

/// Videos of the flat form, which carry no role.
pub open spec fn plain_videos(items: Seq<(Seq<char>, Seq<char>)>) -> Seq<Jv> {
    items.map_values(|p: (Seq<char>, Seq<char>)| media_entry("video_url"@, p.0))
}

fn push_plain_videos(out: &mut Vec<Json>, items: &Vec<Placed>)
    ensures
        views(final(out)@) == views(old(out)@) + plain_videos(placed_views(items@)),
{
    let ghost head = views(out@);
    let ghost want = plain_videos(placed_views(items@));
    let mut i: usize = 0;
    proof {
        assert(views(out@) =~= head + want.take(0));
    }
    while i < items.len()
        invariant
            i <= items@.len(),
            want == plain_videos(placed_views(items@)),
            views(out@) == head + want.take(i as int),
        decreases items@.len() - i,
    {
        let entry = make_entry("video_url", items[i].url.as_str());
        let ghost before = out@;
        proof {
            assert(want[i as int] == entry@);
        }
        out.push(entry);
        proof {
            assert(views(out@) =~= views(before).push(entry@));
            assert(want.take(i + 1) =~= want.take(i as int).push(entry@));
            assert(views(out@) =~= head + want.take(i + 1));
        }
        i += 1;
    }
    proof {
        assert(want.take(i as int) =~= want);
    }
}

/// The media of a request: those of the nested form where it lists any, else
/// those of the flat form.
pub open spec fn atp_media(body: Jv) -> Seq<Jv> {
    match member_of(body.member("input"@), "media"@) {
        Some(Jv::Arr(m)) => atp_elements(m),
        _ => media_entries(
            "image_url"@,
            placed(media_values(body, seq!["images"@, "image_urls"@]), None, false),
        ) + plain_videos(placed(media_values(body, seq!["videos"@]), Some(""@), false)),
    }
}

/// The content of a request: the objects of its own content array, or its
/// prompt and its media.
pub open spec fn atp_content(body: Jv) -> Seq<Jv> {
    match items_at(body, "content"@) {
        Some(a) => objects_only(a),
        None => {
            let head = match filled(text_in(nested(body, "input"@, "prompt"@))) {
                Some(p) => seq![text_entry(p)],
                None => Seq::empty(),
            };
            head + atp_media(body)
        },
    }
}

/// The aspect ratio of a request, under either name and in either form.
pub open spec fn atp_ratio(body: Jv) -> Option<Jv> {
    let params = body.member("parameters"@);
    let inner = match member_of(params, "ratio"@) {
        Some(v) => Some(v),
        None => member_of(params, "aspect_ratio"@),
    };
    or_member(or_member(inner, body, "ratio"@), body, "aspect_ratio"@)
}

/// The duration of a request in whole seconds; five where it names none.
pub open spec fn atp_duration(body: Jv) -> int {
    match nested(body, "parameters"@, "duration"@) {
        Some(v) => match whole_number(v) {
            Some(d) => d,
            None => 5,
        },
        None => 5,
    }
}

/// The boolean of a value that may be absent.
pub open spec fn flag_in(o: Option<Jv>) -> Option<bool> {
    match o {
        Some(v) => v.flag(),
        None => None,
    }
}

/// The `i64` of a value that may be absent.
pub open spec fn int_in(o: Option<Jv>) -> Option<int> {
    match o {
        Some(v) => v.int64(),
        None => None,
    }
}

/// The ATP video body.
pub open spec fn atp_video_body(model: Seq<char>, body: Jv) -> Jv {
    let a = single("model"@, Jv::Str(model)).with("content"@, Jv::Arr(atp_content(body)));
    let b = with_text(
        a,
        "resolution"@,
        filled(text_in(nested(body, "parameters"@, "resolution"@))),
    );
    let c = with_text(b, "ratio"@, filled(text_in(atp_ratio(body))));
    let d = c.with("duration"@, Jv::Int(atp_duration(body)));
    let e = with_flag(d, "watermark"@, flag_in(nested(body, "parameters"@, "watermark"@)));
    let f = with_int(e, "seed"@, int_in(nested(body, "parameters"@, "seed"@)));
    with_flag(
        f,
        "generate_audio"@,
        flag_in(nested(body, "parameters"@, "generate_audio"@)),
    )
}

fn make_atp_content(body: &Json) -> (r: Vec<Json>)
    ensures
        views(r@) == atp_content(body@),
{
    match body.get_array("content") {
        Some(a) => keep_objects(a),
        None => {
            let mut items: Vec<Json> = Vec::new();
            proof {
                assert(views(items@) =~= Seq::<Jv>::empty());
            }
            match opt_filled(opt_str(get_nested(body, "input", "prompt"))) {
                Some(p) => {
                    items.push(make_text_entry(p));
                    proof {
                        assert(views(items@) =~= seq![text_entry(p@)]);
                    }
                },
                None => {},
            }
            let ghost head = views(items@);
            let inner = match body.get("input") {
                Some(i) => i.get("media"),
                None => None,
            };
            let listed = match inner {
                Some(m) => m.as_array(),
                None => None,
            };
            match listed {
                Some(m) => {
                    push_atp_elements(&mut items, m);
                },
                None => {
                    let image_fields = list2("images", "image_urls");
                    let images = collect_media_values(body, &image_fields);
                    let placed_images = place_items(&images, None, false);
                    push_entries(&mut items, "image_url", &placed_images);
                    let video_fields = list1("videos");
                    let videos = collect_media_values(body, &video_fields);
                    let placed_videos = place_items(&videos, Some(""), false);
                    push_plain_videos(&mut items, &placed_videos);
                    proof {
                        assert(views(items@) =~= head + atp_media(body@));
                    }
                },
            }
            items
        },
    }
}

/// Builds the ATP video body from a request in the flat or the nested form.
pub fn build_atp_video_body(model: &str, body: &Json) -> (r: Json)
    ensures
        r@ == atp_video_body(model@, body@),
{
    let content = make_atp_content(body);
    let mut result = Json::empty().with("model", Json::text(model)).with(
        "content",
        Json::arr(content),
    );
    set_text(
        &mut result,
        "resolution",
        opt_filled(opt_str(get_nested(body, "parameters", "resolution"))),
    );
    let inner_ratio = match body.get("parameters") {
        Some(p) => or_get(p.get("ratio"), p, "aspect_ratio"),
        None => None,
    };
    let ratio = or_get(or_get(inner_ratio, body, "ratio"), body, "aspect_ratio");
    set_text(&mut result, "ratio", opt_filled(opt_str(ratio)));
    let duration: i64 = match get_nested(body, "parameters", "duration") {
        Some(v) => match whole_i64(v) {
            Some(d) => d,
            None => 5,
        },
        None => 5,
    };
    result.set("duration", Json::number(duration));
    let watermark = match get_nested(body, "parameters", "watermark") {
        Some(v) => v.as_bool(),
        None => None,
    };
    set_flag(&mut result, "watermark", watermark);
    let seed = match get_nested(body, "parameters", "seed") {
        Some(v) => v.as_i64(),
        None => None,
    };
    set_int(&mut result, "seed", seed);
    let audio = match get_nested(body, "parameters", "generate_audio") {
        Some(v) => v.as_bool(),
        None => None,
    };
    set_flag(&mut result, "generate_audio", audio);
    result
}

} // verus!
