//! Request bodies of the Kling API: the flat protocol and the one with
//! contents, settings and options.
use vstd::prelude::*;
use vstd::string::*;
use crate::json::{
    carry, carry_all, copy_items, copy_members, filled, filled_text_at, items_in, list1, list2,
    list3, member_of, members_in, names, no_members, opt_filled, opt_str, opt_view, or_get,
    or_member, picked, set_some, single, switched_on, tagged, tagged_array, text_at, text_in,
    text_or, texts, views, with_some, Json, JsonMap, Jv,
};
use crate::media::{
    collect_image_urls, collect_media_values, image_urls, media_values, place_items, placed,
    placed_views, Placed,
};
use crate::text::{ascii_small, contains, holds, same, to_ascii_lowercase, trim, trimmed};

verus! {

/// The members that the video interface takes over as they are.
pub open spec fn video_keys() -> Seq<Seq<char>> {
    seq![
        "prompt"@,
        "negative_prompt"@,
        "duration"@,
        "mode"@,
        "sound"@,
        "aspect_ratio"@,
        "image"@,
        "image_tail"@,
        "image_list"@,
        "video_list"@,
        "type"@,
        "multi_shot"@,
        "multi_prompt"@,
        "callback_url"@,
        "external_task_id"@,
        "cfg_scale"@,
        "camera_control"@,
        "shot_type"@,
        "element_list"@,
        "voice_list"@,
    ]
}

fn video_key_list() -> (r: Vec<&'static str>)
    ensures
        names(r@) == video_keys(),
{
    let r = vec![
        "prompt",
        "negative_prompt",
        "duration",
        "mode",
        "sound",
        "aspect_ratio",
        "image",
        "image_tail",
        "image_list",
        "video_list",
        "type",
        "multi_shot",
        "multi_prompt",
        "callback_url",
        "external_task_id",
        "cfg_scale",
        "camera_control",
        "shot_type",
        "element_list",
        "voice_list",
    ];
    assert(names(r@) =~= video_keys());
    r
}

/// The members that the image interface takes over as they are.
pub open spec fn image_keys() -> Seq<Seq<char>> {
    seq![
        "prompt"@,
        "negative_prompt"@,
        "n"@,
        "aspect_ratio"@,
        "resolution"@,
        "image"@,
        "image_list"@,
        "element_list"@,
        "subject_image_list"@,
        "image_fidelity"@,
        "series_amount"@,
        "callback_url"@,
        "external_task_id"@,
        "image_reference"@,
        "result_type"@,
        "watermark_info"@,
    ]
}

fn image_key_list() -> (r: Vec<&'static str>)
    ensures
        names(r@) == image_keys(),
{
    let r = vec![
        "prompt",
        "negative_prompt",
        "n",
        "aspect_ratio",
        "resolution",
        "image",
        "image_list",
        "element_list",
        "subject_image_list",
        "image_fidelity",
        "series_amount",
        "callback_url",
        "external_task_id",
        "image_reference",
        "result_type",
        "watermark_info",
    ];
    assert(names(r@) =~= image_keys());
    r
}

/// Whether a role names the first frame.
pub open spec fn first_frame_role(role: Seq<char>) -> bool {
    role == "first_frame"@ || role == "first"@
}

/// Whether a role names the last frame.
pub open spec fn end_frame_role(role: Seq<char>) -> bool {
    role == "last_frame"@ || role == "end_frame"@ || role == "last"@ || role == "tail"@
}

pub fn is_kling_first_frame(role: &str) -> (r: bool)
    ensures
        r == first_frame_role(role@),
{
    same(role, "first_frame") || same(role, "first")
}

pub fn is_kling_end_frame(role: &str) -> (r: bool)
    ensures
        r == end_frame_role(role@),
{
    same(role, "last_frame") || same(role, "end_frame") || same(role, "last") || same(role, "tail")
}

/// Whether no element has a role.
pub open spec fn all_plain(items: Seq<(Seq<char>, Seq<char>)>) -> bool {
    forall|i: int| 0 <= i < items.len() ==> (#[trigger] items[i]).1.len() == 0
}

fn every_plain(items: &Vec<Placed>) -> (r: bool)
    ensures
        r == all_plain(placed_views(items@)),
{
    let ghost v = placed_views(items@);
    let mut i: usize = 0;
    while i < items.len()
        invariant
            i <= items@.len(),
            v == placed_views(items@),
            forall|k: int| 0 <= k < i ==> (#[trigger] v[k]).1.len() == 0,
        decreases items@.len() - i,
    {
        if !items[i].role.as_str().is_empty() {
            assert(v[i as int].1.len() != 0);
            return false;
        }
        assert(v[i as int].1.len() == 0);
        i += 1;
    }
    true
}

/// Whether an element is a reference image.
pub open spec fn any_reference(items: Seq<(Seq<char>, Seq<char>)>) -> bool {
    exists|i: int| 0 <= i < items.len() && (#[trigger] items[i]).1 == "reference_image"@
}

fn some_reference(items: &Vec<Placed>) -> (r: bool)
    ensures
        r == any_reference(placed_views(items@)),
{
    let ghost v = placed_views(items@);
    let mut i: usize = 0;
    while i < items.len()
        invariant
            i <= items@.len(),
            v == placed_views(items@),
            forall|k: int| 0 <= k < i ==> (#[trigger] v[k]).1 != "reference_image"@,
        decreases items@.len() - i,
    {
        if same(items[i].role.as_str(), "reference_image") {
            assert(v[i as int].1 == "reference_image"@);
            return true;
        }
        assert(v[i as int].1 != "reference_image"@);
        i += 1;
    }
    false
}

// ---------------------------------------------------------------- flat protocol

/// The frame that an image of the omni interface is: two images without roles
/// are the first and the last frame, otherwise the role decides.
pub open spec fn omni_image(i: int, pair: bool, url: Seq<char>, role: Seq<char>) -> Jv {
    let entry = single("image_url"@, Jv::Str(url));
    if pair {
        entry.with(
            "type"@,
            Jv::Str(
                if i == 0 {
                    "first_frame"@
                } else {
                    "end_frame"@
                },
            ),
        )
    } else if first_frame_role(role) {
        entry.with("type"@, Jv::Str("first_frame"@))
    } else if end_frame_role(role) {
        entry.with("type"@, Jv::Str("end_frame"@))
    } else {
        entry
    }
}

/// The images of the omni interface.
pub open spec fn omni_images(items: Seq<(Seq<char>, Seq<char>)>) -> Jv {
    let pair = items.len() == 2 && all_plain(items);
    Jv::Arr(Seq::new(items.len(), |i: int| omni_image(i, pair, items[i].0, items[i].1)))
}

fn make_omni_images(items: &Vec<Placed>) -> (r: Json)
    ensures
        r@ == omni_images(placed_views(items@)),
{
    let ghost v = placed_views(items@);
    let pair = items.len() == 2 && every_plain(items);
    let mut out: Vec<Json> = Vec::new();
    let mut i: usize = 0;
    while i < items.len()
        invariant
            i <= items@.len(),
            out@.len() == i,
            v == placed_views(items@),
            forall|k: int|
                0 <= k < i ==> #[trigger] out@[k]@ == omni_image(k, pair, v[k].0, v[k].1),
        decreases items@.len() - i,
    {
        let mut entry = Json::empty().with("image_url", Json::text(items[i].url.as_str()));
        assert(v[i as int] == (items@[i as int].url@, items@[i as int].role@));
        if pair {
            if i == 0 {
                entry.set("type", Json::text("first_frame"));
            } else {
                entry.set("type", Json::text("end_frame"));
            }
        } else if is_kling_first_frame(items[i].role.as_str()) {
            entry.set("type", Json::text("first_frame"));
        } else if is_kling_end_frame(items[i].role.as_str()) {
            entry.set("type", Json::text("end_frame"));
        }
        out.push(entry);
        i += 1;
    }
    proof {
        assert(views(out@) =~= omni_images(v)->Arr_0);
    }
    Json::arr(out)
}

/// The frames that roles name: the last image with each role.
pub open spec fn named_frames(items: Seq<(Seq<char>, Seq<char>)>) -> (
    Option<Seq<char>>,
    Option<Seq<char>>,
)
    decreases items.len(),
{
    if items.len() == 0 {
        (None, None)
    } else {
        let (first, tail) = named_frames(items.drop_last());
        let (url, role) = items.last();
        if first_frame_role(role) {
            (Some(url), tail)
        } else if end_frame_role(role) {
            (first, Some(url))
        } else {
            (first, tail)
        }
    }
}

/// Frames with the free places taken by the images whose role names no frame.
pub open spec fn filled_frames(
    items: Seq<(Seq<char>, Seq<char>)>,
    named: (Option<Seq<char>>, Option<Seq<char>>),
) -> (Option<Seq<char>>, Option<Seq<char>>)
    decreases items.len(),
{
    if items.len() == 0 {
        named
    } else {
        let (first, tail) = filled_frames(items.drop_last(), named);
        let (url, role) = items.last();
        if first_frame_role(role) || end_frame_role(role) {
            (first, tail)
        } else if first is None {
            (Some(url), tail)
        } else if tail is None {
            (first, Some(url))
        } else {
            (first, tail)
        }
    }
}

/// The first and the last frame: as the roles name them, free places in the
/// order of the images.
pub open spec fn frames(items: Seq<(Seq<char>, Seq<char>)>) -> (
    Option<Seq<char>>,
    Option<Seq<char>>,
) {
    let named = named_frames(items);
    if named.0 is None && named.1 is None {
        (
            Some(items[0].0),
            if items.len() >= 2 {
                Some(items[1].0)
            } else {
                None
            },
        )
    } else {
        filled_frames(items, named)
    }
}

/// Two addresses that may be absent.
pub open spec fn frame_views(f: (Option<String>, Option<String>)) -> (
    Option<Seq<char>>,
    Option<Seq<char>>,
) {
    (
        match f.0 {
            Some(s) => Some(s@),
            None => None,
        },
        match f.1 {
            Some(s) => Some(s@),
            None => None,
        },
    )
}

fn choose_frames(items: &Vec<Placed>) -> (r: (Option<String>, Option<String>))
    requires
        items@.len() > 0,
    ensures
        frame_views(r) == frames(placed_views(items@)),
{
    let ghost v = placed_views(items@);
    let mut first: Option<String> = None;
    let mut tail: Option<String> = None;
    let mut i: usize = 0;
    proof {
        assert(v.take(0) =~= Seq::<(Seq<char>, Seq<char>)>::empty());
    }
    while i < items.len()
        invariant
            i <= items@.len(),
            v == placed_views(items@),
            frame_views((first, tail)) == named_frames(v.take(i as int)),
        decreases items@.len() - i,
    {
        proof {
            assert(v.take(i + 1).drop_last() =~= v.take(i as int));
            assert(v.take(i + 1).last() == (items@[i as int].url@, items@[i as int].role@));
        }
        if is_kling_first_frame(items[i].role.as_str()) {
            first = Some(items[i].url.clone());
        } else if is_kling_end_frame(items[i].role.as_str()) {
            tail = Some(items[i].url.clone());
        }
        i += 1;
    }
    proof {
        assert(v.take(i as int) =~= v);
    }
    if first.is_none() && tail.is_none() {
        let second = if items.len() >= 2 {
            Some(items[1].url.clone())
        } else {
            None
        };
        return (Some(items[0].url.clone()), second);
    }
    let ghost named = frame_views((first, tail));
    let mut k: usize = 0;
    proof {
        assert(v.take(0) =~= Seq::<(Seq<char>, Seq<char>)>::empty());
    }
    while k < items.len()
        invariant
            k <= items@.len(),
            v == placed_views(items@),
            frame_views((first, tail)) == filled_frames(v.take(k as int), named),
        decreases items@.len() - k,
    {
        proof {
            assert(v.take(k + 1).drop_last() =~= v.take(k as int));
            assert(v.take(k + 1).last() == (items@[k as int].url@, items@[k as int].role@));
        }
        if !is_kling_first_frame(items[k].role.as_str()) && !is_kling_end_frame(
            items[k].role.as_str(),
        ) {
            if first.is_none() {
                first = Some(items[k].url.clone());
            } else if tail.is_none() {
                tail = Some(items[k].url.clone());
            }
        }
        k += 1;
    }
    proof {
        assert(v.take(k as int) =~= v);
    }
    (first, tail)
}

/// The addresses of elements.
pub open spec fn urls_of(items: Seq<(Seq<char>, Seq<char>)>) -> Seq<Seq<char>> {
    items.map_values(|p: (Seq<char>, Seq<char>)| p.0)
}

fn list_urls(items: &Vec<Placed>) -> (r: Vec<String>)
    ensures
        texts(r@) == urls_of(placed_views(items@)),
{
    let mut out: Vec<String> = Vec::new();
    let mut i: usize = 0;
    while i < items.len()
        invariant
            i <= items@.len(),
            out@.len() == i,
            forall|k: int| 0 <= k < i ==> #[trigger] out@[k]@ == items@[k].url@,
        decreases items@.len() - i,
    {
        out.push(items[i].url.clone());
        i += 1;
    }
    proof {
        assert(texts(out@) =~= urls_of(placed_views(items@)));
    }
    out
}

/// The body with the images of a video request put in: the omni interface
/// takes a list; otherwise references and more than two images make a list,
/// and one or two images are frames.
pub open spec fn with_video_images(
    r: Jv,
    items: Seq<(Seq<char>, Seq<char>)>,
    omni: bool,
) -> Jv {
    if items.len() == 0 {
        r
    } else if omni {
        r.with("image_list"@, omni_images(items))
    } else if any_reference(items) || items.len() > 2 {
        r.with("image_list"@, tagged(urls_of(items), "image"@))
    } else {
        let (first, tail) = frames(items);
        let a = match first {
            Some(u) => r.with("image"@, Jv::Str(u)),
            None => r,
        };
        match tail {
            Some(u) => a.with("image_tail"@, Jv::Str(u)),
            None => a,
        }
    }
}

fn put_video_images(result: &mut Json, items: &Vec<Placed>, omni: bool)
    requires
        old(result)@ is Obj,
    ensures
        final(result)@ == with_video_images(old(result)@, placed_views(items@), omni),
        final(result)@ is Obj,
{
    if items.len() == 0 {
        return ;
    }
    if omni {
        result.set("image_list", make_omni_images(items));
    } else if some_reference(items) || items.len() > 2 {
        let urls = list_urls(items);
        result.set("image_list", tagged_array(&urls, "image"));
    } else {
        let (first, tail) = choose_frames(items);
        match first {
            Some(u) => {
                result.set("image", Json::text(u.as_str()));
            },
            None => {},
        }
        match tail {
            Some(u) => {
                result.set("image_tail", Json::text(u.as_str()));
            },
            None => {},
        }
    }
}

/// A video of the omni interface: its role is how it is referred to.
pub open spec fn omni_video(url: Seq<char>, role: Seq<char>) -> Jv {
    single("video_url"@, Jv::Str(url)).with(
        "refer_type"@,
        Jv::Str(
            if role.len() > 0 {
                role
            } else {
                "base"@
            },
        ),
    )
}

pub open spec fn omni_videos(items: Seq<(Seq<char>, Seq<char>)>) -> Jv {
    Jv::Arr(items.map_values(|p: (Seq<char>, Seq<char>)| omni_video(p.0, p.1)))
}

fn make_omni_videos(items: &Vec<Placed>) -> (r: Json)
    ensures
        r@ == omni_videos(placed_views(items@)),
{
    let mut out: Vec<Json> = Vec::new();
    let mut i: usize = 0;
    while i < items.len()
        invariant
            i <= items@.len(),
            out@.len() == i,
            forall|k: int|
                0 <= k < i ==> #[trigger] out@[k]@ == omni_video(items@[k].url@, items@[k].role@),
        decreases items@.len() - i,
    {
        let refer = if items[i].role.as_str().is_empty() {
            "base"
        } else {
            items[i].role.as_str()
        };
        out.push(
            Json::empty().with("video_url", Json::text(items[i].url.as_str())).with(
                "refer_type",
                Json::text(refer),
            ),
        );
        i += 1;
    }
    proof {
        assert(views(out@) =~= omni_videos(placed_views(items@))->Arr_0);
    }
    Json::arr(out)
}

/// The mode of a video request: from its resolution.
pub open spec fn video_mode(body: Jv) -> Seq<char> {
    match text_at(body, "resolution"@) {
        Some(res) => if ascii_small(res) == "1080p"@ {
            "pro"@
        } else if ascii_small(res) == "4k"@ {
            "4k"@
        } else {
            "std"@
        },
        None => "std"@,
    }
}

/// Whether a path leads to the omni interface.
pub open spec fn is_omni_path(path: Seq<char>) -> bool {
    holds(path, "omni-video"@) || holds(path, "omni-image"@)
}

/// The members that every request takes over: the model name, those on the
/// list, the sound switch of a video and the ratio under its own name.
pub open spec fn kling_base(model: Seq<char>, body: Jv, category: Seq<char>) -> Jv {
    let a = single("model_name"@, Jv::Str(text_or(body, "model_name"@, model)));
    let b = carry_all(
        a,
        body,
        if category == "图片"@ {
            image_keys()
        } else {
            video_keys()
        },
    );
    let c = match body.member("generate_audio"@) {
        Some(ga) => if category == "视频"@ {
            b.with(
                "sound"@,
                Jv::Str(
                    if switched_on(ga) {
                        "on"@
                    } else {
                        "off"@
                    },
                ),
            )
        } else {
            b
        },
        None => b,
    };
    if c.member("aspect_ratio"@) is None {
        carry(c, body, "ratio"@, "aspect_ratio"@)
    } else {
        c
    }
}

/// What a video request adds: its mode, its images and, on the omni
/// interface, its videos; what the request names itself stays.
pub open spec fn kling_video_part(base: Jv, body: Jv, omni: bool) -> Jv {
    let a = if base.member("mode"@) is None {
        base.with("mode"@, Jv::Str(video_mode(body)))
    } else {
        base
    };
    let b = if a.member("image"@) is None && a.member("image_tail"@) is None && a.member(
        "image_list"@,
    ) is None {
        with_video_images(
            a,
            placed(media_values(body, seq!["images"@, "image_urls"@]), Some(""@), false),
            omni,
        )
    } else {
        a
    };
    let videos = placed(
        media_values(body, seq!["videos"@, "video_urls"@]),
        Some(""@),
        false,
    );
    if omni && b.member("video_list"@) is None && videos.len() > 0 {
        b.with("video_list"@, omni_videos(videos))
    } else {
        b
    }
}

/// What an image request adds: its resolution and its images; the lists that
/// the request names itself stay.
pub open spec fn kling_image_part(base: Jv, body: Jv, omni: bool) -> Jv {
    let a = if base.member("resolution"@) is None {
        base.with("resolution"@, Jv::Str(text_or(body, "size"@, "1k"@)))
    } else {
        base
    };
    if a.member("subject_image_list"@) is None && a.member("image_list"@) is None {
        let urls = image_urls(body, seq!["image"@, "image_urls"@]);
        let b = a.without("image"@);
        if urls.len() == 0 {
            b
        } else if omni {
            b.with("image_list"@, tagged(urls, "image"@))
        } else if urls.len() == 1 {
            b.with("image"@, Jv::Str(urls[0]))
        } else {
            b.with("subject_image_list"@, tagged(urls, "subject_image"@))
        }
    } else {
        a
    }
}

/// The body of a request in the flat protocol.
pub open spec fn kling_body(
    model: Seq<char>,
    body: Jv,
    category: Seq<char>,
    upstream_path: Seq<char>,
) -> Jv {
    let base = kling_base(model, body, category);
    if category == "图片"@ {
        kling_image_part(base, body, is_omni_path(upstream_path))
    } else {
        kling_video_part(base, body, is_omni_path(upstream_path))
    }
}

fn make_kling_base(model: &str, body: &Json, category: &str) -> (r: Json)
    ensures
        r@ == kling_base(model@, body@, category@),
        r@ is Obj,
{
    let mut result = Json::empty().with("model_name", Json::text(body.get_str_or("model_name", model)));
    let keys = if same(category, "图片") {
        image_key_list()
    } else {
        video_key_list()
    };
    result.carry_all(body, &keys);
    match body.get("generate_audio") {
        Some(ga) => {
            if same(category, "视频") {
                let sound = if ga.is_on() {
                    "on"
                } else {
                    "off"
                };
                result.set("sound", Json::text(sound));
            }
        },
        None => {},
    }
    if !result.has("aspect_ratio") {
        result.carry(body, "ratio", "aspect_ratio");
    }
    result
}

fn put_video_part(result: &mut Json, body: &Json, omni: bool)
    requires
        old(result)@ is Obj,
    ensures
        final(result)@ == kling_video_part(old(result)@, body@, omni),
{
    if !result.has("mode") {
        let mode = match body.get_str("resolution") {
            Some(res) => {
                let low = to_ascii_lowercase(res);
                if same(low.as_str(), "1080p") {
                    "pro"
                } else if same(low.as_str(), "4k") {
                    "4k"
                } else {
                    "std"
                }
            },
            None => "std",
        };
        result.set("mode", Json::text(mode));
    }
    if !result.has("image") && !result.has("image_tail") && !result.has("image_list") {
        let fields = list2("images", "image_urls");
        let images = collect_media_values(body, &fields);
        let items = place_items(&images, Some(""), false);
        put_video_images(result, &items, omni);
    }
    if omni && !result.has("video_list") {
        let fields = list2("videos", "video_urls");
        let videos = collect_media_values(body, &fields);
        let items = place_items(&videos, Some(""), false);
        if items.len() > 0 {
            result.set("video_list", make_omni_videos(&items));
        }
    }
}

fn put_image_part(result: &mut Json, body: &Json, omni: bool)
    requires
        old(result)@ is Obj,
    ensures
        final(result)@ == kling_image_part(old(result)@, body@, omni),
{
    if !result.has("resolution") {
        result.set("resolution", Json::text(body.get_str_or("size", "1k")));
    }
    if !result.has("subject_image_list") && !result.has("image_list") {
        let fields = list2("image", "image_urls");
        let urls = collect_image_urls(body, &fields);
        result.del("image");
        if urls.len() == 0 {
            return ;
        }
        if omni {
            result.set("image_list", tagged_array(&urls, "image"));
        } else if urls.len() == 1 {
            assert(texts(urls@)[0] == urls@[0]@);
            result.set("image", Json::text(urls[0].as_str()));
        } else {
            result.set("subject_image_list", tagged_array(&urls, "subject_image"));
        }
    }
}

/// Builds the body of a request in the flat protocol.
pub fn build_kling_body(model: &str, body: &Json, category: &str, upstream_path: &str) -> (r: Json)
    ensures
        r@ == kling_body(model@, body@, category@, upstream_path@),
{
    let omni = contains(upstream_path, "omni-video") || contains(upstream_path, "omni-image");
    let mut result = make_kling_base(model, body, category);
    if same(category, "图片") {
        put_image_part(&mut result, body, omni);
    } else {
        put_video_part(&mut result, body, omni);
    }
    result
}

// ---------------------------------------------------------------- contents, settings, options

/// One element of the contents.
pub open spec fn content_item(kind: Seq<char>, url: Seq<char>) -> Jv {
    single("type"@, Jv::Str(kind)).with("url"@, Jv::Str(url))
}

pub fn kling_v3_content_item(kind: &str, url: &str) -> (r: Json)
    ensures
        r@ == content_item(kind@, url@),
{
    Json::empty().with("type", Json::text(kind)).with("url", Json::text(url))
}

/// What an image is: two images without roles are the first and the last
/// frame, otherwise the role decides, and without one the first image is the
/// first frame and any other a reference.
pub open spec fn content_image_type(role: Seq<char>, i: int, pair: bool) -> Seq<char> {
    let low = ascii_small(role);
    if pair {
        if i == 0 {
            "first_frame"@
        } else {
            "last_frame"@
        }
    } else if first_frame_role(low) {
        "first_frame"@
    } else if end_frame_role(low) {
        "last_frame"@
    } else if low == "refer_image"@ || low == "reference_image"@ {
        "refer_image"@
    } else if i == 0 {
        "first_frame"@
    } else {
        "refer_image"@
    }
}

pub fn kling_v3_image_type(role: &str, idx: usize, pair_plain: bool) -> (r: &'static str)
    ensures
        r@ == content_image_type(role@, idx as int, pair_plain),
{
    if pair_plain {
        return if idx == 0 {
            "first_frame"
        } else {
            "last_frame"
        };
    }
    let low = to_ascii_lowercase(role);
    if is_kling_first_frame(low.as_str()) {
        "first_frame"
    } else if is_kling_end_frame(low.as_str()) {
        "last_frame"
    } else if same(low.as_str(), "refer_image") || same(low.as_str(), "reference_image") {
        "refer_image"
    } else if idx == 0 {
        "first_frame"
    } else {
        "refer_image"
    }
}

/// A setting: under the settings, or else at the top of the body.
pub open spec fn setting(body: Jv, key: Seq<char>) -> Option<Jv> {
    or_member(member_of(body.member("settings"@), key), body, key)
}

/// A setting: under the settings, or else at the top of the body.
pub fn get_setting<'a>(body: &'a Json, key: &str) -> (r: Option<&'a Json>)
    ensures
        opt_view(r) == setting(body@, key@),
{
    let inner = match body.get("settings") {
        Some(s) => s.get(key),
        None => None,
    };
    or_get(inner, body, key)
}

/// The audio setting: "off" or "native".
pub open spec fn audio_setting(body: Jv) -> Seq<char> {
    match text_in(setting(body, "audio"@)) {
        Some(a) => if ascii_small(a) == "off"@ || ascii_small(a) == "false"@ {
            "off"@
        } else {
            "native"@
        },
        None => match body.member("generate_audio"@) {
            Some(ga) => if switched_on(ga) {
                "native"@
            } else {
                "off"@
            },
            None => "off"@,
        },
    }
}

/// The settings of a request.
pub open spec fn kling_settings(body: Jv) -> Jv {
    let a = single(
        "resolution"@,
        Jv::Str(
            match filled(text_in(setting(body, "resolution"@))) {
                Some(s) => ascii_small(s),
                None => "720p"@,
            },
        ),
    );
    let b = with_some(a, "duration"@, setting(body, "duration"@));
    let c = b.with("audio"@, Jv::Str(audio_setting(body)));
    let d = with_some(
        c,
        "aspect_ratio"@,
        or_member(setting(body, "aspect_ratio"@), body, "ratio"@),
    );
    with_some(d, "multi_shot"@, setting(body, "multi_shot"@))
}

pub fn kling_v3_build_settings(body: &Json) -> (r: Json)
    ensures
        r@ == kling_settings(body@),
        r@ is Obj,
{
    let mut settings = match opt_filled(opt_str(get_setting(body, "resolution"))) {
        Some(s) => {
            let low = to_ascii_lowercase(s);
            Json::empty().with("resolution", Json::text(low.as_str()))
        },
        None => Json::empty().with("resolution", Json::text("720p")),
    };
    set_some(&mut settings, "duration", get_setting(body, "duration"));
    let audio = match opt_str(get_setting(body, "audio")) {
        Some(a) => {
            let low = to_ascii_lowercase(a);
            if same(low.as_str(), "off") || same(low.as_str(), "false") {
                "off"
            } else {
                "native"
            }
        },
        None => match body.get("generate_audio") {
            Some(ga) => if ga.is_on() {
                "native"
            } else {
                "off"
            },
            None => "off",
        },
    };
    settings.set("audio", Json::text(audio));
    set_some(
        &mut settings,
        "aspect_ratio",
        or_get(get_setting(body, "aspect_ratio"), body, "ratio"),
    );
    set_some(&mut settings, "multi_shot", get_setting(body, "multi_shot"));
    settings
}

/// The keys that move from the top of the body into the options.
pub open spec fn option_keys() -> Seq<Seq<char>> {
    seq!["callback_url"@, "external_task_id"@, "watermark_info"@]
}

/// The options of a request: its own, and those at the top of the body that
/// they do not name.
pub open spec fn kling_options(body: Jv) -> Map<Seq<char>, Jv> {
    picked(body, option_keys()).union_prefer_right(members_in(body.member("options"@)))
}

pub fn kling_v3_build_options(body: &Json) -> (r: JsonMap)
    ensures
        r@ == kling_options(body@),
{
    let mut options = copy_members(body.get("options"));
    let ghost own = options@;
    let keys = list3("callback_url", "external_task_id", "watermark_info");
    let mut top = Json::empty();
    top.carry_all(body, &keys);
    proof {
        assert(Map::<Seq<char>, Jv>::empty().union_prefer_right(picked(body@, option_keys()))
            =~= picked(body@, option_keys()));
    }
    match top {
        Json::Obj(m) => {
            options.fill_from(&m);
        },
        _ => {},
    }
    options
}

/// The images of a request as contents.
pub open spec fn content_images(items: Seq<(Seq<char>, Seq<char>)>) -> Seq<Jv> {
    let pair = items.len() == 2 && all_plain(items);
    Seq::new(
        items.len(),
        |i: int| content_item(content_image_type(items[i].1, i, pair), items[i].0),
    )
}

/// What a video is: a feature video where its role says so.
pub open spec fn content_video(url: Seq<char>, role: Seq<char>) -> Jv {
    let low = ascii_small(role);
    content_item(
        if low == "feature"@ || low == "feature_video"@ {
            "feature_video"@
        } else {
            "base_video"@
        },
        url,
    )
}

/// The videos of a request as contents.
pub open spec fn content_videos(items: Seq<(Seq<char>, Seq<char>)>) -> Seq<Jv> {
    items.map_values(|p: (Seq<char>, Seq<char>)| content_video(p.0, p.1))
}

/// The media of a request as contents.
pub open spec fn content_media(body: Jv, omni: bool) -> Seq<Jv> {
    let images = content_images(placed(media_values(body, seq!["images"@, "image_urls"@]), Some(""@), false));
    if omni || body.member("videos"@) is Some {
        images + content_videos(placed(media_values(body, seq!["videos"@]), Some(""@), false))
    } else {
        images
    }
}

fn make_content_media(body: &Json, omni: bool) -> (r: Vec<Json>)
    ensures
        views(r@) == content_media(body@, omni),
{
    let fields = list2("images", "image_urls");
    let images = collect_media_values(body, &fields);
    let items = place_items(&images, Some(""), false);
    let ghost v = placed_views(items@);
    let pair = items.len() == 2 && every_plain(&items);
    let mut out: Vec<Json> = Vec::new();
    let mut i: usize = 0;
    while i < items.len()
        invariant
            i <= items@.len(),
            out@.len() == i,
            v == placed_views(items@),
            forall|k: int|
                0 <= k < i ==> #[trigger] out@[k]@ == content_item(
                    content_image_type(v[k].1, k, pair),
                    v[k].0,
                ),
        decreases items@.len() - i,
    {
        assert(v[i as int] == (items@[i as int].url@, items@[i as int].role@));
        let kind = kling_v3_image_type(items[i].role.as_str(), i, pair);
        out.push(kling_v3_content_item(kind, items[i].url.as_str()));
        i += 1;
    }
    proof {
        assert(views(out@) =~= content_images(v));
    }
    if omni || body.has("videos") {
        let vfields = list1("videos");
        let videos = collect_media_values(body, &vfields);
        let clips = place_items(&videos, Some(""), false);
        let ghost w = placed_views(clips@);
        let ghost head = views(out@);
        let mut k: usize = 0;
        proof {
            assert(views(out@) =~= head + content_videos(w).take(0));
        }
        while k < clips.len()
            invariant
                k <= clips@.len(),
                w == placed_views(clips@),
                views(out@) == head + content_videos(w).take(k as int),
            decreases clips@.len() - k,
        {
            let low = to_ascii_lowercase(clips[k].role.as_str());
            let kind = if same(low.as_str(), "feature") || same(low.as_str(), "feature_video") {
                "feature_video"
            } else {
                "base_video"
            };
            let ghost before = out@;
            let item = kling_v3_content_item(kind, clips[k].url.as_str());
            proof {
                assert(w[k as int] == (clips@[k as int].url@, clips@[k as int].role@));
                assert(content_videos(w)[k as int] == item@);
            }
            out.push(item);
            proof {
                assert(views(out@) =~= views(before).push(item@));
                assert(content_videos(w).take(k + 1) =~= content_videos(w).take(k as int).push(
                    item@,
                ));
                assert(views(out@) =~= head + content_videos(w).take(k + 1));
            }
            k += 1;
        }
        proof {
            assert(content_videos(w).take(k as int) =~= content_videos(w));
        }
    }
    out
}

/// Whether the contents hold a prompt.
pub open spec fn has_prompt_item(items: Seq<Jv>) -> bool {
    exists|i: int|
        0 <= i < items.len() && text_at(#[trigger] items[i], "type"@) == Some("prompt"@)
}

fn finds_prompt_item(items: &Vec<Json>) -> (r: bool)
    ensures
        r == has_prompt_item(views(items@)),
{
    let ghost v = views(items@);
    let mut i: usize = 0;
    while i < items.len()
        invariant
            i <= items@.len(),
            v == views(items@),
            forall|k: int| 0 <= k < i ==> text_at(#[trigger] v[k], "type"@) != Some("prompt"@),
        decreases items@.len() - i,
    {
        assert(v[i as int] == items@[i as int]@);
        let found = match items[i].get_str("type") {
            Some(t) => same(t, "prompt"),
            None => false,
        };
        if found {
            return true;
        }
        i += 1;
    }
    false
}

/// The prompt as an element of the contents.
pub open spec fn prompt_item(text: Seq<char>) -> Jv {
    single("type"@, Jv::Str("prompt"@)).with("text"@, Jv::Str(text))
}

/// The body with the prompt moved from its top into the contents, where the
/// contents hold none; an empty prompt is dropped.
pub open spec fn prompt_moved(body: Jv) -> Jv {
    match body.member("prompt"@) {
        Some(p) => {
            let rest = body.without("prompt"@);
            let text = trimmed(
                match p.text() {
                    Some(s) => s,
                    None => ""@,
                },
            );
            if text.len() == 0 {
                rest
            } else {
                let items = items_in(rest.member("contents"@));
                rest.with(
                    "contents"@,
                    Jv::Arr(
                        if has_prompt_item(items) {
                            items
                        } else {
                            seq![prompt_item(text)] + items
                        },
                    ),
                )
            }
        },
        None => body,
    }
}

fn make_prompt_item(text: &str) -> (r: Json)
    ensures
        r@ == prompt_item(text@),
{
    Json::empty().with("type", Json::text("prompt")).with("text", Json::text(text))
}

fn move_prompt(out: &mut Json)
    requires
        old(out)@ is Obj,
    ensures
        final(out)@ == prompt_moved(old(out)@),
        final(out)@ is Obj,
{
    let text = match out.get("prompt") {
        Some(p) => match p.as_str() {
            Some(s) => trim(s).to_owned(),
            None => trim("").to_owned(),
        },
        None => {
            return ;
        },
    };
    out.del("prompt");
    if text.as_str().is_empty() {
        return ;
    }
    let mut items = copy_items(out.get("contents"));
    if !finds_prompt_item(&items) {
        let ghost before = items@;
        items.insert(0, make_prompt_item(text.as_str()));
        proof {
            assert(views(items@) =~= seq![prompt_item(text@)] + views(before));
        }
    }
    out.set("contents", Json::arr(items));
}

/// The body with its options put in, where it has any.
pub open spec fn with_options(r: Jv, body: Jv) -> Jv {
    if kling_options(body) == Map::<Seq<char>, Jv>::empty() {
        r
    } else {
        r.with("options"@, Jv::Obj(kling_options(body)))
    }
}

fn put_options(result: &mut Json, body: &Json)
    requires
        old(result)@ is Obj,
    ensures
        final(result)@ == with_options(old(result)@, body@),
        final(result)@ is Obj,
{
    let options = kling_v3_build_options(body);
    if !options.is_empty() {
        result.set("options", Json::obj(options));
    }
}

/// A request that has the contents already (or, except on the omni interface,
/// prompt and settings): it keeps what it names, without its model.
pub open spec fn kling_native(body: Jv, omni: bool) -> Jv {
    let a = body.without("model"@).without("model_name"@);
    let b = if omni {
        prompt_moved(a)
    } else {
        a
    };
    let settings = kling_settings(body)->Obj_0.union_prefer_right(
        members_in(b.member("settings"@)),
    );
    with_options(b.with("settings"@, Jv::Obj(settings)), body)
}

/// A request in flat form: text alone keeps its prompt at the top, anything
/// else puts it first in the contents.
pub open spec fn kling_converted(body: Jv, omni: bool) -> Jv {
    let media = content_media(body, omni);
    let a = if !omni && media.len() == 0 {
        carry(no_members(), body, "prompt"@, "prompt"@)
    } else {
        let head = match filled_text_at(body, "prompt"@) {
            Some(p) => seq![prompt_item(p)],
            None => Seq::empty(),
        };
        single("contents"@, Jv::Arr(head + media))
    };
    with_options(a.with("settings"@, kling_settings(body)), body)
}

/// The body of a request with contents, settings and options.
pub open spec fn kling_v3_body(body: Jv, upstream_path: Seq<char>) -> Jv {
    let omni = holds(upstream_path, "omni-video"@);
    if body.member("contents"@) is Some || (!omni && body.member("prompt"@) is Some && body.member(
        "settings"@,
    ) is Some) {
        kling_native(body, omni)
    } else {
        kling_converted(body, omni)
    }
}

/// Builds the body of a request with contents, settings and options.
pub fn build_kling_v3_body(body: &Json, upstream_path: &str) -> (r: Json)
    ensures
        r@ == kling_v3_body(body@, upstream_path@),
{
    let omni = contains(upstream_path, "omni-video");
    if body.has("contents") || (!omni && body.has("prompt") && body.has("settings")) {
        let mut out = body.dup();
        out.del("model");
        out.del("model_name");
        if omni {
            move_prompt(&mut out);
        }
        let mut settings = copy_members(out.get("settings"));
        match kling_v3_build_settings(body) {
            Json::Obj(m) => {
                settings.fill_from(&m);
            },
            _ => {},
        }
        out.set("settings", Json::obj(settings));
        put_options(&mut out, body);
        return out;
    }
    let media = make_content_media(body, omni);
    let mut result = Json::empty();
    if !omni && media.len() == 0 {
        result.carry(body, "prompt", "prompt");
    } else {
        let ghost m = views(media@);
        let mut contents: Vec<Json> = Vec::new();
        match body.get_filled_str("prompt") {
            Some(p) => {
                contents.push(make_prompt_item(p));
                proof {
                    assert(views(contents@) =~= seq![prompt_item(p@)]);
                }
            },
            None => {
                proof {
                    assert(views(contents@) =~= Seq::<Jv>::empty());
                }
            },
        }
        let ghost head = views(contents@);
        let mut rest = media;
        contents.append(&mut rest);
        proof {
            assert(views(contents@) =~= head + m);
        }
        result.set("contents", Json::arr(contents));
    }
    result.set("settings", kling_v3_build_settings(body));
    put_options(&mut result, body);
    result
}

} // verus!
