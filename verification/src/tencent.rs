//! Request bodies of the Tencent Cloud VOD API for images and videos.
use vstd::prelude::*;
use vstd::string::*;
use crate::json::{
    as_float, filled, filled_text_at, int_at, items_in, list1, list3, no_members, opt_filled,
    opt_string, opt_str, opt_text, opt_view, or_get, or_member, set_int, set_some, set_text, single,
    switched_on, text_at, text_in, text_or, texts, views, with_int, with_some, with_text, Json, Jv,
};
use crate::kling::{get_setting, setting};
use crate::media::{
    b64_data, base64_payload, collect_image_urls, collect_media_values, image_urls, is_among,
    is_b64, is_base64, media_values, place_items, placed, placed_views, Placed,
};
use crate::ratio::{ratio_of, size_to_ratio, StandardRatio};
use crate::text::{
    ascii_small, parted, same, same_ignore_case, split_once, to_ascii_lowercase, to_uppercase, trim,
    trimmed, capital_letters,
};

verus! {

/// The name and the version of a model: what stands before and after the
/// first `@`; without one the version is empty.
pub open spec fn model_parts(model: Seq<char>) -> (Seq<char>, Seq<char>) {
    match parted(model, "@"@) {
        Some(p) => p,
        None => (model, ""@),
    }
}

/// Splits a model into its name and its version.
pub fn split_model(model_str: &str) -> (r: (&str, &str))
    ensures
        (r.0@, r.1@) == model_parts(model_str@),
{
    match split_once(model_str, "@") {
        Some(p) => p,
        None => (model_str, ""),
    }
}

/// The text of a prompt without the white space around it, where any is left.
pub open spec fn prompt_text(o: Option<Jv>) -> Option<Seq<char>> {
    match text_in(o) {
        Some(s) => filled(Some(trimmed(s))),
        None => None,
    }
}

pub fn tc_prompt_str(v: Option<&Json>) -> (r: Option<&str>)
    ensures
        opt_text(r) == prompt_text(opt_view(v)),
{
    match opt_str(v) {
        Some(s) => opt_filled(Some(trim(s))),
        None => None,
    }
}

/// How a switch is written.
pub open spec fn switch_word(enabled: bool) -> Seq<char> {
    if enabled {
        "Enabled"@
    } else {
        "Disabled"@
    }
}

pub fn tc_en_dis(enabled: bool) -> (r: &'static str)
    ensures
        r@ == switch_word(enabled),
{
    if enabled {
        "Enabled"
    } else {
        "Disabled"
    }
}

/// An address added to a list, unless it is empty or there already.
pub open spec fn push_unique(list: Seq<Seq<char>>, url: Seq<char>) -> Seq<Seq<char>> {
    if url.len() == 0 || list.contains(url) {
        list
    } else {
        list.push(url)
    }
}

pub fn tc_push_unique(dst: &mut Vec<String>, url: &str)
    ensures
        texts(final(dst)@) == push_unique(texts(old(dst)@), url@),
{
    if !url.is_empty() && !is_among(dst, url) {
        let ghost before = dst@;
        dst.push(url.to_owned());
        proof {
            assert(texts(dst@) =~= texts(before).push(url@));
        }
    }
}

/// Whether an address is among images.
pub open spec fn has_image(list: Seq<(Seq<char>, Seq<char>)>, url: Seq<char>) -> bool {
    exists|i: int| 0 <= i < list.len() && (#[trigger] list[i]).0 == url
}

/// An image added to a list, unless its address is empty or there already.
pub open spec fn push_image(
    list: Seq<(Seq<char>, Seq<char>)>,
    url: Seq<char>,
    role: Seq<char>,
) -> Seq<(Seq<char>, Seq<char>)> {
    if url.len() == 0 || has_image(list, url) {
        list
    } else {
        list.push((url, role))
    }
}

pub fn tc_push_image(dst: &mut Vec<Placed>, url: &str, role: &str)
    ensures
        placed_views(final(dst)@) == push_image(placed_views(old(dst)@), url@, role@),
{
    if url.is_empty() {
        return ;
    }
    let ghost v = placed_views(dst@);
    let mut i: usize = 0;
    while i < dst.len()
        invariant
            i <= dst@.len(),
            dst@ == old(dst)@,
            v == placed_views(dst@),
            forall|k: int| 0 <= k < i ==> (#[trigger] v[k]).0 != url@,
        decreases dst@.len() - i,
    {
        assert(v[i as int].0 == dst@[i as int].url@);
        if same(dst[i].url.as_str(), url) {
            return ;
        }
        i += 1;
    }
    let ghost before = dst@;
    dst.push(Placed { url: url.to_owned(), role: role.to_owned() });
    proof {
        assert(placed_views(dst@) =~= placed_views(before).push((url@, role@)));
    }
}

/// The role of a listed image.
pub open spec fn list_image_role(role: Seq<char>) -> Seq<char> {
    if role == "first_frame"@ {
        "first_frame"@
    } else if role == "end_frame"@ || role == "last_frame"@ {
        "last_frame"@
    } else {
        "reference_image"@
    }
}

pub fn tc_list_image_role(role: &str) -> (r: &'static str)
    ensures
        r@ == list_image_role(role@),
{
    if same(role, "first_frame") {
        "first_frame"
    } else if same(role, "end_frame") || same(role, "last_frame") {
        "last_frame"
    } else {
        "reference_image"
    }
}

/// The address of an element of the contents.
pub open spec fn content_url(item: Jv) -> Option<Seq<char>> {
    filled(
        text_in(
            or_member(or_member(item.member("url"@), item, "image_url"@), item, "video_url"@),
        ),
    )
}

pub fn tc_content_media_url(item: &Json) -> (r: Option<&str>)
    ensures
        opt_text(r) == content_url(item@),
{
    let a = item.get("url");
    let b = or_get(a, item, "image_url");
    let c = or_get(b, item, "video_url");
    opt_filled(opt_str(c))
}

/// The prompt at the top of a body.
pub open spec fn top_prompt(body: Jv) -> Option<Seq<char>> {
    prompt_text(or_member(body.member("prompt"@), body, "Prompt"@))
}

/// The first prompt in the contents.
pub open spec fn first_prompt(items: Seq<Jv>) -> Option<Seq<char>>
    decreases items.len(),
{
    if items.len() == 0 {
        None
    } else if text_at(items[0], "type"@) == Some("prompt"@) && prompt_text(
        items[0].member("text"@),
    ) is Some {
        prompt_text(items[0].member("text"@))
    } else {
        first_prompt(items.drop_first())
    }
}

/// The prompt of a request: at its top, or else the first in its contents.
pub open spec fn video_prompt(body: Jv) -> Option<Seq<char>> {
    match top_prompt(body) {
        Some(p) => Some(p),
        None => first_prompt(items_in(body.member("contents"@))),
    }
}

pub fn tc_video_prompt(body: &Json) -> (r: Option<&str>)
    ensures
        opt_text(r) == video_prompt(body@),
{
    let top = tc_prompt_str(or_get(body.get("prompt"), body, "Prompt"));
    if top.is_some() {
        return top;
    }
    match body.get_array("contents") {
        Some(arr) => {
            let ghost all = views(arr@);
            let mut i: usize = 0;
            proof {
                assert(all.skip(0) =~= all);
            }
            while i < arr.len()
                invariant
                    i <= arr@.len(),
                    all == views(arr@),
                    video_prompt(body@) == first_prompt(all.skip(i as int)),
                decreases arr@.len() - i,
            {
                proof {
                    assert(all.skip(i as int).drop_first() =~= all.skip(i + 1));
                    assert(all.skip(i as int)[0] == arr@[i as int]@);
                }
                let prompt = match arr[i].get_str("type") {
                    Some(t) => same(t, "prompt"),
                    None => false,
                };
                if prompt {
                    let text = tc_prompt_str(arr[i].get("text"));
                    if text.is_some() {
                        return text;
                    }
                }
                i += 1;
            }
            None
        },
        None => None,
    }
}

/// What a video request is made from.
#[verifier::ext_equal]
pub struct SourceModel {
    pub prompt: Option<Seq<char>>,
    pub images: Seq<(Seq<char>, Seq<char>)>,
    pub videos: Seq<Seq<char>>,
}

/// What a video request is made from: its prompt, its images with their
/// roles, and its videos.
pub struct VideoSource {
    pub prompt: Option<String>,
    pub images: Vec<Placed>,
    pub videos: Vec<String>,
}

impl View for VideoSource {
    type V = SourceModel;

    open spec fn view(&self) -> SourceModel {
        SourceModel {
            prompt: opt_string(self.prompt),
            images: placed_views(self.images@),
            videos: texts(self.videos@),
        }
    }
}

/// Addresses added to a list, from left to right.
pub open spec fn push_all(list: Seq<Seq<char>>, urls: Seq<Seq<char>>) -> Seq<Seq<char>>
    decreases urls.len(),
{
    if urls.len() == 0 {
        list
    } else {
        push_unique(push_all(list, urls.drop_last()), urls.last())
    }
}

/// Adds the addresses of a field that are not there yet.
pub(crate) fn add_addresses(list: &mut Vec<String>, body: &Json, field: &str)
    ensures
        texts(final(list)@) == push_all(
            texts(old(list)@),
            image_urls(body@, seq![field@]),
        ),
{
    let fields = list1(field);
    let urls = collect_image_urls(body, &fields);
    let ghost start = texts(list@);
    let ghost all = texts(urls@);
    let mut i: usize = 0;
    proof {
        assert(all.take(0) =~= Seq::<Seq<char>>::empty());
    }
    while i < urls.len()
        invariant
            i <= urls@.len(),
            all == texts(urls@),
            texts(list@) == push_all(start, all.take(i as int)),
        decreases urls@.len() - i,
    {
        proof {
            assert(all.take(i + 1).drop_last() =~= all.take(i as int));
            assert(all.take(i + 1).last() == urls@[i as int]@);
        }
        tc_push_unique(list, urls[i].as_str());
        i += 1;
    }
    proof {
        assert(all.take(i as int) =~= all);
    }
}

/// Listed images added, from left to right, with the role that each has.
pub open spec fn push_listed(
    list: Seq<(Seq<char>, Seq<char>)>,
    items: Seq<(Seq<char>, Seq<char>)>,
) -> Seq<(Seq<char>, Seq<char>)>
    decreases items.len(),
{
    if items.len() == 0 {
        list
    } else {
        push_image(
            push_listed(list, items.drop_last()),
            items.last().0,
            list_image_role(items.last().1),
        )
    }
}

/// The images at the top of a body: its image, its last image and its list.
/// Listed images without a role are references beside a video; else their
/// number decides.
pub open spec fn top_images(body: Jv, has_video: bool) -> Seq<(Seq<char>, Seq<char>)> {
    let a = match filled_text_at(body, "image"@) {
        Some(u) => push_image(Seq::empty(), u, "first_frame"@),
        None => Seq::empty(),
    };
    let b = match filled_text_at(body, "image_tail"@) {
        Some(u) => push_image(a, u, "last_frame"@),
        None => a,
    };
    push_listed(
        b,
        placed(
            media_values(body, seq!["image_list"@, "images"@, "image_urls"@]),
            if has_video {
                Some("reference_image"@)
            } else {
                None
            },
            false,
        ),
    )
}

fn add_top_images(body: &Json, has_video: bool) -> (r: Vec<Placed>)
    ensures
        placed_views(r@) == top_images(body@, has_video),
{
    let mut images: Vec<Placed> = Vec::new();
    proof {
        assert(placed_views(images@) =~= Seq::<(Seq<char>, Seq<char>)>::empty());
    }
    match body.get_filled_str("image") {
        Some(u) => {
            tc_push_image(&mut images, u, "first_frame");
        },
        None => {},
    }
    match body.get_filled_str("image_tail") {
        Some(u) => {
            tc_push_image(&mut images, u, "last_frame");
        },
        None => {},
    }
    let ghost start = placed_views(images@);
    let fields = list3("image_list", "images", "image_urls");
    let values = collect_media_values(body, &fields);
    let fixed = if has_video {
        Some("reference_image")
    } else {
        None
    };
    let items = place_items(&values, fixed, false);
    let ghost all = placed_views(items@);
    let mut i: usize = 0;
    proof {
        assert(all.take(0) =~= Seq::<(Seq<char>, Seq<char>)>::empty());
    }
    while i < items.len()
        invariant
            i <= items@.len(),
            all == placed_views(items@),
            placed_views(images@) == push_listed(start, all.take(i as int)),
        decreases items@.len() - i,
    {
        proof {
            assert(all.take(i + 1).drop_last() =~= all.take(i as int));
            assert(all.take(i + 1).last() == (items@[i as int].url@, items@[i as int].role@));
        }
        tc_push_image(
            &mut images,
            items[i].url.as_str(),
            tc_list_image_role(items[i].role.as_str()),
        );
        i += 1;
    }
    proof {
        assert(all.take(i as int) =~= all);
    }
    images
}

/// One element of the contents taken in.
pub open spec fn take_content(src: SourceModel, item: Jv) -> SourceModel {
    let kind = text_or(item, "type"@, ""@);
    if kind == "prompt"@ {
        if src.prompt is None {
            SourceModel { prompt: prompt_text(item.member("text"@)), ..src }
        } else {
            src
        }
    } else {
        match content_url(item) {
            Some(u) => if kind == "first_frame"@ {
                SourceModel { images: push_image(src.images, u, "first_frame"@), ..src }
            } else if kind == "last_frame"@ {
                SourceModel { images: push_image(src.images, u, "last_frame"@), ..src }
            } else if kind == "refer_image"@ {
                SourceModel { images: push_image(src.images, u, "reference_image"@), ..src }
            } else if kind == "base_video"@ || kind == "feature_video"@ {
                SourceModel { videos: push_unique(src.videos, u), ..src }
            } else {
                src
            },
            None => src,
        }
    }
}

/// The contents taken in, from left to right.
pub open spec fn take_contents(src: SourceModel, items: Seq<Jv>) -> SourceModel
    decreases items.len(),
{
    if items.len() == 0 {
        src
    } else {
        take_content(take_contents(src, items.drop_last()), items.last())
    }
}

/// Whether an element of the contents is a video.
pub open spec fn is_video_content(item: Jv) -> bool {
    let kind = text_or(item, "type"@, ""@);
    (kind == "base_video"@ || kind == "feature_video"@) && content_url(item) is Some
}

/// Whether a video stands among the contents.
pub open spec fn has_video_content(items: Seq<Jv>) -> bool {
    exists|i: int| 0 <= i < items.len() && is_video_content(#[trigger] items[i])
}

/// What a video request is made from: what stands at its top, then what its
/// contents add.
pub open spec fn video_source(body: Jv) -> SourceModel {
    let videos = push_all(
        push_all(
            push_all(Seq::empty(), image_urls(body, seq!["video_url"@])),
            image_urls(body, seq!["videos"@]),
        ),
        image_urls(body, seq!["video_list"@]),
    );
    let contents = items_in(body.member("contents"@));
    let has_video = videos.len() > 0 || has_video_content(contents);
    take_contents(
        SourceModel { prompt: top_prompt(body), images: top_images(body, has_video), videos },
        contents,
    )
}

fn take_item(src: &mut VideoSource, item: &Json)
    ensures
        final(src)@ == take_content(old(src)@, item@),
{
    let kind = item.get_str_or("type", "");
    if same(kind, "prompt") {
        if src.prompt.is_none() {
            src.prompt = match tc_prompt_str(item.get("text")) {
                Some(t) => Some(t.to_owned()),
                None => None,
            };
        }
        return ;
    }
    match tc_content_media_url(item) {
        Some(u) => {
            if same(kind, "first_frame") {
                tc_push_image(&mut src.images, u, "first_frame");
            } else if same(kind, "last_frame") {
                tc_push_image(&mut src.images, u, "last_frame");
            } else if same(kind, "refer_image") {
                tc_push_image(&mut src.images, u, "reference_image");
            } else if same(kind, "base_video") || same(kind, "feature_video") {
                tc_push_unique(&mut src.videos, u);
            }
        },
        None => {},
    }
}

fn find_video_content(body: &Json) -> (r: bool)
    ensures
        r == has_video_content(items_in(body@.member("contents"@))),
{
    match body.get_array("contents") {
        Some(arr) => {
            let ghost all = views(arr@);
            let mut i: usize = 0;
            while i < arr.len()
                invariant
                    i <= arr@.len(),
                    all == views(arr@),
                    all == items_in(body@.member("contents"@)),
                    forall|k: int| 0 <= k < i ==> !is_video_content(#[trigger] all[k]),
                decreases arr@.len() - i,
            {
                let kind = arr[i].get_str_or("type", "");
                assert(all[i as int] == arr@[i as int]@);
                if (same(kind, "base_video") || same(kind, "feature_video"))
                    && tc_content_media_url(&arr[i]).is_some() {
                    assert(is_video_content(all[i as int]));
                    return true;
                }
                i += 1;
            }
            false
        },
        None => false,
    }
}

/// Collects what a video request is made from.
pub fn tc_collect_video_src(body: &Json) -> (r: VideoSource)
    ensures
        r@ == video_source(body@),
{
    let prompt = match tc_prompt_str(or_get(body.get("prompt"), body, "Prompt")) {
        Some(t) => Some(t.to_owned()),
        None => None,
    };
    let mut videos: Vec<String> = Vec::new();
    proof {
        assert(texts(videos@) =~= Seq::<Seq<char>>::empty());
    }
    add_addresses(&mut videos, body, "video_url");
    add_addresses(&mut videos, body, "videos");
    add_addresses(&mut videos, body, "video_list");
    let has_video = videos.len() > 0 || find_video_content(body);
    let images = add_top_images(body, has_video);
    let mut src = VideoSource { prompt, images, videos };
    match body.get_array("contents") {
        Some(arr) => {
            let ghost start = src@;
            let ghost all = views(arr@);
            let mut i: usize = 0;
            proof {
                assert(all.take(0) =~= Seq::<Jv>::empty());
            }
            while i < arr.len()
                invariant
                    i <= arr@.len(),
                    all == views(arr@),
                    src@ == take_contents(start, all.take(i as int)),
                decreases arr@.len() - i,
            {
                proof {
                    assert(all.take(i + 1).drop_last() =~= all.take(i as int));
                    assert(all.take(i + 1).last() == arr@[i as int]@);
                }
                take_item(&mut src, &arr[i]);
                i += 1;
            }
            proof {
                assert(all.take(i as int) =~= all);
            }
        },
        None => {},
    }
    src
}

// ---------------------------------------------------------------- files

/// A file: base64 data by its content, anything else by its address.
pub open spec fn file_entry(media: Seq<char>) -> Jv {
    if is_base64(media, 1) {
        single("Type"@, Jv::Str("Base64"@)).with("Base64"@, Jv::Str(base64_payload(media)))
    } else {
        single("Type"@, Jv::Str("Url"@)).with("Url"@, Jv::Str(trimmed(media)))
    }
}

pub fn tc_file(media: &str) -> (r: Json)
    ensures
        r@ == file_entry(media@),
        r@ is Obj,
{
    if is_b64(media, 1) {
        Json::empty().with("Type", Json::text("Base64")).with(
            "Base64",
            Json::text(b64_data(media)),
        )
    } else {
        Json::empty().with("Type", Json::text("Url")).with("Url", Json::text(trim(media)))
    }
}

/// What an image is used for.
pub open spec fn image_usage(role: Seq<char>, i: int, count: int, has_video: bool) -> Seq<char> {
    if role == "first_frame"@ {
        "FirstFrame"@
    } else if role == "last_frame"@ {
        "LastFrame"@
    } else if role == "reference_image"@ || has_video || count > 2 {
        "Reference"@
    } else if count == 2 && i != 0 {
        "LastFrame"@
    } else {
        "FirstFrame"@
    }
}

pub fn tc_video_usage(role: &str, idx: usize, count: usize, has_video: bool) -> (r: &'static str)
    ensures
        r@ == image_usage(role@, idx as int, count as int, has_video),
{
    if same(role, "first_frame") {
        "FirstFrame"
    } else if same(role, "last_frame") {
        "LastFrame"
    } else if same(role, "reference_image") || has_video || count > 2 {
        "Reference"
    } else if count == 2 && idx != 0 {
        "LastFrame"
    } else {
        "FirstFrame"
    }
}

/// The files of the first `n` images that are no last frame, and the last
/// frame among them.
pub open spec fn image_files(
    images: Seq<(Seq<char>, Seq<char>)>,
    n: int,
    has_video: bool,
) -> (Seq<Jv>, Option<Seq<char>>)
    decreases n,
{
    if n <= 0 {
        (Seq::empty(), None)
    } else {
        let (files, last) = image_files(images, n - 1, has_video);
        let (url, role) = images[n - 1];
        let usage = image_usage(role, n - 1, images.len() as int, has_video);
        if usage == "LastFrame"@ {
            (files, Some(url))
        } else {
            (files.push(file_entry(url).with("Usage"@, Jv::Str(usage))), last)
        }
    }
}

/// The files of videos.
pub open spec fn video_files(videos: Seq<Seq<char>>) -> Seq<Jv> {
    videos.map_values(
        |u: Seq<char>|
            file_entry(u).with("Category"@, Jv::Str("Video"@)).with(
                "Usage"@,
                Jv::Str("Reference"@),
            ),
    )
}

/// The files of a request, and the address of its last frame: a last frame
/// that is data goes to the files.
pub open spec fn file_infos(
    images: Seq<(Seq<char>, Seq<char>)>,
    videos: Seq<Seq<char>>,
) -> (Seq<Jv>, Option<Seq<char>>) {
    let (files, last) = image_files(images, images.len() as int, videos.len() > 0);
    let all = files + video_files(videos);
    match last {
        Some(url) => if is_base64(url, 1) {
            (all.push(file_entry(url).with("Usage"@, Jv::Str("LastFrame"@))), None)
        } else {
            (all, Some(url))
        },
        None => (all, None),
    }
}

/// Makes the files of a request and finds the address of its last frame.
pub fn tc_build_video_file_infos(images: &Vec<Placed>, videos: &Vec<String>) -> (r: (
    Vec<Json>,
    Option<String>,
))
    ensures
        (views(r.0@), opt_string(r.1)) == file_infos(placed_views(images@), texts(videos@)),
{
    let has_video = videos.len() > 0;
    let ghost v = placed_views(images@);
    let ghost w = texts(videos@);
    let mut files: Vec<Json> = Vec::new();
    let mut last: Option<String> = None;
    let mut i: usize = 0;
    proof {
        assert(views(files@) =~= Seq::<Jv>::empty());
    }
    while i < images.len()
        invariant
            i <= images@.len(),
            v == placed_views(images@),
            (views(files@), opt_string(last)) == image_files(v, i as int, has_video),
        decreases images@.len() - i,
    {
        assert(v[i as int] == (images@[i as int].url@, images@[i as int].role@));
        let usage = tc_video_usage(images[i].role.as_str(), i, images.len(), has_video);
        if same(usage, "LastFrame") {
            last = Some(images[i].url.clone());
        } else {
            let ghost before = files@;
            let entry = tc_file(images[i].url.as_str()).with("Usage", Json::text(usage));
            files.push(entry);
            proof {
                assert(views(files@) =~= views(before).push(entry@));
            }
        }
        i += 1;
    }
    let ghost head = views(files@);
    let ghost want = video_files(w);
    let mut k: usize = 0;
    proof {
        assert(views(files@) =~= head + want.take(0));
    }
    while k < videos.len()
        invariant
            k <= videos@.len(),
            w == texts(videos@),
            want == video_files(w),
            views(files@) == head + want.take(k as int),
        decreases videos@.len() - k,
    {
        let entry = tc_file(videos[k].as_str()).with("Category", Json::text("Video")).with(
            "Usage",
            Json::text("Reference"),
        );
        let ghost before = files@;
        proof {
            assert(want[k as int] == entry@);
        }
        files.push(entry);
        proof {
            assert(views(files@) =~= views(before).push(entry@));
            assert(want.take(k + 1) =~= want.take(k as int).push(entry@));
            assert(views(files@) =~= head + want.take(k + 1));
        }
        k += 1;
    }
    proof {
        assert(want.take(k as int) =~= want);
    }
    match last {
        Some(url) => {
            if is_b64(url.as_str(), 1) {
                let ghost before = files@;
                let entry = tc_file(url.as_str()).with("Usage", Json::text("LastFrame"));
                files.push(entry);
                proof {
                    assert(views(files@) =~= views(before).push(entry@));
                }
                (files, None)
            } else {
                (files, Some(url))
            }
        },
        None => (files, None),
    }
}

// ---------------------------------------------------------------- output

/// The resolution of a video: its own, or that of its mode, in capital letters.
pub open spec fn video_resolution(body: Jv) -> Seq<char> {
    match text_in(setting(body, "resolution"@)) {
        Some(r) => capital_letters(r),
        None => match text_at(body, "mode"@) {
            Some(mode) => if mode == "std"@ {
                "720P"@
            } else if mode == "pro"@ {
                "1080P"@
            } else {
                capital_letters(mode)
            },
            None => "720P"@,
        },
    }
}

/// Whether sound is made, where the request says so.
pub open spec fn video_audio(body: Jv) -> Option<bool> {
    match body.member("generate_audio"@) {
        Some(ga) => Some(switched_on(ga)),
        None => match text_in(setting(body, "audio"@)) {
            Some(a) => Some(!(ascii_small(a) == "off"@ || ascii_small(a) == "false"@)),
            None => match text_at(body, "sound"@) {
                Some(s) => Some(ascii_small(s) == ascii_small("on"@)),
                None => None,
            },
        },
    }
}

/// The output settings of a video request.
pub open spec fn video_output(body: Jv) -> Jv {
    let a = with_text(
        no_members(),
        "AspectRatio"@,
        text_in(or_member(setting(body, "aspect_ratio"@), body, "ratio"@)),
    );
    let b = match setting(body, "duration"@) {
        Some(d) => with_some(a, "Duration"@, as_float(d)),
        None => a,
    };
    let c = match text_at(body, "OffPeak"@) {
        Some(op) => b.with("OffPeak"@, Jv::Str(op)),
        None => if text_at(body, "service_tier"@) == Some("flex"@) {
            b.with("OffPeak"@, Jv::Str("Enabled"@))
        } else {
            b
        },
    };
    let d = match body.member("watermark"@) {
        Some(wm) => c.with("LogoAdd"@, Jv::Str(switch_word(switched_on(wm)))),
        None => c,
    };
    let e = match video_audio(body) {
        Some(on) => d.with("AudioGeneration"@, Jv::Str(switch_word(on))),
        None => d,
    };
    e.with("Resolution"@, Jv::Str(video_resolution(body))).with(
        "InputComplianceCheck"@,
        Jv::Str("Disabled"@),
    ).with("OutputComplianceCheck"@, Jv::Str("Disabled"@))
}

fn resolution_of(body: &Json) -> (r: String)
    ensures
        r@ == video_resolution(body@),
{
    match opt_str(get_setting(body, "resolution")) {
        Some(r) => to_uppercase(r),
        None => match body.get_str("mode") {
            Some(mode) => if same(mode, "std") {
                "720P".to_owned()
            } else if same(mode, "pro") {
                "1080P".to_owned()
            } else {
                to_uppercase(mode)
            },
            None => "720P".to_owned(),
        },
    }
}

fn audio_of(body: &Json) -> (r: Option<bool>)
    ensures
        r == video_audio(body@),
{
    match body.get("generate_audio") {
        Some(ga) => Some(ga.is_on()),
        None => match opt_str(get_setting(body, "audio")) {
            Some(a) => {
                let low = to_ascii_lowercase(a);
                Some(!(same(low.as_str(), "off") || same(low.as_str(), "false")))
            },
            None => match body.get_str("sound") {
                Some(s) => Some(same_ignore_case(s, "on")),
                None => None,
            },
        },
    }
}

/// Builds the output settings of a video request.
pub fn tc_build_video_output_config(body: &Json) -> (r: Json)
    ensures
        r@ == video_output(body@),
{
    let mut oc = Json::empty();
    set_text(
        &mut oc,
        "AspectRatio",
        opt_str(or_get(get_setting(body, "aspect_ratio"), body, "ratio")),
    );
    match get_setting(body, "duration") {
        Some(d) => {
            match d.to_float() {
                Some(n) => {
                    oc.set("Duration", n);
                },
                None => {},
            }
        },
        None => {},
    }
    match body.get_str("OffPeak") {
        Some(op) => {
            oc.set("OffPeak", Json::text(op));
        },
        None => {
            let flex = match body.get_str("service_tier") {
                Some(t) => same(t, "flex"),
                None => false,
            };
            if flex {
                oc.set("OffPeak", Json::text("Enabled"));
            }
        },
    }
    match body.get("watermark") {
        Some(wm) => {
            oc.set("LogoAdd", Json::text(tc_en_dis(wm.is_on())));
        },
        None => {},
    }
    match audio_of(body) {
        Some(on) => {
            oc.set("AudioGeneration", Json::text(tc_en_dis(on)));
        },
        None => {},
    }
    let res = resolution_of(body);
    oc.with("Resolution", Json::text(res.as_str())).with(
        "InputComplianceCheck",
        Json::text("Disabled"),
    ).with("OutputComplianceCheck", Json::text("Disabled"))
}

/// The body with the prompt-enhancement switch that the request names.
pub open spec fn with_enhance_prompt(tb: Jv, body: Jv) -> Jv {
    match text_at(body, "EnhancePrompt"@) {
        Some(v) => tb.with("EnhancePrompt"@, Jv::Str(v)),
        None => match or_member(body.member("prompt_extend"@), body, "enhance_prompt"@) {
            Some(v) => tb.with(
                "EnhancePrompt"@,
                Jv::Str(
                    switch_word(
                        switched_on(v) || (v is Str && ascii_small(v->Str_0) == ascii_small(
                            "enabled"@,
                        )),
                    ),
                ),
            ),
            None => tb,
        },
    }
}

pub fn tc_apply_enhance_prompt(tb: &mut Json, body: &Json)
    requires
        old(tb)@ is Obj,
    ensures
        final(tb)@ == with_enhance_prompt(old(tb)@, body@),
        final(tb)@ is Obj,
{
    match body.get_str("EnhancePrompt") {
        Some(v) => {
            tb.set("EnhancePrompt", Json::text(v));
        },
        None => {
            match or_get(body.get("prompt_extend"), body, "enhance_prompt") {
                Some(v) => {
                    let word = match v.as_str() {
                        Some(s) => same_ignore_case(s, "enabled"),
                        None => false,
                    };
                    tb.set("EnhancePrompt", Json::text(tc_en_dis(v.is_on() || word)));
                },
                None => {},
            }
        },
    }
}

// ---------------------------------------------------------------- bodies

/// The model of a request, with its version where it has one.
pub open spec fn model_head(model: Seq<char>) -> Jv {
    let (name, version) = model_parts(model);
    let a = single("ModelName"@, Jv::Str(name));
    if version.len() > 0 {
        a.with("ModelVersion"@, Jv::Str(version))
    } else {
        a
    }
}

fn make_model_head(model: &str) -> (r: Json)
    ensures
        r@ == model_head(model@),
        r@ is Obj,
{
    let (name, version) = split_model(model);
    let mut tb = Json::empty().with("ModelName", Json::text(name));
    if !version.is_empty() {
        tb.set("ModelVersion", Json::text(version));
    }
    tb
}

/// Files, one for each address.
pub open spec fn files_of(urls: Seq<Seq<char>>) -> Jv {
    Jv::Arr(urls.map_values(|u: Seq<char>| file_entry(u)))
}

fn make_files(urls: &Vec<String>) -> (r: Json)
    ensures
        r@ == files_of(texts(urls@)),
{
    let mut out: Vec<Json> = Vec::new();
    let mut i: usize = 0;
    while i < urls.len()
        invariant
            i <= urls@.len(),
            out@.len() == i,
            forall|k: int| 0 <= k < i ==> #[trigger] out@[k]@ == file_entry(urls@[k]@),
        decreases urls@.len() - i,
    {
        out.push(tc_file(urls[i].as_str()));
        i += 1;
    }
    proof {
        assert(views(out@) =~= files_of(texts(urls@))->Arr_0);
    }
    Json::arr(out)
}

/// The output settings of an image request.
pub open spec fn image_output(body: Jv, nearest: Option<StandardRatio>) -> Jv {
    let a = with_int(no_members(), "OutputImageCount"@, int_at(body, "n"@));
    let b = a.with(
        "Resolution"@,
        Jv::Str(
            match text_at(body, "resolution"@) {
                Some(r) => capital_letters(r),
                None => "1K"@,
            },
        ),
    );
    let c = match text_at(body, "ratio"@) {
        Some(r) => b.with("AspectRatio"@, Jv::Str(r)),
        None => match text_at(body, "size"@) {
            Some(size) => with_text(b, "AspectRatio"@, ratio_of(size, nearest)),
            None => b,
        },
    };
    let d = with_text(c, "OutputFormat"@, text_at(body, "output_format"@));
    match body.member("watermark"@) {
        Some(wm) => d.with("LogoAdd"@, Jv::Str(switch_word(switched_on(wm)))),
        None => d,
    }
}

fn make_image_output(body: &Json, nearest: Option<StandardRatio>) -> (r: Json)
    ensures
        r@ == image_output(body@, nearest),
{
    let mut oc = Json::empty();
    set_int(&mut oc, "OutputImageCount", body.get_i64("n"));
    let res = match body.get_str("resolution") {
        Some(r) => to_uppercase(r),
        None => "1K".to_owned(),
    };
    oc.set("Resolution", Json::text(res.as_str()));
    match body.get_str("ratio") {
        Some(r) => {
            oc.set("AspectRatio", Json::text(r));
        },
        None => {
            match body.get_str("size") {
                Some(size) => {
                    set_text(&mut oc, "AspectRatio", size_to_ratio(size, nearest));
                },
                None => {},
            }
        },
    }
    set_text(&mut oc, "OutputFormat", body.get_str("output_format"));
    match body.get("watermark") {
        Some(wm) => {
            oc.set("LogoAdd", Json::text(tc_en_dis(wm.is_on())));
        },
        None => {},
    }
    oc
}

/// The body of an image request.
pub open spec fn tencent_image_body(
    model: Seq<char>,
    body: Jv,
    nearest: Option<StandardRatio>,
) -> Jv {
    let a = with_text(
        model_head(model),
        "Prompt"@,
        text_in(or_member(body.member("prompt"@), body, "Prompt"@)),
    );
    let b = with_text(
        a,
        "NegativePrompt"@,
        text_in(or_member(body.member("negative_prompt"@), body, "NegativePrompt"@)),
    );
    let urls = image_urls(body, seq!["image"@, "image_urls"@, "image_list"@]);
    let c = match body.member("FileInfos"@) {
        Some(fi) => b.with("FileInfos"@, fi),
        None => if urls.len() > 0 {
            b.with("FileInfos"@, files_of(urls))
        } else {
            b
        },
    };
    let d = c.with(
        "OutputConfig"@,
        match body.member("OutputConfig"@) {
            Some(oc) => oc,
            None => image_output(body, nearest),
        },
    );
    let e = with_some(d, "Seed"@, or_member(body.member("seed"@), body, "Seed"@));
    let f = with_some(e, "ExtInfo"@, body.member("ExtInfo"@));
    with_enhance_prompt(f, body)
}

/// Builds the body of an image request. `nearest` is the standard ratio
/// nearest to the sides of the requested size, where it names two.
pub fn build_tencent_vod_image_body(
    model_str: &str,
    body: &Json,
    nearest: Option<StandardRatio>,
) -> (r: Json)
    ensures
        r@ == tencent_image_body(model_str@, body@, nearest),
{
    let mut tb = make_model_head(model_str);
    set_text(&mut tb, "Prompt", opt_str(or_get(body.get("prompt"), body, "Prompt")));
    set_text(
        &mut tb,
        "NegativePrompt",
        opt_str(or_get(body.get("negative_prompt"), body, "NegativePrompt")),
    );
    match body.get("FileInfos") {
        Some(fi) => {
            tb.set("FileInfos", fi.dup());
        },
        None => {
            let fields = list3("image", "image_urls", "image_list");
            let urls = collect_image_urls(body, &fields);
            if urls.len() > 0 {
                tb.set("FileInfos", make_files(&urls));
            }
        },
    }
    let output = match body.get("OutputConfig") {
        Some(oc) => oc.dup(),
        None => make_image_output(body, nearest),
    };
    tb.set("OutputConfig", output);
    set_some(&mut tb, "Seed", or_get(body.get("seed"), body, "Seed"));
    set_some(&mut tb, "ExtInfo", body.get("ExtInfo"));
    tc_apply_enhance_prompt(&mut tb, body);
    tb
}

/// The media of a video request: files that it names stay as they are, with
/// its prompt; otherwise they are made from what it lists.
pub open spec fn with_video_media(tb: Jv, body: Jv) -> Jv {
    match body.member("FileInfos"@) {
        Some(fi) => with_text(tb.with("FileInfos"@, fi), "Prompt"@, video_prompt(body)),
        None => {
            let src = video_source(body);
            let (files, last) = file_infos(src.images, src.videos);
            let a = with_text(tb, "Prompt"@, src.prompt);
            let b = with_text(a, "LastFrameUrl"@, last);
            if files.len() > 0 {
                b.with("FileInfos"@, Jv::Arr(files))
            } else {
                b
            }
        },
    }
}

fn put_video_media(tb: &mut Json, body: &Json)
    requires
        old(tb)@ is Obj,
    ensures
        final(tb)@ == with_video_media(old(tb)@, body@),
        final(tb)@ is Obj,
{
    match body.get("FileInfos") {
        Some(fi) => {
            tb.set("FileInfos", fi.dup());
            set_text(tb, "Prompt", tc_video_prompt(body));
        },
        None => {
            let src = tc_collect_video_src(body);
            let (files, last) = tc_build_video_file_infos(&src.images, &src.videos);
            match &src.prompt {
                Some(p) => {
                    tb.set("Prompt", Json::text(p.as_str()));
                },
                None => {},
            }
            match &last {
                Some(u) => {
                    tb.set("LastFrameUrl", Json::text(u.as_str()));
                },
                None => {},
            }
            if files.len() > 0 {
                tb.set("FileInfos", Json::arr(files));
            }
        },
    }
}

/// The body of a video request.
pub open spec fn tencent_video_body(model: Seq<char>, body: Jv) -> Jv {
    let a = with_text(
        model_head(model),
        "NegativePrompt"@,
        text_in(or_member(body.member("negative_prompt"@), body, "NegativePrompt"@)),
    );
    let b = with_video_media(a, body);
    let c = with_some(b, "LastFrameUrl"@, body.member("LastFrameUrl"@));
    let d = c.with(
        "OutputConfig"@,
        match body.member("OutputConfig"@) {
            Some(oc) => oc,
            None => video_output(body),
        },
    );
    let e = with_some(d, "Seed"@, or_member(body.member("seed"@), body, "Seed"@));
    let f = with_some(
        e,
        "SubjectInfo"@,
        or_member(body.member("SubjectInfo"@), body, "subject_info"@),
    );
    let g = with_some(f, "ExtInfo"@, body.member("ExtInfo"@));
    with_enhance_prompt(g, body)
}

/// Builds the body of a video request.
pub fn build_tencent_vod_video_body(model_str: &str, body: &Json) -> (r: Json)
    ensures
        r@ == tencent_video_body(model_str@, body@),
{
    let mut tb = make_model_head(model_str);
    set_text(
        &mut tb,
        "NegativePrompt",
        opt_str(or_get(body.get("negative_prompt"), body, "NegativePrompt")),
    );
    put_video_media(&mut tb, body);
    set_some(&mut tb, "LastFrameUrl", body.get("LastFrameUrl"));
    let output = match body.get("OutputConfig") {
        Some(oc) => oc.dup(),
        None => tc_build_video_output_config(body),
    };
    tb.set("OutputConfig", output);
    set_some(&mut tb, "Seed", or_get(body.get("seed"), body, "Seed"));
    set_some(&mut tb, "SubjectInfo", or_get(body.get("SubjectInfo"), body, "subject_info"));
    set_some(&mut tb, "ExtInfo", body.get("ExtInfo"));
    tc_apply_enhance_prompt(&mut tb, body);
    tb
}

} // verus!
