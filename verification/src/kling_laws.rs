//! What holds of the bodies for the third version of Kling's interface.
use vstd::prelude::*;
use vstd::string::*;
use crate::json::{text_at, Jv};
use crate::kling::{
    content_image_type, content_images, content_media, content_video, content_videos,
    has_prompt_item, kling_options, kling_settings, kling_v3_body, omni_images, omni_video,
    option_keys,
};
use crate::media::{
    all_addresses, lemma_media_first, lemma_nothing_listed, lemma_plain_placed, media_values,
    placed,
};
use crate::text::{ascii_small, holds, trimmed};

verus! {

/// A setting of a request: under its settings, or else at its top.
pub open spec fn given(body: Jv, key: Seq<char>) -> Option<Jv> {
    match body.at("settings"@).member(key) {
        Some(v) => Some(v),
        None => body.member(key),
    }
}

/// The settings of a Kling video: resolution in small letters, duration,
/// ratio, shots, and whether it has sound.
pub proof fn law_kling_settings(body: Jv, s: Jv)
    requires
        s == kling_settings(body),
    ensures
        given(body, "resolution"@) matches Some(Jv::Str(t)) ==> (t.len() > 0 ==> text_at(
            s,
            "resolution"@,
        ) == Some(ascii_small(t))),
        given(body, "resolution"@) is None ==> text_at(s, "resolution"@) == Some("720p"@),
        s.member("duration"@) == given(body, "duration"@),
        given(body, "aspect_ratio"@) is Some ==> s.member("aspect_ratio"@) == given(
            body,
            "aspect_ratio"@,
        ),
        given(body, "aspect_ratio"@) is None ==> s.member("aspect_ratio"@) == body.member(
            "ratio"@,
        ),
        s.member("multi_shot"@) == given(body, "multi_shot"@),
        given(body, "audio"@) matches Some(Jv::Str(t)) ==> text_at(s, "audio"@) == Some(
            if ascii_small(t) == "off"@ || ascii_small(t) == "false"@ {
                "off"@
            } else {
                "native"@
            },
        ),
        given(body, "audio"@) is None && body.member("generate_audio"@) == Some(Jv::Bool(true))
            ==> text_at(s, "audio"@) == Some("native"@),
        given(body, "audio"@) is None && body.member("generate_audio"@) == Some(Jv::Bool(false))
            ==> text_at(s, "audio"@) == Some("off"@),
        given(body, "audio"@) is None && body.member("generate_audio"@) is None ==> text_at(
            s,
            "audio"@,
        ) == Some("off"@),
{
    reveal_strlit("aspect_ratio");
    reveal_strlit("audio");
    reveal_strlit("duration");
    reveal_strlit("multi_shot");
    reveal_strlit("resolution");
    assert("aspect_ratio"@.len() == 12);
    assert("audio"@.len() == 5);
    assert("duration"@.len() == 8);
    assert("multi_shot"@.len() == 10);
    assert("resolution"@.len() == 10);
    assert("multi_shot"@[0] == 'm');
    assert("resolution"@[0] == 'r');
}

/// The options of a Kling video: what it names under its options, and three
/// that may stand at its top.
pub proof fn law_kling_options(body: Jv, key: Seq<char>, o: Map<Seq<char>, Jv>)
    requires
        body is Obj,
        o == kling_options(body),
    ensures
        body.at("options"@).member(key) is Some ==> o.dom().contains(key) && Some(o[key])
            == body.at("options"@).member(key),
        body.at("options"@).member(key) is None && (key == "callback_url"@ || key
            == "external_task_id"@ || key == "watermark_info"@) ==> (o.dom().contains(key)
            <==> body.member(key) is Some) && (body.member(key) is Some ==> Some(o[key])
            == body.member(key)),
        body.at("options"@).member(key) is None && key != "callback_url"@ && key
            != "external_task_id"@ && key != "watermark_info"@ ==> !o.dom().contains(key),
{
    let k = option_keys();
    assert(k[0] == "callback_url"@ && k[1] == "external_task_id"@ && k[2] == "watermark_info"@);
    assert(k.to_set().contains(key) <==> k.contains(key)) by {
        broadcast use vstd::seq_lib::group_seq_properties;
    }
    if k.contains(key) {
        let i = choose|i: int| 0 <= i < k.len() && k[i] == key;
        assert(i == 0 || i == 1 || i == 2);
    }
}

/// A request with nothing but a prompt goes to Kling as its prompt with its
/// settings.
pub proof fn law_kling_v3_prompt(body: Jv, path: Seq<char>, r: Jv)
    requires
        r == kling_v3_body(body, path),
        !holds(path, "omni-video"@),
        body.member("contents"@) is None,
        body.member("settings"@) is None,
        body.member("images"@) is None,
        body.member("image_urls"@) is None,
        body.member("videos"@) is None,
    ensures
        r.member("prompt"@) == body.member("prompt"@),
        r.member("settings"@) == Some(kling_settings(body)),
        r.member("contents"@) is None,
        kling_options(body).len() > 0 && kling_options(body).dom().finite() ==> r.member("options"@)
            == Some(Jv::Obj(kling_options(body))),
        kling_options(body) == Map::<Seq<char>, Jv>::empty() ==> r.member("options"@) is None,
{
    reveal_strlit("contents");
    reveal_strlit("model");
    reveal_strlit("model_name");
    reveal_strlit("options");
    reveal_strlit("prompt");
    reveal_strlit("settings");
    assert("contents"@.len() == 8);
    assert("model"@.len() == 5);
    assert("model_name"@.len() == 10);
    assert("options"@.len() == 7);
    assert("prompt"@.len() == 6);
    assert("settings"@.len() == 8);
    assert("contents"@[0] == 'c');
    assert("settings"@[0] == 's');
    lemma_no_images(body);
    assert(content_media(body, false) =~= Seq::<Jv>::empty());
}

proof fn lemma_no_images(body: Jv)
    requires
        body.member("images"@) is None,
        body.member("image_urls"@) is None,
    ensures
        content_images(
            placed(media_values(body, seq!["images"@, "image_urls"@]), Some(""@), false),
        ) == Seq::<Jv>::empty(),
{
    let fields = seq!["images"@, "image_urls"@];
    assert(fields[0] == "images"@);
    lemma_media_first(body, fields);
    assert(fields.drop_first() =~= seq!["image_urls"@]);
    lemma_nothing_listed(body, "image_urls"@);
    let p = placed(media_values(body, fields), Some(""@), false);
    assert(p =~= Seq::<(Seq<char>, Seq<char>)>::empty());
    assert(content_images(p) =~= Seq::<Jv>::empty());
}

/// A request with images goes to Kling as its contents: the prompt, then the
/// images. Two images are the first and the last frame; otherwise the first is
/// the first frame and the others are references.
pub proof fn law_kling_v3_images(
    body: Jv,
    path: Seq<char>,
    r: Jv,
    prompt: Seq<char>,
    images: Seq<Jv>,
)
    requires
        r == kling_v3_body(body, path),
        body.member("contents"@) is None,
        body.member("settings"@) is None,
        text_at(body, "prompt"@) == Some(prompt),
        prompt.len() > 0,
        body.member("images"@) == Some(Jv::Arr(images)),
        images.len() > 0,
        all_addresses(images),
        body.member("videos"@) is None,
    ensures
        r.member("prompt"@) is None,
        r.member("settings"@) == Some(kling_settings(body)),
        r.member("contents"@) matches Some(Jv::Arr(parts)) && parts.len() == images.len() + 1
            && text_at(parts[0], "type"@) == Some("prompt"@) && text_at(parts[0], "text"@) == Some(
            prompt,
        ) && (forall|i: int|
            0 <= i < images.len() ==> (#[trigger] parts[i + 1]).member("url"@) == Some(images[i])
                && text_at(parts[i + 1], "type"@) == Some(
                if i == 0 {
                    "first_frame"@
                } else if images.len() == 2 {
                    "last_frame"@
                } else {
                    "refer_image"@
                },
            )),
{
    reveal_strlit("");
    reveal_strlit("contents");
    reveal_strlit("end_frame");
    reveal_strlit("first");
    reveal_strlit("first_frame");
    reveal_strlit("image_urls");
    reveal_strlit("images");
    reveal_strlit("last");
    reveal_strlit("last_frame");
    reveal_strlit("model");
    reveal_strlit("model_name");
    reveal_strlit("options");
    reveal_strlit("prompt");
    reveal_strlit("refer_image");
    reveal_strlit("reference_image");
    reveal_strlit("settings");
    reveal_strlit("tail");
    reveal_strlit("text");
    reveal_strlit("type");
    reveal_strlit("url");
    assert(""@.len() == 0);
    assert("contents"@.len() == 8);
    assert("end_frame"@.len() == 9);
    assert("first"@.len() == 5);
    assert("first_frame"@.len() == 11);
    assert("image_urls"@.len() == 10);
    assert("images"@.len() == 6);
    assert("last"@.len() == 4);
    assert("last_frame"@.len() == 10);
    assert("model"@.len() == 5);
    assert("model_name"@.len() == 10);
    assert("options"@.len() == 7);
    assert("prompt"@.len() == 6);
    assert("refer_image"@.len() == 11);
    assert("reference_image"@.len() == 15);
    assert("settings"@.len() == 8);
    assert("tail"@.len() == 4);
    assert("text"@.len() == 4);
    assert("type"@.len() == 4);
    assert("url"@.len() == 3);
    assert("contents"@[0] == 'c');
    assert("settings"@[0] == 's');
    assert("first"@[0] == 'f');
    assert("model"@[0] == 'm');
    assert("first_frame"@[0] == 'f');
    assert("refer_image"@[0] == 'r');
    assert("image_urls"@[0] == 'i');
    assert("last_frame"@[0] == 'l');
    assert("model_name"@[0] == 'm');
    assert("images"@[0] == 'i');
    assert("prompt"@[0] == 'p');
    assert("last"@[0] == 'l');
    assert("tail"@[0] == 't');
    assert("text"@[0] == 't');
    assert("type"@[0] == 't');
    assert("tail"@[1] == 'a');
    assert("text"@[1] == 'e');
    assert("type"@[1] == 'y');
    let fields = seq!["images"@, "image_urls"@];
    assert(fields[0] == "images"@);
    lemma_media_first(body, fields);
    lemma_plain_placed(images, images.len() as int, Some(""@), false);
    let p = placed(images, Some(""@), false);
    let shown = content_images(p);
    assert(ascii_small(""@).len() == 0);
    lemma_nothing_listed(body, "videos"@);
    let none = Seq::<(Seq<char>, Seq<char>)>::empty();
    assert(placed(Seq::<Jv>::empty(), Some(""@), false) =~= none);
    assert(content_videos(none) =~= Seq::<Jv>::empty());
    assert(shown + content_videos(none) =~= shown);
    let omni = holds(path, "omni-video"@);
    assert(content_media(body, omni) =~= shown);
    let parts = r.at("contents"@)->Arr_0;
    assert(parts =~= seq![parts[0]] + shown);
    assert forall|i: int| 0 <= i < images.len() implies (#[trigger] parts[i + 1]).member("url"@)
        == Some(images[i]) && text_at(parts[i + 1], "type"@) == Some(
        if i == 0 {
            "first_frame"@
        } else if images.len() == 2 {
            "last_frame"@
        } else {
            "refer_image"@
        },
    ) by {
        assert(images[i] is Str);
        assert(parts[i + 1] == shown[i]);
    }
}

/// The kind of an image in the contents follows its role; without one, two
/// images are the first and the last frame, and otherwise the first is the
/// first frame and the others are references.
pub proof fn law_kling_image_kind(i: int)
    requires
        i >= 0,
    ensures
        content_image_type("first_frame"@, i, false) == "first_frame"@,
        content_image_type("last_frame"@, i, false) == "last_frame"@,
        content_image_type("end_frame"@, i, false) == "last_frame"@,
        content_image_type("reference_image"@, i, false) == "refer_image"@,
        content_image_type(""@, i, true) == if i == 0 {
            "first_frame"@
        } else {
            "last_frame"@
        },
        content_image_type(""@, i, false) == if i == 0 {
            "first_frame"@
        } else {
            "refer_image"@
        },
{
    reveal_strlit("");
    reveal_strlit("end_frame");
    reveal_strlit("first");
    reveal_strlit("first_frame");
    reveal_strlit("last");
    reveal_strlit("last_frame");
    reveal_strlit("refer_image");
    reveal_strlit("reference_image");
    reveal_strlit("tail");
    assert(""@.len() == 0);
    assert("end_frame"@.len() == 9);
    assert("first"@.len() == 5);
    assert("first_frame"@.len() == 11);
    assert("last"@.len() == 4);
    assert("last_frame"@.len() == 10);
    assert("refer_image"@.len() == 11);
    assert("reference_image"@.len() == 15);
    assert("tail"@.len() == 4);
    assert("first_frame"@[0] == 'f');
    assert("refer_image"@[0] == 'r');
    assert("last"@[0] == 'l');
    assert("tail"@[0] == 't');
    assert(ascii_small("first_frame"@) =~= "first_frame"@);
    assert(ascii_small("last_frame"@) =~= "last_frame"@);
    assert(ascii_small("end_frame"@) =~= "end_frame"@);
    assert(ascii_small("reference_image"@) =~= "reference_image"@);
    assert(ascii_small(""@).len() == 0);
}

/// A video in the contents is the one to start from, unless it is there for
/// its features.
pub proof fn law_kling_video_kind(url: Seq<char>, role: Seq<char>, v: Jv)
    requires
        v == content_video(url, role),
    ensures
        text_at(v, "url"@) == Some(url),
        ascii_small(role) == "feature"@ || ascii_small(role) == "feature_video"@ ==> text_at(
            v,
            "type"@,
        ) == Some("feature_video"@),
        ascii_small(role) != "feature"@ && ascii_small(role) != "feature_video"@ ==> text_at(
            v,
            "type"@,
        ) == Some("base_video"@),
{
    reveal_strlit("type");
    reveal_strlit("url");
    assert("type"@.len() == 4);
    assert("url"@.len() == 3);
}

/// The images of the omni interface keep their addresses. Two without roles
/// are the first and the last frame; otherwise the role decides, and without
/// one an image is nothing in particular.
pub proof fn law_omni_images(items: Seq<(Seq<char>, Seq<char>)>, i: int, v: Jv)
    requires
        0 <= i < items.len(),
        omni_images(items) is Arr,
        v == omni_images(items)->Arr_0[i],
    ensures
        text_at(v, "image_url"@) == Some(items[i].0),
        items.len() == 2 && items[0].1.len() == 0 && items[1].1.len() == 0 ==> text_at(v, "type"@)
            == Some(
            if i == 0 {
                "first_frame"@
            } else {
                "end_frame"@
            },
        ),
        items[i].1 == "first_frame"@ || items[i].1 == "first"@ ==> text_at(v, "type"@) == Some(
            "first_frame"@,
        ),
        items[i].1 == "last_frame"@ || items[i].1 == "end_frame"@ || items[i].1 == "last"@
            || items[i].1 == "tail"@ ==> text_at(v, "type"@) == Some("end_frame"@),
        items[i].1.len() == 0 && items.len() != 2 ==> v.member("type"@) is None,
{
    reveal_strlit("end_frame");
    reveal_strlit("first");
    reveal_strlit("first_frame");
    reveal_strlit("image_url");
    reveal_strlit("last");
    reveal_strlit("last_frame");
    reveal_strlit("tail");
    reveal_strlit("type");
    assert("end_frame"@.len() == 9);
    assert("first"@.len() == 5);
    assert("first_frame"@.len() == 11);
    assert("image_url"@.len() == 9);
    assert("last"@.len() == 4);
    assert("last_frame"@.len() == 10);
    assert("tail"@.len() == 4);
    assert("type"@.len() == 4);
    assert("end_frame"@[0] == 'e');
    assert("image_url"@[0] == 'i');
    assert("last"@[0] == 'l');
    assert("tail"@[0] == 't');
    assert("type"@[0] == 't');
    assert("tail"@[1] == 'a');
    assert("type"@[1] == 'y');
}

/// A video of the omni interface keeps its address and its role, or is the one
/// to start from.
pub proof fn law_omni_video(url: Seq<char>, role: Seq<char>, v: Jv)
    requires
        v == omni_video(url, role),
    ensures
        text_at(v, "video_url"@) == Some(url),
        role.len() > 0 ==> text_at(v, "refer_type"@) == Some(role),
        role.len() == 0 ==> text_at(v, "refer_type"@) == Some("base"@),
{
    reveal_strlit("refer_type");
    reveal_strlit("video_url");
    assert("refer_type"@.len() == 10);
    assert("video_url"@.len() == 9);
}

/// A request in Kling's own form keeps everything but the model; its settings
/// go before what is filled in.
pub proof fn law_kling_v3_native(body: Jv, path: Seq<char>, r: Jv, key: Seq<char>)
    requires
        body is Obj,
        r == kling_v3_body(body, path),
        !holds(path, "omni-video"@),
        body.member("contents"@) is Some || (body.member("prompt"@) is Some && body.member(
            "settings"@,
        ) is Some),
    ensures
        r.member("model"@) is None,
        r.member("model_name"@) is None,
        key != "model"@ && key != "model_name"@ && key != "settings"@ && key != "options"@
            ==> r.member(key) == body.member(key),
        body.at("settings"@).member(key) is Some ==> r.at("settings"@).member(key) == body.at(
            "settings"@,
        ).member(key),
        body.at("settings"@).member(key) is None ==> r.at("settings"@).member(key)
            == kling_settings(body).member(key),
{
    reveal_strlit("contents");
    reveal_strlit("model");
    reveal_strlit("model_name");
    reveal_strlit("options");
    reveal_strlit("prompt");
    reveal_strlit("settings");
    assert("contents"@.len() == 8);
    assert("model"@.len() == 5);
    assert("model_name"@.len() == 10);
    assert("options"@.len() == 7);
    assert("prompt"@.len() == 6);
    assert("settings"@.len() == 8);
    assert("contents"@[0] == 'c');
    assert("settings"@[0] == 's');
}

/// In the omni interface the prompt moves to the front of the contents, unless
/// they hold one already.
pub proof fn law_kling_v3_omni_prompt(
    body: Jv,
    path: Seq<char>,
    r: Jv,
    items: Seq<Jv>,
    prompt: Seq<char>,
)
    requires
        body is Obj,
        r == kling_v3_body(body, path),
        holds(path, "omni-video"@),
        body.member("contents"@) == Some(Jv::Arr(items)),
        text_at(body, "prompt"@) == Some(prompt),
        trimmed(prompt).len() > 0,
    ensures
        r.member("prompt"@) is None,
        has_prompt_item(items) ==> r.member("contents"@) == Some(Jv::Arr(items)),
        !has_prompt_item(items) ==> (r.member("contents"@) matches Some(Jv::Arr(parts))
            && parts.len() == items.len() + 1 && parts.skip(1) == items && text_at(
            parts[0],
            "type"@,
        ) == Some("prompt"@) && text_at(parts[0], "text"@) == Some(trimmed(prompt))),
{
    reveal_strlit("contents");
    reveal_strlit("model");
    reveal_strlit("model_name");
    reveal_strlit("options");
    reveal_strlit("prompt");
    reveal_strlit("settings");
    reveal_strlit("text");
    reveal_strlit("type");
    assert("contents"@.len() == 8);
    assert("model"@.len() == 5);
    assert("model_name"@.len() == 10);
    assert("options"@.len() == 7);
    assert("prompt"@.len() == 6);
    assert("settings"@.len() == 8);
    assert("text"@.len() == 4);
    assert("type"@.len() == 4);
    assert("contents"@[0] == 'c');
    assert("settings"@[0] == 's');
    assert("text"@[1] == 'e');
    assert("type"@[1] == 'y');
    let parts = r.at("contents"@)->Arr_0;
    if !has_prompt_item(items) {
        assert(parts =~= seq![parts[0]] + items);
        assert(parts.skip(1) =~= items);
    }
}

} // verus!
