//! What holds of the bodies that go to the vendors of images and videos: what
//! is kept of a request, under which name, and what is filled in.
use vstd::prelude::*;
use vstd::string::*;
use crate::json::{lemma_carry_all, single, text_at, text_or, Jv};
use crate::kling::{
    image_keys, is_omni_path, kling_base, kling_body, named_frames, omni_images, urls_of,
    video_keys, video_mode, with_video_images,
};
use crate::media::{
    all_addresses, image_urls, lemma_media_first, lemma_plain_addresses, lemma_plain_placed,
    listed, media_values, placed, plain_addresses,
};
use crate::text::{ascii_small, holds};

verus! {

// ---------------------------------------------------------------- Kling, flat

/// Images touch three members of a body only.
proof fn lemma_video_images(
    r: Jv,
    items: Seq<(Seq<char>, Seq<char>)>,
    omni: bool,
    key: Seq<char>,
)
    requires
        r is Obj,
    ensures
        with_video_images(r, items, omni) is Obj,
        key != "image"@ && key != "image_tail"@ && key != "image_list"@ ==> with_video_images(
            r,
            items,
            omni,
        ).member(key) == r.member(key),
{
}

/// What stands under a key that nothing but the list of members decides.
proof fn lemma_kling_video(
    model: Seq<char>,
    body: Jv,
    category: Seq<char>,
    path: Seq<char>,
    key: Seq<char>,
)
    requires
        category != "图片"@,
        key != "model_name"@,
        key != "image"@,
        key != "image_tail"@,
        key != "image_list"@,
    ensures
        ({
            let r = kling_body(model, body, category, path);
            let kept = if video_keys().contains(key) {
                body.member(key)
            } else {
                None
            };
            &&& key != "mode"@ && key != "sound"@ && key != "aspect_ratio"@ && key
                != "video_list"@ ==> r.member(key) == kept
            &&& kept is Some && key != "sound"@ ==> r.member(key) == kept
            &&& key == "sound"@ && (body.member("generate_audio"@) is None || category != "视频"@)
                && key != "mode"@ && key != "aspect_ratio"@ && key != "video_list"@ ==> r.member(
                key,
            ) == kept
        }),
{
    let a = single("model_name"@, Jv::Str(text_or(body, "model_name"@, model)));
    lemma_carry_all(a, body, video_keys(), key);
    lemma_carry_all(a, body, video_keys(), "mode"@);
    lemma_carry_all(a, body, video_keys(), "aspect_ratio"@);
    lemma_carry_all(a, body, video_keys(), "video_list"@);
    let base = kling_base(model, body, category);
    let b = if base.member("mode"@) is None {
        base.with("mode"@, Jv::Str(video_mode(body)))
    } else {
        base
    };
    let items = placed(media_values(body, seq!["images"@, "image_urls"@]), Some(""@), false);
    lemma_video_images(b, items, is_omni_path(path), key);
    lemma_video_images(b, items, is_omni_path(path), "video_list"@);
}

/// A video request in the flat protocol keeps what it asks for, each member
/// under its own name.
pub proof fn law_kling_video_keeps(
    model: Seq<char>,
    body: Jv,
    category: Seq<char>,
    path: Seq<char>,
    r: Jv,
)
    requires
        category != "图片"@,
        r == kling_body(model, body, category, path),
    ensures
        r.member("prompt"@) == body.member("prompt"@),
        r.member("negative_prompt"@) == body.member("negative_prompt"@),
        r.member("duration"@) == body.member("duration"@),
        r.member("type"@) == body.member("type"@),
        r.member("multi_shot"@) == body.member("multi_shot"@),
        r.member("multi_prompt"@) == body.member("multi_prompt"@),
        r.member("callback_url"@) == body.member("callback_url"@),
        r.member("external_task_id"@) == body.member("external_task_id"@),
        r.member("cfg_scale"@) == body.member("cfg_scale"@),
        r.member("camera_control"@) == body.member("camera_control"@),
        r.member("shot_type"@) == body.member("shot_type"@),
        r.member("element_list"@) == body.member("element_list"@),
        r.member("voice_list"@) == body.member("voice_list"@),
        body.member("mode"@) is Some ==> r.member("mode"@) == body.member("mode"@),
        body.member("aspect_ratio"@) is Some ==> r.member("aspect_ratio"@) == body.member(
            "aspect_ratio"@,
        ),
        body.member("video_list"@) is Some ==> r.member("video_list"@) == body.member(
            "video_list"@,
        ),
        body.member("generate_audio"@) is None || category != "视频"@ ==> r.member("sound"@)
            == body.member("sound"@),
{
    reveal_strlit("aspect_ratio");
    reveal_strlit("callback_url");
    reveal_strlit("camera_control");
    reveal_strlit("cfg_scale");
    reveal_strlit("duration");
    reveal_strlit("element_list");
    reveal_strlit("external_task_id");
    reveal_strlit("image");
    reveal_strlit("image_list");
    reveal_strlit("image_tail");
    reveal_strlit("mode");
    reveal_strlit("model_name");
    reveal_strlit("multi_prompt");
    reveal_strlit("multi_shot");
    reveal_strlit("negative_prompt");
    reveal_strlit("prompt");
    reveal_strlit("shot_type");
    reveal_strlit("sound");
    reveal_strlit("type");
    reveal_strlit("video_list");
    reveal_strlit("voice_list");
    assert("aspect_ratio"@.len() == 12);
    assert("callback_url"@.len() == 12);
    assert("camera_control"@.len() == 14);
    assert("cfg_scale"@.len() == 9);
    assert("duration"@.len() == 8);
    assert("element_list"@.len() == 12);
    assert("external_task_id"@.len() == 16);
    assert("image"@.len() == 5);
    assert("image_list"@.len() == 10);
    assert("image_tail"@.len() == 10);
    assert("mode"@.len() == 4);
    assert("model_name"@.len() == 10);
    assert("multi_prompt"@.len() == 12);
    assert("multi_shot"@.len() == 10);
    assert("negative_prompt"@.len() == 15);
    assert("prompt"@.len() == 6);
    assert("shot_type"@.len() == 9);
    assert("sound"@.len() == 5);
    assert("type"@.len() == 4);
    assert("video_list"@.len() == 10);
    assert("voice_list"@.len() == 10);
    assert("aspect_ratio"@[0] == 'a');
    assert("callback_url"@[0] == 'c');
    assert("element_list"@[0] == 'e');
    assert("multi_prompt"@[0] == 'm');
    assert("cfg_scale"@[0] == 'c');
    assert("shot_type"@[0] == 's');
    assert("image"@[0] == 'i');
    assert("sound"@[0] == 's');
    assert("image_list"@[6] == 'l');
    assert("image_tail"@[6] == 't');
    assert("image_list"@[0] == 'i');
    assert("model_name"@[0] == 'm');
    assert("multi_shot"@[0] == 'm');
    assert("video_list"@[0] == 'v');
    assert("voice_list"@[0] == 'v');
    assert("image_tail"@[0] == 'i');
    assert("mode"@[0] == 'm');
    assert("type"@[0] == 't');
    assert("model_name"@[1] == 'o');
    assert("multi_shot"@[1] == 'u');
    assert("video_list"@[1] == 'i');
    assert("voice_list"@[1] == 'o');
    assert(video_keys()[0] == "prompt"@);
    assert(video_keys()[1] == "negative_prompt"@);
    assert(video_keys()[2] == "duration"@);
    assert(video_keys()[3] == "mode"@);
    assert(video_keys()[4] == "sound"@);
    assert(video_keys()[5] == "aspect_ratio"@);
    assert(video_keys()[6] == "image"@);
    assert(video_keys()[7] == "image_tail"@);
    assert(video_keys()[8] == "image_list"@);
    assert(video_keys()[9] == "video_list"@);
    assert(video_keys()[10] == "type"@);
    assert(video_keys()[11] == "multi_shot"@);
    assert(video_keys()[12] == "multi_prompt"@);
    assert(video_keys()[13] == "callback_url"@);
    assert(video_keys()[14] == "external_task_id"@);
    assert(video_keys()[15] == "cfg_scale"@);
    assert(video_keys()[16] == "camera_control"@);
    assert(video_keys()[17] == "shot_type"@);
    assert(video_keys()[18] == "element_list"@);
    assert(video_keys()[19] == "voice_list"@);
    lemma_kling_video(model, body, category, path, "prompt"@);
    lemma_kling_video(model, body, category, path, "negative_prompt"@);
    lemma_kling_video(model, body, category, path, "duration"@);
    lemma_kling_video(model, body, category, path, "type"@);
    lemma_kling_video(model, body, category, path, "multi_shot"@);
    lemma_kling_video(model, body, category, path, "multi_prompt"@);
    lemma_kling_video(model, body, category, path, "callback_url"@);
    lemma_kling_video(model, body, category, path, "external_task_id"@);
    lemma_kling_video(model, body, category, path, "cfg_scale"@);
    lemma_kling_video(model, body, category, path, "camera_control"@);
    lemma_kling_video(model, body, category, path, "shot_type"@);
    lemma_kling_video(model, body, category, path, "element_list"@);
    lemma_kling_video(model, body, category, path, "voice_list"@);
    lemma_kling_video(model, body, category, path, "mode"@);
    lemma_kling_video(model, body, category, path, "aspect_ratio"@);
    lemma_kling_video(model, body, category, path, "video_list"@);
    lemma_kling_video(model, body, category, path, "sound"@);
}

/// The model, the mode, the ratio and the sound of a video request in the flat
/// protocol, where the request does not name them itself.
pub proof fn law_kling_video_fills_in(
    model: Seq<char>,
    body: Jv,
    category: Seq<char>,
    path: Seq<char>,
    r: Jv,
)
    requires
        category == "视频"@,
        r == kling_body(model, body, category, path),
    ensures
        r.member("model_name"@) == Some(
            match text_at(body, "model_name"@) {
                Some(name) => Jv::Str(name),
                None => Jv::Str(model),
            },
        ),
        body.member("mode"@) is None ==> r.member("mode"@) == Some(
            Jv::Str(
                match text_at(body, "resolution"@) {
                    Some(res) => if ascii_small(res) == "1080p"@ {
                        "pro"@
                    } else if ascii_small(res) == "4k"@ {
                        "4k"@
                    } else {
                        "std"@
                    },
                    None => "std"@,
                },
            ),
        ),
        body.member("aspect_ratio"@) is None ==> r.member("aspect_ratio"@) == body.member("ratio"@),
        body.member("generate_audio"@) matches Some(on) ==> r.member("sound"@) == Some(
            Jv::Str(
                if on == Jv::Bool(true) || on == Jv::Str("true"@) {
                    "on"@
                } else {
                    "off"@
                },
            ),
        ),
{
    reveal_strlit("aspect_ratio");
    reveal_strlit("callback_url");
    reveal_strlit("camera_control");
    reveal_strlit("cfg_scale");
    reveal_strlit("duration");
    reveal_strlit("element_list");
    reveal_strlit("external_task_id");
    reveal_strlit("image");
    reveal_strlit("image_list");
    reveal_strlit("image_tail");
    reveal_strlit("mode");
    reveal_strlit("model_name");
    reveal_strlit("multi_prompt");
    reveal_strlit("multi_shot");
    reveal_strlit("negative_prompt");
    reveal_strlit("prompt");
    reveal_strlit("shot_type");
    reveal_strlit("sound");
    reveal_strlit("type");
    reveal_strlit("video_list");
    reveal_strlit("voice_list");
    reveal_strlit("图片");
    reveal_strlit("视频");
    assert("aspect_ratio"@.len() == 12);
    assert("callback_url"@.len() == 12);
    assert("camera_control"@.len() == 14);
    assert("cfg_scale"@.len() == 9);
    assert("duration"@.len() == 8);
    assert("element_list"@.len() == 12);
    assert("external_task_id"@.len() == 16);
    assert("image"@.len() == 5);
    assert("image_list"@.len() == 10);
    assert("image_tail"@.len() == 10);
    assert("mode"@.len() == 4);
    assert("model_name"@.len() == 10);
    assert("multi_prompt"@.len() == 12);
    assert("multi_shot"@.len() == 10);
    assert("negative_prompt"@.len() == 15);
    assert("prompt"@.len() == 6);
    assert("shot_type"@.len() == 9);
    assert("sound"@.len() == 5);
    assert("type"@.len() == 4);
    assert("video_list"@.len() == 10);
    assert("voice_list"@.len() == 10);
    assert("图片"@.len() == 2);
    assert("视频"@.len() == 2);
    assert("aspect_ratio"@[0] == 'a');
    assert("callback_url"@[0] == 'c');
    assert("element_list"@[0] == 'e');
    assert("multi_prompt"@[0] == 'm');
    assert("cfg_scale"@[0] == 'c');
    assert("shot_type"@[0] == 's');
    assert("image"@[0] == 'i');
    assert("sound"@[0] == 's');
    assert("image_list"@[6] == 'l');
    assert("image_tail"@[6] == 't');
    assert("image_list"@[0] == 'i');
    assert("model_name"@[0] == 'm');
    assert("multi_shot"@[0] == 'm');
    assert("video_list"@[0] == 'v');
    assert("voice_list"@[0] == 'v');
    assert("image_tail"@[0] == 'i');
    assert("mode"@[0] == 'm');
    assert("type"@[0] == 't');
    assert("model_name"@[1] == 'o');
    assert("multi_shot"@[1] == 'u');
    assert("video_list"@[1] == 'i');
    assert("voice_list"@[1] == 'o');
    assert("图片"@[0] == '图');
    assert("视频"@[0] == '视');
    assert(video_keys()[0] == "prompt"@);
    assert(video_keys()[1] == "negative_prompt"@);
    assert(video_keys()[2] == "duration"@);
    assert(video_keys()[3] == "mode"@);
    assert(video_keys()[4] == "sound"@);
    assert(video_keys()[5] == "aspect_ratio"@);
    assert(video_keys()[6] == "image"@);
    assert(video_keys()[7] == "image_tail"@);
    assert(video_keys()[8] == "image_list"@);
    assert(video_keys()[9] == "video_list"@);
    assert(video_keys()[10] == "type"@);
    assert(video_keys()[11] == "multi_shot"@);
    assert(video_keys()[12] == "multi_prompt"@);
    assert(video_keys()[13] == "callback_url"@);
    assert(video_keys()[14] == "external_task_id"@);
    assert(video_keys()[15] == "cfg_scale"@);
    assert(video_keys()[16] == "camera_control"@);
    assert(video_keys()[17] == "shot_type"@);
    assert(video_keys()[18] == "element_list"@);
    assert(video_keys()[19] == "voice_list"@);
    assert(!video_keys().contains("model_name"@));
    let a = single("model_name"@, Jv::Str(text_or(body, "model_name"@, model)));
    lemma_carry_all(a, body, video_keys(), "model_name"@);
    lemma_carry_all(a, body, video_keys(), "mode"@);
    lemma_carry_all(a, body, video_keys(), "aspect_ratio"@);
    lemma_carry_all(a, body, video_keys(), "video_list"@);
    let base = kling_base(model, body, category);
    let b = if base.member("mode"@) is None {
        base.with("mode"@, Jv::Str(video_mode(body)))
    } else {
        base
    };
    let items = placed(media_values(body, seq!["images"@, "image_urls"@]), Some(""@), false);
    let omni = is_omni_path(path);
    lemma_video_images(b, items, omni, "model_name"@);
    lemma_video_images(b, items, omni, "mode"@);
    lemma_video_images(b, items, omni, "aspect_ratio"@);
    lemma_video_images(b, items, omni, "sound"@);
}

/// Images that a video request names in the form of the vendor stay as they
/// are.
pub proof fn law_kling_video_own_images(
    model: Seq<char>,
    body: Jv,
    category: Seq<char>,
    path: Seq<char>,
    r: Jv,
)
    requires
        category != "图片"@,
        body.member("image"@) is Some || body.member("image_tail"@) is Some || body.member(
            "image_list"@,
        ) is Some,
        r == kling_body(model, body, category, path),
    ensures
        r.member("image"@) == body.member("image"@),
        r.member("image_tail"@) == body.member("image_tail"@),
        r.member("image_list"@) == body.member("image_list"@),
{
    reveal_strlit("aspect_ratio");
    reveal_strlit("callback_url");
    reveal_strlit("camera_control");
    reveal_strlit("cfg_scale");
    reveal_strlit("duration");
    reveal_strlit("element_list");
    reveal_strlit("external_task_id");
    reveal_strlit("image");
    reveal_strlit("image_list");
    reveal_strlit("image_tail");
    reveal_strlit("mode");
    reveal_strlit("model_name");
    reveal_strlit("multi_prompt");
    reveal_strlit("multi_shot");
    reveal_strlit("negative_prompt");
    reveal_strlit("prompt");
    reveal_strlit("shot_type");
    reveal_strlit("sound");
    reveal_strlit("type");
    reveal_strlit("video_list");
    reveal_strlit("voice_list");
    assert("aspect_ratio"@.len() == 12);
    assert("callback_url"@.len() == 12);
    assert("camera_control"@.len() == 14);
    assert("cfg_scale"@.len() == 9);
    assert("duration"@.len() == 8);
    assert("element_list"@.len() == 12);
    assert("external_task_id"@.len() == 16);
    assert("image"@.len() == 5);
    assert("image_list"@.len() == 10);
    assert("image_tail"@.len() == 10);
    assert("mode"@.len() == 4);
    assert("model_name"@.len() == 10);
    assert("multi_prompt"@.len() == 12);
    assert("multi_shot"@.len() == 10);
    assert("negative_prompt"@.len() == 15);
    assert("prompt"@.len() == 6);
    assert("shot_type"@.len() == 9);
    assert("sound"@.len() == 5);
    assert("type"@.len() == 4);
    assert("video_list"@.len() == 10);
    assert("voice_list"@.len() == 10);
    assert("aspect_ratio"@[0] == 'a');
    assert("callback_url"@[0] == 'c');
    assert("element_list"@[0] == 'e');
    assert("multi_prompt"@[0] == 'm');
    assert("cfg_scale"@[0] == 'c');
    assert("shot_type"@[0] == 's');
    assert("image"@[0] == 'i');
    assert("sound"@[0] == 's');
    assert("image_list"@[6] == 'l');
    assert("image_tail"@[6] == 't');
    assert("image_list"@[0] == 'i');
    assert("model_name"@[0] == 'm');
    assert("multi_shot"@[0] == 'm');
    assert("video_list"@[0] == 'v');
    assert("voice_list"@[0] == 'v');
    assert("image_tail"@[0] == 'i');
    assert("mode"@[0] == 'm');
    assert("type"@[0] == 't');
    assert("model_name"@[1] == 'o');
    assert("multi_shot"@[1] == 'u');
    assert("video_list"@[1] == 'i');
    assert("voice_list"@[1] == 'o');
    assert(video_keys()[0] == "prompt"@);
    assert(video_keys()[1] == "negative_prompt"@);
    assert(video_keys()[2] == "duration"@);
    assert(video_keys()[3] == "mode"@);
    assert(video_keys()[4] == "sound"@);
    assert(video_keys()[5] == "aspect_ratio"@);
    assert(video_keys()[6] == "image"@);
    assert(video_keys()[7] == "image_tail"@);
    assert(video_keys()[8] == "image_list"@);
    assert(video_keys()[9] == "video_list"@);
    assert(video_keys()[10] == "type"@);
    assert(video_keys()[11] == "multi_shot"@);
    assert(video_keys()[12] == "multi_prompt"@);
    assert(video_keys()[13] == "callback_url"@);
    assert(video_keys()[14] == "external_task_id"@);
    assert(video_keys()[15] == "cfg_scale"@);
    assert(video_keys()[16] == "camera_control"@);
    assert(video_keys()[17] == "shot_type"@);
    assert(video_keys()[18] == "element_list"@);
    assert(video_keys()[19] == "voice_list"@);
    let a = single("model_name"@, Jv::Str(text_or(body, "model_name"@, model)));
    lemma_carry_all(a, body, video_keys(), "image"@);
    lemma_carry_all(a, body, video_keys(), "image_tail"@);
    lemma_carry_all(a, body, video_keys(), "image_list"@);
}

/// Before its images are put in, a video body has what the frame of the
/// request gives.
proof fn lemma_kling_before_images(model: Seq<char>, body: Jv, category: Seq<char>) -> (b: Jv)
    requires
        category != "图片"@,
        body.member("image"@) is None,
        body.member("image_tail"@) is None,
        body.member("image_list"@) is None,
    ensures
        b is Obj,
        b.member("image"@) is None,
        b.member("image_tail"@) is None,
        b.member("image_list"@) is None,
        b.member("video_list"@) == body.member("video_list"@),
        ({
            let base = kling_base(model, body, category);
            b == if base.member("mode"@) is None {
                base.with("mode"@, Jv::Str(video_mode(body)))
            } else {
                base
            }
        }),
{
    reveal_strlit("aspect_ratio");
    reveal_strlit("callback_url");
    reveal_strlit("camera_control");
    reveal_strlit("cfg_scale");
    reveal_strlit("duration");
    reveal_strlit("element_list");
    reveal_strlit("external_task_id");
    reveal_strlit("image");
    reveal_strlit("image_list");
    reveal_strlit("image_tail");
    reveal_strlit("mode");
    reveal_strlit("model_name");
    reveal_strlit("multi_prompt");
    reveal_strlit("multi_shot");
    reveal_strlit("negative_prompt");
    reveal_strlit("prompt");
    reveal_strlit("shot_type");
    reveal_strlit("sound");
    reveal_strlit("type");
    reveal_strlit("video_list");
    reveal_strlit("voice_list");
    assert("aspect_ratio"@.len() == 12);
    assert("callback_url"@.len() == 12);
    assert("camera_control"@.len() == 14);
    assert("cfg_scale"@.len() == 9);
    assert("duration"@.len() == 8);
    assert("element_list"@.len() == 12);
    assert("external_task_id"@.len() == 16);
    assert("image"@.len() == 5);
    assert("image_list"@.len() == 10);
    assert("image_tail"@.len() == 10);
    assert("mode"@.len() == 4);
    assert("model_name"@.len() == 10);
    assert("multi_prompt"@.len() == 12);
    assert("multi_shot"@.len() == 10);
    assert("negative_prompt"@.len() == 15);
    assert("prompt"@.len() == 6);
    assert("shot_type"@.len() == 9);
    assert("sound"@.len() == 5);
    assert("type"@.len() == 4);
    assert("video_list"@.len() == 10);
    assert("voice_list"@.len() == 10);
    assert("aspect_ratio"@[0] == 'a');
    assert("callback_url"@[0] == 'c');
    assert("element_list"@[0] == 'e');
    assert("multi_prompt"@[0] == 'm');
    assert("cfg_scale"@[0] == 'c');
    assert("shot_type"@[0] == 's');
    assert("image"@[0] == 'i');
    assert("sound"@[0] == 's');
    assert("image_list"@[6] == 'l');
    assert("image_tail"@[6] == 't');
    assert("image_list"@[0] == 'i');
    assert("model_name"@[0] == 'm');
    assert("multi_shot"@[0] == 'm');
    assert("video_list"@[0] == 'v');
    assert("voice_list"@[0] == 'v');
    assert("image_tail"@[0] == 'i');
    assert("mode"@[0] == 'm');
    assert("type"@[0] == 't');
    assert("model_name"@[1] == 'o');
    assert("multi_shot"@[1] == 'u');
    assert("video_list"@[1] == 'i');
    assert("voice_list"@[1] == 'o');
    assert(video_keys()[0] == "prompt"@);
    assert(video_keys()[1] == "negative_prompt"@);
    assert(video_keys()[2] == "duration"@);
    assert(video_keys()[3] == "mode"@);
    assert(video_keys()[4] == "sound"@);
    assert(video_keys()[5] == "aspect_ratio"@);
    assert(video_keys()[6] == "image"@);
    assert(video_keys()[7] == "image_tail"@);
    assert(video_keys()[8] == "image_list"@);
    assert(video_keys()[9] == "video_list"@);
    assert(video_keys()[10] == "type"@);
    assert(video_keys()[11] == "multi_shot"@);
    assert(video_keys()[12] == "multi_prompt"@);
    assert(video_keys()[13] == "callback_url"@);
    assert(video_keys()[14] == "external_task_id"@);
    assert(video_keys()[15] == "cfg_scale"@);
    assert(video_keys()[16] == "camera_control"@);
    assert(video_keys()[17] == "shot_type"@);
    assert(video_keys()[18] == "element_list"@);
    assert(video_keys()[19] == "voice_list"@);
    let a = single("model_name"@, Jv::Str(text_or(body, "model_name"@, model)));
    lemma_carry_all(a, body, video_keys(), "image"@);
    lemma_carry_all(a, body, video_keys(), "image_tail"@);
    lemma_carry_all(a, body, video_keys(), "image_list"@);
    lemma_carry_all(a, body, video_keys(), "video_list"@);
    let base = kling_base(model, body, category);
    if base.member("mode"@) is None {
        base.with("mode"@, Jv::Str(video_mode(body)))
    } else {
        base
    }
}

/// One image is the first frame of a video, two are its first and its last
/// frame, and more go into a list, in their order.
pub proof fn law_kling_video_images(
    model: Seq<char>,
    body: Jv,
    category: Seq<char>,
    path: Seq<char>,
    r: Jv,
    images: Seq<Jv>,
)
    requires
        category != "图片"@,
        !holds(path, "omni-video"@),
        !holds(path, "omni-image"@),
        body.member("image"@) is None,
        body.member("image_tail"@) is None,
        body.member("image_list"@) is None,
        body.member("images"@) == Some(Jv::Arr(images)),
        images.len() > 0,
        all_addresses(images),
        r == kling_body(model, body, category, path),
    ensures
        images.len() == 1 ==> r.member("image"@) == Some(images[0])
            && r.member("image_tail"@) is None
            && r.member("image_list"@) is None,
        images.len() == 2 ==> r.member("image"@) == Some(images[0]) && r.member("image_tail"@)
            == Some(images[1]) && r.member("image_list"@) is None,
        images.len() > 2 ==> r.member("image"@) is None && r.member("image_tail"@) is None && (
        r.member("image_list"@) matches Some(Jv::Arr(list)) && list.len() == images.len() && (
        forall|i: int|
            0 <= i < images.len() ==> (#[trigger] list[i]).member("image"@) == Some(images[i]))),
{
    reveal_strlit("");
    reveal_strlit("end_frame");
    reveal_strlit("first");
    reveal_strlit("first_frame");
    reveal_strlit("image");
    reveal_strlit("image_list");
    reveal_strlit("image_tail");
    reveal_strlit("image_urls");
    reveal_strlit("images");
    reveal_strlit("last");
    reveal_strlit("last_frame");
    reveal_strlit("reference_image");
    reveal_strlit("tail");
    reveal_strlit("video_list");
    assert(""@.len() == 0);
    assert("end_frame"@.len() == 9);
    assert("first"@.len() == 5);
    assert("first_frame"@.len() == 11);
    assert("image"@.len() == 5);
    assert("image_list"@.len() == 10);
    assert("image_tail"@.len() == 10);
    assert("image_urls"@.len() == 10);
    assert("images"@.len() == 6);
    assert("last"@.len() == 4);
    assert("last_frame"@.len() == 10);
    assert("reference_image"@.len() == 15);
    assert("tail"@.len() == 4);
    assert("video_list"@.len() == 10);
    assert("first"@[0] == 'f');
    assert("image"@[0] == 'i');
    assert("image_list"@[6] == 'l');
    assert("image_tail"@[6] == 't');
    assert("image_urls"@[6] == 'u');
    assert("image_list"@[0] == 'i');
    assert("last_frame"@[0] == 'l');
    assert("video_list"@[0] == 'v');
    assert("image_tail"@[0] == 'i');
    assert("image_urls"@[0] == 'i');
    assert("last"@[0] == 'l');
    assert("tail"@[0] == 't');
    let b = lemma_kling_before_images(model, body, category);
    let fields = seq!["images"@, "image_urls"@];
    assert(fields[0] == "images"@);
    lemma_media_first(body, fields);
    lemma_plain_placed(images, images.len() as int, Some(""@), false);
    let items = placed(images, Some(""@), false);
    assert(items.len() == images.len());
    assert forall|i: int| 0 <= i < items.len() implies (#[trigger] items[i]) == (
        images[i]->Str_0,
        ""@,
    ) by {}
    assert(!crate::kling::any_reference(items));
    reveal_with_fuel(named_frames, 4);
    if items.len() <= 2 {
        assert(images[0] is Str);
        lemma_unnamed(items);
        if items.len() == 2 {
            assert(images[1] is Str);
        }
    } else {
        let list = urls_of(items);
        assert forall|i: int| 0 <= i < images.len() implies (
        #[trigger] crate::json::tagged(list, "image"@)->Arr_0[i]).member("image"@) == Some(
            images[i],
        ) by {
            assert(images[i] is Str);
        }
    }
}

/// Images without roles name no frame.
proof fn lemma_unnamed(items: Seq<(Seq<char>, Seq<char>)>)
    requires
        forall|i: int| 0 <= i < items.len() ==> (#[trigger] items[i]).1 == ""@,
    ensures
        named_frames(items) == (None::<Seq<char>>, None::<Seq<char>>),
    decreases items.len(),
{
    reveal_strlit("");
    reveal_strlit("end_frame");
    reveal_strlit("first");
    reveal_strlit("first_frame");
    reveal_strlit("last");
    reveal_strlit("last_frame");
    reveal_strlit("tail");
    assert(""@.len() == 0);
    assert("end_frame"@.len() == 9);
    assert("first"@.len() == 5);
    assert("first_frame"@.len() == 11);
    assert("last"@.len() == 4);
    assert("last_frame"@.len() == 10);
    assert("tail"@.len() == 4);
    assert("last"@[0] == 'l');
    assert("tail"@[0] == 't');
    if items.len() > 0 {
        let before = items.drop_last();
        assert forall|i: int| 0 <= i < before.len() implies (#[trigger] before[i]).1 == ""@ by {
            assert(before[i] == items[i]);
        }
        lemma_unnamed(before);
        assert(items[items.len() - 1].1 == ""@);
    }
}

/// Of two images whose roles say so, one is the first frame and the other the
/// last, whichever comes first.
pub proof fn law_kling_named_frames(r: Jv, a: Seq<char>, b: Seq<char>, q: Jv, s: Jv)
    requires
        r is Obj,
        r.member("image_list"@) is None,
        q == with_video_images(r, seq![(a, "first_frame"@), (b, "last_frame"@)], false),
        s == with_video_images(r, seq![(b, "last_frame"@), (a, "first_frame"@)], false),
    ensures
        q.member("image"@) == Some(Jv::Str(a)),
        q.member("image_tail"@) == Some(Jv::Str(b)),
        q.member("image_list"@) is None,
        s.member("image"@) == Some(Jv::Str(a)),
        s.member("image_tail"@) == Some(Jv::Str(b)),
        s.member("image_list"@) is None,
{
    reveal_strlit("end_frame");
    reveal_strlit("first");
    reveal_strlit("first_frame");
    reveal_strlit("image");
    reveal_strlit("image_list");
    reveal_strlit("image_tail");
    reveal_strlit("last");
    reveal_strlit("last_frame");
    reveal_strlit("reference_image");
    reveal_strlit("tail");
    assert("end_frame"@.len() == 9);
    assert("first"@.len() == 5);
    assert("first_frame"@.len() == 11);
    assert("image"@.len() == 5);
    assert("image_list"@.len() == 10);
    assert("image_tail"@.len() == 10);
    assert("last"@.len() == 4);
    assert("last_frame"@.len() == 10);
    assert("reference_image"@.len() == 15);
    assert("tail"@.len() == 4);
    assert("first"@[0] == 'f');
    assert("image"@[0] == 'i');
    assert("image_list"@[6] == 'l');
    assert("image_tail"@[6] == 't');
    assert("image_list"@[0] == 'i');
    assert("last_frame"@[0] == 'l');
    assert("image_tail"@[0] == 'i');
    assert("last"@[0] == 'l');
    assert("tail"@[0] == 't');
    let x = seq![(a, "first_frame"@), (b, "last_frame"@)];
    let y = seq![(b, "last_frame"@), (a, "first_frame"@)];
    reveal_with_fuel(named_frames, 4);
    reveal_with_fuel(crate::kling::filled_frames, 4);
    assert(x.drop_last() =~= seq![(a, "first_frame"@)]);
    assert(x.drop_last().drop_last() =~= Seq::<(Seq<char>, Seq<char>)>::empty());
    assert(y.drop_last() =~= seq![(b, "last_frame"@)]);
    assert(y.drop_last().drop_last() =~= Seq::<(Seq<char>, Seq<char>)>::empty());
}

/// On the omni interface images and videos go into lists, each by its address;
/// two images are the first and the last frame.
pub proof fn law_kling_omni_media(
    model: Seq<char>,
    body: Jv,
    category: Seq<char>,
    path: Seq<char>,
    r: Jv,
    images: Seq<Jv>,
    videos: Seq<Jv>,
)
    requires
        category != "图片"@,
        holds(path, "omni-video"@) || holds(path, "omni-image"@),
        body.member("image"@) is None,
        body.member("image_tail"@) is None,
        body.member("image_list"@) is None,
        body.member("video_list"@) is None,
        body.member("images"@) == Some(Jv::Arr(images)),
        body.member("videos"@) == Some(Jv::Arr(videos)),
        images.len() > 0,
        videos.len() > 0,
        all_addresses(images),
        all_addresses(videos),
        r == kling_body(model, body, category, path),
    ensures
        r.member("image_list"@) matches Some(Jv::Arr(list)) && list.len() == images.len() && (
        forall|i: int|
            0 <= i < images.len() ==> (#[trigger] list[i]).member("image_url"@) == Some(images[i]))
            && (images.len() == 2 ==> text_at(list[0], "type"@) == Some("first_frame"@) && text_at(
            list[1],
            "type"@,
        ) == Some("end_frame"@)),
        r.member("video_list"@) matches Some(Jv::Arr(list)) && list.len() == videos.len() && (
        forall|i: int|
            0 <= i < videos.len() ==> (#[trigger] list[i]).member("video_url"@) == Some(videos[i])
                && text_at(list[i], "refer_type"@) == Some("base"@)),
{
    reveal_strlit("");
    reveal_strlit("end_frame");
    reveal_strlit("first");
    reveal_strlit("first_frame");
    reveal_strlit("image");
    reveal_strlit("image_list");
    reveal_strlit("image_tail");
    reveal_strlit("image_url");
    reveal_strlit("image_urls");
    reveal_strlit("images");
    reveal_strlit("last");
    reveal_strlit("last_frame");
    reveal_strlit("refer_type");
    reveal_strlit("tail");
    reveal_strlit("type");
    reveal_strlit("video_list");
    reveal_strlit("video_url");
    reveal_strlit("video_urls");
    reveal_strlit("videos");
    assert(""@.len() == 0);
    assert("end_frame"@.len() == 9);
    assert("first"@.len() == 5);
    assert("first_frame"@.len() == 11);
    assert("image"@.len() == 5);
    assert("image_list"@.len() == 10);
    assert("image_tail"@.len() == 10);
    assert("image_url"@.len() == 9);
    assert("image_urls"@.len() == 10);
    assert("images"@.len() == 6);
    assert("last"@.len() == 4);
    assert("last_frame"@.len() == 10);
    assert("refer_type"@.len() == 10);
    assert("tail"@.len() == 4);
    assert("type"@.len() == 4);
    assert("video_list"@.len() == 10);
    assert("video_url"@.len() == 9);
    assert("video_urls"@.len() == 10);
    assert("videos"@.len() == 6);
    assert("end_frame"@[0] == 'e');
    assert("image_url"@[0] == 'i');
    assert("video_url"@[0] == 'v');
    assert("first"@[0] == 'f');
    assert("image"@[0] == 'i');
    assert("image_list"@[6] == 'l');
    assert("image_tail"@[6] == 't');
    assert("image_urls"@[6] == 'u');
    assert("image_list"@[0] == 'i');
    assert("last_frame"@[0] == 'l');
    assert("refer_type"@[0] == 'r');
    assert("video_list"@[0] == 'v');
    assert("video_urls"@[0] == 'v');
    assert("image_tail"@[0] == 'i');
    assert("image_urls"@[0] == 'i');
    assert("images"@[0] == 'i');
    assert("videos"@[0] == 'v');
    assert("last"@[0] == 'l');
    assert("tail"@[0] == 't');
    assert("type"@[0] == 't');
    assert("tail"@[1] == 'a');
    assert("type"@[1] == 'y');
    assert("video_list"@[6] == 'l');
    assert("video_urls"@[6] == 'u');
    let b = lemma_kling_before_images(model, body, category);
    let fields = seq!["images"@, "image_urls"@];
    assert(fields[0] == "images"@);
    lemma_media_first(body, fields);
    let clips = seq!["videos"@, "video_urls"@];
    assert(clips[0] == "videos"@);
    lemma_media_first(body, clips);
    lemma_plain_placed(images, images.len() as int, Some(""@), false);
    lemma_plain_placed(videos, videos.len() as int, Some(""@), false);
    let items = placed(images, Some(""@), false);
    let shots = placed(videos, Some(""@), false);
    lemma_video_images(b, items, true, "video_list"@);
    assert forall|i: int| 0 <= i < items.len() implies (#[trigger] items[i]).1.len() == 0 by {}
    assert(crate::kling::all_plain(items));
    let list = omni_images(items)->Arr_0;
    assert forall|i: int| 0 <= i < images.len() implies (#[trigger] list[i]).member("image_url"@)
        == Some(images[i]) by {
        assert(images[i] is Str);
    }
    let shown = crate::kling::omni_videos(shots)->Arr_0;
    assert forall|i: int| 0 <= i < videos.len() implies (#[trigger] shown[i]).member("video_url"@)
        == Some(videos[i]) && text_at(shown[i], "refer_type"@) == Some("base"@) by {
        assert(videos[i] is Str);
    }
}

/// What stands under a key of an image body that nothing but the list of
/// members decides.
proof fn lemma_kling_image(
    model: Seq<char>,
    body: Jv,
    path: Seq<char>,
    key: Seq<char>,
)
    requires
        key != "image"@,
        key != "image_list"@,
        key != "subject_image_list"@,
    ensures
        ({
            let r = kling_body(model, body, "图片"@, path);
            let listed = image_keys().contains(key);
            &&& listed && body.member(key) is Some ==> r.member(key) == body.member(key)
            &&& key != "model_name"@ && key != "resolution"@ && key != "aspect_ratio"@ && (!listed
                || body.member(key) is None) ==> r.member(key) is None
            &&& key == "model_name"@ && !listed && key != "resolution"@ && key != "aspect_ratio"@
                ==> r.member(key) == Some(Jv::Str(text_or(body, "model_name"@, model)))
            &&& key == "resolution"@ && body.member(key) is None && key != "model_name"@ && key
                != "aspect_ratio"@ ==> r.member(key) == Some(
                Jv::Str(text_or(body, "size"@, "1k"@)),
            )
            &&& key == "aspect_ratio"@ && body.member(key) is None && key != "model_name"@ && key
                != "resolution"@ ==> r.member(key) == body.member("ratio"@)
        }),
{
    reveal_strlit("图片");
    reveal_strlit("视频");
    assert("图片"@.len() == 2);
    assert("视频"@.len() == 2);
    assert("图片"@[0] == '图');
    assert("视频"@[0] == '视');
    let a = single("model_name"@, Jv::Str(text_or(body, "model_name"@, model)));
    lemma_carry_all(a, body, image_keys(), key);
    lemma_carry_all(a, body, image_keys(), "aspect_ratio"@);
    lemma_carry_all(a, body, image_keys(), "resolution"@);
    lemma_carry_all(a, body, image_keys(), "image_list"@);
    lemma_carry_all(a, body, image_keys(), "subject_image_list"@);
}

/// An image request in the flat protocol keeps what it asks for, each member
/// under its own name; its size is the resolution where it names none.
pub proof fn law_kling_image_keeps(model: Seq<char>, body: Jv, path: Seq<char>, r: Jv)
    requires
        r == kling_body(model, body, "图片"@, path),
    ensures
        r.member("prompt"@) == body.member("prompt"@),
        r.member("negative_prompt"@) == body.member("negative_prompt"@),
        r.member("n"@) == body.member("n"@),
        r.member("element_list"@) == body.member("element_list"@),
        r.member("image_fidelity"@) == body.member("image_fidelity"@),
        r.member("series_amount"@) == body.member("series_amount"@),
        r.member("callback_url"@) == body.member("callback_url"@),
        r.member("external_task_id"@) == body.member("external_task_id"@),
        r.member("image_reference"@) == body.member("image_reference"@),
        r.member("result_type"@) == body.member("result_type"@),
        r.member("watermark_info"@) == body.member("watermark_info"@),
        body.member("aspect_ratio"@) is Some ==> r.member("aspect_ratio"@) == body.member(
            "aspect_ratio"@,
        ),
        body.member("aspect_ratio"@) is None ==> r.member("aspect_ratio"@) == body.member("ratio"@),
        body.member("resolution"@) is Some ==> r.member("resolution"@) == body.member(
            "resolution"@,
        ),
        body.member("resolution"@) is None ==> r.member("resolution"@) == Some(
            match text_at(body, "size"@) {
                Some(size) => Jv::Str(size),
                None => Jv::Str("1k"@),
            },
        ),
        r.member("model_name"@) == Some(
            match text_at(body, "model_name"@) {
                Some(name) => Jv::Str(name),
                None => Jv::Str(model),
            },
        ),
{
    reveal_strlit("aspect_ratio");
    reveal_strlit("callback_url");
    reveal_strlit("element_list");
    reveal_strlit("external_task_id");
    reveal_strlit("image");
    reveal_strlit("image_fidelity");
    reveal_strlit("image_list");
    reveal_strlit("image_reference");
    reveal_strlit("model_name");
    reveal_strlit("n");
    reveal_strlit("negative_prompt");
    reveal_strlit("prompt");
    reveal_strlit("resolution");
    reveal_strlit("result_type");
    reveal_strlit("series_amount");
    reveal_strlit("subject_image_list");
    reveal_strlit("watermark_info");
    assert("aspect_ratio"@.len() == 12);
    assert("callback_url"@.len() == 12);
    assert("element_list"@.len() == 12);
    assert("external_task_id"@.len() == 16);
    assert("image"@.len() == 5);
    assert("image_fidelity"@.len() == 14);
    assert("image_list"@.len() == 10);
    assert("image_reference"@.len() == 15);
    assert("model_name"@.len() == 10);
    assert("n"@.len() == 1);
    assert("negative_prompt"@.len() == 15);
    assert("prompt"@.len() == 6);
    assert("resolution"@.len() == 10);
    assert("result_type"@.len() == 11);
    assert("series_amount"@.len() == 13);
    assert("subject_image_list"@.len() == 18);
    assert("watermark_info"@.len() == 14);
    assert("aspect_ratio"@[0] == 'a');
    assert("callback_url"@[0] == 'c');
    assert("element_list"@[0] == 'e');
    assert("image_fidelity"@[0] == 'i');
    assert("watermark_info"@[0] == 'w');
    assert("image_list"@[0] == 'i');
    assert("model_name"@[0] == 'm');
    assert("resolution"@[0] == 'r');
    assert("image_reference"@[0] == 'i');
    assert("negative_prompt"@[0] == 'n');
    assert(image_keys()[0] == "prompt"@);
    assert(image_keys()[1] == "negative_prompt"@);
    assert(image_keys()[2] == "n"@);
    assert(image_keys()[3] == "aspect_ratio"@);
    assert(image_keys()[4] == "resolution"@);
    assert(image_keys()[5] == "image"@);
    assert(image_keys()[6] == "image_list"@);
    assert(image_keys()[7] == "element_list"@);
    assert(image_keys()[8] == "subject_image_list"@);
    assert(image_keys()[9] == "image_fidelity"@);
    assert(image_keys()[10] == "series_amount"@);
    assert(image_keys()[11] == "callback_url"@);
    assert(image_keys()[12] == "external_task_id"@);
    assert(image_keys()[13] == "image_reference"@);
    assert(image_keys()[14] == "result_type"@);
    assert(image_keys()[15] == "watermark_info"@);
    assert(!image_keys().contains("model_name"@));
    lemma_kling_image(model, body, path, "prompt"@);
    lemma_kling_image(model, body, path, "negative_prompt"@);
    lemma_kling_image(model, body, path, "n"@);
    lemma_kling_image(model, body, path, "element_list"@);
    lemma_kling_image(model, body, path, "image_fidelity"@);
    lemma_kling_image(model, body, path, "series_amount"@);
    lemma_kling_image(model, body, path, "callback_url"@);
    lemma_kling_image(model, body, path, "external_task_id"@);
    lemma_kling_image(model, body, path, "image_reference"@);
    lemma_kling_image(model, body, path, "result_type"@);
    lemma_kling_image(model, body, path, "watermark_info"@);
    lemma_kling_image(model, body, path, "aspect_ratio"@);
    lemma_kling_image(model, body, path, "resolution"@);
    lemma_kling_image(model, body, path, "model_name"@);
}

/// The images of an image request: one stands by itself, several are its
/// subjects, and on the omni interface all go into a list.
pub proof fn law_kling_image_images(
    model: Seq<char>,
    body: Jv,
    path: Seq<char>,
    r: Jv,
    images: Seq<Jv>,
)
    requires
        body.member("image_list"@) is None,
        body.member("subject_image_list"@) is None,
        body.member("image"@) == Some(Jv::Arr(images)),
        images.len() > 0,
        all_addresses(images),
        r == kling_body(model, body, "图片"@, path),
    ensures
        ({
            let omni = holds(path, "omni-video"@) || holds(path, "omni-image"@);
            &&& !omni && images.len() == 1 ==> r.member("image"@) == Some(images[0])
            &&& !omni && images.len() > 1 ==> r.member("image"@) is None && (r.member(
                "subject_image_list"@,
            ) matches Some(Jv::Arr(list)) && list.len() == images.len() && (forall|i: int|
                0 <= i < images.len() ==> (#[trigger] list[i]).member("subject_image"@) == Some(
                    images[i],
                )))
            &&& omni ==> r.member("image"@) is None && (r.member("image_list"@) matches Some(
                Jv::Arr(list),
            ) && list.len() == images.len() && (forall|i: int|
                0 <= i < images.len() ==> (#[trigger] list[i]).member("image"@) == Some(images[i])))
        }),
{
    reveal_strlit("aspect_ratio");
    reveal_strlit("image");
    reveal_strlit("image_list");
    reveal_strlit("image_urls");
    reveal_strlit("model_name");
    reveal_strlit("resolution");
    reveal_strlit("subject_image");
    reveal_strlit("subject_image_list");
    reveal_strlit("图片");
    reveal_strlit("视频");
    assert("aspect_ratio"@.len() == 12);
    assert("image"@.len() == 5);
    assert("image_list"@.len() == 10);
    assert("image_urls"@.len() == 10);
    assert("model_name"@.len() == 10);
    assert("resolution"@.len() == 10);
    assert("subject_image"@.len() == 13);
    assert("subject_image_list"@.len() == 18);
    assert("图片"@.len() == 2);
    assert("视频"@.len() == 2);
    assert("image_list"@[6] == 'l');
    assert("image_urls"@[6] == 'u');
    assert("image_list"@[0] == 'i');
    assert("model_name"@[0] == 'm');
    assert("resolution"@[0] == 'r');
    assert("image_urls"@[0] == 'i');
    assert("图片"@[0] == '图');
    assert("视频"@[0] == '视');
    let a = single("model_name"@, Jv::Str(text_or(body, "model_name"@, model)));
    lemma_carry_all(a, body, image_keys(), "image_list"@);
    lemma_carry_all(a, body, image_keys(), "subject_image_list"@);
    let fields = seq!["image"@, "image_urls"@];
    assert(fields[0] == "image"@);
    lemma_media_first(body, fields);
    lemma_plain_addresses(images);
    let urls = image_urls(body, fields);
    assert(urls == plain_addresses(images));
    assert forall|i: int| 0 <= i < images.len() implies Jv::Str(#[trigger] urls[i]) == images[i] by {
        assert(images[i] is Str);
    }
    let x = crate::json::tagged(urls, "image"@)->Arr_0;
    let y = crate::json::tagged(urls, "subject_image"@)->Arr_0;
    assert forall|i: int| 0 <= i < images.len() implies (#[trigger] x[i]).member("image"@) == Some(
        images[i],
    ) by {
        assert(Jv::Str(urls[i]) == images[i]);
    }
    assert forall|i: int| 0 <= i < images.len() implies (#[trigger] y[i]).member("subject_image"@)
        == Some(images[i]) by {
        assert(Jv::Str(urls[i]) == images[i]);
    }
}

} // verus!
