//! What holds of the bodies for the image and speech interfaces, and of what
//! every body is finished with.
use vstd::prelude::*;
use vstd::string::*;
use crate::content::{atp_video_body, minimax_image_body, minimax_video_body, volcengine_video_body};
use crate::dashscope::{dashscope_image_body, dashscope_video_body};
use crate::forward::ForwardModel;
use crate::jimeng::{bytefor_video_body, jimeng_image_body, jimeng_video_body, media_enhance_body};
use crate::json::{int_at, no_members, text_at, Jv};
use crate::kling::{kling_body, kling_v3_body};
use crate::media::{
    all_addresses, image_urls, lemma_media_first, lemma_plain_addresses, plain_addresses,
    resolved_image,
};
use crate::request::{
    anthropic_body, converted, copies_request, finished, gemini_chat_body, gemini_image_body,
    gpt_image_body, gpt_images, inline_parts, speech_body, upstream_body, volcengine_image_body,
    with_apimart_size, with_content_prompt, with_usage_option, with_video_defaults,
    with_web_search, RequestModel,
};
use crate::tencent::{push_all, push_unique, tencent_image_body, tencent_video_body};
use crate::text::{holds, small_letters, trimmed};

verus! {

// ---------------------------------------------------------------- where a request goes

/// Each target has its own form of body.
pub proof fn law_form_of_target(f: ForwardModel, cx: RequestModel, body: Jv, r: Jv)
    requires
        r == converted(f, cx, body),
    ensures
        f.target_type == "bytefor_video"@ ==> r == bytefor_video_body(cx.model, body),
        f.target_type == "atp_video"@ ==> r == atp_video_body(cx.model, body),
        f.target_type == "kling"@ ==> r == kling_body(cx.model, body, cx.category, f.upstream_path),
        f.target_type == "kling_video"@ ==> r == kling_v3_body(body, f.upstream_path),
        f.target_type == "dashscope"@ ==> r == dashscope_video_body(cx.model, body),
        f.target_type == "volcengine_image"@ ==> r == volcengine_image_body(cx.model, body),
        f.target_type == "dashscope_image"@ ==> r == dashscope_image_body(cx.model, body),
        f.target_type == "minimax_video"@ ==> r == minimax_video_body(cx.model, body),
        f.target_type == "minimax_image"@ ==> r == minimax_image_body(cx.model, body, cx.nearest),
        f.target_type == "gemini_image"@ ==> r == gemini_image_body(body, cx.fetched),
        f.target_type == "gemini"@ ==> r == gemini_chat_body(body),
        f.target_type == "anthropic"@ ==> r == anthropic_body(cx.model, body),
        f.target_type == "tencent_vod_image"@ ==> r == tencent_image_body(cx.model, body, cx.nearest),
        f.target_type == "tencent_vod_video"@ ==> r == tencent_video_body(cx.model, body),
        f.target_type == "jimeng_image"@ ==> r == jimeng_image_body(cx.model, body),
        f.target_type == "jimeng_video"@ ==> r == jimeng_video_body(cx.model, body),
        f.target_type == "volcengine_tts"@ ==> r == speech_body(body),
        f.target_type == "volcengine"@ && cx.category != "聊天"@ ==> r == volcengine_video_body(
            cx.model,
            body,
        ),
        f.target_type == "gpt"@ && cx.category == "图片"@ ==> r == gpt_image_body(cx.model, body),
        f.target_type == "volcengine_media_enhance"@ && cx.plugins.volcengine_enhance ==> (
        f.mid matches Some(m) ==> r == media_enhance_body(m, body)),
        f.target_type == "volcengine_media_enhance"@ && !cx.plugins.volcengine_enhance ==> r
            == body,
{
    reveal_strlit("anthropic");
    reveal_strlit("atp_video");
    reveal_strlit("bytefor_video");
    reveal_strlit("dashscope");
    reveal_strlit("dashscope_image");
    reveal_strlit("gemini");
    reveal_strlit("gemini_image");
    reveal_strlit("gpt");
    reveal_strlit("jimeng_image");
    reveal_strlit("jimeng_video");
    reveal_strlit("kling");
    reveal_strlit("kling_video");
    reveal_strlit("minimax_image");
    reveal_strlit("minimax_video");
    reveal_strlit("tencent_vod_image");
    reveal_strlit("tencent_vod_video");
    reveal_strlit("volcengine");
    reveal_strlit("volcengine_image");
    reveal_strlit("volcengine_media_enhance");
    reveal_strlit("volcengine_tts");
    assert("anthropic"@.len() == 9);
    assert("atp_video"@.len() == 9);
    assert("bytefor_video"@.len() == 13);
    assert("dashscope"@.len() == 9);
    assert("dashscope_image"@.len() == 15);
    assert("gemini"@.len() == 6);
    assert("gemini_image"@.len() == 12);
    assert("gpt"@.len() == 3);
    assert("jimeng_image"@.len() == 12);
    assert("jimeng_video"@.len() == 12);
    assert("kling"@.len() == 5);
    assert("kling_video"@.len() == 11);
    assert("minimax_image"@.len() == 13);
    assert("minimax_video"@.len() == 13);
    assert("tencent_vod_image"@.len() == 17);
    assert("tencent_vod_video"@.len() == 17);
    assert("volcengine"@.len() == 10);
    assert("volcengine_image"@.len() == 16);
    assert("volcengine_media_enhance"@.len() == 24);
    assert("volcengine_tts"@.len() == 14);
    assert("anthropic"@[1] == 'n');
    assert("atp_video"@[1] == 't');
    assert("anthropic"@[0] == 'a');
    assert("dashscope"@[0] == 'd');
    assert("atp_video"@[0] == 'a');
    assert("bytefor_video"@[0] == 'b');
    assert("minimax_image"@[0] == 'm');
    assert("minimax_video"@[0] == 'm');
    assert("gemini_image"@[0] == 'g');
    assert("jimeng_image"@[0] == 'j');
    assert("jimeng_video"@[0] == 'j');
    assert("jimeng_image"@[7] == 'i');
    assert("jimeng_video"@[7] == 'v');
    assert("minimax_image"@[8] == 'i');
    assert("minimax_video"@[8] == 'v');
    assert("tencent_vod_image"@[12] == 'i');
    assert("tencent_vod_video"@[12] == 'v');
}

/// A target of any other form takes the request as it is, with the model to
/// ask for.
pub proof fn law_plain_target(
    f: ForwardModel,
    cx: RequestModel,
    body: Jv,
    r: Jv,
    key: Seq<char>,
)
    requires
        body is Obj,
        r == converted(f, cx, body),
        f.target_type == "openai"@ || f.target_type == "apimart"@ || f.target_type
            == "volcengine_chat"@ || (f.target_type == "volcengine"@ && cx.category == "聊天"@) || (
        f.target_type == "gpt"@ && cx.category != "图片"@),
    ensures
        text_at(r, "model"@) == Some(cx.model),
        key != "model"@ ==> r.member(key) == body.member(key),
{
    reveal_strlit("anthropic");
    reveal_strlit("apimart");
    reveal_strlit("atp_video");
    reveal_strlit("bytefor_video");
    reveal_strlit("dashscope");
    reveal_strlit("dashscope_image");
    reveal_strlit("gemini");
    reveal_strlit("gemini_image");
    reveal_strlit("gpt");
    reveal_strlit("jimeng_image");
    reveal_strlit("jimeng_video");
    reveal_strlit("kling");
    reveal_strlit("kling_video");
    reveal_strlit("minimax_image");
    reveal_strlit("minimax_video");
    reveal_strlit("openai");
    reveal_strlit("tencent_vod_image");
    reveal_strlit("tencent_vod_video");
    reveal_strlit("volcengine");
    reveal_strlit("volcengine_chat");
    reveal_strlit("volcengine_image");
    reveal_strlit("volcengine_media_enhance");
    reveal_strlit("volcengine_tts");
    assert("anthropic"@.len() == 9);
    assert("apimart"@.len() == 7);
    assert("atp_video"@.len() == 9);
    assert("bytefor_video"@.len() == 13);
    assert("dashscope"@.len() == 9);
    assert("dashscope_image"@.len() == 15);
    assert("gemini"@.len() == 6);
    assert("gemini_image"@.len() == 12);
    assert("gpt"@.len() == 3);
    assert("jimeng_image"@.len() == 12);
    assert("jimeng_video"@.len() == 12);
    assert("kling"@.len() == 5);
    assert("kling_video"@.len() == 11);
    assert("minimax_image"@.len() == 13);
    assert("minimax_video"@.len() == 13);
    assert("openai"@.len() == 6);
    assert("tencent_vod_image"@.len() == 17);
    assert("tencent_vod_video"@.len() == 17);
    assert("volcengine"@.len() == 10);
    assert("volcengine_chat"@.len() == 15);
    assert("volcengine_image"@.len() == 16);
    assert("volcengine_media_enhance"@.len() == 24);
    assert("volcengine_tts"@.len() == 14);
    assert("anthropic"@[1] == 'n');
    assert("atp_video"@[1] == 't');
    assert("anthropic"@[0] == 'a');
    assert("dashscope"@[0] == 'd');
    assert("atp_video"@[0] == 'a');
    assert("bytefor_video"@[0] == 'b');
    assert("minimax_image"@[0] == 'm');
    assert("minimax_video"@[0] == 'm');
    assert("dashscope_image"@[0] == 'd');
    assert("volcengine_chat"@[0] == 'v');
    assert("gemini"@[0] == 'g');
    assert("openai"@[0] == 'o');
    assert("gemini_image"@[0] == 'g');
    assert("jimeng_image"@[0] == 'j');
    assert("jimeng_video"@[0] == 'j');
    assert("jimeng_image"@[7] == 'i');
    assert("jimeng_video"@[7] == 'v');
    assert("minimax_image"@[8] == 'i');
    assert("minimax_video"@[8] == 'v');
    assert("tencent_vod_image"@[12] == 'i');
    assert("tencent_vod_video"@[12] == 'v');
}

/// Which targets get a copy of the request, and which a body of their own.
pub proof fn law_copies_request(t: Seq<char>, category: Seq<char>)
    ensures
        t == "bytefor_video"@ || t == "volcengine_image"@ || t == "jimeng_image"@ || t
            == "jimeng_video"@ || t == "gpt"@ || t == "openai"@ || t == "apimart"@ || t
            == "volcengine_chat"@ ==> copies_request(t, category),
        t == "volcengine"@ ==> (copies_request(t, category) <==> category == "聊天"@),
        t == "volcengine_media_enhance"@ ==> !copies_request(t, category),
        t == "atp_video"@ ==> !copies_request(t, category),
        t == "kling"@ ==> !copies_request(t, category),
        t == "kling_video"@ ==> !copies_request(t, category),
        t == "dashscope"@ ==> !copies_request(t, category),
        t == "dashscope_image"@ ==> !copies_request(t, category),
        t == "minimax_video"@ ==> !copies_request(t, category),
        t == "minimax_image"@ ==> !copies_request(t, category),
        t == "gemini_image"@ ==> !copies_request(t, category),
        t == "gemini"@ ==> !copies_request(t, category),
        t == "anthropic"@ ==> !copies_request(t, category),
        t == "tencent_vod_image"@ ==> !copies_request(t, category),
        t == "tencent_vod_video"@ ==> !copies_request(t, category),
        t == "volcengine_tts"@ ==> !copies_request(t, category),
{
    reveal_strlit("anthropic");
    reveal_strlit("apimart");
    reveal_strlit("atp_video");
    reveal_strlit("bytefor_video");
    reveal_strlit("dashscope");
    reveal_strlit("dashscope_image");
    reveal_strlit("gemini");
    reveal_strlit("gemini_image");
    reveal_strlit("gpt");
    reveal_strlit("jimeng_image");
    reveal_strlit("jimeng_video");
    reveal_strlit("kling");
    reveal_strlit("kling_video");
    reveal_strlit("minimax_image");
    reveal_strlit("minimax_video");
    reveal_strlit("openai");
    reveal_strlit("tencent_vod_image");
    reveal_strlit("tencent_vod_video");
    reveal_strlit("volcengine");
    reveal_strlit("volcengine_chat");
    reveal_strlit("volcengine_image");
    reveal_strlit("volcengine_media_enhance");
    reveal_strlit("volcengine_tts");
    assert("anthropic"@.len() == 9);
    assert("apimart"@.len() == 7);
    assert("atp_video"@.len() == 9);
    assert("bytefor_video"@.len() == 13);
    assert("dashscope"@.len() == 9);
    assert("dashscope_image"@.len() == 15);
    assert("gemini"@.len() == 6);
    assert("gemini_image"@.len() == 12);
    assert("gpt"@.len() == 3);
    assert("jimeng_image"@.len() == 12);
    assert("jimeng_video"@.len() == 12);
    assert("kling"@.len() == 5);
    assert("kling_video"@.len() == 11);
    assert("minimax_image"@.len() == 13);
    assert("minimax_video"@.len() == 13);
    assert("openai"@.len() == 6);
    assert("tencent_vod_image"@.len() == 17);
    assert("tencent_vod_video"@.len() == 17);
    assert("volcengine"@.len() == 10);
    assert("volcengine_chat"@.len() == 15);
    assert("volcengine_image"@.len() == 16);
    assert("volcengine_media_enhance"@.len() == 24);
    assert("volcengine_tts"@.len() == 14);
    assert("anthropic"@[1] == 'n');
    assert("atp_video"@[1] == 't');
    assert("anthropic"@[0] == 'a');
    assert("dashscope"@[0] == 'd');
    assert("atp_video"@[0] == 'a');
    assert("bytefor_video"@[0] == 'b');
    assert("minimax_image"@[0] == 'm');
    assert("minimax_video"@[0] == 'm');
    assert("dashscope_image"@[0] == 'd');
    assert("volcengine_chat"@[0] == 'v');
    assert("gemini"@[0] == 'g');
    assert("openai"@[0] == 'o');
    assert("gemini_image"@[0] == 'g');
    assert("jimeng_image"@[0] == 'j');
    assert("jimeng_video"@[0] == 'j');
    assert("jimeng_image"@[7] == 'i');
    assert("jimeng_video"@[7] == 'v');
    assert("minimax_image"@[8] == 'i');
    assert("minimax_video"@[8] == 'v');
    assert("tencent_vod_image"@[12] == 'i');
    assert("tencent_vod_video"@[12] == 'v');
}

/// A speech request in the vendor's form is not finished any further; every
/// other body is.
pub proof fn law_finished(f: ForwardModel, cx: RequestModel, body: Jv, r: Jv)
    requires
        r == upstream_body(f, cx, body),
    ensures
        f.target_type == "volcengine_tts"@ && body.member("req_params"@) is Some ==> r
            == speech_body(body),
        f.target_type != "volcengine_tts"@ ==> r == finished(
            f,
            cx,
            body,
            converted(f, cx, body),
        ),
{
    reveal_strlit("anthropic");
    reveal_strlit("atp_video");
    reveal_strlit("bytefor_video");
    reveal_strlit("dashscope");
    reveal_strlit("dashscope_image");
    reveal_strlit("gemini");
    reveal_strlit("gemini_image");
    reveal_strlit("gpt");
    reveal_strlit("jimeng_image");
    reveal_strlit("jimeng_video");
    reveal_strlit("kling");
    reveal_strlit("kling_video");
    reveal_strlit("minimax_image");
    reveal_strlit("minimax_video");
    reveal_strlit("tencent_vod_image");
    reveal_strlit("tencent_vod_video");
    reveal_strlit("volcengine");
    reveal_strlit("volcengine_image");
    reveal_strlit("volcengine_media_enhance");
    reveal_strlit("volcengine_tts");
    assert("anthropic"@.len() == 9);
    assert("atp_video"@.len() == 9);
    assert("bytefor_video"@.len() == 13);
    assert("dashscope"@.len() == 9);
    assert("dashscope_image"@.len() == 15);
    assert("gemini"@.len() == 6);
    assert("gemini_image"@.len() == 12);
    assert("gpt"@.len() == 3);
    assert("jimeng_image"@.len() == 12);
    assert("jimeng_video"@.len() == 12);
    assert("kling"@.len() == 5);
    assert("kling_video"@.len() == 11);
    assert("minimax_image"@.len() == 13);
    assert("minimax_video"@.len() == 13);
    assert("tencent_vod_image"@.len() == 17);
    assert("tencent_vod_video"@.len() == 17);
    assert("volcengine"@.len() == 10);
    assert("volcengine_image"@.len() == 16);
    assert("volcengine_media_enhance"@.len() == 24);
    assert("volcengine_tts"@.len() == 14);
    assert("anthropic"@[1] == 'n');
    assert("atp_video"@[1] == 't');
    assert("anthropic"@[0] == 'a');
    assert("dashscope"@[0] == 'd');
    assert("atp_video"@[0] == 'a');
    assert("bytefor_video"@[0] == 'b');
    assert("minimax_image"@[0] == 'm');
    assert("minimax_video"@[0] == 'm');
    assert("gemini_image"@[0] == 'g');
    assert("jimeng_image"@[0] == 'j');
    assert("jimeng_video"@[0] == 'j');
    assert("jimeng_image"@[7] == 'i');
    assert("jimeng_video"@[7] == 'v');
    assert("minimax_image"@[8] == 'i');
    assert("minimax_video"@[8] == 'v');
    assert("tencent_vod_image"@[12] == 'i');
    assert("tencent_vod_video"@[12] == 'v');
}

// ---------------------------------------------------------------- Volcengine images

/// An image request to Volcengine: its size, or else its resolution, or else
/// the common one; and several images in one go where it asks for several.
pub proof fn law_volcengine_image(model: Seq<char>, body: Jv, r: Jv, key: Seq<char>)
    requires
        body is Obj,
        r == volcengine_image_body(model, body),
    ensures
        text_at(r, "model"@) == Some(model),
        body.member("size"@) is Some ==> r.member("size"@) == body.member("size"@),
        body.member("size"@) is None ==> (text_at(body, "resolution"@) matches Some(t) ==> (t.len()
            > 0 ==> text_at(r, "size"@) == Some(t))),
        body.member("size"@) is None && text_at(body, "resolution"@) is None ==> text_at(r, "size"@)
            == Some("2k"@),
        r.member("resolution"@) is None,
        r.member("image_urls"@) is None,
        r.member("n"@) is None,
        int_at(body, "n"@) matches Some(n) ==> (n > 1 ==> text_at(r, "sequential_image_generation"@)
            == Some("auto"@) && int_at(r.at("sequential_image_generation_options"@), "max_images"@)
            == Some(n)),
        int_at(body, "n"@) is None || int_at(body, "n"@)->Some_0 <= 1 ==> r.member(
            "sequential_image_generation"@,
        ) == body.member("sequential_image_generation"@) && r.member(
            "sequential_image_generation_options"@,
        ) == body.member("sequential_image_generation_options"@),
        key != "model"@ && key != "size"@ && key != "resolution"@ && key != "image"@
            && key != "image_urls"@ && key != "sequential_image_generation"@
            && key != "sequential_image_generation_options"@
            && key != "n"@ ==> r.member(key) == body.member(key),
{
    reveal_strlit("image");
    reveal_strlit("image_urls");
    reveal_strlit("max_images");
    reveal_strlit("model");
    reveal_strlit("n");
    reveal_strlit("resolution");
    reveal_strlit("sequential_image_generation");
    reveal_strlit("sequential_image_generation_options");
    reveal_strlit("size");
    assert("image"@.len() == 5);
    assert("image_urls"@.len() == 10);
    assert("max_images"@.len() == 10);
    assert("model"@.len() == 5);
    assert("n"@.len() == 1);
    assert("resolution"@.len() == 10);
    assert("sequential_image_generation"@.len() == 27);
    assert("sequential_image_generation_options"@.len() == 35);
    assert("size"@.len() == 4);
    assert("image"@[0] == 'i');
    assert("model"@[0] == 'm');
    assert("image_urls"@[0] == 'i');
    assert("max_images"@[0] == 'm');
    assert("resolution"@[0] == 'r');
}

/// One image goes to Volcengine by its address, several as a list.
pub proof fn law_volcengine_image_images(model: Seq<char>, body: Jv, r: Jv, images: Seq<Jv>)
    requires
        body is Obj,
        r == volcengine_image_body(model, body),
        body.member("image"@) == Some(Jv::Arr(images)),
        images.len() > 0,
        all_addresses(images),
    ensures
        images.len() == 1 ==> r.member("image"@) == Some(images[0]),
        images.len() > 1 ==> r.member("image"@) == Some(Jv::Arr(images)),
{
    reveal_strlit("image");
    reveal_strlit("image_urls");
    reveal_strlit("model");
    reveal_strlit("n");
    reveal_strlit("resolution");
    reveal_strlit("sequential_image_generation");
    reveal_strlit("sequential_image_generation_options");
    reveal_strlit("size");
    assert("image"@.len() == 5);
    assert("image_urls"@.len() == 10);
    assert("model"@.len() == 5);
    assert("n"@.len() == 1);
    assert("resolution"@.len() == 10);
    assert("sequential_image_generation"@.len() == 27);
    assert("sequential_image_generation_options"@.len() == 35);
    assert("size"@.len() == 4);
    assert("image"@[0] == 'i');
    assert("model"@[0] == 'm');
    assert("image_urls"@[0] == 'i');
    assert("resolution"@[0] == 'r');
    let fields = seq!["image"@, "image_urls"@];
    assert(fields[0] == "image"@);
    lemma_media_first(body, fields);
    lemma_plain_addresses(images);
    let sent = crate::json::text_array(plain_addresses(images))->Arr_0;
    assert forall|i: int| 0 <= i < images.len() implies sent[i] == images[i] by {
        assert(images[i] is Str);
    }
    assert(sent =~= images);
    assert(plain_addresses(images)[0] == images[0]->Str_0);
    assert(images[0] is Str);
}

// ---------------------------------------------------------------- GPT images

/// An image request in the OpenAI form: its images are one list of addresses,
/// each once, and everything else stays.
pub proof fn law_gpt_image(model: Seq<char>, body: Jv, r: Jv, key: Seq<char>)
    requires
        body is Obj,
        r == gpt_image_body(model, body),
    ensures
        text_at(r, "model"@) == Some(model),
        r.member("image"@) is None,
        r.member("image_urls"@) is None,
        r.member("image[]"@) is None,
        key != "model"@ && key != "image"@ && key != "images"@ && key != "image_urls"@
            && key != "image[]"@ ==> r.member(key) == body.member(key),
{
    reveal_strlit("image");
    reveal_strlit("image[]");
    reveal_strlit("image_urls");
    reveal_strlit("images");
    reveal_strlit("model");
    assert("image"@.len() == 5);
    assert("image[]"@.len() == 7);
    assert("image_urls"@.len() == 10);
    assert("images"@.len() == 6);
    assert("model"@.len() == 5);
    assert("image"@[0] == 'i');
    assert("model"@[0] == 'm');
}

/// The list of images holds what is listed under any of four names, each
/// address once.
pub proof fn law_gpt_image_addresses(body: Jv, url: Seq<char>)
    requires
        url.len() > 0,
    ensures
        gpt_images(body).no_duplicates(),
        gpt_images(body).contains(url) <==> image_urls(body, seq!["image"@]).contains(url)
            || image_urls(body, seq!["image_urls"@]).contains(url) || image_urls(
            body,
            seq!["images"@],
        ).contains(url) || image_urls(body, seq!["image[]"@]).contains(url),
{
    let none = Seq::<Seq<char>>::empty();
    let a = push_all(none, image_urls(body, seq!["image"@]));
    let b = push_all(a, image_urls(body, seq!["image_urls"@]));
    let c = push_all(b, image_urls(body, seq!["images"@]));
    lemma_push_all(none, image_urls(body, seq!["image"@]), url);
    lemma_push_all(a, image_urls(body, seq!["image_urls"@]), url);
    lemma_push_all(b, image_urls(body, seq!["images"@]), url);
    lemma_push_all(c, image_urls(body, seq!["image[]"@]), url);
    assert(!none.contains(url));
}

proof fn lemma_push_all(list: Seq<Seq<char>>, urls: Seq<Seq<char>>, url: Seq<char>)
    requires
        list.no_duplicates(),
    ensures
        push_all(list, urls).no_duplicates(),
        url.len() > 0 ==> (push_all(list, urls).contains(url) <==> list.contains(url)
            || urls.contains(url)),
    decreases urls.len(),
{
    if urls.len() > 0 {
        let t = urls.drop_last();
        lemma_push_all(list, t, url);
        let p = push_all(list, t);
        let q = push_unique(p, urls.last());
        if urls.contains(url) {
            let i = choose|i: int| 0 <= i < urls.len() && urls[i] == url;
            assert(i < t.len() ==> t[i] == url);
        }
        if t.contains(url) {
            let i = choose|i: int| 0 <= i < t.len() && t[i] == url;
            assert(urls[i] == url);
        }
        assert(urls[urls.len() - 1] == urls.last());
        if q != p {
            assert(q[q.len() - 1] == urls.last());
            if p.contains(url) {
                let i = choose|i: int| 0 <= i < p.len() && p[i] == url;
                assert(q[i] == url);
            }
            if q.contains(url) {
                let i = choose|i: int| 0 <= i < q.len() && q[i] == url;
                assert(i < p.len() ==> p[i] == url);
            }
        }
    } else {
        assert(!urls.contains(url));
    }
}

/// The images go under one name, each with its address.
pub proof fn law_gpt_image_list(model: Seq<char>, body: Jv, r: Jv)
    requires
        body is Obj,
        r == gpt_image_body(model, body),
    ensures
        gpt_images(body).len() == 0 ==> r.member("images"@) is None,
        gpt_images(body).len() > 0 ==> (r.member("images"@) matches Some(Jv::Arr(list))
            && list.len() == gpt_images(body).len() && (forall|i: int|
            0 <= i < list.len() ==> text_at(#[trigger] list[i], "image_url"@) == Some(
                gpt_images(body)[i],
            ))),
{
    reveal_strlit("image");
    reveal_strlit("image[]");
    reveal_strlit("image_urls");
    reveal_strlit("images");
    reveal_strlit("model");
    assert("image"@.len() == 5);
    assert("image[]"@.len() == 7);
    assert("image_urls"@.len() == 10);
    assert("images"@.len() == 6);
    assert("model"@.len() == 5);
    assert("image"@[0] == 'i');
    assert("model"@[0] == 'm');
}

// ---------------------------------------------------------------- Gemini images

/// An image request to Gemini: one message of the user that begins with the
/// prompt, an answer in images, and the web where it is to be searched.
pub proof fn law_gemini_image(body: Jv, got: Seq<(Seq<char>, Option<Jv>)>, r: Jv)
    requires
        r == gemini_image_body(body, got),
    ensures
        r.member("contents"@) matches Some(Jv::Arr(turns)) && turns.len() == 1 && text_at(
            turns[0],
            "role"@,
        ) == Some("user"@) && (turns[0].member("parts"@) matches Some(Jv::Arr(parts)) && parts.len()
            > 0 && text_at(parts[0], "text"@) == Some(
            match text_at(body, "prompt"@) {
                Some(p) => p,
                None => "Generate an image"@,
            },
        )),
        r.at("generationConfig"@).member("responseModalities"@) == Some(
            Jv::Arr(seq![Jv::Str("IMAGE"@)]),
        ),
        int_at(body, "n"@) matches Some(n) ==> (n > 1 ==> int_at(
            r.at("generationConfig"@),
            "candidateCount"@,
        ) == Some(n)),
        int_at(body, "n"@) is None || int_at(body, "n"@)->Some_0 <= 1 ==> r.at(
            "generationConfig"@,
        ).member("candidateCount"@) is None,
        body.member("google_search"@) == Some(Jv::Bool(true)) || body.member("google_image_search"@)
            == Some(Jv::Bool(true)) ==> (r.member("tools"@) matches Some(Jv::Arr(tools))
            && tools.len() == 1 && tools[0].member("google_search"@) == Some(no_members())),
        body.member("google_search"@) is None && body.member("google_image_search"@) is None
            ==> r.member("tools"@) is None,
{
    reveal_strlit("candidateCount");
    reveal_strlit("contents");
    reveal_strlit("generationConfig");
    reveal_strlit("imageConfig");
    reveal_strlit("parts");
    reveal_strlit("responseModalities");
    reveal_strlit("role");
    reveal_strlit("tools");
    assert("candidateCount"@.len() == 14);
    assert("contents"@.len() == 8);
    assert("generationConfig"@.len() == 16);
    assert("imageConfig"@.len() == 11);
    assert("parts"@.len() == 5);
    assert("responseModalities"@.len() == 18);
    assert("role"@.len() == 4);
    assert("tools"@.len() == 5);
    assert("parts"@[0] == 'p');
    assert("tools"@[0] == 't');
}

/// How a Gemini image is to come out: its ratio and its size; a size with a
/// colon is a ratio.
pub proof fn law_gemini_image_config(body: Jv, got: Seq<(Seq<char>, Option<Jv>)>, c: Jv)
    requires
        c == gemini_image_body(body, got).at("generationConfig"@).at("imageConfig"@),
    ensures
        text_at(body, "ratio"@) is Some ==> text_at(c, "aspectRatio"@) == text_at(body, "ratio"@),
        text_at(body, "ratio"@) is None ==> (text_at(body, "size"@) matches Some(s) ==> (holds(
            s,
            ":"@,
        ) ==> text_at(c, "aspectRatio"@) == Some(s))),
        text_at(body, "resolution"@) is Some ==> text_at(c, "imageSize"@) == text_at(
            body,
            "resolution"@,
        ),
        text_at(body, "resolution"@) is None ==> (text_at(body, "size"@) matches Some(s) ==> (
        s.len() > 0 && !holds(s, ":"@) ==> text_at(c, "imageSize"@) == Some(s))),
        text_at(body, "resolution"@) is None ==> (text_at(body, "size"@) matches Some(s) ==> (
        holds(s, ":"@) ==> text_at(c, "imageSize"@) == Some("1k"@))),
        text_at(body, "resolution"@) is None && text_at(body, "size"@) is None ==> text_at(
            c,
            "imageSize"@,
        ) == Some("1k"@),
        text_at(body, "ratio"@) is None && text_at(body, "size"@) is None ==> c.member(
            "aspectRatio"@,
        ) is None,
{
    reveal_strlit("");
    reveal_strlit(":");
    assert(!holds(""@, ":"@)) by {
        assert(""@.len() == 0);
        assert(":"@.len() == 1);
    }
    reveal_strlit("aspectRatio");
    reveal_strlit("candidateCount");
    reveal_strlit("contents");
    reveal_strlit("generationConfig");
    reveal_strlit("imageConfig");
    reveal_strlit("imageSize");
    reveal_strlit("responseModalities");
    reveal_strlit("tools");
    assert("aspectRatio"@.len() == 11);
    assert("candidateCount"@.len() == 14);
    assert("contents"@.len() == 8);
    assert("generationConfig"@.len() == 16);
    assert("imageConfig"@.len() == 11);
    assert("imageSize"@.len() == 9);
    assert("responseModalities"@.len() == 18);
    assert("tools"@.len() == 5);
    assert("aspectRatio"@[0] == 'a');
    assert("imageConfig"@[0] == 'i');
}

/// The images of a Gemini request follow its prompt as data, those that could
/// be had, in their order.
pub proof fn law_gemini_image_images(
    body: Jv,
    got: Seq<(Seq<char>, Option<Jv>)>,
    images: Seq<Jv>,
    data: Seq<Jv>,
    r: Jv,
)
    requires
        r == gemini_image_body(body, got),
        body.member("image"@) == Some(Jv::Arr(images)),
        images.len() > 0,
        all_addresses(images),
        data.len() == images.len(),
        forall|i: int|
            0 <= i < images.len() ==> resolved_image((#[trigger] images[i])->Str_0, got) == Some(
                data[i],
            ),
    ensures
        r.at("contents"@) matches Jv::Arr(turns) && (turns[0].member("parts"@) matches Some(
            Jv::Arr(parts),
        ) && parts.len() == images.len() + 1 && (forall|i: int|
            0 <= i < images.len() ==> (#[trigger] parts[i + 1]).member("inline_data"@) == Some(
                data[i],
            ))),
{
    reveal_strlit("contents");
    reveal_strlit("generationConfig");
    reveal_strlit("image");
    reveal_strlit("image_urls");
    reveal_strlit("parts");
    reveal_strlit("role");
    reveal_strlit("tools");
    assert("contents"@.len() == 8);
    assert("generationConfig"@.len() == 16);
    assert("image"@.len() == 5);
    assert("image_urls"@.len() == 10);
    assert("parts"@.len() == 5);
    assert("role"@.len() == 4);
    assert("tools"@.len() == 5);
    assert("image"@[0] == 'i');
    assert("parts"@[0] == 'p');
    assert("tools"@[0] == 't');
    let fields = seq!["image"@, "image_urls"@];
    assert(fields[0] == "image"@);
    lemma_media_first(body, fields);
    lemma_plain_addresses(images);
    let urls = plain_addresses(images);
    assert forall|i: int| 0 <= i < urls.len() implies resolved_image(#[trigger] urls[i], got)
        == Some(data[i]) by {
        assert(images[i] is Str);
    }
    lemma_inline_parts(urls, got, data);
    let parts = r.at("contents"@)->Arr_0[0].at("parts"@)->Arr_0;
    let more = inline_parts(urls, got);
    assert(parts =~= seq![parts[0]] + more);
    assert forall|i: int| 0 <= i < images.len() implies (#[trigger] parts[i + 1]).member(
        "inline_data"@,
    ) == Some(data[i]) by {
        assert(parts[i + 1] == more[i]);
    }
}

proof fn lemma_inline_parts(
    urls: Seq<Seq<char>>,
    got: Seq<(Seq<char>, Option<Jv>)>,
    data: Seq<Jv>,
)
    requires
        data.len() == urls.len(),
        forall|i: int|
            0 <= i < urls.len() ==> resolved_image(#[trigger] urls[i], got) == Some(data[i]),
    ensures
        inline_parts(urls, got).len() == urls.len(),
        forall|i: int|
            0 <= i < urls.len() ==> (#[trigger] inline_parts(urls, got)[i]).member("inline_data"@)
                == Some(data[i]),
    decreases urls.len(),
{
    if urls.len() > 0 {
        let t = urls.drop_last();
        let d = data.drop_last();
        assert forall|i: int| 0 <= i < t.len() implies resolved_image(#[trigger] t[i], got) == Some(
            d[i],
        ) by {
            assert(t[i] == urls[i]);
        }
        lemma_inline_parts(t, got, d);
        assert(urls[urls.len() - 1] == urls.last());
        let all = inline_parts(urls, got);
        assert forall|i: int| 0 <= i < urls.len() implies (#[trigger] all[i]).member(
            "inline_data"@,
        ) == Some(data[i]) by {
            if i < t.len() {
                assert(all[i] == inline_parts(t, got)[i]);
            }
        }
    }
}

// ---------------------------------------------------------------- speech

/// A speech request names its text, its voice and how the sound is to come
/// out; one in the vendor's form stays as it is.
pub proof fn law_speech(body: Jv, r: Jv, key: Seq<char>)
    requires
        body is Obj,
        r == speech_body(body),
    ensures
        body.member("req_params"@) is Some && key != "user"@ ==> r.member(key) == body.member(key),
        body.member("req_params"@) is Some && body.member("user"@) is Some ==> r == body,
        body.member("req_params"@) is None ==> ({
            let p = r.at("req_params"@);
            let a = p.at("audio_params"@);
            &&& text_at(r.at("user"@), "uid"@) == Some("tokensbyte"@)
            &&& text_at(p, "text"@) == Some(
                match text_at(body, "input"@) {
                    Some(t) => t,
                    None => ""@,
                },
            )
            &&& text_at(p, "speaker"@) == Some(
                match text_at(body, "voice"@) {
                    Some(t) => t,
                    None => ""@,
                },
            )
            &&& p.member("mix_speaker"@) == body.member("mix_speaker"@)
            &&& text_at(a, "format"@) == Some(
                match text_at(body, "response_format"@) {
                    Some(t) => t,
                    None => "mp3"@,
                },
            )
            &&& a.member("sample_rate"@) == Some(
                Jv::Int(
                    match int_at(body, "sample_rate"@) {
                        Some(n) => n,
                        None => 24000,
                    },
                ),
            )
            &&& body.member("speed"@) matches Some(Jv::Int(n)) ==> a.member("speech_rate"@) == Some(
                Jv::Int(n),
            )
            &&& body.member("speed"@) is None ==> a.member("speech_rate"@) == Some(Jv::Int(0))
        }),
{
    reveal_strlit("audio_params");
    reveal_strlit("format");
    reveal_strlit("mix_speaker");
    reveal_strlit("req_params");
    reveal_strlit("sample_rate");
    reveal_strlit("speaker");
    reveal_strlit("speech_rate");
    reveal_strlit("text");
    reveal_strlit("user");
    assert("audio_params"@.len() == 12);
    assert("format"@.len() == 6);
    assert("mix_speaker"@.len() == 11);
    assert("req_params"@.len() == 10);
    assert("sample_rate"@.len() == 11);
    assert("speaker"@.len() == 7);
    assert("speech_rate"@.len() == 11);
    assert("text"@.len() == 4);
    assert("user"@.len() == 4);
    assert("mix_speaker"@[0] == 'm');
    assert("sample_rate"@[0] == 's');
    assert("speech_rate"@[0] == 's');
    assert("sample_rate"@[1] == 'a');
    assert("speech_rate"@[1] == 'p');
    assert("text"@[0] == 't');
    assert("user"@[0] == 'u');
}

// ---------------------------------------------------------------- the last touch

/// A search of the web goes to Volcengine and to Gemini as a tool, and to any
/// other target as it was asked for; without one nothing changes.
pub proof fn law_web_search(r: Jv, asked: Jv, target: Seq<char>, key: Seq<char>, s: Jv)
    requires
        r is Obj,
        s == with_web_search(r, asked, target),
    ensures
        asked.member("web_search"@) is None || asked.member("web_search"@) == Some(Jv::Bool(false))
            ==> s == r,
        key != "tools"@ && key != "web_search"@ ==> s.member(key) == r.member(key),
        asked.member("web_search"@) == Some(Jv::Bool(true)) && (target == "volcengine"@ || target
            == "volcengine_image"@ || target == "volcengine_chat"@) ==> s.member("web_search"@)
            is None && (s.member("tools"@) matches Some(Jv::Arr(tools)) && tools.len() == 1
            && text_at(tools[0], "type"@) == Some("web_search"@)),
        asked.member("web_search"@) == Some(Jv::Bool(true)) && (target == "gemini"@ || target
            == "gemini_image"@) ==> s.member("web_search"@) is None
                && (s.member("tools"@) matches Some(
            Jv::Arr(tools),
        ) && tools.len() == 1 && tools[0].member("google_search"@) == Some(no_members())),
        target == "openai"@ || target == "apimart"@ || target == "anthropic"@ || target
            == "dashscope"@ ==> s == r,
{
    reveal_strlit("anthropic");
    reveal_strlit("apimart");
    reveal_strlit("dashscope");
    reveal_strlit("gemini");
    reveal_strlit("gemini_image");
    reveal_strlit("openai");
    reveal_strlit("tools");
    reveal_strlit("volcengine");
    reveal_strlit("volcengine_chat");
    reveal_strlit("volcengine_image");
    reveal_strlit("web_search");
    assert("anthropic"@.len() == 9);
    assert("apimart"@.len() == 7);
    assert("dashscope"@.len() == 9);
    assert("gemini"@.len() == 6);
    assert("gemini_image"@.len() == 12);
    assert("openai"@.len() == 6);
    assert("tools"@.len() == 5);
    assert("volcengine"@.len() == 10);
    assert("volcengine_chat"@.len() == 15);
    assert("volcengine_image"@.len() == 16);
    assert("web_search"@.len() == 10);
    assert("anthropic"@[0] == 'a');
    assert("dashscope"@[0] == 'd');
    assert("gemini"@[0] == 'g');
    assert("openai"@[0] == 'o');
    assert("volcengine"@[0] == 'v');
    assert("web_search"@[0] == 'w');
}

/// A stream asks for its usage, and keeps what else it asks for.
pub proof fn law_usage_option(r: Jv, key: Seq<char>, s: Jv)
    requires
        r is Obj,
        s == with_usage_option(r),
    ensures
        s.at("stream_options"@).member("include_usage"@) == Some(Jv::Bool(true)),
        key != "stream_options"@ ==> s.member(key) == r.member(key),
        r.member("stream_options"@) is Some && r.at("stream_options"@) is Obj && key
            != "include_usage"@ ==> s.at("stream_options"@).member(key) == r.at(
            "stream_options"@,
        ).member(key),
{
}

/// A prompt that is missing is taken from the content: the text itself, or the
/// first text of a list.
pub proof fn law_content_prompt(r: Jv, key: Seq<char>, s: Jv)
    requires
        r is Obj,
        s == with_content_prompt(r),
    ensures
        key != "prompt"@ ==> s.member(key) == r.member(key),
        r.member("prompt"@) is Some ==> s.member("prompt"@) == r.member("prompt"@),
        r.member("prompt"@) is None ==> (r.member("content"@) matches Some(Jv::Str(t)) ==> text_at(
            s,
            "prompt"@,
        ) == Some(t)),
        r.member("prompt"@) is None ==> (r.member("content"@) matches Some(Jv::Arr(a)) ==> (a.len()
            > 0 ==> (text_at(a[0], "text"@) matches Some(t) ==> text_at(s, "prompt"@) == Some(t)))),
        r.member("prompt"@) is None && r.member("content"@) is None ==> s == r,
{
    reveal_strlit("content");
    reveal_strlit("prompt");
    assert("content"@.len() == 7);
    assert("prompt"@.len() == 6);
}

/// A video without a resolution or a duration gets the common ones.
pub proof fn law_video_defaults(r: Jv, key: Seq<char>, s: Jv)
    requires
        r is Obj,
        s == with_video_defaults(r),
    ensures
        r.member("resolution"@) is Some ==> s.member("resolution"@) == r.member("resolution"@),
        r.member("resolution"@) is None ==> text_at(s, "resolution"@) == Some("720p"@),
        r.member("duration"@) is Some ==> s.member("duration"@) == r.member("duration"@),
        r.member("duration"@) is None ==> s.member("duration"@) == Some(Jv::Int(5)),
        key != "resolution"@ && key != "duration"@ ==> s.member(key) == r.member(key),
{
    reveal_strlit("duration");
    reveal_strlit("resolution");
    assert("duration"@.len() == 8);
    assert("resolution"@.len() == 10);
}

/// A size in thousands of pixels gives way to the ratio, where there is one.
pub proof fn law_apimart_size(r: Jv, key: Seq<char>, s: Jv)
    requires
        r is Obj,
        s == with_apimart_size(r),
    ensures
        key != "size"@ && key != "ratio"@ ==> s.member(key) == r.member(key),
        text_at(r, "size"@) matches Some(t) ==> ("k"@.is_suffix_of(small_letters(trimmed(t)))
            && r.member("ratio"@) is Some ==> s.member("size"@) == r.member("ratio"@) && s.member(
            "ratio"@,
        ) is None),
        text_at(r, "size"@) matches Some(t) ==> (!"k"@.is_suffix_of(small_letters(trimmed(t)))
            ==> s == r),
        text_at(r, "size"@) is None || r.member("ratio"@) is None ==> s == r,
{
    reveal_strlit("ratio");
    reveal_strlit("size");
    assert("ratio"@.len() == 5);
    assert("size"@.len() == 4);
}

/// What each body is finished with, and when: a video billed by its length has
/// the defaults, a stream of a chat asks for its usage, and the prompt is taken
/// from the content where the rule says so.
pub proof fn law_last_touch(f: ForwardModel, cx: RequestModel, body: Jv, r: Jv, s: Jv)
    requires
        r is Obj,
        s == finished(f, cx, body, r),
        body.member("web_search"@) is None,
    ensures
        f.target_type == "openai"@ && cx.category == "视频"@ && !cx.token_billing
            && !f.content_to_prompt ==> s == with_video_defaults(r),
        f.target_type == "openai"@ && cx.category == "视频"@ && cx.token_billing
            && !f.content_to_prompt ==> s == r,
        f.target_type == "apimart"@ && cx.category == "图片"@ && !f.content_to_prompt ==> s
            == with_apimart_size(r),
        f.target_type == "apimart"@ && cx.category == "视频"@ && !cx.token_billing
            && !f.content_to_prompt ==> s == with_apimart_size(with_video_defaults(r)),
        (f.target_type == "openai"@ || f.target_type == "volcengine_chat"@ || f.target_type
            == "volcengine"@) && cx.category == "聊天"@ && body.member("stream"@) == Some(
            Jv::Bool(true),
        ) && !f.content_to_prompt ==> s == with_usage_option(r),
        (f.target_type == "openai"@ || f.target_type == "volcengine_chat"@ || f.target_type
            == "volcengine"@) && cx.category == "聊天"@ && body.member("stream"@) is None
            && !f.content_to_prompt ==> s == r,
        f.target_type == "anthropic"@ && !f.content_to_prompt ==> s == r,
        f.target_type == "anthropic"@ && f.content_to_prompt ==> s == with_content_prompt(r),
{
    reveal_strlit("anthropic");
    reveal_strlit("apimart");
    reveal_strlit("gemini");
    reveal_strlit("gemini_image");
    reveal_strlit("openai");
    reveal_strlit("volcengine");
    reveal_strlit("volcengine_chat");
    reveal_strlit("volcengine_image");
    reveal_strlit("图片");
    reveal_strlit("聊天");
    reveal_strlit("视频");
    assert("anthropic"@.len() == 9);
    assert("apimart"@.len() == 7);
    assert("gemini"@.len() == 6);
    assert("gemini_image"@.len() == 12);
    assert("openai"@.len() == 6);
    assert("volcengine"@.len() == 10);
    assert("volcengine_chat"@.len() == 15);
    assert("volcengine_image"@.len() == 16);
    assert("图片"@.len() == 2);
    assert("聊天"@.len() == 2);
    assert("视频"@.len() == 2);
    assert("gemini"@[0] == 'g');
    assert("openai"@[0] == 'o');
    assert("图片"@[0] == '图');
    assert("聊天"@[0] == '聊');
    assert("视频"@[0] == '视');
}

/// A search that was asked for is part of what a body is finished with.
pub proof fn law_last_touch_search(f: ForwardModel, cx: RequestModel, body: Jv, r: Jv, s: Jv)
    requires
        s == finished(f, cx, body, r),
        !f.content_to_prompt,
        cx.category == "图片"@,
        f.target_type != "apimart"@,
    ensures
        s == with_web_search(r, body, f.target_type),
{
    reveal_strlit("图片");
    reveal_strlit("聊天");
    reveal_strlit("视频");
    assert("图片"@.len() == 2);
    assert("聊天"@.len() == 2);
    assert("视频"@.len() == 2);
    assert("图片"@[0] == '图');
    assert("聊天"@[0] == '聊');
    assert("视频"@[0] == '视');
}

} // verus!
