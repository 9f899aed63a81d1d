//! What holds of the bodies for DashScope, Volcengine, MiniMax and ATP.
use vstd::prelude::*;
use vstd::string::*;
use crate::content::{
    atp_content, atp_video_body, collected_content, content_array, content_body,
    minimax_image_body, minimax_image_keys, minimax_video_body, minimax_video_keys,
    volcengine_keys, volcengine_video_body,
};
use crate::dashscope::{
    dashscope_image_body, dashscope_video_body, image_param_keys, message_elements, typed_media,
    video_media, video_param_keys,
};
use crate::double::whole_number;
use crate::json::{
    int_at, lemma_carry_all, no_members, single, stripped, text_at, with_int, with_text, Jv,
};
use crate::media::{
    all_addresses, has_clip, image_urls, is_clip, item_role, item_url, lemma_listed_here,
    lemma_media_first, lemma_nothing_listed, lemma_plain_addresses, lemma_plain_placed,
    media_values, placed,
};
use crate::ratio::StandardRatio;
use crate::text::{ascii_small, capital_letters, holds, replaced, small_letters};

verus! {

// ---------------------------------------------------------------- media elements

/// The address of a media element: a text is its own, an object gives it under
/// one of four names, of which the first counts.
pub proof fn law_media_address(item: Jv, u: Seq<char>)
    ensures
        item == Jv::Str(u) ==> item_url(item) == Some(u),
        item.member("image"@) == Some(Jv::Str(u)) ==> item_url(item) == Some(u),
        item.member("image"@) is None && item.member("image_url"@) == Some(Jv::Str(u)) ==> item_url(
            item,
        ) == Some(u),
        item.member("image"@) is None && item.member("image_url"@) is None && item.member(
            "video_url"@,
        ) == Some(Jv::Str(u)) ==> item_url(item) == Some(u),
        item.member("image"@) is None && item.member("image_url"@) is None && item.member(
            "video_url"@,
        ) is None && item.member("url"@) == Some(Jv::Str(u)) ==> item_url(item) == Some(u),
{
}

/// The role of a media element: what it names as its role, or else as its
/// type, or else what holds without one.
pub proof fn law_media_role(item: Jv, default: Seq<char>, role: Seq<char>)
    ensures
        item.member("role"@) == Some(Jv::Str(role)) ==> item_role(item, default) == role,
        item.member("role"@) is None && item.member("type"@) == Some(Jv::Str(role)) ==> item_role(
            item,
            default,
        ) == role,
        item.member("role"@) is None && item.member("type"@) is None ==> item_role(item, default)
            == default,
{
}

/// Without roles one image is the first frame, two are the first and the last,
/// and more are references.
pub proof fn law_default_roles(i: int, n: int)
    ensures
        crate::media::default_image_role(1, 0) == "first_frame"@,
        crate::media::default_image_role(2, 0) == "first_frame"@,
        crate::media::default_image_role(2, 1) == "last_frame"@,
        n > 2 ==> crate::media::default_image_role(n, i) == "reference_image"@,
{
}

// ---------------------------------------------------------------- DashScope

/// A request in DashScope's form goes as it is, with the model to ask for.
pub proof fn law_dashscope_native(
    model: Seq<char>,
    body: Jv,
    r: Jv,
    key: Seq<char>,
)
    requires
        body.member("input"@) is Some,
        r == dashscope_image_body(model, body) || r == dashscope_video_body(model, body),
    ensures
        r.member("model"@) == Some(Jv::Str(model)),
        key != "model"@ ==> r.member(key) == body.member(key),
{
}

/// An image request goes to DashScope as one message of the user: its images
/// first, then its prompt.
pub proof fn law_dashscope_image_message(
    model: Seq<char>,
    body: Jv,
    r: Jv,
    images: Seq<Jv>,
)
    requires
        body.member("input"@) is None,
        body.member("messages"@) is None,
        body.member("image"@) == Some(Jv::Arr(images)),
        images.len() > 0,
        all_addresses(images),
        r == dashscope_image_body(model, body),
    ensures
        r.member("model"@) == Some(Jv::Str(model)),
        r.at("input"@).member("messages"@) matches Some(Jv::Arr(msgs)) && msgs.len() == 1
            && text_at(msgs[0], "role"@) == Some("user"@)
                && (msgs[0].member("content"@) matches Some(
            Jv::Arr(parts),
        ) && parts.len() == images.len() + 1 && (forall|i: int|
            0 <= i < images.len() ==> (#[trigger] parts[i]).member("image"@) == Some(images[i]))
            && text_at(parts.last(), "text"@) == Some(
            match text_at(body, "prompt"@) {
                Some(p) => p,
                None => "Generate an image"@,
            },
        )),
{
    reveal_strlit("content");
    reveal_strlit("image");
    reveal_strlit("image_urls");
    reveal_strlit("input");
    reveal_strlit("messages");
    reveal_strlit("model");
    reveal_strlit("parameters");
    reveal_strlit("role");
    reveal_strlit("text");
    assert("content"@.len() == 7);
    assert("image"@.len() == 5);
    assert("image_urls"@.len() == 10);
    assert("input"@.len() == 5);
    assert("messages"@.len() == 8);
    assert("model"@.len() == 5);
    assert("parameters"@.len() == 10);
    assert("role"@.len() == 4);
    assert("text"@.len() == 4);
    assert("image"@[1] == 'm');
    assert("input"@[1] == 'n');
    assert("image"@[0] == 'i');
    assert("model"@[0] == 'm');
    assert("image_urls"@[0] == 'i');
    assert("parameters"@[0] == 'p');
    assert("input"@[0] == 'i');
    assert("role"@[0] == 'r');
    assert("text"@[0] == 't');
    let fields = seq!["image"@, "image_urls"@];
    assert(fields[0] == "image"@);
    lemma_media_first(body, fields);
    lemma_plain_addresses(images);
    let urls = image_urls(body, fields);
    let x = crate::json::tagged(urls, "image"@)->Arr_0;
    assert forall|i: int| 0 <= i < images.len() implies (#[trigger] x[i]).member("image"@) == Some(
        images[i],
    ) by {
        assert(images[i] is Str);
    }
    let msg = r.at("input"@).at("messages"@)->Arr_0[0];
    let parts = msg.at("content"@)->Arr_0;
    assert forall|i: int| 0 <= i < images.len() implies (#[trigger] parts[i]).member("image"@)
        == Some(images[i]) by {
        assert(parts[i] == x[i]);
    }
}

/// Messages go to DashScope with their roles; a text is the only element, and
/// in a list texts and images go under DashScope's names.
pub proof fn law_dashscope_messages(
    model: Seq<char>,
    body: Jv,
    r: Jv,
    msgs: Seq<Jv>,
    i: int,
)
    requires
        body.member("input"@) is None,
        body.member("messages"@) == Some(Jv::Arr(msgs)),
        0 <= i < msgs.len(),
        r == dashscope_image_body(model, body),
    ensures
        r.at("input"@).member("messages"@) matches Some(Jv::Arr(sent)) && sent.len() == msgs.len()
            && (text_at(msgs[i], "role"@) is Some ==> text_at(sent[i], "role"@) == text_at(
            msgs[i],
            "role"@,
        )) && (text_at(msgs[i], "role"@) is None ==> text_at(sent[i], "role"@) == Some("user"@))
            && (msgs[i].member("content"@) matches Some(Jv::Str(t)) ==> (sent[i].member("content"@)
            matches Some(Jv::Arr(parts)) && parts.len() == 1 && text_at(parts[0], "text"@) == Some(
            t,
        ))) && (msgs[i].member("content"@) matches Some(Jv::Arr(a)) ==> sent[i].member("content"@)
            == Some(Jv::Arr(message_elements(a)))),
{
    reveal_strlit("content");
    reveal_strlit("input");
    reveal_strlit("messages");
    reveal_strlit("model");
    reveal_strlit("parameters");
    reveal_strlit("role");
    assert("content"@.len() == 7);
    assert("input"@.len() == 5);
    assert("messages"@.len() == 8);
    assert("model"@.len() == 5);
    assert("parameters"@.len() == 10);
    assert("role"@.len() == 4);
    assert("input"@[0] == 'i');
    assert("model"@[0] == 'm');
}

/// An element of a message: a text keeps its text and an image its address.
pub proof fn law_dashscope_element(item: Jv, rest: Seq<Jv>)
    ensures
        text_at(item, "type"@) == Some("text"@) ==> (text_at(item, "text"@) matches Some(t)
            ==> message_elements(rest.push(item)) == message_elements(rest).push(
            single("text"@, Jv::Str(t)),
        )),
        text_at(item, "type"@) == Some("image_url"@) ==> (text_at(item.at("image_url"@), "url"@)
            matches Some(u) ==> message_elements(rest.push(item)) == message_elements(rest).push(
            single("image"@, Jv::Str(u)),
        )),
        item.member("type"@) is None && (text_at(item, "image"@) is Some || text_at(item, "text"@)
            is Some) ==> message_elements(rest.push(item)) == message_elements(rest).push(item),
{
    reveal_strlit("image_url");
    reveal_strlit("text");
    assert("image_url"@.len() == 9);
    assert("text"@.len() == 4);
    assert(rest.push(item).drop_last() =~= rest);
}

/// The parameters of an image request: its settings under their own names, and
/// its size with a star between the sides.
pub proof fn law_dashscope_image_parameters(
    model: Seq<char>,
    body: Jv,
    r: Jv,
    p: Jv,
)
    requires
        body.member("input"@) is None,
        r == dashscope_image_body(model, body),
        p == r.at("parameters"@),
    ensures
        p.member("style"@) == body.member("style"@),
        p.member("quality"@) == body.member("quality"@),
        p.member("prompt_extend"@) == body.member("prompt_extend"@),
        p.member("watermark"@) == body.member("watermark"@),
        p.member("seed"@) == body.member("seed"@),
        text_at(p, "negative_prompt"@) == text_at(body, "negative_prompt"@),
        int_at(p, "n"@) == int_at(body, "n"@),
        text_at(body, "size"@) matches Some(size) ==> text_at(p, "size"@) == Some(
            replaced(size, "x"@, "*"@),
        ),
        text_at(body, "size"@) is None ==> p.member("size"@) is None,
{
    reveal_strlit("input");
    reveal_strlit("model");
    reveal_strlit("n");
    reveal_strlit("negative_prompt");
    reveal_strlit("parameters");
    reveal_strlit("prompt_extend");
    reveal_strlit("quality");
    reveal_strlit("seed");
    reveal_strlit("size");
    reveal_strlit("style");
    reveal_strlit("watermark");
    assert("input"@.len() == 5);
    assert("model"@.len() == 5);
    assert("n"@.len() == 1);
    assert("negative_prompt"@.len() == 15);
    assert("parameters"@.len() == 10);
    assert("prompt_extend"@.len() == 13);
    assert("quality"@.len() == 7);
    assert("seed"@.len() == 4);
    assert("size"@.len() == 4);
    assert("style"@.len() == 5);
    assert("watermark"@.len() == 9);
    assert("input"@[0] == 'i');
    assert("model"@[0] == 'm');
    assert("style"@[0] == 's');
    assert("seed"@[1] == 'e');
    assert("size"@[1] == 'i');
    assert(image_param_keys()[0] == "style"@);
    assert(image_param_keys()[1] == "quality"@);
    assert(image_param_keys()[2] == "prompt_extend"@);
    assert(image_param_keys()[3] == "watermark"@);
    assert(image_param_keys()[4] == "seed"@);
    let a = with_text(no_members(), "negative_prompt"@, text_at(body, "negative_prompt"@));
    let b = with_int(a, "n"@, int_at(body, "n"@));
    let c = match text_at(body, "size"@) {
        Some(size) => b.with("size"@, Jv::Str(replaced(size, "x"@, "*"@))),
        None => b,
    };
    assert(!image_param_keys().contains("negative_prompt"@));
    assert(!image_param_keys().contains("n"@));
    assert(!image_param_keys().contains("size"@));
    lemma_carry_all(c, body, image_param_keys(), "style"@);
    lemma_carry_all(c, body, image_param_keys(), "quality"@);
    lemma_carry_all(c, body, image_param_keys(), "prompt_extend"@);
    lemma_carry_all(c, body, image_param_keys(), "watermark"@);
    lemma_carry_all(c, body, image_param_keys(), "seed"@);
    lemma_carry_all(c, body, image_param_keys(), "negative_prompt"@);
    lemma_carry_all(c, body, image_param_keys(), "n"@);
    lemma_carry_all(c, body, image_param_keys(), "size"@);
}

/// The input of a video request: its prompt, what it does not want, its sound
/// and the media that it lists itself.
pub proof fn law_dashscope_video_input(
    model: Seq<char>,
    body: Jv,
    r: Jv,
    p: Jv,
)
    requires
        body.member("input"@) is None,
        r == dashscope_video_body(model, body),
        p == r.at("input"@),
    ensures
        r.member("model"@) == Some(Jv::Str(model)),
        text_at(body, "prompt"@) matches Some(t) ==> text_at(p, "prompt"@) == Some(t),
        text_at(body, "prompt"@) is None ==> text_at(p, "prompt"@) == Some(""@),
        text_at(p, "negative_prompt"@) == text_at(body, "negative_prompt"@),
        text_at(p, "audio_url"@) == text_at(body, "audio_url"@),
        body.member("media"@) matches Some(Jv::Arr(a)) ==> p.member("media"@) == Some(Jv::Arr(a)),
{
    reveal_strlit("audio_url");
    reveal_strlit("input");
    reveal_strlit("media");
    reveal_strlit("model");
    reveal_strlit("negative_prompt");
    reveal_strlit("parameters");
    reveal_strlit("prompt");
    assert("audio_url"@.len() == 9);
    assert("input"@.len() == 5);
    assert("media"@.len() == 5);
    assert("model"@.len() == 5);
    assert("negative_prompt"@.len() == 15);
    assert("parameters"@.len() == 10);
    assert("prompt"@.len() == 6);
    assert("input"@[0] == 'i');
    assert("media"@[0] == 'm');
    assert("model"@[0] == 'm');
    assert("media"@[1] == 'e');
    assert("model"@[1] == 'o');
}

/// The images of a video request go to DashScope by address, with the roles
/// that their number gives them.
pub proof fn law_dashscope_video_images(
    model: Seq<char>,
    body: Jv,
    r: Jv,
    images: Seq<Jv>,
)
    requires
        body.member("input"@) is None,
        body.member("media"@) is None,
        body.member("images"@) == Some(Jv::Arr(images)),
        images.len() > 0,
        all_addresses(images),
        body.member("videos"@) is None,
        body.member("audios"@) is None,
        body.member("files"@) is None,
        body.member("links"@) is None,
        r == dashscope_video_body(model, body),
    ensures
        r.at("input"@).member("media"@) matches Some(Jv::Arr(list)) && list.len() == images.len()
            && (forall|i: int|
            0 <= i < images.len() ==> (#[trigger] list[i]).member("url"@) == Some(images[i])
                && text_at(list[i], "type"@) == Some(
                if images.len() > 2 {
                    "reference_image"@
                } else if i == 0 {
                    "first_frame"@
                } else {
                    "last_frame"@
                },
            )),
{
    reveal_strlit("audio_url");
    reveal_strlit("image_urls");
    reveal_strlit("images");
    reveal_strlit("input");
    reveal_strlit("media");
    reveal_strlit("model");
    reveal_strlit("negative_prompt");
    reveal_strlit("parameters");
    reveal_strlit("prompt");
    reveal_strlit("type");
    reveal_strlit("url");
    assert("audio_url"@.len() == 9);
    assert("image_urls"@.len() == 10);
    assert("images"@.len() == 6);
    assert("input"@.len() == 5);
    assert("media"@.len() == 5);
    assert("model"@.len() == 5);
    assert("negative_prompt"@.len() == 15);
    assert("parameters"@.len() == 10);
    assert("prompt"@.len() == 6);
    assert("type"@.len() == 4);
    assert("url"@.len() == 3);
    assert("image_urls"@[0] == 'i');
    assert("parameters"@[0] == 'p');
    assert("images"@[0] == 'i');
    assert("prompt"@[0] == 'p');
    assert("input"@[0] == 'i');
    assert("media"@[0] == 'm');
    assert("model"@[0] == 'm');
    assert("media"@[1] == 'e');
    assert("model"@[1] == 'o');
    let fields = seq!["images"@, "image_urls"@];
    assert(fields[0] == "images"@);
    lemma_media_first(body, fields);
    lemma_plain_placed(images, images.len() as int, None, false);
    let items = placed(images, None, false);
    let none = Seq::<Jv>::empty();
    lemma_nothing_listed(body, "videos"@);
    lemma_nothing_listed(body, "audios"@);
    lemma_nothing_listed(body, "files"@);
    lemma_nothing_listed(body, "links"@);
    let media = video_media(model, body);
    assert(media =~= typed_media(items));
    assert forall|i: int| 0 <= i < images.len() implies (#[trigger] media[i]).member("url"@)
        == Some(images[i]) && text_at(media[i], "type"@) == Some(
        if images.len() > 2 {
            "reference_image"@
        } else if i == 0 {
            "first_frame"@
        } else {
            "last_frame"@
        },
    ) by {
        assert(images[i] is Str);
    }
}

/// The videos of a video request go to DashScope by address, as references;
/// one family of models has another word for that.
pub proof fn law_dashscope_video_clips(
    model: Seq<char>,
    body: Jv,
    r: Jv,
    videos: Seq<Jv>,
)
    requires
        body.member("input"@) is None,
        body.member("media"@) is None,
        body.member("videos"@) == Some(Jv::Arr(videos)),
        videos.len() > 0,
        all_addresses(videos),
        body.member("images"@) is None,
        body.member("image_urls"@) is None,
        body.member("audios"@) is None,
        body.member("files"@) is None,
        body.member("links"@) is None,
        r == dashscope_video_body(model, body),
    ensures
        r.at("input"@).member("media"@) matches Some(Jv::Arr(list)) && list.len() == videos.len()
            && (forall|i: int|
            0 <= i < videos.len() ==> (#[trigger] list[i]).member("url"@) == Some(videos[i])
                && text_at(list[i], "type"@) == Some(
                if holds(ascii_small(model), "happyhorse"@) {
                    "video"@
                } else {
                    "reference_video"@
                },
            )),
{
    reveal_strlit("audio_url");
    reveal_strlit("image_urls");
    reveal_strlit("images");
    reveal_strlit("input");
    reveal_strlit("media");
    reveal_strlit("model");
    reveal_strlit("negative_prompt");
    reveal_strlit("parameters");
    reveal_strlit("prompt");
    reveal_strlit("type");
    reveal_strlit("url");
    assert("audio_url"@.len() == 9);
    assert("image_urls"@.len() == 10);
    assert("images"@.len() == 6);
    assert("input"@.len() == 5);
    assert("media"@.len() == 5);
    assert("model"@.len() == 5);
    assert("negative_prompt"@.len() == 15);
    assert("parameters"@.len() == 10);
    assert("prompt"@.len() == 6);
    assert("type"@.len() == 4);
    assert("url"@.len() == 3);
    assert("image_urls"@[0] == 'i');
    assert("parameters"@[0] == 'p');
    assert("images"@[0] == 'i');
    assert("prompt"@[0] == 'p');
    assert("input"@[0] == 'i');
    assert("media"@[0] == 'm');
    assert("model"@[0] == 'm');
    assert("media"@[1] == 'e');
    assert("model"@[1] == 'o');
    let fields = seq!["images"@, "image_urls"@];
    assert(fields[0] == "images"@);
    lemma_media_first(body, fields);
    assert(fields.drop_first() =~= seq!["image_urls"@]);
    lemma_nothing_listed(body, "image_urls"@);
    lemma_nothing_listed(body, "audios"@);
    lemma_nothing_listed(body, "files"@);
    lemma_nothing_listed(body, "links"@);
    lemma_listed_here(body, "videos"@, videos);
    let word = if holds(ascii_small(model), "happyhorse"@) {
        "video"@
    } else {
        "reference_video"@
    };
    lemma_plain_placed(videos, videos.len() as int, Some(word), false);
    let items = placed(videos, Some(word), false);
    let media = video_media(model, body);
    assert(media =~= typed_media(items));
    assert forall|i: int| 0 <= i < videos.len() implies (#[trigger] media[i]).member("url"@)
        == Some(videos[i]) && text_at(media[i], "type"@) == Some(word) by {
        assert(videos[i] is Str);
    }
}

/// Sounds, files and links of a video request go to DashScope by address, each
/// under its kind.
pub proof fn law_dashscope_video_others(body: Jv, field: Seq<char>, kind: Seq<char>, items: Seq<Jv>)
    requires
        body.member(field) == Some(Jv::Arr(items)),
        items.len() > 0,
        all_addresses(items),
    ensures
        ({
            let list = crate::dashscope::media_of_kind(body, field, kind);
            &&& list.len() == items.len()
            &&& forall|i: int|
                0 <= i < items.len() ==> (#[trigger] list[i]).member("url"@) == Some(items[i])
                    && text_at(list[i], "type"@) == Some(kind)
        }),
{
    reveal_strlit("type");
    reveal_strlit("url");
    assert("type"@.len() == 4);
    assert("url"@.len() == 3);
    lemma_listed_here(body, field, items);
    lemma_plain_placed(items, items.len() as int, Some(kind), false);
    let list = crate::dashscope::media_of_kind(body, field, kind);
    assert forall|i: int| 0 <= i < items.len() implies (#[trigger] list[i]).member("url"@) == Some(
        items[i],
    ) && text_at(list[i], "type"@) == Some(kind) by {
        assert(items[i] is Str);
    }
}

/// The media of a video request in their order: images, videos, sounds, files
/// and links.
pub proof fn law_dashscope_video_order(model: Seq<char>, body: Jv)
    requires
        body.member("images"@) is None,
        body.member("image_urls"@) is None,
    ensures
        !holds(ascii_small(model), "happyhorse"@) ==> video_media(model, body)
            == crate::dashscope::media_of_kind(body, "videos"@, "reference_video"@)
            + crate::dashscope::media_of_kind(body, "audios"@, "reference_audio"@)
            + crate::dashscope::media_of_kind(body, "files"@, "file"@)
            + crate::dashscope::media_of_kind(body, "links"@, "link"@),
{
    let fields = seq!["images"@, "image_urls"@];
    assert(fields[0] == "images"@);
    lemma_media_first(body, fields);
    assert(fields.drop_first() =~= seq!["image_urls"@]);
    lemma_nothing_listed(body, "image_urls"@);
    let none = typed_media(placed(media_values(body, fields), None, false));
    assert(none =~= Seq::<Jv>::empty());
    if !holds(ascii_small(model), "happyhorse"@) {
        assert(video_media(model, body) =~= crate::dashscope::media_of_kind(
            body,
            "videos"@,
            "reference_video"@,
        ) + crate::dashscope::media_of_kind(body, "audios"@, "reference_audio"@)
            + crate::dashscope::media_of_kind(body, "files"@, "file"@)
            + crate::dashscope::media_of_kind(body, "links"@, "link"@));
    }
}

/// The parameters of a video request: its settings under their own names, its
/// resolution in capital letters, and what holds where it names none.
pub proof fn law_dashscope_video_parameters(
    model: Seq<char>,
    body: Jv,
    r: Jv,
    p: Jv,
)
    requires
        body.member("input"@) is None,
        r == dashscope_video_body(model, body),
        p == r.at("parameters"@),
    ensures
        p.member("ratio"@) == body.member("ratio"@),
        p.member("prompt_extend"@) == body.member("prompt_extend"@),
        p.member("watermark"@) == body.member("watermark"@),
        p.member("seed"@) == body.member("seed"@),
        body.member("duration"@) is Some ==> p.member("duration"@) == body.member("duration"@),
        body.member("duration"@) is None ==> p.member("duration"@) == Some(Jv::Int(5)),
        text_at(body, "resolution"@) matches Some(res) ==> text_at(p, "resolution"@) == Some(
            capital_letters(res),
        ),
        body.member("resolution"@) is None ==> text_at(p, "resolution"@) == Some(
            match text_at(body, "size"@) {
                Some(size) => capital_letters(size),
                None => "720P"@,
            },
        ),
        body.member("audio"@) is Some ==> p.member("audio"@) == body.member("audio"@),
        body.member("audio"@) is None ==> (body.member("generate_audio"@) matches Some(on)
            ==> p.member("audio"@) == Some(
            Jv::Bool(on == Jv::Bool(true) || on == Jv::Str("true"@)),
        )),
        body.member("audio"@) is None && body.member("generate_audio"@) is None ==> p.member(
            "audio"@,
        ) is None,
{
    reveal_strlit("audio");
    reveal_strlit("duration");
    reveal_strlit("input");
    reveal_strlit("model");
    reveal_strlit("parameters");
    reveal_strlit("prompt_extend");
    reveal_strlit("ratio");
    reveal_strlit("resolution");
    reveal_strlit("seed");
    reveal_strlit("watermark");
    assert("audio"@.len() == 5);
    assert("duration"@.len() == 8);
    assert("input"@.len() == 5);
    assert("model"@.len() == 5);
    assert("parameters"@.len() == 10);
    assert("prompt_extend"@.len() == 13);
    assert("ratio"@.len() == 5);
    assert("resolution"@.len() == 10);
    assert("seed"@.len() == 4);
    assert("watermark"@.len() == 9);
    assert("audio"@[0] == 'a');
    assert("input"@[0] == 'i');
    assert("model"@[0] == 'm');
    assert("ratio"@[0] == 'r');
    assert("parameters"@[0] == 'p');
    assert("resolution"@[0] == 'r');
    assert(video_param_keys()[0] == "resolution"@);
    assert(video_param_keys()[1] == "ratio"@);
    assert(video_param_keys()[2] == "duration"@);
    assert(video_param_keys()[3] == "prompt_extend"@);
    assert(video_param_keys()[4] == "watermark"@);
    assert(video_param_keys()[5] == "seed"@);
    assert(video_param_keys()[6] == "audio"@);
    lemma_carry_all(no_members(), body, video_param_keys(), "resolution"@);
    lemma_carry_all(no_members(), body, video_param_keys(), "ratio"@);
    lemma_carry_all(no_members(), body, video_param_keys(), "duration"@);
    lemma_carry_all(no_members(), body, video_param_keys(), "prompt_extend"@);
    lemma_carry_all(no_members(), body, video_param_keys(), "watermark"@);
    lemma_carry_all(no_members(), body, video_param_keys(), "seed"@);
    lemma_carry_all(no_members(), body, video_param_keys(), "audio"@);
}

// ---------------------------------------------------------------- Volcengine

proof fn lemma_content_body(model: Seq<char>, body: Jv, keys: Seq<Seq<char>>, key: Seq<char>)
    ensures
        ({
            let r = content_body(model, body, keys);
            &&& r is Obj
            &&& keys.contains(key) && body.member(key) is Some ==> r.member(key) == body.member(key)
            &&& (!keys.contains(key) || body.member(key) is None) && key != "model"@ && key
                != "content"@ ==> r.member(key) is None
            &&& !keys.contains(key) && key == "model"@ && key != "content"@ ==> r.member(key)
                == Some(Jv::Str(model))
            &&& !keys.contains(key) && key == "content"@ ==> r.member(key) == Some(
                content_array(body),
            )
        }),
{
    let to = single("model"@, Jv::Str(model)).with("content"@, content_array(body));
    lemma_carry_all(to, body, keys, key);
}

/// A video request to Volcengine keeps its settings under their own names;
/// its resolution is in small letters, and a task ends after an hour where the
/// request does not say otherwise.
pub proof fn law_volcengine_video_keeps(
    model: Seq<char>,
    body: Jv,
    r: Jv,
)
    requires
        r == volcengine_video_body(model, body),
    ensures
        r.member("model"@) == Some(Jv::Str(model)),
        r.member("content"@) == Some(content_array(body)),
        r.member("ratio"@) == body.member("ratio"@),
        r.member("duration"@) == body.member("duration"@),
        r.member("camera_fixed"@) == body.member("camera_fixed"@),
        r.member("seed"@) == body.member("seed"@),
        r.member("generate_audio"@) == body.member("generate_audio"@),
        r.member("return_last_frame"@) == body.member("return_last_frame"@),
        r.member("watermark"@) == body.member("watermark"@),
        r.member("stream"@) == body.member("stream"@),
        r.member("callback_url"@) == body.member("callback_url"@),
        r.member("service_tier"@) == body.member("service_tier"@),
        r.member("draft"@) == body.member("draft"@),
        r.member("tools"@) == body.member("tools"@),
        r.member("safety_identifier"@) == body.member("safety_identifier"@),
        r.member("priority"@) == body.member("priority"@),
        r.member("frames"@) == body.member("frames"@),
        r.member("omni_reference_task_type"@) == body.member("omni_reference_task_type"@),
        r.member("output_format"@) == body.member("output_format"@),
        r.member("bitrate_mode"@) == body.member("bitrate_mode"@),
        body.member("execution_expires_after"@) is Some ==> r.member("execution_expires_after"@)
            == body.member("execution_expires_after"@),
        body.member("execution_expires_after"@) is None ==> r.member("execution_expires_after"@)
            == Some(Jv::Int(3600)),
        text_at(body, "resolution"@) matches Some(res) ==> text_at(r, "resolution"@) == Some(
            small_letters(res),
        ),
        text_at(body, "resolution"@) is None ==> text_at(r, "resolution"@) == Some("720p"@),
{
    reveal_strlit("bitrate_mode");
    reveal_strlit("callback_url");
    reveal_strlit("camera_fixed");
    reveal_strlit("content");
    reveal_strlit("draft");
    reveal_strlit("duration");
    reveal_strlit("execution_expires_after");
    reveal_strlit("frames");
    reveal_strlit("generate_audio");
    reveal_strlit("model");
    reveal_strlit("omni_reference_task_type");
    reveal_strlit("output_format");
    reveal_strlit("priority");
    reveal_strlit("ratio");
    reveal_strlit("resolution");
    reveal_strlit("return_last_frame");
    reveal_strlit("safety_identifier");
    reveal_strlit("seed");
    reveal_strlit("service_tier");
    reveal_strlit("stream");
    reveal_strlit("tools");
    reveal_strlit("watermark");
    assert("bitrate_mode"@.len() == 12);
    assert("callback_url"@.len() == 12);
    assert("camera_fixed"@.len() == 12);
    assert("content"@.len() == 7);
    assert("draft"@.len() == 5);
    assert("duration"@.len() == 8);
    assert("execution_expires_after"@.len() == 23);
    assert("frames"@.len() == 6);
    assert("generate_audio"@.len() == 14);
    assert("model"@.len() == 5);
    assert("omni_reference_task_type"@.len() == 24);
    assert("output_format"@.len() == 13);
    assert("priority"@.len() == 8);
    assert("ratio"@.len() == 5);
    assert("resolution"@.len() == 10);
    assert("return_last_frame"@.len() == 17);
    assert("safety_identifier"@.len() == 17);
    assert("seed"@.len() == 4);
    assert("service_tier"@.len() == 12);
    assert("stream"@.len() == 6);
    assert("tools"@.len() == 5);
    assert("watermark"@.len() == 9);
    assert("bitrate_mode"@[0] == 'b');
    assert("callback_url"@[0] == 'c');
    assert("camera_fixed"@[0] == 'c');
    assert("service_tier"@[0] == 's');
    assert("callback_url"@[2] == 'l');
    assert("camera_fixed"@[2] == 'm');
    assert("draft"@[0] == 'd');
    assert("model"@[0] == 'm');
    assert("ratio"@[0] == 'r');
    assert("tools"@[0] == 't');
    assert("duration"@[0] == 'd');
    assert("priority"@[0] == 'p');
    assert("frames"@[0] == 'f');
    assert("stream"@[0] == 's');
    assert("return_last_frame"@[0] == 'r');
    assert("safety_identifier"@[0] == 's');
    assert(volcengine_keys()[0] == "ratio"@);
    assert(volcengine_keys()[1] == "resolution"@);
    assert(volcengine_keys()[2] == "duration"@);
    assert(volcengine_keys()[3] == "camera_fixed"@);
    assert(volcengine_keys()[4] == "seed"@);
    assert(volcengine_keys()[5] == "generate_audio"@);
    assert(volcengine_keys()[6] == "return_last_frame"@);
    assert(volcengine_keys()[7] == "watermark"@);
    assert(volcengine_keys()[8] == "stream"@);
    assert(volcengine_keys()[9] == "callback_url"@);
    assert(volcengine_keys()[10] == "service_tier"@);
    assert(volcengine_keys()[11] == "execution_expires_after"@);
    assert(volcengine_keys()[12] == "draft"@);
    assert(volcengine_keys()[13] == "tools"@);
    assert(volcengine_keys()[14] == "safety_identifier"@);
    assert(volcengine_keys()[15] == "priority"@);
    assert(volcengine_keys()[16] == "frames"@);
    assert(volcengine_keys()[17] == "omni_reference_task_type"@);
    assert(volcengine_keys()[18] == "output_format"@);
    assert(volcengine_keys()[19] == "bitrate_mode"@);
    assert(!volcengine_keys().contains("model"@));
    assert(!volcengine_keys().contains("content"@));
    lemma_content_body(model, body, volcengine_keys(), "ratio"@);
    lemma_content_body(model, body, volcengine_keys(), "resolution"@);
    lemma_content_body(model, body, volcengine_keys(), "duration"@);
    lemma_content_body(model, body, volcengine_keys(), "camera_fixed"@);
    lemma_content_body(model, body, volcengine_keys(), "seed"@);
    lemma_content_body(model, body, volcengine_keys(), "generate_audio"@);
    lemma_content_body(model, body, volcengine_keys(), "return_last_frame"@);
    lemma_content_body(model, body, volcengine_keys(), "watermark"@);
    lemma_content_body(model, body, volcengine_keys(), "stream"@);
    lemma_content_body(model, body, volcengine_keys(), "callback_url"@);
    lemma_content_body(model, body, volcengine_keys(), "service_tier"@);
    lemma_content_body(model, body, volcengine_keys(), "execution_expires_after"@);
    lemma_content_body(model, body, volcengine_keys(), "draft"@);
    lemma_content_body(model, body, volcengine_keys(), "tools"@);
    lemma_content_body(model, body, volcengine_keys(), "safety_identifier"@);
    lemma_content_body(model, body, volcengine_keys(), "priority"@);
    lemma_content_body(model, body, volcengine_keys(), "frames"@);
    lemma_content_body(model, body, volcengine_keys(), "omni_reference_task_type"@);
    lemma_content_body(model, body, volcengine_keys(), "output_format"@);
    lemma_content_body(model, body, volcengine_keys(), "bitrate_mode"@);
    lemma_content_body(model, body, volcengine_keys(), "model"@);
    lemma_content_body(model, body, volcengine_keys(), "content"@);
}

/// A request that has a content of its own keeps it, but that beside a video
/// or a sound every image is a reference.
pub proof fn law_own_content(body: Jv, items: Seq<Jv>)
    requires
        body.member("content"@) == Some(Jv::Arr(items)),
    ensures
        content_array(body) == crate::media::with_image_roles(Jv::Arr(items)),
        (forall|i: int|
            0 <= i < items.len() ==> text_at(#[trigger] items[i], "type"@) != Some("video_url"@)
                && text_at(items[i], "type"@) != Some("audio_url"@)) ==> content_array(body)
            == Jv::Arr(items),
{
    if forall|i: int|
        0 <= i < items.len() ==> text_at(#[trigger] items[i], "type"@) != Some("video_url"@)
            && text_at(items[i], "type"@) != Some("audio_url"@) {
        assert(!has_clip(items));
    }
}

/// The content of a request without one: its prompt, then its images, each by
/// its address, with the role that their number gives them.
pub proof fn law_content_of_images(body: Jv, images: Seq<Jv>, c: Jv)
    requires
        body.member("content"@) is None,
        body.member("images"@) == Some(Jv::Arr(images)),
        images.len() > 0,
        all_addresses(images),
        body.member("videos"@) is None,
        body.member("audios"@) is None,
        c == content_array(body),
    ensures
        c matches Jv::Arr(parts) && parts.len() == images.len() + 1 && text_at(parts[0], "type"@)
            == Some("text"@) && text_at(parts[0], "text"@) == Some(
            match text_at(body, "prompt"@) {
                Some(p) => p,
                None => "Generate content"@,
            },
        ) && (forall|i: int|
            0 <= i < images.len() ==> text_at(#[trigger] parts[i + 1], "type"@) == Some(
                "image_url"@,
            ) && parts[i + 1].at("image_url"@).member("url"@) == Some(images[i]) && text_at(
                parts[i + 1],
                "role"@,
            ) == Some(
                if images.len() > 2 {
                    "reference_image"@
                } else if i == 0 {
                    "first_frame"@
                } else {
                    "last_frame"@
                },
            )),
{
    reveal_strlit("audio_url");
    reveal_strlit("image_url");
    reveal_strlit("image_urls");
    reveal_strlit("images");
    reveal_strlit("role");
    reveal_strlit("text");
    reveal_strlit("type");
    reveal_strlit("url");
    reveal_strlit("video_url");
    assert("audio_url"@.len() == 9);
    assert("image_url"@.len() == 9);
    assert("image_urls"@.len() == 10);
    assert("images"@.len() == 6);
    assert("role"@.len() == 4);
    assert("text"@.len() == 4);
    assert("type"@.len() == 4);
    assert("url"@.len() == 3);
    assert("video_url"@.len() == 9);
    assert("audio_url"@[0] == 'a');
    assert("image_url"@[0] == 'i');
    assert("video_url"@[0] == 'v');
    assert("role"@[0] == 'r');
    assert("text"@[0] == 't');
    assert("type"@[0] == 't');
    assert("text"@[1] == 'e');
    assert("type"@[1] == 'y');
    let fields = seq!["images"@, "image_urls"@];
    assert(fields[0] == "images"@);
    lemma_media_first(body, fields);
    lemma_plain_placed(images, images.len() as int, None, true);
    lemma_nothing_listed(body, "videos"@);
    lemma_nothing_listed(body, "audios"@);
    let parts = collected_content(body);
    let shown = crate::content::media_entries("image_url"@, placed(images, None, true));
    assert(parts =~= seq![parts[0]] + shown);
    assert forall|i: int| 0 <= i < images.len() implies text_at(#[trigger] parts[i + 1], "type"@)
        == Some("image_url"@) && parts[i + 1].at("image_url"@).member("url"@) == Some(images[i])
        && text_at(parts[i + 1], "role"@) == Some(
        if images.len() > 2 {
            "reference_image"@
        } else if i == 0 {
            "first_frame"@
        } else {
            "last_frame"@
        },
    ) by {
        assert(images[i] is Str);
        assert(parts[i + 1] == shown[i]);
    }
    assert forall|k: int| 0 <= k < parts.len() implies !is_clip(#[trigger] parts[k]) by {
        if k > 0 {
            assert(text_at(parts[(k - 1) + 1], "type"@) == Some("image_url"@));
        }
    }
    assert(!has_clip(parts));
}

/// The content of a request with videos: its prompt, then its videos by their
/// addresses, as references.
pub proof fn law_content_of_videos(body: Jv, videos: Seq<Jv>, c: Jv)
    requires
        body.member("content"@) is None,
        body.member("videos"@) == Some(Jv::Arr(videos)),
        videos.len() > 0,
        all_addresses(videos),
        body.member("images"@) is None,
        body.member("image_urls"@) is None,
        body.member("audios"@) is None,
        c == content_array(body),
    ensures
        c matches Jv::Arr(parts) && parts.len() == videos.len() + 1 && text_at(parts[0], "text"@)
            == Some(
            match text_at(body, "prompt"@) {
                Some(p) => p,
                None => "Generate content"@,
            },
        ) && (forall|i: int|
            0 <= i < videos.len() ==> text_at(#[trigger] parts[i + 1], "type"@) == Some(
                "video_url"@,
            ) && parts[i + 1].at("video_url"@).member("url"@) == Some(videos[i]) && text_at(
                parts[i + 1],
                "role"@,
            ) == Some("reference_video"@)),
{
    reveal_strlit("audio_url");
    reveal_strlit("image_url");
    reveal_strlit("image_urls");
    reveal_strlit("images");
    reveal_strlit("role");
    reveal_strlit("text");
    reveal_strlit("type");
    reveal_strlit("url");
    reveal_strlit("video_url");
    assert("audio_url"@.len() == 9);
    assert("image_url"@.len() == 9);
    assert("image_urls"@.len() == 10);
    assert("images"@.len() == 6);
    assert("role"@.len() == 4);
    assert("text"@.len() == 4);
    assert("type"@.len() == 4);
    assert("url"@.len() == 3);
    assert("video_url"@.len() == 9);
    assert("audio_url"@[0] == 'a');
    assert("image_url"@[0] == 'i');
    assert("video_url"@[0] == 'v');
    assert("role"@[0] == 'r');
    assert("text"@[0] == 't');
    assert("type"@[0] == 't');
    assert("text"@[1] == 'e');
    assert("type"@[1] == 'y');
    let fields = seq!["images"@, "image_urls"@];
    assert(fields[0] == "images"@);
    lemma_media_first(body, fields);
    assert(fields.drop_first() =~= seq!["image_urls"@]);
    lemma_nothing_listed(body, "image_urls"@);
    lemma_nothing_listed(body, "audios"@);
    lemma_listed_here(body, "videos"@, videos);
    lemma_plain_placed(videos, videos.len() as int, Some("reference_video"@), true);
    let parts = collected_content(body);
    let shown = crate::content::media_entries(
        "video_url"@,
        placed(videos, Some("reference_video"@), true),
    );
    assert(parts =~= seq![parts[0]] + shown);
    let after = c->Arr_0;
    assert(is_clip(parts[1])) by {
        assert(parts[1] == shown[0]);
    }
    assert(has_clip(parts));
    assert forall|i: int| 0 <= i < videos.len() implies text_at(#[trigger] after[i + 1], "type"@)
        == Some("video_url"@) && after[i + 1].at("video_url"@).member("url"@) == Some(videos[i])
        && text_at(after[i + 1], "role"@) == Some("reference_video"@) by {
        assert(videos[i] is Str);
        assert(parts[i + 1] == shown[i]);
    }
}

// ---------------------------------------------------------------- MiniMax

/// A video request to MiniMax keeps its settings under their own names, and
/// its watermark under MiniMax's.
pub proof fn law_minimax_video_keeps(
    model: Seq<char>,
    body: Jv,
    r: Jv,
)
    requires
        r == minimax_video_body(model, body),
    ensures
        r.member("model"@) == Some(Jv::Str(model)),
        r.member("content"@) == Some(content_array(body)),
        r.member("resolution"@) == body.member("resolution"@),
        r.member("ratio"@) == body.member("ratio"@),
        r.member("duration"@) == body.member("duration"@),
        r.member("callback_url"@) == body.member("callback_url"@),
        body.member("aigc_watermark"@) is Some ==> r.member("aigc_watermark"@) == body.member(
            "aigc_watermark"@,
        ),
        body.member("aigc_watermark"@) is None ==> r.member("aigc_watermark"@) == body.member(
            "watermark"@,
        ),
{
    reveal_strlit("aigc_watermark");
    reveal_strlit("callback_url");
    reveal_strlit("content");
    reveal_strlit("duration");
    reveal_strlit("model");
    reveal_strlit("ratio");
    reveal_strlit("resolution");
    assert("aigc_watermark"@.len() == 14);
    assert("callback_url"@.len() == 12);
    assert("content"@.len() == 7);
    assert("duration"@.len() == 8);
    assert("model"@.len() == 5);
    assert("ratio"@.len() == 5);
    assert("resolution"@.len() == 10);
    assert("model"@[0] == 'm');
    assert("ratio"@[0] == 'r');
    assert(minimax_video_keys()[0] == "resolution"@);
    assert(minimax_video_keys()[1] == "ratio"@);
    assert(minimax_video_keys()[2] == "duration"@);
    assert(minimax_video_keys()[3] == "callback_url"@);
    assert(!minimax_video_keys().contains("model"@));
    assert(!minimax_video_keys().contains("content"@));
    assert(!minimax_video_keys().contains("aigc_watermark"@));
    lemma_content_body(model, body, minimax_video_keys(), "resolution"@);
    lemma_content_body(model, body, minimax_video_keys(), "ratio"@);
    lemma_content_body(model, body, minimax_video_keys(), "duration"@);
    lemma_content_body(model, body, minimax_video_keys(), "callback_url"@);
    lemma_content_body(model, body, minimax_video_keys(), "model"@);
    lemma_content_body(model, body, minimax_video_keys(), "content"@);
    lemma_content_body(model, body, minimax_video_keys(), "aigc_watermark"@);
}

/// Whether a member is there and not null.
pub open spec fn is_set(body: Jv, key: Seq<char>) -> bool {
    body.member(key) is Some && body.member(key) != Some(Jv::Null)
}

/// What stands under a key of a MiniMax image body that nothing but the list
/// of members decides.
proof fn lemma_minimax_image(
    model: Seq<char>,
    body: Jv,
    nearest: Option<StandardRatio>,
    key: Seq<char>,
)
    requires
        key != "model"@,
        minimax_image_keys().contains(key),
        key != "response_format"@,
    ensures
        ({
            let r = minimax_image_body(model, body, nearest);
            &&& is_set(body, key) ==> r.member(key) == body.member(key)
            &&& !is_set(body, key) && key != "aspect_ratio"@ && key != "aigc_watermark"@ && key
                != "subject_reference"@ ==> r.member(key) is None
        }),
{
    let a = single("model"@, Jv::Str(model));
    lemma_carry_all(a, stripped(body), minimax_image_keys(), key);
    lemma_carry_all(a, stripped(body), minimax_image_keys(), "aspect_ratio"@);
    lemma_carry_all(a, stripped(body), minimax_image_keys(), "aigc_watermark"@);
    lemma_carry_all(a, stripped(body), minimax_image_keys(), "subject_reference"@);
}

/// An image request to MiniMax keeps what it sets, each member under its own
/// name.
pub proof fn law_minimax_image_keeps(
    model: Seq<char>,
    body: Jv,
    nearest: Option<StandardRatio>,
    r: Jv,
)
    requires
        r == minimax_image_body(model, body, nearest),
    ensures
        is_set(body, "prompt"@) ==> r.member("prompt"@) == body.member("prompt"@),
        is_set(body, "aspect_ratio"@) ==> r.member("aspect_ratio"@) == body.member("aspect_ratio"@),
        is_set(body, "width"@) ==> r.member("width"@) == body.member("width"@),
        is_set(body, "height"@) ==> r.member("height"@) == body.member("height"@),
        is_set(body, "n"@) ==> r.member("n"@) == body.member("n"@),
        is_set(body, "seed"@) ==> r.member("seed"@) == body.member("seed"@),
        is_set(body, "style"@) ==> r.member("style"@) == body.member("style"@),
        is_set(body, "prompt_optimizer"@) ==> r.member("prompt_optimizer"@) == body.member("prompt_optimizer"@),
        is_set(body, "aigc_watermark"@) ==> r.member("aigc_watermark"@) == body.member("aigc_watermark"@),
        is_set(body, "subject_reference"@) ==> r.member("subject_reference"@) == body.member("subject_reference"@),
{
    reveal_strlit("aigc_watermark");
    reveal_strlit("aspect_ratio");
    reveal_strlit("height");
    reveal_strlit("model");
    reveal_strlit("n");
    reveal_strlit("prompt");
    reveal_strlit("prompt_optimizer");
    reveal_strlit("response_format");
    reveal_strlit("seed");
    reveal_strlit("style");
    reveal_strlit("subject_reference");
    reveal_strlit("width");
    assert("aigc_watermark"@.len() == 14);
    assert("aspect_ratio"@.len() == 12);
    assert("height"@.len() == 6);
    assert("model"@.len() == 5);
    assert("n"@.len() == 1);
    assert("prompt"@.len() == 6);
    assert("prompt_optimizer"@.len() == 16);
    assert("response_format"@.len() == 15);
    assert("seed"@.len() == 4);
    assert("style"@.len() == 5);
    assert("subject_reference"@.len() == 17);
    assert("width"@.len() == 5);
    assert("height"@[0] == 'h');
    assert("prompt"@[0] == 'p');
    assert("model"@[0] == 'm');
    assert("style"@[0] == 's');
    assert("width"@[0] == 'w');
    assert(minimax_image_keys()[0] == "prompt"@);
    assert(minimax_image_keys()[1] == "aspect_ratio"@);
    assert(minimax_image_keys()[2] == "width"@);
    assert(minimax_image_keys()[3] == "height"@);
    assert(minimax_image_keys()[4] == "n"@);
    assert(minimax_image_keys()[5] == "seed"@);
    assert(minimax_image_keys()[6] == "style"@);
    assert(minimax_image_keys()[7] == "prompt_optimizer"@);
    assert(minimax_image_keys()[8] == "aigc_watermark"@);
    assert(minimax_image_keys()[9] == "subject_reference"@);
    assert(minimax_image_keys()[10] == "response_format"@);
    lemma_minimax_image(model, body, nearest, "prompt"@);
    lemma_minimax_image(model, body, nearest, "aspect_ratio"@);
    lemma_minimax_image(model, body, nearest, "width"@);
    lemma_minimax_image(model, body, nearest, "height"@);
    lemma_minimax_image(model, body, nearest, "n"@);
    lemma_minimax_image(model, body, nearest, "seed"@);
    lemma_minimax_image(model, body, nearest, "style"@);
    lemma_minimax_image(model, body, nearest, "prompt_optimizer"@);
    lemma_minimax_image(model, body, nearest, "aigc_watermark"@);
    lemma_minimax_image(model, body, nearest, "subject_reference"@);
}

/// What an image request to MiniMax fills in: the model, the ratio, the
/// watermark under MiniMax's name, the form of the answer and the characters.
pub proof fn law_minimax_image_fills_in(
    model: Seq<char>,
    body: Jv,
    nearest: Option<StandardRatio>,
    r: Jv,
    images: Seq<Jv>,
)
    requires
        r == minimax_image_body(model, body, nearest),
    ensures
        r.member("model"@) == Some(Jv::Str(model)),
        !is_set(body, "aspect_ratio"@) && !(is_set(body, "width"@) && is_set(body, "height"@))
            ==> (text_at(body, "ratio"@) matches Some(t) ==> (t.len() > 0 ==> text_at(
            r,
            "aspect_ratio"@,
        ) == Some(t))),
        !is_set(body, "aigc_watermark"@) ==> r.member("aigc_watermark"@) == body.member(
            "watermark"@,
        ),
        body.member("response_format"@) == Some(Jv::Str("b64_json"@)) ==> r.member(
            "response_format"@,
        ) == Some(Jv::Str("base64"@)),
        is_set(body, "response_format"@) && body.member("response_format"@) != Some(
            Jv::Str("b64_json"@),
        ) ==> r.member("response_format"@) == body.member("response_format"@),
        !is_set(body, "subject_reference"@) && body.member("image"@) == Some(Jv::Arr(images))
            && images.len() > 0
                && all_addresses(images) ==> (r.member("subject_reference"@) matches Some(
            Jv::Arr(list),
        ) && list.len() == images.len() && (forall|i: int|
            0 <= i < images.len() ==> text_at(#[trigger] list[i], "type"@) == Some("character"@)
                && list[i].member("image_file"@) == Some(images[i]))),
{
    reveal_strlit("aigc_watermark");
    reveal_strlit("aspect_ratio");
    reveal_strlit("b64_json");
    reveal_strlit("base64");
    reveal_strlit("height");
    reveal_strlit("image");
    reveal_strlit("image[]");
    reveal_strlit("image_file");
    reveal_strlit("image_urls");
    reveal_strlit("model");
    reveal_strlit("n");
    reveal_strlit("prompt");
    reveal_strlit("prompt_optimizer");
    reveal_strlit("response_format");
    reveal_strlit("seed");
    reveal_strlit("style");
    reveal_strlit("subject_reference");
    reveal_strlit("type");
    reveal_strlit("width");
    assert("aigc_watermark"@.len() == 14);
    assert("aspect_ratio"@.len() == 12);
    assert("b64_json"@.len() == 8);
    assert("base64"@.len() == 6);
    assert("height"@.len() == 6);
    assert("image"@.len() == 5);
    assert("image[]"@.len() == 7);
    assert("image_file"@.len() == 10);
    assert("image_urls"@.len() == 10);
    assert("model"@.len() == 5);
    assert("n"@.len() == 1);
    assert("prompt"@.len() == 6);
    assert("prompt_optimizer"@.len() == 16);
    assert("response_format"@.len() == 15);
    assert("seed"@.len() == 4);
    assert("style"@.len() == 5);
    assert("subject_reference"@.len() == 17);
    assert("type"@.len() == 4);
    assert("width"@.len() == 5);
    assert("base64"@[0] == 'b');
    assert("height"@[0] == 'h');
    assert("prompt"@[0] == 'p');
    assert("image"@[0] == 'i');
    assert("model"@[0] == 'm');
    assert("style"@[0] == 's');
    assert("width"@[0] == 'w');
    assert("image_file"@[6] == 'f');
    assert("image_urls"@[6] == 'u');
    assert("seed"@[0] == 's');
    assert("type"@[0] == 't');
    assert(minimax_image_keys()[0] == "prompt"@);
    assert(minimax_image_keys()[1] == "aspect_ratio"@);
    assert(minimax_image_keys()[2] == "width"@);
    assert(minimax_image_keys()[3] == "height"@);
    assert(minimax_image_keys()[4] == "n"@);
    assert(minimax_image_keys()[5] == "seed"@);
    assert(minimax_image_keys()[6] == "style"@);
    assert(minimax_image_keys()[7] == "prompt_optimizer"@);
    assert(minimax_image_keys()[8] == "aigc_watermark"@);
    assert(minimax_image_keys()[9] == "subject_reference"@);
    assert(minimax_image_keys()[10] == "response_format"@);
    assert(!minimax_image_keys().contains("model"@));
    let a = single("model"@, Jv::Str(model));
    lemma_carry_all(a, stripped(body), minimax_image_keys(), "model"@);
    lemma_carry_all(a, stripped(body), minimax_image_keys(), "aspect_ratio"@);
    lemma_carry_all(a, stripped(body), minimax_image_keys(), "width"@);
    lemma_carry_all(a, stripped(body), minimax_image_keys(), "height"@);
    lemma_carry_all(a, stripped(body), minimax_image_keys(), "aigc_watermark"@);
    lemma_carry_all(a, stripped(body), minimax_image_keys(), "response_format"@);
    lemma_carry_all(a, stripped(body), minimax_image_keys(), "subject_reference"@);
    if body.member("image"@) == Some(Jv::Arr(images)) && images.len() > 0 && all_addresses(images) {
        let fields = seq!["image"@, "image_urls"@, "image[]"@];
        assert(fields[0] == "image"@);
        lemma_media_first(body, fields);
        lemma_plain_addresses(images);
        let list = crate::content::character_references(image_urls(body, fields))->Arr_0;
        assert forall|i: int| 0 <= i < images.len() implies text_at(#[trigger] list[i], "type"@)
            == Some("character"@) && list[i].member("image_file"@) == Some(images[i]) by {
            assert(images[i] is Str);
        }
    }
}

// ---------------------------------------------------------------- ATP

/// A setting of an ATP request: under its parameters, or else at its top.
pub open spec fn parameter(body: Jv, key: Seq<char>) -> Option<Jv> {
    match body.at("parameters"@).member(key) {
        Some(v) => Some(v),
        None => body.member(key),
    }
}

/// A video request to ATP keeps its settings, in the flat form or the nested
/// one.
pub proof fn law_atp_keeps(
    model: Seq<char>,
    body: Jv,
    r: Jv,
)
    requires
        r == atp_video_body(model, body),
    ensures
        r.member("model"@) == Some(Jv::Str(model)),
        parameter(body, "resolution"@) matches Some(Jv::Str(t)) ==> (t.len() > 0 ==> text_at(
            r,
            "resolution"@,
        ) == Some(t)),
        body.at("parameters"@).member("ratio"@) is None && body.at("parameters"@).member(
            "aspect_ratio"@,
        ) is None ==> (body.member("ratio"@) matches Some(Jv::Str(t)) ==> (t.len() > 0 ==> text_at(
            r,
            "ratio"@,
        ) == Some(t))),
        body.at("parameters"@).member("ratio"@) matches Some(Jv::Str(t)) ==> (t.len() > 0
            ==> text_at(r, "ratio"@) == Some(t)),
        parameter(body, "duration"@) matches Some(v) ==> (whole_number(v) matches Some(n)
            ==> r.member("duration"@) == Some(Jv::Int(n))),
        parameter(body, "duration"@) is None ==> r.member("duration"@) == Some(Jv::Int(5)),
        parameter(body, "watermark"@) matches Some(Jv::Bool(b)) ==> r.member("watermark"@) == Some(
            Jv::Bool(b),
        ),
        parameter(body, "generate_audio"@) matches Some(Jv::Bool(b)) ==> r.member(
            "generate_audio"@,
        ) == Some(Jv::Bool(b)),
        parameter(body, "seed"@) matches Some(v) ==> (v.int64() matches Some(n) ==> r.member(
            "seed"@,
        ) == Some(Jv::Int(n))),
        r.member("content"@) == Some(Jv::Arr(atp_content(body))),
{
    reveal_strlit("content");
    reveal_strlit("duration");
    reveal_strlit("generate_audio");
    reveal_strlit("model");
    reveal_strlit("ratio");
    reveal_strlit("resolution");
    reveal_strlit("seed");
    reveal_strlit("watermark");
    assert("content"@.len() == 7);
    assert("duration"@.len() == 8);
    assert("generate_audio"@.len() == 14);
    assert("model"@.len() == 5);
    assert("ratio"@.len() == 5);
    assert("resolution"@.len() == 10);
    assert("seed"@.len() == 4);
    assert("watermark"@.len() == 9);
    assert("model"@[0] == 'm');
    assert("ratio"@[0] == 'r');
}

/// The content of an ATP request in the flat form: its prompt, then its images
/// by their addresses, with the roles that their number gives them.
pub proof fn law_atp_flat_content(body: Jv, prompt: Seq<char>, images: Seq<Jv>, parts: Seq<Jv>)
    requires
        body.member("content"@) is None,
        body.member("input"@) is None,
        body.member("prompt"@) == Some(Jv::Str(prompt)),
        prompt.len() > 0,
        body.member("images"@) == Some(Jv::Arr(images)),
        images.len() > 0,
        all_addresses(images),
        body.member("videos"@) is None,
        parts == atp_content(body),
    ensures
        parts.len() == images.len() + 1,
        text_at(parts[0], "type"@) == Some("text"@),
        text_at(parts[0], "text"@) == Some(prompt),
        forall|i: int|
            0 <= i < images.len() ==> text_at(#[trigger] parts[i + 1], "type"@) == Some(
                "image_url"@,
            ) && parts[i + 1].at("image_url"@).member("url"@) == Some(images[i]) && text_at(
                parts[i + 1],
                "role"@,
            ) == Some(
                if images.len() > 2 {
                    "reference_image"@
                } else if i == 0 {
                    "first_frame"@
                } else {
                    "last_frame"@
                },
            ),
{
    reveal_strlit("image_url");
    reveal_strlit("image_urls");
    reveal_strlit("images");
    reveal_strlit("role");
    reveal_strlit("text");
    reveal_strlit("type");
    reveal_strlit("url");
    assert("image_url"@.len() == 9);
    assert("image_urls"@.len() == 10);
    assert("images"@.len() == 6);
    assert("role"@.len() == 4);
    assert("text"@.len() == 4);
    assert("type"@.len() == 4);
    assert("url"@.len() == 3);
    assert("role"@[0] == 'r');
    assert("text"@[0] == 't');
    assert("type"@[0] == 't');
    assert("text"@[1] == 'e');
    assert("type"@[1] == 'y');
    let fields = seq!["images"@, "image_urls"@];
    assert(fields[0] == "images"@);
    lemma_media_first(body, fields);
    lemma_plain_placed(images, images.len() as int, None, false);
    lemma_nothing_listed(body, "videos"@);
    let shown = crate::content::media_entries("image_url"@, placed(images, None, false));
    assert(parts =~= seq![parts[0]] + shown);
    assert forall|i: int| 0 <= i < images.len() implies text_at(#[trigger] parts[i + 1], "type"@)
        == Some("image_url"@) && parts[i + 1].at("image_url"@).member("url"@) == Some(images[i])
        && text_at(parts[i + 1], "role"@) == Some(
        if images.len() > 2 {
            "reference_image"@
        } else if i == 0 {
            "first_frame"@
        } else {
            "last_frame"@
        },
    ) by {
        assert(images[i] is Str);
        assert(parts[i + 1] == shown[i]);
    }
}

/// An element of the nested form: a frame or a reference is an image with that
/// role, a video is a video, and an element without an address is dropped.
pub proof fn law_atp_element(item: Jv, kind: Seq<char>, url: Seq<char>, e: Option<Jv>)
    requires
        text_at(item, "type"@) == Some(kind),
        text_at(item, "url"@) == Some(url),
        e == crate::content::atp_element(item),
    ensures
        url.len() == 0 ==> e is None,
        url.len() > 0 && (kind == "first_frame"@ || kind == "last_frame"@ || kind
            == "reference_image"@) ==> (e matches Some(v) && text_at(v, "type"@) == Some(
            "image_url"@,
        ) && text_at(v.at("image_url"@), "url"@) == Some(url) && text_at(v, "role"@) == Some(kind)),
        url.len() > 0 && (kind == "video"@ || kind == "reference_video"@) ==> (e matches Some(v)
            && text_at(v, "type"@) == Some("video_url"@) && text_at(v.at("video_url"@), "url"@)
            == Some(url)),
{
    reveal_strlit("first_frame");
    reveal_strlit("image_url");
    reveal_strlit("last_frame");
    reveal_strlit("reference_image");
    reveal_strlit("reference_video");
    reveal_strlit("role");
    reveal_strlit("type");
    reveal_strlit("url");
    reveal_strlit("video");
    reveal_strlit("video_url");
    assert("first_frame"@.len() == 11);
    assert("image_url"@.len() == 9);
    assert("last_frame"@.len() == 10);
    assert("reference_image"@.len() == 15);
    assert("reference_video"@.len() == 15);
    assert("role"@.len() == 4);
    assert("type"@.len() == 4);
    assert("url"@.len() == 3);
    assert("video"@.len() == 5);
    assert("video_url"@.len() == 9);
    assert("image_url"@[0] == 'i');
    assert("video_url"@[0] == 'v');
    assert("reference_image"@[10] == 'i');
    assert("reference_video"@[10] == 'v');
    assert("role"@[0] == 'r');
    assert("type"@[0] == 't');
}

/// The ratio of an ATP request: under its parameters or at its top, by either
/// of two names, in this order.
pub proof fn law_atp_ratio(model: Seq<char>, body: Jv, r: Jv, t: Seq<char>)
    requires
        r == atp_video_body(model, body),
        t.len() > 0,
    ensures
        body.at("parameters"@).member("ratio"@) is None && body.at("parameters"@).member(
            "aspect_ratio"@,
        ) == Some(Jv::Str(t)) ==> text_at(r, "ratio"@) == Some(t),
        body.at("parameters"@).member("ratio"@) is None && body.at("parameters"@).member(
            "aspect_ratio"@,
        ) is None && body.member("ratio"@) is None && body.member("aspect_ratio"@) == Some(
            Jv::Str(t),
        ) ==> text_at(r, "ratio"@) == Some(t),
{
    reveal_strlit("content");
    reveal_strlit("duration");
    reveal_strlit("generate_audio");
    reveal_strlit("model");
    reveal_strlit("ratio");
    reveal_strlit("resolution");
    reveal_strlit("seed");
    reveal_strlit("watermark");
    assert("content"@.len() == 7);
    assert("duration"@.len() == 8);
    assert("generate_audio"@.len() == 14);
    assert("model"@.len() == 5);
    assert("ratio"@.len() == 5);
    assert("resolution"@.len() == 10);
    assert("seed"@.len() == 4);
    assert("watermark"@.len() == 9);
    assert("model"@[0] == 'm');
    assert("ratio"@[0] == 'r');
}

/// The content of an ATP request in the nested form: the prompt of its input,
/// then each element of its media.
pub proof fn law_atp_nested_content(body: Jv, prompt: Seq<char>, media: Seq<Jv>, parts: Seq<Jv>)
    requires
        body.member("content"@) is None,
        text_at(body.at("input"@), "prompt"@) == Some(prompt),
        prompt.len() > 0,
        body.at("input"@).member("media"@) == Some(Jv::Arr(media)),
        parts == atp_content(body),
    ensures
        parts.len() > 0,
        text_at(parts[0], "type"@) == Some("text"@),
        text_at(parts[0], "text"@) == Some(prompt),
        parts.skip(1) == crate::content::atp_elements(media),
{
    reveal_strlit("text");
    reveal_strlit("type");
    assert("text"@.len() == 4);
    assert("type"@.len() == 4);
    assert("text"@[1] == 'e');
    assert("type"@[1] == 'y');
    let rest = crate::content::atp_elements(media);
    assert(parts =~= seq![parts[0]] + rest);
    assert(parts.skip(1) =~= rest);
}

/// Each element of the media adds what it stands for.
pub proof fn law_atp_elements(media: Seq<Jv>, item: Jv, e: Jv)
    ensures
        crate::content::atp_element(item) == Some(e) ==> crate::content::atp_elements(
            media.push(item),
        ) == crate::content::atp_elements(media).push(e),
        crate::content::atp_element(item) is None ==> crate::content::atp_elements(media.push(item))
            == crate::content::atp_elements(media),
{
    assert(media.push(item).drop_last() =~= media);
}

/// An ATP request that has a content of its own keeps the objects in it.
pub proof fn law_atp_own_content(body: Jv, items: Seq<Jv>)
    requires
        body.member("content"@) == Some(Jv::Arr(items)),
        forall|i: int| 0 <= i < items.len() ==> (#[trigger] items[i]) is Obj,
    ensures
        atp_content(body) == items,
{
    lemma_objects(items);
}

proof fn lemma_objects(items: Seq<Jv>)
    requires
        forall|i: int| 0 <= i < items.len() ==> (#[trigger] items[i]) is Obj,
    ensures
        crate::content::objects_only(items) == items,
    decreases items.len(),
{
    if items.len() > 0 {
        let t = items.drop_last();
        assert forall|i: int| 0 <= i < t.len() implies (#[trigger] t[i]) is Obj by {
            assert(t[i] == items[i]);
        }
        lemma_objects(t);
        assert(items[items.len() - 1] is Obj);
        assert(crate::content::objects_only(items) =~= items);
    } else {
        assert(crate::content::objects_only(items) =~= items);
    }
}

/// The content of a request with sounds: its prompt, then its sounds by their
/// addresses, as references.
pub proof fn law_content_of_audios(body: Jv, audios: Seq<Jv>, c: Jv)
    requires
        body.member("content"@) is None,
        body.member("audios"@) == Some(Jv::Arr(audios)),
        audios.len() > 0,
        all_addresses(audios),
        body.member("images"@) is None,
        body.member("image_urls"@) is None,
        body.member("videos"@) is None,
        c == content_array(body),
    ensures
        c matches Jv::Arr(parts) && parts.len() == audios.len() + 1 && (forall|i: int|
            0 <= i < audios.len() ==> text_at(#[trigger] parts[i + 1], "type"@) == Some(
                "audio_url"@,
            ) && parts[i + 1].at("audio_url"@).member("url"@) == Some(audios[i]) && text_at(
                parts[i + 1],
                "role"@,
            ) == Some("reference_audio"@)),
{
    reveal_strlit("audio_url");
    reveal_strlit("image_url");
    reveal_strlit("image_urls");
    reveal_strlit("images");
    reveal_strlit("role");
    reveal_strlit("text");
    reveal_strlit("type");
    reveal_strlit("url");
    reveal_strlit("video_url");
    assert("audio_url"@.len() == 9);
    assert("image_url"@.len() == 9);
    assert("image_urls"@.len() == 10);
    assert("images"@.len() == 6);
    assert("role"@.len() == 4);
    assert("text"@.len() == 4);
    assert("type"@.len() == 4);
    assert("url"@.len() == 3);
    assert("video_url"@.len() == 9);
    assert("audio_url"@[0] == 'a');
    assert("image_url"@[0] == 'i');
    assert("video_url"@[0] == 'v');
    assert("role"@[0] == 'r');
    assert("text"@[0] == 't');
    assert("type"@[0] == 't');
    assert("text"@[1] == 'e');
    assert("type"@[1] == 'y');
    let fields = seq!["images"@, "image_urls"@];
    assert(fields[0] == "images"@);
    lemma_media_first(body, fields);
    assert(fields.drop_first() =~= seq!["image_urls"@]);
    lemma_nothing_listed(body, "image_urls"@);
    lemma_nothing_listed(body, "videos"@);
    lemma_listed_here(body, "audios"@, audios);
    lemma_plain_placed(audios, audios.len() as int, Some("reference_audio"@), true);
    let parts = collected_content(body);
    let shown = crate::content::media_entries(
        "audio_url"@,
        placed(audios, Some("reference_audio"@), true),
    );
    assert(parts =~= seq![parts[0]] + shown);
    let after = c->Arr_0;
    assert(is_clip(parts[1])) by {
        assert(parts[1] == shown[0]);
    }
    assert(has_clip(parts));
    assert forall|i: int| 0 <= i < audios.len() implies text_at(#[trigger] after[i + 1], "type"@)
        == Some("audio_url"@) && after[i + 1].at("audio_url"@).member("url"@) == Some(audios[i])
        && text_at(after[i + 1], "role"@) == Some("reference_audio"@) by {
        assert(audios[i] is Str);
        assert(parts[i + 1] == shown[i]);
    }
}

} // verus!
