//! What holds of the bodies for Tencent.
use vstd::prelude::*;
use vstd::string::*;
use crate::json::{
    as_float, int_at, items_in, or_member, text_at, text_in, with_some, with_text, Jv,
};
use crate::media::{
    all_addresses, base64_payload, image_urls, is_base64, lemma_media_first, lemma_nothing_listed,
    lemma_plain_addresses, media_values, placed,
};
use crate::ratio::{ratio_of, StandardRatio};
use crate::tencent::{
    file_entry, file_infos, files_of, first_prompt, has_image, has_video_content, image_files,
    image_output, image_usage, list_image_role, model_head, push_all, push_image, take_content,
    take_contents, tencent_image_body, tencent_video_body, top_images, top_prompt, video_files,
    video_output, video_source, with_enhance_prompt, with_video_media, SourceModel,
};
use crate::text::{ascii_small, capital_letters, trimmed};
use crate::text_laws::{law_not_parted, law_parted};

verus! {

/// A model with a version goes under its name and its version; one without
/// goes under its name alone.
pub proof fn law_tencent_model(name: Seq<char>, version: Seq<char>, model: Seq<char>)
    requires
        !name.contains('@'),
        version.len() > 0,
        model == name + seq!['@'] + version,
    ensures
        text_at(model_head(model), "ModelName"@) == Some(name),
        text_at(model_head(model), "ModelVersion"@) == Some(version),
        text_at(model_head(name), "ModelName"@) == Some(name),
        model_head(name).member("ModelVersion"@) is None,
{
    reveal_strlit("@");
    reveal_strlit("");
    assert("@"@ =~= seq!['@']);
    law_parted(name, '@', version);
    law_not_parted(name, '@');
    assert(""@.len() == 0);
    reveal_strlit("ModelName");
    reveal_strlit("ModelVersion");
    assert("ModelName"@.len() == 9);
    assert("ModelVersion"@.len() == 12);
}

/// Both kinds of body name the model and its version.
pub proof fn law_tencent_names_model(
    model: Seq<char>,
    body: Jv,
    nearest: Option<StandardRatio>,
    key: Seq<char>,
)
    requires
        key == "ModelName"@ || key == "ModelVersion"@,
    ensures
        tencent_image_body(model, body, nearest).member(key) == model_head(model).member(key),
        tencent_video_body(model, body).member(key) == model_head(model).member(key),
{
    reveal_strlit("EnhancePrompt");
    reveal_strlit("ExtInfo");
    reveal_strlit("FileInfos");
    reveal_strlit("LastFrameUrl");
    reveal_strlit("ModelName");
    reveal_strlit("ModelVersion");
    reveal_strlit("NegativePrompt");
    reveal_strlit("OutputConfig");
    reveal_strlit("Prompt");
    reveal_strlit("Seed");
    reveal_strlit("SubjectInfo");
    assert("EnhancePrompt"@.len() == 13);
    assert("ExtInfo"@.len() == 7);
    assert("FileInfos"@.len() == 9);
    assert("LastFrameUrl"@.len() == 12);
    assert("ModelName"@.len() == 9);
    assert("ModelVersion"@.len() == 12);
    assert("NegativePrompt"@.len() == 14);
    assert("OutputConfig"@.len() == 12);
    assert("Prompt"@.len() == 6);
    assert("Seed"@.len() == 4);
    assert("SubjectInfo"@.len() == 11);
    assert("FileInfos"@[0] == 'F');
    assert("ModelName"@[0] == 'M');
    assert("LastFrameUrl"@[0] == 'L');
    assert("ModelVersion"@[0] == 'M');
    assert("OutputConfig"@[0] == 'O');
    let a = with_text(
        model_head(model),
        "NegativePrompt"@,
        text_in(or_member(body.member("negative_prompt"@), body, "NegativePrompt"@)),
    );
    lemma_media_frame(a, body, key);
    lemma_after_media(with_video_media(a, body), body);
}

/// The media leave the rest of a body as it is.
proof fn lemma_media_frame(tb: Jv, body: Jv, key: Seq<char>)
    requires
        tb is Obj,
        key != "FileInfos"@ && key != "Prompt"@ && key != "LastFrameUrl"@,
    ensures
        with_video_media(tb, body) is Obj,
        with_video_media(tb, body).member(key) == tb.member(key),
        body.member("FileInfos"@) is Some ==> with_video_media(tb, body).member("FileInfos"@)
            == body.member("FileInfos"@),
{
    reveal_strlit("FileInfos");
    reveal_strlit("LastFrameUrl");
    reveal_strlit("Prompt");
    assert("FileInfos"@.len() == 9);
    assert("LastFrameUrl"@.len() == 12);
    assert("Prompt"@.len() == 6);
}

/// A video body from its media on.
spec fn after_media(b: Jv, body: Jv) -> Jv {
    let c = with_some(b, "LastFrameUrl"@, body.member("LastFrameUrl"@));
    let d = c.with(
        "OutputConfig"@,
        match body.member("OutputConfig"@) {
            Some(oc) => oc,
            None => video_output(body),
        },
    );
    let e = with_some(d, "Seed"@, or_member(body.member("seed"@), body, "Seed"@));
    let f = with_some(
        e,
        "SubjectInfo"@,
        or_member(body.member("SubjectInfo"@), body, "subject_info"@),
    );
    with_enhance_prompt(with_some(f, "ExtInfo"@, body.member("ExtInfo"@)), body)
}

proof fn lemma_after_media(b: Jv, body: Jv)
    requires
        b is Obj,
    ensures
        ({
            let r = after_media(b, body);
            &&& r.member("ModelName"@) == b.member("ModelName"@)
            &&& r.member("ModelVersion"@) == b.member("ModelVersion"@)
            &&& r.member("NegativePrompt"@) == b.member("NegativePrompt"@)
            &&& r.member("FileInfos"@) == b.member("FileInfos"@)
            &&& r.member("Prompt"@) == b.member("Prompt"@)
            &&& r.member("LastFrameUrl"@) == or_member(
                body.member("LastFrameUrl"@),
                b,
                "LastFrameUrl"@,
            )
            &&& r.member("OutputConfig"@) == match body.member("OutputConfig"@) {
                Some(oc) => Some(oc),
                None => Some(video_output(body)),
            }
            &&& r.member("Seed"@) == or_member(
                or_member(body.member("seed"@), body, "Seed"@),
                b,
                "Seed"@,
            )
            &&& r.member("SubjectInfo"@) == or_member(
                or_member(body.member("SubjectInfo"@), body, "subject_info"@),
                b,
                "SubjectInfo"@,
            )
            &&& r.member("ExtInfo"@) == or_member(body.member("ExtInfo"@), b, "ExtInfo"@)
        }),
{
    reveal_strlit("EnhancePrompt");
    reveal_strlit("ExtInfo");
    reveal_strlit("FileInfos");
    reveal_strlit("LastFrameUrl");
    reveal_strlit("ModelName");
    reveal_strlit("ModelVersion");
    reveal_strlit("NegativePrompt");
    reveal_strlit("OutputConfig");
    reveal_strlit("Prompt");
    reveal_strlit("Seed");
    reveal_strlit("SubjectInfo");
    assert("EnhancePrompt"@.len() == 13);
    assert("ExtInfo"@.len() == 7);
    assert("FileInfos"@.len() == 9);
    assert("LastFrameUrl"@.len() == 12);
    assert("ModelName"@.len() == 9);
    assert("ModelVersion"@.len() == 12);
    assert("NegativePrompt"@.len() == 14);
    assert("OutputConfig"@.len() == 12);
    assert("Prompt"@.len() == 6);
    assert("Seed"@.len() == 4);
    assert("SubjectInfo"@.len() == 11);
    assert("FileInfos"@[0] == 'F');
    assert("ModelName"@[0] == 'M');
    assert("LastFrameUrl"@[0] == 'L');
    assert("ModelVersion"@[0] == 'M');
    assert("OutputConfig"@[0] == 'O');
}

/// The prompts, the seed and the further members of an image request.
pub proof fn law_tencent_image(
    model: Seq<char>,
    body: Jv,
    nearest: Option<StandardRatio>,
    r: Jv,
)
    requires
        r == tencent_image_body(model, body, nearest),
    ensures
        text_at(body, "prompt"@) is Some ==> text_at(r, "Prompt"@) == text_at(body, "prompt"@),
        body.member("prompt"@) is None ==> text_at(r, "Prompt"@) == text_at(body, "Prompt"@),
        text_at(body, "negative_prompt"@) is Some ==> text_at(r, "NegativePrompt"@) == text_at(
            body,
            "negative_prompt"@,
        ),
        body.member("negative_prompt"@) is None ==> text_at(r, "NegativePrompt"@) == text_at(
            body,
            "NegativePrompt"@,
        ),
        body.member("seed"@) is Some ==> r.member("Seed"@) == body.member("seed"@),
        body.member("seed"@) is None ==> r.member("Seed"@) == body.member("Seed"@),
        r.member("ExtInfo"@) == body.member("ExtInfo"@),
        body.member("FileInfos"@) is Some ==> r.member("FileInfos"@) == body.member("FileInfos"@),
        body.member("OutputConfig"@) is Some ==> r.member("OutputConfig"@) == body.member(
            "OutputConfig"@,
        ),
        body.member("OutputConfig"@) is None ==> r.member("OutputConfig"@) == Some(
            image_output(body, nearest),
        ),
{
    reveal_strlit("EnhancePrompt");
    reveal_strlit("ExtInfo");
    reveal_strlit("FileInfos");
    reveal_strlit("LastFrameUrl");
    reveal_strlit("ModelName");
    reveal_strlit("ModelVersion");
    reveal_strlit("NegativePrompt");
    reveal_strlit("OutputConfig");
    reveal_strlit("Prompt");
    reveal_strlit("Seed");
    reveal_strlit("SubjectInfo");
    assert("EnhancePrompt"@.len() == 13);
    assert("ExtInfo"@.len() == 7);
    assert("FileInfos"@.len() == 9);
    assert("LastFrameUrl"@.len() == 12);
    assert("ModelName"@.len() == 9);
    assert("ModelVersion"@.len() == 12);
    assert("NegativePrompt"@.len() == 14);
    assert("OutputConfig"@.len() == 12);
    assert("Prompt"@.len() == 6);
    assert("Seed"@.len() == 4);
    assert("SubjectInfo"@.len() == 11);
    assert("FileInfos"@[0] == 'F');
    assert("ModelName"@[0] == 'M');
    assert("LastFrameUrl"@[0] == 'L');
    assert("ModelVersion"@[0] == 'M');
    assert("OutputConfig"@[0] == 'O');
}

/// The images of an image request are its files, by address or by content.
pub proof fn law_tencent_image_files(
    model: Seq<char>,
    body: Jv,
    nearest: Option<StandardRatio>,
    r: Jv,
    images: Seq<Jv>,
)
    requires
        r == tencent_image_body(model, body, nearest),
        body.member("FileInfos"@) is None,
        body.member("image"@) == Some(Jv::Arr(images)),
        images.len() > 0,
        all_addresses(images),
    ensures
        r.member("FileInfos"@) matches Some(Jv::Arr(files)) && files.len() == images.len() && (
        forall|i: int|
            0 <= i < images.len() ==> (#[trigger] files[i]) == file_entry(images[i]->Str_0)),
{
    reveal_strlit("EnhancePrompt");
    reveal_strlit("ExtInfo");
    reveal_strlit("FileInfos");
    reveal_strlit("LastFrameUrl");
    reveal_strlit("ModelName");
    reveal_strlit("ModelVersion");
    reveal_strlit("NegativePrompt");
    reveal_strlit("OutputConfig");
    reveal_strlit("Prompt");
    reveal_strlit("Seed");
    reveal_strlit("SubjectInfo");
    reveal_strlit("image");
    reveal_strlit("image_list");
    reveal_strlit("image_urls");
    assert("EnhancePrompt"@.len() == 13);
    assert("ExtInfo"@.len() == 7);
    assert("FileInfos"@.len() == 9);
    assert("LastFrameUrl"@.len() == 12);
    assert("ModelName"@.len() == 9);
    assert("ModelVersion"@.len() == 12);
    assert("NegativePrompt"@.len() == 14);
    assert("OutputConfig"@.len() == 12);
    assert("Prompt"@.len() == 6);
    assert("Seed"@.len() == 4);
    assert("SubjectInfo"@.len() == 11);
    assert("image"@.len() == 5);
    assert("image_list"@.len() == 10);
    assert("image_urls"@.len() == 10);
    assert("FileInfos"@[0] == 'F');
    assert("ModelName"@[0] == 'M');
    assert("LastFrameUrl"@[0] == 'L');
    assert("ModelVersion"@[0] == 'M');
    assert("OutputConfig"@[0] == 'O');
    assert("image_list"@[6] == 'l');
    assert("image_urls"@[6] == 'u');
    let fields = seq!["image"@, "image_urls"@, "image_list"@];
    assert(fields[0] == "image"@);
    lemma_media_first(body, fields);
    lemma_plain_addresses(images);
    let files = files_of(image_urls(body, fields))->Arr_0;
    assert forall|i: int| 0 <= i < images.len() implies (#[trigger] files[i]) == file_entry(
        images[i]->Str_0,
    ) by {
        assert(images[i] is Str);
    }
}

/// A file goes by its address where it is a web address, and by its content
/// where it is a data URI.
pub proof fn law_tencent_file(media: Seq<char>)
    requires
        media.len() > 0,
        trimmed(media) == media,
    ensures
        "http"@.is_prefix_of(media) ==> text_at(file_entry(media), "Type"@) == Some("Url"@)
            && text_at(file_entry(media), "Url"@) == Some(media),
        "data:"@.is_prefix_of(media) ==> text_at(file_entry(media), "Type"@) == Some("Base64"@)
            && text_at(file_entry(media), "Base64"@) == Some(base64_payload(media)),
{
    reveal_strlit("Base64");
    reveal_strlit("Category");
    reveal_strlit("Type");
    reveal_strlit("Url");
    reveal_strlit("Usage");
    reveal_strlit("data:");
    reveal_strlit("http");
    assert("Base64"@.len() == 6);
    assert("Category"@.len() == 8);
    assert("Type"@.len() == 4);
    assert("Url"@.len() == 3);
    assert("Usage"@.len() == 5);
    assert("data:"@.len() == 5);
    assert("http"@.len() == 4);
    assert("Type"@[0] == 'T');
    assert("http"@[0] == 'h');
    assert("Usage"@[0] == 'U');
    assert("data:"@[0] == 'd');
    assert("data:"@[0] == 'd');
    assert("http"@[0] == 'h');
    if "http"@.is_prefix_of(media) {
        assert(media[0] == 'h') by {
            assert(media.subrange(0, 4)[0] == "http"@[0]);
        }
        assert(!"data:"@.is_prefix_of(media)) by {
            if "data:"@.is_prefix_of(media) {
                assert(media.subrange(0, 5)[0] == "data:"@[0]);
            }
        }
    }
}

/// How an image is to come out: how many, how large, in which ratio and form,
/// with or without a mark.
pub proof fn law_tencent_image_output(body: Jv, nearest: Option<StandardRatio>, r: Jv)
    requires
        r == image_output(body, nearest),
    ensures
        int_at(r, "OutputImageCount"@) == int_at(body, "n"@),
        text_at(body, "resolution"@) matches Some(t) ==> text_at(r, "Resolution"@) == Some(
            capital_letters(t),
        ),
        text_at(body, "resolution"@) is None ==> text_at(r, "Resolution"@) == Some("1K"@),
        text_at(body, "ratio"@) is Some ==> text_at(r, "AspectRatio"@) == text_at(body, "ratio"@),
        text_at(body, "ratio"@) is None ==> (text_at(body, "size"@) matches Some(s) ==> text_at(
            r,
            "AspectRatio"@,
        ) == ratio_of(s, nearest)),
        text_at(r, "OutputFormat"@) == text_at(body, "output_format"@),
        body.member("watermark"@) is None ==> r.member("LogoAdd"@) is None,
        body.member("watermark"@) matches Some(w) ==> text_at(r, "LogoAdd"@) == Some(
            if w == Jv::Bool(true) || w == Jv::Str("true"@) {
                "Enabled"@
            } else {
                "Disabled"@
            },
        ),
{
    reveal_strlit("AspectRatio");
    reveal_strlit("LogoAdd");
    reveal_strlit("OutputFormat");
    reveal_strlit("OutputImageCount");
    reveal_strlit("Resolution");
    assert("AspectRatio"@.len() == 11);
    assert("LogoAdd"@.len() == 7);
    assert("OutputFormat"@.len() == 12);
    assert("OutputImageCount"@.len() == 16);
    assert("Resolution"@.len() == 10);
}

/// Whether the prompt is to be enhanced: as the request says in Tencent's
/// words, or by one of two switches.
pub proof fn law_tencent_enhance(
    model: Seq<char>,
    body: Jv,
    nearest: Option<StandardRatio>,
    r: Jv,
)
    requires
        r == tencent_image_body(model, body, nearest) || r == tencent_video_body(model, body),
    ensures
        text_at(body, "EnhancePrompt"@) is Some ==> text_at(r, "EnhancePrompt"@) == text_at(
            body,
            "EnhancePrompt"@,
        ),
        text_at(body, "EnhancePrompt"@) is None && body.member("prompt_extend"@) == Some(
            Jv::Bool(true),
        ) ==> text_at(r, "EnhancePrompt"@) == Some("Enabled"@),
        text_at(body, "EnhancePrompt"@) is None && body.member("prompt_extend"@) == Some(
            Jv::Bool(false),
        ) ==> text_at(r, "EnhancePrompt"@) == Some("Disabled"@),
        text_at(body, "EnhancePrompt"@) is None && body.member("prompt_extend"@) is None
            && body.member("enhance_prompt"@) == Some(Jv::Bool(true)) ==> text_at(
            r,
            "EnhancePrompt"@,
        ) == Some("Enabled"@),
        text_at(body, "EnhancePrompt"@) is None && body.member("prompt_extend"@) is None
            && body.member("enhance_prompt"@) == Some(Jv::Bool(false)) ==> text_at(
            r,
            "EnhancePrompt"@,
        ) == Some("Disabled"@),
        text_at(body, "EnhancePrompt"@) is None && body.member("prompt_extend"@) is None
            && body.member("enhance_prompt"@) is None ==> r.member("EnhancePrompt"@) is None,
{
    reveal_strlit("EnhancePrompt");
    reveal_strlit("ExtInfo");
    reveal_strlit("FileInfos");
    reveal_strlit("LastFrameUrl");
    reveal_strlit("ModelName");
    reveal_strlit("ModelVersion");
    reveal_strlit("NegativePrompt");
    reveal_strlit("OutputConfig");
    reveal_strlit("Prompt");
    reveal_strlit("Seed");
    reveal_strlit("SubjectInfo");
    assert("EnhancePrompt"@.len() == 13);
    assert("ExtInfo"@.len() == 7);
    assert("FileInfos"@.len() == 9);
    assert("LastFrameUrl"@.len() == 12);
    assert("ModelName"@.len() == 9);
    assert("ModelVersion"@.len() == 12);
    assert("NegativePrompt"@.len() == 14);
    assert("OutputConfig"@.len() == 12);
    assert("Prompt"@.len() == 6);
    assert("Seed"@.len() == 4);
    assert("SubjectInfo"@.len() == 11);
    assert("FileInfos"@[0] == 'F');
    assert("ModelName"@[0] == 'M');
    assert("LastFrameUrl"@[0] == 'L');
    assert("ModelVersion"@[0] == 'M');
    assert("OutputConfig"@[0] == 'O');
}

// ---------------------------------------------------------------- video

/// The members of a video request that go on as they came, under Tencent's
/// names.
pub proof fn law_tencent_video(model: Seq<char>, body: Jv, r: Jv)
    requires
        r == tencent_video_body(model, body),
    ensures
        text_at(body, "negative_prompt"@) is Some ==> text_at(r, "NegativePrompt"@) == text_at(
            body,
            "negative_prompt"@,
        ),
        body.member("negative_prompt"@) is None ==> text_at(r, "NegativePrompt"@) == text_at(
            body,
            "NegativePrompt"@,
        ),
        body.member("seed"@) is Some ==> r.member("Seed"@) == body.member("seed"@),
        body.member("seed"@) is None ==> r.member("Seed"@) == body.member("Seed"@),
        body.member("SubjectInfo"@) is Some ==> r.member("SubjectInfo"@) == body.member(
            "SubjectInfo"@,
        ),
        body.member("SubjectInfo"@) is None ==> r.member("SubjectInfo"@) == body.member(
            "subject_info"@,
        ),
        r.member("ExtInfo"@) == body.member("ExtInfo"@),
        body.member("LastFrameUrl"@) is Some ==> r.member("LastFrameUrl"@) == body.member(
            "LastFrameUrl"@,
        ),
        body.member("FileInfos"@) is Some ==> r.member("FileInfos"@) == body.member("FileInfos"@),
        body.member("OutputConfig"@) is Some ==> r.member("OutputConfig"@) == body.member(
            "OutputConfig"@,
        ),
        body.member("OutputConfig"@) is None ==> r.member("OutputConfig"@) == Some(
            video_output(body),
        ),
{
    reveal_strlit("EnhancePrompt");
    reveal_strlit("ExtInfo");
    reveal_strlit("FileInfos");
    reveal_strlit("LastFrameUrl");
    reveal_strlit("ModelName");
    reveal_strlit("ModelVersion");
    reveal_strlit("NegativePrompt");
    reveal_strlit("OutputConfig");
    reveal_strlit("Prompt");
    reveal_strlit("Seed");
    reveal_strlit("SubjectInfo");
    assert("EnhancePrompt"@.len() == 13);
    assert("ExtInfo"@.len() == 7);
    assert("FileInfos"@.len() == 9);
    assert("LastFrameUrl"@.len() == 12);
    assert("ModelName"@.len() == 9);
    assert("ModelVersion"@.len() == 12);
    assert("NegativePrompt"@.len() == 14);
    assert("OutputConfig"@.len() == 12);
    assert("Prompt"@.len() == 6);
    assert("Seed"@.len() == 4);
    assert("SubjectInfo"@.len() == 11);
    assert("FileInfos"@[0] == 'F');
    assert("ModelName"@[0] == 'M');
    assert("LastFrameUrl"@[0] == 'L');
    assert("ModelVersion"@[0] == 'M');
    assert("OutputConfig"@[0] == 'O');
    let a = with_text(
        model_head(model),
        "NegativePrompt"@,
        text_in(or_member(body.member("negative_prompt"@), body, "NegativePrompt"@)),
    );
    lemma_media_frame(a, body, "NegativePrompt"@);
    lemma_media_frame(a, body, "Seed"@);
    lemma_media_frame(a, body, "SubjectInfo"@);
    lemma_media_frame(a, body, "ExtInfo"@);
    lemma_after_media(with_video_media(a, body), body);
}

/// A video setting: under the settings, or else at the top.
pub open spec fn video_setting(body: Jv, key: Seq<char>) -> Option<Jv> {
    match body.at("settings"@).member(key) {
        Some(v) => Some(v),
        None => body.member(key),
    }
}

/// How a video is to come out: ratio, duration, resolution, sound, mark and
/// whether it may wait.
pub proof fn law_tencent_video_output(body: Jv, r: Jv)
    requires
        r == video_output(body),
    ensures
        video_setting(body, "aspect_ratio"@) matches Some(Jv::Str(t)) ==> text_at(r, "AspectRatio"@)
            == Some(t),
        video_setting(body, "aspect_ratio"@) is None ==> text_at(r, "AspectRatio"@) == text_at(
            body,
            "ratio"@,
        ),
        video_setting(body, "duration"@) matches Some(d) ==> r.member("Duration"@) == as_float(d),
        video_setting(body, "duration"@) is None ==> r.member("Duration"@) is None,
        text_at(body, "OffPeak"@) is Some ==> text_at(r, "OffPeak"@) == text_at(body, "OffPeak"@),
        text_at(body, "OffPeak"@) is None && text_at(body, "service_tier"@) == Some("flex"@)
            ==> text_at(r, "OffPeak"@) == Some("Enabled"@),
        text_at(body, "OffPeak"@) is None && text_at(body, "service_tier"@) != Some("flex"@)
            ==> r.member("OffPeak"@) is None,
        body.member("watermark"@) is None ==> r.member("LogoAdd"@) is None,
        body.member("watermark"@) matches Some(w) ==> text_at(r, "LogoAdd"@) == Some(
            if w == Jv::Bool(true) || w == Jv::Str("true"@) {
                "Enabled"@
            } else {
                "Disabled"@
            },
        ),
        body.member("generate_audio"@) matches Some(w) ==> text_at(r, "AudioGeneration"@) == Some(
            if w == Jv::Bool(true) || w == Jv::Str("true"@) {
                "Enabled"@
            } else {
                "Disabled"@
            },
        ),
        body.member("generate_audio"@) is None ==> (video_setting(body, "audio"@) matches Some(
            Jv::Str(t),
        ) ==> text_at(r, "AudioGeneration"@) == Some(
            if ascii_small(t) == "off"@ || ascii_small(t) == "false"@ {
                "Disabled"@
            } else {
                "Enabled"@
            },
        )),
        video_setting(body, "resolution"@) matches Some(Jv::Str(t)) ==> text_at(r, "Resolution"@)
            == Some(capital_letters(t)),
        video_setting(body, "resolution"@) is None && text_at(body, "mode"@) == Some("std"@)
            ==> text_at(r, "Resolution"@) == Some("720P"@),
        video_setting(body, "resolution"@) is None && text_at(body, "mode"@) == Some("pro"@)
            ==> text_at(r, "Resolution"@) == Some("1080P"@),
        video_setting(body, "resolution"@) is None && text_at(body, "mode"@) is None ==> text_at(
            r,
            "Resolution"@,
        ) == Some("720P"@),
        text_at(r, "InputComplianceCheck"@) == Some("Disabled"@),
        text_at(r, "OutputComplianceCheck"@) == Some("Disabled"@),
{
    reveal_strlit("AspectRatio");
    reveal_strlit("AudioGeneration");
    reveal_strlit("Duration");
    reveal_strlit("InputComplianceCheck");
    reveal_strlit("LogoAdd");
    reveal_strlit("OffPeak");
    reveal_strlit("OutputComplianceCheck");
    reveal_strlit("Resolution");
    reveal_strlit("pro");
    reveal_strlit("std");
    assert("AspectRatio"@.len() == 11);
    assert("AudioGeneration"@.len() == 15);
    assert("Duration"@.len() == 8);
    assert("InputComplianceCheck"@.len() == 20);
    assert("LogoAdd"@.len() == 7);
    assert("OffPeak"@.len() == 7);
    assert("OutputComplianceCheck"@.len() == 21);
    assert("Resolution"@.len() == 10);
    assert("pro"@.len() == 3);
    assert("std"@.len() == 3);
    assert("LogoAdd"@[0] == 'L');
    assert("OffPeak"@[0] == 'O');
    assert("pro"@[0] == 'p');
    assert("std"@[0] == 's');
}

/// A sound that a video request names by another word is made where that word
/// is `on`.
pub proof fn law_tencent_video_sound(body: Jv, r: Jv)
    requires
        r == video_output(body),
        body.member("generate_audio"@) is None,
        video_setting(body, "audio"@) is None,
    ensures
        text_at(body, "sound"@) == Some("on"@) ==> text_at(r, "AudioGeneration"@) == Some(
            "Enabled"@,
        ),
        text_at(body, "sound"@) == Some("off"@) ==> text_at(r, "AudioGeneration"@) == Some(
            "Disabled"@,
        ),
        body.member("sound"@) is None ==> r.member("AudioGeneration"@) is None,
{
    reveal_strlit("AspectRatio");
    reveal_strlit("AudioGeneration");
    reveal_strlit("Duration");
    reveal_strlit("InputComplianceCheck");
    reveal_strlit("LogoAdd");
    reveal_strlit("OffPeak");
    reveal_strlit("OutputComplianceCheck");
    reveal_strlit("Resolution");
    reveal_strlit("off");
    reveal_strlit("on");
    assert("AspectRatio"@.len() == 11);
    assert("AudioGeneration"@.len() == 15);
    assert("Duration"@.len() == 8);
    assert("InputComplianceCheck"@.len() == 20);
    assert("LogoAdd"@.len() == 7);
    assert("OffPeak"@.len() == 7);
    assert("OutputComplianceCheck"@.len() == 21);
    assert("Resolution"@.len() == 10);
    assert("off"@.len() == 3);
    assert("on"@.len() == 2);
    assert("LogoAdd"@[0] == 'L');
    assert("OffPeak"@[0] == 'O');
    assert(ascii_small("on"@).len() == 2);
    assert(ascii_small("off"@).len() == 3);
}

proof fn lemma_no_contents(body: Jv)
    requires
        body.member("contents"@) is None,
    ensures
        items_in(body.member("contents"@)) == Seq::<Jv>::empty(),
        !has_video_content(items_in(body.member("contents"@))),
        forall|src: SourceModel|
            #[trigger] take_contents(src, items_in(body.member("contents"@))) == src,
{
}

proof fn lemma_no_videos(body: Jv)
    requires
        body.member("video_url"@) is None,
        body.member("videos"@) is None,
        body.member("video_list"@) is None,
        body.member("contents"@) is None,
    ensures
        video_source(body) == (SourceModel {
            prompt: top_prompt(body),
            images: top_images(body, false),
            videos: Seq::empty(),
        }),
{
    lemma_no_contents(body);
    lemma_nothing_listed(body, "video_url"@);
    lemma_nothing_listed(body, "videos"@);
    lemma_nothing_listed(body, "video_list"@);
    let none = Seq::<Seq<char>>::empty();
    assert(image_urls(body, seq!["video_url"@]) =~= none);
    assert(image_urls(body, seq!["videos"@]) =~= none);
    assert(image_urls(body, seq!["video_list"@]) =~= none);
    assert(push_all(none, none) =~= none);
}

/// The first and the last image of a video request by name: the first is a
/// file for the first frame, the last is the address of the last frame.
pub proof fn law_tencent_named_frames(
    model: Seq<char>,
    body: Jv,
    r: Jv,
    first: Seq<char>,
    last: Seq<char>,
)
    requires
        r == tencent_video_body(model, body),
        body.member("FileInfos"@) is None,
        body.member("LastFrameUrl"@) is None,
        text_at(body, "image"@) == Some(first),
        text_at(body, "image_tail"@) == Some(last),
        first.len() > 0 && last.len() > 0 && first != last,
        !is_base64(last, 1),
        body.member("image_list"@) is None,
        body.member("images"@) is None,
        body.member("image_urls"@) is None,
        body.member("video_url"@) is None,
        body.member("videos"@) is None,
        body.member("video_list"@) is None,
        body.member("contents"@) is None,
    ensures
        text_at(r, "LastFrameUrl"@) == Some(last),
        r.member("FileInfos"@) matches Some(Jv::Arr(files)) && files.len() == 1 && files[0]
            == file_entry(first).with("Usage"@, Jv::Str("FirstFrame"@)),
{
    reveal_strlit("EnhancePrompt");
    reveal_strlit("ExtInfo");
    reveal_strlit("FileInfos");
    reveal_strlit("FirstFrame");
    reveal_strlit("LastFrame");
    reveal_strlit("LastFrameUrl");
    reveal_strlit("ModelName");
    reveal_strlit("ModelVersion");
    reveal_strlit("NegativePrompt");
    reveal_strlit("OutputConfig");
    reveal_strlit("Prompt");
    reveal_strlit("Reference");
    reveal_strlit("Seed");
    reveal_strlit("SubjectInfo");
    reveal_strlit("first_frame");
    reveal_strlit("last_frame");
    reveal_strlit("reference_image");
    assert("EnhancePrompt"@.len() == 13);
    assert("ExtInfo"@.len() == 7);
    assert("FileInfos"@.len() == 9);
    assert("FirstFrame"@.len() == 10);
    assert("LastFrame"@.len() == 9);
    assert("LastFrameUrl"@.len() == 12);
    assert("ModelName"@.len() == 9);
    assert("ModelVersion"@.len() == 12);
    assert("NegativePrompt"@.len() == 14);
    assert("OutputConfig"@.len() == 12);
    assert("Prompt"@.len() == 6);
    assert("Reference"@.len() == 9);
    assert("Seed"@.len() == 4);
    assert("SubjectInfo"@.len() == 11);
    assert("first_frame"@.len() == 11);
    assert("last_frame"@.len() == 10);
    assert("reference_image"@.len() == 15);
    assert("FileInfos"@[0] == 'F');
    assert("LastFrame"@[0] == 'L');
    assert("ModelName"@[0] == 'M');
    assert("Reference"@[0] == 'R');
    assert("FirstFrame"@[0] == 'F');
    assert("last_frame"@[0] == 'l');
    assert("LastFrameUrl"@[0] == 'L');
    assert("ModelVersion"@[0] == 'M');
    assert("OutputConfig"@[0] == 'O');
    assert("SubjectInfo"@[0] == 'S');
    assert("first_frame"@[0] == 'f');
    lemma_no_videos(body);
    let fields = seq!["image_list"@, "images"@, "image_urls"@];
    lemma_three_fields(body);
    let a = Seq::<(Seq<char>, Seq<char>)>::empty().push((first, "first_frame"@));
    let b = a.push((last, "last_frame"@));
    assert(push_image(Seq::empty(), first, "first_frame"@) =~= a);
    assert(!has_image(a, last));
    assert(push_image(a, last, "last_frame"@) =~= b);
    let nothing = placed(media_values(body, fields), None, false);
    assert(nothing =~= Seq::<(Seq<char>, Seq<char>)>::empty());
    assert(top_images(body, false) =~= b);
    reveal_with_fuel(image_files, 4);
    assert(b[0] == (first, "first_frame"@));
    assert(b[1] == (last, "last_frame"@));
    let files = Seq::<Jv>::empty().push(
        file_entry(first).with("Usage"@, Jv::Str("FirstFrame"@)),
    );
    assert(image_files(b, 1, false) == (files, None::<Seq<char>>));
    assert(image_files(b, 2, false) == (files, Some(last)));
    assert(video_files(Seq::empty()) =~= Seq::<Jv>::empty());
    assert(files + video_files(Seq::empty()) =~= files);
}

proof fn lemma_three_fields(body: Jv)
    requires
        body.member("image_list"@) is None,
        body.member("images"@) is None,
        body.member("image_urls"@) is None,
    ensures
        media_values(body, seq!["image_list"@, "images"@, "image_urls"@]) == Seq::<Jv>::empty(),
{
    let fields = seq!["image_list"@, "images"@, "image_urls"@];
    assert(fields[0] == "image_list"@);
    lemma_media_first(body, fields);
    let two = fields.drop_first();
    assert(two =~= seq!["images"@, "image_urls"@]);
    assert(two[0] == "images"@);
    lemma_media_first(body, two);
    assert(two.drop_first() =~= seq!["image_urls"@]);
    lemma_nothing_listed(body, "image_urls"@);
}

/// A last frame that is data goes to the files, with what it is used for.
pub proof fn law_tencent_last_frame_data(url: Seq<char>, first: Seq<char>)
    requires
        url.len() > 0,
    ensures
        ({
            let images = seq![(first, "first_frame"@), (url, "last_frame"@)];
            let files = file_infos(images, Seq::empty());
            &&& is_base64(url, 1) ==> files.1 is None && files.0.len() == 2 && files.0[1]
                == file_entry(url).with("Usage"@, Jv::Str("LastFrame"@))
            &&& !is_base64(url, 1) ==> files.1 == Some(url) && files.0.len() == 1
            &&& files.0[0] == file_entry(first).with("Usage"@, Jv::Str("FirstFrame"@))
        }),
{
    reveal_strlit("FirstFrame");
    reveal_strlit("LastFrame");
    reveal_strlit("Reference");
    reveal_strlit("first_frame");
    reveal_strlit("last_frame");
    reveal_strlit("reference_image");
    assert("FirstFrame"@.len() == 10);
    assert("LastFrame"@.len() == 9);
    assert("Reference"@.len() == 9);
    assert("first_frame"@.len() == 11);
    assert("last_frame"@.len() == 10);
    assert("reference_image"@.len() == 15);
    assert("FirstFrame"@[0] == 'F');
    assert("last_frame"@[0] == 'l');
    assert("LastFrame"@[0] == 'L');
    assert("Reference"@[0] == 'R');
    let images = seq![(first, "first_frame"@), (url, "last_frame"@)];
    reveal_with_fuel(image_files, 4);
    let files = Seq::<Jv>::empty().push(
        file_entry(first).with("Usage"@, Jv::Str("FirstFrame"@)),
    );
    assert(image_files(images, 1, false) == (files, None::<Seq<char>>));
    assert(image_files(images, 2, false) == (files, Some(url)));
    assert(video_files(Seq::empty()) =~= Seq::<Jv>::empty());
    assert(files + video_files(Seq::empty()) =~= files);
}

/// A video of a video request is a file for reference.
pub proof fn law_tencent_clip(model: Seq<char>, body: Jv, r: Jv, url: Seq<char>)
    requires
        r == tencent_video_body(model, body),
        body.member("FileInfos"@) is None,
        body.member("video_url"@) == Some(Jv::Str(url)),
        url.len() > 0,
        body.member("videos"@) is None,
        body.member("video_list"@) is None,
        body.member("image"@) is None,
        body.member("image_tail"@) is None,
        body.member("image_list"@) is None,
        body.member("images"@) is None,
        body.member("image_urls"@) is None,
        body.member("contents"@) is None,
    ensures
        r.member("FileInfos"@) matches Some(Jv::Arr(files)) && files.len() == 1 && files[0]
            == file_entry(url).with("Category"@, Jv::Str("Video"@)).with(
            "Usage"@,
            Jv::Str("Reference"@),
        ),
{
    reveal_strlit("EnhancePrompt");
    reveal_strlit("ExtInfo");
    reveal_strlit("FileInfos");
    reveal_strlit("LastFrameUrl");
    reveal_strlit("ModelName");
    reveal_strlit("ModelVersion");
    reveal_strlit("NegativePrompt");
    reveal_strlit("OutputConfig");
    reveal_strlit("Prompt");
    reveal_strlit("Seed");
    reveal_strlit("SubjectInfo");
    assert("EnhancePrompt"@.len() == 13);
    assert("ExtInfo"@.len() == 7);
    assert("FileInfos"@.len() == 9);
    assert("LastFrameUrl"@.len() == 12);
    assert("ModelName"@.len() == 9);
    assert("ModelVersion"@.len() == 12);
    assert("NegativePrompt"@.len() == 14);
    assert("OutputConfig"@.len() == 12);
    assert("Prompt"@.len() == 6);
    assert("Seed"@.len() == 4);
    assert("SubjectInfo"@.len() == 11);
    assert("FileInfos"@[0] == 'F');
    assert("ModelName"@[0] == 'M');
    assert("LastFrameUrl"@[0] == 'L');
    assert("ModelVersion"@[0] == 'M');
    assert("OutputConfig"@[0] == 'O');
    lemma_no_contents(body);
    lemma_three_fields(body);
    let one = seq![Jv::Str(url)];
    let fields = seq!["video_url"@];
    assert(fields[0] == "video_url"@);
    lemma_media_first(body, fields);
    assert(media_values(body, fields) =~= one);
    lemma_plain_addresses(one);
    let urls = seq![url];
    assert(image_urls(body, fields) =~= urls);
    let none = Seq::<Seq<char>>::empty();
    lemma_nothing_listed(body, "videos"@);
    lemma_nothing_listed(body, "video_list"@);
    assert(image_urls(body, seq!["videos"@]) =~= none);
    assert(image_urls(body, seq!["video_list"@]) =~= none);
    reveal_with_fuel(push_all, 3);
    assert(urls.drop_last() =~= none);
    assert(push_all(none, urls) =~= urls);
    assert(push_all(urls, none) =~= urls);
    let nothing = placed(Seq::<Jv>::empty(), Some("reference_image"@), false);
    assert(nothing =~= Seq::<(Seq<char>, Seq<char>)>::empty());
    assert(top_images(body, true) =~= Seq::<(Seq<char>, Seq<char>)>::empty());
    assert(video_source(body).videos =~= urls);
    assert(video_source(body).images =~= Seq::<(Seq<char>, Seq<char>)>::empty());
    assert(image_files(video_source(body).images, 0, true) == (
        Seq::<Jv>::empty(),
        None::<Seq<char>>,
    ));
    let files = Seq::<Jv>::empty() + video_files(urls);
    assert(files =~= video_files(urls));
    assert(files.len() == 1);
}

/// The prompt of a video request is at its top, without the white space around
/// it.
pub proof fn law_tencent_prompt(model: Seq<char>, body: Jv, r: Jv, prompt: Seq<char>)
    requires
        r == tencent_video_body(model, body),
        text_at(body, "prompt"@) == Some(prompt) || (body.member("prompt"@) is None && text_at(
            body,
            "Prompt"@,
        ) == Some(prompt)),
        trimmed(prompt).len() > 0,
    ensures
        text_at(r, "Prompt"@) == Some(trimmed(prompt)),
{
    reveal_strlit("EnhancePrompt");
    reveal_strlit("ExtInfo");
    reveal_strlit("FileInfos");
    reveal_strlit("LastFrameUrl");
    reveal_strlit("ModelName");
    reveal_strlit("ModelVersion");
    reveal_strlit("NegativePrompt");
    reveal_strlit("OutputConfig");
    reveal_strlit("Prompt");
    reveal_strlit("Seed");
    reveal_strlit("SubjectInfo");
    assert("EnhancePrompt"@.len() == 13);
    assert("ExtInfo"@.len() == 7);
    assert("FileInfos"@.len() == 9);
    assert("LastFrameUrl"@.len() == 12);
    assert("ModelName"@.len() == 9);
    assert("ModelVersion"@.len() == 12);
    assert("NegativePrompt"@.len() == 14);
    assert("OutputConfig"@.len() == 12);
    assert("Prompt"@.len() == 6);
    assert("Seed"@.len() == 4);
    assert("SubjectInfo"@.len() == 11);
    assert("FileInfos"@[0] == 'F');
    assert("ModelName"@[0] == 'M');
    assert("LastFrameUrl"@[0] == 'L');
    assert("ModelVersion"@[0] == 'M');
    assert("OutputConfig"@[0] == 'O');
    if body.member("FileInfos"@) is None {
        lemma_prompt_stays(
            video_source_top(body),
            items_in(body.member("contents"@)),
        );
    }
}

/// What stands at the top of a video request.
spec fn video_source_top(body: Jv) -> SourceModel {
    let videos = push_all(
        push_all(
            push_all(Seq::empty(), image_urls(body, seq!["video_url"@])),
            image_urls(body, seq!["videos"@]),
        ),
        image_urls(body, seq!["video_list"@]),
    );
    let has_video = videos.len() > 0 || has_video_content(items_in(body.member("contents"@)));
    SourceModel { prompt: top_prompt(body), images: top_images(body, has_video), videos }
}

proof fn lemma_prompt_stays(src: SourceModel, items: Seq<Jv>)
    requires
        src.prompt is Some,
    ensures
        take_contents(src, items).prompt == src.prompt,
    decreases items.len(),
{
    if items.len() > 0 {
        lemma_prompt_stays(src, items.drop_last());
    }
}

/// Without a prompt at its top, a request with files of its own has the first
/// prompt of its contents, without the white space around it.
pub proof fn law_tencent_content_prompt(
    model: Seq<char>,
    body: Jv,
    r: Jv,
    item: Jv,
    more: Seq<Jv>,
    prompt: Seq<char>,
)
    requires
        r == tencent_video_body(model, body),
        body.member("FileInfos"@) is Some,
        body.member("prompt"@) is None,
        body.member("Prompt"@) is None,
        body.member("contents"@) == Some(Jv::Arr(seq![item] + more)),
        text_at(item, "type"@) == Some("prompt"@),
        text_at(item, "text"@) == Some(prompt),
        trimmed(prompt).len() > 0,
    ensures
        text_at(r, "Prompt"@) == Some(trimmed(prompt)),
{
    reveal_strlit("EnhancePrompt");
    reveal_strlit("ExtInfo");
    reveal_strlit("FileInfos");
    reveal_strlit("LastFrameUrl");
    reveal_strlit("ModelName");
    reveal_strlit("ModelVersion");
    reveal_strlit("NegativePrompt");
    reveal_strlit("OutputConfig");
    reveal_strlit("Prompt");
    reveal_strlit("Seed");
    reveal_strlit("SubjectInfo");
    assert("EnhancePrompt"@.len() == 13);
    assert("ExtInfo"@.len() == 7);
    assert("FileInfos"@.len() == 9);
    assert("LastFrameUrl"@.len() == 12);
    assert("ModelName"@.len() == 9);
    assert("ModelVersion"@.len() == 12);
    assert("NegativePrompt"@.len() == 14);
    assert("OutputConfig"@.len() == 12);
    assert("Prompt"@.len() == 6);
    assert("Seed"@.len() == 4);
    assert("SubjectInfo"@.len() == 11);
    assert("FileInfos"@[0] == 'F');
    assert("ModelName"@[0] == 'M');
    assert("LastFrameUrl"@[0] == 'L');
    assert("ModelVersion"@[0] == 'M');
    assert("OutputConfig"@[0] == 'O');
    let items = seq![item] + more;
    assert(items[0] == item);
    let a = with_text(
        model_head(model),
        "NegativePrompt"@,
        text_in(or_member(body.member("negative_prompt"@), body, "NegativePrompt"@)),
    );
    lemma_after_media(with_video_media(a, body), body);
}

/// A prompt in the contents counts where it is the first.
pub proof fn law_tencent_first_prompt(item: Jv, more: Seq<Jv>, t: Seq<char>)
    ensures
        text_at(item, "type"@) == Some("prompt"@) && text_at(item, "text"@) == Some(t) && trimmed(
            t,
        ).len() > 0 ==> first_prompt(seq![item] + more) == Some(trimmed(t)),
        text_at(item, "type"@) != Some("prompt"@) ==> first_prompt(seq![item] + more)
            == first_prompt(more),
        first_prompt(Seq::empty()) is None,
{
    assert((seq![item] + more).drop_first() =~= more);
}

/// The contents of a video request: the first prompt counts where there is
/// none yet, a frame or a reference is an image with that role, and a video is
/// a video; an address that is there already is not taken twice.
pub proof fn law_tencent_content(src: SourceModel, item: Jv, url: Seq<char>, s: SourceModel)
    requires
        text_at(item, "url"@) == Some(url),
        url.len() > 0,
        !has_image(src.images, url),
        !src.videos.contains(url),
        s == take_content(src, item),
    ensures
        s.prompt == src.prompt || text_at(item, "type"@) == Some("prompt"@),
        text_at(item, "type"@) == Some("first_frame"@) ==> s.videos == src.videos && s.images
            == src.images.push((url, "first_frame"@)),
        text_at(item, "type"@) == Some("last_frame"@) ==> s.videos == src.videos && s.images
            == src.images.push((url, "last_frame"@)),
        text_at(item, "type"@) == Some("refer_image"@) ==> s.videos == src.videos && s.images
            == src.images.push((url, "reference_image"@)),
        text_at(item, "type"@) == Some("base_video"@) || text_at(item, "type"@) == Some(
            "feature_video"@,
        ) ==> s.images == src.images && s.videos == src.videos.push(url),
        take_content(s, item) == s,
{
    reveal_strlit("");
    reveal_strlit("base_video");
    reveal_strlit("feature_video");
    reveal_strlit("first_frame");
    reveal_strlit("last_frame");
    reveal_strlit("prompt");
    reveal_strlit("refer_image");
    assert(""@.len() == 0);
    assert("base_video"@.len() == 10);
    assert("feature_video"@.len() == 13);
    assert("first_frame"@.len() == 11);
    assert("last_frame"@.len() == 10);
    assert("prompt"@.len() == 6);
    assert("refer_image"@.len() == 11);
    assert("base_video"@[0] == 'b');
    assert("last_frame"@[0] == 'l');
    assert("first_frame"@[0] == 'f');
    assert("refer_image"@[0] == 'r');
    if s.images != src.images {
        assert(s.images[s.images.len() - 1].0 == url);
        assert(has_image(s.images, url));
    }
    if s.videos != src.videos {
        assert(s.videos[s.videos.len() - 1] == url);
        assert(s.videos.contains(url));
    }
}

/// What an image is used for follows its role; without one, one image is the
/// first frame, two are the first and the last, and more are references, as is
/// every image beside a video.
pub proof fn law_tencent_usage(role: Seq<char>, i: int, count: int, has_video: bool)
    requires
        0 <= i < count,
    ensures
        image_usage("first_frame"@, i, count, has_video) == "FirstFrame"@,
        image_usage("last_frame"@, i, count, has_video) == "LastFrame"@,
        image_usage("reference_image"@, i, count, has_video) == "Reference"@,
        role != "first_frame"@ && role != "last_frame"@ && (has_video || count > 2) ==> image_usage(
            role,
            i,
            count,
            has_video,
        ) == "Reference"@,
        role != "first_frame"@ && role != "last_frame"@ && role != "reference_image"@ && !has_video
            && count <= 2 ==> image_usage(role, i, count, has_video) == if i == 0 {
            "FirstFrame"@
        } else {
            "LastFrame"@
        },
{
    reveal_strlit("first_frame");
    reveal_strlit("last_frame");
    reveal_strlit("reference_image");
    assert("first_frame"@.len() == 11);
    assert("last_frame"@.len() == 10);
    assert("reference_image"@.len() == 15);
}

/// The role of a listed image: the first and the last frame by their names,
/// anything else is a reference.
pub proof fn law_tencent_listed_role(role: Seq<char>)
    ensures
        list_image_role("first_frame"@) == "first_frame"@,
        list_image_role("last_frame"@) == "last_frame"@,
        list_image_role("end_frame"@) == "last_frame"@,
        role != "first_frame"@ && role != "last_frame"@ && role != "end_frame"@ ==> list_image_role(
            role,
        ) == "reference_image"@,
{
    reveal_strlit("end_frame");
    reveal_strlit("first_frame");
    reveal_strlit("last_frame");
    assert("end_frame"@.len() == 9);
    assert("first_frame"@.len() == 11);
    assert("last_frame"@.len() == 10);
}

} // verus!
