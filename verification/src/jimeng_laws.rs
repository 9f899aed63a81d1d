//! What holds of the bodies for Jimeng, Bytefor and the enhancement tools.
use vstd::prelude::*;
use vstd::string::*;
use crate::jimeng::{
    bytefor_dropped, bytefor_media, bytefor_video_body, enhance_keys, jimeng_head,
    jimeng_image_body, jimeng_video_body, media_enhance_body, pixel_sides, tool_version,
    with_pixel_sides, without_all,
};
use crate::json::{lemma_carry_all, no_members, text_array, text_at, with_text, Jv};
use crate::media::{
    all_addresses, base64_payload, image_urls, is_base64, lemma_listed_here, lemma_media_first,
    lemma_nothing_listed, lemma_plain_addresses, plain_addresses,
};
use crate::ratio::parted_by;
use crate::text::{capital_letters, law_decimal_round_trip, shown, small_letters, trimmed};
use crate::text_laws::{law_not_parted, law_parted, law_shown_plain};

verus! {

/// What is left of an object without several members.
proof fn lemma_without_all(v: Jv, keys: Seq<Seq<char>>, key: Seq<char>)
    requires
        v is Obj,
    ensures
        without_all(v, keys) is Obj,
        without_all(v, keys).member(key) == if keys.contains(key) {
            None
        } else {
            v.member(key)
        },
    decreases keys.len(),
{
    if keys.len() > 0 {
        let t = keys.drop_last();
        lemma_without_all(v, t, key);
        if keys.contains(key) {
            let i = choose|i: int| 0 <= i < keys.len() && keys[i] == key;
            assert(i < t.len() ==> t[i] == key);
        }
        if t.contains(key) {
            let i = choose|i: int| 0 <= i < t.len() && t[i] == key;
            assert(keys[i] == key);
        }
        assert(keys[keys.len() - 1] == keys.last());
    }
}

/// What is left of any object without several members.
proof fn lemma_left(keys: Seq<Seq<char>>)
    ensures
        forall|v: Jv, key: Seq<char>|
            v is Obj ==> (#[trigger] without_all(v, keys).member(key)) == if keys.contains(key) {
                None
            } else {
                v.member(key)
            },
{
    assert forall|v: Jv, key: Seq<char>| v is Obj implies (#[trigger] without_all(
        v,
        keys,
    ).member(key)) == if keys.contains(key) {
        None
    } else {
        v.member(key)
    } by {
        lemma_without_all(v, keys, key);
    }
}

/// The addresses under a field that lists nothing but addresses.
proof fn lemma_addresses_under(body: Jv, field: Seq<char>, items: Seq<Jv>)
    requires
        body.member(field) == Some(Jv::Arr(items)),
        items.len() > 0,
        all_addresses(items),
    ensures
        image_urls(body, seq![field]) == plain_addresses(items),
        text_array(plain_addresses(items)) == Jv::Arr(items),
{
    lemma_listed_here(body, field, items);
    lemma_plain_addresses(items);
    let t = text_array(plain_addresses(items))->Arr_0;
    assert forall|i: int| 0 <= i < items.len() implies t[i] == items[i] by {
        assert(items[i] is Str);
    }
    assert(t =~= items);
}

/// No addresses stand under a field that is absent.
proof fn lemma_no_addresses(body: Jv, field: Seq<char>)
    requires
        body.member(field) is None,
    ensures
        image_urls(body, seq![field]) == Seq::<Seq<char>>::empty(),
{
    lemma_nothing_listed(body, field);
    assert(image_urls(body, seq![field]) =~= Seq::<Seq<char>>::empty());
}

/// A size names its two sides, with any of the signs between them.
pub proof fn law_pixel_sides(w: int, h: int, c: char)
    requires
        i64::MIN <= w <= i64::MAX,
        i64::MIN <= h <= i64::MAX,
        c == 'x' || c == 'X' || c == '×' || c == '*',
    ensures
        pixel_sides(shown(w) + seq![c] + shown(h)) == Some((w, h)),
{
    reveal_strlit("x");
    reveal_strlit("X");
    reveal_strlit("×");
    reveal_strlit("*");
    let s = shown(w) + seq![c] + shown(h);
    assert("x"@ =~= seq!['x']);
    assert("X"@ =~= seq!['X']);
    assert("×"@ =~= seq!['×']);
    assert("*"@ =~= seq!['*']);
    law_shown_plain(w, 'x');
    law_shown_plain(w, 'X');
    law_shown_plain(w, '×');
    law_shown_plain(w, '*');
    law_shown_plain(h, 'x');
    law_shown_plain(h, 'X');
    law_shown_plain(h, '×');
    law_shown_plain(h, '*');
    law_decimal_round_trip(w, i64::MIN as int, i64::MAX as int);
    law_decimal_round_trip(h, i64::MIN as int, i64::MAX as int);
    law_parted(shown(w), c, shown(h));
    assert forall|d: char| d != c && (d == 'x' || d == 'X' || d == '×' || d == '*') implies !(
    #[trigger] s.contains(d)) by {
        if s.contains(d) {
            let i = choose|i: int| 0 <= i < s.len() && s[i] == d;
            if i < shown(w).len() {
                assert(shown(w)[i] == d);
            } else if i > shown(w).len() {
                assert(shown(h)[i - shown(w).len() - 1] == d);
            }
        }
    }
    let all = seq!["x"@, "X"@, "×"@, "*"@];
    assert(all.drop_first() =~= seq!["X"@, "×"@, "*"@]);
    assert(seq!["X"@, "×"@, "*"@].drop_first() =~= seq!["×"@, "*"@]);
    assert(seq!["×"@, "*"@].drop_first() =~= seq!["*"@]);
    reveal_with_fuel(parted_by, 5);
    if c != 'x' {
        assert(!s.contains('x'));
        law_not_parted(s, 'x');
        if c != 'X' {
            assert(!s.contains('X'));
            law_not_parted(s, 'X');
            if c != '×' {
                assert(!s.contains('×'));
                law_not_parted(s, '×');
            }
        }
    }
}

/// An image request goes to Jimeng with the model as its key, its sides in
/// pixels and its images by address; what has no meaning there is left out,
/// and everything else stays as it came.
pub proof fn law_jimeng_image(
    model: Seq<char>,
    body: Jv,
    r: Jv,
    key: Seq<char>,
    w: int,
    h: int,
    images: Seq<Jv>,
)
    requires
        body is Obj,
        r == jimeng_image_body(model, body),
        i64::MIN <= w <= i64::MAX,
        i64::MIN <= h <= i64::MAX,
    ensures
        text_at(r, "req_key"@) == Some(model),
        r.member("model"@) is None,
        r.member("size"@) is None,
        r.member("image"@) is None,
        r.member("response_format"@) is None,
        r.member("watermark"@) is None,
        body.member("width"@) is Some || body.member("height"@) is Some ==> r.member("width"@)
            == body.member("width"@) && r.member("height"@) == body.member("height"@),
        body.member("width"@) is None && body.member("height"@) is None && text_at(body, "size"@)
            == Some(shown(w) + seq!['x'] + shown(h)) ==> r.member("width"@) == Some(Jv::Int(w))
            && r.member("height"@) == Some(Jv::Int(h)),
        body.member("image"@) == Some(Jv::Arr(images)) && images.len() > 0 && all_addresses(images)
            ==> r.member("image_urls"@) == Some(Jv::Arr(images)),
        body.member("image"@) is None ==> r.member("image_urls"@) == body.member("image_urls"@),
        key != "req_key"@ && key != "model"@ && key != "size"@ && key != "width"@
            && key != "height"@ && key != "image_urls"@ && key != "image"@
            && key != "response_format"@
            && key != "watermark"@ ==> r.member(key) == body.member(key),
{
    reveal_strlit("height");
    reveal_strlit("image");
    reveal_strlit("image_urls");
    reveal_strlit("model");
    reveal_strlit("req_key");
    reveal_strlit("response_format");
    reveal_strlit("size");
    reveal_strlit("watermark");
    reveal_strlit("width");
    assert("height"@.len() == 6);
    assert("image"@.len() == 5);
    assert("image_urls"@.len() == 10);
    assert("model"@.len() == 5);
    assert("req_key"@.len() == 7);
    assert("response_format"@.len() == 15);
    assert("size"@.len() == 4);
    assert("watermark"@.len() == 9);
    assert("width"@.len() == 5);
    assert("image"@[0] == 'i');
    assert("model"@[0] == 'm');
    assert("width"@[0] == 'w');
    law_pixel_sides(w, h, 'x');
    let a = with_pixel_sides(jimeng_head(model, body), body).without("size"@);
    let urls = image_urls(body, seq!["image"@]);
    let b = if urls.len() > 0 {
        a.with("image_urls"@, text_array(urls))
    } else {
        a
    };
    let gone = seq!["image"@, "response_format"@, "watermark"@];
    assert(gone[0] == "image"@ && gone[1] == "response_format"@ && gone[2] == "watermark"@);
    lemma_without_all(b, gone, key);
    lemma_without_all(b, gone, "req_key"@);
    lemma_without_all(b, gone, "model"@);
    lemma_without_all(b, gone, "size"@);
    lemma_without_all(b, gone, "width"@);
    lemma_without_all(b, gone, "height"@);
    lemma_without_all(b, gone, "image_urls"@);
    lemma_without_all(b, gone, "image"@);
    lemma_without_all(b, gone, "response_format"@);
    lemma_without_all(b, gone, "watermark"@);
    if body.member("image"@) == Some(Jv::Arr(images)) && images.len() > 0 && all_addresses(images) {
        lemma_addresses_under(body, "image"@, images);
    }
    if body.member("image"@) is None {
        lemma_no_addresses(body, "image"@);
    }
}

/// The frames of a Jimeng video: what the request names, or else 121 for up to
/// five seconds and 241 for more, where it says how long; its ratio is its own,
/// or that under another name.
pub proof fn law_jimeng_video(model: Seq<char>, body: Jv, r: Jv, key: Seq<char>)
    requires
        body is Obj,
        r == jimeng_video_body(model, body),
    ensures
        text_at(r, "req_key"@) == Some(model),
        r.member("model"@) is None,
        r.member("duration"@) is None,
        r.member("ratio"@) is None,
        r.member("size"@) is None,
        r.member("images"@) is None,
        r.member("response_format"@) is None,
        r.member("watermark"@) is None,
        body.member("frames"@) is Some ==> r.member("frames"@) == body.member("frames"@),
        body.member("frames"@) is None ==> (body.member("duration"@) matches Some(Jv::Int(d))
            ==> r.member("frames"@) == Some(
            Jv::Int(
                if d <= 5 {
                    121
                } else {
                    241
                },
            ),
        )),
        body.member("frames"@) is None && (body.member("duration"@) is None || text_at(
            body,
            "duration"@,
        ) is Some) ==> r.member("frames"@) == Some(Jv::Int(121)),
        body.member("aspect_ratio"@) is Some ==> r.member("aspect_ratio"@) == body.member(
            "aspect_ratio"@,
        ),
        body.member("aspect_ratio"@) is None && text_at(body, "ratio"@) is Some ==> text_at(
            r,
            "aspect_ratio"@,
        ) == text_at(body, "ratio"@),
        body.member("aspect_ratio"@) is None && text_at(body, "ratio"@) is None ==> text_at(
            r,
            "aspect_ratio"@,
        ) == text_at(body, "size"@),
        key != "req_key"@ && key != "model"@ && key != "duration"@ && key != "frames"@
            && key != "aspect_ratio"@ && key != "ratio"@ && key != "size"@ && key != "images"@
            && key != "image_urls"@ && key != "binary_data_base64"@ && key != "response_format"@
            && key != "watermark"@ ==> r.member(key) == body.member(key),
{
    reveal_strlit("aspect_ratio");
    reveal_strlit("binary_data_base64");
    reveal_strlit("duration");
    reveal_strlit("frames");
    reveal_strlit("image_urls");
    reveal_strlit("images");
    reveal_strlit("model");
    reveal_strlit("ratio");
    reveal_strlit("req_key");
    reveal_strlit("response_format");
    reveal_strlit("size");
    reveal_strlit("watermark");
    assert("aspect_ratio"@.len() == 12);
    assert("binary_data_base64"@.len() == 18);
    assert("duration"@.len() == 8);
    assert("frames"@.len() == 6);
    assert("image_urls"@.len() == 10);
    assert("images"@.len() == 6);
    assert("model"@.len() == 5);
    assert("ratio"@.len() == 5);
    assert("req_key"@.len() == 7);
    assert("response_format"@.len() == 15);
    assert("size"@.len() == 4);
    assert("watermark"@.len() == 9);
    assert("frames"@[0] == 'f');
    assert("images"@[0] == 'i');
    assert("model"@[0] == 'm');
    assert("ratio"@[0] == 'r');
}

/// The images of a Jimeng video go by address, or by content where the first
/// is base64 data; content that the request has already stays.
pub proof fn law_jimeng_video_images(model: Seq<char>, body: Jv, r: Jv, images: Seq<Jv>)
    requires
        body is Obj,
        r == jimeng_video_body(model, body),
        images.len() > 0,
        all_addresses(images),
        body.member("images"@) == Some(Jv::Arr(images)),
    ensures
        body.member("binary_data_base64"@) is Some ==> r.member("binary_data_base64"@)
            == body.member("binary_data_base64"@) && r.member("image_urls"@) == body.member(
            "image_urls"@,
        ),
        body.member("binary_data_base64"@) is None && "http"@.is_prefix_of(
            trimmed(images[0]->Str_0),
        ) ==> r.member("image_urls"@) == Some(Jv::Arr(images)) && r.member("binary_data_base64"@)
            is None,
        body.member("binary_data_base64"@) is None && "data:"@.is_prefix_of(
            trimmed(images[0]->Str_0),
        ) ==> r.member("image_urls"@) is None && (r.member("binary_data_base64"@) matches Some(
            Jv::Arr(sent),
        ) && sent.len() == images.len() && (forall|i: int|
            0 <= i < images.len() ==> (#[trigger] sent[i]) == Jv::Str(
                base64_payload(images[i]->Str_0),
            ))),
{
    reveal_strlit("aspect_ratio");
    reveal_strlit("binary_data_base64");
    reveal_strlit("data:");
    reveal_strlit("duration");
    reveal_strlit("frames");
    reveal_strlit("http");
    reveal_strlit("image_urls");
    reveal_strlit("images");
    reveal_strlit("model");
    reveal_strlit("ratio");
    reveal_strlit("req_key");
    reveal_strlit("response_format");
    reveal_strlit("size");
    reveal_strlit("watermark");
    assert("aspect_ratio"@.len() == 12);
    assert("binary_data_base64"@.len() == 18);
    assert("data:"@.len() == 5);
    assert("duration"@.len() == 8);
    assert("frames"@.len() == 6);
    assert("http"@.len() == 4);
    assert("image_urls"@.len() == 10);
    assert("images"@.len() == 6);
    assert("model"@.len() == 5);
    assert("ratio"@.len() == 5);
    assert("req_key"@.len() == 7);
    assert("response_format"@.len() == 15);
    assert("size"@.len() == 4);
    assert("watermark"@.len() == 9);
    assert("data:"@[0] == 'd');
    assert("model"@[0] == 'm');
    assert("ratio"@[0] == 'r');
    assert("frames"@[0] == 'f');
    assert("images"@[0] == 'i');
    assert("http"@[0] == 'h');
    assert("size"@[0] == 's');
    lemma_addresses_under(body, "images"@, images);
    let first = trimmed(images[0]->Str_0);
    assert(plain_addresses(images)[0] == images[0]->Str_0);
    if "http"@.is_prefix_of(first) {
        assert(first[0] == 'h') by {
            assert(first.subrange(0, 4)[0] == "http"@[0]);
        }
        assert("data:"@[0] == 'd');
        assert(!"data:"@.is_prefix_of(first)) by {
            if "data:"@.is_prefix_of(first) {
                assert(first.subrange(0, 5)[0] == "data:"@[0]);
            }
        }
    }
    if "data:"@.is_prefix_of(first) {
        assert(first.len() >= 5);
    }
}

/// Without images in a list, a Jimeng video keeps the images that it has.
pub proof fn law_jimeng_video_own_images(model: Seq<char>, body: Jv, r: Jv)
    requires
        body is Obj,
        r == jimeng_video_body(model, body),
        body.member("images"@) is None,
    ensures
        r.member("image_urls"@) == body.member("image_urls"@),
        r.member("binary_data_base64"@) == body.member("binary_data_base64"@),
{
    reveal_strlit("aspect_ratio");
    reveal_strlit("binary_data_base64");
    reveal_strlit("duration");
    reveal_strlit("frames");
    reveal_strlit("image_urls");
    reveal_strlit("images");
    reveal_strlit("model");
    reveal_strlit("ratio");
    reveal_strlit("req_key");
    reveal_strlit("response_format");
    reveal_strlit("size");
    reveal_strlit("watermark");
    assert("aspect_ratio"@.len() == 12);
    assert("binary_data_base64"@.len() == 18);
    assert("duration"@.len() == 8);
    assert("frames"@.len() == 6);
    assert("image_urls"@.len() == 10);
    assert("images"@.len() == 6);
    assert("model"@.len() == 5);
    assert("ratio"@.len() == 5);
    assert("req_key"@.len() == 7);
    assert("response_format"@.len() == 15);
    assert("size"@.len() == 4);
    assert("watermark"@.len() == 9);
    assert("frames"@[0] == 'f');
    assert("images"@[0] == 'i');
    assert("model"@[0] == 'm');
    assert("ratio"@[0] == 'r');
    lemma_no_addresses(body, "images"@);
}

/// The content of a data URI is what follows its first comma.
pub proof fn law_base64_payload(head: Seq<char>, data: Seq<char>, t: Seq<char>)
    requires
        !head.contains(','),
        t == "data:"@ + head + seq![','] + data,
        trimmed(t) == t,
    ensures
        base64_payload(t) == data,
        is_base64(t, 1),
{
    reveal_strlit("data:");
    reveal_strlit(",");
    assert(","@ =~= seq![',']);
    let a = "data:"@ + head;
    assert(!a.contains(',')) by {
        if a.contains(',') {
            let i = choose|i: int| 0 <= i < a.len() && a[i] == ',';
            if i >= 5 {
                assert(head[i - 5] == ',');
            }
        }
    }
    law_parted(a, ',', data);
    assert(t.subrange(0, 5) =~= "data:"@);
}

// ---------------------------------------------------------------- Bytefor

/// A Bytefor video: its model, its duration in seconds with the unit, its
/// ratio, its resolution in capital letters and its mode of reference in
/// Bytefor's words; what is written otherwise there does not stay.
pub proof fn law_bytefor_video(model: Seq<char>, body: Jv, r: Jv, key: Seq<char>)
    requires
        body is Obj,
        r == bytefor_video_body(model, body),
    ensures
        text_at(r, "model"@) == Some(model),
        body.member("duration"@) is None ==> text_at(r, "duration"@) == Some("5s"@),
        body.member("duration"@) matches Some(Jv::Int(n)) ==> (i64::MIN <= n <= i64::MAX
            ==> text_at(r, "duration"@) == Some(shown(n) + "s"@)),
        text_at(body, "duration"@) matches Some(d) ==> ("s"@.is_suffix_of(small_letters(d))
            ==> text_at(r, "duration"@) == Some(small_letters(d))),
        text_at(body, "duration"@) matches Some(d) ==> (!"s"@.is_suffix_of(small_letters(d))
            ==> text_at(r, "duration"@) == Some(small_letters(d) + "s"@)),
        body.member("aspectRatio"@) is Some ==> r.member("aspectRatio"@) == body.member(
            "aspectRatio"@,
        ),
        body.member("aspectRatio"@) is None && text_at(body, "aspect_ratio"@) is Some ==> text_at(
            r,
            "aspectRatio"@,
        ) == text_at(body, "aspect_ratio"@),
        body.member("aspectRatio"@) is None && text_at(body, "aspect_ratio"@) is None && text_at(
            body,
            "size"@,
        ) is Some ==> text_at(r, "aspectRatio"@) == text_at(body, "size"@),
        body.member("aspectRatio"@) is None && text_at(body, "aspect_ratio"@) is None && text_at(
            body,
            "size"@,
        ) is None ==> text_at(r, "aspectRatio"@) == Some("16:9"@),
        text_at(body, "resolution"@) matches Some(res) ==> text_at(r, "resolution"@) == Some(
            capital_letters(res),
        ),
        body.member("resolution"@) is None ==> text_at(r, "resolution"@) == Some(
            match text_at(body, "quality"@) {
                Some(q) => if small_letters(q) == "hd"@ || small_letters(q) == "high"@ {
                    "1080P"@
                } else {
                    "720P"@
                },
                None => "720P"@,
            },
        ),
        key != "model"@ && key != "duration"@ && key != "aspectRatio"@ && key != "aspect_ratio"@
            && key != "size"@ && key != "resolution"@ && key != "quality"@
            && key != "referenceMode"@ && key != "reference_mode"@ && key != "images"@
            && key != "image_urls"@ && key != "videos"@ && key != "audios"@
            && key != "response_format"@ && key != "watermark"@
            && key != "n"@ ==> r.member(key) == body.member(key),
        r.member("aspect_ratio"@) is None,
        r.member("size"@) is None,
        r.member("quality"@) is None,
        r.member("reference_mode"@) is None,
        r.member("image_urls"@) is None,
        r.member("videos"@) is None,
        r.member("audios"@) is None,
        r.member("response_format"@) is None,
        r.member("watermark"@) is None,
        r.member("n"@) is None,
{
    reveal_strlit("aspectRatio");
    reveal_strlit("aspect_ratio");
    reveal_strlit("audios");
    reveal_strlit("duration");
    reveal_strlit("image_urls");
    reveal_strlit("images");
    reveal_strlit("model");
    reveal_strlit("n");
    reveal_strlit("quality");
    reveal_strlit("referenceMode");
    reveal_strlit("reference_mode");
    reveal_strlit("resolution");
    reveal_strlit("response_format");
    reveal_strlit("size");
    reveal_strlit("videos");
    reveal_strlit("watermark");
    assert("aspectRatio"@.len() == 11);
    assert("aspect_ratio"@.len() == 12);
    assert("audios"@.len() == 6);
    assert("duration"@.len() == 8);
    assert("image_urls"@.len() == 10);
    assert("images"@.len() == 6);
    assert("model"@.len() == 5);
    assert("n"@.len() == 1);
    assert("quality"@.len() == 7);
    assert("referenceMode"@.len() == 13);
    assert("reference_mode"@.len() == 14);
    assert("resolution"@.len() == 10);
    assert("response_format"@.len() == 15);
    assert("size"@.len() == 4);
    assert("videos"@.len() == 6);
    assert("watermark"@.len() == 9);
    assert("audios"@[0] == 'a');
    assert("images"@[0] == 'i');
    assert("videos"@[0] == 'v');
    assert("image_urls"@[0] == 'i');
    assert("resolution"@[0] == 'r');
    let keys = bytefor_dropped();
    assert(keys[0] == "image_urls"@);
    assert(keys[1] == "videos"@);
    assert(keys[2] == "audios"@);
    assert(keys[3] == "response_format"@);
    assert(keys[4] == "watermark"@);
    assert(keys[5] == "n"@);
    lemma_left(keys);
}

/// The mode of reference has three words of its own and goes under one name;
/// any other word stays.
pub proof fn law_bytefor_reference(model: Seq<char>, body: Jv, r: Jv, mode: Seq<char>)
    requires
        body is Obj,
        r == bytefor_video_body(model, body),
        text_at(body, "referenceMode"@) == Some(mode) || (text_at(body, "referenceMode"@) is None
            && text_at(body, "reference_mode"@) == Some(mode)),
    ensures
        mode == "all"@ || mode == "全能"@ || mode == "全能参考"@ ==> text_at(r, "referenceMode"@)
            == Some("全能参考"@),
        mode == "subject"@ || mode == "主体"@ || mode == "主体参考"@ ==> text_at(
            r,
            "referenceMode"@,
        ) == Some("主体参考"@),
        mode != "all"@ && mode != "全能"@ && mode != "subject"@ && mode != "主体"@ ==> text_at(
            r,
            "referenceMode"@,
        ) == Some(mode),
{
    reveal_strlit("all");
    reveal_strlit("aspectRatio");
    reveal_strlit("aspect_ratio");
    reveal_strlit("audios");
    reveal_strlit("duration");
    reveal_strlit("image_urls");
    reveal_strlit("images");
    reveal_strlit("model");
    reveal_strlit("n");
    reveal_strlit("quality");
    reveal_strlit("referenceMode");
    reveal_strlit("reference_mode");
    reveal_strlit("resolution");
    reveal_strlit("response_format");
    reveal_strlit("size");
    reveal_strlit("subject");
    reveal_strlit("videos");
    reveal_strlit("watermark");
    reveal_strlit("主体");
    reveal_strlit("主体参考");
    reveal_strlit("全能");
    reveal_strlit("全能参考");
    assert("all"@.len() == 3);
    assert("aspectRatio"@.len() == 11);
    assert("aspect_ratio"@.len() == 12);
    assert("audios"@.len() == 6);
    assert("duration"@.len() == 8);
    assert("image_urls"@.len() == 10);
    assert("images"@.len() == 6);
    assert("model"@.len() == 5);
    assert("n"@.len() == 1);
    assert("quality"@.len() == 7);
    assert("referenceMode"@.len() == 13);
    assert("reference_mode"@.len() == 14);
    assert("resolution"@.len() == 10);
    assert("response_format"@.len() == 15);
    assert("size"@.len() == 4);
    assert("subject"@.len() == 7);
    assert("videos"@.len() == 6);
    assert("watermark"@.len() == 9);
    assert("主体"@.len() == 2);
    assert("主体参考"@.len() == 4);
    assert("全能"@.len() == 2);
    assert("全能参考"@.len() == 4);
    assert("audios"@[0] == 'a');
    assert("images"@[0] == 'i');
    assert("videos"@[0] == 'v');
    assert("image_urls"@[0] == 'i');
    assert("resolution"@[0] == 'r');
    assert("quality"@[0] == 'q');
    assert("subject"@[0] == 's');
    assert("size"@[0] == 's');
    assert("主体参考"@[0] == '主');
    assert("全能参考"@[0] == '全');
    assert("主体"@[0] == '主');
    assert("全能"@[0] == '全');
    let keys = bytefor_dropped();
    assert(keys[0] == "image_urls"@);
    assert(keys[1] == "videos"@);
    assert(keys[2] == "audios"@);
    assert(keys[3] == "response_format"@);
    assert(keys[4] == "watermark"@);
    assert(keys[5] == "n"@);
    lemma_left(keys);
}

/// The media of a Bytefor video are one list: images, then videos, then
/// sounds.
pub proof fn law_bytefor_media(
    model: Seq<char>,
    body: Jv,
    r: Jv,
    images: Seq<Jv>,
    videos: Seq<Jv>,
    audios: Seq<Jv>,
)
    requires
        body is Obj,
        r == bytefor_video_body(model, body),
        body.member("images"@) == Some(Jv::Arr(images)),
        body.member("videos"@) == Some(Jv::Arr(videos)),
        body.member("audios"@) == Some(Jv::Arr(audios)),
        images.len() > 0 && videos.len() > 0 && audios.len() > 0,
        all_addresses(images) && all_addresses(videos) && all_addresses(audios),
    ensures
        r.member("images"@) == Some(Jv::Arr(images + videos + audios)),
{
    reveal_strlit("aspectRatio");
    reveal_strlit("aspect_ratio");
    reveal_strlit("audios");
    reveal_strlit("duration");
    reveal_strlit("image_urls");
    reveal_strlit("images");
    reveal_strlit("model");
    reveal_strlit("n");
    reveal_strlit("quality");
    reveal_strlit("referenceMode");
    reveal_strlit("reference_mode");
    reveal_strlit("resolution");
    reveal_strlit("response_format");
    reveal_strlit("size");
    reveal_strlit("videos");
    reveal_strlit("watermark");
    assert("aspectRatio"@.len() == 11);
    assert("aspect_ratio"@.len() == 12);
    assert("audios"@.len() == 6);
    assert("duration"@.len() == 8);
    assert("image_urls"@.len() == 10);
    assert("images"@.len() == 6);
    assert("model"@.len() == 5);
    assert("n"@.len() == 1);
    assert("quality"@.len() == 7);
    assert("referenceMode"@.len() == 13);
    assert("reference_mode"@.len() == 14);
    assert("resolution"@.len() == 10);
    assert("response_format"@.len() == 15);
    assert("size"@.len() == 4);
    assert("videos"@.len() == 6);
    assert("watermark"@.len() == 9);
    assert("audios"@[0] == 'a');
    assert("images"@[0] == 'i');
    assert("videos"@[0] == 'v');
    assert("image_urls"@[0] == 'i');
    assert("resolution"@[0] == 'r');
    let keys = bytefor_dropped();
    assert(keys[0] == "image_urls"@);
    assert(keys[1] == "videos"@);
    assert(keys[2] == "audios"@);
    assert(keys[3] == "response_format"@);
    assert(keys[4] == "watermark"@);
    assert(keys[5] == "n"@);
    lemma_left(keys);
    let fields = seq!["images"@, "image_urls"@];
    assert(fields[0] == "images"@);
    lemma_media_first(body, fields);
    lemma_plain_addresses(images);
    lemma_addresses_under(body, "videos"@, videos);
    lemma_addresses_under(body, "audios"@, audios);
    let all = images + videos + audios;
    let got = text_array(bytefor_media(body))->Arr_0;
    assert forall|i: int| 0 <= i < all.len() implies got[i] == all[i] by {
        if i < images.len() {
            assert(images[i] is Str);
        } else if i < images.len() + videos.len() {
            assert(videos[i - images.len()] is Str);
        } else {
            assert(audios[i - images.len() - videos.len()] is Str);
        }
    }
    assert(got =~= all);
}

/// Without media of its own a Bytefor video keeps the images that it has.
pub proof fn law_bytefor_without_media(model: Seq<char>, body: Jv, r: Jv)
    requires
        body is Obj,
        r == bytefor_video_body(model, body),
        body.member("images"@) is None,
        body.member("image_urls"@) is None,
        body.member("videos"@) is None,
        body.member("audios"@) is None,
    ensures
        r.member("images"@) is None,
{
    reveal_strlit("aspectRatio");
    reveal_strlit("aspect_ratio");
    reveal_strlit("audios");
    reveal_strlit("duration");
    reveal_strlit("image_urls");
    reveal_strlit("images");
    reveal_strlit("model");
    reveal_strlit("n");
    reveal_strlit("quality");
    reveal_strlit("referenceMode");
    reveal_strlit("reference_mode");
    reveal_strlit("resolution");
    reveal_strlit("response_format");
    reveal_strlit("size");
    reveal_strlit("videos");
    reveal_strlit("watermark");
    assert("aspectRatio"@.len() == 11);
    assert("aspect_ratio"@.len() == 12);
    assert("audios"@.len() == 6);
    assert("duration"@.len() == 8);
    assert("image_urls"@.len() == 10);
    assert("images"@.len() == 6);
    assert("model"@.len() == 5);
    assert("n"@.len() == 1);
    assert("quality"@.len() == 7);
    assert("referenceMode"@.len() == 13);
    assert("reference_mode"@.len() == 14);
    assert("resolution"@.len() == 10);
    assert("response_format"@.len() == 15);
    assert("size"@.len() == 4);
    assert("videos"@.len() == 6);
    assert("watermark"@.len() == 9);
    assert("audios"@[0] == 'a');
    assert("images"@[0] == 'i');
    assert("videos"@[0] == 'v');
    assert("image_urls"@[0] == 'i');
    assert("resolution"@[0] == 'r');
    lemma_left(bytefor_dropped());
    let fields = seq!["images"@, "image_urls"@];
    assert(fields[0] == "images"@);
    lemma_media_first(body, fields);
    assert(fields.drop_first() =~= seq!["image_urls"@]);
    lemma_nothing_listed(body, "image_urls"@);
    assert(image_urls(body, fields) =~= Seq::<Seq<char>>::empty());
    lemma_no_addresses(body, "videos"@);
    lemma_no_addresses(body, "audios"@);
    assert(bytefor_media(body).len() == 0);
}

// ---------------------------------------------------------------- enhancement tools

/// A request to an enhancement tool keeps its settings under their own names
/// and names the version that the model stands for.
pub proof fn law_enhancement(mid: Seq<char>, body: Jv, r: Jv)
    requires
        r == media_enhance_body(mid, body),
    ensures
        r.member("scene"@) == body.member("scene"@),
        r.member("resolution"@) == body.member("resolution"@),
        r.member("resolution_limit"@) == body.member("resolution_limit"@),
        r.member("fps"@) == body.member("fps"@),
        r.member("bitrate_level"@) == body.member("bitrate_level"@),
        r.member("callback_args"@) == body.member("callback_args"@),
        r.member("callback_url"@) == body.member("callback_url"@),
        r.member("client_token"@) == body.member("client_token"@),
        r.member("queue_id"@) == body.member("queue_id"@),
        r.member("mode"@) == body.member("mode"@),
        r.member("output_encode_mode"@) == body.member("output_encode_mode"@),
        r.member("erase_ratio_location"@) == body.member("erase_ratio_location"@),
        text_at(r, "video_url"@) == text_at(body, "video_url"@),
        mid == "vve-sd"@ ==> text_at(r, "tool_version"@) == Some("standard"@),
        mid == "vve-pf"@ ==> text_at(r, "tool_version"@) == Some("professional"@),
        mid != "vve-sd"@ && mid != "vve-pf"@ ==> r.member("tool_version"@) is None,
{
    reveal_strlit("bitrate_level");
    reveal_strlit("callback_args");
    reveal_strlit("callback_url");
    reveal_strlit("client_token");
    reveal_strlit("erase_ratio_location");
    reveal_strlit("fps");
    reveal_strlit("mode");
    reveal_strlit("output_encode_mode");
    reveal_strlit("queue_id");
    reveal_strlit("resolution");
    reveal_strlit("resolution_limit");
    reveal_strlit("scene");
    reveal_strlit("tool_version");
    reveal_strlit("video_url");
    reveal_strlit("vve-pf");
    reveal_strlit("vve-sd");
    assert("bitrate_level"@.len() == 13);
    assert("callback_args"@.len() == 13);
    assert("callback_url"@.len() == 12);
    assert("client_token"@.len() == 12);
    assert("erase_ratio_location"@.len() == 20);
    assert("fps"@.len() == 3);
    assert("mode"@.len() == 4);
    assert("output_encode_mode"@.len() == 18);
    assert("queue_id"@.len() == 8);
    assert("resolution"@.len() == 10);
    assert("resolution_limit"@.len() == 16);
    assert("scene"@.len() == 5);
    assert("tool_version"@.len() == 12);
    assert("video_url"@.len() == 9);
    assert("vve-pf"@.len() == 6);
    assert("vve-sd"@.len() == 6);
    assert("bitrate_level"@[0] == 'b');
    assert("callback_args"@[0] == 'c');
    assert("callback_url"@[1] == 'a');
    assert("client_token"@[1] == 'l');
    assert("callback_url"@[0] == 'c');
    assert("tool_version"@[0] == 't');
    assert("client_token"@[0] == 'c');
    assert("vve-pf"@[4] == 'p');
    assert("vve-sd"@[4] == 's');
    assert(enhance_keys()[0] == "scene"@);
    assert(enhance_keys()[1] == "resolution"@);
    assert(enhance_keys()[2] == "resolution_limit"@);
    assert(enhance_keys()[3] == "fps"@);
    assert(enhance_keys()[4] == "bitrate_level"@);
    assert(enhance_keys()[5] == "callback_args"@);
    assert(enhance_keys()[6] == "callback_url"@);
    assert(enhance_keys()[7] == "client_token"@);
    assert(enhance_keys()[8] == "queue_id"@);
    assert(enhance_keys()[9] == "mode"@);
    assert(enhance_keys()[10] == "output_encode_mode"@);
    assert(enhance_keys()[11] == "erase_ratio_location"@);
    assert(!enhance_keys().contains("video_url"@));
    assert(!enhance_keys().contains("tool_version"@));
    let a = with_text(no_members(), "video_url"@, text_at(body, "video_url"@));
    let b = with_text(a, "tool_version"@, tool_version(mid));
    lemma_carry_all(b, body, enhance_keys(), "scene"@);
    lemma_carry_all(b, body, enhance_keys(), "resolution"@);
    lemma_carry_all(b, body, enhance_keys(), "resolution_limit"@);
    lemma_carry_all(b, body, enhance_keys(), "fps"@);
    lemma_carry_all(b, body, enhance_keys(), "bitrate_level"@);
    lemma_carry_all(b, body, enhance_keys(), "callback_args"@);
    lemma_carry_all(b, body, enhance_keys(), "callback_url"@);
    lemma_carry_all(b, body, enhance_keys(), "client_token"@);
    lemma_carry_all(b, body, enhance_keys(), "queue_id"@);
    lemma_carry_all(b, body, enhance_keys(), "mode"@);
    lemma_carry_all(b, body, enhance_keys(), "output_encode_mode"@);
    lemma_carry_all(b, body, enhance_keys(), "erase_ratio_location"@);
    lemma_carry_all(b, body, enhance_keys(), "video_url"@);
    lemma_carry_all(b, body, enhance_keys(), "tool_version"@);
}

} // verus!
