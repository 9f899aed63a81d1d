//! Request bodies of the Jimeng API and of Bytefor video, both made from a
//! copy of the request, and of the media enhancement tools.
use vstd::prelude::*;
use vstd::string::*;
use crate::double::{double_of, Double};
use crate::json::{
    carry_all, double_shown, list1, list2, names, no_members, opt_string, set_text, string_array,
    text_array, text_at, texts, with_text, Json, Jv,
};
use crate::media::{b64_data, base64_payload, collect_image_urls, image_urls, is_b64, is_base64};
use crate::ratio::{parted_by, split_by};
use crate::text::{
    decimal, ends_with, small_letters, parse_i64, same, show_i64, shown, to_lowercase, to_uppercase,
    capital_letters,
};

verus! {

/// The value without several members.
pub open spec fn without_all(v: Jv, keys: Seq<Seq<char>>) -> Jv
    decreases keys.len(),
{
    if keys.len() == 0 {
        v
    } else {
        without_all(v, keys.drop_last()).without(keys.last())
    }
}

/// Takes several members away.
pub fn del_all(v: &mut Json, keys: &Vec<&str>)
    ensures
        final(v)@ == without_all(old(v)@, names(keys@)),
        old(v)@ is Obj ==> final(v)@ is Obj,
{
    let ghost start = v@;
    let ghost all = names(keys@);
    let mut i: usize = 0;
    proof {
        assert(all.take(0) =~= Seq::<Seq<char>>::empty());
    }
    while i < keys.len()
        invariant
            i <= keys@.len(),
            all == names(keys@),
            v@ == without_all(start, all.take(i as int)),
            start is Obj ==> v@ is Obj,
        decreases keys@.len() - i,
    {
        proof {
            assert(all.take(i + 1).drop_last() =~= all.take(i as int));
            assert(all.take(i + 1).last() == keys@[i as int]@);
        }
        v.del(keys[i]);
        i += 1;
    }
    proof {
        assert(all.take(i as int) =~= all);
    }
}

/// A copy of the request with the model as its key.
pub open spec fn jimeng_head(model: Seq<char>, body: Jv) -> Jv {
    body.with("req_key"@, Jv::Str(model)).without("model"@)
}

fn make_jimeng_head(model: &str, body: &Json) -> (r: Json)
    requires
        body@.assignable(),
    ensures
        r@ == jimeng_head(model@, body@),
        r@ is Obj,
{
    let mut fwd = body.dup();
    fwd.set("req_key", Json::text(model));
    fwd.del("model");
    fwd
}

/// The width and the height that a size names.
pub open spec fn pixel_sides(size: Seq<char>) -> Option<(int, int)> {
    match parted_by(size, seq!["x"@, "X"@, "×"@, "*"@]) {
        Some((w, h)) => match (
            decimal(w, true, i64::MIN as int, i64::MAX as int),
            decimal(h, true, i64::MIN as int, i64::MAX as int),
        ) {
            (Some(a), Some(b)) => Some((a, b)),
            _ => None,
        },
        None => None,
    }
}

fn read_sides(size: &str) -> (r: Option<(i64, i64)>)
    ensures
        match r {
            Some((w, h)) => pixel_sides(size@) == Some((w as int, h as int)),
            None => pixel_sides(size@) is None,
        },
{
    match split_by(size, "x", "X", "×", "*") {
        Some((w, h)) => match (parse_i64(w), parse_i64(h)) {
            (Some(a), Some(b)) => Some((a, b)),
            _ => None,
        },
        None => None,
    }
}

/// The image with its sides put in, unless it has one already.
pub open spec fn with_pixel_sides(r: Jv, body: Jv) -> Jv {
    if r.member("width"@) is None && r.member("height"@) is None {
        match text_at(body, "size"@) {
            Some(size) => match pixel_sides(size) {
                Some((w, h)) => r.with("width"@, Jv::Int(w)).with("height"@, Jv::Int(h)),
                None => r,
            },
            None => r,
        }
    } else {
        r
    }
}

/// The body of a Jimeng image request. The addresses of `image` take the place
/// of `image_urls`, which stays as it came where there are none.
pub open spec fn jimeng_image_body(model: Seq<char>, body: Jv) -> Jv {
    let a = with_pixel_sides(jimeng_head(model, body), body).without("size"@);
    let urls = image_urls(body, seq!["image"@]);
    let b = if urls.len() > 0 {
        a.with("image_urls"@, text_array(urls))
    } else {
        a
    };
    without_all(b, seq!["image"@, "response_format"@, "watermark"@])
}

/// Builds the body of a Jimeng image request.
pub fn build_jimeng_image_body(model: &str, body: &Json) -> (r: Json)
    requires
        body@.assignable(),
    ensures
        r@ == jimeng_image_body(model@, body@),
        r@ is Obj,
{
    let mut fwd = make_jimeng_head(model, body);
    if !fwd.has("width") && !fwd.has("height") {
        match body.get_str("size") {
            Some(size) => {
                match read_sides(size) {
                    Some((w, h)) => {
                        fwd.set("width", Json::number(w));
                        fwd.set("height", Json::number(h));
                    },
                    None => {},
                }
            },
            None => {},
        }
    }
    fwd.del("size");
    let fields = list1("image");
    let urls = collect_image_urls(body, &fields);
    if urls.len() > 0 {
        fwd.set("image_urls", string_array(&urls));
    }
    let gone = vec!["image", "response_format", "watermark"];
    assert(names(gone@) =~= seq!["image"@, "response_format"@, "watermark"@]);
    del_all(&mut fwd, &gone);
    fwd
}

/// The bits of five.
pub const FIVE: u64 = 0x4014_0000_0000_0000;

/// Whether a duration is at most five seconds, where it is a number.
pub open spec fn is_short(v: Jv) -> Option<bool> {
    match v {
        Jv::Int(i) => Some(i <= 5),
        Jv::Float(_) => match double_of(v) {
            Some(x) => Some(x.at_most(Double { bits: FIVE })),
            None => None,
        },
        _ => None,
    }
}

fn short_duration(v: &Json) -> (r: Option<bool>)
    ensures
        r == is_short(v@),
{
    match v {
        Json::Int(i) => Some(*i <= 5),
        Json::Float(_) => match v.as_double() {
            Some(x) => Some(x.le(Double { bits: FIVE })),
            None => None,
        },
        _ => None,
    }
}

/// The number of frames: 121 for five seconds, 241 for more.
pub open spec fn with_frames(r: Jv, body: Jv) -> Jv {
    if r.member("frames"@) is None {
        match body.member("duration"@) {
            Some(v) => match is_short(v) {
                Some(short) => r.with(
                    "frames"@,
                    Jv::Int(
                        if short {
                            121
                        } else {
                            241
                        },
                    ),
                ),
                None => r,
            },
            None => r,
        }
    } else {
        r
    }
}

/// The images of a video request: those of `images` take the place of
/// `image_urls`, by content where the first is base64 data, else by address.
/// Where there are none `image_urls` stays as it came, and so do images that
/// are given as content already.
pub open spec fn with_jimeng_images(r: Jv, body: Jv) -> Jv {
    let urls = image_urls(body, seq!["images"@]);
    if r.member("binary_data_base64"@) is None && urls.len() > 0 {
        if is_base64(urls[0], 1) {
            r.without("image_urls"@).with(
                "binary_data_base64"@,
                text_array(urls.map_values(|u: Seq<char>| base64_payload(u))),
            )
        } else {
            r.with("image_urls"@, text_array(urls))
        }
    } else {
        r
    }
}

/// The body of a Jimeng video request.
pub open spec fn jimeng_video_body(model: Seq<char>, body: Jv) -> Jv {
    let a = with_frames(jimeng_head(model, body), body).without("duration"@);
    let b = if a.member("aspect_ratio"@) is None {
        with_text(
            a,
            "aspect_ratio"@,
            match text_at(body, "ratio"@) {
                Some(r) => Some(r),
                None => text_at(body, "size"@),
            },
        )
    } else {
        a
    };
    let c = b.without("ratio"@).without("size"@);
    let d = with_jimeng_images(c, body).without("images"@);
    let e = if d.member("frames"@) is None {
        d.with("frames"@, Jv::Int(121))
    } else {
        d
    };
    e.without("response_format"@).without("watermark"@)
}

fn payloads(urls: &Vec<String>) -> (r: Vec<String>)
    ensures
        texts(r@) == texts(urls@).map_values(|u: Seq<char>| base64_payload(u)),
{
    let mut out: Vec<String> = Vec::new();
    let mut i: usize = 0;
    while i < urls.len()
        invariant
            i <= urls@.len(),
            out@.len() == i,
            forall|k: int| 0 <= k < i ==> #[trigger] out@[k]@ == base64_payload(urls@[k]@),
        decreases urls@.len() - i,
    {
        out.push(b64_data(urls[i].as_str()).to_owned());
        i += 1;
    }
    proof {
        assert(texts(out@) =~= texts(urls@).map_values(|u: Seq<char>| base64_payload(u)));
    }
    out
}

/// Builds the body of a Jimeng video request.
pub fn build_jimeng_video_body(model: &str, body: &Json) -> (r: Json)
    requires
        body@.assignable(),
    ensures
        r@ == jimeng_video_body(model@, body@),
        r@ is Obj,
{
    let mut fwd = make_jimeng_head(model, body);
    if !fwd.has("frames") {
        match body.get("duration") {
            Some(v) => {
                match short_duration(v) {
                    Some(short) => {
                        let frames: i64 = if short {
                            121
                        } else {
                            241
                        };
                        fwd.set("frames", Json::number(frames));
                    },
                    None => {},
                }
            },
            None => {},
        }
    }
    fwd.del("duration");
    if !fwd.has("aspect_ratio") {
        let ratio = match body.get_str("ratio") {
            Some(r) => Some(r),
            None => body.get_str("size"),
        };
        set_text(&mut fwd, "aspect_ratio", ratio);
    }
    fwd.del("ratio");
    fwd.del("size");
    if !fwd.has("binary_data_base64") {
        let fields = list1("images");
        let urls = collect_image_urls(body, &fields);
        if urls.len() > 0 {
            assert(texts(urls@)[0] == urls@[0]@);
            if is_b64(urls[0].as_str(), 1) {
                let clean = payloads(&urls);
                fwd.del("image_urls");
                fwd.set("binary_data_base64", string_array(&clean));
            } else {
                fwd.set("image_urls", string_array(&urls));
            }
        }
    }
    fwd.del("images");
    if !fwd.has("frames") {
        fwd.set("frames", Json::number(121));
    }
    fwd.del("response_format");
    fwd.del("watermark");
    fwd
}

// ---------------------------------------------------------------- Bytefor

/// The duration of a Bytefor request, with its unit: five seconds where it
/// names none, and nothing where it is neither text nor number.
pub open spec fn bytefor_duration(body: Jv) -> Option<Seq<char>> {
    match body.member("duration"@) {
        Some(Jv::Str(d)) => {
            let low = small_letters(d);
            if "s"@.is_suffix_of(low) {
                Some(low)
            } else {
                Some(low + "s"@)
            }
        },
        Some(v) => match v.int64() {
            Some(i) => Some(shown(i) + "s"@),
            None => match double_shown(v) {
                Some(t) => Some(t + "s"@),
                None => None,
            },
        },
        None => Some("5s"@),
    }
}

fn duration_text(body: &Json) -> (r: Option<String>)
    ensures
        opt_string(r) == bytefor_duration(body@),
{
    match body.get("duration") {
        Some(v) => {
            match v.as_str() {
                Some(d) => {
                    let mut low = to_lowercase(d);
                    if !ends_with(low.as_str(), "s") {
                        low.append("s");
                    }
                    Some(low)
                },
                None => {
                    match v.as_i64() {
                        Some(i) => {
                            let mut t = show_i64(i);
                            t.append("s");
                            Some(t)
                        },
                        None => {
                            match v.show_double() {
                                Some(d) => {
                                    let mut t = d;
                                    t.append("s");
                                    Some(t)
                                },
                                None => None,
                            }
                        },
                    }
                },
            }
        },
        None => Some("5s".to_owned()),
    }
}

/// The resolution of a Bytefor request: its own in capital letters, or that
/// of its quality.
pub open spec fn with_bytefor_resolution(r: Jv, body: Jv) -> Jv {
    match r.member("resolution"@) {
        Some(Jv::Str(res)) => r.with("resolution"@, Jv::Str(capital_letters(res))),
        Some(_) => r,
        None => {
            let high = match text_at(body, "quality"@) {
                Some(q) => small_letters(q) == "hd"@ || small_letters(q) == "high"@,
                None => false,
            };
            r.with(
                "resolution"@,
                Jv::Str(
                    if high {
                        "1080P"@
                    } else {
                        "720P"@
                    },
                ),
            )
        },
    }
}

fn put_bytefor_resolution(fwd: &mut Json, body: &Json)
    requires
        old(fwd)@ is Obj,
    ensures
        final(fwd)@ == with_bytefor_resolution(old(fwd)@, body@),
        final(fwd)@ is Obj,
{
    if fwd.has("resolution") {
        let upper = match fwd.get_str("resolution") {
            Some(res) => Some(to_uppercase(res)),
            None => None,
        };
        match upper {
            Some(u) => {
                fwd.set("resolution", Json::text(u.as_str()));
            },
            None => {},
        }
    } else {
        let high = match body.get_str("quality") {
            Some(q) => {
                let low = to_lowercase(q);
                same(low.as_str(), "hd") || same(low.as_str(), "high")
            },
            None => false,
        };
        if high {
            fwd.set("resolution", Json::text("1080P"));
        } else {
            fwd.set("resolution", Json::text("720P"));
        }
    }
}

/// The word for a reference mode.
pub open spec fn reference_word(mode: Seq<char>) -> Seq<char> {
    if mode == "all"@ || mode == "全能"@ || mode == "全能参考"@ {
        "全能参考"@
    } else if mode == "subject"@ || mode == "主体"@ || mode == "主体参考"@ {
        "主体参考"@
    } else {
        mode
    }
}

fn reference_name(mode: &str) -> (r: &str)
    ensures
        r@ == reference_word(mode@),
{
    if same(mode, "all") || same(mode, "全能") || same(mode, "全能参考") {
        "全能参考"
    } else if same(mode, "subject") || same(mode, "主体") || same(mode, "主体参考") {
        "主体参考"
    } else {
        mode
    }
}

/// The images, videos and audios of a request, in this order.
pub open spec fn bytefor_media(body: Jv) -> Seq<Seq<char>> {
    image_urls(body, seq!["images"@, "image_urls"@]) + image_urls(body, seq!["videos"@])
        + image_urls(body, seq!["audios"@])
}

fn collect_bytefor_media(body: &Json) -> (r: Vec<String>)
    ensures
        texts(r@) == bytefor_media(body@),
{
    let image_fields = list2("images", "image_urls");
    let mut all = collect_image_urls(body, &image_fields);
    let ghost a = texts(all@);
    let video_fields = list1("videos");
    let mut videos = collect_image_urls(body, &video_fields);
    let ghost b = texts(videos@);
    let audio_fields = list1("audios");
    let mut audios = collect_image_urls(body, &audio_fields);
    let ghost c = texts(audios@);
    all.append(&mut videos);
    proof {
        assert(texts(all@) =~= a + b);
    }
    all.append(&mut audios);
    proof {
        assert(texts(all@) =~= a + b + c);
    }
    all
}

/// The members that a Bytefor request does not carry on.
pub open spec fn bytefor_dropped() -> Seq<Seq<char>> {
    seq!["image_urls"@, "videos"@, "audios"@, "response_format"@, "watermark"@, "n"@]
}

/// The body of a Bytefor video request.
pub open spec fn bytefor_video_body(model: Seq<char>, body: Jv) -> Jv {
    let a = with_text(
        body.with("model"@, Jv::Str(model)),
        "duration"@,
        bytefor_duration(body),
    );
    let b = if a.member("aspectRatio"@) is None {
        a.with(
            "aspectRatio"@,
            Jv::Str(
                match text_at(body, "aspect_ratio"@) {
                    Some(r) => r,
                    None => match text_at(body, "size"@) {
                        Some(s) => s,
                        None => "16:9"@,
                    },
                },
            ),
        )
    } else {
        a
    };
    let c = b.without("aspect_ratio"@).without("size"@);
    let d = with_bytefor_resolution(c, body).without("quality"@);
    let mode = match text_at(d, "referenceMode"@) {
        Some(m) => Some(m),
        None => text_at(body, "reference_mode"@),
    };
    let e = match mode {
        Some(m) => d.with("referenceMode"@, Jv::Str(reference_word(m))),
        None => d,
    };
    let f = e.without("reference_mode"@);
    let g = if bytefor_media(body).len() > 0 {
        f.with("images"@, text_array(bytefor_media(body)))
    } else {
        f
    };
    without_all(g, bytefor_dropped())
}

/// Builds the body of a Bytefor video request.
pub fn build_bytefor_video_body(model: &str, body: &Json) -> (r: Json)
    requires
        body@.assignable(),
    ensures
        r@ == bytefor_video_body(model@, body@),
        r@ is Obj,
{
    let mut fwd = body.dup();
    fwd.set("model", Json::text(model));
    match duration_text(body) {
        Some(t) => {
            fwd.set("duration", Json::text(t.as_str()));
        },
        None => {},
    }
    if !fwd.has("aspectRatio") {
        let ratio = match body.get_str("aspect_ratio") {
            Some(r) => r,
            None => body.get_str_or("size", "16:9"),
        };
        fwd.set("aspectRatio", Json::text(ratio));
    }
    fwd.del("aspect_ratio");
    fwd.del("size");
    put_bytefor_resolution(&mut fwd, body);
    fwd.del("quality");
    let word = match fwd.get_str("referenceMode") {
        Some(m) => Some(reference_name(m).to_owned()),
        None => match body.get_str("reference_mode") {
            Some(m) => Some(reference_name(m).to_owned()),
            None => None,
        },
    };
    match word {
        Some(w) => {
            fwd.set("referenceMode", Json::text(w.as_str()));
        },
        None => {},
    }
    fwd.del("reference_mode");
    let media = collect_bytefor_media(body);
    if media.len() > 0 {
        fwd.set("images", string_array(&media));
    }
    let gone = vec!["image_urls", "videos", "audios", "response_format", "watermark", "n"];
    assert(names(gone@) =~= bytefor_dropped());
    del_all(&mut fwd, &gone);
    fwd
}

// ---------------------------------------------------------------- media enhancement

/// The tool version of the models that share the enhancement interface.
pub open spec fn tool_version(mid: Seq<char>) -> Option<Seq<char>> {
    if mid == "vve-sd"@ {
        Some("standard"@)
    } else if mid == "vve-pf"@ {
        Some("professional"@)
    } else {
        None
    }
}

/// Names the tool version of a model, where it has one.
pub fn volc_enhance_tool_version(mid: &str) -> (r: Option<&'static str>)
    ensures
        match r {
            Some(v) => tool_version(mid@) == Some(v@),
            None => tool_version(mid@) is None,
        },
{
    if same(mid, "vve-sd") {
        Some("standard")
    } else if same(mid, "vve-pf") {
        Some("professional")
    } else {
        None
    }
}

/// The members that the enhancement tools take over as they are.
pub open spec fn enhance_keys() -> Seq<Seq<char>> {
    seq![
        "scene"@,
        "resolution"@,
        "resolution_limit"@,
        "fps"@,
        "bitrate_level"@,
        "callback_args"@,
        "callback_url"@,
        "client_token"@,
        "queue_id"@,
        "mode"@,
        "output_encode_mode"@,
        "erase_ratio_location"@,
    ]
}

/// The body of a media enhancement request.
pub open spec fn media_enhance_body(mid: Seq<char>, body: Jv) -> Jv {
    let a = with_text(no_members(), "video_url"@, text_at(body, "video_url"@));
    carry_all(with_text(a, "tool_version"@, tool_version(mid)), body, enhance_keys())
}

/// Builds the body of a media enhancement request.
pub fn build_volcengine_media_enhance_body(mid: &str, body: &Json) -> (r: Json)
    ensures
        r@ == media_enhance_body(mid@, body@),
        r@ is Obj,
{
    let mut req = Json::empty();
    set_text(&mut req, "video_url", body.get_str("video_url"));
    set_text(&mut req, "tool_version", volc_enhance_tool_version(mid));
    let keys = vec![
        "scene",
        "resolution",
        "resolution_limit",
        "fps",
        "bitrate_level",
        "callback_args",
        "callback_url",
        "client_token",
        "queue_id",
        "mode",
        "output_encode_mode",
        "erase_ratio_location",
    ];
    assert(names(keys@) =~= enhance_keys());
    req.carry_all(body, &keys);
    req
}

} // verus!
