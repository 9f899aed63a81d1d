//! Billing by duration: a price per second, fixed, by resolution, by quality or
//! from a table.
use vstd::prelude::*;
use vstd::string::*;
use crate::bill::{
    apply_factor, barred, field, field_or, find_tier, find_top_tier, from_table, get_field_or,
    is_field, rate_from_table, tier_for, top_tier, with_bar, with_factor, Bill, BillModel,
    BillingRule, ExtractedFeatures, RateModel, Rated, VideoQualityTier, HALF, THIRTY,
};
use crate::cost::{said, saying, showing, showing_fixed, Cost, Detail};
use crate::double::{double_at, Double, ONE};
use crate::json::{flag_or, opt_json, opt_text, Json, Jv};
use crate::price_table::{
    floored, free_image_count, free_images, key_in_words, lookup_price_table, table_price,
    translate_billing_key,
};
use crate::text::{
    ascii_small, chars_of, contains, decimal, holds, small_letters, parse_i32, pieces, replace,
    replaced, same, same_ignore_case, split, to_lowercase, trim, trimmed,
};

verus! {

/// The price that holds without tiers.
pub open spec fn default_rate(rule: BillingRule) -> RateModel {
    RateModel {
        rate: Cost::Num(rule.duration_rate),
        desc: showing(saying("默认单价: "@), Cost::Num(rule.duration_rate)),
    }
}

/// The price of a resolution: that of its tier, or the highest; the highest
/// too without a resolution, where that is allowed.
pub open spec fn tiered_rate(
    rule: BillingRule,
    resolution: Option<Seq<char>>,
    without_resolution: bool,
) -> RateModel {
    match rule.tiers.resolution {
        Some(tiers) => {
            let hit = match resolution {
                Some(res) => tier_for(tiers@, res, 0),
                None => None,
            };
            if resolution is None && !without_resolution {
                default_rate(rule)
            } else {
                match hit {
                    Some(i) => RateModel {
                        rate: Cost::Num(tiers@[i].rate),
                        desc: showing(
                            said(said(saying("命中分辨率 "@), resolution->Some_0), " 单价: "@),
                            Cost::Num(tiers@[i].rate),
                        ),
                    },
                    None => match top_tier(tiers@, tiers@.len() as int) {
                        Some(i) => {
                            let reason = match resolution {
                                Some(res) => said(
                                    said(saying("分辨率"@), res),
                                    "未命中，兜底最高阶梯("@,
                                ),
                                None => saying("无分辨率，兜底最高阶梯("@),
                            };
                            RateModel {
                                rate: Cost::Num(tiers@[i].rate),
                                desc: said(
                                    showing(
                                        said(said(reason, tiers@[i].resolution@), " 单价:"@),
                                        Cost::Num(tiers@[i].rate),
                                    ),
                                    ")"@,
                                ),
                            }
                        },
                        None => default_rate(rule),
                    },
                }
            }
        },
        None => default_rate(rule),
    }
}

fn make_default_rate(rule: &BillingRule) -> (r: Rated)
    ensures
        r@ == default_rate(*rule),
{
    Rated {
        rate: Cost::Num(rule.duration_rate),
        desc: Detail::start("默认单价: ").number(rule.duration_rate),
    }
}

fn rate_by_tier(rule: &BillingRule, resolution: Option<&str>, without_resolution: bool) -> (r: Rated)
    ensures
        r@ == tiered_rate(*rule, opt_text(resolution), without_resolution),
{
    match &rule.tiers.resolution {
        Some(tiers) => {
            if resolution.is_none() && !without_resolution {
                return make_default_rate(rule);
            }
            let hit = match resolution {
                Some(res) => find_tier(tiers, res),
                None => None,
            };
            match hit {
                Some(i) => {
                    let res = match resolution {
                        Some(res) => res,
                        None => "",
                    };
                    Rated {
                        rate: Cost::Num(tiers[i].rate),
                        desc: Detail::start("命中分辨率 ").text(res).text(" 单价: ").number(
                            tiers[i].rate,
                        ),
                    }
                },
                None => match find_top_tier(tiers) {
                    Some(i) => {
                        let reason = match resolution {
                            Some(res) => Detail::start("分辨率").text(res).text(
                                "未命中，兜底最高阶梯(",
                            ),
                            None => Detail::start("无分辨率，兜底最高阶梯("),
                        };
                        Rated {
                            rate: Cost::Num(tiers[i].rate),
                            desc: reason.text(tiers[i].resolution.as_str()).text(" 单价:").number(
                                tiers[i].rate,
                            ).text(")"),
                        }
                    },
                    None => make_default_rate(rule),
                },
            }
        },
        None => make_default_rate(rule),
    }
}

// ---------------------------------------------------------------- quality

/// The ASCII digits of a text.
pub open spec fn digits_of(s: Seq<char>) -> Seq<char>
    decreases s.len(),
{
    if s.len() == 0 {
        s
    } else if '0' <= s.last() <= '9' {
        digits_of(s.drop_last()).push(s.last())
    } else {
        digits_of(s.drop_last())
    }
}

fn keep_digits(s: &str) -> (r: String)
    ensures
        r@ == digits_of(s@),
{
    let x = chars_of(s);
    let mut out = String::new();
    let mut i: usize = 0;
    proof {
        assert(s@.take(0) =~= Seq::<char>::empty());
        assert(out@ =~= digits_of(s@.take(0)));
    }
    while i < x.len()
        invariant
            x@ == s@,
            i <= x@.len(),
            out@ == digits_of(s@.take(i as int)),
        decreases x@.len() - i,
    {
        let c = x[i];
        proof {
            assert(s@.take(i + 1).drop_last() =~= s@.take(i as int));
            assert(s@.take(i + 1).last() == c);
        }
        if '0' <= c && c <= '9' {
            out.push(c);
        }
        i += 1;
    }
    proof {
        assert(s@.take(i as int) =~= s@);
    }
    out
}

/// The shorter side that a resolution names: of two sides the shorter, or else
/// the number that its digits make, if that is above a hundred.
pub open spec fn named_side(s: Seq<char>) -> Option<int> {
    let parts = pieces(s, "x"@);
    let low = i32::MIN as int;
    let high = i32::MAX as int;
    let two = if parts.len() == 2 {
        match (
            decimal(trimmed(parts[0]), true, low, high),
            decimal(trimmed(parts[1]), true, low, high),
        ) {
            (Some(w), Some(h)) => Some(
                if w < h {
                    w
                } else {
                    h
                },
            ),
            _ => None,
        }
    } else {
        None
    };
    match two {
        Some(side) => Some(side),
        None => match decimal(digits_of(s), true, low, high) {
            Some(n) => if n > 100 {
                Some(n)
            } else {
                None
            },
            None => None,
        },
    }
}

/// The quality class of a resolution and the side it was found by, given in
/// small letters with `x` between its sides.
pub open spec fn quality_class(s: Seq<char>) -> (Seq<char>, Option<int>) {
    if holds(s, "720p"@) || s == "720"@ {
        ("720p"@, Some(720))
    } else if holds(s, "1080p"@) || s == "1080"@ {
        ("1080p"@, Some(1080))
    } else if holds(s, "2k"@) {
        ("2k"@, Some(1440))
    } else if holds(s, "4k"@) {
        ("4k"@, Some(2160))
    } else {
        match named_side(s) {
            Some(side) => (
                if side <= 720 {
                    "720p"@
                } else if side <= 1080 {
                    "1080p"@
                } else if side <= 1440 {
                    "2k"@
                } else {
                    "4k"@
                },
                Some(side),
            ),
            None => ("unknown"@, None),
        }
    }
}

fn side_of(s: &str) -> (r: Option<i32>)
    ensures
        match r {
            Some(i) => named_side(s@) == Some(i as int),
            None => named_side(s@) is None,
        },
{
    proof {
        reveal_strlit("x");
    }
    let parts = split(s, "x");
    let ghost ps = pieces(s@, "x"@);
    proof {
        assert(ps.len() == parts@.len());
    }
    if parts.len() == 2 {
        assert(ps[0] == parts@[0]@ && ps[1] == parts@[1]@);
        match (parse_i32(trim(parts[0])), parse_i32(trim(parts[1]))) {
            (Some(w), Some(h)) => {
                return Some(
                    if w < h {
                        w
                    } else {
                        h
                    },
                );
            },
            _ => {},
        }
    }
    let digits = keep_digits(s);
    match parse_i32(digits.as_str()) {
        Some(n) => if n > 100 {
            Some(n)
        } else {
            None
        },
        None => None,
    }
}

/// Finds the quality class of a resolution, given in small letters with `x`
/// between its sides.
pub fn classify_quality(s: &str) -> (r: (&'static str, Option<i32>))
    ensures
        r.0@ == quality_class(s@).0,
        match r.1 {
            Some(i) => quality_class(s@).1 == Some(i as int),
            None => quality_class(s@).1 is None,
        },
{
    if contains(s, "720p") || same(s, "720") {
        ("720p", Some(720))
    } else if contains(s, "1080p") || same(s, "1080") {
        ("1080p", Some(1080))
    } else if contains(s, "2k") {
        ("2k", Some(1440))
    } else if contains(s, "4k") {
        ("4k", Some(2160))
    } else {
        match side_of(s) {
            Some(side) => {
                let class = if side <= 720 {
                    "720p"
                } else if side <= 1080 {
                    "1080p"
                } else if side <= 1440 {
                    "2k"
                } else {
                    "4k"
                };
                (class, Some(side))
            },
            None => ("unknown", None),
        }
    }
}

/// Whether a range of frame rates is for high ones, or for others.
pub open spec fn range_fits(range: Seq<char>, high: bool) -> bool {
    if high {
        holds(range, ">30"@) || holds(range, "> 30"@)
    } else {
        holds(range, "<30"@) || holds(range, "<=30"@) || holds(range, "<= 30"@)
    }
}

fn fits_range(range: &str, high: bool) -> (r: bool)
    ensures
        r == range_fits(range@, high),
{
    if high {
        contains(range, ">30") || contains(range, "> 30")
    } else {
        contains(range, "<30") || contains(range, "<=30") || contains(range, "<= 30")
    }
}

/// The first tier in use from `n` on for a quality class and a frame rate.
pub open spec fn quality_tier_for(
    tiers: Seq<VideoQualityTier>,
    class: Seq<char>,
    high: bool,
    n: int,
) -> Option<int>
    decreases tiers.len() - n,
{
    if n < 0 || n >= tiers.len() {
        None
    } else if tiers[n].enabled && ascii_small(tiers[n].resolution@) == ascii_small(class)
        && range_fits(tiers[n].fps_range@, high) {
        Some(n)
    } else {
        quality_tier_for(tiers, class, high, n + 1)
    }
}

/// The first of the highest among the first `n` tiers that are in use.
pub open spec fn top_quality_tier(tiers: Seq<VideoQualityTier>, n: int) -> Option<int>
    decreases n,
{
    if n <= 0 {
        None
    } else {
        let done = top_quality_tier(tiers, n - 1);
        if tiers[n - 1].enabled {
            match done {
                Some(b) => if tiers[b].rate.below(tiers[n - 1].rate) {
                    Some(n - 1)
                } else {
                    Some(b)
                },
                None => Some(n - 1),
            }
        } else {
            done
        }
    }
}

fn find_quality_tier(tiers: &Vec<VideoQualityTier>, class: &str, high: bool) -> (r: Option<usize>)
    ensures
        match r {
            Some(i) => i < tiers@.len() && quality_tier_for(tiers@, class@, high, 0) == Some(
                i as int,
            ),
            None => quality_tier_for(tiers@, class@, high, 0) is None,
        },
{
    let mut i: usize = 0;
    while i < tiers.len()
        invariant
            i <= tiers@.len(),
            quality_tier_for(tiers@, class@, high, 0) == quality_tier_for(
                tiers@,
                class@,
                high,
                i as int,
            ),
        decreases tiers@.len() - i,
    {
        if tiers[i].enabled && same_ignore_case(tiers[i].resolution.as_str(), class) && fits_range(
            tiers[i].fps_range.as_str(),
            high,
        ) {
            return Some(i);
        }
        i += 1;
    }
    None
}

fn find_top_quality_tier(tiers: &Vec<VideoQualityTier>) -> (r: Option<usize>)
    ensures
        match r {
            Some(i) => i < tiers@.len() && top_quality_tier(tiers@, tiers@.len() as int) == Some(
                i as int,
            ),
            None => top_quality_tier(tiers@, tiers@.len() as int) is None,
        },
{
    let mut best: Option<usize> = None;
    let mut i: usize = 0;
    while i < tiers.len()
        invariant
            i <= tiers@.len(),
            match best {
                Some(b) => b < i && top_quality_tier(tiers@, i as int) == Some(b as int),
                None => top_quality_tier(tiers@, i as int) is None,
            },
        decreases tiers@.len() - i,
    {
        if tiers[i].enabled {
            match best {
                Some(b) => {
                    if tiers[b].rate.lt(tiers[i].rate) {
                        best = Some(i);
                    }
                },
                None => {
                    best = Some(i);
                },
            }
        }
        i += 1;
    }
    best
}

/// The price of a quality tier that was hit.
pub open spec fn hit_quality_rate(
    tier: VideoQualityTier,
    class: Seq<char>,
    side: Option<int>,
) -> RateModel {
    let head = said(
        said(said(said(saying("命中视频画质阶梯 ["@), class), "] [帧率: "@), tier.fps_range@),
        "]"@,
    );
    let named = match side {
        Some(s) => said(
            showing(said(head, " (解析短边: "@), Cost::Count(s as i64)),
            ")"@,
        ),
        None => head,
    };
    RateModel {
        rate: Cost::Num(tier.rate),
        desc: showing(said(named, " 单价: "@), Cost::Num(tier.rate)),
    }
}

/// The price of the highest quality tier, where none was hit.
pub open spec fn top_quality_rate(
    tier: VideoQualityTier,
    class: Seq<char>,
    side: Option<int>,
    fps: Double,
) -> RateModel {
    let head = said(said(saying("视频画质阶梯未命中 ["@), class), "] ("@);
    let named = match side {
        Some(s) => said(showing(said(head, "解析短边: "@), Cost::Count(s as i64)), ", 帧率: "@),
        None => said(head, "帧率: "@),
    };
    let reason = said(showing(named, Cost::Num(fps)), ")，兜底最高阶梯("@);
    RateModel {
        rate: Cost::Num(tier.rate),
        desc: said(
            showing(
                said(
                    said(said(said(reason, tier.resolution@), " "@), tier.fps_range@),
                    " 单价:"@,
                ),
                Cost::Num(tier.rate),
            ),
            ")"@,
        ),
    }
}

/// The price by quality: that of the tier of its class and frame rate, or the
/// highest.
pub open spec fn quality_rate(rule: BillingRule, f: ExtractedFeatures) -> RateModel {
    let before = RateModel {
        rate: Cost::Num(rule.duration_rate),
        desc: said(
            showing(saying("视频画质阶梯找寻(默认单价: "@), Cost::Num(rule.duration_rate)),
            ")"@,
        ),
    };
    let fps = match f.fps {
        Some(x) => x,
        None => Double { bits: THIRTY },
    };
    let high = (Double { bits: THIRTY }).below(fps);
    match (f.resolution, rule.tiers.quality) {
        (Some(res), Some(tiers)) => {
            let (class, side) = quality_class(replaced(small_letters(res@), "*"@, "x"@));
            match quality_tier_for(tiers@, class, high, 0) {
                Some(i) => hit_quality_rate(tiers@[i], class, side),
                None => match top_quality_tier(tiers@, tiers@.len() as int) {
                    Some(i) => top_quality_rate(tiers@[i], class, side, fps),
                    None => before,
                },
            }
        },
        _ => before,
    }
}

fn rate_of_hit_quality(tier: &VideoQualityTier, class: &str, side: Option<i32>) -> (r: Rated)
    ensures
        r@ == hit_quality_rate(
            *tier,
            class@,
            match side {
                Some(s) => Some(s as int),
                None => None,
            },
        ),
{
    let head = Detail::start("命中视频画质阶梯 [").text(class).text("] [帧率: ").text(
        tier.fps_range.as_str(),
    ).text("]");
    let named = match side {
        Some(s) => head.text(" (解析短边: ").count(s as i64).text(")"),
        None => head,
    };
    Rated { rate: Cost::Num(tier.rate), desc: named.text(" 单价: ").number(tier.rate) }
}

fn rate_of_top_quality(
    tier: &VideoQualityTier,
    class: &str,
    side: Option<i32>,
    fps: Double,
) -> (r: Rated)
    ensures
        r@ == top_quality_rate(
            *tier,
            class@,
            match side {
                Some(s) => Some(s as int),
                None => None,
            },
            fps,
        ),
{
    let head = Detail::start("视频画质阶梯未命中 [").text(class).text("] (");
    let named = match side {
        Some(s) => head.text("解析短边: ").count(s as i64).text(", 帧率: "),
        None => head.text("帧率: "),
    };
    let reason = named.number(fps).text(")，兜底最高阶梯(");
    Rated {
        rate: Cost::Num(tier.rate),
        desc: reason.text(tier.resolution.as_str()).text(" ").text(tier.fps_range.as_str()).text(
            " 单价:",
        ).number(tier.rate).text(")"),
    }
}

fn rate_by_quality(rule: &BillingRule, f: &ExtractedFeatures) -> (r: Rated)
    ensures
        r@ == quality_rate(*rule, *f),
{
    let before = Rated {
        rate: Cost::Num(rule.duration_rate),
        desc: Detail::start("视频画质阶梯找寻(默认单价: ").number(rule.duration_rate).text(")"),
    };
    let fps = match f.fps {
        Some(x) => x,
        None => Double { bits: THIRTY },
    };
    let high = (Double { bits: THIRTY }).lt(fps);
    match &f.resolution {
        Some(res) => match &rule.tiers.quality {
            Some(tiers) => {
                proof {
                    reveal_strlit("*");
                }
                let low = to_lowercase(res.as_str());
                let clean = replace(low.as_str(), "*", "x");
                let (class, side) = classify_quality(clean.as_str());
                match find_quality_tier(tiers, class, high) {
                    Some(i) => rate_of_hit_quality(&tiers[i], class, side),
                    None => match find_top_quality_tier(tiers) {
                        Some(i) => rate_of_top_quality(&tiers[i], class, side, fps),
                        None => before,
                    },
                }
            },
            None => before,
        },
        None => before,
    }
}

// ---------------------------------------------------------------- tables

/// The mode of a Kling video: its own, or that of its resolution.
pub open spec fn kling_mode(f: ExtractedFeatures) -> Seq<char> {
    match f.mode {
        Some(m) => m@,
        None => match f.resolution {
            Some(res) => {
                let low = small_letters(res@);
                if low == "720p"@ {
                    "std"@
                } else if low == "1080p"@ {
                    "pro"@
                } else {
                    low
                }
            },
            None => "std"@,
        },
    }
}

/// Whether a video is among the input, as a word.
pub open spec fn video_word(has_video: bool) -> Seq<char> {
    if has_video {
        "yes"@
    } else {
        "no"@
    }
}

/// The mode, the sound and the video of a Kling request, as far as they count.
pub open spec fn kling_dimensions(f: ExtractedFeatures, ext: Jv) -> (
    Seq<char>,
    Seq<char>,
    Seq<char>,
) {
    (
        if flag_or(ext, "enable_mode"@, true) {
            kling_mode(f)
        } else {
            "std"@
        },
        if flag_or(ext, "enable_sound"@, true) {
            field_or(f.sound, "off"@)
        } else {
            "off"@
        },
        if flag_or(ext, "enable_video_ref"@, false) {
            video_word(f.has_video)
        } else {
            "no"@
        },
    )
}

/// A factor of a group of the further settings; one where there is none.
pub open spec fn group_factor(ext: Jv, group: Seq<char>, key: Seq<char>) -> Double {
    match ext.member(group) {
        Some(g) => match double_at(g, key) {
            Some(d) => d,
            None => Double { bits: ONE },
        },
        None => Double { bits: ONE },
    }
}

fn get_group_factor(ext: &Json, group: &str, key: &str) -> (r: Double)
    ensures
        r == group_factor(ext@, group@, key@),
{
    match ext.get(group) {
        Some(g) => match g.get_double(key) {
            Some(d) => d,
            None => Double { bits: ONE },
        },
        None => Double { bits: ONE },
    }
}

/// The price of a Kling video: from the table, or else by factors.
pub open spec fn kling_rate(rule: BillingRule, f: ExtractedFeatures, ext: Option<Jv>) -> RateModel {
    let base = Cost::Num(rule.duration_rate);
    match ext {
        Some(e) => {
            let (mode, sound, video) = kling_dimensions(f, e);
            let key = barred(barred(mode, sound), video);
            match table_price(e, key) {
                Some(d) => RateModel {
                    rate: Cost::Num(d),
                    desc: said(
                        showing(
                            said(said(saying("可灵视频查表("@), key_in_words(key)), " 单价:"@),
                            Cost::Num(d),
                        ),
                        ")"@,
                    ),
                },
                None => {
                    let by_mode = Cost::Num(group_factor(e, "mode_multipliers"@, mode));
                    let by_sound = Cost::Num(group_factor(e, "sound_multipliers"@, sound));
                    let rate = base.times(by_mode.times(by_sound));
                    let head = showing(
                        said(said(saying("可灵视频倍率(mode:"@), mode), "x"@),
                        by_mode,
                    );
                    let middle = showing(said(said(said(head, " sound:"@), sound), "x"@), by_sound);
                    RateModel { rate, desc: said(showing(said(middle, " 单价:"@), rate), ")"@) }
                },
            }
        },
        None => RateModel {
            rate: base,
            desc: said(showing(saying("可灵视频按秒计费(基准: "@), base), ")"@),
        },
    }
}

fn mode_of(f: &ExtractedFeatures) -> (r: String)
    ensures
        r@ == kling_mode(*f),
{
    match &f.mode {
        Some(m) => m.clone(),
        None => match &f.resolution {
            Some(res) => {
                let low = to_lowercase(res.as_str());
                if same(low.as_str(), "720p") {
                    "std".to_owned()
                } else if same(low.as_str(), "1080p") {
                    "pro".to_owned()
                } else {
                    low
                }
            },
            None => "std".to_owned(),
        },
    }
}

fn rate_of_kling(rule: &BillingRule, f: &ExtractedFeatures, ext: &Option<Json>) -> (r: Rated)
    ensures
        r@ == kling_rate(*rule, *f, opt_json(*ext)),
{
    match ext {
        Some(e) => {
            let mode = if e.get_bool_or("enable_mode", true) {
                mode_of(f)
            } else {
                "std".to_owned()
            };
            let sound = if e.get_bool_or("enable_sound", true) {
                get_field_or(&f.sound, "off")
            } else {
                "off"
            };
            let video = if e.get_bool_or("enable_video_ref", false) && f.has_video {
                "yes"
            } else {
                "no"
            };
            let head_key = with_bar(mode.as_str(), sound);
            let key = with_bar(head_key.as_str(), video);
            match lookup_price_table(e, key.as_str()) {
                Some(d) => {
                    let words = translate_billing_key(key.as_str());
                    Rated {
                        rate: Cost::Num(d),
                        desc: Detail::start("可灵视频查表(").text(words.as_str()).text(
                            " 单价:",
                        ).number(d).text(")"),
                    }
                },
                None => {
                    let by_mode = get_group_factor(e, "mode_multipliers", mode.as_str());
                    let by_sound = get_group_factor(e, "sound_multipliers", sound);
                    let rate = Cost::Num(rule.duration_rate).product(
                        Cost::Num(by_mode).product(Cost::Num(by_sound)),
                    );
                    let desc = Detail::start("可灵视频倍率(mode:").text(mode.as_str()).text(
                        "x",
                    ).number(by_mode).text(" sound:").text(sound).text("x").number(by_sound).text(
                        " 单价:",
                    ).shown(&rate).text(")");
                    Rated { rate, desc }
                },
            }
        },
        None => Rated {
            rate: Cost::Num(rule.duration_rate),
            desc: Detail::start("可灵视频按秒计费(基准: ").number(rule.duration_rate).text(")"),
        },
    }
}

/// The kind of a Vidu video.
pub open spec fn vidu_video_kind(f: ExtractedFeatures) -> Seq<char> {
    if f.has_image_ref {
        "image"@
    } else if f.has_video {
        "ref"@
    } else {
        "text"@
    }
}

/// A price from a table whose base is named first.
pub open spec fn based_rate(rule: BillingRule, label: Seq<char>) -> RateModel {
    RateModel {
        rate: Cost::Num(rule.duration_rate),
        desc: said(showing(saying(label), Cost::Num(rule.duration_rate)), ")"@),
    }
}

fn make_based_rate(rule: &BillingRule, label: &str) -> (r: Rated)
    ensures
        r@ == based_rate(*rule, label@),
{
    Rated {
        rate: Cost::Num(rule.duration_rate),
        desc: Detail::start(label).number(rule.duration_rate).text(")"),
    }
}

/// The price of a Vidu video: from the table, lower off-peak.
pub open spec fn vidu_video_rate(rule: BillingRule, f: ExtractedFeatures, ext: Option<Jv>) -> RateModel {
    let before = based_rate(rule, "Vidu视频查表(基准: "@);
    match ext {
        Some(e) => {
            let a = from_table(
                before,
                "Vidu视频"@,
                e,
                barred(vidu_video_kind(f), field_or(f.resolution, "720p"@)),
                barred(vidu_video_kind(f), ""@),
            );
            if field(f.service_tier) == Some("flex"@) {
                with_factor(
                    a,
                    " [错峰 x"@,
                    match double_at(e, "offpeak_discount"@) {
                        Some(d) => d,
                        None => Double { bits: HALF },
                    },
                )
            } else {
                a
            }
        },
        None => before,
    }
}

fn rate_of_vidu_video(rule: &BillingRule, f: &ExtractedFeatures, ext: &Option<Json>) -> (r: Rated)
    ensures
        r@ == vidu_video_rate(*rule, *f, opt_json(*ext)),
{
    let before = make_based_rate(rule, "Vidu视频查表(基准: ");
    match ext {
        Some(e) => {
            let attr = if f.has_image_ref {
                "image"
            } else if f.has_video {
                "ref"
            } else {
                "text"
            };
            let key = with_bar(attr, get_field_or(&f.resolution, "720p"));
            let prefix = with_bar(attr, "");
            let a = rate_from_table(before, "Vidu视频", e, key.as_str(), prefix.as_str());
            if is_field(&f.service_tier, "flex") {
                let d = match e.get_double("offpeak_discount") {
                    Some(d) => d,
                    None => Double { bits: HALF },
                };
                apply_factor(a, " [错峰 x", d)
            } else {
                a
            }
        },
        None => before,
    }
}

/// The price of a cascade enhancement: from the table by version, resolution
/// and video input.
pub open spec fn enhance_rate(rule: BillingRule, f: ExtractedFeatures, ext: Option<Jv>) -> RateModel {
    let before = based_rate(rule, "火山级联画质增强查表(基准: "@);
    match ext {
        Some(e) => {
            let version = field_or(f.version, "standard"@);
            from_table(
                before,
                "火山级联画质增强"@,
                e,
                barred(
                    barred(version, field_or(f.resolution, "720p"@)),
                    video_word(f.has_video),
                ),
                barred(version, ""@),
            )
        },
        None => before,
    }
}

fn rate_of_enhance(rule: &BillingRule, f: &ExtractedFeatures, ext: &Option<Json>) -> (r: Rated)
    ensures
        r@ == enhance_rate(*rule, *f, opt_json(*ext)),
{
    let before = make_based_rate(rule, "火山级联画质增强查表(基准: ");
    match ext {
        Some(e) => {
            let version = get_field_or(&f.version, "standard");
            let head = with_bar(version, get_field_or(&f.resolution, "720p"));
            let video = if f.has_video {
                "yes"
            } else {
                "no"
            };
            let key = with_bar(head.as_str(), video);
            let prefix = with_bar(version, "");
            rate_from_table(before, "火山级联画质增强", e, key.as_str(), prefix.as_str())
        },
        None => before,
    }
}

// ---------------------------------------------------------------- the whole

/// The price per second.
pub open spec fn second_rate(rule: BillingRule, f: ExtractedFeatures, ext: Option<Jv>) -> RateModel {
    let kind = rule.billing_rule@;
    if kind == "video_resolution"@ {
        match f.resolution {
            Some(res) => tiered_rate(rule, Some(res@), false),
            None => based_rate(rule, "视频分辨率阶梯找寻(默认单价: "@),
        }
    } else if kind == "video_quality"@ {
        quality_rate(rule, f)
    } else if kind == "kling_video"@ {
        kling_rate(rule, f, ext)
    } else if kind == "vidu_video"@ {
        vidu_video_rate(rule, f, ext)
    } else if kind == "volc_enhance_cascade"@ {
        enhance_rate(rule, f, ext)
    } else {
        RateModel { rate: Cost::Num(rule.duration_rate), desc: saying("固定按秒时长计费"@) }
    }
}

/// The duration of a request.
pub open spec fn seconds_of(f: ExtractedFeatures) -> Double {
    match f.duration_seconds {
        Some(d) => d,
        None => Double { bits: 0 },
    }
}

/// The bill by seconds and by the input images beyond the free ones.
pub open spec fn seconds_and_images_bill(
    rule: BillingRule,
    f: ExtractedFeatures,
    ext: Option<Jv>,
    discount: Double,
) -> BillModel {
    let dur = Cost::Num(seconds_of(f));
    let r = tiered_rate(rule, field(f.resolution), true);
    let free = free_images(ext, 5);
    let inputs = match f.image_ref_count {
        Some(n) => floored(n as int),
        None => 0,
    };
    let billable = Cost::Count(floored(inputs - free) as i64);
    let head = said(saying("视频秒价+输入图 "@) + r.desc, " -> ("@);
    let a = showing(said(showing_fixed(head, 2, dur), "秒*"@), r.rate);
    let b = showing(said(a, " + 输入图超额:"@), billable);
    let c = showing(said(b, "张(共"@), Cost::Count(inputs as i64));
    let d = showing(said(c, "张,免费"@), Cost::Count(free as i64));
    let e = showing(said(d, "张)*"@), Cost::Num(rule.prompt_rate));
    BillModel {
        cost: dur.times(r.rate).plus(billable.times(Cost::Num(rule.prompt_rate))).times(
            Cost::Num(discount),
        ),
        detail: said(showing_fixed(said(e, "元/张)*"@), 2, Cost::Num(discount)), "倍率"@),
    }
}

/// The bill of a request that is billed by duration.
pub open spec fn duration_bill(
    rule: BillingRule,
    f: ExtractedFeatures,
    ext: Option<Jv>,
    discount: Double,
) -> BillModel {
    if rule.billing_rule@ == "minimax_h3"@ {
        seconds_and_images_bill(rule, f, ext, discount)
    } else {
        let dur = Cost::Num(seconds_of(f));
        let r = second_rate(rule, f, ext);
        let a = showing_fixed(said(r.desc, " -> ("@), 2, dur);
        let b = showing(said(a, "秒 * "@), r.rate);
        BillModel {
            cost: dur.times(r.rate).times(Cost::Num(discount)),
            detail: said(showing_fixed(said(b, "单价 * "@), 2, Cost::Num(discount)), "倍率)"@),
        }
    }
}

fn rate_per_second(rule: &BillingRule, f: &ExtractedFeatures, ext: &Option<Json>) -> (r: Rated)
    ensures
        r@ == second_rate(*rule, *f, opt_json(*ext)),
{
    let kind = rule.billing_rule.as_str();
    if same(kind, "video_resolution") {
        match &f.resolution {
            Some(res) => rate_by_tier(rule, Some(res.as_str()), false),
            None => make_based_rate(rule, "视频分辨率阶梯找寻(默认单价: "),
        }
    } else if same(kind, "video_quality") {
        rate_by_quality(rule, f)
    } else if same(kind, "kling_video") {
        rate_of_kling(rule, f, ext)
    } else if same(kind, "vidu_video") {
        rate_of_vidu_video(rule, f, ext)
    } else if same(kind, "volc_enhance_cascade") {
        rate_of_enhance(rule, f, ext)
    } else {
        Rated { rate: Cost::Num(rule.duration_rate), desc: Detail::start("固定按秒时长计费") }
    }
}

fn get_seconds(f: &ExtractedFeatures) -> (r: Double)
    ensures
        r == seconds_of(*f),
{
    match f.duration_seconds {
        Some(d) => d,
        None => Double { bits: 0 },
    }
}

fn bill_seconds_and_images(
    rule: &BillingRule,
    f: &ExtractedFeatures,
    ext: &Option<Json>,
    discount: Double,
) -> (r: Bill)
    ensures
        r@ == seconds_and_images_bill(*rule, *f, opt_json(*ext), discount),
{
    let res = match &f.resolution {
        Some(s) => Some(s.as_str()),
        None => None,
    };
    let rated = rate_by_tier(rule, res, true);
    let free: i32 = free_image_count(ext, 5);
    let inputs: i64 = match f.image_ref_count {
        Some(n) => if n > 0 {
            n as i64
        } else {
            0
        },
        None => 0,
    };
    let over: i64 = inputs - free as i64;
    let billable: i64 = if over > 0 {
        over
    } else {
        0
    };
    let dur = Cost::Num(get_seconds(f));
    let shown_discount = Cost::Num(discount);
    let mut pieces = Detail::start("视频秒价+输入图 ").pieces;
    let ghost x = pieces@;
    let mut rest = rated.desc.pieces;
    let ghost y = rest@;
    pieces.append(&mut rest);
    let joined = Detail { pieces };
    proof {
        assert(joined@ =~= saying("视频秒价+输入图 "@) + rated.desc@);
    }
    let detail = joined.text(" -> (").fixed(2, &dur).text("秒*").shown(&rated.rate).text(
        " + 输入图超额:",
    ).count(billable).text("张(共").count(inputs).text("张,免费").count(free as i64).text(
        "张)*",
    ).number(rule.prompt_rate).text("元/张)*").fixed(2, &shown_discount).text("倍率");
    let cost = dur.product(rated.rate).sum(
        Cost::Count(billable).product(Cost::Num(rule.prompt_rate)),
    ).product(Cost::Num(discount));
    Bill { cost, detail }
}

/// Bills a request by duration.
pub fn bill_duration(
    rule: &BillingRule,
    f: &ExtractedFeatures,
    ext: &Option<Json>,
    discount: Double,
) -> (r: Bill)
    ensures
        r@ == duration_bill(*rule, *f, opt_json(*ext), discount),
{
    if same(rule.billing_rule.as_str(), "minimax_h3") {
        return bill_seconds_and_images(rule, f, ext, discount);
    }
    let dur = Cost::Num(get_seconds(f));
    let rated = rate_per_second(rule, f, ext);
    let shown_discount = Cost::Num(discount);
    let detail = rated.desc.text(" -> (").fixed(2, &dur).text("秒 * ").shown(&rated.rate).text(
        "单价 * ",
    ).fixed(2, &shown_discount).text("倍率)");
    Bill { cost: dur.product(rated.rate).product(Cost::Num(discount)), detail }
}

} // verus!
