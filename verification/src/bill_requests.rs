//! Billing by request: a fixed price, by image, by resolution, by size, from a
//! table, or by characters.
use vstd::prelude::*;
use vstd::string::*;
use crate::bill::{
    apply_factor, apply_prompt_extend, apply_ref_factor, barred, field_or, find_tier, find_top_tier,
    from_table, get_ext_double, get_field_or, ext_double, rate_from_table, tier_for, top_tier,
    with_bar, with_factor, with_prompt_extend, with_ref_factor, Bill, BillModel, BillingRule,
    ExtractedFeatures, RateModel, Rated, SeedreamTier, SizeTier,
};
use crate::cost::{said, saying, showing, showing_fixed, Cost, Detail, PieceModel};
use crate::double::Double;
use crate::json::{opt_json, Json, Jv};
use crate::price_table::{
    floored, free_image_count, free_images, normalize_pixel_size, pixel_size, small_size,
};
use crate::text::{parted, same, split_once, trim, trimmed};

verus! {

/// The number of images, at least one.
pub open spec fn images_or_one(f: ExtractedFeatures) -> int {
    match f.image_count {
        Some(c) => if c > 1 {
            c as int
        } else {
            1
        },
        None => 1,
    }
}

fn count_images(f: &ExtractedFeatures) -> (r: i64)
    ensures
        r == images_or_one(*f),
{
    match f.image_count {
        Some(c) => if c > 1 {
            c as i64
        } else {
            1
        },
        None => 1,
    }
}

/// The price by image: no image that was found costs nothing.
pub open spec fn per_image_rate(rule: BillingRule, f: ExtractedFeatures, ext: Option<Jv>) -> RateModel {
    let a = with_prompt_extend(
        RateModel { rate: Cost::Num(rule.fixed_rate), desc: saying("按张返回计费"@) },
        f,
        ext,
    );
    match ext_double(ext, "image_ref_multiplier"@) {
        Some(m) => if f.has_image_ref {
            with_factor(a, " [图生图 x"@, m)
        } else {
            a
        },
        None => a,
    }
}

fn rate_per_image(rule: &BillingRule, f: &ExtractedFeatures, ext: &Option<Json>) -> (r: Rated)
    ensures
        r@ == per_image_rate(*rule, *f, opt_json(*ext)),
{
    let a = apply_prompt_extend(
        Rated { rate: Cost::Num(rule.fixed_rate), desc: Detail::start("按张返回计费") },
        f,
        ext,
    );
    match get_ext_double(ext, "image_ref_multiplier") {
        Some(m) => if f.has_image_ref {
            apply_factor(a, " [图生图 x", m)
        } else {
            a
        },
        None => a,
    }
}

/// The price by resolution: that of its tier, or the highest.
pub open spec fn resolution_rate(rule: BillingRule, f: ExtractedFeatures, ext: Option<Jv>) -> RateModel {
    let before = RateModel {
        rate: Cost::Num(rule.fixed_rate),
        desc: said(
            showing(saying("分辨率匹配计费(默认单价: "@), Cost::Num(rule.fixed_rate)),
            ")"@,
        ),
    };
    let res = field_or(f.resolution, "1k"@);
    let a = match rule.tiers.resolution {
        Some(tiers) => match tier_for(tiers@, res, 0) {
            Some(i) => with_ref_factor(
                RateModel {
                    rate: Cost::Num(tiers@[i].rate),
                    desc: showing_fixed(
                        said(said(saying("命中分辨率阶梯 "@), res), " 单价: "@),
                        6,
                        Cost::Num(tiers@[i].rate),
                    ),
                },
                f.has_image_ref,
                tiers@[i].image_ref_multiplier,
            ),
            None => match top_tier(tiers@, tiers@.len() as int) {
                Some(i) => RateModel {
                    rate: Cost::Num(tiers@[i].rate),
                    desc: said(
                        showing_fixed(
                            said(
                                said(
                                    said(said(saying("分辨率"@), res), "未命中,兜底最高阶梯("@),
                                    tiers@[i].resolution@,
                                ),
                                " 单价:"@,
                            ),
                            6,
                            Cost::Num(tiers@[i].rate),
                        ),
                        ")"@,
                    ),
                },
                None => before,
            },
        },
        None => before,
    };
    with_prompt_extend(a, f, ext)
}

fn rate_by_resolution(rule: &BillingRule, f: &ExtractedFeatures, ext: &Option<Json>) -> (r: Rated)
    ensures
        r@ == resolution_rate(*rule, *f, opt_json(*ext)),
{
    let before = Rated {
        rate: Cost::Num(rule.fixed_rate),
        desc: Detail::start("分辨率匹配计费(默认单价: ").number(rule.fixed_rate).text(")"),
    };
    let res = get_field_or(&f.resolution, "1k");
    let a = match &rule.tiers.resolution {
        Some(tiers) => match find_tier(tiers, res) {
            Some(i) => {
                let rate = Cost::Num(tiers[i].rate);
                let desc = Detail::start("命中分辨率阶梯 ").text(res).text(" 单价: ").fixed(
                    6,
                    &rate,
                );
                apply_ref_factor(
                    Rated { rate, desc },
                    f.has_image_ref,
                    tiers[i].image_ref_multiplier,
                )
            },
            None => match find_top_tier(tiers) {
                Some(i) => {
                    let rate = Cost::Num(tiers[i].rate);
                    let desc = Detail::start("分辨率").text(res).text("未命中,兜底最高阶梯(").text(
                        tiers[i].resolution.as_str(),
                    ).text(" 单价:").fixed(6, &rate).text(")");
                    Rated { rate, desc }
                },
                None => before,
            },
        },
        None => before,
    };
    apply_prompt_extend(a, f, ext)
}

// ---------------------------------------------------------------- sizes

/// The quality that is asked for.
pub open spec fn asked_quality(quality: Option<String>) -> Seq<char> {
    field_or(quality, "medium"@)
}

/// The price of a size tier: by quality where each has its own.
pub open spec fn size_tier_rate(tier: SizeTier, quality: Option<String>) -> Double {
    let zero = Double { bits: 0 };
    if tier.quality_pricing {
        let q = asked_quality(quality);
        let r = if q == "low"@ {
            tier.rate_low
        } else if q == "high"@ {
            tier.rate_high
        } else {
            tier.rate_medium
        };
        match r {
            Some(d) => d,
            None => zero,
        }
    } else {
        tier.rate
    }
}

fn rate_of_size_tier(tier: &SizeTier, quality: &Option<String>) -> (r: Double)
    ensures
        r == size_tier_rate(*tier, *quality),
{
    if tier.quality_pricing {
        let q = get_field_or(quality, "medium");
        let r = if same(q, "low") {
            tier.rate_low
        } else if same(q, "high") {
            tier.rate_high
        } else {
            tier.rate_medium
        };
        match r {
            Some(d) => d,
            None => Double { bits: 0 },
        }
    } else {
        tier.rate
    }
}

/// The size of a text in pixels.
pub open spec fn pixels_of(size: Seq<char>) -> Seq<char> {
    pixel_size(small_size(trimmed(size)))
}

/// The first tier in use from `n` on that is for a size in pixels.
pub open spec fn size_tier_for(tiers: Seq<SizeTier>, pixels: Seq<char>, n: int) -> Option<int>
    decreases tiers.len() - n,
{
    if n < 0 || n >= tiers.len() {
        None
    } else if tiers[n].enabled && pixels_of(tiers[n].size@) == pixels {
        Some(n)
    } else {
        size_tier_for(tiers, pixels, n + 1)
    }
}

/// The last of the highest among the first `n` tiers that are in use.
pub open spec fn top_size_tier(tiers: Seq<SizeTier>, quality: Option<String>, n: int) -> Option<int>
    decreases n,
{
    if n <= 0 {
        None
    } else {
        let done = top_size_tier(tiers, quality, n - 1);
        if tiers[n - 1].enabled {
            match done {
                Some(b) => if size_tier_rate(tiers[n - 1], quality).below(
                    size_tier_rate(tiers[b], quality),
                ) {
                    Some(b)
                } else {
                    Some(n - 1)
                },
                None => Some(n - 1),
            }
        } else {
            done
        }
    }
}

fn find_size_tier(tiers: &Vec<SizeTier>, pixels: &str) -> (r: Option<usize>)
    ensures
        match r {
            Some(i) => i < tiers@.len() && size_tier_for(tiers@, pixels@, 0) == Some(i as int),
            None => size_tier_for(tiers@, pixels@, 0) is None,
        },
{
    let mut i: usize = 0;
    while i < tiers.len()
        invariant
            i <= tiers@.len(),
            size_tier_for(tiers@, pixels@, 0) == size_tier_for(tiers@, pixels@, i as int),
        decreases tiers@.len() - i,
    {
        let own = normalize_pixel_size(tiers[i].size.as_str());
        if tiers[i].enabled && same(own.as_str(), pixels) {
            return Some(i);
        }
        i += 1;
    }
    None
}

fn find_top_size_tier(tiers: &Vec<SizeTier>, quality: &Option<String>) -> (r: Option<usize>)
    ensures
        match r {
            Some(i) => i < tiers@.len() && top_size_tier(tiers@, *quality, tiers@.len() as int)
                == Some(i as int),
            None => top_size_tier(tiers@, *quality, tiers@.len() as int) is None,
        },
{
    let mut best: Option<usize> = None;
    let mut i: usize = 0;
    while i < tiers.len()
        invariant
            i <= tiers@.len(),
            match best {
                Some(b) => b < i && top_size_tier(tiers@, *quality, i as int) == Some(b as int),
                None => top_size_tier(tiers@, *quality, i as int) is None,
            },
        decreases tiers@.len() - i,
    {
        if tiers[i].enabled {
            match best {
                Some(b) => {
                    let own = rate_of_size_tier(&tiers[i], quality);
                    let top = rate_of_size_tier(&tiers[b], quality);
                    if !own.lt(top) {
                        best = Some(i);
                    }
                },
                None => {
                    best = Some(i);
                },
            }
        }
        i += 1;
    }
    best
}

/// The price of a tier that was hit.
pub open spec fn hit_size_rate(tier: SizeTier, pixels: Seq<char>, f: ExtractedFeatures) -> RateModel {
    let rate = Cost::Num(size_tier_rate(tier, f.quality));
    let head = said(saying("命中分辨率像素 "@), pixels);
    let named = if tier.quality_pricing {
        said(said(head, " 画质:"@), asked_quality(f.quality))
    } else {
        head
    };
    with_ref_factor(
        RateModel { rate, desc: showing_fixed(said(named, " 单价: "@), 6, rate) },
        f.has_image_ref,
        tier.image_ref_multiplier,
    )
}

/// The price of the highest tier, with the reason for taking it.
pub open spec fn top_size_rate(
    before: RateModel,
    tiers: Seq<SizeTier>,
    reason: Seq<PieceModel>,
    f: ExtractedFeatures,
) -> RateModel {
    match top_size_tier(tiers, f.quality, tiers.len() as int) {
        Some(i) => {
            let rate = Cost::Num(size_tier_rate(tiers[i], f.quality));
            RateModel {
                rate,
                desc: said(
                    showing_fixed(said(said(reason, tiers[i].size@), " 单价:"@), 6, rate),
                    ")"@,
                ),
            }
        },
        None => before,
    }
}

/// The price by size in pixels: that of its tier, or the highest.
pub open spec fn size_rate(rule: BillingRule, f: ExtractedFeatures, ext: Option<Jv>) -> RateModel {
    let before = RateModel {
        rate: Cost::Num(rule.fixed_rate),
        desc: said(
            showing(saying("分辨率像素匹配计费(默认单价: "@), Cost::Num(rule.fixed_rate)),
            ")"@,
        ),
    };
    let raw = field_or(f.size, ""@);
    let pixels = pixels_of(raw);
    let a = match rule.tiers.size {
        Some(tiers) => if pixels.len() > 0 {
            match size_tier_for(tiers@, pixels, 0) {
                Some(i) => hit_size_rate(tiers@[i], pixels, f),
                None => top_size_rate(
                    before,
                    tiers@,
                    said(said(saying("分辨率像素"@), pixels), "未命中,兜底最高阶梯("@),
                    f,
                ),
            }
        } else {
            top_size_rate(
                before,
                tiers@,
                said(said(saying("size("@), raw), ")无法解析,兜底最高阶梯("@),
                f,
            )
        },
        None => before,
    };
    with_prompt_extend(a, f, ext)
}

fn rate_of_top_size(before: Rated, tiers: &Vec<SizeTier>, reason: Detail, f: &ExtractedFeatures) -> (r:
    Rated)
    ensures
        r@ == top_size_rate(before@, tiers@, reason@, *f),
{
    match find_top_size_tier(tiers, &f.quality) {
        Some(i) => {
            let rate = Cost::Num(rate_of_size_tier(&tiers[i], &f.quality));
            let desc = reason.text(tiers[i].size.as_str()).text(" 单价:").fixed(6, &rate).text(")");
            Rated { rate, desc }
        },
        None => before,
    }
}

fn rate_by_size(rule: &BillingRule, f: &ExtractedFeatures, ext: &Option<Json>) -> (r: Rated)
    ensures
        r@ == size_rate(*rule, *f, opt_json(*ext)),
{
    let before = Rated {
        rate: Cost::Num(rule.fixed_rate),
        desc: Detail::start("分辨率像素匹配计费(默认单价: ").number(rule.fixed_rate).text(")"),
    };
    let raw = get_field_or(&f.size, "");
    let pixels = normalize_pixel_size(raw);
    let a = match &rule.tiers.size {
        Some(tiers) => if !pixels.as_str().is_empty() {
            match find_size_tier(tiers, pixels.as_str()) {
                Some(i) => {
                    let rate = Cost::Num(rate_of_size_tier(&tiers[i], &f.quality));
                    let head = Detail::start("命中分辨率像素 ").text(pixels.as_str());
                    let named = if tiers[i].quality_pricing {
                        head.text(" 画质:").text(get_field_or(&f.quality, "medium"))
                    } else {
                        head
                    };
                    let desc = named.text(" 单价: ").fixed(6, &rate);
                    apply_ref_factor(
                        Rated { rate, desc },
                        f.has_image_ref,
                        tiers[i].image_ref_multiplier,
                    )
                },
                None => rate_of_top_size(
                    before,
                    tiers,
                    Detail::start("分辨率像素").text(pixels.as_str()).text("未命中,兜底最高阶梯("),
                    f,
                ),
            }
        } else {
            rate_of_top_size(
                before,
                tiers,
                Detail::start("size(").text(raw).text(")无法解析,兜底最高阶梯("),
                f,
            )
        },
        None => before,
    };
    apply_prompt_extend(a, f, ext)
}

// ---------------------------------------------------------------- Vidu images

/// The kind of a Vidu image, by its reference images.
pub open spec fn vidu_image_kind(f: ExtractedFeatures) -> Seq<char> {
    let n = match f.image_ref_count {
        Some(n) => n as int,
        None => 0,
    };
    if !f.has_image_ref {
        "text"@
    } else if n <= 1 {
        "img2img"@
    } else if n <= 3 {
        "ref_1_3"@
    } else {
        "ref_4_7"@
    }
}

pub fn vidu_image_attr(f: &ExtractedFeatures) -> (r: &'static str)
    ensures
        r@ == vidu_image_kind(*f),
{
    let n: i32 = match f.image_ref_count {
        Some(n) => n,
        None => 0,
    };
    if !f.has_image_ref {
        "text"
    } else if n <= 1 {
        "img2img"
    } else if n <= 3 {
        "ref_1_3"
    } else {
        "ref_4_7"
    }
}

/// The price of a Vidu image, from the table.
pub open spec fn vidu_image_rate(rule: BillingRule, f: ExtractedFeatures, ext: Option<Jv>) -> RateModel {
    let before = RateModel {
        rate: Cost::Num(rule.fixed_rate),
        desc: said(
            showing(saying("Vidu图片查表(默认单价: "@), Cost::Num(rule.fixed_rate)),
            ")"@,
        ),
    };
    match ext {
        Some(e) => from_table(
            before,
            "Vidu图片"@,
            e,
            barred(vidu_image_kind(f), field_or(f.resolution, "1k"@)),
            barred(vidu_image_kind(f), ""@),
        ),
        None => before,
    }
}

fn rate_of_vidu_image(rule: &BillingRule, f: &ExtractedFeatures, ext: &Option<Json>) -> (r: Rated)
    ensures
        r@ == vidu_image_rate(*rule, *f, opt_json(*ext)),
{
    let before = Rated {
        rate: Cost::Num(rule.fixed_rate),
        desc: Detail::start("Vidu图片查表(默认单价: ").number(rule.fixed_rate).text(")"),
    };
    match ext {
        Some(e) => {
            let attr = vidu_image_attr(f);
            let key = with_bar(attr, get_field_or(&f.resolution, "1k"));
            let prefix = with_bar(attr, "");
            rate_from_table(before, "Vidu图片", e, key.as_str(), prefix.as_str())
        },
        None => before,
    }
}

// ---------------------------------------------------------------- Seedream

/// Among the first `n` tiers in use: given a number of pixels, the one with the
/// lowest bound that holds them, the first of equals; without, the one with the
/// highest bound, the last of equals.
pub open spec fn pixel_tier(
    tiers: Seq<SeedreamTier>,
    pixels: Option<Double>,
    n: int,
) -> Option<int>
    decreases n,
{
    if n <= 0 {
        None
    } else {
        let done = pixel_tier(tiers, pixels, n - 1);
        let t = tiers[n - 1];
        match pixels {
            Some(p) => if t.enabled && p.at_most(t.max_pixels_wan) {
                match done {
                    Some(b) => if t.max_pixels_wan.below(tiers[b].max_pixels_wan) {
                        Some(n - 1)
                    } else {
                        Some(b)
                    },
                    None => Some(n - 1),
                }
            } else {
                done
            },
            None => if t.enabled {
                match done {
                    Some(b) => if t.max_pixels_wan.below(tiers[b].max_pixels_wan) {
                        Some(b)
                    } else {
                        Some(n - 1)
                    },
                    None => Some(n - 1),
                }
            } else {
                done
            },
        }
    }
}

/// The tier of an output image: the lowest bound that holds its pixels, or
/// else the highest bound there is.
pub open spec fn seedream_tier(tiers: Seq<SeedreamTier>, pixels: Double) -> Option<int> {
    match pixel_tier(tiers, Some(pixels), tiers.len() as int) {
        Some(i) => Some(i),
        None => pixel_tier(tiers, None, tiers.len() as int),
    }
}

fn find_pixel_tier(tiers: &Vec<SeedreamTier>, pixels: Option<Double>) -> (r: Option<usize>)
    ensures
        match r {
            Some(i) => i < tiers@.len() && pixel_tier(tiers@, pixels, tiers@.len() as int) == Some(
                i as int,
            ),
            None => pixel_tier(tiers@, pixels, tiers@.len() as int) is None,
        },
{
    let mut best: Option<usize> = None;
    let mut i: usize = 0;
    while i < tiers.len()
        invariant
            i <= tiers@.len(),
            match best {
                Some(b) => b < i && pixel_tier(tiers@, pixels, i as int) == Some(b as int),
                None => pixel_tier(tiers@, pixels, i as int) is None,
            },
        decreases tiers@.len() - i,
    {
        let fits = tiers[i].enabled && match pixels {
            Some(p) => p.le(tiers[i].max_pixels_wan),
            None => true,
        };
        if fits {
            match best {
                Some(b) => {
                    let lower = tiers[i].max_pixels_wan.lt(tiers[b].max_pixels_wan);
                    if lower == pixels.is_some() {
                        best = Some(i);
                    }
                },
                None => {
                    best = Some(i);
                },
            }
        }
        i += 1;
    }
    best
}

/// The price of an output image, with its reason.
pub open spec fn seedream_output(rule: BillingRule, pixels: Double) -> (Double, Seq<PieceModel>) {
    match rule.tiers.seedream {
        Some(tiers) => match seedream_tier(tiers@, pixels) {
            Some(i) => (
                tiers@[i].rate,
                said(
                    showing_fixed(
                        said(
                            showing_fixed(
                                saying("命中阶梯(<= "@),
                                0,
                                Cost::Num(tiers@[i].max_pixels_wan),
                            ),
                            "万像素 单价: "@,
                        ),
                        6,
                        Cost::Num(tiers@[i].rate),
                    ),
                    ")"@,
                ),
            ),
            None => (rule.fixed_rate, saying("默认输出单价"@)),
        },
        None => (rule.fixed_rate, saying("默认输出单价"@)),
    }
}

/// The sides of a size whose pixels are counted, as texts.
pub open spec fn counted_sides(size: Seq<char>) -> Option<(Seq<char>, Seq<char>)> {
    match parted(size, "x"@) {
        Some((w, h)) => Some((trimmed(w), trimmed(h))),
        None => None,
    }
}

/// The sides of the size whose pixels are counted, for the caller to read and
/// to multiply; without them an image of 1024 by 1024 is taken.
pub fn seedream_sides(f: &ExtractedFeatures) -> (r: Option<(&str, &str)>)
    ensures
        match r {
            Some((w, h)) => counted_sides(field_or(f.size, "1024x1024"@)) == Some((w@, h@)),
            None => counted_sides(field_or(f.size, "1024x1024"@)) is None,
        },
{
    match split_once(get_field_or(&f.size, "1024x1024"), "x") {
        Some((w, h)) => Some((trim(w), trim(h))),
        None => None,
    }
}

/// Two descriptions, one after the other.
pub open spec fn followed(a: Seq<PieceModel>, b: Seq<PieceModel>) -> Seq<PieceModel> {
    a + b
}

fn follow(a: Detail, b: Detail) -> (r: Detail)
    ensures
        r@ == followed(a@, b@),
{
    let mut pieces = a.pieces;
    let mut rest = b.pieces;
    let ghost x = pieces@;
    let ghost y = rest@;
    pieces.append(&mut rest);
    let r = Detail { pieces };
    assert(r@ =~= followed(a@, b@));
    r
}

/// The bill of a Seedream request: the input images beyond the free ones, and
/// the output images by their pixels.
pub open spec fn seedream_bill(
    rule: BillingRule,
    f: ExtractedFeatures,
    ext: Option<Jv>,
    discount: Double,
    pixels: Double,
) -> BillModel {
    let free = free_images(ext, 1);
    let inputs = match f.image_ref_count {
        Some(n) => n as int,
        None => 0,
    };
    let billable = Cost::Count(floored(inputs - free) as i64);
    let images = Cost::Count(images_or_one(f) as i64);
    let (rate, why) = seedream_output(rule, pixels);
    let input_cost = billable.times(Cost::Num(rule.prompt_rate));
    let output_cost = images.times(Cost::Num(rate));
    let head = showing(
        said(
            showing(
                said(
                    showing(
                        said(
                            showing(
                                said(
                                    showing(
                                        saying("火山SeedreamPro计费 -> (输入图超额:"@),
                                        billable,
                                    ),
                                    "张(共"@,
                                ),
                                Cost::Count(inputs as i64),
                            ),
                            "张,免费"@,
                        ),
                        Cost::Count(free as i64),
                    ),
                    "张)*"@,
                ),
                Cost::Num(rule.prompt_rate),
            ),
            "元/张 + 输出图: "@,
        ),
        images,
    );
    let middle = said(
        showing_fixed(said(head, "张*[总像素: "@), 2, Cost::Num(pixels)),
        "万, "@,
    );
    BillModel {
        cost: input_cost.plus(output_cost).times(Cost::Num(discount)),
        detail: said(
            showing_fixed(said(followed(middle, why), "])*"@), 2, Cost::Num(discount)),
            "倍率"@,
        ),
    }
}

fn bill_seedream(
    rule: &BillingRule,
    f: &ExtractedFeatures,
    ext: &Option<Json>,
    discount: Double,
    pixels: Double,
) -> (r: Bill)
    ensures
        r@ == seedream_bill(*rule, *f, opt_json(*ext), discount, pixels),
{
    let free: i32 = free_image_count(ext, 1);
    let inputs: i32 = match f.image_ref_count {
        Some(n) => n,
        None => 0,
    };
    let over: i64 = inputs as i64 - free as i64;
    let billable: i64 = if over > 0 {
        over
    } else {
        0
    };
    let images: i64 = count_images(f);
    let found = match &rule.tiers.seedream {
        Some(tiers) => match find_pixel_tier(tiers, Some(pixels)) {
            Some(i) => Some((tiers[i].rate, tiers[i].max_pixels_wan)),
            None => match find_pixel_tier(tiers, None) {
                Some(i) => Some((tiers[i].rate, tiers[i].max_pixels_wan)),
                None => None,
            },
        },
        None => None,
    };
    let (rate, why) = match found {
        Some((rate, bound)) => {
            let shown_bound = Cost::Num(bound);
            let shown_rate = Cost::Num(rate);
            (
                rate,
                Detail::start("命中阶梯(<= ").fixed(0, &shown_bound).text("万像素 单价: ").fixed(
                    6,
                    &shown_rate,
                ).text(")"),
            )
        },
        None => (rule.fixed_rate, Detail::start("默认输出单价")),
    };
    let input_cost = Cost::Count(billable).product(Cost::Num(rule.prompt_rate));
    let output_cost = Cost::Count(images).product(Cost::Num(rate));
    let shown_pixels = Cost::Num(pixels);
    let shown_discount = Cost::Num(discount);
    let middle = Detail::start("火山SeedreamPro计费 -> (输入图超额:").count(billable).text(
        "张(共",
    ).count(inputs as i64).text("张,免费").count(free as i64).text("张)*").number(
        rule.prompt_rate,
    ).text("元/张 + 输出图: ").count(images).text("张*[总像素: ").fixed(2, &shown_pixels).text(
        "万, ",
    );
    let detail = follow(middle, why).text("])*").fixed(2, &shown_discount).text("倍率");
    Bill {
        cost: input_cost.sum(output_cost).product(Cost::Num(discount)),
        detail,
    }
}

// ---------------------------------------------------------------- the whole

/// The quantity that a request is billed for.
pub open spec fn request_count(rule: BillingRule, f: ExtractedFeatures) -> Cost {
    let kind = rule.billing_rule@;
    if kind == "per_image"@ {
        match f.image_count {
            Some(c) => if c > 0 {
                Cost::Count(c as i64)
            } else {
                Cost::Count(0)
            },
            None => Cost::Count(0),
        }
    } else if kind == "image_resolution"@ || kind == "image_size_pixel"@ || kind == "vidu_image"@ {
        Cost::Count(images_or_one(f) as i64)
    } else if kind == "characters"@ {
        Cost::Count(
            match f.text_characters {
                Some(n) => n as i64,
                None => 0,
            },
        ).over(Cost::Count(10000))
    } else {
        Cost::Count(1)
    }
}

/// The price of a request.
pub open spec fn request_rate(rule: BillingRule, f: ExtractedFeatures, ext: Option<Jv>) -> RateModel {
    let kind = rule.billing_rule@;
    if kind == "per_image"@ {
        per_image_rate(rule, f, ext)
    } else if kind == "image_resolution"@ {
        resolution_rate(rule, f, ext)
    } else if kind == "image_size_pixel"@ {
        size_rate(rule, f, ext)
    } else if kind == "vidu_image"@ {
        vidu_image_rate(rule, f, ext)
    } else if kind == "characters"@ {
        RateModel {
            rate: Cost::Num(rule.fixed_rate),
            desc: said(
                showing(
                    saying("按字符计费("@),
                    Cost::Count(
                        match f.text_characters {
                            Some(n) => n as i64,
                            None => 0,
                        },
                    ),
                ),
                "字符)"@,
            ),
        }
    } else {
        RateModel { rate: Cost::Num(rule.fixed_rate), desc: saying("固定按次计费"@) }
    }
}

/// The bill of a request that is billed by request.
pub open spec fn requests_bill(
    rule: BillingRule,
    f: ExtractedFeatures,
    ext: Option<Jv>,
    discount: Double,
    pixels: Double,
) -> BillModel {
    if rule.billing_rule@ == "volc_seedream_pro"@ {
        seedream_bill(rule, f, ext, discount, pixels)
    } else {
        let count = request_count(rule, f);
        let r = request_rate(rule, f, ext);
        BillModel {
            cost: count.times(r.rate).times(Cost::Num(discount)),
            detail: said(
                showing_fixed(
                    said(
                        showing_fixed(
                            said(showing(said(r.desc, " -> ("@), count), "量 * "@),
                            6,
                            r.rate,
                        ),
                        "单价 * "@,
                    ),
                    2,
                    Cost::Num(discount),
                ),
                "倍率)"@,
            ),
        }
    }
}

fn count_of_request(rule: &BillingRule, f: &ExtractedFeatures) -> (r: Cost)
    ensures
        r == request_count(*rule, *f),
{
    let kind = rule.billing_rule.as_str();
    if same(kind, "per_image") {
        match f.image_count {
            Some(c) => if c > 0 {
                Cost::Count(c as i64)
            } else {
                Cost::Count(0)
            },
            None => Cost::Count(0),
        }
    } else if same(kind, "image_resolution") || same(kind, "image_size_pixel") || same(
        kind,
        "vidu_image",
    ) {
        Cost::Count(count_images(f))
    } else if same(kind, "characters") {
        let n: i64 = match f.text_characters {
            Some(n) => n as i64,
            None => 0,
        };
        Cost::Count(n).quotient(Cost::Count(10000))
    } else {
        Cost::Count(1)
    }
}

fn rate_of_request(rule: &BillingRule, f: &ExtractedFeatures, ext: &Option<Json>) -> (r: Rated)
    ensures
        r@ == request_rate(*rule, *f, opt_json(*ext)),
{
    let kind = rule.billing_rule.as_str();
    if same(kind, "per_image") {
        rate_per_image(rule, f, ext)
    } else if same(kind, "image_resolution") {
        rate_by_resolution(rule, f, ext)
    } else if same(kind, "image_size_pixel") {
        rate_by_size(rule, f, ext)
    } else if same(kind, "vidu_image") {
        rate_of_vidu_image(rule, f, ext)
    } else if same(kind, "characters") {
        let n: i64 = match f.text_characters {
            Some(n) => n as i64,
            None => 0,
        };
        Rated {
            rate: Cost::Num(rule.fixed_rate),
            desc: Detail::start("按字符计费(").count(n).text("字符)"),
        }
    } else {
        Rated { rate: Cost::Num(rule.fixed_rate), desc: Detail::start("固定按次计费") }
    }
}

/// Bills a request by request.
pub fn bill_requests(
    rule: &BillingRule,
    f: &ExtractedFeatures,
    ext: &Option<Json>,
    discount: Double,
    pixels: Double,
) -> (r: Bill)
    ensures
        r@ == requests_bill(*rule, *f, opt_json(*ext), discount, pixels),
{
    if same(rule.billing_rule.as_str(), "volc_seedream_pro") {
        return bill_seedream(rule, f, ext, discount, pixels);
    }
    let count = count_of_request(rule, f);
    let r = rate_of_request(rule, f, ext);
    let shown_discount = Cost::Num(discount);
    let detail = r.desc.text(" -> (").shown(&count).text("量 * ").fixed(6, &r.rate).text(
        "单价 * ",
    ).fixed(2, &shown_discount).text("倍率)");
    Bill { cost: count.product(r.rate).product(Cost::Num(discount)), detail }
}

} // verus!
