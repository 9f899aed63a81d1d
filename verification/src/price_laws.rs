//! What holds of the prices behind bills: which tier or table entry is taken,
//! and what a request, an image or a second costs by it.
use vstd::prelude::*;
use vstd::string::*;
use crate::bill::{
    tier_for, top_tier, BillingRule, ExtractedFeatures, Measures, PricingTier, ResolutionTier,
    SeedreamTier, SizeTier,
};
use crate::bill_requests::{pixel_tier, pixels_of, size_tier_for};
use crate::bill_tokens::{highest_bound, lowest_holding};
use crate::billing::{full_bill, raw_bill, relay_bill, scaled_bill, Settlement};
use crate::billing_laws::{is_by_tokens, is_ordinary};
use crate::cost::{amount, lemma_exchange, lemma_neutral, product, quotient, Cost};
use crate::double::{double_at, is_nan, is_neutral, whole_number, Double, TIME_HIGH, TIME_LOW};
use crate::json::{parsed_json, Jv};
use crate::text::{ascii_small, small_letters};
use crate::usage::UsageTokens;

verus! {

// ---------------------------------------------------------------- tiers

/// Whether a tier is in use for a resolution.
pub open spec fn fits(t: ResolutionTier, res: Seq<char>) -> bool {
    t.enabled && ascii_small(t.resolution@) == ascii_small(res)
}

/// Whether a tier is the first in use for a resolution.
pub open spec fn is_first_fitting(tiers: Seq<ResolutionTier>, res: Seq<char>, i: int) -> bool {
    &&& 0 <= i < tiers.len()
    &&& fits(tiers[i], res)
    &&& forall|j: int| 0 <= j < i ==> !fits(#[trigger] tiers[j], res)
}

/// Whether a tier is the first of the dearest that are in use.
pub open spec fn is_first_dearest(tiers: Seq<ResolutionTier>, i: int) -> bool {
    &&& 0 <= i < tiers.len()
    &&& tiers[i].enabled
    &&& forall|j: int|
        0 <= j < tiers.len() && (#[trigger] tiers[j]).enabled ==> tiers[j].rate.at_most(
            tiers[i].rate,
        )
    &&& forall|j: int|
        0 <= j < i && (#[trigger] tiers[j]).enabled ==> tiers[j].rate.below(tiers[i].rate)
}

proof fn lemma_tier_for(tiers: Seq<ResolutionTier>, res: Seq<char>, i: int, n: int)
    requires
        is_first_fitting(tiers, res, i),
        0 <= n <= i,
    ensures
        tier_for(tiers, res, n) == Some(i),
    decreases i - n,
{
    if n < i {
        assert(!fits(tiers[n], res));
        lemma_tier_for(tiers, res, i, n + 1);
    }
}

proof fn lemma_no_tier_for(tiers: Seq<ResolutionTier>, res: Seq<char>, n: int)
    requires
        forall|j: int| 0 <= j < tiers.len() ==> !fits(#[trigger] tiers[j], res),
        0 <= n <= tiers.len(),
    ensures
        tier_for(tiers, res, n) is None,
    decreases tiers.len() - n,
{
    if n < tiers.len() {
        assert(!fits(tiers[n], res));
        lemma_no_tier_for(tiers, res, n + 1);
    }
}

proof fn lemma_top_within(tiers: Seq<ResolutionTier>, n: int)
    requires
        0 <= n <= tiers.len(),
    ensures
        top_tier(tiers, n) matches Some(b) ==> 0 <= b < n && tiers[b].enabled,
    decreases n,
{
    if n > 0 {
        lemma_top_within(tiers, n - 1);
    }
}

proof fn lemma_top_tier(tiers: Seq<ResolutionTier>, i: int, n: int)
    requires
        is_first_dearest(tiers, i),
        i < n <= tiers.len(),
    ensures
        top_tier(tiers, n) == Some(i),
    decreases n,
{
    lemma_top_within(tiers, n - 1);
    if n - 1 > i {
        lemma_top_tier(tiers, i, n - 1);
        if tiers[n - 1].enabled {
            assert(tiers[n - 1].rate.at_most(tiers[i].rate));
        }
    } else if top_tier(tiers, n - 1) is Some {
        let b = top_tier(tiers, n - 1)->Some_0;
        assert(tiers[b].rate.below(tiers[i].rate));
    }
}

// ---------------------------------------------------------------- by request

/// A rule by request that names no scheme has one price.
pub proof fn law_price_of_a_request(
    rule: BillingRule,
    u: UsageTokens,
    f: ExtractedFeatures,
    m: Measures,
    d: Double,
    num: spec_fn(Double) -> real,
)
    requires
        rule.billing_type@ == "requests"@,
        rule.billing_rule@ != "per_image"@,
        rule.billing_rule@ != "image_resolution"@,
        rule.billing_rule@ != "image_size_pixel"@,
        rule.billing_rule@ != "vidu_image"@,
        rule.billing_rule@ != "characters"@,
        rule.billing_rule@ != "volc_seedream_pro"@,
    ensures
        amount(raw_bill(Some(rule), u, f, d, m).cost, num) == product(
            num(rule.fixed_rate),
            num(d),
        ),
{
    reveal_with_fuel(amount, 5);
    lemma_neutral(num(rule.fixed_rate));
}

/// By image a request costs its price for each image that was made; no image
/// costs nothing.
pub proof fn law_price_of_images(
    rule: BillingRule,
    u: UsageTokens,
    f: ExtractedFeatures,
    m: Measures,
    d: Double,
    num: spec_fn(Double) -> real,
    n: int,
)
    requires
        rule.billing_type@ == "requests"@,
        rule.billing_rule@ == "per_image"@,
        !f.prompt_extend,
        !f.has_image_ref,
        n == (match f.image_count {
            Some(c) => if c > 0 {
                c as int
            } else {
                0
            },
            None => 0,
        }),
    ensures
        amount(raw_bill(Some(rule), u, f, d, m).cost, num) == product(
            product(n as real, num(rule.fixed_rate)),
            num(d),
        ),
{
    reveal_with_fuel(amount, 5);
    reveal_strlit("characters");
    reveal_strlit("image_resolution");
    reveal_strlit("image_size_pixel");
    reveal_strlit("per_image");
    reveal_strlit("vidu_image");
    reveal_strlit("volc_seedream_pro");
    assert("characters"@.len() == 10);
    assert("image_resolution"@.len() == 16);
    assert("image_size_pixel"@.len() == 16);
    assert("per_image"@.len() == 9);
    assert("vidu_image"@.len() == 10);
    assert("volc_seedream_pro"@.len() == 17);
    assert("characters"@[0] == 'c');
    assert("vidu_image"@[0] == 'v');
    assert("image_resolution"@[6] == 'r');
    assert("image_size_pixel"@[6] == 's');
}

/// By image a request with reference images costs its factor for them times
/// what it costs without.
pub proof fn law_reference_images_factor(
    rule: BillingRule,
    u: UsageTokens,
    f: ExtractedFeatures,
    m: Measures,
    d: Double,
    num: spec_fn(Double) -> real,
    e: Jv,
    x: Double,
)
    requires
        rule.billing_type@ == "requests"@,
        rule.billing_rule@ == "per_image"@,
        parsed_json(rule.extended_config@) == Some(e),
        double_at(e, "image_ref_multiplier"@) == Some(x),
    ensures
        amount(
            raw_bill(Some(rule), u, (ExtractedFeatures { has_image_ref: true, ..f }), d, m).cost,
            num,
        ) == product(
            amount(
                raw_bill(
                    Some(rule),
                    u,
                    (ExtractedFeatures { has_image_ref: false, ..f }),
                    d,
                    m,
                ).cost,
                num,
            ),
            num(x),
        ),
{
    let g = ExtractedFeatures { has_image_ref: false, ..f };
    let h = ExtractedFeatures { has_image_ref: true, ..f };
    let plain = raw_bill(Some(rule), u, g, d, m).cost;
    let dear = raw_bill(Some(rule), u, h, d, m).cost;
    reveal_strlit("characters");
    reveal_strlit("image_resolution");
    reveal_strlit("image_size_pixel");
    reveal_strlit("per_image");
    reveal_strlit("vidu_image");
    reveal_strlit("volc_seedream_pro");
    assert("characters"@.len() == 10);
    assert("image_resolution"@.len() == 16);
    assert("image_size_pixel"@.len() == 16);
    assert("per_image"@.len() == 9);
    assert("vidu_image"@.len() == 10);
    assert("volc_seedream_pro"@.len() == 17);
    assert("characters"@[0] == 'c');
    assert("vidu_image"@[0] == 'v');
    assert("image_resolution"@[6] == 'r');
    assert("image_size_pixel"@[6] == 's');
    reveal_with_fuel(amount, 4);
    let n = *(*plain->Product_0)->Product_0;
    let r = *(*plain->Product_0)->Product_1;
    assert(plain == n.times(r).times(Cost::Num(d)));
    assert(dear == n.times(r.times(Cost::Num(x))).times(Cost::Num(d)));
    lemma_exchange(amount(n, num), amount(r, num), num(x));
    lemma_exchange(product(amount(n, num), amount(r, num)), num(x), num(d));
}

/// An extended prompt costs its factor times what the request costs without,
/// where images are billed by number, by resolution or by size.
pub proof fn law_prompt_extension_factor(
    rule: BillingRule,
    u: UsageTokens,
    f: ExtractedFeatures,
    m: Measures,
    d: Double,
    num: spec_fn(Double) -> real,
    e: Jv,
    x: Double,
)
    requires
        rule.billing_type@ == "requests"@,
        rule.billing_rule@ == "per_image"@ || rule.billing_rule@ == "image_resolution"@
            || rule.billing_rule@ == "image_size_pixel"@,
        parsed_json(rule.extended_config@) == Some(e),
        double_at(e, "prompt_extend_multiplier"@) == Some(x),
        rule.billing_rule@ == "per_image"@ ==> !f.has_image_ref,
    ensures
        amount(
            raw_bill(Some(rule), u, (ExtractedFeatures { prompt_extend: true, ..f }), d, m).cost,
            num,
        ) == product(
            amount(
                raw_bill(
                    Some(rule),
                    u,
                    (ExtractedFeatures { prompt_extend: false, ..f }),
                    d,
                    m,
                ).cost,
                num,
            ),
            num(x),
        ),
{
    let g = ExtractedFeatures { prompt_extend: false, ..f };
    let h = ExtractedFeatures { prompt_extend: true, ..f };
    let plain = raw_bill(Some(rule), u, g, d, m).cost;
    let dear = raw_bill(Some(rule), u, h, d, m).cost;
    reveal_strlit("characters");
    reveal_strlit("image_resolution");
    reveal_strlit("image_size_pixel");
    reveal_strlit("per_image");
    reveal_strlit("vidu_image");
    reveal_strlit("volc_seedream_pro");
    assert("characters"@.len() == 10);
    assert("image_resolution"@.len() == 16);
    assert("image_size_pixel"@.len() == 16);
    assert("per_image"@.len() == 9);
    assert("vidu_image"@.len() == 10);
    assert("volc_seedream_pro"@.len() == 17);
    assert("characters"@[0] == 'c');
    assert("vidu_image"@[0] == 'v');
    assert("image_resolution"@[6] == 'r');
    assert("image_size_pixel"@[6] == 's');
    reveal_with_fuel(amount, 4);
    let n = *(*plain->Product_0)->Product_0;
    let r = *(*plain->Product_0)->Product_1;
    assert(plain == n.times(r).times(Cost::Num(d)));
    assert(dear == n.times(r.times(Cost::Num(x))).times(Cost::Num(d)));
    lemma_exchange(amount(n, num), amount(r, num), num(x));
    lemma_exchange(product(amount(n, num), amount(r, num)), num(x), num(d));
}

/// The number of images that a request is billed for: one at least.
pub open spec fn billed_images(f: ExtractedFeatures) -> int {
    match f.image_count {
        Some(c) => if c >= 1 {
            c as int
        } else {
            1
        },
        None => 1,
    }
}

/// By resolution each image costs the price of the first tier in use for it,
/// or of the dearest tier where there is none.
pub proof fn law_price_by_resolution(
    rule: BillingRule,
    u: UsageTokens,
    f: ExtractedFeatures,
    m: Measures,
    d: Double,
    num: spec_fn(Double) -> real,
    tiers: Vec<ResolutionTier>,
    res: Seq<char>,
    i: int,
)
    requires
        rule.billing_type@ == "requests"@,
        rule.billing_rule@ == "image_resolution"@,
        !f.prompt_extend,
        !f.has_image_ref,
        rule.tiers.resolution == Some(tiers),
        res == (match f.resolution {
            Some(r) => r@,
            None => "1k"@,
        }),
        is_first_fitting(tiers@, res, i) || ((forall|j: int|
            0 <= j < tiers@.len() ==> !fits(#[trigger] tiers@[j], res)) && is_first_dearest(
            tiers@,
            i,
        )),
    ensures
        amount(raw_bill(Some(rule), u, f, d, m).cost, num) == product(
            product(billed_images(f) as real, num(tiers@[i].rate)),
            num(d),
        ),
{
    reveal_strlit("characters");
    reveal_strlit("image_resolution");
    reveal_strlit("image_size_pixel");
    reveal_strlit("per_image");
    reveal_strlit("vidu_image");
    reveal_strlit("volc_seedream_pro");
    assert("characters"@.len() == 10);
    assert("image_resolution"@.len() == 16);
    assert("image_size_pixel"@.len() == 16);
    assert("per_image"@.len() == 9);
    assert("vidu_image"@.len() == 10);
    assert("volc_seedream_pro"@.len() == 17);
    assert("characters"@[0] == 'c');
    assert("vidu_image"@[0] == 'v');
    assert("image_resolution"@[6] == 'r');
    assert("image_size_pixel"@[6] == 's');
    reveal_with_fuel(amount, 5);
    if is_first_fitting(tiers@, res, i) {
        lemma_tier_for(tiers@, res, i, 0);
    } else {
        lemma_no_tier_for(tiers@, res, 0);
        lemma_top_tier(tiers@, i, tiers@.len() as int);
    }
}

/// By characters a request costs its price for ten thousand of them.
pub proof fn law_price_of_characters(
    rule: BillingRule,
    u: UsageTokens,
    f: ExtractedFeatures,
    m: Measures,
    d: Double,
    num: spec_fn(Double) -> real,
    n: int,
)
    requires
        rule.billing_type@ == "requests"@,
        rule.billing_rule@ == "characters"@,
        n == (match f.text_characters {
            Some(c) => c as int,
            None => 0,
        }),
    ensures
        amount(raw_bill(Some(rule), u, f, d, m).cost, num) == product(
            product(quotient(n as real, 10000real), num(rule.fixed_rate)),
            num(d),
        ),
{
    reveal_strlit("characters");
    reveal_strlit("image_resolution");
    reveal_strlit("image_size_pixel");
    reveal_strlit("per_image");
    reveal_strlit("vidu_image");
    reveal_strlit("volc_seedream_pro");
    assert("characters"@.len() == 10);
    assert("image_resolution"@.len() == 16);
    assert("image_size_pixel"@.len() == 16);
    assert("per_image"@.len() == 9);
    assert("vidu_image"@.len() == 10);
    assert("volc_seedream_pro"@.len() == 17);
    assert("characters"@[0] == 'c');
    assert("vidu_image"@[0] == 'v');
    assert("image_resolution"@[6] == 'r');
    assert("image_size_pixel"@[6] == 's');
    reveal_with_fuel(amount, 6);
}

/// The price that a table has under a key that is not switched off.
pub open spec fn has_price(e: Jv, key: Seq<char>, price: Double) -> bool {
    &&& e.member("price_table_disabled"@) is None
    &&& e.member("price_table"@) is Some
    &&& double_at(e.member("price_table"@)->Some_0, key) == Some(price)
}

/// A Vidu image costs what the table says of its kind and its resolution: made
/// of text, of one image, or of a few or of many references.
pub proof fn law_price_of_vidu_images(
    rule: BillingRule,
    u: UsageTokens,
    f: ExtractedFeatures,
    m: Measures,
    d: Double,
    num: spec_fn(Double) -> real,
    e: Jv,
    kind: Seq<char>,
    res: Seq<char>,
    price: Double,
)
    requires
        rule.billing_type@ == "requests"@,
        rule.billing_rule@ == "vidu_image"@,
        parsed_json(rule.extended_config@) == Some(e),
        res == (match f.resolution {
            Some(r) => r@,
            None => "1k"@,
        }),
        !f.has_image_ref ==> kind == "text"@,
        f.has_image_ref ==> (f.image_ref_count matches Some(n) ==> {
            &&& n <= 1 ==> kind == "img2img"@
            &&& 2 <= n <= 3 ==> kind == "ref_1_3"@
            &&& n >= 4 ==> kind == "ref_4_7"@
        }),
        f.has_image_ref && f.image_ref_count is None ==> kind == "img2img"@,
        has_price(e, kind + "|"@ + res, price),
    ensures
        amount(raw_bill(Some(rule), u, f, d, m).cost, num) == product(
            product(billed_images(f) as real, num(price)),
            num(d),
        ),
{
    reveal_strlit("characters");
    reveal_strlit("image_resolution");
    reveal_strlit("image_size_pixel");
    reveal_strlit("per_image");
    reveal_strlit("vidu_image");
    reveal_strlit("volc_seedream_pro");
    assert("characters"@.len() == 10);
    assert("image_resolution"@.len() == 16);
    assert("image_size_pixel"@.len() == 16);
    assert("per_image"@.len() == 9);
    assert("vidu_image"@.len() == 10);
    assert("volc_seedream_pro"@.len() == 17);
    assert("characters"@[0] == 'c');
    assert("vidu_image"@[0] == 'v');
    assert("image_resolution"@[6] == 'r');
    assert("image_size_pixel"@[6] == 's');
    reveal_with_fuel(amount, 5);
    assert(!crate::price_table::is_disabled(e, kind + "|"@ + res));
}

// ---------------------------------------------------------------- Seedream

/// Whether a tier is the first with the lowest bound that holds so many
/// pixels.
pub open spec fn is_lowest_holding(tiers: Seq<SeedreamTier>, pixels: Double, i: int) -> bool {
    &&& 0 <= i < tiers.len()
    &&& tiers[i].enabled && pixels.at_most(tiers[i].max_pixels_wan)
    &&& forall|j: int|
        0 <= j < tiers.len() && (#[trigger] tiers[j]).enabled && pixels.at_most(
            tiers[j].max_pixels_wan,
        ) ==> tiers[i].max_pixels_wan.at_most(tiers[j].max_pixels_wan)
    &&& forall|j: int|
        0 <= j < i && (#[trigger] tiers[j]).enabled && pixels.at_most(tiers[j].max_pixels_wan)
            ==> tiers[i].max_pixels_wan.below(tiers[j].max_pixels_wan)
}

proof fn lemma_pixel_within(tiers: Seq<SeedreamTier>, pixels: Double, n: int)
    requires
        0 <= n <= tiers.len(),
    ensures
        pixel_tier(tiers, Some(pixels), n) matches Some(b) ==> 0 <= b < n && tiers[b].enabled
            && pixels.at_most(tiers[b].max_pixels_wan),
    decreases n,
{
    if n > 0 {
        lemma_pixel_within(tiers, pixels, n - 1);
    }
}

proof fn lemma_pixel_tier(tiers: Seq<SeedreamTier>, pixels: Double, i: int, n: int)
    requires
        is_lowest_holding(tiers, pixels, i),
        i < n <= tiers.len(),
    ensures
        pixel_tier(tiers, Some(pixels), n) == Some(i),
    decreases n,
{
    lemma_pixel_within(tiers, pixels, n - 1);
    if n - 1 > i {
        lemma_pixel_tier(tiers, pixels, i, n - 1);
        if tiers[n - 1].enabled && pixels.at_most(tiers[n - 1].max_pixels_wan) {
            assert(tiers[i].max_pixels_wan.at_most(tiers[n - 1].max_pixels_wan));
        }
    } else if pixel_tier(tiers, Some(pixels), n - 1) is Some {
        let b = pixel_tier(tiers, Some(pixels), n - 1)->Some_0;
        assert(tiers[i].max_pixels_wan.below(tiers[b].max_pixels_wan));
    }
}

/// The images that a configuration gives away: a whole number that it names,
/// or else so many, but never less than none.
pub open spec fn given_away(e: Option<Jv>, default: int) -> int {
    let named = match e {
        Some(v) => match v.member("free_image_count"@) {
            Some(n) => whole_number(n),
            None => None,
        },
        None => None,
    };
    let n = match named {
        Some(i) => i,
        None => default,
    };
    if n < 0 {
        0
    } else if n > i32::MAX {
        i32::MAX as int
    } else {
        n
    }
}

/// A Seedream request costs its input price for each image beyond those that
/// are free, and for each output image the price of the lowest tier that holds
/// its pixels.
pub proof fn law_price_of_seedream(
    rule: BillingRule,
    u: UsageTokens,
    f: ExtractedFeatures,
    m: Measures,
    d: Double,
    num: spec_fn(Double) -> real,
    tiers: Vec<SeedreamTier>,
    i: int,
    extra: int,
)
    requires
        rule.billing_type@ == "requests"@,
        rule.billing_rule@ == "volc_seedream_pro"@,
        rule.tiers.seedream == Some(tiers),
        is_lowest_holding(tiers@, m.pixels_wan, i),
        extra == (match f.image_ref_count {
            Some(n) => n as int,
            None => 0,
        }) - given_away(parsed_json(rule.extended_config@), 1),
    ensures
        amount(raw_bill(Some(rule), u, f, d, m).cost, num) == product(
            product(
                if extra > 0 {
                    extra as real
                } else {
                    0real
                },
                num(rule.prompt_rate),
            ) + product(billed_images(f) as real, num(tiers@[i].rate)),
            num(d),
        ),
{
    reveal_with_fuel(amount, 6);
    lemma_pixel_tier(tiers@, m.pixels_wan, i, tiers@.len() as int);
}

// ---------------------------------------------------------------- sizes

/// Whether a tier is in use for a size in pixels.
pub open spec fn fits_size(t: SizeTier, pixels: Seq<char>) -> bool {
    t.enabled && pixels_of(t.size@) == pixels
}

proof fn lemma_size_tier_for(tiers: Seq<SizeTier>, pixels: Seq<char>, i: int, n: int)
    requires
        0 <= n <= i < tiers.len(),
        fits_size(tiers[i], pixels),
        forall|j: int| 0 <= j < i ==> !fits_size(#[trigger] tiers[j], pixels),
    ensures
        size_tier_for(tiers, pixels, n) == Some(i),
    decreases i - n,
{
    if n < i {
        assert(!fits_size(tiers[n], pixels));
        lemma_size_tier_for(tiers, pixels, i, n + 1);
    }
}

/// By size each image costs the price of the first tier in use for its size in
/// pixels; where a tier has prices by quality, the quality decides, and a
/// medium one is taken where none is named.
pub proof fn law_price_by_size(
    rule: BillingRule,
    u: UsageTokens,
    f: ExtractedFeatures,
    m: Measures,
    d: Double,
    num: spec_fn(Double) -> real,
    tiers: Vec<SizeTier>,
    size: String,
    i: int,
)
    requires
        rule.billing_type@ == "requests"@,
        rule.billing_rule@ == "image_size_pixel"@,
        !f.prompt_extend,
        !f.has_image_ref,
        rule.tiers.size == Some(tiers),
        f.size == Some(size),
        pixels_of(size@).len() > 0,
        0 <= i < tiers@.len(),
        fits_size(tiers@[i], pixels_of(size@)),
        forall|j: int| 0 <= j < i ==> !fits_size(#[trigger] tiers@[j], pixels_of(size@)),
    ensures
        ({
            let t = tiers@[i];
            let cost = amount(raw_bill(Some(rule), u, f, d, m).cost, num);
            let n = billed_images(f) as real;
            &&& !t.quality_pricing ==> cost == product(product(n, num(t.rate)), num(d))
            &&& t.quality_pricing && (f.quality matches Some(q) && q@ == "low"@) ==> (
            t.rate_low matches Some(x) ==> cost == product(product(n, num(x)), num(d)))
            &&& t.quality_pricing && (f.quality matches Some(q) && q@ == "high"@) ==> (
            t.rate_high matches Some(x) ==> cost == product(product(n, num(x)), num(d)))
            &&& t.quality_pricing && (f.quality matches Some(q) ==> q@ == "medium"@) ==> (
            t.rate_medium matches Some(x) ==> cost == product(product(n, num(x)), num(d)))
        }),
{
    reveal_strlit("characters");
    reveal_strlit("high");
    reveal_strlit("image_resolution");
    reveal_strlit("image_size_pixel");
    reveal_strlit("low");
    reveal_strlit("medium");
    reveal_strlit("per_image");
    reveal_strlit("vidu_image");
    reveal_strlit("volc_seedream_pro");
    assert("characters"@.len() == 10);
    assert("high"@.len() == 4);
    assert("image_resolution"@.len() == 16);
    assert("image_size_pixel"@.len() == 16);
    assert("low"@.len() == 3);
    assert("medium"@.len() == 6);
    assert("per_image"@.len() == 9);
    assert("vidu_image"@.len() == 10);
    assert("volc_seedream_pro"@.len() == 17);
    assert("characters"@[0] == 'c');
    assert("vidu_image"@[0] == 'v');
    assert("image_resolution"@[6] == 'r');
    assert("image_size_pixel"@[6] == 's');
    reveal_with_fuel(amount, 5);
    lemma_size_tier_for(tiers@, pixels_of(size@), i, 0);
}

// ---------------------------------------------------------------- by duration

/// A rule by duration that names no scheme has one price for a second.
pub proof fn law_price_of_a_second(
    rule: BillingRule,
    u: UsageTokens,
    f: ExtractedFeatures,
    m: Measures,
    d: Double,
    num: spec_fn(Double) -> real,
    seconds: Double,
)
    requires
        rule.billing_type@ == "duration"@,
        f.duration_seconds == Some(seconds),
        rule.billing_rule@ != "minimax_h3"@,
        rule.billing_rule@ != "video_resolution"@,
        rule.billing_rule@ != "video_quality"@,
        rule.billing_rule@ != "kling_video"@,
        rule.billing_rule@ != "vidu_video"@,
        rule.billing_rule@ != "volc_enhance_cascade"@,
    ensures
        amount(raw_bill(Some(rule), u, f, d, m).cost, num) == product(
            product(num(seconds), num(rule.duration_rate)),
            num(d),
        ),
{
    reveal_with_fuel(amount, 5);
    reveal_strlit("duration");
    reveal_strlit("requests");
    assert("duration"@.len() == 8);
    assert("requests"@.len() == 8);
    assert("duration"@[0] == 'd');
    assert("requests"@[0] == 'r');
}

/// By resolution a second costs the price of the first tier in use for it, or
/// of the dearest tier where there is none.
pub proof fn law_second_by_resolution(
    rule: BillingRule,
    u: UsageTokens,
    f: ExtractedFeatures,
    m: Measures,
    d: Double,
    num: spec_fn(Double) -> real,
    seconds: Double,
    tiers: Vec<ResolutionTier>,
    res: String,
    i: int,
)
    requires
        rule.billing_type@ == "duration"@,
        rule.billing_rule@ == "video_resolution"@,
        f.duration_seconds == Some(seconds),
        f.resolution == Some(res),
        rule.tiers.resolution == Some(tiers),
        is_first_fitting(tiers@, res@, i) || ((forall|j: int|
            0 <= j < tiers@.len() ==> !fits(#[trigger] tiers@[j], res@)) && is_first_dearest(
            tiers@,
            i,
        )),
    ensures
        amount(raw_bill(Some(rule), u, f, d, m).cost, num) == product(
            product(num(seconds), num(tiers@[i].rate)),
            num(d),
        ),
{
    reveal_strlit("duration");
    reveal_strlit("kling_video");
    reveal_strlit("minimax_h3");
    reveal_strlit("requests");
    reveal_strlit("video_quality");
    reveal_strlit("video_resolution");
    reveal_strlit("vidu_video");
    reveal_strlit("volc_enhance_cascade");
    assert("duration"@.len() == 8);
    assert("kling_video"@.len() == 11);
    assert("minimax_h3"@.len() == 10);
    assert("requests"@.len() == 8);
    assert("video_quality"@.len() == 13);
    assert("video_resolution"@.len() == 16);
    assert("vidu_video"@.len() == 10);
    assert("volc_enhance_cascade"@.len() == 20);
    assert("duration"@[0] == 'd');
    assert("requests"@[0] == 'r');
    assert("minimax_h3"@[0] == 'm');
    assert("vidu_video"@[0] == 'v');
    reveal_with_fuel(amount, 5);
    if is_first_fitting(tiers@, res@, i) {
        lemma_tier_for(tiers@, res@, i, 0);
    } else {
        lemma_no_tier_for(tiers@, res@, 0);
        lemma_top_tier(tiers@, i, tiers@.len() as int);
    }
}

/// A MiniMax video costs its seconds by resolution, and its input price for
/// each image beyond those that are free.
pub proof fn law_seconds_and_images(
    rule: BillingRule,
    u: UsageTokens,
    f: ExtractedFeatures,
    m: Measures,
    d: Double,
    num: spec_fn(Double) -> real,
    seconds: Double,
    tiers: Vec<ResolutionTier>,
    res: String,
    i: int,
    extra: int,
)
    requires
        rule.billing_type@ == "duration"@,
        rule.billing_rule@ == "minimax_h3"@,
        f.duration_seconds == Some(seconds),
        f.resolution == Some(res),
        rule.tiers.resolution == Some(tiers),
        is_first_fitting(tiers@, res@, i) || ((forall|j: int|
            0 <= j < tiers@.len() ==> !fits(#[trigger] tiers@[j], res@)) && is_first_dearest(
            tiers@,
            i,
        )),
        extra == (match f.image_ref_count {
            Some(n) => if n > 0 {
                n as int
            } else {
                0
            },
            None => 0,
        }) - given_away(parsed_json(rule.extended_config@), 5),
    ensures
        amount(raw_bill(Some(rule), u, f, d, m).cost, num) == product(
            product(num(seconds), num(tiers@[i].rate)) + product(
                if extra > 0 {
                    extra as real
                } else {
                    0real
                },
                num(rule.prompt_rate),
            ),
            num(d),
        ),
{
    reveal_strlit("duration");
    reveal_strlit("requests");
    assert("duration"@.len() == 8);
    assert("requests"@.len() == 8);
    assert("duration"@[0] == 'd');
    assert("requests"@[0] == 'r');
    reveal_with_fuel(amount, 6);
    if is_first_fitting(tiers@, res@, i) {
        lemma_tier_for(tiers@, res@, i, 0);
    } else {
        lemma_no_tier_for(tiers@, res@, 0);
        lemma_top_tier(tiers@, i, tiers@.len() as int);
    }
}

/// A second of a Kling video costs what the table says of its mode, its sound
/// and whether it has a video for a reference. A dimension that is switched
/// off counts as the cheapest.
pub proof fn law_second_of_kling(
    rule: BillingRule,
    u: UsageTokens,
    f: ExtractedFeatures,
    m: Measures,
    d: Double,
    num: spec_fn(Double) -> real,
    seconds: Double,
    e: Jv,
    mode: Seq<char>,
    sound: Seq<char>,
    video: Seq<char>,
    price: Double,
)
    requires
        rule.billing_type@ == "duration"@,
        rule.billing_rule@ == "kling_video"@,
        f.duration_seconds == Some(seconds),
        parsed_json(rule.extended_config@) == Some(e),
        e.member("enable_mode"@) == Some(Jv::Bool(false)) ==> mode == "std"@,
        e.member("enable_mode"@) is None ==> {
            &&& f.mode matches Some(t) ==> mode == t@
            &&& f.mode is None && f.resolution is None ==> mode == "std"@
            &&& f.mode is None ==> (f.resolution matches Some(t) ==> {
                &&& small_letters(t@) == "720p"@ ==> mode == "std"@
                &&& small_letters(t@) == "1080p"@ ==> mode == "pro"@
                &&& small_letters(t@) != "720p"@ && small_letters(t@) != "1080p"@ ==> mode
                    == small_letters(t@)
            })
        },
        e.member("enable_mode"@) is None || e.member("enable_mode"@) == Some(Jv::Bool(false)),
        e.member("enable_sound"@) == Some(Jv::Bool(false)) ==> sound == "off"@,
        e.member("enable_sound"@) is None ==> {
            &&& f.sound matches Some(t) ==> sound == t@
            &&& f.sound is None ==> sound == "off"@
        },
        e.member("enable_sound"@) is None || e.member("enable_sound"@) == Some(Jv::Bool(false)),
        e.member("enable_video_ref"@) == Some(Jv::Bool(true)) && f.has_video ==> video == "yes"@,
        e.member("enable_video_ref"@) != Some(Jv::Bool(true)) || !f.has_video ==> video == "no"@,
        has_price(e, mode + "|"@ + sound + "|"@ + video, price),
    ensures
        amount(raw_bill(Some(rule), u, f, d, m).cost, num) == product(
            product(num(seconds), num(price)),
            num(d),
        ),
{
    reveal_strlit("1080p");
    reveal_strlit("720p");
    reveal_strlit("duration");
    reveal_strlit("kling_video");
    reveal_strlit("minimax_h3");
    reveal_strlit("requests");
    reveal_strlit("video_quality");
    reveal_strlit("video_resolution");
    reveal_strlit("vidu_video");
    reveal_strlit("volc_enhance_cascade");
    assert("1080p"@.len() == 5);
    assert("720p"@.len() == 4);
    assert("duration"@.len() == 8);
    assert("kling_video"@.len() == 11);
    assert("minimax_h3"@.len() == 10);
    assert("requests"@.len() == 8);
    assert("video_quality"@.len() == 13);
    assert("video_resolution"@.len() == 16);
    assert("vidu_video"@.len() == 10);
    assert("volc_enhance_cascade"@.len() == 20);
    assert("duration"@[0] == 'd');
    assert("requests"@[0] == 'r');
    assert("minimax_h3"@[0] == 'm');
    assert("vidu_video"@[0] == 'v');
    reveal_with_fuel(amount, 5);
    assert(!crate::price_table::is_disabled(e, mode + "|"@ + sound + "|"@ + video));
}

/// A second of a Vidu video costs what the table says of its kind and its
/// resolution: made of an image, of a video, or of text.
pub proof fn law_second_of_vidu(
    rule: BillingRule,
    u: UsageTokens,
    f: ExtractedFeatures,
    m: Measures,
    d: Double,
    num: spec_fn(Double) -> real,
    seconds: Double,
    e: Jv,
    kind: Seq<char>,
    res: Seq<char>,
    price: Double,
)
    requires
        rule.billing_type@ == "duration"@,
        rule.billing_rule@ == "vidu_video"@,
        f.duration_seconds == Some(seconds),
        f.service_tier matches Some(t) ==> t@ != "flex"@,
        parsed_json(rule.extended_config@) == Some(e),
        res == (match f.resolution {
            Some(r) => r@,
            None => "720p"@,
        }),
        f.has_image_ref ==> kind == "image"@,
        !f.has_image_ref && f.has_video ==> kind == "ref"@,
        !f.has_image_ref && !f.has_video ==> kind == "text"@,
        has_price(e, kind + "|"@ + res, price),
    ensures
        amount(raw_bill(Some(rule), u, f, d, m).cost, num) == product(
            product(num(seconds), num(price)),
            num(d),
        ),
{
    reveal_strlit("duration");
    reveal_strlit("kling_video");
    reveal_strlit("minimax_h3");
    reveal_strlit("requests");
    reveal_strlit("video_quality");
    reveal_strlit("video_resolution");
    reveal_strlit("vidu_video");
    reveal_strlit("volc_enhance_cascade");
    assert("duration"@.len() == 8);
    assert("kling_video"@.len() == 11);
    assert("minimax_h3"@.len() == 10);
    assert("requests"@.len() == 8);
    assert("video_quality"@.len() == 13);
    assert("video_resolution"@.len() == 16);
    assert("vidu_video"@.len() == 10);
    assert("volc_enhance_cascade"@.len() == 20);
    assert("duration"@[0] == 'd');
    assert("requests"@[0] == 'r');
    assert("minimax_h3"@[0] == 'm');
    assert("vidu_video"@[0] == 'v');
    reveal_with_fuel(amount, 5);
    assert(!crate::price_table::is_disabled(e, kind + "|"@ + res));
}

/// Off-peak a Vidu video costs its discount times what it costs otherwise; one
/// half where the rule names none.
pub proof fn law_vidu_off_peak(
    rule: BillingRule,
    u: UsageTokens,
    f: ExtractedFeatures,
    m: Measures,
    d: Double,
    num: spec_fn(Double) -> real,
    flex: String,
    e: Jv,
    x: Double,
)
    requires
        rule.billing_type@ == "duration"@,
        rule.billing_rule@ == "vidu_video"@,
        parsed_json(rule.extended_config@) == Some(e),
        flex@ == "flex"@,
        x == (match double_at(e, "offpeak_discount"@) {
            Some(y) => y,
            None => Double { bits: 0x3FE0_0000_0000_0000 },
        }),
    ensures
        amount(
            raw_bill(Some(rule), u, (ExtractedFeatures { service_tier: Some(flex), ..f }), d, m).cost,
            num,
        ) == product(
            amount(
                raw_bill(Some(rule), u, (ExtractedFeatures { service_tier: None, ..f }), d, m).cost,
                num,
            ),
            num(x),
        ),
{
    let g = ExtractedFeatures { service_tier: None, ..f };
    let h = ExtractedFeatures { service_tier: Some(flex), ..f };
    let plain = raw_bill(Some(rule), u, g, d, m).cost;
    let low = raw_bill(Some(rule), u, h, d, m).cost;
    reveal_strlit("duration");
    reveal_strlit("kling_video");
    reveal_strlit("minimax_h3");
    reveal_strlit("requests");
    reveal_strlit("video_quality");
    reveal_strlit("video_resolution");
    reveal_strlit("vidu_video");
    reveal_strlit("volc_enhance_cascade");
    assert("duration"@.len() == 8);
    assert("kling_video"@.len() == 11);
    assert("minimax_h3"@.len() == 10);
    assert("requests"@.len() == 8);
    assert("video_quality"@.len() == 13);
    assert("video_resolution"@.len() == 16);
    assert("vidu_video"@.len() == 10);
    assert("volc_enhance_cascade"@.len() == 20);
    assert("duration"@[0] == 'd');
    assert("requests"@[0] == 'r');
    assert("minimax_h3"@[0] == 'm');
    assert("vidu_video"@[0] == 'v');
    reveal_with_fuel(amount, 4);
    let n = *(*plain->Product_0)->Product_0;
    let r = *(*plain->Product_0)->Product_1;
    assert(plain == n.times(r).times(Cost::Num(d)));
    assert(low == n.times(r.times(Cost::Num(x))).times(Cost::Num(d)));
    lemma_exchange(amount(n, num), amount(r, num), num(x));
    lemma_exchange(product(amount(n, num), amount(r, num)), num(x), num(d));
}

/// A second of a cascade enhancement costs what the table says of its version,
/// its resolution and whether it has a video.
pub proof fn law_second_of_enhancement(
    rule: BillingRule,
    u: UsageTokens,
    f: ExtractedFeatures,
    m: Measures,
    d: Double,
    num: spec_fn(Double) -> real,
    seconds: Double,
    e: Jv,
    version: Seq<char>,
    res: Seq<char>,
    video: Seq<char>,
    price: Double,
)
    requires
        rule.billing_type@ == "duration"@,
        rule.billing_rule@ == "volc_enhance_cascade"@,
        f.duration_seconds == Some(seconds),
        parsed_json(rule.extended_config@) == Some(e),
        version == (match f.version {
            Some(r) => r@,
            None => "standard"@,
        }),
        res == (match f.resolution {
            Some(r) => r@,
            None => "720p"@,
        }),
        f.has_video ==> video == "yes"@,
        !f.has_video ==> video == "no"@,
        has_price(e, version + "|"@ + res + "|"@ + video, price),
    ensures
        amount(raw_bill(Some(rule), u, f, d, m).cost, num) == product(
            product(num(seconds), num(price)),
            num(d),
        ),
{
    reveal_strlit("duration");
    reveal_strlit("kling_video");
    reveal_strlit("minimax_h3");
    reveal_strlit("requests");
    reveal_strlit("video_quality");
    reveal_strlit("video_resolution");
    reveal_strlit("vidu_video");
    reveal_strlit("volc_enhance_cascade");
    assert("duration"@.len() == 8);
    assert("kling_video"@.len() == 11);
    assert("minimax_h3"@.len() == 10);
    assert("requests"@.len() == 8);
    assert("video_quality"@.len() == 13);
    assert("video_resolution"@.len() == 16);
    assert("vidu_video"@.len() == 10);
    assert("volc_enhance_cascade"@.len() == 20);
    assert("duration"@[0] == 'd');
    assert("requests"@[0] == 'r');
    assert("minimax_h3"@[0] == 'm');
    assert("vidu_video"@[0] == 'v');
    reveal_with_fuel(amount, 5);
    assert(!crate::price_table::is_disabled(e, version + "|"@ + res + "|"@ + video));
}

// ---------------------------------------------------------------- token tiers

/// Whether a tier is the first with the lowest bound that holds the tokens.
pub open spec fn is_lowest_tier(tiers: Seq<PricingTier>, m: Measures, i: int) -> bool {
    &&& 0 <= i < tiers.len()
    &&& within(tiers[i], m)
    &&& forall|j: int|
        0 <= j < tiers.len()
            && within(#[trigger] tiers[j], m) ==> tiers[i].max_prompt_tokens.at_most(
            tiers[j].max_prompt_tokens,
        )
    &&& forall|j: int|
        0 <= j < i && within(#[trigger] tiers[j], m) ==> tiers[i].max_prompt_tokens.below(
            tiers[j].max_prompt_tokens,
        )
}

/// Whether input and output stay within the bounds of a tier.
pub open spec fn within(t: PricingTier, m: Measures) -> bool {
    m.prompt_k.at_most(t.max_prompt_tokens) && (t.max_completion_tokens matches Some(c)
        ==> m.completion_k.at_most(c))
}

/// Whether a tier is the last with the highest bound.
pub open spec fn is_highest_tier(tiers: Seq<PricingTier>, i: int) -> bool {
    &&& 0 <= i < tiers.len()
    &&& forall|j: int|
        0 <= j < tiers.len() ==> (#[trigger] tiers[j]).max_prompt_tokens.at_most(
            tiers[i].max_prompt_tokens,
        )
    &&& forall|j: int|
        i < j < tiers.len() ==> (#[trigger] tiers[j]).max_prompt_tokens.below(
            tiers[i].max_prompt_tokens,
        )
}

proof fn lemma_lowest_within(tiers: Seq<PricingTier>, m: Measures, n: int)
    requires
        0 <= n <= tiers.len(),
    ensures
        lowest_holding(tiers, m, n) matches Some(b) ==> 0 <= b < n && within(tiers[b], m),
    decreases n,
{
    if n > 0 {
        lemma_lowest_within(tiers, m, n - 1);
    }
}

proof fn lemma_lowest_holding(tiers: Seq<PricingTier>, m: Measures, i: int, n: int)
    requires
        is_lowest_tier(tiers, m, i),
        i < n <= tiers.len(),
    ensures
        lowest_holding(tiers, m, n) == Some(i),
    decreases n,
{
    lemma_lowest_within(tiers, m, n - 1);
    if n - 1 > i {
        lemma_lowest_holding(tiers, m, i, n - 1);
        if within(tiers[n - 1], m) {
            assert(tiers[i].max_prompt_tokens.at_most(tiers[n - 1].max_prompt_tokens));
        }
    } else if lowest_holding(tiers, m, n - 1) is Some {
        let b = lowest_holding(tiers, m, n - 1)->Some_0;
        assert(tiers[i].max_prompt_tokens.below(tiers[b].max_prompt_tokens));
    }
}

proof fn lemma_none_holding(tiers: Seq<PricingTier>, m: Measures, n: int)
    requires
        0 <= n <= tiers.len(),
        forall|j: int| 0 <= j < tiers.len() ==> !within(#[trigger] tiers[j], m),
    ensures
        lowest_holding(tiers, m, n) is None,
    decreases n,
{
    if n > 0 {
        lemma_none_holding(tiers, m, n - 1);
        assert(!within(tiers[n - 1], m));
    }
}

proof fn lemma_highest_within(tiers: Seq<PricingTier>, n: int)
    requires
        0 <= n <= tiers.len(),
    ensures
        highest_bound(tiers, n) matches Some(b) ==> 0 <= b < n,
    decreases n,
{
    if n > 0 {
        lemma_highest_within(tiers, n - 1);
    }
}

proof fn lemma_highest_bound(tiers: Seq<PricingTier>, i: int, n: int)
    requires
        is_highest_tier(tiers, i),
        i < n <= tiers.len(),
    ensures
        highest_bound(tiers, n) == Some(i),
    decreases n,
{
    lemma_highest_within(tiers, n - 1);
    if n - 1 > i {
        lemma_highest_bound(tiers, i, n - 1);
        assert(tiers[n - 1].max_prompt_tokens.below(tiers[i].max_prompt_tokens));
    } else if highest_bound(tiers, n - 1) is Some {
        let b = highest_bound(tiers, n - 1)->Some_0;
        assert(tiers[b].max_prompt_tokens.at_most(tiers[i].max_prompt_tokens));
    }
}

/// A tiered rule has the prices of the lowest tier that holds the tokens, or
/// of the highest where none does.
pub proof fn law_token_tiers(
    rule: BillingRule,
    u: UsageTokens,
    f: ExtractedFeatures,
    m: Measures,
    d: Double,
    num: spec_fn(Double) -> real,
    i: int,
)
    requires
        is_by_tokens(rule),
        rule.billing_rule@ == "tiered"@,
        is_ordinary(f),
        u.cached <= 0,
        u.cache_write <= 0,
        u.image_tokens <= 0,
        is_lowest_tier(rule.tiers.tokens@, m, i) || ((forall|j: int|
            0 <= j < rule.tiers.tokens@.len() ==> !within(#[trigger] rule.tiers.tokens@[j], m))
            && is_highest_tier(rule.tiers.tokens@, i)),
    ensures
        amount(raw_bill(Some(rule), u, f, d, m).cost, num) == product(
            quotient(
                product(u.prompt as real, num(rule.tiers.tokens@[i].prompt_rate)) + product(
                    u.completion as real,
                    num(rule.tiers.tokens@[i].completion_rate),
                ),
                1000000real,
            ),
            num(d),
        ),
{
    let tiers = rule.tiers.tokens@;
    reveal_strlit("doubao_chat");
    reveal_strlit("gpt_billing");
    reveal_strlit("multimodal");
    reveal_strlit("seedance1.0");
    reveal_strlit("seedance1.5pro");
    reveal_strlit("seedance2.0");
    reveal_strlit("tiered");
    assert("doubao_chat"@.len() == 11);
    assert("gpt_billing"@.len() == 11);
    assert("multimodal"@.len() == 10);
    assert("seedance1.0"@.len() == 11);
    assert("seedance1.5pro"@.len() == 14);
    assert("seedance2.0"@.len() == 11);
    assert("tiered"@.len() == 6);
    assert("doubao_chat"@[0] == 'd');
    assert("gpt_billing"@[0] == 'g');
    assert("seedance1.0"@[0] == 's');
    assert("seedance2.0"@[0] == 's');
    assert("seedance1.0"@[8] == '1');
    assert("seedance2.0"@[8] == '2');
    reveal_with_fuel(amount, 8);
    if is_lowest_tier(tiers, m, i) {
        lemma_lowest_holding(tiers, m, i, tiers.len() as int);
    } else {
        lemma_none_holding(tiers, m, tiers.len() as int);
        lemma_highest_bound(tiers, i, tiers.len() as int);
    }
    lemma_neutral(num(tiers[i].cached_rate));
    lemma_neutral(num(tiers[i].cache_write_rate));
}

/// Input that is written to a cache costs the price of its tier for that, and
/// input that is read from one the price for reading; both come out of the
/// input where the total shows that it covers them.
pub proof fn law_tier_caches(
    rule: BillingRule,
    u: UsageTokens,
    f: ExtractedFeatures,
    m: Measures,
    d: Double,
    num: spec_fn(Double) -> real,
    i: int,
)
    requires
        is_by_tokens(rule),
        rule.billing_rule@ == "tiered"@,
        is_ordinary(f),
        !rule.claude_cache_read_rate.is_positive(),
        u.cached >= 0,
        u.cache_write >= 0,
        u.image_tokens <= 0,
        u.has_total_tokens,
        u.total == u.prompt + u.completion,
        u.prompt >= u.cached + u.cache_write,
        is_lowest_tier(rule.tiers.tokens@, m, i),
        rule.tiers.tokens@[i].cached_rate.is_positive(),
        rule.tiers.tokens@[i].cache_write_rate.is_positive(),
    ensures
        ({
            let t = rule.tiers.tokens@[i];
            amount(raw_bill(Some(rule), u, f, d, m).cost, num) == product(
                quotient(
                    product(
                        (u.prompt - u.cached - u.cache_write) as real,
                        num(t.prompt_rate),
                    ) + product(u.completion as real, num(t.completion_rate)) + product(
                        u.cached as real,
                        num(t.cached_rate),
                    ) + product(u.cache_write as real, num(t.cache_write_rate)),
                    1000000real,
                ),
                num(d),
            )
        }),
{
    let tiers = rule.tiers.tokens@;
    reveal_strlit("doubao_chat");
    reveal_strlit("gpt_billing");
    reveal_strlit("multimodal");
    reveal_strlit("seedance1.0");
    reveal_strlit("seedance1.5pro");
    reveal_strlit("seedance2.0");
    reveal_strlit("tiered");
    assert("doubao_chat"@.len() == 11);
    assert("gpt_billing"@.len() == 11);
    assert("multimodal"@.len() == 10);
    assert("seedance1.0"@.len() == 11);
    assert("seedance1.5pro"@.len() == 14);
    assert("seedance2.0"@.len() == 11);
    assert("tiered"@.len() == 6);
    assert("doubao_chat"@[0] == 'd');
    assert("gpt_billing"@[0] == 'g');
    assert("seedance1.0"@[0] == 's');
    assert("seedance2.0"@[0] == 's');
    assert("seedance1.0"@[8] == '1');
    assert("seedance2.0"@[8] == '2');
    reveal_with_fuel(amount, 8);
    lemma_lowest_holding(tiers, m, i, tiers.len() as int);
}

/// A price of its own for fast service, where the tier has one.
pub open spec fn served(fast: bool, own: Double, common: Double) -> Double {
    if fast && own.is_positive() {
        own
    } else {
        common
    }
}

/// A chat with audio costs, by its tier, text and audio input, fresh and
/// cached, each at its price, and output at its own; fast service has prices
/// of its own.
pub proof fn law_audio_chat(
    rule: BillingRule,
    u: UsageTokens,
    f: ExtractedFeatures,
    m: Measures,
    d: Double,
    num: spec_fn(Double) -> real,
    i: int,
    fast: bool,
)
    requires
        is_by_tokens(rule),
        rule.billing_rule@ == "doubao_chat"@,
        is_lowest_tier(rule.tiers.tokens@, m, i) || ((forall|j: int|
            0 <= j < rule.tiers.tokens@.len() ==> !within(#[trigger] rule.tiers.tokens@[j], m))
            && is_highest_tier(rule.tiers.tokens@, i)),
        f.web_search matches Some(n) ==> n <= 0,
        fast == (f.service_tier matches Some(t) && t@ == "fast"@),
        0 <= u.audio_cached_tokens <= u.cached,
        0 <= u.audio_tokens <= u.prompt - u.cached,
    ensures
        ({
            let t = rule.tiers.tokens@[i];
            amount(raw_bill(Some(rule), u, f, d, m).cost, num) == product(
                quotient(
                    product(
                        (u.prompt - u.cached - u.audio_tokens) as real,
                        num(served(fast, t.fast_prompt_rate, t.prompt_rate)),
                    ) + product(
                        u.audio_tokens as real,
                        num(served(fast, t.fast_audio_prompt_rate, t.audio_prompt_rate)),
                    ) + product(
                        (u.cached - u.audio_cached_tokens) as real,
                        num(served(fast, t.fast_cached_rate, t.cached_rate)),
                    ) + product(
                        u.audio_cached_tokens as real,
                        num(served(fast, t.fast_audio_cached_rate, t.audio_cached_rate)),
                    ) + product(
                        u.completion as real,
                        num(served(fast, t.fast_completion_rate, t.completion_rate)),
                    ),
                    1000000real,
                ),
                num(d),
            )
        }),
{
    let tiers = rule.tiers.tokens@;
    reveal_with_fuel(amount, 9);
    if is_lowest_tier(tiers, m, i) {
        lemma_lowest_holding(tiers, m, i, tiers.len() as int);
    } else {
        lemma_none_holding(tiers, m, tiers.len() as int);
        lemma_highest_bound(tiers, i, tiers.len() as int);
    }
}

/// Text and image input have a price each under a multimodal rule.
pub proof fn law_multimodal(
    rule: BillingRule,
    u: UsageTokens,
    f: ExtractedFeatures,
    m: Measures,
    d: Double,
    num: spec_fn(Double) -> real,
    image: Double,
)
    requires
        is_by_tokens(rule),
        rule.billing_rule@ == "multimodal"@,
        f.web_search matches Some(n) ==> n <= 0,
        image == (match parsed_json(rule.extended_config@) {
            Some(e) => match double_at(e, "image_prompt_rate"@) {
                Some(x) => x,
                None => rule.prompt_rate,
            },
            None => rule.prompt_rate,
        }),
    ensures
        amount(raw_bill(Some(rule), u, f, d, m).cost, num) == product(
            quotient(
                product(u.prompt as real, num(rule.prompt_rate)) + product(
                    u.image_tokens as real,
                    num(image),
                ),
                1000000real,
            ),
            num(d),
        ),
{
    reveal_strlit("doubao_chat");
    reveal_strlit("multimodal");
    assert("doubao_chat"@.len() == 11);
    assert("multimodal"@.len() == 10);
    reveal_with_fuel(amount, 7);
}

/// The price that a GPT image rule sets for an item, where it is switched on.
pub open spec fn item_price(config: Jv, key: Seq<char>, price: Double) -> bool {
    &&& config.member(key) matches Some(item)
    &&& item.member("enabled"@) == Some(Jv::Bool(true))
    &&& double_at(item, "rate"@) == Some(price)
}

/// A GPT image request without reference images costs its text, its images,
/// its cached text and its output, each at the price of its item; what is
/// cached is text.
pub proof fn law_gpt_text_items(
    rule: BillingRule,
    u: UsageTokens,
    f: ExtractedFeatures,
    m: Measures,
    d: Double,
    num: spec_fn(Double) -> real,
    e: Jv,
    config: Jv,
    a: Double,
    b: Double,
    c: Double,
    g: Double,
    o: Double,
)
    requires
        is_by_tokens(rule),
        rule.billing_rule@ == "gpt_billing"@,
        parsed_json(rule.extended_config@) == Some(e),
        e.member("gpt_config"@) == Some(config),
        item_price(config, "input_text"@, a),
        item_price(config, "input_image"@, b),
        item_price(config, "cached_input_text"@, c),
        item_price(config, "cached_input_image"@, g),
        item_price(config, "output_image"@, o),
        u.image_tokens >= 0,
        u.cached >= 0,
        num(Double { bits: 0 }) == 0real,
        !f.has_image_ref ==> u.prompt - u.image_tokens >= u.cached,
        f.has_image_ref ==> u.prompt >= u.image_tokens >= u.cached,
    ensures
        ({
            let text = u.prompt - u.image_tokens;
            let sum = if f.has_image_ref {
                product(text as real, num(a)) + product(
                    (u.image_tokens - u.cached) as real,
                    num(b),
                ) + product(u.cached as real, num(g)) + product(u.completion as real, num(o))
            } else {
                product((text - u.cached) as real, num(a)) + product(
                    u.image_tokens as real,
                    num(b),
                ) + product(u.cached as real, num(c)) + product(u.completion as real, num(o))
            };
            amount(raw_bill(Some(rule), u, f, d, m).cost, num) == product(
                quotient(sum, 1000000real),
                num(d),
            )
        }),
{
    reveal_strlit("doubao_chat");
    reveal_strlit("gpt_billing");
    reveal_strlit("multimodal");
    assert("doubao_chat"@.len() == 11);
    assert("gpt_billing"@.len() == 11);
    assert("multimodal"@.len() == 10);
    assert("doubao_chat"@[0] == 'd');
    assert("gpt_billing"@[0] == 'g');
    reveal_with_fuel(amount, 9);
    reveal_with_fuel(crate::bill_tokens::gpt_upto, 6);
    lemma_neutral(num(c));
    lemma_neutral(num(g));
}

/// Whether a token rule for Seedance videos has one price for all tokens.
pub open spec fn one_price(u: UsageTokens, rate: real) -> real {
    product(u.prompt as real, rate) + product(u.completion as real, rate)
}

/// Seedance 2.0 has one price by resolution and by whether the input has a
/// video, Seedance 1.5 one by whether sound is made, and Seedance 1.0 one by
/// whether it runs offline.
pub proof fn law_seedance(
    rule: BillingRule,
    u: UsageTokens,
    f: ExtractedFeatures,
    m: Measures,
    d: Double,
    num: spec_fn(Double) -> real,
    e: Jv,
    rate: Double,
)
    requires
        is_by_tokens(rule),
        parsed_json(rule.extended_config@) == Some(e),
        f.web_search matches Some(n) ==> n <= 0,
        f.cache_creation matches Some(n) ==> n <= 0,
        u.cached <= 0,
        u.cache_write <= 0,
        u.image_tokens <= 0,
        ({
            let kind = rule.billing_rule@;
            let res = small_letters(
                match f.resolution {
                    Some(r) => r@,
                    None => "720p"@,
                },
            );
            ||| kind == "seedance2.0"@ && f.has_video && double_at(
                e.at("resolution_rates"@).at(res),
                "with_video"@,
            ) == Some(rate)
            ||| kind == "seedance2.0"@ && !f.has_video && double_at(
                e.at("resolution_rates"@).at(res),
                "without_video"@,
            ) == Some(rate)
            ||| kind == "seedance1.5pro"@ && f.has_audio && (f.service_tier matches Some(t) ==> t@
                != "flex"@) && double_at(e, "audio_rate"@) == Some(rate)
            ||| kind == "seedance1.5pro"@ && !f.has_audio && (f.service_tier matches Some(t) ==> t@
                != "flex"@) && double_at(e, "base_rate"@) == Some(rate)
            ||| kind == "seedance1.0"@ && (f.service_tier matches Some(t) && t@ == "flex"@)
                && double_at(e, "offline_rate"@) == Some(rate)
            ||| kind == "seedance1.0"@ && (f.service_tier matches Some(t) ==> t@ != "flex"@)
                && double_at(e, "online_rate"@) == Some(rate)
        }),
    ensures
        amount(raw_bill(Some(rule), u, f, d, m).cost, num) == product(
            quotient(one_price(u, num(rate)), 1000000real),
            num(d),
        ),
{
    reveal_strlit("audio_rate");
    reveal_strlit("base_rate");
    reveal_strlit("doubao_chat");
    reveal_strlit("gpt_billing");
    reveal_strlit("multimodal");
    reveal_strlit("offline_rate");
    reveal_strlit("online_rate");
    reveal_strlit("seedance1.0");
    reveal_strlit("seedance1.5pro");
    reveal_strlit("seedance2.0");
    reveal_strlit("tiered");
    reveal_strlit("with_video");
    reveal_strlit("without_video");
    assert("audio_rate"@.len() == 10);
    assert("base_rate"@.len() == 9);
    assert("doubao_chat"@.len() == 11);
    assert("gpt_billing"@.len() == 11);
    assert("multimodal"@.len() == 10);
    assert("offline_rate"@.len() == 12);
    assert("online_rate"@.len() == 11);
    assert("seedance1.0"@.len() == 11);
    assert("seedance1.5pro"@.len() == 14);
    assert("seedance2.0"@.len() == 11);
    assert("tiered"@.len() == 6);
    assert("with_video"@.len() == 10);
    assert("without_video"@.len() == 13);
    assert("audio_rate"@[0] == 'a');
    assert("multimodal"@[0] == 'm');
    assert("with_video"@[0] == 'w');
    assert("doubao_chat"@[0] == 'd');
    assert("gpt_billing"@[0] == 'g');
    assert("online_rate"@[0] == 'o');
    assert("seedance1.0"@[0] == 's');
    assert("seedance2.0"@[0] == 's');
    assert("seedance1.0"@[8] == '1');
    assert("seedance2.0"@[8] == '2');
    reveal_with_fuel(amount, 8);
    lemma_neutral(num(rule.cached_rate));
}

// ---------------------------------------------------------------- the time of day

/// The factor of the time of day multiplies the whole amount, unless it is
/// one: that of the task where it was fixed, else that of the rule.
pub proof fn law_time_of_day(
    rule: BillingRule,
    u: UsageTokens,
    f: ExtractedFeatures,
    m: Measures,
    d: Double,
    num: spec_fn(Double) -> real,
    t: Double,
)
    requires
        t == (match f.time_multiplier {
            Some(x) => x,
            None => rule.applied_multiplier,
        }),
        !is_nan(t.bits),
    ensures
        is_neutral(t, TIME_LOW, TIME_HIGH) ==> full_bill(Some(rule), u, f, d, m) == raw_bill(
            Some(rule),
            u,
            f,
            d,
            m,
        ),
        !is_neutral(t, TIME_LOW, TIME_HIGH) ==> amount(
            full_bill(Some(rule), u, f, d, m).cost,
            num,
        ) == product(amount(raw_bill(Some(rule), u, f, d, m).cost, num), num(t)),
        full_bill(None, u, f, d, m) == raw_bill(None, u, f, d, m),
{
    reveal_with_fuel(amount, 2);
}

/// Settling multiplies by the factor of the time of day where that is not one
/// and was not applied before; neither the channel nor the mapping of the
/// model changes the amount.
pub proof fn law_settled_amount(
    cost: Cost,
    detail: Seq<char>,
    rule: BillingRule,
    snapshot: Option<Double>,
    s: Settlement,
    num: spec_fn(Double) -> real,
    t: Double,
)
    requires
        t == (match snapshot {
            Some(x) => x,
            None => rule.applied_multiplier,
        }),
    ensures
        is_neutral(t, TIME_LOW, TIME_HIGH) || rule.is_multiplier_applied ==> relay_bill(
            cost,
            detail,
            Some(rule),
            snapshot,
            s,
        ).cost == cost,
        !is_neutral(t, TIME_LOW, TIME_HIGH) && !rule.is_multiplier_applied ==> amount(
            relay_bill(cost, detail, Some(rule), snapshot, s).cost,
            num,
        ) == product(amount(cost, num), num(t)),
        relay_bill(cost, detail, None, snapshot, s).cost == cost,
{
    reveal_with_fuel(amount, 2);
}

/// The factor of a resolution multiplies the amount, unless it is one.
pub proof fn law_resolution_factor(
    cost: Cost,
    detail: Seq<char>,
    factor: Double,
    resolution: Seq<char>,
    num: spec_fn(Double) -> real,
)
    ensures
        is_neutral(factor, crate::double::SCALE_LOW, crate::double::SCALE_HIGH) ==> scaled_bill(
            cost,
            detail,
            factor,
            resolution,
        ).cost == cost,
        !is_neutral(factor, crate::double::SCALE_LOW, crate::double::SCALE_HIGH) ==> amount(
            scaled_bill(cost, detail, factor, resolution).cost,
            num,
        ) == product(amount(cost, num), num(factor)),
{
    reveal_with_fuel(amount, 2);
}

} // verus!
