//! What billing works on: rules, tiers, features, and the pieces that all
//! kinds of billing share.
use vstd::prelude::*;
use vstd::string::*;
use crate::cost::{said, saying, showing, Cost, Detail, PieceModel};
use crate::double::{double_at, Double, ONE};
use crate::json::{opt_json, Json, Jv};
use crate::price_table::{
    find_top_price, key_in_words, lookup_price_table, table_price, top_price, translate_billing_key,
};
use crate::text::{ascii_small, same, same_ignore_case};

verus! {

/// A price for a resolution.
pub struct ResolutionTier {
    pub resolution: String,
    pub rate: Double,
    pub enabled: bool,
    /// The factor for requests with reference images.
    pub image_ref_multiplier: Option<Double>,
}

/// A price for a resolution and a range of frame rates.
pub struct VideoQualityTier {
    pub resolution: String,
    pub fps_range: String,
    pub rate: Double,
    pub enabled: bool,
}

/// A price for a size in pixels.
pub struct SizeTier {
    pub size: String,
    pub rate: Double,
    pub enabled: bool,
    /// The factor for requests with reference images.
    pub image_ref_multiplier: Option<Double>,
    /// Whether each quality has a price of its own.
    pub quality_pricing: bool,
    pub rate_low: Option<Double>,
    pub rate_medium: Option<Double>,
    pub rate_high: Option<Double>,
}

/// A price up to a number of pixels, in units of ten thousand.
pub struct SeedreamTier {
    pub max_pixels_wan: Double,
    pub rate: Double,
    pub enabled: bool,
}

/// Token prices up to a number of tokens, in thousands.
pub struct PricingTier {
    pub max_prompt_tokens: Double,
    pub max_completion_tokens: Option<Double>,
    pub prompt_rate: Double,
    pub completion_rate: Double,
    pub cached_rate: Double,
    pub cache_write_rate: Double,
    pub audio_prompt_rate: Double,
    pub audio_cached_rate: Double,
    pub fast_prompt_rate: Double,
    pub fast_completion_rate: Double,
    pub fast_cached_rate: Double,
    pub fast_audio_prompt_rate: Double,
    pub fast_audio_cached_rate: Double,
}

/// The tiers of a rule, read in each form that billing asks for; nothing where
/// they do not have that form.
pub struct PricingTiers {
    pub resolution: Option<Vec<ResolutionTier>>,
    pub quality: Option<Vec<VideoQualityTier>>,
    pub size: Option<Vec<SizeTier>>,
    pub seedream: Option<Vec<SeedreamTier>>,
    pub tokens: Vec<PricingTier>,
}

/// A billing rule.
pub struct BillingRule {
    /// By what a request is billed: requests, duration or tokens.
    pub billing_type: String,
    /// How exactly.
    pub billing_rule: String,
    pub fixed_rate: Double,
    pub duration_rate: Double,
    pub prompt_rate: Double,
    pub completion_rate: Double,
    pub cached_rate: Double,
    pub claude_cache_read_rate: Double,
    pub claude_cache_creation_rate: Double,
    /// The factor that was fixed when the request began.
    pub applied_multiplier: Double,
    /// Whether the cost has been multiplied by that factor.
    pub is_multiplier_applied: bool,
    pub tiers: PricingTiers,
    /// Further settings, as JSON text.
    pub extended_config: String,
}

/// What billing knows of a request.
pub struct ExtractedFeatures {
    pub image_count: Option<i32>,
    pub image_ref_count: Option<i32>,
    pub has_image_ref: bool,
    pub has_video: bool,
    pub has_audio: bool,
    pub prompt_extend: bool,
    pub resolution: Option<String>,
    pub size: Option<String>,
    pub quality: Option<String>,
    pub mode: Option<String>,
    pub sound: Option<String>,
    pub version: Option<String>,
    pub service_tier: Option<String>,
    pub text_characters: Option<i32>,
    pub duration_seconds: Option<Double>,
    pub fps: Option<Double>,
    pub cache_creation: Option<i32>,
    pub web_search: Option<i32>,
    /// The factor that was fixed for a task that is settled later.
    pub time_multiplier: Option<Double>,
}

/// The features of a request of which nothing is known.
pub open spec fn no_features() -> ExtractedFeatures {
    ExtractedFeatures {
        image_count: None,
        image_ref_count: None,
        has_image_ref: false,
        has_video: false,
        has_audio: false,
        prompt_extend: false,
        resolution: None,
        size: None,
        quality: None,
        mode: None,
        sound: None,
        version: None,
        service_tier: None,
        text_characters: None,
        duration_seconds: None,
        fps: None,
        cache_creation: None,
        web_search: None,
        time_multiplier: None,
    }
}

impl Default for ExtractedFeatures {
    fn default() -> (r: Self)
        ensures
            r == no_features(),
    {
        ExtractedFeatures {
            image_count: None,
            image_ref_count: None,
            has_image_ref: false,
            has_video: false,
            has_audio: false,
            prompt_extend: false,
            resolution: None,
            size: None,
            quality: None,
            mode: None,
            sound: None,
            version: None,
            service_tier: None,
            text_characters: None,
            duration_seconds: None,
            fps: None,
            cache_creation: None,
            web_search: None,
            time_multiplier: None,
        }
    }
}

/// Double-precision numbers that the caller computes beforehand.
pub struct Measures {
    /// Input tokens, in thousands.
    pub prompt_k: Double,
    /// Output tokens, in thousands.
    pub completion_k: Double,
    /// The pixels of an output image, in units of ten thousand.
    pub pixels_wan: Double,
}

/// What a request costs, and why.
#[verifier::ext_equal]
pub struct BillModel {
    pub cost: Cost,
    pub detail: Seq<PieceModel>,
}

/// What a request costs, and why.
#[derive(Debug)]
pub struct Bill {
    pub cost: Cost,
    pub detail: Detail,
}

impl View for Bill {
    type V = BillModel;

    open spec fn view(&self) -> BillModel {
        BillModel { cost: self.cost, detail: self.detail@ }
    }
}

/// A price with its description.
#[verifier::ext_equal]
pub struct RateModel {
    pub rate: Cost,
    pub desc: Seq<PieceModel>,
}

/// A price with its description.
pub struct Rated {
    pub rate: Cost,
    pub desc: Detail,
}

impl View for Rated {
    type V = RateModel;

    open spec fn view(&self) -> RateModel {
        RateModel { rate: self.rate, desc: self.desc@ }
    }
}

/// The bits of one half.
pub const HALF: u64 = 0x3FE0_0000_0000_0000;


/// The bits of thirty.
pub const THIRTY: u64 = 0x403E_0000_0000_0000;

/// The text of an optional field.
pub open spec fn field(o: Option<String>) -> Option<Seq<char>> {
    match o {
        Some(s) => Some(s@),
        None => None,
    }
}

/// The text of an optional field, or a default.
pub open spec fn field_or(o: Option<String>, default: Seq<char>) -> Seq<char> {
    match o {
        Some(s) => s@,
        None => default,
    }
}

pub fn get_field_or<'a>(o: &'a Option<String>, default: &'a str) -> (r: &'a str)
    ensures
        r@ == field_or(*o, default@),
{
    match o {
        Some(s) => s.as_str(),
        None => default,
    }
}

pub fn is_field(o: &Option<String>, word: &str) -> (r: bool)
    ensures
        r == (field(*o) == Some(word@)),
{
    match o {
        Some(s) => same(s.as_str(), word),
        None => false,
    }
}

/// A number of the further settings.
pub open spec fn ext_double(ext: Option<Jv>, key: Seq<char>) -> Option<Double> {
    match ext {
        Some(e) => double_at(e, key),
        None => None,
    }
}

pub fn get_ext_double(ext: &Option<Json>, key: &str) -> (r: Option<Double>)
    ensures
        r == ext_double(opt_json(*ext), key@),
{
    match ext {
        Some(e) => e.get_double(key),
        None => None,
    }
}

/// A price multiplied by a factor that is named beside it.
pub open spec fn with_factor(r: RateModel, label: Seq<char>, m: Double) -> RateModel {
    RateModel {
        rate: r.rate.times(Cost::Num(m)),
        desc: said(showing(said(r.desc, label), Cost::Num(m)), "]"@),
    }
}

pub fn apply_factor(r: Rated, label: &str, m: Double) -> (out: Rated)
    ensures
        out@ == with_factor(r@, label@, m),
{
    Rated {
        rate: r.rate.product(Cost::Num(m)),
        desc: r.desc.text(label).number(m).text("]"),
    }
}

/// A price with the factor for an extended prompt, where both apply.
pub open spec fn with_prompt_extend(r: RateModel, f: ExtractedFeatures, ext: Option<Jv>) -> RateModel {
    match ext_double(ext, "prompt_extend_multiplier"@) {
        Some(m) => if f.prompt_extend {
            with_factor(r, " [提示词扩写 x"@, m)
        } else {
            r
        },
        None => r,
    }
}

pub fn apply_prompt_extend(r: Rated, f: &ExtractedFeatures, ext: &Option<Json>) -> (out: Rated)
    ensures
        out@ == with_prompt_extend(r@, *f, opt_json(*ext)),
{
    match get_ext_double(ext, "prompt_extend_multiplier") {
        Some(m) => if f.prompt_extend {
            apply_factor(r, " [提示词扩写 x", m)
        } else {
            r
        },
        None => r,
    }
}

/// A price with the factor of its tier for reference images, unless that is one.
pub open spec fn with_ref_factor(r: RateModel, has_ref: bool, m: Option<Double>) -> RateModel {
    match m {
        Some(x) => if has_ref && !x.equals(Double { bits: ONE }) {
            with_factor(r, " [图生图 x"@, x)
        } else {
            r
        },
        None => r,
    }
}

pub fn apply_ref_factor(r: Rated, has_ref: bool, m: Option<Double>) -> (out: Rated)
    ensures
        out@ == with_ref_factor(r@, has_ref, m),
{
    match m {
        Some(x) => if has_ref && !x.same_number(Double { bits: ONE }) {
            apply_factor(r, " [图生图 x", x)
        } else {
            r
        },
        None => r,
    }
}

// ---------------------------------------------------------------- resolution tiers

/// The first tier in use from `n` on that is for a resolution, whatever the
/// case of its letters.
pub open spec fn tier_for(tiers: Seq<ResolutionTier>, res: Seq<char>, n: int) -> Option<int>
    decreases tiers.len() - n,
{
    if n < 0 || n >= tiers.len() {
        None
    } else if tiers[n].enabled && ascii_small(tiers[n].resolution@) == ascii_small(res) {
        Some(n)
    } else {
        tier_for(tiers, res, n + 1)
    }
}

/// The first of the highest among the first `n` tiers that are in use.
pub open spec fn top_tier(tiers: Seq<ResolutionTier>, n: int) -> Option<int>
    decreases n,
{
    if n <= 0 {
        None
    } else {
        let done = top_tier(tiers, n - 1);
        if tiers[n - 1].enabled {
            match done {
                Some(b) => if tiers[b].rate.below(tiers[n - 1].rate) {
                    Some(n - 1)
                } else {
                    Some(b)
                },
                None => Some(n - 1),
            }
        } else {
            done
        }
    }
}

pub fn find_tier(tiers: &Vec<ResolutionTier>, res: &str) -> (r: Option<usize>)
    ensures
        match r {
            Some(i) => i < tiers@.len() && tier_for(tiers@, res@, 0) == Some(i as int),
            None => tier_for(tiers@, res@, 0) is None,
        },
{
    let mut i: usize = 0;
    while i < tiers.len()
        invariant
            i <= tiers@.len(),
            tier_for(tiers@, res@, 0) == tier_for(tiers@, res@, i as int),
        decreases tiers@.len() - i,
    {
        if tiers[i].enabled && same_ignore_case(tiers[i].resolution.as_str(), res) {
            return Some(i);
        }
        i += 1;
    }
    None
}

pub fn find_top_tier(tiers: &Vec<ResolutionTier>) -> (r: Option<usize>)
    ensures
        match r {
            Some(i) => i < tiers@.len() && top_tier(tiers@, tiers@.len() as int) == Some(i as int),
            None => top_tier(tiers@, tiers@.len() as int) is None,
        },
{
    let mut best: Option<usize> = None;
    let mut i: usize = 0;
    while i < tiers.len()
        invariant
            i <= tiers@.len(),
            match best {
                Some(b) => b < i && top_tier(tiers@, i as int) == Some(b as int),
                None => top_tier(tiers@, i as int) is None,
            },
        decreases tiers@.len() - i,
    {
        if tiers[i].enabled {
            match best {
                Some(b) => {
                    if tiers[b].rate.lt(tiers[i].rate) {
                        best = Some(i);
                    }
                },
                None => {
                    best = Some(i);
                },
            }
        }
        i += 1;
    }
    best
}

// ---------------------------------------------------------------- price tables

/// A price from a table: that of the key, or else the highest under the
/// prefix, or else what held before.
pub open spec fn from_table(
    before: RateModel,
    label: Seq<char>,
    ext: Jv,
    key: Seq<char>,
    prefix: Seq<char>,
) -> RateModel {
    match table_price(ext, key) {
        Some(d) => RateModel {
            rate: Cost::Num(d),
            desc: said(
                showing(
                    said(said(said(saying(label), "查表("@), key_in_words(key)), " 单价:"@),
                    Cost::Num(d),
                ),
                ")"@,
            ),
        },
        None => match top_price(ext, prefix) {
            Some((k, d)) => RateModel {
                rate: Cost::Num(d),
                desc: said(
                    showing(
                        said(
                            said(
                                said(
                                    said(saying(label), key_in_words(key)),
                                    "未命中,兜底最高价("@,
                                ),
                                key_in_words(k),
                            ),
                            " 单价:"@,
                        ),
                        Cost::Num(d),
                    ),
                    ")"@,
                ),
            },
            None => before,
        },
    }
}

pub fn rate_from_table(before: Rated, label: &str, ext: &Json, key: &str, prefix: &str) -> (r: Rated)
    ensures
        r@ == from_table(before@, label@, ext@, key@, prefix@),
{
    let words = translate_billing_key(key);
    match lookup_price_table(ext, key) {
        Some(d) => Rated {
            rate: Cost::Num(d),
            desc: Detail::start(label).text("查表(").text(words.as_str()).text(" 单价:").number(
                d,
            ).text(")"),
        },
        None => match find_top_price(ext, prefix) {
            Some((k, d)) => {
                let top_words = translate_billing_key(k.as_str());
                Rated {
                    rate: Cost::Num(d),
                    desc: Detail::start(label).text(words.as_str()).text(
                        "未命中,兜底最高价(",
                    ).text(top_words.as_str()).text(" 单价:").number(d).text(")"),
                }
            },
            None => before,
        },
    }
}

/// Texts joined by a bar.
pub open spec fn barred(a: Seq<char>, b: Seq<char>) -> Seq<char> {
    a + "|"@ + b
}

pub fn with_bar(a: &str, b: &str) -> (r: String)
    ensures
        r@ == barred(a@, b@),
{
    let mut s = a.to_owned();
    s.append("|");
    s.append(b);
    s
}

} // verus!
