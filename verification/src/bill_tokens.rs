//! Billing by tokens: fixed prices, tiers, audio and image tokens, caches.
use vstd::prelude::*;
use vstd::string::*;
use crate::bill::{
    ext_double, field, field_or, get_ext_double, get_field_or, is_field, Bill, BillModel,
    BillingRule, ExtractedFeatures, Measures, PricingTier, HALF,
};
use crate::cost::{said, saying, showing, showing_fixed, Cost, Detail, Piece, PieceModel};
use crate::double::{double_at, Double};
use crate::json::{flag_or, opt_json, or_get, or_member, Json, Jv};
use crate::price_table::{floored, prompt_subsets, split_prompt_subsets};
use crate::text::{small_letters, same, to_lowercase};
use crate::usage::UsageTokens;

verus! {

/// A million, by which token prices are divided.
pub open spec fn million() -> Cost {
    Cost::Count(1000000)
}

/// Tokens at a price.
pub open spec fn tokens_at(n: int, rate: Cost) -> Cost {
    Cost::Count(n as i64).times(rate)
}

fn price(n: i64, rate: Cost) -> (r: Cost)
    ensures
        r == tokens_at(n as int, rate),
{
    Cost::Count(n).product(rate)
}

// ---------------------------------------------------------------- web search

/// A bill with the web searches added and the discount applied.
pub open spec fn with_web_search(
    raw: Cost,
    detail: Seq<PieceModel>,
    f: ExtractedFeatures,
    ext: Option<Jv>,
    discount: Double,
) -> BillModel {
    let n = match f.web_search {
        Some(n) => n as int,
        None => 0,
    };
    let rate = match ext_double(ext, "web_search_rate"@) {
        Some(d) => d,
        None => Double { bits: 0 },
    };
    if n > 0 && rate.is_positive() {
        let searches = tokens_at(n, Cost::Num(rate)).over(Cost::Count(1000));
        let a = showing(said(saying("[ "@) + detail, " + 联网搜索: "@), Cost::Count(n as i64));
        let b = showing(said(a, "次*"@), Cost::Num(rate));
        BillModel {
            cost: raw.plus(searches).times(Cost::Num(discount)),
            detail: said(showing_fixed(said(b, "元/千次 ] * "@), 2, Cost::Num(discount)), "倍率"@),
        }
    } else {
        discounted(raw, detail, discount)
    }
}

/// A bill with the discount applied.
pub open spec fn discounted(raw: Cost, detail: Seq<PieceModel>, discount: Double) -> BillModel {
    BillModel {
        cost: raw.times(Cost::Num(discount)),
        detail: said(showing_fixed(said(detail, " * "@), 2, Cost::Num(discount)), "倍率"@),
    }
}

fn apply_discount(raw: Cost, detail: Detail, discount: Double) -> (r: Bill)
    ensures
        r@ == discounted(raw, detail@, discount),
{
    let shown_discount = Cost::Num(discount);
    Bill {
        cost: raw.product(Cost::Num(discount)),
        detail: detail.text(" * ").fixed(2, &shown_discount).text("倍率"),
    }
}

fn apply_web_search(
    raw: Cost,
    detail: Detail,
    f: &ExtractedFeatures,
    ext: &Option<Json>,
    discount: Double,
) -> (r: Bill)
    ensures
        r@ == with_web_search(raw, detail@, *f, opt_json(*ext), discount),
{
    let n: i32 = match f.web_search {
        Some(n) => n,
        None => 0,
    };
    let rate = match get_ext_double(ext, "web_search_rate") {
        Some(d) => d,
        None => Double { bits: 0 },
    };
    if n > 0 && rate.positive() {
        let searches = price(n as i64, Cost::Num(rate)).quotient(Cost::Count(1000));
        let shown_discount = Cost::Num(discount);
        let mut pieces = Detail::start("[ ").pieces;
        let mut rest = detail.pieces;
        pieces.append(&mut rest);
        let joined = Detail { pieces };
        proof {
            assert(joined@ =~= saying("[ "@) + detail@);
        }
        Bill {
            cost: raw.sum(searches).product(Cost::Num(discount)),
            detail: joined.text(" + 联网搜索: ").count(n as i64).text("次*").number(rate).text(
                "元/千次 ] * ",
            ).fixed(2, &shown_discount).text("倍率"),
        }
    } else {
        apply_discount(raw, detail, discount)
    }
}

// ---------------------------------------------------------------- prices

/// Token prices with their description.
#[verifier::ext_equal]
pub struct TokenRates {
    pub prompt: Cost,
    pub completion: Cost,
    /// The price of cached input, where it has one.
    pub cached: Option<Cost>,
    /// The price of input that is written to a cache, where it has one.
    pub write: Option<Cost>,
    pub desc: Seq<PieceModel>,
}

/// Token prices with their description.
pub struct TokenPrices {
    pub prompt: Cost,
    pub completion: Cost,
    pub cached: Option<Cost>,
    pub write: Option<Cost>,
    pub desc: Detail,
}

impl View for TokenPrices {
    type V = TokenRates;

    open spec fn view(&self) -> TokenRates {
        TokenRates {
            prompt: self.prompt,
            completion: self.completion,
            cached: self.cached,
            write: self.write,
            desc: self.desc@,
        }
    }
}

/// A price where it is above zero.
pub open spec fn set_price(d: Double) -> Option<Cost> {
    if d.is_positive() {
        Some(Cost::Num(d))
    } else {
        None
    }
}

fn price_if_set(d: Double) -> (r: Option<Cost>)
    ensures
        r == set_price(d),
{
    if d.positive() {
        Some(Cost::Num(d))
    } else {
        None
    }
}

/// The prices of the rule itself.
pub open spec fn standard_rates(rule: BillingRule) -> TokenRates {
    TokenRates {
        prompt: Cost::Num(rule.prompt_rate),
        completion: Cost::Num(rule.completion_rate),
        cached: set_price(rule.cached_rate),
        write: None,
        desc: saying("标准 Tokens 计费"@),
    }
}

/// One price for input and output, with the cache price of the rule.
pub open spec fn single_rate(rule: BillingRule, rate: Cost, desc: Seq<PieceModel>) -> TokenRates {
    TokenRates {
        prompt: rate,
        completion: rate,
        cached: set_price(rule.cached_rate),
        write: None,
        desc,
    }
}

/// The price of Seedance 2.0: by resolution and video input.
pub open spec fn seedance2_rate(rule: BillingRule, f: ExtractedFeatures, ext: Option<Jv>) -> Option<
    TokenRates,
> {
    match ext {
        Some(e) => match e.member("resolution_rates"@) {
            Some(rates) => {
                let res = small_letters(field_or(f.resolution, "720p"@));
                let tier = or_member(rates.member(res), rates, "720p"@);
                let rate = match tier {
                    Some(t) => double_at(
                        t,
                        if f.has_video {
                            "with_video"@
                        } else {
                            "without_video"@
                        },
                    ),
                    None => None,
                };
                match rate {
                    Some(d) => {
                        let label = if f.has_video {
                            "含视频"@
                        } else {
                            "无视频"@
                        };
                        Some(
                            single_rate(
                                rule,
                                Cost::Num(d),
                                said(
                                    showing(
                                        said(
                                            said(
                                                said(said(saying("Seedance2.0("@), res), "|"@),
                                                label,
                                            ),
                                            "|基本单价:"@,
                                        ),
                                        Cost::Num(d),
                                    ),
                                    ")"@,
                                ),
                            ),
                        )
                    },
                    None => None,
                }
            },
            None => None,
        },
        None => None,
    }
}

fn rate_of_seedance2(rule: &BillingRule, f: &ExtractedFeatures, ext: &Option<Json>) -> (r: Option<
    TokenPrices,
>)
    ensures
        match r {
            Some(p) => seedance2_rate(*rule, *f, opt_json(*ext)) == Some(p@),
            None => seedance2_rate(*rule, *f, opt_json(*ext)) is None,
        },
{
    let rates = match ext {
        Some(e) => match e.get("resolution_rates") {
            Some(r) => r,
            None => {
                return None;
            },
        },
        None => {
            return None;
        },
    };
    let res = to_lowercase(get_field_or(&f.resolution, "720p"));
    let (key, label) = if f.has_video {
        ("with_video", "含视频")
    } else {
        ("without_video", "无视频")
    };
    let rate = match or_get(rates.get(res.as_str()), rates, "720p") {
        Some(t) => t.get_double(key),
        None => None,
    };
    match rate {
        Some(d) => Some(
            make_single_rate(
                rule,
                Cost::Num(d),
                Detail::start("Seedance2.0(").text(res.as_str()).text("|").text(label).text(
                    "|基本单价:",
                ).number(d).text(")"),
            ),
        ),
        None => None,
    }
}

fn make_single_rate(rule: &BillingRule, rate: Cost, desc: Detail) -> (r: TokenPrices)
    ensures
        r@ == single_rate(*rule, rate, desc@),
{
    TokenPrices {
        prompt: rate.dup(),
        completion: rate,
        cached: price_if_set(rule.cached_rate),
        write: None,
        desc,
    }
}

/// A number of the further settings, one half where there is none.
pub open spec fn offline_discount(ext: Option<Jv>) -> Double {
    match ext_double(ext, "offline_discount"@) {
        Some(d) => d,
        None => Double { bits: HALF },
    }
}

fn get_offline_discount(ext: &Option<Json>) -> (r: Double)
    ensures
        r == offline_discount(opt_json(*ext)),
{
    match get_ext_double(ext, "offline_discount") {
        Some(d) => d,
        None => Double { bits: HALF },
    }
}

/// Whether a request runs offline.
pub open spec fn is_flex(f: ExtractedFeatures) -> bool {
    field(f.service_tier) == Some("flex"@)
}

/// The price of Seedance 1.5 Pro: with or without sound, lower offline.
pub open spec fn seedance15_rate(rule: BillingRule, f: ExtractedFeatures, ext: Option<Jv>) -> Option<
    TokenRates,
> {
    let rate = ext_double(
        ext,
        if f.has_audio {
            "audio_rate"@
        } else {
            "base_rate"@
        },
    );
    match rate {
        Some(d) => {
            let head = saying(
                if f.has_audio {
                    "Seedance1.5Pro(含语音单价:"@
                } else {
                    "Seedance1.5Pro(无语音单价:"@
                },
            );
            let desc = said(showing(head, Cost::Num(d)), ")"@);
            Some(
                if is_flex(f) {
                    single_rate(
                        rule,
                        Cost::Num(d).times(Cost::Num(offline_discount(ext))),
                        said(desc, " [离线推理]"@),
                    )
                } else {
                    single_rate(rule, Cost::Num(d), desc)
                },
            )
        },
        None => None,
    }
}

fn rate_of_seedance15(rule: &BillingRule, f: &ExtractedFeatures, ext: &Option<Json>) -> (r: Option<
    TokenPrices,
>)
    ensures
        match r {
            Some(p) => seedance15_rate(*rule, *f, opt_json(*ext)) == Some(p@),
            None => seedance15_rate(*rule, *f, opt_json(*ext)) is None,
        },
{
    let (key, label) = if f.has_audio {
        ("audio_rate", "Seedance1.5Pro(含语音单价:")
    } else {
        ("base_rate", "Seedance1.5Pro(无语音单价:")
    };
    match get_ext_double(ext, key) {
        Some(d) => {
            let desc = Detail::start(label).number(d).text(")");
            if is_field(&f.service_tier, "flex") {
                let off = get_offline_discount(ext);
                Some(
                    make_single_rate(
                        rule,
                        Cost::Num(d).product(Cost::Num(off)),
                        desc.text(" [离线推理]"),
                    ),
                )
            } else {
                Some(make_single_rate(rule, Cost::Num(d), desc))
            }
        },
        None => None,
    }
}

/// The price of Seedance 1.0: online or offline.
pub open spec fn seedance1_rate(rule: BillingRule, f: ExtractedFeatures, ext: Option<Jv>) -> Option<
    TokenRates,
> {
    let rate = ext_double(
        ext,
        if is_flex(f) {
            "offline_rate"@
        } else {
            "online_rate"@
        },
    );
    match rate {
        Some(d) => {
            let head = saying(
                if is_flex(f) {
                    "Seedance1.0(离线推理单价:"@
                } else {
                    "Seedance1.0(在线推理单价:"@
                },
            );
            Some(single_rate(rule, Cost::Num(d), said(showing(head, Cost::Num(d)), ")"@)))
        },
        None => None,
    }
}

fn rate_of_seedance1(rule: &BillingRule, f: &ExtractedFeatures, ext: &Option<Json>) -> (r: Option<
    TokenPrices,
>)
    ensures
        match r {
            Some(p) => seedance1_rate(*rule, *f, opt_json(*ext)) == Some(p@),
            None => seedance1_rate(*rule, *f, opt_json(*ext)) is None,
        },
{
    let (key, label) = if is_field(&f.service_tier, "flex") {
        ("offline_rate", "Seedance1.0(离线推理单价:")
    } else {
        ("online_rate", "Seedance1.0(在线推理单价:")
    };
    match get_ext_double(ext, key) {
        Some(d) => Some(
            make_single_rate(rule, Cost::Num(d), Detail::start(label).number(d).text(")")),
        ),
        None => None,
    }
}

/// The prices that a Seedance rule sets itself.
pub open spec fn own_rates(rule: BillingRule, f: ExtractedFeatures, ext: Option<Jv>) -> Option<
    TokenRates,
> {
    let kind = rule.billing_rule@;
    if kind == "seedance2.0"@ {
        seedance2_rate(rule, f, ext)
    } else if kind == "seedance1.5pro"@ {
        seedance15_rate(rule, f, ext)
    } else if kind == "seedance1.0"@ {
        seedance1_rate(rule, f, ext)
    } else {
        None
    }
}

fn find_own_rates(rule: &BillingRule, f: &ExtractedFeatures, ext: &Option<Json>) -> (r: Option<
    TokenPrices,
>)
    ensures
        match r {
            Some(p) => own_rates(*rule, *f, opt_json(*ext)) == Some(p@),
            None => own_rates(*rule, *f, opt_json(*ext)) is None,
        },
{
    let kind = rule.billing_rule.as_str();
    if same(kind, "seedance2.0") {
        rate_of_seedance2(rule, f, ext)
    } else if same(kind, "seedance1.5pro") {
        rate_of_seedance15(rule, f, ext)
    } else if same(kind, "seedance1.0") {
        rate_of_seedance1(rule, f, ext)
    } else {
        None
    }
}

// ---------------------------------------------------------------- tiers

/// Whether a tier holds so many tokens.
pub open spec fn tier_holds(t: PricingTier, m: Measures) -> bool {
    m.prompt_k.at_most(t.max_prompt_tokens) && match t.max_completion_tokens {
        Some(c) => m.completion_k.at_most(c),
        None => true,
    }
}

fn holds_tokens(t: &PricingTier, m: &Measures) -> (r: bool)
    ensures
        r == tier_holds(*t, *m),
{
    m.prompt_k.le(t.max_prompt_tokens) && match t.max_completion_tokens {
        Some(c) => m.completion_k.le(c),
        None => true,
    }
}

/// Among the first `n` tiers that hold the tokens, the one with the lowest
/// bound; the first of equals.
pub open spec fn lowest_holding(tiers: Seq<PricingTier>, m: Measures, n: int) -> Option<int>
    decreases n,
{
    if n <= 0 {
        None
    } else {
        let done = lowest_holding(tiers, m, n - 1);
        if tier_holds(tiers[n - 1], m) {
            match done {
                Some(b) => if tiers[n - 1].max_prompt_tokens.below(tiers[b].max_prompt_tokens) {
                    Some(n - 1)
                } else {
                    Some(b)
                },
                None => Some(n - 1),
            }
        } else {
            done
        }
    }
}

/// Among the first `n` tiers, the one with the highest bound; the last of equals.
pub open spec fn highest_bound(tiers: Seq<PricingTier>, n: int) -> Option<int>
    decreases n,
{
    if n <= 0 {
        None
    } else {
        match highest_bound(tiers, n - 1) {
            Some(b) => if tiers[n - 1].max_prompt_tokens.below(tiers[b].max_prompt_tokens) {
                Some(b)
            } else {
                Some(n - 1)
            },
            None => Some(n - 1),
        }
    }
}

fn find_holding(tiers: &Vec<PricingTier>, m: &Measures) -> (r: Option<usize>)
    ensures
        match r {
            Some(i) => i < tiers@.len() && lowest_holding(tiers@, *m, tiers@.len() as int) == Some(
                i as int,
            ),
            None => lowest_holding(tiers@, *m, tiers@.len() as int) is None,
        },
{
    let mut best: Option<usize> = None;
    let mut i: usize = 0;
    while i < tiers.len()
        invariant
            i <= tiers@.len(),
            match best {
                Some(b) => b < i && lowest_holding(tiers@, *m, i as int) == Some(b as int),
                None => lowest_holding(tiers@, *m, i as int) is None,
            },
        decreases tiers@.len() - i,
    {
        if holds_tokens(&tiers[i], m) {
            match best {
                Some(b) => {
                    if tiers[i].max_prompt_tokens.lt(tiers[b].max_prompt_tokens) {
                        best = Some(i);
                    }
                },
                None => {
                    best = Some(i);
                },
            }
        }
        i += 1;
    }
    best
}

fn find_highest(tiers: &Vec<PricingTier>) -> (r: Option<usize>)
    ensures
        match r {
            Some(i) => i < tiers@.len() && highest_bound(tiers@, tiers@.len() as int) == Some(
                i as int,
            ),
            None => highest_bound(tiers@, tiers@.len() as int) is None,
        },
{
    let mut best: Option<usize> = None;
    let mut i: usize = 0;
    while i < tiers.len()
        invariant
            i <= tiers@.len(),
            match best {
                Some(b) => b < i && highest_bound(tiers@, i as int) == Some(b as int),
                None => highest_bound(tiers@, i as int) is None,
            },
        decreases tiers@.len() - i,
    {
        match best {
            Some(b) => {
                if !tiers[i].max_prompt_tokens.lt(tiers[b].max_prompt_tokens) {
                    best = Some(i);
                }
            },
            None => {
                best = Some(i);
            },
        }
        i += 1;
    }
    best
}

/// The prices of a tier.
pub open spec fn tier_rates(t: PricingTier, desc: Seq<PieceModel>) -> TokenRates {
    TokenRates {
        prompt: Cost::Num(t.prompt_rate),
        completion: Cost::Num(t.completion_rate),
        cached: set_price(t.cached_rate),
        write: set_price(t.cache_write_rate),
        desc,
    }
}

/// The prices of a tiered rule: those of the lowest tier that holds the
/// tokens, or of the highest there is; a tier without cache prices has none.
pub open spec fn tiered_rates(rule: BillingRule, m: Measures) -> TokenRates {
    let tiers = rule.tiers.tokens@;
    match lowest_holding(tiers, m, tiers.len() as int) {
        Some(i) => {
            let head = showing(
                saying("阶梯(≤"@),
                Cost::Num(tiers[i].max_prompt_tokens),
            );
            let desc = match tiers[i].max_completion_tokens {
                Some(c) => said(showing(said(head, "K入|≤"@), Cost::Num(c)), "K出)"@),
                None => said(head, "K入)"@),
            };
            tier_rates(tiers[i], desc)
        },
        None => match highest_bound(tiers, tiers.len() as int) {
            Some(i) => tier_rates(
                tiers[i],
                said(
                    showing(
                        saying("阶梯(超限·最高档"@),
                        Cost::Num(tiers[i].max_prompt_tokens),
                    ),
                    "K入)"@,
                ),
            ),
            None => standard_rates(rule),
        },
    }
}

fn make_standard_rates(rule: &BillingRule) -> (r: TokenPrices)
    ensures
        r@ == standard_rates(*rule),
{
    TokenPrices {
        prompt: Cost::Num(rule.prompt_rate),
        completion: Cost::Num(rule.completion_rate),
        cached: price_if_set(rule.cached_rate),
        write: None,
        desc: Detail::start("标准 Tokens 计费"),
    }
}

fn make_tier_rates(t: &PricingTier, desc: Detail) -> (r: TokenPrices)
    ensures
        r@ == tier_rates(*t, desc@),
{
    TokenPrices {
        prompt: Cost::Num(t.prompt_rate),
        completion: Cost::Num(t.completion_rate),
        cached: price_if_set(t.cached_rate),
        write: price_if_set(t.cache_write_rate),
        desc,
    }
}

fn find_tiered_rates(rule: &BillingRule, m: &Measures) -> (r: TokenPrices)
    ensures
        r@ == tiered_rates(*rule, *m),
{
    let tiers = &rule.tiers.tokens;
    match find_holding(tiers, m) {
        Some(i) => {
            let head = Detail::start("阶梯(≤").number(tiers[i].max_prompt_tokens);
            let desc = match tiers[i].max_completion_tokens {
                Some(c) => head.text("K入|≤").number(c).text("K出)"),
                None => head.text("K入)"),
            };
            make_tier_rates(&tiers[i], desc)
        },
        None => match find_highest(tiers) {
            Some(i) => make_tier_rates(
                &tiers[i],
                Detail::start("阶梯(超限·最高档").number(tiers[i].max_prompt_tokens).text("K入)"),
            ),
            None => make_standard_rates(rule),
        },
    }
}

// ---------------------------------------------------------------- audio

/// A price of its own where it is above zero, or else the common one.
pub open spec fn fast_or(fast: bool, own: Double, common: Double) -> Double {
    if fast && own.is_positive() {
        own
    } else {
        common
    }
}

fn pick_fast(fast: bool, own: Double, common: Double) -> (r: Double)
    ensures
        r == fast_or(fast, own, common),
{
    if fast && own.positive() {
        own
    } else {
        common
    }
}

/// The tier of an audio rule.
pub open spec fn audio_tier(tiers: Seq<PricingTier>, m: Measures) -> Option<int> {
    match lowest_holding(tiers, m, tiers.len() as int) {
        Some(i) => Some(i),
        None => highest_bound(tiers, tiers.len() as int),
    }
}

/// The cost of a request with audio in it: text and audio, fresh and cached,
/// each at its price.
pub open spec fn audio_bill(
    t: PricingTier,
    u: UsageTokens,
    f: ExtractedFeatures,
    ext: Option<Jv>,
    discount: Double,
) -> BillModel {
    let fast = field(f.service_tier) == Some("fast"@);
    let fresh = floored(u.prompt - u.cached);
    let text = floored(fresh - u.audio_tokens);
    let text_cached = floored(u.cached - u.audio_cached_tokens);
    let pr = Cost::Num(fast_or(fast, t.fast_prompt_rate, t.prompt_rate));
    let cr = Cost::Num(fast_or(fast, t.fast_completion_rate, t.completion_rate));
    let cache_r = Cost::Num(fast_or(fast, t.fast_cached_rate, t.cached_rate));
    let audio_pr = Cost::Num(fast_or(fast, t.fast_audio_prompt_rate, t.audio_prompt_rate));
    let audio_cache_r = Cost::Num(fast_or(fast, t.fast_audio_cached_rate, t.audio_cached_rate));
    let raw = tokens_at(text, pr).plus(tokens_at(u.audio_tokens as int, audio_pr)).plus(
        tokens_at(text_cached, cache_r),
    ).plus(tokens_at(u.audio_cached_tokens as int, audio_cache_r)).plus(
        tokens_at(u.completion as int, cr),
    ).over(million());
    let bound = showing(
        said(
            said(
                saying("豆包阶梯["@),
                if fast {
                    "低延迟"@
                } else {
                    "常规"@
                },
            ),
            "](<="@,
        ),
        Cost::Num(t.max_prompt_tokens),
    );
    let named = match t.max_completion_tokens {
        Some(c) => said(showing(said(bound, "K_P|<="@), Cost::Num(c)), "K_C) -> ("@),
        None => said(bound, "K_P) -> ("@),
    };
    let a = showing(said(showing(named, Cost::Count(text as i64)), "非音P*"@), pr);
    let b = showing(
        said(showing(said(a, " + "@), Cost::Count(u.audio_tokens as i64)), "音P*"@),
        audio_pr,
    );
    let c = showing(
        said(showing(said(b, " + "@), Cost::Count(text_cached as i64)), "非音C*"@),
        cache_r,
    );
    let d = showing(
        said(showing(said(c, " + "@), Cost::Count(u.audio_cached_tokens as i64)), "音C*"@),
        audio_cache_r,
    );
    let e = showing(
        said(showing(said(d, " + "@), Cost::Count(u.completion as i64)), "Out*"@),
        cr,
    );
    with_web_search(raw, said(e, ")/1M"@), f, ext, discount)
}

fn bill_audio(
    t: &PricingTier,
    u: &UsageTokens,
    f: &ExtractedFeatures,
    ext: &Option<Json>,
    discount: Double,
) -> (r: Bill)
    ensures
        r@ == audio_bill(*t, *u, *f, opt_json(*ext), discount),
{
    let fast = is_field(&f.service_tier, "fast");
    let over: i64 = u.prompt as i64 - u.cached as i64;
    let fresh: i64 = if over > 0 {
        over
    } else {
        0
    };
    let text_over: i64 = fresh - u.audio_tokens as i64;
    let text: i64 = if text_over > 0 {
        text_over
    } else {
        0
    };
    let cached_over: i64 = u.cached as i64 - u.audio_cached_tokens as i64;
    let text_cached: i64 = if cached_over > 0 {
        cached_over
    } else {
        0
    };
    let pr = pick_fast(fast, t.fast_prompt_rate, t.prompt_rate);
    let cr = pick_fast(fast, t.fast_completion_rate, t.completion_rate);
    let cache_r = pick_fast(fast, t.fast_cached_rate, t.cached_rate);
    let audio_pr = pick_fast(fast, t.fast_audio_prompt_rate, t.audio_prompt_rate);
    let audio_cache_r = pick_fast(fast, t.fast_audio_cached_rate, t.audio_cached_rate);
    let raw = price(text, Cost::Num(pr)).sum(price(u.audio_tokens as i64, Cost::Num(audio_pr))).sum(
        price(text_cached, Cost::Num(cache_r)),
    ).sum(price(u.audio_cached_tokens as i64, Cost::Num(audio_cache_r))).sum(
        price(u.completion as i64, Cost::Num(cr)),
    ).quotient(Cost::Count(1000000));
    let label = if fast {
        "低延迟"
    } else {
        "常规"
    };
    let bound = Detail::start("豆包阶梯[").text(label).text("](<=").number(t.max_prompt_tokens);
    let named = match t.max_completion_tokens {
        Some(c) => bound.text("K_P|<=").number(c).text("K_C) -> ("),
        None => bound.text("K_P) -> ("),
    };
    let detail = named.count(text).text("非音P*").number(pr).text(" + ").count(
        u.audio_tokens as i64,
    ).text("音P*").number(audio_pr).text(" + ").count(text_cached).text("非音C*").number(
        cache_r,
    ).text(" + ").count(u.audio_cached_tokens as i64).text("音C*").number(audio_cache_r).text(
        " + ",
    ).count(u.completion as i64).text("Out*").number(cr).text(")/1M");
    apply_web_search(raw, detail, f, ext, discount)
}

// ---------------------------------------------------------------- images

/// The cost of text and image input, each at its price.
pub open spec fn multimodal_bill(
    rule: BillingRule,
    u: UsageTokens,
    f: ExtractedFeatures,
    ext: Option<Jv>,
    discount: Double,
) -> BillModel {
    let p = Cost::Num(rule.prompt_rate);
    let image = Cost::Num(
        match ext_double(ext, "image_prompt_rate"@) {
            Some(d) => d,
            None => rule.prompt_rate,
        },
    );
    let raw = tokens_at(u.prompt as int, p).plus(tokens_at(u.image_tokens as int, image)).over(
        million(),
    );
    let a = showing(
        said(
            showing(saying("多模态计费 -> ("@), Cost::Count(u.prompt as i64)),
            "文本P*"@,
        ),
        p,
    );
    let b = showing(
        said(showing(said(a, " + "@), Cost::Count(u.image_tokens as i64)), "图片P*"@),
        image,
    );
    with_web_search(raw, said(b, ")/1M"@), f, ext, discount)
}

fn bill_multimodal(
    rule: &BillingRule,
    u: &UsageTokens,
    f: &ExtractedFeatures,
    ext: &Option<Json>,
    discount: Double,
) -> (r: Bill)
    ensures
        r@ == multimodal_bill(*rule, *u, *f, opt_json(*ext), discount),
{
    let image = match get_ext_double(ext, "image_prompt_rate") {
        Some(d) => d,
        None => rule.prompt_rate,
    };
    let raw = price(u.prompt as i64, Cost::Num(rule.prompt_rate)).sum(
        price(u.image_tokens as i64, Cost::Num(image)),
    ).quotient(Cost::Count(1000000));
    let detail = Detail::start("多模态计费 -> (").count(u.prompt as i64).text("文本P*").number(
        rule.prompt_rate,
    ).text(" + ").count(u.image_tokens as i64).text("图片P*").number(image).text(")/1M");
    apply_web_search(raw, detail, f, ext, discount)
}

/// The tokens of an image request, in the order in which they are billed:
/// fresh text, fresh images, cached text, cached images and output. Cached
/// tokens are those of images where the request has any.
pub open spec fn gpt_tokens(u: UsageTokens, f: ExtractedFeatures) -> Seq<int> {
    let cached = floored(u.cached as int);
    let image_cached = if f.has_image_ref {
        cached
    } else {
        0
    };
    let text_cached = if f.has_image_ref {
        0
    } else {
        cached
    };
    let text = floored(u.prompt - u.image_tokens);
    seq![
        floored(text - text_cached),
        floored(u.image_tokens - image_cached),
        text_cached,
        image_cached,
        u.completion as int,
    ]
}

/// The settings and the labels of what is billed, in the same order.
pub open spec fn gpt_items() -> Seq<(Seq<char>, Seq<char>)> {
    seq![
        ("input_text"@, "文本输入"@),
        ("input_image"@, "图片输入"@),
        ("cached_input_text"@, "文本缓存"@),
        ("cached_input_image"@, "图片缓存"@),
        ("output_image"@, "图片输出"@),
    ]
}

/// What has been billed of the first `n` items: the sum, and how it came about.
pub open spec fn gpt_upto(config: Jv, tokens: Seq<int>, n: int) -> (Cost, Seq<PieceModel>)
    decreases n,
{
    if n <= 0 {
        (Cost::Num(Double { bits: 0 }), Seq::empty())
    } else {
        let (sum, parts) = gpt_upto(config, tokens, n - 1);
        let (key, label) = gpt_items()[n - 1];
        let item = config.member(key);
        let enabled = match item {
            Some(i) => flag_or(i, "enabled"@, false),
            None => false,
        };
        if enabled {
            let rate = match double_at(item->Some_0, "rate"@) {
                Some(d) => Cost::Num(d),
                None => Cost::Num(Double { bits: 0 }),
            };
            let head = if parts.len() == 0 {
                parts
            } else {
                said(parts, " + "@)
            };
            (
                sum.plus(tokens_at(tokens[n - 1], rate)),
                showing(
                    said(
                        showing(said(said(head, label), ":"@), Cost::Count(tokens[n - 1] as i64)),
                        "*"@,
                    ),
                    rate,
                ),
            )
        } else {
            (sum, parts)
        }
    }
}

/// The bill of an image request whose items are switched on one by one.
pub open spec fn gpt_bill(
    u: UsageTokens,
    f: ExtractedFeatures,
    ext: Option<Jv>,
    discount: Double,
) -> BillModel {
    let config = match ext {
        Some(e) => e.member("gpt_config"@),
        None => None,
    };
    match config {
        Some(c) => {
            let (sum, parts) = gpt_upto(c, gpt_tokens(u, f), 5);
            discounted(
                sum.over(million()),
                if parts.len() == 0 {
                    saying("GPT图片计费(未启用任何计费项)"@)
                } else {
                    said(saying("GPT图片计费 -> ("@) + parts, ")/1M"@)
                },
                discount,
            )
        },
        None => discounted(
            Cost::Num(Double { bits: 0 }),
            saying("GPT图片计费(未启用任何计费项)"@),
            discount,
        ),
    }
}

/// Parts the tokens of an image request into what is billed.
pub fn split_gpt_tokens(u: &UsageTokens, f: &ExtractedFeatures) -> (r: Vec<i64>)
    ensures
        r@.map_values(|n: i64| n as int) == gpt_tokens(*u, *f),
        r@.len() == 5,
{
    let cached: i64 = if u.cached > 0 {
        u.cached as i64
    } else {
        0
    };
    let image_cached: i64 = if f.has_image_ref {
        cached
    } else {
        0
    };
    let text_cached: i64 = if f.has_image_ref {
        0
    } else {
        cached
    };
    let text_over: i64 = u.prompt as i64 - u.image_tokens as i64;
    let text: i64 = if text_over > 0 {
        text_over
    } else {
        0
    };
    let fresh_text: i64 = if text - text_cached > 0 {
        text - text_cached
    } else {
        0
    };
    let image_over: i64 = u.image_tokens as i64 - image_cached;
    let fresh_image: i64 = if image_over > 0 {
        image_over
    } else {
        0
    };
    let r = vec![fresh_text, fresh_image, text_cached, image_cached, u.completion as i64];
    assert(r@.map_values(|n: i64| n as int) =~= gpt_tokens(*u, *f));
    r
}

fn gpt_item(i: usize) -> (r: (&'static str, &'static str))
    requires
        i < 5,
    ensures
        (r.0@, r.1@) == gpt_items()[i as int],
{
    if i == 0 {
        ("input_text", "文本输入")
    } else if i == 1 {
        ("input_image", "图片输入")
    } else if i == 2 {
        ("cached_input_text", "文本缓存")
    } else if i == 3 {
        ("cached_input_image", "图片缓存")
    } else {
        ("output_image", "图片输出")
    }
}

fn bill_gpt(u: &UsageTokens, f: &ExtractedFeatures, ext: &Option<Json>, discount: Double) -> (r: Bill)
    ensures
        r@ == gpt_bill(*u, *f, opt_json(*ext), discount),
{
    let found = match ext {
        Some(e) => e.get("gpt_config"),
        None => None,
    };
    let config = match found {
        Some(c) => c,
        None => {
            return apply_discount(
                Cost::Num(Double { bits: 0 }),
                Detail::start("GPT图片计费(未启用任何计费项)"),
                discount,
            );
        },
    };
    let tokens = split_gpt_tokens(u, f);
    let ghost ts = gpt_tokens(*u, *f);
    let mut sum = Cost::Num(Double { bits: 0 });
    let mut parts = Detail { pieces: Vec::new() };
    let mut i: usize = 0;
    proof {
        assert(parts@ =~= Seq::<PieceModel>::empty());
    }
    while i < 5
        invariant
            i <= 5,
            tokens@.len() == 5,
            tokens@.map_values(|n: i64| n as int) == ts,
            (sum, parts@) == gpt_upto(config@, ts, i as int),
        decreases 5 - i,
    {
        let (key, label) = gpt_item(i);
        assert(ts[i as int] == tokens@[i as int]);
        match config.get(key) {
            Some(item) => {
                if item.get_bool_or("enabled", false) {
                    let rate = match item.get_double("rate") {
                        Some(d) => d,
                        None => Double { bits: 0 },
                    };
                    let empty = parts.pieces.len() == 0;
                    assert(parts@.len() == parts.pieces@.len());
                    let head = if empty {
                        parts
                    } else {
                        parts.text(" + ")
                    };
                    parts = head.text(label).text(":").count(tokens[i]).text("*").number(rate);
                    sum = sum.sum(price(tokens[i], Cost::Num(rate)));
                } else {
                    parts = parts;
                }
            },
            None => {},
        }
        i += 1;
    }
    assert(parts@.len() == parts.pieces@.len());
    let detail = if parts.pieces.len() == 0 {
        Detail::start("GPT图片计费(未启用任何计费项)")
    } else {
        let ghost p = parts@;
        let mut pieces = Detail::start("GPT图片计费 -> (").pieces;
        let mut rest = parts.pieces;
        pieces.append(&mut rest);
        let joined = Detail { pieces };
        proof {
            assert(joined@ =~= saying("GPT图片计费 -> ("@) + p);
        }
        joined.text(")/1M")
    };
    apply_discount(sum.quotient(Cost::Count(1000000)), detail, discount)
}

// ---------------------------------------------------------------- the whole

/// Prices with the offline discount on each of them.
pub open spec fn with_offline(r: TokenRates, discount: Double) -> TokenRates {
    let d = Cost::Num(discount);
    TokenRates {
        prompt: r.prompt.times(d),
        completion: r.completion.times(d),
        cached: match r.cached {
            Some(c) => Some(c.times(d)),
            None => None,
        },
        write: match r.write {
            Some(c) => Some(c.times(d)),
            None => None,
        },
        desc: said(showing(said(r.desc, " [叠加Flex离线折扣: "@), d), "倍]"@),
    }
}

fn apply_offline(r: TokenPrices, discount: Double) -> (out: TokenPrices)
    ensures
        out@ == with_offline(r@, discount),
{
    TokenPrices {
        prompt: r.prompt.product(Cost::Num(discount)),
        completion: r.completion.product(Cost::Num(discount)),
        cached: match r.cached {
            Some(c) => Some(c.product(Cost::Num(discount))),
            None => None,
        },
        write: match r.write {
            Some(c) => Some(c.product(Cost::Num(discount))),
            None => None,
        },
        desc: r.desc.text(" [叠加Flex离线折扣: ").number(discount).text("倍]"),
    }
}

/// The prices of a request: those that its rule sets itself, or the tiered or
/// standard ones; these are lower offline, except for Seedance 2.0.
pub open spec fn token_rates(
    rule: BillingRule,
    f: ExtractedFeatures,
    ext: Option<Jv>,
    m: Measures,
) -> TokenRates {
    match own_rates(rule, f, ext) {
        Some(r) => r,
        None => {
            let r = if rule.billing_rule@ == "tiered"@ {
                tiered_rates(rule, m)
            } else {
                standard_rates(rule)
            };
            if is_flex(f) && rule.billing_rule@ != "seedance2.0"@ {
                with_offline(r, offline_discount(ext))
            } else {
                r
            }
        },
    }
}

fn find_token_rates(
    rule: &BillingRule,
    f: &ExtractedFeatures,
    ext: &Option<Json>,
    m: &Measures,
) -> (r: TokenPrices)
    ensures
        r@ == token_rates(*rule, *f, opt_json(*ext), *m),
{
    match find_own_rates(rule, f, ext) {
        Some(r) => r,
        None => {
            let r = if same(rule.billing_rule.as_str(), "tiered") {
                find_tiered_rates(rule, m)
            } else {
                make_standard_rates(rule)
            };
            if is_field(&f.service_tier, "flex") && !same(
                rule.billing_rule.as_str(),
                "seedance2.0",
            ) {
                let off = get_offline_discount(ext);
                apply_offline(r, off)
            } else {
                r
            }
        },
    }
}

/// The input tokens of a request: image tokens count as input.
pub open spec fn all_prompt(u: UsageTokens) -> int {
    if u.image_tokens > 0 {
        u.prompt + u.image_tokens
    } else {
        u.prompt as int
    }
}

/// The tokens with which a cache was created.
pub open spec fn created(f: ExtractedFeatures) -> int {
    match f.cache_creation {
        Some(n) => n as int,
        None => 0,
    }
}

/// Whether caches are billed apart from the input: a cache was created, or
/// one was read that has a price of its own.
pub open spec fn bills_caches_apart(rule: BillingRule, u: UsageTokens, f: ExtractedFeatures) -> bool {
    created(f) > 0 || (rule.claude_cache_read_rate.is_positive() && u.cached > 0)
}

/// Whether the total that the upstream names is input and output, so that the
/// input covers what was cached.
pub open spec fn covers_cache(u: UsageTokens) -> bool {
    u.has_total_tokens && u.total == all_prompt(u) + u.completion
}

/// The input tokens that were neither read from a cache nor created
/// one.
pub open spec fn uncached_prompt(u: UsageTokens, f: ExtractedFeatures) -> int {
    if covers_cache(u) && all_prompt(u) >= created(f) + u.cached {
        all_prompt(u) - created(f) - u.cached
    } else {
        all_prompt(u)
    }
}

/// The price at which a cache that is billed apart is read.
pub open spec fn cache_read_rate(rule: BillingRule, r: TokenRates) -> Cost {
    if rule.claude_cache_read_rate.is_positive() {
        Cost::Num(rule.claude_cache_read_rate)
    } else {
        match r.cached {
            Some(c) => c,
            None => r.prompt,
        }
    }
}

/// The cost with caches billed apart, before the discount.
pub open spec fn caches_apart_cost(
    rule: BillingRule,
    r: TokenRates,
    u: UsageTokens,
    f: ExtractedFeatures,
) -> (Cost, Seq<PieceModel>) {
    let prompt = uncached_prompt(u, f);
    let cc = created(f);
    let cc_rate = Cost::Num(rule.claude_cache_creation_rate);
    let read_rate = cache_read_rate(rule, r);
    let zero = Cost::Num(Double { bits: 0 });
    let creation = if cc > 0 && rule.claude_cache_creation_rate.is_positive() {
        tokens_at(cc, cc_rate)
    } else {
        zero
    };
    let read = if u.cached > 0 {
        tokens_at(u.cached as int, read_rate)
    } else {
        zero
    };
    let a = showing(
        said(showing(said(r.desc, " -> ("@), Cost::Count(prompt as i64)), "P*"@),
        r.prompt,
    );
    let b = showing(
        said(showing(said(a, " + "@), Cost::Count(u.completion as i64)), "C*"@),
        r.completion,
    );
    let c = showing(said(showing(said(b, " + "@), Cost::Count(cc as i64)), "创建@"@), cc_rate);
    let d = showing(
        said(showing(said(c, " + "@), Cost::Count(u.cached as i64)), "读取@"@),
        read_rate,
    );
    (
        tokens_at(prompt, r.prompt).plus(tokens_at(u.completion as int, r.completion)).plus(
            creation,
        ).plus(read).over(million()),
        said(d, ")/1M"@),
    )
}

fn cost_caches_apart(rule: &BillingRule, r: &TokenPrices, u: &UsageTokens, f: &ExtractedFeatures) -> (
    out: (Cost, Detail))
    ensures
        (out.0, out.1@) == caches_apart_cost(*rule, r@, *u, *f),
{
    let all: i64 = sum_prompt(u);
    let cc: i64 = match f.cache_creation {
        Some(n) => n as i64,
        None => 0,
    };
    let covers = u.has_total_tokens && u.total as i64 == all + u.completion as i64;
    let prompt: i64 = if covers && all >= cc + u.cached as i64 {
        all - cc - u.cached as i64
    } else {
        all
    };
    let read_rate = if rule.claude_cache_read_rate.positive() {
        Cost::Num(rule.claude_cache_read_rate)
    } else {
        match &r.cached {
            Some(c) => c.dup(),
            None => r.prompt.dup(),
        }
    };
    let creation = if cc > 0 && rule.claude_cache_creation_rate.positive() {
        price(cc, Cost::Num(rule.claude_cache_creation_rate))
    } else {
        Cost::Num(Double { bits: 0 })
    };
    let read = if u.cached > 0 {
        price(u.cached as i64, read_rate.dup())
    } else {
        Cost::Num(Double { bits: 0 })
    };
    let detail = copy_detail(&r.desc).text(" -> (").count(prompt).text("P*").shown(&r.prompt).text(
        " + ",
    ).count(u.completion as i64).text("C*").shown(&r.completion).text(" + ").count(cc).text(
        "创建@",
    ).number(rule.claude_cache_creation_rate).text(" + ").count(u.cached as i64).text(
        "读取@",
    ).shown(&read_rate).text(")/1M");
    let cost = price(prompt, r.prompt.dup()).sum(
        price(u.completion as i64, r.completion.dup()),
    ).sum(creation).sum(read).quotient(Cost::Count(1000000));
    (cost, detail)
}

fn copy_detail(d: &Detail) -> (r: Detail)
    ensures
        r@ == d@,
{
    let mut out = Detail { pieces: Vec::new() };
    let mut i: usize = 0;
    proof {
        assert(out@ =~= d@.take(0));
    }
    while i < d.pieces.len()
        invariant
            i <= d.pieces@.len(),
            out@ == d@.take(i as int),
        decreases d.pieces@.len() - i,
    {
        proof {
            assert(d@.take(i + 1) =~= d@.take(i as int).push(d.pieces@[i as int]@));
        }
        out = match &d.pieces[i] {
            Piece::Text(s) => out.text(s.as_str()),
            Piece::Shown(c) => out.shown(c),
            Piece::Fixed(n, c) => out.fixed(*n, c),
        };
        i += 1;
    }
    proof {
        assert(d@.take(i as int) =~= d@);
    }
    out
}

fn sum_prompt(u: &UsageTokens) -> (r: i64)
    ensures
        r == all_prompt(*u),
{
    if u.image_tokens > 0 {
        u.prompt as i64 + u.image_tokens as i64
    } else {
        u.prompt as i64
    }
}

/// A sum with tokens at a price added, where they have one.
pub open spec fn plus_priced(sum: Cost, n: int, rate: Option<Cost>) -> Cost {
    match rate {
        Some(r) => sum.plus(tokens_at(n, r)),
        None => sum,
    }
}

/// The detail with tokens at a price, where there are any.
pub open spec fn with_priced(
    d: Seq<PieceModel>,
    n: int,
    label: Seq<char>,
    rate: Option<Cost>,
) -> Seq<PieceModel> {
    match rate {
        Some(r) => if n > 0 {
            showing(said(showing(said(d, " + "@), Cost::Count(n as i64)), label), r)
        } else {
            d
        },
        None => d,
    }
}

/// The detail with a note on tokens that are billed as input.
pub open spec fn with_note(d: Seq<PieceModel>, n: int, billed: int, label: Seq<char>) -> Seq<
    PieceModel,
> {
    if n > 0 && billed == 0 {
        said(showing(said(d, " [含"@), Cost::Count(n as i64)), label)
    } else {
        d
    }
}

/// The cost with caches as parts of the input, before the discount.
pub open spec fn subset_cost(r: TokenRates, u: UsageTokens) -> (Cost, Seq<PieceModel>) {
    let (prompt, cached, write) = prompt_subsets(
        all_prompt(u),
        u.cached as int,
        u.cache_write as int,
        r.cached is Some,
        r.write is Some,
        covers_cache(u),
    );
    let sum = tokens_at(prompt, r.prompt).plus(tokens_at(u.completion as int, r.completion));
    let a = showing(
        said(showing(said(r.desc, " -> ("@), Cost::Count(prompt as i64)), "入*"@),
        r.prompt,
    );
    let b = showing(
        said(showing(said(a, " + "@), Cost::Count(u.completion as i64)), "出*"@),
        r.completion,
    );
    let c = with_priced(b, cached, "读*"@, r.cached);
    let d = with_priced(c, write, "写*"@, r.write);
    let e = with_note(said(d, ")/1M"@), u.cached as int, cached, "读·按输入价]"@);
    (
        plus_priced(plus_priced(sum, cached, r.cached), write, r.write).over(million()),
        with_note(e, u.cache_write as int, write, "写·按输入价]"@),
    )
}

fn add_priced(sum: Cost, n: i64, rate: &Option<Cost>) -> (r: Cost)
    ensures
        r == plus_priced(sum, n as int, *rate),
{
    match rate {
        Some(c) => sum.sum(price(n, c.dup())),
        None => sum,
    }
}

fn note_priced(d: Detail, n: i64, label: &str, rate: &Option<Cost>) -> (r: Detail)
    ensures
        r@ == with_priced(d@, n as int, label@, *rate),
{
    match rate {
        Some(c) => if n > 0 {
            d.text(" + ").count(n).text(label).shown(c)
        } else {
            d
        },
        None => d,
    }
}

fn note_unpriced(d: Detail, n: i32, billed: i64, label: &str) -> (r: Detail)
    ensures
        r@ == with_note(d@, n as int, billed as int, label@),
{
    if n > 0 && billed == 0 {
        d.text(" [含").count(n as i64).text(label)
    } else {
        d
    }
}

fn cost_by_subsets(r: &TokenPrices, u: &UsageTokens) -> (out: (Cost, Detail))
    ensures
        (out.0, out.1@) == subset_cost(r@, *u),
{
    let all: i64 = sum_prompt(u);
    let covers = u.has_total_tokens && u.total as i64 == all + u.completion as i64;
    let (prompt, cached, write) = split_prompt_subsets(
        all,
        u.cached,
        u.cache_write,
        r.cached.is_some(),
        r.write.is_some(),
        covers,
    );
    let sum = price(prompt, r.prompt.dup()).sum(price(u.completion as i64, r.completion.dup()));
    let head = copy_detail(&r.desc).text(" -> (").count(prompt).text("入*").shown(&r.prompt).text(
        " + ",
    ).count(u.completion as i64).text("出*").shown(&r.completion);
    let a = note_priced(head, cached, "读*", &r.cached);
    let b = note_priced(a, write, "写*", &r.write).text(")/1M");
    let c = note_unpriced(b, u.cached, cached, "读·按输入价]");
    let detail = note_unpriced(c, u.cache_write, write, "写·按输入价]");
    let cost = add_priced(add_priced(sum, cached, &r.cached), write, &r.write).quotient(
        Cost::Count(1000000),
    );
    (cost, detail)
}

/// The bill at the prices of a request.
pub open spec fn priced_bill(
    rule: BillingRule,
    u: UsageTokens,
    f: ExtractedFeatures,
    ext: Option<Jv>,
    discount: Double,
    m: Measures,
) -> BillModel {
    let r = token_rates(rule, f, ext, m);
    let (raw, detail) = if bills_caches_apart(rule, u, f) {
        caches_apart_cost(rule, r, u, f)
    } else {
        subset_cost(r, u)
    };
    with_web_search(raw, detail, f, ext, discount)
}

/// The bill of a request that is billed by tokens.
pub open spec fn tokens_bill(
    rule: BillingRule,
    u: UsageTokens,
    f: ExtractedFeatures,
    ext: Option<Jv>,
    discount: Double,
    m: Measures,
) -> BillModel {
    let kind = rule.billing_rule@;
    if kind == "doubao_chat"@ && audio_tier(rule.tiers.tokens@, m) is Some {
        audio_bill(
            rule.tiers.tokens@[audio_tier(rule.tiers.tokens@, m)->Some_0],
            u,
            f,
            ext,
            discount,
        )
    } else if kind == "multimodal"@ {
        multimodal_bill(rule, u, f, ext, discount)
    } else if kind == "gpt_billing"@ {
        gpt_bill(u, f, ext, discount)
    } else {
        priced_bill(rule, u, f, ext, discount, m)
    }
}

/// Bills a request by tokens.
pub fn bill_tokens(
    rule: &BillingRule,
    u: &UsageTokens,
    f: &ExtractedFeatures,
    ext: &Option<Json>,
    discount: Double,
    m: &Measures,
) -> (r: Bill)
    ensures
        r@ == tokens_bill(*rule, *u, *f, opt_json(*ext), discount, *m),
{
    let kind = rule.billing_rule.as_str();
    if same(kind, "doubao_chat") {
        let tiers = &rule.tiers.tokens;
        let found = match find_holding(tiers, m) {
            Some(i) => Some(i),
            None => find_highest(tiers),
        };
        match found {
            Some(i) => {
                return bill_audio(&tiers[i], u, f, ext, discount);
            },
            None => {},
        }
    }
    if same(kind, "multimodal") {
        return bill_multimodal(rule, u, f, ext, discount);
    }
    if same(kind, "gpt_billing") {
        return bill_gpt(u, f, ext, discount);
    }
    let r = find_token_rates(rule, f, ext, m);
    let cc: i32 = match f.cache_creation {
        Some(n) => n,
        None => 0,
    };
    let apart = cc > 0 || (rule.claude_cache_read_rate.positive() && u.cached > 0);
    let (raw, detail) = if apart {
        cost_caches_apart(rule, &r, u, f)
    } else {
        cost_by_subsets(&r, u)
    };
    apply_web_search(raw, detail, f, ext, discount)
}

} // verus!
