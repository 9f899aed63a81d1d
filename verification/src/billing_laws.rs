//! What holds of bills as a whole: how the amount follows from the rule, the
//! usage and the discount, in exact arithmetic.
use vstd::prelude::*;
use vstd::string::*;
use crate::bill::{BillingRule, ExtractedFeatures, Measures};
use crate::billing::raw_bill;
use crate::cost::{
    amount, lemma_distribute, lemma_exchange, lemma_millionth, lemma_neutral, product, quotient,
    Cost,
};
use crate::double::{double_at, Double, ONE};
use crate::json::parsed_json;
use crate::usage::UsageTokens;

verus! {

// ---------------------------------------------------------------- discounts

/// What a request costs is in proportion to its discount, whatever its rule:
/// at two discounts the amounts are as the discounts are.
pub proof fn law_discount_in_proportion(
    rule: Option<BillingRule>,
    u: UsageTokens,
    f: ExtractedFeatures,
    m: Measures,
    d: Double,
    e: Double,
    num: spec_fn(Double) -> real,
)
    ensures
        product(amount(raw_bill(rule, u, f, d, m).cost, num), num(e)) == product(
            amount(raw_bill(rule, u, f, e, m).cost, num),
            num(d),
        ),
        num(Double { bits: ONE }) == 1real ==> amount(raw_bill(rule, u, f, d, m).cost, num)
            == product(
            amount(raw_bill(rule, u, f, Double { bits: ONE }, m).cost, num),
            num(d),
        ),
{
    let a = raw_bill(rule, u, f, d, m).cost;
    let b = raw_bill(rule, u, f, e, m).cost;
    let c = raw_bill(rule, u, f, Double { bits: ONE }, m).cost;
    reveal_with_fuel(amount, 2);
    let before = *a->Product_0;
    assert(a == before.times(Cost::Num(d)));
    assert(b == before.times(Cost::Num(e)));
    assert(c == before.times(Cost::Num(Double { bits: ONE })));
    lemma_exchange(amount(before, num), num(d), num(e));
    lemma_neutral(amount(before, num));
}

/// A request without a rule costs one for a million tokens of input and output.
pub proof fn law_without_a_rule(
    u: UsageTokens,
    f: ExtractedFeatures,
    m: Measures,
    d: Double,
    num: spec_fn(Double) -> real,
)
    ensures
        amount(raw_bill(None, u, f, d, m).cost, num) == product(
            quotient((u.prompt + u.completion) as real, 1000000real),
            num(d),
        ),
{
    reveal_with_fuel(amount, 6);
}

// ---------------------------------------------------------------- tokens

/// Whether a rule bills by tokens: neither by request nor by duration.
pub open spec fn is_by_tokens(rule: BillingRule) -> bool {
    rule.billing_type@ != "requests"@ && rule.billing_type@ != "duration"@
}

/// Whether a token rule has no scheme of its own, so that its two prices hold.
pub open spec fn has_two_prices(rule: BillingRule) -> bool {
    let kind = rule.billing_rule@;
    &&& kind != "doubao_chat"@
    &&& kind != "multimodal"@
    &&& kind != "gpt_billing"@
    &&& kind != "seedance2.0"@
    &&& kind != "seedance1.5pro"@
    &&& kind != "seedance1.0"@
    &&& kind != "tiered"@
}

/// Whether a request neither searched the web, nor ran offline, nor created a
/// cache.
pub open spec fn is_ordinary(f: ExtractedFeatures) -> bool {
    &&& (f.web_search matches Some(n) ==> n <= 0)
    &&& (f.service_tier matches Some(t) ==> t@ != "flex"@)
    &&& (f.cache_creation matches Some(n) ==> n <= 0)
}

/// Input costs the input price and output the output price, for a million
/// tokens each, times the discount.
pub proof fn law_token_prices(
    rule: BillingRule,
    u: UsageTokens,
    f: ExtractedFeatures,
    m: Measures,
    d: Double,
    num: spec_fn(Double) -> real,
)
    requires
        is_by_tokens(rule),
        has_two_prices(rule),
        is_ordinary(f),
        u.cached <= 0,
        u.cache_write <= 0,
        u.image_tokens <= 0,
    ensures
        amount(raw_bill(Some(rule), u, f, d, m).cost, num) == product(
            quotient(
                product(u.prompt as real, num(rule.prompt_rate)) + product(
                    u.completion as real,
                    num(rule.completion_rate),
                ),
                1000000real,
            ),
            num(d),
        ),
{
    reveal_with_fuel(amount, 8);
    lemma_neutral(num(rule.cached_rate));
}

/// Cached input that has a price of its own costs that price. It comes out of
/// the input where the total that the upstream names shows that the input
/// covers it.
pub proof fn law_cached_input(
    rule: BillingRule,
    u: UsageTokens,
    f: ExtractedFeatures,
    m: Measures,
    d: Double,
    num: spec_fn(Double) -> real,
)
    requires
        is_by_tokens(rule),
        has_two_prices(rule),
        is_ordinary(f),
        !rule.claude_cache_read_rate.is_positive(),
        u.cached > 0,
        u.cache_write <= 0,
        u.image_tokens <= 0,
    ensures
        ({
            let covered = u.has_total_tokens && u.total == u.prompt + u.completion && u.prompt
                >= u.cached;
            let output = product(u.completion as real, num(rule.completion_rate));
            let cost = amount(raw_bill(Some(rule), u, f, d, m).cost, num);
            let p = num(rule.prompt_rate);
            if rule.cached_rate.is_positive() {
                let fresh = if covered {
                    u.prompt - u.cached
                } else {
                    u.prompt as int
                };
                let read = product(u.cached as real, num(rule.cached_rate));
                cost == product(
                    quotient(product(fresh as real, p) + output + read, 1000000real),
                    num(d),
                )
            } else {
                let input = if covered {
                    u.prompt as int
                } else {
                    u.prompt + u.cached
                };
                cost == product(
                    quotient(product(input as real, p) + output, 1000000real),
                    num(d),
                )
            }
        }),
{
    reveal_with_fuel(amount, 8);
}

/// Where a cache was created, or one was read that has a price of its own,
/// what was read and what was created are billed beside the rest of the input.
pub proof fn law_caches_apart(
    rule: BillingRule,
    u: UsageTokens,
    f: ExtractedFeatures,
    m: Measures,
    d: Double,
    num: spec_fn(Double) -> real,
    created: int,
)
    requires
        is_by_tokens(rule),
        has_two_prices(rule),
        f.web_search matches Some(n) ==> n <= 0,
        f.service_tier matches Some(t) ==> t@ != "flex"@,
        created == (match f.cache_creation {
            Some(n) => n as int,
            None => 0,
        }),
        created > 0 || (rule.claude_cache_read_rate.is_positive() && u.cached > 0),
        u.image_tokens <= 0,
    ensures
        ({
            let covered = u.has_total_tokens && u.total == u.prompt + u.completion && u.prompt
                >= created + u.cached;
            let fresh = if covered {
                u.prompt - created - u.cached
            } else {
                u.prompt as int
            };
            let write = if created > 0 && rule.claude_cache_creation_rate.is_positive() {
                product(created as real, num(rule.claude_cache_creation_rate))
            } else {
                num(Double { bits: 0 })
            };
            let rate = if rule.claude_cache_read_rate.is_positive() {
                num(rule.claude_cache_read_rate)
            } else if rule.cached_rate.is_positive() {
                num(rule.cached_rate)
            } else {
                num(rule.prompt_rate)
            };
            let read = if u.cached > 0 {
                product(u.cached as real, rate)
            } else {
                num(Double { bits: 0 })
            };
            amount(raw_bill(Some(rule), u, f, d, m).cost, num) == product(
                quotient(
                    product(fresh as real, num(rule.prompt_rate)) + product(
                        u.completion as real,
                        num(rule.completion_rate),
                    ) + write + read,
                    1000000real,
                ),
                num(d),
            )
        }),
{
    reveal_with_fuel(amount, 8);
}

/// The image tokens of a request are billed as input.
pub proof fn law_image_tokens_are_input(
    rule: BillingRule,
    u: UsageTokens,
    f: ExtractedFeatures,
    m: Measures,
    d: Double,
    v: UsageTokens,
)
    requires
        is_by_tokens(rule),
        rule.billing_rule@ != "doubao_chat"@,
        rule.billing_rule@ != "multimodal"@,
        rule.billing_rule@ != "gpt_billing"@,
        u.image_tokens > 0,
        v == (UsageTokens { prompt: v.prompt, image_tokens: 0, ..u }),
        v.prompt == u.prompt + u.image_tokens,
    ensures
        raw_bill(Some(rule), u, f, d, m) == raw_bill(Some(rule), v, f, d, m),
{
}

/// Web searches cost their price for a thousand, times the discount, on top of
/// everything else.
pub proof fn law_web_search_on_top(
    rule: BillingRule,
    u: UsageTokens,
    f: ExtractedFeatures,
    m: Measures,
    d: Double,
    num: spec_fn(Double) -> real,
    n: i32,
    rate: Double,
)
    requires
        is_by_tokens(rule),
        rule.billing_rule@ != "gpt_billing"@,
        n > 0,
        rate.is_positive(),
        parsed_json(rule.extended_config@) matches Some(e) && double_at(e, "web_search_rate"@)
            == Some(rate),
    ensures
        amount(
            raw_bill(Some(rule), u, (ExtractedFeatures { web_search: Some(n), ..f }), d, m).cost,
            num,
        ) == amount(
            raw_bill(Some(rule), u, (ExtractedFeatures { web_search: None, ..f }), d, m).cost,
            num,
        ) + product(quotient(product(n as real, num(rate)), 1000real), num(d)),
{
    let g = ExtractedFeatures { web_search: None, ..f };
    let h = ExtractedFeatures { web_search: Some(n), ..f };
    let plain = raw_bill(Some(rule), u, g, d, m).cost;
    let searched = raw_bill(Some(rule), u, h, d, m).cost;
    reveal_with_fuel(amount, 5);
    let before = *plain->Product_0;
    let searches = Cost::Count(n as i64).times(Cost::Num(rate)).over(Cost::Count(1000));
    assert(plain == before.times(Cost::Num(d)));
    assert(searched == before.plus(searches).times(Cost::Num(d)));
    lemma_distribute(amount(before, num), amount(searches, num), num(d));
}

/// Offline a request that is billed by token prices costs the offline discount
/// times what it costs otherwise.
pub proof fn law_offline_discount(
    rule: BillingRule,
    u: UsageTokens,
    f: ExtractedFeatures,
    m: Measures,
    d: Double,
    num: spec_fn(Double) -> real,
    flex: String,
    off: Double,
)
    requires
        is_by_tokens(rule),
        has_two_prices(rule),
        flex@ == "flex"@,
        f.web_search matches Some(n) ==> n <= 0,
        f.cache_creation matches Some(n) ==> n <= 0,
        !rule.claude_cache_read_rate.is_positive(),
        off == (match parsed_json(rule.extended_config@) {
            Some(e) => match double_at(e, "offline_discount"@) {
                Some(x) => x,
                None => Double { bits: 0x3FE0_0000_0000_0000 },
            },
            None => Double { bits: 0x3FE0_0000_0000_0000 },
        }),
    ensures
        amount(
            raw_bill(Some(rule), u, (ExtractedFeatures { service_tier: Some(flex), ..f }), d, m).cost,
            num,
        ) == product(
            amount(
                raw_bill(Some(rule), u, (ExtractedFeatures { service_tier: None, ..f }), d, m).cost,
                num,
            ),
            num(off),
        ),
{
    let g = ExtractedFeatures { service_tier: None, ..f };
    let h = ExtractedFeatures { service_tier: Some(flex), ..f };
    let plain = raw_bill(Some(rule), u, g, d, m).cost;
    let lower = raw_bill(Some(rule), u, h, d, m).cost;
    reveal_with_fuel(amount, 8);
    let k = num(off);
    let p = num(rule.prompt_rate);
    let c = num(rule.completion_rate);
    let r = num(rule.cached_rate);
    let sum = *(*plain->Product_0)->Quotient_0;
    let low = *(*lower->Product_0)->Quotient_0;
    let inner = if rule.cached_rate.is_positive() {
        *sum->Sum_0
    } else {
        sum
    };
    let n = amount(*(*inner->Sum_0)->Product_0, num);
    let o = amount(*(*inner->Sum_1)->Product_0, num);
    lemma_exchange(n, p, k);
    lemma_exchange(o, c, k);
    lemma_distribute(product(n, p), product(o, c), k);
    if rule.cached_rate.is_positive() {
        let q = amount(*(*sum->Sum_1)->Product_0, num);
        lemma_exchange(q, r, k);
        lemma_distribute(product(n, p) + product(o, c), product(q, r), k);
    }
    let s = amount(sum, num);
    assert(amount(low, num) == product(s, k));
    lemma_millionth(s, k);
    lemma_exchange(quotient(s, 1000000real), k, num(d));
}

} // verus!
