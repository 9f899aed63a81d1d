//! Billing: what a request costs under its rule.
use vstd::prelude::*;
use vstd::string::*;
use crate::bill::{Bill, BillModel, BillingRule, ExtractedFeatures, Measures};
use crate::bill_duration::{bill_duration, duration_bill};
use crate::bill_requests::{bill_requests, requests_bill};
use crate::bill_tokens::{bill_tokens, tokens_bill};
use crate::cost::{said, saying, showing, showing_fixed, Cost, Detail};
use crate::double::{
    is_nan, is_neutral, neutral, Double, ONE, SCALE_HIGH, SCALE_LOW, TIME_HIGH, TIME_LOW,
};
use crate::forward::{factor_for, lookup_res_mul};
use crate::json::{opt_json, parsed_json, Json, JsonMap, Jv};
use crate::text::{find, place_of, replace, replaced, same, skip, take};
use crate::usage::UsageTokens;

verus! {

/// The bill of a request without a rule: one for a million tokens.
pub open spec fn default_bill(u: UsageTokens, discount: Double) -> BillModel {
    let total = Cost::Count((u.prompt + u.completion) as i64);
    BillModel {
        cost: total.over(Cost::Count(1000000)).times(Cost::Num(discount)),
        detail: said(
            showing_fixed(
                said(showing(saying("无规则默认计费: "@), total), "总Tokens * 1/1M * "@),
                2,
                Cost::Num(discount),
            ),
            "倍率"@,
        ),
    }
}

/// The bill of a request under a rule, given its further settings as JSON.
pub open spec fn rule_bill(
    rule: BillingRule,
    u: UsageTokens,
    f: ExtractedFeatures,
    ext: Option<Jv>,
    discount: Double,
    m: Measures,
) -> BillModel {
    if rule.billing_type@ == "requests"@ {
        requests_bill(rule, f, ext, discount, m.pixels_wan)
    } else if rule.billing_type@ == "duration"@ {
        duration_bill(rule, f, ext, discount)
    } else {
        tokens_bill(rule, u, f, ext, discount, m)
    }
}

/// Bills a request under a rule, given its further settings as JSON.
pub fn bill_by_rule(
    rule: &BillingRule,
    u: &UsageTokens,
    f: &ExtractedFeatures,
    ext: &Option<Json>,
    discount: Double,
    m: &Measures,
) -> (r: Bill)
    ensures
        r@ == rule_bill(*rule, *u, *f, opt_json(*ext), discount, *m),
{
    let kind = rule.billing_type.as_str();
    if same(kind, "requests") {
        bill_requests(rule, f, ext, discount, m.pixels_wan)
    } else if same(kind, "duration") {
        bill_duration(rule, f, ext, discount)
    } else {
        bill_tokens(rule, u, f, ext, discount, m)
    }
}

/// The bill of a request, before the factor of the time of day.
pub open spec fn raw_bill(
    rule: Option<BillingRule>,
    u: UsageTokens,
    f: ExtractedFeatures,
    discount: Double,
    m: Measures,
) -> BillModel {
    match rule {
        Some(r) => rule_bill(r, u, f, parsed_json(r.extended_config@), discount, m),
        None => default_bill(u, discount),
    }
}

pub open spec fn opt_rule(rule: Option<&BillingRule>) -> Option<BillingRule> {
    match rule {
        Some(r) => Some(*r),
        None => None,
    }
}

/// Bills a request, before the factor of the time of day.
pub fn compute_cost_raw(
    rule: Option<&BillingRule>,
    u: &UsageTokens,
    discount: Double,
    f: &ExtractedFeatures,
    m: &Measures,
) -> (r: Bill)
    ensures
        r@ == raw_bill(opt_rule(rule), *u, *f, discount, *m),
{
    match rule {
        Some(rule) => {
            let ext = Json::parse(rule.extended_config.as_str());
            bill_by_rule(rule, u, f, &ext, discount, m)
        },
        None => {
            let total: i64 = u.prompt as i64 + u.completion as i64;
            let shown_discount = Cost::Num(discount);
            Bill {
                cost: Cost::Count(total).quotient(Cost::Count(1000000)).product(
                    Cost::Num(discount),
                ),
                detail: Detail::start("无规则默认计费: ").count(total).text(
                    "总Tokens * 1/1M * ",
                ).fixed(2, &shown_discount).text("倍率"),
            }
        },
    }
}

// ---------------------------------------------------------------- the time of day

/// The factor of the time of day: the one that was fixed for the task, or
/// else the one that was fixed when the request began.
pub open spec fn time_factor(rule: BillingRule, f: ExtractedFeatures) -> Double {
    match f.time_multiplier {
        Some(t) => t,
        None => rule.applied_multiplier,
    }
}

/// A bill with the factor of the time of day.
pub open spec fn with_time_factor(b: BillModel, factor: Double) -> BillModel {
    BillModel {
        cost: b.cost.times(Cost::Num(factor)),
        detail: said(
            showing_fixed(said(b.detail, " * "@), 2, Cost::Num(factor)),
            "倍(时段倍率)"@,
        ),
    }
}

/// The bill of a request, with the factor of the time of day where it is not
/// one.
pub open spec fn full_bill(
    rule: Option<BillingRule>,
    u: UsageTokens,
    f: ExtractedFeatures,
    discount: Double,
    m: Measures,
) -> BillModel {
    let raw = raw_bill(rule, u, f, discount, m);
    match rule {
        Some(r) => if is_neutral(time_factor(r, f), TIME_LOW, TIME_HIGH) || is_nan(
            time_factor(r, f).bits,
        ) {
            raw
        } else {
            with_time_factor(raw, time_factor(r, f))
        },
        None => raw,
    }
}

fn apply_time_factor(b: Bill, factor: Double) -> (r: Bill)
    ensures
        r@ == with_time_factor(b@, factor),
{
    let shown_factor = Cost::Num(factor);
    Bill {
        cost: b.cost.product(Cost::Num(factor)),
        detail: b.detail.text(" * ").fixed(2, &shown_factor).text("倍(时段倍率)"),
    }
}

/// Bills a request. The amount is still to be computed and rounded.
pub fn compute_cost(
    rule: Option<&BillingRule>,
    u: &UsageTokens,
    discount: Double,
    f: &ExtractedFeatures,
    m: &Measures,
) -> (r: Bill)
    ensures
        r@ == full_bill(opt_rule(rule), *u, *f, discount, *m),
{
    let raw = compute_cost_raw(rule, u, discount, f, m);
    match rule {
        Some(rule) => {
            let factor = match f.time_multiplier {
                Some(t) => t,
                None => rule.applied_multiplier,
            };
            let one = Double { bits: ONE };
            let number = factor.lt(one) || one.le(factor);
            if neutral(factor, TIME_LOW, TIME_HIGH) || !number {
                raw
            } else {
                apply_time_factor(raw, factor)
            }
        },
        None => raw,
    }
}

/// A rule as it is after a bill was settled under it.
pub open spec fn settled_rule(rule: BillingRule, snapshot: Option<Double>) -> BillingRule {
    let factor = match snapshot {
        Some(t) => t,
        None => rule.applied_multiplier,
    };
    BillingRule {
        applied_multiplier: factor,
        is_multiplier_applied: rule.is_multiplier_applied || !is_neutral(
            factor,
            TIME_LOW,
            TIME_HIGH,
        ),
        ..rule
    }
}

/// A bill with the factor of the time of day, unless that is one or was
/// applied before.
pub open spec fn settled_bill(b: BillModel, rule: BillingRule, snapshot: Option<Double>) -> BillModel {
    let factor = settled_rule(rule, snapshot).applied_multiplier;
    if is_neutral(factor, TIME_LOW, TIME_HIGH) || rule.is_multiplier_applied {
        b
    } else {
        with_time_factor(b, factor)
    }
}

/// Applies the factor of the time of day that was fixed, once.
pub fn apply_locked_time_multiplier(b: Bill, rule: &mut BillingRule, f: &ExtractedFeatures) -> (r:
    Bill)
    ensures
        r@ == settled_bill(b@, *old(rule), f.time_multiplier),
        *final(rule) == settled_rule(*old(rule), f.time_multiplier),
{
    let factor = match f.time_multiplier {
        Some(t) => t,
        None => rule.applied_multiplier,
    };
    rule.applied_multiplier = factor;
    if neutral(factor, TIME_LOW, TIME_HIGH) {
        return b;
    }
    if rule.is_multiplier_applied {
        return b;
    }
    rule.is_multiplier_applied = true;
    apply_time_factor(b, factor)
}

/// The factor of the time of day is applied at most once: settling a bill
/// again leaves it, and the rule, as they are.
pub proof fn law_time_factor_once(b: BillModel, rule: BillingRule, snapshot: Option<Double>)
    ensures
        settled_bill(
            settled_bill(b, rule, snapshot),
            settled_rule(rule, snapshot),
            snapshot,
        ) == settled_bill(b, rule, snapshot),
        settled_rule(settled_rule(rule, snapshot), snapshot) == settled_rule(rule, snapshot),
{
}

// ---------------------------------------------------------------- resolutions

/// A cost, with its detail as text, times the factor of a resolution. The
/// detail shows the factor before its first bar with spaces round it, or at
/// its end. A factor of one changes nothing.
pub open spec fn scaled_bill(
    cost: Cost,
    detail: Seq<char>,
    factor: Double,
    resolution: Seq<char>,
) -> BillModel {
    if is_neutral(factor, SCALE_LOW, SCALE_HIGH) {
        BillModel { cost, detail: saying(detail) }
    } else {
        let (before, after) = match place_of(detail, " | "@) {
            Some(i) => (detail.take(i), detail.skip(i)),
            None => (detail, Seq::empty()),
        };
        let shown = showing_fixed(said(saying(before), " * "@), 2, Cost::Num(factor));
        BillModel {
            cost: cost.times(Cost::Num(factor)),
            detail: said(
                said(said(said(shown, "倍(级联res_mul:"@), resolution), ")"@),
                after,
            ),
        }
    }
}

/// Multiplies a cost by the factor of a resolution.
pub fn scale_cost_by_res_mul(cost: Cost, detail: &str, map: &JsonMap, resolution: &str) -> (r: Bill)
    ensures
        r@ == scaled_bill(cost, detail@, factor_for(map@, resolution@), resolution@),
{
    let factor = lookup_res_mul(map, resolution);
    if neutral(factor, SCALE_LOW, SCALE_HIGH) {
        return Bill { cost, detail: Detail::start(detail) };
    }
    let (before, after) = match find(detail, " | ") {
        Some(i) => (take(detail, i), skip(detail, i)),
        None => {
            proof {
                reveal_strlit("");
                assert(""@ =~= Seq::<char>::empty());
            }
            (detail, "")
        },
    };
    let shown_factor = Cost::Num(factor);
    let shown = Detail::start(before).text(" * ").fixed(2, &shown_factor);
    Bill {
        cost: cost.product(Cost::Num(factor)),
        detail: shown.text("倍(级联res_mul:").text(resolution).text(")").text(after),
    }
}

// ---------------------------------------------------------------- settling

/// How the model of a request was mapped to another.
pub struct Mapping {
    /// What mapped it.
    pub source: String,
    pub model: String,
    pub resolved_model: String,
}

/// What settling a request knows beside its bill.
pub struct Settlement {
    /// The discount with two decimals.
    pub discount: String,
    /// Where the discount comes from.
    pub discount_source: String,
    /// The factor of the channel, where channels have one.
    pub channel_rate: Option<Double>,
    pub mapping: Option<Mapping>,
}

/// A detail with the source of the discount behind each place that shows it.
pub open spec fn sourced(detail: Seq<char>, s: Settlement) -> Seq<char> {
    let word = s.discount@ + "倍率"@;
    replaced(detail, word, word + "("@ + s.discount_source@ + ")"@)
}

/// The bill of a request, given its raw cost and detail: the detail names the
/// source of the discount, then follow the factor of the time of day, that of
/// the channel, and how the model was mapped.
pub open spec fn relay_bill(
    cost: Cost,
    detail: Seq<char>,
    rule: Option<BillingRule>,
    snapshot: Option<Double>,
    s: Settlement,
) -> BillModel {
    let a = BillModel { cost, detail: saying(sourced(detail, s)) };
    let b = match rule {
        Some(r) => settled_bill(a, r, snapshot),
        None => a,
    };
    let c = match s.channel_rate {
        Some(x) => if x.equals(Double { bits: ONE }) {
            b.detail
        } else {
            said(showing_fixed(said(b.detail, " * "@), 2, Cost::Num(x)), "倍(渠道倍率)"@)
        },
        None => b.detail,
    };
    let d = match s.mapping {
        Some(m) => said(
            said(
                said(said(said(said(c, " | "@), m.source@), ": "@), m.model@),
                " ➞ "@,
            ),
            m.resolved_model@,
        ),
        None => c,
    };
    BillModel { cost: b.cost, detail: d }
}

/// Settles the bill of a request, given its raw cost and the text of its raw
/// detail. The amount is still to be computed and rounded.
pub fn calculate_relay_cost(
    cost: Cost,
    detail: &str,
    rule: &mut Option<BillingRule>,
    f: &ExtractedFeatures,
    s: &Settlement,
) -> (r: Bill)
    ensures
        r@ == relay_bill(cost, detail@, *old(rule), f.time_multiplier, *s),
        *final(rule) == match *old(rule) {
            Some(r) => Some(settled_rule(r, f.time_multiplier)),
            None => None,
        },
{
    let mut word = s.discount.clone();
    word.append("倍率");
    let mut named = word.clone();
    named.append("(");
    named.append(s.discount_source.as_str());
    named.append(")");
    proof {
        reveal_strlit("倍率");
    }
    let text = replace(detail, word.as_str(), named.as_str());
    let a = Bill { cost, detail: Detail::start(text.as_str()) };
    let mut b = match rule {
        Some(r) => apply_locked_time_multiplier(a, r, f),
        None => a,
    };
    match s.channel_rate {
        Some(x) => if !x.same_number(Double { bits: ONE }) {
            let rate = Cost::Num(x);
            b.detail = b.detail.text(" * ").fixed(2, &rate).text("倍(渠道倍率)");
        },
        None => {},
    }
    match &s.mapping {
        Some(m) => {
            b.detail =
            b.detail.text(" | ").text(m.source.as_str()).text(": ").text(m.model.as_str()).text(
                " ➞ ",
            ).text(m.resolved_model.as_str());
        },
        None => {},
    }
    b
}

} // verus!
