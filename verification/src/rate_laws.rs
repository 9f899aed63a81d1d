//! What holds of the prices of a second by the quality of a video and by the
//! factors of Kling, and of the details that bills show.
use vstd::prelude::*;
use vstd::string::*;
use crate::bill::{BillModel, BillingRule, ExtractedFeatures, Measures, VideoQualityTier};
use crate::bill_duration::{
    group_factor, quality_class, quality_tier_for, range_fits, second_rate, top_quality_tier,
};
use crate::billing::{full_bill, raw_bill, sourced, Settlement};
use crate::cost::{amount, product, Cost, PieceModel};
use crate::double::{is_nan, is_neutral, Double, ONE, TIME_HIGH, TIME_LOW};
use crate::json::{parsed_json, Jv};
use crate::price_table::table_price;
use crate::text::{ascii_small, holds, law_decimal_round_trip, occurs_at, shown, small_letters};
use crate::text_laws::{
    law_not_parted, law_pieces, law_replaced, law_replaced_last, law_shown_plain,
    law_shown_trimmed,
};
use crate::usage::UsageTokens;

verus! {

// ---------------------------------------------------------------- quality

/// A text that does not hold a character holds no text that does.
proof fn lemma_not_held(s: Seq<char>, p: Seq<char>, i: int)
    requires
        0 <= i < p.len(),
        !s.contains(p[i]),
    ensures
        !holds(s, p),
{
    assert forall|k: int| !occurs_at(s, p, k) by {
        if occurs_at(s, p, k) {
            assert(s.subrange(k, k + p.len())[i] == s[k + i]);
        }
    }
}

/// The quality of a video by the size that it names: its shorter side decides.
pub proof fn law_quality_of_sizes(w: int, h: int)
    requires
        0 <= w <= i32::MAX,
        0 <= h <= i32::MAX,
    ensures
        ({
            let side = if w < h {
                w
            } else {
                h
            };
            &&& side <= 720 ==> quality_class(shown(w) + seq!['x'] + shown(h)) == (
                "720p"@,
                Some(side),
            )
            &&& 720 < side <= 1080 ==> quality_class(shown(w) + seq!['x'] + shown(h)) == (
                "1080p"@,
                Some(side),
            )
            &&& 1080 < side <= 1440 ==> quality_class(shown(w) + seq!['x'] + shown(h)) == (
                "2k"@,
                Some(side),
            )
            &&& side > 1440 ==> quality_class(shown(w) + seq!['x'] + shown(h)) == (
                "4k"@,
                Some(side),
            )
        }),
{
    let a = shown(w);
    let b = shown(h);
    let s = a + seq!['x'] + b;
    reveal_strlit("x");
    assert("x"@ =~= seq!['x']);
    reveal_strlit("1080");
    reveal_strlit("1080p");
    reveal_strlit("2k");
    reveal_strlit("4k");
    reveal_strlit("720");
    reveal_strlit("720p");
    assert("1080"@.len() == 4);
    assert("1080p"@.len() == 5);
    assert("2k"@.len() == 2);
    assert("4k"@.len() == 2);
    assert("720"@.len() == 3);
    assert("720p"@.len() == 4);
    assert("1080"@[0] == '1');
    assert("720p"@[0] == '7');
    assert("2k"@[0] == '2');
    assert("4k"@[0] == '4');
    law_shown_plain(w, 'p');
    law_shown_plain(h, 'p');
    law_shown_plain(w, 'k');
    law_shown_plain(h, 'k');
    law_shown_plain(w, 'x');
    law_shown_plain(h, 'x');
    assert(!s.contains('p')) by {
        lemma_joined_plain(a, b, 'p');
    }
    assert(!s.contains('k')) by {
        lemma_joined_plain(a, b, 'k');
    }
    assert("720p"@[3] == 'p' && "1080p"@[4] == 'p' && "2k"@[1] == 'k' && "4k"@[1] == 'k');
    lemma_not_held(s, "720p"@, 3);
    lemma_not_held(s, "1080p"@, 4);
    lemma_not_held(s, "2k"@, 1);
    lemma_not_held(s, "4k"@, 1);
    assert(s[a.len() as int] == 'x');
    assert("720"@[0] == '7' && "720"@[1] == '2' && "720"@[2] == '0');
    assert("1080"@[0] == '1' && "1080"@[1] == '0' && "1080"@[2] == '8' && "1080"@[3] == '0');
    assert(s != "720"@);
    assert(s != "1080"@);
    law_pieces(a, 'x', b);
    law_not_parted(b, 'x');
    assert(seq![a] + seq![b] =~= seq![a, b]);
    law_shown_trimmed(w);
    law_shown_trimmed(h);
    law_decimal_round_trip(w, i32::MIN as int, i32::MAX as int);
    law_decimal_round_trip(h, i32::MIN as int, i32::MAX as int);
}

proof fn lemma_joined_plain(a: Seq<char>, b: Seq<char>, c: char)
    requires
        !a.contains(c) && !b.contains(c) && c != 'x',
    ensures
        !(a + seq!['x'] + b).contains(c),
{
    let s = a + seq!['x'] + b;
    if s.contains(c) {
        let i = choose|i: int| 0 <= i < s.len() && s[i] == c;
        if i < a.len() {
            assert(a[i] == c);
        } else if i > a.len() {
            assert(b[i - a.len() - 1] == c);
        }
    }
}

/// The quality of a video by the word for it, the lower one first.
pub proof fn law_quality_words(s: Seq<char>)
    ensures
        holds(s, "720p"@) || s == "720"@ ==> quality_class(s) == ("720p"@, Some(720int)),
        !holds(s, "720p"@) && s != "720"@ && (holds(s, "1080p"@) || s == "1080"@)
            ==> quality_class(s) == ("1080p"@, Some(1080int)),
        !holds(s, "720p"@) && s != "720"@ && !holds(s, "1080p"@) && s != "1080"@ && holds(s, "2k"@)
            ==> quality_class(s) == ("2k"@, Some(1440int)),
        !holds(s, "720p"@) && s != "720"@ && !holds(s, "1080p"@) && s != "1080"@ && !holds(
            s,
            "2k"@,
        ) && holds(s, "4k"@) ==> quality_class(s) == ("4k"@, Some(2160int)),
{
}

/// Whether a tier is in use for a quality and a frame rate.
pub open spec fn suits(t: VideoQualityTier, class: Seq<char>, high: bool) -> bool {
    t.enabled && ascii_small(t.resolution@) == ascii_small(class) && range_fits(
        t.fps_range@,
        high,
    )
}

/// Which frame rates a tier is for.
pub proof fn law_frame_rates(range: Seq<char>)
    ensures
        holds(range, ">30"@) || holds(range, "> 30"@) ==> range_fits(range, true),
        !holds(range, ">30"@) && !holds(range, "> 30"@) ==> !range_fits(range, true),
        holds(range, "<30"@) || holds(range, "<=30"@) || holds(range, "<= 30"@) ==> range_fits(
            range,
            false,
        ),
        !holds(range, "<30"@) && !holds(range, "<=30"@) && !holds(range, "<= 30"@) ==> !range_fits(
            range,
            false,
        ),
{
}

proof fn lemma_quality_tier(
    tiers: Seq<VideoQualityTier>,
    class: Seq<char>,
    high: bool,
    i: int,
    n: int,
)
    requires
        0 <= i < tiers.len(),
        suits(tiers[i], class, high),
        forall|j: int| 0 <= j < i ==> !suits(#[trigger] tiers[j], class, high),
        0 <= n <= i,
    ensures
        quality_tier_for(tiers, class, high, n) == Some(i),
    decreases i - n,
{
    if n < i {
        assert(!suits(tiers[n], class, high));
        lemma_quality_tier(tiers, class, high, i, n + 1);
    }
}

proof fn lemma_no_quality_tier(
    tiers: Seq<VideoQualityTier>,
    class: Seq<char>,
    high: bool,
    n: int,
)
    requires
        forall|j: int| 0 <= j < tiers.len() ==> !suits(#[trigger] tiers[j], class, high),
        0 <= n <= tiers.len(),
    ensures
        quality_tier_for(tiers, class, high, n) is None,
    decreases tiers.len() - n,
{
    if n < tiers.len() {
        assert(!suits(tiers[n], class, high));
        lemma_no_quality_tier(tiers, class, high, n + 1);
    }
}

/// Whether a tier is the first of the dearest that are in use.
pub open spec fn is_dearest(tiers: Seq<VideoQualityTier>, i: int) -> bool {
    &&& 0 <= i < tiers.len()
    &&& tiers[i].enabled
    &&& forall|j: int|
        0 <= j < tiers.len() && (#[trigger] tiers[j]).enabled ==> tiers[j].rate.at_most(
            tiers[i].rate,
        )
    &&& forall|j: int|
        0 <= j < i && (#[trigger] tiers[j]).enabled ==> tiers[j].rate.below(tiers[i].rate)
}

proof fn lemma_top_quality(tiers: Seq<VideoQualityTier>, i: int, n: int)
    requires
        is_dearest(tiers, i),
        0 <= n <= tiers.len(),
    ensures
        n > i ==> top_quality_tier(tiers, n) == Some(i),
        n <= i ==> (top_quality_tier(tiers, n) matches Some(b) ==> 0 <= b < n && tiers[b].enabled),
    decreases n,
{
    if n > 0 {
        lemma_top_quality(tiers, i, n - 1);
        if n - 1 > i && tiers[n - 1].enabled {
            assert(tiers[n - 1].rate.at_most(tiers[i].rate));
        }
        if n - 1 == i && top_quality_tier(tiers, n - 1) is Some {
            let b = top_quality_tier(tiers, n - 1)->Some_0;
            assert(tiers[b].rate.below(tiers[i].rate));
        }
    }
}

/// By quality a second costs the price of the first tier in use for the
/// quality and the frame rate of the video, or of the dearest tier where there
/// is none. Without a frame rate it is that of thirty frames.
pub proof fn law_second_by_quality(
    rule: BillingRule,
    u: UsageTokens,
    f: ExtractedFeatures,
    m: Measures,
    d: Double,
    num: spec_fn(Double) -> real,
    seconds: Double,
    tiers: Vec<VideoQualityTier>,
    res: String,
    class: Seq<char>,
    high: bool,
    i: int,
)
    requires
        rule.billing_type@ == "duration"@,
        rule.billing_rule@ == "video_quality"@,
        f.duration_seconds == Some(seconds),
        f.resolution == Some(res),
        rule.tiers.quality == Some(tiers),
        !small_letters(res@).contains('*'),
        class == quality_class(small_letters(res@)).0,
        f.fps matches Some(x) ==> high == (Double { bits: 0x403E_0000_0000_0000 }).below(x),
        f.fps is None ==> !high,
        (0 <= i < tiers@.len() && suits(tiers@[i], class, high) && forall|j: int|
            0 <= j < i ==> !suits(#[trigger] tiers@[j], class, high)) || ((forall|j: int|
            0 <= j < tiers@.len() ==> !suits(#[trigger] tiers@[j], class, high)) && is_dearest(
            tiers@,
            i,
        )),
    ensures
        amount(raw_bill(Some(rule), u, f, d, m).cost, num) == product(
            product(num(seconds), num(tiers@[i].rate)),
            num(d),
        ),
{
    reveal_strlit("*");
    assert("*"@ =~= seq!['*']);
    law_replaced(small_letters(res@), '*', Seq::empty(), "x"@);
    reveal_strlit("duration");
    reveal_strlit("kling_video");
    reveal_strlit("minimax_h3");
    reveal_strlit("requests");
    reveal_strlit("video_quality");
    reveal_strlit("video_resolution");
    reveal_strlit("vidu_video");
    reveal_strlit("volc_enhance_cascade");
    assert("duration"@.len() == 8);
    assert("kling_video"@.len() == 11);
    assert("minimax_h3"@.len() == 10);
    assert("requests"@.len() == 8);
    assert("video_quality"@.len() == 13);
    assert("video_resolution"@.len() == 16);
    assert("vidu_video"@.len() == 10);
    assert("volc_enhance_cascade"@.len() == 20);
    assert("duration"@[0] == 'd');
    assert("requests"@[0] == 'r');
    assert("minimax_h3"@[0] == 'm');
    assert("vidu_video"@[0] == 'v');
    reveal_with_fuel(amount, 5);
    if 0 <= i < tiers@.len() && suits(tiers@[i], class, high) && forall|j: int|
        0 <= j < i ==> !suits(#[trigger] tiers@[j], class, high) {
        lemma_quality_tier(tiers@, class, high, i, 0);
    } else {
        lemma_no_quality_tier(tiers@, class, high, 0);
        lemma_top_quality(tiers@, i, tiers@.len() as int);
    }
}

/// A Kling video that the table does not price costs its base price times the
/// factors of its mode and of its sound.
pub proof fn law_kling_factors(
    rule: BillingRule,
    u: UsageTokens,
    f: ExtractedFeatures,
    m: Measures,
    d: Double,
    num: spec_fn(Double) -> real,
    seconds: Double,
    e: Jv,
    mode: String,
    sound: String,
    by_mode: Double,
    by_sound: Double,
)
    requires
        rule.billing_type@ == "duration"@,
        rule.billing_rule@ == "kling_video"@,
        f.duration_seconds == Some(seconds),
        parsed_json(rule.extended_config@) == Some(e),
        e.member("enable_mode"@) is None,
        e.member("enable_sound"@) is None,
        e.member("enable_video_ref"@) is None,
        f.mode == Some(mode),
        f.sound == Some(sound),
        table_price(e, mode@ + "|"@ + sound@ + "|"@ + "no"@) is None,
        crate::double::double_at(e.at("mode_multipliers"@), mode@) == Some(by_mode),
        crate::double::double_at(e.at("sound_multipliers"@), sound@) == Some(by_sound),
    ensures
        amount(raw_bill(Some(rule), u, f, d, m).cost, num) == product(
            product(
                num(seconds),
                product(num(rule.duration_rate), product(num(by_mode), num(by_sound))),
            ),
            num(d),
        ),
{
    reveal_strlit("duration");
    reveal_strlit("kling_video");
    reveal_strlit("minimax_h3");
    reveal_strlit("requests");
    reveal_strlit("video_quality");
    reveal_strlit("video_resolution");
    reveal_strlit("vidu_video");
    reveal_strlit("volc_enhance_cascade");
    assert("duration"@.len() == 8);
    assert("kling_video"@.len() == 11);
    assert("minimax_h3"@.len() == 10);
    assert("requests"@.len() == 8);
    assert("video_quality"@.len() == 13);
    assert("video_resolution"@.len() == 16);
    assert("vidu_video"@.len() == 10);
    assert("volc_enhance_cascade"@.len() == 20);
    assert("duration"@[0] == 'd');
    assert("requests"@[0] == 'r');
    assert("minimax_h3"@[0] == 'm');
    assert("vidu_video"@[0] == 'v');
    reveal_with_fuel(amount, 6);
}

/// A factor that is not named is one.
pub proof fn law_factor_not_named(e: Jv, group: Seq<char>, key: Seq<char>)
    ensures
        e.member(group) is None ==> group_factor(e, group, key) == (Double { bits: ONE }),
        e.member(group) matches Some(g) ==> (g.member(key) is None ==> group_factor(e, group, key)
            == (Double { bits: ONE })),
{
}

// ---------------------------------------------------------------- details

/// Whether a detail ends by showing a factor with two decimals and a word.
pub open spec fn ends_with(b: BillModel, x: Double, word: Seq<char>) -> bool {
    b.detail.len() >= 3 && b.detail[b.detail.len() - 2] == PieceModel::Fixed(2, Cost::Num(x))
        && b.detail.last() == PieceModel::Text(word)
}

/// The detail of every bill ends with the discount.
pub proof fn law_detail_shows_discount(
    rule: Option<BillingRule>,
    u: UsageTokens,
    f: ExtractedFeatures,
    m: Measures,
    d: Double,
)
    ensures
        ends_with(raw_bill(rule, u, f, d, m), d, "倍率"@) || ends_with(
            raw_bill(rule, u, f, d, m),
            d,
            "倍率)"@,
        ),
{
}

/// A bill by duration shows its seconds and the price of one.
pub proof fn law_detail_of_seconds(
    rule: BillingRule,
    u: UsageTokens,
    f: ExtractedFeatures,
    m: Measures,
    d: Double,
    seconds: Double,
    b: BillModel,
)
    requires
        rule.billing_type@ == "duration"@,
        rule.billing_rule@ != "minimax_h3"@,
        f.duration_seconds == Some(seconds),
        b == raw_bill(Some(rule), u, f, d, m),
    ensures
        b.detail.len() >= 6,
        b.detail[b.detail.len() - 6] == PieceModel::Fixed(2, Cost::Num(seconds)),
        b.detail[b.detail.len() - 4] == PieceModel::Shown(
            second_rate(rule, f, parsed_json(rule.extended_config@)).rate,
        ),
        ends_with(b, d, "倍率)"@),
{
    reveal_strlit("duration");
    reveal_strlit("requests");
    assert("duration"@.len() == 8);
    assert("requests"@.len() == 8);
    assert("duration"@[0] == 'd');
    assert("requests"@[0] == 'r');
}

/// A factor by the time of day is shown behind what the bill shows without it.
pub proof fn law_detail_of_time(
    rule: BillingRule,
    u: UsageTokens,
    f: ExtractedFeatures,
    m: Measures,
    d: Double,
    x: Double,
    b: BillModel,
)
    requires
        b == full_bill(Some(rule), u, f, d, m),
        f.time_multiplier == Some(x),
    ensures
        !is_neutral(x, TIME_LOW, TIME_HIGH) && !is_nan(x.bits) ==> ends_with(b, x, "倍(时段倍率)"@)
            && b.detail.take(b.detail.len() - 3) == raw_bill(Some(rule), u, f, d, m).detail,
        is_neutral(x, TIME_LOW, TIME_HIGH) ==> b == raw_bill(Some(rule), u, f, d, m),
{
    let raw = raw_bill(Some(rule), u, f, d, m);
    if !is_neutral(x, TIME_LOW, TIME_HIGH) && !is_nan(x.bits) {
        law_detail_shows_discount(Some(rule), u, f, m, d);
        assert(b.detail.take(b.detail.len() - 3) =~= raw.detail);
    }
}

/// The source of a discount is told behind it.
pub proof fn law_detail_of_source(detail: Seq<char>, s: Settlement, head: Seq<char>)
    requires
        detail == head + (s.discount@ + "倍率"@),
        s.discount@.len() > 0,
        forall|j: int|
            0 <= j < head.len() ==> !#[trigger] occurs_at(detail, s.discount@ + "倍率"@, j),
    ensures
        sourced(detail, s) == head + (s.discount@ + "倍率"@ + "("@ + s.discount_source@ + ")"@),
{
    let word = s.discount@ + "倍率"@;
    assert(detail.skip(head.len() as int) =~= word);
    assert(detail.take(head.len() as int) =~= head);
    law_replaced_last(
        detail,
        head.len() as int,
        word,
        word + "("@ + s.discount_source@ + ")"@,
    );
}

} // verus!
