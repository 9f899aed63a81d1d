//! Billing: each formula on concrete values.
use relay::bill::{
    Bill, BillingRule, ExtractedFeatures, Measures, PricingTier, PricingTiers, ResolutionTier,
    SeedreamTier, SizeTier, VideoQualityTier,
};
use relay::bill_duration::classify_quality;
use relay::bill_requests::{seedream_sides, vidu_image_attr};
use relay::billing::{
    apply_locked_time_multiplier, calculate_relay_cost, compute_cost, compute_cost_raw, Mapping,
    scale_cost_by_res_mul, Settlement,
};
use relay::cost::{Cost, Detail, Piece};
use relay::double::Double;
use relay::forward::parse_res_mul;
use relay::json::Json;
use relay::price_table::{
    default_tier_enabled, find_top_price, free_image_count_from_ext, lookup_price_table,
    normalize_pixel_size, split_prompt_subsets, translate_billing_key,
};
use relay::usage::UsageTokens;

fn d(x: f64) -> Double {
    Double { bits: x.to_bits() }
}

fn value(c: &Cost) -> f64 {
    match c {
        Cost::Num(x) => f64::from_bits(x.bits),
        Cost::Count(i) => *i as f64,
        Cost::Sum(a, b) => value(a) + value(b),
        Cost::Product(a, b) => value(a) * value(b),
        Cost::Quotient(a, b) => value(a) / value(b),
    }
}

fn text(x: &Detail) -> String {
    let mut out = String::new();
    for p in &x.pieces {
        match p {
            Piece::Text(s) => out.push_str(s),
            Piece::Shown(c) => out.push_str(&format!("{}", value(c))),
            Piece::Fixed(n, c) => out.push_str(&format!("{:.*}", *n as usize, value(c))),
        }
    }
    out
}

fn shows(b: &Bill, cost: f64, detail: &str) {
    assert_eq!(text(&b.detail), detail);
    assert!((value(&b.cost) - cost).abs() < 1e-12, "{} != {}", value(&b.cost), cost);
}

fn rule(billing_type: &str, billing_rule: &str, ext: &str) -> BillingRule {
    BillingRule {
        billing_type: billing_type.to_string(),
        billing_rule: billing_rule.to_string(),
        fixed_rate: d(0.5),
        duration_rate: d(0.2),
        prompt_rate: d(2.0),
        completion_rate: d(8.0),
        cached_rate: d(0.0),
        claude_cache_read_rate: d(0.0),
        claude_cache_creation_rate: d(0.0),
        applied_multiplier: d(1.0),
        is_multiplier_applied: false,
        tiers: PricingTiers {
            resolution: None,
            quality: None,
            size: None,
            seedream: None,
            tokens: Vec::new(),
        },
        extended_config: ext.to_string(),
    }
}

fn usage(prompt: i32, completion: i32) -> UsageTokens {
    UsageTokens {
        prompt,
        completion,
        total: prompt + completion,
        cached: 0,
        cache_write: 0,
        cache_creation: 0,
        image_tokens: 0,
        audio_tokens: 0,
        audio_cached_tokens: 0,
        has_total_tokens: true,
    }
}

fn measures(u: &UsageTokens) -> Measures {
    Measures {
        prompt_k: d(u.prompt as f64 / 1000.0),
        completion_k: d(u.completion as f64 / 1000.0),
        pixels_wan: d(104.8576),
    }
}

fn bill(r: &BillingRule, u: &UsageTokens, f: &ExtractedFeatures) -> Bill {
    compute_cost_raw(Some(r), u, d(1.0), f, &measures(u))
}

fn some(s: &str) -> Option<String> {
    Some(s.to_string())
}

#[test]
fn without_a_rule_a_million_tokens_cost_one() {
    let u = usage(1_000_000, 500_000);
    let b = compute_cost_raw(None, &u, d(0.8), &ExtractedFeatures::default(), &measures(&u));
    shows(&b, 1.2, "无规则默认计费: 1500000总Tokens * 1/1M * 0.80倍率");
}

#[test]
fn fixed_requests_cost_the_fixed_rate() {
    let b = bill(&rule("requests", "", ""), &usage(0, 0), &ExtractedFeatures::default());
    shows(&b, 0.5, "固定按次计费 -> (1量 * 0.500000单价 * 1.00倍率)");
}

#[test]
fn images_are_billed_by_the_piece() {
    let mut f = ExtractedFeatures::default();
    let r = rule("requests", "per_image", r#"{"prompt_extend_multiplier":2,"image_ref_multiplier":1.5}"#);
    shows(&bill(&r, &usage(0, 0), &f), 0.0, "按张返回计费 -> (0量 * 0.500000单价 * 1.00倍率)");
    f.image_count = Some(3);
    f.prompt_extend = true;
    f.has_image_ref = true;
    shows(
        &bill(&r, &usage(0, 0), &f),
        4.5,
        "按张返回计费 [提示词扩写 x2] [图生图 x1.5] -> (3量 * 1.500000单价 * 1.00倍率)",
    );
}

#[test]
fn images_are_billed_by_their_resolution() {
    let mut r = rule("requests", "image_resolution", "{}");
    let tier = |res: &str, rate: f64, enabled: bool, m: Option<f64>| ResolutionTier {
        resolution: res.to_string(),
        rate: d(rate),
        enabled,
        image_ref_multiplier: m.map(d),
    };
    r.tiers.resolution = Some(vec![
        tier("1K", 0.1, true, None),
        tier("2k", 0.2, true, Some(2.0)),
        tier("4k", 9.0, false, None),
    ]);
    let mut f = ExtractedFeatures::default();
    shows(&bill(&r, &usage(0, 0), &f), 0.1, "命中分辨率阶梯 1k 单价: 0.100000 -> (1量 * 0.100000单价 * 1.00倍率)");
    f.resolution = some("2K");
    f.has_image_ref = true;
    f.image_count = Some(2);
    shows(
        &bill(&r, &usage(0, 0), &f),
        0.8,
        "命中分辨率阶梯 2K 单价: 0.200000 [图生图 x2] -> (2量 * 0.400000单价 * 1.00倍率)",
    );
    f.resolution = some("4k");
    shows(
        &bill(&r, &usage(0, 0), &f),
        0.4,
        "分辨率4k未命中,兜底最高阶梯(2k 单价:0.200000) -> (2量 * 0.200000单价 * 1.00倍率)",
    );
    r.tiers.resolution = None;
    f.image_count = Some(0);
    shows(
        &bill(&r, &usage(0, 0), &f),
        0.5,
        "分辨率匹配计费(默认单价: 0.5) -> (1量 * 0.500000单价 * 1.00倍率)",
    );
}

#[test]
fn images_are_billed_by_their_pixels() {
    let mut r = rule("requests", "image_size_pixel", "{}");
    let tier = |size: &str, rate: f64, q: bool| SizeTier {
        size: size.to_string(),
        rate: d(rate),
        enabled: true,
        image_ref_multiplier: None,
        quality_pricing: q,
        rate_low: Some(d(0.01)),
        rate_medium: Some(d(0.02)),
        rate_high: None,
    };
    r.tiers.size = Some(vec![tier("1024*1024", 0.3, false), tier("2k", 0.0, true)]);
    let mut f = ExtractedFeatures::default();
    f.size = some("1024X1024");
    shows(&bill(&r, &usage(0, 0), &f), 0.3, "命中分辨率像素 1024x1024 单价: 0.300000 -> (1量 * 0.300000单价 * 1.00倍率)");
    f.size = some("2048x2048");
    f.quality = some("low");
    shows(
        &bill(&r, &usage(0, 0), &f),
        0.01,
        "命中分辨率像素 2048x2048 画质:low 单价: 0.010000 -> (1量 * 0.010000单价 * 1.00倍率)",
    );
    f.size = some("5x5");
    shows(
        &bill(&r, &usage(0, 0), &f),
        0.3,
        "分辨率像素5x5未命中,兜底最高阶梯(1024*1024 单价:0.300000) -> (1量 * 0.300000单价 * 1.00倍率)",
    );
    f.size = some("auto");
    shows(
        &bill(&r, &usage(0, 0), &f),
        0.3,
        "size(auto)无法解析,兜底最高阶梯(1024*1024 单价:0.300000) -> (1量 * 0.300000单价 * 1.00倍率)",
    );
}

#[test]
fn vidu_images_come_from_the_table() {
    let r = rule("requests", "vidu_image", r#"{"price_table":{"text|1K":0.4,"ref_1_3|2k":0.7,"ref_1_3|1k":0.6}}"#);
    let mut f = ExtractedFeatures::default();
    shows(&bill(&r, &usage(0, 0), &f), 0.4, "Vidu图片查表(文生|1k 单价:0.4) -> (1量 * 0.400000单价 * 1.00倍率)");
    f.has_image_ref = true;
    f.image_ref_count = Some(2);
    f.resolution = some("4k");
    assert_eq!(vidu_image_attr(&f), "ref_1_3");
    shows(
        &bill(&r, &usage(0, 0), &f),
        0.7,
        "Vidu图片1-3张参考|4k未命中,兜底最高价(1-3张参考|2k 单价:0.7) -> (1量 * 0.700000单价 * 1.00倍率)",
    );
}

#[test]
fn characters_are_billed_by_ten_thousand() {
    let mut f = ExtractedFeatures::default();
    f.text_characters = Some(5000);
    shows(
        &bill(&rule("requests", "characters", ""), &usage(0, 0), &f),
        0.25,
        "按字符计费(5000字符) -> (0.5量 * 0.500000单价 * 1.00倍率)",
    );
}

#[test]
fn seedream_bills_input_and_output_images() {
    let mut r = rule("requests", "volc_seedream_pro", r#"{"free_image_count":2}"#);
    r.tiers.seedream = Some(vec![
        SeedreamTier { max_pixels_wan: d(400.0), rate: d(0.4), enabled: true },
        SeedreamTier { max_pixels_wan: d(150.0), rate: d(0.2), enabled: true },
        SeedreamTier { max_pixels_wan: d(110.0), rate: d(0.1), enabled: false },
    ]);
    let mut f = ExtractedFeatures::default();
    f.image_ref_count = Some(3);
    f.image_count = Some(2);
    f.size = some("1024 x 1024");
    assert_eq!(seedream_sides(&f), Some(("1024", "1024")));
    shows(
        &bill(&r, &usage(0, 0), &f),
        2.4,
        "火山SeedreamPro计费 -> (输入图超额:1张(共3张,免费2张)*2元/张 + 输出图: 2张*[总像素: 104.86万, 命中阶梯(<= 150万像素 单价: 0.200000)])*1.00倍率",
    );
    let m = Measures { prompt_k: d(0.0), completion_k: d(0.0), pixels_wan: d(900.0) };
    shows(
        &compute_cost_raw(Some(&r), &usage(0, 0), d(0.5), &f, &m),
        1.4,
        "火山SeedreamPro计费 -> (输入图超额:1张(共3张,免费2张)*2元/张 + 输出图: 2张*[总像素: 900.00万, 命中阶梯(<= 400万像素 单价: 0.400000)])*0.50倍率",
    );
}

#[test]
fn seconds_cost_the_duration_rate() {
    let mut f = ExtractedFeatures::default();
    f.duration_seconds = Some(d(5.0));
    shows(&bill(&rule("duration", "", ""), &usage(0, 0), &f), 1.0, "固定按秒时长计费 -> (5.00秒 * 0.2单价 * 1.00倍率)");
}

#[test]
fn videos_are_billed_by_their_resolution() {
    let mut r = rule("duration", "video_resolution", "");
    r.tiers.resolution = Some(vec![
        ResolutionTier { resolution: "720p".to_string(), rate: d(0.3), enabled: true, image_ref_multiplier: None },
        ResolutionTier { resolution: "1080p".to_string(), rate: d(0.6), enabled: true, image_ref_multiplier: None },
    ]);
    let mut f = ExtractedFeatures::default();
    f.duration_seconds = Some(d(10.0));
    shows(&bill(&r, &usage(0, 0), &f), 2.0, "视频分辨率阶梯找寻(默认单价: 0.2) -> (10.00秒 * 0.2单价 * 1.00倍率)");
    f.resolution = some("720P");
    shows(&bill(&r, &usage(0, 0), &f), 3.0, "命中分辨率 720P 单价: 0.3 -> (10.00秒 * 0.3单价 * 1.00倍率)");
    f.resolution = some("8k");
    shows(&bill(&r, &usage(0, 0), &f), 6.0, "分辨率8k未命中，兜底最高阶梯(1080p 单价:0.6) -> (10.00秒 * 0.6单价 * 1.00倍率)");
    r.billing_rule = "minimax_h3".to_string();
    f.resolution = None;
    f.image_ref_count = Some(7);
    shows(
        &bill(&r, &usage(0, 0), &f),
        10.0,
        "视频秒价+输入图 无分辨率，兜底最高阶梯(1080p 单价:0.6) -> (10.00秒*0.6 + 输入图超额:2张(共7张,免费5张)*2元/张)*1.00倍率",
    );
}

#[test]
fn videos_are_billed_by_their_quality() {
    assert_eq!(classify_quality("1280x720"), ("720p", Some(720)));
    assert_eq!(classify_quality("1080"), ("1080p", Some(1080)));
    assert_eq!(classify_quality("uhd4k"), ("4k", Some(2160)));
    assert_eq!(classify_quality("1300"), ("2k", Some(1300)));
    assert_eq!(classify_quality("50"), ("unknown", None));
    let mut r = rule("duration", "video_quality", "");
    let tier = |res: &str, fps: &str, rate: f64| VideoQualityTier {
        resolution: res.to_string(),
        fps_range: fps.to_string(),
        rate: d(rate),
        enabled: true,
    };
    r.tiers.quality = Some(vec![tier("1080P", "<=30fps", 0.3), tier("1080P", ">30fps", 0.7)]);
    let mut f = ExtractedFeatures::default();
    f.duration_seconds = Some(d(1.0));
    f.resolution = some("1920*1080");
    shows(
        &bill(&r, &usage(0, 0), &f),
        0.3,
        "命中视频画质阶梯 [1080p] [帧率: <=30fps] (解析短边: 1080) 单价: 0.3 -> (1.00秒 * 0.3单价 * 1.00倍率)",
    );
    f.fps = Some(d(60.0));
    shows(
        &bill(&r, &usage(0, 0), &f),
        0.7,
        "命中视频画质阶梯 [1080p] [帧率: >30fps] (解析短边: 1080) 单价: 0.7 -> (1.00秒 * 0.7单价 * 1.00倍率)",
    );
    f.resolution = some("auto");
    shows(
        &bill(&r, &usage(0, 0), &f),
        0.7,
        "视频画质阶梯未命中 [unknown] (帧率: 60)，兜底最高阶梯(1080P >30fps 单价:0.7) -> (1.00秒 * 0.7单价 * 1.00倍率)",
    );
}

#[test]
fn kling_videos_come_from_the_table_or_from_factors() {
    let mut f = ExtractedFeatures::default();
    f.duration_seconds = Some(d(1.0));
    f.resolution = some("1080P");
    f.sound = some("on");
    let r = rule("duration", "kling_video", r#"{"price_table":{"PRO|ON|no":0.9}}"#);
    shows(&bill(&r, &usage(0, 0), &f), 0.9, "可灵视频查表(专业|有声|无视频 单价:0.9) -> (1.00秒 * 0.9单价 * 1.00倍率)");
    let r = rule(
        "duration",
        "kling_video",
        r#"{"mode_multipliers":{"pro":2},"sound_multipliers":{"on":1.5},"enable_sound":false}"#,
    );
    shows(&bill(&r, &usage(0, 0), &f), 0.4, "可灵视频倍率(mode:prox2 sound:offx1 单价:0.4) -> (1.00秒 * 0.4单价 * 1.00倍率)");
    let r = rule("duration", "kling_video", "no json");
    shows(&bill(&r, &usage(0, 0), &f), 0.2, "可灵视频按秒计费(基准: 0.2) -> (1.00秒 * 0.2单价 * 1.00倍率)");
}

#[test]
fn vidu_and_enhancement_come_from_the_table() {
    let mut f = ExtractedFeatures::default();
    f.duration_seconds = Some(d(2.0));
    f.service_tier = some("flex");
    let r = rule("duration", "vidu_video", r#"{"price_table":{"text|720p":0.5}}"#);
    shows(&bill(&r, &usage(0, 0), &f), 0.5, "Vidu视频查表(文生|720p 单价:0.5) [错峰 x0.5] -> (2.00秒 * 0.25单价 * 1.00倍率)");
    let r = rule("duration", "volc_enhance_cascade", r#"{"price_table":{"standard|1080p|no":0.4,"standard|720p|yes":0.3}}"#);
    shows(
        &bill(&r, &usage(0, 0), &f),
        0.8,
        "火山级联画质增强标准|720p|无视频未命中,兜底最高价(标准|1080p|无视频 单价:0.4) -> (2.00秒 * 0.4单价 * 1.00倍率)",
    );
}

#[test]
fn tokens_are_billed_at_standard_prices() {
    let mut u = usage(1000, 500);
    let mut r = rule("tokens", "", "");
    shows(
        &bill(&r, &u, &ExtractedFeatures::default()),
        0.006,
        "标准 Tokens 计费 -> (1000入*2 + 500出*8)/1M * 1.00倍率",
    );
    u.cached = 400;
    shows(
        &bill(&r, &u, &ExtractedFeatures::default()),
        0.006,
        "标准 Tokens 计费 -> (1000入*2 + 500出*8)/1M [含400读·按输入价] * 1.00倍率",
    );
    r.cached_rate = d(0.5);
    shows(
        &bill(&r, &u, &ExtractedFeatures::default()),
        0.0054,
        "标准 Tokens 计费 -> (600入*2 + 500出*8 + 400读*0.5)/1M * 1.00倍率",
    );
    u.has_total_tokens = false;
    shows(
        &bill(&r, &u, &ExtractedFeatures::default()),
        0.0062,
        "标准 Tokens 计费 -> (1000入*2 + 500出*8 + 400读*0.5)/1M * 1.00倍率",
    );
}

#[test]
fn offline_requests_and_searches_change_the_bill() {
    let u = usage(1000, 0);
    let mut f = ExtractedFeatures::default();
    f.service_tier = some("flex");
    f.web_search = Some(2);
    let r = rule("tokens", "", r#"{"offline_discount":0.25,"web_search_rate":10}"#);
    shows(
        &bill(&r, &u, &f),
        0.0205,
        "[ 标准 Tokens 计费 [叠加Flex离线折扣: 0.25倍] -> (1000入*0.5 + 0出*2)/1M + 联网搜索: 2次*10元/千次 ] * 1.00倍率",
    );
}

#[test]
fn caches_may_be_billed_apart() {
    let mut u = usage(1000, 100);
    u.cached = 200;
    let mut f = ExtractedFeatures::default();
    f.cache_creation = Some(300);
    let mut r = rule("tokens", "", "");
    r.claude_cache_creation_rate = d(2.5);
    r.claude_cache_read_rate = d(0.2);
    shows(
        &bill(&r, &u, &f),
        0.00259,
        "标准 Tokens 计费 -> (500P*2 + 100C*8 + 300创建@2.5 + 200读取@0.2)/1M * 1.00倍率",
    );
}

fn token_tier(max: f64, out: Option<f64>, prompt: f64) -> PricingTier {
    PricingTier {
        max_prompt_tokens: d(max),
        max_completion_tokens: out.map(d),
        prompt_rate: d(prompt),
        completion_rate: d(4.0),
        cached_rate: d(0.0),
        cache_write_rate: d(1.0),
        audio_prompt_rate: d(3.0),
        audio_cached_rate: d(0.3),
        fast_prompt_rate: d(0.0),
        fast_completion_rate: d(5.0),
        fast_cached_rate: d(0.0),
        fast_audio_prompt_rate: d(0.0),
        fast_audio_cached_rate: d(0.0),
    }
}

#[test]
fn tiers_follow_the_number_of_tokens() {
    let mut r = rule("tokens", "tiered", "");
    r.cached_rate = d(0.5);
    r.tiers.tokens = vec![token_tier(128.0, None, 2.0), token_tier(32.0, Some(0.2), 1.0)];
    let mut u = usage(1000, 100);
    u.cache_write = 50;
    shows(
        &bill(&r, &u, &ExtractedFeatures::default()),
        0.0014,
        "阶梯(≤32K入|≤0.2K出) -> (950入*1 + 100出*4 + 50写*1)/1M * 1.00倍率",
    );
    shows(
        &bill(&r, &usage(1000, 300), &ExtractedFeatures::default()),
        0.0032,
        "阶梯(≤128K入) -> (1000入*2 + 300出*4)/1M * 1.00倍率",
    );
    shows(
        &bill(&r, &usage(200_000, 0), &ExtractedFeatures::default()),
        0.4,
        "阶梯(超限·最高档128K入) -> (200000入*2 + 0出*4)/1M * 1.00倍率",
    );
}

#[test]
fn audio_and_text_have_prices_of_their_own() {
    let mut r = rule("tokens", "doubao_chat", "");
    r.tiers.tokens = vec![token_tier(32.0, None, 1.0)];
    let mut u = usage(1000, 100);
    u.cached = 300;
    u.audio_tokens = 200;
    u.audio_cached_tokens = 100;
    let mut f = ExtractedFeatures::default();
    f.service_tier = some("fast");
    shows(
        &bill(&r, &u, &f),
        0.00163,
        "豆包阶梯[低延迟](<=32K_P) -> (500非音P*1 + 200音P*3 + 200非音C*0 + 100音C*0.3 + 100Out*5)/1M * 1.00倍率",
    );
    r.tiers.tokens = Vec::new();
    shows(
        &bill(&r, &usage(10, 0), &ExtractedFeatures::default()),
        0.00002,
        "标准 Tokens 计费 -> (10入*2 + 0出*8)/1M * 1.00倍率",
    );
}

#[test]
fn images_among_the_input_have_a_price() {
    let mut u = usage(1000, 100);
    u.image_tokens = 500;
    let r = rule("tokens", "multimodal", r#"{"image_prompt_rate":4}"#);
    shows(&bill(&r, &u, &ExtractedFeatures::default()), 0.004, "多模态计费 -> (1000文本P*2 + 500图片P*4)/1M * 1.00倍率");
    let r = rule("tokens", "", "");
    shows(
        &bill(&r, &u, &ExtractedFeatures::default()),
        0.0038,
        "标准 Tokens 计费 -> (1500入*2 + 100出*8)/1M * 1.00倍率",
    );
    let mut f = ExtractedFeatures::default();
    f.has_image_ref = true;
    u.cached = 100;
    let r = rule(
        "tokens",
        "gpt_billing",
        r#"{"gpt_config":{"input_text":{"enabled":true,"rate":5},"cached_input_image":{"enabled":true,"rate":2},"output_image":{"enabled":true,"rate":40},"input_image":{"rate":9}}}"#,
    );
    shows(
        &bill(&r, &u, &f),
        0.0067,
        "GPT图片计费 -> (文本输入:500*5 + 图片缓存:100*2 + 图片输出:100*40)/1M * 1.00倍率",
    );
    let r = rule("tokens", "gpt_billing", "{}");
    shows(&bill(&r, &u, &f), 0.0, "GPT图片计费(未启用任何计费项) * 1.00倍率");
}

#[test]
fn seedance_rules_set_their_own_prices() {
    let u = usage(0, 1_000_000);
    let mut f = ExtractedFeatures::default();
    f.resolution = some("1080P");
    f.has_video = true;
    let r = rule("tokens", "seedance2.0", r#"{"resolution_rates":{"720p":{"with_video":3},"1080p":{"with_video":7}}}"#);
    shows(&bill(&r, &u, &f), 7.0, "Seedance2.0(1080p|含视频|基本单价:7) -> (0入*7 + 1000000出*7)/1M * 1.00倍率");
    let r = rule("tokens", "seedance1.5pro", r#"{"base_rate":8,"audio_rate":16}"#);
    shows(&bill(&r, &u, &f), 8.0, "Seedance1.5Pro(无语音单价:8) -> (0入*8 + 1000000出*8)/1M * 1.00倍率");
    f.has_audio = true;
    f.service_tier = some("flex");
    shows(&bill(&r, &u, &f), 8.0, "Seedance1.5Pro(含语音单价:16) [离线推理] -> (0入*8 + 1000000出*8)/1M * 1.00倍率");
    let r = rule("tokens", "seedance1.0", r#"{"online_rate":10,"offline_rate":5}"#);
    shows(&bill(&r, &u, &f), 5.0, "Seedance1.0(离线推理单价:5) -> (0入*5 + 1000000出*5)/1M * 1.00倍率");
    f.service_tier = None;
    shows(&bill(&r, &u, &f), 10.0, "Seedance1.0(在线推理单价:10) -> (0入*10 + 1000000出*10)/1M * 1.00倍率");
}

#[test]
fn the_time_of_day_is_a_factor() {
    let u = usage(0, 0);
    let mut r = rule("requests", "", "");
    let mut f = ExtractedFeatures::default();
    r.applied_multiplier = d(2.0);
    let b = compute_cost(Some(&r), &u, d(1.0), &f, &measures(&u));
    shows(&b, 1.0, "固定按次计费 -> (1量 * 0.500000单价 * 1.00倍率) * 2.00倍(时段倍率)");
    f.time_multiplier = Some(d(1.000001));
    let b = compute_cost(Some(&r), &u, d(1.0), &f, &measures(&u));
    shows(&b, 0.5, "固定按次计费 -> (1量 * 0.500000单价 * 1.00倍率)");
    f.time_multiplier = Some(d(1.5));
    let b = apply_locked_time_multiplier(bill(&r, &u, &f), &mut r, &f);
    shows(&b, 0.75, "固定按次计费 -> (1量 * 0.500000单价 * 1.00倍率) * 1.50倍(时段倍率)");
    assert!(r.is_multiplier_applied);
    assert_eq!(r.applied_multiplier, d(1.5));
    let again = apply_locked_time_multiplier(b, &mut r, &f);
    shows(&again, 0.75, "固定按次计费 -> (1量 * 0.500000单价 * 1.00倍率) * 1.50倍(时段倍率)");
}

#[test]
fn resolutions_scale_a_cost() {
    let m = parse_res_mul(&Json::parse(r#"{"res_mul":{"1080p":1.5}}"#).unwrap());
    let b = scale_cost_by_res_mul(Cost::Num(d(2.0)), "base | note | more", &m, "1080");
    shows(&b, 3.0, "base * 1.50倍(级联res_mul:1080) | note | more");
    let b = scale_cost_by_res_mul(Cost::Num(d(2.0)), "base", &m, "1080p");
    shows(&b, 3.0, "base * 1.50倍(级联res_mul:1080p)");
    let b = scale_cost_by_res_mul(Cost::Num(d(2.0)), "base", &m, "720p");
    shows(&b, 2.0, "base");
}

#[test]
fn a_settled_bill_names_source_factors_and_mapping() {
    let mut r = Some(rule("requests", "", ""));
    r.as_mut().unwrap().applied_multiplier = d(2.0);
    let s = Settlement {
        discount: "0.80".to_string(),
        discount_source: "用户折扣".to_string(),
        channel_rate: Some(d(0.5)),
        mapping: Some(Mapping {
            source: "渠道映射".to_string(),
            model: "a".to_string(),
            resolved_model: "b".to_string(),
        }),
    };
    let b = calculate_relay_cost(Cost::Num(d(1.0)), "x * 0.80倍率", &mut r, &ExtractedFeatures::default(), &s);
    shows(&b, 2.0, "x * 0.80倍率(用户折扣) * 2.00倍(时段倍率) * 0.50倍(渠道倍率) | 渠道映射: a ➞ b");
    assert!(r.unwrap().is_multiplier_applied);
    let mut none = None;
    let s = Settlement {
        discount: "1.00".to_string(),
        discount_source: "d".to_string(),
        channel_rate: Some(d(1.0)),
        mapping: None,
    };
    let b = calculate_relay_cost(Cost::Num(d(1.0)), "x", &mut none, &ExtractedFeatures::default(), &s);
    shows(&b, 1.0, "x");
}

#[test]
fn price_tables_know_exact_keys_and_other_cases() {
    let t = Json::parse(r#"{"price_table":{"A|B":1,"a|b":2,"c":"x","D":3},"price_table_disabled":["d"]}"#).unwrap();
    assert_eq!(lookup_price_table(&t, "a|b"), Some(d(2.0)));
    assert_eq!(lookup_price_table(&t, "a|B"), Some(d(1.0)));
    assert_eq!(lookup_price_table(&t, "c"), None);
    assert_eq!(lookup_price_table(&t, "D"), None);
    assert_eq!(find_top_price(&t, "a|"), Some(("a|b".to_string(), d(2.0))));
    assert_eq!(find_top_price(&t, "z"), None);
    assert_eq!(translate_billing_key("PRO| on |Other"), "专业|有声|other");
    assert!(default_tier_enabled());
}

#[test]
fn sizes_and_counts_are_normalised() {
    for (a, b) in [("1K", "1024x1024"), ("1024×768", "1024x768"), ("1024 × 768K", ""), ("1024X768", "1024x768"), (" 2:3 ", "2x3"), ("auto", ""), ("1x2x3", ""), ("4096 * 10", "4096x10")] {
        assert_eq!(normalize_pixel_size(a), b);
    }
    assert_eq!(free_image_count_from_ext(r#"{"free_image_count":3}"#, 1), 3);
    assert_eq!(free_image_count_from_ext(r#"{"free_image_count":2.9}"#, 1), 2);
    assert_eq!(free_image_count_from_ext(r#"{"free_image_count":-3}"#, 1), 0);
    assert_eq!(free_image_count_from_ext("no json", 5), 5);
    assert_eq!(free_image_count_from_ext("no json", -5), 0);
    assert_eq!(free_image_count_from_ext(r#"{"free_image_count":2147483648}"#, 1), i32::MAX);
}

#[test]
fn input_is_parted_without_loss() {
    assert_eq!(split_prompt_subsets(100, 30, 20, true, true, true), (50, 30, 20));
    assert_eq!(split_prompt_subsets(100, 30, 20, false, false, true), (100, 0, 0));
    assert_eq!(split_prompt_subsets(100, 30, 20, false, true, false), (130, 0, 20));
    assert_eq!(split_prompt_subsets(10, 30, 20, true, false, true), (30, 30, 0));
    assert_eq!(split_prompt_subsets(10, -5, -5, true, true, true), (10, 0, 0));
}
