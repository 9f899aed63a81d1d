//! Video requests: which model they mean, which resolution the second stage
//! of a cascade aims at, what becomes of their assets, and what is noted of
//! their tasks.
use vstd::prelude::*;
use vstd::string::*;
use crate::bill::BillingRule;
use crate::double::Double;
use crate::forward::{ForwardModel, ResolvedForward};
use crate::json::{
    is_plain, json_text, opt_text, opt_string, opt_view, or_get, or_member, parsed_json, single,
    text_at, text_in, texts, with_text, Json, Jv, set_text, NESTING,
};
use crate::relay_chat::asked_model;
use crate::relay_image::{freeze_note, note_freeze};
use crate::text::{
    ascii_small, contains, holds, join, joined, same, starts_with, to_ascii_lowercase, trim,
    trimmed,
};

verus! {

/// The path under which rules are looked up: native paths of videos count as
/// generations.
pub open spec fn entry_path(raw_path: Seq<char>) -> Seq<char> {
    if "/v1/videos/"@.is_prefix_of(raw_path) {
        "/v1/video/generations"@
    } else {
        raw_path
    }
}

/// Finds the path under which rules are looked up.
pub fn video_entry_path(raw_path: &str) -> (r: &str)
    ensures
        r@ == entry_path(raw_path@),
{
    if starts_with(raw_path, "/v1/videos/") {
        "/v1/video/generations"
    } else {
        raw_path
    }
}

/// The lasting id of the model that a tool's path stands for.
pub open spec fn tool_model(raw_path: Seq<char>, body: Jv) -> Option<Seq<char>> {
    if holds(raw_path, "/tools/enhance-video-fast"@) {
        Some("vve-ft"@)
    } else if holds(raw_path, "/tools/enhance-video-generative"@) {
        Some("vve-gt"@)
    } else if holds(raw_path, "/tools/erase-video-subtitle-pro"@) {
        Some("vvs-ep"@)
    } else if holds(raw_path, "/tools/erase-video-subtitle"@) {
        Some("vvs-er"@)
    } else if holds(raw_path, "/tools/enhance-video"@) {
        if text_at(body, "tool_version"@) == Some("professional"@) {
            Some("vve-pf"@)
        } else {
            Some("vve-sd"@)
        }
    } else {
        None
    }
}

/// Finds the lasting id of the model that a tool's path stands for.
pub fn enhance_tool(raw_path: &str, body: &Json) -> (r: Option<&'static str>)
    ensures
        opt_text(r) == tool_model(raw_path@, body@),
{
    if contains(raw_path, "/tools/enhance-video-fast") {
        Some("vve-ft")
    } else if contains(raw_path, "/tools/enhance-video-generative") {
        Some("vve-gt")
    } else if contains(raw_path, "/tools/erase-video-subtitle-pro") {
        Some("vvs-ep")
    } else if contains(raw_path, "/tools/erase-video-subtitle") {
        Some("vvs-er")
    } else if contains(raw_path, "/tools/enhance-video") {
        let professional = match body.get_str("tool_version") {
            Some(v) => same(v, "professional"),
            None => false,
        };
        if professional {
            Some("vve-pf")
        } else {
            Some("vve-sd")
        }
    } else {
        None
    }
}

/// Which model a request means.
#[derive(Debug)]
pub enum VideoModel {
    /// The one that it names.
    Named(String),
    /// The active one with a lasting id.
    Tool(&'static str),
    Missing,
}

/// Finds the model that a request means: the one that it names, or else the
/// one that its path stands for.
pub fn video_model(raw_path: &str, body: &Json) -> (r: VideoModel)
    ensures
        match r {
            VideoModel::Named(m) => asked_model(body@, true) == Some(m@),
            VideoModel::Tool(t) => asked_model(body@, true) is None && tool_model(raw_path@, body@)
                == Some(t@),
            VideoModel::Missing => asked_model(body@, true) is None && tool_model(
                raw_path@,
                body@,
            ) is None,
        },
{
    match body.get_str("model") {
        Some(m) => {
            return VideoModel::Named(m.to_owned());
        },
        None => {},
    }
    match body.get_str("model_name") {
        Some(m) => {
            return VideoModel::Named(m.to_owned());
        },
        None => {},
    }
    match enhance_tool(raw_path, body) {
        Some(t) => VideoModel::Tool(t),
        None => VideoModel::Missing,
    }
}

/// The category of a request: tools are one of their own.
pub fn video_category(model: &VideoModel) -> (r: &'static str)
    ensures
        r@ == if model is Tool {
            "视频增强"@
        } else {
            "视频"@
        },
{
    match model {
        VideoModel::Tool(_) => "视频增强",
        _ => "视频",
    }
}

/// What is said of a tool whose model is not active.
pub fn inactive_text(mid: &str) -> (r: String)
    ensures
        r@ == "预置画质增强模型 (mid: "@ + mid@ + ") 未在系统启用或未激活"@,
{
    let mut out = "预置画质增强模型 (mid: ".to_owned();
    out.append(mid);
    out.append(") 未在系统启用或未激活");
    out
}

// ---------------------------------------------------------------- resolutions

/// The resolution of a request that is checked against its billing rule,
/// unless it runs in two stages.
pub fn checked_resolution<'a>(resolved: &ResolvedForward, body: &'a Json, upstream: &'a Json) -> (r:
    Option<&'a str>)
    ensures
        opt_text(r) == if resolved.is_cascade {
            None
        } else {
            text_in(or_member(body@.member("resolution"@), upstream@, "resolution"@))
        },
{
    if resolved.is_cascade {
        return None;
    }
    match or_get(body.get("resolution"), upstream, "resolution") {
        Some(v) => v.as_str(),
        None => None,
    }
}

/// The resolution that a cascade aims at: that of the request, which has to be
/// a text, or else that of the upstream's body, or 720p.
pub open spec fn cascade_target(body: Jv, upstream: Jv) -> Option<Seq<char>> {
    match body.member("resolution"@) {
        Some(v) => match v.text() {
            Some(s) => Some(ascii_small(trimmed(s))),
            None => None,
        },
        None => match text_at(upstream, "resolution"@) {
            Some(s) => Some(ascii_small(trimmed(s))),
            None => Some(ascii_small(trimmed("720p"@))),
        },
    }
}

/// Finds the resolution that a cascade aims at.
pub fn cascade_resolution(body: &Json, upstream: &Json) -> (r: Result<String, String>)
    ensures
        match r {
            Ok(s) => cascade_target(body@, upstream@) == Some(s@),
            Err(e) => cascade_target(body@, upstream@) is None && e@ == "此模型不支持的分辨率: "@
                + json_text(body@.at("resolution"@)),
        },
{
    let text = match body.get("resolution") {
        Some(v) => match v.as_str() {
            Some(s) => s,
            None => {
                let mut e = "此模型不支持的分辨率: ".to_owned();
                let shown = v.to_text();
                e.append(shown.as_str());
                return Err(e);
            },
        },
        None => upstream.get_str_or("resolution", "720p"),
    };
    Ok(to_ascii_lowercase(trim(text)))
}

/// The body of the first stage of a cascade: at the resolution of the base.
pub fn first_stage_body(upstream_body: &Json, base_resolution: &str) -> (r: Json)
    requires
        upstream_body@.assignable(),
    ensures
        r@ == upstream_body@.with("resolution"@, Jv::Str(base_resolution@)),
{
    let mut out = upstream_body.dup();
    out.set("resolution", Json::text(base_resolution));
    out
}

/// Whether the length of the input videos is measured before a cascade: where
/// it is billed by it, and there are any.
pub fn measures_input(rule: Option<&BillingRule>, video_count: usize) -> (r: bool)
    ensures
        r == (rule is Some && rule->Some_0.billing_rule@ == "volc_enhance_cascade"@ && video_count
            > 0),
{
    match rule {
        Some(b) => same(b.billing_rule.as_str(), "volc_enhance_cascade") && video_count > 0,
        None => false,
    }
}

/// What is said of input videos whose length cannot be measured.
pub const NO_LENGTH: &'static str = "无法探测输入视频的时长，请确保视频能正常公开访问，且为合法的视频格式";

/// Whether input videos cannot be measured: they have no length.
pub fn lacks_length(seconds: Double) -> (r: bool)
    ensures
        r == seconds.at_most(Double { bits: 0 }),
{
    seconds.le(Double { bits: 0 })
}

/// What the second stage of a cascade is sent with.
pub struct CascadeStage {
    pub mid: String,
    pub resolution: String,
    pub version: String,
    pub final_model: String,
    pub base_url: String,
    pub api_key: String,
    pub channel_id: i64,
    pub channel_name: String,
    /// The factor of the channel, a JSON number.
    pub rate: Json,
    pub scene: Option<String>,
    /// The length of the input videos, a JSON number, where it was measured.
    pub input_duration: Option<Json>,
}

/// A text that may be absent, as JSON.
pub open spec fn text_or_null(o: Option<Seq<char>>) -> Jv {
    match o {
        Some(s) => Jv::Str(s),
        None => Jv::Null,
    }
}

/// The note of a cascade: what its second stage is sent with.
pub open spec fn cascade_note(s: CascadeStage, f: ForwardModel) -> Jv {
    let base = single("mid"@, Jv::Str(s.mid@)).with("resolution"@, Jv::Str(s.resolution@)).with(
        "version"@,
        Jv::Str(s.version@),
    ).with("final_model"@, Jv::Str(s.final_model@)).with("base_url"@, Jv::Str(s.base_url@)).with(
        "api_key"@,
        Jv::Str(s.api_key@),
    ).with("ch_id"@, Jv::Int(s.channel_id as int)).with("ch_name"@, Jv::Str(s.channel_name@)).with(
        "rate"@,
        s.rate@,
    ).with("auth_type"@, Jv::Str(f.auth_type)).with("upstream_path"@, Jv::Str(f.upstream_path)).with(
        "target_type"@,
        Jv::Str(f.target_type),
    ).with("poll_path"@, text_or_null(f.poll_path));
    let scened = with_text(base, "scene"@, opt_string(s.scene));
    match s.input_duration {
        Some(d) => scened.with("input_duration"@, d@),
        None => scened,
    }
}

/// Notes what the second stage of a cascade is sent with.
pub fn make_cascade_note(s: &CascadeStage, resolved: &ResolvedForward) -> (r: Json)
    ensures
        r@ == cascade_note(*s, resolved@),
{
    let poll = match &resolved.poll_path {
        Some(p) => Json::text(p.as_str()),
        None => Json::Null,
    };
    let mut out = Json::empty().with("mid", Json::text(s.mid.as_str())).with(
        "resolution",
        Json::text(s.resolution.as_str()),
    ).with("version", Json::text(s.version.as_str())).with(
        "final_model",
        Json::text(s.final_model.as_str()),
    ).with("base_url", Json::text(s.base_url.as_str())).with(
        "api_key",
        Json::text(s.api_key.as_str()),
    ).with("ch_id", Json::number(s.channel_id)).with(
        "ch_name",
        Json::text(s.channel_name.as_str()),
    ).with("rate", s.rate.dup()).with("auth_type", Json::text(resolved.auth_type.as_str())).with(
        "upstream_path",
        Json::text(resolved.upstream_path.as_str()),
    ).with("target_type", Json::text(resolved.target_type.as_str())).with("poll_path", poll);
    let scene = match &s.scene {
        Some(t) => Some(t.as_str()),
        None => None,
    };
    set_text(&mut out, "scene", scene);
    match &s.input_duration {
        Some(d) => {
            out.set("input_duration", d.dup());
        },
        None => {},
    }
    out
}

/// The note of a request with that of its cascade in it.
pub open spec fn with_cascade(tag: Jv, cascade: Option<Jv>) -> Jv {
    match cascade {
        Some(c) => tag.with("cascade"@, c),
        None => tag,
    }
}

/// Begins the note of a request.
pub fn request_note(cascade: Option<&Json>) -> (r: Json)
    ensures
        r@ == with_cascade(Jv::Obj(Map::empty()), opt_view(cascade)),
{
    let mut out = Json::empty();
    match cascade {
        Some(c) => {
            out.set("cascade", c.dup());
        },
        None => {},
    }
    out
}

/// The text of a note, from which a plain one is read back; none of an empty
/// note.
pub fn note_text(tag: &Json) -> (r: Option<String>)
    ensures
        opt_string(r) == if json_text(tag@) == "{}"@ || json_text(tag@) == "null"@ {
            None
        } else {
            Some(json_text(tag@))
        },
        r is Some && is_plain(tag@, NESTING as nat) ==> parsed_json(r->Some_0@) == Some(tag@),
{
    let t = tag.to_text();
    if same(t.as_str(), "{}") || same(t.as_str(), "null") {
        None
    } else {
        Some(t)
    }
}

// ---------------------------------------------------------------- assets

/// Who converts the assets of a request.
#[derive(Clone, Copy, Debug, PartialEq, Eq)]
pub enum Conversion {
    /// The upstream, under a binding.
    Upstream(i64),
    /// The upstream, but the rule names no binding.
    Unbound,
    /// The plugin of the rule.
    Plugin,
    Nobody,
}

/// Finds who converts the assets of a request: the upstream before a plugin.
pub fn asset_conversion(resolved: &ResolvedForward) -> (r: Conversion)
    ensures
        r == if resolved.upstream_asset_convert {
            match resolved.upstream_asset_binding_id {
                Some(id) => Conversion::Upstream(id),
                None => Conversion::Unbound,
            }
        } else if resolved.asset_convert {
            Conversion::Plugin
        } else {
            Conversion::Nobody
        },
{
    if resolved.upstream_asset_convert {
        match resolved.upstream_asset_binding_id {
            Some(id) => Conversion::Upstream(id),
            None => Conversion::Unbound,
        }
    } else if resolved.asset_convert {
        Conversion::Plugin
    } else {
        Conversion::Nobody
    }
}

/// What is said of a rule without a binding.
pub const NO_BINDING: &'static str = "上游素材转换失败: 转发规则缺少 upstream_asset_binding_id";

/// What is noted of conversions, as far as there is anything.
pub fn conversion_log(by_upstream: bool, logs: &Vec<String>) -> (r: Option<String>)
    ensures
        opt_string(r) == if logs@.len() == 0 {
            None
        } else if by_upstream {
            Some("上游素材转换: "@ + joined(texts(logs@), " | "@))
        } else {
            Some("素材转换: "@ + joined(texts(logs@), " | "@))
        },
{
    if logs.len() == 0 {
        return None;
    }
    let mut out = if by_upstream {
        "上游素材转换: ".to_owned()
    } else {
        "素材转换: ".to_owned()
    };
    let all = join(logs, " | ");
    out.append(all.as_str());
    Some(out)
}

/// What is said of conversions that failed, as far as any did: the request is
/// then not passed on.
pub fn conversion_error(by_upstream: bool, messages: &Vec<String>) -> (r: Option<String>)
    ensures
        opt_string(r) == if messages@.len() == 0 {
            None
        } else if by_upstream {
            Some("上游素材转换失败: "@ + joined(texts(messages@), "; "@))
        } else {
            Some("素材转换失败: "@ + joined(texts(messages@), "; "@))
        },
{
    if messages.len() == 0 {
        return None;
    }
    let mut out = if by_upstream {
        "上游素材转换失败: ".to_owned()
    } else {
        "素材转换失败: ".to_owned()
    };
    let all = join(messages, "; ");
    out.append(all.as_str());
    Some(out)
}

// ---------------------------------------------------------------- billing notes

/// How a model was mapped to another.
pub fn mapping_note(source: &str, model: &str, resolved_model: &str) -> (r: String)
    ensures
        r@ == source@ + ": "@ + model@ + " ➞ "@ + resolved_model@,
{
    let mut out = source.to_owned();
    out.append(": ");
    out.append(model);
    out.append(" ➞ ");
    out.append(resolved_model);
    out
}

/// A note with another behind it, where there is one.
pub open spec fn also_noted(note: Seq<char>, more: Option<Seq<char>>) -> Seq<char> {
    match more {
        Some(s) => note + " | "@ + s,
        None => note,
    }
}

/// What is noted of a video task: that it is settled later, what was
/// converted, and how its model was mapped.
pub fn video_note(charged: bool, conversion: Option<&str>, mapping: Option<&str>) -> (r: String)
    ensures
        r@ == also_noted(
            also_noted(freeze_note(charged), opt_text(conversion)),
            opt_text(mapping),
        ),
{
    let mut out = note_freeze(charged).to_owned();
    match conversion {
        Some(s) => {
            out.append(" | ");
            out.append(s);
        },
        None => {},
    }
    match mapping {
        Some(s) => {
            out.append(" | ");
            out.append(s);
        },
        None => {},
    }
    out
}

/// What a client is answered whose task ComfyUI took.
pub fn comfyui_answer(prompt_id: &str) -> (r: String)
    ensures
        r@ == json_text(
            single("id"@, Jv::Str(prompt_id@)).with("prompt_id"@, Jv::Str(prompt_id@)).with(
                "status"@,
                Jv::Str("pending"@),
            ),
        ),
{
    Json::empty().with("id", Json::text(prompt_id)).with("prompt_id", Json::text(prompt_id)).with(
        "status",
        Json::text("pending"),
    ).to_text()
}

/// What is said where no ComfyUI plugin is there.
pub const NO_COMFYUI: &'static str = "ComfyUI 接入插件未编译";

/// Whether a request is served by ComfyUI.
pub fn is_comfyui(resolved: &ResolvedForward) -> (r: bool)
    ensures
        r == (resolved.target_type@ == "comfyui"@),
{
    same(resolved.target_type.as_str(), "comfyui")
}

} // verus!
