//! Forward rules: which upstream protocol, path and authentication a request
//! gets, from the rules of its model or from the address of its channel.
use vstd::prelude::*;
use vstd::string::*;
use crate::double::{double_of, Double, ONE};
use crate::json::{
    filled, flag_or, has_items, int_at, items_in, key_list, lists_keys, opt_int, opt_string,
    opt_text, parsed_json, text_at, text_or, texts, views, Json, JsonMap, Jv,
};
use crate::text::{
    ascii_small, back_cut, contains, cut_back, cut_front, ends_with, front_cut, holds,
    small_letters, pieces, replace, replaced, same, split, starts_with, to_ascii_lowercase,
    to_lowercase, trim, trimmed,
};

verus! {

// ---------------------------------------------------------------- the configuration

/// How a request is forwarded.
#[derive(Debug)]
pub struct ResolvedForward {
    /// The upstream protocol.
    pub target_type: String,
    /// The upstream path, such as "/api/v3/chat/completions".
    pub upstream_path: String,
    /// The kind of authentication.
    pub auth_type: String,
    /// Whether media addresses are turned into assets.
    pub asset_convert: bool,
    /// The namespace in which assets are kept.
    pub asset_convert_ns: String,
    /// Whether assets are made at the upstream channel.
    pub upstream_asset_convert: bool,
    /// The binding of the upstream assets.
    pub upstream_asset_binding_id: Option<i64>,
    /// The ComfyUI workflow.
    pub comfyui_workflow_id: Option<i64>,
    /// The ComfyUI node.
    pub comfyui_server_id: Option<i64>,
    /// The ComfyUI nodes to choose from.
    pub comfyui_server_ids: Vec<i64>,
    /// How a ComfyUI node is chosen.
    pub comfyui_dispatch: Option<String>,
    /// The path under which a task is polled.
    pub poll_path: Option<String>,
    /// Whether assets skip moderation.
    pub asset_moderation: bool,
    /// The public id of the rule.
    pub eid: String,
    /// The lasting id of the model.
    pub mid: Option<String>,
    /// Whether the request runs in two stages.
    pub is_cascade: bool,
    /// Whether a 480p base is cropped on the way to 720p.
    pub crop_480p: bool,
    /// Whether the content becomes the prompt.
    pub content_to_prompt: bool,
    /// Factors by resolution.
    pub res_mul: JsonMap,
    /// Enhancement versions by resolution.
    pub res_enhance: JsonMap,
    /// Base resolutions by resolution.
    pub res_base: JsonMap,
    /// Enhancement scenes by resolution.
    pub res_scene: JsonMap,
}

/// How a request is forwarded, as a mathematical value.
#[verifier::ext_equal]
pub struct ForwardModel {
    pub target_type: Seq<char>,
    pub upstream_path: Seq<char>,
    pub auth_type: Seq<char>,
    pub asset_convert: bool,
    pub asset_convert_ns: Seq<char>,
    pub upstream_asset_convert: bool,
    pub upstream_asset_binding_id: Option<int>,
    pub comfyui_workflow_id: Option<int>,
    pub comfyui_server_id: Option<int>,
    pub comfyui_server_ids: Seq<int>,
    pub comfyui_dispatch: Option<Seq<char>>,
    pub poll_path: Option<Seq<char>>,
    pub asset_moderation: bool,
    pub eid: Seq<char>,
    pub mid: Option<Seq<char>>,
    pub is_cascade: bool,
    pub crop_480p: bool,
    pub content_to_prompt: bool,
    pub res_mul: Map<Seq<char>, Jv>,
    pub res_enhance: Map<Seq<char>, Jv>,
    pub res_base: Map<Seq<char>, Jv>,
    pub res_scene: Map<Seq<char>, Jv>,
}

/// Machine integers as integers.
pub open spec fn ints(s: Seq<i64>) -> Seq<int> {
    s.map_values(|i: i64| i as int)
}

impl View for ResolvedForward {
    type V = ForwardModel;

    open spec fn view(&self) -> ForwardModel {
        ForwardModel {
            target_type: self.target_type@,
            upstream_path: self.upstream_path@,
            auth_type: self.auth_type@,
            asset_convert: self.asset_convert,
            asset_convert_ns: self.asset_convert_ns@,
            upstream_asset_convert: self.upstream_asset_convert,
            upstream_asset_binding_id: opt_int(self.upstream_asset_binding_id),
            comfyui_workflow_id: opt_int(self.comfyui_workflow_id),
            comfyui_server_id: opt_int(self.comfyui_server_id),
            comfyui_server_ids: ints(self.comfyui_server_ids@),
            comfyui_dispatch: opt_string(self.comfyui_dispatch),
            poll_path: opt_string(self.poll_path),
            asset_moderation: self.asset_moderation,
            eid: self.eid@,
            mid: opt_string(self.mid),
            is_cascade: self.is_cascade,
            crop_480p: self.crop_480p,
            content_to_prompt: self.content_to_prompt,
            res_mul: self.res_mul@,
            res_enhance: self.res_enhance@,
            res_base: self.res_base@,
            res_scene: self.res_scene@,
        }
    }
}

/// The configuration that holds where nothing is set.
pub open spec fn default_forward() -> ForwardModel {
    ForwardModel {
        target_type: "openai"@,
        upstream_path: Seq::empty(),
        auth_type: "bearer"@,
        asset_convert: false,
        asset_convert_ns: "asset_manager"@,
        upstream_asset_convert: false,
        upstream_asset_binding_id: None,
        comfyui_workflow_id: None,
        comfyui_server_id: None,
        comfyui_server_ids: Seq::empty(),
        comfyui_dispatch: None,
        poll_path: None,
        asset_moderation: false,
        eid: Seq::empty(),
        mid: None,
        is_cascade: false,
        crop_480p: true,
        content_to_prompt: false,
        res_mul: Map::empty(),
        res_enhance: Map::empty(),
        res_base: Map::empty(),
        res_scene: Map::empty(),
    }
}

impl Default for ResolvedForward {
    fn default() -> (r: Self)
        ensures
            r@ == default_forward(),
    {
        let r = ResolvedForward {
            target_type: "openai".to_owned(),
            upstream_path: String::new(),
            auth_type: "bearer".to_owned(),
            asset_convert: false,
            asset_convert_ns: "asset_manager".to_owned(),
            upstream_asset_convert: false,
            upstream_asset_binding_id: None,
            comfyui_workflow_id: None,
            comfyui_server_id: None,
            comfyui_server_ids: Vec::new(),
            comfyui_dispatch: None,
            poll_path: None,
            asset_moderation: false,
            eid: String::new(),
            mid: None,
            is_cascade: false,
            crop_480p: true,
            content_to_prompt: false,
            res_mul: JsonMap::new(),
            res_enhance: JsonMap::new(),
            res_base: JsonMap::new(),
            res_scene: JsonMap::new(),
        };
        assert(r@ =~= default_forward());
        r
    }
}

/// A configuration with a protocol, a path and an authentication of its own.
pub open spec fn forward_to(
    target_type: Seq<char>,
    upstream_path: Seq<char>,
    auth_type: Seq<char>,
) -> ForwardModel {
    ForwardModel { target_type, upstream_path, auth_type, ..default_forward() }
}

/// Makes a configuration with a protocol, a path and an authentication.
pub fn make_forward(target_type: &str, upstream_path: &str, auth_type: &str) -> (r: ResolvedForward)
    ensures
        r@ == forward_to(target_type@, upstream_path@, auth_type@),
{
    let mut r = ResolvedForward::default();
    r.target_type = target_type.to_owned();
    r.upstream_path = upstream_path.to_owned();
    r.auth_type = auth_type.to_owned();
    r
}

/// Makes the configuration of an OpenAI request that passes through.
pub fn default_openai_forward(entry_path: &str) -> (r: ResolvedForward)
    ensures
        r@ == forward_to("openai"@, entry_path@, "bearer"@),
{
    make_forward("openai", entry_path, "bearer")
}

// ---------------------------------------------------------------- resolutions

/// The name under which a resolution is kept, given its text in small letters.
pub open spec fn resolution_key(s: Seq<char>) -> Seq<char> {
    if s == "480"@ || s == "480p"@ {
        "480p"@
    } else if s == "720"@ || s == "720p"@ {
        "720p"@
    } else if s == "1080"@ || s == "1080p"@ {
        "1080p"@
    } else if s == "2k"@ || s == "2kp"@ {
        "2k"@
    } else if s == "4k"@ || s == "4kp"@ {
        "4k"@
    } else {
        s
    }
}

/// The name of a resolution names the same resolution.
pub proof fn law_resolution_key_stable(s: Seq<char>)
    ensures
        resolution_key(resolution_key(s)) == resolution_key(s),
{
    reveal_strlit("480");
    reveal_strlit("480p");
    reveal_strlit("720");
    reveal_strlit("720p");
    reveal_strlit("1080");
    reveal_strlit("1080p");
    reveal_strlit("2k");
    reveal_strlit("2kp");
    reveal_strlit("4k");
    reveal_strlit("4kp");
}

/// Names a resolution, given its text in small letters.
pub fn resolution_name(s: &str) -> (r: &str)
    ensures
        r@ == resolution_key(s@),
{
    if same(s, "480") || same(s, "480p") {
        "480p"
    } else if same(s, "720") || same(s, "720p") {
        "720p"
    } else if same(s, "1080") || same(s, "1080p") {
        "1080p"
    } else if same(s, "2k") || same(s, "2kp") {
        "2k"
    } else if same(s, "4k") || same(s, "4kp") {
        "4k"
    } else {
        s
    }
}

/// The name under which a resolution is kept.
pub fn normalize_res_mul_key(resolution: &str) -> (r: String)
    ensures
        r@ == resolution_key(small_letters(trimmed(resolution@))),
{
    let low = to_lowercase(trim(resolution));
    resolution_name(low.as_str()).to_owned()
}

/// Whether a JSON value is a number above zero.
pub open spec fn is_positive_number(v: Jv) -> bool {
    match v {
        Jv::Int(i) => i > 0,
        Jv::Float(_) => match double_of(v) {
            Some(x) => x.is_positive(),
            None => false,
        },
        _ => false,
    }
}

fn positive_number(v: &Json) -> (r: bool)
    ensures
        r == is_positive_number(v@),
{
    match v {
        Json::Int(i) => *i > 0,
        Json::Float(_) => match v.as_double() {
            Some(x) => x.positive(),
            None => false,
        },
        _ => false,
    }
}

/// The factors of the first `n` keys: a later key takes the place of an
/// earlier one with the same name.
pub open spec fn factors_upto(
    m: Map<Seq<char>, Jv>,
    keys: Seq<Seq<char>>,
    n: int,
) -> Map<Seq<char>, Jv>
    decreases n,
{
    if n <= 0 {
        Map::empty()
    } else {
        let done = factors_upto(m, keys, n - 1);
        let k = keys[n - 1];
        if is_positive_number(m[k]) {
            done.insert(resolution_key(small_letters(trimmed(k))), m[k])
        } else {
            done
        }
    }
}

/// The members of the object under a key; none where there is no object.
pub open spec fn group_at(config: Jv, field: Seq<char>) -> Map<Seq<char>, Jv> {
    match config.member(field) {
        Some(Jv::Obj(m)) => m,
        _ => Map::empty(),
    }
}

/// The factors of a configuration, by resolution.
pub open spec fn resolution_factors(config: Jv) -> Map<Seq<char>, Jv> {
    let m = group_at(config, "res_mul"@);
    factors_upto(m, key_list(m), key_list(m).len() as int)
}

/// Reads the factors of a configuration.
pub fn parse_res_mul(config: &Json) -> (r: JsonMap)
    ensures
        r@ == resolution_factors(config@),
{
    let mut out = JsonMap::new();
    let empty = JsonMap::new();
    let obj = match config.get("res_mul") {
        Some(v) => match v.as_object() {
            Some(m) => m,
            None => &empty,
        },
        None => &empty,
    };
    let keys = obj.keys();
    let ghost ks = key_list(obj@);
    let mut i: usize = 0;
    while i < keys.len()
        invariant
            i <= keys@.len(),
            ks == texts(keys@),
            lists_keys(ks, obj@),
            out@ == factors_upto(obj@, ks, i as int),
        decreases keys@.len() - i,
    {
        let key = keys[i].as_str();
        assert(ks[i as int] == key@);
        assert(ks.contains(key@));
        match obj.get(key) {
            Some(v) => {
                if positive_number(v) {
                    let name = normalize_res_mul_key(key);
                    out.insert(name.as_str(), v.dup());
                }
            },
            None => {},
        }
        i += 1;
    }
    out
}

/// The words of the first `n` keys, in small letters.
pub open spec fn words_upto(
    m: Map<Seq<char>, Jv>,
    keys: Seq<Seq<char>>,
    n: int,
) -> Map<Seq<char>, Jv>
    decreases n,
{
    if n <= 0 {
        Map::empty()
    } else {
        let done = words_upto(m, keys, n - 1);
        let k = keys[n - 1];
        match m[k] {
            Jv::Str(s) => if trimmed(s).len() > 0 {
                done.insert(
                    resolution_key(small_letters(trimmed(k))),
                    Jv::Str(ascii_small(trimmed(s))),
                )
            } else {
                done
            },
            _ => done,
        }
    }
}

/// The words of a configuration under a field, by resolution.
pub open spec fn resolution_words(config: Jv, field: Seq<char>) -> Map<Seq<char>, Jv> {
    let m = group_at(config, field);
    words_upto(m, key_list(m), key_list(m).len() as int)
}

/// Reads the words of a configuration under a field.
pub fn parse_res_str_map(config: &Json, field: &str) -> (r: JsonMap)
    ensures
        r@ == resolution_words(config@, field@),
{
    let mut out = JsonMap::new();
    let empty = JsonMap::new();
    let obj = match config.get(field) {
        Some(v) => match v.as_object() {
            Some(m) => m,
            None => &empty,
        },
        None => &empty,
    };
    let keys = obj.keys();
    let ghost ks = key_list(obj@);
    let mut i: usize = 0;
    while i < keys.len()
        invariant
            i <= keys@.len(),
            ks == texts(keys@),
            lists_keys(ks, obj@),
            out@ == words_upto(obj@, ks, i as int),
        decreases keys@.len() - i,
    {
        let key = keys[i].as_str();
        assert(ks[i as int] == key@);
        assert(ks.contains(key@));
        match obj.get(key) {
            Some(v) => {
                match v.as_str() {
                    Some(s) => {
                        let t = trim(s);
                        if !t.is_empty() {
                            let name = normalize_res_mul_key(key);
                            let word = to_ascii_lowercase(t);
                            out.insert(name.as_str(), Json::text(word.as_str()));
                        }
                    },
                    None => {},
                }
            },
            None => {},
        }
        i += 1;
    }
    out
}

/// The factor of a resolution, where there is one above zero, or else one.
pub open spec fn factor_for(map: Map<Seq<char>, Jv>, resolution: Seq<char>) -> Double {
    let key = resolution_key(small_letters(trimmed(resolution)));
    let found = if map.dom().contains(key) {
        double_of(map[key])
    } else {
        None
    };
    match found {
        Some(x) => if x.is_positive() {
            x
        } else {
            Double { bits: ONE }
        },
        None => Double { bits: ONE },
    }
}

/// Looks up the factor of a resolution.
pub fn lookup_res_mul(map: &JsonMap, resolution: &str) -> (r: Double)
    ensures
        r == factor_for(map@, resolution@),
{
    let key = normalize_res_mul_key(resolution);
    let found = match map.get(key.as_str()) {
        Some(v) => v.as_double(),
        None => None,
    };
    match found {
        Some(x) => if x.positive() {
            x
        } else {
            Double { bits: ONE }
        },
        None => Double { bits: ONE },
    }
}

// ---------------------------------------------------------------- ComfyUI nodes

/// The positive integers among values.
pub open spec fn positive_ids(items: Seq<Jv>) -> Seq<int>
    decreases items.len(),
{
    if items.len() == 0 {
        Seq::empty()
    } else {
        let done = positive_ids(items.drop_last());
        match items.last().int64() {
            Some(i) => if i > 0 {
                done.push(i)
            } else {
                done
            },
            None => done,
        }
    }
}

/// The integers without repetition, each where it first stands.
pub open spec fn first_only(s: Seq<int>) -> Seq<int>
    decreases s.len(),
{
    if s.len() == 0 {
        Seq::empty()
    } else {
        let done = first_only(s.drop_last());
        if done.contains(s.last()) {
            done
        } else {
            done.push(s.last())
        }
    }
}

/// The nodes of a configuration: those it lists, or else the one it names.
pub open spec fn server_ids(cfg: Jv) -> Seq<int> {
    let listed = positive_ids(items_in(cfg.member("comfyui_server_ids"@)));
    if listed.len() > 0 {
        first_only(listed)
    } else {
        match int_at(cfg, "comfyui_server_id"@) {
            Some(i) => if i > 0 {
                seq![i]
            } else {
                Seq::empty()
            },
            None => Seq::empty(),
        }
    }
}

fn list_ids(items: &Vec<Json>) -> (r: Vec<i64>)
    ensures
        ints(r@) == positive_ids(views(items@)),
{
    let ghost all = views(items@);
    let mut out: Vec<i64> = Vec::new();
    let mut i: usize = 0;
    proof {
        assert(all.take(0) =~= Seq::<Jv>::empty());
        assert(ints(out@) =~= Seq::<int>::empty());
    }
    while i < items.len()
        invariant
            i <= items@.len(),
            all == views(items@),
            ints(out@) == positive_ids(all.take(i as int)),
        decreases items@.len() - i,
    {
        proof {
            assert(all.take(i + 1).drop_last() =~= all.take(i as int));
            assert(all.take(i + 1).last() == items@[i as int]@);
        }
        match items[i].as_i64() {
            Some(id) => {
                if id > 0 {
                    let ghost before = out@;
                    out.push(id);
                    proof {
                        assert(ints(out@) =~= ints(before).push(id as int));
                    }
                }
            },
            None => {},
        }
        i += 1;
    }
    proof {
        assert(all.take(i as int) =~= all);
    }
    out
}

fn has_id(ids: &Vec<i64>, id: i64) -> (r: bool)
    ensures
        r == ints(ids@).contains(id as int),
{
    let mut i: usize = 0;
    while i < ids.len()
        invariant
            i <= ids@.len(),
            forall|k: int| 0 <= k < i ==> #[trigger] ints(ids@)[k] != id,
        decreases ids@.len() - i,
    {
        if ids[i] == id {
            assert(ints(ids@)[i as int] == id);
            return true;
        }
        assert(ints(ids@)[i as int] != id);
        i += 1;
    }
    false
}

pub(crate) fn keep_first(ids: &Vec<i64>) -> (r: Vec<i64>)
    ensures
        ints(r@) == first_only(ints(ids@)),
{
    let ghost all = ints(ids@);
    let mut out: Vec<i64> = Vec::new();
    let mut i: usize = 0;
    proof {
        assert(all.take(0) =~= Seq::<int>::empty());
        assert(ints(out@) =~= Seq::<int>::empty());
    }
    while i < ids.len()
        invariant
            i <= ids@.len(),
            all == ints(ids@),
            ints(out@) == first_only(all.take(i as int)),
        decreases ids@.len() - i,
    {
        proof {
            assert(all.take(i + 1).drop_last() =~= all.take(i as int));
            assert(all.take(i + 1).last() == ids@[i as int]);
        }
        if !has_id(&out, ids[i]) {
            let ghost before = out@;
            out.push(ids[i]);
            proof {
                assert(ints(out@) =~= ints(before).push(ids@[i as int] as int));
            }
        }
        i += 1;
    }
    proof {
        assert(all.take(i as int) =~= all);
    }
    out
}

/// Reads the nodes of a configuration.
pub fn parse_comfyui_server_ids(cfg: &Json) -> (r: Vec<i64>)
    ensures
        ints(r@) == server_ids(cfg@),
{
    match cfg.get_array("comfyui_server_ids") {
        Some(arr) => {
            let ids = list_ids(arr);
            if ids.len() > 0 {
                return keep_first(&ids);
            }
        },
        None => {},
    }
    let mut out: Vec<i64> = Vec::new();
    match cfg.get_i64("comfyui_server_id") {
        Some(id) => {
            if id > 0 {
                out.push(id);
                assert(ints(out@) =~= seq![id as int]);
                return out;
            }
        },
        None => {},
    }
    assert(ints(out@) =~= Seq::<int>::empty());
    out
}

/// Repetition is gone, nothing is lost and nothing is added.
proof fn lemma_first_only(s: Seq<int>)
    ensures
        first_only(s).no_duplicates(),
        forall|x: int| #[trigger] first_only(s).contains(x) <==> s.contains(x),
    decreases s.len(),
{
    if s.len() > 0 {
        let t = s.drop_last();
        lemma_first_only(t);
        let done = first_only(t);
        assert forall|x: int| #[trigger] first_only(s).contains(x) <==> s.contains(x) by {
            if s.contains(x) {
                let i = choose|i: int| 0 <= i < s.len() && s[i] == x;
                if i < t.len() {
                    assert(t[i] == x);
                    assert(t.contains(x));
                    assert(done.contains(x));
                    let k = choose|k: int| 0 <= k < done.len() && done[k] == x;
                    assert(first_only(s)[k] == x);
                } else if !done.contains(x) {
                    assert(first_only(s)[done.len() as int] == x);
                }
            }
            if first_only(s).contains(x) {
                let k = choose|k: int| 0 <= k < first_only(s).len() && first_only(s)[k] == x;
                if k < done.len() {
                    assert(done[k] == x);
                    assert(done.contains(x));
                    assert(t.contains(x));
                    let i = choose|i: int| 0 <= i < t.len() && t[i] == x;
                    assert(s[i] == x);
                } else {
                    assert(s[s.len() - 1] == x);
                }
            }
        }
    }
}

proof fn lemma_positive_ids(items: Seq<Jv>)
    ensures
        forall|i: int| 0 <= i < positive_ids(items).len() ==> #[trigger] positive_ids(items)[i] > 0,
    decreases items.len(),
{
    if items.len() > 0 {
        lemma_positive_ids(items.drop_last());
        let done = positive_ids(items.drop_last());
        assert forall|i: int| 0 <= i < positive_ids(items).len() implies #[trigger] positive_ids(
            items,
        )[i] > 0 by {
            if i < done.len() {
                assert(done[i] > 0);
            }
        }
    }
}

/// The nodes of a configuration are positive, and none is listed twice.
pub proof fn law_server_ids(cfg: Jv)
    ensures
        server_ids(cfg).no_duplicates(),
        forall|i: int| 0 <= i < server_ids(cfg).len() ==> #[trigger] server_ids(cfg)[i] > 0,
{
    let listed = positive_ids(items_in(cfg.member("comfyui_server_ids"@)));
    lemma_positive_ids(items_in(cfg.member("comfyui_server_ids"@)));
    lemma_first_only(listed);
    if listed.len() > 0 {
        assert forall|i: int| 0 <= i < server_ids(cfg).len() implies #[trigger] server_ids(cfg)[i]
            > 0 by {
            assert(first_only(listed).contains(first_only(listed)[i]));
            assert(listed.contains(first_only(listed)[i]));
            let k = choose|k: int| 0 <= k < listed.len() && listed[k] == first_only(listed)[i];
            assert(listed[k] > 0);
        }
    }
}

/// A configuration with what a ComfyUI channel sets.
pub open spec fn with_comfyui(f: ForwardModel, cfg: Jv) -> ForwardModel {
    let ids = server_ids(cfg);
    let workflow = int_at(cfg, "comfyui_workflow_id"@);
    if ids.len() == 0 && workflow is None {
        f
    } else {
        ForwardModel {
            target_type: "comfyui"@,
            upstream_path: "/prompt"@,
            is_cascade: false,
            comfyui_server_id: if ids.len() > 0 {
                Some(ids[0])
            } else {
                f.comfyui_server_id
            },
            comfyui_server_ids: if ids.len() > 0 {
                ids
            } else {
                f.comfyui_server_ids
            },
            comfyui_workflow_id: if workflow is Some {
                workflow
            } else {
                f.comfyui_workflow_id
            },
            comfyui_dispatch: filled(text_at(cfg, "comfyui_dispatch"@)),
            ..f
        }
    }
}

/// A channel configuration as JSON: null where it is none.
pub open spec fn channel_config(config: Seq<char>) -> Jv {
    match parsed_json(config) {
        Some(j) => j,
        None => Jv::Null,
    }
}

/// Takes over what a ComfyUI channel sets, given its configuration.
pub fn apply_comfyui_settings(resolved: &mut ResolvedForward, cfg: &Json)
    ensures
        final(resolved)@ == with_comfyui(old(resolved)@, cfg@),
{
    let ids = parse_comfyui_server_ids(cfg);
    let workflow_id = cfg.get_i64("comfyui_workflow_id");
    if ids.len() == 0 && workflow_id.is_none() {
        return ;
    }
    let ghost before = resolved@;
    resolved.target_type = "comfyui".to_owned();
    resolved.upstream_path = "/prompt".to_owned();
    resolved.is_cascade = false;
    if ids.len() > 0 {
        assert(ints(ids@)[0] == ids@[0]);
        resolved.comfyui_server_id = Some(ids[0]);
        resolved.comfyui_server_ids = ids;
    }
    if workflow_id.is_some() {
        resolved.comfyui_workflow_id = workflow_id;
    }
    resolved.comfyui_dispatch = match cfg.get_filled_str("comfyui_dispatch") {
        Some(s) => Some(s.to_owned()),
        None => None,
    };
    assert(resolved@ =~= with_comfyui(before, cfg@));
}

/// Takes over what a channel sets, where it is a ComfyUI channel.
pub fn apply_comfyui_channel_config(
    resolved: &mut ResolvedForward,
    provider_type: &str,
    config: &str,
)
    ensures
        final(resolved)@ == if provider_type@ == "comfyui"@ {
            with_comfyui(old(resolved)@, channel_config(config@))
        } else {
            old(resolved)@
        },
{
    if !same(provider_type, "comfyui") {
        return ;
    }
    let cfg = match Json::parse(config) {
        Some(j) => j,
        None => Json::Null,
    };
    apply_comfyui_settings(resolved, &cfg);
}

/// What forwarding needs to know of a channel.
pub struct Channel {
    /// The kind of provider.
    pub provider_type: String,
    /// The configuration, as JSON text.
    pub config: String,
}

/// Takes over what the channel sets.
pub fn apply_channel_provider(resolved: &mut ResolvedForward, ch: &Channel)
    ensures
        final(resolved)@ == if ch.provider_type@ == "comfyui"@ {
            with_comfyui(old(resolved)@, channel_config(ch.config@))
        } else {
            old(resolved)@
        },
{
    apply_comfyui_channel_config(resolved, ch.provider_type.as_str(), ch.config.as_str());
}

// ---------------------------------------------------------------- rules

/// The upstream path of a rule: the category path with its old part replaced,
/// or the new path, or the category path.
pub open spec fn rewritten_path(config: Jv, category_path: Seq<char>) -> Seq<char> {
    match config.member("path_rewrite"@) {
        Some(pr) => {
            let old_part = text_or(pr, "old"@, ""@);
            let new_part = text_or(pr, "new"@, ""@);
            if old_part.len() > 0 && holds(category_path, old_part) {
                replaced(category_path, old_part, new_part)
            } else if new_part.len() > 0 {
                new_part
            } else {
                category_path
            }
        },
        None => category_path,
    }
}

fn rewrite_path(config: &Json, category_path: &str) -> (r: String)
    ensures
        r@ == rewritten_path(config@, category_path@),
{
    match config.get("path_rewrite") {
        Some(pr) => {
            let old_part = pr.get_str_or("old", "");
            let new_part = pr.get_str_or("new", "");
            if !old_part.is_empty() && contains(category_path, old_part) {
                replace(category_path, old_part, new_part)
            } else if !new_part.is_empty() {
                new_part.to_owned()
            } else {
                category_path.to_owned()
            }
        },
        None => category_path.to_owned(),
    }
}

/// What the configuration of a rule says.
pub open spec fn forward_config(
    config: Jv,
    category_path: Seq<char>,
    eid: Seq<char>,
    mid: Option<Seq<char>>,
) -> ForwardModel {
    let ids = server_ids(config);
    ForwardModel {
        target_type: text_or(config, "target_type"@, "openai"@),
        upstream_path: rewritten_path(config, category_path),
        auth_type: text_or(config, "auth_type"@, "bearer"@),
        asset_convert: flag_or(config, "asset_convert"@, false),
        asset_convert_ns: text_or(config, "asset_convert_ns"@, "asset_manager"@),
        upstream_asset_convert: flag_or(config, "upstream_asset_convert"@, false),
        upstream_asset_binding_id: int_at(config, "upstream_asset_binding_id"@),
        comfyui_workflow_id: int_at(config, "comfyui_workflow_id"@),
        comfyui_server_id: if ids.len() > 0 {
            Some(ids[0])
        } else {
            None
        },
        comfyui_server_ids: ids,
        comfyui_dispatch: filled(text_at(config, "comfyui_dispatch"@)),
        poll_path: text_at(config, "poll_path"@),
        asset_moderation: flag_or(config, "moderation"@, false),
        eid,
        mid,
        is_cascade: flag_or(config, "is_cascade"@, false),
        crop_480p: flag_or(config, "crop_480p"@, true),
        content_to_prompt: flag_or(config, "content_to_prompt"@, false),
        res_mul: resolution_factors(config),
        res_enhance: resolution_words(config, "res_enhance"@),
        res_base: resolution_words(config, "res_base"@),
        res_scene: resolution_words(config, "res_scene"@),
    }
}

/// Reads the configuration of a rule.
pub fn parse_forward_config(
    config: &Json,
    category_path: &str,
    eid: &str,
    mid: Option<String>,
) -> (r: ResolvedForward)
    ensures
        r@ == forward_config(config@, category_path@, eid@, opt_string(mid)),
{
    let ids = parse_comfyui_server_ids(config);
    let first = if ids.len() > 0 {
        assert(ints(ids@)[0] == ids@[0]);
        Some(ids[0])
    } else {
        None
    };
    let r = ResolvedForward {
        target_type: config.get_str_or("target_type", "openai").to_owned(),
        upstream_path: rewrite_path(config, category_path),
        auth_type: config.get_str_or("auth_type", "bearer").to_owned(),
        asset_convert: config.get_bool_or("asset_convert", false),
        asset_convert_ns: config.get_str_or("asset_convert_ns", "asset_manager").to_owned(),
        upstream_asset_convert: config.get_bool_or("upstream_asset_convert", false),
        upstream_asset_binding_id: config.get_i64("upstream_asset_binding_id"),
        comfyui_workflow_id: config.get_i64("comfyui_workflow_id"),
        comfyui_server_id: first,
        comfyui_server_ids: ids,
        comfyui_dispatch: match config.get_filled_str("comfyui_dispatch") {
            Some(s) => Some(s.to_owned()),
            None => None,
        },
        poll_path: match config.get_str("poll_path") {
            Some(s) => Some(s.to_owned()),
            None => None,
        },
        asset_moderation: config.get_bool_or("moderation", false),
        eid: eid.to_owned(),
        mid,
        is_cascade: config.get_bool_or("is_cascade", false),
        crop_480p: config.get_bool_or("crop_480p", true),
        content_to_prompt: config.get_bool_or("content_to_prompt", false),
        res_mul: parse_res_mul(config),
        res_enhance: parse_res_str_map(config, "res_enhance"),
        res_base: parse_res_str_map(config, "res_base"),
        res_scene: parse_res_str_map(config, "res_scene"),
    };
    assert(r@ =~= forward_config(config@, category_path@, eid@, opt_string(mid)));
    r
}

/// The ids of a JSON array of integers; none where it is anything else.
pub open spec fn rule_ids(j: Option<Jv>) -> Seq<int> {
    match j {
        Some(Jv::Arr(a)) => if forall|i: int| 0 <= i < a.len() ==> (#[trigger] a[i]).int64() is Some {
            a.map_values(|x: Jv| x.int64()->Some_0)
        } else {
            Seq::empty()
        },
        _ => Seq::empty(),
    }
}

/// Reads the ids of a JSON array of integers.
pub fn list_rule_ids(j: &Option<Json>) -> (r: Vec<i64>)
    ensures
        ints(r@) == rule_ids(
            match *j {
                Some(v) => Some(v@),
                None => None,
            },
        ),
{
    let mut out: Vec<i64> = Vec::new();
    let none: Vec<i64> = Vec::new();
    proof {
        assert(ints(none@) =~= Seq::<int>::empty());
        assert(ints(out@) =~= Seq::<int>::empty());
    }
    match j {
        Some(v) => {
            match v.as_array() {
                Some(arr) => {
                    let ghost a = views(arr@);
                    let mut i: usize = 0;
                    while i < arr.len()
                        invariant
                            i <= arr@.len(),
                            a == views(arr@),
                            ints(none@) == Seq::<int>::empty(),
                            out@.len() == i,
                            v@ == Jv::Arr(a),
                            forall|k: int|
                                0 <= k < i ==> (#[trigger] a[k]).int64() == Some(out@[k] as int),
                            *j == Some(*v),
                        decreases arr@.len() - i,
                    {
                        assert(a[i as int] == arr@[i as int]@);
                        match arr[i].as_i64() {
                            Some(id) => {
                                out.push(id);
                            },
                            None => {
                                assert(a[i as int].int64() is None);
                                return none;
                            },
                        }
                        i += 1;
                    }
                    proof {
                        assert(ints(out@) =~= a.map_values(|x: Jv| x.int64()->Some_0));
                    }
                    out
                },
                None => none,
            }
        },
        None => none,
    }
}

/// The rules that a model lists, given the text of its list.
pub fn parse_rule_ids(text: &str) -> (r: Vec<i64>)
    ensures
        ints(r@) == rule_ids(parsed_json(text@)),
{
    let j = Json::parse(text);
    list_rule_ids(&j)
}

/// Whether a model has forward rules at all, given the text of its list.
pub fn model_has_forward_rules(forward_rule_ids: Option<&str>) -> (r: bool)
    ensures
        r == match forward_rule_ids {
            Some(s) => rule_ids(parsed_json(s@)).len() > 0,
            None => false,
        },
{
    match forward_rule_ids {
        Some(s) => {
            let ids = parse_rule_ids(s);
            assert(ints(ids@).len() == ids@.len());
            ids.len() > 0
        },
        None => false,
    }
}

/// A forward rule.
pub struct ForwardRule {
    /// The public id.
    pub eid: String,
    /// The category of requests it is for.
    pub category: String,
    /// The configuration, as JSON text.
    pub config_json: String,
}

/// A forward rule, as a mathematical value.
pub struct RuleModel {
    pub eid: Seq<char>,
    pub category: Seq<char>,
    pub config_json: Seq<char>,
}

impl View for ForwardRule {
    type V = RuleModel;

    open spec fn view(&self) -> RuleModel {
        RuleModel {
            eid: self.eid@,
            category: self.category@,
            config_json: self.config_json@,
        }
    }
}

pub open spec fn rule_views(s: Seq<ForwardRule>) -> Seq<RuleModel> {
    s.map_values(|r: ForwardRule| r@)
}

/// How well a rule fits a path: 3 where a path of the vendor hits it, 2 where
/// an OpenAI path passes through, 1 where an OpenAI path is rewritten, 0 where
/// it does not fit.
pub open spec fn path_score(
    old_path: Seq<char>,
    new_path: Seq<char>,
    request_path: Seq<char>,
    openai_path: Seq<char>,
) -> int {
    let old_clean = front_cut(old_path, '/');
    let new_clean = front_cut(new_path, '/');
    let req = front_cut(request_path, '/');
    let openai = front_cut(openai_path, '/');
    let is_openai = openai.is_suffix_of(req);
    let supports_openai = old_clean.is_suffix_of(openai);
    let hits_new = new_clean.len() > 0 && new_clean.is_suffix_of(req);
    let hits_old = old_clean.len() > 0 && old_clean.is_suffix_of(req);
    if !is_openai && (hits_new || hits_old) {
        3
    } else if is_openai && supports_openai && old_clean == new_clean {
        2
    } else if is_openai && supports_openai {
        1
    } else {
        0
    }
}

/// How well a configuration fits a path.
pub open spec fn config_score(config: Jv, request_path: Seq<char>, openai_path: Seq<char>) -> int {
    let pr = match config.member("path_rewrite"@) {
        Some(v) => v,
        None => Jv::Null,
    };
    path_score(text_or(pr, "old"@, ""@), text_or(pr, "new"@, ""@), request_path, openai_path)
}

/// How well a rule fits a path; a rule whose configuration is no JSON does not.
pub open spec fn rule_score(
    config: Option<Jv>,
    request_path: Seq<char>,
    openai_path: Seq<char>,
) -> int {
    match config {
        Some(c) => config_score(c, request_path, openai_path),
        None => 0,
    }
}

/// Scores how well paths fit.
pub fn score_paths(old_path: &str, new_path: &str, request_path: &str, openai_path: &str) -> (r: u8)
    ensures
        r == path_score(old_path@, new_path@, request_path@, openai_path@),
        r <= 3,
{
    let old_clean = cut_front(old_path, '/');
    let new_clean = cut_front(new_path, '/');
    let req = cut_front(request_path, '/');
    let openai = cut_front(openai_path, '/');
    let is_openai = ends_with(req, openai);
    let supports_openai = ends_with(openai, old_clean);
    let hits_new = !new_clean.is_empty() && ends_with(req, new_clean);
    let hits_old = !old_clean.is_empty() && ends_with(req, old_clean);
    if !is_openai && (hits_new || hits_old) {
        3
    } else if is_openai && supports_openai && same(old_clean, new_clean) {
        2
    } else if is_openai && supports_openai {
        1
    } else {
        0
    }
}

/// Scores how well a configuration fits a path.
pub fn score_config(config: &Json, request_path: &str, openai_path: &str) -> (r: u8)
    ensures
        r == config_score(config@, request_path@, openai_path@),
        r <= 3,
{
    let null = Json::Null;
    let pr = match config.get("path_rewrite") {
        Some(v) => v,
        None => &null,
    };
    score_paths(pr.get_str_or("old", ""), pr.get_str_or("new", ""), request_path, openai_path)
}

/// The rule to take: the first of those with the highest score, if that is
/// above zero.
pub open spec fn is_best(scores: Seq<int>, i: int) -> bool {
    &&& 0 <= i < scores.len()
    &&& scores[i] > 0
    &&& forall|j: int| 0 <= j < scores.len() ==> #[trigger] scores[j] <= scores[i]
    &&& forall|j: int| 0 <= j < i ==> #[trigger] scores[j] < scores[i]
}

/// Only one rule is the one to take, and there is one as soon as one fits.
pub proof fn law_best_rule(scores: Seq<int>, i: int, j: int)
    ensures
        is_best(scores, i) && is_best(scores, j) ==> i == j,
        (exists|k: int| 0 <= k < scores.len() && #[trigger] scores[k] > 0) ==> exists|k: int|
            is_best(scores, k),
{
    if is_best(scores, i) && is_best(scores, j) {
        assert(scores[i] <= scores[j] && scores[j] <= scores[i]);
    }
    if exists|k: int| 0 <= k < scores.len() && #[trigger] scores[k] > 0 {
        let k = choose|k: int| 0 <= k < scores.len() && #[trigger] scores[k] > 0;
        lemma_best_exists(scores, k);
    }
}

proof fn lemma_best_exists(scores: Seq<int>, k: int)
    requires
        0 <= k < scores.len(),
        scores[k] > 0,
    ensures
        exists|i: int| is_best(scores, i),
    decreases scores.len(),
{
    let n = scores.len() - 1;
    let t = scores.drop_last();
    if k == n && (forall|j: int| 0 <= j < n ==> #[trigger] scores[j] < scores[n]) {
        assert(is_best(scores, n));
    } else {
        let m = if k < n {
            k
        } else {
            choose|j: int| 0 <= j < n && #[trigger] scores[j] >= scores[n]
        };
        assert(t[m] == scores[m]);
        lemma_best_exists(t, m);
        let b = choose|b: int| is_best(t, b);
        assert(t[b] == scores[b]);
        assert(t[m] <= t[b]);
        if scores[n] > scores[b] {
            assert forall|j: int| 0 <= j < n implies #[trigger] scores[j] < scores[n] by {
                assert(t[j] <= t[b]);
            }
            assert(is_best(scores, n));
        } else {
            assert forall|j: int| 0 <= j < scores.len() implies #[trigger] scores[j] <= scores[b] by {
                if j < n {
                    assert(t[j] <= t[b]);
                }
            }
            assert forall|j: int| 0 <= j < b implies #[trigger] scores[j] < scores[b] by {
                assert(t[j] < t[b]);
            }
            assert(is_best(scores, b));
        }
    }
}

/// The rules of a category.
pub open spec fn of_category(rules: Seq<RuleModel>, category: Seq<char>) -> Seq<RuleModel>
    decreases rules.len(),
{
    if rules.len() == 0 {
        Seq::empty()
    } else {
        let done = of_category(rules.drop_last(), category);
        if rules.last().category == category {
            done.push(rules.last())
        } else {
            done
        }
    }
}

/// The scores of rules.
pub open spec fn scores_of(
    rules: Seq<RuleModel>,
    request_path: Seq<char>,
    openai_path: Seq<char>,
) -> Seq<int> {
    rules.map_values(
        |r: RuleModel| rule_score(parsed_json(r.config_json), request_path, openai_path),
    )
}

/// Finds the rule to take, given the scores.
pub fn pick_best(scores: &Vec<u8>) -> (r: Option<usize>)
    ensures
        match r {
            Some(i) => is_best(scores@.map_values(|x: u8| x as int), i as int),
            None => forall|i: int| 0 <= i < scores@.len() ==> #[trigger] scores@[i] == 0,
        },
{
    let ghost s = scores@.map_values(|x: u8| x as int);
    let mut best: Option<usize> = None;
    let mut top: u8 = 0;
    let mut i: usize = 0;
    while i < scores.len()
        invariant
            i <= scores@.len(),
            s == scores@.map_values(|x: u8| x as int),
            match best {
                Some(b) => b < i && top == s[b as int] && top > 0 && (forall|j: int|
                    0 <= j < b ==> #[trigger] s[j] < top),
                None => top == 0,
            },
            forall|j: int| 0 <= j < i ==> #[trigger] s[j] <= top,
        decreases scores@.len() - i,
    {
        assert(s[i as int] == scores@[i as int]);
        if scores[i] > top {
            top = scores[i];
            best = Some(i);
        }
        i += 1;
    }
    proof {
        if best is None {
            assert forall|k: int| 0 <= k < scores@.len() implies #[trigger] scores@[k] == 0 by {
                assert(s[k] <= 0);
            }
        }
    }
    best
}

fn indices_of(rules: &Vec<ForwardRule>, category: &str) -> (r: Vec<usize>)
    ensures
        forall|k: int| 0 <= k < r@.len() ==> #[trigger] r@[k] < rules@.len(),
        r@.map_values(|i: usize| rule_views(rules@)[i as int]) == of_category(
            rule_views(rules@),
            category@,
        ),
{
    let ghost all = rule_views(rules@);
    let mut out: Vec<usize> = Vec::new();
    let mut i: usize = 0;
    proof {
        assert(all.take(0) =~= Seq::<RuleModel>::empty());
        assert(out@.map_values(|i: usize| all[i as int]) =~= Seq::<RuleModel>::empty());
    }
    while i < rules.len()
        invariant
            i <= rules@.len(),
            all == rule_views(rules@),
            forall|k: int| 0 <= k < out@.len() ==> #[trigger] out@[k] < rules@.len(),
            out@.map_values(|i: usize| all[i as int]) == of_category(all.take(i as int), category@),
        decreases rules@.len() - i,
    {
        proof {
            assert(all.take(i + 1).drop_last() =~= all.take(i as int));
            assert(all.take(i + 1).last() == rules@[i as int]@);
        }
        if same(rules[i].category.as_str(), category) {
            let ghost before = out@;
            out.push(i);
            proof {
                assert(out@.map_values(|i: usize| all[i as int]) =~= before.map_values(
                    |i: usize| all[i as int],
                ).push(all[i as int]));
            }
        }
        i += 1;
    }
    proof {
        assert(all.take(i as int) =~= all);
    }
    out
}

/// What the best rule says: the configuration of the first of these rules with
/// the highest score, if any fits at all.
pub open spec fn chosen_forward(
    rules: Seq<RuleModel>,
    request_path: Seq<char>,
    openai_path: Seq<char>,
    mid: Seq<char>,
) -> Option<ForwardModel> {
    let scores = scores_of(rules, request_path, openai_path);
    if exists|i: int| is_best(scores, i) {
        let i = choose|i: int| is_best(scores, i);
        match parsed_json(rules[i].config_json) {
            Some(config) => Some(forward_config(config, openai_path, rules[i].eid, Some(mid))),
            None => None,
        }
    } else {
        None
    }
}

/// Resolves the forward rule of a request: `rules` are the active rules of
/// its model and `openai_path` is the OpenAI path of the category. Nothing is
/// returned where no rule of the category fits the path.
pub fn resolve_forward_rule(
    rules: &Vec<ForwardRule>,
    category: &str,
    request_path: &str,
    openai_path: &str,
    mid: &str,
) -> (r: Option<ResolvedForward>)
    ensures
        match r {
            Some(f) => chosen_forward(
                of_category(rule_views(rules@), category@),
                request_path@,
                openai_path@,
                mid@,
            ) == Some(f@),
            None => chosen_forward(
                of_category(rule_views(rules@), category@),
                request_path@,
                openai_path@,
                mid@,
            ) is None,
        },
{
    let order = indices_of(rules, category);
    let ghost all = rule_views(rules@);
    let ghost cands = of_category(all, category@);
    let ghost want = scores_of(cands, request_path@, openai_path@);
    let mut scores: Vec<u8> = Vec::new();
    let mut configs: Vec<Option<Json>> = Vec::new();
    let mut i: usize = 0;
    assert(order@.map_values(|i: usize| all[i as int]).len() == order@.len());
    while i < order.len()
        invariant
            i <= order@.len(),
            all == rule_views(rules@),
            cands == order@.map_values(|i: usize| all[i as int]),
            want == scores_of(cands, request_path@, openai_path@),
            forall|k: int| 0 <= k < order@.len() ==> #[trigger] order@[k] < rules@.len(),
            scores@.len() == i,
            configs@.len() == i,
            forall|k: int| 0 <= k < i ==> #[trigger] scores@[k] == want[k],
            forall|k: int|
                0 <= k < i ==> match #[trigger] configs@[k] {
                    Some(c) => parsed_json(cands[k].config_json) == Some(c@),
                    None => parsed_json(cands[k].config_json) is None,
                },
        decreases order@.len() - i,
    {
        let rule = &rules[order[i]];
        assert(cands[i as int] == rule@);
        let config = Json::parse(rule.config_json.as_str());
        let score: u8 = match &config {
            Some(c) => score_config(c, request_path, openai_path),
            None => 0,
        };
        scores.push(score);
        configs.push(config);
        i += 1;
    }
    let ghost s = scores@.map_values(|x: u8| x as int);
    proof {
        assert(s =~= want);
    }
    match pick_best(&scores) {
        Some(b) => {
            let rule = &rules[order[b]];
            proof {
                assert(is_best(want, b as int));
                let c = choose|i: int| is_best(want, i);
                law_best_rule(want, b as int, c);
                assert(cands[b as int] == rule@);
                assert(configs@[b as int] is Some) by {
                    assert(want[b as int] > 0);
                }
            }
            match &configs[b] {
                Some(config) => Some(
                    parse_forward_config(
                        config,
                        openai_path,
                        rule.eid.as_str(),
                        Some(mid.to_owned()),
                    ),
                ),
                None => None,
            }
        },
        None => {
            proof {
                assert forall|i: int| !is_best(want, i) by {
                    if 0 <= i < want.len() {
                        assert(scores@[i] == 0);
                    }
                }
            }
            None
        },
    }
}

// ---------------------------------------------------------------- channel addresses

/// Which optional parts a deployment has.
#[derive(Clone, Copy, Debug)]
pub struct Plugins {
    /// The media enhancement tools.
    pub volcengine_enhance: bool,
    /// The signed Jimeng interface.
    pub commercial: bool,
}

/// The protocol that an address in small letters refines "openai" to.
pub open spec fn refined_type(target_type: Seq<char>, url_lower: Seq<char>) -> Seq<char> {
    if target_type == "openai"@ && holds(url_lower, "apimart.ai"@) {
        "apimart"@
    } else {
        target_type
    }
}

/// Refines the protocol by the address of the channel.
pub fn refine_target_type(resolved: &mut ResolvedForward, base_url: &str)
    ensures
        final(resolved)@ == (ForwardModel {
            target_type: refined_type(old(resolved)@.target_type, small_letters(base_url@)),
            ..old(resolved)@
        }),
{
    let low = to_lowercase(base_url);
    if same(resolved.target_type.as_str(), "openai") && contains(low.as_str(), "apimart.ai") {
        resolved.target_type = "apimart".to_owned();
    }
}

/// The upstream path of a media enhancement model.
pub open spec fn enhance_path(mid: Seq<char>) -> Option<Seq<char>> {
    if mid == "vve-ft"@ {
        Some("/api/v1/tools/enhance-video-fast"@)
    } else if mid == "vve-gt"@ {
        Some("/api/v1/tools/enhance-video-generative"@)
    } else if mid == "vvs-ep"@ {
        Some("/api/v1/tools/erase-video-subtitle-pro"@)
    } else if mid == "vvs-er"@ {
        Some("/api/v1/tools/erase-video-subtitle"@)
    } else if mid == "vve-sd"@ || mid == "vve-pf"@ {
        Some("/api/v1/tools/enhance-video"@)
    } else {
        None
    }
}

/// A configuration for a media enhancement model.
pub open spec fn with_enhance_path(f: ForwardModel, plugins: Plugins) -> ForwardModel {
    let mid = match f.mid {
        Some(m) => m,
        None => ""@,
    };
    match enhance_path(mid) {
        Some(path) => if plugins.volcengine_enhance {
            ForwardModel {
                upstream_path: path,
                target_type: "volcengine_media_enhance"@,
                poll_path: Some("/api/v1/tasks/${task_id}"@),
                ..f
            }
        } else {
            f
        },
        None => f,
    }
}

fn path_for_enhance(mid: &str) -> (r: Option<&'static str>)
    ensures
        match r {
            Some(p) => enhance_path(mid@) == Some(p@),
            None => enhance_path(mid@) is None,
        },
{
    if same(mid, "vve-ft") {
        Some("/api/v1/tools/enhance-video-fast")
    } else if same(mid, "vve-gt") {
        Some("/api/v1/tools/enhance-video-generative")
    } else if same(mid, "vvs-ep") {
        Some("/api/v1/tools/erase-video-subtitle-pro")
    } else if same(mid, "vvs-er") {
        Some("/api/v1/tools/erase-video-subtitle")
    } else if same(mid, "vve-sd") || same(mid, "vve-pf") {
        Some("/api/v1/tools/enhance-video")
    } else {
        None
    }
}

/// Sets the path of a media enhancement model by its lasting id.
pub fn resolve_volcengine_media_enhance_path(resolved: &mut ResolvedForward, plugins: Plugins)
    ensures
        final(resolved)@ == with_enhance_path(old(resolved)@, plugins),
{
    if !plugins.volcengine_enhance {
        return ;
    }
    let path = match &resolved.mid {
        Some(m) => path_for_enhance(m.as_str()),
        None => path_for_enhance(""),
    };
    match path {
        Some(p) => {
            resolved.upstream_path = p.to_owned();
            resolved.target_type = "volcengine_media_enhance".to_owned();
            resolved.poll_path = Some("/api/v1/tasks/${task_id}".to_owned());
        },
        None => {},
    }
}

/// A configuration with a poll path.
pub open spec fn polled(f: ForwardModel, poll_path: Seq<char>) -> ForwardModel {
    ForwardModel { poll_path: Some(poll_path), ..f }
}

fn with_poll(f: ResolvedForward, poll_path: &str) -> (r: ResolvedForward)
    ensures
        r@ == polled(f@, poll_path@),
{
    let mut r = f;
    r.poll_path = Some(poll_path.to_owned());
    r
}

/// What the address of a DashScope channel says.
pub open spec fn dashscope_forward(category: Seq<char>) -> ForwardModel {
    if category == "视频"@ {
        polled(
            forward_to(
                "dashscope"@,
                "/api/v1/services/aigc/video-generation/video-synthesis"@,
                "bearer"@,
            ),
            "/api/v1/tasks/${task_id}"@,
        )
    } else if category == "图片"@ {
        forward_to(
            "dashscope_image"@,
            "/api/v1/services/aigc/multimodal-generation/generation"@,
            "bearer"@,
        )
    } else if category == "向量"@ {
        forward_to("openai"@, "/compatible-mode/v1/embeddings"@, "bearer"@)
    } else if category == "排序"@ {
        forward_to("openai"@, "/compatible-api/v1/reranks"@, "bearer"@)
    } else {
        forward_to("openai"@, "/v1/chat/completions"@, "bearer"@)
    }
}

fn infer_dashscope(category: &str) -> (r: ResolvedForward)
    ensures
        r@ == dashscope_forward(category@),
{
    if same(category, "视频") {
        with_poll(
            make_forward(
                "dashscope",
                "/api/v1/services/aigc/video-generation/video-synthesis",
                "bearer",
            ),
            "/api/v1/tasks/${task_id}",
        )
    } else if same(category, "图片") {
        make_forward(
            "dashscope_image",
            "/api/v1/services/aigc/multimodal-generation/generation",
            "bearer",
        )
    } else if same(category, "向量") {
        make_forward("openai", "/compatible-mode/v1/embeddings", "bearer")
    } else if same(category, "排序") {
        make_forward("openai", "/compatible-api/v1/reranks", "bearer")
    } else {
        default_openai_forward("/v1/chat/completions")
    }
}

/// One configuration for images, one for videos, and the chat path for anything else.
pub open spec fn by_category(
    category: Seq<char>,
    image: ForwardModel,
    video: ForwardModel,
) -> ForwardModel {
    if category == "图片"@ {
        image
    } else if category == "视频"@ {
        video
    } else {
        forward_to("openai"@, "/v1/chat/completions"@, "bearer"@)
    }
}

/// What the address of a channel says, given in small letters: the vendor
/// whose name it holds decides, the first in this order. `category_path` is
/// the OpenAI path of the category.
pub open spec fn inferred_forward(
    url: Seq<char>,
    category: Seq<char>,
    category_path: Seq<char>,
    mid: Option<Seq<char>>,
    plugins: Plugins,
) -> ForwardModel {
    if holds(url, "dashscope"@) {
        dashscope_forward(category)
    } else if plugins.volcengine_enhance && holds(url, "mediakit"@) {
        let f = polled(
            forward_to("volcengine_media_enhance"@, "/api/v1/tools/enhance-video"@, "bearer"@),
            "/api/v1/tasks/${task_id}"@,
        );
        match mid {
            Some(m) => with_enhance_path(ForwardModel { mid: Some(m), ..f }, plugins),
            None => f,
        }
    } else if holds(url, "openspeech.bytedance.com"@) {
        forward_to("volcengine_tts"@, "/api/v3/tts/unidirectional/sse"@, "volcengine_tts"@)
    } else if holds(url, "visual.volcengineapi.com"@) {
        by_category(
            category,
            forward_to("jimeng_image"@, "/"@, "jimeng"@),
            forward_to("jimeng_video"@, "/"@, "jimeng"@),
        )
    } else if holds(url, "volces.com"@) || holds(url, "volcengine"@) {
        if category == "图片"@ {
            forward_to("volcengine_image"@, "/api/v3/images/generations"@, "bearer"@)
        } else if category == "视频"@ {
            forward_to("volcengine"@, "/api/v3/contents/generations/tasks"@, "bearer"@)
        } else {
            forward_to("volcengine_chat"@, "/api/v3/chat/completions"@, "bearer"@)
        }
    } else if holds(url, "googleapis.com"@) || holds(url, "generativelanguage"@) {
        forward_to(
            if category == "图片"@ {
                "gemini_image"@
            } else {
                "gemini"@
            },
            "/v1beta/models/${model}:generateContent"@,
            "query_key"@,
        )
    } else if holds(url, "anthropic.com"@) {
        forward_to("anthropic"@, "/v1/messages"@, "x-api-key"@)
    } else if holds(url, "klingai.com"@) {
        by_category(
            category,
            forward_to("kling"@, "/v1/images/generations"@, "bearer"@),
            forward_to("kling"@, "/v1/videos/text2video"@, "bearer"@),
        )
    } else if holds(url, "minimaxi.com"@) {
        by_category(
            category,
            forward_to("minimax_image"@, "/v1/image_generation"@, "bearer"@),
            polled(
                forward_to("minimax_video"@, "/v2/video_generation"@, "bearer"@),
                "/v2/query/video_generation/${task_id}"@,
            ),
        )
    } else if holds(url, "atptoken.ai"@) {
        if category == "视频"@ {
            polled(
                forward_to("atp_video"@, "/omni/media/v1/contents/generations/tasks"@, "bearer"@),
                "/omni/media/v1/contents/generations/tasks/${task_id}"@,
            )
        } else {
            forward_to("openai"@, category_path, "bearer"@)
        }
    } else if holds(url, "tencentcloudapi.com"@) {
        by_category(
            category,
            forward_to("tencent_vod_image"@, "/"@, "tencent_vod"@),
            forward_to("tencent_vod_video"@, "/"@, "tencent_vod"@),
        )
    } else {
        forward_to("openai"@, category_path, "bearer"@)
    }
}

/// Infers a configuration from an address in small letters.
pub fn infer_forward_from_host(
    url: &str,
    category: &str,
    category_path: &str,
    mid: Option<&str>,
    plugins: Plugins,
) -> (r: ResolvedForward)
    ensures
        r@ == inferred_forward(url@, category@, category_path@, opt_text(mid), plugins),
{
    let image = same(category, "图片");
    let video = same(category, "视频");
    if contains(url, "dashscope") {
        infer_dashscope(category)
    } else if plugins.volcengine_enhance && contains(url, "mediakit") {
        let mut r = with_poll(
            make_forward("volcengine_media_enhance", "/api/v1/tools/enhance-video", "bearer"),
            "/api/v1/tasks/${task_id}",
        );
        match mid {
            Some(m) => {
                r.mid = Some(m.to_owned());
                resolve_volcengine_media_enhance_path(&mut r, plugins);
            },
            None => {},
        }
        r
    } else if contains(url, "openspeech.bytedance.com") {
        make_forward("volcengine_tts", "/api/v3/tts/unidirectional/sse", "volcengine_tts")
    } else if contains(url, "visual.volcengineapi.com") {
        if image {
            make_forward("jimeng_image", "/", "jimeng")
        } else if video {
            make_forward("jimeng_video", "/", "jimeng")
        } else {
            default_openai_forward("/v1/chat/completions")
        }
    } else if contains(url, "volces.com") || contains(url, "volcengine") {
        if image {
            make_forward("volcengine_image", "/api/v3/images/generations", "bearer")
        } else if video {
            make_forward("volcengine", "/api/v3/contents/generations/tasks", "bearer")
        } else {
            make_forward("volcengine_chat", "/api/v3/chat/completions", "bearer")
        }
    } else if contains(url, "googleapis.com") || contains(url, "generativelanguage") {
        let target = if image {
            "gemini_image"
        } else {
            "gemini"
        };
        make_forward(target, "/v1beta/models/${model}:generateContent", "query_key")
    } else if contains(url, "anthropic.com") {
        make_forward("anthropic", "/v1/messages", "x-api-key")
    } else if contains(url, "klingai.com") {
        if image {
            make_forward("kling", "/v1/images/generations", "bearer")
        } else if video {
            make_forward("kling", "/v1/videos/text2video", "bearer")
        } else {
            default_openai_forward("/v1/chat/completions")
        }
    } else if contains(url, "minimaxi.com") {
        if image {
            make_forward("minimax_image", "/v1/image_generation", "bearer")
        } else if video {
            with_poll(
                make_forward("minimax_video", "/v2/video_generation", "bearer"),
                "/v2/query/video_generation/${task_id}",
            )
        } else {
            default_openai_forward("/v1/chat/completions")
        }
    } else if contains(url, "atptoken.ai") {
        if video {
            with_poll(
                make_forward("atp_video", "/omni/media/v1/contents/generations/tasks", "bearer"),
                "/omni/media/v1/contents/generations/tasks/${task_id}",
            )
        } else {
            default_openai_forward(category_path)
        }
    } else if contains(url, "tencentcloudapi.com") {
        if image {
            make_forward("tencent_vod_image", "/", "tencent_vod")
        } else if video {
            make_forward("tencent_vod_video", "/", "tencent_vod")
        } else {
            default_openai_forward("/v1/chat/completions")
        }
    } else {
        default_openai_forward(category_path)
    }
}

/// Infers a configuration from the address of a channel, for a model without
/// rules. `category_path` is the OpenAI path of the category and `mid` the
/// lasting id of the model, where it is known.
pub fn infer_forward_from_base_url(
    base_url: &str,
    category: &str,
    category_path: &str,
    mid: Option<&str>,
    plugins: Plugins,
) -> (r: ResolvedForward)
    ensures
        r@ == inferred_forward(
            small_letters(base_url@),
            category@,
            category_path@,
            opt_text(mid),
            plugins,
        ),
{
    let low = to_lowercase(base_url);
    infer_forward_from_host(low.as_str(), category, category_path, mid, plugins)
}

// ---------------------------------------------------------------- addresses

/// The path of a request, with the model put in.
pub open spec fn request_path(f: ForwardModel, model: Seq<char>) -> Seq<char> {
    replaced(f.upstream_path, "${model}"@, model)
}

/// Puts the model into the upstream path.
pub fn upstream_request_path(resolved: &ResolvedForward, model: &str) -> (r: String)
    ensures
        r@ == request_path(resolved@, model@),
{
    proof {
        reveal_strlit("${model}");
    }
    replace(resolved.upstream_path.as_str(), "${model}", model)
}

/// The full address of a request, where `joined` is its path joined to the
/// base address: Jimeng has one fixed address, and some vendors take the key
/// in the query.
pub open spec fn upstream_url(
    base_url: Seq<char>,
    f: ForwardModel,
    joined: Seq<char>,
    api_key: Seq<char>,
) -> Seq<char> {
    if "jimeng_"@.is_prefix_of(f.target_type) {
        back_cut(base_url, '/') + "/?Action=CVSync2AsyncSubmitTask&Version=2022-08-31"@
    } else if f.auth_type == "query_key"@ {
        joined + "?key="@ + api_key
    } else {
        joined
    }
}

/// Builds the full address of a request. `joined` is the path of
/// `upstream_request_path` joined to the base address.
pub fn build_upstream_url(
    base_url: &str,
    resolved: &ResolvedForward,
    joined: &str,
    api_key: &str,
) -> (r: String)
    ensures
        r@ == upstream_url(base_url@, resolved@, joined@, api_key@),
{
    if starts_with(resolved.target_type.as_str(), "jimeng_") {
        let mut r = cut_back(base_url, '/').to_owned();
        r.append("/?Action=CVSync2AsyncSubmitTask&Version=2022-08-31");
        return r;
    }
    let mut r = joined.to_owned();
    if same(resolved.auth_type.as_str(), "query_key") {
        r.append("?key=");
        r.append(api_key);
    }
    r
}

/// The path of a Kling request, as its body demands: the omni interface keeps
/// its path; otherwise text, image and several images have paths of their own.
pub open spec fn kling_path(f: ForwardModel, body: Jv) -> Seq<char> {
    let path = f.upstream_path;
    let tt = f.target_type;
    if (tt != "kling"@ && tt != "kling_video"@) || holds(path, "omni-video"@) || holds(
        path,
        "omni-image"@,
    ) {
        path
    } else if tt == "kling_video"@ && (holds(path, "/text-to-video/"@) || holds(
        path,
        "/image-to-video/"@,
    )) {
        let suffix = pieces(path, "/"@).last();
        if suffix.len() == 0 {
            path
        } else {
            "/"@ + (if has_items(body, "contents"@) {
                "image-to-video"@
            } else {
                "text-to-video"@
            }) + "/"@ + suffix
        }
    } else if holds(path, "text2video"@) || holds(path, "image2video"@) || holds(
        path,
        "multi-image2video"@,
    ) {
        if has_items(body, "image_list"@) {
            "/v1/videos/multi-image2video"@
        } else if body.member("image"@) is Some || body.member("image_tail"@) is Some {
            "/v1/videos/image2video"@
        } else {
            "/v1/videos/text2video"@
        }
    } else if holds(path, "images"@) && has_items(body, "subject_image_list"@) {
        "/v1/images/multi-image2image"@
    } else {
        path
    }
}

/// Sets the path of a Kling request by its body.
pub fn resolve_kling_dynamic_path(resolved: &mut ResolvedForward, upstream_body: &Json)
    ensures
        final(resolved)@ == (ForwardModel {
            upstream_path: kling_path(old(resolved)@, upstream_body@),
            ..old(resolved)@
        }),
{
    let kling = same(resolved.target_type.as_str(), "kling");
    let kling_video = same(resolved.target_type.as_str(), "kling_video");
    if !kling && !kling_video {
        return ;
    }
    let path = resolved.upstream_path.clone();
    let p = path.as_str();
    if contains(p, "omni-video") || contains(p, "omni-image") {
        return ;
    }
    if kling_video && (contains(p, "/text-to-video/") || contains(p, "/image-to-video/")) {
        proof {
            reveal_strlit("/");
        }
        let parts = split(p, "/");
        let suffix = parts[parts.len() - 1];
        assert(suffix@ == pieces(p@, "/"@).last());
        if suffix.is_empty() {
            return ;
        }
        let mut fresh = "/".to_owned();
        if upstream_body.has_array("contents") {
            fresh.append("image-to-video");
        } else {
            fresh.append("text-to-video");
        }
        fresh.append("/");
        fresh.append(suffix);
        resolved.upstream_path = fresh;
        return ;
    }
    if contains(p, "text2video") || contains(p, "image2video") || contains(p, "multi-image2video") {
        let fresh = if upstream_body.has_array("image_list") {
            "/v1/videos/multi-image2video"
        } else if upstream_body.has("image") || upstream_body.has("image_tail") {
            "/v1/videos/image2video"
        } else {
            "/v1/videos/text2video"
        };
        resolved.upstream_path = fresh.to_owned();
        return ;
    }
    if contains(p, "images") && upstream_body.has_array("subject_image_list") {
        resolved.upstream_path = "/v1/images/multi-image2image".to_owned();
    }
}

} // verus!
