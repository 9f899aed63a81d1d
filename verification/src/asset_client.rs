//! The asset interface of an upstream channel: where it is called, what its
//! answers mean, and which assets are deleted in which order.
use vstd::prelude::*;
use vstd::string::*;
use crate::forward::{first_only, ints, keep_first};
use crate::json::{
    alike, find_pointer, is_plain_token, json_error, json_pointer, opt_string, parsed_json,
    read_error, single, stored_json, text_at, text_in, texts, value_of, value_view, Json, Jv,
};
use crate::text::{
    after_prefix, back_cut, contains, cut_back, decimal, holds, law_decimal_round_trip, parse_i64,
    same, show_i64, shown, strip_prefix, trim, trimmed,
};

verus! {

/// The version of the interface.
pub const ASSET_API_VERSION: &'static str = "2024-01-01";

/// What logs and assets name as their source.
pub const LOG_SOURCE: &'static str = "upstream_relay_convert";

/// The name of the plugin.
pub const PLUGIN_NAME: &'static str = "upstream_asset_relay";

/// How long to wait between two deletions, in milliseconds.
pub const UPSTREAM_DELETE_GAP_MS: u64 = 500;

/// The namespace of a binding.
pub open spec fn namespace(id: int) -> Seq<char> {
    "uar:"@ + shown(id)
}

/// Writes the namespace of a binding.
pub fn binding_ns(binding_id: i64) -> (r: String)
    ensures
        r@ == namespace(binding_id as int),
{
    let mut out = "uar:".to_owned();
    let id = show_i64(binding_id);
    out.append(id.as_str());
    out
}

/// The binding that a namespace belongs to.
pub open spec fn binding_of(ns: Seq<char>) -> Option<int> {
    match after_prefix(ns, "uar:"@) {
        Some(s) => match decimal(s, true, i64::MIN as int, i64::MAX as int) {
            Some(i) => if i > 0 {
                Some(i)
            } else {
                None
            },
            None => None,
        },
        None => None,
    }
}

/// Reads the binding that a namespace belongs to.
pub fn parse_binding_id_from_ns(plugin_ns: &str) -> (r: Option<i64>)
    ensures
        match r {
            Some(id) => binding_of(plugin_ns@) == Some(id as int),
            None => binding_of(plugin_ns@) is None,
        },
{
    match strip_prefix(plugin_ns, "uar:") {
        Some(s) => match parse_i64(s) {
            Some(i) => if i > 0 {
                Some(i)
            } else {
                None
            },
            None => None,
        },
        None => None,
    }
}

/// The namespace of a binding is read as that binding.
pub proof fn law_namespace_round_trip(id: i64)
    requires
        id > 0,
    ensures
        binding_of(namespace(id as int)) == Some(id as int),
{
    let ns = namespace(id as int);
    assert("uar:"@.is_prefix_of(ns)) by {
        assert(ns.take("uar:"@.len() as int) =~= "uar:"@);
    }
    assert(ns.skip("uar:"@.len() as int) =~= shown(id as int));
    law_decimal_round_trip(id as int, i64::MIN as int, i64::MAX as int);
}

/// Bindings have namespaces of their own.
pub proof fn law_namespaces_differ(a: i64, b: i64)
    requires
        a > 0,
        b > 0,
        a != b,
    ensures
        namespace(a as int) != namespace(b as int),
{
    law_namespace_round_trip(a);
    law_namespace_round_trip(b);
}

/// The address of an asset interface, given its base joined with its path:
/// without a path it is the base alone, without slashes at its end.
pub open spec fn asset_endpoint(base: Seq<char>, path: Seq<char>, base_and_path: Seq<char>) -> Seq<
    char,
> {
    if trimmed(path).len() == 0 {
        back_cut(base, '/')
    } else {
        base_and_path
    }
}

/// Makes the address of an asset interface. `joined` is the base joined with
/// the path, and not looked at where the path is blank.
pub fn build_asset_endpoint(base_url: &str, asset_base_path: &str, joined: &str) -> (r: String)
    ensures
        r@ == asset_endpoint(base_url@, asset_base_path@, joined@),
{
    if trim(asset_base_path).is_empty() {
        cut_back(base_url, '/').to_owned()
    } else {
        joined.to_owned()
    }
}

/// An address with the action and the version in its query.
pub open spec fn action_url(endpoint: Seq<char>, action: Seq<char>) -> Seq<char> {
    let sep = if holds(endpoint, "?"@) {
        "&"@
    } else {
        "?"@
    };
    endpoint + sep + "Action="@ + action + "&Version="@ + "2024-01-01"@
}

/// Puts the action and the version into the query of an address.
pub fn append_action_query(endpoint: &str, action: &str) -> (r: String)
    ensures
        r@ == action_url(endpoint@, action@),
{
    let sep = if contains(endpoint, "?") {
        "&"
    } else {
        "?"
    };
    let mut out = endpoint.to_owned();
    out.append(sep);
    out.append("Action=");
    out.append(action);
    out.append("&Version=");
    out.append(ASSET_API_VERSION);
    out
}

// ---------------------------------------------------------------- answers

/// A field of an answer: the text under `Result`, where the key is the rest of
/// a pointer, or else the text at the top.
pub open spec fn result_field(v: Jv, key: Seq<char>) -> Option<Seq<char>> {
    match text_in(json_pointer(stored_json(v), "/Result/"@ + key)) {
        Some(s) => Some(s),
        None => text_at(v, key),
    }
}

/// Reads a field of an answer. Under a key without slashes and tildes it is the
/// one of `Result` where that has a text there, and else the one at the top,
/// unless the answer or its `Result` is an array.
pub fn extract_result_field(value: &Json, key: &str) -> (r: Option<String>)
    ensures
        opt_string(r) == result_field(value@, key@),
        is_plain_token(key@) && value@ !is Arr && value@.at("Result"@) !is Arr ==> opt_string(r)
            == match text_at(value@.at("Result"@), key@) {
            Some(s) => Some(s),
            None => text_at(value@, key@),
        },
{
    let v = value_of(value);
    let mut pointer = "/Result/".to_owned();
    pointer.append(key);
    let found = find_pointer(&v, pointer.as_str());
    proof {
        let w = value_view(v);
        assert(alike(value@, w, 2));
        reveal_with_fuel(alike, 3);
        reveal_strlit("/Result/");
        reveal_strlit("/");
        reveal_strlit("Result");
        assert("/Result/"@ =~= "/"@ + "Result"@ + "/"@);
        assert("/Result/"@ + key@ =~= "/"@ + "Result"@ + "/"@ + key@);
        assert(is_plain_token("Result"@));
        assert(text_at(w.at("Result"@), key@) == text_at(value@.at("Result"@), key@));
    }
    match &found {
        Some(x) => match x.as_str() {
            Some(s) => {
                return Some(s.to_owned());
            },
            None => {},
        },
        None => {},
    }
    match value.get_str(key) {
        Some(s) => Some(s.to_owned()),
        None => None,
    }
}

/// What an answer of the interface means: a status outside 200 to 299 and a
/// text that is no JSON are errors.
pub open spec fn reply_error(status: int, text: Seq<char>) -> Option<Seq<char>> {
    if !(200 <= status < 300) {
        Some("上游素材接口错误: "@ + shown(status) + " - "@ + text)
    } else if parsed_json(text) is None {
        Some("解析上游素材响应失败: "@ + json_error(text) + " - "@ + text)
    } else {
        None
    }
}

/// Reads an answer of the interface.
pub fn read_reply(status_code: i32, text: &str) -> (r: Result<Json, String>)
    ensures
        match r {
            Ok(j) => reply_error(status_code as int, text@) is None && parsed_json(text@) == Some(
                j@,
            ),
            Err(e) => reply_error(status_code as int, text@) == Some(e@),
        },
{
    if status_code < 200 || status_code >= 300 {
        let mut e = "上游素材接口错误: ".to_owned();
        let code = show_i64(status_code as i64);
        e.append(code.as_str());
        e.append(" - ");
        e.append(text);
        return Err(e);
    }
    match Json::parse(text) {
        Some(j) => Ok(j),
        None => {
            let mut e = "解析上游素材响应失败: ".to_owned();
            match read_error(text) {
                Some(said) => {
                    e.append(said.as_str());
                },
                None => {},
            }
            e.append(" - ");
            e.append(text);
            Err(e)
        },
    }
}

// ---------------------------------------------------------------- bindings

/// What is stored of a binding and its channel.
#[derive(Debug)]
pub struct BindingCredRow {
    pub id: i64,
    pub asset_base_path: String,
    pub base_url: Option<String>,
    pub api_key: Option<String>,
}

/// Where a binding's interface is, and its key.
#[derive(Debug)]
pub struct BindingEndpoint {
    pub id: i64,
    pub endpoint: String,
    pub api_key: String,
}

/// A stored text that may be absent.
pub open spec fn stored(o: Option<String>) -> Seq<char> {
    match o {
        Some(s) => s@,
        None => Seq::empty(),
    }
}

/// Whether a binding can be used: it has an address and a key.
pub open spec fn usable(row: BindingCredRow) -> bool {
    trimmed(stored(row.base_url)).len() > 0 && trimmed(stored(row.api_key)).len() > 0
}

/// The interface of a binding that can be used.
pub open spec fn is_endpoint_of(e: BindingEndpoint, row: BindingCredRow, joined: Seq<char>) -> bool {
    &&& e.id == row.id
    &&& e.endpoint@ == asset_endpoint(stored(row.base_url), row.asset_base_path@, joined)
    &&& e.api_key@ == stored(row.api_key)
}

/// Finds the interface of a binding, if it can be used. `joined` is its base
/// address joined with its path.
pub fn binding_endpoint(row: &BindingCredRow, joined: &str) -> (r: Option<BindingEndpoint>)
    ensures
        match r {
            Some(e) => usable(*row) && is_endpoint_of(e, *row, joined@),
            None => !usable(*row),
        },
{
    proof {
        reveal_strlit("");
        assert(""@ =~= Seq::<char>::empty());
    }
    let base = match &row.base_url {
        Some(s) => s.as_str(),
        None => "",
    };
    let key = match &row.api_key {
        Some(s) => s.as_str(),
        None => "",
    };
    if trim(base).is_empty() || trim(key).is_empty() {
        None
    } else {
        Some(
            BindingEndpoint {
                id: row.id,
                endpoint: build_asset_endpoint(base, row.asset_base_path.as_str(), joined),
                api_key: key.to_owned(),
            },
        )
    }
}

/// The place of the interface of a binding: the last one that is known.
pub open spec fn last_endpoint(known: Seq<BindingEndpoint>, id: int) -> Option<int>
    decreases known.len(),
{
    if known.len() == 0 {
        None
    } else if known.last().id == id {
        Some(known.len() - 1)
    } else {
        last_endpoint(known.drop_last(), id)
    }
}

fn find_endpoint(known: &Vec<BindingEndpoint>, id: i64) -> (r: Option<usize>)
    ensures
        match r {
            Some(i) => last_endpoint(known@, id as int) == Some(i as int) && i < known@.len(),
            None => last_endpoint(known@, id as int) is None,
        },
{
    let mut n: usize = known.len();
    proof {
        assert(known@.take(n as int) =~= known@);
    }
    while n > 0
        invariant
            n <= known@.len(),
            last_endpoint(known@, id as int) == last_endpoint(known@.take(n as int), id as int),
        decreases n,
    {
        proof {
            assert(known@.take(n as int).drop_last() =~= known@.take(n - 1));
        }
        if known[n - 1].id == id {
            return Some(n - 1);
        }
        n -= 1;
    }
    None
}

// ---------------------------------------------------------------- deletions

/// An asset that is to be deleted: its identifier and its namespace.
pub struct AssetItem {
    pub asset_id: String,
    pub plugin_ns: String,
}

/// The assets of one namespace that are to be deleted.
pub struct UpstreamDeleteJob {
    pub binding_id: i64,
    pub plugin_ns: String,
    pub endpoint: String,
    pub api_key: String,
    pub asset_ids: Vec<String>,
}

/// The text that is put into a list where it is not yet.
pub open spec fn added(s: Seq<Seq<char>>, x: Seq<char>) -> Seq<Seq<char>> {
    if s.contains(x) {
        s
    } else {
        s.push(x)
    }
}

/// The namespaces of the assets that have an identifier, each once, in the
/// order in which they come.
pub open spec fn namespaces(items: Seq<AssetItem>) -> Seq<Seq<char>>
    decreases items.len(),
{
    if items.len() == 0 {
        Seq::empty()
    } else {
        let done = namespaces(items.drop_last());
        if items.last().asset_id@.len() > 0 {
            added(done, items.last().plugin_ns@)
        } else {
            done
        }
    }
}

/// The identifiers of the assets of a namespace, each once, in the order in
/// which they come.
pub open spec fn ids_in(items: Seq<AssetItem>, ns: Seq<char>) -> Seq<Seq<char>>
    decreases items.len(),
{
    if items.len() == 0 {
        Seq::empty()
    } else {
        let done = ids_in(items.drop_last(), ns);
        if items.last().asset_id@.len() > 0 && items.last().plugin_ns@ == ns {
            added(done, items.last().asset_id@)
        } else {
            done
        }
    }
}

/// The bindings of namespaces, where they have one.
pub open spec fn bindings(spaces: Seq<Seq<char>>) -> Seq<int>
    decreases spaces.len(),
{
    if spaces.len() == 0 {
        Seq::empty()
    } else {
        let done = bindings(spaces.drop_last());
        match binding_of(spaces.last()) {
            Some(id) => done.push(id),
            None => done,
        }
    }
}

/// A job as a mathematical value.
pub struct JobModel {
    pub binding_id: int,
    pub plugin_ns: Seq<char>,
    pub endpoint: Seq<char>,
    pub api_key: Seq<char>,
    pub asset_ids: Seq<Seq<char>>,
}

impl View for UpstreamDeleteJob {
    type V = JobModel;

    open spec fn view(&self) -> JobModel {
        JobModel {
            binding_id: self.binding_id as int,
            plugin_ns: self.plugin_ns@,
            endpoint: self.endpoint@,
            api_key: self.api_key@,
            asset_ids: texts(self.asset_ids@),
        }
    }
}

pub open spec fn job_views(s: Seq<UpstreamDeleteJob>) -> Seq<JobModel> {
    s.map_values(|j: UpstreamDeleteJob| j@)
}

/// The job of a namespace, where it has a binding whose interface is known.
pub open spec fn job_of(
    items: Seq<AssetItem>,
    known: Seq<BindingEndpoint>,
    ns: Seq<char>,
) -> Option<JobModel> {
    match binding_of(ns) {
        Some(id) => match last_endpoint(known, id) {
            Some(i) => Some(
                JobModel {
                    binding_id: id,
                    plugin_ns: ns,
                    endpoint: known[i].endpoint@,
                    api_key: known[i].api_key@,
                    asset_ids: ids_in(items, ns),
                },
            ),
            None => None,
        },
        None => None,
    }
}

/// The jobs of some namespaces.
pub open spec fn jobs_of(
    items: Seq<AssetItem>,
    known: Seq<BindingEndpoint>,
    spaces: Seq<Seq<char>>,
) -> Seq<JobModel>
    decreases spaces.len(),
{
    if spaces.len() == 0 {
        Seq::empty()
    } else {
        let done = jobs_of(items, known, spaces.drop_last());
        match job_of(items, known, spaces.last()) {
            Some(j) => done.push(j),
            None => done,
        }
    }
}

fn among(s: &Vec<String>, x: &str) -> (r: bool)
    ensures
        r == texts(s@).contains(x@),
{
    let mut i: usize = 0;
    while i < s.len()
        invariant
            i <= s@.len(),
            forall|j: int| 0 <= j < i ==> #[trigger] texts(s@)[j] != x@,
        decreases s@.len() - i,
    {
        if same(s[i].as_str(), x) {
            assert(texts(s@)[i as int] == x@);
            return true;
        }
        assert(texts(s@)[i as int] == s@[i as int]@);
        i += 1;
    }
    false
}

fn put(s: &mut Vec<String>, x: &str)
    ensures
        texts(final(s)@) == added(texts(old(s)@), x@),
{
    if !among(s, x) {
        let ghost before = s@;
        s.push(x.to_owned());
        proof {
            assert(texts(s@) =~= texts(before).push(x@));
        }
    }
}

fn list_namespaces(items: &Vec<AssetItem>) -> (r: Vec<String>)
    ensures
        texts(r@) == namespaces(items@),
{
    let mut out: Vec<String> = Vec::new();
    let mut i: usize = 0;
    proof {
        assert(items@.take(0) =~= Seq::<AssetItem>::empty());
        assert(texts(out@) =~= Seq::<Seq<char>>::empty());
    }
    while i < items.len()
        invariant
            i <= items@.len(),
            texts(out@) == namespaces(items@.take(i as int)),
        decreases items@.len() - i,
    {
        proof {
            assert(items@.take(i + 1).drop_last() =~= items@.take(i as int));
        }
        if !items[i].asset_id.as_str().is_empty() {
            put(&mut out, items[i].plugin_ns.as_str());
        }
        i += 1;
    }
    proof {
        assert(items@.take(i as int) =~= items@);
    }
    out
}

fn list_ids(items: &Vec<AssetItem>, ns: &str) -> (r: Vec<String>)
    ensures
        texts(r@) == ids_in(items@, ns@),
{
    let mut out: Vec<String> = Vec::new();
    let mut i: usize = 0;
    proof {
        assert(items@.take(0) =~= Seq::<AssetItem>::empty());
        assert(texts(out@) =~= Seq::<Seq<char>>::empty());
    }
    while i < items.len()
        invariant
            i <= items@.len(),
            texts(out@) == ids_in(items@.take(i as int), ns@),
        decreases items@.len() - i,
    {
        proof {
            assert(items@.take(i + 1).drop_last() =~= items@.take(i as int));
        }
        if !items[i].asset_id.as_str().is_empty() && same(items[i].plugin_ns.as_str(), ns) {
            put(&mut out, items[i].asset_id.as_str());
        }
        i += 1;
    }
    proof {
        assert(items@.take(i as int) =~= items@);
    }
    out
}

/// The bindings whose interfaces have to be known before the assets can be
/// deleted, each once.
pub fn needed_bindings(items: &Vec<AssetItem>) -> (r: Vec<i64>)
    ensures
        ints(r@) == first_only(bindings(namespaces(items@))),
{
    let spaces = list_namespaces(items);
    let ghost all = texts(spaces@);
    let mut out: Vec<i64> = Vec::new();
    let mut i: usize = 0;
    proof {
        assert(all.take(0) =~= Seq::<Seq<char>>::empty());
        assert(ints(out@) =~= Seq::<int>::empty());
    }
    while i < spaces.len()
        invariant
            i <= spaces@.len(),
            all == texts(spaces@),
            ints(out@) == bindings(all.take(i as int)),
        decreases spaces@.len() - i,
    {
        proof {
            assert(all.take(i + 1).drop_last() =~= all.take(i as int));
            assert(all.take(i + 1).last() == spaces@[i as int]@);
        }
        match parse_binding_id_from_ns(spaces[i].as_str()) {
            Some(id) => {
                let ghost before = out@;
                out.push(id);
                proof {
                    assert(ints(out@) =~= ints(before).push(id as int));
                }
            },
            None => {},
        }
        i += 1;
    }
    proof {
        assert(all.take(i as int) =~= all);
    }
    keep_first(&out)
}

/// Prepares the deletion of assets: one job for each namespace whose binding
/// has a known interface.
pub fn prepare_delete_jobs(items: &Vec<AssetItem>, known: &Vec<BindingEndpoint>) -> (r: Vec<
    UpstreamDeleteJob,
>)
    ensures
        job_views(r@) == jobs_of(items@, known@, namespaces(items@)),
{
    let spaces = list_namespaces(items);
    let ghost all = texts(spaces@);
    let mut out: Vec<UpstreamDeleteJob> = Vec::new();
    let mut i: usize = 0;
    proof {
        assert(all.take(0) =~= Seq::<Seq<char>>::empty());
        assert(job_views(out@) =~= Seq::<JobModel>::empty());
    }
    while i < spaces.len()
        invariant
            i <= spaces@.len(),
            all == texts(spaces@),
            job_views(out@) == jobs_of(items@, known@, all.take(i as int)),
        decreases spaces@.len() - i,
    {
        let ns = spaces[i].as_str();
        proof {
            assert(all.take(i + 1).drop_last() =~= all.take(i as int));
            assert(all.take(i + 1).last() == ns@);
        }
        match parse_binding_id_from_ns(ns) {
            Some(id) => match find_endpoint(known, id) {
                Some(k) => {
                    let ghost before = out@;
                    let job = UpstreamDeleteJob {
                        binding_id: id,
                        plugin_ns: ns.to_owned(),
                        endpoint: known[k].endpoint.clone(),
                        api_key: known[k].api_key.clone(),
                        asset_ids: list_ids(items, ns),
                    };
                    out.push(job);
                    proof {
                        assert(job_views(out@) =~= job_views(before).push(job@));
                    }
                },
                None => {},
            },
            None => {},
        }
        i += 1;
    }
    proof {
        assert(all.take(i as int) =~= all);
    }
    out
}

proof fn lemma_namespaces(items: Seq<AssetItem>, i: int)
    requires
        0 <= i < items.len(),
        items[i].asset_id@.len() > 0,
    ensures
        namespaces(items).contains(items[i].plugin_ns@),
        ids_in(items, items[i].plugin_ns@).contains(items[i].asset_id@),
    decreases items.len(),
{
    let ns = items[i].plugin_ns@;
    let before = items.drop_last();
    lemma_added(namespaces(before), items.last().plugin_ns@);
    lemma_added(ids_in(before, ns), items.last().asset_id@);
    if i < items.len() - 1 {
        assert(before[i] == items[i]);
        lemma_namespaces(before, i);
    }
}

proof fn lemma_added(s: Seq<Seq<char>>, x: Seq<char>)
    ensures
        added(s, x).contains(x),
        forall|y: Seq<char>| #[trigger] s.contains(y) ==> added(s, x).contains(y),
        forall|y: Seq<char>| #[trigger] added(s, x).contains(y) ==> s.contains(y) || y == x,
        s.no_duplicates() ==> added(s, x).no_duplicates(),
{
    if !s.contains(x) {
        assert(s.push(x)[s.len() as int] == x);
        assert forall|y: Seq<char>| #[trigger] s.contains(y) implies s.push(x).contains(y) by {
            let i = choose|i: int| 0 <= i < s.len() && s[i] == y;
            assert(s.push(x)[i] == y);
        }
        assert forall|y: Seq<char>| #[trigger] s.push(x).contains(y) implies s.contains(y) || y
            == x by {
            let i = choose|i: int| 0 <= i < s.push(x).len() && s.push(x)[i] == y;
            if i < s.len() {
                assert(s[i] == y);
            }
        }
    }
}

proof fn lemma_once(items: Seq<AssetItem>, ns: Seq<char>)
    ensures
        namespaces(items).no_duplicates(),
        ids_in(items, ns).no_duplicates(),
        forall|id: Seq<char>| #[trigger]
            ids_in(items, ns).contains(id) ==> exists|i: int|
                0 <= i < items.len() && (#[trigger] items[i]).asset_id@ == id && items[i].plugin_ns@
                    == ns && id.len() > 0,
    decreases items.len(),
{
    if items.len() > 0 {
        let before = items.drop_last();
        lemma_once(before, ns);
        lemma_added(namespaces(before), items.last().plugin_ns@);
        lemma_added(ids_in(before, ns), items.last().asset_id@);
        assert forall|id: Seq<char>| #[trigger] ids_in(items, ns).contains(id) implies exists|
            i: int,
        |
            0 <= i < items.len() && (#[trigger] items[i]).asset_id@ == id && items[i].plugin_ns@
                == ns && id.len() > 0 by {
            if ids_in(before, ns).contains(id) {
                let i = choose|i: int|
                    0 <= i < before.len() && (#[trigger] before[i]).asset_id@ == id
                        && before[i].plugin_ns@ == ns && id.len() > 0;
                assert(items[i] == before[i]);
            } else {
                assert(items[items.len() - 1] == items.last());
            }
        }
    }
}

proof fn lemma_jobs(
    items: Seq<AssetItem>,
    known: Seq<BindingEndpoint>,
    spaces: Seq<Seq<char>>,
)
    requires
        spaces.no_duplicates(),
    ensures
        forall|j: int|
            0 <= j < jobs_of(items, known, spaces).len() ==> spaces.contains(
                (#[trigger] jobs_of(items, known, spaces)[j]).plugin_ns,
            ) && job_of(items, known, jobs_of(items, known, spaces)[j].plugin_ns) == Some(
                jobs_of(items, known, spaces)[j],
            ),
        forall|j: int, k: int|
            0 <= j < k < jobs_of(items, known, spaces).len() ==> (#[trigger] jobs_of(
                items,
                known,
                spaces,
            )[j]).plugin_ns != (#[trigger] jobs_of(items, known, spaces)[k]).plugin_ns,
        forall|ns: Seq<char>| #[trigger]
            spaces.contains(ns) && job_of(items, known, ns) is Some ==> jobs_of(
                items,
                known,
                spaces,
            ).contains(job_of(items, known, ns)->Some_0),
    decreases spaces.len(),
{
    if spaces.len() > 0 {
        let before = spaces.drop_last();
        let last = spaces.last();
        let done = jobs_of(items, known, before);
        let all = jobs_of(items, known, spaces);
        lemma_jobs(items, known, before);
        assert(!before.contains(last)) by {
            if before.contains(last) {
                let i = choose|i: int| 0 <= i < before.len() && before[i] == last;
                assert(spaces[i] == spaces[spaces.len() - 1]);
            }
        }
        assert(spaces[spaces.len() - 1] == last);
        assert forall|ns: Seq<char>| #[trigger] before.contains(ns) implies spaces.contains(ns) by {
            let i = choose|i: int| 0 <= i < before.len() && before[i] == ns;
            assert(spaces[i] == ns);
        }
        assert forall|j: int| 0 <= j < done.len() implies #[trigger] all[j] == done[j] by {}
        assert forall|ns: Seq<char>| #[trigger]
            spaces.contains(ns) && job_of(items, known, ns) is Some implies all.contains(
            job_of(items, known, ns)->Some_0,
        ) by {
            let job = job_of(items, known, ns)->Some_0;
            if ns == last {
                assert(all[all.len() - 1] == job);
            } else {
                let i = choose|i: int| 0 <= i < spaces.len() && spaces[i] == ns;
                assert(before[i] == ns);
                assert(before.contains(ns));
                assert(done.contains(job));
                let k = choose|k: int| 0 <= k < done.len() && done[k] == job;
                assert(all[k] == job);
            }
        }
    }
}

/// Every asset with an identifier whose namespace has a binding with a known
/// interface is in a job, and in the job of its own namespace.
pub proof fn law_jobs_cover(items: Seq<AssetItem>, known: Seq<BindingEndpoint>, i: int)
    requires
        0 <= i < items.len(),
        items[i].asset_id@.len() > 0,
        job_of(items, known, items[i].plugin_ns@) is Some,
    ensures
        ({
            let jobs = jobs_of(items, known, namespaces(items));
            exists|j: int|
                0 <= j < jobs.len() && (#[trigger] jobs[j]).plugin_ns == items[i].plugin_ns@
                    && jobs[j].asset_ids.contains(items[i].asset_id@)
        }),
{
    let ns = items[i].plugin_ns@;
    lemma_once(items, ns);
    lemma_namespaces(items, i);
    lemma_jobs(items, known, namespaces(items));
    let jobs = jobs_of(items, known, namespaces(items));
    let job = job_of(items, known, ns)->Some_0;
    assert(jobs.contains(job));
    let j = choose|j: int| 0 <= j < jobs.len() && jobs[j] == job;
    assert(jobs[j].plugin_ns == ns);
}

/// Each asset is deleted only once, only in its own namespace, and only if it
/// was asked for: no two jobs share a namespace, no job names an asset twice,
/// and each asset of a job is among those of its namespace.
pub proof fn law_jobs_sound(items: Seq<AssetItem>, known: Seq<BindingEndpoint>, j: int, k: int)
    requires
        0 <= j < jobs_of(items, known, namespaces(items)).len(),
        0 <= k < jobs_of(items, known, namespaces(items)).len(),
    ensures
        ({
            let jobs = jobs_of(items, known, namespaces(items));
            &&& j != k ==> jobs[j].plugin_ns != jobs[k].plugin_ns
            &&& jobs[j].asset_ids.no_duplicates()
            &&& binding_of(jobs[j].plugin_ns) == Some(jobs[j].binding_id)
            &&& forall|id: Seq<char>| #[trigger]
                jobs[j].asset_ids.contains(id) ==> exists|i: int|
                    0 <= i < items.len() && (#[trigger] items[i]).asset_id@ == id
                        && items[i].plugin_ns@ == jobs[j].plugin_ns && id.len() > 0
        }),
{
    let jobs = jobs_of(items, known, namespaces(items));
    lemma_once(items, jobs[j].plugin_ns);
    lemma_jobs(items, known, namespaces(items));
    assert(job_of(items, known, jobs[j].plugin_ns) == Some(jobs[j]));
    if j < k {
        assert(jobs[j].plugin_ns != jobs[k].plugin_ns);
    } else if k < j {
        assert(jobs[k].plugin_ns != jobs[j].plugin_ns);
    }
}

// ---------------------------------------------------------------- running the deletions

/// A deletion: which job it belongs to, and which of the job's assets it is.
#[derive(Clone, Copy, Debug, PartialEq, Eq)]
pub struct Deletion {
    pub job: usize,
    pub asset: usize,
}

/// The deletions of the first `n` assets of a job.
pub open spec fn deletions_in(job: int, n: int) -> Seq<(int, int)> {
    Seq::new(n as nat, |i: int| (job, i))
}

/// All deletions of some jobs, one job after the other.
pub open spec fn deletions(jobs: Seq<JobModel>) -> Seq<(int, int)>
    decreases jobs.len(),
{
    if jobs.len() == 0 {
        Seq::empty()
    } else {
        deletions(jobs.drop_last()) + deletions_in(
            jobs.len() - 1,
            jobs.last().asset_ids.len() as int,
        )
    }
}

pub open spec fn deletion_views(s: Seq<Deletion>) -> Seq<(int, int)> {
    s.map_values(|d: Deletion| (d.job as int, d.asset as int))
}

/// Lists all deletions of some jobs in their order.
pub fn plan_deletions(jobs: &Vec<UpstreamDeleteJob>) -> (r: Vec<Deletion>)
    ensures
        deletion_views(r@) == deletions(job_views(jobs@)),
{
    let ghost all = job_views(jobs@);
    let mut out: Vec<Deletion> = Vec::new();
    let mut j: usize = 0;
    proof {
        assert(all.take(0) =~= Seq::<JobModel>::empty());
        assert(deletion_views(out@) =~= Seq::<(int, int)>::empty());
    }
    while j < jobs.len()
        invariant
            j <= jobs@.len(),
            all == job_views(jobs@),
            deletion_views(out@) == deletions(all.take(j as int)),
        decreases jobs@.len() - j,
    {
        let ghost start = deletion_views(out@);
        let mut i: usize = 0;
        proof {
            assert(start + deletions_in(j as int, 0) =~= start);
        }
        while i < jobs[j].asset_ids.len()
            invariant
                j < jobs@.len(),
                i <= jobs@[j as int].asset_ids@.len(),
                deletion_views(out@) == start + deletions_in(j as int, i as int),
            decreases jobs@[j as int].asset_ids@.len() - i,
        {
            let ghost before = out@;
            out.push(Deletion { job: j, asset: i });
            proof {
                assert(deletion_views(out@) =~= deletion_views(before).push((j as int, i as int)));
                assert(deletions_in(j as int, i + 1) =~= deletions_in(j as int, i as int).push(
                    (j as int, i as int),
                ));
                assert(deletion_views(out@) =~= start + deletions_in(j as int, i + 1));
            }
            i += 1;
        }
        proof {
            assert(all.take(j + 1).drop_last() =~= all.take(j as int));
            assert(all.take(j + 1).last() == jobs@[j as int]@);
        }
        j += 1;
    }
    proof {
        assert(all.take(j as int) =~= all);
    }
    out
}

/// How far a run of deletions has come.
#[derive(Clone, Copy, Debug, PartialEq, Eq)]
pub struct DeleteRun {
    /// How many deletions were asked for.
    pub done: usize,
    /// Whether the upstream wants no more requests for now.
    pub limited: bool,
}

/// What a run of deletions does next.
#[derive(Clone, Copy, Debug, PartialEq, Eq)]
pub enum DeleteStep {
    /// Nothing: all is done, or the upstream wants no more requests.
    Finished(bool),
    /// Waits so many milliseconds, then asks for a deletion.
    Delete(u64, Deletion),
}

/// What a run does next: nothing once the upstream wants no more requests or
/// all is done, and else the next deletion, with a pause before all but the
/// first.
pub open spec fn following_step(run: DeleteRun, plan: Seq<Deletion>) -> DeleteStep {
    if run.limited {
        DeleteStep::Finished(true)
    } else if run.done >= plan.len() {
        DeleteStep::Finished(false)
    } else {
        DeleteStep::Delete(
            if run.done == 0 {
                0
            } else {
                UPSTREAM_DELETE_GAP_MS
            },
            plan[run.done as int],
        )
    }
}

impl DeleteRun {
    pub fn start() -> (r: DeleteRun)
        ensures
            r == (DeleteRun { done: 0, limited: false }),
    {
        DeleteRun { done: 0, limited: false }
    }

    /// Says what the run does next.
    pub fn next_step(&self, plan: &Vec<Deletion>) -> (r: DeleteStep)
        ensures
            r == following_step(*self, plan@),
    {
        if self.limited {
            DeleteStep::Finished(true)
        } else if self.done >= plan.len() {
            DeleteStep::Finished(false)
        } else {
            let wait: u64 = if self.done == 0 {
                0
            } else {
                UPSTREAM_DELETE_GAP_MS
            };
            DeleteStep::Delete(wait, plan[self.done])
        }
    }

    /// Takes note of a deletion that was asked for, and of whether the
    /// upstream then wanted no more requests.
    pub fn record(&mut self, rate_limited: bool)
        requires
            old(self).done < usize::MAX,
        ensures
            *final(self) == (DeleteRun {
                done: (old(self).done + 1) as usize,
                limited: rate_limited || old(self).limited,
            }),
    {
        self.done = self.done + 1;
        if rate_limited {
            self.limited = true;
        }
    }
}

/// The body of the request that deletes an asset.
pub fn delete_body(asset_id: &str) -> (r: Json)
    ensures
        r@ == single("Id"@, Jv::Str(asset_id@)),
{
    Json::empty().with("Id", Json::text(asset_id))
}

/// A run asks for the deletions in their order, each once: after `n` of them,
/// with no limit met, the next is the one in place `n`. Once a limit was met it
/// asks for none.
pub proof fn law_run_in_order(plan: Seq<Deletion>, n: usize)
    ensures
        n < plan.len() ==> following_step(DeleteRun { done: n, limited: false }, plan)
            == DeleteStep::Delete(
            if n == 0 {
                0
            } else {
                UPSTREAM_DELETE_GAP_MS
            },
            plan[n as int],
        ),
        n >= plan.len() ==> following_step(DeleteRun { done: n, limited: false }, plan)
            == DeleteStep::Finished(false),
        following_step(DeleteRun { done: n, limited: true }, plan) == DeleteStep::Finished(true),
{
}

} // verus!
