//! What holds of the asset interfaces.
use vstd::prelude::*;
use vstd::string::*;
use crate::asset_client::{
    action_url, asset_endpoint, deletions, last_endpoint, reply_error, usable, BindingCredRow,
    BindingEndpoint, JobModel,
};
use crate::asset_profile::{
    envelope, failure_text, first_filled, list_result, listed_items, listed_total, method_named,
    new_name, path_keys, payload_of, sends_body, tells_failure, text_on_path, with_defaults,
    ActionSpec, ListSpec, Method, ResponseSpec,
};
use crate::json::{key_list, lists_keys, text_at, Jv};
use crate::text::{ascii_small, holds, shown, trimmed};
use crate::text_laws::{law_not_parted, law_pieces};

verus! {

/// An action goes to its endpoint by name, with the version of the interface.
pub proof fn law_action_url(endpoint: Seq<char>, action: Seq<char>)
    ensures
        !holds(endpoint, "?"@) ==> action_url(endpoint, action) == endpoint + "?"@ + "Action="@
            + action + "&Version="@ + "2024-01-01"@,
        holds(endpoint, "?"@) ==> action_url(endpoint, action) == endpoint + "&"@ + "Action="@
            + action + "&Version="@ + "2024-01-01"@,
{
}

/// An endpoint without a path of its own is the base without the slashes at
/// its end.
pub proof fn law_asset_endpoint(base: Seq<char>, path: Seq<char>, both: Seq<char>)
    ensures
        trimmed(path).len() == 0 && (base.len() == 0 || base.last() != '/') ==> asset_endpoint(
            base,
            path,
            both,
        ) == base,
        trimmed(path).len() == 0 ==> asset_endpoint(base + seq!['/'], path, both) == asset_endpoint(
            base,
            path,
            both,
        ),
        trimmed(path).len() > 0 ==> asset_endpoint(base, path, both) == both,
{
    assert((base + seq!['/']).drop_last() =~= base);
}

/// A reply is good where its status is and where it is JSON.
pub proof fn law_reply_error(status: int, text: Seq<char>)
    ensures
        200 <= status < 300 && crate::json::parsed_json(text) is Some ==> reply_error(status, text)
            is None,
        status < 200 || status >= 300 ==> reply_error(status, text) == Some(
            "上游素材接口错误: "@ + shown(status) + " - "@ + text,
        ),
        200 <= status < 300 && crate::json::parsed_json(text) is None ==> reply_error(status, text)
            is Some,
{
}

/// The endpoint of a binding is the last that is known of it.
pub proof fn law_last_endpoint(known: Seq<BindingEndpoint>, e: BindingEndpoint, id: int)
    ensures
        e.id == id ==> last_endpoint(known.push(e), id) == Some(known.len() as int),
        e.id != id ==> last_endpoint(known.push(e), id) == last_endpoint(known, id),
        last_endpoint(Seq::empty(), id) is None,
{
    assert(known.push(e).drop_last() =~= known);
}

/// A binding can be used where it has an address and a key.
pub proof fn law_usable(row: BindingCredRow, base: String, key: String)
    ensures
        row.base_url == Some(base) && row.api_key == Some(key) ==> (usable(row) <==> trimmed(
            base@,
        ).len() > 0 && trimmed(key@).len() > 0),
        row.base_url is None || row.api_key is None ==> !usable(row),
{
    assert(trimmed(Seq::<char>::empty()).len() == 0);
}

/// Deletions go job by job, and within a job in the order of its assets.
pub proof fn law_deletions(jobs: Seq<JobModel>, job: JobModel, i: int)
    requires
        0 <= i < job.asset_ids.len(),
    ensures
        deletions(jobs.push(job)).len() == deletions(jobs).len() + job.asset_ids.len(),
        deletions(jobs.push(job)).take(deletions(jobs).len() as int) == deletions(jobs),
        deletions(jobs.push(job))[deletions(jobs).len() + i] == (jobs.len() as int, i),
{
    assert(jobs.push(job).drop_last() =~= jobs);
    assert(deletions(jobs.push(job)).take(deletions(jobs).len() as int) =~= deletions(jobs));
}

// ---------------------------------------------------------------- profiles

/// A method is told by its word, whatever its letters; any other word posts.
pub proof fn law_method_named(word: Seq<char>)
    ensures
        ascii_small(word) == "get"@ ==> method_named(word) == Method::Get,
        ascii_small(word) == "put"@ ==> method_named(word) == Method::Put,
        ascii_small(word) == "delete"@ ==> method_named(word) == Method::Delete,
        ascii_small(word) == "patch"@ ==> method_named(word) == Method::Patch,
        ascii_small(word) != "get"@ && ascii_small(word) != "put"@ && ascii_small(word)
            != "delete"@ && ascii_small(word) != "patch"@ ==> method_named(word) == Method::Post,
{
    reveal_strlit("DELETE");
    reveal_strlit("GET");
    reveal_strlit("PATCH");
    reveal_strlit("PUT");
    reveal_strlit("delete");
    reveal_strlit("get");
    reveal_strlit("patch");
    reveal_strlit("put");
    assert("DELETE"@.len() == 6);
    assert("GET"@.len() == 3);
    assert("PATCH"@.len() == 5);
    assert("PUT"@.len() == 3);
    assert("delete"@.len() == 6);
    assert("get"@.len() == 3);
    assert("patch"@.len() == 5);
    assert("put"@.len() == 3);
    assert("DELETE"@[0] == 'D');
    assert("delete"@[0] == 'd');
    assert("GET"@[0] == 'G');
    assert("PUT"@[0] == 'P');
    assert("get"@[0] == 'g');
    assert("put"@[0] == 'p');
    assert("PATCH"@[0] == 'P');
    assert("patch"@[0] == 'p');
    assert(ascii_small("GET"@) =~= "get"@);
    assert(ascii_small("PUT"@) =~= "put"@);
    assert(ascii_small("DELETE"@) =~= "delete"@);
    assert(ascii_small("PATCH"@) =~= "patch"@);
}

/// Whether a body is sent: as the profile says, or else by the method.
pub proof fn law_sends_body(spec: ActionSpec)
    ensures
        spec.send_body matches Some(b) ==> sends_body(spec) == b,
        spec.send_body is None && (method_named(spec.method@) == Method::Get || method_named(
            spec.method@,
        ) == Method::Delete) ==> !sends_body(spec),
        spec.send_body is None && (method_named(spec.method@) == Method::Post || method_named(
            spec.method@,
        ) == Method::Put || method_named(spec.method@) == Method::Patch) ==> sends_body(spec),
{
}

/// What fills a name in a path is the first member that is not empty.
pub proof fn law_first_filled(v: Jv, key: Seq<char>, more: Seq<Seq<char>>, t: Seq<char>)
    ensures
        text_at(v, trimmed(key)) == Some(t) && t.len() > 0 ==> first_filled(v, seq![key] + more)
            == t,
        text_at(v, trimmed(key)) is None ==> first_filled(v, seq![key] + more) == first_filled(
            v,
            more,
        ),
        first_filled(v, Seq::empty()) == Seq::<char>::empty(),
{
    assert((seq![key] + more).drop_first() =~= more);
}

/// A member has the new name that the profile gives it, the first one; without
/// one it keeps its own.
pub proof fn law_new_name(from: String, to: String, more: Seq<(String, String)>, key: Seq<char>)
    ensures
        from@ == key ==> new_name(seq![(from, to)] + more, key) == to@,
        from@ != key ==> new_name(seq![(from, to)] + more, key) == new_name(more, key),
        new_name(Seq::empty(), key) == key,
{
    assert((seq![(from, to)] + more).drop_first() =~= more);
}

proof fn lemma_renamed(
    m: Map<Seq<char>, Jv>,
    keys: Seq<Seq<char>>,
    n: int,
    rename: Seq<(String, String)>,
    i: int,
)
    requires
        0 <= i < n <= keys.len(),
        forall|j: int|
            0 <= j < keys.len() && j != i ==> new_name(rename, #[trigger] keys[j]) != new_name(
                rename,
                keys[i],
            ),
    ensures
        crate::asset_profile::renamed_upto(m, keys, n, rename).contains_pair(
            new_name(rename, keys[i]),
            m[keys[i]],
        ),
    decreases n,
{
    if n - 1 > i {
        lemma_renamed(m, keys, n - 1, rename, i);
        assert(new_name(rename, keys[n - 1]) != new_name(rename, keys[i]));
    }
}

/// A member goes under its new name, where no other member goes there too.
pub proof fn law_renamed(
    m: Map<Seq<char>, Jv>,
    rename: Seq<(String, String)>,
    key: Seq<char>,
)
    requires
        lists_keys(key_list(m), m),
        m.dom().contains(key),
        forall|k: Seq<char>| #[trigger]
            m.dom().contains(k) && k != key ==> new_name(rename, k) != new_name(rename, key),
    ensures
        crate::asset_profile::renamed(m, rename).contains_pair(new_name(rename, key), m[key]),
{
    let keys = key_list(m);
    assert(keys.contains(key));
    let i = choose|i: int| 0 <= i < keys.len() && keys[i] == key;
    assert forall|j: int| 0 <= j < keys.len() && j != i implies new_name(
        rename,
        #[trigger] keys[j],
    ) != new_name(rename, keys[i]) by {
        assert(keys.contains(keys[j]));
        assert(m.dom().contains(keys[j]));
        lemma_keys_once(m, i, j);
    }
    lemma_renamed(m, keys, keys.len() as int, rename, i);
}

proof fn lemma_keys_once(m: Map<Seq<char>, Jv>, i: int, j: int)
    requires
        lists_keys(key_list(m), m),
        0 <= i < key_list(m).len(),
        0 <= j < key_list(m).len(),
        i != j,
    ensures
        key_list(m)[i] != key_list(m)[j],
{
}

/// A default holds where there is nothing, or a null.
pub proof fn law_with_defaults(
    m: Map<Seq<char>, Jv>,
    d: Map<Seq<char>, Jv>,
    key: Seq<char>,
    r: Map<Seq<char>, Jv>,
)
    requires
        r == with_defaults(m, d),
    ensures
        m.dom().contains(key) && !(m[key] is Null) ==> r.dom().contains(key) && r[key] == m[key],
        d.dom().contains(key) && (!m.dom().contains(key) || m[key] is Null) ==> r.dom().contains(
            key,
        ) && r[key] == d[key],
        r.dom().contains(key) <==> m.dom().contains(key) || d.dom().contains(key),
{
}

/// The keys of a path are its parts between the dots.
pub proof fn law_path_keys(a: Seq<char>, b: Seq<char>)
    requires
        a.len() > 0 && b.len() > 0,
        !a.contains('.') && !b.contains('.'),
    ensures
        path_keys(a) == seq![a],
        path_keys(a + seq!['.'] + b) == seq![a, b],
{
    reveal_strlit(".");
    assert("."@ =~= seq!['.']);
    law_not_parted(a, '.');
    law_not_parted(b, '.');
    law_pieces(a, '.', b);
    reveal_with_fuel(crate::asset_profile::not_empty, 4);
    assert(seq![a].drop_last() =~= Seq::<Seq<char>>::empty());
    let two = seq![a] + seq![b];
    assert(two =~= seq![a, b]);
    assert(two.drop_last() =~= seq![a]);
    assert(path_keys(a) =~= seq![a]);
    assert(path_keys(a + seq!['.'] + b) =~= seq![a, b]);
}

/// An answer tells of a failure where the path of success holds another value.
pub proof fn law_tells_failure(rs: ResponseSpec, upstream: Jv)
    ensures
        rs.ok_path@.len() == 0 ==> !tells_failure(rs, upstream),
        rs.ok_path@.len() > 0 ==> (tells_failure(rs, upstream) <==> text_on_path(
            upstream,
            rs.ok_path@,
        ) != rs.ok_value@),
        text_at(upstream, "message"@) matches Some(t) ==> failure_text(rs, upstream)
            == "上游业务错误("@ + rs.ok_path@ + "="@ + text_on_path(upstream, rs.ok_path@) + "): "@ + t,
        upstream.member("message"@) is None ==> (text_at(upstream, "error"@) matches Some(t)
            ==> failure_text(rs, upstream) == "上游业务错误("@ + rs.ok_path@ + "="@ + text_on_path(
            upstream,
            rs.ok_path@,
        ) + "): "@ + t),
{
}

/// The payload of an answer is its body, where the profile says so, and the
/// answer itself otherwise.
pub proof fn law_payload(rs: ResponseSpec, upstream: Jv, v: Jv)
    ensures
        rs.unwrap_body && upstream.member("body"@) == Some(v) ==> payload_of(rs, upstream) == v,
        rs.unwrap_body && upstream.member("body"@) is None ==> payload_of(rs, upstream) == Jv::Null,
        !rs.unwrap_body ==> payload_of(rs, upstream) == upstream,
{
}

/// A list goes back under its key with the number of all its items: what the
/// answer tells, or else how many came.
pub proof fn law_list_result(list: ListSpec, payload: Jv, r: Jv)
    requires
        r == list_result(list, payload),
        list.target_key@ != "TotalCount"@,
    ensures
        list.target_key@.len() > 0 ==> r.member(list.target_key@) == Some(
            Jv::Arr(listed_items(list, payload)),
        ),
        list.target_key@.len() == 0 ==> r.member("Items"@) == Some(
            Jv::Arr(listed_items(list, payload)),
        ),
        r.member("TotalCount"@) == Some(Jv::Int(listed_total(list, payload))),
        crate::asset_profile::deep(payload, path_keys(list.total_path@)) is None ==> listed_total(
            list,
            payload,
        ) == listed_items(list, payload).len(),
        crate::asset_profile::deep(payload, path_keys(list.total_path@)) matches Some(v) ==> (
        v.int64() matches Some(n) ==> listed_total(list, payload) == n),
{
    reveal_strlit("Items");
    reveal_strlit("TotalCount");
    assert("Items"@.len() == 5);
    assert("TotalCount"@.len() == 10);
}

/// The envelope of an answer names the action, the version, the service, the
/// region and the request.
pub proof fn law_envelope(action: Seq<char>, version: Seq<char>, id: Seq<char>, result: Jv, r: Jv)
    requires
        r == envelope(action, version, id, result),
    ensures
        r.member("Result"@) == Some(result),
        text_at(r.at("ResponseMetadata"@), "Action"@) == Some(action),
        text_at(r.at("ResponseMetadata"@), "Version"@) == Some(version),
        text_at(r.at("ResponseMetadata"@), "Service"@) == Some("ark"@),
        text_at(r.at("ResponseMetadata"@), "Region"@) == Some("cn-north-1"@),
        text_at(r.at("ResponseMetadata"@), "RequestId"@) == Some(id),
{
    reveal_strlit("Action");
    reveal_strlit("Region");
    reveal_strlit("RequestId");
    reveal_strlit("ResponseMetadata");
    reveal_strlit("Result");
    reveal_strlit("Service");
    reveal_strlit("Version");
    assert("Action"@.len() == 6);
    assert("Region"@.len() == 6);
    assert("RequestId"@.len() == 9);
    assert("ResponseMetadata"@.len() == 16);
    assert("Result"@.len() == 6);
    assert("Service"@.len() == 7);
    assert("Version"@.len() == 7);
    assert("Action"@[0] == 'A');
    assert("Region"@[0] == 'R');
    assert("Result"@[0] == 'R');
    assert("Region"@[2] == 'g');
    assert("Result"@[2] == 's');
    assert("Service"@[0] == 'S');
    assert("Version"@[0] == 'V');
}

} // verus!
