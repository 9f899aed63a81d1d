//! Descriptions of asset interfaces: how a request in the format of the
//! clients becomes one for the upstream, and how the upstream's answer goes
//! back into the envelope that the clients expect.
use vstd::prelude::*;
use vstd::string::*;
use crate::json::{
    copy_items, copy_members, filled_text_at, items_in, key_list, lists_keys, members_in, opt_str,
    opt_view, or_get, or_member, single, text_in, text_or, texts, views, Json, JsonMap, Jv,
};
use crate::text::{
    ascii_small, lemma_precedes_strict, pieces, replace, replaced, same, same_ignore_case, split,
    trim, trimmed,
};

verus! {

/// How an upstream's list goes back into the envelope.
#[derive(Debug)]
pub struct ListSpec {
    /// The path of the items.
    pub items_path: String,
    /// The field of an item that holds its identifier.
    pub item_id_field: String,
    /// The path of the number of all items.
    pub total_path: String,
    /// The key of the items in the envelope.
    pub target_key: String,
}

/// How an upstream's answer goes back into the envelope.
#[derive(Debug)]
pub struct ResponseSpec {
    /// Whether the payload stands under `body`.
    pub unwrap_body: bool,
    /// The path of the field that tells of success.
    pub ok_path: String,
    /// What stands there on success.
    pub ok_value: String,
    /// The path of the identifier of what was created; `$` for the payload
    /// itself.
    pub id_path: String,
    /// How a list goes back, for actions that list.
    pub list: Option<ListSpec>,
    /// Whether the payload goes back as it is; so it does wherever nothing
    /// else is said.
    pub raw_result: bool,
}

/// How one action is requested and answered.
#[derive(Debug)]
pub struct ActionSpec {
    /// The HTTP method.
    pub method: String,
    /// The path, with names in braces to be filled in.
    pub path: String,
    /// Members that every request has.
    pub inject: JsonMap,
    /// Members that a request has where it has no others under their keys.
    pub defaults: JsonMap,
    /// New names of members.
    pub rename: Vec<(String, String)>,
    /// The only members that are sent; all of them where this is empty.
    pub keep: Vec<String>,
    /// Members that are not sent.
    pub drop: Vec<String>,
    /// Whether a body is sent; the method decides where nothing is said.
    pub send_body: Option<bool>,
    /// For each name in the path, the members that may fill it.
    pub path_params: Vec<(String, String)>,
    pub response: ResponseSpec,
}

/// The description of an asset interface.
#[derive(Debug)]
pub struct AssetApiProfile {
    /// The actions, each with its name.
    pub actions: Vec<(String, ActionSpec)>,
    /// The names of actions that are not to be had.
    pub unsupported: Vec<String>,
}

/// The method of an action that names none.
pub fn default_method() -> (r: String)
    ensures
        r@ == "POST"@,
{
    "POST".to_owned()
}

impl AssetApiProfile {
    /// The text that describes an interface, as far as there is one.
    pub fn source(raw: &str) -> (r: Option<&str>)
        ensures
            r is Some == (trimmed(raw@).len() > 0),
            r is Some ==> r->Some_0@ == trimmed(raw@),
    {
        let text = trim(raw);
        if text.is_empty() {
            None
        } else {
            Some(text)
        }
    }

    /// Whether an action is named as one that is not to be had.
    pub fn is_unsupported(&self, action: &str) -> (r: bool)
        ensures
            r == texts(self.unsupported@).contains(action@),
    {
        let mut i: usize = 0;
        while i < self.unsupported.len()
            invariant
                i <= self.unsupported@.len(),
                forall|j: int|
                    0 <= j < i ==> #[trigger] texts(self.unsupported@)[j] != action@,
            decreases self.unsupported@.len() - i,
        {
            if same(self.unsupported[i].as_str(), action) {
                assert(texts(self.unsupported@)[i as int] == action@);
                return true;
            }
            assert(texts(self.unsupported@)[i as int] == self.unsupported@[i as int]@);
            i += 1;
        }
        false
    }
}

// ---------------------------------------------------------------- paths into values

/// The texts that are not empty.
pub open spec fn not_empty(s: Seq<Seq<char>>) -> Seq<Seq<char>>
    decreases s.len(),
{
    if s.len() == 0 {
        Seq::empty()
    } else {
        let done = not_empty(s.drop_last());
        if s.last().len() > 0 {
            done.push(s.last())
        } else {
            done
        }
    }
}

/// The keys of a path: its parts between dots that are not empty.
pub open spec fn path_keys(path: Seq<char>) -> Seq<Seq<char>> {
    not_empty(pieces(path, "."@))
}

/// What stands at the end of a list of keys.
pub open spec fn deep(v: Jv, keys: Seq<Seq<char>>) -> Option<Jv>
    decreases keys.len(),
{
    if keys.len() == 0 {
        Some(v)
    } else {
        match v.member(keys[0]) {
            Some(x) => deep(x, keys.drop_first()),
            None => None,
        }
    }
}

/// An object: the value itself if it is one, or else an empty one.
pub open spec fn as_members(v: Option<Jv>) -> Map<Seq<char>, Jv> {
    match v {
        Some(Jv::Obj(m)) => m,
        _ => Map::empty(),
    }
}

/// A value with another at the end of a list of keys. Objects take the place
/// of what else stands on the way there; what is no object has no members.
pub open spec fn with_deep(v: Jv, keys: Seq<Seq<char>>, x: Jv) -> Jv
    decreases keys.len(),
{
    if keys.len() == 0 {
        v
    } else if keys.len() == 1 {
        match v {
            Jv::Obj(m) => Jv::Obj(m.insert(keys[0], x)),
            _ => v,
        }
    } else {
        let m = as_members(Some(v));
        let inner = Jv::Obj(as_members(Jv::Obj(m).member(keys[0])));
        Jv::Obj(m.insert(keys[0], with_deep(inner, keys.drop_first(), x)))
    }
}

fn keys_of(path: &str) -> (r: Vec<&str>)
    ensures
        r@.map_values(|t: &str| t@) == path_keys(path@),
{
    proof {
        reveal_strlit(".");
    }
    let parts = split(path, ".");
    let ghost all = parts@.map_values(|t: &str| t@);
    let mut out: Vec<&str> = Vec::new();
    let mut i: usize = 0;
    proof {
        assert(all.take(0) =~= Seq::<Seq<char>>::empty());
        assert(out@.map_values(|t: &str| t@) =~= not_empty(all.take(0)));
    }
    while i < parts.len()
        invariant
            i <= parts@.len(),
            all == parts@.map_values(|t: &str| t@),
            out@.map_values(|t: &str| t@) == not_empty(all.take(i as int)),
        decreases parts@.len() - i,
    {
        let ghost before = out@;
        proof {
            assert(all.take(i + 1).drop_last() =~= all.take(i as int));
            assert(all.take(i + 1).last() == parts@[i as int]@);
        }
        if !parts[i].is_empty() {
            out.push(parts[i]);
            proof {
                assert(out@.map_values(|t: &str| t@) =~= before.map_values(|t: &str| t@).push(
                    parts@[i as int]@,
                ));
            }
        }
        i += 1;
    }
    proof {
        assert(all.take(i as int) =~= all);
    }
    out
}

/// Reads what stands at a path: keys with dots between them.
pub fn path_get<'a>(v: &'a Json, path: &str) -> (r: Option<&'a Json>)
    ensures
        opt_view(r) == deep(v@, path_keys(path@)),
{
    let keys = keys_of(path);
    let ghost all = keys@.map_values(|t: &str| t@);
    let mut cur = v;
    let mut i: usize = 0;
    proof {
        assert(all.skip(0) =~= all);
    }
    while i < keys.len()
        invariant
            i <= keys@.len(),
            all == keys@.map_values(|t: &str| t@),
            all == path_keys(path@),
            deep(v@, all) == deep(cur@, all.skip(i as int)),
        decreases keys@.len() - i,
    {
        proof {
            assert(all.skip(i as int).drop_first() =~= all.skip(i + 1));
            assert(all.skip(i as int)[0] == keys@[i as int]@);
        }
        match cur.get(keys[i]) {
            Some(x) => {
                cur = x;
            },
            None => {
                return None;
            },
        }
        i += 1;
    }
    Some(cur)
}

fn set_deep(v: Json, keys: &Vec<&str>, from: usize, x: Json) -> (r: Json)
    requires
        from <= keys@.len(),
    ensures
        r@ == with_deep(v@, keys@.map_values(|t: &str| t@).skip(from as int), x@),
    decreases keys@.len() - from,
{
    let ghost rest = keys@.map_values(|t: &str| t@).skip(from as int);
    let n: usize = keys.len() - from;
    if n == 0 {
        return v;
    }
    assert(rest[0] == keys@[from as int]@);
    if n == 1 {
        return match v {
            Json::Obj(m) => {
                let mut m = m;
                m.insert(keys[from], x);
                Json::Obj(m)
            },
            _ => v,
        };
    }
    let mut m = match v {
        Json::Obj(m) => m,
        _ => JsonMap::new(),
    };
    let inner = copy_members(m.get(keys[from]));
    assert(rest.drop_first() =~= keys@.map_values(|t: &str| t@).skip(from + 1));
    let changed = set_deep(Json::Obj(inner), keys, from + 1, x);
    m.insert(keys[from], changed);
    Json::Obj(m)
}

/// Puts a value at a path: keys with dots between them.
pub fn path_set(root: &mut Json, path: &str, value: Json)
    ensures
        final(root)@ == with_deep(old(root)@, path_keys(path@), value@),
{
    let keys = keys_of(path);
    let mut v = Json::Null;
    std::mem::swap(&mut v, root);
    proof {
        assert(keys@.map_values(|t: &str| t@).skip(0) =~= path_keys(path@));
    }
    *root = set_deep(v, &keys, 0, value);
}

/// What was put at a path is read from it, if the path has a key and there is
/// an object to put it in: the value itself, or one on the way.
pub proof fn law_read_after_write(v: Jv, path: Seq<char>, x: Jv)
    requires
        path_keys(path).len() > 1 || (path_keys(path).len() == 1 && v is Obj),
    ensures
        deep(with_deep(v, path_keys(path), x), path_keys(path)) == Some(x),
{
    lemma_deep_back(v, path_keys(path), x);
}

proof fn lemma_deep_back(v: Jv, keys: Seq<Seq<char>>, x: Jv)
    requires
        keys.len() > 1 || (keys.len() == 1 && v is Obj),
    ensures
        deep(with_deep(v, keys, x), keys) == Some(x),
    decreases keys.len(),
{
    if keys.len() == 1 {
        assert(keys.drop_first() =~= Seq::<Seq<char>>::empty());
        assert(with_deep(v, keys, x).member(keys[0]) == Some(x));
        assert(deep(x, keys.drop_first()) == Some(x));
    } else {
        let m = as_members(Some(v));
        let inner = Jv::Obj(as_members(Jv::Obj(m).member(keys[0])));
        lemma_deep_back(inner, keys.drop_first(), x);
        assert(with_deep(v, keys, x).member(keys[0]) == Some(
            with_deep(inner, keys.drop_first(), x),
        ));
    }
}

/// Writing at a path leaves alone what an object has under keys other than the
/// path's first.
pub proof fn law_write_keeps_others(v: Jv, path: Seq<char>, x: Jv, key: Seq<char>)
    requires
        v is Obj,
        path_keys(path).len() > 0,
        key != path_keys(path)[0],
    ensures
        with_deep(v, path_keys(path), x).member(key) == v.member(key),
{
}

// ---------------------------------------------------------------- requests

/// The method of a request.
#[derive(Clone, Copy, Debug, PartialEq, Eq, Structural)]
pub enum Method {
    Get,
    Put,
    Delete,
    Patch,
    Post,
}

/// The method that a word names, in letters of either case.
pub open spec fn method_named(word: Seq<char>) -> Method {
    if ascii_small(word) == ascii_small("GET"@) {
        Method::Get
    } else if ascii_small(word) == ascii_small("PUT"@) {
        Method::Put
    } else if ascii_small(word) == ascii_small("DELETE"@) {
        Method::Delete
    } else if ascii_small(word) == ascii_small("PATCH"@) {
        Method::Patch
    } else {
        Method::Post
    }
}

fn read_method(word: &str) -> (r: Method)
    ensures
        r == method_named(word@),
{
    if same_ignore_case(word, "GET") {
        Method::Get
    } else if same_ignore_case(word, "PUT") {
        Method::Put
    } else if same_ignore_case(word, "DELETE") {
        Method::Delete
    } else if same_ignore_case(word, "PATCH") {
        Method::Patch
    } else {
        Method::Post
    }
}

/// The first text that is not empty among the members under some keys, each
/// taken without the spaces round it; an empty text where there is none.
pub open spec fn first_filled(v: Jv, keys: Seq<Seq<char>>) -> Seq<char>
    decreases keys.len(),
{
    if keys.len() == 0 {
        Seq::empty()
    } else {
        match filled_text_at(v, trimmed(keys[0])) {
            Some(s) => s,
            None => first_filled(v, keys.drop_first()),
        }
    }
}

/// A path with the names in braces filled in, one after the other.
pub open spec fn filled_path(path: Seq<char>, params: Seq<(String, String)>, incoming: Jv) -> Seq<
    char,
>
    decreases params.len(),
{
    if params.len() == 0 {
        path
    } else {
        let (name, source) = params.last();
        replaced(
            filled_path(path, params.drop_last(), incoming),
            "{"@ + name@ + "}"@,
            first_filled(incoming, pieces(source@, "|"@)),
        )
    }
}

fn find_filled(v: &Json, source: &str) -> (r: String)
    ensures
        r@ == first_filled(v@, pieces(source@, "|"@)),
{
    proof {
        reveal_strlit("|");
    }
    let keys = split(source, "|");
    let ghost all = keys@.map_values(|t: &str| t@);
    let mut i: usize = 0;
    proof {
        assert(all.skip(0) =~= all);
    }
    while i < keys.len()
        invariant
            i <= keys@.len(),
            all == keys@.map_values(|t: &str| t@),
            all == pieces(source@, "|"@),
            first_filled(v@, all) == first_filled(v@, all.skip(i as int)),
        decreases keys@.len() - i,
    {
        proof {
            assert(all.skip(i as int).drop_first() =~= all.skip(i + 1));
            assert(all.skip(i as int)[0] == keys@[i as int]@);
        }
        match v.get_filled_str(trim(keys[i])) {
            Some(s) => {
                return s.to_owned();
            },
            None => {},
        }
        i += 1;
    }
    String::new()
}

fn fill_path(path: &str, params: &Vec<(String, String)>, incoming: &Json) -> (r: String)
    ensures
        r@ == filled_path(path@, params@, incoming@),
{
    let mut out = path.to_owned();
    let mut i: usize = 0;
    proof {
        assert(params@.take(0) =~= Seq::<(String, String)>::empty());
    }
    while i < params.len()
        invariant
            i <= params@.len(),
            out@ == filled_path(path@, params@.take(i as int), incoming@),
        decreases params@.len() - i,
    {
        proof {
            assert(params@.take(i + 1).drop_last() =~= params@.take(i as int));
            assert(params@.take(i + 1).last() == params@[i as int]);
            reveal_strlit("{");
        }
        let mut name = "{".to_owned();
        name.append(params[i].0.as_str());
        name.append("}");
        let value = find_filled(incoming, params[i].1.as_str());
        out = replace(out.as_str(), name.as_str(), value.as_str());
        i += 1;
    }
    proof {
        assert(params@.take(i as int) =~= params@);
    }
    out
}

/// The new name of a member: the first one given for it, or its own.
pub open spec fn new_name(rename: Seq<(String, String)>, key: Seq<char>) -> Seq<char>
    decreases rename.len(),
{
    if rename.len() == 0 {
        key
    } else if rename[0].0@ == key {
        rename[0].1@
    } else {
        new_name(rename.drop_first(), key)
    }
}

/// The first `n` members under their new names: a later one takes the place of
/// an earlier one with the same name.
pub open spec fn renamed_upto(
    m: Map<Seq<char>, Jv>,
    keys: Seq<Seq<char>>,
    n: int,
    rename: Seq<(String, String)>,
) -> Map<Seq<char>, Jv>
    decreases n,
{
    if n <= 0 {
        Map::empty()
    } else {
        renamed_upto(m, keys, n - 1, rename).insert(new_name(rename, keys[n - 1]), m[keys[n - 1]])
    }
}

/// The members under their new names.
pub open spec fn renamed(m: Map<Seq<char>, Jv>, rename: Seq<(String, String)>) -> Map<Seq<char>, Jv> {
    renamed_upto(m, key_list(m), key_list(m).len() as int, rename)
}

/// Members with others put in where there is none, or only a null.
pub open spec fn with_defaults(
    m: Map<Seq<char>, Jv>,
    defaults: Map<Seq<char>, Jv>,
) -> Map<Seq<char>, Jv> {
    m.union_prefer_right(
        defaults.filter_keys(|k: Seq<char>| !m.dom().contains(k) || m[k] is Null),
    )
}

/// The members of the body that is sent: those of the client under their new
/// names, over them those that every request has, then the defaults, without
/// the members that are not sent.
pub open spec fn body_members(spec: ActionSpec, incoming: Jv) -> Map<Seq<char>, Jv> {
    let a = renamed(members_in(Some(incoming)), spec.rename@);
    let b = with_defaults(a.union_prefer_right(spec.inject@), spec.defaults@);
    let c = b.remove_keys(texts(spec.drop@).to_set());
    if spec.keep@.len() == 0 {
        c
    } else {
        c.restrict(texts(spec.keep@).to_set())
    }
}

/// Whether a body is sent.
pub open spec fn sends_body(spec: ActionSpec) -> bool {
    match spec.send_body {
        Some(b) => b,
        None => {
            let m = method_named(spec.method@);
            m != Method::Get && m != Method::Delete
        },
    }
}

fn rename_key<'a>(rename: &'a Vec<(String, String)>, key: &'a str) -> (r: &'a str)
    ensures
        r@ == new_name(rename@, key@),
{
    let mut i: usize = 0;
    proof {
        assert(rename@.skip(0) =~= rename@);
    }
    while i < rename.len()
        invariant
            i <= rename@.len(),
            new_name(rename@, key@) == new_name(rename@.skip(i as int), key@),
        decreases rename@.len() - i,
    {
        proof {
            assert(rename@.skip(i as int).drop_first() =~= rename@.skip(i + 1));
        }
        if same(rename[i].0.as_str(), key) {
            return rename[i].1.as_str();
        }
        i += 1;
    }
    key
}

fn rename_members(obj: &JsonMap, rename: &Vec<(String, String)>) -> (r: JsonMap)
    ensures
        r@ == renamed(obj@, rename@),
{
    let mut out = JsonMap::new();
    let keys = obj.keys();
    let ghost ks = key_list(obj@);
    let mut i: usize = 0;
    while i < keys.len()
        invariant
            i <= keys@.len(),
            ks == texts(keys@),
            lists_keys(ks, obj@),
            out@ == renamed_upto(obj@, ks, i as int, rename@),
        decreases keys@.len() - i,
    {
        let key = keys[i].as_str();
        assert(ks[i as int] == key@);
        assert(ks.contains(key@));
        match obj.get(key) {
            Some(v) => {
                out.insert(rename_key(rename, key), v.dup());
            },
            None => {},
        }
        i += 1;
    }
    out
}

proof fn lemma_next_key(all: Seq<Seq<char>>, i: int)
    requires
        0 <= i < all.len(),
    ensures
        all.take(i + 1).to_set() == all.take(i).to_set().insert(all[i]),
{
    let done = all.take(i);
    let next = all.take(i + 1);
    assert forall|k: Seq<char>| next.to_set().contains(k) <==> done.to_set().insert(
        all[i],
    ).contains(k) by {
        if done.contains(k) {
            let j = choose|j: int| 0 <= j < done.len() && done[j] == k;
            assert(next[j] == k);
        }
        if k == all[i] {
            assert(next[i] == k);
        }
        if next.contains(k) && k != all[i] {
            let j = choose|j: int| 0 <= j < next.len() && next[j] == k;
            assert(done[j] == k);
        }
    }
    assert(next.to_set() =~= done.to_set().insert(all[i]));
}

fn put_defaults(m: JsonMap, defaults: &JsonMap) -> (r: JsonMap)
    ensures
        r@ == with_defaults(m@, defaults@),
{
    let ghost start = m@;
    let ghost ks = key_list(defaults@);
    let ghost free = |k: Seq<char>| !start.dom().contains(k) || start[k] is Null;
    let mut out = m;
    let keys = defaults.keys();
    let mut i: usize = 0;
    proof {
        assert(ks.take(0).to_set() =~= Set::empty());
        assert(out@ =~= start.union_prefer_right(
            defaults@.restrict(ks.take(0).to_set()).filter_keys(free),
        ));
    }
    while i < keys.len()
        invariant
            i <= keys@.len(),
            ks == texts(keys@),
            lists_keys(ks, defaults@),
            free == (|k: Seq<char>| !start.dom().contains(k) || start[k] is Null),
            out@ == start.union_prefer_right(
                defaults@.restrict(ks.take(i as int).to_set()).filter_keys(free),
            ),
            forall|k: Seq<char>|
                #![trigger ks.take(i as int).to_set().contains(k)]
                ks.take(i as int).to_set().contains(k) ==> exists|j: int|
                    0 <= j < i && #[trigger] ks[j] == k,
        decreases keys@.len() - i,
    {
        let key = keys[i].as_str();
        proof {
            assert(ks[i as int] == key@);
            assert(ks.contains(key@));
            lemma_next_key(ks, i as int);
            if ks.take(i as int).to_set().contains(key@) {
                let j = choose|j: int| 0 <= j < i && ks[j] == key@;
                lemma_precedes_strict(ks[j], ks[i as int]);
            }
            assert forall|k: Seq<char>|
                #![trigger ks.take(i + 1).to_set().contains(k)]
                ks.take(i + 1).to_set().contains(k) implies exists|j: int|
                0 <= j < i + 1 && #[trigger] ks[j] == k by {
                let next = ks.take(i + 1);
                let j = choose|j: int| 0 <= j < next.len() && next[j] == k;
                assert(ks[j] == k);
            }
        }
        let vacant = match out.get(key) {
            Some(v) => v.is_null(),
            None => true,
        };
        if vacant {
            match defaults.get(key) {
                Some(v) => {
                    out.insert(key, v.dup());
                },
                None => {},
            }
        }
        proof {
            assert(out@ =~= start.union_prefer_right(
                defaults@.restrict(ks.take(i + 1).to_set()).filter_keys(free),
            ));
        }
        i += 1;
    }
    proof {
        assert(ks.take(i as int) =~= ks);
        assert(defaults@.restrict(ks.to_set()) =~= defaults@) by {
            assert forall|k: Seq<char>| defaults@.dom().contains(k) implies ks.to_set().contains(k) by {
                assert(ks.contains(k));
            }
        }
    }
    out
}

fn drop_members(m: JsonMap, keys: &Vec<String>) -> (r: JsonMap)
    ensures
        r@ == m@.remove_keys(texts(keys@).to_set()),
{
    let ghost start = m@;
    let ghost all = texts(keys@);
    let mut out = m;
    let mut i: usize = 0;
    proof {
        assert(all.take(0).to_set() =~= Set::empty());
        assert(out@ =~= start.remove_keys(all.take(0).to_set()));
    }
    while i < keys.len()
        invariant
            i <= keys@.len(),
            all == texts(keys@),
            out@ == start.remove_keys(all.take(i as int).to_set()),
        decreases keys@.len() - i,
    {
        proof {
            lemma_next_key(all, i as int);
            assert(all[i as int] == keys@[i as int]@);
        }
        out.remove(keys[i].as_str());
        proof {
            assert(out@ =~= start.remove_keys(all.take(i + 1).to_set()));
        }
        i += 1;
    }
    proof {
        assert(all.take(i as int) =~= all);
    }
    out
}

fn keep_members(m: &JsonMap, keys: &Vec<String>) -> (r: JsonMap)
    ensures
        r@ == m@.restrict(texts(keys@).to_set()),
{
    let ghost all = texts(keys@);
    let mut out = JsonMap::new();
    let mut i: usize = 0;
    proof {
        assert(all.take(0).to_set() =~= Set::empty());
        assert(out@ =~= m@.restrict(all.take(0).to_set()));
    }
    while i < keys.len()
        invariant
            i <= keys@.len(),
            all == texts(keys@),
            out@ == m@.restrict(all.take(i as int).to_set()),
        decreases keys@.len() - i,
    {
        let key = keys[i].as_str();
        proof {
            lemma_next_key(all, i as int);
            assert(all[i as int] == key@);
        }
        match m.get(key) {
            Some(v) => {
                out.insert(key, v.dup());
            },
            None => {},
        }
        proof {
            assert(out@ =~= m@.restrict(all.take(i + 1).to_set()));
        }
        i += 1;
    }
    proof {
        assert(all.take(i as int) =~= all);
    }
    out
}

/// Makes the request for an action: its method, its path, and its body where
/// one is sent.
pub fn build_upstream_request(spec: &ActionSpec, incoming: &Json) -> (r: (
    Method,
    String,
    Option<Json>,
))
    ensures
        r.0 == method_named(spec.method@),
        r.1@ == filled_path(spec.path@, spec.path_params@, incoming@),
        match r.2 {
            Some(b) => sends_body(*spec) && b@ == Jv::Obj(body_members(*spec, incoming@)),
            None => !sends_body(*spec),
        },
{
    let method = read_method(spec.method.as_str());
    let path = fill_path(spec.path.as_str(), &spec.path_params, incoming);
    let send = match spec.send_body {
        Some(b) => b,
        None => method != Method::Get && method != Method::Delete,
    };
    if !send {
        return (method, path, None);
    }
    let given = copy_members(Some(incoming));
    let named = rename_members(&given, &spec.rename);
    let mut fixed = spec.inject.dup();
    fixed.fill_from(&named);
    let full = put_defaults(fixed, &spec.defaults);
    let left = drop_members(full, &spec.drop);
    let members = if spec.keep.len() == 0 {
        left
    } else {
        keep_members(&left, &spec.keep)
    };
    (method, path, Some(Json::Obj(members)))
}

/// Whether a member may stand in the body of a request.
pub open spec fn may_send(spec: ActionSpec, key: Seq<char>) -> bool {
    !texts(spec.drop@).contains(key) && (spec.keep@.len() == 0 || texts(spec.keep@).contains(key))
}

/// Only members that may be sent are sent. A member that every request has
/// stands in the body as it is given, over what the client sent, unless it is
/// a null with a default. A default stands in the body only where nothing else
/// does, and never a null in its place.
pub proof fn law_request_body(spec: ActionSpec, incoming: Jv, key: Seq<char>)
    ensures
        body_members(spec, incoming).dom().contains(key) ==> may_send(spec, key),
        may_send(spec, key) && spec.inject@.dom().contains(key) && (spec.inject@[key] !is Null
            || !spec.defaults@.dom().contains(key)) ==> body_members(
            spec,
            incoming,
        ).contains_pair(key, spec.inject@[key]),
        may_send(spec, key) && spec.defaults@.dom().contains(key) ==> body_members(
            spec,
            incoming,
        ).dom().contains(key) && (body_members(spec, incoming)[key] == spec.defaults@[key]
            || body_members(spec, incoming)[key] !is Null),
        may_send(spec, key) && spec.defaults@.dom().contains(key) && !spec.inject@.dom().contains(
            key,
        ) && !renamed(members_in(Some(incoming)), spec.rename@).dom().contains(key)
            ==> body_members(spec, incoming)[key] == spec.defaults@[key],
{
    let a = renamed(members_in(Some(incoming)), spec.rename@);
    let b = with_defaults(a.union_prefer_right(spec.inject@), spec.defaults@);
    assert(texts(spec.drop@).to_set().contains(key) == texts(spec.drop@).contains(key));
    assert(texts(spec.keep@).to_set().contains(key) == texts(spec.keep@).contains(key));
    let c = b.remove_keys(texts(spec.drop@).to_set());
    assert(may_send(spec, key) ==> (body_members(spec, incoming).dom().contains(key)
        <==> b.dom().contains(key)));
    assert(may_send(spec, key) && b.dom().contains(key) ==> body_members(spec, incoming)[key]
        == b[key]);
}

// ---------------------------------------------------------------- answers

/// The text at a path; an empty one where there is none.
pub open spec fn text_on_path(v: Jv, path: Seq<char>) -> Seq<char> {
    match text_in(deep(v, path_keys(path))) {
        Some(s) => s,
        None => Seq::empty(),
    }
}

fn read_text<'a>(v: &'a Json, path: &str) -> (r: &'a str)
    ensures
        r@ == text_on_path(v@, path@),
{
    match opt_str(path_get(v, path)) {
        Some(s) => s,
        None => {
            proof {
                reveal_strlit("");
                assert(""@ =~= Seq::<char>::empty());
            }
            ""
        },
    }
}

/// An item of a list with its identifier under `Id` too.
pub open spec fn with_id(item: Jv, field: Seq<char>) -> Jv {
    match (item, item.member(field)) {
        (Jv::Obj(m), Some(id)) => if field.len() > 0 {
            Jv::Obj(m.insert("Id"@, id))
        } else {
            item
        },
        _ => item,
    }
}

/// The items of a list in the envelope.
pub open spec fn listed_items(list: ListSpec, payload: Jv) -> Seq<Jv> {
    items_in(deep(payload, path_keys(list.items_path@))).map_values(
        |item: Jv| with_id(item, list.item_id_field@),
    )
}

/// The number of all items that is told with a list.
pub open spec fn listed_total(list: ListSpec, payload: Jv) -> int {
    let told = match deep(payload, path_keys(list.total_path@)) {
        Some(v) => v.int64(),
        None => None,
    };
    match told {
        Some(i) => i,
        None => listed_items(list, payload).len() as int,
    }
}

/// A list in the envelope.
pub open spec fn list_result(list: ListSpec, payload: Jv) -> Jv {
    let key = if list.target_key@.len() == 0 {
        "Items"@
    } else {
        list.target_key@
    };
    single(key, Jv::Arr(listed_items(list, payload))).with(
        "TotalCount"@,
        Jv::Int(listed_total(list, payload)),
    )
}

/// Makes the list in the envelope.
pub fn build_list_result(list: &ListSpec, payload: &Json) -> (r: Json)
    ensures
        r@ == list_result(*list, payload@),
{
    let source = copy_items(path_get(payload, list.items_path.as_str()));
    let ghost all = views(source@);
    let field = list.item_id_field.as_str();
    let mut items: Vec<Json> = Vec::new();
    let mut i: usize = 0;
    while i < source.len()
        invariant
            i <= source@.len(),
            all == views(source@),
            field@ == list.item_id_field@,
            items@.len() == i,
            forall|j: int| 0 <= j < i ==> #[trigger] items@[j]@ == with_id(all[j], field@),
        decreases source@.len() - i,
    {
        let mut item = source[i].dup();
        assert(all[i as int] == source@[i as int]@);
        if !field.is_empty() {
            match source[i].get(field) {
                Some(id) => match item {
                    Json::Obj(m) => {
                        let mut m = m;
                        m.insert("Id", id.dup());
                        item = Json::Obj(m);
                    },
                    _ => {},
                },
                None => {},
            }
        }
        items.push(item);
        i += 1;
    }
    proof {
        assert(views(items@) =~= listed_items(*list, payload@));
    }
    let told = match path_get(payload, list.total_path.as_str()) {
        Some(v) => v.as_i64(),
        None => None,
    };
    let total: i128 = match told {
        Some(t) => t as i128,
        None => items.len() as i128,
    };
    let key = if list.target_key.as_str().is_empty() {
        "Items"
    } else {
        list.target_key.as_str()
    };
    Json::empty().with(key, Json::arr(items)).with("TotalCount", Json::Int(total))
}

/// The payload of an answer.
pub open spec fn payload_of(rs: ResponseSpec, upstream: Jv) -> Jv {
    if rs.unwrap_body {
        upstream.at("body"@)
    } else {
        upstream
    }
}

/// What the envelope holds as its result.
pub open spec fn result_of(rs: ResponseSpec, upstream: Jv) -> Jv {
    let payload = payload_of(rs, upstream);
    match rs.list {
        Some(list) => list_result(list, payload),
        None => if rs.id_path@.len() == 0 {
            payload
        } else if rs.id_path@ == "$"@ {
            single(
                "Id"@,
                Jv::Str(
                    match payload.text() {
                        Some(s) => s,
                        None => Seq::empty(),
                    },
                ),
            )
        } else {
            single("Id"@, Jv::Str(text_on_path(payload, rs.id_path@)))
        },
    }
}

/// Whether an answer tells of a failure.
pub open spec fn tells_failure(rs: ResponseSpec, upstream: Jv) -> bool {
    rs.ok_path@.len() > 0 && text_on_path(upstream, rs.ok_path@) != rs.ok_value@
}

/// What is said of a failure.
pub open spec fn failure_text(rs: ResponseSpec, upstream: Jv) -> Seq<char> {
    let said = text_in(or_member(upstream.member("message"@), upstream, "error"@));
    "上游业务错误("@ + rs.ok_path@ + "="@ + text_on_path(upstream, rs.ok_path@) + "): "@ + match said {
        Some(s) => s,
        None => Seq::empty(),
    }
}

/// The envelope of an action's result.
pub open spec fn envelope(action: Seq<char>, version: Seq<char>, request_id: Seq<char>, result: Jv) -> Jv {
    single(
        "ResponseMetadata"@,
        single("Action"@, Jv::Str(action)).with("Version"@, Jv::Str(version)).with(
            "Service"@,
            Jv::Str("ark"@),
        ).with("Region"@, Jv::Str("cn-north-1"@)).with("RequestId"@, Jv::Str(request_id)),
    ).with("Result"@, result)
}

/// Puts the upstream's answer to an action into the envelope, unless it tells
/// of a failure.
pub fn transform_response(spec: &ActionSpec, action: &str, version: &str, upstream: &Json) -> (r:
    Result<Json, String>)
    ensures
        match r {
            Ok(j) => !tells_failure(spec.response, upstream@) && j@ == envelope(
                action@,
                version@,
                text_or(upstream@, "requestId"@, Seq::empty()),
                result_of(spec.response, upstream@),
            ),
            Err(e) => tells_failure(spec.response, upstream@) && e@ == failure_text(
                spec.response,
                upstream@,
            ),
        },
{
    proof {
        reveal_strlit("");
        assert(""@ =~= Seq::<char>::empty());
    }
    let rs = &spec.response;
    if !rs.ok_path.as_str().is_empty() {
        let actual = read_text(upstream, rs.ok_path.as_str());
        if !same(actual, rs.ok_value.as_str()) {
            let told = match opt_str(or_get(upstream.get("message"), upstream, "error")) {
                Some(s) => s,
                None => "",
            };
            let mut e = "上游业务错误(".to_owned();
            e.append(rs.ok_path.as_str());
            e.append("=");
            e.append(actual);
            e.append("): ");
            e.append(told);
            return Err(e);
        }
    }
    let payload = if rs.unwrap_body {
        upstream.copy_at("body")
    } else {
        upstream.dup()
    };
    let result = match &rs.list {
        Some(list) => build_list_result(list, &payload),
        None => if rs.id_path.as_str().is_empty() {
            payload
        } else if same(rs.id_path.as_str(), "$") {
            let id = match payload.as_str() {
                Some(s) => s,
                None => "",
            };
            Json::empty().with("Id", Json::text(id))
        } else {
            Json::empty().with("Id", Json::text(read_text(&payload, rs.id_path.as_str())))
        },
    };
    let request_id = upstream.get_str_or("requestId", "");
    let head = Json::empty().with("Action", Json::text(action)).with(
        "Version",
        Json::text(version),
    ).with("Service", Json::text("ark")).with("Region", Json::text("cn-north-1")).with(
        "RequestId",
        Json::text(request_id),
    );
    Ok(Json::empty().with("ResponseMetadata", head).with("Result", result))
}

/// The answer to a creation has the new identifier as `Result.Id`, and any
/// other answer without a list has the payload as its `Result`.
pub proof fn law_result_in_envelope(
    rs: ResponseSpec,
    action: Seq<char>,
    version: Seq<char>,
    request_id: Seq<char>,
    upstream: Jv,
)
    requires
        rs.list is None,
    ensures
        rs.id_path@.len() == 0 ==> envelope(
            action,
            version,
            request_id,
            result_of(rs, upstream),
        ).member("Result"@) == Some(payload_of(rs, upstream)),
        rs.id_path@.len() > 0 && rs.id_path@ != "$"@ ==> envelope(
            action,
            version,
            request_id,
            result_of(rs, upstream),
        ).at("Result"@).member("Id"@) == Some(
            Jv::Str(text_on_path(payload_of(rs, upstream), rs.id_path@)),
        ),
        rs.id_path@ == "$"@ && payload_of(rs, upstream) is Str ==> envelope(
            action,
            version,
            request_id,
            result_of(rs, upstream),
        ).at("Result"@).member("Id"@) == Some(payload_of(rs, upstream)),
{
    reveal_strlit("$");
}

/// Each item of a list goes back in its place, with all it had but what stood
/// under `Id`, and with its identifier there.
pub proof fn law_listed_ids(list: ListSpec, payload: Jv, i: int, key: Seq<char>)
    requires
        0 <= i < listed_items(list, payload).len(),
        list.item_id_field@.len() > 0,
    ensures
        listed_items(list, payload).len() == items_in(
            deep(payload, path_keys(list.items_path@)),
        ).len(),
        ({
            let before = items_in(deep(payload, path_keys(list.items_path@)))[i];
            let after = listed_items(list, payload)[i];
            &&& key != "Id"@ ==> after.member(key) == before.member(key)
            &&& before.member(list.item_id_field@) is Some ==> after.member("Id"@)
                == before.member(list.item_id_field@)
        }),
{
}

} // verus!
