//! JSON values: the data type, its mathematical model and the operations on it.
use vstd::prelude::*;
use vstd::string::*;
use crate::text::{lemma_precedes_strict, lemma_precedes_trans, ordering, precedes, same, Side};

verus! {

/// What a JSON value is, as a mathematical value. A number without a
/// fraction is an integer; any other number is its JSON text.
pub enum Jv {
    Null,
    Bool(bool),
    Int(int),
    Float(Seq<char>),
    Str(Seq<char>),
    Arr(Seq<Jv>),
    Obj(Map<Seq<char>, Jv>),
}

impl Jv {
    /// The member of an object under a key.
    pub open spec fn member(self, key: Seq<char>) -> Option<Jv> {
        match self {
            Jv::Obj(m) => if m.dom().contains(key) { Some(m[key]) } else { None },
            _ => None,
        }
    }

    /// The member under a key, or null where there is none.
    pub open spec fn at(self, key: Seq<char>) -> Jv {
        match self.member(key) {
            Some(v) => v,
            None => Jv::Null,
        }
    }

    /// The element of an array at an index.
    pub open spec fn element(self, i: int) -> Option<Jv> {
        match self {
            Jv::Arr(a) => if 0 <= i < a.len() { Some(a[i]) } else { None },
            _ => None,
        }
    }

    pub open spec fn text(self) -> Option<Seq<char>> {
        match self {
            Jv::Str(s) => Some(s),
            _ => None,
        }
    }

    pub open spec fn flag(self) -> Option<bool> {
        match self {
            Jv::Bool(b) => Some(b),
            _ => None,
        }
    }

    /// The number, where it is an integer in the range of `i64`.
    pub open spec fn int64(self) -> Option<int> {
        match self {
            Jv::Int(i) => if i64::MIN <= i <= i64::MAX { Some(i) } else { None },
            _ => None,
        }
    }

    pub open spec fn items(self) -> Option<Seq<Jv>> {
        match self {
            Jv::Arr(a) => Some(a),
            _ => None,
        }
    }

    pub open spec fn members(self) -> Option<Map<Seq<char>, Jv>> {
        match self {
            Jv::Obj(m) => Some(m),
            _ => None,
        }
    }

    pub open spec fn is_number(self) -> bool {
        self is Int || self is Float
    }

    /// Whether a member can be assigned: an object, or null, which becomes one.
    pub open spec fn assignable(self) -> bool {
        self is Obj || self is Null
    }

    /// The value with one member assigned.
    pub open spec fn with(self, key: Seq<char>, v: Jv) -> Jv {
        match self {
            Jv::Obj(m) => Jv::Obj(m.insert(key, v)),
            Jv::Null => Jv::Obj(Map::empty().insert(key, v)),
            _ => self,
        }
    }

    /// The value with one member taken away, where it is an object.
    pub open spec fn without(self, key: Seq<char>) -> Jv {
        match self {
            Jv::Obj(m) => Jv::Obj(m.remove(key)),
            _ => self,
        }
    }
}

/// The object without members.
pub open spec fn no_members() -> Jv {
    Jv::Obj(Map::empty())
}

/// The member under a key of a value that may be absent.
pub open spec fn member_of(o: Option<Jv>, key: Seq<char>) -> Option<Jv> {
    match o {
        Some(v) => v.member(key),
        None => None,
    }
}

/// The text under a key, where there is one.
pub open spec fn text_at(v: Jv, key: Seq<char>) -> Option<Seq<char>> {
    match v.member(key) {
        Some(x) => x.text(),
        None => None,
    }
}

/// The text under a key, or a default.
pub open spec fn text_or(v: Jv, key: Seq<char>, default: Seq<char>) -> Seq<char> {
    match text_at(v, key) {
        Some(s) => s,
        None => default,
    }
}

/// The text under a key, where there is one and it is not empty.
pub open spec fn filled_text_at(v: Jv, key: Seq<char>) -> Option<Seq<char>> {
    match text_at(v, key) {
        Some(s) => if s.len() > 0 { Some(s) } else { None },
        None => None,
    }
}

/// A value that may be absent, or else the member under a key.
pub open spec fn or_member(o: Option<Jv>, v: Jv, key: Seq<char>) -> Option<Jv> {
    match o {
        Some(x) => Some(x),
        None => v.member(key),
    }
}

/// The text of a value that may be absent.
pub open spec fn text_in(o: Option<Jv>) -> Option<Seq<char>> {
    match o {
        Some(x) => x.text(),
        None => None,
    }
}

/// A text, where there is one and it is not empty.
pub open spec fn filled(o: Option<Seq<char>>) -> Option<Seq<char>> {
    match o {
        Some(s) => if s.len() > 0 {
            Some(s)
        } else {
            None
        },
        None => None,
    }
}

/// Whether a switch is on: true, or the text "true".
pub open spec fn switched_on(v: Jv) -> bool {
    v == Jv::Bool(true) || v == Jv::Str("true"@)
}

/// The boolean under a key, where there is one.
pub open spec fn flag_at(v: Jv, key: Seq<char>) -> Option<bool> {
    match v.member(key) {
        Some(x) => x.flag(),
        None => None,
    }
}

/// The boolean under a key, or a default.
pub open spec fn flag_or(v: Jv, key: Seq<char>, default: bool) -> bool {
    match flag_at(v, key) {
        Some(b) => b,
        None => default,
    }
}

/// The `i64` under a key, where there is one.
pub open spec fn int_at(v: Jv, key: Seq<char>) -> Option<int> {
    match v.member(key) {
        Some(x) => x.int64(),
        None => None,
    }
}

/// The `i64` under a key, or a default.
pub open spec fn int_or(v: Jv, key: Seq<char>, default: int) -> int {
    match int_at(v, key) {
        Some(i) => i,
        None => default,
    }
}

/// The array under a key, where there is one.
pub open spec fn items_at(v: Jv, key: Seq<char>) -> Option<Seq<Jv>> {
    match v.member(key) {
        Some(x) => x.items(),
        None => None,
    }
}

/// Whether there is an array under a key that is not empty.
pub open spec fn has_items(v: Jv, key: Seq<char>) -> bool {
    match items_at(v, key) {
        Some(a) => a.len() > 0,
        None => false,
    }
}

/// The value with a member copied from another value, where that one has it.
pub open spec fn carry(to: Jv, from: Jv, key: Seq<char>, new_key: Seq<char>) -> Jv {
    match from.member(key) {
        Some(v) => to.with(new_key, v),
        None => to,
    }
}

/// The members of a value under some of its keys.
pub open spec fn picked(from: Jv, keys: Seq<Seq<char>>) -> Map<Seq<char>, Jv> {
    match from {
        Jv::Obj(m) => m.restrict(keys.to_set()),
        _ => Map::empty(),
    }
}

/// The object with the members of another value under some keys put in.
pub open spec fn carry_all(to: Jv, from: Jv, keys: Seq<Seq<char>>) -> Jv {
    match to {
        Jv::Obj(m) => Jv::Obj(m.union_prefer_right(picked(from, keys))),
        _ => to,
    }
}

/// What stands under a key after members were copied: what was copied there,
/// or else what stood there before.
pub proof fn lemma_carry_all(to: Jv, from: Jv, keys: Seq<Seq<char>>, key: Seq<char>)
    requires
        to is Obj,
    ensures
        carry_all(to, from, keys) is Obj,
        carry_all(to, from, keys).member(key) == if keys.contains(key) && from.member(key) is Some {
            from.member(key)
        } else {
            to.member(key)
        },
{
    assert(keys.to_set().contains(key) == keys.contains(key));
}

/// The models of a sequence of names.
pub open spec fn names(s: Seq<&str>) -> Seq<Seq<char>> {
    s.map_values(|t: &str| t@)
}

/// A JSON value.
#[derive(Debug, PartialEq)]
pub enum Json {
    Null,
    Bool(bool),
    /// A number without a fraction.
    Int(i128),
    /// Any other number, as its JSON text.
    Float(String),
    Str(String),
    Arr(Vec<Json>),
    Obj(JsonMap),
}

/// The members of a JSON object, in the order of their keys.
#[derive(Debug, PartialEq)]
pub struct JsonMap {
    entries: Vec<(String, Json)>,
}

/// The models of a sequence of values.
pub open spec fn views(s: Seq<Json>) -> Seq<Jv> {
    s.map_values(|j: Json| j@)
}

/// The models of a sequence of texts.
pub open spec fn texts(s: Seq<String>) -> Seq<Seq<char>> {
    s.map_values(|t: String| t@)
}

/// An array of texts.
pub open spec fn text_array(s: Seq<Seq<char>>) -> Jv {
    Jv::Arr(s.map_values(|t: Seq<char>| Jv::Str(t)))
}

pub open spec fn opt_view(o: Option<&Json>) -> Option<Jv> {
    match o {
        Some(j) => Some(j@),
        None => None,
    }
}

pub open spec fn opt_json(o: Option<Json>) -> Option<Jv> {
    match o {
        Some(v) => Some(v@),
        None => None,
    }
}

pub open spec fn opt_text(o: Option<&str>) -> Option<Seq<char>> {
    match o {
        Some(s) => Some(s@),
        None => None,
    }
}

pub open spec fn opt_string(o: Option<String>) -> Option<Seq<char>> {
    match o {
        Some(s) => Some(s@),
        None => None,
    }
}

pub open spec fn opt_int(o: Option<i64>) -> Option<int> {
    match o {
        Some(i) => Some(i as int),
        None => None,
    }
}

impl Json {
    pub open spec fn model(self) -> Jv
        decreases self,
    {
        match self {
            Json::Null => Jv::Null,
            Json::Bool(b) => Jv::Bool(b),
            Json::Int(i) => Jv::Int(i as int),
            Json::Float(t) => Jv::Float(t@),
            Json::Str(s) => Jv::Str(s@),
            Json::Arr(a) => Jv::Arr(
                Seq::new(
                    a@.len(),
                    |i: int|
                        if 0 <= i < a@.len() {
                            a@[i].model()
                        } else {
                            Jv::Null
                        },
                ),
            ),
            Json::Obj(m) => Jv::Obj(m.model()),
        }
    }
}

impl View for Json {
    type V = Jv;

    open spec fn view(&self) -> Jv {
        self.model()
    }
}

impl JsonMap {
    spec fn holds_at(self, key: Seq<char>, i: int) -> bool {
        0 <= i < self.entries@.len() && self.entries@[i].0@ == key
    }

    pub closed spec fn model(self) -> Map<Seq<char>, Jv>
        decreases self,
    {
        Map::new(
            |key: Seq<char>| exists|i: int| self.holds_at(key, i),
            |key: Seq<char>|
                {
                    let i = choose|i: int| self.holds_at(key, i);
                    if 0 <= i < self.entries@.len() {
                        self.entries@[i].1.model()
                    } else {
                        Jv::Null
                    }
                },
        )
    }

    #[verifier::type_invariant]
    spec fn ordered(self) -> bool {
        forall|i: int, j: int|
            0 <= i < j < self.entries@.len() ==> precedes(
                #[trigger] self.entries@[i].0@,
                #[trigger] self.entries@[j].0@,
            )
    }
}

impl View for JsonMap {
    type V = Map<Seq<char>, Jv>;

    open spec fn view(&self) -> Map<Seq<char>, Jv> {
        self.model()
    }
}

/// In an ordered object a key stands at one place only.
proof fn lemma_holds_once(m: JsonMap, key: Seq<char>, i: int)
    requires
        m.ordered(),
        m.holds_at(key, i),
    ensures
        m.model().dom().contains(key),
        m.model()[key] == m.entries@[i].1.model(),
        forall|j: int| m.holds_at(key, j) ==> j == i,
{
    assert forall|j: int| m.holds_at(key, j) implies j == i by {
        if j < i {
            lemma_precedes_strict(m.entries@[j].0@, m.entries@[i].0@);
        } else if i < j {
            lemma_precedes_strict(m.entries@[i].0@, m.entries@[j].0@);
        }
    }
}

/// A text lies strictly between its neighbours: before everything that a later
/// one precedes, and not equal to anything that comes before an earlier one.
proof fn lemma_chain(m: JsonMap, key: Seq<char>, at: int)
    requires
        m.ordered(),
        0 <= at <= m.entries@.len(),
        forall|i: int| 0 <= i < at ==> precedes(#[trigger] m.entries@[i].0@, key),
        at < m.entries@.len() ==> precedes(key, m.entries@[at].0@),
    ensures
        forall|i: int| at <= i < m.entries@.len() ==> precedes(key, #[trigger] m.entries@[i].0@),
        forall|i: int| !m.holds_at(key, i),
        !m.model().dom().contains(key),
{
    assert forall|i: int| at <= i < m.entries@.len() implies precedes(
        key,
        #[trigger] m.entries@[i].0@,
    ) by {
        if i > at {
            lemma_precedes_trans(key, m.entries@[at].0@, m.entries@[i].0@);
        }
    }
    assert forall|i: int| !m.holds_at(key, i) by {
        if m.holds_at(key, i) {
            if i < at {
                lemma_precedes_strict(m.entries@[i].0@, key);
            } else {
                lemma_precedes_strict(key, m.entries@[i].0@);
            }
        }
    }
}

impl JsonMap {
    pub fn new() -> (r: JsonMap)
        ensures
            r@ == Map::<Seq<char>, Jv>::empty(),
    {
        let r = JsonMap { entries: Vec::new() };
        assert(r@.dom() =~= Set::empty()) by {
            assert forall|k: Seq<char>| !r@.dom().contains(k) by {
                assert forall|i: int| !r.holds_at(k, i) by {}
            }
        }
        assert(r@ =~= Map::<Seq<char>, Jv>::empty());
        r
    }

    /// The place of a key: where it stands, or where it would have to stand.
    fn place(&self, key: &str) -> (r: (usize, bool))
        requires
            self.ordered(),
        ensures
            r.0 <= self.entries@.len(),
            r.1 ==> self.holds_at(key@, r.0 as int),
            forall|i: int| 0 <= i < r.0 ==> precedes(#[trigger] self.entries@[i].0@, key@),
            !r.1 ==> (r.0 < self.entries@.len() ==> precedes(key@, self.entries@[r.0 as int].0@)),
    {
        let mut i: usize = 0;
        while i < self.entries.len()
            invariant
                self.ordered(),
                i <= self.entries@.len(),
                forall|k: int| 0 <= k < i ==> precedes(#[trigger] self.entries@[k].0@, key@),
            decreases self.entries@.len() - i,
        {
            match ordering(self.entries[i].0.as_str(), key) {
                Side::Before => {},
                Side::Same => {
                    return (i, true);
                },
                Side::After => {
                    return (i, false);
                },
            }
            i += 1;
        }
        (i, false)
    }

    pub fn get(&self, key: &str) -> (r: Option<&Json>)
        ensures
            match r {
                Some(v) => self@.dom().contains(key@) && self@[key@] == v@,
                None => !self@.dom().contains(key@),
            },
    {
        proof {
            use_type_invariant(self);
        }
        let (i, found) = self.place(key);
        if found {
            proof {
                lemma_holds_once(*self, key@, i as int);
            }
            Some(&self.entries[i].1)
        } else {
            proof {
                lemma_chain(*self, key@, i as int);
            }
            None
        }
    }

    pub fn contains_key(&self, key: &str) -> (r: bool)
        ensures
            r == self@.dom().contains(key@),
    {
        self.get(key).is_some()
    }

    pub fn is_empty(&self) -> (r: bool)
        ensures
            r == (self@ == Map::<Seq<char>, Jv>::empty()),
    {
        proof {
            use_type_invariant(self);
            if self.entries@.len() > 0 {
                lemma_holds_once(*self, self.entries@[0].0@, 0);
            } else {
                assert(self@ =~= Map::<Seq<char>, Jv>::empty());
            }
        }
        self.entries.len() == 0
    }

    /// Puts a value under a key, in place of what stood there.
    pub fn insert(&mut self, key: &str, value: Json)
        ensures
            final(self)@ == old(self)@.insert(key@, value@),
    {
        proof {
            use_type_invariant(&*self);
        }
        let (i, found) = self.place(key);
        let ghost before = *self;
        let mut entries: Vec<(String, Json)> = Vec::new();
        std::mem::swap(&mut entries, &mut self.entries);
        if found {
            proof {
                lemma_holds_once(before, key@, i as int);
            }
            entries.set(i, (key.to_owned(), value));
        } else {
            proof {
                lemma_chain(before, key@, i as int);
            }
            entries.insert(i, (key.to_owned(), value));
        }
        let ghost e = entries@;
        let ghost after = JsonMap { entries };
        proof {
            assert(after.ordered());
            assert(after.holds_at(key@, i as int));
            lemma_holds_once(after, key@, i as int);
            assert forall|k: Seq<char>| k != key@ && #[trigger] before.model().dom().contains(k) implies
                after.model().dom().contains(k) && after.model()[k] == before.model()[k] by {
                let j = choose|j: int| before.holds_at(k, j);
                lemma_holds_once(before, k, j);
                let j2 = if !found && j >= i { j + 1 } else { j };
                assert(after.holds_at(k, j2));
                lemma_holds_once(after, k, j2);
            }
            assert forall|k: Seq<char>| k != key@ && #[trigger] after.model().dom().contains(k) implies
                before.model().dom().contains(k) by {
                let j = choose|j: int| after.holds_at(k, j);
                let j2 = if !found && j > i { j - 1 } else { j };
                assert(before.holds_at(k, j2));
            }
            assert(after.model() =~= before.model().insert(key@, value@));
        }
        self.entries = entries;
    }

    /// Takes away what stands under a key.
    pub fn remove(&mut self, key: &str)
        ensures
            final(self)@ == old(self)@.remove(key@),
    {
        proof {
            use_type_invariant(&*self);
        }
        let (i, found) = self.place(key);
        let ghost before = *self;
        if !found {
            proof {
                lemma_chain(before, key@, i as int);
                assert(before.model() =~= before.model().remove(key@));
            }
            return ;
        }
        let mut entries: Vec<(String, Json)> = Vec::new();
        std::mem::swap(&mut entries, &mut self.entries);
        let _ = entries.remove(i);
        let ghost after = JsonMap { entries };
        proof {
            lemma_holds_once(before, key@, i as int);
            assert(after.ordered());
            assert forall|k: Seq<char>| k != key@ && #[trigger] before.model().dom().contains(k) implies
                after.model().dom().contains(k) && after.model()[k] == before.model()[k] by {
                let j = choose|j: int| before.holds_at(k, j);
                lemma_holds_once(before, k, j);
                let j2 = if j > i { j - 1 } else { j };
                assert(after.holds_at(k, j2));
                lemma_holds_once(after, k, j2);
            }
            assert forall|k: Seq<char>| #[trigger] after.model().dom().contains(k) implies
                before.model().dom().contains(k) && k != key@ by {
                let j = choose|j: int| after.holds_at(k, j);
                let j2 = if j >= i { j + 1 } else { j };
                assert(before.holds_at(k, j2));
                lemma_holds_once(before, k, j2);
            }
            assert(after.model() =~= before.model().remove(key@));
        }
        self.entries = entries;
    }
}

// ---------------------------------------------------------------- keys in order

/// Texts in strictly ascending order.
pub open spec fn ascending(s: Seq<Seq<char>>) -> bool {
    forall|i: int, j: int| 0 <= i < j < s.len() ==> precedes(#[trigger] s[i], #[trigger] s[j])
}

/// The keys of an object, each once, in ascending order.
pub open spec fn lists_keys(s: Seq<Seq<char>>, m: Map<Seq<char>, Jv>) -> bool {
    &&& ascending(s)
    &&& forall|k: Seq<char>| #[trigger] s.contains(k) <==> m.dom().contains(k)
}

/// The keys of an object in ascending order.
pub open spec fn key_list(m: Map<Seq<char>, Jv>) -> Seq<Seq<char>> {
    choose|s: Seq<Seq<char>>| lists_keys(s, m)
}

/// There is only one way to list the keys of an object in ascending order.
pub proof fn lemma_key_list_unique(a: Seq<Seq<char>>, b: Seq<Seq<char>>, m: Map<Seq<char>, Jv>)
    requires
        lists_keys(a, m),
        lists_keys(b, m),
    ensures
        a == b,
    decreases a.len(),
{
    if a.len() == 0 {
        if b.len() > 0 {
            assert(b.contains(b[0]));
            assert(a.contains(b[0]));
        }
        assert(a =~= b);
    } else {
        assert(a.contains(a[0]));
        assert(b.contains(a[0]));
        let j = choose|j: int| 0 <= j < b.len() && b[j] == a[0];
        assert(b.contains(b[0]));
        assert(a.contains(b[0]));
        let i = choose|i: int| 0 <= i < a.len() && a[i] == b[0];
        if a[0] != b[0] {
            lemma_precedes_strict(a[0], a[i]);
            lemma_precedes_strict(b[0], b[j]);
        }
        let a1 = a.drop_first();
        let b1 = b.drop_first();
        let m1 = m.remove(a[0]);
        assert forall|k: Seq<char>| #[trigger] a1.contains(k) <==> m1.dom().contains(k) by {
            if a1.contains(k) {
                let x = choose|x: int| 0 <= x < a1.len() && a1[x] == k;
                assert(a[x + 1] == k);
                lemma_precedes_strict(a[0], a[x + 1]);
                assert(a.contains(k));
            }
            if m1.dom().contains(k) {
                assert(a.contains(k));
                let x = choose|x: int| 0 <= x < a.len() && a[x] == k;
                assert(a1[x - 1] == k);
            }
        }
        assert forall|k: Seq<char>| #[trigger] b1.contains(k) <==> m1.dom().contains(k) by {
            if b1.contains(k) {
                let x = choose|x: int| 0 <= x < b1.len() && b1[x] == k;
                assert(b[x + 1] == k);
                lemma_precedes_strict(b[0], b[x + 1]);
                assert(b.contains(k));
            }
            if m1.dom().contains(k) {
                assert(b.contains(k));
                let x = choose|x: int| 0 <= x < b.len() && b[x] == k;
                assert(b1[x - 1] == k);
            }
        }
        lemma_key_list_unique(a1, b1, m1);
        assert(a =~= seq![a[0]] + a1);
        assert(b =~= seq![b[0]] + b1);
    }
}

impl JsonMap {
    /// The keys, in ascending order.
    pub fn keys(&self) -> (r: Vec<String>)
        ensures
            texts(r@) == key_list(self@),
            lists_keys(key_list(self@), self@),
    {
        proof {
            use_type_invariant(self);
        }
        let mut out: Vec<String> = Vec::new();
        let mut i: usize = 0;
        while i < self.entries.len()
            invariant
                i <= self.entries@.len(),
                out@.len() == i,
                forall|k: int| 0 <= k < i ==> #[trigger] out@[k]@ == self.entries@[k].0@,
            decreases self.entries@.len() - i,
        {
            out.push(self.entries[i].0.as_str().to_owned());
            i += 1;
        }
        proof {
            let s = texts(out@);
            assert forall|k: Seq<char>| #[trigger] s.contains(k) <==> self@.dom().contains(k) by {
                if s.contains(k) {
                    let x = choose|x: int| 0 <= x < s.len() && s[x] == k;
                    assert(self.holds_at(k, x));
                }
                if self@.dom().contains(k) {
                    let x = choose|x: int| self.holds_at(k, x);
                    assert(s[x] == k);
                }
            }
            assert(lists_keys(s, self@));
            lemma_key_list_unique(s, key_list(self@), self@);
        }
        out
    }
}

// ---------------------------------------------------------------- values

/// The model of an array is the sequence of the models of its elements.
proof fn lemma_arr(a: Vec<Json>)
    ensures
        Json::Arr(a)@ == Jv::Arr(views(a@)),
{
    assert(Json::Arr(a)@->Arr_0 =~= views(a@));
}

impl Json {
    pub fn arr(items: Vec<Json>) -> (r: Json)
        ensures
            r@ == Jv::Arr(views(items@)),
    {
        proof {
            lemma_arr(items);
        }
        Json::Arr(items)
    }

    pub fn obj(members: JsonMap) -> (r: Json)
        ensures
            r@ == Jv::Obj(members@),
    {
        Json::Obj(members)
    }

    pub fn text(s: &str) -> (r: Json)
        ensures
            r@ == Jv::Str(s@),
    {
        Json::Str(s.to_owned())
    }

    pub fn number(i: i64) -> (r: Json)
        ensures
            r@ == Jv::Int(i as int),
    {
        Json::Int(i as i128)
    }

    /// The object without members.
    pub fn empty() -> (r: Json)
        ensures
            r@ == no_members(),
    {
        Json::Obj(JsonMap::new())
    }

    pub fn is_null(&self) -> (r: bool)
        ensures
            r == (self@ is Null),
    {
        match self {
            Json::Null => true,
            _ => false,
        }
    }

    pub fn is_number(&self) -> (r: bool)
        ensures
            r == self@.is_number(),
    {
        match self {
            Json::Int(_) => true,
            Json::Float(_) => true,
            _ => false,
        }
    }

    pub fn as_str(&self) -> (r: Option<&str>)
        ensures
            opt_text(r) == self@.text(),
    {
        match self {
            Json::Str(s) => Some(s.as_str()),
            _ => None,
        }
    }

    pub fn as_bool(&self) -> (r: Option<bool>)
        ensures
            r == self@.flag(),
    {
        match self {
            Json::Bool(b) => Some(*b),
            _ => None,
        }
    }

    pub fn as_i64(&self) -> (r: Option<i64>)
        ensures
            opt_int(r) == self@.int64(),
    {
        match self {
            Json::Int(i) => if *i >= i64::MIN as i128 && *i <= i64::MAX as i128 {
                Some(*i as i64)
            } else {
                None
            },
            _ => None,
        }
    }

    pub fn as_array(&self) -> (r: Option<&Vec<Json>>)
        ensures
            match r {
                Some(a) => self@.items() == Some(views(a@)),
                None => self@.items() is None,
            },
    {
        match self {
            Json::Arr(a) => {
                proof {
                    lemma_arr(*a);
                }
                Some(a)
            },
            _ => None,
        }
    }

    pub fn as_object(&self) -> (r: Option<&JsonMap>)
        ensures
            match r {
                Some(m) => self@.members() == Some(m@),
                None => self@.members() is None,
            },
    {
        match self {
            Json::Obj(m) => Some(m),
            _ => None,
        }
    }

    /// The member under a key.
    pub fn get(&self, key: &str) -> (r: Option<&Json>)
        ensures
            opt_view(r) == self@.member(key@),
    {
        match self {
            Json::Obj(m) => m.get(key),
            _ => None,
        }
    }

    pub fn has(&self, key: &str) -> (r: bool)
        ensures
            r == self@.member(key@) is Some,
    {
        self.get(key).is_some()
    }

    /// The element at an index.
    pub fn get_index(&self, i: usize) -> (r: Option<&Json>)
        ensures
            opt_view(r) == self@.element(i as int),
    {
        match self {
            Json::Arr(a) => {
                if i < a.len() {
                    Some(&a[i])
                } else {
                    None
                }
            },
            _ => None,
        }
    }

    pub fn get_str(&self, key: &str) -> (r: Option<&str>)
        ensures
            opt_text(r) == text_at(self@, key@),
    {
        match self.get(key) {
            Some(v) => v.as_str(),
            None => None,
        }
    }

    pub fn get_str_or<'a>(&'a self, key: &str, default: &'a str) -> (r: &'a str)
        ensures
            r@ == text_or(self@, key@, default@),
    {
        match self.get_str(key) {
            Some(s) => s,
            None => default,
        }
    }

    pub fn get_filled_str(&self, key: &str) -> (r: Option<&str>)
        ensures
            opt_text(r) == filled_text_at(self@, key@),
    {
        match self.get_str(key) {
            Some(s) => if s.is_empty() {
                None
            } else {
                Some(s)
            },
            None => None,
        }
    }

    pub fn get_bool(&self, key: &str) -> (r: Option<bool>)
        ensures
            r == flag_at(self@, key@),
    {
        match self.get(key) {
            Some(v) => v.as_bool(),
            None => None,
        }
    }

    pub fn get_bool_or(&self, key: &str, default: bool) -> (r: bool)
        ensures
            r == flag_or(self@, key@, default),
    {
        match self.get_bool(key) {
            Some(b) => b,
            None => default,
        }
    }

    pub fn get_i64(&self, key: &str) -> (r: Option<i64>)
        ensures
            opt_int(r) == int_at(self@, key@),
    {
        match self.get(key) {
            Some(v) => v.as_i64(),
            None => None,
        }
    }

    pub fn get_i64_or(&self, key: &str, default: i64) -> (r: i64)
        ensures
            r == int_or(self@, key@, default as int),
    {
        match self.get_i64(key) {
            Some(i) => i,
            None => default,
        }
    }

    pub fn get_array(&self, key: &str) -> (r: Option<&Vec<Json>>)
        ensures
            match r {
                Some(a) => items_at(self@, key@) == Some(views(a@)),
                None => items_at(self@, key@) is None,
            },
    {
        match self.get(key) {
            Some(v) => v.as_array(),
            None => None,
        }
    }

    pub fn has_array(&self, key: &str) -> (r: bool)
        ensures
            r == has_items(self@, key@),
    {
        match self.get_array(key) {
            Some(a) => a.len() > 0,
            None => false,
        }
    }

    /// A copy of the value.
    pub fn dup(&self) -> (r: Json)
        ensures
            r@ == self@,
        decreases self,
    {
        match self {
            Json::Null => Json::Null,
            Json::Bool(b) => Json::Bool(*b),
            Json::Int(i) => Json::Int(*i),
            Json::Float(t) => Json::Float(t.clone()),
            Json::Str(s) => Json::Str(s.clone()),
            Json::Arr(a) => {
                let mut out: Vec<Json> = Vec::new();
                let mut i: usize = 0;
                while i < a.len()
                    invariant
                        i <= a@.len(),
                        out@.len() == i,
                        *self is Arr,
                        self->Arr_0 == *a,
                        forall|k: int| 0 <= k < i ==> #[trigger] out@[k]@ == a@[k]@,
                    decreases a@.len() - i,
                {
                    assert(decreases_to!(*self => *a));
                    assert(decreases_to!(*a => a[i as int]));
                    let item = a[i].dup();
                    out.push(item);
                    i += 1;
                }
                proof {
                    assert(views(out@) =~= views(a@));
                    lemma_arr(*a);
                    lemma_arr(out);
                }
                Json::Arr(out)
            },
            Json::Obj(m) => Json::Obj(m.dup()),
        }
    }

    /// The member under a key as a value of its own: null where there is none.
    pub fn copy_at(&self, key: &str) -> (r: Json)
        ensures
            r@ == self@.at(key@),
    {
        match self.get(key) {
            Some(v) => v.dup(),
            None => Json::Null,
        }
    }

    /// Assigns a member.
    pub fn set(&mut self, key: &str, value: Json)
        requires
            old(self)@.assignable(),
        ensures
            final(self)@ == old(self)@.with(key@, value@),
            final(self)@ is Obj,
    {
        let mut taken = Json::Null;
        std::mem::swap(&mut taken, self);
        let mut m = match taken {
            Json::Obj(m) => m,
            _ => JsonMap::new(),
        };
        m.insert(key, value);
        *self = Json::Obj(m);
    }

    /// Assigns a member, where the value can have members.
    pub fn assign(&mut self, key: &str, value: Json)
        ensures
            final(self)@ == old(self)@.with(key@, value@),
    {
        let able = match self {
            Json::Null => true,
            Json::Obj(_) => true,
            _ => false,
        };
        if able {
            self.set(key, value);
        }
    }

    /// The value with one member assigned.
    pub fn with(self, key: &str, value: Json) -> (r: Json)
        requires
            self@.assignable(),
        ensures
            r@ == self@.with(key@, value@),
            r@ is Obj,
    {
        let mut out = self;
        out.set(key, value);
        out
    }

    /// Takes a member away, where the value is an object.
    pub fn del(&mut self, key: &str)
        ensures
            final(self)@ == old(self)@.without(key@),
    {
        let mut taken = Json::Null;
        std::mem::swap(&mut taken, self);
        match taken {
            Json::Obj(m) => {
                let mut m = m;
                m.remove(key);
                *self = Json::Obj(m);
            },
            other => {
                *self = other;
            },
        }
    }

    /// Copies a member of another value, where that one has it.
    pub fn carry(&mut self, from: &Json, key: &str, new_key: &str)
        requires
            old(self)@.assignable(),
        ensures
            final(self)@ == carry(old(self)@, from@, key@, new_key@),
            final(self)@.assignable(),
    {
        match from.get(key) {
            Some(v) => {
                let c = v.dup();
                self.set(new_key, c);
            },
            None => {},
        }
    }
}

impl Json {
    /// Copies the members of another value under some keys.
    pub fn carry_all(&mut self, from: &Json, keys: &Vec<&str>)
        requires
            old(self)@ is Obj,
        ensures
            final(self)@ == carry_all(old(self)@, from@, names(keys@)),
            final(self)@ is Obj,
    {
        let ghost to = self@;
        let ghost all = names(keys@);
        let mut i: usize = 0;
        proof {
            assert(all.take(0) =~= Seq::<Seq<char>>::empty());
            assert(picked(from@, all.take(0)) =~= Map::<Seq<char>, Jv>::empty());
            assert(to->Obj_0.union_prefer_right(picked(from@, all.take(0))) =~= to->Obj_0);
        }
        while i < keys.len()
            invariant
                i <= keys@.len(),
                all == names(keys@),
                to is Obj,
                self@ == carry_all(to, from@, all.take(i as int)),
            decreases keys@.len() - i,
        {
            let key = keys[i];
            self.carry(from, key, key);
            proof {
                let done = all.take(i as int);
                let next = all.take(i + 1);
                assert(next =~= done.push(key@));
                assert(next.to_set() =~= done.to_set().insert(key@)) by {
                    assert forall|k: Seq<char>| next.to_set().contains(k) <==> done.to_set().insert(
                        key@,
                    ).contains(k) by {
                        if done.contains(k) {
                            let j = choose|j: int| 0 <= j < done.len() && done[j] == k;
                            assert(next[j] == k);
                        }
                        if k == key@ {
                            assert(next[i as int] == k);
                        }
                        if next.contains(k) && k != key@ {
                            let j = choose|j: int| 0 <= j < next.len() && next[j] == k;
                            assert(done[j] == k);
                        }
                    }
                }
                match from@ {
                    Jv::Obj(f) => {
                        let a = to->Obj_0.union_prefer_right(picked(from@, done));
                        let b = to->Obj_0.union_prefer_right(picked(from@, next));
                        if f.dom().contains(key@) {
                            assert(b =~= a.insert(key@, f[key@]));
                        } else {
                            assert(b =~= a);
                        }
                    },
                    _ => {},
                }
            }
            i += 1;
        }
        proof {
            assert(all.take(i as int) =~= all);
        }
    }

    /// Whether a switch is on: true, or the text "true".
    pub fn is_on(&self) -> (r: bool)
        ensures
            r == switched_on(self@),
    {
        match self {
            Json::Bool(b) => *b,
            Json::Str(s) => same(s.as_str(), "true"),
            _ => false,
        }
    }
}

/// A value that may be absent, or else the member under a key.
pub fn or_get<'a>(o: Option<&'a Json>, v: &'a Json, key: &str) -> (r: Option<&'a Json>)
    ensures
        opt_view(r) == or_member(opt_view(o), v@, key@),
{
    match o {
        Some(x) => Some(x),
        None => v.get(key),
    }
}

/// The text of a value that may be absent.
pub fn opt_str(o: Option<&Json>) -> (r: Option<&str>)
    ensures
        opt_text(r) == text_in(opt_view(o)),
{
    match o {
        Some(v) => v.as_str(),
        None => None,
    }
}

/// A text, where there is one and it is not empty.
pub fn opt_filled(o: Option<&str>) -> (r: Option<&str>)
    ensures
        opt_text(r) == filled(opt_text(o)),
{
    match o {
        Some(s) => if s.is_empty() {
            None
        } else {
            Some(s)
        },
        None => None,
    }
}

/// Makes an array of texts.
pub fn string_array(items: &Vec<String>) -> (r: Json)
    ensures
        r@ == text_array(texts(items@)),
{
    let mut out: Vec<Json> = Vec::new();
    let mut i: usize = 0;
    while i < items.len()
        invariant
            i <= items@.len(),
            out@.len() == i,
            forall|k: int| 0 <= k < i ==> #[trigger] out@[k]@ == Jv::Str(items@[k]@),
        decreases items@.len() - i,
    {
        out.push(Json::text(items[i].as_str()));
        i += 1;
    }
    proof {
        assert(views(out@) =~= text_array(texts(items@))->Arr_0);
    }
    Json::arr(out)
}

impl JsonMap {
    /// A copy of the object.
    pub fn dup(&self) -> (r: JsonMap)
        ensures
            r@ == self@,
        decreases self,
    {
        proof {
            use_type_invariant(self);
        }
        let mut out: Vec<(String, Json)> = Vec::new();
        let mut i: usize = 0;
        while i < self.entries.len()
            invariant
                i <= self.entries@.len(),
                out@.len() == i,
                forall|k: int|
                    0 <= k < i ==> (#[trigger] out@[k]).0@ == self.entries@[k].0@ && out@[k].1@
                        == self.entries@[k].1@,
            decreases self.entries@.len() - i,
        {
            let value = self.entries[i].1.dup();
            out.push((self.entries[i].0.as_str().to_owned(), value));
            i += 1;
        }
        let ghost after = JsonMap { entries: out };
        proof {
            assert(after.ordered());
            assert forall|k: Seq<char>| #[trigger] self@.dom().contains(k) implies
                after.model().dom().contains(k) && after.model()[k] == self@[k] by {
                let j = choose|j: int| self.holds_at(k, j);
                lemma_holds_once(*self, k, j);
                assert(after.holds_at(k, j));
                lemma_holds_once(after, k, j);
            }
            assert forall|k: Seq<char>| #[trigger] after.model().dom().contains(k) implies
                self@.dom().contains(k) by {
                let j = choose|j: int| after.holds_at(k, j);
                assert(self.holds_at(k, j));
            }
            assert(after.model() =~= self@);
        }
        JsonMap { entries: out }
    }
}

// ---------------------------------------------------------------- text form

#[verifier::external_type_specification]
#[verifier::external_body]
pub struct ExJsonValue(serde_json::Value);

/// What a `serde_json::Value` holds.
pub uninterp spec fn value_view(v: serde_json::Value) -> Jv;

/// What the `serde_json::Value` that is built of a JSON value holds.
pub uninterp spec fn stored_json(j: Jv) -> Jv;

/// What `serde_json::from_str` reads from a text, where the text is JSON.
pub uninterp spec fn parsed_json(text: Seq<char>) -> Option<Jv>;

/// What `serde_json::to_string` writes for a value that holds this.
pub uninterp spec fn written_json(j: Jv) -> Seq<char>;

/// The JSON text of a value.
pub open spec fn json_text(j: Jv) -> Seq<char> {
    written_json(stored_json(j))
}

/// How deep values may be nested for `serde_json::from_str` to read them.
pub const NESTING: u64 = 127;

/// Whether a key is one of those that `serde_json` keeps for itself.
pub open spec fn is_private_key(key: Seq<char>) -> bool {
    "$serde_json::private::"@.is_prefix_of(key)
}

/// Whether a value is nested no deeper than so many levels, all its numbers
/// are integers of 64 bits, and none of its keys is a private one.
pub open spec fn is_plain(j: Jv, levels: nat) -> bool
    decreases levels,
{
    match j {
        Jv::Null | Jv::Bool(_) | Jv::Str(_) => true,
        Jv::Int(i) => i64::MIN <= i <= u64::MAX,
        Jv::Float(_) => false,
        Jv::Arr(a) => levels > 0 && forall|i: int|
            0 <= i < a.len() ==> is_plain(#[trigger] a[i], (levels - 1) as nat),
        Jv::Obj(m) => levels > 0 && forall|k: Seq<char>|
            m.dom().contains(k) ==> !is_private_key(k) && is_plain(
                #[trigger] m[k],
                (levels - 1) as nat,
            ),
    }
}

/// Whether two values are the same down to some level, but for their numbers.
pub open spec fn alike(j: Jv, k: Jv, levels: nat) -> bool
    decreases levels,
{
    match (j, k) {
        (Jv::Int(_), _) | (Jv::Float(_), _) => k is Int || k is Float || k is Null,
        (Jv::Arr(a), Jv::Arr(b)) => a.len() == b.len() && (levels > 0 ==> forall|i: int|
            0 <= i < a.len() ==> alike(#[trigger] a[i], b[i], (levels - 1) as nat)),
        (Jv::Obj(m), Jv::Obj(n)) => m.dom() =~= n.dom() && (levels > 0 ==> forall|x: Seq<char>|
            m.dom().contains(x) ==> alike(#[trigger] m[x], n[x], (levels - 1) as nat)),
        _ => j == k,
    }
}

/// Takes a `serde_json::Value` apart, one variant at a time. The contract
/// says that the result holds what the value holds. (The crate keeps object
/// members in the order of their keys.)
#[verifier::external_body]
fn json_of(v: serde_json::Value) -> (r: Json)
    ensures
        r@ == value_view(v),
{
    match v {
        serde_json::Value::Null => Json::Null,
        serde_json::Value::Bool(b) => Json::Bool(b),
        serde_json::Value::Number(n) => match n.as_i128() {
            Some(i) => Json::Int(i),
            None => Json::Float(n.to_string()),
        },
        serde_json::Value::String(s) => Json::Str(s),
        serde_json::Value::Array(a) => Json::Arr(a.into_iter().map(json_of).collect()),
        serde_json::Value::Object(o) => Json::Obj(
            JsonMap { entries: o.into_iter().map(|(k, x)| (k, json_of(x))).collect() },
        ),
    }
}

/// Builds the `serde_json::Value` of a value, one variant at a time. The
/// contract says that what the result holds depends on the value alone, that it
/// is the value but for numbers, and that the result of a plain value holds
/// that value. (A number that is no integer of 64 bits may be rounded.)
#[verifier::external_body]
pub(crate) fn value_of(j: &Json) -> (r: serde_json::Value)
    ensures
        value_view(r) == stored_json(j@),
        forall|levels: nat| #[trigger] alike(j@, value_view(r), levels),
        is_plain(j@, NESTING as nat) ==> value_view(r) == j@,
{
    match j {
        Json::Null => serde_json::Value::Null,
        Json::Bool(b) => serde_json::Value::Bool(*b),
        Json::Int(i) => serde_json::Number::from_i128(*i).into(),
        Json::Float(t) => t.parse().ok().and_then(serde_json::Number::from_f64).into(),
        Json::Str(s) => serde_json::Value::String(s.clone()),
        Json::Arr(a) => serde_json::Value::Array(a.iter().map(value_of).collect()),
        Json::Obj(m) => serde_json::Value::Object(
            m.entries.iter().map(|e| (e.0.clone(), value_of(&e.1))).collect(),
        ),
    }
}

/// `serde_json::from_str` into a `serde_json::Value`: the value that the text
/// is the JSON of, or nothing where the text is no JSON.
#[verifier::external_body]
fn read_value(text: &str) -> (r: Option<serde_json::Value>)
    ensures
        match r {
            Some(v) => parsed_json(text@) == Some(value_view(v)),
            None => parsed_json(text@) is None,
        },
{
    serde_json::from_str(text).ok()
}

/// What `serde_json::from_str` says of a text that is no JSON.
pub uninterp spec fn json_error(text: Seq<char>) -> Seq<char>;

/// The message of the error that `serde_json::from_str` gives for a text; it
/// gives one exactly where the text is no JSON.
#[verifier::external_body]
pub(crate) fn read_error(text: &str) -> (r: Option<String>)
    ensures
        r is Some == (parsed_json(text@) is None),
        r is Some ==> r->Some_0@ == json_error(text@),
{
    serde_json::from_str::<serde_json::Value>(text).err().map(|e| e.to_string())
}

/// `serde_json::to_string` on a `serde_json::Value`, which never fails: its
/// keys are texts and its numbers are finite. What it writes for a plain value
/// `serde_json::from_str` reads as that value. (Of deeper nesting it reads
/// nothing, a number that is no integer it may read with an error in the last
/// place, and an object under a private key it may read as something else.)
#[verifier::external_body]
fn write_value(v: &serde_json::Value) -> (r: String)
    ensures
        r@ == written_json(value_view(*v)),
        is_plain(value_view(*v), NESTING as nat) ==> parsed_json(r@) == Some(value_view(*v)),
{
    serde_json::to_string(v).unwrap_or_default()
}

/// What `serde_json::Value::pointer` leads to in a value that holds this.
pub uninterp spec fn json_pointer(j: Jv, pointer: Seq<char>) -> Option<Jv>;

/// Whether a part of a pointer writes itself: it has no slash and no tilde.
pub open spec fn is_plain_token(t: Seq<char>) -> bool {
    !t.contains('/') && !t.contains('~')
}

/// `serde_json::Value::pointer`: what a JSON pointer leads to. A pointer of two
/// plain parts leads to the member of a member, where no array is on the way.
#[verifier::external_body]
pub(crate) fn find_pointer(v: &serde_json::Value, pointer: &str) -> (r: Option<Json>)
    ensures
        opt_json(r) == json_pointer(value_view(*v), pointer@),
        forall|a: Seq<char>, b: Seq<char>|
            #![trigger is_plain_token(a), is_plain_token(b)]
            is_plain_token(a) && is_plain_token(b) && pointer@ == "/"@ + a + "/"@ + b
                && value_view(*v) !is Arr && value_view(*v).at(a) !is Arr ==> opt_json(r)
                == value_view(*v).at(a).member(b),
{
    v.pointer(pointer).map(|x| json_of(x.clone()))
}

/// What `serde_json::Value::as_f64` gives for a value that holds this, as bits.
pub uninterp spec fn double_bits_in(j: Jv) -> Option<u64>;

/// The text that `serde_json` writes for the double-precision number that
/// `serde_json::Value::as_f64` gives.
pub uninterp spec fn float_text_in(j: Jv) -> Option<Seq<char>>;

/// The text that the double-precision number of `serde_json::Value::as_f64`
/// shows itself as.
pub uninterp spec fn shown_double_in(j: Jv) -> Option<Seq<char>>;

/// What `str::parse` reads as a double-precision number, in the text that
/// `serde_json` writes for it: no text where the number is not finite, and
/// nothing at all where the text is no number.
pub uninterp spec fn read_float(s: Seq<char>) -> Option<Option<Seq<char>>>;

/// `serde_json::Value::as_f64`, then `serde_json::Number::from_f64`: the JSON
/// text of the double-precision number of a JSON number.
#[verifier::external_body]
fn float_text_of(v: &serde_json::Value) -> (r: Option<String>)
    ensures
        opt_string(r) == float_text_in(value_view(*v)),
{
    v.as_f64().and_then(serde_json::Number::from_f64).map(|n| n.to_string())
}

/// `serde_json::Value::as_f64`, then `ToString`: how the double-precision
/// number of a JSON number shows itself.
#[verifier::external_body]
fn shown_double_of(v: &serde_json::Value) -> (r: Option<String>)
    ensures
        opt_string(r) == shown_double_in(value_view(*v)),
{
    v.as_f64().map(|x| x.to_string())
}

/// `str::parse`, then `serde_json::Number::from_f64`: the JSON text of the
/// double-precision number that a text writes.
#[verifier::external_body]
fn float_in(s: &str) -> (r: Option<Option<String>>)
    ensures
        match r {
            Some(t) => read_float(s@) == Some(opt_string(t)),
            None => read_float(s@) is None,
        },
{
    s.parse().ok().map(serde_json::Number::from_f64).map(|n| n.map(|x| x.to_string()))
}

/// A number as a double-precision number: its own value, or that of a text
/// that writes one. A number that is not finite is null.
pub open spec fn as_float(v: Jv) -> Option<Jv> {
    match v {
        Jv::Int(_) | Jv::Float(_) => match float_text_in(stored_json(v)) {
            Some(t) => Some(Jv::Float(t)),
            None => None,
        },
        Jv::Str(s) => match read_float(s) {
            Some(Some(t)) => Some(Jv::Float(t)),
            Some(None) => Some(Jv::Null),
            None => None,
        },
        _ => None,
    }
}

/// How a number shows itself as a double-precision number.
pub open spec fn double_shown(v: Jv) -> Option<Seq<char>> {
    if v.is_number() {
        shown_double_in(stored_json(v))
    } else {
        None
    }
}

impl Json {
    /// A number as a double-precision number: its own value, or that of a text
    /// that writes one.
    pub fn to_float(&self) -> (r: Option<Json>)
        ensures
            match r {
                Some(j) => as_float(self@) == Some(j@),
                None => as_float(self@) is None,
            },
    {
        match self {
            Json::Str(s) => match float_in(s.as_str()) {
                Some(Some(t)) => Some(Json::Float(t)),
                Some(None) => Some(Json::Null),
                None => None,
            },
            _ => if self.is_number() {
                let v = value_of(self);
                match float_text_of(&v) {
                    Some(t) => Some(Json::Float(t)),
                    None => None,
                }
            } else {
                None
            },
        }
    }

    /// How a number shows itself as a double-precision number.
    pub fn show_double(&self) -> (r: Option<String>)
        ensures
            opt_string(r) == double_shown(self@),
    {
        if self.is_number() {
            let v = value_of(self);
            shown_double_of(&v)
        } else {
            None
        }
    }
}

/// `serde_json::Value::as_f64`: the double-precision number of a JSON number,
/// handed out by its bits.
#[verifier::external_body]
fn double_of(v: &serde_json::Value) -> (r: Option<u64>)
    ensures
        r == double_bits_in(value_view(*v)),
{
    v.as_f64().map(|x| x.to_bits())
}

impl Json {
    /// The bits of the double-precision number that a number stands for.
    pub fn double_bits(&self) -> (r: Option<u64>)
        ensures
            r == double_bits_in(stored_json(self@)),
    {
        let v = value_of(self);
        double_of(&v)
    }

    /// Reads a JSON text.
    pub fn parse(text: &str) -> (r: Option<Json>)
        ensures
            match r {
                Some(j) => parsed_json(text@) == Some(j@),
                None => parsed_json(text@) is None,
            },
    {
        match read_value(text) {
            Some(v) => Some(json_of(v)),
            None => None,
        }
    }

    /// Writes the value as JSON text; a plain value is read back from it.
    pub fn to_text(&self) -> (r: String)
        ensures
            r@ == json_text(self@),
            is_plain(self@, NESTING as nat) ==> parsed_json(r@) == Some(self@),
    {
        let v = value_of(self);
        write_value(&v)
    }
}

// ---------------------------------------------------------------- composing

pub fn list1(a: &str) -> (r: Vec<&str>)
    ensures
        names(r@) == seq![a@],
{
    let r = vec![a];
    assert(names(r@) =~= seq![a@]);
    r
}

pub fn list2<'a>(a: &'a str, b: &'a str) -> (r: Vec<&'a str>)
    ensures
        names(r@) == seq![a@, b@],
{
    let r = vec![a, b];
    assert(names(r@) =~= seq![a@, b@]);
    r
}

pub fn list3<'a>(a: &'a str, b: &'a str, c: &'a str) -> (r: Vec<&'a str>)
    ensures
        names(r@) == seq![a@, b@, c@],
{
    let r = vec![a, b, c];
    assert(names(r@) =~= seq![a@, b@, c@]);
    r
}

/// The object with one member.
pub open spec fn single(key: Seq<char>, v: Jv) -> Jv {
    no_members().with(key, v)
}

/// An array of objects, each with one text under the same key.
pub open spec fn tagged(items: Seq<Seq<char>>, key: Seq<char>) -> Jv {
    Jv::Arr(items.map_values(|u: Seq<char>| single(key, Jv::Str(u))))
}

/// Makes an array of objects, each with one text under the same key.
pub fn tagged_array(items: &Vec<String>, key: &str) -> (r: Json)
    ensures
        r@ == tagged(texts(items@), key@),
{
    let mut out: Vec<Json> = Vec::new();
    let mut i: usize = 0;
    while i < items.len()
        invariant
            i <= items@.len(),
            out@.len() == i,
            forall|k: int| 0 <= k < i ==> #[trigger] out@[k]@ == single(key@, Jv::Str(items@[k]@)),
        decreases items@.len() - i,
    {
        out.push(Json::empty().with(key, Json::text(items[i].as_str())));
        i += 1;
    }
    proof {
        assert(views(out@) =~= tagged(texts(items@), key@)->Arr_0);
    }
    Json::arr(out)
}

/// The members of a value that may be absent or no object: none then.
pub open spec fn members_in(o: Option<Jv>) -> Map<Seq<char>, Jv> {
    match o {
        Some(Jv::Obj(m)) => m,
        _ => Map::empty(),
    }
}

/// Copies the members of a value that may be absent or no object.
pub fn copy_members(o: Option<&Json>) -> (r: JsonMap)
    ensures
        r@ == members_in(opt_view(o)),
{
    match o {
        Some(v) => match v {
            Json::Obj(m) => m.dup(),
            _ => JsonMap::new(),
        },
        None => JsonMap::new(),
    }
}

impl JsonMap {
    /// Puts in the members of another object whose keys are still free.
    pub fn fill_from(&mut self, other: &JsonMap)
        ensures
            final(self)@ == other@.union_prefer_right(old(self)@),
    {
        let ghost start = self@;
        let ghost ks = key_list(other@);
        let keys = other.keys();
        let mut i: usize = 0;
        proof {
            assert(ks.take(0) =~= Seq::<Seq<char>>::empty());
            assert(self@ =~= other@.restrict(ks.take(0).to_set()).union_prefer_right(start));
        }
        while i < keys.len()
            invariant
                i <= keys@.len(),
                ks == texts(keys@),
                lists_keys(ks, other@),
                self@ == other@.restrict(ks.take(i as int).to_set()).union_prefer_right(start),
            decreases keys@.len() - i,
        {
            let key = keys[i].as_str();
            let ghost done = ks.take(i as int);
            let ghost next = ks.take(i + 1);
            proof {
                assert(next =~= done.push(key@));
                assert(next.to_set() =~= done.to_set().insert(key@)) by {
                    assert forall|k: Seq<char>| next.to_set().contains(k) <==> done.to_set().insert(
                        key@,
                    ).contains(k) by {
                        if done.contains(k) {
                            let j = choose|j: int| 0 <= j < done.len() && done[j] == k;
                            assert(next[j] == k);
                        }
                        if k == key@ {
                            assert(next[i as int] == k);
                        }
                        if next.contains(k) && k != key@ {
                            let j = choose|j: int| 0 <= j < next.len() && next[j] == k;
                            assert(done[j] == k);
                        }
                    }
                }
                assert(ks[i as int] == key@);
                assert(ks.contains(key@));
            }
            if !self.contains_key(key) {
                match other.get(key) {
                    Some(v) => {
                        self.insert(key, v.dup());
                    },
                    None => {},
                }
            }
            proof {
                assert(self@ =~= other@.restrict(next.to_set()).union_prefer_right(start));
            }
            i += 1;
        }
        proof {
            assert(ks.take(i as int) =~= ks);
            assert(other@.restrict(ks.to_set()) =~= other@) by {
                assert forall|k: Seq<char>| other@.dom().contains(k) implies ks.to_set().contains(k) by {
                    assert(ks.contains(k));
                }
            }
        }
    }
}

/// A member put in where there is a value for it.
pub open spec fn with_some(r: Jv, key: Seq<char>, o: Option<Jv>) -> Jv {
    match o {
        Some(v) => r.with(key, v),
        None => r,
    }
}

/// Puts a copy of a value in, where there is one.
pub fn set_some(result: &mut Json, key: &str, o: Option<&Json>)
    requires
        old(result)@ is Obj,
    ensures
        final(result)@ == with_some(old(result)@, key@, opt_view(o)),
        final(result)@ is Obj,
{
    match o {
        Some(v) => {
            result.set(key, v.dup());
        },
        None => {},
    }
}

/// The elements of a value that may be absent or no array: none then.
pub open spec fn items_in(o: Option<Jv>) -> Seq<Jv> {
    match o {
        Some(Jv::Arr(a)) => a,
        _ => Seq::empty(),
    }
}

/// Copies the elements of a value that may be absent or no array.
pub fn copy_items(o: Option<&Json>) -> (r: Vec<Json>)
    ensures
        views(r@) == items_in(opt_view(o)),
{
    let mut out: Vec<Json> = Vec::new();
    proof {
        assert(views(out@) =~= Seq::<Jv>::empty());
    }
    match o {
        Some(v) => {
            match v.as_array() {
                Some(a) => {
                    let mut i: usize = 0;
                    while i < a.len()
                        invariant
                            i <= a@.len(),
                            out@.len() == i,
                            forall|k: int| 0 <= k < i ==> #[trigger] out@[k]@ == a@[k]@,
                        decreases a@.len() - i,
                    {
                        out.push(a[i].dup());
                        i += 1;
                    }
                    proof {
                        assert(views(out@) =~= views(a@));
                    }
                },
                None => {},
            }
        },
        None => {},
    }
    out
}

/// A text put in where there is one.
pub open spec fn with_text(r: Jv, key: Seq<char>, o: Option<Seq<char>>) -> Jv {
    match o {
        Some(t) => r.with(key, Jv::Str(t)),
        None => r,
    }
}

/// Puts a text in, where there is one.
pub fn set_text(result: &mut Json, key: &str, o: Option<&str>)
    requires
        old(result)@ is Obj,
    ensures
        final(result)@ == with_text(old(result)@, key@, opt_text(o)),
        final(result)@ is Obj,
{
    match o {
        Some(t) => {
            result.set(key, Json::text(t));
        },
        None => {},
    }
}

/// An integer put in where there is one.
pub open spec fn with_int(r: Jv, key: Seq<char>, o: Option<int>) -> Jv {
    match o {
        Some(i) => r.with(key, Jv::Int(i)),
        None => r,
    }
}

/// Puts an integer in, where there is one.
pub fn set_int(result: &mut Json, key: &str, o: Option<i64>)
    requires
        old(result)@ is Obj,
    ensures
        final(result)@ == with_int(old(result)@, key@, opt_int(o)),
        final(result)@ is Obj,
{
    match o {
        Some(i) => {
            result.set(key, Json::number(i));
        },
        None => {},
    }
}

/// A boolean put in where there is one.
pub open spec fn with_flag(r: Jv, key: Seq<char>, o: Option<bool>) -> Jv {
    match o {
        Some(b) => r.with(key, Jv::Bool(b)),
        None => r,
    }
}

/// Puts a boolean in, where there is one.
pub fn set_flag(result: &mut Json, key: &str, o: Option<bool>)
    requires
        old(result)@ is Obj,
    ensures
        final(result)@ == with_flag(old(result)@, key@, o),
        final(result)@ is Obj,
{
    match o {
        Some(b) => {
            result.set(key, Json::Bool(b));
        },
        None => {},
    }
}

/// The value without the members that are null.
pub open spec fn stripped(v: Jv) -> Jv {
    match v {
        Jv::Obj(m) => Jv::Obj(m.restrict(Set::new(|k: Seq<char>| !(m[k] is Null)))),
        _ => v,
    }
}

impl Json {
    /// A copy without the members that are null.
    pub fn without_nulls(&self) -> (r: Json)
        ensures
            r@ == stripped(self@),
    {
        match self {
            Json::Obj(m) => {
                let mut out = m.dup();
                let keys = m.keys();
                let ghost ks = key_list(m@);
                let mut i: usize = 0;
                proof {
                    assert(m@.restrict(Set::new(|k: Seq<char>| !(m@[k] is Null) || !ks.take(0).contains(k))) =~= m@);
                }
                while i < keys.len()
                    invariant
                        i <= keys@.len(),
                        ks == texts(keys@),
                        lists_keys(ks, m@),
                        out@ == m@.restrict(
                            Set::new(
                                |k: Seq<char>| !(m@[k] is Null) || !ks.take(i as int).contains(k),
                            ),
                        ),
                    decreases keys@.len() - i,
                {
                    let key = keys[i].as_str();
                    let null = match m.get(key) {
                        Some(v) => v.is_null(),
                        None => false,
                    };
                    let ghost before = out@;
                    if null {
                        out.remove(key);
                    }
                    proof {
                        assert(ks[i as int] == key@);
                        assert(ks.contains(key@));
                        let done = ks.take(i as int);
                        let next = ks.take(i + 1);
                        assert forall|k: Seq<char>| next.contains(k) <==> done.contains(k) || k == key@ by {
                            if done.contains(k) {
                                let j = choose|j: int| 0 <= j < done.len() && done[j] == k;
                                assert(next[j] == k);
                            }
                            if k == key@ {
                                assert(next[i as int] == k);
                            }
                            if next.contains(k) && k != key@ {
                                let j = choose|j: int| 0 <= j < next.len() && next[j] == k;
                                assert(done[j] == k);
                            }
                        }
                        assert(out@ =~= m@.restrict(
                            Set::new(|k: Seq<char>| !(m@[k] is Null) || !next.contains(k)),
                        ));
                    }
                    i += 1;
                }
                proof {
                    assert(ks.take(i as int) =~= ks);
                    assert(out@ =~= m@.restrict(Set::new(|k: Seq<char>| !(m@[k] is Null)))) by {
                        assert forall|k: Seq<char>| m@.dom().contains(k) implies ks.contains(k) by {}
                    }
                }
                Json::Obj(out)
            },
            _ => self.dup(),
        }
    }
}

} // verus!
