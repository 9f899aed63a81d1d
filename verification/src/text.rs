//! Character-level text operations: each is stated over sequences of characters.
use vstd::prelude::*;
use vstd::string::*;
use vstd::utf8::is_ascii_chars;

verus! {

/// `std::string::String::push` appends one character.
pub assume_specification[ String::push ](s: &mut String, ch: char)
    ensures
        final(s)@ == old(s)@.push(ch),
;

/// Whether two texts have the same characters.
pub(crate) fn same(a: &str, b: &str) -> (r: bool)
    ensures
        r == (a@ == b@),
{
    let x = chars_of(a);
    let y = chars_of(b);
    if x.len() != y.len() {
        return false;
    }
    let mut i: usize = 0;
    while i < x.len()
        invariant
            i <= x@.len(),
            x@.len() == y@.len(),
            x@ == a@,
            y@ == b@,
            forall|j: int| 0 <= j < i ==> #[trigger] x@[j] == y@[j],
        decreases x@.len() - i,
    {
        if x[i] != y[i] {
            return false;
        }
        i += 1;
    }
    assert(x@ =~= y@);
    true
}

/// The characters of a text, as a vector.
pub(crate) fn chars_of(s: &str) -> (r: Vec<char>)
    ensures
        r@ == s@,
{
    let mut out: Vec<char> = Vec::new();
    for c in it: s.chars()
        invariant
            out@ == s@.take(it.index() as int),
            it.seq() == s@,
    {
        proof {
            assert(s@.take(it.index() as int + 1) == s@.take(it.index() as int).push(c));
        }
        out.push(c);
    }
    proof {
        assert(s@.take(s@.len() as int) == s@);
    }
    out
}

/// The length of a text in UTF-8 bytes.
pub open spec fn byte_count(s: Seq<char>) -> nat {
    vstd::utf8::encode_utf8(s).len()
}

/// The length of a text in UTF-8 bytes.
pub(crate) fn byte_len(s: &str) -> (r: usize)
    ensures
        r == byte_count(s@),
{
    s.as_bytes().len()
}

// ---------------------------------------------------------------- order

/// Lexicographic order by code point: the first difference decides, and a
/// proper prefix comes first.
pub open spec fn precedes(a: Seq<char>, b: Seq<char>) -> bool {
    exists|i: int| first_difference(a, b, i)
}

/// `a` comes before `b` because of what stands at index `i`.
pub open spec fn first_difference(a: Seq<char>, b: Seq<char>, i: int) -> bool {
    &&& 0 <= i <= a.len()
    &&& i < b.len()
    &&& a.take(i) == b.take(i)
    &&& i < a.len() ==> (a[i] as u32) < (b[i] as u32)
}

/// Which of two texts comes first.
pub enum Side {
    Before,
    Same,
    After,
}

/// Compares two texts by code point.
pub(crate) fn ordering(a: &str, b: &str) -> (r: Side)
    ensures
        match r {
            Side::Before => precedes(a@, b@),
            Side::Same => a@ == b@,
            Side::After => precedes(b@, a@),
        },
{
    let x = chars_of(a);
    let y = chars_of(b);
    let mut i: usize = 0;
    while i < x.len() && i < y.len()
        invariant
            x@ == a@,
            y@ == b@,
            i <= x@.len(),
            i <= y@.len(),
            a@.take(i as int) == b@.take(i as int),
        decreases x@.len() - i,
    {
        let p: u32 = x[i] as u32;
        let q: u32 = y[i] as u32;
        if p < q {
            assert(first_difference(a@, b@, i as int));
            return Side::Before;
        }
        if p > q {
            assert(first_difference(b@, a@, i as int));
            return Side::After;
        }
        proof {
            vstd::utf8::char_u32_cast(x@[i as int], p);
            vstd::utf8::char_u32_cast(y@[i as int], q);
            assert(a@.take(i as int + 1) == a@.take(i as int).push(a@[i as int]));
            assert(b@.take(i as int + 1) == b@.take(i as int).push(b@[i as int]));
        }
        i += 1;
    }
    if i < y.len() {
        assert(first_difference(a@, b@, i as int));
        Side::Before
    } else if i < x.len() {
        assert(first_difference(b@, a@, i as int));
        Side::After
    } else {
        proof {
            assert(a@.take(i as int) == a@);
            assert(b@.take(i as int) == b@);
        }
        Side::Same
    }
}

/// The order is transitive.
pub proof fn lemma_precedes_trans(a: Seq<char>, b: Seq<char>, c: Seq<char>)
    requires
        precedes(a, b),
        precedes(b, c),
    ensures
        precedes(a, c),
{
    let i = choose|i: int| first_difference(a, b, i);
    let j = choose|j: int| first_difference(b, c, j);
    let k = if i < j { i } else { j };
    assert(a.take(k) == c.take(k)) by {
        assert(a.take(k) == a.take(i).take(k));
        assert(b.take(k) == b.take(i).take(k));
        assert(b.take(k) == b.take(j).take(k));
        assert(c.take(k) == c.take(j).take(k));
    }
    if i < j {
        assert(b[i] == b.take(j)[i]);
        assert(c[i] == c.take(j)[i]);
    } else if j < i {
        assert(a[j] == a.take(i)[j]);
        assert(b[j] == b.take(i)[j]);
    }
    assert(first_difference(a, c, k));
}

/// No text precedes itself, and of two texts at most one precedes the other.
pub proof fn lemma_precedes_strict(a: Seq<char>, b: Seq<char>)
    requires
        precedes(a, b),
    ensures
        a != b,
        !precedes(b, a),
{
    let i = choose|i: int| first_difference(a, b, i);
    if a == b {
        assert(false);
    }
    if precedes(b, a) {
        lemma_precedes_trans(a, b, a);
        let j = choose|j: int| first_difference(a, a, j);
        assert(false);
    }
}

// ---------------------------------------------------------------- places

/// `p` stands in `s` at index `i`.
pub open spec fn occurs_at(s: Seq<char>, p: Seq<char>, i: int) -> bool {
    &&& 0 <= i
    &&& i + p.len() <= s.len()
    &&& s.subrange(i, i + p.len()) == p
}

/// `p` stands somewhere in `s`.
pub open spec fn holds(s: Seq<char>, p: Seq<char>) -> bool {
    exists|i: int| occurs_at(s, p, i)
}

/// The first place of `p` in `s` is index `i`.
pub open spec fn first_at(s: Seq<char>, p: Seq<char>, i: int) -> bool {
    &&& occurs_at(s, p, i)
    &&& forall|j: int| 0 <= j < i ==> !#[trigger] occurs_at(s, p, j)
}

/// The first place of `p` in `s`.
pub open spec fn place_of(s: Seq<char>, p: Seq<char>) -> Option<int> {
    if exists|i: int| first_at(s, p, i) {
        Some(choose|i: int| first_at(s, p, i))
    } else {
        None
    }
}

/// A first place is the only one.
pub proof fn lemma_place_is(s: Seq<char>, p: Seq<char>, i: int)
    requires
        first_at(s, p, i),
    ensures
        place_of(s, p) == Some(i),
        holds(s, p),
{
    let j = choose|j: int| first_at(s, p, j);
    assert(first_at(s, p, j));
    assert(occurs_at(s, p, i) && occurs_at(s, p, j));
}

/// Where `p` stands in `s` it has a first place.
pub proof fn lemma_holds_has_place(s: Seq<char>, p: Seq<char>)
    ensures
        holds(s, p) <==> place_of(s, p) is Some,
        match place_of(s, p) {
            Some(i) => first_at(s, p, i) && 0 <= i <= s.len() - p.len(),
            None => true,
        },
{
    if holds(s, p) {
        let i = choose|i: int| occurs_at(s, p, i);
        lemma_least_place(s, p, i);
    }
    if exists|i: int| first_at(s, p, i) {
        let i = choose|i: int| first_at(s, p, i);
        assert(occurs_at(s, p, i));
    }
}

proof fn lemma_least_place(s: Seq<char>, p: Seq<char>, i: int)
    requires
        occurs_at(s, p, i),
    ensures
        exists|j: int| first_at(s, p, j),
    decreases i,
{
    if exists|j: int| 0 <= j < i && #[trigger] occurs_at(s, p, j) {
        let j = choose|j: int| 0 <= j < i && #[trigger] occurs_at(s, p, j);
        lemma_least_place(s, p, j);
    } else {
        assert(first_at(s, p, i));
    }
}

/// Whether `p` stands in `s` at index `i`.
fn stands_at(s: &Vec<char>, p: &Vec<char>, i: usize) -> (r: bool)
    ensures
        r == occurs_at(s@, p@, i as int),
{
    if p.len() > s.len() || i > s.len() - p.len() {
        return false;
    }
    let n: usize = s.len();
    let mut k: usize = 0;
    while k < p.len()
        invariant
            k <= p@.len(),
            n == s@.len(),
            i + p@.len() <= n,
            forall|j: int| 0 <= j < k ==> s@[i + j] == #[trigger] p@[j],
        decreases p@.len() - k,
    {
        if s[i + k] != p[k] {
            assert(s@.subrange(i as int, i + p@.len())[k as int] != p@[k as int]);
            return false;
        }
        k += 1;
    }
    proof {
        assert(s@.subrange(i as int, i + p@.len()) =~= p@);
    }
    true
}

/// The first place of a text in another, counted in characters.
pub(crate) fn find(s: &str, p: &str) -> (r: Option<usize>)
    ensures
        match r {
            Some(i) => place_of(s@, p@) == Some(i as int) && first_at(s@, p@, i as int),
            None => place_of(s@, p@) is None,
        },
        r is Some <==> holds(s@, p@),
{
    let x = chars_of(s);
    let y = chars_of(p);
    let mut i: usize = 0;
    while i < x.len()
        invariant
            x@ == s@,
            y@ == p@,
            i <= x@.len(),
            forall|j: int| 0 <= j < i ==> !#[trigger] occurs_at(s@, p@, j),
        decreases x@.len() - i,
    {
        if stands_at(&x, &y, i) {
            proof {
                lemma_place_is(s@, p@, i as int);
            }
            return Some(i);
        }
        i += 1;
    }
    if stands_at(&x, &y, i) {
        proof {
            lemma_place_is(s@, p@, i as int);
        }
        return Some(i);
    }
    proof {
        assert forall|j: int| !occurs_at(s@, p@, j) by {}
        lemma_holds_has_place(s@, p@);
    }
    None
}

/// Whether a text stands in another.
pub(crate) fn contains(s: &str, p: &str) -> (r: bool)
    ensures
        r == holds(s@, p@),
{
    find(s, p).is_some()
}

/// Whether a text begins with another.
pub(crate) fn starts_with(s: &str, p: &str) -> (r: bool)
    ensures
        r == p@.is_prefix_of(s@),
{
    let x = chars_of(s);
    let y = chars_of(p);
    stands_at(&x, &y, 0)
}

/// Whether a text ends with another.
pub(crate) fn ends_with(s: &str, p: &str) -> (r: bool)
    ensures
        r == p@.is_suffix_of(s@),
{
    let x = chars_of(s);
    let y = chars_of(p);
    if y.len() > x.len() {
        return false;
    }
    stands_at(&x, &y, x.len() - y.len())
}

// ---------------------------------------------------------------- parts

/// The part of a text from an index on.
pub(crate) fn skip(s: &str, from: usize) -> (r: &str)
    requires
        from <= s@.len(),
    ensures
        r@ == s@.skip(from as int),
{
    let n: usize = s.unicode_len();
    proof {
        assert(s@.subrange(from as int, n as int) =~= s@.skip(from as int));
    }
    s.substring_char(from, n)
}

/// The part of a text up to an index.
pub(crate) fn take(s: &str, to: usize) -> (r: &str)
    requires
        to <= s@.len(),
    ensures
        r@ == s@.take(to as int),
{
    proof {
        assert(s@.subrange(0, to as int) =~= s@.take(to as int));
    }
    s.substring_char(0, to)
}

/// What stands before and after the first place of `p`.
pub open spec fn parted(s: Seq<char>, p: Seq<char>) -> Option<(Seq<char>, Seq<char>)> {
    match place_of(s, p) {
        Some(i) => Some((s.take(i), s.skip(i + p.len()))),
        None => None,
    }
}

/// Splits a text at the first place of another.
pub(crate) fn split_once<'a>(s: &'a str, p: &str) -> (r: Option<(&'a str, &'a str)>)
    ensures
        match r {
            Some((a, b)) => parted(s@, p@) == Some((a@, b@)),
            None => parted(s@, p@) is None,
        },
{
    match find(s, p) {
        Some(i) => {
            let all: usize = s.unicode_len();
            let n: usize = p.unicode_len();
            assert(i + n <= all);
            Some((take(s, i), skip(s, i + n)))
        },
        None => None,
    }
}

/// The parts of a text between the places of `p`, from left to right.
pub open spec fn pieces(s: Seq<char>, p: Seq<char>) -> Seq<Seq<char>>
    decreases s.len(),
{
    match parted(s, p) {
        Some((a, b)) => if b.len() < s.len() {
            seq![a] + pieces(b, p)
        } else {
            seq![s]
        },
        None => seq![s],
    }
}

/// Splits a text at each place of another, which is not empty.
pub(crate) fn split<'a>(s: &'a str, p: &str) -> (r: Vec<&'a str>)
    requires
        p@.len() > 0,
    ensures
        r@.len() > 0,
        r@.map_values(|t: &str| t@) == pieces(s@, p@),
    decreases s@.len(),
{
    match split_once(s, p) {
        Some((a, b)) => {
            proof {
                lemma_holds_has_place(s@, p@);
            }
            let mut rest = split(b, p);
            let ghost old_rest = rest@;
            rest.insert(0, a);
            proof {
                assert(rest@.map_values(|t: &str| t@) =~= seq![a@] + old_rest.map_values(
                    |t: &str| t@,
                ));
            }
            rest
        },
        None => {
            let mut r: Vec<&'a str> = Vec::new();
            r.push(s);
            proof {
                assert(r@.map_values(|t: &str| t@) =~= seq![s@]);
            }
            r
        },
    }
}

/// Texts joined by a separator.
pub open spec fn joined(parts: Seq<Seq<char>>, sep: Seq<char>) -> Seq<char>
    decreases parts.len(),
{
    if parts.len() == 0 {
        Seq::empty()
    } else if parts.len() == 1 {
        parts[0]
    } else {
        joined(parts.drop_last(), sep) + sep + parts.last()
    }
}

/// Joins texts by a separator.
pub(crate) fn join(parts: &Vec<String>, sep: &str) -> (r: String)
    ensures
        r@ == joined(parts@.map_values(|t: String| t@), sep@),
{
    let ghost all = parts@.map_values(|t: String| t@);
    let mut out = String::new();
    let mut i: usize = 0;
    proof {
        assert(all.take(0) =~= Seq::<Seq<char>>::empty());
    }
    while i < parts.len()
        invariant
            i <= parts@.len(),
            all == parts@.map_values(|t: String| t@),
            out@ == joined(all.take(i as int), sep@),
        decreases parts@.len() - i,
    {
        if i > 0 {
            out.append(sep);
        }
        out.append(parts[i].as_str());
        proof {
            assert(all.take(i + 1).drop_last() =~= all.take(i as int));
            assert(all.take(i + 1).last() == parts@[i as int]@);
        }
        i += 1;
    }
    proof {
        assert(all.take(i as int) =~= all);
    }
    out
}

// ---------------------------------------------------------------- trimming

/// The Unicode property White_Space.
pub open spec fn is_space(c: char) -> bool {
    let u = c as u32;
    ||| 0x09 <= u <= 0x0D
    ||| u == 0x20
    ||| u == 0x85
    ||| u == 0xA0
    ||| u == 0x1680
    ||| 0x2000 <= u <= 0x200A
    ||| u == 0x2028
    ||| u == 0x2029
    ||| u == 0x202F
    ||| u == 0x205F
    ||| u == 0x3000
}

fn space(c: char) -> (r: bool)
    ensures
        r == is_space(c),
{
    let u: u32 = c as u32;
    (0x09 <= u && u <= 0x0D) || u == 0x20 || u == 0x85 || u == 0xA0 || u == 0x1680 || (0x2000 <= u
        && u <= 0x200A) || u == 0x2028 || u == 0x2029 || u == 0x202F || u == 0x205F || u == 0x3000
}

/// A text without the white space before it.
pub open spec fn front_trimmed(s: Seq<char>) -> Seq<char>
    decreases s.len(),
{
    if s.len() > 0 && is_space(s[0]) {
        front_trimmed(s.drop_first())
    } else {
        s
    }
}

/// A text without the white space behind it.
pub open spec fn back_trimmed(s: Seq<char>) -> Seq<char>
    decreases s.len(),
{
    if s.len() > 0 && is_space(s.last()) {
        back_trimmed(s.drop_last())
    } else {
        s
    }
}

/// A text without the white space around it.
pub open spec fn trimmed(s: Seq<char>) -> Seq<char> {
    back_trimmed(front_trimmed(s))
}

/// Takes away the white space around a text.
pub(crate) fn trim(s: &str) -> (r: &str)
    ensures
        r@ == trimmed(s@),
{
    let x = chars_of(s);
    let n: usize = x.len();
    let mut i: usize = 0;
    proof {
        assert(s@.subrange(0, n as int) =~= s@);
    }
    while i < n && space(x[i])
        invariant
            x@ == s@,
            n == x@.len(),
            i <= n,
            front_trimmed(s@) == front_trimmed(s@.subrange(i as int, n as int)),
        decreases n - i,
    {
        proof {
            assert(s@.subrange(i as int, n as int).drop_first() =~= s@.subrange(i + 1, n as int));
        }
        i += 1;
    }
    let mut j: usize = n;
    while j > i && space(x[j - 1])
        invariant
            x@ == s@,
            n == x@.len(),
            i <= j <= n,
            front_trimmed(s@) == s@.subrange(i as int, n as int),
            trimmed(s@) == back_trimmed(s@.subrange(i as int, j as int)),
        decreases j,
    {
        proof {
            assert(s@.subrange(i as int, j as int).drop_last() =~= s@.subrange(i as int, j - 1));
        }
        j -= 1;
    }
    s.substring_char(i, j)
}

/// A text without the `c` at its front.
pub open spec fn front_cut(s: Seq<char>, c: char) -> Seq<char>
    decreases s.len(),
{
    if s.len() > 0 && s[0] == c {
        front_cut(s.drop_first(), c)
    } else {
        s
    }
}

/// A text without the `c` at its back.
pub open spec fn back_cut(s: Seq<char>, c: char) -> Seq<char>
    decreases s.len(),
{
    if s.len() > 0 && s.last() == c {
        back_cut(s.drop_last(), c)
    } else {
        s
    }
}

/// Takes away every `c` at the front.
pub(crate) fn cut_front(s: &str, c: char) -> (r: &str)
    ensures
        r@ == front_cut(s@, c),
{
    let x = chars_of(s);
    let n: usize = x.len();
    let mut i: usize = 0;
    proof {
        assert(s@.subrange(0, n as int) =~= s@);
    }
    while i < n && x[i] == c
        invariant
            x@ == s@,
            n == x@.len(),
            i <= n,
            front_cut(s@, c) == front_cut(s@.subrange(i as int, n as int), c),
        decreases n - i,
    {
        proof {
            assert(s@.subrange(i as int, n as int).drop_first() =~= s@.subrange(i + 1, n as int));
        }
        i += 1;
    }
    s.substring_char(i, n)
}

/// Takes away every `c` at the back.
pub(crate) fn cut_back(s: &str, c: char) -> (r: &str)
    ensures
        r@ == back_cut(s@, c),
{
    let x = chars_of(s);
    let n: usize = x.len();
    let mut j: usize = n;
    proof {
        assert(s@.subrange(0, n as int) =~= s@);
    }
    while j > 0 && x[j - 1] == c
        invariant
            x@ == s@,
            n == x@.len(),
            j <= n,
            back_cut(s@, c) == back_cut(s@.subrange(0, j as int), c),
        decreases j,
    {
        proof {
            assert(s@.subrange(0, j as int).drop_last() =~= s@.subrange(0, j - 1));
        }
        j -= 1;
    }
    s.substring_char(0, j)
}

/// What follows a prefix, where the text has it.
pub open spec fn after_prefix(s: Seq<char>, p: Seq<char>) -> Option<Seq<char>> {
    if p.is_prefix_of(s) {
        Some(s.skip(p.len() as int))
    } else {
        None
    }
}

/// What follows a prefix, where the text has it.
pub(crate) fn strip_prefix<'a>(s: &'a str, p: &str) -> (r: Option<&'a str>)
    ensures
        match r {
            Some(t) => after_prefix(s@, p@) == Some(t@),
            None => after_prefix(s@, p@) is None,
        },
{
    if starts_with(s, p) {
        let n: usize = p.unicode_len();
        Some(skip(s, n))
    } else {
        None
    }
}

// ---------------------------------------------------------------- replacing

/// A text with each place of `from`, taken from left to right, made `to`.
pub open spec fn replaced(s: Seq<char>, from: Seq<char>, to: Seq<char>) -> Seq<char>
    decreases s.len(),
{
    if s.len() == 0 {
        s
    } else if from.len() > 0 && from.is_prefix_of(s) {
        to + replaced(s.skip(from.len() as int), from, to)
    } else {
        seq![s[0]] + replaced(s.skip(1), from, to)
    }
}

/// Replaces each place of a text, which is not empty.
pub(crate) fn replace(s: &str, from: &str, to: &str) -> (r: String)
    requires
        from@.len() > 0,
    ensures
        r@ == replaced(s@, from@, to@),
{
    let x = chars_of(s);
    let y = chars_of(from);
    let mut out = String::new();
    let mut i: usize = 0;
    proof {
        assert(s@.skip(0) =~= s@);
        assert(out@ + replaced(s@.skip(0), from@, to@) =~= replaced(s@, from@, to@));
    }
    while i < x.len()
        invariant
            x@ == s@,
            y@ == from@,
            from@.len() > 0,
            i <= x@.len(),
            out@ + replaced(s@.skip(i as int), from@, to@) == replaced(s@, from@, to@),
        decreases x@.len() - i,
    {
        let ghost before = out@;
        let ghost rest = s@.skip(i as int);
        if stands_at(&x, &y, i) {
            proof {
                assert(rest.subrange(0, from@.len() as int) =~= s@.subrange(
                    i as int,
                    i + from@.len(),
                ));
                assert(from@.is_prefix_of(rest));
                assert(rest.skip(from@.len() as int) =~= s@.skip(i + from@.len()));
            }
            out.append(to);
            i += y.len();
            proof {
                assert(out@ + replaced(s@.skip(i as int), from@, to@) =~= before + (to@ + replaced(
                    s@.skip(i as int),
                    from@,
                    to@,
                )));
            }
        } else {
            proof {
                if from@.is_prefix_of(rest) {
                    assert(rest.subrange(0, from@.len() as int) =~= s@.subrange(
                        i as int,
                        i + from@.len(),
                    ));
                }
                assert(rest.skip(1) =~= s@.skip(i + 1));
            }
            out.push(x[i]);
            i += 1;
            proof {
                assert(out@ + replaced(s@.skip(i as int), from@, to@) =~= before + (seq![rest[0]]
                    + replaced(s@.skip(i as int), from@, to@)));
            }
        }
    }
    proof {
        assert(s@.skip(i as int) =~= Seq::<char>::empty());
        assert(out@ + Seq::<char>::empty() =~= out@);
    }
    out
}

// ---------------------------------------------------------------- letter case

/// An ASCII capital letter made small; any other character as it is.
pub open spec fn small(c: char) -> char {
    if 'A' <= c <= 'Z' {
        ((c as u8) + 32) as char
    } else {
        c
    }
}

/// A text with its ASCII capital letters made small.
pub open spec fn ascii_small(s: Seq<char>) -> Seq<char> {
    s.map_values(|c: char| small(c))
}

fn small_char(c: char) -> (r: char)
    ensures
        r == small(c),
{
    if 'A' <= c && c <= 'Z' {
        ((c as u8) + 32) as char
    } else {
        c
    }
}

/// Makes the ASCII capital letters of a text small.
pub(crate) fn to_ascii_lowercase(s: &str) -> (r: String)
    ensures
        r@ == ascii_small(s@),
{
    let x = chars_of(s);
    let mut out = String::new();
    let mut i: usize = 0;
    while i < x.len()
        invariant
            x@ == s@,
            i <= x@.len(),
            out@ == ascii_small(s@.take(i as int)),
        decreases x@.len() - i,
    {
        out.push(small_char(x[i]));
        proof {
            assert(ascii_small(s@.take(i + 1)) =~= ascii_small(s@.take(i as int)).push(
                small(s@[i as int]),
            ));
        }
        i += 1;
    }
    proof {
        assert(s@.take(i as int) =~= s@);
    }
    out
}

/// Whether two texts differ at most in the case of ASCII letters.
pub(crate) fn same_ignore_case(a: &str, b: &str) -> (r: bool)
    ensures
        r == (ascii_small(a@) == ascii_small(b@)),
{
    let x = to_ascii_lowercase(a);
    let y = to_ascii_lowercase(b);
    same(x.as_str(), y.as_str())
}

/// An ASCII letter as a capital letter; any other character as it is.
pub open spec fn capital(c: char) -> char {
    if 'a' <= c <= 'z' {
        ((c as u8) - 32) as u8 as char
    } else {
        c
    }
}

/// What `str::to_lowercase` gives for a text that is not ASCII.
pub uninterp spec fn lowercase(s: Seq<char>) -> Seq<char>;

/// What `str::to_uppercase` gives for a text that is not ASCII.
pub uninterp spec fn uppercase(s: Seq<char>) -> Seq<char>;

/// A text in small letters.
pub open spec fn small_letters(s: Seq<char>) -> Seq<char> {
    if is_ascii_chars(s) {
        ascii_small(s)
    } else {
        lowercase(s)
    }
}

/// A text in capital letters.
pub open spec fn capital_letters(s: Seq<char>) -> Seq<char> {
    if is_ascii_chars(s) {
        s.map_values(|c: char| capital(c))
    } else {
        uppercase(s)
    }
}

/// `str::to_lowercase`: the Unicode lowercase of a text. Of ASCII it changes
/// the letters alone.
#[verifier::external_body]
pub(crate) fn to_lowercase(s: &str) -> (r: String)
    ensures
        r@ == if is_ascii_chars(s@) {
            ascii_small(s@)
        } else {
            lowercase(s@)
        },
{
    s.to_lowercase()
}

/// `str::to_uppercase`: the Unicode uppercase of a text. Of ASCII it changes
/// the letters alone.
#[verifier::external_body]
pub(crate) fn to_uppercase(s: &str) -> (r: String)
    ensures
        r@ == if is_ascii_chars(s@) {
            s@.map_values(|c: char| capital(c))
        } else {
            uppercase(s@)
        },
{
    s.to_uppercase()
}

// ---------------------------------------------------------------- numbers

/// Whether a text is made of ASCII digits.
pub open spec fn all_digits(s: Seq<char>) -> bool {
    forall|i: int| 0 <= i < s.len() ==> '0' <= #[trigger] s[i] <= '9'
}

/// The number that a row of decimal digits stands for.
pub open spec fn digits_value(s: Seq<char>) -> nat
    decreases s.len(),
{
    if s.len() == 0 {
        0
    } else {
        10 * digits_value(s.drop_last()) + ((s.last() as u32) - ('0' as u32)) as nat
    }
}

/// The integer that a text writes in decimal: an optional sign and at least
/// one digit. A minus sign is taken only where `signed` holds, and the value
/// has to lie between the two bounds.
pub open spec fn decimal(s: Seq<char>, signed: bool, low: int, high: int) -> Option<int> {
    let minus = signed && s.len() > 0 && s[0] == '-';
    let plus = s.len() > 0 && s[0] == '+';
    let digits = if minus || plus {
        s.skip(1)
    } else {
        s
    };
    let value = if minus {
        -(digits_value(digits) as int)
    } else {
        digits_value(digits) as int
    };
    if digits.len() > 0 && all_digits(digits) && low <= value <= high {
        Some(value)
    } else {
        None
    }
}

/// Further digits never make a number smaller.
proof fn lemma_digits_grow(s: Seq<char>, i: int)
    requires
        all_digits(s),
        0 <= i <= s.len(),
    ensures
        digits_value(s.take(i)) <= digits_value(s),
    decreases s.len() - i,
{
    if i < s.len() {
        lemma_digits_grow(s, i + 1);
        assert(s.take(i + 1).drop_last() =~= s.take(i));
    } else {
        assert(s.take(i) =~= s);
    }
}

/// Reads a row of digits, where its value fits.
fn read_digits(x: &Vec<char>, from: usize) -> (r: Option<u64>)
    requires
        from <= x@.len(),
    ensures
        match r {
            Some(v) => {
                let d = x@.skip(from as int);
                d.len() > 0 && all_digits(d) && v == digits_value(d)
            },
            None => {
                let d = x@.skip(from as int);
                d.len() == 0 || !all_digits(d) || digits_value(d) > u64::MAX
            },
        },
{
    let ghost d = x@.skip(from as int);
    if from == x.len() {
        return None;
    }
    let mut k: usize = from;
    while k < x.len()
        invariant
            from <= k <= x@.len(),
            d == x@.skip(from as int),
            forall|j: int| 0 <= j < k - from ==> '0' <= #[trigger] d[j] <= '9',
        decreases x@.len() - k,
    {
        let c = x[k];
        if !('0' <= c && c <= '9') {
            assert(d[k - from] == c);
            return None;
        }
        k += 1;
    }
    let mut v: u64 = 0;
    let mut i: usize = from;
    proof {
        assert(d.take(0) =~= Seq::<char>::empty());
    }
    while i < x.len()
        invariant
            from <= i <= x@.len(),
            d == x@.skip(from as int),
            all_digits(d),
            v == digits_value(d.take(i - from)),
        decreases x@.len() - i,
    {
        let c = x[i];
        assert(d[i - from] == c);
        let digit: u64 = (c as u32 - '0' as u32) as u64;
        proof {
            assert(d.take(i - from + 1).drop_last() =~= d.take(i - from));
            assert(d.take(i - from + 1).last() == c);
            lemma_digits_grow(d, i - from + 1);
        }
        if v > 1844674407370955161 || (v == 1844674407370955161 && digit > 5) {
            return None;
        }
        v = v * 10 + digit;
        i += 1;
    }
    proof {
        assert(d.take(i - from) =~= d);
    }
    Some(v)
}

/// Reads an `i64`.
pub(crate) fn parse_i64(s: &str) -> (r: Option<i64>)
    ensures
        match r {
            Some(v) => decimal(s@, true, i64::MIN as int, i64::MAX as int) == Some(v as int),
            None => decimal(s@, true, i64::MIN as int, i64::MAX as int) is None,
        },
{
    let x = chars_of(s);
    let minus = x.len() > 0 && x[0] == '-';
    let plus = x.len() > 0 && x[0] == '+';
    let from: usize = if minus || plus {
        1
    } else {
        0
    };
    proof {
        assert(s@.skip(0) =~= s@);
    }
    match read_digits(&x, from) {
        Some(v) => {
            if minus {
                if v <= 9223372036854775807 {
                    Some(-(v as i64))
                } else if v == 9223372036854775808 {
                    Some(i64::MIN)
                } else {
                    None
                }
            } else if v <= 9223372036854775807 {
                Some(v as i64)
            } else {
                None
            }
        },
        None => None,
    }
}

/// Reads a `u64`.
pub(crate) fn parse_u64(s: &str) -> (r: Option<u64>)
    ensures
        match r {
            Some(v) => decimal(s@, false, 0, u64::MAX as int) == Some(v as int),
            None => decimal(s@, false, 0, u64::MAX as int) is None,
        },
{
    let x = chars_of(s);
    let plus = x.len() > 0 && x[0] == '+';
    let from: usize = if plus {
        1
    } else {
        0
    };
    proof {
        assert(s@.skip(0) =~= s@);
    }
    read_digits(&x, from)
}

/// Reads a `u32`.
pub(crate) fn parse_u32(s: &str) -> (r: Option<u32>)
    ensures
        match r {
            Some(v) => decimal(s@, false, 0, u32::MAX as int) == Some(v as int),
            None => decimal(s@, false, 0, u32::MAX as int) is None,
        },
{
    match parse_u64(s) {
        Some(v) => if v <= u32::MAX as u64 {
            Some(v as u32)
        } else {
            None
        },
        None => None,
    }
}

/// Reads an `i32`.
pub(crate) fn parse_i32(s: &str) -> (r: Option<i32>)
    ensures
        match r {
            Some(v) => decimal(s@, true, i32::MIN as int, i32::MAX as int) == Some(v as int),
            None => decimal(s@, true, i32::MIN as int, i32::MAX as int) is None,
        },
{
    match parse_i64(s) {
        Some(v) => if i32::MIN as i64 <= v && v <= i32::MAX as i64 {
            Some(v as i32)
        } else {
            None
        },
        None => None,
    }
}

/// The digit of a number below ten.
pub open spec fn digit(n: nat) -> char {
    ((n + 48) as u8) as char
}

/// A number in decimal.
pub open spec fn shown_nat(n: nat) -> Seq<char>
    decreases n,
{
    if n < 10 {
        seq![digit(n)]
    } else {
        shown_nat(n / 10).push(digit(n % 10))
    }
}

/// An integer in decimal.
pub open spec fn shown(i: int) -> Seq<char> {
    if i < 0 {
        seq!['-'] + shown_nat((-i) as nat)
    } else {
        shown_nat(i as nat)
    }
}

/// Writes a number in decimal.
pub(crate) fn show_u64(n: u64) -> (r: String)
    ensures
        r@ == shown_nat(n as nat),
    decreases n,
{
    if n < 10 {
        let mut out = String::new();
        out.push(((n as u8) + 48) as char);
        proof {
            assert(out@ =~= seq![digit(n as nat)]);
        }
        out
    } else {
        let mut out = show_u64(n / 10);
        out.push((((n % 10) as u8) + 48) as char);
        out
    }
}

/// Writes an integer in decimal.
pub(crate) fn show_i64(i: i64) -> (r: String)
    ensures
        r@ == shown(i as int),
{
    if i < 0 {
        let n: u64 = if i == i64::MIN {
            9223372036854775808
        } else {
            (-i) as u64
        };
        let mut out = String::new();
        out.push('-');
        let tail = show_u64(n);
        out.append(tail.as_str());
        proof {
            assert(out@ =~= seq!['-'] + shown_nat(n as nat));
        }
        out
    } else {
        show_u64(i as u64)
    }
}

proof fn lemma_shown_nat(n: nat)
    ensures
        shown_nat(n).len() > 0,
        all_digits(shown_nat(n)),
        digits_value(shown_nat(n)) == n,
    decreases n,
{
    let last = digit(n % 10);
    assert('0' <= last <= '9');
    assert((last as u32) - ('0' as u32) == n % 10);
    if n < 10 {
        assert(shown_nat(n).drop_last() =~= Seq::<char>::empty());
        assert(digits_value(Seq::<char>::empty()) == 0);
    } else {
        lemma_shown_nat(n / 10);
        assert(shown_nat(n).drop_last() =~= shown_nat(n / 10));
    }
}

/// What is written of an integer in decimal reads as that integer.
pub proof fn law_decimal_round_trip(i: int, low: int, high: int)
    requires
        low <= i <= high,
    ensures
        decimal(shown(i), true, low, high) == Some(i),
        i >= 0 ==> decimal(shown(i), false, low, high) == Some(i),
{
    if i < 0 {
        lemma_shown_nat((-i) as nat);
        assert(shown(i).skip(1) =~= shown_nat((-i) as nat));
    } else {
        lemma_shown_nat(i as nat);
        assert('0' <= shown(i)[0] <= '9');
    }
}

} // verus!
