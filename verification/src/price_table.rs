//! Price tables and what leads into them: keys, sizes, counts.
use vstd::prelude::*;
use vstd::string::*;
use crate::double::{double_at, double_of, is_nan, whole_i64, whole_number, Double};
use crate::json::{items_in, key_list, lists_keys, parsed_json, texts, views, Json, Jv};
use crate::text::{
    ascii_small, chars_of, decimal, ends_with, join, joined, small_letters, parse_u32, pieces, replace, replaced, same,
    show_u64, shown, split, starts_with, take, to_ascii_lowercase, to_lowercase, trim, trimmed,
};

verus! {

// ---------------------------------------------------------------- lookup

/// Whether a key is among those that are switched off.
pub open spec fn is_disabled(ext: Jv, key: Seq<char>) -> bool {
    exists|i: int|
        0 <= i < items_in(ext.member("price_table_disabled"@)).len() && disables(
            #[trigger] items_in(ext.member("price_table_disabled"@))[i],
            key,
        )
}

/// Whether an element switches a key off, whatever the case of its letters.
pub open spec fn disables(item: Jv, key: Seq<char>) -> bool {
    match item.text() {
        Some(s) => small_letters(s) == small_letters(key),
        None => false,
    }
}

/// The first of the keys from `n` on that is a key but for the case of its letters.
pub open spec fn same_key_from(keys: Seq<Seq<char>>, key: Seq<char>, n: int) -> Option<int>
    decreases keys.len() - n,
{
    if n < 0 || n >= keys.len() {
        None
    } else if small_letters(keys[n]) == small_letters(key) {
        Some(n)
    } else {
        same_key_from(keys, key, n + 1)
    }
}

/// The price under a key: nothing where it is switched off; the exact key
/// comes first, then the first that differs only in the case of its letters.
pub open spec fn table_price(ext: Jv, key: Seq<char>) -> Option<Double> {
    if is_disabled(ext, key) {
        None
    } else {
        match ext.member("price_table"@) {
            Some(pt) => match double_at(pt, key) {
                Some(d) => Some(d),
                None => match pt {
                    Jv::Obj(m) => match same_key_from(key_list(m), key, 0) {
                        Some(i) => double_of(m[key_list(m)[i]]),
                        None => None,
                    },
                    _ => None,
                },
            },
            None => None,
        }
    }
}

fn disabled_key(ext: &Json, key: &str) -> (r: bool)
    ensures
        r == is_disabled(ext@, key@),
{
    let low = to_lowercase(key);
    match ext.get_array("price_table_disabled") {
        Some(arr) => {
            let ghost all = items_in(ext@.member("price_table_disabled"@));
            let mut i: usize = 0;
            while i < arr.len()
                invariant
                    i <= arr@.len(),
                    all == views(arr@),
                    all == items_in(ext@.member("price_table_disabled"@)),
                    low@ == small_letters(key@),
                    forall|k: int| 0 <= k < i ==> !disables(#[trigger] all[k], key@),
                decreases arr@.len() - i,
            {
                assert(all[i as int] == arr@[i as int]@);
                let hit = match arr[i].as_str() {
                    Some(s) => {
                        let t = to_lowercase(s);
                        same(t.as_str(), low.as_str())
                    },
                    None => false,
                };
                if hit {
                    assert(disables(all[i as int], key@));
                    return true;
                }
                i += 1;
            }
            false
        },
        None => false,
    }
}

fn find_same_key(keys: &Vec<String>, key: &str) -> (r: Option<usize>)
    ensures
        match r {
            Some(i) => i < keys@.len() && same_key_from(texts(keys@), key@, 0) == Some(i as int),
            None => same_key_from(texts(keys@), key@, 0) is None,
        },
{
    let low = to_lowercase(key);
    let ghost all = texts(keys@);
    let mut i: usize = 0;
    while i < keys.len()
        invariant
            i <= keys@.len(),
            all == texts(keys@),
            low@ == small_letters(key@),
            same_key_from(all, key@, 0) == same_key_from(all, key@, i as int),
        decreases keys@.len() - i,
    {
        assert(all[i as int] == keys@[i as int]@);
        let t = to_lowercase(keys[i].as_str());
        if same(t.as_str(), low.as_str()) {
            return Some(i);
        }
        i += 1;
    }
    None
}

/// Looks up the price under a key.
pub fn lookup_price_table(ext: &Json, table_key: &str) -> (r: Option<Double>)
    ensures
        r == table_price(ext@, table_key@),
{
    if disabled_key(ext, table_key) {
        return None;
    }
    match ext.get("price_table") {
        Some(pt) => {
            let exact = pt.get_double(table_key);
            if exact.is_some() {
                return exact;
            }
            match pt.as_object() {
                Some(m) => {
                    let keys = m.keys();
                    match find_same_key(&keys, table_key) {
                        Some(i) => {
                            assert(texts(keys@)[i as int] == keys@[i as int]@);
                            assert(key_list(m@).contains(key_list(m@)[i as int]));
                            match m.get(keys[i].as_str()) {
                                Some(v) => v.as_double(),
                                None => None,
                            }
                        },
                        None => None,
                    }
                },
                None => None,
            }
        },
        None => None,
    }
}

/// Whether a key of the table begins with a prefix, whatever the case of its
/// letters, and holds a price.
pub open spec fn priced_under(m: Map<Seq<char>, Jv>, key: Seq<char>, prefix: Seq<char>) -> bool {
    small_letters(prefix).is_prefix_of(small_letters(key)) && double_of(m[key]) is Some
}

/// The highest price among the first `n` keys with a prefix; the last of
/// several.
pub open spec fn top_upto(
    m: Map<Seq<char>, Jv>,
    keys: Seq<Seq<char>>,
    prefix: Seq<char>,
    n: int,
) -> Option<int>
    decreases n,
{
    if n <= 0 {
        None
    } else {
        let done = top_upto(m, keys, prefix, n - 1);
        if priced_under(m, keys[n - 1], prefix) {
            match done {
                Some(b) => if double_of(m[keys[n - 1]])->Some_0.below(
                    double_of(m[keys[b]])->Some_0,
                ) {
                    Some(b)
                } else {
                    Some(n - 1)
                },
                None => Some(n - 1),
            }
        } else {
            done
        }
    }
}

/// The key and the highest price under a prefix.
pub open spec fn top_price(ext: Jv, prefix: Seq<char>) -> Option<(Seq<char>, Double)> {
    match ext.member("price_table"@) {
        Some(Jv::Obj(m)) => {
            let keys = key_list(m);
            match top_upto(m, keys, prefix, keys.len() as int) {
                Some(i) => Some((keys[i], double_of(m[keys[i]])->Some_0)),
                None => None,
            }
        },
        _ => None,
    }
}

/// Finds the key and the highest price under a prefix.
pub fn find_top_price(ext: &Json, prefix: &str) -> (r: Option<(String, Double)>)
    ensures
        match r {
            Some((k, d)) => top_price(ext@, prefix@) == Some((k@, d)),
            None => top_price(ext@, prefix@) is None,
        },
{
    match ext.get("price_table") {
        Some(pt) => match pt.as_object() {
            Some(m) => {
                let keys = m.keys();
                let ghost ks = key_list(m@);
                let low = to_lowercase(prefix);
                let mut best: Option<(usize, Double)> = None;
                let mut i: usize = 0;
                while i < keys.len()
                    invariant
                        i <= keys@.len(),
                        ks == texts(keys@),
                        lists_keys(ks, m@),
                        low@ == small_letters(prefix@),
                        match best {
                            Some((b, d)) => b < i && top_upto(m@, ks, prefix@, i as int) == Some(
                                b as int,
                            ) && double_of(m@[ks[b as int]]) == Some(d),
                            None => top_upto(m@, ks, prefix@, i as int) is None,
                        },
                    decreases keys@.len() - i,
                {
                    let key = keys[i].as_str();
                    assert(ks[i as int] == key@);
                    assert(ks.contains(key@));
                    let t = to_lowercase(key);
                    if starts_with(t.as_str(), low.as_str()) {
                        let price = match m.get(key) {
                            Some(v) => v.as_double(),
                            None => None,
                        };
                        match price {
                            Some(p) => {
                                match best {
                                    Some((_, d)) => {
                                        if !p.lt(d) {
                                            best = Some((i, p));
                                        }
                                    },
                                    None => {
                                        best = Some((i, p));
                                    },
                                }
                            },
                            None => {},
                        }
                    }
                    i += 1;
                }
                match best {
                    Some((b, d)) => {
                        assert(texts(keys@)[b as int] == keys@[b as int]@);
                        Some((keys[b].clone(), d))
                    },
                    None => None,
                }
            },
            None => None,
        },
        None => None,
    }
}

// ---------------------------------------------------------------- words

proof fn lemma_top(m: Map<Seq<char>, Jv>, keys: Seq<Seq<char>>, prefix: Seq<char>, n: int, j: int)
    requires
        0 <= j < n <= keys.len(),
        forall|i: int|
            0 <= i < n && priced_under(m, #[trigger] keys[i], prefix) ==> !is_nan(
                double_of(m[keys[i]])->Some_0.bits,
            ),
        priced_under(m, keys[j], prefix),
    ensures
        top_upto(m, keys, prefix, n) matches Some(b) && 0 <= b < n && priced_under(
            m,
            keys[b],
            prefix,
        ) && !double_of(m[keys[b]])->Some_0.below(double_of(m[keys[j]])->Some_0),
    decreases n,
{
    assert(priced_under(m, keys[j], prefix));
    if j < n - 1 {
        lemma_top(m, keys, prefix, n - 1, j);
    } else if top_upto(m, keys, prefix, n - 1) is Some {
        lemma_top_within(m, keys, prefix, n - 1);
    }
}

proof fn lemma_top_within(m: Map<Seq<char>, Jv>, keys: Seq<Seq<char>>, prefix: Seq<char>, n: int)
    requires
        n <= keys.len(),
        top_upto(m, keys, prefix, n) is Some,
    ensures
        0 <= top_upto(m, keys, prefix, n)->Some_0 < n,
        priced_under(m, keys[top_upto(m, keys, prefix, n)->Some_0], prefix),
    decreases n,
{
    if n > 0 && top_upto(m, keys, prefix, n - 1) is Some {
        lemma_top_within(m, keys, prefix, n - 1);
    }
}

/// Where a table prices any key with a prefix, the top price is that of such a
/// key, and no price of such a key is higher.
pub proof fn law_top_price(m: Map<Seq<char>, Jv>, ext: Jv, prefix: Seq<char>, key: Seq<char>)
    requires
        ext.member("price_table"@) == Some(Jv::Obj(m)),
        lists_keys(key_list(m), m),
        m.dom().contains(key),
        priced_under(m, key, prefix),
        forall|k: Seq<char>|
            #[trigger] priced_under(m, k, prefix) ==> !is_nan(double_of(m[k])->Some_0.bits),
    ensures
        top_price(ext, prefix) matches Some((top, price)) && priced_under(m, top, prefix) && price
            == double_of(m[top])->Some_0 && !price.below(double_of(m[key])->Some_0),
{
    let keys = key_list(m);
    assert(keys.contains(key));
    let j = choose|j: int| 0 <= j < keys.len() && keys[j] == key;
    lemma_top(m, keys, prefix, keys.len() as int, j);
}

/// A key that is switched off has no price, in letters of either case.
pub proof fn law_switched_off(ext: Jv, key: Seq<char>, other: Seq<char>)
    requires
        is_disabled(ext, key),
        small_letters(other) == small_letters(key),
    ensures
        table_price(ext, other) is None,
{
    let off = items_in(ext.member("price_table_disabled"@));
    let i = choose|i: int| 0 <= i < off.len() && disables(#[trigger] off[i], key);
    assert(disables(off[i], other));
}

/// The word for a part of a key, given in small letters.
pub open spec fn billing_word(part: Seq<char>) -> Seq<char> {
    if part == "std"@ || part == "standard"@ {
        "标准"@
    } else if part == "pro"@ {
        "专业"@
    } else if part == "fast"@ {
        "极速"@
    } else if part == "ai"@ {
        "大模型"@
    } else if part == "text"@ {
        "文生"@
    } else if part == "image"@ {
        "图生"@
    } else if part == "ref"@ {
        "视频参考"@
    } else if part == "on"@ {
        "有声"@
    } else if part == "off"@ {
        "无声"@
    } else if part == "yes"@ {
        "含视频"@
    } else if part == "no"@ {
        "无视频"@
    } else if part == "img2img"@ {
        "图生图"@
    } else if part == "ref_1_3"@ {
        "1-3张参考"@
    } else if part == "ref_4_7"@ {
        "4-7张参考"@
    } else {
        part
    }
}

/// Names a part of a key, given in small letters.
pub fn word_for(part: &str) -> (r: &str)
    ensures
        r@ == billing_word(part@),
{
    if same(part, "std") || same(part, "standard") {
        "标准"
    } else if same(part, "pro") {
        "专业"
    } else if same(part, "fast") {
        "极速"
    } else if same(part, "ai") {
        "大模型"
    } else if same(part, "text") {
        "文生"
    } else if same(part, "image") {
        "图生"
    } else if same(part, "ref") {
        "视频参考"
    } else if same(part, "on") {
        "有声"
    } else if same(part, "off") {
        "无声"
    } else if same(part, "yes") {
        "含视频"
    } else if same(part, "no") {
        "无视频"
    } else if same(part, "img2img") {
        "图生图"
    } else if same(part, "ref_1_3") {
        "1-3张参考"
    } else if same(part, "ref_4_7") {
        "4-7张参考"
    } else {
        part
    }
}

/// A key in words: each of its parts by its name.
pub open spec fn key_in_words(key: Seq<char>) -> Seq<char> {
    joined(
        pieces(key, "|"@).map_values(|p: Seq<char>| billing_word(small_letters(trimmed(p)))),
        "|"@,
    )
}

/// Puts the key of a price table into words.
pub fn translate_billing_key(key: &str) -> (r: String)
    ensures
        r@ == key_in_words(key@),
{
    proof {
        reveal_strlit("|");
    }
    let parts = split(key, "|");
    let ghost ps = pieces(key@, "|"@);
    let mut words: Vec<String> = Vec::new();
    let mut i: usize = 0;
    while i < parts.len()
        invariant
            i <= parts@.len(),
            words@.len() == i,
            parts@.map_values(|t: &str| t@) == ps,
            forall|k: int|
                0 <= k < i ==> #[trigger] words@[k]@ == billing_word(small_letters(trimmed(ps[k]))),
        decreases parts@.len() - i,
    {
        assert(ps[i as int] == parts@[i as int]@);
        let low = to_lowercase(trim(parts[i]));
        words.push(word_for(low.as_str()).to_owned());
        i += 1;
    }
    proof {
        assert(words@.map_values(|t: String| t@) =~= ps.map_values(
            |p: Seq<char>| billing_word(small_letters(trimmed(p))),
        ));
    }
    join(&words, "|")
}

// ---------------------------------------------------------------- sizes

/// The sides of a size with any of its separators made `x`.
pub open spec fn size_parts(s: Seq<char>) -> Seq<Seq<char>> {
    pieces(
        replaced(replaced(replaced(s, "*"@, "x"@), "×"@, "x"@), ":"@, "x"@),
        "x"@,
    )
}

/// A size in pixels, given in small letters without white space round it: a
/// number of K stands for a square, two sides are written with an `x`;
/// anything else is empty.
pub open spec fn pixel_size(s: Seq<char>) -> Seq<char> {
    let k = if s.len() > 0 && s.last() == 'k' {
        decimal(s.drop_last(), false, 0, u32::MAX as int)
    } else {
        None
    };
    match k {
        Some(n) => shown(n * 1024) + "x"@ + shown(n * 1024),
        None => {
            let parts = size_parts(s);
            if parts.len() == 2 && decimal(trimmed(parts[0]), false, 0, u32::MAX as int) is Some
                && decimal(trimmed(parts[1]), false, 0, u32::MAX as int) is Some {
                trimmed(parts[0]) + "x"@ + trimmed(parts[1])
            } else {
                Seq::empty()
            }
        },
    }
}

/// Writes a size in pixels, given in small letters without white space round it.
pub fn pixel_size_of(s: &str) -> (r: String)
    ensures
        r@ == pixel_size(s@),
{
    proof {
        reveal_strlit("k");
        reveal_strlit("x");
        reveal_strlit("*");
        reveal_strlit("×");
        reveal_strlit(":");
        assert("k"@ =~= seq!['k']);
    }
    if ends_with(s, "k") {
        let n: usize = s.unicode_len();
        let head = take(s, n - 1);
        proof {
            assert(s@.subrange(s@.len() - 1, s@.len() as int) =~= seq!['k']);
            assert(s@.subrange(s@.len() - 1, s@.len() as int)[0] == s@.last());
            assert(s@.take(n - 1) =~= s@.drop_last());
        }
        match parse_u32(head) {
            Some(k) => {
                let side = show_u64(k as u64 * 1024);
                let mut out = side.clone();
                out.append("x");
                out.append(side.as_str());
                return out;
            },
            None => {},
        }
    } else {
        proof {
            if s@.len() > 0 && s@.last() == 'k' {
                assert(s@.subrange(s@.len() - 1, s@.len() as int) =~= seq!['k']);
            }
        }
    }
    let a = replace(s, "*", "x");
    let b = replace(a.as_str(), "×", "x");
    let c = replace(b.as_str(), ":", "x");
    let parts = split(c.as_str(), "x");
    let ghost ps = size_parts(s@);
    proof {
        assert(parts@.map_values(|t: &str| t@) == ps);
        assert(ps.len() == parts@.len());
    }
    if parts.len() == 2 {
        assert(ps[0] == parts@[0]@ && ps[1] == parts@[1]@);
        let w = trim(parts[0]);
        let h = trim(parts[1]);
        if parse_u32(w).is_some() && parse_u32(h).is_some() {
            let mut out = w.to_owned();
            out.append("x");
            out.append(h);
            return out;
        }
    }
    String::new()
}

/// Whether a text is made of ASCII and of the sign that separates the sides of
/// a size.
pub open spec fn is_size_text(s: Seq<char>) -> bool {
    forall|i: int| 0 <= i < s.len() ==> #[trigger] s[i] < '\u{80}' || s[i] == '×'
}

/// A size in small letters. The sign between its sides has no case.
pub open spec fn small_size(s: Seq<char>) -> Seq<char> {
    if is_size_text(s) {
        ascii_small(s)
    } else {
        small_letters(s)
    }
}

fn is_plain_size(s: &str) -> (r: bool)
    ensures
        r == is_size_text(s@),
{
    let chars = chars_of(s);
    let mut i: usize = 0;
    while i < chars.len()
        invariant
            i <= chars@.len(),
            chars@ == s@,
            forall|j: int| 0 <= j < i ==> #[trigger] s@[j] < '\u{80}' || s@[j] == '×',
        decreases chars@.len() - i,
    {
        if !(chars[i] < '\u{80}' || chars[i] == '×') {
            assert(!(s@[i as int] < '\u{80}' || s@[i as int] == '×'));
            return false;
        }
        i += 1;
    }
    true
}

/// Writes a size in pixels: empty where it is none.
pub fn normalize_pixel_size(size: &str) -> (r: String)
    ensures
        r@ == pixel_size(small_size(trimmed(size@))),
{
    let text = trim(size);
    let low = if is_plain_size(text) {
        to_ascii_lowercase(text)
    } else {
        to_lowercase(text)
    };
    pixel_size_of(low.as_str())
}

// ---------------------------------------------------------------- counts

/// The number of free images: that of the configuration, or else a default;
/// never below zero, and no more than an `i32` holds.
pub open spec fn free_images(ext: Option<Jv>, default: int) -> int {
    let n = match ext {
        Some(e) => match e.member("free_image_count"@) {
            Some(v) => match whole_number(v) {
                Some(n) => n,
                None => default,
            },
            None => default,
        },
        None => default,
    };
    if n <= 0 {
        0
    } else if n > i32::MAX {
        i32::MAX as int
    } else {
        n
    }
}

/// Reads the number of free images.
pub fn free_image_count(ext: &Option<Json>, default: i32) -> (r: i32)
    ensures
        r == free_images(
            match *ext {
                Some(e) => Some(e@),
                None => None,
            },
            default as int,
        ),
        r >= 0,
{
    let n: i64 = match ext {
        Some(e) => match e.get("free_image_count") {
            Some(v) => match whole_i64(v) {
                Some(n) => n,
                None => default as i64,
            },
            None => default as i64,
        },
        None => default as i64,
    };
    if n <= 0 {
        0
    } else if n > i32::MAX as i64 {
        i32::MAX
    } else {
        n as i32
    }
}

/// Reads the number of free images from the text of a configuration.
pub fn free_image_count_from_ext(extended_config: &str, default: i32) -> (r: i32)
    ensures
        r == free_images(parsed_json(extended_config@), default as int),
        r >= 0,
{
    let ext = Json::parse(extended_config);
    free_image_count(&ext, default)
}

/// Whether a tier that does not say so is in use.
pub fn default_tier_enabled() -> (r: bool)
    ensures
        r,
{
    true
}

/// The larger of zero and an integer.
pub open spec fn floored(i: int) -> int {
    if i > 0 {
        i
    } else {
        0
    }
}

/// Input tokens parted into those at the input price, those read from a cache
/// and those written to one. Where the total covers them all, the parts that
/// have a price of their own come out of the input; otherwise the parts that
/// have none go into it.
pub open spec fn prompt_subsets(
    prompt: int,
    cached: int,
    cache_write: int,
    bill_cached: bool,
    bill_write: bool,
    is_openai_format: bool,
) -> (int, int, int) {
    let c = floored(cached);
    let w = floored(cache_write);
    let bc = if bill_cached {
        c
    } else {
        0
    };
    let bw = if bill_write {
        w
    } else {
        0
    };
    if is_openai_format && prompt >= c + w {
        (prompt - bc - bw, bc, bw)
    } else {
        (prompt + (c - bc) + (w - bw), bc, bw)
    }
}

/// Parts input tokens by their price.
pub fn split_prompt_subsets(
    prompt: i64,
    cached: i32,
    cache_write: i32,
    bill_cached: bool,
    bill_write: bool,
    is_openai_format: bool,
) -> (r: (i64, i64, i64))
    requires
        i32::MIN * 2 <= prompt <= i32::MAX * 2,
    ensures
        (r.0 as int, r.1 as int, r.2 as int) == prompt_subsets(
            prompt as int,
            cached as int,
            cache_write as int,
            bill_cached,
            bill_write,
            is_openai_format,
        ),
{
    let c: i64 = if cached > 0 {
        cached as i64
    } else {
        0
    };
    let w: i64 = if cache_write > 0 {
        cache_write as i64
    } else {
        0
    };
    let bc: i64 = if bill_cached {
        c
    } else {
        0
    };
    let bw: i64 = if bill_write {
        w
    } else {
        0
    };
    if is_openai_format && prompt >= c + w {
        (prompt - bc - bw, bc, bw)
    } else {
        (prompt + (c - bc) + (w - bw), bc, bw)
    }
}

/// No token is billed twice and none is lost: where the total covers the
/// cached ones, the parts make up the input; otherwise they make up the input
/// and the cached ones together.
pub proof fn law_prompt_subsets_conserve(
    prompt: int,
    cached: int,
    cache_write: int,
    bill_cached: bool,
    bill_write: bool,
    is_openai_format: bool,
)
    ensures
        ({
            let (p, c, w) = prompt_subsets(
                prompt,
                cached,
                cache_write,
                bill_cached,
                bill_write,
                is_openai_format,
            );
            &&& c >= 0
            &&& w >= 0
            &&& is_openai_format && prompt >= floored(cached) + floored(cache_write) ==> p + c + w
                == prompt && p >= 0
            &&& !(is_openai_format && prompt >= floored(cached) + floored(cache_write)) ==> p + c
                + w == prompt + floored(cached) + floored(cache_write)
        }),
{
}

} // verus!
