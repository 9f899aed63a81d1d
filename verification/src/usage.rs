//! Token usage of a request.
use vstd::prelude::*;
use vstd::string::*;
use crate::double::{is_neutral, neutral, Double, SCALE_HIGH, SCALE_LOW};
use crate::json::{int_at, items_in, member_of, names, text_at, views, Json, Jv};
use crate::text::{byte_count, byte_len};

verus! {

/// The tokens that a request used.
#[derive(Clone, Copy, Debug, PartialEq, Eq)]
pub struct UsageTokens {
    /// Input tokens.
    pub prompt: i32,
    /// Output tokens.
    pub completion: i32,
    /// All tokens.
    pub total: i32,
    /// Input tokens that were read from a cache.
    pub cached: i32,
    /// Input tokens that were written to a cache.
    pub cache_write: i32,
    /// Input tokens with which a cache was created.
    pub cache_creation: i32,
    /// Input tokens of images.
    pub image_tokens: i32,
    /// Input tokens of audio that were not read from a cache.
    pub audio_tokens: i32,
    /// Input tokens of audio that were read from a cache.
    pub audio_cached_tokens: i32,
    /// Whether the upstream named the total itself.
    pub has_total_tokens: bool,
}

// ---------------------------------------------------------------- estimates

/// The bytes of the text contents of messages.
pub open spec fn message_bytes(msgs: Seq<Jv>) -> nat
    decreases msgs.len(),
{
    if msgs.len() == 0 {
        0
    } else {
        message_bytes(msgs.drop_last()) + match text_at(msgs.last(), "content"@) {
            Some(s) => byte_count(s),
            None => 0,
        }
    }
}

/// The bytes of the texts of input elements: the text, or else the content.
pub open spec fn input_bytes(items: Seq<Jv>) -> nat
    decreases items.len(),
{
    if items.len() == 0 {
        0
    } else {
        input_bytes(items.drop_last()) + match text_at(items.last(), "text"@) {
            Some(s) => byte_count(s),
            None => match text_at(items.last(), "content"@) {
                Some(s) => byte_count(s),
                None => 0,
            },
        }
    }
}

/// The bytes of the texts of a request: messages, input and instructions.
pub open spec fn prompt_bytes(body: Jv) -> nat {
    message_bytes(items_in(body.member("messages"@))) + (match body.member("input"@) {
        Some(Jv::Str(s)) => byte_count(s),
        Some(Jv::Arr(a)) => input_bytes(a),
        _ => 0,
    }) + (match text_at(body, "instructions"@) {
        Some(s) => byte_count(s),
        None => 0,
    })
}

/// One token for every four bytes that were begun, up to the largest `i32`.
pub open spec fn tokens_for(bytes: nat) -> int {
    let n = (bytes + 3) / 4;
    if n > i32::MAX {
        i32::MAX as int
    } else {
        n as int
    }
}

/// Adds, up to the largest number.
fn add_up(a: u64, b: u64) -> (r: u64)
    ensures
        r == if a + b > u64::MAX {
            u64::MAX as int
        } else {
            a + b
        },
{
    if a > u64::MAX - b {
        u64::MAX
    } else {
        a + b
    }
}

/// A sum as far as the largest number goes.
spec fn capped(n: nat) -> nat {
    if n > u64::MAX {
        u64::MAX as nat
    } else {
        n
    }
}

fn text_bytes(o: Option<&str>) -> (r: u64)
    ensures
        r == match o {
            Some(s) => byte_count(s@),
            None => 0,
        },
{
    match o {
        Some(s) => byte_len(s) as u64,
        None => 0,
    }
}

fn count_messages(msgs: &Vec<Json>) -> (r: u64)
    ensures
        r == capped(message_bytes(views(msgs@))),
{
    let ghost all = views(msgs@);
    let mut sum: u64 = 0;
    let mut i: usize = 0;
    proof {
        assert(all.take(0) =~= Seq::<Jv>::empty());
    }
    while i < msgs.len()
        invariant
            i <= msgs@.len(),
            all == views(msgs@),
            sum == capped(message_bytes(all.take(i as int))),
        decreases msgs@.len() - i,
    {
        proof {
            assert(all.take(i + 1).drop_last() =~= all.take(i as int));
            assert(all.take(i + 1).last() == msgs@[i as int]@);
        }
        let n: u64 = text_bytes(msgs[i].get_str("content"));
        sum = add_up(sum, n);
        i += 1;
    }
    proof {
        assert(all.take(i as int) =~= all);
    }
    sum
}

fn count_input(items: &Vec<Json>) -> (r: u64)
    ensures
        r == capped(input_bytes(views(items@))),
{
    let ghost all = views(items@);
    let mut sum: u64 = 0;
    let mut i: usize = 0;
    proof {
        assert(all.take(0) =~= Seq::<Jv>::empty());
    }
    while i < items.len()
        invariant
            i <= items@.len(),
            all == views(items@),
            sum == capped(input_bytes(all.take(i as int))),
        decreases items@.len() - i,
    {
        proof {
            assert(all.take(i + 1).drop_last() =~= all.take(i as int));
            assert(all.take(i + 1).last() == items@[i as int]@);
        }
        let text = items[i].get_str("text");
        let n: u64 = if text.is_some() {
            text_bytes(text)
        } else {
            text_bytes(items[i].get_str("content"))
        };
        sum = add_up(sum, n);
        i += 1;
    }
    proof {
        assert(all.take(i as int) =~= all);
    }
    sum
}

/// Estimates the input tokens of a request from its texts.
pub fn estimate_prompt_tokens(body: &Json) -> (r: i32)
    ensures
        r == tokens_for(prompt_bytes(body@)),
{
    let messages: u64 = match body.get_array("messages") {
        Some(m) => count_messages(m),
        None => 0,
    };
    let input: u64 = match body.get("input") {
        Some(v) => match v {
            Json::Str(s) => text_bytes(Some(s.as_str())),
            _ => match v.as_array() {
                Some(a) => count_input(a),
                None => 0,
            },
        },
        None => 0,
    };
    let instructions: u64 = text_bytes(body.get_str("instructions"));
    let total: u64 = add_up(add_up(messages, input), instructions);
    let quarter: u64 = if total % 4 == 0 {
        total / 4
    } else {
        total / 4 + 1
    };
    if quarter > i32::MAX as u64 {
        i32::MAX
    } else {
        quarter as i32
    }
}

// ---------------------------------------------------------------- scaling

/// The names of the token counts in a usage object.
pub open spec fn token_keys() -> Seq<Seq<char>> {
    seq![
        "prompt_tokens"@,
        "completion_tokens"@,
        "total_tokens"@,
        "input_tokens"@,
        "output_tokens"@,
        "image_tokens"@,
    ]
}

fn token_key_list() -> (r: Vec<&'static str>)
    ensures
        r@.len() == 6,
        names(r@) == token_keys(),
{
    let r = vec![
        "prompt_tokens",
        "completion_tokens",
        "total_tokens",
        "input_tokens",
        "output_tokens",
        "image_tokens",
    ];
    assert(names(r@) =~= token_keys());
    r
}

/// The token counts of a usage object; zero where there is none.
pub open spec fn token_counts(usage: Option<Jv>) -> Seq<int> {
    Seq::new(
        6,
        |i: int|
            match usage {
                Some(u) => match int_at(u, token_keys()[i]) {
                    Some(n) => n,
                    None => 0,
                },
                None => 0,
            },
    )
}

/// Reads the token counts of a usage object.
pub fn read_token_counts(usage: Option<&Json>) -> (r: Vec<i64>)
    ensures
        r@.map_values(|n: i64| n as int) == token_counts(
            match usage {
                Some(u) => Some(u@),
                None => None,
            },
        ),
{
    let keys = token_key_list();
    let ghost want = token_counts(
        match usage {
            Some(u) => Some(u@),
            None => None,
        },
    );
    let mut out: Vec<i64> = Vec::new();
    let mut i: usize = 0;
    while i < 6
        invariant
            i <= 6,
            keys@.len() == 6,
            names(keys@) == token_keys(),
            out@.len() == i,
            want == token_counts(
                match usage {
                    Some(u) => Some(u@),
                    None => None,
                },
            ),
            forall|k: int| 0 <= k < i ==> #[trigger] out@[k] == want[k],
        decreases 6 - i,
    {
        assert(names(keys@)[i as int] == keys@[i as int]@);
        let n: i64 = match usage {
            Some(u) => match u.get_i64(keys[i]) {
                Some(n) => n,
                None => 0,
            },
            None => 0,
        };
        out.push(n);
        i += 1;
    }
    proof {
        assert(out@.map_values(|n: i64| n as int) =~= want);
    }
    out
}

/// The usage object with the first `n` of its counts scaled, where they are
/// not zero.
pub open spec fn scaled_upto(usage: Jv, scaled: Seq<int>, n: int) -> Jv
    decreases n,
{
    if n <= 0 {
        usage
    } else {
        let done = scaled_upto(usage, scaled, n - 1);
        let key = token_keys()[n - 1];
        match int_at(done, key) {
            Some(c) => if c != 0 {
                done.with(key, Jv::Int(scaled[n - 1]))
            } else {
                done
            },
            None => done,
        }
    }
}

fn scale_object(usage: &mut Json, scaled: &Vec<i64>)
    requires
        scaled@.len() == 6,
    ensures
        final(usage)@ == scaled_upto(old(usage)@, scaled@.map_values(|n: i64| n as int), 6),
{
    let keys = token_key_list();
    let ghost start = usage@;
    let ghost s = scaled@.map_values(|n: i64| n as int);
    let mut i: usize = 0;
    while i < 6
        invariant
            i <= 6,
            keys@.len() == 6,
            scaled@.len() == 6,
            names(keys@) == token_keys(),
            s == scaled@.map_values(|n: i64| n as int),
            usage@ == scaled_upto(start, s, i as int),
        decreases 6 - i,
    {
        assert(names(keys@)[i as int] == keys@[i as int]@);
        assert(s[i as int] == scaled@[i as int]);
        match usage.get_i64(keys[i]) {
            Some(c) => {
                if c != 0 {
                    usage.assign(keys[i], Json::number(scaled[i]));
                }
            },
            None => {},
        }
        i += 1;
    }
}

/// The usage objects of a response: at the top and under the data.
pub open spec fn usage_at_top(root: Jv) -> Option<Jv> {
    root.member("usage"@)
}

pub open spec fn usage_in_data(root: Jv) -> Option<Jv> {
    member_of(root.member("data"@), "usage"@)
}

/// A response with the counts of its usage objects replaced by scaled ones; a
/// factor of one changes nothing.
pub open spec fn scaled_usage(root: Jv, factor: Double, top: Seq<int>, data: Seq<int>) -> Jv {
    if is_neutral(factor, SCALE_LOW, SCALE_HIGH) {
        root
    } else {
        with_scaled_usage(root, top, data)
    }
}

/// A response with the counts of its usage objects replaced.
pub open spec fn with_scaled_usage(root: Jv, top: Seq<int>, data: Seq<int>) -> Jv {
    let a = match usage_at_top(root) {
        Some(u) => root.with("usage"@, scaled_upto(u, top, 6)),
        None => root,
    };
    match usage_in_data(a) {
        Some(u) => a.with("data"@, a.at("data"@).with("usage"@, scaled_upto(u, data, 6))),
        None => a,
    }
}

/// Replaces the token counts of a response by scaled ones, unless the factor
/// is one. `top` are the counts of the usage object at the top, times the
/// factor, and `data` those of the one under the data, each in the order of
/// `read_token_counts`.
pub fn scale_usage_in_json(root: &mut Json, factor: Double, top: &Vec<i64>, data: &Vec<i64>)
    requires
        top@.len() == 6,
        data@.len() == 6,
    ensures
        final(root)@ == scaled_usage(
            old(root)@,
            factor,
            top@.map_values(|n: i64| n as int),
            data@.map_values(|n: i64| n as int),
        ),
{
    if neutral(factor, SCALE_LOW, SCALE_HIGH) {
        return ;
    }
    if root.has("usage") {
        let mut u = root.copy_at("usage");
        scale_object(&mut u, top);
        root.assign("usage", u);
    }
    let inner = match root.get("data") {
        Some(d) => if d.has("usage") {
            Some(d.dup())
        } else {
            None
        },
        None => None,
    };
    match inner {
        Some(d) => {
            let mut d = d;
            let mut u = d.copy_at("usage");
            scale_object(&mut u, data);
            d.assign("usage", u);
            root.assign("data", d);
        },
        None => {},
    }
}

} // verus!
