//! What holds of the tokens that a request and its answer count.
use vstd::prelude::*;
use vstd::string::*;
use crate::double::{is_neutral, Double, SCALE_HIGH, SCALE_LOW};
use crate::json::{int_at, items_in, text_at, Jv};
use crate::text::byte_count;
use crate::usage::{
    input_bytes, message_bytes, prompt_bytes, scaled_upto, scaled_usage, token_counts, token_keys,
    tokens_for, with_scaled_usage,
};

verus! {

/// Four bytes are a token, and what is left over is one more; an estimate goes
/// no further than a count can.
pub proof fn law_tokens_of_bytes(bytes: nat)
    ensures
        bytes <= 4 * i32::MAX ==> 4 * tokens_for(bytes) >= bytes && 4 * tokens_for(bytes) < bytes
            + 4,
        bytes > 4 * i32::MAX ==> tokens_for(bytes) == i32::MAX,
{
}

/// Each message adds the bytes of its text to the prompt.
pub proof fn law_message_bytes(msgs: Seq<Jv>, msg: Jv)
    ensures
        text_at(msg, "content"@) matches Some(t) ==> message_bytes(msgs.push(msg))
            == message_bytes(msgs) + byte_count(t),
        text_at(msg, "content"@) is None ==> message_bytes(msgs.push(msg)) == message_bytes(msgs),
        message_bytes(Seq::<Jv>::empty()) == 0,
{
    assert(msgs.push(msg).drop_last() =~= msgs);
}

/// Each element of an input adds the bytes of its text to the prompt.
pub proof fn law_input_bytes(items: Seq<Jv>, item: Jv)
    ensures
        text_at(item, "text"@) matches Some(t) ==> input_bytes(items.push(item)) == input_bytes(
            items,
        ) + byte_count(t),
        text_at(item, "text"@) is None ==> (text_at(item, "content"@) matches Some(t)
            ==> input_bytes(items.push(item)) == input_bytes(items) + byte_count(t)),
        text_at(item, "text"@) is None && text_at(item, "content"@) is None ==> input_bytes(
            items.push(item),
        ) == input_bytes(items),
        input_bytes(Seq::<Jv>::empty()) == 0,
{
    assert(items.push(item).drop_last() =~= items);
}

/// A prompt is its messages, its input and its instructions.
pub proof fn law_prompt_bytes(body: Jv, msgs: Seq<Jv>, input: Seq<char>, more: Seq<char>)
    ensures
        body.member("messages"@) == Some(Jv::Arr(msgs)) && body.member("input"@) is None
            && body.member("instructions"@) is None ==> prompt_bytes(body) == message_bytes(msgs),
        body.member("messages"@) is None && body.member("input"@) == Some(Jv::Str(input))
            && body.member("instructions"@) == Some(Jv::Str(more)) ==> prompt_bytes(body)
            == byte_count(input) + byte_count(more),
        body.member("messages"@) is None && body.member("input"@) is None && body.member(
            "instructions"@,
        ) is None ==> prompt_bytes(body) == 0,
{
    assert(message_bytes(Seq::<Jv>::empty()) == 0);
    assert(items_in(None::<Jv>) =~= Seq::<Jv>::empty());
}

/// What a usage object counts, by name; what it does not count is zero.
pub proof fn law_token_counts(u: Jv, c: Seq<int>)
    requires
        c == token_counts(Some(u)),
    ensures
        c.len() == 6,
        int_at(u, "prompt_tokens"@) matches Some(n) ==> c[0] == n,
        int_at(u, "prompt_tokens"@) is None ==> c[0] == 0,
        int_at(u, "completion_tokens"@) matches Some(n) ==> c[1] == n,
        int_at(u, "completion_tokens"@) is None ==> c[1] == 0,
        int_at(u, "total_tokens"@) matches Some(n) ==> c[2] == n,
        int_at(u, "total_tokens"@) is None ==> c[2] == 0,
        int_at(u, "input_tokens"@) matches Some(n) ==> c[3] == n,
        int_at(u, "input_tokens"@) is None ==> c[3] == 0,
        int_at(u, "output_tokens"@) matches Some(n) ==> c[4] == n,
        int_at(u, "output_tokens"@) is None ==> c[4] == 0,
        int_at(u, "image_tokens"@) matches Some(n) ==> c[5] == n,
        int_at(u, "image_tokens"@) is None ==> c[5] == 0,
{
    assert(token_keys()[0] == "prompt_tokens"@);
    assert(token_keys()[1] == "completion_tokens"@);
    assert(token_keys()[2] == "total_tokens"@);
    assert(token_keys()[3] == "input_tokens"@);
    assert(token_keys()[4] == "output_tokens"@);
    assert(token_keys()[5] == "image_tokens"@);
}

proof fn lemma_scaled(usage: Jv, scaled: Seq<int>, n: int, key: Seq<char>, j: int)
    requires
        usage is Obj,
        0 <= n <= 6,
        forall|a: int, b: int|
            0 <= a < b < 6 ==> #[trigger] token_keys()[a] != #[trigger] token_keys()[b],
        0 <= j < 6 ==> key == token_keys()[j],
        !(0 <= j < 6) ==> !token_keys().contains(key),
    ensures
        scaled_upto(usage, scaled, n) is Obj,
        scaled_upto(usage, scaled, n).member(key) == if 0 <= j < n && int_at(usage, key) is Some
            && int_at(usage, key) != Some(0int) {
            Some(Jv::Int(scaled[j]))
        } else {
            usage.member(key)
        },
    decreases n,
{
    if n > 0 {
        lemma_scaled(usage, scaled, n - 1, key, j);
        lemma_scaled(usage, scaled, n - 1, token_keys()[n - 1], n - 1);
        if !(0 <= j < 6) {
            assert(token_keys()[n - 1] != key);
        } else if j < n - 1 {
            assert(token_keys()[j] != token_keys()[n - 1]);
        } else if j > n - 1 {
            assert(token_keys()[n - 1] != token_keys()[j]);
        }
    }
}

/// A scaled usage has the scaled count for each count that is not zero, and
/// everything else as it was.
pub proof fn law_scaled_usage(u: Jv, scaled: Seq<int>, key: Seq<char>, r: Jv)
    requires
        u is Obj,
        scaled.len() == 6,
        r == scaled_upto(u, scaled, 6),
    ensures
        int_at(u, "prompt_tokens"@) matches Some(n) ==> (n != 0 ==> r.member("prompt_tokens"@) == Some(
            Jv::Int(scaled[0]),
        )),
        int_at(u, "prompt_tokens"@) is None || int_at(u, "prompt_tokens"@) == Some(0int) ==> r.member("prompt_tokens"@)
            == u.member("prompt_tokens"@),
        int_at(u, "completion_tokens"@) matches Some(n) ==> (n != 0 ==> r.member("completion_tokens"@) == Some(
            Jv::Int(scaled[1]),
        )),
        int_at(u, "completion_tokens"@) is None || int_at(u, "completion_tokens"@) == Some(0int) ==> r.member("completion_tokens"@)
            == u.member("completion_tokens"@),
        int_at(u, "total_tokens"@) matches Some(n) ==> (n != 0 ==> r.member("total_tokens"@) == Some(
            Jv::Int(scaled[2]),
        )),
        int_at(u, "total_tokens"@) is None || int_at(u, "total_tokens"@) == Some(0int) ==> r.member("total_tokens"@)
            == u.member("total_tokens"@),
        int_at(u, "input_tokens"@) matches Some(n) ==> (n != 0 ==> r.member("input_tokens"@) == Some(
            Jv::Int(scaled[3]),
        )),
        int_at(u, "input_tokens"@) is None || int_at(u, "input_tokens"@) == Some(0int) ==> r.member("input_tokens"@)
            == u.member("input_tokens"@),
        int_at(u, "output_tokens"@) matches Some(n) ==> (n != 0 ==> r.member("output_tokens"@) == Some(
            Jv::Int(scaled[4]),
        )),
        int_at(u, "output_tokens"@) is None || int_at(u, "output_tokens"@) == Some(0int) ==> r.member("output_tokens"@)
            == u.member("output_tokens"@),
        int_at(u, "image_tokens"@) matches Some(n) ==> (n != 0 ==> r.member("image_tokens"@) == Some(
            Jv::Int(scaled[5]),
        )),
        int_at(u, "image_tokens"@) is None || int_at(u, "image_tokens"@) == Some(0int) ==> r.member("image_tokens"@)
            == u.member("image_tokens"@),
        key != "prompt_tokens"@ && key != "completion_tokens"@ && key != "total_tokens"@
            && key != "input_tokens"@ && key != "output_tokens"@
            && key != "image_tokens"@ ==> r.member(key) == u.member(key),
{
    reveal_strlit("completion_tokens");
    reveal_strlit("image_tokens");
    reveal_strlit("input_tokens");
    reveal_strlit("output_tokens");
    reveal_strlit("prompt_tokens");
    reveal_strlit("total_tokens");
    assert("completion_tokens"@.len() == 17);
    assert("image_tokens"@.len() == 12);
    assert("input_tokens"@.len() == 12);
    assert("output_tokens"@.len() == 13);
    assert("prompt_tokens"@.len() == 13);
    assert("total_tokens"@.len() == 12);
    assert("image_tokens"@[1] == 'm');
    assert("input_tokens"@[1] == 'n');
    assert("image_tokens"@[0] == 'i');
    assert("total_tokens"@[0] == 't');
    assert("input_tokens"@[0] == 'i');
    assert("output_tokens"@[0] == 'o');
    assert("prompt_tokens"@[0] == 'p');
    assert(token_keys()[0] == "prompt_tokens"@);
    assert(token_keys()[1] == "completion_tokens"@);
    assert(token_keys()[2] == "total_tokens"@);
    assert(token_keys()[3] == "input_tokens"@);
    assert(token_keys()[4] == "output_tokens"@);
    assert(token_keys()[5] == "image_tokens"@);
    assert forall|a: int, b: int| 0 <= a < b < 6 implies #[trigger] token_keys()[a]
        != #[trigger] token_keys()[b] by {
        assert(a == 0 || a == 1 || a == 2 || a == 3 || a == 4);
        assert(b == 1 || b == 2 || b == 3 || b == 4 || b == 5);
    }
    lemma_scaled(u, scaled, 6, "prompt_tokens"@, 0);
    lemma_scaled(u, scaled, 6, "completion_tokens"@, 1);
    lemma_scaled(u, scaled, 6, "total_tokens"@, 2);
    lemma_scaled(u, scaled, 6, "input_tokens"@, 3);
    lemma_scaled(u, scaled, 6, "output_tokens"@, 4);
    lemma_scaled(u, scaled, 6, "image_tokens"@, 5);
    if key != "prompt_tokens"@ && key != "completion_tokens"@ && key != "total_tokens"@
        && key != "input_tokens"@ && key != "output_tokens"@ && key != "image_tokens"@ {
        assert(!token_keys().contains(key)) by {
            if token_keys().contains(key) {
                let i = choose|i: int| 0 <= i < token_keys().len() && token_keys()[i] == key;
                assert(i == 0 || i == 1 || i == 2 || i == 3 || i == 4 || i == 5);
            }
        }
        lemma_scaled(u, scaled, 6, key, -1);
    }
}

/// The usage of an answer stands at its top or under its data; the rest of the
/// answer stays.
pub proof fn law_usage_places(root: Jv, top: Seq<int>, data: Seq<int>, key: Seq<char>, r: Jv)
    requires
        root is Obj,
        r == with_scaled_usage(root, top, data),
    ensures
        root.member("usage"@) matches Some(u) ==> r.member("usage"@) == Some(
            scaled_upto(u, top, 6),
        ),
        root.member("usage"@) is None ==> r.member("usage"@) is None,
        root.member("data"@) matches Some(d) ==> (d.member("usage"@) matches Some(u) ==> r.at(
            "data"@,
        ).member("usage"@) == Some(scaled_upto(u, data, 6)) && (key != "usage"@ ==> r.at(
            "data"@,
        ).member(key) == d.member(key))),
        root.at("data"@).member("usage"@) is None ==> r.member("data"@) == root.member("data"@),
        key != "usage"@ && key != "data"@ ==> r.member(key) == root.member(key),
{
    reveal_strlit("data");
    reveal_strlit("usage");
    assert("data"@.len() == 4);
    assert("usage"@.len() == 5);
}

/// A factor that is as good as one leaves an answer as it is; any other scales
/// its usage.
pub proof fn law_scaling_factor(root: Jv, factor: Double, top: Seq<int>, data: Seq<int>)
    ensures
        is_neutral(factor, SCALE_LOW, SCALE_HIGH) ==> scaled_usage(root, factor, top, data) == root,
        !is_neutral(factor, SCALE_LOW, SCALE_HIGH) ==> scaled_usage(root, factor, top, data)
            == with_scaled_usage(root, top, data),
{
}

} // verus!
