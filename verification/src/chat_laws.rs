//! What holds of chats: what is kept of a request on its way to a vendor, and
//! of the answer on its way back.
use vstd::prelude::*;
use vstd::string::*;
use crate::chat::{
    anthropic_chunk, anthropic_completion, first_text_block, gemini_chunks, gemini_completion,
    gemini_usage, openai_line, openai_response,
};
use crate::json::{
    int_at, items_in, json_text, lemma_carry_all, no_members, parsed_json, single, text_at, Jv,
};
use crate::request::{
    anthropic_body, anthropic_keys, anthropic_messages, gemini_chat_body, gemini_contents,
    gemini_system, system_content,
};
use crate::usage::UsageTokens;

verus! {

// ---------------------------------------------------------------- Anthropic requests

/// Whether a message is a system message.
pub open spec fn is_system(msg: Jv) -> bool {
    text_at(msg, "role"@) == Some("system"@)
}

/// The role that a message has: a message without one is the user's.
pub open spec fn speaker(msg: Jv) -> Jv {
    match text_at(msg, "role"@) {
        Some(role) => Jv::Str(role),
        None => Jv::Str("user"@),
    }
}

proof fn lemma_anthropic_messages(msgs: Seq<Jv>)
    ensures
        ({
            let kept = msgs.filter(|m: Jv| !is_system(m));
            let sent = anthropic_messages(msgs);
            &&& sent.len() == kept.len()
            &&& forall|i: int|
                0 <= i < sent.len() ==> (#[trigger] sent[i]).member("role"@) == Some(
                    speaker(kept[i]),
                ) && sent[i].member("content"@) == Some(kept[i].at("content"@))
        }),
    decreases msgs.len(),
{
    reveal(Seq::filter);
    reveal_strlit("content");
    reveal_strlit("role");
    reveal_strlit("system");
    reveal_strlit("user");
    assert("content"@.len() == 7);
    assert("role"@.len() == 4);
    assert("system"@.len() == 6);
    assert("user"@.len() == 4);
    assert("role"@[0] == 'r');
    assert("user"@[0] == 'u');
    let kept = msgs.filter(|m: Jv| !is_system(m));
    let sent = anthropic_messages(msgs);
    if msgs.len() > 0 {
        let before = msgs.drop_last();
        lemma_anthropic_messages(before);
        let kept_before = before.filter(|m: Jv| !is_system(m));
        let sent_before = anthropic_messages(before);
        assert forall|i: int| 0 <= i < sent.len() implies (#[trigger] sent[i]).member("role"@)
            == Some(speaker(kept[i])) && sent[i].member("content"@) == Some(
            kept[i].at("content"@),
        ) by {
            if i < sent_before.len() {
                assert(sent[i] == sent_before[i]);
                assert(kept[i] == kept_before[i]);
            }
        }
    }
}

/// An Anthropic request has the messages of the chat that are no system
/// messages, in their order, each with its role and its content.
pub proof fn law_anthropic_messages(model: Seq<char>, body: Jv, msgs: Seq<Jv>)
    requires
        body.member("messages"@) == Some(Jv::Arr(msgs)),
    ensures
        ({
            let kept = msgs.filter(|m: Jv| !is_system(m));
            let r = anthropic_body(model, body);
            &&& r.member("messages"@) matches Some(Jv::Arr(sent))
            &&& sent.len() == kept.len()
            &&& forall|i: int|
                0 <= i < sent.len() ==> (#[trigger] sent[i]).member("role"@) == Some(
                    speaker(kept[i]),
                ) && sent[i].member("content"@) == Some(kept[i].at("content"@))
        }),
{
    lemma_anthropic_messages(msgs);
    lemma_anthropic_frame(model, body, "messages"@);
    reveal_strlit("max_tokens");
    reveal_strlit("messages");
    reveal_strlit("metadata");
    reveal_strlit("model");
    reveal_strlit("reasoning_effort");
    reveal_strlit("stop_sequences");
    reveal_strlit("stream");
    reveal_strlit("system");
    reveal_strlit("temperature");
    reveal_strlit("thinking");
    reveal_strlit("tool_choice");
    reveal_strlit("tools");
    reveal_strlit("top_k");
    reveal_strlit("top_p");
    assert("max_tokens"@.len() == 10);
    assert("messages"@.len() == 8);
    assert("metadata"@.len() == 8);
    assert("model"@.len() == 5);
    assert("reasoning_effort"@.len() == 16);
    assert("stop_sequences"@.len() == 14);
    assert("stream"@.len() == 6);
    assert("system"@.len() == 6);
    assert("temperature"@.len() == 11);
    assert("thinking"@.len() == 8);
    assert("tool_choice"@.len() == 11);
    assert("tools"@.len() == 5);
    assert("top_k"@.len() == 5);
    assert("top_p"@.len() == 5);
    assert("messages"@[2] == 's');
    assert("metadata"@[2] == 't');
    assert("messages"@[0] == 'm');
    assert("thinking"@[0] == 't');
    assert("metadata"@[0] == 'm');
    assert("model"@[0] == 'm');
    assert("tools"@[0] == 't');
    assert("top_k"@[0] == 't');
    assert("top_p"@[0] == 't');
    assert("stream"@[1] == 't');
    assert("system"@[1] == 'y');
    assert("temperature"@[1] == 'e');
    assert("tool_choice"@[1] == 'o');
    assert("tools"@[2] == 'o');
    assert("top_k"@[2] == 'p');
    assert("top_p"@[2] == 'p');
    assert("top_k"@[4] == 'k');
    assert("top_p"@[4] == 'p');
}

/// Where no message is a system message, each goes on as it is.
pub proof fn law_anthropic_turns(model: Seq<char>, body: Jv, msgs: Seq<Jv>, i: int)
    requires
        body.member("messages"@) == Some(Jv::Arr(msgs)),
        forall|k: int|
            0 <= k < msgs.len() ==> text_at(#[trigger] msgs[k], "role"@) is Some && text_at(
                msgs[k],
                "role"@,
            ) != Some("system"@) && msgs[k].member("content"@) is Some,
        0 <= i < msgs.len(),
    ensures
        ({
            let r = anthropic_body(model, body);
            &&& r.member("messages"@) matches Some(Jv::Arr(sent))
            &&& sent.len() == msgs.len()
            &&& text_at(sent[i], "role"@) == text_at(msgs[i], "role"@)
            &&& sent[i].member("content"@) == msgs[i].member("content"@)
        }),
{
    law_anthropic_messages(model, body, msgs);
    lemma_filter_all(msgs);
}

proof fn lemma_filter_all(msgs: Seq<Jv>)
    requires
        forall|k: int| 0 <= k < msgs.len() ==> !is_system(#[trigger] msgs[k]),
    ensures
        msgs.filter(|m: Jv| !is_system(m)) == msgs,
    decreases msgs.len(),
{
    reveal(Seq::filter);
    if msgs.len() > 0 {
        let before = msgs.drop_last();
        assert forall|k: int| 0 <= k < before.len() implies !is_system(#[trigger] before[k]) by {
            assert(before[k] == msgs[k]);
        }
        lemma_filter_all(before);
        assert(!is_system(msgs[msgs.len() - 1]));
        assert(msgs =~= before.push(msgs.last()));
    } else {
        assert(msgs.filter(|m: Jv| !is_system(m)) =~= msgs);
    }
}

proof fn lemma_anthropic_frame(model: Seq<char>, body: Jv, key: Seq<char>)
    ensures
        ({
            let r = anthropic_body(model, body);
            let own = anthropic_keys().contains(key);
            &&& r is Obj
            &&& own && body.member(key) is Some ==> r.member(key) == body.member(key)
            &&& !own && key == "messages"@ && key != "max_tokens"@ && key != "system"@ ==> r.member(
                key,
            ) == Some(Jv::Arr(anthropic_messages(items_in(body.member("messages"@)))))
            &&& !own && key == "model"@ && key != "messages"@ && key != "max_tokens"@ && key
                != "system"@ ==> r.member(key) == Some(Jv::Str(model))
            &&& !own && key == "max_tokens"@ && key != "system"@ ==> r.member(key) == Some(
                Jv::Int(crate::json::int_or(body, "max_tokens"@, 4096)),
            )
            &&& !own && key == "system"@ && body.member("system"@) is Some ==> r.member(key)
                == body.member("system"@)
            &&& !own && key == "system"@ && body.member("system"@) is None && key != "model"@ && key
                != "messages"@ && key != "max_tokens"@ ==> r.member(key) == system_content(
                items_in(body.member("messages"@)),
            )
            &&& (!own || body.member(key) is None) && key != "model"@ && key != "messages"@ && key
                != "max_tokens"@ && key != "system"@ ==> r.member(key) is None
        }),
{
    let msgs = items_in(body.member("messages"@));
    let a = single("model"@, Jv::Str(model)).with(
        "messages"@,
        Jv::Arr(anthropic_messages(msgs)),
    ).with("max_tokens"@, Jv::Int(crate::json::int_or(body, "max_tokens"@, 4096)));
    let b = match body.member("system"@) {
        Some(sys) => a.with("system"@, sys),
        None => match system_content(msgs) {
            Some(sys) => a.with("system"@, sys),
            None => a,
        },
    };
    lemma_carry_all(b, body, anthropic_keys(), key);
}

/// An Anthropic request names the model it is sent to, has a bound on its
/// output, and keeps its settings under their own names.
pub proof fn law_anthropic_keeps(model: Seq<char>, body: Jv, r: Jv)
    requires
        r == anthropic_body(model, body),
    ensures
        r.member("model"@) == Some(Jv::Str(model)),
        r.member("max_tokens"@) == Some(
            match int_at(body, "max_tokens"@) {
                Some(n) => Jv::Int(n),
                None => Jv::Int(4096),
            },
        ),
        body.member("system"@) is Some ==> r.member("system"@) == body.member("system"@),
        r.member("temperature"@) == body.member("temperature"@),
        r.member("top_p"@) == body.member("top_p"@),
        r.member("top_k"@) == body.member("top_k"@),
        r.member("stream"@) == body.member("stream"@),
        r.member("stop_sequences"@) == body.member("stop_sequences"@),
        r.member("metadata"@) == body.member("metadata"@),
        r.member("tools"@) == body.member("tools"@),
        r.member("tool_choice"@) == body.member("tool_choice"@),
        r.member("thinking"@) == body.member("thinking"@),
        r.member("reasoning_effort"@) == body.member("reasoning_effort"@),
{
    reveal_strlit("max_tokens");
    reveal_strlit("messages");
    reveal_strlit("metadata");
    reveal_strlit("model");
    reveal_strlit("reasoning_effort");
    reveal_strlit("stop_sequences");
    reveal_strlit("stream");
    reveal_strlit("system");
    reveal_strlit("temperature");
    reveal_strlit("thinking");
    reveal_strlit("tool_choice");
    reveal_strlit("tools");
    reveal_strlit("top_k");
    reveal_strlit("top_p");
    assert("max_tokens"@.len() == 10);
    assert("messages"@.len() == 8);
    assert("metadata"@.len() == 8);
    assert("model"@.len() == 5);
    assert("reasoning_effort"@.len() == 16);
    assert("stop_sequences"@.len() == 14);
    assert("stream"@.len() == 6);
    assert("system"@.len() == 6);
    assert("temperature"@.len() == 11);
    assert("thinking"@.len() == 8);
    assert("tool_choice"@.len() == 11);
    assert("tools"@.len() == 5);
    assert("top_k"@.len() == 5);
    assert("top_p"@.len() == 5);
    assert("messages"@[2] == 's');
    assert("metadata"@[2] == 't');
    assert("messages"@[0] == 'm');
    assert("thinking"@[0] == 't');
    assert("metadata"@[0] == 'm');
    assert("model"@[0] == 'm');
    assert("tools"@[0] == 't');
    assert("top_k"@[0] == 't');
    assert("top_p"@[0] == 't');
    assert("stream"@[1] == 't');
    assert("system"@[1] == 'y');
    assert("temperature"@[1] == 'e');
    assert("tool_choice"@[1] == 'o');
    assert("tools"@[2] == 'o');
    assert("top_k"@[2] == 'p');
    assert("top_p"@[2] == 'p');
    assert("top_k"@[4] == 'k');
    assert("top_p"@[4] == 'p');
    assert(anthropic_keys()[0] == "temperature"@);
    assert(anthropic_keys()[1] == "top_p"@);
    assert(anthropic_keys()[2] == "top_k"@);
    assert(anthropic_keys()[3] == "stream"@);
    assert(anthropic_keys()[4] == "stop_sequences"@);
    assert(anthropic_keys()[5] == "metadata"@);
    assert(anthropic_keys()[6] == "tools"@);
    assert(anthropic_keys()[7] == "tool_choice"@);
    assert(anthropic_keys()[8] == "thinking"@);
    assert(anthropic_keys()[9] == "reasoning_effort"@);
    lemma_anthropic_frame(model, body, "temperature"@);
    lemma_anthropic_frame(model, body, "top_p"@);
    lemma_anthropic_frame(model, body, "top_k"@);
    lemma_anthropic_frame(model, body, "stream"@);
    lemma_anthropic_frame(model, body, "stop_sequences"@);
    lemma_anthropic_frame(model, body, "metadata"@);
    lemma_anthropic_frame(model, body, "tools"@);
    lemma_anthropic_frame(model, body, "tool_choice"@);
    lemma_anthropic_frame(model, body, "thinking"@);
    lemma_anthropic_frame(model, body, "reasoning_effort"@);
    lemma_anthropic_frame(model, body, "model"@);
    lemma_anthropic_frame(model, body, "max_tokens"@);
    lemma_anthropic_frame(model, body, "system"@);
}

/// What the last system message of a chat holds becomes the system text of an
/// Anthropic request that has none at its top.
pub proof fn law_anthropic_system(model: Seq<char>, body: Jv, msgs: Seq<Jv>, i: int)
    requires
        body.member("messages"@) == Some(Jv::Arr(msgs)),
        body.member("system"@) is None,
        0 <= i < msgs.len(),
        is_system(msgs[i]),
        forall|k: int| i < k < msgs.len() ==> !is_system(#[trigger] msgs[k]),
    ensures
        msgs[i].at("content"@) !is Null ==> anthropic_body(model, body).member("system"@) == Some(
            msgs[i].at("content"@),
        ),
        msgs[i].at("content"@) is Null ==> anthropic_body(model, body).member("system"@) is None,
{
    reveal_strlit("max_tokens");
    reveal_strlit("messages");
    reveal_strlit("metadata");
    reveal_strlit("model");
    reveal_strlit("reasoning_effort");
    reveal_strlit("stop_sequences");
    reveal_strlit("stream");
    reveal_strlit("system");
    reveal_strlit("temperature");
    reveal_strlit("thinking");
    reveal_strlit("tool_choice");
    reveal_strlit("tools");
    reveal_strlit("top_k");
    reveal_strlit("top_p");
    assert("max_tokens"@.len() == 10);
    assert("messages"@.len() == 8);
    assert("metadata"@.len() == 8);
    assert("model"@.len() == 5);
    assert("reasoning_effort"@.len() == 16);
    assert("stop_sequences"@.len() == 14);
    assert("stream"@.len() == 6);
    assert("system"@.len() == 6);
    assert("temperature"@.len() == 11);
    assert("thinking"@.len() == 8);
    assert("tool_choice"@.len() == 11);
    assert("tools"@.len() == 5);
    assert("top_k"@.len() == 5);
    assert("top_p"@.len() == 5);
    assert("messages"@[2] == 's');
    assert("metadata"@[2] == 't');
    assert("messages"@[0] == 'm');
    assert("thinking"@[0] == 't');
    assert("metadata"@[0] == 'm');
    assert("model"@[0] == 'm');
    assert("tools"@[0] == 't');
    assert("top_k"@[0] == 't');
    assert("top_p"@[0] == 't');
    assert("stream"@[1] == 't');
    assert("system"@[1] == 'y');
    assert("temperature"@[1] == 'e');
    assert("tool_choice"@[1] == 'o');
    assert("tools"@[2] == 'o');
    assert("top_k"@[2] == 'p');
    assert("top_p"@[2] == 'p');
    assert("top_k"@[4] == 'k');
    assert("top_p"@[4] == 'p');
    lemma_anthropic_frame(model, body, "system"@);
    lemma_last_system(msgs, i);
}

proof fn lemma_last_system(msgs: Seq<Jv>, i: int)
    requires
        0 <= i < msgs.len(),
        is_system(msgs[i]),
        forall|k: int| i < k < msgs.len() ==> !is_system(#[trigger] msgs[k]),
    ensures
        system_content(msgs) == if msgs[i].at("content"@) is Null {
            None
        } else {
            Some(msgs[i].at("content"@))
        },
    decreases msgs.len(),
{
    reveal_strlit("system");
    reveal_strlit("user");
    assert("system"@.len() == 6);
    assert("user"@.len() == 4);
    if i < msgs.len() - 1 {
        let before = msgs.drop_last();
        assert(!is_system(msgs[msgs.len() - 1]));
        assert(before[i] == msgs[i]);
        assert forall|k: int| i < k < before.len() implies !is_system(#[trigger] before[k]) by {
            assert(before[k] == msgs[k]);
        }
        lemma_last_system(before, i);
    }
}

// ---------------------------------------------------------------- Gemini requests

/// The text of a message, where it is given as one.
pub open spec fn says(msg: Jv, text: Seq<char>) -> bool {
    msg.member("content"@) == Some(Jv::Str(text))
}

/// Whether all messages are texts of the user or the assistant.
pub open spec fn is_dialogue(msgs: Seq<Jv>) -> bool {
    forall|k: int|
        0 <= k < msgs.len() ==> !is_system(#[trigger] msgs[k]) && (msgs[k].member("content"@)
            matches Some(Jv::Str(_)))
}

/// A Gemini message: who speaks, and the text.
pub open spec fn gemini_says(msg: Jv, role: Seq<char>, text: Seq<char>) -> bool {
    &&& text_at(msg, "role"@) == Some(role)
    &&& msg.member("parts"@) matches Some(Jv::Arr(parts))
    &&& parts.len() == 1
    &&& text_at(parts[0], "text"@) == Some(text)
}

proof fn lemma_gemini_dialogue(msgs: Seq<Jv>)
    requires
        is_dialogue(msgs),
    ensures
        gemini_contents(msgs).len() == msgs.len(),
        forall|i: int|
            0 <= i < msgs.len() ==> gemini_says(
                #[trigger] gemini_contents(msgs)[i],
                if text_at(msgs[i], "role"@) == Some("assistant"@) {
                    "model"@
                } else {
                    "user"@
                },
                msgs[i].member("content"@)->Some_0->Str_0,
            ),
        gemini_system(msgs) is None,
    decreases msgs.len(),
{
    reveal_strlit("assistant");
    reveal_strlit("model");
    reveal_strlit("parts");
    reveal_strlit("role");
    reveal_strlit("system");
    reveal_strlit("text");
    reveal_strlit("user");
    assert("assistant"@.len() == 9);
    assert("model"@.len() == 5);
    assert("parts"@.len() == 5);
    assert("role"@.len() == 4);
    assert("system"@.len() == 6);
    assert("text"@.len() == 4);
    assert("user"@.len() == 4);
    assert("model"@[0] == 'm');
    assert("parts"@[0] == 'p');
    assert("role"@[0] == 'r');
    assert("text"@[0] == 't');
    assert("user"@[0] == 'u');
    if msgs.len() > 0 {
        let before = msgs.drop_last();
        assert forall|k: int| 0 <= k < before.len() implies !is_system(#[trigger] before[k]) && (
        before[k].member("content"@) matches Some(Jv::Str(_))) by {
            assert(!is_system(msgs[k]));
        }
        lemma_gemini_dialogue(before);
        assert(!is_system(msgs[msgs.len() - 1]));
        assert forall|i: int| 0 <= i < msgs.len() implies gemini_says(
            #[trigger] gemini_contents(msgs)[i],
            if text_at(msgs[i], "role"@) == Some("assistant"@) {
                "model"@
            } else {
                "user"@
            },
            msgs[i].member("content"@)->Some_0->Str_0,
        ) by {
            if i < before.len() {
                assert(gemini_contents(msgs)[i] == gemini_contents(before)[i]);
                assert(before[i] == msgs[i]);
            }
        }
    }
}

proof fn lemma_gemini_frame(body: Jv)
    ensures
        ({
            let r = gemini_chat_body(body);
            let msgs = items_in(body.member("messages"@));
            &&& r.member("contents"@) == Some(Jv::Arr(gemini_contents(msgs)))
            &&& gemini_system(msgs) is None ==> r.member("systemInstruction"@) is None
            &&& gemini_system(msgs) matches Some(t) ==> r.member("systemInstruction"@) == Some(
                single("parts"@, Jv::Arr(seq![single("text"@, Jv::Str(t))])),
            )
            &&& r.member("stream_options"@) == body.member("stream_options"@)
            &&& body.member("generationConfig"@) is Some ==> r.member("generationConfig"@)
                == body.member("generationConfig"@)
            &&& body.member("generationConfig"@) is None ==> r.member("generationConfig"@)
                == if crate::request::gemini_chat_config(body) == no_members() {
                None
            } else {
                Some(crate::request::gemini_chat_config(body))
            }
        }),
{
    reveal_strlit("contents");
    reveal_strlit("generationConfig");
    reveal_strlit("stream_options");
    reveal_strlit("systemInstruction");
    assert("contents"@.len() == 8);
    assert("generationConfig"@.len() == 16);
    assert("stream_options"@.len() == 14);
    assert("systemInstruction"@.len() == 17);
}

/// A dialogue goes to Gemini message by message: the assistant is the model
/// there and anyone else the user, and what is said stays.
pub proof fn law_gemini_turns(body: Jv, msgs: Seq<Jv>, i: int)
    requires
        body.member("messages"@) == Some(Jv::Arr(msgs)),
        is_dialogue(msgs),
        0 <= i < msgs.len(),
    ensures
        ({
            let r = gemini_chat_body(body);
            &&& r.member("contents"@) matches Some(Jv::Arr(sent))
            &&& sent.len() == msgs.len()
            &&& gemini_says(
                sent[i],
                if text_at(msgs[i], "role"@) == Some("assistant"@) {
                    "model"@
                } else {
                    "user"@
                },
                msgs[i].member("content"@)->Some_0->Str_0,
            )
            &&& r.member("systemInstruction"@) is None
        }),
{
    lemma_gemini_dialogue(msgs);
    lemma_gemini_frame(body);
}

/// A system text goes to Gemini as an instruction beside the dialogue, and
/// does not stand among its messages.
pub proof fn law_gemini_system(body: Jv, system: Jv, rest: Seq<Jv>, text: Seq<char>)
    requires
        body.member("messages"@) == Some(Jv::Arr(seq![system] + rest)),
        is_system(system),
        says(system, text),
        is_dialogue(rest),
    ensures
        ({
            let r = gemini_chat_body(body);
            &&& r.member("contents"@) == Some(Jv::Arr(gemini_contents(rest)))
            &&& gemini_contents(rest).len() == rest.len()
            &&& r.member("systemInstruction"@) matches Some(sys)
            &&& sys.member("parts"@) matches Some(Jv::Arr(parts))
            &&& parts.len() == 1
            &&& text_at(parts[0], "text"@) == Some(text)
        }),
{
    lemma_gemini_dialogue(rest);
    lemma_gemini_frame(body);
    lemma_gemini_behind(system, rest, text);
}

proof fn lemma_gemini_behind(system: Jv, rest: Seq<Jv>, text: Seq<char>)
    requires
        is_system(system),
        says(system, text),
        is_dialogue(rest),
    ensures
        gemini_contents(seq![system] + rest) == gemini_contents(rest),
        gemini_system(seq![system] + rest) == Some(text),
    decreases rest.len(),
{
    reveal_strlit("assistant");
    reveal_strlit("system");
    reveal_strlit("user");
    assert("assistant"@.len() == 9);
    assert("system"@.len() == 6);
    assert("user"@.len() == 4);
    let all = seq![system] + rest;
    if rest.len() == 0 {
        assert(all =~= seq![system]);
        assert(all.drop_last() =~= Seq::<Jv>::empty());
        assert(rest =~= Seq::<Jv>::empty());
        assert(all.last() == system);
    } else {
        let before = rest.drop_last();
        assert forall|k: int| 0 <= k < before.len() implies !is_system(#[trigger] before[k]) && (
        before[k].member("content"@) matches Some(Jv::Str(_))) by {
            assert(!is_system(rest[k]));
        }
        lemma_gemini_behind(system, before, text);
        assert(all.drop_last() =~= seq![system] + before);
        assert(all.last() == rest.last());
        assert(!is_system(rest[rest.len() - 1]));
    }
}

/// The settings of a chat go to Gemini under Gemini's names, unless the
/// request has the settings in Gemini's form already.
pub proof fn law_gemini_settings(body: Jv, r: Jv)
    requires
        r == gemini_chat_body(body),
    ensures
        r.member("stream_options"@) == body.member("stream_options"@),
        body.member("generationConfig"@) is Some ==> r.member("generationConfig"@) == body.member(
            "generationConfig"@,
        ),
        body.member("generationConfig"@) is None ==> ({
            let config = r.at("generationConfig"@);
            &&& config.member("temperature"@) == body.member("temperature"@)
            &&& config.member("topP"@) == body.member("top_p"@)
            &&& config.member("maxOutputTokens"@) == body.member("max_tokens"@)
        }),
{
    lemma_gemini_frame(body);
    reveal_strlit("maxOutputTokens");
    reveal_strlit("max_tokens");
    reveal_strlit("temperature");
    reveal_strlit("topP");
    reveal_strlit("top_p");
    assert("maxOutputTokens"@.len() == 15);
    assert("max_tokens"@.len() == 10);
    assert("temperature"@.len() == 11);
    assert("topP"@.len() == 4);
    assert("top_p"@.len() == 5);
    let c = crate::request::gemini_chat_config(body);
    assert(c.member("temperature"@) == body.member("temperature"@));
    assert(c.member("topP"@) == body.member("top_p"@));
    assert(c.member("maxOutputTokens"@) == body.member("max_tokens"@));
    assert(no_members().member("temperature"@) is None);
    assert(no_members().member("topP"@) is None);
    assert(no_members().member("maxOutputTokens"@) is None);
}

// ---------------------------------------------------------------- answers

/// The first choice of a chat answer.
pub open spec fn first_choice(answer: Jv) -> Jv {
    answer.at("choices"@)->Arr_0[0]
}

/// Whether an answer in the OpenAI form says a text, as the assistant, and
/// says no more.
pub open spec fn answers(answer: Jv, text: Seq<char>, model: Seq<char>) -> bool {
    &&& text_at(answer, "object"@) == Some("chat.completion"@)
    &&& text_at(answer, "model"@) == Some(model)
    &&& answer.member("choices"@) matches Some(Jv::Arr(choices))
    &&& choices.len() == 1
    &&& choices[0].member("index"@) == Some(Jv::Int(0))
    &&& choices[0].member("message"@) matches Some(message)
    &&& text_at(message, "role"@) == Some("assistant"@)
    &&& text_at(message, "content"@) == Some(text)
}

/// Whether the usage of an answer names these counts.
pub open spec fn counts(answer: Jv, u: UsageTokens) -> bool {
    &&& answer.member("usage"@) matches Some(usage)
    &&& usage.member("prompt_tokens"@) == Some(Jv::Int(u.prompt as int))
    &&& usage.member("completion_tokens"@) == Some(Jv::Int(u.completion as int))
    &&& usage.member("total_tokens"@) == Some(Jv::Int(u.total as int))
}

proof fn lemma_first_block(items: Seq<Jv>, i: int, text: Seq<char>)
    requires
        0 <= i < items.len(),
        text_at(items[i], "type"@) == Some("text"@),
        text_at(items[i], "text"@) == Some(text),
        forall|k: int| 0 <= k < i ==> text_at(#[trigger] items[k], "type"@) != Some("text"@),
    ensures
        first_text_block(items) == text,
    decreases items.len(),
{
    if i > 0 {
        let rest = items.drop_first();
        assert(text_at(items[0], "type"@) != Some("text"@));
        assert(rest[i - 1] == items[i]);
        assert forall|k: int| 0 <= k < i - 1 implies text_at(#[trigger] rest[k], "type"@) != Some(
            "text"@,
        ) by {
            assert(rest[k] == items[k + 1]);
        }
        lemma_first_block(rest, i - 1, text);
    }
}

proof fn lemma_completion(
    id: Seq<char>,
    created: int,
    model: Seq<char>,
    content: Seq<char>,
    finish: Seq<char>,
    usage: Jv,
    r: Jv,
)
    requires
        r == crate::chat::completion(id, created, model, content, finish, usage),
    ensures
        answers(r, content, model),
        text_at(first_choice(r), "finish_reason"@) == Some(finish),
        text_at(r, "id"@) == Some(id),
        r.member("created"@) == Some(Jv::Int(created)),
        r.member("usage"@) == Some(usage),
{
    reveal_strlit("choices");
    reveal_strlit("content");
    reveal_strlit("created");
    reveal_strlit("finish_reason");
    reveal_strlit("id");
    reveal_strlit("index");
    reveal_strlit("message");
    reveal_strlit("model");
    reveal_strlit("object");
    reveal_strlit("role");
    reveal_strlit("usage");
    assert("choices"@.len() == 7);
    assert("content"@.len() == 7);
    assert("created"@.len() == 7);
    assert("finish_reason"@.len() == 13);
    assert("id"@.len() == 2);
    assert("index"@.len() == 5);
    assert("message"@.len() == 7);
    assert("model"@.len() == 5);
    assert("object"@.len() == 6);
    assert("role"@.len() == 4);
    assert("usage"@.len() == 5);
    assert("choices"@[1] == 'h');
    assert("content"@[1] == 'o');
    assert("created"@[1] == 'r');
    assert("choices"@[0] == 'c');
    assert("message"@[0] == 'm');
    assert("content"@[0] == 'c');
    assert("created"@[0] == 'c');
    assert("index"@[0] == 'i');
    assert("model"@[0] == 'm');
    assert("usage"@[0] == 'u');
}

/// An Anthropic answer says in the OpenAI form what its first text block says,
/// with its id and the counts of its usage.
pub proof fn law_anthropic_answer(
    v: Jv,
    model: Seq<char>,
    u: UsageTokens,
    created: int,
    blocks: Seq<Jv>,
    i: int,
    text: Seq<char>,
)
    requires
        v.member("content"@) == Some(Jv::Arr(blocks)),
        0 <= i < blocks.len(),
        text_at(blocks[i], "type"@) == Some("text"@),
        text_at(blocks[i], "text"@) == Some(text),
        forall|k: int| 0 <= k < i ==> text_at(#[trigger] blocks[k], "type"@) != Some("text"@),
    ensures
        ({
            let r = anthropic_completion(v, model, u, created);
            &&& answers(r, text, model)
            &&& counts(r, u)
            &&& text_at(first_choice(r), "finish_reason"@) == Some("stop"@)
            &&& text_at(v, "id"@) matches Some(id) ==> text_at(r, "id"@) == Some(id)
            &&& r.member("created"@) == Some(Jv::Int(created))
            &&& u.cached > 0 ==> r.at("usage"@).at("prompt_tokens_details"@).member(
                "cached_tokens"@,
            ) == Some(Jv::Int(u.cached as int))
            &&& u.cache_creation > 0 ==> r.at("usage"@).at("prompt_tokens_details"@).member(
                "cache_creation_tokens"@,
            ) == Some(Jv::Int(u.cache_creation as int))
            &&& r.at("usage"@).at("cache_creation"@) == v.at("usage"@).at("cache_creation"@)
        }),
{
    lemma_first_block(blocks, i, text);
    let usage = crate::chat::anthropic_usage(v, u);
    lemma_completion(
        crate::json::text_or(v, "id"@, ""@),
        created,
        model,
        text,
        "stop"@,
        usage,
        anthropic_completion(v, model, u, created),
    );
    reveal_strlit("cache_creation");
    reveal_strlit("cache_creation_tokens");
    reveal_strlit("cached_tokens");
    reveal_strlit("completion_tokens");
    reveal_strlit("prompt_tokens");
    reveal_strlit("prompt_tokens_details");
    reveal_strlit("total_tokens");
    assert("cache_creation"@.len() == 14);
    assert("cache_creation_tokens"@.len() == 21);
    assert("cached_tokens"@.len() == 13);
    assert("completion_tokens"@.len() == 17);
    assert("prompt_tokens"@.len() == 13);
    assert("prompt_tokens_details"@.len() == 21);
    assert("total_tokens"@.len() == 12);
    assert("cache_creation_tokens"@[0] == 'c');
    assert("prompt_tokens_details"@[0] == 'p');
    assert("cached_tokens"@[0] == 'c');
    assert("prompt_tokens"@[0] == 'p');
}

/// A Gemini answer says in the OpenAI form what the first part of its first
/// candidate says, with the counts of its usage.
pub proof fn law_gemini_answer(
    v: Jv,
    model: Seq<char>,
    u: UsageTokens,
    id: Seq<char>,
    created: int,
    candidates: Seq<Jv>,
    parts: Seq<Jv>,
    text: Seq<char>,
)
    requires
        v.member("candidates"@) == Some(Jv::Arr(candidates)),
        candidates.len() > 0,
        candidates[0].at("content"@).member("parts"@) == Some(Jv::Arr(parts)),
        parts.len() > 0,
        text_at(parts[0], "text"@) == Some(text),
    ensures
        ({
            let r = gemini_completion(v, model, u, id, created);
            &&& answers(r, text, model)
            &&& counts(r, u)
            &&& text_at(r, "id"@) == Some(id)
            &&& r.member("created"@) == Some(Jv::Int(created))
            &&& text_at(first_choice(r), "finish_reason"@) == Some(
                match text_at(candidates[0], "finishReason"@) {
                    Some(reason) => reason,
                    None => "stop"@,
                },
            )
            &&& u.cached > 0 ==> r.at("usage"@).at("prompt_tokens_details"@).member(
                "cached_tokens"@,
            ) == Some(Jv::Int(u.cached as int))
        }),
{
    let finish = match text_at(candidates[0], "finishReason"@) {
        Some(reason) => reason,
        None => "stop"@,
    };
    assert(candidates[0].member("content"@) is Some);
    lemma_completion(
        id,
        created,
        model,
        text,
        finish,
        crate::chat::gemini_response_usage(u),
        gemini_completion(v, model, u, id, created),
    );
    reveal_strlit("completion_tokens");
    reveal_strlit("prompt_tokens");
    reveal_strlit("prompt_tokens_details");
    reveal_strlit("total_tokens");
    assert("completion_tokens"@.len() == 17);
    assert("prompt_tokens"@.len() == 13);
    assert("prompt_tokens_details"@.len() == 21);
    assert("total_tokens"@.len() == 12);
}

/// Which answers are put into the OpenAI form, and which pass as they are.
pub proof fn law_answer_forms(
    response: Seq<char>,
    v: Jv,
    target: Seq<char>,
    model: Seq<char>,
    u: UsageTokens,
    id: Seq<char>,
    created: int,
)
    ensures
        target == "anthropic"@ ==> openai_response(
            response,
            Some(v),
            target,
            model,
            u,
            id,
            created,
        ) == json_text(anthropic_completion(v, model, u, created)),
        target == "gemini"@ || target == "gemini_image"@ ==> openai_response(
            response,
            Some(v),
            target,
            model,
            u,
            id,
            created,
        ) == json_text(gemini_completion(v, model, u, id, created)),
        target != "anthropic"@ && target != "gemini"@ && target != "gemini_image"@ && text_at(
            v,
            "type"@,
        ) == Some("message"@) ==> openai_response(
            response,
            Some(v),
            target,
            model,
            u,
            id,
            created,
        ) == json_text(anthropic_completion(v, model, u, created)),
        target != "anthropic"@ && target != "gemini"@ && target != "gemini_image"@ && text_at(
            v,
            "type"@,
        ) != Some("message"@) ==> openai_response(
            response,
            Some(v),
            target,
            model,
            u,
            id,
            created,
        ) == response,
        openai_response(response, None, target, model, u, id, created) == response,
{
    reveal_strlit("anthropic");
    reveal_strlit("gemini");
    reveal_strlit("gemini_image");
    assert("anthropic"@.len() == 9);
    assert("gemini"@.len() == 6);
    assert("gemini_image"@.len() == 12);
}

// ---------------------------------------------------------------- streams

/// Whether a chunk in the OpenAI form adds a text.
pub open spec fn adds(chunk: Jv, text: Seq<char>, model: Seq<char>, id: Seq<char>) -> bool {
    &&& text_at(chunk, "object"@) == Some("chat.completion.chunk"@)
    &&& text_at(chunk, "model"@) == Some(model)
    &&& text_at(chunk, "id"@) == Some(id)
    &&& chunk.member("choices"@) matches Some(Jv::Arr(choices))
    &&& choices.len() == 1
    &&& choices[0].member("index"@) == Some(Jv::Int(0))
    &&& choices[0].member("finish_reason"@) == Some(Jv::Null)
    &&& choices[0].member("delta"@) matches Some(delta)
    &&& text_at(delta, "role"@) == Some("assistant"@)
    &&& text_at(delta, "content"@) == Some(text)
}

proof fn lemma_text_chunk(text: Seq<char>, model: Seq<char>, id: Seq<char>, created: int)
    ensures
        adds(crate::chat::text_chunk(text, model, id, created), text, model, id),
        crate::chat::text_chunk(text, model, id, created).member("created"@) == Some(
            Jv::Int(created),
        ),
{
    reveal_strlit("choices");
    reveal_strlit("content");
    reveal_strlit("created");
    reveal_strlit("delta");
    reveal_strlit("finish_reason");
    reveal_strlit("id");
    reveal_strlit("index");
    reveal_strlit("model");
    reveal_strlit("object");
    reveal_strlit("role");
    assert("choices"@.len() == 7);
    assert("content"@.len() == 7);
    assert("created"@.len() == 7);
    assert("delta"@.len() == 5);
    assert("finish_reason"@.len() == 13);
    assert("id"@.len() == 2);
    assert("index"@.len() == 5);
    assert("model"@.len() == 5);
    assert("object"@.len() == 6);
    assert("role"@.len() == 4);
    assert("choices"@[1] == 'h');
    assert("content"@[1] == 'o');
    assert("created"@[1] == 'r');
    assert("delta"@[0] == 'd');
    assert("index"@[0] == 'i');
    assert("model"@[0] == 'm');
}

/// The text that an Anthropic event adds is what the chunk adds; any other
/// event gives no chunk.
pub proof fn law_anthropic_stream(
    event: Jv,
    model: Seq<char>,
    id: Seq<char>,
    created: int,
    text: Seq<char>,
)
    ensures
        text_at(event, "type"@) == Some("content_block_delta"@) && text_at(
            event.at("delta"@),
            "text"@,
        ) == Some(text) ==> exists|chunk: Jv|
            adds(chunk, text, model, id) && anthropic_chunk(Some(event), model, id, created)
                == Some(json_text(chunk)),
        text_at(event, "type"@) != Some("content_block_delta"@) ==> anthropic_chunk(
            Some(event),
            model,
            id,
            created,
        ) is None,
        text_at(event.at("delta"@), "text"@) is None ==> anthropic_chunk(
            Some(event),
            model,
            id,
            created,
        ) is None,
        anthropic_chunk(None, model, id, created) is None,
{
    lemma_text_chunk(text, model, id, created);
    let chunk = crate::chat::text_chunk(text, model, id, created);
    assert(adds(chunk, text, model, id));
}

/// The usage that a Gemini event names, in the OpenAI form: output is what the
/// total has beyond the input.
pub proof fn law_gemini_usage(meta: Jv, prompt: int, total: int, r: Jv)
    requires
        r == gemini_usage(meta),
        int_at(meta, "promptTokenCount"@) == Some(prompt),
        int_at(meta, "totalTokenCount"@) == Some(total),
    ensures
        r.member("prompt_tokens"@) == Some(Jv::Int(prompt)),
        r.member("total_tokens"@) == Some(Jv::Int(total)),
        total >= prompt ==> r.member("completion_tokens"@) == Some(Jv::Int(total - prompt)),
        total < prompt ==> r.member("completion_tokens"@) == Some(Jv::Int(0)),
        int_at(meta, "cachedContentTokenCount"@) matches Some(n) ==> (n > 0 ==> r.at(
            "prompt_tokens_details"@,
        ).member("cached_tokens"@) == Some(Jv::Int(n))),
{
    reveal_strlit("completion_tokens");
    reveal_strlit("prompt_tokens");
    reveal_strlit("prompt_tokens_details");
    reveal_strlit("total_tokens");
    assert("completion_tokens"@.len() == 17);
    assert("prompt_tokens"@.len() == 13);
    assert("prompt_tokens_details"@.len() == 21);
    assert("total_tokens"@.len() == 12);
}

/// A Gemini event gives a chunk with its text and one with its usage, as far
/// as it has them, the text first.
pub proof fn law_gemini_stream(
    event: Jv,
    model: Seq<char>,
    id1: Seq<char>,
    created1: int,
    id2: Seq<char>,
    created2: int,
    candidates: Seq<Jv>,
    parts: Seq<Jv>,
    text: Seq<char>,
)
    requires
        event.member("candidates"@) == Some(Jv::Arr(candidates)),
        candidates.len() > 0,
        candidates[0].at("content"@).member("parts"@) == Some(Jv::Arr(parts)),
        parts.len() > 0,
        text_at(parts[0], "text"@) == Some(text),
    ensures
        event.member("usageMetadata"@) is None ==> exists|chunk: Jv|
            adds(chunk, text, model, id1) && gemini_chunks(
                Some(event),
                model,
                id1,
                created1,
                id2,
                created2,
            ) == Some(json_text(chunk)),
        event.member("usageMetadata"@) is Some ==> exists|chunk: Jv, last: Jv|
            #![trigger json_text(chunk), json_text(last)]
            adds(chunk, text, model, id1) && last.member("usage"@) == Some(
                gemini_usage(event.member("usageMetadata"@)->Some_0),
            ) && last.member("choices"@) == Some(Jv::Arr(Seq::empty())) && text_at(last, "id"@)
                == Some(id2) && gemini_chunks(Some(event), model, id1, created1, id2, created2)
                == Some(json_text(chunk) + "\n\ndata: "@ + json_text(last)),
{
    lemma_text_chunk(text, model, id1, created1);
    let chunk = crate::chat::text_chunk(text, model, id1, created1);
    assert(candidates[0].member("content"@) is Some);
    assert(adds(chunk, text, model, id1));
    match event.member("usageMetadata"@) {
        Some(meta) => {
            let last = crate::chat::usage_chunk(gemini_usage(meta), model, id2, created2);
            reveal_strlit("choices");
            reveal_strlit("created");
            reveal_strlit("id");
            reveal_strlit("model");
            reveal_strlit("object");
            reveal_strlit("usage");
            assert("choices"@.len() == 7);
            assert("created"@.len() == 7);
            assert("id"@.len() == 2);
            assert("model"@.len() == 5);
            assert("object"@.len() == 6);
            assert("usage"@.len() == 5);
            assert("choices"@[1] == 'h');
            assert("created"@[1] == 'r');
            assert("model"@[0] == 'm');
            assert("usage"@[0] == 'u');
            assert(last.member("usage"@) == Some(gemini_usage(meta)));
            assert(last.member("choices"@) == Some(Jv::Arr(Seq::empty())));
            assert(text_at(last, "id"@) == Some(id2));
            assert(gemini_chunks(Some(event), model, id1, created1, id2, created2) == Some(
                json_text(chunk) + "\n\ndata: "@ + json_text(last),
            ));
        },
        None => {},
    }
}

/// Only lines with data give anything; the end mark gives nothing, and the
/// data of other vendors pass as they are.
pub proof fn law_stream_lines(
    target: Seq<char>,
    data: Seq<char>,
    model: Seq<char>,
    id1: Seq<char>,
    created1: int,
    id2: Seq<char>,
    created2: int,
    r: Option<Seq<char>>,
)
    requires
        r == openai_line(target, "data: "@ + data, model, id1, created1, id2, created2),
    ensures
        data == "[DONE]"@ ==> r is None,
        data != "[DONE]"@ && target == "anthropic"@ ==> r == anthropic_chunk(
            parsed_json(data),
            model,
            id1,
            created1,
        ),
        data != "[DONE]"@ && target == "gemini"@ ==> r == gemini_chunks(
            parsed_json(data),
            model,
            id1,
            created1,
            id2,
            created2,
        ),
        data != "[DONE]"@ && target != "anthropic"@ && target != "gemini"@ ==> r == Some(data),
{
    reveal_strlit("anthropic");
    reveal_strlit("data: ");
    reveal_strlit("gemini");
    assert("anthropic"@.len() == 9);
    assert("data: "@.len() == 6);
    assert("gemini"@.len() == 6);
    assert("data: "@[0] == 'd');
    assert("gemini"@[0] == 'g');
    let line = "data: "@ + data;
    assert(line.skip(6) =~= data);
    assert("data: "@.is_prefix_of(line)) by {
        assert(line.subrange(0, 6) =~= "data: "@);
    }
}

/// A line without data gives nothing.
pub proof fn law_other_lines(
    target: Seq<char>,
    line: Seq<char>,
    model: Seq<char>,
    id1: Seq<char>,
    created1: int,
    id2: Seq<char>,
    created2: int,
)
    requires
        !"data: "@.is_prefix_of(line),
    ensures
        openai_line(target, line, model, id1, created1, id2, created2) is None,
{
}

} // verus!
