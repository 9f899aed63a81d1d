//! What holds of resolutions, sizes and the factors and servers that a rule
//! names.
use vstd::prelude::*;
use vstd::string::*;
use crate::bill_requests::counted_sides;
use crate::double::{double_of, Double, ONE};
use crate::forward::{
    factor_for, factors_upto, first_only, is_positive_number, positive_ids, resolution_factors,
    resolution_key, resolution_words, rule_ids, server_ids, with_comfyui, with_enhance_path,
    words_upto, ForwardModel, Plugins,
};
use crate::json::{int_at, items_in, key_list, lists_keys, text_at, Jv};
use crate::price_table::{billing_word, free_images, key_in_words, pixel_size, size_parts};
use crate::ratio::{ratio_of, StandardRatio};
use crate::text::{
    ascii_small, front_trimmed, holds, is_space, joined, law_decimal_round_trip, replaced, shown,
    small_letters, trimmed,
};
use crate::text_laws::{
    law_not_parted, law_parted, law_pieces, law_replaced, law_shown_plain, law_shown_trimmed,
    law_trimmed, law_trimmed_already,
};

verus! {

/// Different words for one resolution have one name; any other word is its own.
pub proof fn law_resolution_key(s: Seq<char>)
    ensures
        s == "480"@ || s == "480p"@ ==> resolution_key(s) == "480p"@,
        s == "720"@ || s == "720p"@ ==> resolution_key(s) == "720p"@,
        s == "1080"@ || s == "1080p"@ ==> resolution_key(s) == "1080p"@,
        s == "2k"@ || s == "2kp"@ ==> resolution_key(s) == "2k"@,
        s == "4k"@ || s == "4kp"@ ==> resolution_key(s) == "4k"@,
        resolution_key(resolution_key(s)) == resolution_key(s),
        s != "480"@ && s != "720"@ && s != "1080"@ && s != "2kp"@ && s != "4kp"@ ==> resolution_key(
            s,
        ) == s,
{
    reveal_strlit("1080");
    reveal_strlit("1080p");
    reveal_strlit("2k");
    reveal_strlit("2kp");
    reveal_strlit("480");
    reveal_strlit("480p");
    reveal_strlit("4k");
    reveal_strlit("4kp");
    reveal_strlit("720");
    reveal_strlit("720p");
    assert("1080"@.len() == 4);
    assert("1080p"@.len() == 5);
    assert("2k"@.len() == 2);
    assert("2kp"@.len() == 3);
    assert("480"@.len() == 3);
    assert("480p"@.len() == 4);
    assert("4k"@.len() == 2);
    assert("4kp"@.len() == 3);
    assert("720"@.len() == 3);
    assert("720p"@.len() == 4);
    assert("1080"@[0] == '1');
    assert("480p"@[0] == '4');
    assert("720p"@[0] == '7');
    assert("2k"@[0] == '2');
    assert("4k"@[0] == '4');
    assert("2kp"@[0] == '2');
    assert("480"@[0] == '4');
    assert("4kp"@[0] == '4');
    assert("720"@[0] == '7');
    assert("480"@[1] == '8');
    assert("4kp"@[1] == 'k');
}

/// The name that a key of a group goes by.
pub open spec fn group_key(k: Seq<char>) -> Seq<char> {
    resolution_key(small_letters(trimmed(k)))
}

proof fn lemma_factors(m: Map<Seq<char>, Jv>, keys: Seq<Seq<char>>, n: int, key: Seq<char>)
    requires
        0 <= n <= keys.len(),
    ensures
        factors_upto(m, keys, n).dom().contains(key) <==> exists|i: int|
            0 <= i < n && is_positive_number(m[#[trigger] keys[i]]) && group_key(keys[i]) == key,
        factors_upto(m, keys, n).dom().contains(key) ==> exists|i: int|
            0 <= i < n && is_positive_number(m[#[trigger] keys[i]]) && group_key(keys[i]) == key
                && factors_upto(m, keys, n)[key] == m[keys[i]],
    decreases n,
{
    if n > 0 {
        lemma_factors(m, keys, n - 1, key);
        let done = factors_upto(m, keys, n - 1);
        let k = keys[n - 1];
        if is_positive_number(m[k]) && group_key(k) == key {
            assert(factors_upto(m, keys, n)[key] == m[keys[n - 1]]);
        } else if done.dom().contains(key) {
            let i = choose|i: int|
                0 <= i < n - 1 && is_positive_number(m[#[trigger] keys[i]]) && group_key(keys[i])
                    == key && done[key] == m[keys[i]];
            assert(factors_upto(m, keys, n)[key] == m[keys[i]]);
        }
    }
}

/// The factors of a rule are the positive numbers that it names, each under
/// the name of its resolution.
pub proof fn law_resolution_factors(config: Jv, m: Map<Seq<char>, Jv>, key: Seq<char>)
    requires
        config.member("res_mul"@) == Some(Jv::Obj(m)),
        lists_keys(key_list(m), m),
    ensures
        resolution_factors(config).dom().contains(key) <==> exists|k: Seq<char>| #[trigger]
            m.dom().contains(k) && is_positive_number(m[k]) && group_key(k) == key,
        resolution_factors(config).dom().contains(key) ==> exists|k: Seq<char>| #[trigger]
            m.dom().contains(k) && is_positive_number(m[k]) && group_key(k) == key
                && resolution_factors(config)[key] == m[k],
{
    let keys = key_list(m);
    lemma_factors(m, keys, keys.len() as int, key);
    if resolution_factors(config).dom().contains(key) {
        let i = choose|i: int|
            0 <= i < keys.len() && is_positive_number(m[#[trigger] keys[i]]) && group_key(keys[i])
                == key && resolution_factors(config)[key] == m[keys[i]];
        assert(keys.contains(keys[i]));
        assert(m.dom().contains(keys[i]));
    }
    if exists|k: Seq<char>| #[trigger]
        m.dom().contains(k) && is_positive_number(m[k]) && group_key(k) == key {
        let k = choose|k: Seq<char>| #[trigger]
            m.dom().contains(k) && is_positive_number(m[k]) && group_key(k) == key;
        assert(keys.contains(k));
        let i = choose|i: int| 0 <= i < keys.len() && keys[i] == k;
        assert(is_positive_number(m[keys[i]]));
    }
}

/// A whole number is a factor where it is positive; a text is none.
pub proof fn law_positive_number(n: int, t: Seq<char>)
    ensures
        is_positive_number(Jv::Int(n)) <==> n > 0,
        !is_positive_number(Jv::Str(t)),
        !is_positive_number(Jv::Null),
{
}

/// A rule without factors has none.
pub proof fn law_no_factors(config: Jv, resolution: Seq<char>)
    requires
        config.member("res_mul"@) is None,
        key_list(Map::<Seq<char>, Jv>::empty()).len() == 0,
    ensures
        resolution_factors(config) == Map::<Seq<char>, Jv>::empty(),
        factor_for(resolution_factors(config), resolution) == (Double { bits: ONE }),
{
}

/// The factor of a resolution is what stands under its name, where that is
/// positive; otherwise it is one.
pub proof fn law_factor_for(map: Map<Seq<char>, Jv>, resolution: Seq<char>, x: Double)
    ensures
        map.dom().contains(group_key(resolution)) && double_of(map[group_key(resolution)]) == Some(
            x,
        ) && x.is_positive() ==> factor_for(map, resolution) == x,
        map.dom().contains(group_key(resolution)) && double_of(map[group_key(resolution)]) == Some(
            x,
        ) && !x.is_positive() ==> factor_for(map, resolution) == (Double { bits: ONE }),
        !map.dom().contains(group_key(resolution)) ==> factor_for(map, resolution) == (Double {
            bits: ONE,
        }),
{
}

/// Whether a value is a word: a text with more than white space.
pub open spec fn is_word(v: Jv) -> bool {
    v is Str && trimmed(v->Str_0).len() > 0
}

proof fn lemma_words(m: Map<Seq<char>, Jv>, keys: Seq<Seq<char>>, n: int, key: Seq<char>)
    requires
        0 <= n <= keys.len(),
    ensures
        words_upto(m, keys, n).dom().contains(key) <==> exists|i: int|
            0 <= i < n && is_word(m[#[trigger] keys[i]]) && group_key(keys[i]) == key,
        words_upto(m, keys, n).dom().contains(key) ==> exists|i: int|
            0 <= i < n && is_word(m[#[trigger] keys[i]]) && group_key(keys[i]) == key
                && words_upto(m, keys, n)[key] == Jv::Str(
                ascii_small(trimmed(m[keys[i]]->Str_0)),
            ),
    decreases n,
{
    if n > 0 {
        lemma_words(m, keys, n - 1, key);
        let done = words_upto(m, keys, n - 1);
        let k = keys[n - 1];
        if is_word(m[k]) && group_key(k) == key {
            assert(words_upto(m, keys, n)[key] == Jv::Str(
                ascii_small(trimmed(m[keys[n - 1]]->Str_0)),
            ));
        } else if done.dom().contains(key) {
            let i = choose|i: int|
                0 <= i < n - 1 && is_word(m[#[trigger] keys[i]]) && group_key(keys[i]) == key
                    && done[key] == Jv::Str(ascii_small(trimmed(m[keys[i]]->Str_0)));
            assert(words_upto(m, keys, n)[key] == Jv::Str(
                ascii_small(trimmed(m[keys[i]]->Str_0)),
            ));
        }
    }
}

/// The words of a group are the texts that it names, without white space
/// around them and in small letters, each under the name of its resolution.
pub proof fn law_resolution_words(
    config: Jv,
    field: Seq<char>,
    m: Map<Seq<char>, Jv>,
    key: Seq<char>,
)
    requires
        config.member(field) == Some(Jv::Obj(m)),
        lists_keys(key_list(m), m),
    ensures
        resolution_words(config, field).dom().contains(key) <==> exists|k: Seq<char>| #[trigger]
            m.dom().contains(k) && is_word(m[k]) && group_key(k) == key,
        resolution_words(config, field).dom().contains(key) ==> exists|k: Seq<char>| #[trigger]
            m.dom().contains(k) && is_word(m[k]) && group_key(k) == key && resolution_words(
                config,
                field,
            )[key] == Jv::Str(ascii_small(trimmed(m[k]->Str_0))),
{
    let keys = key_list(m);
    lemma_words(m, keys, keys.len() as int, key);
    if resolution_words(config, field).dom().contains(key) {
        let i = choose|i: int|
            0 <= i < keys.len() && is_word(m[#[trigger] keys[i]]) && group_key(keys[i]) == key
                && resolution_words(config, field)[key] == Jv::Str(
                ascii_small(trimmed(m[keys[i]]->Str_0)),
            );
        assert(keys.contains(keys[i]));
        assert(m.dom().contains(keys[i]));
    }
    if exists|k: Seq<char>| #[trigger]
        m.dom().contains(k) && is_word(m[k]) && group_key(k) == key {
        let k = choose|k: Seq<char>| #[trigger]
            m.dom().contains(k) && is_word(m[k]) && group_key(k) == key;
        assert(keys.contains(k));
        let i = choose|i: int| 0 <= i < keys.len() && keys[i] == k;
        assert(is_word(m[keys[i]]));
    }
}

// ---------------------------------------------------------------- servers

proof fn lemma_positive_ids(items: Seq<Jv>, id: int)
    ensures
        positive_ids(items).contains(id) <==> id > 0 && exists|i: int|
            0 <= i < items.len() && (#[trigger] items[i]).int64() == Some(id),
    decreases items.len(),
{
    if items.len() > 0 {
        let t = items.drop_last();
        lemma_positive_ids(t, id);
        let done = positive_ids(t);
        let all = positive_ids(items);
        if all != done {
            assert(all[all.len() - 1] == items.last().int64()->Some_0);
            if done.contains(id) {
                let j = choose|j: int| 0 <= j < done.len() && done[j] == id;
                assert(all[j] == id);
            }
            if all.contains(id) && !done.contains(id) {
                let j = choose|j: int| 0 <= j < all.len() && all[j] == id;
                assert(j < done.len() ==> done[j] == id);
                assert(items[items.len() - 1].int64() == Some(id));
            }
        }
        if exists|i: int| 0 <= i < t.len() && (#[trigger] t[i]).int64() == Some(id) {
            let i = choose|i: int| 0 <= i < t.len() && (#[trigger] t[i]).int64() == Some(id);
            assert(items[i].int64() == Some(id));
        }
        if id > 0 && exists|i: int| 0 <= i < items.len() && (#[trigger] items[i]).int64() == Some(
            id,
        ) {
            let i = choose|i: int| 0 <= i < items.len()
                && (#[trigger] items[i]).int64() == Some(id);
            assert(i < t.len() ==> t[i].int64() == Some(id));
        }
    } else {
        assert(!positive_ids(items).contains(id));
    }
}

proof fn lemma_first_only(s: Seq<int>, id: int)
    ensures
        first_only(s).no_duplicates(),
        first_only(s).contains(id) <==> s.contains(id),
        s.len() > 0 ==> first_only(s).len() > 0 && first_only(s)[0] == s[0],
    decreases s.len(),
{
    if s.len() > 0 {
        let t = s.drop_last();
        lemma_first_only(t, id);
        lemma_first_only(t, s.last());
        let done = first_only(t);
        let all = first_only(s);
        assert(s[s.len() - 1] == s.last());
        if t.contains(id) {
            let i = choose|i: int| 0 <= i < t.len() && t[i] == id;
            assert(s[i] == id);
        }
        if s.contains(id) {
            let i = choose|i: int| 0 <= i < s.len() && s[i] == id;
            assert(i < t.len() ==> t[i] == id);
        }
        if all != done {
            assert(all[all.len() - 1] == s.last());
            if done.contains(id) {
                let j = choose|j: int| 0 <= j < done.len() && done[j] == id;
                assert(all[j] == id);
            }
            if all.contains(id) {
                let j = choose|j: int| 0 <= j < all.len() && all[j] == id;
                assert(j < done.len() ==> done[j] == id);
            }
        }
    } else {
        assert(!first_only(s).contains(id));
    }
}

/// The servers of a workflow are the positive numbers that are listed, each
/// once and in their order, or else the one that is named.
pub proof fn law_server_ids(cfg: Jv, items: Seq<Jv>, id: int)
    ensures
        server_ids(cfg).no_duplicates(),
        cfg.member("comfyui_server_ids"@) == Some(Jv::Arr(items)) && positive_ids(items).len() > 0
            ==> (server_ids(cfg).contains(id) <==> id > 0 && exists|i: int|
            0 <= i < items.len() && (#[trigger] items[i]).int64() == Some(id)),
        cfg.member("comfyui_server_ids"@) is None && int_at(cfg, "comfyui_server_id"@) == Some(id)
            && id > 0 ==> server_ids(cfg) == seq![id],
        cfg.member("comfyui_server_ids"@) is None && (int_at(cfg, "comfyui_server_id"@) is None || (
        int_at(cfg, "comfyui_server_id"@) == Some(id) && id <= 0)) ==> server_ids(cfg).len() == 0,
{
    let listed = positive_ids(items_in(cfg.member("comfyui_server_ids"@)));
    lemma_first_only(listed, id);
    if cfg.member("comfyui_server_ids"@) == Some(Jv::Arr(items)) {
        lemma_positive_ids(items, id);
    }
    assert(positive_ids(Seq::<Jv>::empty()).len() == 0);
}

/// A channel with servers or a workflow goes to its first server; one without
/// stays as it is.
pub proof fn law_with_comfyui(f: ForwardModel, cfg: Jv, r: ForwardModel)
    requires
        r == with_comfyui(f, cfg),
    ensures
        server_ids(cfg).len() == 0 && int_at(cfg, "comfyui_workflow_id"@) is None ==> r == f,
        server_ids(cfg).len() > 0 ==> r.target_type == "comfyui"@ && r.upstream_path == "/prompt"@
            && !r.is_cascade && r.comfyui_server_id == Some(server_ids(cfg)[0])
            && r.comfyui_server_ids == server_ids(cfg),
        int_at(cfg, "comfyui_workflow_id"@) is Some ==> r.target_type == "comfyui"@
            && r.comfyui_workflow_id == int_at(cfg, "comfyui_workflow_id"@),
        server_ids(cfg).len() > 0 ==> (text_at(cfg, "comfyui_dispatch"@) matches Some(t) ==> (
        t.len() > 0 ==> r.comfyui_dispatch == Some(t))),
        r.auth_type == f.auth_type && r.poll_path == f.poll_path,
{
}

/// The rules that a channel names are a list of whole numbers; any other list
/// names none.
pub proof fn law_rule_ids(a: Seq<Jv>, i: int)
    ensures
        (forall|j: int| 0 <= j < a.len() ==> (#[trigger] a[j]).int64() is Some) && 0 <= i < a.len()
            ==> rule_ids(Some(Jv::Arr(a))).len() == a.len() && Some(
            rule_ids(Some(Jv::Arr(a)))[i],
        ) == a[i].int64(),
        0 <= i < a.len() && a[i].int64() is None ==> rule_ids(Some(Jv::Arr(a))).len() == 0,
        rule_ids(None).len() == 0,
{
}

/// The path of each enhancement tool.
pub proof fn law_enhance_path(f: ForwardModel, plugins: Plugins, r: ForwardModel)
    requires
        r == with_enhance_path(f, plugins),
    ensures
        f.mid == Some("vve-ft"@) && plugins.volcengine_enhance ==> r.upstream_path
            == "/api/v1/tools/enhance-video-fast"@ && r.target_type == "volcengine_media_enhance"@
            && r.poll_path == Some("/api/v1/tasks/${task_id}"@),
        f.mid == Some("vve-gt"@) && plugins.volcengine_enhance ==> r.upstream_path
            == "/api/v1/tools/enhance-video-generative"@,
        f.mid == Some("vvs-ep"@) && plugins.volcengine_enhance ==> r.upstream_path
            == "/api/v1/tools/erase-video-subtitle-pro"@,
        f.mid == Some("vvs-er"@) && plugins.volcengine_enhance ==> r.upstream_path
            == "/api/v1/tools/erase-video-subtitle"@,
        (f.mid == Some("vve-sd"@) || f.mid == Some("vve-pf"@)) && plugins.volcengine_enhance
            ==> r.upstream_path == "/api/v1/tools/enhance-video"@,
        !plugins.volcengine_enhance || f.mid is None ==> r == f,
        r.auth_type == f.auth_type,
{
    reveal_strlit("");
    reveal_strlit("vve-ft");
    reveal_strlit("vve-gt");
    reveal_strlit("vve-pf");
    reveal_strlit("vve-sd");
    reveal_strlit("vvs-ep");
    reveal_strlit("vvs-er");
    assert(""@.len() == 0);
    assert("vve-ft"@.len() == 6);
    assert("vve-gt"@.len() == 6);
    assert("vve-pf"@.len() == 6);
    assert("vve-sd"@.len() == 6);
    assert("vvs-ep"@.len() == 6);
    assert("vvs-er"@.len() == 6);
    assert("vve-ft"@[4] == 'f');
    assert("vve-gt"@[4] == 'g');
    assert("vve-pf"@[4] == 'p');
    assert("vve-sd"@[4] == 's');
    assert("vve-ft"@[2] == 'e');
    assert("vvs-ep"@[2] == 's');
    assert("vvs-er"@[2] == 's');
    assert("vve-gt"@[2] == 'e');
    assert("vve-pf"@[2] == 'e');
    assert("vve-sd"@[2] == 'e');
    assert("vvs-ep"@[5] == 'p');
    assert("vvs-er"@[5] == 'r');
}

// ---------------------------------------------------------------- prices

/// The words in which a price is shown.
pub proof fn law_billing_word(part: Seq<char>)
    ensures
        part == "std"@ ==> billing_word(part) == "标准"@,
        part == "standard"@ ==> billing_word(part) == "标准"@,
        part == "pro"@ ==> billing_word(part) == "专业"@,
        part == "fast"@ ==> billing_word(part) == "极速"@,
        part == "ai"@ ==> billing_word(part) == "大模型"@,
        part == "text"@ ==> billing_word(part) == "文生"@,
        part == "image"@ ==> billing_word(part) == "图生"@,
        part == "ref"@ ==> billing_word(part) == "视频参考"@,
        part == "on"@ ==> billing_word(part) == "有声"@,
        part == "off"@ ==> billing_word(part) == "无声"@,
        part == "yes"@ ==> billing_word(part) == "含视频"@,
        part == "no"@ ==> billing_word(part) == "无视频"@,
        part == "img2img"@ ==> billing_word(part) == "图生图"@,
        part == "ref_1_3"@ ==> billing_word(part) == "1-3张参考"@,
        part == "ref_4_7"@ ==> billing_word(part) == "4-7张参考"@,
        part != "std"@ && part != "standard"@ && part != "pro"@ && part != "fast"@
            && part != "ai"@ && part != "text"@ && part != "image"@ && part != "ref"@
            && part != "on"@ && part != "off"@ && part != "yes"@ && part != "no"@
            && part != "img2img"@ && part != "ref_1_3"@
            && part != "ref_4_7"@ ==> billing_word(part) == part,
{
    reveal_strlit("ai");
    reveal_strlit("fast");
    reveal_strlit("image");
    reveal_strlit("img2img");
    reveal_strlit("no");
    reveal_strlit("off");
    reveal_strlit("on");
    reveal_strlit("pro");
    reveal_strlit("ref");
    reveal_strlit("ref_1_3");
    reveal_strlit("ref_4_7");
    reveal_strlit("standard");
    reveal_strlit("std");
    reveal_strlit("text");
    reveal_strlit("yes");
    assert("ai"@.len() == 2);
    assert("fast"@.len() == 4);
    assert("image"@.len() == 5);
    assert("img2img"@.len() == 7);
    assert("no"@.len() == 2);
    assert("off"@.len() == 3);
    assert("on"@.len() == 2);
    assert("pro"@.len() == 3);
    assert("ref"@.len() == 3);
    assert("ref_1_3"@.len() == 7);
    assert("ref_4_7"@.len() == 7);
    assert("standard"@.len() == 8);
    assert("std"@.len() == 3);
    assert("text"@.len() == 4);
    assert("yes"@.len() == 3);
    assert("ai"@[0] == 'a');
    assert("no"@[0] == 'n');
    assert("on"@[0] == 'o');
    assert("fast"@[0] == 'f');
    assert("text"@[0] == 't');
    assert("img2img"@[0] == 'i');
    assert("ref_1_3"@[0] == 'r');
    assert("ref_4_7"@[0] == 'r');
    assert("off"@[0] == 'o');
    assert("pro"@[0] == 'p');
    assert("ref"@[0] == 'r');
    assert("std"@[0] == 's');
    assert("yes"@[0] == 'y');
    assert("ref_1_3"@[4] == '1');
    assert("ref_4_7"@[4] == '4');
}

/// A key of two parts is shown in words, part by part.
pub proof fn law_key_in_words(a: Seq<char>, b: Seq<char>)
    requires
        !a.contains('|'),
        !b.contains('|'),
    ensures
        key_in_words(a) == billing_word(small_letters(trimmed(a))),
        key_in_words(a + seq!['|'] + b) == billing_word(small_letters(trimmed(a))) + seq!['|']
            + billing_word(small_letters(trimmed(b))),
{
    reveal_strlit("|");
    assert("|"@ =~= seq!['|']);
    law_not_parted(a, '|');
    law_not_parted(b, '|');
    law_pieces(a, '|', b);
    let x = billing_word(small_letters(trimmed(a)));
    let y = billing_word(small_letters(trimmed(b)));
    let word = |p: Seq<char>| billing_word(small_letters(trimmed(p)));
    assert(seq![a].map_values(word) =~= seq![x]);
    assert((seq![a] + seq![b]).map_values(word) =~= seq![x, y]);
    reveal_with_fuel(joined, 3);
    assert(seq![x, y].drop_last() =~= seq![x]);
}

/// A size of two sides in pixels is shown with an `x` between them, whatever
/// sign it had; a size in thousands is square.
pub proof fn law_pixel_size(w: int, h: int, c: char)
    requires
        0 <= w <= u32::MAX,
        0 <= h <= u32::MAX,
        c == 'x' || c == '*' || c == '×' || c == ':',
    ensures
        pixel_size(shown(w) + seq![c] + shown(h)) == shown(w) + "x"@ + shown(h),
        pixel_size(shown(w) + seq!['k']) == shown(w * 1024) + "x"@ + shown(w * 1024),
{
    reveal_strlit("x");
    reveal_strlit("*");
    reveal_strlit("×");
    reveal_strlit(":");
    assert("x"@ =~= seq!['x']);
    assert("*"@ =~= seq!['*']);
    assert("×"@ =~= seq!['×']);
    assert(":"@ =~= seq![':']);
    let a = shown(w);
    let b = shown(h);
    law_decimal_round_trip(w, 0, u32::MAX as int);
    law_decimal_round_trip(h, 0, u32::MAX as int);
    assert((a + seq!['k']).drop_last() =~= a);
    let s = a + seq![c] + b;
    law_shown_plain(h, 'k');
    assert(s.last() == b[b.len() - 1]);
    assert(s.last() != 'k') by {
        assert(b.contains(b[b.len() - 1]));
    }
    law_shown_plain(w, 'x');
    law_shown_plain(h, 'x');
    law_shown_plain(w, '*');
    law_shown_plain(h, '*');
    law_shown_plain(w, '×');
    law_shown_plain(h, '×');
    law_shown_plain(w, ':');
    law_shown_plain(h, ':');
    lemma_swap_at(a, b, c, '*');
    let c1 = if c == '*' { 'x' } else { c };
    lemma_swap_at(a, b, c1, '×');
    let c2 = if c1 == '×' { 'x' } else { c1 };
    lemma_swap_at(a, b, c2, ':');
    law_pieces(a, 'x', b);
    law_not_parted(b, 'x');
    let parts = size_parts(s);
    assert(parts =~= seq![a, b]);
    law_shown_trimmed(w);
    law_shown_trimmed(h);
}

/// Replacing a sign by an `x` in a text with one sign.
proof fn lemma_swap_at(a: Seq<char>, b: Seq<char>, c: char, from: char)
    requires
        !a.contains(from),
        !b.contains(from),
    ensures
        replaced(a + seq![c] + b, seq![from], seq!['x']) == a + seq![
            if c == from {
                'x'
            } else {
                c
            },
        ] + b,
{
    law_replaced(b, from, Seq::empty(), seq!['x']);
    if c == from {
        law_replaced(a, from, b, seq!['x']);
    } else {
        let s = a + seq![c] + b;
        assert(!s.contains(from)) by {
            if s.contains(from) {
                let i = choose|i: int| 0 <= i < s.len() && s[i] == from;
                if i < a.len() {
                    assert(a[i] == from);
                } else if i > a.len() {
                    assert(b[i - a.len() - 1] == from);
                }
            }
        }
        law_replaced(s, from, Seq::empty(), seq!['x']);
    }
}

/// The sides that a size is counted by, as it writes them.
pub proof fn law_counted_sides(w: int, h: int)
    requires
        0 <= w,
        0 <= h,
    ensures
        counted_sides(shown(w) + seq!['x'] + shown(h)) == Some((shown(w), shown(h))),
        counted_sides(shown(w)) is None,
{
    reveal_strlit("x");
    assert("x"@ =~= seq!['x']);
    law_shown_plain(w, 'x');
    law_parted(shown(w), 'x', shown(h));
    law_not_parted(shown(w), 'x');
    law_shown_trimmed(w);
    law_shown_trimmed(h);
}

/// How the standard ratios are written.
pub proof fn law_ratio_names()
    ensures
        StandardRatio::Square.label() == "1:1"@,
        StandardRatio::ThreeTwo.label() == "3:2"@,
        StandardRatio::FourThree.label() == "4:3"@,
        StandardRatio::SixteenNine.label() == "16:9"@,
        StandardRatio::TwentyOneNine.label() == "21:9"@,
        StandardRatio::TwoThree.label() == "2:3"@,
        StandardRatio::ThreeFour.label() == "3:4"@,
        StandardRatio::NineSixteen.label() == "9:16"@,
{
}

/// The ratio of a size: one that names a ratio is its own, and one of two sides
/// has the standard ratio that is nearest.
pub proof fn law_ratio_of(size: Seq<char>, w: int, h: int, near: StandardRatio)
    requires
        0 <= w,
        0 <= h,
    ensures
        trimmed(size) == size && size.len() > 0 && holds(size, ":"@) ==> ratio_of(size, Some(near))
            == Some(size),
        size == shown(w) + seq!['x'] + shown(h) ==> ratio_of(size, Some(near)) == Some(
            near.label(),
        ),
        trimmed(size).len() == 0 ==> ratio_of(size, Some(near)) is None,
{
    if size == shown(w) + seq!['x'] + shown(h) {
        reveal_strlit("x");
        reveal_strlit(":");
        assert("x"@ =~= seq!['x']);
        assert(":"@ =~= seq![':']);
        law_shown_plain(w, 'x');
        law_shown_plain(w, ':');
        law_shown_plain(h, ':');
        law_parted(shown(w), 'x', shown(h));
        assert(!size.contains(':')) by {
            if size.contains(':') {
                let i = choose|i: int| 0 <= i < size.len() && size[i] == ':';
                if i < shown(w).len() {
                    assert(shown(w)[i] == ':');
                } else if i > shown(w).len() {
                    assert(shown(h)[i - shown(w).len() - 1] == ':');
                }
            }
        }
        law_not_parted(size, ':');
        law_shown_trimmed(w);
        law_shown_trimmed(h);
        assert(!is_space(size[0]) && !is_space(size.last())) by {
            law_trimmed(shown(w), shown(w).len() - front_trimmed(shown(w)).len(), shown(w));
            law_trimmed(shown(h), shown(h).len() - front_trimmed(shown(h)).len(), shown(h));
            law_shown_plain(h, 'x');
            assert(size[0] == shown(w)[0]);
            assert(size.last() == shown(h).last());
        }
        law_trimmed_already(size);
    }
}

/// How many images are free: what the rule names, but neither less than none
/// nor more than can be counted.
pub proof fn law_free_images(ext: Jv, default: int)
    ensures
        0 <= free_images(Some(ext), default) <= i32::MAX,
        ext.member("free_image_count"@) matches Some(Jv::Int(n)) ==> (0 <= n <= i32::MAX
            ==> free_images(Some(ext), default) == n),
        ext.member("free_image_count"@) matches Some(Jv::Int(n)) ==> (n < 0 ==> free_images(
            Some(ext),
            default,
        ) == 0),
        ext.member("free_image_count"@) is None && 0 <= default <= i32::MAX ==> free_images(
            Some(ext),
            default,
        ) == default,
        0 <= default <= i32::MAX ==> free_images(None, default) == default,
{
}

} // verus!
