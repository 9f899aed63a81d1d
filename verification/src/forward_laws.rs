//! What holds of forwarding: which protocol, path and authentication an
//! address stands for, which rule is taken, and what the configuration of a
//! rule sets.
use vstd::prelude::*;
use vstd::string::*;
use crate::forward::{
    chosen_forward, config_score, forward_config, inferred_forward, is_best, kling_path,
    law_best_rule, of_category, path_score, polled, refined_type, request_path, rewritten_path,
    rule_score, scores_of, upstream_url, ForwardModel, Plugins, RuleModel,
};
use crate::json::{has_items, int_at, parsed_json, text_at, Jv};
use crate::text::{back_cut, holds, replaced};
use crate::text_laws::law_front_cut;

verus! {

// ---------------------------------------------------------------- addresses

/// Whether a request goes to a protocol, a path and an authentication, and
/// nothing else is set but where it is polled.
pub open spec fn goes_to(
    f: ForwardModel,
    target: Seq<char>,
    path: Seq<char>,
    auth: Seq<char>,
    poll: Option<Seq<char>>,
) -> bool {
    &&& f.target_type == target
    &&& f.upstream_path == path
    &&& f.auth_type == auth
    &&& f.poll_path == poll
    &&& !f.asset_convert
    &&& f.asset_convert_ns == "asset_manager"@
    &&& !f.upstream_asset_convert
    &&& f.comfyui_workflow_id is None
    &&& f.comfyui_server_id is None
    &&& !f.is_cascade
    &&& f.crop_480p
    &&& !f.content_to_prompt
    &&& !f.asset_moderation
}

/// Whether an address names a vendor that is asked for before the first ones
/// of Volcengine.
pub open spec fn names_early(url: Seq<char>, plugins: Plugins) -> bool {
    ||| holds(url, "dashscope"@)
    ||| plugins.volcengine_enhance && holds(url, "mediakit"@)
    ||| holds(url, "openspeech.bytedance.com"@)
    ||| holds(url, "visual.volcengineapi.com"@)
}

/// Whether an address names Volcengine or a vendor that is asked for before it.
pub open spec fn names_volcengine(url: Seq<char>, plugins: Plugins) -> bool {
    names_early(url, plugins) || holds(url, "volces.com"@) || holds(url, "volcengine"@)
}

/// Whether an address names Google or a vendor that is asked for before it.
pub open spec fn names_google(url: Seq<char>, plugins: Plugins) -> bool {
    names_volcengine(url, plugins) || holds(url, "googleapis.com"@) || holds(
        url,
        "generativelanguage"@,
    )
}

/// Addresses of DashScope: videos and images have interfaces of their own,
/// anything else goes through the compatible ones.
pub proof fn law_dashscope_address(
    url: Seq<char>,
    category: Seq<char>,
    path: Seq<char>,
    mid: Option<Seq<char>>,
    plugins: Plugins,
    f: ForwardModel,
)
    requires
        holds(url, "dashscope"@),
        f == inferred_forward(url, category, path, mid, plugins),
    ensures
        category == "视频"@ ==> goes_to(
            f,
            "dashscope"@,
            "/api/v1/services/aigc/video-generation/video-synthesis"@,
            "bearer"@,
            Some("/api/v1/tasks/${task_id}"@),
        ),
        category == "图片"@ ==> goes_to(
            f,
            "dashscope_image"@,
            "/api/v1/services/aigc/multimodal-generation/generation"@,
            "bearer"@,
            None,
        ),
        category == "向量"@ ==> goes_to(
            f,
            "openai"@,
            "/compatible-mode/v1/embeddings"@,
            "bearer"@,
            None,
        ),
        category == "排序"@ ==> goes_to(
            f,
            "openai"@,
            "/compatible-api/v1/reranks"@,
            "bearer"@,
            None,
        ),
        category != "视频"@ && category != "图片"@ && category != "向量"@ && category != "排序"@
            ==> goes_to(f, "openai"@, "/v1/chat/completions"@, "bearer"@, None),
{
    reveal_strlit("向量");
    reveal_strlit("图片");
    reveal_strlit("排序");
    reveal_strlit("视频");
    assert("向量"@.len() == 2);
    assert("图片"@.len() == 2);
    assert("排序"@.len() == 2);
    assert("视频"@.len() == 2);
    assert("向量"@[0] == '向');
    assert("图片"@[0] == '图');
    assert("排序"@[0] == '排');
    assert("视频"@[0] == '视');
}

/// Addresses of the media enhancement tools, where a deployment has them: the
/// lasting id of the model says which tool.
pub proof fn law_mediakit_address(
    url: Seq<char>,
    category: Seq<char>,
    path: Seq<char>,
    mid: Option<Seq<char>>,
    plugins: Plugins,
    f: ForwardModel,
)
    requires
        !holds(url, "dashscope"@),
        plugins.volcengine_enhance,
        holds(url, "mediakit"@),
        f == inferred_forward(url, category, path, mid, plugins),
    ensures
        f.target_type == "volcengine_media_enhance"@,
        f.auth_type == "bearer"@,
        f.poll_path == Some("/api/v1/tasks/${task_id}"@),
        f.mid == mid,
        mid is None || mid == Some("vve-sd"@) || mid == Some("vve-pf"@) ==> f.upstream_path
            == "/api/v1/tools/enhance-video"@,
        mid == Some("vve-ft"@) ==> f.upstream_path == "/api/v1/tools/enhance-video-fast"@,
        mid == Some("vve-gt"@) ==> f.upstream_path == "/api/v1/tools/enhance-video-generative"@,
        mid == Some("vvs-ep"@) ==> f.upstream_path == "/api/v1/tools/erase-video-subtitle-pro"@,
        mid == Some("vvs-er"@) ==> f.upstream_path == "/api/v1/tools/erase-video-subtitle"@,
{
    reveal_strlit("vve-ft");
    reveal_strlit("vve-gt");
    reveal_strlit("vve-pf");
    reveal_strlit("vve-sd");
    reveal_strlit("vvs-ep");
    reveal_strlit("vvs-er");
    assert("vve-ft"@.len() == 6);
    assert("vve-gt"@.len() == 6);
    assert("vve-pf"@.len() == 6);
    assert("vve-sd"@.len() == 6);
    assert("vvs-ep"@.len() == 6);
    assert("vvs-er"@.len() == 6);
    assert("vve-ft"@[4] == 'f');
    assert("vve-gt"@[4] == 'g');
    assert("vve-pf"@[4] == 'p');
    assert("vve-sd"@[4] == 's');
    assert("vve-ft"@[2] == 'e');
    assert("vvs-ep"@[2] == 's');
    assert("vvs-er"@[2] == 's');
    assert("vve-gt"@[2] == 'e');
    assert("vve-pf"@[2] == 'e');
    assert("vve-sd"@[2] == 'e');
    assert("vvs-ep"@[5] == 'p');
    assert("vvs-er"@[5] == 'r');
}

/// Addresses of the speech interface and of the signed Jimeng interface.
pub proof fn law_speech_and_jimeng_addresses(
    url: Seq<char>,
    category: Seq<char>,
    path: Seq<char>,
    mid: Option<Seq<char>>,
    plugins: Plugins,
    f: ForwardModel,
)
    requires
        !holds(url, "dashscope"@),
        !(plugins.volcengine_enhance && holds(url, "mediakit"@)),
        f == inferred_forward(url, category, path, mid, plugins),
    ensures
        holds(url, "openspeech.bytedance.com"@) ==> goes_to(
            f,
            "volcengine_tts"@,
            "/api/v3/tts/unidirectional/sse"@,
            "volcengine_tts"@,
            None,
        ),
        !holds(url, "openspeech.bytedance.com"@) && holds(url, "visual.volcengineapi.com"@) ==> ({
            &&& category == "图片"@ ==> goes_to(f, "jimeng_image"@, "/"@, "jimeng"@, None)
            &&& category == "视频"@ ==> goes_to(f, "jimeng_video"@, "/"@, "jimeng"@, None)
            &&& category != "图片"@ && category != "视频"@ ==> goes_to(
                f,
                "openai"@,
                "/v1/chat/completions"@,
                "bearer"@,
                None,
            )
        }),
{
    reveal_strlit("向量");
    reveal_strlit("图片");
    reveal_strlit("排序");
    reveal_strlit("视频");
    assert("向量"@.len() == 2);
    assert("图片"@.len() == 2);
    assert("排序"@.len() == 2);
    assert("视频"@.len() == 2);
    assert("向量"@[0] == '向');
    assert("图片"@[0] == '图');
    assert("排序"@[0] == '排');
    assert("视频"@[0] == '视');
}

/// Addresses of Volcengine.
pub proof fn law_volcengine_address(
    url: Seq<char>,
    category: Seq<char>,
    path: Seq<char>,
    mid: Option<Seq<char>>,
    plugins: Plugins,
    f: ForwardModel,
)
    requires
        !names_early(url, plugins),
        holds(url, "volces.com"@) || holds(url, "volcengine"@),
        f == inferred_forward(url, category, path, mid, plugins),
    ensures
        category == "图片"@ ==> goes_to(
            f,
            "volcengine_image"@,
            "/api/v3/images/generations"@,
            "bearer"@,
            None,
        ),
        category == "视频"@ ==> goes_to(
            f,
            "volcengine"@,
            "/api/v3/contents/generations/tasks"@,
            "bearer"@,
            None,
        ),
        category != "图片"@ && category != "视频"@ ==> goes_to(
            f,
            "volcengine_chat"@,
            "/api/v3/chat/completions"@,
            "bearer"@,
            None,
        ),
{
    reveal_strlit("向量");
    reveal_strlit("图片");
    reveal_strlit("排序");
    reveal_strlit("视频");
    assert("向量"@.len() == 2);
    assert("图片"@.len() == 2);
    assert("排序"@.len() == 2);
    assert("视频"@.len() == 2);
    assert("向量"@[0] == '向');
    assert("图片"@[0] == '图');
    assert("排序"@[0] == '排');
    assert("视频"@[0] == '视');
}

/// Addresses of Google: images and anything else have protocols of their own,
/// and the key goes into the query.
pub proof fn law_google_address(
    url: Seq<char>,
    category: Seq<char>,
    path: Seq<char>,
    mid: Option<Seq<char>>,
    plugins: Plugins,
    f: ForwardModel,
)
    requires
        !names_volcengine(url, plugins),
        holds(url, "googleapis.com"@) || holds(url, "generativelanguage"@),
        f == inferred_forward(url, category, path, mid, plugins),
    ensures
        category == "图片"@ ==> goes_to(
            f,
            "gemini_image"@,
            "/v1beta/models/${model}:generateContent"@,
            "query_key"@,
            None,
        ),
        category != "图片"@ ==> goes_to(
            f,
            "gemini"@,
            "/v1beta/models/${model}:generateContent"@,
            "query_key"@,
            None,
        ),
{
}

/// Addresses of Anthropic and of Kling.
pub proof fn law_anthropic_and_kling_addresses(
    url: Seq<char>,
    category: Seq<char>,
    path: Seq<char>,
    mid: Option<Seq<char>>,
    plugins: Plugins,
    f: ForwardModel,
)
    requires
        !names_google(url, plugins),
        f == inferred_forward(url, category, path, mid, plugins),
    ensures
        holds(url, "anthropic.com"@) ==> goes_to(
            f,
            "anthropic"@,
            "/v1/messages"@,
            "x-api-key"@,
            None,
        ),
        !holds(url, "anthropic.com"@) && holds(url, "klingai.com"@) ==> ({
            &&& category == "图片"@ ==> goes_to(
                f,
                "kling"@,
                "/v1/images/generations"@,
                "bearer"@,
                None,
            )
            &&& category == "视频"@ ==> goes_to(
                f,
                "kling"@,
                "/v1/videos/text2video"@,
                "bearer"@,
                None,
            )
            &&& category != "图片"@ && category != "视频"@ ==> goes_to(
                f,
                "openai"@,
                "/v1/chat/completions"@,
                "bearer"@,
                None,
            )
        }),
{
    reveal_strlit("向量");
    reveal_strlit("图片");
    reveal_strlit("排序");
    reveal_strlit("视频");
    assert("向量"@.len() == 2);
    assert("图片"@.len() == 2);
    assert("排序"@.len() == 2);
    assert("视频"@.len() == 2);
    assert("向量"@[0] == '向');
    assert("图片"@[0] == '图');
    assert("排序"@[0] == '排');
    assert("视频"@[0] == '视');
}

/// Addresses of MiniMax, of ATP and of Tencent Cloud, and any other address,
/// which is taken as one of OpenAI.
pub proof fn law_further_addresses(
    url: Seq<char>,
    category: Seq<char>,
    path: Seq<char>,
    mid: Option<Seq<char>>,
    plugins: Plugins,
    f: ForwardModel,
)
    requires
        !names_google(url, plugins),
        !holds(url, "anthropic.com"@),
        !holds(url, "klingai.com"@),
        f == inferred_forward(url, category, path, mid, plugins),
    ensures
        holds(url, "minimaxi.com"@) ==> ({
            &&& category == "图片"@ ==> goes_to(
                f,
                "minimax_image"@,
                "/v1/image_generation"@,
                "bearer"@,
                None,
            )
            &&& category == "视频"@ ==> goes_to(
                f,
                "minimax_video"@,
                "/v2/video_generation"@,
                "bearer"@,
                Some("/v2/query/video_generation/${task_id}"@),
            )
            &&& category != "图片"@ && category != "视频"@ ==> goes_to(
                f,
                "openai"@,
                "/v1/chat/completions"@,
                "bearer"@,
                None,
            )
        }),
        !holds(url, "minimaxi.com"@) && holds(url, "atptoken.ai"@) ==> ({
            &&& category == "视频"@ ==> goes_to(
                f,
                "atp_video"@,
                "/omni/media/v1/contents/generations/tasks"@,
                "bearer"@,
                Some("/omni/media/v1/contents/generations/tasks/${task_id}"@),
            )
            &&& category != "视频"@ ==> goes_to(f, "openai"@, path, "bearer"@, None)
        }),
        !holds(url, "minimaxi.com"@) && !holds(url, "atptoken.ai"@) && holds(
            url,
            "tencentcloudapi.com"@,
        ) ==> ({
            &&& category == "图片"@ ==> goes_to(
                f,
                "tencent_vod_image"@,
                "/"@,
                "tencent_vod"@,
                None,
            )
            &&& category == "视频"@ ==> goes_to(
                f,
                "tencent_vod_video"@,
                "/"@,
                "tencent_vod"@,
                None,
            )
            &&& category != "图片"@ && category != "视频"@ ==> goes_to(
                f,
                "openai"@,
                "/v1/chat/completions"@,
                "bearer"@,
                None,
            )
        }),
        !holds(url, "minimaxi.com"@) && !holds(url, "atptoken.ai"@) && !holds(
            url,
            "tencentcloudapi.com"@,
        ) ==> goes_to(f, "openai"@, path, "bearer"@, None),
{
    reveal_strlit("向量");
    reveal_strlit("图片");
    reveal_strlit("排序");
    reveal_strlit("视频");
    assert("向量"@.len() == 2);
    assert("图片"@.len() == 2);
    assert("排序"@.len() == 2);
    assert("视频"@.len() == 2);
    assert("向量"@[0] == '向');
    assert("图片"@[0] == '图');
    assert("排序"@[0] == '排');
    assert("视频"@[0] == '视');
}

/// An address of APIMart makes a request in the OpenAI form one of APIMart's;
/// nothing else is refined.
pub proof fn law_apimart_address(target: Seq<char>, url: Seq<char>)
    ensures
        target == "openai"@ && holds(url, "apimart.ai"@) ==> refined_type(target, url)
            == "apimart"@,
        target != "openai"@ || !holds(url, "apimart.ai"@) ==> refined_type(target, url) == target,
{
}

/// The key stands in the query where the authentication says so, Jimeng has
/// one fixed address, and anything else is asked at the joined address.
pub proof fn law_upstream_url(
    base_url: Seq<char>,
    f: ForwardModel,
    joined: Seq<char>,
    api_key: Seq<char>,
    r: Seq<char>,
)
    requires
        r == upstream_url(base_url, f, joined, api_key),
    ensures
        f.target_type == "jimeng_image"@ || f.target_type == "jimeng_video"@ ==> r == back_cut(
            base_url,
            '/',
        ) + "/?Action=CVSync2AsyncSubmitTask&Version=2022-08-31"@,
        !"jimeng_"@.is_prefix_of(f.target_type) && f.auth_type == "query_key"@ ==> r == joined
            + "?key="@ + api_key,
        !"jimeng_"@.is_prefix_of(f.target_type) && f.auth_type != "query_key"@ ==> r == joined,
{
    reveal_strlit("jimeng_");
    reveal_strlit("jimeng_image");
    reveal_strlit("jimeng_video");
    assert("jimeng_"@.len() == 7);
    assert("jimeng_image"@.len() == 12);
    assert("jimeng_video"@.len() == 12);
    assert("jimeng_image"@[7] == 'i');
    assert("jimeng_video"@[7] == 'v');
    assert("jimeng_image"@.subrange(0, 7) =~= "jimeng_"@);
    assert("jimeng_video"@.subrange(0, 7) =~= "jimeng_"@);
}

/// The name of the model takes its place in the path.
pub proof fn law_request_path(f: ForwardModel, model: Seq<char>)
    ensures
        request_path(f, model) == replaced(f.upstream_path, "${model}"@, model),
{
}

/// The path of a flat Kling video follows from the images of its body.
pub proof fn law_kling_video_path(f: ForwardModel, body: Jv)
    requires
        f.target_type == "kling"@,
        !holds(f.upstream_path, "omni-video"@),
        !holds(f.upstream_path, "omni-image"@),
        holds(f.upstream_path, "text2video"@) || holds(f.upstream_path, "image2video"@),
    ensures
        has_items(body, "image_list"@) ==> kling_path(f, body) == "/v1/videos/multi-image2video"@,
        !has_items(body, "image_list"@) && (body.member("image"@) is Some || body.member(
            "image_tail"@,
        ) is Some) ==> kling_path(f, body) == "/v1/videos/image2video"@,
        !has_items(body, "image_list"@) && body.member("image"@) is None && body.member(
            "image_tail"@,
        ) is None ==> kling_path(f, body) == "/v1/videos/text2video"@,
{
    reveal_strlit("kling");
    reveal_strlit("kling_video");
    assert("kling"@.len() == 5);
    assert("kling_video"@.len() == 11);
}

/// Paths of the omni interface and of other protocols stay.
pub proof fn law_other_paths_stay(f: ForwardModel, body: Jv)
    requires
        (f.target_type != "kling"@ && f.target_type != "kling_video"@) || holds(
            f.upstream_path,
            "omni-video"@,
        ) || holds(f.upstream_path, "omni-image"@),
    ensures
        kling_path(f, body) == f.upstream_path,
{
}

/// Several subjects of an image are asked for under a path of their own.
pub proof fn law_kling_image_path(f: ForwardModel, body: Jv)
    requires
        f.target_type == "kling"@,
        f.upstream_path == "/v1/images/generations"@,
        !holds(f.upstream_path, "omni-video"@),
        !holds(f.upstream_path, "omni-image"@),
        !holds(f.upstream_path, "text2video"@),
        !holds(f.upstream_path, "image2video"@),
        !holds(f.upstream_path, "multi-image2video"@),
        holds(f.upstream_path, "images"@),
    ensures
        has_items(body, "subject_image_list"@) ==> kling_path(f, body)
            == "/v1/images/multi-image2image"@,
        !has_items(body, "subject_image_list"@) ==> kling_path(f, body) == f.upstream_path,
{
    reveal_strlit("kling");
    reveal_strlit("kling_video");
    assert("kling"@.len() == 5);
    assert("kling_video"@.len() == 11);
}

// ---------------------------------------------------------------- rules

/// A rule decides by its configuration, member by member; what it does not
/// set has a default.
pub proof fn law_rule_settings(
    config: Jv,
    path: Seq<char>,
    eid: Seq<char>,
    mid: Option<Seq<char>>,
    f: ForwardModel,
)
    requires
        f == forward_config(config, path, eid, mid),
    ensures
        f.eid == eid,
        f.mid == mid,
        text_at(config, "target_type"@) matches Some(t) ==> f.target_type == t,
        text_at(config, "target_type"@) is None ==> f.target_type == "openai"@,
        text_at(config, "auth_type"@) matches Some(t) ==> f.auth_type == t,
        text_at(config, "auth_type"@) is None ==> f.auth_type == "bearer"@,
        f.poll_path == text_at(config, "poll_path"@),
        text_at(config, "asset_convert_ns"@) matches Some(t) ==> f.asset_convert_ns == t,
        text_at(config, "asset_convert_ns"@) is None ==> f.asset_convert_ns == "asset_manager"@,
        f.asset_convert == (config.member("asset_convert"@) == Some(Jv::Bool(true))),
        f.upstream_asset_convert == (config.member("upstream_asset_convert"@) == Some(
            Jv::Bool(true),
        )),
        f.upstream_asset_binding_id == int_at(config, "upstream_asset_binding_id"@),
        f.comfyui_workflow_id == int_at(config, "comfyui_workflow_id"@),
        f.asset_moderation == (config.member("moderation"@) == Some(Jv::Bool(true))),
        f.is_cascade == (config.member("is_cascade"@) == Some(Jv::Bool(true))),
        f.crop_480p == (config.member("crop_480p"@) != Some(Jv::Bool(false))),
        f.content_to_prompt == (config.member("content_to_prompt"@) == Some(Jv::Bool(true))),
        f.comfyui_server_ids.len() > 0 ==> f.comfyui_server_id == Some(f.comfyui_server_ids[0]),
        f.comfyui_server_ids.len() == 0 ==> f.comfyui_server_id is None,
{
}

/// Where the path of a rule leads: the old part of the category path gives way
/// to the new one; without it the new one is the path.
pub proof fn law_rewritten_path(config: Jv, path: Seq<char>)
    ensures
        config.member("path_rewrite"@) is None ==> rewritten_path(config, path) == path,
        config.member("path_rewrite"@) matches Some(pr) ==> ({
            let old_part = text_at(pr, "old"@);
            let new_part = text_at(pr, "new"@);
            &&& (old_part matches Some(o) ==> (new_part matches Some(n) ==> (o.len() > 0 && holds(
                path,
                o,
            ) ==> rewritten_path(config, path) == replaced(path, o, n))))
            &&& (old_part matches Some(o) ==> (o.len() > 0 && holds(path, o) && new_part is None
                ==> rewritten_path(config, path) == replaced(path, o, ""@)))
            &&& (new_part matches Some(n) ==> (n.len() > 0
                && (old_part is None || old_part->Some_0.len()
                == 0 || !holds(path, old_part->Some_0)) ==> rewritten_path(config, path) == n))
        }),
{
    reveal_strlit("");
}

/// How a rule fits a path, best first: a path of the vendor hits it; an
/// OpenAI path passes through; an OpenAI path is rewritten; or it does not fit.
pub proof fn law_rule_fits(
    old_path: Seq<char>,
    new_path: Seq<char>,
    request: Seq<char>,
    openai: Seq<char>,
    score: int,
)
    requires
        score == path_score(old_path, new_path, request, openai),
        old_path.len() == 0 || old_path[0] != '/',
        new_path.len() == 0 || new_path[0] != '/',
        request.len() == 0 || request[0] != '/',
        openai.len() == 0 || openai[0] != '/',
    ensures
        !openai.is_suffix_of(request) && new_path.len() > 0 && new_path.is_suffix_of(request)
            ==> score == 3,
        !openai.is_suffix_of(request) && old_path.len() > 0 && old_path.is_suffix_of(request)
            ==> score == 3,
        openai.is_suffix_of(request) && old_path.is_suffix_of(openai) && old_path == new_path
            ==> score == 2,
        openai.is_suffix_of(request) && old_path.is_suffix_of(openai) && old_path != new_path
            ==> score == 1,
        openai.is_suffix_of(request) && !old_path.is_suffix_of(openai) ==> score == 0,
        !openai.is_suffix_of(request) && !new_path.is_suffix_of(request) && !old_path.is_suffix_of(
            request,
        ) ==> score == 0,
{
}

/// A slash in front of a path makes no difference to how a rule fits.
pub proof fn law_slashes_in_front(
    old_path: Seq<char>,
    new_path: Seq<char>,
    request: Seq<char>,
    openai: Seq<char>,
)
    ensures
        path_score(seq!['/'] + old_path, seq!['/'] + new_path, seq!['/'] + request, seq!['/']
            + openai) == path_score(old_path, new_path, request, openai),
{
    law_front_cut(old_path, '/');
    law_front_cut(new_path, '/');
    law_front_cut(request, '/');
    law_front_cut(openai, '/');
}

/// The rule that is taken is of the category, fits the path, and no other rule
/// of the category fits better, nor as well and earlier; what it says is what
/// holds.
pub proof fn law_rule_taken(
    rules: Seq<RuleModel>,
    request: Seq<char>,
    openai: Seq<char>,
    mid: Seq<char>,
    i: int,
    config: Jv,
)
    requires
        0 <= i < rules.len(),
        parsed_json(rules[i].config_json) == Some(config),
        config_score(config, request, openai) > 0,
        forall|j: int|
            0 <= j < rules.len() ==> rule_score(
                parsed_json((#[trigger] rules[j]).config_json),
                request,
                openai,
            ) <= config_score(config, request, openai),
        forall|j: int|
            0 <= j < i ==> rule_score(
                parsed_json((#[trigger] rules[j]).config_json),
                request,
                openai,
            ) < config_score(config, request, openai),
    ensures
        chosen_forward(rules, request, openai, mid) == Some(
            forward_config(config, openai, rules[i].eid, Some(mid)),
        ),
{
    let scores = scores_of(rules, request, openai);
    assert forall|j: int| 0 <= j < scores.len() implies #[trigger] scores[j] <= scores[i] by {
        assert(rules[j] == rules[j]);
    }
    assert forall|j: int| 0 <= j < i implies #[trigger] scores[j] < scores[i] by {
        assert(rules[j] == rules[j]);
    }
    assert(is_best(scores, i));
    let c = choose|k: int| is_best(scores, k);
    law_best_rule(scores, i, c);
}

/// Where no rule fits the path, none is taken.
pub proof fn law_no_rule_taken(
    rules: Seq<RuleModel>,
    request: Seq<char>,
    openai: Seq<char>,
    mid: Seq<char>,
)
    requires
        forall|j: int|
            0 <= j < rules.len() ==> rule_score(
                parsed_json((#[trigger] rules[j]).config_json),
                request,
                openai,
            ) == 0,
    ensures
        chosen_forward(rules, request, openai, mid) is None,
{
    let scores = scores_of(rules, request, openai);
    assert forall|k: int| !is_best(scores, k) by {
        if 0 <= k < scores.len() {
            assert(rules[k] == rules[k]);
            assert(scores[k] == 0);
        }
    }
}

/// The rules of a category are those whose category it is, in their order.
pub proof fn law_of_category(rules: Seq<RuleModel>, category: Seq<char>)
    ensures
        of_category(rules, category) == rules.filter(|r: RuleModel| r.category == category),
    decreases rules.len(),
{
    reveal(Seq::filter);
    if rules.len() > 0 {
        law_of_category(rules.drop_last(), category);
    } else {
        assert(of_category(rules, category) =~= rules.filter(
            |r: RuleModel| r.category == category,
        ));
    }
}

} // verus!
