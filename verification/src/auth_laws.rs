//! What holds of the credentials that a request carries.
use vstd::prelude::*;
use vstd::string::*;
use crate::auth::{
    auth_headers, carries_token, hex_digit, hex_text, hmac_sha256_of, host_of, kling_claims,
    kling_jwt, kling_key, masked, posted_body, posting, sha256, tc3_authorization, tc3_canonical,
    tc3_signing_key, tc3_string_to_sign, tencent_key, utf8, without_prefix,
};
use crate::forward::ForwardModel;
use crate::json::{json_text, text_at, Jv};
use crate::text::shown;
use crate::text_laws::{law_not_parted, law_parted, law_pieces};

verus! {

/// A key that is shown has its first and its last four characters, and stars
/// for what lies between; a short one has stars alone.
pub proof fn law_masked(key: Seq<char>, m: Seq<char>)
    requires
        m == masked(key),
    ensures
        key.len() <= 8 ==> m == "******"@,
        key.len() > 8 ==> m.len() == 14 && m.take(4) == key.take(4) && m.skip(10) == key.skip(
            key.len() - 4,
        ) && m.subrange(4, 10) == "******"@,
{
    reveal_strlit("******");
    if key.len() > 8 {
        assert(m.take(4) =~= key.take(4));
        assert(m.skip(10) =~= key.skip(key.len() - 4));
        assert(m.subrange(4, 10) =~= "******"@);
    }
}

/// The headers of a request by the way it is authenticated.
pub proof fn law_auth_headers(
    f: ForwardModel,
    key: Seq<char>,
    post: bool,
    token: Option<Seq<char>>,
    h: Seq<(Seq<char>, Seq<char>)>,
)
    requires
        h == auth_headers(f, key, post, token),
        f.target_type != "dashscope"@ || !post,
    ensures
        f.auth_type == "x-api-key"@ ==> h.len() == 2 && h[0] == ("x-api-key"@, key) && h[1] == (
            "anthropic-version"@,
            "2023-06-01"@,
        ),
        f.auth_type == "query_key"@ ==> h.len() == 0,
        f.auth_type == "volcengine_tts"@ ==> h.len() == 1 && h[0] == ("X-Api-Key"@, key),
        f.auth_type == "bearer"@ && f.target_type != "kling"@ ==> h.len() == 1 && h[0] == (
            "Authorization"@,
            "Bearer "@ + key,
        ),
        f.auth_type == "bearer"@ && f.target_type == "kling"@ ==> (token matches Some(t) ==> h.len()
            == 1 && h[0] == ("Authorization"@, "Bearer "@ + t)),
        f.auth_type == "bearer"@ && token is None ==> h.len() == 1 && h[0] == (
            "Authorization"@,
            "Bearer "@ + key,
        ),
{
    reveal_strlit("bearer");
    reveal_strlit("query_key");
    reveal_strlit("volcengine_tts");
    reveal_strlit("x-api-key");
    assert("bearer"@.len() == 6);
    assert("query_key"@.len() == 9);
    assert("volcengine_tts"@.len() == 14);
    assert("x-api-key"@.len() == 9);
    assert("query_key"@[0] == 'q');
    assert("x-api-key"@[0] == 'x');
}

/// A task that is put to DashScope says that it is not waited for.
pub proof fn law_dashscope_headers(
    f: ForwardModel,
    key: Seq<char>,
    h: Seq<(Seq<char>, Seq<char>)>,
)
    requires
        f.target_type == "dashscope"@,
        f.auth_type == "bearer"@,
        h == auth_headers(f, key, true, None),
    ensures
        h.len() == 2 && h[0] == ("Authorization"@, "Bearer "@ + key) && h[1] == (
            "X-DashScope-Async"@,
            "enable"@,
        ),
{
    reveal_strlit("bearer");
    reveal_strlit("dashscope");
    reveal_strlit("kling");
    reveal_strlit("query_key");
    reveal_strlit("volcengine_tts");
    reveal_strlit("x-api-key");
    assert("bearer"@.len() == 6);
    assert("dashscope"@.len() == 9);
    assert("kling"@.len() == 5);
    assert("query_key"@.len() == 9);
    assert("volcengine_tts"@.len() == 14);
    assert("x-api-key"@.len() == 9);
    assert("dashscope"@[0] == 'd');
    assert("query_key"@[0] == 'q');
    assert("x-api-key"@[0] == 'x');
}

/// A Kling request with a bearer key carries a token made of it; no other
/// request does.
pub proof fn law_carries_token(f: ForwardModel)
    ensures
        f.target_type == "kling"@ && f.auth_type == "bearer"@ ==> carries_token(f),
        f.target_type != "kling"@ ==> !carries_token(f),
        f.auth_type == "x-api-key"@ || f.auth_type == "query_key"@ || f.auth_type
            == "volcengine_tts"@ ==> !carries_token(f),
{
    reveal_strlit("bearer");
    reveal_strlit("query_key");
    reveal_strlit("volcengine_tts");
    reveal_strlit("x-api-key");
    assert("bearer"@.len() == 6);
    assert("query_key"@.len() == 9);
    assert("volcengine_tts"@.len() == 14);
    assert("x-api-key"@.len() == 9);
    assert("query_key"@[0] == 'q');
    assert("x-api-key"@[0] == 'x');
}

/// A Kling key has two parts with a colon between them, and neither is empty.
pub proof fn law_kling_key(access: Seq<char>, secret: Seq<char>)
    requires
        !access.contains(':'),
    ensures
        access.len() > 0 && secret.len() > 0 ==> kling_key(access + seq![':'] + secret) == Some(
            (access, secret),
        ),
        access.len() == 0 || secret.len() == 0 ==> kling_key(access + seq![':'] + secret) is None,
        kling_key(access) is None,
{
    reveal_strlit(":");
    assert(":"@ =~= seq![':']);
    law_parted(access, ':', secret);
    law_not_parted(access, ':');
}

/// A Kling token names its issuer, holds from a moment before on and for half
/// an hour.
pub proof fn law_kling_claims(access: Seq<char>, now: int, c: Jv)
    requires
        c == kling_claims(access, now),
    ensures
        text_at(c, "iss"@) == Some(access),
        c.member("exp"@) == Some(Jv::Int(now + 30 * 60)),
        c.member("nbf"@) == Some(Jv::Int(now - 5)),
{
    reveal_strlit("exp");
    reveal_strlit("iss");
    reveal_strlit("nbf");
    assert("exp"@.len() == 3);
    assert("iss"@.len() == 3);
    assert("nbf"@.len() == 3);
    assert("exp"@[0] == 'e');
    assert("iss"@[0] == 'i');
    assert("nbf"@[0] == 'n');
}

/// The value of a hexadecimal digit.
pub open spec fn hex_value(c: char) -> int {
    if '0' <= c <= '9' {
        c as int - '0' as int
    } else {
        c as int - 'a' as int + 10
    }
}

/// Each byte is two hexadecimal digits, the higher one first, in small letters.
pub proof fn law_hex(b: Seq<u8>, i: int)
    requires
        0 <= i < b.len(),
    ensures
        hex_text(b).len() == 2 * b.len(),
        16 * hex_value(hex_text(b)[2 * i]) + hex_value(hex_text(b)[2 * i + 1]) == b[i],
        '0' <= hex_text(b)[2 * i] <= '9' || 'a' <= hex_text(b)[2 * i] <= 'f',
        '0' <= hex_text(b)[2 * i + 1] <= '9' || 'a' <= hex_text(b)[2 * i + 1] <= 'f',
{
    let x = b[i] as int;
    assert((2 * i) / 2 == i && (2 * i) % 2 == 0);
    assert((2 * i + 1) / 2 == i && (2 * i + 1) % 2 == 1);
    lemma_hex_digit(x / 16);
    lemma_hex_digit(x % 16);
}

proof fn lemma_hex_digit(n: int)
    requires
        0 <= n < 16,
    ensures
        hex_value(hex_digit(n)) == n,
        '0' <= hex_digit(n) <= '9' || 'a' <= hex_digit(n) <= 'f',
{
}

/// A Tencent request is posted with the application it is for; any other as it
/// is.
pub proof fn law_posted_body(f: ForwardModel, key: Seq<char>, body: Jv, name: Seq<char>, r: Jv)
    requires
        body is Obj,
        r == posted_body(f, key, body),
    ensures
        f.target_type == "tencent_vod_image"@ || f.target_type == "tencent_vod_video"@ ==> r.member(
            "SubAppId"@,
        ) == Some(Jv::Int(tencent_key(key).2)),
        name != "SubAppId"@ ==> r.member(name) == body.member(name),
        f.target_type != "tencent_vod_image"@ && f.target_type != "tencent_vod_video"@ ==> r
            == body,
{
}

/// What is sent to whom: Tencent's interfaces are signed over the text that is
/// sent, Jimeng's text is signed by the sender, and any other carries its key.
pub proof fn law_posting(
    f: ForwardModel,
    id: Seq<char>,
    secret: Seq<char>,
    key: Seq<char>,
    body: Jv,
    at: int,
    date: Seq<char>,
    p: (Seq<(Seq<char>, Seq<char>)>, Option<Seq<char>>),
)
    requires
        p == posting(f, key, body, at, date),
        tencent_key(key).0 == id,
        tencent_key(key).1 == secret,
    ensures
        f.target_type == "tencent_vod_image"@ || f.target_type == "tencent_vod_video"@ ==> (
        p.1 matches Some(text) && text == json_text(posted_body(f, key, body)) && p.0.len() == 5
            && p.0[0] == ("content-type"@, "application/json"@) && p.0[1] == (
            "x-tc-action"@,
            if f.target_type == "tencent_vod_image"@ {
                "CreateAigcImageTask"@
            } else {
                "CreateAigcVideoTask"@
            },
        ) && p.0[2] == ("x-tc-version"@, "2018-07-17"@) && p.0[3] == ("x-tc-timestamp"@, shown(at))
            && p.0[4] == ("authorization"@, tc3_authorization(id, secret, text, at, date))),
        f.target_type == "jimeng_image"@ || f.target_type == "jimeng_video"@ ==> p.0.len() == 0
            && p.1 == Some(json_text(body)),
        f.target_type == "openai"@ || f.target_type == "kling"@ || f.target_type == "dashscope"@
            ==> p.1 is None && p.0 == auth_headers(f, key, true, kling_jwt(key, at)),
{
    reveal_strlit("dashscope");
    reveal_strlit("jimeng_image");
    reveal_strlit("jimeng_video");
    reveal_strlit("kling");
    reveal_strlit("openai");
    reveal_strlit("tencent_vod_image");
    reveal_strlit("tencent_vod_video");
    assert("dashscope"@.len() == 9);
    assert("jimeng_image"@.len() == 12);
    assert("jimeng_video"@.len() == 12);
    assert("kling"@.len() == 5);
    assert("openai"@.len() == 6);
    assert("tencent_vod_image"@.len() == 17);
    assert("tencent_vod_video"@.len() == 17);
    assert("jimeng_image"@[7] == 'i');
    assert("jimeng_video"@[7] == 'v');
    assert("tencent_vod_image"@[12] == 'i');
    assert("tencent_vod_video"@[12] == 'v');
}

/// What a Tencent signature is made over, line by line: the method, the moment
/// and the digest of the request; its key comes from the secret by the date,
/// the service and the kind of request, in this order.
pub proof fn law_tencent_signature(
    id: Seq<char>,
    secret: Seq<char>,
    body: Seq<char>,
    at: int,
    date: Seq<char>,
)
    ensures
        tc3_canonical(body)
            == "POST\n/\n\ncontent-type:application/json\nhost:vod.tencentcloudapi.com\n\ncontent-type;host\n"@
            + hex_text(sha256(utf8(body))),
        tc3_string_to_sign(body, at, date) == "TC3-HMAC-SHA256\n"@ + shown(at) + "\n"@ + date
            + "/vod/tc3_request"@ + "\n"@ + hex_text(sha256(utf8(tc3_canonical(body)))),
        tc3_signing_key(secret, date) == hmac_sha256_of(
            hmac_sha256_of(hmac_sha256_of(utf8("TC3"@ + secret), utf8(date)), utf8("vod"@)),
            utf8("tc3_request"@),
        ),
        tc3_authorization(id, secret, body, at, date) == "TC3-HMAC-SHA256 Credential="@ + id + "/"@
            + date + "/vod/tc3_request"@ + ", SignedHeaders=content-type;host, Signature="@
            + hex_text(
            hmac_sha256_of(
                tc3_signing_key(secret, date),
                utf8(tc3_string_to_sign(body, at, date)),
            ),
        ),
{
    let d = hex_text(sha256(utf8(tc3_canonical(body))));
    assert(tc3_string_to_sign(body, at, date) =~= "TC3-HMAC-SHA256\n"@ + shown(at) + "\n"@ + date
        + "/vod/tc3_request"@ + "\n"@ + d);
    let s = hex_text(
        hmac_sha256_of(tc3_signing_key(secret, date), utf8(tc3_string_to_sign(body, at, date))),
    );
    assert(tc3_authorization(id, secret, body, at, date) =~= "TC3-HMAC-SHA256 Credential="@ + id
        + "/"@ + date + "/vod/tc3_request"@ + ", SignedHeaders=content-type;host, Signature="@ + s);
}

proof fn lemma_not_prefixed(s: Seq<char>, host: Seq<char>, rest: Seq<char>)
    requires
        s == host + seq!['/'] + rest || s == host,
        !host.contains('/'),
        !host.contains(':'),
    ensures
        without_prefix(s, "https://"@) == s,
        without_prefix(s, "http://"@) == s,
{
    reveal_strlit("https://");
    reveal_strlit("http://");
    assert("https://"@[5] == ':' && "http://"@[4] == ':');
    assert("https://"@[4] == 's' && "http://"@[3] == 'p');
    assert forall|i: int| 0 <= i < "https://"@.len() && "https://"@[i] == '/' implies i >= 6 by {
        assert("https://"@[0] == 'h' && "https://"@[1] == 't' && "https://"@[2] == 't'
            && "https://"@[3] == 'p');
    }
    assert forall|i: int| 0 <= i < "http://"@.len() && "http://"@[i] == '/' implies i >= 5 by {
        assert("http://"@[0] == 'h' && "http://"@[1] == 't' && "http://"@[2] == 't');
    }
    if "https://"@.is_prefix_of(s) {
        lemma_colon_in_host(s, host, rest, "https://"@, 5);
    }
    if "http://"@.is_prefix_of(s) {
        lemma_colon_in_host(s, host, rest, "http://"@, 4);
    }
}

proof fn lemma_colon_in_host(s: Seq<char>, host: Seq<char>, rest: Seq<char>, p: Seq<char>, k: int)
    requires
        s == host + seq!['/'] + rest || s == host,
        p.is_prefix_of(s),
        0 <= k < p.len(),
        p[k] == ':',
        forall|i: int| 0 <= i < p.len() && #[trigger] p[i] == '/' ==> i > k,
    ensures
        host.contains(':'),
{
    assert(s.subrange(0, p.len() as int) =~= p);
    assert(s[k] == p[k]) by {
        assert(s.subrange(0, p.len() as int)[k] == s[k]);
    }
    if host.len() <= k {
        assert(s[host.len() as int] == '/');
        assert(s.subrange(0, p.len() as int)[host.len() as int] == s[host.len() as int]);
        assert(p[host.len() as int] == '/');
    }
    assert(host[k] == ':');
}

/// The host of an address is what stands between its scheme and the next
/// slash.
pub proof fn law_host(host: Seq<char>, rest: Seq<char>)
    requires
        !host.contains('/'),
        !host.contains(':'),
    ensures
        host_of("https://"@ + host + seq!['/'] + rest) == host,
        host_of("http://"@ + host + seq!['/'] + rest) == host,
        host_of("https://"@ + host) == host,
        host_of(host) == host,
{
    reveal_strlit("/");
    assert("/"@ =~= seq!['/']);
    let s = host + seq!['/'] + rest;
    lemma_not_prefixed(s, host, rest);
    lemma_not_prefixed(host, host, rest);
    law_pieces(host, '/', rest);
    law_not_parted(host, '/');
    reveal_strlit("https://");
    reveal_strlit("http://");
    assert("https://"@.len() == 8 && "http://"@.len() == 7);
    lemma_scheme("https://"@, s);
    lemma_scheme("https://"@, host);
    lemma_scheme("http://"@, s);
    let a = "http://"@ + s;
    assert(a[4] == ':');
    assert(!"https://"@.is_prefix_of(a)) by {
        if "https://"@.is_prefix_of(a) {
            assert(a.subrange(0, 8)[4] == 's');
        }
    }
    assert("https://"@ + host + seq!['/'] + rest =~= "https://"@ + s);
    assert("http://"@ + host + seq!['/'] + rest =~= a);
}

proof fn lemma_scheme(p: Seq<char>, s: Seq<char>)
    requires
        p.len() > 0,
        without_prefix(s, p) == s,
    ensures
        without_prefix(p + s, p) == s,
{
    assert((p + s).subrange(0, p.len() as int) =~= p);
    assert((p + s).skip(p.len() as int) =~= s);
}

} // verus!
