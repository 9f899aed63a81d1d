//! Authentication: keys, tokens, signatures and the headers that carry them.
use hmac::Mac;
use sha2::Digest;
use vstd::prelude::*;
use vstd::string::*;
use crate::clock::{now_seconds, today};
use crate::forward::{ForwardModel, ResolvedForward};
use crate::json::{
    json_text, opt_string, opt_text, single, stored_json, value_of, value_view, Json, Jv,
};
use crate::text::{
    contains, decimal, holds, law_decimal_round_trip, lemma_place_is, occurs_at, parse_u64, parted,
    pieces, replace, replaced, same, show_i64, shown, skip, split, split_once, starts_with, take,
};

verus! {

// ---------------------------------------------------------------- keys

/// The three parts of a Tencent key: id, secret and application; all empty
/// where it has fewer. An application that is no number is zero.
pub open spec fn tencent_key(api_key: Seq<char>) -> (Seq<char>, Seq<char>, int) {
    match parted(api_key, ":"@) {
        Some((id, rest)) => match parted(rest, ":"@) {
            Some((secret, app)) => (
                id,
                secret,
                match decimal(app, false, 0, u64::MAX as int) {
                    Some(n) => n,
                    None => 0,
                },
            ),
            None => (""@, ""@, 0),
        },
        None => (""@, ""@, 0),
    }
}

/// Splits a Tencent key into its three parts.
pub fn parse_tencent_vod_key(api_key: &str) -> (r: (&str, &str, u64))
    ensures
        (r.0@, r.1@, r.2 as int) == tencent_key(api_key@),
{
    match split_once(api_key, ":") {
        Some((id, rest)) => match split_once(rest, ":") {
            Some((secret, app)) => {
                let n: u64 = match parse_u64(app) {
                    Some(n) => n,
                    None => 0,
                };
                (id, secret, n)
            },
            None => ("", "", 0),
        },
        None => ("", "", 0),
    }
}

/// The two parts of a key; both empty where it has no colon.
pub open spec fn key_pair(api_key: Seq<char>) -> (Seq<char>, Seq<char>) {
    match parted(api_key, ":"@) {
        Some(p) => p,
        None => (""@, ""@),
    }
}

/// Splits a Jimeng key into its two parts.
pub fn parse_jimeng_key(api_key: &str) -> (r: (&str, &str))
    ensures
        (r.0@, r.1@) == key_pair(api_key@),
{
    match split_once(api_key, ":") {
        Some(p) => p,
        None => ("", ""),
    }
}

proof fn lemma_key_parted(a: Seq<char>, b: Seq<char>)
    requires
        !a.contains(':'),
    ensures
        parted(a + ":"@ + b, ":"@) == Some((a, b)),
{
    reveal_strlit(":");
    let s = a + ":"@ + b;
    let n = a.len() as int;
    assert(s.subrange(n, n + 1) =~= ":"@);
    assert(occurs_at(s, ":"@, n));
    assert forall|j: int| 0 <= j < n implies !occurs_at(s, ":"@, j) by {
        assert(s[j] == a[j]);
        assert(a.contains(a[j]));
        assert(s.subrange(j, j + 1)[0] == s[j]);
    }
    lemma_place_is(s, ":"@, n);
    assert(s.take(n) =~= a);
    assert(s.skip(n + 1) =~= b);
}

/// A key that is written with its parts and colons between them has these
/// parts: three for Tencent, two for Jimeng, whose last may hold colons.
pub proof fn law_key_parts(id: Seq<char>, secret: Seq<char>, app: int)
    requires
        !id.contains(':'),
        0 <= app <= u64::MAX,
    ensures
        !secret.contains(':') ==> tencent_key(id + ":"@ + secret + ":"@ + shown(app)) == (
            id,
            secret,
            app,
        ),
        key_pair(id + ":"@ + secret) == (id, secret),
{
    let rest = secret + ":"@ + shown(app);
    lemma_key_parted(id, rest);
    assert(id + ":"@ + secret + ":"@ + shown(app) =~= id + ":"@ + rest);
    if !secret.contains(':') {
        lemma_key_parted(secret, shown(app));
    }
    lemma_key_parted(id, secret);
    law_decimal_round_trip(app, 0, u64::MAX as int);
}

/// What stands for a key: its first and last four characters round six stars,
/// or the stars alone where it has eight characters or fewer.
pub open spec fn masked(api_key: Seq<char>) -> Seq<char> {
    if api_key.len() > 8 {
        api_key.take(4) + "******"@ + api_key.skip(api_key.len() - 4)
    } else {
        "******"@
    }
}

/// A text with a key hidden in it.
pub open spec fn key_hidden(text: Seq<char>, api_key: Seq<char>) -> Seq<char> {
    if api_key.len() == 0 || !holds(text, api_key) {
        text
    } else {
        replaced(text, api_key, masked(api_key))
    }
}

/// Hides a key in a text.
pub fn mask_key_in_string(text: &str, api_key: &str) -> (r: String)
    ensures
        r@ == key_hidden(text@, api_key@),
{
    if api_key.is_empty() || !contains(text, api_key) {
        return text.to_owned();
    }
    let n: usize = api_key.unicode_len();
    let mask = if n > 8 {
        let mut m = take(api_key, 4).to_owned();
        m.append("******");
        m.append(skip(api_key, n - 4));
        m
    } else {
        "******".to_owned()
    };
    replace(text, api_key, mask.as_str())
}

/// Whether a key ends as it begins, in one to four characters.
pub open spec fn ends_as_it_begins(key: Seq<char>) -> bool {
    exists|m: int| 1 <= m <= 4 && m <= key.len() && #[trigger] key.take(m) == key.skip(key.len() - m)
}

proof fn lemma_masked(key: Seq<char>)
    ensures
        key.len() <= 8 ==> masked(key).len() == 6 && forall|i: int|
            0 <= i < 6 ==> #[trigger] masked(key)[i] == '*',
        key.len() > 8 ==> masked(key).len() == 14 && (forall|i: int|
            4 <= i < 10 ==> #[trigger] masked(key)[i] == '*') && masked(key).take(4) == key.take(4)
            && masked(key).skip(10) == key.skip(key.len() - 4),
{
    reveal_strlit("******");
    assert(masked(key).len() >= 6);
    if key.len() > 8 {
        assert(masked(key).take(4) =~= key.take(4));
        assert(masked(key).skip(10) =~= key.skip(key.len() - 4));
    }
}

/// What begins a text with a key hidden, up to the first star, begins the text.
proof fn lemma_begins(s: Seq<char>, key: Seq<char>, w: Seq<char>)
    requires
        key.len() > 0,
        !w.contains('*'),
        w.is_prefix_of(replaced(s, key, masked(key))),
    ensures
        w.is_prefix_of(s),
    decreases s.len(),
{
    let r = replaced(s, key, masked(key));
    assert forall|i: int| 0 <= i < w.len() implies w[i] == r[i] && w[i] != '*' by {
        assert(w[i] == r.take(w.len() as int)[i]);
        assert(w.contains(w[i]));
    }
    if s.len() == 0 {
    } else if key.is_prefix_of(s) {
        lemma_masked(key);
        let m = masked(key);
        if key.len() > 8 {
            if w.len() > 4 {
                assert(w[4] == m[4]);
            }
            assert forall|i: int| 0 <= i < w.len() implies w[i] == s[i] by {
                assert(m[i] == m.take(4)[i]);
                assert(key[i] == key.take(4)[i]);
                assert(key[i] == s.take(key.len() as int)[i]);
            }
        } else if w.len() > 0 {
            assert(w[0] == m[0]);
        }
        assert(w =~= s.take(w.len() as int));
    } else {
        if w.len() > 0 {
            let rest = replaced(s.skip(1), key, masked(key));
            assert(r[0] == s[0]);
            assert(w.skip(1) =~= rest.take(w.len() - 1)) by {
                assert forall|i: int| 0 <= i < w.len() - 1 implies w.skip(1)[i] == rest[i] by {
                    assert(w[i + 1] == r[i + 1]);
                }
            }
            assert(!w.skip(1).contains('*')) by {
                if w.skip(1).contains('*') {
                    let i = choose|i: int| 0 <= i < w.skip(1).len() && w.skip(1)[i] == '*';
                    assert(w[i + 1] == '*');
                }
            }
            lemma_begins(s.skip(1), key, w.skip(1));
            assert(w =~= s.take(w.len() as int)) by {
                assert forall|i: int| 0 <= i < w.len() implies w[i] == s[i] by {
                    if i > 0 {
                        assert(w[i] == w.skip(1)[i - 1]);
                        assert(w.skip(1)[i - 1] == s.skip(1).take(w.len() - 1)[i - 1]);
                    }
                }
            }
        } else {
            assert(w =~= s.take(0));
        }
    }
}

proof fn lemma_hidden(s: Seq<char>, key: Seq<char>, i: int)
    requires
        key.len() > 0,
        !key.contains('*'),
        key.len() > 8 ==> !ends_as_it_begins(key),
    ensures
        !occurs_at(replaced(s, key, masked(key)), key, i),
    decreases s.len(), 0int,
{
    let n = key.len() as int;
    let m = masked(key);
    let r = replaced(s, key, m);
    lemma_masked(key);
    if occurs_at(r, key, i) {
        assert forall|k: int| 0 <= k < n implies r[i + k] == key[k] && key[k] != '*' by {
            assert(r.subrange(i, i + n)[k] == key[k]);
            assert(key.contains(key[k]));
        }
        if s.len() == 0 {
        } else if key.is_prefix_of(s) {
            let rest = replaced(s.skip(n), key, m);
            if n > 8 {
                if i < 10 {
                    let k = if i <= 4 {
                        4 - i
                    } else {
                        0
                    };
                    assert(r[i + k] == m[i + k]);
                    assert(m[i + k] == '*');
                    assert(r[i + k] == key[k]);
                } else {
                    lemma_hidden_behind(s.skip(n), key, i - 10);
                    let tail = key.skip(n - 4) + rest;
                    assert(tail.subrange(i - 10, i - 10 + n) =~= key) by {
                        assert forall|k: int| 0 <= k < n implies tail[i - 10 + k] == key[k] by {
                            let at = i + k;
                            if at < 14 {
                                assert(r[at] == m[at]);
                                assert(m.skip(10)[at - 10] == m[at]);
                            } else {
                                assert(r[at] == rest[at - 14]);
                            }
                        }
                    }
                }
            } else if i < 6 {
                assert(r[i] == m[i]);
                assert(r[i + 0] == key[0]);
            } else {
                lemma_hidden(s.skip(n), key, i - 6);
                assert(rest.subrange(i - 6, i - 6 + n) =~= r.subrange(i, i + n));
            }
        } else {
            let rest = replaced(s.skip(1), key, m);
            if i > 0 {
                lemma_hidden(s.skip(1), key, i - 1);
                assert(rest.subrange(i - 1, i - 1 + n) =~= r.subrange(i, i + n));
            } else {
                assert(key =~= r.take(n));
                lemma_begins(s, key, key);
            }
        }
    }
}

proof fn lemma_hidden_behind(s: Seq<char>, key: Seq<char>, i: int)
    requires
        key.len() > 8,
        !key.contains('*'),
        !ends_as_it_begins(key),
    ensures
        !occurs_at(key.skip(key.len() - 4) + replaced(s, key, masked(key)), key, i),
    decreases s.len(), 1int,
{
    let n = key.len() as int;
    let r = replaced(s, key, masked(key));
    let b = key.skip(n - 4);
    let t = b + r;
    if occurs_at(t, key, i) {
        assert forall|k: int| 0 <= k < n implies t[i + k] == key[k] by {
            assert(t.subrange(i, i + n)[k] == key[k]);
        }
        if i >= 4 {
            assert(r.subrange(i - 4, i - 4 + n) =~= key);
            lemma_hidden(s, key, i - 4);
        } else {
            let len = 4 - i;
            assert(key.take(len) =~= key.skip(n - len)) by {
                assert forall|k: int| 0 <= k < len implies #[trigger] key[k] == key[n - len + k] by {
                    assert(t[i + k] == b[i + k]);
                }
            }
            assert(ends_as_it_begins(key));
        }
    }
}

/// A text without the key stays as it is. Where the key was hidden it does not
/// stand any more, if it has no star and, being longer than eight characters,
/// does not end as it begins.
pub proof fn law_mask_key(text: Seq<char>, api_key: Seq<char>)
    requires
        api_key.len() > 0,
    ensures
        !holds(text, api_key) ==> key_hidden(text, api_key) == text,
        !api_key.contains('*') && (api_key.len() > 8 ==> !ends_as_it_begins(api_key)) ==> !holds(
            key_hidden(text, api_key),
            api_key,
        ),
{
    if holds(text, api_key) && !api_key.contains('*') && (api_key.len() > 8 ==> !ends_as_it_begins(
        api_key,
    )) {
        assert forall|i: int| !occurs_at(replaced(text, api_key, masked(api_key)), api_key, i) by {
            lemma_hidden(text, api_key, i);
        }
    }
}

// ---------------------------------------------------------------- Kling tokens

/// What `jsonwebtoken::encode` makes of claims with HS256 and a secret.
pub uninterp spec fn hs256_token(claims: Jv, secret: Seq<char>) -> Option<Seq<char>>;

/// `jsonwebtoken::encode` with the HS256 header and
/// `jsonwebtoken::EncodingKey::from_secret`: the signed token of the claims,
/// which they and the secret determine.
#[verifier::external_body]
fn sign_hs256(claims: &serde_json::Value, secret: &str) -> (r: Option<String>)
    ensures
        opt_string(r) == hs256_token(value_view(*claims), secret@),
{
    jsonwebtoken::encode(
        &jsonwebtoken::Header::new(jsonwebtoken::Algorithm::HS256),
        claims,
        &jsonwebtoken::EncodingKey::from_secret(secret.as_bytes()),
    ).ok()
}

/// The claims of a token: good from five seconds ago, for half an hour.
pub open spec fn kling_claims(access_key: Seq<char>, now: int) -> Jv {
    single("iss"@, Jv::Str(access_key)).with("exp"@, Jv::Int(now + 1800)).with(
        "nbf"@,
        Jv::Int(now - 5),
    )
}

/// The access key and the secret of a Kling key, where it has both.
pub open spec fn kling_key(api_key: Seq<char>) -> Option<(Seq<char>, Seq<char>)> {
    match parted(api_key, ":"@) {
        Some((ak, sk)) => if ak.len() > 0 && sk.len() > 0 {
            Some((ak, sk))
        } else {
            None
        },
        None => None,
    }
}

/// The token for a key at a time; none where the key has no two parts.
pub open spec fn kling_jwt(api_key: Seq<char>, now: int) -> Option<Seq<char>> {
    match kling_key(api_key) {
        Some((ak, sk)) => hs256_token(stored_json(kling_claims(ak, now)), sk),
        None => None,
    }
}

/// Makes the claims of a token.
pub fn make_kling_claims(access_key: &str, now: i64) -> (r: Json)
    ensures
        r@ == kling_claims(access_key@, now as int),
{
    Json::empty().with("iss", Json::text(access_key)).with("exp", Json::Int(now as i128 + 1800)).with(
        "nbf",
        Json::Int(now as i128 - 5),
    )
}

/// Makes the token for a key at a time, in seconds since the epoch.
pub fn kling_token(api_key: &str, now: i64) -> (r: Option<String>)
    ensures
        opt_string(r) == kling_jwt(api_key@, now as int),
{
    match split_once(api_key, ":") {
        Some((ak, sk)) => {
            if ak.is_empty() || sk.is_empty() {
                return None;
            }
            let claims = make_kling_claims(ak, now);
            let v = value_of(&claims);
            sign_hs256(&v, sk)
        },
        None => None,
    }
}

/// Makes the token for a key, for the present time.
pub fn generate_kling_jwt(api_key: &str) -> (r: Option<String>)
    ensures
        exists|now: i64| opt_string(r) == kling_jwt(api_key@, now as int),
        kling_key(api_key@) is None ==> r is None,
{
    let now = now_seconds();
    let token = kling_token(api_key, now);
    assert(opt_string(token) == kling_jwt(api_key@, now as int));
    token
}

// ---------------------------------------------------------------- headers

/// Headers, as pairs of name and value.
pub open spec fn header_views(s: Seq<(String, String)>) -> Seq<(Seq<char>, Seq<char>)> {
    s.map_values(|h: (String, String)| (h.0@, h.1@))
}

fn push_header(headers: &mut Vec<(String, String)>, name: &str, value: &str)
    ensures
        header_views(final(headers)@) == header_views(old(headers)@).push((name@, value@)),
{
    let ghost before = headers@;
    headers.push((name.to_owned(), value.to_owned()));
    proof {
        assert(header_views(headers@) =~= header_views(before).push((name@, value@)));
    }
}

/// The headers that carry a key: in a header of its own, not at all (where it
/// stands in the address), or as a bearer token; the flat Kling protocol
/// carries its token instead, where there is one.
pub open spec fn key_headers(
    f: ForwardModel,
    api_key: Seq<char>,
    token: Option<Seq<char>>,
) -> Seq<(Seq<char>, Seq<char>)> {
    if f.auth_type == "x-api-key"@ {
        seq![("x-api-key"@, api_key), ("anthropic-version"@, "2023-06-01"@)]
    } else if f.auth_type == "query_key"@ {
        Seq::empty()
    } else if f.auth_type == "volcengine_tts"@ {
        seq![("X-Api-Key"@, api_key)]
    } else if f.target_type == "kling"@ && token is Some {
        seq![("Authorization"@, "Bearer "@ + token->Some_0)]
    } else {
        seq![("Authorization"@, "Bearer "@ + api_key)]
    }
}

/// The headers of a request. A DashScope task is submitted as an asynchronous
/// one.
pub open spec fn auth_headers(
    f: ForwardModel,
    api_key: Seq<char>,
    is_post: bool,
    token: Option<Seq<char>>,
) -> Seq<(Seq<char>, Seq<char>)> {
    if f.target_type == "dashscope"@ && is_post {
        key_headers(f, api_key, token).push(("X-DashScope-Async"@, "enable"@))
    } else {
        key_headers(f, api_key, token)
    }
}

fn bearer(token: &str) -> (r: String)
    ensures
        r@ == "Bearer "@ + token@,
{
    let mut s = "Bearer ".to_owned();
    s.append(token);
    s
}

/// Makes the headers of a request, given the Kling token of its key.
pub fn make_auth_headers(
    resolved: &ResolvedForward,
    api_key: &str,
    is_post: bool,
    token: Option<&str>,
) -> (r: Vec<(String, String)>)
    ensures
        header_views(r@) == auth_headers(resolved@, api_key@, is_post, opt_text(token)),
{
    let auth = resolved.auth_type.as_str();
    let mut headers: Vec<(String, String)> = Vec::new();
    let ghost empty = header_views(headers@);
    proof {
        assert(empty =~= Seq::<(Seq<char>, Seq<char>)>::empty());
    }
    if same(auth, "x-api-key") {
        push_header(&mut headers, "x-api-key", api_key);
        push_header(&mut headers, "anthropic-version", "2023-06-01");
    } else if same(auth, "query_key") {
    } else if same(auth, "volcengine_tts") {
        push_header(&mut headers, "X-Api-Key", api_key);
    } else {
        let value = match token {
            Some(t) => if same(resolved.target_type.as_str(), "kling") {
                bearer(t)
            } else {
                bearer(api_key)
            },
            None => bearer(api_key),
        };
        push_header(&mut headers, "Authorization", value.as_str());
    }
    proof {
        assert(header_views(headers@) =~= key_headers(resolved@, api_key@, opt_text(token)));
    }
    if same(resolved.target_type.as_str(), "dashscope") && is_post {
        push_header(&mut headers, "X-DashScope-Async", "enable");
    }
    headers
}

/// Whether the headers of a request carry a Kling token.
pub open spec fn carries_token(f: ForwardModel) -> bool {
    f.target_type == "kling"@ && f.auth_type != "x-api-key"@ && f.auth_type != "query_key"@
        && f.auth_type != "volcengine_tts"@
}

/// Makes the headers of a request; a Kling token is made for the present time.
pub fn build_auth_headers(resolved: &ResolvedForward, api_key: &str, is_post: bool) -> (r: Vec<
    (String, String),
>)
    ensures
        exists|now: i64|
            header_views(r@) == auth_headers(
                resolved@,
                api_key@,
                is_post,
                kling_jwt(api_key@, now as int),
            ),
        !carries_token(resolved@) ==> header_views(r@) == auth_headers(
            resolved@,
            api_key@,
            is_post,
            None,
        ),
{
    let now = now_seconds();
    let token = kling_token(api_key, now);
    let headers = match &token {
        Some(t) => make_auth_headers(resolved, api_key, is_post, Some(t.as_str())),
        None => make_auth_headers(resolved, api_key, is_post, None),
    };
    assert(header_views(headers@) == auth_headers(
        resolved@,
        api_key@,
        is_post,
        kling_jwt(api_key@, now as int),
    ));
    headers
}

// ---------------------------------------------------------------- Tencent signatures

/// What SHA-256 gives for bytes.
pub uninterp spec fn sha256(b: Seq<u8>) -> Seq<u8>;

/// What HMAC-SHA-256 gives for a key and a message.
pub uninterp spec fn hmac_sha256_of(key: Seq<u8>, msg: Seq<u8>) -> Seq<u8>;

/// `sha2::Sha256::digest`: the SHA-256 of bytes.
#[verifier::external_body]
fn digest(b: &[u8]) -> (r: Vec<u8>)
    ensures
        r@ == sha256(b@),
{
    sha2::Sha256::digest(b).to_vec()
}

/// `hmac::Hmac` over `sha2::Sha256`: the code of a message under a key, of
/// any length.
#[verifier::external_body]
fn hmac_sha256(key: &[u8], msg: &[u8]) -> (r: Vec<u8>)
    ensures
        r@ == hmac_sha256_of(key@, msg@),
{
    let mut mac = hmac::Hmac::<sha2::Sha256>::new_from_slice(key).expect("HMAC key");
    mac.update(msg);
    mac.finalize().into_bytes().to_vec()
}

/// The hexadecimal digit of a number below sixteen.
pub open spec fn hex_digit(n: int) -> char {
    if n < 10 {
        ((n + 48) as u8) as char
    } else {
        ((n + 87) as u8) as char
    }
}

/// Bytes in hexadecimal, in small letters.
pub open spec fn hex_text(b: Seq<u8>) -> Seq<char> {
    Seq::new(
        2 * b.len(),
        |i: int|
            if i % 2 == 0 {
                hex_digit(b[i / 2] as int / 16)
            } else {
                hex_digit(b[i / 2] as int % 16)
            },
    )
}

/// `hex::encode`: each byte as two hexadecimal digits, in small letters.
#[verifier::external_body]
fn hex_encode(b: &[u8]) -> (r: String)
    ensures
        r@ == hex_text(b@),
{
    hex::encode(b)
}

/// The UTF-8 bytes of a text.
pub open spec fn utf8(s: Seq<char>) -> Seq<u8> {
    vstd::utf8::encode_utf8(s)
}

/// The request that is signed: a post of a JSON body to the VOD interface.
pub open spec fn tc3_canonical(body: Seq<char>) -> Seq<char> {
    "POST\n/\n\ncontent-type:application/json\nhost:vod.tencentcloudapi.com\n\ncontent-type;host\n"@
        + hex_text(sha256(utf8(body)))
}

/// The scope of a signature.
pub open spec fn tc3_scope(date: Seq<char>) -> Seq<char> {
    date + "/vod/tc3_request"@
}

/// The text that is signed.
pub open spec fn tc3_string_to_sign(body: Seq<char>, timestamp: int, date: Seq<char>) -> Seq<char> {
    "TC3-HMAC-SHA256\n"@ + shown(timestamp) + "\n"@ + tc3_scope(date) + "\n"@ + hex_text(
        sha256(utf8(tc3_canonical(body))),
    )
}

/// The key of a signature: the secret, narrowed to the date, the service and
/// the request.
pub open spec fn tc3_signing_key(secret_key: Seq<char>, date: Seq<char>) -> Seq<u8> {
    hmac_sha256_of(
        hmac_sha256_of(hmac_sha256_of(utf8("TC3"@ + secret_key), utf8(date)), utf8("vod"@)),
        utf8("tc3_request"@),
    )
}

/// The authorization of a request.
pub open spec fn tc3_authorization(
    secret_id: Seq<char>,
    secret_key: Seq<char>,
    body: Seq<char>,
    timestamp: int,
    date: Seq<char>,
) -> Seq<char> {
    "TC3-HMAC-SHA256 Credential="@ + secret_id + "/"@ + tc3_scope(date)
        + ", SignedHeaders=content-type;host, Signature="@ + hex_text(
        hmac_sha256_of(
            tc3_signing_key(secret_key, date),
            utf8(tc3_string_to_sign(body, timestamp, date)),
        ),
    )
}

/// The headers of a signed request.
pub open spec fn tc3_headers(
    secret_id: Seq<char>,
    secret_key: Seq<char>,
    action: Seq<char>,
    body: Seq<char>,
    timestamp: int,
    date: Seq<char>,
) -> Seq<(Seq<char>, Seq<char>)> {
    seq![
        ("content-type"@, "application/json"@),
        ("x-tc-action"@, action),
        ("x-tc-version"@, "2018-07-17"@),
        ("x-tc-timestamp"@, shown(timestamp)),
        ("authorization"@, tc3_authorization(secret_id, secret_key, body, timestamp, date)),
    ]
}

fn hash_text(s: &str) -> (r: String)
    ensures
        r@ == hex_text(sha256(utf8(s@))),
{
    let d = digest(s.as_bytes());
    hex_encode(d.as_slice())
}

fn signature_of(secret_key: &str, body: &str, timestamp: i64, date: &str) -> (r: String)
    ensures
        r@ == hex_text(
            hmac_sha256_of(
                tc3_signing_key(secret_key@, date@),
                utf8(tc3_string_to_sign(body@, timestamp as int, date@)),
            ),
        ),
{
    let payload = hash_text(body);
    let mut canonical =
        "POST\n/\n\ncontent-type:application/json\nhost:vod.tencentcloudapi.com\n\ncontent-type;host\n".to_owned();
    canonical.append(payload.as_str());
    let hashed = hash_text(canonical.as_str());
    let time = show_i64(timestamp);
    let mut to_sign = "TC3-HMAC-SHA256\n".to_owned();
    to_sign.append(time.as_str());
    to_sign.append("\n");
    let scope = scope_of(date);
    to_sign.append(scope.as_str());
    to_sign.append("\n");
    to_sign.append(hashed.as_str());
    let mut seed = "TC3".to_owned();
    seed.append(secret_key);
    let by_date = hmac_sha256(seed.as_str().as_bytes(), date.as_bytes());
    let by_service = hmac_sha256(by_date.as_slice(), "vod".as_bytes());
    let signing = hmac_sha256(by_service.as_slice(), "tc3_request".as_bytes());
    let code = hmac_sha256(signing.as_slice(), to_sign.as_str().as_bytes());
    hex_encode(code.as_slice())
}

fn scope_of(date: &str) -> (r: String)
    ensures
        r@ == tc3_scope(date@),
{
    let mut scope = date.to_owned();
    scope.append("/vod/tc3_request");
    scope
}

/// Makes the headers of a signed request, for a time and its date.
pub fn tencent_headers_at(
    secret_id: &str,
    secret_key: &str,
    action: &str,
    body: &str,
    timestamp: i64,
    date: &str,
) -> (r: Vec<(String, String)>)
    ensures
        header_views(r@) == tc3_headers(
            secret_id@,
            secret_key@,
            action@,
            body@,
            timestamp as int,
            date@,
        ),
{
    let signature = signature_of(secret_key, body, timestamp, date);
    let scope = scope_of(date);
    let mut authorization = "TC3-HMAC-SHA256 Credential=".to_owned();
    authorization.append(secret_id);
    authorization.append("/");
    authorization.append(scope.as_str());
    authorization.append(", SignedHeaders=content-type;host, Signature=");
    authorization.append(signature.as_str());
    let time = show_i64(timestamp);
    let mut headers: Vec<(String, String)> = Vec::new();
    push_header(&mut headers, "content-type", "application/json");
    push_header(&mut headers, "x-tc-action", action);
    push_header(&mut headers, "x-tc-version", "2018-07-17");
    push_header(&mut headers, "x-tc-timestamp", time.as_str());
    push_header(&mut headers, "authorization", authorization.as_str());
    proof {
        assert(header_views(headers@) =~= tc3_headers(
            secret_id@,
            secret_key@,
            action@,
            body@,
            timestamp as int,
            date@,
        ));
    }
    headers
}

/// Makes the headers of a signed request, for the present time. The body has
/// to be the text that is sent.
pub fn build_tencent_vod_headers(
    secret_id: &str,
    secret_key: &str,
    action: &str,
    body: &str,
) -> (r: Vec<(String, String)>)
    ensures
        exists|timestamp: i64, date: Seq<char>|
            header_views(r@) == #[trigger] tc3_headers(
                secret_id@,
                secret_key@,
                action@,
                body@,
                timestamp as int,
                date,
            ),
{
    let timestamp = now_seconds();
    let date = today();
    let r = tencent_headers_at(secret_id, secret_key, action, body, timestamp, date.as_str());
    assert(header_views(r@) == tc3_headers(
        secret_id@,
        secret_key@,
        action@,
        body@,
        timestamp as int,
        date@,
    ));
    r
}

// ---------------------------------------------------------------- Jimeng signatures

/// A Jimeng signature needs a part that this deployment does not have: no
/// header is made.
pub fn build_jimeng_headers(
    access_key: &str,
    secret_key: &str,
    action: &str,
    body: &str,
    base_url: &str,
) -> (r: Vec<(String, String)>)
    ensures
        r@.len() == 0,
{
    Vec::new()
}

/// A Volcengine signature: the authorization, the date and the hash of the
/// body that it was made for.
pub struct VolcSignature {
    pub authorization: String,
    pub x_date: String,
    pub payload_hash: String,
}

/// A text without any number of prefixes.
pub open spec fn without_prefix(s: Seq<char>, p: Seq<char>) -> Seq<char>
    decreases s.len(),
{
    if p.len() > 0 && p.is_prefix_of(s) {
        without_prefix(s.skip(p.len() as int), p)
    } else {
        s
    }
}

fn cut_prefix<'a>(s: &'a str, p: &str) -> (r: &'a str)
    requires
        p@.len() > 0,
    ensures
        r@ == without_prefix(s@, p@),
    decreases s@.len(),
{
    if starts_with(s, p) {
        let n: usize = p.unicode_len();
        cut_prefix(skip(s, n), p)
    } else {
        s
    }
}

/// The host of an address: what stands before the first slash, without the
/// scheme.
pub open spec fn host_of(base_url: Seq<char>) -> Seq<char> {
    pieces(without_prefix(without_prefix(base_url, "https://"@), "http://"@), "/"@)[0]
}

/// The host that a Jimeng request is signed for.
pub fn jimeng_host(base_url: &str) -> (r: &str)
    ensures
        r@ == host_of(base_url@),
{
    proof {
        reveal_strlit("https://");
        reveal_strlit("http://");
        reveal_strlit("/");
    }
    let a = cut_prefix(base_url, "https://");
    let b = cut_prefix(a, "http://");
    let parts = split(b, "/");
    let first = parts[0];
    assert(first@ == pieces(b@, "/"@)[0]);
    first
}

/// The query that a Jimeng request is signed for.
pub fn jimeng_query(action: &str) -> (r: String)
    ensures
        r@ == "Action="@ + action@ + "&Version=2022-08-31"@,
{
    let mut q = "Action=".to_owned();
    q.append(action);
    q.append("&Version=2022-08-31");
    q
}

/// The headers that carry a Volcengine signature.
pub fn jimeng_signed_headers(sig: &VolcSignature) -> (r: Vec<(String, String)>)
    ensures
        header_views(r@) == seq![
            ("X-Date"@, sig.x_date@),
            ("X-Content-Sha256"@, sig.payload_hash@),
            ("Authorization"@, sig.authorization@),
        ],
{
    let mut headers: Vec<(String, String)> = Vec::new();
    push_header(&mut headers, "X-Date", sig.x_date.as_str());
    push_header(&mut headers, "X-Content-Sha256", sig.payload_hash.as_str());
    push_header(&mut headers, "Authorization", sig.authorization.as_str());
    proof {
        assert(header_views(headers@) =~= seq![
            ("X-Date"@, sig.x_date@),
            ("X-Content-Sha256"@, sig.payload_hash@),
            ("Authorization"@, sig.authorization@),
        ]);
    }
    headers
}

// ---------------------------------------------------------------- posting

/// What is posted: the headers, and the body as the signed text or as JSON.
pub struct Posting {
    pub headers: Vec<(String, String)>,
    /// The text of the body, where it was signed; otherwise the JSON body is
    /// sent as it is.
    pub signed_body: Option<String>,
}

/// The action of a Tencent request.
pub open spec fn tencent_action(target: Seq<char>) -> Seq<char> {
    if target == "tencent_vod_image"@ {
        "CreateAigcImageTask"@
    } else {
        "CreateAigcVideoTask"@
    }
}

/// Whether a target is a Tencent one.
pub open spec fn is_tencent(target: Seq<char>) -> bool {
    target == "tencent_vod_image"@ || target == "tencent_vod_video"@
}

/// Whether a target is a Jimeng one.
pub open spec fn is_jimeng(target: Seq<char>) -> bool {
    target == "jimeng_image"@ || target == "jimeng_video"@
}

/// The body that is posted: a Tencent request names its application.
pub open spec fn posted_body(f: ForwardModel, api_key: Seq<char>, body: Jv) -> Jv {
    if is_tencent(f.target_type) {
        body.with("SubAppId"@, Jv::Int(tencent_key(api_key).2))
    } else {
        body
    }
}

/// What is posted at a time: Tencent and Jimeng requests are sent as the text
/// that was signed, any other as JSON with the headers of its key.
pub open spec fn posting(
    f: ForwardModel,
    api_key: Seq<char>,
    body: Jv,
    timestamp: int,
    date: Seq<char>,
) -> (Seq<(Seq<char>, Seq<char>)>, Option<Seq<char>>) {
    let sent = posted_body(f, api_key, body);
    if is_tencent(f.target_type) {
        let (id, secret, _) = tencent_key(api_key);
        (
            tc3_headers(
                id,
                secret,
                tencent_action(f.target_type),
                json_text(sent),
                timestamp,
                date,
            ),
            Some(json_text(sent)),
        )
    } else if is_jimeng(f.target_type) {
        (Seq::empty(), Some(json_text(sent)))
    } else {
        (auth_headers(f, api_key, true, kling_jwt(api_key, timestamp)), None)
    }
}

/// Prepares a post at a time.
pub fn request_auth_at(
    resolved: &ResolvedForward,
    api_key: &str,
    upstream_body: &mut Json,
    base_url: &str,
    timestamp: i64,
    date: &str,
) -> (r: Posting)
    requires
        is_tencent(resolved@.target_type) ==> old(upstream_body)@.assignable(),
    ensures
        final(upstream_body)@ == posted_body(resolved@, api_key@, old(upstream_body)@),
        (header_views(r.headers@), opt_string(r.signed_body)) == posting(
            resolved@,
            api_key@,
            old(upstream_body)@,
            timestamp as int,
            date@,
        ),
{
    let t = resolved.target_type.as_str();
    if same(t, "tencent_vod_image") || same(t, "tencent_vod_video") {
        let action = if same(t, "tencent_vod_image") {
            "CreateAigcImageTask"
        } else {
            "CreateAigcVideoTask"
        };
        let (id, secret, app) = parse_tencent_vod_key(api_key);
        upstream_body.set("SubAppId", Json::Int(app as i128));
        let text = upstream_body.to_text();
        let headers = tencent_headers_at(id, secret, action, text.as_str(), timestamp, date);
        Posting { headers, signed_body: Some(text) }
    } else if same(t, "jimeng_image") || same(t, "jimeng_video") {
        let (ak, sk) = parse_jimeng_key(api_key);
        let text = upstream_body.to_text();
        let headers = build_jimeng_headers(
            ak,
            sk,
            "CVSync2AsyncSubmitTask",
            text.as_str(),
            base_url,
        );
        proof {
            assert(header_views(headers@) =~= Seq::<(Seq<char>, Seq<char>)>::empty());
        }
        Posting { headers, signed_body: Some(text) }
    } else {
        let token = kling_token(api_key, timestamp);
        let headers = match &token {
            Some(k) => make_auth_headers(resolved, api_key, true, Some(k.as_str())),
            None => make_auth_headers(resolved, api_key, true, None),
        };
        Posting { headers, signed_body: None }
    }
}

/// Prepares a post for the present time: the headers that authenticate it and
/// the body as it is to be sent.
pub fn apply_request_auth(
    resolved: &ResolvedForward,
    api_key: &str,
    upstream_body: &mut Json,
    base_url: &str,
) -> (r: Posting)
    requires
        is_tencent(resolved@.target_type) ==> old(upstream_body)@.assignable(),
    ensures
        final(upstream_body)@ == posted_body(resolved@, api_key@, old(upstream_body)@),
        exists|timestamp: i64, date: Seq<char>|
            (header_views(r.headers@), opt_string(r.signed_body)) == #[trigger] posting(
                resolved@,
                api_key@,
                old(upstream_body)@,
                timestamp as int,
                date,
            ),
{
    let timestamp = now_seconds();
    let date = today();
    let r = request_auth_at(resolved, api_key, upstream_body, base_url, timestamp, date.as_str());
    assert((header_views(r.headers@), opt_string(r.signed_body)) == posting(
        resolved@,
        api_key@,
        old(upstream_body)@,
        timestamp as int,
        date@,
    ));
    r
}

} // verus!
