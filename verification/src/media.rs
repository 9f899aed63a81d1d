//! Media references in a request body: images, videos and audios, given as
//! plain addresses, as base64 data or as objects with a role.
use base64::Engine;
use vstd::prelude::*;
use vstd::string::*;
use crate::json::{
    filled, names, opt_filled, opt_str, opt_text, or_get, or_member, text_at, text_in, texts, views,
    Json, Jv,
};
use crate::text::{
    after_prefix, byte_count, byte_len, contains, holds, parted, pieces, same, skip, split,
    split_once, starts_with, strip_prefix, trim, trimmed,
};

verus! {

// ---------------------------------------------------------------- collecting

/// The media that a value lists: a text is one, an array lists its elements.
pub open spec fn listed(v: Jv) -> Seq<Jv> {
    match v {
        Jv::Str(_) => seq![v],
        Jv::Arr(a) => a,
        _ => Seq::empty(),
    }
}

/// The media under the first of the fields that lists any.
pub open spec fn media_values(body: Jv, fields: Seq<Seq<char>>) -> Seq<Jv>
    decreases fields.len(),
{
    if fields.len() == 0 {
        Seq::empty()
    } else {
        match body.member(fields[0]) {
            Some(v) => if listed(v).len() > 0 {
                listed(v)
            } else {
                media_values(body, fields.drop_first())
            },
            None => media_values(body, fields.drop_first()),
        }
    }
}

/// Copies values.
fn copies(items: &Vec<Json>) -> (r: Vec<Json>)
    ensures
        views(r@) == views(items@),
{
    let mut out: Vec<Json> = Vec::new();
    let mut i: usize = 0;
    while i < items.len()
        invariant
            i <= items@.len(),
            out@.len() == i,
            forall|k: int| 0 <= k < i ==> #[trigger] out@[k]@ == items@[k]@,
        decreases items@.len() - i,
    {
        out.push(items[i].dup());
        i += 1;
    }
    proof {
        assert(views(out@) =~= views(items@));
    }
    out
}

/// Collects the media under the first of the fields that lists any, with
/// roles and other members as they are.
pub fn collect_media_values(body: &Json, fields: &Vec<&str>) -> (r: Vec<Json>)
    ensures
        views(r@) == media_values(body@, names(fields@)),
{
    let ghost all = names(fields@);
    let mut i: usize = 0;
    proof {
        assert(all.skip(0) =~= all);
    }
    while i < fields.len()
        invariant
            i <= fields@.len(),
            all == names(fields@),
            media_values(body@, all) == media_values(body@, all.skip(i as int)),
        decreases fields@.len() - i,
    {
        proof {
            assert(all.skip(i as int).drop_first() =~= all.skip(i + 1));
            assert(all.skip(i as int)[0] == fields@[i as int]@);
        }
        match body.get(fields[i]) {
            Some(v) => {
                match v {
                    Json::Str(_) => {
                        let mut one: Vec<Json> = Vec::new();
                        one.push(v.dup());
                        proof {
                            assert(views(one@) =~= seq![v@]);
                        }
                        return one;
                    },
                    _ => {
                        match v.as_array() {
                            Some(a) => {
                                if a.len() > 0 {
                                    return copies(a);
                                }
                            },
                            None => {},
                        }
                    },
                }
            },
            None => {},
        }
        i += 1;
    }
    let none: Vec<Json> = Vec::new();
    proof {
        assert(views(none@) =~= Seq::<Jv>::empty());
    }
    none
}

/// The address that an object gives under one of its names for it.
pub open spec fn address(item: Jv) -> Option<Seq<char>> {
    text_in(
        or_member(
            or_member(or_member(item.member("image"@), item, "image_url"@), item, "video_url"@),
            item,
            "url"@,
        ),
    )
}

fn address_of(item: &Json) -> (r: Option<&str>)
    ensures
        opt_text(r) == address(item@),
{
    let a = item.get("image");
    let b = or_get(a, item, "image_url");
    let c = or_get(b, item, "video_url");
    let d = or_get(c, item, "url");
    opt_str(d)
}

/// The address of a media element: the text itself, or what the object gives,
/// where it is not empty.
pub open spec fn media_address(item: Jv) -> Option<Seq<char>> {
    match item {
        Jv::Str(s) => filled(Some(s)),
        _ => filled(address(item)),
    }
}

/// The addresses of the elements that have one.
pub open spec fn addresses(items: Seq<Jv>) -> Seq<Seq<char>>
    decreases items.len(),
{
    if items.len() == 0 {
        Seq::empty()
    } else {
        match media_address(items.last()) {
            Some(u) => addresses(items.drop_last()).push(u),
            None => addresses(items.drop_last()),
        }
    }
}

/// The addresses under the first of the fields that lists any media.
pub open spec fn image_urls(body: Jv, fields: Seq<Seq<char>>) -> Seq<Seq<char>> {
    addresses(media_values(body, fields))
}

/// Collects the addresses under the first of the fields that lists any media.
pub fn collect_image_urls(body: &Json, fields: &Vec<&str>) -> (r: Vec<String>)
    ensures
        texts(r@) == image_urls(body@, names(fields@)),
{
    let elements = collect_media_values(body, fields);
    let ghost items = views(elements@);
    let mut urls: Vec<String> = Vec::new();
    let mut i: usize = 0;
    proof {
        assert(items.take(0) =~= Seq::<Jv>::empty());
        assert(texts(urls@) =~= Seq::<Seq<char>>::empty());
    }
    while i < elements.len()
        invariant
            i <= elements@.len(),
            items == views(elements@),
            texts(urls@) == addresses(items.take(i as int)),
        decreases elements@.len() - i,
    {
        let item = &elements[i];
        proof {
            assert(items.take(i + 1).drop_last() =~= items.take(i as int));
            assert(items.take(i + 1).last() == item@);
        }
        let found = match item {
            Json::Str(s) => opt_filled(Some(s.as_str())),
            _ => opt_filled(address_of(item)),
        };
        match found {
            Some(u) => {
                let ghost before = urls@;
                urls.push(u.to_owned());
                proof {
                    assert(texts(urls@) =~= texts(before).push(u@));
                }
            },
            None => {},
        }
        i += 1;
    }
    proof {
        assert(items.take(i as int) =~= items);
    }
    urls
}

/// The address of a media element, empty or not.
pub open spec fn item_url(item: Jv) -> Option<Seq<char>> {
    match item {
        Jv::Str(s) => Some(s),
        Jv::Obj(_) => address(item),
        _ => None,
    }
}

/// The role of a media element: its role, or else its type, or else a default.
pub open spec fn item_role(item: Jv, default_role: Seq<char>) -> Seq<char> {
    match text_in(or_member(item.member("role"@), item, "type"@)) {
        Some(r) => r,
        None => default_role,
    }
}

/// Reads the address and the role of a media element.
pub fn parse_media_item<'a>(item: &'a Json, default_role: &'a str) -> (r: (
    Option<&'a str>,
    &'a str,
))
    ensures
        opt_text(r.0) == item_url(item@),
        r.1@ == item_role(item@, default_role@),
{
    match item {
        Json::Str(s) => (Some(s.as_str()), default_role),
        Json::Obj(_) => {
            let url = address_of(item);
            let role = opt_str(or_get(item.get("role"), item, "type"));
            match role {
                Some(t) => (url, t),
                None => (url, default_role),
            }
        },
        _ => (None, default_role),
    }
}

/// The role of the image at an index where the request names none: one image
/// is the first frame, two are the first and the last, more are references.
pub open spec fn default_image_role(count: int, i: int) -> Seq<char> {
    if count == 1 || (count == 2 && i == 0) {
        "first_frame"@
    } else if count == 2 {
        "last_frame"@
    } else {
        "reference_image"@
    }
}

/// The roles of images where the request names none.
pub fn infer_image_default_roles(count: usize) -> (r: Vec<&'static str>)
    ensures
        r@.len() == count,
        forall|i: int| 0 <= i < count ==> #[trigger] r@[i]@ == default_image_role(count as int, i),
{
    let mut out: Vec<&'static str> = Vec::new();
    let mut i: usize = 0;
    while i < count
        invariant
            i <= count,
            out@.len() == i,
            forall|k: int|
                0 <= k < i ==> #[trigger] out@[k]@ == default_image_role(count as int, k),
        decreases count - i,
    {
        if count == 1 || (count == 2 && i == 0) {
            out.push("first_frame");
        } else if count == 2 {
            out.push("last_frame");
        } else {
            out.push("reference_image");
        }
        i += 1;
    }
    out
}

/// A media element that has an address, with its role.
pub struct Placed {
    pub url: String,
    pub role: String,
}

pub open spec fn placed_views(s: Seq<Placed>) -> Seq<(Seq<char>, Seq<char>)> {
    s.map_values(|p: Placed| (p.url@, p.role@))
}

/// The role of an element that names none: a fixed one, or that of an image
/// among so many.
pub open spec fn role_for(fixed: Option<Seq<char>>, count: int, i: int) -> Seq<char> {
    match fixed {
        Some(role) => role,
        None => default_image_role(count, i),
    }
}

/// The first `n` elements that have an address, with their roles.
pub open spec fn placed_upto(
    items: Seq<Jv>,
    n: int,
    fixed: Option<Seq<char>>,
    keep_empty: bool,
) -> Seq<(Seq<char>, Seq<char>)>
    decreases n,
{
    if n <= 0 {
        Seq::empty()
    } else {
        let done = placed_upto(items, n - 1, fixed, keep_empty);
        let item = items[n - 1];
        match item_url(item) {
            Some(u) => if keep_empty || u.len() > 0 {
                done.push((u, item_role(item, role_for(fixed, items.len() as int, n - 1))))
            } else {
                done
            },
            None => done,
        }
    }
}

/// The elements that have an address (not an empty one, unless those are
/// kept), with their roles.
pub open spec fn placed(
    items: Seq<Jv>,
    fixed: Option<Seq<char>>,
    keep_empty: bool,
) -> Seq<(Seq<char>, Seq<char>)> {
    placed_upto(items, items.len() as int, fixed, keep_empty)
}

/// Reads the elements that have an address, with their roles.
pub fn place_items(items: &Vec<Json>, fixed: Option<&str>, keep_empty: bool) -> (r: Vec<Placed>)
    ensures
        placed_views(r@) == placed(views(items@), opt_text(fixed), keep_empty),
{
    let ghost all = views(items@);
    let roles = infer_image_default_roles(items.len());
    let mut out: Vec<Placed> = Vec::new();
    let mut i: usize = 0;
    proof {
        assert(placed_views(out@) =~= Seq::<(Seq<char>, Seq<char>)>::empty());
    }
    while i < items.len()
        invariant
            i <= items@.len(),
            all == views(items@),
            roles@.len() == items@.len(),
            forall|k: int|
                0 <= k < roles@.len() ==> #[trigger] roles@[k]@ == default_image_role(
                    roles@.len() as int,
                    k,
                ),
            placed_views(out@) == placed_upto(all, i as int, opt_text(fixed), keep_empty),
        decreases items@.len() - i,
    {
        assert(all[i as int] == items@[i as int]@);
        let default_role = match fixed {
            Some(role) => role,
            None => roles[i],
        };
        let (url, role) = parse_media_item(&items[i], default_role);
        match url {
            Some(u) => {
                if keep_empty || !u.is_empty() {
                    let ghost before = out@;
                    out.push(Placed { url: u.to_owned(), role: role.to_owned() });
                    proof {
                        assert(placed_views(out@) =~= placed_views(before).push((u@, role@)));
                    }
                }
            },
            None => {},
        }
        i += 1;
    }
    out
}

/// The first field is taken where it lists anything, and passed over where it
/// does not.
pub proof fn lemma_media_first(body: Jv, fields: Seq<Seq<char>>)
    requires
        fields.len() > 0,
    ensures
        body.member(fields[0]) is Some && listed(body.member(fields[0])->Some_0).len() > 0
            ==> media_values(body, fields) == listed(body.member(fields[0])->Some_0),
        body.member(fields[0]) is None || listed(body.member(fields[0])->Some_0).len() == 0
            ==> media_values(body, fields) == media_values(body, fields.drop_first()),
{
}

/// A field that is absent lists nothing.
pub proof fn lemma_nothing_listed(body: Jv, field: Seq<char>)
    requires
        body.member(field) is None,
    ensures
        media_values(body, seq![field]) == Seq::<Jv>::empty(),
{
    let fields = seq![field];
    assert(fields[0] == field);
    lemma_media_first(body, fields);
    assert(fields.drop_first() =~= Seq::<Seq<char>>::empty());
    assert(media_values(body, fields.drop_first()) =~= Seq::<Jv>::empty());
}

/// A field that lists addresses gives them.
pub proof fn lemma_listed_here(body: Jv, field: Seq<char>, items: Seq<Jv>)
    requires
        body.member(field) == Some(Jv::Arr(items)),
        items.len() > 0,
    ensures
        media_values(body, seq![field]) == items,
{
    let fields = seq![field];
    assert(fields[0] == field);
    lemma_media_first(body, fields);
}

/// Whether media are given by address alone: texts that are not empty.
pub open spec fn all_addresses(items: Seq<Jv>) -> bool {
    forall|i: int|
        0 <= i < items.len() ==> (#[trigger] items[i]) is Str && items[i]->Str_0.len() > 0
}

/// The addresses that such media give.
pub open spec fn plain_addresses(items: Seq<Jv>) -> Seq<Seq<char>> {
    items.map_values(|v: Jv| v->Str_0)
}

/// Media that are given by address alone are all collected, in their order.
pub proof fn lemma_plain_addresses(items: Seq<Jv>)
    requires
        all_addresses(items),
    ensures
        addresses(items) == plain_addresses(items),
    decreases items.len(),
{
    if items.len() > 0 {
        let t = items.drop_last();
        assert forall|i: int| 0 <= i < t.len() implies (#[trigger] t[i]) is Str
            && t[i]->Str_0.len() > 0 by {
            assert(items[i] is Str);
        }
        lemma_plain_addresses(t);
        assert(items[items.len() - 1] is Str);
        assert(plain_addresses(items) =~= plain_addresses(t).push(items.last()->Str_0));
    } else {
        assert(plain_addresses(items) =~= addresses(items));
    }
}

/// Media that are given by address alone have the role that holds without one.
pub proof fn lemma_plain_placed(items: Seq<Jv>, n: int, fixed: Option<Seq<char>>, keep: bool)
    requires
        all_addresses(items),
        0 <= n <= items.len(),
    ensures
        placed_upto(items, n, fixed, keep) == Seq::new(
            n as nat,
            |i: int| (items[i]->Str_0, role_for(fixed, items.len() as int, i)),
        ),
    decreases n,
{
    if n > 0 {
        lemma_plain_placed(items, n - 1, fixed, keep);
        assert(items[n - 1] is Str);
        assert(placed_upto(items, n, fixed, keep) =~= Seq::new(
            n as nat,
            |i: int| (items[i]->Str_0, role_for(fixed, items.len() as int, i)),
        ));
    } else {
        assert(placed_upto(items, n, fixed, keep) =~= Seq::new(
            n as nat,
            |i: int| (items[i]->Str_0, role_for(fixed, items.len() as int, i)),
        ));
    }
}

// ---------------------------------------------------------------- roles

/// Whether an element refers to a video or an audio.
pub open spec fn is_clip(item: Jv) -> bool {
    text_at(item, "type"@) == Some("video_url"@) || text_at(item, "type"@) == Some("audio_url"@)
}

/// Whether a video or an audio stands among the elements.
pub open spec fn has_clip(items: Seq<Jv>) -> bool {
    exists|i: int| 0 <= i < items.len() && is_clip(#[trigger] items[i])
}

/// An image as a reference; any other element as it is.
pub open spec fn as_reference(item: Jv) -> Jv {
    if text_at(item, "type"@) == Some("image_url"@) {
        item.with("role"@, Jv::Str("reference_image"@))
    } else {
        item
    }
}

/// The content with consistent roles: beside a video or an audio every image
/// is a reference.
pub open spec fn with_image_roles(content: Jv) -> Jv {
    match content {
        Jv::Arr(a) => if has_clip(a) {
            Jv::Arr(a.map_values(|x: Jv| as_reference(x)))
        } else {
            content
        },
        _ => content,
    }
}

fn clip(item: &Json) -> (r: bool)
    ensures
        r == is_clip(item@),
{
    match item.get_str("type") {
        Some(t) => same(t, "video_url") || same(t, "audio_url"),
        None => false,
    }
}

/// Makes every image of the content a reference where a video or an audio
/// stands beside it.
pub fn ensure_image_roles_for_multimodal(content: Json) -> (r: Json)
    ensures
        r@ == with_image_roles(content@),
{
    let patched = match content.as_array() {
        None => None,
        Some(arr) => {
            let ghost items = views(arr@);
            let mut found = false;
            let mut i: usize = 0;
            while i < arr.len()
                invariant
                    i <= arr@.len(),
                    items == views(arr@),
                    found == has_clip(items.take(i as int)),
                decreases arr@.len() - i,
            {
                let ghost was = found;
                proof {
                    assert(arr@[i as int]@ == items[i as int]);
                    if has_clip(items.take(i as int)) {
                        let k = choose|k: int|
                            0 <= k < i && is_clip(#[trigger] items.take(i as int)[k]);
                        assert(is_clip(items.take(i + 1)[k]));
                    }
                    if is_clip(items[i as int]) {
                        assert(is_clip(items.take(i + 1)[i as int]));
                    }
                    if has_clip(items.take(i + 1)) {
                        let k = choose|k: int|
                            0 <= k < i + 1 && is_clip(#[trigger] items.take(i + 1)[k]);
                        if k < i {
                            assert(is_clip(items.take(i as int)[k]));
                        }
                    }
                }
                if clip(&arr[i]) {
                    found = true;
                }
                i += 1;
            }
            proof {
                assert(items.take(i as int) =~= items);
            }
            if found {
                let mut out: Vec<Json> = Vec::new();
                let mut k: usize = 0;
                while k < arr.len()
                    invariant
                        k <= arr@.len(),
                        out@.len() == k,
                        forall|j: int|
                            0 <= j < k ==> #[trigger] out@[j]@ == as_reference(arr@[j]@),
                    decreases arr@.len() - k,
                {
                    let mut item = arr[k].dup();
                    let image = match item.get_str("type") {
                        Some(t) => same(t, "image_url"),
                        None => false,
                    };
                    if image {
                        item.set("role", Json::text("reference_image"));
                    }
                    out.push(item);
                    k += 1;
                }
                proof {
                    assert(views(out@) =~= items.map_values(|x: Jv| as_reference(x)));
                }
                Some(Json::arr(out))
            } else {
                None
            }
        },
    };
    match patched {
        Some(p) => p,
        None => content,
    }
}

/// Making the images references a second time changes nothing.
pub proof fn law_image_roles_idempotent(content: Jv)
    ensures
        with_image_roles(with_image_roles(content)) == with_image_roles(content),
{
    reveal_strlit("type");
    reveal_strlit("role");
    reveal_strlit("image_url");
    reveal_strlit("video_url");
    reveal_strlit("audio_url");
    match content {
        Jv::Arr(a) => {
            if has_clip(a) {
                let b = a.map_values(|x: Jv| as_reference(x));
                let c = b.map_values(|x: Jv| as_reference(x));
                assert("type"@ != "role"@) by {
                    assert("type"@[0] == 't');
                    assert("role"@[0] == 'r');
                }
                assert(c =~= b) by {
                    assert forall|i: int| 0 <= i < a.len() implies c[i] == b[i] by {
                        match a[i] {
                            Jv::Obj(m) => {
                                if text_at(a[i], "type"@) == Some("image_url"@) {
                                    let m1 = m.insert("role"@, Jv::Str("reference_image"@));
                                    assert(m1.insert("role"@, Jv::Str("reference_image"@)) =~= m1);
                                }
                            },
                            _ => {},
                        }
                    }
                }
            }
        },
        _ => {},
    }
}

/// Beside a clip every image is a reference; nothing else of the content
/// changes. Without a clip nothing changes at all.
pub proof fn law_references_beside_clips(content: Seq<Jv>, i: int, key: Seq<char>)
    requires
        0 <= i < content.len(),
    ensures
        !has_clip(content) ==> with_image_roles(Jv::Arr(content)) == Jv::Arr(content),
        has_clip(content) ==> ({
            let after = with_image_roles(Jv::Arr(content)).items()->Some_0;
            &&& with_image_roles(Jv::Arr(content)) is Arr
            &&& after.len() == content.len()
            &&& text_at(content[i], "type"@) == Some("image_url"@) ==> text_at(after[i], "role"@)
                == Some("reference_image"@)
            &&& text_at(content[i], "type"@) != Some("image_url"@) ==> after[i] == content[i]
            &&& key != "role"@ ==> after[i].member(key) == content[i].member(key)
        }),
{
}

// ---------------------------------------------------------------- base64 data

/// Whether a text is base64 data: a data URI, or no web address and at least
/// `min` bytes long.
pub open spec fn is_base64(s: Seq<char>, min: int) -> bool {
    let t = trimmed(s);
    t.len() > 0 && ("data:"@.is_prefix_of(t) || (!"http"@.is_prefix_of(t) && byte_count(t) >= min))
}

/// Whether a text is base64 data: a data URI, or no web address and at least
/// `min` bytes long.
pub fn is_b64(s: &str, min: usize) -> (r: bool)
    ensures
        r == is_base64(s@, min as int),
{
    let t = trim(s);
    !t.is_empty() && (starts_with(t, "data:") || (!starts_with(t, "http") && byte_len(t) >= min))
}

/// The base64 text without the head of its data URI.
pub open spec fn base64_payload(s: Seq<char>) -> Seq<char> {
    let t = trimmed(s);
    if "data:"@.is_prefix_of(t) {
        match parted(t, ","@) {
            Some((_, rest)) => rest,
            None => t,
        }
    } else {
        t
    }
}

/// Takes away the head of a data URI.
pub fn b64_data(s: &str) -> (r: &str)
    ensures
        r@ == base64_payload(s@),
{
    let t = trim(s);
    if starts_with(t, "data:") {
        match split_once(t, ",") {
            Some((_, rest)) => rest,
            None => t,
        }
    } else {
        t
    }
}

/// Inline image data: a media type and base64 text.
pub open spec fn inline_data(mime: Seq<char>, data: Seq<char>) -> Jv {
    Jv::Obj(Map::empty().insert("mime_type"@, Jv::Str(mime)).insert("data"@, Jv::Str(data)))
}

fn make_inline_data(mime: &str, data: &str) -> (r: Json)
    ensures
        r@ == inline_data(mime@, data@),
{
    Json::empty().with("mime_type", Json::text(mime)).with("data", Json::text(data))
}

/// The inline data that a text stands for: a data URI gives its media type (or
/// "image/png" where it names none) and what follows its comma; long base64
/// text is a PNG image.
pub open spec fn inline_of(s: Seq<char>) -> Option<Jv> {
    let t = trimmed(s);
    match after_prefix(t, "data:"@) {
        Some(rest) => match parted(rest, ","@) {
            Some((meta, data)) => {
                let first = pieces(meta, ";"@)[0];
                Some(
                    inline_data(
                        if first.len() > 0 {
                            first
                        } else {
                            "image/png"@
                        },
                        data,
                    ),
                )
            },
            None => None,
        },
        None => if is_base64(t, 101) {
            Some(inline_data("image/png"@, t))
        } else {
            None
        },
    }
}

/// Reads a data URI or long base64 text as inline data.
pub fn parse_data_uri_to_inline_data(input: &str) -> (r: Option<Json>)
    ensures
        match r {
            Some(j) => inline_of(input@) == Some(j@),
            None => inline_of(input@) is None,
        },
{
    let t = trim(input);
    match strip_prefix(t, "data:") {
        Some(rest) => {
            match split_once(rest, ",") {
                Some((meta, data)) => {
                    proof {
                        reveal_strlit(";");
                    }
                    let parts = split(meta, ";");
                    let first = parts[0];
                    assert(first@ == pieces(meta@, ";"@)[0]);
                    if first.is_empty() {
                        Some(make_inline_data("image/png", data))
                    } else {
                        Some(make_inline_data(first, data))
                    }
                },
                None => None,
            }
        },
        None => {
            if is_b64(t, 101) {
                Some(make_inline_data("image/png", t))
            } else {
                None
            }
        },
    }
}

/// What base64's `STANDARD` engine decodes a text to.
pub uninterp spec fn b64_standard(s: Seq<char>) -> Option<Seq<u8>>;

/// What base64's `STANDARD_NO_PAD` engine decodes a text to.
pub uninterp spec fn b64_no_pad(s: Seq<char>) -> Option<Seq<u8>>;

/// What base64's `STANDARD` engine encodes bytes to.
pub uninterp spec fn b64_encoded(b: Seq<u8>) -> Seq<char>;

/// `base64::engine::general_purpose::STANDARD.decode`: the bytes that a text
/// with canonical padding encodes, or nothing where it encodes none.
#[verifier::external_body]
pub(crate) fn decode_standard(s: &str) -> (r: Option<Vec<u8>>)
    ensures
        match r {
            Some(b) => b64_standard(s@) == Some(b@),
            None => b64_standard(s@) is None,
        },
{
    base64::engine::general_purpose::STANDARD.decode(s).ok()
}

/// `base64::engine::general_purpose::STANDARD_NO_PAD.decode`: the bytes that a
/// text without padding encodes, or nothing where it encodes none.
#[verifier::external_body]
fn decode_no_pad(s: &str) -> (r: Option<Vec<u8>>)
    ensures
        match r {
            Some(b) => b64_no_pad(s@) == Some(b@),
            None => b64_no_pad(s@) is None,
        },
{
    base64::engine::general_purpose::STANDARD_NO_PAD.decode(s).ok()
}

/// Whether the base64 text of so many bytes still fits in memory.
pub open spec fn encodable(n: int) -> bool {
    n / 3 * 4 + 4 <= isize::MAX
}

/// Whether a text is written in the alphabet of base64, padding included.
pub open spec fn in_base64_alphabet(s: Seq<char>) -> bool {
    forall|i: int|
        0 <= i < s.len() ==> {
            let c = #[trigger] s[i];
            ('0' <= c <= '9') || ('A' <= c <= 'Z') || ('a' <= c <= 'z') || c == '+' || c == '/' || c
                == '='
        }
}

/// `base64::engine::general_purpose::STANDARD.encode`: the padded base64 text
/// of bytes, in the alphabet of base64. The same engine decodes it to those
/// bytes again.
#[verifier::external_body]
pub(crate) fn encode_standard(b: &[u8]) -> (r: String)
    requires
        encodable(b@.len() as int),
    ensures
        r@ == b64_encoded(b@),
        in_base64_alphabet(r@),
        b64_standard(r@) == Some(b@),
{
    base64::engine::general_purpose::STANDARD.encode(b)
}

/// The bytes that a base64 text encodes, with padding or without.
pub open spec fn decoded(s: Seq<char>) -> Option<Seq<u8>> {
    match b64_standard(s) {
        Some(b) => Some(b),
        None => b64_no_pad(s),
    }
}

/// Decodes base64 text, with padding or without.
pub fn decode_b64(s: &str) -> (r: Option<Vec<u8>>)
    ensures
        match r {
            Some(b) => decoded(s@) == Some(b@),
            None => decoded(s@) is None,
        },
{
    match decode_standard(s) {
        Some(b) => Some(b),
        None => decode_no_pad(s),
    }
}

/// The media type that the first bytes of an image show; PNG where they show none.
pub open spec fn sniffed(b: Seq<u8>) -> Seq<char> {
    if seq![0x89u8, 0x50, 0x4E, 0x47, 0x0D, 0x0A, 0x1A, 0x0A].is_prefix_of(b) {
        "image/png"@
    } else if seq![0xFFu8, 0xD8, 0xFF].is_prefix_of(b) {
        "image/jpeg"@
    } else if seq![0x47u8, 0x49, 0x46, 0x38].is_prefix_of(b) {
        "image/gif"@
    } else if b.len() >= 12 && seq![0x52u8, 0x49, 0x46, 0x46].is_prefix_of(b) && seq![
        0x57u8,
        0x45,
        0x42,
        0x50,
    ].is_prefix_of(b.skip(8)) {
        "image/webp"@
    } else {
        "image/png"@
    }
}

/// Names the media type that the first bytes of an image show.
pub fn sniff_mime(b: &Vec<u8>) -> (r: &'static str)
    requires
        b@.len() > 10,
    ensures
        r@ == sniffed(b@),
{
    let png = b[0] == 0x89 && b[1] == 0x50 && b[2] == 0x4E && b[3] == 0x47 && b[4] == 0x0D && b[5]
        == 0x0A && b[6] == 0x1A && b[7] == 0x0A;
    let jpeg = b[0] == 0xFF && b[1] == 0xD8 && b[2] == 0xFF;
    let gif = b[0] == 0x47 && b[1] == 0x49 && b[2] == 0x46 && b[3] == 0x38;
    let riff = b[0] == 0x52 && b[1] == 0x49 && b[2] == 0x46 && b[3] == 0x46;
    let webp = b.len() >= 12 && riff && b[8] == 0x57 && b[9] == 0x45 && b[10] == 0x42 && b[11]
        == 0x50;
    proof {
        let p = seq![0x89u8, 0x50, 0x4E, 0x47, 0x0D, 0x0A, 0x1A, 0x0A];
        assert(png == (b@.take(8) =~= p));
        assert(p.is_prefix_of(b@) == (b@.take(8) =~= p));
        let j = seq![0xFFu8, 0xD8, 0xFF];
        assert(jpeg == (b@.take(3) =~= j));
        assert(j.is_prefix_of(b@) == (b@.take(3) =~= j));
        let g = seq![0x47u8, 0x49, 0x46, 0x38];
        assert(gif == (b@.take(4) =~= g));
        assert(g.is_prefix_of(b@) == (b@.take(4) =~= g));
        let f = seq![0x52u8, 0x49, 0x46, 0x46];
        assert(riff == (b@.take(4) =~= f));
        assert(f.is_prefix_of(b@) == (b@.take(4) =~= f));
        if b@.len() >= 12 {
            let w = seq![0x57u8, 0x45, 0x42, 0x50];
            let t = b@.skip(8);
            assert(w.is_prefix_of(t) == (t.take(4) =~= w));
            assert((t.take(4) =~= w) == (b@[8] == 0x57 && b@[9] == 0x45 && b@[10] == 0x42 && b@[11]
                == 0x50)) by {
                assert(t[0] == b@[8] && t[1] == b@[9] && t[2] == b@[10] && t[3] == b@[11]);
                if t.take(4) =~= w {
                    assert(t.take(4)[0] == w[0] && t.take(4)[1] == w[1] && t.take(4)[2] == w[2]
                        && t.take(4)[3] == w[3]);
                }
            }
        }
    }
    if png {
        "image/png"
    } else if jpeg {
        "image/jpeg"
    } else if gif {
        "image/gif"
    } else if webp {
        "image/webp"
    } else {
        "image/png"
    }
}

/// The bytes and the media type of an image given as data: a data URI with
/// base64 content, or base64 text (no dot and no colon in it) of more than
/// ten bytes.
pub open spec fn image_data(s: Seq<char>) -> Option<(Seq<u8>, Seq<char>)> {
    let t = trimmed(s);
    if t.len() == 0 {
        None
    } else {
        match after_prefix(t, "data:"@) {
            Some(rest) => match parted(rest, ";base64,"@) {
                Some((meta, payload)) => match decoded(payload) {
                    Some(b) => Some((b, meta)),
                    None => None,
                },
                None => None,
            },
            None => if !holds(t, "."@) && !holds(t, ":"@) {
                match decoded(t) {
                    Some(b) => if b.len() > 10 {
                        Some((b, sniffed(b)))
                    } else {
                        None
                    },
                    None => None,
                }
            } else {
                None
            },
        }
    }
}

/// Reads an image given as data.
pub fn parse_image_data(url: &str) -> (r: Option<(Vec<u8>, String)>)
    ensures
        match r {
            Some((b, m)) => image_data(url@) == Some((b@, m@)),
            None => image_data(url@) is None,
        },
{
    let t = trim(url);
    if t.is_empty() {
        return None;
    }
    match strip_prefix(t, "data:") {
        Some(rest) => {
            match split_once(rest, ";base64,") {
                Some((meta, payload)) => {
                    match decode_b64(payload) {
                        Some(b) => Some((b, meta.to_owned())),
                        None => None,
                    }
                },
                None => None,
            }
        },
        None => {
            if !contains(t, ".") && !contains(t, ":") {
                match decode_b64(t) {
                    Some(b) => {
                        if b.len() > 10 {
                            let mime = sniff_mime(&b).to_owned();
                            Some((b, mime))
                        } else {
                            None
                        }
                    },
                    None => None,
                }
            } else {
                None
            }
        },
    }
}

// ---------------------------------------------------------------- downloads

/// How many times an image is asked for before it is given up.
pub const DOWNLOAD_ATTEMPTS: u32 = 2;

/// What follows an attempt to download an image.
#[derive(Clone, Copy, Debug, PartialEq, Eq, Structural)]
pub enum DownloadStep {
    /// Ask again.
    Again,
    /// The image is there.
    Done,
    /// Nothing more is tried.
    GivenUp,
}

/// Says what follows, given how many attempts were made and whether the last
/// one succeeded.
pub fn after_download(attempts: u32, succeeded: bool) -> (r: DownloadStep)
    ensures
        r == if succeeded {
            DownloadStep::Done
        } else if attempts < DOWNLOAD_ATTEMPTS {
            DownloadStep::Again
        } else {
            DownloadStep::GivenUp
        },
{
    if succeeded {
        DownloadStep::Done
    } else if attempts < DOWNLOAD_ATTEMPTS {
        DownloadStep::Again
    } else {
        DownloadStep::GivenUp
    }
}

/// The media type of a downloaded image: its content type up to the first
/// semicolon, "image/png" where there is none.
pub open spec fn download_mime(content_type: Option<Seq<char>>) -> Seq<char> {
    let full = match content_type {
        Some(c) => c,
        None => "image/png"@,
    };
    trimmed(pieces(full, ";"@)[0])
}

/// Makes inline data of a downloaded image.
pub fn downloaded_image(content_type: Option<&str>, bytes: &[u8]) -> (r: Json)
    requires
        encodable(bytes@.len() as int),
    ensures
        r@ == inline_data(download_mime(opt_text(content_type)), b64_encoded(bytes@)),
        b64_standard(b64_encoded(bytes@)) == Some(bytes@),
{
    let full = match content_type {
        Some(c) => c,
        None => "image/png",
    };
    proof {
        reveal_strlit(";");
    }
    let parts = split(full, ";");
    let first = parts[0];
    assert(first@ == pieces(full@, ";"@)[0]);
    let mime = trim(first);
    let data = encode_standard(bytes);
    make_inline_data(mime, data.as_str())
}

/// Whether an image has to be downloaded: a web address that is no data.
pub open spec fn is_remote(url: Seq<char>) -> bool {
    !is_base64(trimmed(url), 101) && "http"@.is_prefix_of(trimmed(url))
}

fn remote(url: &str) -> (r: bool)
    ensures
        r == is_remote(url@),
{
    let t = trim(url);
    !is_b64(t, 101) && starts_with(t, "http")
}

/// The addresses that have to be downloaded, each once, in the order in which
/// they first appear.
pub open spec fn remote_addresses(urls: Seq<Seq<char>>) -> Seq<Seq<char>>
    decreases urls.len(),
{
    if urls.len() == 0 {
        Seq::empty()
    } else {
        let done = remote_addresses(urls.drop_last());
        let t = trimmed(urls.last());
        if is_remote(urls.last()) && !done.contains(t) {
            done.push(t)
        } else {
            done
        }
    }
}

/// Whether a text is among others.
pub(crate) fn is_among(list: &Vec<String>, t: &str) -> (r: bool)
    ensures
        r == texts(list@).contains(t@),
{
    let mut i: usize = 0;
    while i < list.len()
        invariant
            i <= list@.len(),
            forall|k: int| 0 <= k < i ==> #[trigger] texts(list@)[k] != t@,
        decreases list@.len() - i,
    {
        if same(list[i].as_str(), t) {
            assert(texts(list@)[i as int] == t@);
            return true;
        }
        assert(texts(list@)[i as int] != t@);
        i += 1;
    }
    false
}

/// Lists the addresses that have to be downloaded, each once.
pub fn needed_downloads(urls: &Vec<String>) -> (r: Vec<String>)
    ensures
        texts(r@) == remote_addresses(texts(urls@)),
{
    let ghost all = texts(urls@);
    let mut out: Vec<String> = Vec::new();
    let mut i: usize = 0;
    proof {
        assert(all.take(0) =~= Seq::<Seq<char>>::empty());
        assert(texts(out@) =~= Seq::<Seq<char>>::empty());
    }
    while i < urls.len()
        invariant
            i <= urls@.len(),
            all == texts(urls@),
            texts(out@) == remote_addresses(all.take(i as int)),
        decreases urls@.len() - i,
    {
        proof {
            assert(all.take(i + 1).drop_last() =~= all.take(i as int));
            assert(all.take(i + 1).last() == urls@[i as int]@);
        }
        let url = urls[i].as_str();
        let t = trim(url);
        if remote(url) && !is_among(&out, t) {
            let ghost before = out@;
            out.push(t.to_owned());
            proof {
                assert(texts(out@) =~= texts(before).push(t@));
            }
        }
        i += 1;
    }
    proof {
        assert(all.take(i as int) =~= all);
    }
    out
}

/// A downloaded image under its address: nothing where the download failed.
pub struct Fetched {
    pub url: String,
    pub data: Option<Json>,
}

/// What was downloaded, as a sequence of addresses and inline data.
pub open spec fn fetched_views(s: Seq<Fetched>) -> Seq<(Seq<char>, Option<Jv>)> {
    s.map_values(
        |f: Fetched|
            (
                f.url@,
                match f.data {
                    Some(j) => Some(j@),
                    None => None,
                },
            ),
    )
}

/// What was downloaded for an address.
pub open spec fn fetched_for(s: Seq<(Seq<char>, Option<Jv>)>, url: Seq<char>) -> Option<Jv>
    decreases s.len(),
{
    if s.len() == 0 {
        None
    } else if s[0].0 == url {
        s[0].1
    } else {
        fetched_for(s.drop_first(), url)
    }
}

/// The inline data of one image: read from the text itself, or downloaded.
pub open spec fn resolved_image(url: Seq<char>, got: Seq<(Seq<char>, Option<Jv>)>) -> Option<Jv> {
    let t = trimmed(url);
    if is_base64(t, 101) {
        inline_of(t)
    } else if "http"@.is_prefix_of(t) {
        fetched_for(got, t)
    } else {
        None
    }
}

/// The inline data of one image.
pub fn resolve_image(url: &str, got: &Vec<Fetched>) -> (r: Option<Json>)
    ensures
        match r {
            Some(j) => resolved_image(url@, fetched_views(got@)) == Some(j@),
            None => resolved_image(url@, fetched_views(got@)) is None,
        },
{
    let t = trim(url);
    if is_b64(t, 101) {
        return parse_data_uri_to_inline_data(t);
    }
    if !starts_with(t, "http") {
        return None;
    }
    let ghost all = fetched_views(got@);
    let mut i: usize = 0;
    proof {
        assert(all.skip(0) =~= all);
    }
    while i < got.len()
        invariant
            i <= got@.len(),
            all == fetched_views(got@),
            t@ == trimmed(url@),
            resolved_image(url@, all) == fetched_for(all, t@),
            fetched_for(all, t@) == fetched_for(all.skip(i as int), t@),
        decreases got@.len() - i,
    {
        proof {
            assert(all.skip(i as int).drop_first() =~= all.skip(i + 1));
            assert(all.skip(i as int)[0] == all[i as int]);
        }
        if same(got[i].url.as_str(), t) {
            return match &got[i].data {
                Some(j) => Some(j.dup()),
                None => None,
            };
        }
        i += 1;
    }
    None
}

/// The inline data of each image.
pub open spec fn resolved_images(
    urls: Seq<Seq<char>>,
    got: Seq<(Seq<char>, Option<Jv>)>,
) -> Seq<Option<Jv>> {
    urls.map_values(|u: Seq<char>| resolved_image(u, got))
}

/// The models of values that may be absent.
pub open spec fn opt_views(s: Seq<Option<Json>>) -> Seq<Option<Jv>> {
    s.map_values(
        |o: Option<Json>|
            match o {
                Some(j) => Some(j@),
                None => None,
            },
    )
}

/// Resolves each image to inline data, given what was downloaded.
pub fn resolve_image_urls(urls: &Vec<String>, got: &Vec<Fetched>) -> (r: Vec<Option<Json>>)
    ensures
        opt_views(r@) == resolved_images(texts(urls@), fetched_views(got@)),
{
    let ghost want = resolved_images(texts(urls@), fetched_views(got@));
    let mut out: Vec<Option<Json>> = Vec::new();
    let mut i: usize = 0;
    while i < urls.len()
        invariant
            i <= urls@.len(),
            out@.len() == i,
            want == resolved_images(texts(urls@), fetched_views(got@)),
            forall|k: int| 0 <= k < i ==> #[trigger] opt_views(out@)[k] == want[k],
        decreases urls@.len() - i,
    {
        let one = resolve_image(urls[i].as_str(), got);
        let ghost before = out@;
        out.push(one);
        proof {
            assert forall|k: int| 0 <= k < i + 1 implies #[trigger] opt_views(out@)[k] == want[k] by {
                if k < i {
                    assert(opt_views(before)[k] == want[k]);
                }
            }
        }
        i += 1;
    }
    proof {
        assert(opt_views(out@) =~= want);
    }
    out
}

/// No address is downloaded twice, and what is downloaded is exactly what
/// stands among the images as a web address.
pub proof fn law_downloads_once(urls: Seq<Seq<char>>)
    ensures
        remote_addresses(urls).no_duplicates(),
        forall|t: Seq<char>| #[trigger]
            remote_addresses(urls).contains(t) <==> exists|i: int|
                0 <= i < urls.len() && is_remote(#[trigger] urls[i]) && trimmed(urls[i]) == t,
    decreases urls.len(),
{
    if urls.len() > 0 {
        let shorter = urls.drop_last();
        let done = remote_addresses(shorter);
        let last = trimmed(urls.last());
        law_downloads_once(shorter);
        let all = remote_addresses(urls);
        assert forall|t: Seq<char>| #[trigger] all.contains(t) <==> exists|i: int|
            0 <= i < urls.len() && is_remote(#[trigger] urls[i]) && trimmed(urls[i]) == t by {
            if all.contains(t) {
                let k = choose|k: int| 0 <= k < all.len() && all[k] == t;
                if k < done.len() {
                    assert(done[k] == t);
                    assert(done.contains(t));
                    let i = choose|i: int|
                        0 <= i < shorter.len() && is_remote(#[trigger] shorter[i]) && trimmed(
                            shorter[i],
                        ) == t;
                    assert(urls[i] == shorter[i]);
                } else {
                    assert(is_remote(urls[urls.len() - 1]));
                }
            }
            if exists|i: int|
                0 <= i < urls.len() && is_remote(#[trigger] urls[i]) && trimmed(urls[i]) == t {
                let i = choose|i: int|
                    0 <= i < urls.len() && is_remote(#[trigger] urls[i]) && trimmed(urls[i]) == t;
                if i < shorter.len() {
                    assert(is_remote(shorter[i]));
                    assert(done.contains(t));
                    let k = choose|k: int| 0 <= k < done.len() && done[k] == t;
                    assert(all[k] == t);
                } else {
                    assert(t == last);
                    if done.contains(last) {
                        let k = choose|k: int| 0 <= k < done.len() && done[k] == last;
                        assert(all[k] == t);
                    } else {
                        assert(all[done.len() as int] == t);
                    }
                }
            }
        }
    }
}

} // verus!
