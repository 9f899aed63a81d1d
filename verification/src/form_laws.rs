//! What holds of forms: what their fields become, and what is sent of them.
use vstd::prelude::*;
use vstd::string::*;
use crate::json::{json_text, key_list, lists_keys, parsed_json, text_at, Jv};
use crate::media::{
    all_addresses, b64_encoded, b64_standard, decoded, lemma_listed_here, lemma_plain_addresses,
    plain_addresses, resolved_image,
};
use crate::multipart::{
    address_in, edit_parts, field_json, file_address, file_ending, file_part, form_members,
    image_bytes, image_parts, is_base64_text, member_parts, parts_upto, urls_in, FieldValue,
    FormField, PartModel,
};
use crate::text::{holds, trimmed};
use crate::text_laws::{law_not_parted, law_pieces};
use vstd::utf8::{decode_utf8, valid_utf8};

verus! {

/// A field that comes again makes a list of what came, in its order.
pub proof fn law_repeated_field(fields: Seq<FormField>, f: FormField, v: Jv)
    requires
        f.name@.len() > 0,
        v == field_json(f.value),
    ensures
        !form_members(fields).dom().contains(f.name@) ==> form_members(fields.push(f))
            == form_members(fields).insert(f.name@, v),
        form_members(fields).dom().contains(f.name@) ==> (form_members(
            fields,
        )[f.name@] matches Jv::Arr(a) ==> form_members(fields.push(f)) == form_members(
            fields,
        ).insert(f.name@, Jv::Arr(a.push(v)))),
        form_members(fields).dom().contains(f.name@) && !(form_members(fields)[f.name@] is Arr)
            ==> form_members(fields.push(f)) == form_members(fields).insert(
            f.name@,
            Jv::Arr(seq![form_members(fields)[f.name@], v]),
        ),
{
    assert(fields.push(f).drop_last() =~= fields);
}

/// A field without a name is passed over.
pub proof fn law_nameless_field(fields: Seq<FormField>, f: FormField)
    requires
        f.name@.len() == 0,
    ensures
        form_members(fields.push(f)) == form_members(fields),
{
    assert(fields.push(f).drop_last() =~= fields);
}

/// A text field is the JSON that it holds, or else the text.
pub proof fn law_text_field(t: String, v: Jv)
    ensures
        parsed_json(t@) == Some(v) ==> field_json(FieldValue::Text(t)) == v,
        parsed_json(t@) is None ==> field_json(FieldValue::Text(t)) == Jv::Str(t@),
{
}

/// A file that is no text already is a data URI with its kind and its content.
pub proof fn law_file_field(mime: Seq<char>, bytes: Seq<u8>)
    ensures
        address_in(mime, bytes) is None ==> file_address(Some(mime), bytes) == "data:"@ + mime
            + ";base64,"@ + b64_encoded(bytes),
        address_in("application/octet-stream"@, bytes) is None ==> file_address(None, bytes)
            == "data:"@ + "application/octet-stream"@ + ";base64,"@ + b64_encoded(bytes),
        address_in(mime, bytes) matches Some(a) ==> file_address(Some(mime), bytes) == a,
{
}

/// The ending of a file is the second part of its kind, without what follows a
/// semicolon.
pub proof fn law_file_ending(kind: Seq<char>, sub: Seq<char>, more: Seq<char>)
    requires
        !kind.contains('/'),
        !sub.contains('/') && !sub.contains(';'),
        !more.contains('/'),
        trimmed(sub) == sub,
    ensures
        file_ending(kind + seq!['/'] + sub) == sub,
        file_ending(kind + seq!['/'] + (sub + seq![';'] + more)) == sub,
{
    reveal_strlit("/");
    reveal_strlit(";");
    assert("/"@ =~= seq!['/']);
    assert(";"@ =~= seq![';']);
    law_pieces(kind, '/', sub);
    law_not_parted(sub, '/');
    law_not_parted(sub, ';');
    let t = sub + seq![';'] + more;
    assert(!t.contains('/')) by {
        if t.contains('/') {
            let i = choose|i: int| 0 <= i < t.len() && t[i] == '/';
            if i < sub.len() {
                assert(sub[i] == '/');
            } else if i > sub.len() {
                assert(more[i - sub.len() - 1] == '/');
            }
        }
    }
    law_pieces(kind, '/', t);
    law_not_parted(t, '/');
    law_pieces(sub, ';', more);
    assert((seq![kind] + seq![sub]).last() == sub);
    assert((seq![kind] + seq![t]).last() == t);
}

/// What is sent of a plain member: a text as it is, nothing of a null, and
/// anything else as JSON.
pub proof fn law_plain_part(key: Seq<char>, v: Jv, got: Seq<(Seq<char>, Option<Jv>)>)
    requires
        key != "images"@ && key != "image"@ && key != "image_urls"@ && key != "image[]"@ && key
            != "mask"@,
    ensures
        v matches Jv::Str(s) ==> member_parts(key, v, got) == seq![PartModel::Text(key, s)],
        v is Null ==> member_parts(key, v, got).len() == 0,
        !(v is Str) && !(v is Null) ==> member_parts(key, v, got) == seq![
            PartModel::Text(key, json_text(v)),
        ],
{
}

/// A file part: the bytes of an image with a name and a kind, or the address
/// where no bytes could be had; nothing where there is no address.
pub proof fn law_file_part(
    name: Seq<char>,
    url: Seq<char>,
    file: Seq<char>,
    got: Seq<(Seq<char>, Option<Jv>)>,
    p: Seq<PartModel>,
)
    requires
        trimmed(url) == url,
        p == file_part(name, url, file, got),
    ensures
        url.len() == 0 ==> p.len() == 0,
        url.len() > 0 ==> (image_bytes(url, got) matches Some((b, mime)) ==> p == seq![
            PartModel::File(name, file + "."@ + file_ending(mime), mime, b),
        ]),
        url.len() > 0 && image_bytes(url, got) is None ==> p == seq![PartModel::Text(name, url)],
{
}

/// A mask is a file of its own name.
pub proof fn law_mask_part(v: Jv, got: Seq<(Seq<char>, Option<Jv>)>, t: Seq<char>)
    ensures
        v == Jv::Str(t) ==> member_parts("mask"@, v, got) == file_part("mask"@, t, "mask"@, got),
{
    reveal_strlit("image");
    reveal_strlit("image[]");
    reveal_strlit("image_urls");
    reveal_strlit("images");
    reveal_strlit("mask");
    assert("image"@.len() == 5);
    assert("image[]"@.len() == 7);
    assert("image_urls"@.len() == 10);
    assert("images"@.len() == 6);
    assert("mask"@.len() == 4);
}

/// The bytes of an image that was had are its data decoded, with its kind.
pub proof fn law_image_bytes(
    url: Seq<char>,
    got: Seq<(Seq<char>, Option<Jv>)>,
    v: Jv,
    mime: Seq<char>,
    data: Seq<char>,
    b: Seq<u8>,
)
    requires
        resolved_image(url, got) == Some(v),
        text_at(v, "mime_type"@) == Some(mime),
        text_at(v, "data"@) == Some(data),
        decoded(data) == Some(b),
    ensures
        image_bytes(url, got) == Some((b, mime)),
{
}

/// A text file that holds a data URI is that address; one that holds base64 is
/// its content.
pub proof fn law_address_in(mime: Seq<char>, bytes: Seq<u8>, s: Seq<char>)
    requires
        valid_utf8(bytes),
        s == trimmed(decode_utf8(bytes)),
    ensures
        "data:"@.is_prefix_of(s) && holds(s, ";base64,"@) ==> address_in(mime, bytes) == Some(s),
        !"data:"@.is_prefix_of(s) && s.len() > 0 && is_base64_text(s) && b64_standard(s) is Some
            ==> address_in(mime, bytes) == Some("data:"@ + mime + ";base64,"@ + s),
        s.len() == 0 || (!"data:"@.is_prefix_of(s) && (!is_base64_text(s) || b64_standard(s)
            is None)) ==> address_in(mime, bytes) is None,
{
    reveal_strlit("data:");
    assert("data:"@.len() == 5);
}

/// One image goes under one name, several under another.
pub proof fn law_image_parts(
    key: Seq<char>,
    images: Seq<Jv>,
    got: Seq<(Seq<char>, Option<Jv>)>,
    p: Seq<PartModel>,
)
    requires
        key == "images"@ || key == "image"@ || key == "image_urls"@ || key == "image[]"@,
        images.len() > 0,
        all_addresses(images),
        p == member_parts(key, Jv::Arr(images), got),
    ensures
        images.len() == 1 ==> p == file_part("image"@, images[0]->Str_0, "image"@, got),
        images.len() > 1 ==> p == image_parts("image[]"@, plain_addresses(images), got),
{
    reveal_with_fuel(image_parts, 3);
    let v = Jv::Arr(images);
    lemma_listed_here(crate::json::single("t"@, v), "t"@, images);
    lemma_plain_addresses(images);
    let urls = urls_in(v);
    assert(urls == plain_addresses(images));
    if images.len() == 1 {
        assert(urls.drop_last() =~= Seq::<Seq<char>>::empty());
        assert(urls.last() == images[0]->Str_0);
        assert(Seq::<PartModel>::empty() + file_part("image"@, urls.last(), "image"@, got)
            =~= file_part("image"@, urls.last(), "image"@, got));
    }
}

proof fn lemma_parts_cover(
    m: Map<Seq<char>, Jv>,
    keys: Seq<Seq<char>>,
    n: int,
    got: Seq<(Seq<char>, Option<Jv>)>,
    i: int,
    k: int,
)
    requires
        0 <= i < n <= keys.len(),
        0 <= k < member_parts(keys[i], m[keys[i]], got).len(),
    ensures
        parts_upto(m, keys, n, got).contains(member_parts(keys[i], m[keys[i]], got)[k]),
    decreases n,
{
    let done = parts_upto(m, keys, n - 1, got);
    let more = member_parts(keys[n - 1], m[keys[n - 1]], got);
    let all = parts_upto(m, keys, n, got);
    assert(all == done + more);
    if i == n - 1 {
        assert(all[done.len() + k] == more[k]);
    } else {
        lemma_parts_cover(m, keys, n - 1, got, i, k);
        let j = choose|j: int|
            0 <= j < done.len() && done[j] == member_parts(keys[i], m[keys[i]], got)[k];
        assert(all[j] == done[j]);
    }
}

/// Every member of a form is sent with all its parts.
pub proof fn law_every_part_is_sent(
    body: Jv,
    got: Seq<(Seq<char>, Option<Jv>)>,
    m: Map<Seq<char>, Jv>,
    key: Seq<char>,
    k: int,
)
    requires
        body == Jv::Obj(m),
        lists_keys(key_list(m), m),
        m.dom().contains(key),
        0 <= k < member_parts(key, m[key], got).len(),
    ensures
        edit_parts(body, got).contains(member_parts(key, m[key], got)[k]),
{
    let keys = key_list(m);
    assert(keys.contains(key));
    let i = choose|i: int| 0 <= i < keys.len() && keys[i] == key;
    lemma_parts_cover(m, keys, keys.len() as int, got, i, k);
}

} // verus!
