//! What holds of images that are given by content or had by address.
use vstd::prelude::*;
use vstd::string::*;
use crate::double::Double;
use crate::json::{text_at, Jv};
use crate::media::{
    addresses, decoded, download_mime, fetched_for, image_data, inline_of, listed, media_address,
    resolved_image, sniffed,
};
use crate::text::{after_prefix, byte_count, holds, parted, pieces, trimmed};
use crate::text_laws::{law_not_parted, law_parted, law_pieces};

verus! {

/// A field lists a text as the one element, a list as it is, and nothing else.
pub proof fn law_listed(t: Seq<char>, a: Seq<Jv>, m: Map<Seq<char>, Jv>)
    ensures
        listed(Jv::Str(t)) == seq![Jv::Str(t)],
        listed(Jv::Arr(a)) == a,
        listed(Jv::Null).len() == 0,
        listed(Jv::Obj(m)).len() == 0,
{
}

/// Each element adds its address to the addresses, where it has one.
pub proof fn law_addresses(items: Seq<Jv>, item: Jv, u: Seq<char>)
    ensures
        media_address(item) == Some(u) ==> addresses(items.push(item)) == addresses(items).push(u),
        media_address(item) is None ==> addresses(items.push(item)) == addresses(items),
        u.len() > 0 ==> media_address(Jv::Str(u)) == Some(u),
        addresses(Seq::empty()) == Seq::<Seq<char>>::empty(),
{
    assert(items.push(item).drop_last() =~= items);
}

/// The kind of an image by its first bytes; one that is not known goes as PNG.
pub proof fn law_sniffed(rest: Seq<u8>, size: Seq<u8>)
    requires
        size.len() == 4,
    ensures
        sniffed(seq![0x89u8, 0x50, 0x4E, 0x47, 0x0D, 0x0A, 0x1A, 0x0A] + rest) == "image/png"@,
        sniffed(seq![0xFFu8, 0xD8, 0xFF] + rest) == "image/jpeg"@,
        sniffed(seq![0x47u8, 0x49, 0x46, 0x38] + rest) == "image/gif"@,
        sniffed(
            seq![0x52u8, 0x49, 0x46, 0x46] + size + seq![0x57u8, 0x45, 0x42, 0x50] + rest,
        ) == "image/webp"@,
        rest.len() > 0 && rest[0] != 0x89 && rest[0] != 0xFF && rest[0] != 0x47 && rest[0] != 0x52
            ==> sniffed(rest) == "image/png"@,
{
    let png = seq![0x89u8, 0x50, 0x4E, 0x47, 0x0D, 0x0A, 0x1A, 0x0A];
    let jpeg = seq![0xFFu8, 0xD8, 0xFF];
    let gif = seq![0x47u8, 0x49, 0x46, 0x38];
    let riff = seq![0x52u8, 0x49, 0x46, 0x46];
    let webp = seq![0x57u8, 0x45, 0x42, 0x50];
    lemma_prefix(png, png + rest);
    assert((png + rest).subrange(0, 8) =~= png);
    let b = jpeg + rest;
    assert(b.subrange(0, 3) =~= jpeg);
    lemma_prefix(png, b);
    let c = gif + rest;
    assert(c.subrange(0, 4) =~= gif);
    lemma_prefix(png, c);
    lemma_prefix(jpeg, c);
    let d = riff + size + webp + rest;
    assert(d.subrange(0, 4) =~= riff);
    assert(d.skip(8).subrange(0, 4) =~= webp);
    lemma_prefix(png, d);
    lemma_prefix(jpeg, d);
    lemma_prefix(gif, d);
    lemma_prefix(png, rest);
    lemma_prefix(jpeg, rest);
    lemma_prefix(gif, rest);
    lemma_prefix(riff, rest);
}

/// A text that begins with another begins with its first element.
proof fn lemma_prefix(p: Seq<u8>, s: Seq<u8>)
    requires
        p.len() > 0,
    ensures
        p.is_prefix_of(s) ==> s.len() >= p.len() && s[0] == p[0],
        s.len() >= p.len() && s.subrange(0, p.len() as int) == p ==> p.is_prefix_of(s),
{
    if p.is_prefix_of(s) {
        assert(s.subrange(0, p.len() as int)[0] == s[0]);
    }
}

/// A data URI is inline data: its kind is what stands before the first
/// semicolon, its content what follows the first comma.
pub proof fn law_inline_data(kind: Seq<char>, more: Seq<char>, data: Seq<char>, t: Seq<char>)
    requires
        !kind.contains(';') && !kind.contains(','),
        !more.contains(','),
        t == "data:"@ + (kind + seq![';'] + more + seq![','] + data),
        trimmed(t) == t,
    ensures
        inline_of(t) matches Some(v) && text_at(v, "data"@) == Some(data) && text_at(
            v,
            "mime_type"@,
        ) == Some(
            if kind.len() > 0 {
                kind
            } else {
                "image/png"@
            },
        ),
{
    reveal_strlit(";");
    reveal_strlit(",");
    reveal_strlit("data:");
    reveal_strlit("data");
    reveal_strlit("mime_type");
    assert(";"@ =~= seq![';']);
    assert(","@ =~= seq![',']);
    assert("data"@.len() == 4 && "mime_type"@.len() == 9);
    let meta = kind + seq![';'] + more;
    let rest = meta + seq![','] + data;
    assert(t.subrange(0, 5) =~= "data:"@);
    assert(t.skip(5) =~= rest);
    assert(kind + seq![';'] + more + seq![','] + data =~= rest);
    assert(!meta.contains(',')) by {
        if meta.contains(',') {
            let i = choose|i: int| 0 <= i < meta.len() && meta[i] == ',';
            if i < kind.len() {
                assert(kind[i] == ',');
            } else if i > kind.len() {
                assert(more[i - kind.len() - 1] == ',');
            }
        }
    }
    law_parted(meta, ',', data);
    law_pieces(kind, ';', more);
    assert(pieces(meta, seq![';'])[0] == kind);
}

/// What the bytes of a data URI are: its content decoded, with its kind.
pub proof fn law_image_data(t: Seq<char>, meta: Seq<char>, data: Seq<char>, b: Seq<u8>)
    requires
        trimmed(t) == t,
        t.len() > 0,
    ensures
        after_prefix(t, "data:"@) is Some && parted(after_prefix(t, "data:"@)->Some_0, ";base64,"@)
            == Some((meta, data)) && decoded(data) == Some(b) ==> image_data(t) == Some((b, meta)),
        after_prefix(t, "data:"@) is Some && parted(after_prefix(t, "data:"@)->Some_0, ";base64,"@)
            is None ==> image_data(t) is None,
        after_prefix(t, "data:"@) is None && (holds(t, "."@) || holds(t, ":"@)) ==> image_data(t)
            is None,
        after_prefix(t, "data:"@) is None && !holds(t, "."@) && !holds(t, ":"@) && decoded(t)
            == Some(b) && b.len() > 10 ==> image_data(t) == Some((b, sniffed(b))),
        after_prefix(t, "data:"@) is None && !holds(t, "."@) && !holds(t, ":"@) && decoded(t)
            == Some(b) && b.len() <= 10 ==> image_data(t) is None,
{
}

/// The kind of a download is what stands before a semicolon in its content
/// type; one without goes as PNG.
pub proof fn law_download_mime(kind: Seq<char>, more: Seq<char>)
    requires
        !kind.contains(';'),
        trimmed(kind) == kind,
    ensures
        download_mime(Some(kind)) == kind,
        download_mime(Some(kind + seq![';'] + more)) == kind,
        download_mime(None) == "image/png"@,
{
    reveal_strlit(";");
    reveal_strlit("image/png");
    assert(";"@ =~= seq![';']);
    law_not_parted(kind, ';');
    law_pieces(kind, ';', more);
    assert(!"image/png"@.contains(';'));
    law_not_parted("image/png"@, ';');
    assert(trimmed("image/png"@) == "image/png"@);
}

/// What was had for an address is what came first for it.
pub proof fn law_fetched_for(
    u: Seq<char>,
    v: Option<Jv>,
    more: Seq<(Seq<char>, Option<Jv>)>,
    url: Seq<char>,
)
    ensures
        u == url ==> fetched_for(seq![(u, v)] + more, url) == v,
        u != url ==> fetched_for(seq![(u, v)] + more, url) == fetched_for(more, url),
        fetched_for(Seq::empty(), url) is None,
{
    assert((seq![(u, v)] + more).drop_first() =~= more);
}

/// An image by a web address is what was had for it; a data URI is its own
/// content; anything else that is short is no image.
pub proof fn law_resolved_image(t: Seq<char>, got: Seq<(Seq<char>, Option<Jv>)>)
    requires
        trimmed(t) == t,
        t.len() > 0,
    ensures
        "http"@.is_prefix_of(t) ==> resolved_image(t, got) == fetched_for(got, t),
        "data:"@.is_prefix_of(t) ==> resolved_image(t, got) == inline_of(t),
        !"http"@.is_prefix_of(t) && !"data:"@.is_prefix_of(t) && byte_count(t) <= 100
            ==> resolved_image(t, got) is None,
        !"http"@.is_prefix_of(t) && !"data:"@.is_prefix_of(t) && byte_count(t) > 100
            ==> resolved_image(t, got) == inline_of(t),
{
    reveal_strlit("http");
    reveal_strlit("data:");
    assert("http"@[0] == 'h' && "data:"@[0] == 'd');
    if "http"@.is_prefix_of(t) {
        assert(t.subrange(0, 4)[0] == t[0]);
        if "data:"@.is_prefix_of(t) {
            assert(t.subrange(0, 5)[0] == t[0]);
        }
    }
}

// ---------------------------------------------------------------- numbers

/// Of two numbers one is the smaller, or they are the same; the order carries
/// over, and what is no number compares with nothing.
pub proof fn law_order(a: Double, b: Double, c: Double)
    ensures
        !crate::double::is_nan(a.bits) && !crate::double::is_nan(b.bits) ==> a.below(b) || b.below(
            a,
        ) || a.equals(b),
        a.below(b) ==> !b.below(a) && !a.equals(b),
        a.below(b) && b.below(c) ==> a.below(c),
        a.at_most(b) <==> a.below(b) || a.equals(b),
        crate::double::is_nan(a.bits) ==> !a.below(b) && !b.below(a) && !a.equals(b) && !a.at_most(
            b,
        ),
        (Double { bits: 0x8000_0000_0000_0000 }).equals(Double { bits: 0 }),
        (Double { bits: 0 }).below(Double { bits: 0x3FF0_0000_0000_0000 }),
        (Double { bits: 0xBFF0_0000_0000_0000 }).below(Double { bits: 0 }),
{
}

} // verus!
