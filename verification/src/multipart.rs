//! Multipart forms: a client's form read as a JSON object, and the form of an
//! image edit made from one.
use vstd::prelude::*;
use vstd::string::*;
use vstd::utf8::{decode_utf8, valid_utf8};
use crate::json::{
    copy_items, copy_members, json_text, key_list, list1, lists_keys, members_in, opt_string,
    opt_text, parsed_json, single, text_at, texts, views, Json, JsonMap, Jv,
};
use crate::media::{
    b64_encoded, b64_standard, collect_image_urls, decode_b64, decode_standard, decoded, encodable,
    encode_standard, fetched_views, image_data, image_urls, in_base64_alphabet, parse_image_data,
    resolve_image, resolved_image, Fetched,
};
use crate::text::{
    after_prefix, back_trimmed, chars_of, contains, first_at, front_trimmed, holds, lemma_place_is,
    occurs_at, parted, pieces, same, split, starts_with, trim, trimmed,
};

verus! {

// ---------------------------------------------------------------- a client's form

/// What a field of a form holds.
#[derive(Debug)]
pub enum FieldValue {
    /// A file: its media type, where one is given, and its bytes.
    File(Option<String>, Vec<u8>),
    Text(String),
}

/// A field of a form.
#[derive(Debug)]
pub struct FormField {
    pub name: String,
    pub value: FieldValue,
}

/// `std::str::from_utf8`: the text that bytes encode in UTF-8, or nothing where
/// they are no UTF-8.
#[verifier::external_body]
fn utf8_text(b: &[u8]) -> (r: Option<&str>)
    ensures
        r is Some == valid_utf8(b@),
        r is Some ==> r->Some_0@ == decode_utf8(b@),
{
    std::str::from_utf8(b).ok()
}

/// Whether a character may stand in base64 text with line breaks.
pub open spec fn is_base64_char(c: char) -> bool {
    ('0' <= c <= '9') || ('A' <= c <= 'Z') || ('a' <= c <= 'z') || c == '+' || c == '/' || c == '='
        || c == ' ' || c == '\t' || c == '\n' || c == '\r' || c == '\x0C'
}

pub open spec fn is_base64_text(s: Seq<char>) -> bool {
    forall|i: int| 0 <= i < s.len() ==> is_base64_char(#[trigger] s[i])
}

fn base64_text(s: &str) -> (r: bool)
    ensures
        r == is_base64_text(s@),
{
    let x = chars_of(s);
    let mut i: usize = 0;
    while i < x.len()
        invariant
            i <= x@.len(),
            x@ == s@,
            forall|k: int| 0 <= k < i ==> is_base64_char(#[trigger] s@[k]),
        decreases x@.len() - i,
    {
        let c: char = x[i];
        let ok = ('0' <= c && c <= '9') || ('A' <= c && c <= 'Z') || ('a' <= c && c <= 'z') || c
            == '+' || c == '/' || c == '=' || c == ' ' || c == '\t' || c == '\n' || c == '\r' || c
            == '\x0C';
        if !ok {
            assert(!is_base64_char(s@[i as int]));
            return false;
        }
        i += 1;
    }
    true
}

/// A data address.
pub open spec fn data_address(mime: Seq<char>, data: Seq<char>) -> Seq<char> {
    "data:"@ + mime + ";base64,"@ + data
}

/// The data address that the bytes of a file write as text already, or the
/// base64 that they write.
pub open spec fn address_in(mime: Seq<char>, bytes: Seq<u8>) -> Option<Seq<char>> {
    if valid_utf8(bytes) {
        let s = trimmed(decode_utf8(bytes));
        if "data:"@.is_prefix_of(s) && holds(s, ";base64,"@) {
            Some(s)
        } else if s.len() > 0 && is_base64_text(s) && b64_standard(s) is Some {
            Some(data_address(mime, s))
        } else {
            None
        }
    } else {
        None
    }
}

/// The data address of a file: the one that its bytes write already, or else
/// one with the bytes in base64.
pub open spec fn file_address(mime: Option<Seq<char>>, bytes: Seq<u8>) -> Seq<char> {
    let kind = match mime {
        Some(m) => m,
        None => "application/octet-stream"@,
    };
    match address_in(kind, bytes) {
        Some(s) => s,
        None => data_address(kind, b64_encoded(bytes)),
    }
}

fn make_address(mime: &str, data: &str) -> (r: String)
    ensures
        r@ == data_address(mime@, data@),
{
    let mut out = "data:".to_owned();
    out.append(mime);
    out.append(";base64,");
    out.append(data);
    out
}

proof fn lemma_data_address(mime: Seq<char>, data: Seq<char>)
    requires
        !holds(mime, ";base64,"@),
        in_base64_alphabet(data),
    ensures
        trimmed(data_address(mime, data)) == data_address(mime, data),
        after_prefix(data_address(mime, data), "data:"@) == Some(mime + ";base64,"@ + data),
        parted(mime + ";base64,"@ + data, ";base64,"@) == Some((mime, data)),
{
    let s = data_address(mime, data);
    let p = ";base64,"@;
    let rest = mime + p + data;
    reveal_strlit("data:");
    reveal_strlit(";base64,");
    assert(s[0] == 'd');
    assert(front_trimmed(s) == s);
    if data.len() > 0 {
        assert(s.last() == data.last());
        assert(data[data.len() - 1] == data.last());
    } else {
        assert(s.last() == ',');
    }
    assert(back_trimmed(s) == s);
    assert(s.take(5) =~= "data:"@);
    assert(s.skip(5) =~= rest);
    let n = mime.len() as int;
    assert(rest.subrange(n, n + p.len()) =~= p);
    assert forall|j: int| 0 <= j < n implies !#[trigger] occurs_at(rest, p, j) by {
        if occurs_at(rest, p, j) {
            if j + p.len() <= n {
                assert(mime.subrange(j, j + p.len()) =~= p);
                assert(occurs_at(mime, p, j));
            } else {
                assert(rest[n] == ';');
                assert(rest.subrange(j, j + p.len())[n - j] == p[n - j]);
            }
        }
    }
    assert(first_at(rest, p, n));
    lemma_place_is(rest, p, n);
    assert(rest.take(n) =~= mime);
    assert(rest.skip(n + p.len()) =~= data);
}

/// Makes the data address of a file. Where the bytes write no address
/// themselves, they are read back from it.
pub fn file_data_uri(mime: Option<&str>, bytes: &Vec<u8>) -> (r: String)
    requires
        encodable(bytes@.len() as int),
    ensures
        r@ == file_address(opt_text(mime), bytes@),
        mime is Some && address_in(mime->Some_0@, bytes@) is None && !holds(
            mime->Some_0@,
            ";base64,"@,
        ) ==> image_data(r@) == Some((bytes@, mime->Some_0@)),
{
    let kind = match mime {
        Some(m) => m,
        None => "application/octet-stream",
    };
    match utf8_text(bytes.as_slice()) {
        Some(t) => {
            let s = trim(t);
            if starts_with(s, "data:") && contains(s, ";base64,") {
                return s.to_owned();
            }
            if !s.is_empty() && base64_text(s) {
                if decode_standard(s).is_some() {
                    return make_address(kind, s);
                }
            }
        },
        None => {},
    }
    let data = encode_standard(bytes.as_slice());
    proof {
        if !holds(kind@, ";base64,"@) {
            lemma_data_address(kind@, data@);
        }
    }
    make_address(kind, data.as_str())
}

/// What a field holds, as JSON: a file as its data address, and a text as the
/// JSON that it writes, or as itself.
pub open spec fn field_json(v: FieldValue) -> Jv {
    match v {
        FieldValue::File(mime, bytes) => Jv::Str(
            file_address(opt_string(mime), bytes@),
        ),
        FieldValue::Text(t) => match parsed_json(t@) {
            Some(j) => j,
            None => Jv::Str(t@),
        },
    }
}

/// Whether the bytes of a file are few enough for base64.
pub open spec fn fits(v: FieldValue) -> bool {
    match v {
        FieldValue::File(_, bytes) => encodable(bytes@.len() as int),
        FieldValue::Text(_) => true,
    }
}

/// An object with a value under a name; a name that is taken gets a list.
pub open spec fn merged(m: Map<Seq<char>, Jv>, name: Seq<char>, v: Jv) -> Map<Seq<char>, Jv> {
    if m.dom().contains(name) {
        match m[name] {
            Jv::Arr(a) => m.insert(name, Jv::Arr(a.push(v))),
            first => m.insert(name, Jv::Arr(seq![first, v])),
        }
    } else {
        m.insert(name, v)
    }
}

/// The object of a form: fields without a name are left out.
pub open spec fn form_members(fields: Seq<FormField>) -> Map<Seq<char>, Jv>
    decreases fields.len(),
{
    if fields.len() == 0 {
        Map::empty()
    } else {
        let done = form_members(fields.drop_last());
        if fields.last().name@.len() == 0 {
            done
        } else {
            merged(done, fields.last().name@, field_json(fields.last().value))
        }
    }
}

fn read_field(v: &FieldValue) -> (r: Json)
    requires
        fits(*v),
    ensures
        r@ == field_json(*v),
{
    match v {
        FieldValue::File(mime, bytes) => {
            let kind = match mime {
                Some(m) => Some(m.as_str()),
                None => None,
            };
            let s = file_data_uri(kind, bytes);
            Json::text(s.as_str())
        },
        FieldValue::Text(t) => match Json::parse(t.as_str()) {
            Some(j) => j,
            None => Json::text(t.as_str()),
        },
    }
}

fn merge(m: &mut JsonMap, name: &str, v: Json)
    ensures
        final(m)@ == merged(old(m)@, name@, v@),
{
    let ghost start = m@;
    let taken = match m.get(name) {
        Some(x) => Some(x.dup()),
        None => None,
    };
    match taken {
        Some(x) => {
            let list = if x.as_array().is_some() {
                let mut a = copy_items(Some(&x));
                let ghost before = views(a@);
                a.push(v);
                proof {
                    assert(views(a@) =~= before.push(v@));
                }
                Json::arr(a)
            } else {
                let mut a: Vec<Json> = Vec::new();
                a.push(x);
                a.push(v);
                proof {
                    assert(views(a@) =~= seq![x@, v@]);
                }
                Json::arr(a)
            };
            m.insert(name, list);
        },
        None => {
            m.insert(name, v);
        },
    }
}

/// Reads a form as a JSON object.
pub fn parse_multipart_to_json(fields: &Vec<FormField>) -> (r: Json)
    requires
        forall|i: int| 0 <= i < fields@.len() ==> fits((#[trigger] fields@[i]).value),
    ensures
        r@ == Jv::Obj(form_members(fields@)),
{
    let mut out = JsonMap::new();
    let mut i: usize = 0;
    proof {
        assert(fields@.take(0) =~= Seq::<FormField>::empty());
    }
    while i < fields.len()
        invariant
            forall|i: int| 0 <= i < fields@.len() ==> fits((#[trigger] fields@[i]).value),
            i <= fields@.len(),
            out@ == form_members(fields@.take(i as int)),
        decreases fields@.len() - i,
    {
        proof {
            assert(fields@.take(i + 1).drop_last() =~= fields@.take(i as int));
            assert(fields@.take(i + 1).last() == fields@[i as int]);
        }
        let name = fields[i].name.as_str();
        if !name.is_empty() {
            let v = read_field(&fields[i].value);
            merge(&mut out, name, v);
        }
        i += 1;
    }
    proof {
        assert(fields@.take(i as int) =~= fields@);
    }
    Json::Obj(out)
}

/// A field of a form whose name no other field has stands in the object as it
/// is.
pub proof fn law_single_field(fields: Seq<FormField>, i: int)
    requires
        0 <= i < fields.len(),
        fields[i].name@.len() > 0,
        forall|j: int|
            0 <= j < fields.len() && j != i ==> (#[trigger] fields[j]).name@ != fields[i].name@,
    ensures
        form_members(fields).contains_pair(fields[i].name@, field_json(fields[i].value)),
    decreases fields.len(),
{
    let before = fields.drop_last();
    if i < fields.len() - 1 {
        assert(before[i] == fields[i]);
        assert forall|j: int| 0 <= j < before.len() && j != i implies (
        #[trigger] before[j]).name@ != before[i].name@ by {
            assert(before[j] == fields[j]);
        }
        law_single_field(before, i);
        assert(fields[fields.len() - 1].name@ != fields[i].name@);
    } else {
        lemma_absent(before, fields[i].name@);
    }
}

proof fn lemma_absent(fields: Seq<FormField>, name: Seq<char>)
    requires
        forall|j: int| 0 <= j < fields.len() ==> (#[trigger] fields[j]).name@ != name,
    ensures
        !form_members(fields).dom().contains(name),
    decreases fields.len(),
{
    if fields.len() > 0 {
        let before = fields.drop_last();
        assert forall|j: int| 0 <= j < before.len() implies (#[trigger] before[j]).name@ != name by {
            assert(before[j] == fields[j]);
        }
        lemma_absent(before, name);
        assert(fields[fields.len() - 1].name@ != name);
    }
}

// ---------------------------------------------------------------- the form of an edit

/// A part of the form of an image edit.
#[derive(Debug)]
pub enum EditPart {
    /// A file: its name in the form, its file name, its media type, its bytes.
    File(String, String, String, Vec<u8>),
    /// A text, with its name in the form.
    Text(String, String),
}

/// A part of a form, as a mathematical value.
pub enum PartModel {
    File(Seq<char>, Seq<char>, Seq<char>, Seq<u8>),
    Text(Seq<char>, Seq<char>),
}

impl View for EditPart {
    type V = PartModel;

    open spec fn view(&self) -> PartModel {
        match *self {
            EditPart::File(n, f, m, b) => PartModel::File(n@, f@, m@, b@),
            EditPart::Text(n, t) => PartModel::Text(n@, t@),
        }
    }
}

pub open spec fn part_views(s: Seq<EditPart>) -> Seq<PartModel> {
    s.map_values(|p: EditPart| p@)
}

/// Whether a member holds the images of an edit.
pub open spec fn is_image_key(key: Seq<char>) -> bool {
    key == "images"@ || key == "image"@ || key == "image_urls"@ || key == "image[]"@
}

fn image_key(key: &str) -> (r: bool)
    ensures
        r == is_image_key(key@),
{
    same(key, "images") || same(key, "image") || same(key, "image_urls") || same(key, "image[]")
}

/// The images that a value names.
pub open spec fn urls_in(v: Jv) -> Seq<Seq<char>> {
    image_urls(single("t"@, v), seq!["t"@])
}

fn list_urls(v: &Json) -> (r: Vec<String>)
    ensures
        texts(r@) == urls_in(v@),
{
    let wrapped = Json::empty().with("t", v.dup());
    let fields = list1("t");
    collect_image_urls(&wrapped, &fields)
}

/// The mask that a value names.
pub open spec fn mask_in(v: Jv) -> Seq<char> {
    match v.text() {
        Some(s) => s,
        None => Seq::empty(),
    }
}

/// The images and the mask under the first `n` keys.
pub open spec fn edit_urls_upto(
    m: Map<Seq<char>, Jv>,
    keys: Seq<Seq<char>>,
    n: int,
) -> Seq<Seq<char>>
    decreases n,
{
    if n <= 0 {
        Seq::empty()
    } else {
        let done = edit_urls_upto(m, keys, n - 1);
        let k = keys[n - 1];
        if is_image_key(k) {
            done + urls_in(m[k])
        } else if k == "mask"@ && trimmed(mask_in(m[k])).len() > 0 {
            done.push(mask_in(m[k]))
        } else {
            done
        }
    }
}

/// The images and the mask of an edit.
pub open spec fn edit_urls(body: Jv) -> Seq<Seq<char>> {
    let m = members_in(Some(body));
    edit_urls_upto(m, key_list(m), key_list(m).len() as int)
}

/// The ending of a file with a media type: what stands behind the last slash,
/// up to a semicolon.
pub open spec fn file_ending(mime: Seq<char>) -> Seq<char> {
    trimmed(pieces(pieces(mime, "/"@).last(), ";"@)[0])
}

/// The bytes and the media type of inline data.
pub open spec fn inline_bytes(v: Jv) -> Option<(Seq<u8>, Seq<char>)> {
    match (text_at(v, "mime_type"@), text_at(v, "data"@)) {
        (Some(mime), Some(data)) => match decoded(data) {
            Some(b) => Some((b, mime)),
            None => None,
        },
        _ => None,
    }
}

/// The bytes and the media type of an image: its inline data, or what its own
/// text encodes.
pub open spec fn image_bytes(url: Seq<char>, got: Seq<(Seq<char>, Option<Jv>)>) -> Option<
    (Seq<u8>, Seq<char>),
> {
    let inline = match resolved_image(url, got) {
        Some(v) => inline_bytes(v),
        None => None,
    };
    match inline {
        Some(x) => Some(x),
        None => image_data(url),
    }
}

/// The part of an image: a file where its bytes are to be had, or else its
/// address as text; none for a blank address.
pub open spec fn file_part(
    name: Seq<char>,
    url: Seq<char>,
    file: Seq<char>,
    got: Seq<(Seq<char>, Option<Jv>)>,
) -> Seq<PartModel> {
    let t = trimmed(url);
    if t.len() == 0 {
        Seq::empty()
    } else {
        match image_bytes(t, got) {
            Some((b, mime)) => seq![
                PartModel::File(name, file + "."@ + file_ending(mime), mime, b),
            ],
            None => seq![PartModel::Text(name, t)],
        }
    }
}

/// The parts of some images.
pub open spec fn image_parts(
    name: Seq<char>,
    urls: Seq<Seq<char>>,
    got: Seq<(Seq<char>, Option<Jv>)>,
) -> Seq<PartModel>
    decreases urls.len(),
{
    if urls.len() == 0 {
        Seq::empty()
    } else {
        image_parts(name, urls.drop_last(), got) + file_part(name, urls.last(), "image"@, got)
    }
}

/// The parts of one member: images as files, the mask as a file, and anything
/// else as text, unless it is a null.
pub open spec fn member_parts(key: Seq<char>, v: Jv, got: Seq<(Seq<char>, Option<Jv>)>) -> Seq<
    PartModel,
> {
    if is_image_key(key) {
        let urls = urls_in(v);
        let name = if urls.len() == 1 {
            "image"@
        } else {
            "image[]"@
        };
        image_parts(name, urls, got)
    } else if key == "mask"@ {
        file_part("mask"@, mask_in(v), "mask"@, got)
    } else {
        match v {
            Jv::Null => Seq::empty(),
            Jv::Str(s) => seq![PartModel::Text(key, s)],
            _ => seq![PartModel::Text(key, json_text(v))],
        }
    }
}

/// The parts of the members under the first `n` keys.
pub open spec fn parts_upto(
    m: Map<Seq<char>, Jv>,
    keys: Seq<Seq<char>>,
    n: int,
    got: Seq<(Seq<char>, Option<Jv>)>,
) -> Seq<PartModel>
    decreases n,
{
    if n <= 0 {
        Seq::empty()
    } else {
        parts_upto(m, keys, n - 1, got) + member_parts(keys[n - 1], m[keys[n - 1]], got)
    }
}

/// The parts of the form of an edit.
pub open spec fn edit_parts(body: Jv, got: Seq<(Seq<char>, Option<Jv>)>) -> Seq<PartModel> {
    let m = members_in(Some(body));
    parts_upto(m, key_list(m), key_list(m).len() as int, got)
}

fn append_all(out: &mut Vec<String>, more: Vec<String>)
    ensures
        texts(final(out)@) == texts(old(out)@) + texts(more@),
{
    let ghost start = out@;
    let mut more = more;
    let ghost added = more@;
    out.append(&mut more);
    proof {
        assert(texts(out@) =~= texts(start) + texts(added));
    }
}

/// Lists the images and the mask of an edit.
pub fn edit_image_urls(body: &Json) -> (r: Vec<String>)
    ensures
        texts(r@) == edit_urls(body@),
{
    let obj = copy_members(Some(body));
    let keys = obj.keys();
    let ghost ks = key_list(obj@);
    let mut out: Vec<String> = Vec::new();
    let mut i: usize = 0;
    proof {
        assert(texts(out@) =~= Seq::<Seq<char>>::empty());
    }
    while i < keys.len()
        invariant
            i <= keys@.len(),
            ks == texts(keys@),
            lists_keys(ks, obj@),
            texts(out@) == edit_urls_upto(obj@, ks, i as int),
        decreases keys@.len() - i,
    {
        let key = keys[i].as_str();
        assert(ks[i as int] == key@);
        assert(ks.contains(key@));
        match obj.get(key) {
            Some(v) => {
                if image_key(key) {
                    let urls = list_urls(v);
                    append_all(&mut out, urls);
                } else if same(key, "mask") {
                    match v.as_str() {
                        Some(s) => {
                            if !trim(s).is_empty() {
                                let ghost before = out@;
                                out.push(s.to_owned());
                                proof {
                                    assert(texts(out@) =~= texts(before).push(s@));
                                }
                            }
                        },
                        None => {
                            assert(trimmed(Seq::<char>::empty()) =~= Seq::<char>::empty());
                        },
                    }
                }
            },
            None => {},
        }
        i += 1;
    }
    out
}

fn find_bytes(url: &str, got: &Vec<Fetched>) -> (r: Option<(Vec<u8>, String)>)
    ensures
        match r {
            Some((b, m)) => image_bytes(url@, fetched_views(got@)) == Some((b@, m@)),
            None => image_bytes(url@, fetched_views(got@)) is None,
        },
{
    match resolve_image(url, got) {
        Some(v) => match (v.get_str("mime_type"), v.get_str("data")) {
            (Some(mime), Some(data)) => match decode_b64(data) {
                Some(b) => {
                    return Some((b, mime.to_owned()));
                },
                None => {},
            },
            _ => {},
        },
        None => {},
    }
    parse_image_data(url)
}

fn ending_of(mime: &str) -> (r: String)
    ensures
        r@ == file_ending(mime@),
{
    proof {
        reveal_strlit("/");
        reveal_strlit(";");
    }
    let parts = split(mime, "/");
    let last = parts[parts.len() - 1];
    assert(last@ == pieces(mime@, "/"@).last());
    let halves = split(last, ";");
    assert(halves@[0]@ == pieces(last@, ";"@)[0]);
    trim(halves[0]).to_owned()
}

fn add_file_part(
    out: &mut Vec<EditPart>,
    name: &str,
    url: &str,
    file: &str,
    got: &Vec<Fetched>,
)
    ensures
        part_views(final(out)@) == part_views(old(out)@) + file_part(
            name@,
            url@,
            file@,
            fetched_views(got@),
        ),
{
    let ghost before = out@;
    let t = trim(url);
    if t.is_empty() {
        proof {
            assert(part_views(before) + Seq::<PartModel>::empty() =~= part_views(before));
        }
        return ;
    }
    let part = match find_bytes(t, got) {
        Some((b, mime)) => {
            let mut filename = file.to_owned();
            filename.append(".");
            let ending = ending_of(mime.as_str());
            filename.append(ending.as_str());
            EditPart::File(name.to_owned(), filename, mime, b)
        },
        None => EditPart::Text(name.to_owned(), t.to_owned()),
    };
    out.push(part);
    proof {
        assert(part_views(out@) =~= part_views(before) + seq![part@]);
    }
}

fn add_member(out: &mut Vec<EditPart>, key: &str, v: &Json, got: &Vec<Fetched>)
    ensures
        part_views(final(out)@) == part_views(old(out)@) + member_parts(
            key@,
            v@,
            fetched_views(got@),
        ),
{
    let ghost before = out@;
    if image_key(key) {
        let urls = list_urls(v);
        let ghost all = texts(urls@);
        let name = if urls.len() == 1 {
            "image"
        } else {
            "image[]"
        };
        let mut i: usize = 0;
        proof {
            assert(all.take(0) =~= Seq::<Seq<char>>::empty());
            assert(part_views(before) + Seq::<PartModel>::empty() =~= part_views(before));
        }
        while i < urls.len()
            invariant
                i <= urls@.len(),
                all == texts(urls@),
                part_views(out@) == part_views(before) + image_parts(
                    name@,
                    all.take(i as int),
                    fetched_views(got@),
                ),
            decreases urls@.len() - i,
        {
            proof {
                assert(all.take(i + 1).drop_last() =~= all.take(i as int));
                assert(all.take(i + 1).last() == urls@[i as int]@);
            }
            let ghost done = image_parts(name@, all.take(i as int), fetched_views(got@));
            let ghost one = file_part(name@, urls@[i as int]@, "image"@, fetched_views(got@));
            add_file_part(out, name, urls[i].as_str(), "image", got);
            proof {
                assert((part_views(before) + done) + one =~= part_views(before) + (done + one));
            }
            i += 1;
        }
        proof {
            assert(all.take(i as int) =~= all);
        }
        return ;
    }
    if same(key, "mask") {
        match v.as_str() {
            Some(s) => {
                add_file_part(out, "mask", s, "mask", got);
            },
            None => {
                proof {
                    reveal_strlit("");
                    assert(""@ =~= Seq::<char>::empty());
                }
                add_file_part(out, "mask", "", "mask", got);
            },
        }
        return ;
    }
    match v {
        Json::Null => {
            proof {
                assert(part_views(before) + Seq::<PartModel>::empty() =~= part_views(before));
            }
        },
        Json::Str(s) => {
            out.push(EditPart::Text(key.to_owned(), s.clone()));
            proof {
                assert(part_views(out@) =~= part_views(before) + seq![PartModel::Text(key@, s@)]);
            }
        },
        _ => {
            let t = v.to_text();
            out.push(EditPart::Text(key.to_owned(), t));
            proof {
                assert(part_views(out@) =~= part_views(before) + seq![PartModel::Text(key@, t@)]);
            }
        },
    }
}

/// Makes the parts of the form of an edit, given the images that were
/// downloaded.
pub fn build_edits_multipart(body: &Json, got: &Vec<Fetched>) -> (r: Vec<EditPart>)
    ensures
        part_views(r@) == edit_parts(body@, fetched_views(got@)),
{
    let obj = copy_members(Some(body));
    let keys = obj.keys();
    let ghost ks = key_list(obj@);
    let mut out: Vec<EditPart> = Vec::new();
    let mut i: usize = 0;
    proof {
        assert(part_views(out@) =~= Seq::<PartModel>::empty());
    }
    while i < keys.len()
        invariant
            i <= keys@.len(),
            ks == texts(keys@),
            lists_keys(ks, obj@),
            part_views(out@) == parts_upto(obj@, ks, i as int, fetched_views(got@)),
        decreases keys@.len() - i,
    {
        let key = keys[i].as_str();
        assert(ks[i as int] == key@);
        assert(ks.contains(key@));
        match obj.get(key) {
            Some(v) => {
                add_member(&mut out, key, v, got);
            },
            None => {},
        }
        i += 1;
    }
    out
}

} // verus!
