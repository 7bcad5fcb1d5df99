//! The payloads that the service returns for each stage, and their JSON form:
//! an object with one key, the variant's tag, whose value holds its fields.

use vstd::prelude::*;
use crate::json::{DecodeError, Json, decimal, quoted, field, field_from, find_field, push_decimal, push_quoted, same_text};
use crate::url_value::{Url, canonical_url};

verus! {

/// Size in bytes and MIME type of an image.
#[derive(Debug, Clone)]
pub struct ImageAttributes {
    pub size: usize,
    pub type_: String,
}

impl View for ImageAttributes {
    type V = (usize, Seq<char>);

    open spec fn view(&self) -> (usize, Seq<char>) {
        (self.size, self.type_@)
    }
}

/// What the service reports of one stage of an operation.
#[derive(Debug, Clone)]
pub enum Data {
    Source { url: Url },
    Input(ImageAttributes),
    Output(ImageAttributes),
    Resize { method: String, width: Option<usize>, height: Option<usize> },
}

/// The mathematical value of a `Data`.
pub enum DataView {
    Source { url: Seq<char> },
    Input((usize, Seq<char>)),
    Output((usize, Seq<char>)),
    Resize { method: Seq<char>, width: Option<usize>, height: Option<usize> },
}

impl View for Data {
    type V = DataView;

    open spec fn view(&self) -> DataView {
        match self {
            Data::Source { url } => DataView::Source { url: url@ },
            Data::Input(a) => DataView::Input(a@),
            Data::Output(a) => DataView::Output(a@),
            Data::Resize { method, width, height } => DataView::Resize {
                method: method@,
                width: *width,
                height: *height,
            },
        }
    }
}

// ---- the text form ----

/// The JSON text of image attributes.
pub open spec fn attributes_text(a: (usize, Seq<char>)) -> Seq<char> {
    "{\"size\":"@ + decimal(a.0 as nat) + ",\"type\":"@ + quoted(a.1) + "}"@
}

/// The JSON text of an optional count: its digits, or `null`.
pub open spec fn optional_text(v: Option<usize>) -> Seq<char> {
    match v {
        Some(n) => decimal(n as nat),
        None => "null"@,
    }
}

/// The JSON text of a payload.
pub open spec fn data_text(d: DataView) -> Seq<char> {
    match d {
        DataView::Source { url } => "{\"source\":{\"url\":"@ + quoted(url) + "}}"@,
        DataView::Input(a) => "{\"input\":"@ + attributes_text(a) + "}"@,
        DataView::Output(a) => "{\"output\":"@ + attributes_text(a) + "}"@,
        DataView::Resize { method, width, height } => "{\"resize\":{\"method\":"@ + quoted(method)
            + ",\"width\":"@ + optional_text(width) + ",\"height\":"@ + optional_text(height)
            + "}}"@,
    }
}

fn push_attributes(out: &mut String, a: &ImageAttributes)
    ensures
        final(out)@ == old(out)@ + attributes_text(a@),
{
    let ghost start = out@;
    out.append("{\"size\":");
    push_decimal(out, a.size as u64);
    out.append(",\"type\":");
    push_quoted(out, a.type_.as_str());
    out.append("}");
    assert(out@ =~= start + attributes_text(a@));
}

fn attributes_json(a: &ImageAttributes) -> (r: Json)
    ensures
        attributes_of_json(r) == Some(a@),
{
    proof {
        reveal_strlit("size"); reveal_strlit("type");
    }
    let mut fs: Vec<(String, Json)> = Vec::new();
    fs.push((String::from_str("size"), Json::Number(a.size as u64)));
    fs.push((String::from_str("type"), Json::Str(a.type_.clone())));
    assert("type"@[0] != "size"@[0]);
    assert(field_from(fs@, "type"@, 1) == Some(fs@[1].1));
    assert(field(fs@, "type"@) == Some(fs@[1].1));
    assert(field(fs@, "size"@) == Some(fs@[0].1));
    Json::Object(fs)
}

fn optional_json(v: Option<usize>) -> (r: Json)
    ensures
        optional_of_json(Some(r)) == Some(v),
{
    match v {
        Some(n) => Json::Number(n as u64),
        None => Json::Null,
    }
}

fn push_optional(out: &mut String, v: Option<usize>)
    ensures
        final(out)@ == old(out)@ + optional_text(v),
{
    match v {
        Some(n) => push_decimal(out, n as u64),
        None => out.append("null"),
    }
}

// ---- the document form ----

/// Image attributes read from a JSON object with `size` and `type`.
pub open spec fn attributes_of_json(j: Json) -> Option<(usize, Seq<char>)> {
    match j {
        Json::Object(fs) => match (field(fs@, "size"@), field(fs@, "type"@)) {
            (Some(Json::Number(n)), Some(Json::Str(t))) => if n <= usize::MAX {
                Some((n as usize, t@))
            } else {
                None
            },
            _ => None,
        },
        _ => None,
    }
}

/// An optional count read from an absent entry, `null` or a number.
pub open spec fn optional_of_json(v: Option<Json>) -> Option<Option<usize>> {
    match v {
        None => Some(None),
        Some(Json::Null) => Some(None),
        Some(Json::Number(n)) => if n <= usize::MAX {
            Some(Some(n as usize))
        } else {
            None
        },
        _ => None,
    }
}

/// The fields of the `source` variant read from a JSON object.
pub open spec fn source_of_json(j: Json) -> Option<DataView> {
    match j {
        Json::Object(fs) => match field(fs@, "url"@) {
            Some(Json::Str(u)) => match canonical_url(u@) {
                Some(c) => Some(DataView::Source { url: c }),
                None => None,
            },
            _ => None,
        },
        _ => None,
    }
}

/// The fields of the `resize` variant read from a JSON object.
pub open spec fn resize_of_json(j: Json) -> Option<DataView> {
    match j {
        Json::Object(fs) => match (
            field(fs@, "method"@),
            optional_of_json(field(fs@, "width"@)),
            optional_of_json(field(fs@, "height"@)),
        ) {
            (Some(Json::Str(m)), Some(w), Some(h)) => Some(
                DataView::Resize { method: m@, width: w, height: h },
            ),
            _ => None,
        },
        _ => None,
    }
}

/// Whether `k` is the tag of one of the variants.
pub open spec fn is_tag(k: Seq<char>) -> bool {
    k == "source"@ || k == "input"@ || k == "output"@ || k == "resize"@
}

/// The payload that a JSON document denotes: an object with exactly one
/// entry, whose key is a tag and whose value holds that variant's fields.
pub open spec fn data_of_json(j: Json) -> Option<DataView> {
    match j {
        Json::Object(fs) => if fs@.len() == 1 {
            let k = fs@[0].0@;
            let v = fs@[0].1;
            if k == "source"@ {
                source_of_json(v)
            } else if k == "input"@ {
                match attributes_of_json(v) {
                    Some(a) => Some(DataView::Input(a)),
                    None => None,
                }
            } else if k == "output"@ {
                match attributes_of_json(v) {
                    Some(a) => Some(DataView::Output(a)),
                    None => None,
                }
            } else if k == "resize"@ {
                resize_of_json(v)
            } else {
                None
            }
        } else {
            None
        },
        _ => None,
    }
}

/// Whether every URL that `d` holds reads back as itself.
pub open spec fn urls_canonical(d: DataView) -> bool {
    match d {
        DataView::Source { url } => canonical_url(url) == Some(url),
        _ => true,
    }
}

/// The number of entries of `fields` whose key is a tag.
pub open spec fn tag_count(fields: Seq<(String, Json)>) -> nat
    decreases fields.len(),
{
    if fields.len() == 0 {
        0
    } else {
        tag_count(fields.drop_last()) + if is_tag(fields.last().0@) { 1nat } else { 0nat }
    }
}

/// An object that holds none of the tags, or more than one of them, is no payload.
pub proof fn tag_exclusivity(j: Json)
    requires
        j is Object,
        tag_count(j->Object_0@) != 1,
    ensures
        data_of_json(j) is None,
{
    let fs = j->Object_0@;
    if fs.len() == 1 {
        assert(fs.drop_last().len() == 0);
        assert(tag_count(fs.drop_last()) == 0);
        assert(!is_tag(fs[0].0@));
    }
}

fn image_attributes_of(j: &Json) -> (r: Option<ImageAttributes>)
    ensures
        r is None <==> attributes_of_json(*j) is None,
        r is Some ==> attributes_of_json(*j) == Some(r->Some_0@),
{
    match j {
        Json::Object(fs) => {
            match (find_field(fs, "size"), find_field(fs, "type")) {
                (Some(Json::Number(n)), Some(Json::Str(t))) => {
                    if *n <= usize::MAX as u64 {
                        Some(ImageAttributes { size: *n as usize, type_: t.clone() })
                    } else {
                        None
                    }
                },
                _ => None,
            }
        },
        _ => None,
    }
}

fn optional_of(v: Option<&Json>) -> (r: Option<Option<usize>>)
    ensures
        r == optional_of_json(
            match v {
                Some(x) => Some(*x),
                None => None,
            },
        ),
{
    match v {
        None => Some(None),
        Some(Json::Null) => Some(None),
        Some(Json::Number(n)) => {
            if *n <= usize::MAX as u64 {
                Some(Some(*n as usize))
            } else {
                None
            }
        },
        _ => None,
    }
}

fn source_of(j: &Json) -> (r: Option<Data>)
    ensures
        r is None <==> source_of_json(*j) is None,
        r is Some ==> source_of_json(*j) == Some(r->Some_0@),
{
    match j {
        Json::Object(fs) => match find_field(fs, "url") {
            Some(Json::Str(u)) => match Url::parse(u.as_str()) {
                Ok(url) => Some(Data::Source { url }),
                Err(_) => None,
            },
            _ => None,
        },
        _ => None,
    }
}

fn resize_of(j: &Json) -> (r: Option<Data>)
    ensures
        r is None <==> resize_of_json(*j) is None,
        r is Some ==> resize_of_json(*j) == Some(r->Some_0@),
{
    match j {
        Json::Object(fs) => {
            let method = find_field(fs, "method");
            let width = optional_of(find_field(fs, "width"));
            let height = optional_of(find_field(fs, "height"));
            match (method, width, height) {
                (Some(Json::Str(m)), Some(w), Some(h)) => Some(
                    Data::Resize { method: m.clone(), width: w, height: h },
                ),
                _ => None,
            }
        },
        _ => None,
    }
}

impl Data {
    /// Reads a payload from a JSON document: an object with exactly one entry,
    /// keyed by a tag, whose value holds the fields of that variant.
    pub fn from_json(j: &Json) -> (r: Result<Data, DecodeError>)
        ensures
            r is Ok <==> data_of_json(*j) is Some,
            r is Ok ==> data_of_json(*j) == Some(r->Ok_0@),
            r is Err ==> r->Err_0 == DecodeError::Shape,
    {
        let found = match j {
            Json::Object(fs) => {
                if fs.len() == 1 {
                    let key = fs[0].0.as_str();
                    let value = &fs[0].1;
                    if same_text(key, "source") {
                        source_of(value)
                    } else if same_text(key, "input") {
                        match image_attributes_of(value) {
                            Some(a) => Some(Data::Input(a)),
                            None => None,
                        }
                    } else if same_text(key, "output") {
                        match image_attributes_of(value) {
                            Some(a) => Some(Data::Output(a)),
                            None => None,
                        }
                    } else if same_text(key, "resize") {
                        resize_of(value)
                    } else {
                        None
                    }
                } else {
                    None
                }
            },
            _ => None,
        };
        match found {
            Some(d) => Ok(d),
            None => Err(DecodeError::Shape),
        }
    }

    /// The JSON document of the payload. Reading it back gives the payload
    /// again, wherever its URL, if it holds one, reads back as itself.
    pub fn to_json(&self) -> (r: Json)
        ensures
            r is Object,
            r->Object_0@.len() == 1,
            urls_canonical(self@) ==> data_of_json(r) == Some(self@),
    {
        proof {
            reveal_strlit("source"); reveal_strlit("input"); reveal_strlit("output");
            reveal_strlit("resize"); reveal_strlit("url"); reveal_strlit("size");
            reveal_strlit("type"); reveal_strlit("method"); reveal_strlit("width");
            reveal_strlit("height");
            assert("input"@[0] != "source"@[0]);
            assert("output"@[0] != "source"@[0]);
            assert("output"@[0] != "input"@[0]);
            assert("resize"@[0] != "source"@[0]);
            assert("resize"@[0] != "input"@[0]);
            assert("resize"@[0] != "output"@[0]);
        }
        let (tag, body) = match self {
            Data::Source { url } => {
                let mut fs: Vec<(String, Json)> = Vec::new();
                fs.push((String::from_str("url"), Json::Str(String::from_str(url.as_str()))));
                (String::from_str("source"), Json::Object(fs))
            },
            Data::Input(a) => (String::from_str("input"), attributes_json(a)),
            Data::Output(a) => (String::from_str("output"), attributes_json(a)),
            Data::Resize { method, width, height } => {
                let mut fs: Vec<(String, Json)> = Vec::new();
                fs.push((String::from_str("method"), Json::Str(method.clone())));
                fs.push((String::from_str("width"), optional_json(*width)));
                fs.push((String::from_str("height"), optional_json(*height)));
                proof {
                    assert("width"@[0] != "method"@[0]);
                    assert("height"@[0] != "method"@[0]);
                    assert("height"@[0] != "width"@[0]);
                    assert(field_from(fs@, "height"@, 2) == Some(fs@[2].1));
                    assert(field_from(fs@, "height"@, 1) == Some(fs@[2].1));
                    assert(field(fs@, "height"@) == Some(fs@[2].1));
                    assert(field_from(fs@, "width"@, 1) == Some(fs@[1].1));
                    assert(field(fs@, "width"@) == Some(fs@[1].1));
                    assert(field(fs@, "method"@) == Some(fs@[0].1));
                }
                (String::from_str("resize"), Json::Object(fs))
            },
        };
        let mut entries: Vec<(String, Json)> = Vec::new();
        entries.push((tag, body));
        Json::Object(entries)
    }

    /// The JSON text of the payload.
    pub fn to_text(&self) -> (r: String)
        ensures
            r@ == data_text(self@),
    {
        let mut out = String::new();
        match self {
            Data::Source { url } => {
                out.append("{\"source\":{\"url\":");
                push_quoted(&mut out, url.as_str());
                out.append("}}");
            },
            Data::Input(a) => {
                out.append("{\"input\":");
                push_attributes(&mut out, a);
                out.append("}");
            },
            Data::Output(a) => {
                out.append("{\"output\":");
                push_attributes(&mut out, a);
                out.append("}");
            },
            Data::Resize { method, width, height } => {
                out.append("{\"resize\":{\"method\":");
                push_quoted(&mut out, method.as_str());
                out.append(",\"width\":");
                push_optional(&mut out, *width);
                out.append(",\"height\":");
                push_optional(&mut out, *height);
                out.append("}}");
            },
        }
        assert(out@ =~= data_text(self@));
        out
    }
}

impl PartialEq for ImageAttributes {
    fn eq(&self, other: &ImageAttributes) -> (r: bool)
        ensures
            r == (self@ == other@),
    {
        self.size == other.size && self.type_ == other.type_
    }
}

impl vstd::std_specs::cmp::PartialEqSpecImpl for ImageAttributes {
    open spec fn obeys_eq_spec() -> bool {
        true
    }

    open spec fn eq_spec(&self, other: &ImageAttributes) -> bool {
        self@ == other@
    }
}

impl Eq for ImageAttributes {
}

fn same_optional(a: Option<usize>, b: Option<usize>) -> (r: bool)
    ensures
        r == (a == b),
{
    match (a, b) {
        (Some(x), Some(y)) => x == y,
        (None, None) => true,
        _ => false,
    }
}

impl PartialEq for Data {
    fn eq(&self, other: &Data) -> (r: bool)
        ensures
            r == (self@ == other@),
    {
        match (self, other) {
            (Data::Source { url: a }, Data::Source { url: b }) => a.eq(b),
            (Data::Input(a), Data::Input(b)) => a.eq(b),
            (Data::Output(a), Data::Output(b)) => a.eq(b),
            (
                Data::Resize { method: m1, width: w1, height: h1 },
                Data::Resize { method: m2, width: w2, height: h2 },
            ) => same_text(m1.as_str(), m2.as_str()) && same_optional(*w1, *w2)
                && same_optional(*h1, *h2),
            _ => false,
        }
    }
}

impl vstd::std_specs::cmp::PartialEqSpecImpl for Data {
    open spec fn obeys_eq_spec() -> bool {
        true
    }

    open spec fn eq_spec(&self, other: &Data) -> bool {
        self@ == other@
    }
}

impl Eq for Data {
}

} // verus!
