//! The service's error body, the library's error kinds, the stage values of an
//! operation, and the decisions taken on each response.

use vstd::prelude::*;
use crate::data::{Data, data_of_json};
use crate::json::{DecodeError, Json, field, field_from, find_field, push_quoted, quoted};
use crate::url_value::{Url, canonical_url};

verus! {

/// The error body that the service sends with a failure status.
#[derive(Debug, Clone)]
pub struct ApiError {
    pub error: String,
    pub message: String,
}

impl View for ApiError {
    type V = (Seq<char>, Seq<char>);

    open spec fn view(&self) -> (Seq<char>, Seq<char>) {
        (self.error@, self.message@)
    }
}

/// The JSON text of an error body.
pub open spec fn api_error_text(e: (Seq<char>, Seq<char>)) -> Seq<char> {
    "{\"error\":"@ + quoted(e.0) + ",\"message\":"@ + quoted(e.1) + "}"@
}

/// How an error body reads to a person: its code, a colon, and its message.
pub open spec fn api_error_display(e: (Seq<char>, Seq<char>)) -> Seq<char> {
    e.0 + ": "@ + e.1
}

/// The error body that a JSON document denotes: an object whose `error`
/// and `message` entries are strings.
pub open spec fn api_error_of_json(j: Json) -> Option<(Seq<char>, Seq<char>)> {
    match j {
        Json::Object(fs) => match (field(fs@, "error"@), field(fs@, "message"@)) {
            (Some(Json::Str(e)), Some(Json::Str(m))) => Some((e@, m@)),
            _ => None,
        },
        _ => None,
    }
}

impl ApiError {
    /// Reads an error body from a JSON document.
    pub fn from_json(j: &Json) -> (r: Result<ApiError, DecodeError>)
        ensures
            r is Ok <==> api_error_of_json(*j) is Some,
            r is Ok ==> api_error_of_json(*j) == Some(r->Ok_0@),
            r is Err ==> r->Err_0 == DecodeError::Shape,
    {
        match j {
            Json::Object(fs) => match (find_field(fs, "error"), find_field(fs, "message")) {
                (Some(Json::Str(e)), Some(Json::Str(m))) => Ok(
                    ApiError { error: e.clone(), message: m.clone() },
                ),
                _ => Err(DecodeError::Shape),
            },
            _ => Err(DecodeError::Shape),
        }
    }

    /// The JSON document of the error body; reading it back gives the body again.
    pub fn to_json(&self) -> (r: Json)
        ensures
            r is Object,
            r->Object_0@.len() == 2,
            api_error_of_json(r) == Some(self@),
    {
        proof {
            reveal_strlit("error");
            reveal_strlit("message");
            assert("message"@[0] != "error"@[0]);
        }
        let mut fs: Vec<(String, Json)> = Vec::new();
        fs.push((String::from_str("error"), Json::Str(self.error.clone())));
        fs.push((String::from_str("message"), Json::Str(self.message.clone())));
        assert(field_from(fs@, "message"@, 1) == Some(fs@[1].1));
        assert(field(fs@, "message"@) == Some(fs@[1].1));
        assert(field(fs@, "error"@) == Some(fs@[0].1));
        Json::Object(fs)
    }

    /// The JSON text of the error body.
    pub fn to_text(&self) -> (r: String)
        ensures
            r@ == api_error_text(self@),
    {
        let mut out = String::new();
        out.append("{\"error\":");
        push_quoted(&mut out, self.error.as_str());
        out.append(",\"message\":");
        push_quoted(&mut out, self.message.as_str());
        out.append("}");
        assert(out@ =~= api_error_text(self@));
        out
    }

    /// The error body as a person reads it: `"{error}: {message}"`.
    pub fn display(&self) -> (r: String)
        ensures
            r@ == api_error_display(self@),
    {
        let mut out = self.error.clone();
        out.append(": ");
        out.append(self.message.as_str());
        out
    }
}

impl PartialEq for ApiError {
    fn eq(&self, other: &ApiError) -> (r: bool)
        ensures
            r == (self@ == other@),
    {
        self.error == other.error && self.message == other.message
    }
}

impl vstd::std_specs::cmp::PartialEqSpecImpl for ApiError {
    open spec fn obeys_eq_spec() -> bool {
        true
    }

    open spec fn eq_spec(&self, other: &ApiError) -> bool {
        self@ == other@
    }
}

impl Eq for ApiError {
}

/// Every way in which an operation can fail.
#[derive(Debug)]
pub enum TinifyError {
    /// The local image could not be read; the cause as reported.
    File(String),
    /// The connection failed; the cause as reported.
    Transport(String),
    /// The HTTP exchange failed; the cause as reported.
    Request(String),
    /// A body was no JSON, or not of the expected shape.
    Serde(DecodeError),
    /// The service refused the request with this error body.
    Api(ApiError),
    /// The service answered with a status that has no meaning here.
    UnexpectedStatus(u16),
}

impl TinifyError {
    /// The error as a person reads it, where the service gave the words;
    /// `None` for the kinds whose cause carries its own description.
    pub fn api_display(&self) -> (r: Option<String>)
        ensures
            self is Api <==> r is Some,
            self is Api ==> r->Some_0@ == api_error_display(self->Api_0@),
    {
        match self {
            TinifyError::Api(e) => Some(e.display()),
            _ => None,
        }
    }
}

/// Where the image of a shrink comes from.
#[derive(Debug)]
pub enum ShrinkSource {
    /// An image on the web, which the service fetches itself.
    Remote(Url),
    /// A file on this machine, by its path.
    Local(String),
}

/// Decides where the image named by `input` comes from: a valid absolute URL
/// names a remote image; anything else is a local path.
pub fn classify_input(input: &str) -> (r: ShrinkSource)
    ensures
        canonical_url(input@) is Some ==> r is Remote && r->Remote_0@ == canonical_url(
            input@,
        )->Some_0,
        canonical_url(input@) is None ==> r is Local && r->Local_0@ == input@,
{
    match Url::parse(input) {
        Ok(url) => ShrinkSource::Remote(url),
        Err(_) => ShrinkSource::Local(String::from_str(input)),
    }
}

/// The body of a shrink request for a remote image: `{"source":{"url":...}}`.
pub fn source_request_body(url: &Url) -> (r: String)
    ensures
        r@ == "{\"source\":{\"url\":"@ + quoted(url@) + "}}"@,
{
    let mut out = String::new();
    out.append("{\"source\":{\"url\":");
    push_quoted(&mut out, url.as_str());
    out.append("}}");
    assert(out@ =~= "{\"source\":{\"url\":"@ + quoted(url@) + "}}"@);
    out
}

/// What a shrink that the service accepted gave back.
#[derive(Debug)]
pub enum ShrinkOutcome {
    /// The service had the result already; nothing was read from the body.
    Done,
    /// The service made a new compressed image and described it.
    Created(Data),
}

/// Whether a status reports a failure of the request or of the service.
pub open spec fn is_failure_status(status: u16) -> bool {
    status >= 400
}

/// Interprets the answer to a shrink request from its status and its body,
/// as parsed into a JSON document or the parser's message where it was no JSON.
/// `200` is accepted without reading the body; `201` carries a payload; a
/// failure status carries an error body; any other status is refused.
pub fn shrink_response(status: u16, body: &Result<Json, String>) -> (r: Result<
    ShrinkOutcome,
    TinifyError,
>)
    ensures
        status == 200 ==> r is Ok && r->Ok_0 is Done,
        status == 201 ==> match body {
            Ok(j) => match data_of_json(*j) {
                Some(d) => r is Ok && r->Ok_0 is Created && r->Ok_0->Created_0@ == d,
                None => r is Err && r->Err_0 == TinifyError::Serde(DecodeError::Shape),
            },
            Err(m) => r is Err && r->Err_0 == TinifyError::Serde(DecodeError::Syntax(*m)),
        },
        is_failure_status(status) ==> match body {
            Ok(j) => match api_error_of_json(*j) {
                Some(e) => r is Err && r->Err_0 is Api && r->Err_0->Api_0@ == e,
                None => r is Err && r->Err_0 == TinifyError::Serde(DecodeError::Shape),
            },
            Err(m) => r is Err && r->Err_0 == TinifyError::Serde(DecodeError::Syntax(*m)),
        },
        status != 200 && status != 201 && !is_failure_status(status) ==> r is Err
            && r->Err_0 == TinifyError::UnexpectedStatus(status),
{
    if status == 200 {
        Ok(ShrinkOutcome::Done)
    } else if status == 201 {
        match body {
            Ok(j) => match Data::from_json(j) {
                Ok(d) => Ok(ShrinkOutcome::Created(d)),
                Err(e) => Err(TinifyError::Serde(e)),
            },
            Err(m) => Err(TinifyError::Serde(DecodeError::Syntax(m.clone()))),
        }
    } else if status >= 400 {
        match body {
            Ok(j) => match ApiError::from_json(j) {
                Ok(e) => Err(TinifyError::Api(e)),
                Err(e) => Err(TinifyError::Serde(e)),
            },
            Err(m) => Err(TinifyError::Serde(DecodeError::Syntax(m.clone()))),
        }
    } else {
        Err(TinifyError::UnexpectedStatus(status))
    }
}

/// The result of shrinking an image that the service fetched from a URL.
#[derive(Debug)]
pub struct Shrinked {
    pub location: Url,
    pub compression_count: usize,
    pub data: Data,
}

/// The result of shrinking a local image, delivered with the response.
#[derive(Debug)]
pub struct Image {
    pub compression_count: usize,
    pub image_width: usize,
    pub image_height: usize,
    pub content_type: String,
    pub content_length: usize,
    pub data: Data,
}

/// The result of storing a processed image at a destination.
#[derive(Debug)]
pub struct Stored {
    pub compression_count: usize,
    pub image_width: usize,
    pub image_height: usize,
    pub location: Url,
}

} // verus!
