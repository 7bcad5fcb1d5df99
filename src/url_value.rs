//! An absolute URL, held as its canonical text.

use vstd::prelude::*;
use crate::json::{DecodeError, Json, push_quoted, quoted};

verus! {

/// The canonical serialization of `input` read as an absolute URL, or `None`
/// where `input` is not a valid absolute URL.
pub uninterp spec fn canonical_url(input: Seq<char>) -> Option<Seq<char>>;

/// Relies on `url::Url::parse`, which accepts exactly the valid absolute URLs,
/// and on `url::Url::as_str`, which returns the serialization that the parse built.
#[verifier::external_body]
fn parse_absolute(input: &str) -> (r: Result<String, url::ParseError>)
    ensures
        r is Ok <==> canonical_url(input@) is Some,
        r is Ok ==> r->Ok_0@ == canonical_url(input@)->Some_0,
{
    match url::Url::parse(input) {
        Ok(u) => Ok(u.as_str().to_string()),
        Err(e) => Err(e),
    }
}

/// The URL that a JSON document denotes: a string that parses as one.
pub open spec fn url_of_json(j: Json) -> Option<Seq<char>> {
    match j {
        Json::Str(s) => canonical_url(s@),
        _ => None,
    }
}

/// A validated absolute URL, held as its canonical text, which is also its view.
#[derive(Debug)]
pub struct Url {
    text: String,
}

impl Url {
    /// The text is what the parser made of some input that it accepted.
    #[verifier::type_invariant]
    spec fn is_canonical(&self) -> bool {
        exists|input: Seq<char>| canonical_url(input) == Some(self.text@)
    }
}

impl View for Url {
    type V = Seq<char>;

    closed spec fn view(&self) -> Seq<char> {
        self.text@
    }
}

impl Url {
    /// Parses `input` as an absolute URL.
    pub fn parse(input: &str) -> (r: Result<Url, url::ParseError>)
        ensures
            r is Ok <==> canonical_url(input@) is Some,
            r is Ok ==> r->Ok_0@ == canonical_url(input@)->Some_0,
            canonical_url(input@) == Some(input@) ==> r is Ok && r->Ok_0@ == input@,
    {
        match parse_absolute(input) {
            Ok(text) => {
                assert(canonical_url(input@) == Some(text@));
                Ok(Url { text })
            },
            Err(e) => Err(e),
        }
    }

    /// Reads a URL from a JSON string, parsing it.
    pub fn from_json(j: &Json) -> (r: Result<Url, DecodeError>)
        ensures
            r is Ok <==> url_of_json(*j) is Some,
            r is Ok ==> url_of_json(*j) == Some(r->Ok_0@),
            r is Err ==> r->Err_0 == DecodeError::Shape,
    {
        match j {
            Json::Str(s) => match Url::parse(s.as_str()) {
                Ok(u) => Ok(u),
                Err(_) => Err(DecodeError::Shape),
            },
            _ => Err(DecodeError::Shape),
        }
    }

    /// The JSON document of the URL: its canonical text as a string. Where
    /// that text parses to itself, reading the document back gives the URL.
    pub fn to_json(&self) -> (r: Json)
        ensures
            r is Str,
            r->Str_0@ == self@,
            canonical_url(self@) == Some(self@) ==> url_of_json(r) == Some(self@),
    {
        Json::Str(self.text.clone())
    }

    /// The JSON text of the URL: its canonical text as a string literal.
    pub fn to_text(&self) -> (r: String)
        ensures
            r@ == quoted(self@),
    {
        let mut out = String::new();
        push_quoted(&mut out, self.text.as_str());
        assert(out@ =~= quoted(self@));
        out
    }

    /// The canonical text of the URL.
    pub fn as_str(&self) -> (r: &str)
        ensures
            r@ == self@,
    {
        self.text.as_str()
    }
}

impl PartialEq for Url {
    fn eq(&self, other: &Url) -> (r: bool)
        ensures
            r == (self@ == other@),
    {
        self.text == other.text
    }
}

impl vstd::std_specs::cmp::PartialEqSpecImpl for Url {
    open spec fn obeys_eq_spec() -> bool {
        true
    }

    open spec fn eq_spec(&self, other: &Url) -> bool {
        self@ == other@
    }
}

impl Eq for Url {
}

impl Clone for Url {
    fn clone(&self) -> (r: Url)
        ensures
            r@ == self@,
    {
        proof {
            use_type_invariant(self);
        }
        Url { text: self.text.clone() }
    }
}

} // verus!
