use vstd::prelude::*;
use vstd::string::StrSliceExecFns;
use vstd::string::StringExecFns;

use crate::render::Header;

verus! {

/// A parsed media type, reduced to what the renderer reads: its essence,
/// `type/subtype` in lower case, without parameters.
#[derive(Debug, Clone)]
pub struct MediaType {
    pub essence: String,
}

/// The essence that the `mime` crate gives a `Content-Type` value, or `None`
/// where it cannot parse the value as a media type.
pub uninterp spec fn mime_essence(s: Seq<char>) -> Option<Seq<char>>;

/// Relies on `<mime::Mime as FromStr>::from_str`, and on `Mime::essence_str`
/// to read the parsed value: the outcome depends on the text alone.
#[verifier::external_body]
fn parse_essence(s: &str) -> (r: Option<String>)
    ensures
        match r {
            Some(e) => mime_essence(s@) == Some(e@),
            None => mime_essence(s@) is None,
        },
{
    match s.parse::<mime::Mime>() {
        Ok(m) => Some(m.essence_str().to_string()),
        Err(_) => None,
    }
}

/// The essence of JSON content.
pub open spec fn json_essence() -> Seq<char> {
    "application/json"@
}

/// The ASCII lower-case form of a character code; other codes are kept.
pub open spec fn lower_code(x: u32) -> u32 {
    if 65 <= x <= 90 {
        (x + 32) as u32
    } else {
        x
    }
}

/// Equal but for the case of ASCII letters.
pub open spec fn eq_ignore_ascii_case(a: Seq<char>, b: Seq<char>) -> bool {
    &&& a.len() == b.len()
    &&& forall|i: int| 0 <= i < a.len() ==> lower_code(a[i] as u32) == lower_code(b[i] as u32)
}

/// Whether a header name is `Content-Type`; header names ignore case.
pub open spec fn is_content_type_name(name: Seq<char>) -> bool {
    eq_ignore_ascii_case(name, "content-type"@)
}

/// The value of the first `Content-Type` header, in wire order.
pub open spec fn content_type_of(headers: Seq<Header>) -> Option<Seq<char>>
    decreases headers.len(),
{
    if headers.len() == 0 {
        None
    } else if is_content_type_name(headers[0].name@) {
        Some(headers[0].value@)
    } else {
        content_type_of(headers.skip(1))
    }
}

fn lower(x: u32) -> (r: u32)
    ensures
        r == lower_code(x),
{
    if 65 <= x && x <= 90 {
        x + 32
    } else {
        x
    }
}

/// Whether `a` and `b` are equal but for the case of ASCII letters.
pub fn equal_ignoring_ascii_case(a: &str, b: &str) -> (r: bool)
    ensures
        r == eq_ignore_ascii_case(a@, b@),
{
    let n = a.unicode_len();
    if n != b.unicode_len() {
        return false;
    }
    let mut i: usize = 0;
    while i < n
        invariant
            n == a@.len(),
            n == b@.len(),
            i <= n,
            forall|j: int| 0 <= j < i ==> lower_code(a@[j] as u32) == lower_code(b@[j] as u32),
        decreases n - i,
    {
        if lower(a.get_char(i) as u32) != lower(b.get_char(i) as u32) {
            return false;
        }
        i = i + 1;
    }
    true
}

/// The value of the first `Content-Type` header, if any.
pub fn content_type(headers: &Vec<Header>) -> (r: Option<String>)
    ensures
        match r {
            Some(v) => content_type_of(headers@) == Some(v@),
            None => content_type_of(headers@) is None,
        },
{
    let mut i: usize = 0;
    assert(headers@.skip(0) =~= headers@);
    while i < headers.len()
        invariant
            i <= headers.len(),
            content_type_of(headers@) == content_type_of(headers@.skip(i as int)),
        decreases headers.len() - i,
    {
        let ghost rest = headers@.skip(i as int);
        assert(rest[0] == headers@[i as int]);
        assert(rest.skip(1) =~= headers@.skip(i + 1));
        if equal_ignoring_ascii_case(headers[i].name.as_str(), "content-type") {
            return Some(headers[i].value.clone());
        }
        i = i + 1;
    }
    None
}

/// Parses a `Content-Type` value into a media type; `None` where it is not one.
pub fn media_type_of(value: &str) -> (r: Option<MediaType>)
    ensures
        match r {
            Some(m) => mime_essence(value@) == Some(m.essence@),
            None => mime_essence(value@) is None,
        },
{
    match parse_essence(value) {
        Some(essence) => Some(MediaType { essence }),
        None => None,
    }
}

impl MediaType {
    /// Whether this is `application/json`; parameters play no part.
    pub fn is_json(&self) -> (r: bool)
        ensures
            r == (self.essence@ == json_essence()),
    {
        let json = String::from_str("application/json");
        self.essence == json
    }
}

} // verus!
