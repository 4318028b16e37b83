use vstd::prelude::*;

use crate::render::RenderError;

verus! {

/// Whether `serde_json` reads the text as exactly one JSON value.
pub uninterp spec fn is_valid_json(s: Seq<char>) -> bool;

/// What `jsonxf::pretty_print` makes of the text; `None` where it reports an error.
pub uninterp spec fn jsonxf_pretty(s: Seq<char>) -> Option<Seq<char>>;

/// Relies on `serde_json::from_str::<serde_json::Value>`: it succeeds exactly
/// when the text is one JSON value, surrounded by whitespace at most.
#[verifier::external_body]
fn check_json(s: &str) -> (r: bool)
    ensures
        r == is_valid_json(s@),
{
    serde_json::from_str::<serde_json::Value>(s).is_ok()
}

/// Relies on `jsonxf::pretty_print` to indent JSON text, two spaces a level.
/// It reads from a string and writes to memory, so it reports no error.
#[verifier::external_body]
fn pretty_print(s: &str) -> (r: Option<String>)
    ensures
        r is Some,
        match r {
            Some(p) => jsonxf_pretty(s@) == Some(p@),
            None => jsonxf_pretty(s@) is None,
        },
{
    jsonxf::pretty_print(s).ok()
}

/// The pretty-printed text owed for a body: the indented form of valid JSON;
/// `InvalidJsonBody` for text that is not JSON or that the printer rejects.
pub open spec fn pretty_outcome(valid: bool, pretty: Option<Seq<char>>) -> Result<
    Seq<char>,
    RenderError,
> {
    if valid {
        match pretty {
            Some(p) => Ok(p),
            None => Err(RenderError::InvalidJsonBody),
        }
    } else {
        Err(RenderError::InvalidJsonBody)
    }
}

/// The text held, if any.
pub open spec fn text_of(o: Option<String>) -> Option<Seq<char>> {
    match o {
        Some(s) => Some(s@),
        None => None,
    }
}

/// Decides the pretty-printed body from whether the text is JSON and from
/// what the printer returned for it.
pub fn pretty_from(valid: bool, pretty: Option<String>) -> (r: Result<String, RenderError>)
    ensures
        match r {
            Ok(p) => pretty_outcome(valid, text_of(pretty)) == Ok::<
                Seq<char>,
                RenderError,
            >(p@),
            Err(e) => pretty_outcome(valid, text_of(pretty)) == Err::<
                Seq<char>,
                RenderError,
            >(e),
        },
{
    if !valid {
        return Err(RenderError::InvalidJsonBody);
    }
    match pretty {
        Some(p) => Ok(p),
        None => Err(RenderError::InvalidJsonBody),
    }
}

/// Pretty-prints JSON text; text that is not JSON is an `InvalidJsonBody` error.
pub fn pretty_json(text: &str) -> (r: Result<String, RenderError>)
    ensures
        r is Ok <==> is_valid_json(text@),
        match r {
            Ok(p) => pretty_outcome(is_valid_json(text@), jsonxf_pretty(text@)) == Ok::<
                Seq<char>,
                RenderError,
            >(p@),
            Err(e) => pretty_outcome(is_valid_json(text@), jsonxf_pretty(text@)) == Err::<
                Seq<char>,
                RenderError,
            >(e),
        },
{
    if !check_json(text) {
        return Err(RenderError::InvalidJsonBody);
    }
    let pretty = pretty_print(text);
    proof {
        assert(text_of(pretty) == jsonxf_pretty(text@));
    }
    pretty_from(true, pretty)
}

} // verus!
