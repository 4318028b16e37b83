use vstd::prelude::*;
use vstd::string::StringExecFns;

use crate::json::{is_valid_json, jsonxf_pretty, pretty_json, pretty_outcome};
use crate::media::{content_type, content_type_of, json_essence, media_type_of, mime_essence};

verus! {

/// One response header, as received.
#[derive(Debug, Clone)]
pub struct Header {
    pub name: String,
    pub value: String,
}

/// A fully read response: status, headers in wire order, and the body text.
#[derive(Debug, Clone)]
pub struct ResponseView {
    pub status_code: u16,
    pub status_text: String,
    pub headers: Vec<Header>,
    pub body: String,
}

/// What part of the response a line shows; a terminal may style each kind.
#[derive(Debug, Clone, Copy, PartialEq, Eq, Structural)]
pub enum LineKind {
    Status,
    Header,
    Separator,
    JsonBody,
    TextBody,
}

/// One piece of rendered output.
#[derive(Debug, Clone)]
pub struct Line {
    pub kind: LineKind,
    pub text: String,
}

impl View for Line {
    type V = (LineKind, Seq<char>);

    open spec fn view(&self) -> (LineKind, Seq<char>) {
        (self.kind, self.text@)
    }
}

/// Why the body could not be rendered.
#[derive(Debug, Clone, Copy, PartialEq, Eq, Structural)]
pub enum RenderError {
    /// The content type says JSON but the body is not JSON.
    InvalidJsonBody,
}

/// A rendered response: status and header lines, then the body or the
/// reason it could not be shown.
#[derive(Debug)]
pub struct Rendered {
    pub head: Vec<Line>,
    pub body: Result<Line, RenderError>,
}

pub open spec fn digit_char(d: nat) -> char {
    if d == 0 {
        '0'
    } else if d == 1 {
        '1'
    } else if d == 2 {
        '2'
    } else if d == 3 {
        '3'
    } else if d == 4 {
        '4'
    } else if d == 5 {
        '5'
    } else if d == 6 {
        '6'
    } else if d == 7 {
        '7'
    } else if d == 8 {
        '8'
    } else {
        '9'
    }
}

/// The decimal digits of `n`, without leading zeros.
pub open spec fn decimal(n: nat) -> Seq<char>
    decreases n,
{
    if n < 10 {
        seq![digit_char(n)]
    } else {
        decimal(n / 10).push(digit_char(n % 10))
    }
}

pub open spec fn status_line_of(v: &ResponseView) -> Seq<char> {
    "Status: "@ + decimal(v.status_code as nat) + " "@ + v.status_text@
}

pub open spec fn header_line_of(h: Header) -> Seq<char> {
    h.name@ + ": "@ + h.value@
}

/// The status line, one line per header in wire order, then a blank line.
pub open spec fn head_lines(v: &ResponseView) -> Seq<(LineKind, Seq<char>)> {
    seq![(LineKind::Status, status_line_of(v))] + v.headers@.map_values(
        |h: Header| (LineKind::Header, header_line_of(h)),
    ) + seq![(LineKind::Separator, Seq::<char>::empty())]
}

/// Whether a `Content-Type` value names JSON.
pub open spec fn is_json_content(ct: Option<Seq<char>>) -> bool {
    match ct {
        Some(c) => mime_essence(c) == Some(json_essence()),
        None => false,
    }
}

/// The body line owed: pretty-printed for JSON content, else the text as it is.
pub open spec fn body_outcome(is_json: bool, valid: bool, pretty: Option<Seq<char>>, body: Seq<char>) -> Result<
    (LineKind, Seq<char>),
    RenderError,
> {
    if is_json {
        match pretty_outcome(valid, pretty) {
            Ok(p) => Ok((LineKind::JsonBody, p)),
            Err(e) => Err(e),
        }
    } else {
        Ok((LineKind::TextBody, body))
    }
}

pub open spec fn rendered_body(v: &ResponseView) -> Result<(LineKind, Seq<char>), RenderError> {
    body_outcome(
        is_json_content(content_type_of(v.headers@)),
        is_valid_json(v.body@),
        jsonxf_pretty(v.body@),
        v.body@,
    )
}

fn digit_str(d: u16) -> (r: &'static str)
    requires
        d < 10,
    ensures
        r@ == seq![digit_char(d as nat)],
{
    if d == 0 {
        proof {
            reveal_strlit("0");
        }
        "0"
    } else if d == 1 {
        proof {
            reveal_strlit("1");
        }
        "1"
    } else if d == 2 {
        proof {
            reveal_strlit("2");
        }
        "2"
    } else if d == 3 {
        proof {
            reveal_strlit("3");
        }
        "3"
    } else if d == 4 {
        proof {
            reveal_strlit("4");
        }
        "4"
    } else if d == 5 {
        proof {
            reveal_strlit("5");
        }
        "5"
    } else if d == 6 {
        proof {
            reveal_strlit("6");
        }
        "6"
    } else if d == 7 {
        proof {
            reveal_strlit("7");
        }
        "7"
    } else if d == 8 {
        proof {
            reveal_strlit("8");
        }
        "8"
    } else {
        proof {
            reveal_strlit("9");
        }
        "9"
    }
}

/// Appends the decimal digits of `n` to `out`.
pub fn append_decimal(out: &mut String, n: u16)
    ensures
        final(out)@ == old(out)@ + decimal(n as nat),
    decreases n,
{
    let ghost start = out@;
    if n >= 10 {
        append_decimal(out, n / 10);
    }
    out.append(digit_str(n % 10));
    proof {
        if n >= 10 {
            assert(start + decimal((n / 10) as nat) + seq![digit_char((n % 10) as nat)] =~= start
                + decimal(n as nat));
        } else {
            assert(seq![digit_char((n % 10) as nat)] =~= decimal(n as nat));
        }
    }
}

/// `Status: <code> <reason>`.
pub fn status_line(v: &ResponseView) -> (r: String)
    ensures
        r@ == status_line_of(v),
{
    let mut s = String::from_str("Status: ");
    append_decimal(&mut s, v.status_code);
    s.append(" ");
    s.append(v.status_text.as_str());
    s
}

/// `<name>: <value>`.
pub fn header_line(h: &Header) -> (r: String)
    ensures
        r@ == header_line_of(*h),
{
    h.name.clone().concat(": ").concat(h.value.as_str())
}

/// The status line, the header lines in wire order and the blank separator.
pub fn render_head(v: &ResponseView) -> (r: Vec<Line>)
    ensures
        r@.map_values(|l: Line| l@) == head_lines(v),
{
    let mut lines: Vec<Line> = Vec::new();
    lines.push(Line { kind: LineKind::Status, text: status_line(v) });
    let ghost first = seq![(LineKind::Status, status_line_of(v))];
    let ghost hview = v.headers@.map_values(|h: Header| (LineKind::Header, header_line_of(h)));
    let mut i: usize = 0;
    while i < v.headers.len()
        invariant
            i <= v.headers.len(),
            hview == v.headers@.map_values(|h: Header| (LineKind::Header, header_line_of(h))),
            lines@.map_values(|l: Line| l@) =~= first + hview.take(i as int),
        decreases v.headers.len() - i,
    {
        let ghost before = lines@;
        let line = Line { kind: LineKind::Header, text: header_line(&v.headers[i]) };
        lines.push(line);
        assert(lines@ =~= before.push(line));
        assert(lines@.map_values(|l: Line| l@) =~= before.map_values(|l: Line| l@).push(line@));
        assert(hview[i as int] == line@);
        assert(hview.take(i + 1) =~= hview.take(i as int).push(hview[i as int]));
        i = i + 1;
    }
    assert(hview.take(i as int) =~= hview);
    lines.push(Line { kind: LineKind::Separator, text: String::new() });
    lines
}

/// Decides the body line from whether the content is JSON and from the
/// outcome of pretty-printing it.
pub fn body_line(is_json: bool, pretty: Result<String, RenderError>, body: &String) -> (r: Result<
    Line,
    RenderError,
>)
    ensures
        is_json ==> match (r, pretty) {
            (Ok(l), Ok(p)) => l@ == (LineKind::JsonBody, p@),
            (Err(e), Err(f)) => e == f,
            _ => false,
        },
        !is_json ==> (r matches Ok(l) && l@ == (LineKind::TextBody, body@)),
{
    if is_json {
        match pretty {
            Ok(p) => Ok(Line { kind: LineKind::JsonBody, text: p }),
            Err(e) => Err(e),
        }
    } else {
        Ok(Line { kind: LineKind::TextBody, text: body.clone() })
    }
}

/// The body, dispatched on the content type: JSON is pretty-printed, and
/// must be JSON; anything else, or no content type, is shown as it is.
pub fn render_body(v: &ResponseView) -> (r: Result<Line, RenderError>)
    ensures
        match r {
            Ok(l) => rendered_body(v) == Ok::<(LineKind, Seq<char>), RenderError>(l@),
            Err(e) => rendered_body(v) == Err::<(LineKind, Seq<char>), RenderError>(e),
        },
{
    let is_json = match content_type(&v.headers) {
        Some(ct) => match media_type_of(ct.as_str()) {
            Some(m) => m.is_json(),
            None => false,
        },
        None => false,
    };
    if is_json {
        let pretty = pretty_json(v.body.as_str());
        body_line(true, pretty, &v.body)
    } else {
        body_line(false, Err(RenderError::InvalidJsonBody), &v.body)
    }
}

/// Renders a response: status, headers, separator, then the body.
pub fn render(v: &ResponseView) -> (r: Rendered)
    ensures
        r.head@.map_values(|l: Line| l@) == head_lines(v),
        match r.body {
            Ok(l) => rendered_body(v) == Ok::<(LineKind, Seq<char>), RenderError>(l@),
            Err(e) => rendered_body(v) == Err::<(LineKind, Seq<char>), RenderError>(e),
        },
{
    Rendered { head: render_head(v), body: render_body(v) }
}

} // verus!
