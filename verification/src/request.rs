//! Request assembly: header-line parsing, body-text extraction and
//! validation, and the prepared request handed to the transport.

use vstd::prelude::*;
use vstd::string::*;
use crate::buffer::MultiLineBuffer;
use crate::json;
use crate::method::HttpMethod;
use crate::text;

verus! {

/// One parsed header: a name and a value.
pub struct HeaderPair {
    pub name: String,
    pub value: String,
}

/// The character sequences behind a sequence of header pairs.
pub open spec fn pairs_view(hs: Seq<HeaderPair>) -> Seq<(Seq<char>, Seq<char>)> {
    Seq::new(hs.len(), |i: int| (hs[i].name@, hs[i].value@))
}

/// The pair parsed from one header line: the line is split once at the
/// first `": "`, both sides are trimmed; a line without the separator
/// yields nothing.
pub open spec fn header_pair_spec(line: Seq<char>) -> Option<(Seq<char>, Seq<char>)> {
    let i = text::first_sep(line);
    if i < line.len() {
        Some(
            (
                text::trim_spec(line.subrange(0, i as int)),
                text::trim_spec(line.subrange(i as int + 2, line.len() as int)),
            ),
        )
    } else {
        None
    }
}

/// The pairs parsed from the header lines, in order; lines without the
/// separator are silently skipped.
pub open spec fn parse_headers_spec(lines: Seq<Seq<char>>) -> Seq<(Seq<char>, Seq<char>)>
    decreases lines.len(),
{
    if lines.len() == 0 {
        Seq::empty()
    } else {
        let rest = parse_headers_spec(lines.drop_last());
        match header_pair_spec(lines.last()) {
            Some(p) => rest + seq![p],
            None => rest,
        }
    }
}

/// Parse one header line.
pub fn header_pair_of(line: &str) -> (r: Option<HeaderPair>)
    ensures
        match r {
            Some(p) => header_pair_spec(line@) == Some((p.name@, p.value@)),
            None => header_pair_spec(line@) is None,
        },
{
    let n = text::char_count(line);
    match text::find_sep(line) {
        Some(i) => {
            let name = text::trim_str(line.substring_char(0, i));
            let value = text::trim_str(line.substring_char(i + 2, n));
            Some(HeaderPair { name, value })
        },
        None => None,
    }
}

/// Parse every header line, keeping the pairs in line order.
pub fn parse_header_lines(lines: &Vec<String>) -> (r: Vec<HeaderPair>)
    ensures
        pairs_view(r@) == parse_headers_spec(text::views_of(lines@)),
{
    let ghost vs = text::views_of(lines@);
    let mut out: Vec<HeaderPair> = Vec::new();
    proof {
        assert(vs.take(0) =~= Seq::<Seq<char>>::empty());
        assert(pairs_view(out@) =~= parse_headers_spec(vs.take(0)));
    }
    let mut i: usize = 0;
    while i < lines.len()
        invariant
            0 <= i <= lines@.len(),
            vs == text::views_of(lines@),
            pairs_view(out@) == parse_headers_spec(vs.take(i as int)),
        decreases lines@.len() - i,
    {
        let ghost old_out = out@;
        match header_pair_of(lines[i].as_str()) {
            Some(p) => {
                out.push(p);
                proof {
                    assert(pairs_view(out@) =~= pairs_view(old_out) + seq![
                        (out@.last().name@, out@.last().value@),
                    ]);
                }
            },
            None => {},
        }
        proof {
            assert(vs.take(i as int + 1).drop_last() =~= vs.take(i as int));
            assert(vs.take(i as int + 1).last() == vs[i as int]);
            assert(pairs_view(out@) =~= parse_headers_spec(vs.take(i as int + 1)));
        }
        i += 1;
    }
    proof {
        assert(vs.take(lines@.len() as int) =~= vs);
    }
    out
}

/// The validated, fully assembled request, ready for transport.
pub struct PreparedRequest {
    pub method: HttpMethod,
    pub url: String,
    pub headers: Vec<HeaderPair>,
    pub body: Option<String>,
}

/// Why a submit attempt was rejected before any network call.
pub enum ValidationError {
    /// The URL field is empty.
    EmptyUrl,
    /// The nonblank body text is not valid JSON; carries the parser's
    /// message.
    InvalidJsonBody { message: String },
}

impl ValidationError {
    /// The text written into the response field for this error.
    pub open spec fn message_spec(self) -> Seq<char> {
        match self {
            ValidationError::EmptyUrl => "Error: URL cannot be empty"@,
            ValidationError::InvalidJsonBody { message } => "Error: Invalid JSON in body: "@
                + message@,
        }
    }

    pub fn message(&self) -> (r: String)
        ensures
            r@ == self.message_spec(),
    {
        match self {
            ValidationError::EmptyUrl => String::from_str("Error: URL cannot be empty"),
            ValidationError::InvalidJsonBody { message } => String::from_str(
                "Error: Invalid JSON in body: ",
            ).concat(message.as_str()),
        }
    }
}

/// The body text of a buffer: its lines joined with newlines, trimmed
/// of leading and trailing whitespace.
pub open spec fn body_text_spec(lines: Seq<Seq<char>>) -> Seq<char> {
    text::trim_spec(text::join_lines(lines))
}

/// Whether a submit with these fields is accepted: the URL is nonempty
/// and the body text is blank or valid JSON.
pub open spec fn submit_accepted(url: Seq<char>, body_lines: Seq<Seq<char>>) -> bool {
    &&& url.len() > 0
    &&& (body_text_spec(body_lines).len() == 0 || json::json_valid(body_text_spec(body_lines)))
}

/// Assemble the request from the form fields, or reject it: an empty
/// URL is rejected first; then each header line is parsed, the body
/// lines are joined and trimmed, and a nonblank body that is not valid
/// JSON is rejected; otherwise the prepared request carries the method,
/// the URL, the parsed header pairs, and the nonblank body text if any.
pub fn assemble_request(
    method: HttpMethod,
    url: &String,
    headers: &MultiLineBuffer,
    body: &MultiLineBuffer,
) -> (r: Result<PreparedRequest, ValidationError>)
    requires
        body.model().lines.len() >= 1,
    ensures
        ({
            let bt = body_text_spec(body.model().lines);
            &&& (url@.len() == 0 ==> r == Result::<PreparedRequest, ValidationError>::Err(
                ValidationError::EmptyUrl,
            ))
            &&& (url@.len() > 0 && bt.len() > 0 && !json::json_valid(bt) ==> (r matches Err(e)
                && (e matches ValidationError::InvalidJsonBody { message } && message@
                    == json::json_err(bt))))
            &&& (submit_accepted(url@, body.model().lines) ==> (r matches Ok(p) && {
                &&& p.method == method
                &&& p.url@ == url@
                &&& pairs_view(p.headers@) == parse_headers_spec(headers.model().lines)
                &&& (bt.len() == 0 ==> p.body is None)
                &&& (bt.len() > 0 ==> (p.body matches Some(b) && b@ == bt))
            }))
        }),
{
    if url.as_str().is_empty() {
        return Err(ValidationError::EmptyUrl);
    }
    let header_pairs = parse_header_lines(&headers.lines);
    let joined = text::join_text(&body.lines);
    let body_text = text::trim_str(joined.as_str());
    if body_text.as_str().is_empty() {
        Ok(PreparedRequest { method, url: url.clone(), headers: header_pairs, body: None })
    } else {
        match json::json_reformat(body_text.as_str()) {
            Ok(_) => Ok(
                PreparedRequest {
                    method,
                    url: url.clone(),
                    headers: header_pairs,
                    body: Some(body_text),
                },
            ),
            Err(message) => Err(ValidationError::InvalidJsonBody { message }),
        }
    }
}

/// What came back from one transport attempt.
pub enum TransportOutcome {
    /// The network call itself failed; carries the transport's message.
    Failed { message: String },
    /// The call returned a status line; reading the body then either
    /// produced its text or failed with a message.
    Received { status: u16, elapsed_ms: u64, body: Result<String, String> },
}

} // verus!
