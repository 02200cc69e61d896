//! Building an API request and reading its response.
use vstd::prelude::*;
use crate::data::{AuthRequest, ClientRequest, PiHoleError};
use crate::error::{DecodeFailure, PiHoleApiError};
use crate::json::{parse_json, json_document, FromJson, Json};

verus! {

/// The HTTP method of a request.
#[derive(Clone, Copy, Debug, PartialEq, Eq, Structural)]
pub enum Method {
    Get,
    Post,
    Put,
    Delete,
}

/// A request ready to be sent: method, full URL, headers and JSON body.
#[derive(Debug)]
pub struct HttpRequest {
    pub method: Method,
    pub url: String,
    pub headers: Vec<(String, String)>,
    pub body: Option<String>,
}

/// The status code of a reply without content.
pub const NO_CONTENT: u16 = 204;

/// `s` without its leading slashes.
pub open spec fn trim_leading_slashes(s: Seq<char>) -> Seq<char>
    decreases s.len(),
{
    if s.len() > 0 && s[0] == '/' {
        trim_leading_slashes(s.drop_first())
    } else {
        s
    }
}

/// The URL of `endpoint` on the appliance at `base`.
pub open spec fn url_of(base: Seq<char>, endpoint: Seq<char>) -> Seq<char> {
    "http://"@ + base + "/"@ + trim_leading_slashes(endpoint)
}

/// Joins the appliance's address and an endpoint path into a URL.
pub fn build_url(base: &str, endpoint: &str) -> (r: String)
    ensures
        r@ == url_of(base@, endpoint@),
{
    let n = endpoint.unicode_len();
    let mut i: usize = 0;
    assert(endpoint@.subrange(0, n as int) =~= endpoint@);
    while i < n && endpoint.get_char(i) == '/'
        invariant
            n == endpoint@.len(),
            i <= n,
            trim_leading_slashes(endpoint@) == trim_leading_slashes(endpoint@.subrange(i as int, n as int)),
        decreases n - i,
    {
        assert(endpoint@.subrange(i as int, n as int).drop_first() =~= endpoint@.subrange(
            i + 1,
            n as int,
        ));
        i = i + 1;
    }
    let rest = endpoint.substring_char(i, n);
    let mut url = String::from_str("http://");
    url.append(base);
    url.append("/");
    url.append(rest);
    url
}

/// The decimal digit `d` (for `d` below ten).
pub open spec fn digit_char(d: int) -> char {
    if d == 0 {
        '0'
    } else if d == 1 {
        '1'
    } else if d == 2 {
        '2'
    } else if d == 3 {
        '3'
    } else if d == 4 {
        '4'
    } else if d == 5 {
        '5'
    } else if d == 6 {
        '6'
    } else if d == 7 {
        '7'
    } else if d == 8 {
        '8'
    } else {
        '9'
    }
}

/// The lower-case hexadecimal digit `d` (for `d` below sixteen).
pub open spec fn hex_digit(d: int) -> char {
    if d < 10 {
        digit_char(d)
    } else if d == 10 {
        'a'
    } else if d == 11 {
        'b'
    } else if d == 12 {
        'c'
    } else if d == 13 {
        'd'
    } else if d == 14 {
        'e'
    } else {
        'f'
    }
}

/// How one character stands inside a JSON string literal: the quote mark and
/// the backslash get a backslash in front; backspace, tab, newline, form feed
/// and carriage return become short escapes; the other control characters
/// become a `\u00` escape in lower-case hexadecimal; the rest stays as it is.
pub open spec fn escaped_char(c: char) -> Seq<char> {
    if c == '"' {
        seq!['\\', '"']
    } else if c == '\\' {
        seq!['\\', '\\']
    } else if c == '\u{8}' {
        seq!['\\', 'b']
    } else if c == '\t' {
        seq!['\\', 't']
    } else if c == '\n' {
        seq!['\\', 'n']
    } else if c == '\u{c}' {
        seq!['\\', 'f']
    } else if c == '\r' {
        seq!['\\', 'r']
    } else if (c as u32) < 0x20 {
        seq!['\\', 'u', '0', '0', hex_digit((c as u32) as int / 16), hex_digit((c as u32) as int % 16)]
    } else {
        seq![c]
    }
}

/// The characters of `s`, each as it stands inside a JSON string literal.
pub open spec fn escaped(s: Seq<char>) -> Seq<char>
    decreases s.len(),
{
    if s.len() == 0 {
        Seq::empty()
    } else {
        escaped(s.drop_last()) + escaped_char(s.last())
    }
}

/// The JSON string literal for the text `s`.
pub open spec fn json_text(s: Seq<char>) -> Seq<char> {
    seq!['"'] + escaped(s) + seq!['"']
}

/// Relies on serde_json::to_string on a `str`: the text between quote marks,
/// escaped by serde_json's table of escapes (which `escaped_char` states).
/// Serialising a `str` does not fail.
#[verifier::external_body]
fn json_string(s: &str) -> (r: String)
    ensures
        r@ == json_text(s@),
{
    serde_json::to_string(s).unwrap_or_default()
}

/// The decimal text of `n`, without leading zeros.
pub open spec fn decimal(n: u8) -> Seq<char> {
    if n < 10 {
        seq![digit_char(n as int)]
    } else if n < 100 {
        seq![digit_char(n as int / 10), digit_char(n as int % 10)]
    } else {
        seq![digit_char(n as int / 100), digit_char((n as int / 10) % 10), digit_char(n as int % 10)]
    }
}

fn digit_text(d: u8) -> (r: &'static str)
    requires
        d < 10,
    ensures
        r@ == seq![digit_char(d as int)],
{
    proof {
        reveal_strlit("0");
        reveal_strlit("1");
        reveal_strlit("2");
        reveal_strlit("3");
        reveal_strlit("4");
        reveal_strlit("5");
        reveal_strlit("6");
        reveal_strlit("7");
        reveal_strlit("8");
        reveal_strlit("9");
    }
    match d {
        0 => "0",
        1 => "1",
        2 => "2",
        3 => "3",
        4 => "4",
        5 => "5",
        6 => "6",
        7 => "7",
        8 => "8",
        _ => "9",
    }
}

/// Appends the decimal text of `n` to `out`.
fn append_decimal(out: &mut String, n: u8)
    ensures
        final(out)@ == old(out)@ + decimal(n),
{
    if n >= 100 {
        out.append(digit_text(n / 100));
    }
    if n >= 10 {
        out.append(digit_text((n / 10) % 10));
    }
    out.append(digit_text(n % 10));
    assert(final(out)@ =~= old(out)@ + decimal(n));
}

/// The decimal text of `n`.
pub fn decimal_text(n: u8) -> (r: String)
    ensures
        r@ == decimal(n),
{
    let mut s = String::new();
    append_decimal(&mut s, n);
    assert(s@ =~= decimal(n));
    s
}

/// The members of a JSON array of small integers, separated by commas.
pub open spec fn decimal_items(s: Seq<u8>) -> Seq<char>
    decreases s.len(),
{
    if s.len() == 0 {
        Seq::empty()
    } else if s.len() == 1 {
        decimal(s[0])
    } else {
        decimal_items(s.drop_last()) + ","@ + decimal(s.last())
    }
}

/// The JSON array of the small integers `s`.
pub open spec fn decimal_list(s: Seq<u8>) -> Seq<char> {
    "["@ + decimal_items(s) + "]"@
}

/// Appends the JSON array of `v` to `out`.
fn append_decimal_list(out: &mut String, v: &Vec<u8>)
    ensures
        final(out)@ == old(out)@ + decimal_list(v@),
{
    out.append("[");
    let ghost start = out@;
    let mut i: usize = 0;
    while i < v.len()
        invariant
            i <= v@.len(),
            out@ == start + decimal_items(v@.subrange(0, i as int)),
        decreases v@.len() - i,
    {
        assert(v@.subrange(0, i + 1).drop_last() =~= v@.subrange(0, i as int));
        if i > 0 {
            out.append(",");
        }
        append_decimal(out, v[i]);
        i = i + 1;
        assert(out@ =~= start + decimal_items(v@.subrange(0, i as int)));
    }
    assert(v@.subrange(0, v@.len() as int) =~= v@);
    out.append("]");
}

/// The JSON body of a login request.
pub open spec fn auth_body(password: Seq<char>) -> Seq<char> {
    "{\"password\":"@ + json_text(password) + "}"@
}

/// The JSON body of a client update.
pub open spec fn client_body(comment: Seq<char>, groups: Seq<u8>) -> Seq<char> {
    "{\"comment\":"@ + json_text(comment) + ",\"groups\":"@ + decimal_list(groups) + "}"@
}

impl AuthRequest {
    /// The request's JSON text.
    pub fn to_json(&self) -> (r: String)
        ensures
            r@ == auth_body(self.password@),
    {
        let mut s = String::from_str("{\"password\":");
        let p = json_string(self.password.as_str());
        s.append(p.as_str());
        s.append("}");
        s
    }
}

impl ClientRequest {
    /// The request's JSON text.
    pub fn to_json(&self) -> (r: String)
        ensures
            r@ == client_body(self.comment@, self.groups@),
    {
        let mut s = String::from_str("{\"comment\":");
        let c = json_string(self.comment.as_str());
        s.append(c.as_str());
        s.append(",\"groups\":");
        append_decimal_list(&mut s, &self.groups);
        s.append("}");
        s
    }
}

/// `r` is what a call expecting an `R` yields for a reply with `status` whose
/// body is the document `doc` (`None`: not valid JSON). A reply without content
/// reads as `null`. Otherwise the body is read first as an `R`, then as the
/// API's error shape; matching neither is a malformed response.
pub open spec fn response_outcome<R: FromJson>(
    status: u16,
    doc: Option<Json>,
    r: Result<R, PiHoleApiError>,
) -> bool {
    if status == NO_CONTENT {
        if R::json_shape(Json::Null) {
            r matches Ok(v) && R::json_value(Json::Null, v)
        } else {
            r matches Err(PiHoleApiError::SerdeJsonError(DecodeFailure::Mismatch(m))) && m@
                == R::shape()
        }
    } else {
        match doc {
            None => r matches Err(
                PiHoleApiError::SerdeJsonBiError(DecodeFailure::Syntax(_), DecodeFailure::Syntax(_)),
            ),
            Some(j) => if R::json_shape(j) {
                r matches Ok(v) && R::json_value(j, v)
            } else if PiHoleError::json_shape(j) {
                r matches Err(PiHoleApiError::HttpApiError(e)) && PiHoleError::json_value(j, e)
            } else {
                r matches Err(
                    PiHoleApiError::SerdeJsonBiError(
                        DecodeFailure::Mismatch(outer),
                        DecodeFailure::Mismatch(inner),
                    ),
                ) && outer@ == R::shape() && inner@ == PiHoleError::shape()
            },
        }
    }
}

/// Reads a reply from its status and its parsed body (`Err`: the body is not
/// valid JSON).
pub fn resolve_response<R: FromJson>(status: u16, parsed: Result<Json, serde_json::Error>) -> (r:
    Result<R, PiHoleApiError>)
    ensures
        response_outcome::<R>(
            status,
            match parsed {
                Ok(j) => Some(j),
                Err(_) => None,
            },
            r,
        ),
{
    if status == NO_CONTENT {
        return match R::from_json(&Json::Null) {
            Some(v) => Ok(v),
            None => Err(
                PiHoleApiError::SerdeJsonError(
                    DecodeFailure::Mismatch(String::from_str(R::shape_name())),
                ),
            ),
        };
    }
    match parsed {
        Err(e) => Err(
            PiHoleApiError::SerdeJsonBiError(DecodeFailure::from_syntax(&e), DecodeFailure::from_syntax(&e)),
        ),
        Ok(j) => match R::from_json(&j) {
            Some(v) => Ok(v),
            None => match PiHoleError::from_json(&j) {
                Some(e) => Err(PiHoleApiError::HttpApiError(e)),
                None => Err(
                    PiHoleApiError::SerdeJsonBiError(
                        DecodeFailure::Mismatch(String::from_str(R::shape_name())),
                        DecodeFailure::Mismatch(String::from_str(PiHoleError::shape_name())),
                    ),
                ),
            },
        },
    }
}

/// Reads a reply from its status and its body text.
pub fn decode_response<R: FromJson>(status: u16, body: &str) -> (r: Result<R, PiHoleApiError>)
    ensures
        response_outcome::<R>(status, json_document(body@), r),
{
    if status == NO_CONTENT {
        return resolve_response::<R>(status, Ok(Json::Null));
    }
    resolve_response::<R>(status, parse_json(body))
}

} // verus!
