//! The response model and its wire format.
use vstd::prelude::*;
use crate::headers::Headers;
use crate::text::{byte_len, chars_of, decimal, push_decimal, string_of, utf8_len};

verus! {

/// A response, as plain mathematical values.
pub struct ResponseModel {
    pub version: Seq<char>,
    pub status_code: Seq<char>,
    pub status_text: Seq<char>,
    pub headers: Option<Seq<(Seq<char>, Seq<char>)>>,
    pub body: Option<Seq<char>>,
}

/// The reason phrase for a status code; codes outside the table get a fallback.
pub open spec fn status_text_of(code: Seq<char>) -> Seq<char> {
    if code == seq!['2', '0', '0'] {
        seq!['O', 'K']
    } else if code == seq!['4', '0', '0'] {
        seq!['B', 'a', 'd', ' ', 'R', 'e', 'q', 'u', 'e', 's', 't']
    } else if code == seq!['4', '0', '4'] {
        seq!['N', 'o', 't', ' ', 'F', 'o', 'u', 'n', 'd']
    } else if code == seq!['5', '0', '0'] {
        seq!['I', 'n', 't', 'e', 'r', 'n', 'a', 'l', ' ', 'S', 'e', 'r', 'v', 'e', 'r', ' ', 'E', 'r', 'r', 'o', 'r']
    } else {
        seq!['U', 'n', 'k', 'n', 'o', 'w', 'n', ' ', 'E', 'r', 'r', 'o', 'r']
    }
}

/// The version label that every response carries.
pub open spec fn http_1_1() -> Seq<char> {
    seq!['H', 'T', 'T', 'P', '/', '1', '.', '1']
}

/// The header fields that a response gets when none are given.
pub open spec fn default_fields() -> Seq<(Seq<char>, Seq<char>)> {
    seq![(
        seq!['C', 'o', 'n', 't', 'e', 'n', 't', '-', 'T', 'y', 'p', 'e'],
        seq!['t', 'e', 'x', 't', '/', 'h', 't', 'm', 'l'],
    )]
}

/// A bare `200 OK` with neither header fields nor body.
pub open spec fn default_model() -> ResponseModel {
    ResponseModel {
        version: http_1_1(),
        status_code: seq!['2', '0', '0'],
        status_text: seq!['O', 'K'],
        headers: None,
        body: None,
    }
}

/// One `name:value` line for each field, in order.
pub open spec fn header_lines(s: Seq<(Seq<char>, Seq<char>)>) -> Seq<char>
    decreases s.len(),
{
    if s.len() == 0 {
        Seq::empty()
    } else {
        header_lines(s.drop_last()) + s.last().0 + seq![':'] + s.last().1 + seq!['\r', '\n']
    }
}

/// The header fields that a response writes: none where it has none.
pub open spec fn fields_of(m: ResponseModel) -> Seq<(Seq<char>, Seq<char>)> {
    match m.headers {
        Some(h) => h,
        None => Seq::empty(),
    }
}

/// The body that a response writes: empty where it has none.
pub open spec fn body_of(m: ResponseModel) -> Seq<char> {
    match m.body {
        Some(b) => b,
        None => Seq::empty(),
    }
}

/// The wire text of a response: the status line, the header fields, the
/// `Content Length` line with the body's byte count, an empty line, the body.
pub open spec fn wire(m: ResponseModel) -> Seq<char> {
    m.version + seq![' '] + m.status_code + seq![' '] + m.status_text + seq!['\r', '\n']
        + header_lines(fields_of(m))
        + seq!['C', 'o', 'n', 't', 'e', 'n', 't', ' ', 'L', 'e', 'n', 'g', 't', 'h', ':', ' ']
        + decimal(utf8_len(body_of(m))) + seq!['\r', '\n', '\r', '\n'] + body_of(m)
}

/// Appends the characters of `s` to `out`.
fn push_all(out: &mut Vec<char>, s: &[char])
    ensures
        final(out)@ == old(out)@ + s@,
{
    let mut i: usize = 0;
    while i < s.len()
        invariant
            0 <= i <= s@.len(),
            out@ == old(out)@ + s@.subrange(0, i as int),
        decreases s@.len() - i,
    {
        out.push(s[i]);
        i = i + 1;
        assert(out@ =~= old(out)@ + s@.subrange(0, i as int));
    }
    assert(s@.subrange(0, i as int) =~= s@);
}

/// Appends the characters of `s` to `out`.
fn push_str(out: &mut Vec<char>, s: &str)
    ensures
        final(out)@ == old(out)@ + s@,
{
    let v = chars_of(s);
    push_all(out, v.as_slice());
}

/// A response to a request.
#[derive(Debug)]
pub struct Response {
    version: String,
    status_code: String,
    status_text: String,
    headers: Option<Headers>,
    body: Option<String>,
}

impl View for Response {
    type V = ResponseModel;

    closed spec fn view(&self) -> ResponseModel {
        ResponseModel {
            version: http_1_1(),
            status_code: self.status_code@,
            status_text: status_text_of(self.status_code@),
            headers: match self.headers {
                Some(h) => Some(h@),
                None => None,
            },
            body: match self.body {
                Some(b) => Some(b@),
                None => None,
            },
        }
    }
}

/// The reason phrase for a status code.
fn status_text_for(code: &str) -> (r: String)
    ensures
        r@ == status_text_of(code@),
{
    let c = chars_of(code);
    let t: Vec<char> = if c.len() == 3 && c[0] == '2' && c[1] == '0' && c[2] == '0' {
        vec!['O', 'K']
    } else if c.len() == 3 && c[0] == '4' && c[1] == '0' && c[2] == '0' {
        vec!['B', 'a', 'd', ' ', 'R', 'e', 'q', 'u', 'e', 's', 't']
    } else if c.len() == 3 && c[0] == '4' && c[1] == '0' && c[2] == '4' {
        vec!['N', 'o', 't', ' ', 'F', 'o', 'u', 'n', 'd']
    } else if c.len() == 3 && c[0] == '5' && c[1] == '0' && c[2] == '0' {
        vec!['I', 'n', 't', 'e', 'r', 'n', 'a', 'l', ' ', 'S', 'e', 'r', 'v', 'e', 'r', ' ', 'E', 'r', 'r', 'o', 'r']
    } else {
        vec!['U', 'n', 'k', 'n', 'o', 'w', 'n', ' ', 'E', 'r', 'r', 'o', 'r']
    };
    proof {
        let s = c@;
        if s == seq!['2', '0', '0'] || s == seq!['4', '0', '0'] || s == seq!['4', '0', '4'] || s == seq!['5', '0', '0'] {
            assert(s.len() == 3);
        }
        if s.len() == 3 {
            assert(s[0] == '2' && s[1] == '0' && s[2] == '0' ==> s =~= seq!['2', '0', '0']);
            assert(s[0] == '4' && s[1] == '0' && s[2] == '0' ==> s =~= seq!['4', '0', '0']);
            assert(s[0] == '4' && s[1] == '0' && s[2] == '4' ==> s =~= seq!['4', '0', '4']);
            assert(s[0] == '5' && s[1] == '0' && s[2] == '0' ==> s =~= seq!['5', '0', '0']);
        }
    }
    string_of(&t)
}

impl Default for Response {
    fn default() -> (r: Response)
        ensures
            r@ == default_model(),
    {
        proof {
            assert(status_text_of(seq!['2', '0', '0']) == seq!['O', 'K']);
        }
        Response {
            version: string_of(&vec!['H', 'T', 'T', 'P', '/', '1', '.', '1']),
            status_code: string_of(&vec!['2', '0', '0']),
            status_text: string_of(&vec!['O', 'K']),
            headers: None,
            body: None,
        }
    }
}

impl Response {
    #[verifier::type_invariant]
    spec fn inv(self) -> bool {
        self.version@ == http_1_1() && self.status_text@ == status_text_of(self.status_code@)
    }

    /// A response with the given status code, header fields and body; the reason
    /// phrase follows from the code, and a response given no header fields gets
    /// `Content-Type: text/html`.
    pub fn new(status_code: &str, headers: Option<Headers>, body: Option<String>) -> (r: Response)
        ensures
            r@.version == http_1_1(),
            r@.status_code == status_code@,
            r@.status_text == status_text_of(status_code@),
            r@.headers == Some(
                match headers {
                    Some(h) => h@,
                    None => default_fields(),
                },
            ),
            r@.body == match body {
                Some(b) => Some(b@),
                None => None::<Seq<char>>,
            },
    {
        let headers = match headers {
            Some(h) => Some(h),
            None => {
                let mut h = Headers::new();
                h.insert(
                    string_of(&vec!['C', 'o', 'n', 't', 'e', 'n', 't', '-', 'T', 'y', 'p', 'e']),
                    string_of(&vec!['t', 'e', 'x', 't', '/', 'h', 't', 'm', 'l']),
                );
                proof {
                    assert(h@ =~= default_fields());
                }
                Some(h)
            },
        };
        Response {
            version: string_of(&vec!['H', 'T', 'T', 'P', '/', '1', '.', '1']),
            status_code: status_code.to_owned(),
            status_text: status_text_for(status_code),
            headers,
            body,
        }
    }

    /// The protocol version.
    pub fn version(&self) -> (r: &str)
        ensures
            r@ == self@.version,
    {
        proof {
            use_type_invariant(self);
        }
        self.version.as_str()
    }

    /// The status code.
    pub fn status_code(&self) -> (r: &str)
        ensures
            r@ == self@.status_code,
    {
        self.status_code.as_str()
    }

    /// The reason phrase.
    pub fn status_text(&self) -> (r: &str)
        ensures
            r@ == self@.status_text,
    {
        proof {
            use_type_invariant(self);
        }
        self.status_text.as_str()
    }

    /// The header fields, where the response has any.
    pub fn header_map(&self) -> (r: Option<&Headers>)
        ensures
            match r {
                Some(h) => self@.headers == Some(h@),
                None => self@.headers is None,
            },
    {
        match &self.headers {
            Some(h) => Some(h),
            None => None,
        }
    }

    /// The body, where the response has one.
    pub fn body_opt(&self) -> (r: Option<&String>)
        ensures
            match r {
                Some(b) => self@.body == Some(b@),
                None => self@.body is None,
            },
    {
        match &self.body {
            Some(b) => Some(b),
            None => None,
        }
    }

    /// The header field lines as they go on the wire.
    pub fn headers(&self) -> (r: String)
        ensures
            r@ == header_lines(fields_of(self@)),
    {
        let mut out: Vec<char> = Vec::new();
        self.push_headers(&mut out);
        string_of(&out)
    }

    fn push_headers(&self, out: &mut Vec<char>)
        ensures
            final(out)@ == old(out)@ + header_lines(fields_of(self@)),
    {
        match &self.headers {
            Some(h) => {
                let mut i: usize = 0;
                while i < h.len()
                    invariant
                        0 <= i <= h@.len(),
                        self@.headers == Some(h@),
                        out@ == old(out)@ + header_lines(h@.subrange(0, i as int)),
                    decreases h@.len() - i,
                {
                    let (k, v) = h.field(i);
                    push_str(out, k.as_str());
                    out.push(':');
                    push_str(out, v.as_str());
                    out.push('\r');
                    out.push('\n');
                    proof {
                        let s = h@.subrange(0, i + 1);
                        assert(s.drop_last() =~= h@.subrange(0, i as int));
                        assert(out@ =~= old(out)@ + header_lines(s));
                    }
                    i = i + 1;
                }
                assert(h@.subrange(0, i as int) =~= h@);
            },
            None => {
                assert(out@ =~= old(out)@ + header_lines(Seq::empty()));
            },
        }
    }

    /// The body as it goes on the wire: empty where there is none.
    pub fn body(&self) -> (r: &str)
        ensures
            r@ == body_of(self@),
    {
        match &self.body {
            Some(b) => b.as_str(),
            None => {
                proof {
                    reveal_strlit("");
                }
                ""
            },
        }
    }

    /// The response as wire text.
    pub fn to_wire(&self) -> (r: String)
        ensures
            r@ == wire(self@),
    {
        proof {
            use_type_invariant(self);
        }
        let mut out: Vec<char> = Vec::new();
        push_str(&mut out, self.version.as_str());
        out.push(' ');
        push_str(&mut out, self.status_code.as_str());
        out.push(' ');
        push_str(&mut out, self.status_text.as_str());
        out.push('\r');
        out.push('\n');
        self.push_headers(&mut out);
        push_all(&mut out, &['C', 'o', 'n', 't', 'e', 'n', 't', ' ', 'L', 'e', 'n', 'g', 't', 'h', ':', ' ']);
        let body = self.body();
        push_decimal(&mut out, byte_len(body));
        out.push('\r');
        out.push('\n');
        out.push('\r');
        out.push('\n');
        push_str(&mut out, body);
        proof {
            assert(out@ =~= wire(self@));
        }
        string_of(&out)
    }
}

/// Every response carries `HTTP/1.1`, and its reason phrase is the one that the
/// table gives for its status code.
pub proof fn reason_follows_code(r: &Response)
    ensures
        r@.version == http_1_1(),
        r@.status_text == status_text_of(r@.status_code),
{
}

/// Serializing is a function of the response's value alone: two responses with
/// equal values, or one response serialized twice (by `to_wire` or
/// `String::from`, whose results are both `wire` of the value), give the same text.
pub proof fn wire_is_deterministic(a: &Response, b: &Response)
    requires
        a@ == b@,
    ensures
        wire(a@) == wire(b@),
{
}

impl From<Response> for String {
    fn from(res: Response) -> (r: String)
        ensures
            r@ == wire(res@),
    {
        res.to_wire()
    }
}

impl vstd::std_specs::convert::FromSpecImpl<Response> for String {
    open spec fn obeys_from_spec() -> bool {
        false
    }

    open spec fn from_spec(v: Response) -> String {
        arbitrary()
    }
}

} // verus!
