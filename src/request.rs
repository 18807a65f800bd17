//! The request model and the parser that builds it from raw text.
use vstd::prelude::*;
use crate::headers::Headers;
use crate::text::{chars_of, find_char, first_index, has_char, is_white, string_of, sub_chars, white};

verus! {

/// The method named on the request line.
#[derive(Debug, Clone, Copy, PartialEq, Eq, Structural)]
pub enum Method {
    Get,
    Post,
    Uninitialized,
}

/// The protocol version named on the request line.
#[derive(Debug, Clone, Copy, PartialEq, Eq, Structural)]
pub enum Version {
    V1_1,
    V2_0,
    Uninitialized,
}

/// The method that a token names: matched case-sensitively.
pub open spec fn method_of(s: Seq<char>) -> Method {
    if s == seq!['G', 'E', 'T'] {
        Method::Get
    } else if s == seq!['P', 'O', 'S', 'T'] {
        Method::Post
    } else {
        Method::Uninitialized
    }
}

/// The version that a token names.
pub open spec fn version_of(s: Seq<char>) -> Version {
    if s == seq!['H', 'T', 'T', 'P', '/', '1', '.', '1'] {
        Version::V1_1
    } else if s == seq!['H', 'T', 'T', 'P', '/', '2', '.', '0'] {
        Version::V2_0
    } else {
        Version::Uninitialized
    }
}

/// Whether `a` holds exactly the characters of `b`.
fn same_chars(a: &Vec<char>, b: &[char]) -> (r: bool)
    ensures
        r == (a@ == b@),
{
    if a.len() != b.len() {
        return false;
    }
    let mut i: usize = 0;
    while i < a.len()
        invariant
            a@.len() == b@.len(),
            0 <= i <= a@.len(),
            forall|j: int| 0 <= j < i ==> a@[j] == b@[j],
        decreases a@.len() - i,
    {
        if a[i] != b[i] {
            return false;
        }
        i = i + 1;
    }
    assert(a@ =~= b@);
    true
}

impl Method {
    /// The method that a token names.
    pub fn from_chars(s: &Vec<char>) -> (r: Method)
        ensures
            r == method_of(s@),
    {
        let get = ['G', 'E', 'T'];
        let post = ['P', 'O', 'S', 'T'];
        assert(get@ =~= seq!['G', 'E', 'T']);
        assert(post@ =~= seq!['P', 'O', 'S', 'T']);
        if same_chars(s, &get) {
            Method::Get
        } else if same_chars(s, &post) {
            Method::Post
        } else {
            Method::Uninitialized
        }
    }
}

impl Version {
    /// The version that a token names.
    pub fn from_chars(s: &Vec<char>) -> (r: Version)
        ensures
            r == version_of(s@),
    {
        let v11 = ['H', 'T', 'T', 'P', '/', '1', '.', '1'];
        let v20 = ['H', 'T', 'T', 'P', '/', '2', '.', '0'];
        assert(v11@ =~= seq!['H', 'T', 'T', 'P', '/', '1', '.', '1']);
        assert(v20@ =~= seq!['H', 'T', 'T', 'P', '/', '2', '.', '0']);
        if same_chars(s, &v11) {
            Version::V1_1
        } else if same_chars(s, &v20) {
            Version::V2_0
        } else {
            Version::Uninitialized
        }
    }
}

impl<'a> From<&'a str> for Method {
    fn from(s: &'a str) -> (r: Method) {
        Method::from_chars(&chars_of(s))
    }
}

impl<'a> vstd::std_specs::convert::FromSpecImpl<&'a str> for Method {
    open spec fn obeys_from_spec() -> bool {
        true
    }

    open spec fn from_spec(v: &'a str) -> Method {
        method_of(v@)
    }
}

impl<'a> From<&'a str> for Version {
    fn from(s: &'a str) -> (r: Version) {
        Version::from_chars(&chars_of(s))
    }
}

impl<'a> vstd::std_specs::convert::FromSpecImpl<&'a str> for Version {
    open spec fn obeys_from_spec() -> bool {
        true
    }

    open spec fn from_spec(v: &'a str) -> Version {
        version_of(v@)
    }
}

/// What the request asks for.
#[derive(Debug)]
pub enum Resource {
    Path(String),
}

impl Resource {
    /// The path that the resource names.
    pub open spec fn path(&self) -> Seq<char> {
        match self {
            Resource::Path(p) => p@,
        }
    }
}

impl PartialEq for Resource {
    fn eq(&self, o: &Resource) -> (r: bool) {
        match (self, o) {
            (Resource::Path(a), Resource::Path(b)) => *a == *b,
        }
    }
}

impl vstd::std_specs::cmp::PartialEqSpecImpl for Resource {
    open spec fn obeys_eq_spec() -> bool {
        true
    }

    open spec fn eq_spec(&self, o: &Resource) -> bool {
        self.path() == o.path()
    }
}

/// A parsed request, as plain mathematical values.
pub struct RequestModel {
    pub method: Method,
    pub version: Version,
    pub path: Seq<char>,
    pub headers: Map<Seq<char>, Seq<char>>,
    pub body: Seq<char>,
}

/// A parsed request.
#[derive(Debug)]
pub struct Request {
    pub method: Method,
    pub version: Version,
    pub resource: Resource,
    pub headers: Headers,
    pub msg_body: String,
}

impl Request {
    /// The request as plain values.
    pub open spec fn model(&self) -> RequestModel {
        RequestModel {
            method: self.method,
            version: self.version,
            path: self.resource.path(),
            headers: self.headers.map(),
            body: self.msg_body@,
        }
    }
}

/// Why a request could not be parsed.
#[derive(Debug, Clone, Copy, PartialEq, Eq, Structural)]
pub enum ParseError {
    /// A request line holds fewer than three words.
    MalformedRequestLine,
}

/// The line that a piece ends in once its terminator is gone: a carriage return
/// before the line feed belongs to the terminator.
pub open spec fn strip_cr(l: Seq<char>) -> Seq<char> {
    if l.len() > 0 && l.last() == '\r' {
        l.drop_last()
    } else {
        l
    }
}

/// The lines ended by a line feed so far, and the unfinished rest.
pub open spec fn split_lines(s: Seq<char>) -> (Seq<Seq<char>>, Seq<char>)
    decreases s.len(),
{
    if s.len() == 0 {
        (Seq::empty(), Seq::empty())
    } else {
        let (done, cur) = split_lines(s.drop_last());
        if s.last() == '\n' {
            (done.push(strip_cr(cur)), Seq::empty())
        } else {
            (done, cur.push(s.last()))
        }
    }
}

/// The lines of a text: the pieces between line feeds, each without the carriage
/// return before its line feed.
pub open spec fn lines(s: Seq<char>) -> Seq<Seq<char>> {
    split_lines(s).0.push(split_lines(s).1)
}

/// Whether `l` holds `HTTP` somewhere.
pub open spec fn mentions_http(l: Seq<char>) -> bool {
    exists|i: int| 0 <= i && i + 4 <= l.len() && #[trigger] l.subrange(i, i + 4) == seq!['H', 'T', 'T', 'P']
}

/// The words found so far, and the unfinished one.
pub open spec fn split_words(s: Seq<char>) -> (Seq<Seq<char>>, Seq<char>)
    decreases s.len(),
{
    if s.len() == 0 {
        (Seq::empty(), Seq::empty())
    } else {
        let (done, cur) = split_words(s.drop_last());
        if is_white(s.last()) {
            if cur.len() > 0 {
                (done.push(cur), Seq::empty())
            } else {
                (done, Seq::empty())
            }
        } else {
            (done, cur.push(s.last()))
        }
    }
}

/// The maximal runs of non-whitespace characters of `s`.
pub open spec fn words(s: Seq<char>) -> Seq<Seq<char>> {
    if split_words(s).1.len() > 0 {
        split_words(s).0.push(split_words(s).1)
    } else {
        split_words(s).0
    }
}

/// Word `k` of a list, or nothing where there are fewer.
pub open spec fn word(w: Seq<Seq<char>>, k: int) -> Seq<char> {
    if k < w.len() {
        w[k]
    } else {
        Seq::empty()
    }
}

/// A request before any line was read.
pub open spec fn empty_model() -> RequestModel {
    RequestModel {
        method: Method::Uninitialized,
        version: Version::V1_1,
        path: Seq::empty(),
        headers: Map::empty(),
        body: Seq::empty(),
    }
}

/// What one line does to a request: a line that mentions `HTTP` is the request
/// line, one with a colon a header field split at its first colon, an empty one
/// nothing, any other is the body.
pub open spec fn read_line(m: RequestModel, l: Seq<char>) -> RequestModel {
    if mentions_http(l) {
        let w = words(l);
        RequestModel {
            method: method_of(word(w, 0)),
            path: word(w, 1),
            version: version_of(word(w, 2)),
            ..m
        }
    } else if has_char(l, ':') {
        let i = first_index(l, ':');
        RequestModel { headers: m.headers.insert(l.subrange(0, i), l.subrange(i + 1, l.len() as int)), ..m }
    } else if l.len() == 0 {
        m
    } else {
        RequestModel { body: l, ..m }
    }
}

/// The request that a list of lines makes, read in order.
pub open spec fn read_lines(ls: Seq<Seq<char>>) -> RequestModel
    decreases ls.len(),
{
    if ls.len() == 0 {
        empty_model()
    } else {
        read_line(read_lines(ls.drop_last()), ls.last())
    }
}

/// The request that a text makes.
pub open spec fn parse_model(s: Seq<char>) -> RequestModel {
    read_lines(lines(s))
}

/// Whether a line is taken for a request line but lacks one of its three words.
pub open spec fn malformed_line(l: Seq<char>) -> bool {
    mentions_http(l) && words(l).len() < 3
}

/// Whether some line of the text is a request line that lacks a word.
pub open spec fn has_malformed_line(s: Seq<char>) -> bool {
    exists|i: int| 0 <= i < lines(s).len() && malformed_line(#[trigger] lines(s)[i])
}

/// Whether `l` holds `HTTP` somewhere.
fn find_http(l: &Vec<char>) -> (r: bool)
    ensures
        r == mentions_http(l@),
{
    let mut i: usize = 0;
    while l.len() >= 4 && i <= l.len() - 4
        invariant
            i <= l@.len(),
            forall|j: int| 0 <= j < i ==> #[trigger] l@.subrange(j, j + 4) != seq!['H', 'T', 'T', 'P'],
        decreases l@.len() - i,
    {
        if l[i] == 'H' && l[i + 1] == 'T' && l[i + 2] == 'T' && l[i + 3] == 'P' {
            assert(l@.subrange(i as int, i + 4) =~= seq!['H', 'T', 'T', 'P']);
            return true;
        }
        proof {
            let t = l@.subrange(i as int, i + 4);
            if t == seq!['H', 'T', 'T', 'P'] {
                assert(t[0] == l@[i as int] && t[1] == l@[i + 1] && t[2] == l@[i + 2] && t[3] == l@[i + 3]);
            }
        }
        i = i + 1;
    }
    false
}

/// The whitespace-separated words of `l`.
fn split_whitespace(l: &Vec<char>) -> (r: Vec<Vec<char>>)
    ensures
        r@.len() == words(l@).len(),
        forall|k: int| 0 <= k < r@.len() ==> r@[k]@ == words(l@)[k],
{
    let mut done: Vec<Vec<char>> = Vec::new();
    let mut cur: Vec<char> = Vec::new();
    let mut i: usize = 0;
    while i < l.len()
        invariant
            0 <= i <= l@.len(),
            done@.len() == split_words(l@.subrange(0, i as int)).0.len(),
            forall|k: int| 0 <= k < done@.len() ==> done@[k]@ == split_words(l@.subrange(0, i as int)).0[k],
            cur@ == split_words(l@.subrange(0, i as int)).1,
        decreases l@.len() - i,
    {
        let c = l[i];
        assert(l@.subrange(0, i + 1).drop_last() =~= l@.subrange(0, i as int));
        if white(c) {
            if cur.len() > 0 {
                done.push(cur);
            }
            cur = Vec::new();
        } else {
            cur.push(c);
        }
        i = i + 1;
    }
    assert(l@.subrange(0, i as int) =~= l@);
    if cur.len() > 0 {
        done.push(cur);
    }
    done
}

/// Applies one line to the request being built.
fn apply_line(req: &mut Request, malformed: &mut bool, l: &Vec<char>)
    ensures
        final(req).model() == read_line(old(req).model(), l@),
        *final(malformed) == (*old(malformed) || malformed_line(l@)),
{
    if find_http(l) {
        let w = split_whitespace(l);
        let empty: Vec<char> = Vec::new();
        let m = if w.len() > 0 { &w[0] } else { &empty };
        let p = if w.len() > 1 { &w[1] } else { &empty };
        let v = if w.len() > 2 { &w[2] } else { &empty };
        assert(m@ == word(words(l@), 0));
        assert(p@ == word(words(l@), 1));
        assert(v@ == word(words(l@), 2));
        req.method = Method::from_chars(m);
        req.resource = Resource::Path(string_of(p));
        req.version = Version::from_chars(v);
        if w.len() < 3 {
            *malformed = true;
        }
    } else {
        match find_char(l, ':') {
            Some(i) => {
                let key = sub_chars(l, 0, i);
                let n = l.len();
                let value = sub_chars(l, i + 1, n);
                req.headers.insert(string_of(&key), string_of(&value));
            },
            None => {
                if l.len() > 0 {
                    req.msg_body = string_of(l);
                }
            },
        }
    }
}

/// The request that a text makes, and whether a request line in it lacks a word.
fn read_request(s: &str) -> (r: (Request, bool))
    ensures
        r.0.model() == parse_model(s@),
        r.1 == has_malformed_line(s@),
{
    let v = chars_of(s);
    let mut req = Request {
        method: Method::Uninitialized,
        version: Version::V1_1,
        resource: Resource::Path(string_of(&Vec::new())),
        headers: Headers::new(),
        msg_body: string_of(&Vec::new()),
    };
    assert(req.model().headers =~= Map::empty());
    assert(req.model() == empty_model());
    let mut malformed = false;
    let mut cur: Vec<char> = Vec::new();
    let mut i: usize = 0;
    while i < v.len()
        invariant
            v@ == s@,
            0 <= i <= v@.len(),
            cur@ == split_lines(v@.subrange(0, i as int)).1,
            req.model() == read_lines(split_lines(v@.subrange(0, i as int)).0),
            malformed == exists|k: int|
                0 <= k < split_lines(v@.subrange(0, i as int)).0.len()
                    && malformed_line(#[trigger] split_lines(v@.subrange(0, i as int)).0[k]),
        decreases v@.len() - i,
    {
        let ghost done = split_lines(v@.subrange(0, i as int)).0;
        let c = v[i];
        assert(v@.subrange(0, i + 1).drop_last() =~= v@.subrange(0, i as int));
        if c == '\n' {
            let n = cur.len();
            let line = if n > 0 && cur[n - 1] == '\r' { sub_chars(&cur, 0, n - 1) } else { sub_chars(&cur, 0, n) };
            assert(line@ == strip_cr(cur@)) by {
                assert(cur@.subrange(0, n as int) =~= cur@);
            };
            apply_line(&mut req, &mut malformed, &line);
            proof {
                let nd = done.push(line@);
                assert(nd.drop_last() =~= done);
                assert(malformed == exists|k: int| 0 <= k < nd.len() && malformed_line(#[trigger] nd[k])) by {
                    if malformed_line(line@) {
                        assert(malformed_line(nd[done.len() as int]));
                    }
                    assert(forall|k: int| 0 <= k < done.len() ==> nd[k] == done[k]);
                };
            }
            cur = Vec::new();
        } else {
            cur.push(c);
        }
        i = i + 1;
    }
    assert(v@.subrange(0, i as int) =~= s@);
    let ghost done = split_lines(s@).0;
    apply_line(&mut req, &mut malformed, &cur);
    proof {
        let ls = lines(s@);
        assert(ls.drop_last() =~= done);
        assert(malformed == exists|k: int| 0 <= k < ls.len() && malformed_line(#[trigger] ls[k])) by {
            if malformed_line(cur@) {
                assert(malformed_line(ls[done.len() as int]));
            }
            assert(forall|k: int| 0 <= k < done.len() ==> ls[k] == done[k]);
        };
    }
    (req, malformed)
}

impl Request {
    /// Parses a request; never fails. A request line that lacks a word is read
    /// with that word empty, which leaves its method or version unrecognized.
    pub fn from_text(s: &str) -> (r: Request)
        ensures
            r.model() == parse_model(s@),
    {
        read_request(s).0
    }

    /// Parses a request, refusing a text in which a request line lacks a word.
    pub fn parse(s: &str) -> (r: Result<Request, ParseError>)
        ensures
            r is Err <==> has_malformed_line(s@),
            r matches Err(e) ==> e == ParseError::MalformedRequestLine,
            r matches Ok(q) ==> q.model() == parse_model(s@),
    {
        let (req, malformed) = read_request(s);
        if malformed {
            Err(ParseError::MalformedRequestLine)
        } else {
            Ok(req)
        }
    }
}

impl From<String> for Request {
    fn from(s: String) -> (r: Request)
        ensures
            r.model() == parse_model(s@),
    {
        Request::from_text(s.as_str())
    }
}

impl vstd::std_specs::convert::FromSpecImpl<String> for Request {
    open spec fn obeys_from_spec() -> bool {
        false
    }

    open spec fn from_spec(v: String) -> Request {
        arbitrary()
    }
}

} // verus!
