use vstd::prelude::*;
use vstd::slice::{slice_subrange, slice_to_vec};

verus! {

/// The request methods the server knows by name.
#[derive(Clone, Copy, Debug, PartialEq, Eq, Structural)]
pub enum Method {
    Get,
    Post,
    Put,
    Delete,
    Head,
    Options,
    Connect,
    Patch,
    Trace,
}

/// The protocol versions a request line may carry.
#[derive(Clone, Copy, Debug, PartialEq, Eq, Structural)]
pub enum Version {
    Http09,
    Http10,
    Http11,
    Http2,
    Http3,
}

/// Why a buffer could not be read as a request.
#[derive(Clone, Copy, Debug, PartialEq, Eq, Structural)]
pub enum ParseError {
    /// No complete first line, or a first line without exactly three tokens.
    MalformedRequestLine,
    /// A method token outside the known set.
    UnknownMethod,
    /// A version token outside the recognised set.
    UnsupportedVersion,
    /// A header line without a colon.
    MalformedHeader,
}

/// One `key:value` header line, split at its first colon.
pub struct Header {
    pub key: Vec<u8>,
    pub value: Vec<u8>,
}

impl View for Header {
    type V = (Seq<u8>, Seq<u8>);

    open spec fn view(&self) -> (Seq<u8>, Seq<u8>) {
        (self.key@, self.value@)
    }
}

/// A request as read from the wire.
pub struct Request {
    pub method: Method,
    pub target: Vec<u8>,
    pub version: Version,
    pub headers: Vec<Header>,
    pub body: Vec<u8>,
}

pub open spec fn is_ws(c: u8) -> bool {
    c == 32 || (9 <= c && c <= 13)
}

pub open spec fn is_nl(c: u8) -> bool {
    c == 10
}

/// The first position at or after `i` that holds a line feed, or the length of `s`.
pub open spec fn find_nl(s: Seq<u8>, i: int) -> int
    decreases s.len() - i,
{
    if i < 0 || i >= s.len() {
        s.len() as int
    } else if is_nl(s[i]) {
        i
    } else {
        find_nl(s, i + 1)
    }
}

/// The first position at or after `i` that holds no whitespace.
pub open spec fn skip_ws(s: Seq<u8>, i: int) -> int
    decreases s.len() - i,
{
    if 0 <= i < s.len() && is_ws(s[i]) {
        skip_ws(s, i + 1)
    } else {
        i
    }
}

/// The first position at or after `i` that holds whitespace, or the length of `s`.
pub open spec fn word_end(s: Seq<u8>, i: int) -> int
    decreases s.len() - i,
{
    if 0 <= i < s.len() && !is_ws(s[i]) {
        word_end(s, i + 1)
    } else {
        i
    }
}

/// The first position at or after `i` that holds a colon, or the length of `s`.
pub open spec fn find_colon(s: Seq<u8>, i: int) -> int
    decreases s.len() - i,
{
    if 0 <= i < s.len() && s[i] != 58 {
        find_colon(s, i + 1)
    } else {
        i
    }
}

/// A line without the carriage return that may end it.
pub open spec fn strip_cr(line: Seq<u8>) -> Seq<u8> {
    if line.len() > 0 && line.last() == 13 {
        line.drop_last()
    } else {
        line
    }
}

/// The bytes `[start, end)` of the `k`-th whitespace-separated token of `line`
/// (counting from zero), for `k` below three.
pub open spec fn token_bounds(line: Seq<u8>, k: nat) -> (int, int)
    decreases k,
{
    let from = if k == 0 {
        0
    } else {
        token_bounds(line, (k - 1) as nat).1
    };
    let start = skip_ws(line, from);
    (start, word_end(line, start))
}

pub open spec fn token(line: Seq<u8>, k: nat) -> Seq<u8> {
    line.subrange(token_bounds(line, k).0, token_bounds(line, k).1)
}

/// A request line holds exactly three whitespace-separated tokens.
pub open spec fn three_tokens(line: Seq<u8>) -> bool {
    &&& token_bounds(line, 0).0 < token_bounds(line, 0).1
    &&& token_bounds(line, 1).0 < token_bounds(line, 1).1
    &&& token_bounds(line, 2).0 < token_bounds(line, 2).1
    &&& skip_ws(line, token_bounds(line, 2).1) == line.len()
}

pub open spec fn method_of(t: Seq<u8>) -> Option<Method> {
    if t == method_name(Method::Get) {
        Some(Method::Get)
    } else if t == method_name(Method::Post) {
        Some(Method::Post)
    } else if t == method_name(Method::Put) {
        Some(Method::Put)
    } else if t == method_name(Method::Delete) {
        Some(Method::Delete)
    } else if t == method_name(Method::Head) {
        Some(Method::Head)
    } else if t == method_name(Method::Options) {
        Some(Method::Options)
    } else if t == method_name(Method::Connect) {
        Some(Method::Connect)
    } else if t == method_name(Method::Patch) {
        Some(Method::Patch)
    } else if t == method_name(Method::Trace) {
        Some(Method::Trace)
    } else {
        None
    }
}

/// The text of a method token, as bytes.
pub open spec fn method_name(m: Method) -> Seq<u8> {
    match m {
        Method::Get => seq![71u8, 69, 84],
        Method::Post => seq![80u8, 79, 83, 84],
        Method::Put => seq![80u8, 85, 84],
        Method::Delete => seq![68u8, 69, 76, 69, 84, 69],
        Method::Head => seq![72u8, 69, 65, 68],
        Method::Options => seq![79u8, 80, 84, 73, 79, 78, 83],
        Method::Connect => seq![67u8, 79, 78, 78, 69, 67, 84],
        Method::Patch => seq![80u8, 65, 84, 67, 72],
        Method::Trace => seq![84u8, 82, 65, 67, 69],
    }
}

/// `HTTP/` followed by the digits of a version.
pub open spec fn http_prefix(d: Seq<u8>) -> Seq<u8> {
    seq![72u8, 84, 84, 80, 47] + d
}

pub open spec fn version_name(v: Version) -> Seq<u8> {
    match v {
        Version::Http09 => http_prefix(seq![48u8, 46, 57]),
        Version::Http10 => http_prefix(seq![49u8, 46, 48]),
        Version::Http11 => http_prefix(seq![49u8, 46, 49]),
        Version::Http2 => http_prefix(seq![50u8, 46, 48]),
        Version::Http3 => http_prefix(seq![51u8, 46, 48]),
    }
}

pub open spec fn version_of(t: Seq<u8>) -> Option<Version> {
    if t == version_name(Version::Http09) {
        Some(Version::Http09)
    } else if t == version_name(Version::Http10) {
        Some(Version::Http10)
    } else if t == version_name(Version::Http11) {
        Some(Version::Http11)
    } else if t == version_name(Version::Http2) {
        Some(Version::Http2)
    } else if t == version_name(Version::Http3) {
        Some(Version::Http3)
    } else {
        None
    }
}

pub type HeaderModel = (Seq<u8>, Seq<u8>);

/// Reads header lines from position `i` on, up to the first blank line: the
/// headers, and where the body starts. A buffer that ends before a blank line
/// has an empty body. `None` where a header line holds no colon.
pub open spec fn header_section(b: Seq<u8>, i: int) -> Option<(Seq<HeaderModel>, int)>
    decreases b.len() - i,
{
    let e = find_nl(b, i);
    if e < i || e >= b.len() {
        Some((seq![], b.len() as int))
    } else {
        let line = strip_cr(b.subrange(i, e));
        let c = find_colon(line, 0);
        if line.len() == 0 {
            Some((seq![], e + 1))
        } else if c >= line.len() {
            None
        } else {
            match header_section(b, e + 1) {
                Some(rest) => Some((
                    seq![(line.subrange(0, c), line.subrange(c + 1, line.len() as int))] + rest.0,
                    rest.1,
                )),
                None => None,
            }
        }
    }
}

pub type RequestModel = (Method, Seq<u8>, Version, Seq<HeaderModel>, Seq<u8>);

/// The first line of a buffer, without its line end.
pub open spec fn request_line(b: Seq<u8>) -> Seq<u8> {
    strip_cr(b.subrange(0, find_nl(b, 0)))
}

/// What a buffer reads as: method, target, version, headers and body, or the
/// first rule it breaks.
pub open spec fn parse_model(b: Seq<u8>) -> Result<RequestModel, ParseError> {
    let e = find_nl(b, 0);
    let line = request_line(b);
    if e >= b.len() || !three_tokens(line) {
        Err(ParseError::MalformedRequestLine)
    } else {
        match method_of(token(line, 0)) {
            None => Err(ParseError::UnknownMethod),
            Some(m) => match version_of(token(line, 2)) {
                None => Err(ParseError::UnsupportedVersion),
                Some(v) => match header_section(b, e + 1) {
                    None => Err(ParseError::MalformedHeader),
                    Some(hs) => Ok((m, token(line, 1), v, hs.0, b.subrange(hs.1, b.len() as int))),
                },
            },
        }
    }
}

/// A request line with fewer than three whitespace-separated tokens, where
/// the third token is empty, is refused as malformed.
pub proof fn lemma_short_request_line_rejected(b: Seq<u8>)
    requires
        token_bounds(request_line(b), 2).0 >= token_bounds(request_line(b), 2).1,
    ensures
        parse_model(b) == Err::<RequestModel, ParseError>(ParseError::MalformedRequestLine),
{
}

impl View for Request {
    type V = RequestModel;

    open spec fn view(&self) -> RequestModel {
        (
            self.method,
            self.target@,
            self.version,
            self.headers@.map_values(|h: Header| h@),
            self.body@,
        )
    }
}

proof fn lemma_find_nl_bounds(s: Seq<u8>, i: int)
    requires
        0 <= i <= s.len(),
    ensures
        i <= find_nl(s, i) <= s.len(),
    decreases s.len() - i,
{
    if i < s.len() && !is_nl(s[i]) {
        lemma_find_nl_bounds(s, i + 1);
    }
}

fn find_newline(b: &[u8], from: usize) -> (r: usize)
    requires
        from <= b@.len(),
    ensures
        r == find_nl(b@, from as int),
        from <= r <= b@.len(),
{
    let mut i: usize = from;
    while i < b.len() && b[i] != 10
        invariant
            from <= i <= b@.len(),
            find_nl(b@, from as int) == find_nl(b@, i as int),
        decreases b@.len() - i,
    {
        i = i + 1;
    }
    i
}

fn skip_whitespace(s: &[u8], from: usize) -> (r: usize)
    requires
        from <= s@.len(),
    ensures
        r == skip_ws(s@, from as int),
        from <= r <= s@.len(),
{
    let mut i: usize = from;
    while i < s.len() && (s[i] == 32 || (9 <= s[i] && s[i] <= 13))
        invariant
            from <= i <= s@.len(),
            skip_ws(s@, from as int) == skip_ws(s@, i as int),
        decreases s@.len() - i,
    {
        i = i + 1;
    }
    i
}

fn end_of_word(s: &[u8], from: usize) -> (r: usize)
    requires
        from <= s@.len(),
    ensures
        r == word_end(s@, from as int),
        from <= r <= s@.len(),
{
    let mut i: usize = from;
    while i < s.len() && !(s[i] == 32 || (9 <= s[i] && s[i] <= 13))
        invariant
            from <= i <= s@.len(),
            word_end(s@, from as int) == word_end(s@, i as int),
        decreases s@.len() - i,
    {
        i = i + 1;
    }
    i
}

fn colon_at(s: &[u8]) -> (r: usize)
    ensures
        r == find_colon(s@, 0),
        r <= s@.len(),
{
    let mut i: usize = 0;
    while i < s.len() && s[i] != 58
        invariant
            i <= s@.len(),
            find_colon(s@, 0) == find_colon(s@, i as int),
        decreases s@.len() - i,
    {
        i = i + 1;
    }
    i
}

/// Whether two byte strings are equal.
pub fn bytes_eq(a: &[u8], b: &[u8]) -> (r: bool)
    ensures
        r == (a@ == b@),
{
    if a.len() != b.len() {
        return false;
    }
    let mut i: usize = 0;
    while i < a.len()
        invariant
            a@.len() == b@.len(),
            i <= a@.len(),
            forall|j: int| 0 <= j < i ==> a@[j] == b@[j],
        decreases a@.len() - i,
    {
        if a[i] != b[i] {
            return false;
        }
        i = i + 1;
    }
    assert(a@ =~= b@);
    true
}

impl Method {
    /// The token that names this method on the wire.
    pub fn name(&self) -> (r: Vec<u8>)
        ensures
            r@ == method_name(*self),
    {
        match self {
            Method::Get => vec![71u8, 69, 84],
            Method::Post => vec![80u8, 79, 83, 84],
            Method::Put => vec![80u8, 85, 84],
            Method::Delete => vec![68u8, 69, 76, 69, 84, 69],
            Method::Head => vec![72u8, 69, 65, 68],
            Method::Options => vec![79u8, 80, 84, 73, 79, 78, 83],
            Method::Connect => vec![67u8, 79, 78, 78, 69, 67, 84],
            Method::Patch => vec![80u8, 65, 84, 67, 72],
            Method::Trace => vec![84u8, 82, 65, 67, 69],
        }
    }

    /// The method that a token names, if it is a known one.
    pub fn from_token(t: &[u8]) -> (r: Option<Method>)
        ensures
            r == method_of(t@),
    {
        if bytes_eq(t, Method::Get.name().as_slice()) {
            Some(Method::Get)
        } else if bytes_eq(t, Method::Post.name().as_slice()) {
            Some(Method::Post)
        } else if bytes_eq(t, Method::Put.name().as_slice()) {
            Some(Method::Put)
        } else if bytes_eq(t, Method::Delete.name().as_slice()) {
            Some(Method::Delete)
        } else if bytes_eq(t, Method::Head.name().as_slice()) {
            Some(Method::Head)
        } else if bytes_eq(t, Method::Options.name().as_slice()) {
            Some(Method::Options)
        } else if bytes_eq(t, Method::Connect.name().as_slice()) {
            Some(Method::Connect)
        } else if bytes_eq(t, Method::Patch.name().as_slice()) {
            Some(Method::Patch)
        } else if bytes_eq(t, Method::Trace.name().as_slice()) {
            Some(Method::Trace)
        } else {
            None
        }
    }
}

impl Version {
    /// The token that names this version on the wire.
    pub fn name(&self) -> (r: Vec<u8>)
        ensures
            r@ == version_name(*self),
    {
        let mut r = vec![72u8, 84, 84, 80, 47];
        match self {
            Version::Http09 => {
                r.push(48);
                r.push(46);
                r.push(57);
            },
            Version::Http10 => {
                r.push(49);
                r.push(46);
                r.push(48);
            },
            Version::Http11 => {
                r.push(49);
                r.push(46);
                r.push(49);
            },
            Version::Http2 => {
                r.push(50);
                r.push(46);
                r.push(48);
            },
            Version::Http3 => {
                r.push(51);
                r.push(46);
                r.push(48);
            },
        }
        assert(r@ =~= version_name(*self));
        r
    }

    /// The version that a token names, if it is a recognised one.
    pub fn from_token(t: &[u8]) -> (r: Option<Version>)
        ensures
            r == version_of(t@),
    {
        if bytes_eq(t, Version::Http09.name().as_slice()) {
            Some(Version::Http09)
        } else if bytes_eq(t, Version::Http10.name().as_slice()) {
            Some(Version::Http10)
        } else if bytes_eq(t, Version::Http11.name().as_slice()) {
            Some(Version::Http11)
        } else if bytes_eq(t, Version::Http2.name().as_slice()) {
            Some(Version::Http2)
        } else if bytes_eq(t, Version::Http3.name().as_slice()) {
            Some(Version::Http3)
        } else {
            None
        }
    }
}

fn without_cr(line: &[u8]) -> (r: &[u8])
    ensures
        r@ == strip_cr(line@),
{
    if line.len() > 0 && line[line.len() - 1] == 13 {
        let r = slice_subrange(line, 0, line.len() - 1);
        assert(r@ =~= line@.drop_last());
        r
    } else {
        line
    }
}

/// Headers `h` put in front of the outcome of reading the rest of a header section.
pub open spec fn prepend_headers(h: Seq<HeaderModel>, rest: Option<(Seq<HeaderModel>, int)>) -> Option<
    (Seq<HeaderModel>, int),
> {
    match rest {
        Some(r) => Some((h + r.0, r.1)),
        None => None,
    }
}

/// Reads a request from the bytes received on a connection.
///
/// The first line must hold exactly three whitespace-separated tokens: a
/// known method, a target and a recognised version. Header lines of the form
/// `key:value` follow up to the first blank line; what follows that line is
/// the body.
pub fn parse_request(buffer: &[u8]) -> (r: Result<Request, ParseError>)
    ensures
        match r {
            Ok(req) => parse_model(buffer@) == Ok::<RequestModel, ParseError>(req@),
            Err(e) => parse_model(buffer@) == Err::<RequestModel, ParseError>(e),
        },
{
    let e = find_newline(buffer, 0);
    let line = without_cr(slice_subrange(buffer, 0, e));
    let s0 = skip_whitespace(line, 0);
    let e0 = end_of_word(line, s0);
    let s1 = skip_whitespace(line, e0);
    let e1 = end_of_word(line, s1);
    let s2 = skip_whitespace(line, e1);
    let e2 = end_of_word(line, s2);
    let tail = skip_whitespace(line, e2);
    proof {
        reveal_with_fuel(token_bounds, 3);
        assert(token_bounds(line@, 0) == (s0 as int, e0 as int));
        assert(token_bounds(line@, 1) == (s1 as int, e1 as int));
        assert(token_bounds(line@, 2) == (s2 as int, e2 as int));
    }
    if e >= buffer.len() || !(s0 < e0 && s1 < e1 && s2 < e2 && tail == line.len()) {
        return Err(ParseError::MalformedRequestLine);
    }
    let method = match Method::from_token(slice_subrange(line, s0, e0)) {
        Some(m) => m,
        None => {
            return Err(ParseError::UnknownMethod);
        },
    };
    let version = match Version::from_token(slice_subrange(line, s2, e2)) {
        Some(v) => v,
        None => {
            return Err(ParseError::UnsupportedVersion);
        },
    };
    let target = slice_to_vec(slice_subrange(line, s1, e1));
    let mut headers: Vec<Header> = Vec::new();
    let mut i: usize = e + 1;
    let mut body_start: usize = buffer.len();
    let mut done = false;
    while !done
        invariant
            e + 1 <= i <= buffer@.len(),
            e == find_nl(buffer@, 0),
            line@ == strip_cr(buffer@.subrange(0, e as int)),
            three_tokens(line@),
            method_of(token(line@, 0)) == Some(method),
            version_of(token(line@, 2)) == Some(version),
            target@ == token(line@, 1),
            body_start <= buffer@.len(),
            !done ==> header_section(buffer@, (e + 1) as int) == prepend_headers(
                headers@.map_values(|h: Header| h@),
                header_section(buffer@, i as int),
            ),
            done ==> header_section(buffer@, (e + 1) as int) == Some(
                (headers@.map_values(|h: Header| h@), body_start as int),
            ),
        decreases (if done { 0 } else { buffer@.len() - i + 1 }),
    {
        let ghost hv = headers@.map_values(|h: Header| h@);
        let ne = find_newline(buffer, i);
        if ne >= buffer.len() {
            assert(hv + seq![] =~= hv);
            body_start = buffer.len();
            done = true;
        } else {
            let ln = without_cr(slice_subrange(buffer, i, ne));
            let c = colon_at(ln);
            if ln.len() == 0 {
                assert(hv + seq![] =~= hv);
                body_start = ne + 1;
                done = true;
            } else if c >= ln.len() {
                assert(header_section(buffer@, i as int) is None);
                assert(header_section(buffer@, (e + 1) as int) is None);
                return Err(ParseError::MalformedHeader);
            } else {
                let key = slice_to_vec(slice_subrange(ln, 0, c));
                let value = slice_to_vec(slice_subrange(ln, c + 1, ln.len()));
                let ghost kv = (key@, value@);
                headers.push(Header { key, value });
                proof {
                    assert(headers@.map_values(|h: Header| h@) =~= hv.push(kv));
                    match header_section(buffer@, (ne + 1) as int) {
                        Some(rest) => {
                            assert(hv + (seq![kv] + rest.0) =~= hv.push(kv) + rest.0);
                        },
                        None => {},
                    }
                }
                i = ne + 1;
            }
        }
    }
    let body = slice_to_vec(slice_subrange(buffer, body_start, buffer.len()));
    Ok(Request { method, target, version, headers, body })
}

} // verus!
