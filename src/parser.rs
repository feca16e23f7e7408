use vstd::prelude::*;
use vstd::utf8::*;
use vstd::string::*;
use crate::error::Error;
use crate::models::{method_of, text_bytes, Headers, Request, RequestLine, RequestMethod};
use crate::scan::{
    bytes_eq, find_pair, find_pair_from, number_of, parse_number, skip_ws, skip_ws_from,
    trim_end, trim_end_of, word_end, word_end_from,
};
use crate::text::{ascii_cut, owned_slice, utf8_str};

verus! {

broadcast use {encode_utf8_valid_utf8, decode_utf8_encode_utf8};

/// The method, target and version of a request line: its first three
/// whitespace-separated words, of which the first names a supported method.
/// Further words are ignored.
pub open spec fn request_line_parts(b: Seq<u8>) -> Option<(RequestMethod, Seq<u8>, Seq<u8>)> {
    let a1 = skip_ws(b, 0);
    let e1 = word_end(b, a1);
    let a2 = skip_ws(b, e1);
    let e2 = word_end(b, a2);
    let a3 = skip_ws(b, e2);
    let e3 = word_end(b, a3);
    if a1 == b.len() || method_of(b.subrange(a1, e1)) is None || a2 == b.len() || a3 == b.len() {
        None
    } else {
        Some((method_of(b.subrange(a1, e1))->Some_0, b.subrange(a2, e2), b.subrange(a3, e3)))
    }
}

/// The bytes `Host`.
pub open spec fn host_key() -> Seq<u8> {
    seq![72u8, 111, 115, 116]
}

/// The bytes `User-Agent`.
pub open spec fn user_agent_key() -> Seq<u8> {
    seq![85u8, 115, 101, 114, 45, 65, 103, 101, 110, 116]
}

/// The bytes `Accept`.
pub open spec fn accept_key() -> Seq<u8> {
    seq![65u8, 99, 99, 101, 112, 116]
}

/// The bytes `Accept-Encoding`.
pub open spec fn accept_encoding_key() -> Seq<u8> {
    seq![65u8, 99, 99, 101, 112, 116, 45, 69, 110, 99, 111, 100, 105, 110, 103]
}

/// The bytes `Content-Length`.
pub open spec fn content_length_key() -> Seq<u8> {
    seq![67u8, 111, 110, 116, 101, 110, 116, 45, 76, 101, 110, 103, 116, 104]
}

/// The pieces of `b` from `start`, cut at each `, ` found scanning from `i`.
pub open spec fn pieces(b: Seq<u8>, start: int, i: int) -> Seq<Seq<u8>>
    decreases b.len() - i,
{
    if i + 1 >= b.len() {
        seq![b.subrange(start, b.len() as int)]
    } else if b[i] == 44 && b[i + 1] == 32 {
        seq![b.subrange(start, i)] + pieces(b, i + 2, i + 2)
    } else {
        pieces(b, start, i + 1)
    }
}

/// What a header line tells, as bytes.
pub enum HeaderField {
    Ignored,
    Host(Seq<u8>),
    UserAgent(Seq<u8>),
    Accept(Seq<u8>),
    AcceptEncoding(Seq<Seq<u8>>),
    /// The length, or `None` when the value is no number.
    ContentLength(Option<nat>),
}

/// A header line is split at its first `: ` into key and value; a line
/// without it, or with an unknown key, is ignored. The accepted encodings
/// are the value's pieces between `, `; the length is the value, trimmed of
/// whitespace, read as a decimal number.
pub open spec fn header_field(b: Seq<u8>) -> HeaderField {
    let j = find_pair(b, 0, 58, 32);
    if j >= b.len() {
        HeaderField::Ignored
    } else {
        let key = b.take(j);
        let value = b.skip(j + 2);
        if key == host_key() {
            HeaderField::Host(value)
        } else if key == user_agent_key() {
            HeaderField::UserAgent(value)
        } else if key == accept_key() {
            HeaderField::Accept(value)
        } else if key == accept_encoding_key() {
            HeaderField::AcceptEncoding(pieces(b, j + 2, j + 2))
        } else if key == content_length_key() {
            let ts = skip_ws(b, j + 2);
            HeaderField::ContentLength(number_of(b.subrange(ts, trim_end(b, ts, b.len() as int))))
        } else {
            HeaderField::Ignored
        }
    }
}

/// A parsed header line.
#[derive(Debug)]
pub enum Field {
    Ignored,
    Host(String),
    UserAgent(String),
    Accept(String),
    AcceptEncoding(Vec<String>),
    ContentLength(usize),
}

pub open spec fn texts(v: Seq<String>) -> Seq<Seq<u8>> {
    v.map_values(|s: String| text_bytes(s))
}

impl Field {
    pub open spec fn model(&self) -> HeaderField {
        match self {
            Field::Ignored => HeaderField::Ignored,
            Field::Host(s) => HeaderField::Host(text_bytes(*s)),
            Field::UserAgent(s) => HeaderField::UserAgent(text_bytes(*s)),
            Field::Accept(s) => HeaderField::Accept(text_bytes(*s)),
            Field::AcceptEncoding(v) => HeaderField::AcceptEncoding(texts(v@)),
            Field::ContentLength(n) => HeaderField::ContentLength(Some(*n as nat)),
        }
    }
}

/// Reads a request line. Fails when a word is missing or the method is
/// neither `GET` nor `POST`.
pub fn parse_request_line(line: &str) -> (r: Result<RequestLine, Error>)
    ensures
        r is Ok <==> request_line_parts(line.spec_bytes()) is Some,
        r matches Ok(rl) ==> request_line_parts(line.spec_bytes()) == Some(
            (rl.http_method, text_bytes(rl.target), text_bytes(rl.http_version)),
        ),
{
    let b = line.as_bytes();
    let a1 = skip_ws_from(b, 0);
    if a1 == b.len() {
        return Err(Error::parse_error("Failed to parse HTTP method"));
    }
    let e1 = word_end_from(b, a1);
    let method = match RequestMethod::from_bytes(vstd::slice::slice_subrange(b, a1, e1)) {
        Some(m) => m,
        None => {
            return Err(Error::parse_error("Failed to parse HTTP method"));
        },
    };
    let a2 = skip_ws_from(b, e1);
    if a2 == b.len() {
        return Err(Error::parse_error("Failed to parse request target"));
    }
    let e2 = word_end_from(b, a2);
    let a3 = skip_ws_from(b, e2);
    if a3 == b.len() {
        return Err(Error::parse_error("Failed to parse HTTP version"));
    }
    let e3 = word_end_from(b, a3);
    let target = owned_slice(line, a2, e2);
    let version = owned_slice(line, a3, e3);
    Ok(RequestLine { http_method: method, target, http_version: version })
}

/// Splits `line[from..]` at each `, `.
fn split_list(line: &str, from: usize) -> (r: Vec<String>)
    requires
        from <= line.spec_bytes().len(),
        ascii_cut(line.spec_bytes(), from as int),
    ensures
        texts(r@) == pieces(line.spec_bytes(), from as int, from as int),
{
    let b = line.as_bytes();
    let mut out: Vec<String> = Vec::new();
    let mut start: usize = from;
    let mut i: usize = from;
    while i < b.len() && i + 1 < b.len()
        invariant
            from <= start <= i <= b@.len(),
            b@ == line.spec_bytes(),
            ascii_cut(b@, start as int),
            texts(out@) + pieces(b@, start as int, i as int) == pieces(b@, from as int, from as int),
        decreases b@.len() - i,
    {
        if b[i] == 44 && b[i + 1] == 32 {
            let piece = owned_slice(line, start, i);
            proof {
                assert(texts(out@.push(piece)) =~= texts(out@).push(text_bytes(piece)));
                assert(pieces(b@, start as int, i as int) == seq![b@.subrange(start as int, i as int)]
                    + pieces(b@, i + 2, i + 2));
            }
            out.push(piece);
            start = i + 2;
            i = i + 2;
        } else {
            i = i + 1;
        }
    }
    let piece = owned_slice(line, start, b.len());
    proof {
        assert(texts(out@.push(piece)) =~= texts(out@).push(text_bytes(piece)));
        assert(pieces(b@, start as int, i as int) == seq![b@.subrange(start as int, b@.len() as int)]);
    }
    out.push(piece);
    out
}

/// Reads a header line. Fails only on a `Content-Length` that is no number.
pub fn parse_header_line(line: &str) -> (r: Result<Field, Error>)
    ensures
        r is Err <==> header_field(line.spec_bytes()) == HeaderField::ContentLength(None),
        r matches Ok(f) ==> f.model() == header_field(line.spec_bytes()),
{
    let b = line.as_bytes();
    let j = find_pair_from(b, 0, 58, 32);
    if j >= b.len() {
        return Ok(Field::Ignored);
    }
    let key = vstd::slice::slice_subrange(b, 0, j);
    let host: [u8; 4] = [72, 111, 115, 116];
    let agent: [u8; 10] = [85, 115, 101, 114, 45, 65, 103, 101, 110, 116];
    let accept: [u8; 6] = [65, 99, 99, 101, 112, 116];
    let encoding: [u8; 15] = [65, 99, 99, 101, 112, 116, 45, 69, 110, 99, 111, 100, 105, 110, 103];
    let length: [u8; 14] = [67, 111, 110, 116, 101, 110, 116, 45, 76, 101, 110, 103, 116, 104];
    assert(key@ =~= b@.take(j as int));
    assert(host@ =~= host_key());
    assert(agent@ =~= user_agent_key());
    assert(accept@ =~= accept_key());
    assert(encoding@ =~= accept_encoding_key());
    assert(length@ =~= content_length_key());
    assert(b@.subrange(j + 2, b@.len() as int) =~= b@.skip(j + 2));
    if bytes_eq(key, host.as_slice()) {
        Ok(Field::Host(owned_slice(line, j + 2, b.len())))
    } else if bytes_eq(key, agent.as_slice()) {
        Ok(Field::UserAgent(owned_slice(line, j + 2, b.len())))
    } else if bytes_eq(key, accept.as_slice()) {
        Ok(Field::Accept(owned_slice(line, j + 2, b.len())))
    } else if bytes_eq(key, encoding.as_slice()) {
        Ok(Field::AcceptEncoding(split_list(line, j + 2)))
    } else if bytes_eq(key, length.as_slice()) {
        let ts = skip_ws_from(b, j + 2);
        let te = trim_end_of(b, ts, b.len());
        match parse_number(b, ts, te) {
            Some(n) => Ok(Field::ContentLength(n)),
            None => Err(Error::parse_error("Failed to parse Content-Length")),
        }
    } else {
        Ok(Field::Ignored)
    }
}

/// Where a request parser stands.
#[derive(Debug, Clone, Copy, PartialEq, Eq, Structural)]
pub enum Stage {
    RequestLine,
    Headers,
    Body,
    Done,
}

/// What the parser needs next from the stream.
#[derive(Debug, Clone, Copy, PartialEq, Eq, Structural)]
pub enum Step {
    /// The next line, or its absence at the end of the stream.
    ReadLine,
    /// Exactly this many bytes of body.
    ReadBody(usize),
    /// Nothing more: the request is complete.
    Finished,
}

/// A request read line by line: the request line, the headers up to a
/// blank line, then a body when a positive length was given.
#[derive(Debug)]
pub struct RequestParser {
    pub request: Request,
    pub stage: Stage,
}

/// The length of body that the headers announce, zero when none.
pub open spec fn announced(h: Headers) -> nat {
    match h.content_length {
        Some(n) => n as nat,
        None => 0,
    }
}

/// The headers after one header field is taken in.
pub open spec fn field_applied(h0: Headers, h1: Headers, f: HeaderField) -> bool {
    match f {
        HeaderField::Ignored => h1 == h0,
        HeaderField::Host(v) => h1.host matches Some(s) && text_bytes(s) == v && h1.user_agent
            == h0.user_agent && h1.accept == h0.accept && h1.accept_encoding == h0.accept_encoding
            && h1.content_length == h0.content_length,
        HeaderField::UserAgent(v) => h1.user_agent matches Some(s) && text_bytes(s) == v && h1.host
            == h0.host && h1.accept == h0.accept && h1.accept_encoding == h0.accept_encoding
            && h1.content_length == h0.content_length,
        HeaderField::Accept(v) => h1.accept matches Some(s) && text_bytes(s) == v && h1.host
            == h0.host && h1.user_agent == h0.user_agent && h1.accept_encoding
            == h0.accept_encoding && h1.content_length == h0.content_length,
        HeaderField::AcceptEncoding(v) => h1.accept_encoding matches Some(l) && texts(l@) == v
            && h1.host == h0.host && h1.user_agent == h0.user_agent && h1.accept == h0.accept
            && h1.content_length == h0.content_length,
        HeaderField::ContentLength(n) => n matches Some(k) && h1.content_length == Some(k as usize)
            && h1.host == h0.host && h1.user_agent == h0.user_agent && h1.accept == h0.accept
            && h1.accept_encoding == h0.accept_encoding,
    }
}

/// The stage after the header block ends: the body when a positive
/// length was announced, else the end.
pub open spec fn after_headers(h: Headers) -> Stage {
    if announced(h) > 0 {
        Stage::Body
    } else {
        Stage::Done
    }
}

impl RequestParser {
    /// A body is awaited only when a positive length was announced.
    pub open spec fn wf(&self) -> bool {
        self.stage == Stage::Body ==> announced(self.request.headers) > 0
    }

    /// A parser at the start of a request.
    pub fn new() -> (r: RequestParser)
        ensures
            r.wf(),
            r.stage == Stage::RequestLine,
            r.request.is_fresh(),
    {
        RequestParser { request: Request::new(), stage: Stage::RequestLine }
    }

    /// What to read next.
    pub fn next_step(&self) -> (r: Step)
        requires
            self.wf(),
        ensures
            r == match self.stage {
                Stage::RequestLine | Stage::Headers => Step::ReadLine,
                Stage::Body => Step::ReadBody(announced(self.request.headers) as usize),
                Stage::Done => Step::Finished,
            },
    {
        match self.stage {
            Stage::RequestLine => Step::ReadLine,
            Stage::Headers => Step::ReadLine,
            Stage::Body => match self.request.headers.content_length {
                Some(n) => Step::ReadBody(n),
                None => Step::ReadBody(0),
            },
            Stage::Done => Step::Finished,
        }
    }

    /// Takes the next line, `None` at the end of the stream. An empty stream
    /// gives the fresh request; the end of the stream or a blank line ends
    /// the headers.
    pub fn on_line(&mut self, line: Option<&str>) -> (r: Result<(), Error>)
        requires
            old(self).wf(),
            old(self).stage == Stage::RequestLine || old(self).stage == Stage::Headers,
        ensures
            r is Ok ==> final(self).wf(),
            r is Ok ==> final(self).request.body == old(self).request.body,
            old(self).stage == Stage::RequestLine && line is None ==> r is Ok && final(self).stage
                == Stage::Done && final(self).request == old(self).request,
            old(self).stage == Stage::RequestLine && line is Some ==> (r is Ok
                <==> request_line_parts(line->Some_0.spec_bytes()) is Some),
            old(self).stage == Stage::RequestLine && line is Some && r is Ok ==> {
                &&& final(self).stage == Stage::Headers
                &&& request_line_parts(line->Some_0.spec_bytes()) == Some(
                    (
                        final(self).request.request_line.http_method,
                        text_bytes(final(self).request.request_line.target),
                        text_bytes(final(self).request.request_line.http_version),
                    ),
                )
                &&& final(self).request.headers == old(self).request.headers
            },
            old(self).stage == Stage::Headers && (line is None || line->Some_0@.len() == 0) ==> {
                &&& r is Ok
                &&& final(self).request == old(self).request
                &&& final(self).stage == after_headers(old(self).request.headers)
            },
            old(self).stage == Stage::Headers && line is Some && line->Some_0@.len() > 0 ==> (r is Err
                <==> header_field(line->Some_0.spec_bytes()) == HeaderField::ContentLength(None)),
            old(self).stage == Stage::Headers && line is Some && line->Some_0@.len() > 0 && r is Ok
                ==> {
                &&& final(self).stage == Stage::Headers
                &&& final(self).request.request_line == old(self).request.request_line
                &&& field_applied(
                    old(self).request.headers,
                    final(self).request.headers,
                    header_field(line->Some_0.spec_bytes()),
                )
            },
    {
        match line {
            None => {
                if self.stage == Stage::RequestLine {
                    self.stage = Stage::Done;
                } else {
                    self.end_headers();
                }
                Ok(())
            },
            Some(l) => {
                if self.stage == Stage::RequestLine {
                    match parse_request_line(l) {
                        Ok(rl) => {
                            self.request.request_line = rl;
                            self.stage = Stage::Headers;
                            Ok(())
                        },
                        Err(e) => Err(e),
                    }
                } else if l.is_empty() {
                    self.end_headers();
                    Ok(())
                } else {
                    match parse_header_line(l) {
                        Ok(f) => {
                            self.take_field(f);
                            Ok(())
                        },
                        Err(e) => Err(e),
                    }
                }
            },
        }
    }

    fn end_headers(&mut self)
        ensures
            final(self).request == old(self).request,
            final(self).stage == after_headers(old(self).request.headers),
    {
        match self.request.headers.content_length {
            Some(n) => {
                if n > 0 {
                    self.stage = Stage::Body;
                } else {
                    self.stage = Stage::Done;
                }
            },
            None => {
                self.stage = Stage::Done;
            },
        }
    }

    fn take_field(&mut self, f: Field)
        ensures
            final(self).stage == old(self).stage,
            final(self).request.request_line == old(self).request.request_line,
            final(self).request.body == old(self).request.body,
            field_applied(old(self).request.headers, final(self).request.headers, f.model()),
    {
        match f {
            Field::Ignored => {},
            Field::Host(s) => {
                self.request.headers.host = Some(s);
            },
            Field::UserAgent(s) => {
                self.request.headers.user_agent = Some(s);
            },
            Field::Accept(s) => {
                self.request.headers.accept = Some(s);
            },
            Field::AcceptEncoding(v) => {
                self.request.headers.accept_encoding = Some(v);
            },
            Field::ContentLength(n) => {
                self.request.headers.content_length = Some(n);
            },
        }
    }

    /// Takes the body: exactly the announced number of bytes, which must be
    /// valid UTF-8.
    pub fn on_body(&mut self, body: &[u8]) -> (r: Result<(), Error>)
        requires
            old(self).wf(),
            old(self).stage == Stage::Body,
            body@.len() == announced(old(self).request.headers),
        ensures
            r is Ok <==> valid_utf8(body@),
            r is Ok ==> {
                &&& final(self).stage == Stage::Done
                &&& final(self).wf()
                &&& final(self).request.request_line == old(self).request.request_line
                &&& final(self).request.headers == old(self).request.headers
                &&& final(self).request.body matches Some(s) && text_bytes(s) == body@
            },
    {
        match utf8_str(body) {
            Some(s) => {
                self.request.body = Some(String::from_str(s));
                self.stage = Stage::Done;
                Ok(())
            },
            None => Err(Error::parse_error("request body is not valid UTF-8")),
        }
    }

    /// The request read.
    pub fn into_request(self) -> (r: Request)
        ensures
            r == self.request,
    {
        self.request
    }
}

} // verus!
