use vstd::prelude::*;
use vstd::utf8::*;
use vstd::string::*;
use crate::error::Error;
use crate::models::{
    text_bytes, Request, RequestMethod, CREATED_STATUS, NOT_FOUND_STATUS, SUCCESS_STATUS,
};
use crate::scan::bytes_eq;
use crate::text::{ascii_cut, decimal, owned_slice, push_bytes, push_decimal, push_str};

verus! {

broadcast use {encode_utf8_valid_utf8, decode_utf8_encode_utf8};

/// End of the status line and header block: a blank line follows.
pub const HEAD_END: &'static str = "\r\n\r\n";

/// A plain-text content type header, with the line break before it.
pub const TEXT_TYPE: &'static str = "\r\nContent-Type: text/plain";

/// A binary content type header, with the line break before it.
pub const OCTET_TYPE: &'static str = "\r\nContent-Type: application/octet-stream";

/// The gzip content encoding header, with the line break before it.
pub const GZIP_ENCODING: &'static str = "\r\nContent-Encoding: gzip";

/// The start of a content length header, with the line break before it.
pub const LENGTH_FIELD: &'static str = "\r\nContent-Length: ";

/// The bytes `/`.
pub open spec fn root_target() -> Seq<u8> {
    seq![47u8]
}

/// The bytes `/user-agent`.
pub open spec fn user_agent_target() -> Seq<u8> {
    seq![47u8, 117, 115, 101, 114, 45, 97, 103, 101, 110, 116]
}

/// The bytes `/files/`.
pub open spec fn files_prefix() -> Seq<u8> {
    seq![47u8, 102, 105, 108, 101, 115, 47]
}

/// The bytes `/echo/`.
pub open spec fn echo_prefix() -> Seq<u8> {
    seq![47u8, 101, 99, 104, 111, 47]
}

/// The bytes `gzip`.
pub open spec fn gzip_token() -> Seq<u8> {
    seq![103u8, 122, 105, 112]
}

pub open spec fn has_prefix(t: Seq<u8>, p: Seq<u8>) -> bool {
    p.len() <= t.len() && t.take(p.len() as int) == p
}

/// A response with a status line and no header or body.
pub open spec fn bare_reply(status: Seq<u8>) -> Seq<u8> {
    status + HEAD_END.spec_bytes()
}

/// A successful plain-text response carrying `body` and its length.
pub open spec fn text_reply(body: Seq<u8>) -> Seq<u8> {
    SUCCESS_STATUS.spec_bytes() + TEXT_TYPE.spec_bytes() + LENGTH_FIELD.spec_bytes() + decimal(
        body.len(),
    ) + HEAD_END.spec_bytes() + body
}

/// A successful plain-text response with neither length nor body.
pub open spec fn text_reply_without_body() -> Seq<u8> {
    SUCCESS_STATUS.spec_bytes() + TEXT_TYPE.spec_bytes() + HEAD_END.spec_bytes()
}

/// A successful gzip-encoded plain-text response carrying the compressed
/// bytes `c` and their length.
pub open spec fn gzip_reply(c: Seq<u8>) -> Seq<u8> {
    SUCCESS_STATUS.spec_bytes() + TEXT_TYPE.spec_bytes() + GZIP_ENCODING.spec_bytes()
        + LENGTH_FIELD.spec_bytes() + decimal(c.len()) + HEAD_END.spec_bytes() + c
}

/// A successful binary response carrying the file contents `b` and their length.
pub open spec fn file_reply(b: Seq<u8>) -> Seq<u8> {
    SUCCESS_STATUS.spec_bytes() + OCTET_TYPE.spec_bytes() + LENGTH_FIELD.spec_bytes() + decimal(
        b.len(),
    ) + HEAD_END.spec_bytes() + b
}

/// What the gzip encoder at its default level makes of the given bytes.
pub uninterp spec fn gzip_of(data: Seq<u8>) -> Seq<u8>;

/// Relies on flate2's `GzEncoder` over a `Vec` at `Compression::default()`:
/// `write_all` then `finish` yield the gzip stream of the input, which
/// depends on the input alone.
#[verifier::external_body]
fn gzip(data: &[u8]) -> (r: Option<Vec<u8>>)
    ensures
        r matches Some(c) ==> c@ == gzip_of(data@),
{
    let mut encoder = flate2::write::GzEncoder::new(Vec::new(), flate2::Compression::default());
    match std::io::Write::write_all(&mut encoder, data) {
        Ok(()) => encoder.finish().ok(),
        Err(_) => None,
    }
}

/// What the server does for a request.
#[derive(Debug)]
pub enum Outcome {
    /// Send these bytes.
    Reply(Vec<u8>),
    /// Read the named file under the root; answer with `file_response`.
    ReadFile(String),
    /// Write the body to the named file under the root, creating the root
    /// if needed; answer with `created_response`.
    WriteFile(String, String),
}

/// The model of an outcome, over bytes.
pub enum Plan {
    Reply(Seq<u8>),
    ReadFile(Seq<u8>),
    WriteFile(Seq<u8>, Seq<u8>),
}

impl Outcome {
    pub open spec fn plan(&self) -> Plan {
        match self {
            Outcome::Reply(v) => Plan::Reply(v@),
            Outcome::ReadFile(n) => Plan::ReadFile(text_bytes(*n)),
            Outcome::WriteFile(n, b) => Plan::WriteFile(text_bytes(*n), text_bytes(*b)),
        }
    }
}

/// Whether the request lists `gzip` among the encodings it accepts.
pub open spec fn accepts_gzip(req: Request) -> bool {
    req.headers.accept_encoding matches Some(list) && exists|i: int|
        0 <= i < list@.len() && text_bytes(#[trigger] list@[i]) == gzip_token()
}

/// The plan for a `GET` request. The echo route with gzip accepted is
/// planned with the gzip form of the echoed text.
pub open spec fn get_plan(req: Request) -> Plan {
    let t = text_bytes(req.request_line.target);
    if t == root_target() {
        Plan::Reply(bare_reply(SUCCESS_STATUS.spec_bytes()))
    } else if t == user_agent_target() {
        match req.headers.user_agent {
            Some(ua) => Plan::Reply(text_reply(text_bytes(ua))),
            None => Plan::Reply(bare_reply(SUCCESS_STATUS.spec_bytes())),
        }
    } else if has_prefix(t, files_prefix()) {
        Plan::ReadFile(t.skip(7))
    } else if has_prefix(t, echo_prefix()) {
        let s = t.skip(6);
        match req.headers.accept_encoding {
            None => Plan::Reply(text_reply(s)),
            Some(_) => if accepts_gzip(req) {
                Plan::Reply(gzip_reply(gzip_of(s)))
            } else {
                Plan::Reply(text_reply_without_body())
            },
        }
    } else {
        Plan::Reply(bare_reply(NOT_FOUND_STATUS.spec_bytes()))
    }
}

/// Whether a `GET` request needs compression.
pub open spec fn get_compresses(req: Request) -> bool {
    let t = text_bytes(req.request_line.target);
    t != root_target() && t != user_agent_target() && !has_prefix(t, files_prefix())
        && has_prefix(t, echo_prefix()) && accepts_gzip(req)
}

/// The plan for a `POST` request.
pub open spec fn post_plan(req: Request) -> Plan {
    let t = text_bytes(req.request_line.target);
    if has_prefix(t, files_prefix()) {
        Plan::WriteFile(t.skip(7), text_bytes(req.body.unwrap()))
    } else {
        Plan::Reply(bare_reply(NOT_FOUND_STATUS.spec_bytes()))
    }
}

/// A `POST` that writes a file has a body to write.
pub open spec fn post_is_writable(req: Request) -> bool {
    has_prefix(text_bytes(req.request_line.target), files_prefix()) ==> req.body is Some
}

fn starts_with(a: &[u8], p: &[u8]) -> (r: bool)
    ensures
        r == has_prefix(a@, p@),
{
    if p.len() > a.len() {
        return false;
    }
    let head = vstd::slice::slice_subrange(a, 0, p.len());
    assert(head@ =~= a@.take(p@.len() as int));
    bytes_eq(head, p)
}

/// A response with a status line and an empty header block.
pub fn bare_response(status: &str) -> (r: Vec<u8>)
    ensures
        r@ == bare_reply(status.spec_bytes()),
{
    let mut out: Vec<u8> = Vec::new();
    push_str(&mut out, status);
    push_str(&mut out, HEAD_END);
    assert(out@ =~= bare_reply(status.spec_bytes()));
    out
}

/// A successful plain-text response carrying `body`.
pub fn text_response(body: &[u8]) -> (r: Vec<u8>)
    ensures
        r@ == text_reply(body@),
{
    let mut out: Vec<u8> = Vec::new();
    push_str(&mut out, SUCCESS_STATUS);
    push_str(&mut out, TEXT_TYPE);
    push_str(&mut out, LENGTH_FIELD);
    push_decimal(&mut out, body.len());
    push_str(&mut out, HEAD_END);
    push_bytes(&mut out, body);
    assert(out@ =~= text_reply(body@));
    out
}

/// A successful gzip-encoded response carrying the compressed bytes.
pub fn gzip_response(compressed: &[u8]) -> (r: Vec<u8>)
    ensures
        r@ == gzip_reply(compressed@),
{
    let mut out: Vec<u8> = Vec::new();
    push_str(&mut out, SUCCESS_STATUS);
    push_str(&mut out, TEXT_TYPE);
    push_str(&mut out, GZIP_ENCODING);
    push_str(&mut out, LENGTH_FIELD);
    push_decimal(&mut out, compressed.len());
    push_str(&mut out, HEAD_END);
    push_bytes(&mut out, compressed);
    assert(out@ =~= gzip_reply(compressed@));
    out
}

/// The answer to a file read: the contents with their length, or
/// not found when the read failed.
pub fn file_response(contents: Option<&[u8]>) -> (r: Vec<u8>)
    ensures
        r@ == match contents {
            Some(b) => file_reply(b@),
            None => bare_reply(NOT_FOUND_STATUS.spec_bytes()),
        },
{
    match contents {
        Some(b) => {
            let mut out: Vec<u8> = Vec::new();
            push_str(&mut out, SUCCESS_STATUS);
            push_str(&mut out, OCTET_TYPE);
            push_str(&mut out, LENGTH_FIELD);
            push_decimal(&mut out, b.len());
            push_str(&mut out, HEAD_END);
            push_bytes(&mut out, b);
            assert(out@ =~= file_reply(b@));
            out
        },
        None => bare_response(NOT_FOUND_STATUS),
    }
}

/// The answer to a file written.
pub fn created_response() -> (r: Vec<u8>)
    ensures
        r@ == bare_reply(CREATED_STATUS.spec_bytes()),
{
    bare_response(CREATED_STATUS)
}

/// Whether the list holds the token `gzip`.
pub fn lists_gzip(list: &Vec<String>) -> (r: bool)
    ensures
        r == exists|i: int| 0 <= i < list@.len() && text_bytes(#[trigger] list@[i]) == gzip_token(),
{
    let g: [u8; 4] = [103, 122, 105, 112];
    assert(g@ =~= gzip_token());
    let mut i: usize = 0;
    while i < list.len()
        invariant
            i <= list@.len(),
            g@ == gzip_token(),
            forall|j: int| 0 <= j < i ==> text_bytes(#[trigger] list@[j]) != gzip_token(),
        decreases list@.len() - i,
    {
        if bytes_eq(list[i].as_str().as_bytes(), g.as_slice()) {
            return true;
        }
        i = i + 1;
    }
    false
}

/// The echo route: the text after `/echo/`, sent as it is when no encoding
/// is listed, gzip-encoded when `gzip` is listed, and left out when other
/// encodings alone are listed.
pub fn echo_response(request: &Request, text: &[u8]) -> (r: Result<Vec<u8>, Error>)
    ensures
        request.headers.accept_encoding is None ==> (r matches Ok(v) && v@ == text_reply(text@)),
        request.headers.accept_encoding is Some && !accepts_gzip(*request) ==> (r matches Ok(v)
            && v@ == text_reply_without_body()),
        accepts_gzip(*request) ==> (r matches Ok(v) ==> v@ == gzip_reply(gzip_of(text@))),
{
    match &request.headers.accept_encoding {
        None => Ok(text_response(text)),
        Some(list) => {
            if lists_gzip(list) {
                match gzip(text) {
                    Some(c) => Ok(gzip_response(c.as_slice())),
                    None => Err(Error::parse_error("gzip encoding failed")),
                }
            } else {
                let mut out: Vec<u8> = Vec::new();
                push_str(&mut out, SUCCESS_STATUS);
                push_str(&mut out, TEXT_TYPE);
                push_str(&mut out, HEAD_END);
                assert(out@ =~= text_reply_without_body());
                Ok(out)
            }
        },
    }
}

/// Routes a `GET` request. Fails only where the gzip encoder fails.
pub fn handle_get_response(request: &Request) -> (r: Result<Outcome, Error>)
    ensures
        r is Err ==> get_compresses(*request),
        r matches Ok(o) ==> o.plan() == get_plan(*request),
        !get_compresses(*request) ==> r is Ok,
{
    let target = request.request_line.target.as_str();
    let t = target.as_bytes();
    let root: [u8; 1] = [47];
    let agent: [u8; 11] = [47, 117, 115, 101, 114, 45, 97, 103, 101, 110, 116];
    let files: [u8; 7] = [47, 102, 105, 108, 101, 115, 47];
    let echo: [u8; 6] = [47, 101, 99, 104, 111, 47];
    assert(root@ =~= root_target());
    assert(agent@ =~= user_agent_target());
    assert(files@ =~= files_prefix());
    assert(echo@ =~= echo_prefix());
    if bytes_eq(t, root.as_slice()) {
        Ok(Outcome::Reply(bare_response(SUCCESS_STATUS)))
    } else if bytes_eq(t, agent.as_slice()) {
        match &request.headers.user_agent {
            Some(ua) => Ok(Outcome::Reply(text_response(ua.as_str().as_bytes()))),
            None => Ok(Outcome::Reply(bare_response(SUCCESS_STATUS))),
        }
    } else if starts_with(t, files.as_slice()) {
        assert(t@[6] == 47);
        let name = owned_slice(target, 7, t.len());
        assert(t@.subrange(7, t@.len() as int) =~= t@.skip(7));
        Ok(Outcome::ReadFile(name))
    } else if starts_with(t, echo.as_slice()) {
        let text = vstd::slice::slice_subrange(t, 6, t.len());
        assert(text@ =~= t@.skip(6));
        match echo_response(request, text) {
            Ok(v) => Ok(Outcome::Reply(v)),
            Err(e) => Err(e),
        }
    } else {
        Ok(Outcome::Reply(bare_response(NOT_FOUND_STATUS)))
    }
}

/// Routes a `POST` request.
pub fn handle_post_response(request: &Request) -> (r: Outcome)
    requires
        post_is_writable(*request),
    ensures
        r.plan() == post_plan(*request),
{
    let target = request.request_line.target.as_str();
    let t = target.as_bytes();
    let files: [u8; 7] = [47, 102, 105, 108, 101, 115, 47];
    assert(files@ =~= files_prefix());
    if starts_with(t, files.as_slice()) {
        assert(t@[6] == 47);
        let name = owned_slice(target, 7, t.len());
        assert(t@.subrange(7, t@.len() as int) =~= t@.skip(7));
        let body = match &request.body {
            Some(b) => b.clone(),
            None => String::new(),
        };
        Outcome::WriteFile(name, body)
    } else {
        Outcome::Reply(bare_response(NOT_FOUND_STATUS))
    }
}

/// The plan for a request, by its method.
pub open spec fn plan_of(req: Request) -> Plan {
    match req.request_line.http_method {
        RequestMethod::Get => get_plan(req),
        RequestMethod::Post => post_plan(req),
    }
}

/// Routes a request by its method. Fails only where a `GET` needs the gzip
/// encoder and it fails.
pub fn route(request: &Request) -> (r: Result<Outcome, Error>)
    requires
        request.request_line.http_method == RequestMethod::Post ==> post_is_writable(*request),
    ensures
        r matches Ok(o) ==> o.plan() == plan_of(*request),
        r is Err ==> request.request_line.http_method == RequestMethod::Get && get_compresses(
            *request,
        ),
        !(request.request_line.http_method == RequestMethod::Get && get_compresses(*request))
            ==> r is Ok,
{
    match request.request_line.http_method {
        RequestMethod::Get => handle_get_response(request),
        RequestMethod::Post => Ok(handle_post_response(request)),
    }
}

} // verus!
