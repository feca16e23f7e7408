use vstd::prelude::*;
use vstd::string::*;

verus! {

/// Status line of a successful response.
pub const SUCCESS_STATUS: &'static str = "HTTP/1.1 200 OK";

/// Status line of a response to a creation.
pub const CREATED_STATUS: &'static str = "HTTP/1.1 201 Created";

/// Status line of a response to an unknown target.
pub const NOT_FOUND_STATUS: &'static str = "HTTP/1.1 404 Not Found";

/// The bytes of a text, in UTF-8.
pub open spec fn text_bytes(s: String) -> Seq<u8> {
    vstd::utf8::encode_utf8(s@)
}

/// The recognized request headers; others are ignored.
#[derive(Debug)]
pub struct Headers {
    pub host: Option<String>,
    pub user_agent: Option<String>,
    pub accept: Option<String>,
    pub content_length: Option<usize>,
    pub accept_encoding: Option<Vec<String>>,
}

impl Headers {
    /// No header seen yet.
    pub open spec fn is_empty(&self) -> bool {
        &&& self.host is None
        &&& self.user_agent is None
        &&& self.accept is None
        &&& self.content_length is None
        &&& self.accept_encoding is None
    }
}

/// The two supported methods.
#[derive(Debug, Clone, Copy, PartialEq, Eq, Structural)]
pub enum RequestMethod {
    Get,
    Post,
}

/// The bytes `GET`.
pub open spec fn get_token() -> Seq<u8> {
    seq![71u8, 69, 84]
}

/// The bytes `POST`.
pub open spec fn post_token() -> Seq<u8> {
    seq![80u8, 79, 83, 84]
}

/// The method named by a token, if it is one of the supported ones.
pub open spec fn method_of(tok: Seq<u8>) -> Option<RequestMethod> {
    if tok == get_token() {
        Some(RequestMethod::Get)
    } else if tok == post_token() {
        Some(RequestMethod::Post)
    } else {
        None
    }
}

impl RequestMethod {
    /// Reads a method token: exactly `GET` or `POST`.
    pub fn from_bytes(tok: &[u8]) -> (r: Option<RequestMethod>)
        ensures
            r == method_of(tok@),
    {
        if tok.len() == 3 && tok[0] == 71u8 && tok[1] == 69u8 && tok[2] == 84u8 {
            assert(tok@ =~= get_token());
            Some(RequestMethod::Get)
        } else if tok.len() == 4 && tok[0] == 80u8 && tok[1] == 79u8 && tok[2] == 83u8 && tok[3]
            == 84u8 {
            assert(tok@ =~= post_token());
            Some(RequestMethod::Post)
        } else {
            proof {
                if tok@ == get_token() {
                    assert(tok@[0] == 71u8 && tok@[1] == 69u8 && tok@[2] == 84u8);
                }
                if tok@ == post_token() {
                    assert(tok@[0] == 80u8 && tok@[1] == 79u8 && tok@[2] == 83u8 && tok@[3] == 84u8);
                }
            }
            None
        }
    }
}

impl std::str::FromStr for RequestMethod {
    type Err = ();

    fn from_str(s: &str) -> Result<RequestMethod, ()> {
        match RequestMethod::from_bytes(s.as_bytes()) {
            Some(m) => Ok(m),
            None => Err(()),
        }
    }
}

/// The first line of a request.
#[derive(Debug)]
pub struct RequestLine {
    pub http_method: RequestMethod,
    pub target: String,
    pub http_version: String,
}

/// A parsed request: its first line, its recognized headers and its body.
#[derive(Debug)]
pub struct Request {
    pub request_line: RequestLine,
    pub headers: Headers,
    pub body: Option<String>,
}

impl Request {
    /// The request as it stands before anything is read: `GET`, empty
    /// target and version, no headers, no body.
    pub open spec fn is_fresh(&self) -> bool {
        &&& self.request_line.http_method == RequestMethod::Get
        &&& self.request_line.target@.len() == 0
        &&& self.request_line.http_version@.len() == 0
        &&& self.headers.is_empty()
        &&& self.body is None
    }

    pub fn new() -> (r: Request)
        ensures
            r.is_fresh(),
    {
        Request {
            request_line: RequestLine {
                http_method: RequestMethod::Get,
                target: String::new(),
                http_version: String::new(),
            },
            headers: Headers {
                host: None,
                user_agent: None,
                accept: None,
                content_length: None,
                accept_encoding: None,
            },
            body: None,
        }
    }
}

} // verus!
