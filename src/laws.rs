use vstd::prelude::*;
use vstd::string::StringSliceAdditionalSpecFns;
use crate::models::{text_bytes, Request, RequestMethod, SUCCESS_STATUS};
use crate::parser::{after_headers, RequestParser, Stage};
use crate::response::{
    accepts_gzip, echo_prefix, Outcome, get_plan, gzip_of, gzip_reply, plan_of, text_reply,
    text_reply_without_body, Plan, GZIP_ENCODING, HEAD_END, LENGTH_FIELD, TEXT_TYPE,
};
use crate::text::decimal;

verus! {

/// The head of a successful plain-text response whose body has `n` bytes.
pub open spec fn text_head(n: nat) -> Seq<u8> {
    SUCCESS_STATUS.spec_bytes() + TEXT_TYPE.spec_bytes() + LENGTH_FIELD.spec_bytes() + decimal(n)
        + HEAD_END.spec_bytes()
}

/// The head of a gzip-encoded response whose compressed body has `n` bytes.
pub open spec fn gzip_head(n: nat) -> Seq<u8> {
    SUCCESS_STATUS.spec_bytes() + TEXT_TYPE.spec_bytes() + GZIP_ENCODING.spec_bytes()
        + LENGTH_FIELD.spec_bytes() + decimal(n) + HEAD_END.spec_bytes()
}

proof fn lemma_echo_route(req: Request, s: Seq<u8>)
    requires
        text_bytes(req.request_line.target) == echo_prefix() + s,
    ensures
        get_plan(req) == (match req.headers.accept_encoding {
            None => Plan::Reply(text_reply(s)),
            Some(_) => if accepts_gzip(req) {
                Plan::Reply(gzip_reply(gzip_of(s)))
            } else {
                Plan::Reply(text_reply_without_body())
            },
        }),
{
    let t = text_bytes(req.request_line.target);
    assert(t[1] == 101u8);
    assert(t.take(6) =~= echo_prefix());
    assert(t.skip(6) =~= s);
}

/// Echoing with no encoding listed sends the text as the body, announced
/// with its length.
pub proof fn lemma_echo_plain(req: Request, s: Seq<u8>)
    requires
        req.request_line.http_method == RequestMethod::Get,
        text_bytes(req.request_line.target) == echo_prefix() + s,
        req.headers.accept_encoding is None,
    ensures
        plan_of(req) == Plan::Reply(text_head(s.len()) + s),
{
    lemma_echo_route(req, s);
    assert(text_reply(s) =~= text_head(s.len()) + s);
}

/// Echoing with `gzip` listed sends the gzip form of the text as the body,
/// announced with the gzip encoding and the compressed length.
pub proof fn lemma_echo_gzip(req: Request, s: Seq<u8>)
    requires
        req.request_line.http_method == RequestMethod::Get,
        text_bytes(req.request_line.target) == echo_prefix() + s,
        accepts_gzip(req),
    ensures
        plan_of(req) == Plan::Reply(gzip_head(gzip_of(s).len()) + gzip_of(s)),
{
    lemma_echo_route(req, s);
    assert(gzip_reply(gzip_of(s)) =~= gzip_head(gzip_of(s).len()) + gzip_of(s));
}

/// Echoing with encodings listed but not `gzip` sends a head with a content
/// type and nothing else: no length and no body.
pub proof fn lemma_echo_without_gzip(req: Request, s: Seq<u8>)
    requires
        req.request_line.http_method == RequestMethod::Get,
        text_bytes(req.request_line.target) == echo_prefix() + s,
        req.headers.accept_encoding is Some,
        !accepts_gzip(req),
    ensures
        plan_of(req) == Plan::Reply(
            SUCCESS_STATUS.spec_bytes() + TEXT_TYPE.spec_bytes() + HEAD_END.spec_bytes(),
        ),
{
    lemma_echo_route(req, s);
}

/// The same request is always answered alike: two outcomes that both
/// follow the plan of one request are the same, down to the reply bytes.
pub proof fn lemma_same_request_same_reply(req: Request, first: Outcome, second: Outcome)
    requires
        first.plan() == plan_of(req),
        second.plan() == plan_of(req),
    ensures
        first.plan() == second.plan(),
        first matches Outcome::Reply(a) ==> (second matches Outcome::Reply(b) && a@ == b@),
{
}

/// A blank line after headers that announced a zero length completes the
/// request: the parser asks for no body, whatever follows on the stream.
pub proof fn lemma_zero_length_reads_no_body(before: RequestParser, after: RequestParser)
    requires
        before.request.headers.content_length == Some(0usize),
        after.stage == after_headers(before.request.headers),
    ensures
        after.stage == Stage::Done,
{
}

} // verus!
