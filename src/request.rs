use vstd::prelude::*;
use vstd::string::StringSliceAdditionalSpecFns;
use crate::config::{endpoint_chars, ServerConfiguration};
use crate::wire::{accepted_response, not_found_response, ACCEPTED_HEAD, NOT_FOUND_HEAD};

verus! {

/// The only method that is served.
pub const SERVED_METHOD: &'static str = "GET";

/// How many header lines the parser accepts in one request.
pub const MAX_HEADERS: usize = 1024;

#[verifier::external_type_specification]
#[verifier::external_body]
pub struct ExParseError(httparse::Error);

/// What the HTTP parser reads from the start of a request buffer, with room
/// for `max_headers` header lines: `None` when it reports the buffer
/// invalid, else the method and the path, each `None` when the buffer ended
/// before it.
pub uninterp spec fn request_head_of(
    buf: Seq<u8>,
    max_headers: nat,
) -> Option<(Option<Seq<char>>, Option<Seq<char>>)>;

/// The characters of an optional string.
pub open spec fn opt_chars(o: Option<String>) -> Option<Seq<char>> {
    match o {
        Some(s) => Some(s@),
        None => None,
    }
}

/// The text of a request part; one the parser did not reach is empty.
pub open spec fn text_or_empty(o: Option<Seq<char>>) -> Seq<char> {
    match o {
        Some(s) => s,
        None => Seq::empty(),
    }
}

/// Whether a request with this method and path is served at `endpoint`:
/// the method is `GET` and the path equals the endpoint.
pub open spec fn is_served(
    method: Option<Seq<char>>,
    path: Option<Seq<char>>,
    endpoint: Seq<char>,
) -> bool {
    text_or_empty(method) == SERVED_METHOD@ && text_or_empty(path) == endpoint
}

/// What is done with a new connection after its request was read.
pub enum Reply {
    /// These bytes are sent and the connection is dropped.
    Reject(Vec<u8>),
    /// These bytes are sent and the connection joins the broadcast set.
    Accept(Vec<u8>),
}

/// Whether `r` is the reply owed to a request with this method and path.
pub open spec fn replies_to(
    r: Reply,
    method: Option<Seq<char>>,
    path: Option<Seq<char>>,
    endpoint: Seq<char>,
) -> bool {
    if is_served(method, path, endpoint) {
        r matches Reply::Accept(b) && b@ == ACCEPTED_HEAD.spec_bytes()
    } else {
        r matches Reply::Reject(b) && b@ == NOT_FOUND_HEAD.spec_bytes()
    }
}

/// Whether `r` is the reply owed to the request bytes `buf`.
pub open spec fn reply_for_request(r: Reply, buf: Seq<u8>, endpoint: Seq<char>) -> bool {
    match request_head_of(buf, MAX_HEADERS as nat) {
        None => r matches Reply::Reject(b) && b@ == NOT_FOUND_HEAD.spec_bytes(),
        Some((m, p)) => replies_to(r, m, p, endpoint),
    }
}

/// Relies on `httparse::Request::parse` over a header table of
/// `max_headers` empty entries: on `Ok` the method and path it filled in,
/// on `Err` its error.
#[verifier::external_body]
fn parse_request_head(buf: &[u8], max_headers: usize) -> (r: Result<
    (Option<String>, Option<String>),
    httparse::Error,
>)
    ensures
        match r {
            Ok((m, p)) => request_head_of(buf@, max_headers as nat) == Some(
                (opt_chars(m), opt_chars(p)),
            ),
            Err(_) => request_head_of(buf@, max_headers as nat) is None,
        },
{
    let mut headers = vec![httparse::EMPTY_HEADER; max_headers];
    let mut request = httparse::Request::new(&mut headers);
    match request.parse(buf) {
        Ok(_) => Ok((request.method.map(|m| m.to_owned()), request.path.map(|p| p.to_owned()))),
        Err(e) => Err(e),
    }
}

/// The text of an optional string, empty when absent.
fn owned_or_empty(o: &Option<String>) -> (r: String)
    ensures
        r@ == text_or_empty(opt_chars(*o)),
{
    match o {
        Some(s) => s.clone(),
        None => String::new(),
    }
}

/// The reply to a parsed request: the accepted head when the method is
/// `GET` and the path is the configured endpoint (`/` by default), else
/// `404 Not Found`.
pub fn answer(method: &Option<String>, path: &Option<String>, config: &ServerConfiguration) -> (r: Reply)
    ensures
        replies_to(r, opt_chars(*method), opt_chars(*path), endpoint_chars(config.endpoint)),
{
    let m = owned_or_empty(method);
    let p = owned_or_empty(path);
    let served = SERVED_METHOD.to_owned();
    let endpoint = config.endpoint_path();
    if m == served && p == endpoint {
        Reply::Accept(accepted_response())
    } else {
        Reply::Reject(not_found_response())
    }
}

/// The reply to the first bytes that a new connection sent: `404 Not Found`
/// when they do not parse as an HTTP request, else as [`answer`] says.
pub fn respond(request: &[u8], config: &ServerConfiguration) -> (r: Reply)
    ensures
        reply_for_request(r, request@, endpoint_chars(config.endpoint)),
{
    match parse_request_head(request, MAX_HEADERS) {
        Ok((m, p)) => answer(&m, &p, config),
        Err(_) => Reply::Reject(not_found_response()),
    }
}

} // verus!
