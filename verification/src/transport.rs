//! Everything one HTTP round trip needs, short of the I/O itself: the target
//! URL, the `Basic` authorization header value, and the request body. The
//! caller performs the POST and hands the response text back.

use base64::Engine;
use vstd::prelude::*;
use vstd::string::StringExecFns;

use crate::context::RpcCtx;
use crate::context::address_view;
use crate::envelope::envelope_chars;
use crate::envelope::request_body;

verus! {

pub uninterp spec fn base64_of(s: Seq<char>) -> Seq<char>;

/// Relies on the base64 crate's `Engine::encode` with the standard alphabet
/// and padding: the encoding is a function of the input bytes alone.
#[verifier::external_body]
fn base64_encode(s: &str) -> (r: String)
    ensures
        r@ == base64_of(s@),
{
    base64::engine::general_purpose::STANDARD.encode(s)
}

/// The target URL: the base address, with `/wallet/{wallet}` appended when a
/// wallet is configured.
pub open spec fn url_view(ctx: &RpcCtx) -> Seq<char> {
    match ctx.wallet {
        Some(w) => address_view(ctx) + "/wallet/"@ + w@,
        None => address_view(ctx),
    }
}

/// Builds the target URL for one call under `ctx`.
pub fn rpc_url(ctx: &RpcCtx) -> (r: String)
    ensures
        r@ == url_view(ctx),
{
    let mut r = ctx.address().to_owned();
    match ctx.wallet() {
        Some(w) => {
            r.append("/wallet/");
            r.append(w);
        },
        None => {},
    }
    r
}

/// The `Authorization` header value for a configured credential: the literal
/// `user:password` string, base64-encoded and prefixed `Basic `.
pub fn auth_header_value(auth: &str) -> (r: String)
    ensures
        r@ == "Basic "@ + base64_of(auth@),
{
    let mut r = "Basic ".to_owned();
    let encoded = base64_encode(auth);
    r.append(encoded.as_str());
    r
}

/// The value of the `Content-Type` header sent with every request.
pub fn content_type() -> (r: &'static str)
    ensures
        r@ == "application/json"@,
{
    "application/json"
}

/// One JSON-RPC call, ready to send: where to POST, which authorization
/// header to attach (none exactly when no credential is configured), and the
/// request body.
pub struct PreparedRequest {
    pub url: String,
    pub auth_header: Option<String>,
    pub body: String,
}

/// What `prepare_request` promises of its result.
pub open spec fn prepared_ok(
    r: PreparedRequest,
    ctx: &RpcCtx,
    method: Seq<char>,
    params: Seq<Seq<char>>,
) -> bool {
    &&& r.url@ == url_view(ctx)
    &&& match ctx.auth {
        Some(a) => r.auth_header matches Some(h) && h@ == "Basic "@ + base64_of(a@),
        None => r.auth_header is None,
    }
    &&& r.body@ == envelope_chars(method, params)
}

/// Assembles one call: URL, optional authorization header, and body.
pub fn prepare_request(ctx: &RpcCtx, method: &str, params: &Vec<String>) -> (r: PreparedRequest)
    ensures
        prepared_ok(r, ctx, method@, params.deep_view()),
{
    let auth_header = match ctx.auth() {
        Some(a) => Some(auth_header_value(a)),
        None => None,
    };
    PreparedRequest { url: rpc_url(ctx), auth_header, body: request_body(method, params) }
}

} // verus!
