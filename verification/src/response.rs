//! Decoding the JSON-RPC response envelope: `{"result":..,"error":..,"id":..}`
//! with mutually exclusive `result` and `error`. The node attaches error
//! detail as a JSON body even to failing calls, so the caller hands the full
//! response text here whatever the HTTP status was.

use vstd::prelude::*;

verus! {

/// An error payload reported by the remote node: its code and message.
#[derive(Debug, Clone, PartialEq)]
pub struct RemoteError {
    pub code: i32,
    pub message: String,
}

/// One parsed response envelope: the raw JSON text of the `result` field, if
/// present, and the error payload, if present.
#[derive(Debug, Clone, PartialEq)]
pub struct RpcEnvelope {
    pub result: Option<String>,
    pub error: Option<RemoteError>,
}

/// Everything that can go wrong with one call, kept apart so the caller can
/// tell a network fault from a node error from a malformed reply.
#[derive(Debug, Clone, PartialEq)]
pub enum RpcFailure {
    /// The request never completed: connection, timeout, or TLS failure.
    Transport(String),
    /// The response text is not a JSON-RPC envelope, or carries both or
    /// neither of `result` and `error`: the remote spoke another protocol.
    ProtocolCorruption,
    /// The envelope carries the node's error payload instead of a result.
    Remote(RemoteError),
    /// The `result` field is present but not of the expected shape.
    Decode,
}

pub uninterp spec fn envelope_of(text: Seq<char>) -> Option<RpcEnvelope>;

/// Relies on serde_json::from_str for jsonrpc::Response (derived
/// `Deserialize` over `result`, `error` and `id` fields): parsing is a
/// function of the text alone, and `result` is handed back as its raw JSON
/// text.
#[verifier::external_body]
fn parse_envelope(text: &str) -> (r: Option<RpcEnvelope>)
    ensures
        r == envelope_of(text@),
{
    match serde_json::from_str::<jsonrpc::Response>(text) {
        Ok(resp) => Some(
            RpcEnvelope {
                result: resp.result.map(|v| v.get().to_owned()),
                error: resp.error.map(
                    |e| RemoteError { code: e.code, message: e.message },
                ),
            },
        ),
        Err(_) => None,
    }
}

/// What one envelope yields: its result text, or the failure it stands for.
/// `result` and `error` are mutually exclusive by protocol invariant; a
/// violation is protocol corruption, not a node error.
pub open spec fn envelope_outcome(env: RpcEnvelope) -> Result<String, RpcFailure> {
    match (env.result, env.error) {
        (Some(r), None) => Ok(r),
        (None, Some(e)) => Err(RpcFailure::Remote(e)),
        _ => Err(RpcFailure::ProtocolCorruption),
    }
}

/// Extracts the result text from one envelope, or the failure it stands for.
pub fn interpret_envelope(env: RpcEnvelope) -> (r: Result<String, RpcFailure>)
    ensures
        r == envelope_outcome(env),
{
    match (env.result, env.error) {
        (Some(res), None) => Ok(res),
        (None, Some(e)) => Err(RpcFailure::Remote(e)),
        _ => Err(RpcFailure::ProtocolCorruption),
    }
}

/// What one response text yields: its result text, or a failure. Text that
/// does not parse as an envelope is protocol corruption.
pub open spec fn response_outcome(text: Seq<char>) -> Result<String, RpcFailure> {
    match envelope_of(text) {
        None => Err(RpcFailure::ProtocolCorruption),
        Some(env) => envelope_outcome(env),
    }
}

/// Decodes one response text into its result text, or the failure it stands
/// for.
pub fn decode_response(text: &str) -> (r: Result<String, RpcFailure>)
    ensures
        r == response_outcome(text@),
{
    match parse_envelope(text) {
        None => Err(RpcFailure::ProtocolCorruption),
        Some(env) => interpret_envelope(env),
    }
}

} // verus!
