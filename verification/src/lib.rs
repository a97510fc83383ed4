//! A minimal client library for a full node's JSON-RPC interface, specialized
//! for the transaction lifecycle: funding, signing, and broadcasting a raw
//! transaction.
//!
//! The library covers the computing side of one JSON-RPC 1.0 round trip:
//! building the request envelope, the target URL and the authorization header,
//! and decoding the loosely-typed response text into typed domain results.
//! The HTTP transport itself is left to the caller, which hands the response
//! body back as plain text.

pub mod context;
pub mod hexstr;
pub mod jsonstr;
pub mod envelope;
pub mod transport;
pub mod response;
pub mod tx;
pub mod ops;

pub use context::RpcCtx;
pub use transport::PreparedRequest;
pub use response::{RemoteError, RpcEnvelope, RpcFailure};
pub use tx::TransactionOrHex;
pub use ops::TxId;
