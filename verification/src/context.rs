//! Connection configuration for the RPC client.

use vstd::prelude::*;

verus! {

/// Connection configuration: optional wallet name, optional node base
/// address, optional credential string in `user:password` form. Immutable
/// once constructed; every call reads it and nothing more.
pub struct RpcCtx {
    pub wallet: Option<String>,
    pub address: Option<String>,
    pub auth: Option<String>,
}

/// The base address used when none is configured.
pub open spec fn default_address_view() -> Seq<char> {
    "http://127.0.0.1:18331"@
}

/// The base address of `ctx`: the configured one, or the default.
pub open spec fn address_view(ctx: &RpcCtx) -> Seq<char> {
    match ctx.address {
        Some(a) => a@,
        None => default_address_view(),
    }
}

/// The well-known local endpoint used when no address is configured.
pub fn default_address() -> (r: &'static str)
    ensures
        r@ == default_address_view(),
{
    "http://127.0.0.1:18331"
}

impl Default for RpcCtx {
    /// A context with nothing configured: default address, no wallet, no
    /// authentication.
    fn default() -> (r: Self)
        ensures
            r.wallet is None,
            r.address is None,
            r.auth is None,
    {
        RpcCtx { wallet: None, address: None, auth: None }
    }
}

impl RpcCtx {
    /// The configured wallet name, or none: no wallet path segment is used.
    pub fn wallet(&self) -> (r: Option<&str>)
        ensures
            match r {
                Some(w) => self.wallet matches Some(x) && w@ == x@,
                None => self.wallet is None,
            },
    {
        match &self.wallet {
            Some(s) => Some(s.as_str()),
            None => None,
        }
    }

    /// The configured base address, or the default endpoint if unset.
    pub fn address(&self) -> (r: &str)
        ensures
            r@ == address_view(self),
    {
        match &self.address {
            Some(s) => s.as_str(),
            None => default_address(),
        }
    }

    /// The configured credential string (`user:password` form), or none;
    /// when none, no authorization header is sent.
    pub fn auth(&self) -> (r: Option<&str>)
        ensures
            match r {
                Some(a) => self.auth matches Some(x) && a@ == x@,
                None => self.auth is None,
            },
    {
        match &self.auth {
            Some(s) => Some(s.as_str()),
            None => None,
        }
    }

    /// A context for exercising the client against a local test node, with a
    /// placeholder credential. Real deployments configure their own values.
    pub fn for_testing() -> (r: Self)
        ensures
            r.wallet matches Some(w) && w@ == "mywallet"@,
            r.address matches Some(a) && a@ == default_address_view(),
            r.auth matches Some(u) && u@ == "user:password"@,
    {
        RpcCtx {
            wallet: Some("mywallet".to_owned()),
            address: Some(default_address().to_owned()),
            auth: Some("user:password".to_owned()),
        }
    }
}

} // verus!
