//! The passive provider: a transport and nothing else. It issues requests
//! and cannot sign.

use vstd::prelude::*;
use crate::error::{RpcError, RpcErrorView};
use crate::primitives::{Address, addresses_view, copy_addresses};
use crate::transport::{
    Expect, Params, ParamsView, Reply, ReplyView, RpcRequest, RpcRequestView, Transport,
    TransportView, default_url, unexpected_reply, url_parses,
};

verus! {

/// A JSON-RPC provider without a signer.
#[derive(Debug, PartialEq, Eq)]
pub struct JsonRpcProvider {
    provider: Transport,
}

impl View for JsonRpcProvider {
    type V = TransportView;

    closed spec fn view(&self) -> TransportView {
        self.provider@
    }
}

impl Clone for JsonRpcProvider {
    fn clone(&self) -> (res: JsonRpcProvider)
        ensures
            res@ == self@,
    {
        proof {
            use_type_invariant(self);
        }
        JsonRpcProvider { provider: self.provider.clone() }
    }
}

/// The method that lists the node's accounts.
pub open spec fn eth_accounts() -> Seq<char> {
    "eth_accounts"@
}

/// The request that lists the accounts of the node at `provider`.
pub open spec fn spec_accounts_request(provider: TransportView) -> RpcRequestView {
    RpcRequestView {
        url: provider.url,
        origin: provider.origin,
        method: eth_accounts(),
        params: ParamsView::Empty,
        expects: Expect::Accounts,
    }
}

/// What the reply to an account listing means: the list exactly as it came,
/// or a transport error of `eth_accounts` with the cause.
pub open spec fn spec_accounts_reply(reply: ReplyView) -> Result<Seq<Seq<u8>>, RpcErrorView> {
    match reply {
        ReplyView::Accounts(list) => Ok(list),
        ReplyView::Failed(cause) => Err(
            RpcErrorView::TransportError { method: eth_accounts(), cause },
        ),
        _ => Err(RpcErrorView::TransportError { method: eth_accounts(), cause: unexpected_reply() }),
    }
}

/// The mathematical value of a decoded account list.
pub open spec fn accounts_view(res: Result<Vec<Address>, RpcError>) -> Result<
    Seq<Seq<u8>>,
    RpcErrorView,
> {
    match res {
        Ok(list) => Ok(addresses_view(list@)),
        Err(e) => Err(e@),
    }
}

impl JsonRpcProvider {
    /// The invariant of the type, that of the transport it wraps.
    #[verifier::type_invariant]
    pub open spec fn wf(&self) -> bool {
        self@.wf()
    }

    /// The provider for the default endpoint.
    pub fn new(origin: &str) -> (res: JsonRpcProvider)
        ensures
            res@ == (TransportView { url: default_url(), origin: origin@ }),
    {
        JsonRpcProvider { provider: Transport::local(origin) }
    }

    /// The provider that wraps a transport.
    pub fn wrap(provider: Transport) -> (res: JsonRpcProvider)
        ensures
            res@ == provider@,
    {
        proof {
            use_type_invariant(&provider);
        }
        JsonRpcProvider { provider }
    }

    /// The transport for an endpoint: `InvalidEndpoint` exactly when the text
    /// is not a URL.
    pub fn provider_from(url: &str, origin: &str) -> (res: Result<Transport, RpcError>)
        ensures
            match res {
                Ok(t) => url_parses(url@) && t@ == (TransportView {
                    url: url@,
                    origin: origin@,
                }),
                Err(e) => !url_parses(url@) && e@ == RpcErrorView::InvalidEndpoint,
            },
    {
        Transport::new(url, origin)
    }

    /// Points the provider at another endpoint, keeping the `Origin` header.
    /// Where the text is not a URL the provider stays as it was and the
    /// result is `InvalidEndpoint`.
    pub fn set_url(&mut self, url: &str) -> (res: Result<(), RpcError>)
        ensures
            match res {
                Ok(_) => url_parses(url@) && final(self)@ == (TransportView {
                    url: url@,
                    ..old(self)@
                }),
                Err(e) => !url_parses(url@) && e@ == RpcErrorView::InvalidEndpoint && final(self)@
                    == old(self)@,
            },
    {
        match Self::provider_from(url, self.provider.origin().as_str()) {
            Ok(provider) => {
                self.provider = provider;
                Ok(())
            },
            Err(e) => Err(e),
        }
    }

    /// The transport that this provider wraps.
    pub fn inner(&self) -> (res: &Transport)
        ensures
            res@ == self@,
    {
        &self.provider
    }

    /// The request that lists the node's accounts.
    pub fn get_accounts(&self) -> (res: RpcRequest)
        ensures
            res@ == spec_accounts_request(self@),
    {
        self.provider.request("eth_accounts", Params::Empty, Expect::Accounts)
    }

    /// Reads the reply to an account listing: see [`spec_accounts_reply`].
    pub fn accounts(reply: &Reply) -> (res: Result<Vec<Address>, RpcError>)
        ensures
            accounts_view(res) == spec_accounts_reply(reply@),
    {
        match reply {
            Reply::Accounts(list) => Ok(copy_addresses(list)),
            Reply::Failed(cause) => Err(
                RpcError::TransportError { method: "eth_accounts".to_owned(), cause: cause.clone() },
            ),
            _ => Err(
                RpcError::TransportError {
                    method: "eth_accounts".to_owned(),
                    cause: "unexpected reply".to_owned(),
                },
            ),
        }
    }
}

} // verus!
