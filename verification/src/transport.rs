//! The JSON-RPC transport: an endpoint URL and the `Origin` header that every
//! request carries. A transport describes the request to send and interprets
//! the reply; performing the HTTP exchange is left to the caller.

use vstd::prelude::*;
use crate::error::{RpcError, RpcErrorView};
use crate::primitives::{Address, Digest, Signature, addresses_view, copy_addresses};

verus! {

/// Whether `reqwest::Url::parse` accepts the text as an absolute URL.
pub uninterp spec fn url_parses(text: Seq<char>) -> bool;

/// The endpoint that a provider targets until it is given another.
pub open spec fn default_url() -> Seq<char> {
    "http://localhost:8545"@
}

/// The texts that can be a transport's endpoint: the default one, and every
/// text that parses as a URL.
pub open spec fn is_endpoint(url: Seq<char>) -> bool {
    url == default_url() || url_parses(url)
}

/// The views of a list of strings, in order.
pub open spec fn strings_view(list: Seq<String>) -> Seq<Seq<char>> {
    Seq::new(list.len(), |i: int| list[i]@)
}

/// Calls `reqwest::Url::parse` on the text and reports whether it returned
/// `Ok`. Nothing is claimed of which texts are URLs: the answer is whatever
/// the parser gives, and it depends on the text alone.
#[verifier::external_body]
fn parse_url(text: &str) -> (ok: bool)
    ensures
        ok == url_parses(text@),
{
    reqwest::Url::parse(text).is_ok()
}

/// Copies a list of strings.
pub fn copy_strings(list: &Vec<String>) -> (res: Vec<String>)
    ensures
        strings_view(res@) == strings_view(list@),
{
    let mut out: Vec<String> = Vec::new();
    let mut i: usize = 0;
    while i < list.len()
        invariant
            i <= list.len(),
            out@.len() == i,
            forall|j: int| 0 <= j < i ==> out@[j]@ == list@[j]@,
        decreases list.len() - i,
    {
        out.push(list[i].clone());
        i += 1;
    }
    assert(strings_view(out@) =~= strings_view(list@));
    out
}

/// The parameters of a JSON-RPC call.
#[derive(Debug, PartialEq, Eq)]
pub enum Params {
    /// No parameters.
    Empty,
    /// One parameter, a 32-byte digest.
    Digest(Digest),
    /// An ordered list of JSON values, each as its JSON text.
    Values(Vec<String>),
}

/// The mathematical value of [`Params`].
pub enum ParamsView {
    Empty,
    Digest(Seq<u8>),
    Values(Seq<Seq<char>>),
}

impl View for Params {
    type V = ParamsView;

    open spec fn view(&self) -> ParamsView {
        match self {
            Params::Empty => ParamsView::Empty,
            Params::Digest(h) => ParamsView::Digest(h@),
            Params::Values(v) => ParamsView::Values(strings_view(v@)),
        }
    }
}

impl Clone for Params {
    fn clone(&self) -> (res: Params)
        ensures
            res@ == self@,
    {
        match self {
            Params::Empty => Params::Empty,
            Params::Digest(h) => Params::Digest(*h),
            Params::Values(v) => Params::Values(copy_strings(v)),
        }
    }
}

/// The kind of result that the sender of a request waits for.
#[derive(Clone, Copy, Debug, PartialEq, Eq, Structural)]
pub enum Expect {
    /// A list of account addresses.
    Accounts,
    /// A 65-byte signature.
    Signature,
    /// Any JSON value, as text.
    Json,
}

/// One outgoing JSON-RPC request: where it goes, the `Origin` header it
/// carries, what it asks, and the kind of result it waits for.
#[derive(Debug, PartialEq, Eq)]
pub struct RpcRequest {
    pub url: String,
    pub origin: String,
    pub method: String,
    pub params: Params,
    pub expects: Expect,
}

/// The mathematical value of an [`RpcRequest`].
pub struct RpcRequestView {
    pub url: Seq<char>,
    pub origin: Seq<char>,
    pub method: Seq<char>,
    pub params: ParamsView,
    pub expects: Expect,
}

impl View for RpcRequest {
    type V = RpcRequestView;

    open spec fn view(&self) -> RpcRequestView {
        RpcRequestView {
            url: self.url@,
            origin: self.origin@,
            method: self.method@,
            params: self.params@,
            expects: self.expects,
        }
    }
}

impl Clone for RpcRequest {
    fn clone(&self) -> (res: RpcRequest)
        ensures
            res@ == self@,
    {
        RpcRequest {
            url: self.url.clone(),
            origin: self.origin.clone(),
            method: self.method.clone(),
            params: self.params.clone(),
            expects: self.expects,
        }
    }
}

/// What came back for a request, as the caller that performed the exchange
/// reports it.
#[derive(Debug, PartialEq, Eq)]
pub enum Reply {
    /// The node's list of accounts.
    Accounts(Vec<Address>),
    /// A signature made by the remote side.
    Signature(Signature),
    /// A JSON value, as text.
    Json(String),
    /// The exchange failed: connection refused, an HTTP status that is not a
    /// success, a body that is not the JSON expected. The text is the cause.
    Failed(String),
}

/// The mathematical value of a [`Reply`].
pub enum ReplyView {
    Accounts(Seq<Seq<u8>>),
    Signature(Seq<u8>),
    Json(Seq<char>),
    Failed(Seq<char>),
}

impl View for Reply {
    type V = ReplyView;

    open spec fn view(&self) -> ReplyView {
        match self {
            Reply::Accounts(list) => ReplyView::Accounts(addresses_view(list@)),
            Reply::Signature(s) => ReplyView::Signature(s@),
            Reply::Json(text) => ReplyView::Json(text@),
            Reply::Failed(cause) => ReplyView::Failed(cause@),
        }
    }
}

/// The value that a completed call hands to its caller.
#[derive(Debug, PartialEq, Eq)]
pub enum Answer {
    /// The decoded account list.
    Accounts(Vec<Address>),
    /// A signature.
    Signature(Signature),
    /// The result of a passthrough call, as JSON text.
    Json(String),
}

/// The mathematical value of an [`Answer`].
pub enum AnswerView {
    Accounts(Seq<Seq<u8>>),
    Signature(Seq<u8>),
    Json(Seq<char>),
}

impl View for Answer {
    type V = AnswerView;

    open spec fn view(&self) -> AnswerView {
        match self {
            Answer::Accounts(list) => AnswerView::Accounts(addresses_view(list@)),
            Answer::Signature(s) => AnswerView::Signature(s@),
            Answer::Json(text) => AnswerView::Json(text@),
        }
    }
}

/// The mathematical value of a call's result.
pub open spec fn outcome_view(outcome: Result<Answer, RpcError>) -> Result<
    AnswerView,
    RpcErrorView,
> {
    match outcome {
        Ok(answer) => Ok(answer@),
        Err(error) => Err(error@),
    }
}

/// The cause reported when a reply is not of the kind that was asked for.
pub open spec fn unexpected_reply() -> Seq<char> {
    "unexpected reply"@
}

/// What a reply means to the sender of a request for `method` that waits for
/// `expects`: a reported failure and a reply of another kind are transport
/// errors that name the method; a reply of the right kind is handed on as it
/// came.
pub open spec fn spec_response(method: Seq<char>, expects: Expect, reply: ReplyView) -> Result<
    AnswerView,
    RpcErrorView,
> {
    match reply {
        ReplyView::Failed(cause) => Err(RpcErrorView::TransportError { method, cause }),
        ReplyView::Accounts(list) => if expects == Expect::Accounts {
            Ok(AnswerView::Accounts(list))
        } else {
            Err(RpcErrorView::TransportError { method, cause: unexpected_reply() })
        },
        ReplyView::Signature(s) => if expects == Expect::Signature {
            Ok(AnswerView::Signature(s))
        } else {
            Err(RpcErrorView::TransportError { method, cause: unexpected_reply() })
        },
        ReplyView::Json(text) => if expects == Expect::Json {
            Ok(AnswerView::Json(text))
        } else {
            Err(RpcErrorView::TransportError { method, cause: unexpected_reply() })
        },
    }
}

/// Interprets a reply: see [`spec_response`].
pub fn response(method: &str, expects: Expect, reply: &Reply) -> (res: Result<Answer, RpcError>)
    ensures
        outcome_view(res) == spec_response(method@, expects, reply@),
{
    match reply {
        Reply::Failed(cause) => Err(
            RpcError::TransportError { method: method.to_owned(), cause: cause.clone() },
        ),
        Reply::Accounts(list) => {
            if expects == Expect::Accounts {
                Ok(Answer::Accounts(copy_addresses(list)))
            } else {
                Err(mismatch(method))
            }
        },
        Reply::Signature(s) => {
            if expects == Expect::Signature {
                Ok(Answer::Signature(*s))
            } else {
                Err(mismatch(method))
            }
        },
        Reply::Json(text) => {
            if expects == Expect::Json {
                Ok(Answer::Json(text.clone()))
            } else {
                Err(mismatch(method))
            }
        },
    }
}

fn mismatch(method: &str) -> (res: RpcError)
    ensures
        res@ == (RpcErrorView::TransportError { method: method@, cause: unexpected_reply() }),
{
    RpcError::TransportError { method: method.to_owned(), cause: "unexpected reply".to_owned() }
}

/// An HTTP JSON-RPC client bound to one endpoint. It holds nothing but the
/// endpoint URL and the `Origin` header value, and neither changes: another
/// endpoint is another transport.
#[derive(Debug, PartialEq, Eq)]
pub struct Transport {
    url: String,
    origin: String,
}

/// The mathematical value of a [`Transport`].
pub struct TransportView {
    pub url: Seq<char>,
    pub origin: Seq<char>,
}

impl View for Transport {
    type V = TransportView;

    closed spec fn view(&self) -> TransportView {
        TransportView { url: self.url@, origin: self.origin@ }
    }
}

impl Clone for Transport {
    fn clone(&self) -> (res: Transport)
        ensures
            res@ == self@,
    {
        proof {
            use_type_invariant(self);
        }
        Transport { url: self.url.clone(), origin: self.origin.clone() }
    }
}

impl TransportView {
    /// The invariant of a transport: its URL is an endpoint.
    pub open spec fn wf(self) -> bool {
        is_endpoint(self.url)
    }
}

impl Transport {
    /// The invariant of the type: every transport that exists meets it.
    #[verifier::type_invariant]
    pub open spec fn wf(&self) -> bool {
        self@.wf()
    }

    /// Builds the transport for an endpoint. Fails with `InvalidEndpoint`
    /// exactly when the text is not a URL, and for no other reason.
    pub fn new(url: &str, origin: &str) -> (res: Result<Transport, RpcError>)
        ensures
            match res {
                Ok(t) => url_parses(url@) && t@ == (TransportView {
                    url: url@,
                    origin: origin@,
                }),
                Err(e) => !url_parses(url@) && e@ == RpcErrorView::InvalidEndpoint,
            },
    {
        if parse_url(url) {
            Ok(Transport { url: url.to_owned(), origin: origin.to_owned() })
        } else {
            Err(RpcError::InvalidEndpoint)
        }
    }

    /// The transport for the default endpoint.
    pub fn local(origin: &str) -> (res: Transport)
        ensures
            res@ == (TransportView { url: default_url(), origin: origin@ }),
    {
        Transport { url: "http://localhost:8545".to_owned(), origin: origin.to_owned() }
    }

    /// The endpoint URL.
    pub fn url(&self) -> (res: &String)
        ensures
            res@ == self@.url,
            is_endpoint(res@),
    {
        proof {
            use_type_invariant(self);
        }
        &self.url
    }

    /// The value of the `Origin` header.
    pub fn origin(&self) -> (res: &String)
        ensures
            res@ == self@.origin,
    {
        &self.origin
    }

    /// The request that a call of `method` with `params` sends through this
    /// transport. It goes to the transport's URL and carries the transport's
    /// `Origin` header, whatever the endpoint, the method and the parameters.
    pub fn request(&self, method: &str, params: Params, expects: Expect) -> (res: RpcRequest)
        ensures
            res@ == (RpcRequestView {
                url: self@.url,
                origin: self@.origin,
                method: method@,
                params: params@,
                expects,
            }),
    {
        RpcRequest {
            url: self.url.clone(),
            origin: self.origin.clone(),
            method: method.to_owned(),
            params,
            expects,
        }
    }
}

} // verus!
