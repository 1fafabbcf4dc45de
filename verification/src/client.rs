//! The client: where the node is, and the calls that it makes there.

use crate::codec::encode_hex;
use crate::error::{DAError, Failure, FailureView};
use crate::request::{
    build_request, create_blob_request, get_blob_data_request, lookup_key, strip_prefix,
    RpcRequest, RpcRequestView,
};
use vstd::prelude::*;

verus! {

/// Where the node is reached and as whom. The address of a blob explorer is
/// kept for reference; no call uses it.
pub struct SyscoinClient {
    rpc_url: String,
    user: String,
    password: String,
    poda_url: Option<String>,
}

/// A [`SyscoinClient`] with its texts as sequences of characters.
pub struct SyscoinClientView {
    pub rpc_url: Seq<char>,
    pub user: Seq<char>,
    pub password: Seq<char>,
    pub poda_url: Option<Seq<char>>,
}

/// A call that is ready to be posted: the address, the credentials for basic
/// authentication, and the envelope that goes as the JSON body.
#[derive(Clone, PartialEq, Eq)]
pub struct RpcCall {
    pub url: String,
    pub user: String,
    pub password: String,
    pub request: RpcRequest,
}

/// An [`RpcCall`] with its texts as sequences of characters.
pub struct RpcCallView {
    pub url: Seq<char>,
    pub user: Seq<char>,
    pub password: Seq<char>,
    pub request: RpcRequestView,
}

impl View for RpcCall {
    type V = RpcCallView;

    open spec fn view(&self) -> RpcCallView {
        RpcCallView {
            url: self.url@,
            user: self.user@,
            password: self.password@,
            request: self.request@,
        }
    }
}

impl View for SyscoinClient {
    type V = SyscoinClientView;

    closed spec fn view(&self) -> SyscoinClientView {
        SyscoinClientView {
            rpc_url: self.rpc_url@,
            user: self.user@,
            password: self.password@,
            poda_url: match self.poda_url {
                Some(url) => Some(url@),
                None => None,
            },
        }
    }
}

impl SyscoinClientView {
    /// The configuration of a client that is made without one.
    pub open spec fn standard() -> SyscoinClientView {
        SyscoinClientView {
            rpc_url: "http://l1:8370"@,
            user: "u"@,
            password: "p"@,
            poda_url: Some("http://poda.tanenbaum.io/vh/"@),
        }
    }

    /// The call that posts `request` for this client.
    pub open spec fn call(self, request: RpcRequestView) -> RpcCallView {
        RpcCallView { url: self.rpc_url, user: self.user, password: self.password, request }
    }
}

impl SyscoinClient {
    /// The client with the standard configuration.
    pub fn new() -> (client: SyscoinClient)
        ensures
            client@ == SyscoinClientView::standard(),
    {
        SyscoinClient {
            rpc_url: "http://l1:8370".to_owned(),
            user: "u".to_owned(),
            password: "p".to_owned(),
            poda_url: Some("http://poda.tanenbaum.io/vh/".to_owned()),
        }
    }

    /// The client for a node at `rpc_url`, with the credentials for basic
    /// authentication and, where there is one, the address of a blob explorer.
    pub fn with_config(rpc_url: String, user: String, password: String, poda_url: Option<String>) -> (client:
        SyscoinClient)
        ensures
            client@ == (SyscoinClientView {
                rpc_url: rpc_url@,
                user: user@,
                password: password@,
                poda_url: match poda_url {
                    Some(url) => Some(url@),
                    None => None,
                },
            }),
    {
        SyscoinClient { rpc_url, user, password, poda_url }
    }

    /// Addresses `request` to the node of this client.
    pub fn call_rpc(&self, request: RpcRequest) -> (call: RpcCall)
        ensures
            call@ == self@.call(request@),
    {
        RpcCall {
            url: self.rpc_url.clone(),
            user: self.user.clone(),
            password: self.password.clone(),
            request,
        }
    }

    /// The call that submits `data`, of any length. The batch number plays no
    /// part in it.
    pub fn dispatch_blob_call(&self, _batch_number: u32, data: &[u8]) -> (call: RpcCall)
        ensures
            call@ == self@.call(create_blob_request(data@)),
    {
        self.call_rpc(build_request("createblob", "data", encode_hex(data)))
    }

    /// The call that looks up the blob with `blob_id`. An id that is shorter
    /// than the prefix is refused as invalid input; no other id is refused.
    pub fn get_inclusion_data_call(&self, blob_id: &str) -> (r: Result<RpcCall, DAError>)
        ensures
            match r {
                Ok(call) => lookup_key(blob_id@) matches Some(key) && call@ == self@.call(
                    get_blob_data_request(key),
                ),
                Err(e) => lookup_key(blob_id@) is None && e.error@ == FailureView::InvalidInput
                    && !e.is_retriable,
            },
            blob_id@.len() < 2 <==> r is Err,
    {
        match strip_prefix(blob_id) {
            Some(key) => Ok(self.call_rpc(build_request("getblobdata", "versionhash_or_txid", key))),
            None => Err(DAError::new(Failure::InvalidInput)),
        }
    }

    /// The largest blob that the client accepts: no limit is known.
    pub fn blob_size_limit(&self) -> (limit: Option<usize>)
        ensures
            limit is None,
    {
        None
    }

    /// The address of the node.
    pub fn rpc_url(&self) -> (url: &str)
        ensures
            url@ == self@.rpc_url,
    {
        self.rpc_url.as_str()
    }

    /// The address of the blob explorer, where one is configured.
    pub fn poda_url(&self) -> (url: Option<&str>)
        ensures
            match url {
                Some(u) => self@.poda_url == Some(u@),
                None => self@.poda_url is None,
            },
    {
        match &self.poda_url {
            Some(u) => Some(u.as_str()),
            None => None,
        }
    }
}

impl Clone for SyscoinClient {
    /// A second handle with the same configuration.
    fn clone(&self) -> (client: SyscoinClient)
        ensures
            client@ == self@,
    {
        SyscoinClient {
            rpc_url: self.rpc_url.clone(),
            user: self.user.clone(),
            password: self.password.clone(),
            poda_url: match &self.poda_url {
                Some(url) => Some(url.clone()),
                None => None,
            },
        }
    }
}

} // verus!
