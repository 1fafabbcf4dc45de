//! What is sent to the node.

use crate::codec::hex_text;
use vstd::prelude::*;

verus! {

/// One named parameter of a call.
#[derive(Debug, Clone, PartialEq, Eq)]
pub struct Param {
    pub name: String,
    pub value: String,
}

/// The envelope of a call: the method, its parameters by name, and the two
/// fixed marks of the protocol.
#[derive(Debug, Clone, PartialEq, Eq)]
pub struct RpcRequest {
    pub method: String,
    pub params: Vec<Param>,
    pub id: String,
    pub jsonrpc: String,
}

/// A [`Param`] with its texts as sequences of characters.
pub struct ParamView {
    pub name: Seq<char>,
    pub value: Seq<char>,
}

/// An [`RpcRequest`] with its texts as sequences of characters.
pub struct RpcRequestView {
    pub method: Seq<char>,
    pub params: Seq<ParamView>,
    pub id: Seq<char>,
    pub jsonrpc: Seq<char>,
}

impl View for Param {
    type V = ParamView;

    open spec fn view(&self) -> ParamView {
        ParamView { name: self.name@, value: self.value@ }
    }
}

impl View for RpcRequest {
    type V = RpcRequestView;

    open spec fn view(&self) -> RpcRequestView {
        RpcRequestView {
            method: self.method@,
            params: Seq::new(self.params@.len(), |i: int| self.params@[i]@),
            id: self.id@,
            jsonrpc: self.jsonrpc@,
        }
    }
}

/// The envelope for `method` with one parameter.
pub open spec fn envelope(method: Seq<char>, name: Seq<char>, value: Seq<char>) -> RpcRequestView {
    RpcRequestView {
        method,
        params: seq![ParamView { name, value }],
        id: "1"@,
        jsonrpc: "2.0"@,
    }
}

/// The call that submits `data`: the blob goes as hexadecimal text.
pub open spec fn create_blob_request(data: Seq<u8>) -> RpcRequestView {
    envelope("createblob"@, "data"@, hex_text(data))
}

/// The call that looks up a blob by the key that the node knows it under.
pub open spec fn get_blob_data_request(key: Seq<char>) -> RpcRequestView {
    envelope("getblobdata"@, "versionhash_or_txid"@, key)
}

/// How many characters every blob id carries in front of the key that the
/// node knows.
pub const BLOB_ID_PREFIX_LEN: usize = 2;

/// The key under which the node knows the blob with `blob_id`: the id without
/// its prefix. `None` where the id is shorter than the prefix.
pub open spec fn lookup_key(blob_id: Seq<char>) -> Option<Seq<char>> {
    if blob_id.len() < BLOB_ID_PREFIX_LEN {
        None
    } else {
        Some(blob_id.skip(BLOB_ID_PREFIX_LEN as int))
    }
}

/// Builds the envelope for `method` with one parameter.
pub fn build_request(method: &str, name: &str, value: String) -> (request: RpcRequest)
    ensures
        request@ == envelope(method@, name@, value@),
{
    let mut params: Vec<Param> = Vec::new();
    params.push(Param { name: name.to_owned(), value });
    let request = RpcRequest {
        method: method.to_owned(),
        params,
        id: "1".to_owned(),
        jsonrpc: "2.0".to_owned(),
    };
    assert(request@.params =~= seq![ParamView { name: name@, value: value@ }]);
    request
}

/// Strips the prefix from a blob id.
pub fn strip_prefix(blob_id: &str) -> (key: Option<String>)
    ensures
        match key {
            Some(k) => lookup_key(blob_id@) == Some(k@),
            None => lookup_key(blob_id@) is None,
        },
{
    let len: usize = blob_id.unicode_len();
    if len < BLOB_ID_PREFIX_LEN {
        None
    } else {
        let key = blob_id.substring_char(BLOB_ID_PREFIX_LEN, len);
        assert(key@ =~= blob_id@.skip(BLOB_ID_PREFIX_LEN as int));
        Some(key.to_owned())
    }
}

} // verus!
