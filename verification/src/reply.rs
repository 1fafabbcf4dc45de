//! What a reply of the node means.

use crate::codec::{decode_hex, hex_decoded};
use crate::error::{DAError, ErrorKind, Failure, FailureView};
use crate::json::{json_as_str, json_is_object, json_member, json_parsed, json_view, parse_json, Json};
use vstd::prelude::*;
use vstd::utf8::encode_utf8;

verus! {

/// The error object of a reply.
#[derive(Debug, Clone, PartialEq, Eq)]
pub struct RPCError {
    /// Its message, where it has one that is a string.
    pub message: Option<String>,
}

/// A reply, as far as the client reads it.
#[derive(Debug, Clone, PartialEq, Eq)]
pub struct RpcReply {
    /// The error object, where the reply holds one.
    pub error: Option<RPCError>,
    /// The string that the result holds under the name asked for, where it
    /// holds one.
    pub result: Option<String>,
}

/// The identifier under which the node has stored a blob.
#[derive(Debug, Clone, PartialEq, Eq)]
pub struct DispatchResponse {
    pub blob_id: String,
}

/// The bytes of a blob that the node has stored.
#[derive(Debug, Clone, PartialEq, Eq)]
pub struct InclusionData {
    pub data: Vec<u8>,
}

/// An [`RPCError`] with its message as a sequence of characters.
pub struct RPCErrorView {
    pub message: Option<Seq<char>>,
}

/// An [`RpcReply`] with its texts as sequences of characters.
pub struct RpcReplyView {
    pub error: Option<RPCErrorView>,
    pub result: Option<Seq<char>>,
}

impl View for RPCError {
    type V = RPCErrorView;

    open spec fn view(&self) -> RPCErrorView {
        RPCErrorView {
            message: match self.message {
                Some(m) => Some(m@),
                None => None,
            },
        }
    }
}

impl View for RpcReply {
    type V = RpcReplyView;

    open spec fn view(&self) -> RpcReplyView {
        RpcReplyView {
            error: match self.error {
                Some(e) => Some(e@),
                None => None,
            },
            result: match self.result {
                Some(r) => Some(r@),
                None => None,
            },
        }
    }
}

impl RPCErrorView {
    /// The message that is reported for this error: its own, or a fixed one
    /// where the node gave none.
    pub open spec fn reported_message(self) -> Seq<char> {
        match self.message {
            Some(m) => m,
            None => "Unknown error"@,
        }
    }
}

/// The reply that a JSON value stands for, where `field` is the name under
/// which the result holds what was asked for. Only an object counts as an
/// error, and only a string as a message or as a result.
pub open spec fn reply_of(json: Json, field: Seq<char>) -> RpcReplyView {
    RpcReplyView {
        error: if json.member("error"@) is Object {
            Some(RPCErrorView { message: json.member("error"@).member("message"@).text() })
        } else {
            None
        },
        result: json.member("result"@).member(field).text(),
    }
}

/// What a reply to a submission means: the error of the node where it
/// reports one, whatever else the reply holds; else the identifier of the
/// blob; and a failure where the reply holds neither.
pub open spec fn dispatch_outcome(reply: RpcReplyView) -> Result<Seq<char>, FailureView> {
    match reply.error {
        Some(e) => Err(FailureView::Remote(e.reported_message())),
        None => match reply.result {
            Some(id) => Ok(id),
            None => Err(FailureView::MissingResult),
        },
    }
}

/// What a reply to a lookup means: the error of the node where it reports
/// one, whatever else the reply holds; else no record where the reply holds no
/// data; else the bytes that the data stands for, or the reason why it stands
/// for none.
pub open spec fn inclusion_outcome(reply: RpcReplyView) -> Result<Option<Seq<u8>>, FailureView> {
    match reply.error {
        Some(e) => Err(FailureView::Remote(e.reported_message())),
        None => match reply.result {
            None => Ok(None),
            Some(text) => match hex_decoded(encode_utf8(text)) {
                Ok(bytes) => Ok(Some(bytes)),
                Err(e) => Err(FailureView::Decode(e)),
            },
        },
    }
}

/// The reply that the body of an answer stands for, or the failure to read
/// it as JSON.
pub open spec fn parsed_reply(body: Seq<u8>, field: Seq<char>) -> Result<RpcReplyView, FailureView> {
    match json_parsed(body) {
        Ok(value) => Ok(reply_of(json_view(value), field)),
        Err(e) => Err(FailureView::Malformed(e)),
    }
}

/// What the body of an answer to a submission means; the identifier stands
/// in the result under `versionhash`.
pub open spec fn dispatch_response_outcome(body: Seq<u8>) -> Result<Seq<char>, FailureView> {
    match parsed_reply(body, "versionhash"@) {
        Ok(reply) => dispatch_outcome(reply),
        Err(failure) => Err(failure),
    }
}

/// What the body of an answer to a lookup means; the blob stands in the
/// result under `data`.
pub open spec fn inclusion_response_outcome(body: Seq<u8>) -> Result<Option<Seq<u8>>, FailureView> {
    match parsed_reply(body, "data"@) {
        Ok(reply) => inclusion_outcome(reply),
        Err(failure) => Err(failure),
    }
}

/// The outcome of a submission as a caller sees it.
pub open spec fn dispatch_result_view(r: Result<DispatchResponse, DAError>) -> Result<
    Seq<char>,
    FailureView,
> {
    match r {
        Ok(response) => Ok(response.blob_id@),
        Err(e) => Err(e.error@),
    }
}

/// The outcome of a lookup as a caller sees it.
pub open spec fn inclusion_result_view(r: Result<Option<InclusionData>, DAError>) -> Result<
    Option<Seq<u8>>,
    FailureView,
> {
    match r {
        Ok(Some(record)) => Ok(Some(record.data@)),
        Ok(None) => Ok(None),
        Err(e) => Err(e.error@),
    }
}

/// Reads from a parsed reply what the client needs of it.
pub fn read_reply(value: &serde_json::Value, field: &str) -> (reply: RpcReply)
    ensures
        reply@ == reply_of(json_view(*value), field@),
{
    let error_value = json_member(value, "error");
    let error = if json_is_object(error_value) {
        let message = match json_as_str(json_member(error_value, "message")) {
            Some(m) => Some(m.to_owned()),
            None => None,
        };
        Some(RPCError { message })
    } else {
        None
    };
    let result = match json_as_str(json_member(json_member(value, "result"), field)) {
        Some(r) => Some(r.to_owned()),
        None => None,
    };
    RpcReply { error, result }
}

/// The error for what the node reported.
fn remote_error(error: RPCError) -> (e: DAError)
    ensures
        e.error@ == FailureView::Remote(error@.reported_message()),
        !e.is_retriable,
{
    let message = match error.message {
        Some(m) => m,
        None => "Unknown error".to_owned(),
    };
    DAError::new(Failure::Remote(message))
}

/// Decides what a reply to a submission means.
pub fn dispatch_blob_outcome(reply: RpcReply) -> (r: Result<DispatchResponse, DAError>)
    ensures
        dispatch_result_view(r) == dispatch_outcome(reply@),
        r matches Err(e) ==> !e.is_retriable,
        reply.error is Some ==> (r matches Err(e) && e.error@.kind() == ErrorKind::RemoteError),
{
    match reply.error {
        Some(e) => Err(remote_error(e)),
        None => match reply.result {
            Some(blob_id) => Ok(DispatchResponse { blob_id }),
            None => Err(DAError::new(Failure::MissingResult)),
        },
    }
}

/// Decides what a reply to a lookup means.
pub fn inclusion_data_outcome(reply: RpcReply) -> (r: Result<Option<InclusionData>, DAError>)
    ensures
        inclusion_result_view(r) == inclusion_outcome(reply@),
        r matches Err(e) ==> !e.is_retriable,
        reply.error is Some ==> (r matches Err(e) && e.error@.kind() == ErrorKind::RemoteError),
        reply.error is None && reply.result is None ==> r == Ok::<Option<InclusionData>, DAError>(
            None,
        ),
{
    match reply.error {
        Some(e) => Err(remote_error(e)),
        None => match reply.result {
            None => Ok(None),
            Some(text) => match decode_hex(text.as_str()) {
                Ok(data) => Ok(Some(InclusionData { data })),
                Err(e) => Err(DAError::new(Failure::Decode(e))),
            },
        },
    }
}

/// Parses the body of an answer and reads the reply from it.
pub fn parse_reply(body: &[u8], field: &str) -> (r: Result<RpcReply, DAError>)
    ensures
        match r {
            Ok(reply) => parsed_reply(body@, field@) == Ok::<RpcReplyView, FailureView>(reply@),
            Err(e) => parsed_reply(body@, field@) == Err::<RpcReplyView, FailureView>(e.error@),
        },
        r matches Err(e) ==> !e.is_retriable,
{
    match parse_json(body) {
        Ok(value) => Ok(read_reply(&value, field)),
        Err(e) => Err(DAError::new(Failure::Malformed(e))),
    }
}

/// Decides what the body of an answer to a submission means.
pub fn dispatch_blob_response(body: &[u8]) -> (r: Result<DispatchResponse, DAError>)
    ensures
        dispatch_result_view(r) == dispatch_response_outcome(body@),
        r matches Err(e) ==> !e.is_retriable,
        json_parsed(body@) is Err ==> (r matches Err(e) && e.error@.kind()
            == ErrorKind::TransportError),
        json_parsed(body@) matches Ok(value) && json_view(value).member("error"@) is Object ==> (r matches Err(
            e,
        ) && e.error@.kind() == ErrorKind::RemoteError),
{
    match parse_reply(body, "versionhash") {
        Ok(reply) => dispatch_blob_outcome(reply),
        Err(e) => Err(e),
    }
}

/// Decides what the body of an answer to a lookup means.
pub fn get_inclusion_data_response(body: &[u8]) -> (r: Result<Option<InclusionData>, DAError>)
    ensures
        inclusion_result_view(r) == inclusion_response_outcome(body@),
        r matches Err(e) ==> !e.is_retriable,
        json_parsed(body@) is Err ==> (r matches Err(e) && e.error@.kind()
            == ErrorKind::TransportError),
        json_parsed(body@) matches Ok(value) && json_view(value).member("error"@) is Object ==> (r matches Err(
            e,
        ) && e.error@.kind() == ErrorKind::RemoteError),
        json_parsed(body@) matches Ok(value) && !(json_view(value).member("error"@) is Object) && !(json_view(
            value,
        ).member("result"@).member("data"@) is String) ==> r == Ok::<Option<InclusionData>, DAError>(
            None,
        ),
{
    match parse_reply(body, "data") {
        Ok(reply) => inclusion_data_outcome(reply),
        Err(e) => Err(e),
    }
}

} // verus!
