//! What holds of the client whatever the node stores and answers.

use crate::codec::lemma_hex_round_trip;
use crate::error::FailureView;
use crate::json::Json;
use crate::reply::{dispatch_outcome, inclusion_outcome, reply_of, RPCErrorView, RpcReplyView};
use crate::request::{create_blob_request, lookup_key, BLOB_ID_PREFIX_LEN};
use vstd::prelude::*;

verus! {

/// A blob survives the way through the node. Where the node answers a
/// submission with the identifier `id`, the submission returns that
/// identifier; looking it up asks the node for the identifier without its
/// prefix; and where the node answers with the text that the submission sent,
/// the lookup returns the bytes that were submitted. This holds of every
/// identifier that is at least as long as the prefix.
pub proof fn lemma_store_round_trip(data: Seq<u8>, id: Seq<char>)
    requires
        id.len() >= BLOB_ID_PREFIX_LEN,
    ensures
        dispatch_outcome(RpcReplyView { error: None, result: Some(id) }) == Ok::<
            Seq<char>,
            FailureView,
        >(id),
        lookup_key(id) == Some(id.skip(BLOB_ID_PREFIX_LEN as int)),
        create_blob_request(data).params.len() == 1,
        inclusion_outcome(
            RpcReplyView { error: None, result: Some(create_blob_request(data).params[0].value) },
        ) == Ok::<Option<Seq<u8>>, FailureView>(Some(data)),
{
    lemma_hex_round_trip(data);
}

/// A blob that the node does not know is no error. Where a reply holds no
/// error object and no data that is a string, as with `null` for the data,
/// the lookup returns no record.
pub proof fn lemma_absent_data_is_no_record(json: Json)
    requires
        !(json.member("error"@) is Object),
        !(json.member("result"@).member("data"@) is String),
    ensures
        inclusion_outcome(reply_of(json, "data"@)) == Ok::<Option<Seq<u8>>, FailureView>(None),
{
}

/// An error of the node always fails the operation. Where a reply holds an
/// error object, a submission and a lookup both fail with the message of that
/// object, or with a fixed message where it has none, whatever the reply
/// holds as its result.
pub proof fn lemma_remote_error_fails(json: Json)
    requires
        json.member("error"@) is Object,
    ensures
        dispatch_outcome(reply_of(json, "versionhash"@)) == Err::<Seq<char>, FailureView>(
            FailureView::Remote(
                (RPCErrorView {
                    message: json.member("error"@).member("message"@).text(),
                }).reported_message(),
            ),
        ),
        inclusion_outcome(reply_of(json, "data"@)) == Err::<Option<Seq<u8>>, FailureView>(
            FailureView::Remote(
                (RPCErrorView {
                    message: json.member("error"@).member("message"@).text(),
                }).reported_message(),
            ),
        ),
        json.member("error"@).member("message"@) matches Json::String(message) ==> dispatch_outcome(
            reply_of(json, "versionhash"@),
        ) == Err::<Seq<char>, FailureView>(FailureView::Remote(message)) && inclusion_outcome(
            reply_of(json, "data"@),
        ) == Err::<Option<Seq<u8>>, FailureView>(FailureView::Remote(message)),
{
}

/// An identifier that is shorter than the prefix has no key to look up, and
/// every other identifier has one.
pub proof fn lemma_short_id_has_no_key(id: Seq<char>)
    ensures
        id.len() < 2 <==> lookup_key(id) is None,
{
}

} // verus!
