use bitcoinda::client::SyscoinClient;
use bitcoinda::error::{ErrorKind, Failure};
use bitcoinda::request::{build_request, strip_prefix, BLOB_ID_PREFIX_LEN};

#[test]
fn standard_client_points_at_the_local_node() {
    let client = SyscoinClient::new();
    assert_eq!(client.rpc_url(), "http://l1:8370");
    let call = client.dispatch_blob_call(0, &[]);
    assert_eq!(call.url, "http://l1:8370");
    assert_eq!(call.user, "u");
    assert_eq!(call.password, "p");
}

#[test]
fn configured_client_uses_its_own_endpoint_and_credentials() {
    let client = SyscoinClient::with_config(
        "http://node:1234".to_string(),
        "alice".to_string(),
        "secret".to_string(),
        None,
    );
    let call = client.dispatch_blob_call(7, &[1]);
    assert_eq!(call.url, "http://node:1234");
    assert_eq!(call.user, "alice");
    assert_eq!(call.password, "secret");
    assert_eq!(client.rpc_url(), "http://node:1234");
}

#[test]
fn envelope_carries_the_fixed_marks() {
    let request = build_request("anymethod", "key", "value".to_string());
    assert_eq!(request.method, "anymethod");
    assert_eq!(request.id, "1");
    assert_eq!(request.jsonrpc, "2.0");
    assert_eq!(request.params.len(), 1);
    assert_eq!(request.params[0].name, "key");
    assert_eq!(request.params[0].value, "value");
}

#[test]
fn submission_sends_the_blob_as_lower_case_hex() {
    let client = SyscoinClient::new();
    let call = client.dispatch_blob_call(1, &[0xDE, 0xAD, 0xBE, 0xEF]);
    assert_eq!(call.request.method, "createblob");
    assert_eq!(call.request.id, "1");
    assert_eq!(call.request.jsonrpc, "2.0");
    assert_eq!(call.request.params.len(), 1);
    assert_eq!(call.request.params[0].name, "data");
    assert_eq!(call.request.params[0].value, "deadbeef");
}

#[test]
fn submission_of_an_empty_blob_sends_an_empty_text() {
    let client = SyscoinClient::new();
    let call = client.dispatch_blob_call(1, &[]);
    assert_eq!(call.request.params[0].value, "");
}

#[test]
fn submission_writes_every_byte_with_two_digits() {
    let client = SyscoinClient::new();
    let call = client.dispatch_blob_call(1, &[0x00, 0x0f, 0xf0, 0x7a, 0xff]);
    assert_eq!(call.request.params[0].value, "000ff07aff");
}

#[test]
fn submission_ignores_the_batch_number() {
    let client = SyscoinClient::new();
    let a = client.dispatch_blob_call(1, &[9, 8, 7]);
    let b = client.dispatch_blob_call(4_000_000_000, &[9, 8, 7]);
    assert!(a == b);
}

#[test]
fn lookup_strips_the_prefix_of_the_id() {
    let client = SyscoinClient::new();
    let call = client.get_inclusion_data_call("aa1234").unwrap();
    assert_eq!(call.url, "http://l1:8370");
    assert_eq!(call.request.method, "getblobdata");
    assert_eq!(call.request.id, "1");
    assert_eq!(call.request.jsonrpc, "2.0");
    assert_eq!(call.request.params.len(), 1);
    assert_eq!(call.request.params[0].name, "versionhash_or_txid");
    assert_eq!(call.request.params[0].value, "1234");
}

#[test]
fn lookup_of_an_id_that_is_only_a_prefix_asks_for_the_empty_key() {
    let client = SyscoinClient::new();
    let call = client.get_inclusion_data_call("0x").unwrap();
    assert_eq!(call.request.params[0].value, "");
}

#[test]
fn lookup_of_a_short_id_is_invalid_input() {
    let client = SyscoinClient::new();
    for id in ["", "a"] {
        let err = match client.get_inclusion_data_call(id) {
            Ok(_) => panic!("an id of {} characters was accepted", id.len()),
            Err(e) => e,
        };
        assert!(matches!(err.error, Failure::InvalidInput));
        assert_eq!(err.kind(), ErrorKind::InvalidInput);
        assert!(!err.is_retriable);
    }
}

#[test]
fn prefix_is_counted_in_characters() {
    assert_eq!(BLOB_ID_PREFIX_LEN, 2);
    assert_eq!(strip_prefix("\u{e9}\u{e9}ab"), Some("ab".to_string()));
    assert_eq!(strip_prefix("\u{e9}"), None);
    assert_eq!(strip_prefix("ab"), Some(String::new()));
    assert_eq!(strip_prefix("abc"), Some("c".to_string()));
}

#[test]
fn no_size_limit_is_known() {
    assert_eq!(SyscoinClient::new().blob_size_limit(), None);
}

#[test]
fn clone_keeps_the_configuration() {
    let client = SyscoinClient::with_config(
        "http://node:1".to_string(),
        "bob".to_string(),
        "pw".to_string(),
        Some("http://explorer/".to_string()),
    );
    let copy = client.clone();
    assert_eq!(copy.rpc_url(), "http://node:1");
    assert!(copy.dispatch_blob_call(0, &[1, 2]) == client.dispatch_blob_call(0, &[1, 2]));
}

#[test]
fn explorer_address_is_kept_as_configured() {
    assert_eq!(SyscoinClient::new().poda_url(), Some("http://poda.tanenbaum.io/vh/"));
    let bare = SyscoinClient::with_config(
        "http://node:1".to_string(),
        "u".to_string(),
        "p".to_string(),
        None,
    );
    assert_eq!(bare.poda_url(), None);
    let kept = SyscoinClient::with_config(
        "http://node:1".to_string(),
        "u".to_string(),
        "p".to_string(),
        Some("http://explorer/".to_string()),
    );
    assert_eq!(kept.clone().poda_url(), Some("http://explorer/"));
}
