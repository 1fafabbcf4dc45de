use bitcoinda::wiring_layer::SyscoinWiringLayer;

#[test]
fn layer_is_known_by_its_name() {
    assert_eq!(SyscoinWiringLayer::new().layer_name(), "syscoin_client_layer");
}

#[test]
fn layer_provides_the_standard_client() {
    let output = SyscoinWiringLayer::new().wire(());
    assert_eq!(output.client.rpc_url(), "http://l1:8370");
    let call = output.client.dispatch_blob_call(0, &[0xab]);
    assert_eq!(call.user, "u");
    assert_eq!(call.password, "p");
    assert_eq!(call.request.params[0].value, "ab");
}
