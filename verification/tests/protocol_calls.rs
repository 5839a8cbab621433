use streamline_client::client::build_execute_request;
use streamline_client::client::build_load_blocks_request;
use streamline_client::client::build_send_code_request;
use streamline_client::client::build_undefine_request;
use streamline_client::client::ClientError;
use streamline_client::config::AppConfig;
use streamline_client::config::SharedConfig;

/// A configuration whose both endpoints point at a local port with nothing
/// behind it: any attempted exchange fails as a transport failure.
fn unreachable_config() -> AppConfig {
    let mut c = AppConfig::try_default().unwrap();
    c.nrepl_host = String::from("127.0.0.1");
    c.nrepl_port = 1;
    c.streamline_host = String::from("127.0.0.1");
    c.streamline_server_port = 1;
    c
}

#[test]
fn send_code_request_is_exact() {
    let req = build_send_code_request("localhost", 7869, "stream foo_bar;");
    assert_eq!(req.url, "http://localhost:7869/nrepl");
    assert_eq!(req.body, "{\"src\": \"stream foo_bar;\"}");
}

#[test]
fn undefine_request_is_exact() {
    let req = build_undefine_request("localhost", 8080, "never_sent");
    assert_eq!(req.url, "http://localhost:8080/undefine");
    assert_eq!(req.body, "{\"module\": \"never_sent\"}");
}

#[test]
fn load_blocks_request_is_exact_for_a_valid_range() {
    let req = build_load_blocks_request("localhost", 8080, 1, 3).unwrap();
    assert_eq!(req.url, "http://localhost:8080/load_blocks");
    assert_eq!(req.body, "{\"start\": 1, \"stop\": 3}");
    let same = build_load_blocks_request("localhost", 8080, 2, 2).unwrap();
    assert_eq!(same.body, "{\"start\": 2, \"stop\": 2}");
}

#[test]
fn execute_request_is_exact_for_a_valid_range() {
    let req = build_execute_request("localhost", 8080, 2, 5, "mod_a").unwrap();
    assert_eq!(req.url, "http://localhost:8080/execute");
    assert_eq!(req.body, "{\"start\": 2, \"stop\": 5, \"module\": \"mod_a\"}");
}

#[test]
fn builders_reject_an_inverted_range() {
    assert_eq!(
        build_load_blocks_request("localhost", 8080, 5, 3).map(|r| r.body).err(),
        Some(ClientError::InvalidRange)
    );
    assert_eq!(
        build_execute_request("localhost", 8080, 5, 3, "m").map(|r| r.body).err(),
        Some(ClientError::InvalidRange)
    );
}

#[test]
fn invalid_range_fails_before_any_network_activity() {
    // The endpoints are unreachable, so an attempted exchange would come
    // back as a transport failure; an inverted range instead fails as
    // InvalidRange, showing that nothing touched the network.
    let shared = SharedConfig::new(unreachable_config());
    assert_eq!(shared.load_blocks(5, 3), Err(ClientError::InvalidRange));
    assert_eq!(shared.execute_module(5, 3, "m"), Err(ClientError::InvalidRange));
}

#[test]
fn valid_range_reaches_the_transport() {
    // The same operations on a valid range do attempt the exchange, and
    // against an unreachable endpoint that surfaces as a transport failure,
    // never as InvalidRange.
    let shared = SharedConfig::new(unreachable_config());
    assert_eq!(shared.load_blocks(1, 3), Err(ClientError::TransportError));
    assert_eq!(shared.execute_module(1, 3, "m"), Err(ClientError::TransportError));
}

#[test]
fn undefine_never_fails_for_a_name_that_was_never_sent() {
    // Retracting a never-sent name is no local error: the operation builds
    // its one request from the name alone and consults no local module
    // state, so the only failure an unreachable endpoint leaves is the
    // transport one.
    let shared = SharedConfig::new(unreachable_config());
    assert_eq!(shared.undefine_module("never_sent"), Err(ClientError::TransportError));
}

#[test]
fn transport_failure_leaves_the_configuration_unchanged() {
    let shared = SharedConfig::new(unreachable_config());
    let before = shared.snapshot();
    assert_eq!(shared.send_code("stream x;"), Err(ClientError::TransportError));
    let after = shared.snapshot();
    assert_eq!(before.nrepl_host, after.nrepl_host);
    assert_eq!(before.nrepl_port, after.nrepl_port);
    assert_eq!(before.streamline_host, after.streamline_host);
    assert_eq!(before.streamline_server_port, after.streamline_server_port);
}

#[test]
fn client_error_descriptions() {
    assert_eq!(ClientError::InvalidRange.describe(), "invalid block range: start exceeds stop");
    assert_eq!(
        ClientError::TransportError.describe(),
        "transport failure: the endpoint could not be reached"
    );
    assert_eq!(
        ClientError::ProtocolError.describe(),
        "protocol failure: the response could not be decoded as text"
    );
}
