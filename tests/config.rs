use task_service::config::{server_address, ACQUIRE_TIMEOUT_SECS, MAX_CONNECTIONS};

#[test]
fn address_defaults_to_loopback() {
    assert_eq!(server_address(None), "127.0.0.1:3000");
    assert_eq!(server_address(Some("0.0.0.0:8080".to_string())), "0.0.0.0:8080");
}

#[test]
fn pool_bounds() {
    assert_eq!(MAX_CONNECTIONS, 64);
    assert_eq!(ACQUIRE_TIMEOUT_SECS, 5);
}
