use ruray::errors::EngineError;

#[test]
fn fatal_categories_abort_start() {
    assert!(EngineError::Privilege.is_fatal());
    assert!(EngineError::Device.is_fatal());
    assert!(EngineError::Route.is_fatal());
    assert!(!EngineError::ProxyUnavailable.is_fatal());
    assert!(!EngineError::Socks5Protocol.is_fatal());
    assert!(!EngineError::PoolExhausted.is_fatal());
}

#[test]
fn messages_name_the_category() {
    assert_eq!(EngineError::Privilege.message(), "administrator privileges are required");
    assert_eq!(EngineError::Device.message(), "the virtual interface failed");
    assert_eq!(EngineError::Route.message(), "a route could not be changed");
    assert_eq!(EngineError::ProxyUnavailable.message(), "no healthy proxy endpoint");
    assert_eq!(EngineError::Socks5Protocol.message(), "the SOCKS5 exchange failed");
    assert_eq!(EngineError::PoolExhausted.message(), "the FakeIP pool is exhausted");
}
