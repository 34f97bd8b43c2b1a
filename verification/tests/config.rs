use socks5_server::Config;
use socks5_server::SimpleUserPassword;
use std::sync::Arc;

#[test]
fn defaults() {
    let config = Config::default();
    assert_eq!(config.request_timeout(), 10);
    assert!(!config.skip_auth());
    assert!(config.dns_resolve());
    assert!(config.execute_command());
    assert!(!config.has_authentication());
    assert_eq!(config.authenticate("user", "pass"), None);
}

#[test]
fn each_setter_changes_its_setting_only() {
    let mut config = Config::default();
    config.set_request_timeout(0);
    assert_eq!(config.request_timeout(), 0);
    assert!(!config.skip_auth() && config.dns_resolve() && config.execute_command());
    config.set_skip_auth(true);
    assert!(config.skip_auth());
    assert_eq!(config.request_timeout(), 0);
    config.set_dns_resolve(false);
    assert!(!config.dns_resolve());
    assert!(config.execute_command());
    config.set_execute_command(false);
    assert!(!config.execute_command());
    assert!(config.skip_auth());
    assert!(!config.has_authentication());
}

#[test]
fn setters_chain() {
    let mut config = Config::default();
    config
        .set_request_timeout(u64::MAX)
        .set_skip_auth(true)
        .set_dns_resolve(false)
        .set_execute_command(false)
        .set_skip_auth(false);
    assert_eq!(config.request_timeout(), u64::MAX);
    assert!(!config.skip_auth());
    assert!(!config.dns_resolve());
    assert!(!config.execute_command());
}

#[test]
fn configured_authenticator_is_asked() {
    let mut config = Config::default();
    config.set_authentication(Arc::new(SimpleUserPassword {
        username: "user".to_string(),
        password: "pass".to_string(),
    }));
    assert!(config.has_authentication());
    assert_eq!(config.authenticate("user", "pass"), Some(true));
    assert_eq!(config.authenticate("user", "nope"), Some(false));
    assert_eq!(config.request_timeout(), 10);
    let copy = config.clone();
    assert_eq!(copy.authenticate("user", "pass"), Some(true));
}
