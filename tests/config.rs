use alas::config::{
    check_key, config_file_choice, current_config, find_config_file, merge_web_request, should_start_tunnel,
    AlasRedundancyConfig, KeyRole, RedundancyError, RedundancyManager, RedundancyWebRequest, WebhookPayload,
};
use alas::matrix_orbital::set_cursor_bytes;

const GOOD_KEY: &str = "yAnz5TF+lXXJte14tji3zlMNq+hd2rYUIgJBgB3fBmk=";

fn config(ip: &str, port: u16, public: &str, private: &str) -> AlasRedundancyConfig {
    AlasRedundancyConfig {
        server_ip: ip.to_string(),
        port,
        server_public_key: public.to_string(),
        client_private_key: private.to_string(),
    }
}

#[test]
fn valid_configuration_passes() {
    let c = config("203.0.113.9", 59501, GOOD_KEY, GOOD_KEY);
    assert_eq!(c.validate(), Ok(()));
    assert_eq!(c.validate_complete(), Ok(()));
    assert_eq!(config("2001:db8::1", 59501, GOOD_KEY, GOOD_KEY).validate_complete(), Ok(()));
    assert!(!c.is_default());
}

#[test]
fn malformed_fields_are_refused_in_order() {
    let c = config("not an ip", 0, "short", GOOD_KEY);
    assert_eq!(c.validate(), Err(RedundancyError::InvalidIpAddress("not an ip".to_string())));
    assert_eq!(c.validate_with(true), Err(RedundancyError::InvalidPort(0)));
    let c = config("256.1.1.1", 1, GOOD_KEY, GOOD_KEY);
    assert_eq!(c.validate(), Err(RedundancyError::InvalidIpAddress("256.1.1.1".to_string())));
    let c = config("203.0.113.9", 1, "short", GOOD_KEY);
    assert_eq!(
        c.validate(),
        Err(RedundancyError::InvalidPublicKey("Public key must be 44 characters".to_string()))
    );
    let bad64 = "!!!!!!!!!!!!!!!!!!!!!!!!!!!!!!!!!!!!!!!!!!!=";
    let c = config("203.0.113.9", 1, GOOD_KEY, bad64);
    assert_eq!(
        c.validate(),
        Err(RedundancyError::InvalidPrivateKey("Private key must be valid base64".to_string()))
    );
}

#[test]
fn incomplete_configuration_is_reported() {
    let c = config("0.0.0.0", 59501, "", GOOD_KEY);
    assert!(c.is_default());
    assert_eq!(c.validate(), Ok(()));
    assert_eq!(
        c.validate_complete(),
        Err(RedundancyError::ConfigIncomplete("Server IP must be configured".to_string()))
    );
    let c = config("203.0.113.9", 59501, "", GOOD_KEY);
    assert_eq!(
        c.validate_complete(),
        Err(RedundancyError::ConfigIncomplete("Server public key must be configured".to_string()))
    );
    let c = config("203.0.113.9", 59501, GOOD_KEY, "");
    assert_eq!(
        c.validate_complete(),
        Err(RedundancyError::ConfigIncomplete("Client private key missing".to_string()))
    );
}

#[test]
fn key_checks_and_statuses() {
    assert_eq!(check_key(KeyRole::Private, 44, true), Ok(()));
    assert_eq!(
        check_key(KeyRole::Private, 43, true),
        Err(RedundancyError::InvalidPrivateKey("Private key must be 44 characters".to_string()))
    );
    assert_eq!(
        check_key(KeyRole::Public, 44, false),
        Err(RedundancyError::InvalidPublicKey("Public key must be valid base64".to_string()))
    );
    assert_eq!(RedundancyError::InvalidPort(0).http_status(), 400);
    assert_eq!(RedundancyError::ConfigNotInitialized.http_status(), 412);
    assert_eq!(RedundancyError::ServiceError("x".to_string()).http_status(), 500);
}

#[test]
fn stored_configuration_and_web_requests() {
    assert_eq!(current_config(None), Err(RedundancyError::ConfigNotInitialized));
    let c = config("", 59501, "", GOOD_KEY);
    assert_eq!(current_config(Some(c.clone())), Ok(c.clone()));
    assert_eq!(
        current_config(Some(config("x", 59501, "", GOOD_KEY))),
        Err(RedundancyError::InvalidIpAddress("x".to_string()))
    );
    assert!(!should_start_tunnel(&Some(c.clone())));
    assert!(!should_start_tunnel(&None));
    let request = RedundancyWebRequest { server_ip: "198.51.100.1".to_string(), port: 4000, server_public_key: GOOD_KEY.to_string() };
    let merged = merge_web_request(request, c);
    assert_eq!(merged, config("198.51.100.1", 4000, GOOD_KEY, GOOD_KEY));
    assert!(should_start_tunnel(&Some(merged)));
}

#[test]
fn config_file_locations() {
    assert_eq!(config_file_choice(true), "./config.json");
    assert_eq!(config_file_choice(false), "/etc/alas/config.json");
    let found = find_config_file();
    assert!(found == "./config.json" || found == "/etc/alas/config.json");
}

#[test]
fn fixed_records() {
    let m = RedundancyManager::new();
    assert_eq!(m.wg_interface, "wg0");
    assert_eq!(m.engarde_config_path, "/var/lib/alas/engarde.yml");
    assert_eq!(m.backup_dir, "/var/lib/alas/backups");
    let p = WebhookPayload::new("recording".to_string());
    assert_eq!(p.version, 1);
    assert_eq!(p.state, "recording");
    assert_eq!(set_cursor_bytes(3, 2), vec![254, 71, 3, 2]);
}
