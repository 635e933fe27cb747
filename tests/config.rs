use paste::config::{
    default_paste_dir, default_pkg_version, default_server_host, default_server_port, Config,
    MAX_BODY_BYTES,
};

#[test]
fn defaults() {
    assert_eq!(default_paste_dir(), "pastes");
    assert_eq!(default_server_host(), "127.0.0.1");
    assert_eq!(default_server_port(), 80);
    assert_eq!(default_pkg_version(), "0.1.0");
    assert_eq!(MAX_BODY_BYTES, 67108864);
}

#[test]
fn missing_settings_take_defaults() {
    let c = Config::with_defaults(None, None, None, "s3".to_string());
    assert_eq!(c.paste_dir, "pastes");
    assert_eq!(c.server_host, "127.0.0.1");
    assert_eq!(c.server_port, 80);
    assert_eq!(c.paste_bearer_token, "s3");
    assert_eq!(c.pkg_version, "0.1.0");
}

#[test]
fn given_settings_are_kept() {
    let c = Config::with_defaults(
        Some("/var/pastes".to_string()),
        Some("0.0.0.0".to_string()),
        Some(8080),
        "tok".to_string(),
    );
    assert_eq!(c.paste_dir, "/var/pastes");
    assert_eq!(c.server_host, "0.0.0.0");
    assert_eq!(c.server_port, 8080);
    assert_eq!(c.paste_bearer_token, "tok");
}
