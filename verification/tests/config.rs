use verified_registry::config::{
    default_civ_token, default_env_config, default_env_file, resolve_env_config, ConfigError,
};

#[test]
fn default_token_is_changeme() {
    assert_eq!(default_civ_token(), "changeme");
}

#[test]
fn default_config_is_loopback_with_default_token() {
    let (host_addr, civ_token) = default_env_config();
    assert_eq!(host_addr, "127.0.0.1:8010");
    assert_eq!(civ_token, "changeme");
}

#[test]
fn default_env_file_text() {
    assert_eq!(default_env_file(), "HOST_ADDR=127.0.0.1\nHOST_PORT=8010\nCIV_TOKEN=changeme");
}

#[test]
fn default_env_file_resolves_to_default_config() {
    assert_eq!(
        resolve_env_config("127.0.0.1", "8010", "changeme".to_string()),
        Ok(default_env_config())
    );
}

#[test]
fn resolve_joins_address_and_port() {
    assert_eq!(
        resolve_env_config("0.0.0.0", "443", "s3cret".to_string()),
        Ok(("0.0.0.0:443".to_string(), "s3cret".to_string()))
    );
    assert_eq!(
        resolve_env_config("127.0.0.1", "", "s3cret".to_string()),
        Ok(("127.0.0.1:".to_string(), "s3cret".to_string()))
    );
}

#[test]
fn default_token_off_loopback_is_refused() {
    assert_eq!(
        resolve_env_config("0.0.0.0", "8010", "changeme".to_string()),
        Err(ConfigError::DefaultTokenExposed)
    );
    assert_eq!(
        resolve_env_config("localhost", "8010", "changeme".to_string()),
        Err(ConfigError::DefaultTokenExposed)
    );
    assert_eq!(
        resolve_env_config("", "8010", "changeme".to_string()),
        Err(ConfigError::DefaultTokenExposed)
    );
}

#[test]
fn default_token_on_loopback_is_accepted() {
    assert_eq!(
        resolve_env_config("127.0.0.1", "9000", "changeme".to_string()),
        Ok(("127.0.0.1:9000".to_string(), "changeme".to_string()))
    );
}

#[test]
fn config_error_message() {
    assert_eq!(
        ConfigError::DefaultTokenExposed.message(),
        "Cannot use default token with non-localhost address!"
    );
}
