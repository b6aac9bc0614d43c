use subscription_service::config::{Config, ConfigError, DATABASE_URL, HTTP_SERVER_ADDR};

#[test]
fn setting_names_are_the_documented_ones() {
    assert_eq!(DATABASE_URL, "DATABASE_URL");
    assert_eq!(HTTP_SERVER_ADDR, "HTTP_SERVER_ADDR");
}

#[test]
fn both_settings_found_make_a_configuration() {
    let config = Config::from_vars(
        Some("postgres://user@localhost/feeds".to_string()),
        Some("127.0.0.1:8080".to_string()),
    );
    assert_eq!(
        config,
        Ok(Config {
            http_server_addr: "127.0.0.1:8080".to_string(),
            database_url: "postgres://user@localhost/feeds".to_string(),
        })
    );
}

#[test]
fn missing_database_url_is_fatal_and_named() {
    let config = Config::from_vars(None, Some("127.0.0.1:8080".to_string()));
    assert_eq!(config, Err(ConfigError::MissingDatabaseUrl));
    let error = config.unwrap_err();
    assert_eq!(error.setting(), "DATABASE_URL");
    assert_eq!(error.message(), "DATABASE_URL must be set in the environment");
}

#[test]
fn missing_http_server_addr_is_fatal_and_named() {
    let config = Config::from_vars(Some("postgres://localhost/feeds".to_string()), None);
    assert_eq!(config, Err(ConfigError::MissingHttpServerAddr));
    let error = config.unwrap_err();
    assert_eq!(error.setting(), "HTTP_SERVER_ADDR");
    assert_eq!(error.message(), "HTTP_SERVER_ADDR must be set in the environment");
}

#[test]
fn database_url_is_reported_when_both_are_missing() {
    assert_eq!(Config::from_vars(None, None), Err(ConfigError::MissingDatabaseUrl));
}

#[test]
fn empty_values_count_as_set() {
    let config = Config::from_vars(Some(String::new()), Some(String::new()));
    assert_eq!(config, Ok(Config { http_server_addr: String::new(), database_url: String::new() }));
}
