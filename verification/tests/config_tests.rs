use planner::config::{Config, ConfigError};

fn some(s: &str) -> Option<String> {
    Some(s.to_string())
}

fn port_of(text: Option<&str>) -> Result<u16, ConfigError> {
    Config::new(some("postgres://db"), some("http://api"), some("http://web"), text.map(|t| t.to_string()))
        .map(|c| c.port)
}

#[test]
fn config_defaults_port_to_3333() {
    let c = Config::new(some("postgres://db"), some("http://api"), some("http://web"), None).ok().unwrap();
    assert_eq!(c.port, 3333);
    assert_eq!(c.database_url, "postgres://db");
    assert_eq!(c.api_base_url, "http://api");
    assert_eq!(c.web_base_url, "http://web");
}

#[test]
fn config_reads_port() {
    assert_eq!(port_of(Some("8080")).ok(), Some(8080));
    assert_eq!(port_of(Some("+80")).ok(), Some(80));
    assert_eq!(port_of(Some("0")).ok(), Some(0));
    assert_eq!(port_of(Some("65535")).ok(), Some(65535));
    assert_eq!(port_of(Some("007")).ok(), Some(7));
}

#[test]
fn config_rejects_bad_ports() {
    for bad in ["", "+", "-1", "65536", "80a", " 80", "80 ", "abc", "٣"] {
        assert!(matches!(port_of(Some(bad)), Err(ConfigError::InvalidPort)), "{bad:?}");
    }
}

#[test]
fn config_reports_first_missing_variable() {
    assert!(matches!(
        Config::new(None, None, None, some("x")),
        Err(ConfigError::MissingDatabaseUrl)
    ));
    assert!(matches!(
        Config::new(some("d"), None, None, some("x")),
        Err(ConfigError::MissingApiBaseUrl)
    ));
    assert!(matches!(
        Config::new(some("d"), some("a"), None, some("x")),
        Err(ConfigError::MissingWebBaseUrl)
    ));
    assert!(matches!(
        Config::new(some("d"), some("a"), some("w"), some("x")),
        Err(ConfigError::InvalidPort)
    ));
}

#[test]
fn config_error_messages() {
    assert_eq!(ConfigError::MissingDatabaseUrl.message(), "DATABASE_URL is required");
    assert_eq!(ConfigError::MissingApiBaseUrl.message(), "API_BASE_URL is required");
    assert_eq!(ConfigError::MissingWebBaseUrl.message(), "WEB_BASE_URL is required");
    assert_eq!(ConfigError::InvalidPort.message(), "PORT must be a number");
}
