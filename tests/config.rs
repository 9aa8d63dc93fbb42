use blog_store::config::{Config, ConfigError, EnvVars, Environment};

fn vars() -> EnvVars {
    EnvVars {
        host: None,
        port: None,
        leptos_output_name: None,
        leptos_site_root: None,
        leptos_site_pkg_dir: None,
        database_url: Some("postgres://localhost/blog".to_string()),
        database_max_connections: None,
        environment: None,
        log_level: None,
        jwt_secret: Some("0123456789abcdef0123456789abcdef".to_string()),
    }
}

#[test]
fn test_environment_parsing() {
    assert_eq!(
        "development".parse::<Environment>().expect("env missing"),
        Environment::Development
    );
    assert_eq!(
        "prod".parse::<Environment>().expect("env missing"),
        Environment::Production
    );
    assert_eq!(
        "test".parse::<Environment>().expect("env missing"),
        Environment::Testing
    );
    assert!("invalid".parse::<Environment>().is_err());
}

#[test]
fn test_config_validation() {
    // This would require setting up test environment variables
    // You can expand these tests based on your needs
}

#[test]
fn environment_names_ignore_letter_case() {
    assert_eq!(Environment::parse_name("PRODUCTION").unwrap(), Environment::Production);
    assert_eq!(Environment::parse_name("Dev").unwrap(), Environment::Development);
    assert_eq!(Environment::parse_name("TeStInG").unwrap(), Environment::Testing);
    assert_eq!(Environment::from_lowercase_name("Dev"), None);
    assert_eq!(Environment::from_lowercase_name("dev"), Some(Environment::Development));
}

#[test]
fn unknown_environment_reports_the_text() {
    match Environment::parse_name("staging") {
        Err(ConfigError::InvalidEnvVar { key, value, reason }) => {
            assert_eq!(key, "ENVIRONMENT");
            assert_eq!(value, "staging");
            assert_eq!(reason, "must be one of: development, production, testing");
        }
        other => panic!("unexpected {:?}", other),
    }
}

#[test]
fn defaults_fill_unset_variables() {
    let c = Config::from_env_vars(&vars()).unwrap();
    assert_eq!(c.server.host, "127.0.0.1");
    assert_eq!(c.server.port, 3000);
    assert_eq!(c.server.leptos_output_name, "leptos_start");
    assert_eq!(c.server.leptos_site_root, "target/site");
    assert_eq!(c.server.leptos_site_pkg_dir, "pkg");
    assert_eq!(c.database.max_connections, 10);
    assert_eq!(c.app.environment, Environment::Development);
    assert_eq!(c.app.log_level, "info");
    assert!(c.is_development());
    assert!(!c.is_production());
    assert_eq!(c.bind_address(), "127.0.0.1:3000");
}

#[test]
fn given_values_are_used() {
    let mut v = vars();
    v.host = Some("0.0.0.0".to_string());
    v.port = Some("+8080".to_string());
    v.database_max_connections = Some("25".to_string());
    v.environment = Some("Production".to_string());
    let c = Config::from_env_vars(&v).unwrap();
    assert_eq!(c.server.port, 8080);
    assert_eq!(c.database.max_connections, 25);
    assert!(c.is_production());
    assert_eq!(c.bind_address(), "0.0.0.0:8080");
}

#[test]
fn bind_address_writes_single_digit_and_largest_port() {
    let mut v = vars();
    v.port = Some("7".to_string());
    assert_eq!(Config::from_env_vars(&v).unwrap().bind_address(), "127.0.0.1:7");
    v.port = Some("65535".to_string());
    assert_eq!(Config::from_env_vars(&v).unwrap().bind_address(), "127.0.0.1:65535");
}

#[test]
fn bad_port_is_a_parse_error() {
    for text in ["", "+", "80a", "-1", "65536"] {
        let mut v = vars();
        v.port = Some(text.to_string());
        match Config::from_env_vars(&v) {
            Err(ConfigError::ParseError { key, value }) => {
                assert_eq!(key, "PORT");
                assert_eq!(value, text);
            }
            other => panic!("unexpected {:?}", other),
        }
    }
}

#[test]
fn bad_pool_bound_is_a_parse_error() {
    let mut v = vars();
    v.database_max_connections = Some("4294967296".to_string());
    match Config::from_env_vars(&v) {
        Err(ConfigError::ParseError { key, .. }) => assert_eq!(key, "DATABASE_MAX_CONNECTIONS"),
        other => panic!("unexpected {:?}", other),
    }
    v.database_max_connections = Some("4294967295".to_string());
    assert_eq!(Config::from_env_vars(&v).unwrap().database.max_connections, u32::MAX);
}

#[test]
fn missing_required_variables() {
    let mut v = vars();
    v.database_url = None;
    match Config::from_env_vars(&v) {
        Err(ConfigError::MissingEnvVar(k)) => assert_eq!(k, "DATABASE_URL"),
        other => panic!("unexpected {:?}", other),
    }
    let mut v = vars();
    v.jwt_secret = None;
    match Config::from_env_vars(&v) {
        Err(ConfigError::MissingEnvVar(k)) => assert_eq!(k, "JWT_SECRET"),
        other => panic!("unexpected {:?}", other),
    }
}

#[test]
fn validation_rules_in_order() {
    let mut v = vars();
    v.database_url = Some(String::new());
    v.jwt_secret = Some("short".to_string());
    match Config::from_env_vars(&v) {
        Err(ConfigError::ValidationError(m)) => assert_eq!(m, "DATABASE_URL cannot be empty"),
        other => panic!("unexpected {:?}", other),
    }
    let mut v = vars();
    v.jwt_secret = Some("a".repeat(31));
    match Config::from_env_vars(&v) {
        Err(ConfigError::ValidationError(m)) => {
            assert_eq!(m, "JWT_SECRET must be at least 32 characters long")
        }
        other => panic!("unexpected {:?}", other),
    }
    let mut v = vars();
    v.port = Some("0".to_string());
    match Config::from_env_vars(&v) {
        Err(ConfigError::ValidationError(m)) => assert_eq!(m, "PORT must be greater than 0"),
        other => panic!("unexpected {:?}", other),
    }
}

#[test]
fn invalid_environment_variable() {
    let mut v = vars();
    v.environment = Some("qa".to_string());
    assert!(matches!(
        Config::from_env_vars(&v),
        Err(ConfigError::InvalidEnvVar { .. })
    ));
}

#[test]
fn secret_length_counts_bytes() {
    let mut v = vars();
    v.jwt_secret = Some("\u{e9}".repeat(16));
    assert!(Config::from_env_vars(&v).is_ok());
    v.jwt_secret = Some(format!("{}a", "\u{e9}".repeat(15)));
    match Config::from_env_vars(&v) {
        Err(ConfigError::ValidationError(m)) => {
            assert_eq!(m, "JWT_SECRET must be at least 32 characters long")
        }
        other => panic!("unexpected {:?}", other),
    }
}
