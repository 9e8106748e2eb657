use aircade_api::config::{environment_from, Config, EnvValues, Environment};

fn env(database_url: Option<&str>) -> EnvValues {
    EnvValues {
        database_url: database_url.map(str::to_string),
        environment: None,
        port: None,
        server_port: None,
        server_host: None,
        log_level: None,
    }
}

#[test]
fn defaults_for_development() {
    let c = Config::from_values(&env(Some("postgres://db"))).unwrap();
    assert_eq!(c.database_url, "postgres://db");
    assert_eq!(c.environment, Environment::Development);
    assert_eq!(c.server_port, 3000);
    assert_eq!(c.server_host, "127.0.0.1");
    assert_eq!(c.log_level, "info");
    assert_eq!(c.server_address(), "127.0.0.1:3000");
    assert!(c.is_development());
    assert!(!c.is_production());
}

#[test]
fn production_binds_all_interfaces_and_port_prefers_port() {
    let mut v = env(Some("postgres://db"));
    v.environment = Some("production".to_string());
    v.port = Some("8080".to_string());
    v.server_port = Some("9090".to_string());
    let c = Config::from_values(&v).unwrap();
    assert_eq!(c.server_address(), "0.0.0.0:8080");
    assert!(c.is_production());
    v.port = None;
    v.server_host = Some("10.1.2.3".to_string());
    v.log_level = Some("debug".to_string());
    let c = Config::from_values(&v).unwrap();
    assert_eq!(c.server_address(), "10.1.2.3:9090");
    assert_eq!(c.log_level, "debug");
}

#[test]
fn configuration_errors() {
    assert_eq!(Config::from_values(&env(None)).unwrap_err(), "DATABASE_URL must be set");
    let mut v = env(Some("postgres://db"));
    v.port = Some("70000".to_string());
    assert_eq!(Config::from_values(&v).unwrap_err(), "SERVER_PORT / PORT must be a valid u16");
    v.port = Some("80a".to_string());
    assert!(Config::from_values(&v).is_err());
    v.port = Some("65535".to_string());
    assert_eq!(Config::from_values(&v).unwrap().server_port, 65535);
}

#[test]
fn environment_names() {
    assert_eq!(environment_from(&Some("staging".to_string())), Environment::Staging);
    assert_eq!(environment_from(&Some("production".to_string())), Environment::Production);
    assert_eq!(environment_from(&Some("Production".to_string())), Environment::Development);
    assert_eq!(environment_from(&None), Environment::Development);
}
