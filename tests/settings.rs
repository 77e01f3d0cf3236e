use rslocal::config::{load, setting, token_table, Config, ConfigError};

fn kv(k: &str, v: &str) -> (String, String) {
    (k.to_string(), v.to_string())
}

fn full() -> Vec<(String, String)> {
    vec![
        kv("core.debug", "false"),
        kv("core.bind_addr", "0.0.0.0:8422"),
        kv("core.auth_method", "token"),
        kv("core.allow_ports", "50000-50010"),
        kv("http.bind_addr", "0.0.0.0:80"),
        kv("http.default_domain", "example.test"),
        kv("tokens", ""),
        kv("tokens.alice", "S"),
        kv("core.debug", "true"),
    ]
}

#[test]
fn server_config_from_settings() {
    let c = Config::new(&full()).unwrap();
    assert!(c.core.debug);
    assert_eq!(c.core.bind_addr, "0.0.0.0:8422");
    assert_eq!(c.core.auth_method, "token");
    assert_eq!(c.core.allow_ports, "50000-50010");
    assert_eq!(c.http.bind_addr, "0.0.0.0:80");
    assert_eq!(c.http.default_domain, "example.test");
    assert_eq!(c.tokens, vec![kv("alice", "S")]);
}

#[test]
fn server_config_needs_a_file() {
    let s = vec![kv("core.bind_addr", "x")];
    assert_eq!(Config::new(&s), Err(ConfigError::NotFound("core.debug".to_string())));
    let mut s = full();
    s.retain(|(k, _)| k != "http.default_domain");
    assert_eq!(Config::new(&s), Err(ConfigError::NotFound("http.default_domain".to_string())));
    let mut s = full();
    s.retain(|(k, _)| k != "tokens");
    assert_eq!(Config::new(&s), Err(ConfigError::NotFound("tokens".to_string())));
    let s = vec![kv("core.debug", "maybe")];
    assert_eq!(Config::new(&s), Err(ConfigError::NotFound("core.debug".to_string())));
}

#[test]
fn later_settings_win() {
    let s = vec![kv("a", "1"), kv("b", "2"), kv("a", "3")];
    assert_eq!(setting(&s, "a"), Some("3".to_string()));
    assert_eq!(setting(&s, "c"), None);
}

#[test]
fn token_table_in_order() {
    let s = vec![kv("tokens.bob", "T"), kv("tokens.", "x"), kv("tokensX", "y"), kv("tokens.alice", "S")];
    assert_eq!(token_table(&s), vec![kv("bob", "T"), kv("alice", "S")]);
}

#[test]
fn client_config() {
    let c = load(&vec![kv("endpoint", "https://e"), kv("token", "S")]).unwrap();
    assert_eq!(c.endpoint, "https://e");
    assert_eq!(c.token, "S");
    assert_eq!(load(&vec![kv("endpoint", "https://e")]), Err(ConfigError::NotFound("token".to_string())));
}
