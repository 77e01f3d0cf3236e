use rslocal::auth::{token_to_username, AuthError, RSLUser, SessionInterceptor, SessionRegistry};
use rslocal::transport::LoginBody;

fn tokens() -> Vec<(String, String)> {
    vec![("alice".to_string(), "S".to_string()), ("bob".to_string(), "T".to_string())]
}

fn is_alnum_id(s: &str, len: usize) -> bool {
    s.len() == len && s.chars().all(|c| c.is_ascii_alphanumeric())
}

#[test]
fn login_with_valid_token() {
    let mut reg = SessionRegistry::new();
    let reply = reg.login("token", &tokens(), "S").unwrap();
    assert_eq!(reply.username, "alice");
    assert!(is_alnum_id(&reply.session_id, 128));
    assert!(reg.contains(&reply.session_id));
    assert_eq!(reg.check_auth(Some(reply.session_id.as_str())), Ok(()));
}

#[test]
fn login_with_unknown_token() {
    let mut reg = SessionRegistry::new();
    assert_eq!(reg.login("token", &tokens(), "nope"), Err(AuthError::InvalidToken));
}

#[test]
fn login_with_other_auth_method() {
    let mut reg = SessionRegistry::new();
    assert_eq!(reg.login("oidc", &tokens(), "S"), Err(AuthError::NotImplemented));
    assert_eq!(token_to_username("", &tokens(), "S"), Err(AuthError::NotImplemented));
}

#[test]
fn duplicate_token_gives_first_user() {
    let t = vec![
        ("carol".to_string(), "X".to_string()),
        ("dave".to_string(), "X".to_string()),
    ];
    assert_eq!(token_to_username("token", &t, "X"), Ok("carol".to_string()));
    assert_eq!(token_to_username("token", &tokens(), "T"), Ok("bob".to_string()));
}

#[test]
fn check_auth_rejects_missing_and_unknown_sessions() {
    let mut reg = SessionRegistry::new();
    reg.login("token", &tokens(), "S").unwrap();
    assert_eq!(reg.check_auth(None), Err(AuthError::MissingSession));
    assert_eq!(reg.check_auth(Some("not-a-session")), Err(AuthError::InvalidSession));
}

#[test]
fn session_ids_are_distinct() {
    let mut reg = SessionRegistry::new();
    let mut ids: Vec<String> = Vec::new();
    for _ in 0..20 {
        let r = reg.login("token", &tokens(), "T").unwrap();
        assert!(!ids.contains(&r.session_id));
        ids.push(r.session_id);
    }
    for id in &ids {
        assert!(reg.contains(id));
    }
}

#[test]
fn register_refuses_a_taken_id() {
    let mut reg = SessionRegistry::new();
    assert!(reg.register("abc".to_string(), "alice".to_string()));
    assert!(!reg.register("abc".to_string(), "bob".to_string()));
    assert_eq!(reg.check_auth(Some("abc")), Ok(()));
}

#[test]
fn interceptor_carries_the_session() {
    let i = SessionInterceptor::new("sess".to_string());
    assert_eq!(i.session, "sess");
    assert_eq!(i.metadata_key(), "authorization");
}

#[test]
fn connection_ids_are_random_alphanumerics() {
    let a = rslocal::ids::new_connection_id();
    let b = rslocal::ids::new_connection_id();
    assert!(is_alnum_id(&a, 32));
    assert!(is_alnum_id(&b, 32));
    assert_ne!(a, b);
}

fn server_config(auth_method: &str) -> rslocal::config::Config {
    rslocal::config::Config {
        core: rslocal::config::Core {
            debug: false,
            bind_addr: "127.0.0.1:8422".to_string(),
            auth_method: auth_method.to_string(),
            allow_ports: "50000-50010".to_string(),
        },
        http: rslocal::config::HTTPConfig {
            bind_addr: "127.0.0.1:80".to_string(),
            default_domain: "example.test".to_string(),
        },
        tokens: tokens(),
    }
}

#[test]
fn user_service_login_and_call() {
    let mut user = RSLUser::new(&server_config("token"));
    let reply = user.login(&LoginBody { token: "S".to_string() }).unwrap();
    assert_eq!(reply.username, "alice");
    assert_eq!(user.call(Some(reply.session_id.as_str())), Ok(()));
    assert_eq!(user.call(None), Err(AuthError::MissingSession));
    assert_eq!(user.call(Some("x")), Err(AuthError::InvalidSession));
    assert_eq!(user.login(&LoginBody { token: "bad".to_string() }), Err(AuthError::InvalidToken));
    let mut oidc = RSLUser::new(&server_config("oidc"));
    assert_eq!(oidc.login(&LoginBody { token: "S".to_string() }), Err(AuthError::NotImplemented));
}
