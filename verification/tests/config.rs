use formanator::config::{get_access_token, resolve_access_token, Config};
use formanator::error::FormaError;

fn config(token: &str) -> Config {
    Config { access_token: token.to_string(), email: Some("me@example.com".to_string()) }
}

#[test]
fn saved_token_is_read_from_config() {
    assert_eq!(get_access_token(Some(config("abc"))), Some("abc".to_string()));
    assert_eq!(get_access_token(None), None);
}

#[test]
fn explicit_token_wins() {
    assert_eq!(resolve_access_token(Some("explicit"), Some("saved".to_string())).unwrap(), "explicit");
    assert_eq!(resolve_access_token(Some(""), None).unwrap(), "");
}

#[test]
fn saved_token_is_the_fallback() {
    assert_eq!(resolve_access_token(None, Some("saved".to_string())).unwrap(), "saved");
}

#[test]
fn missing_or_empty_token_means_not_logged_in() {
    let e = resolve_access_token(None, None).unwrap_err();
    assert!(matches!(e, FormaError::NotLoggedIn));
    assert_eq!(e.message(), "You aren't logged in to Forma. Please run `formanator login` first.");
    assert!(matches!(resolve_access_token(None, Some(String::new())), Err(FormaError::NotLoggedIn)));
}
