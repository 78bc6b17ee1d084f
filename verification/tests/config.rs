use dev_server::listen_address;
use dev_server::VarError;

#[test]
fn env_hands_a_set_value_on() {
    assert_eq!(dev_server::env(Ok("0.0.0.0:8080".to_string()), "127.0.0.1:3000"), Ok("0.0.0.0:8080".to_string()));
}

#[test]
fn env_defaults_where_the_variable_is_set_to_nothing() {
    assert_eq!(dev_server::env(Ok(String::new()), "127.0.0.1:3000"), Ok("127.0.0.1:3000".to_string()));
    assert_eq!(dev_server::env(Ok(String::new()), "fallback"), Ok("fallback".to_string()));
}

#[test]
fn env_hands_a_blank_value_on() {
    assert_eq!(dev_server::env(Ok(" ".to_string()), "fallback"), Ok(" ".to_string()));
}

#[test]
fn env_defaults_where_the_variable_is_not_set() {
    assert_eq!(dev_server::env(Err(VarError::NotPresent), "127.0.0.1:3000"), Ok("127.0.0.1:3000".to_string()));
}

#[test]
fn env_hands_other_errors_on() {
    assert_eq!(dev_server::env(Err(VarError::NotUnicode), "127.0.0.1:3000"), Err(VarError::NotUnicode));
}

#[test]
fn listen_address_is_the_given_one() {
    assert_eq!(listen_address(Ok("[::1]:9000".to_string())), Ok("[::1]:9000".to_string()));
}

#[test]
fn listen_address_defaults_to_loopback_when_unset() {
    assert_eq!(listen_address(Err(VarError::NotPresent)), Ok("127.0.0.1:3000".to_string()));
}

#[test]
fn listen_address_defaults_to_loopback_when_empty() {
    assert_eq!(listen_address(Ok(String::new())), Ok("127.0.0.1:3000".to_string()));
}

#[test]
fn listen_address_fails_on_a_value_that_is_not_unicode() {
    assert_eq!(listen_address(Err(VarError::NotUnicode)), Err(VarError::NotUnicode));
}
