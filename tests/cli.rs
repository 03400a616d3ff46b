use sup_client::cli::{
    dir_exists, file_exists, file_exists_or_stdin, non_empty, url_verdict, valid_key_type,
    valid_numeric, valid_url, KeyType,
};

#[test]
fn key_type_parsing() {
    assert_eq!(KeyType::from_str("public"), Ok(KeyType::Public));
    assert_eq!(KeyType::from_str("secret"), Ok(KeyType::Secret));
    assert_eq!(KeyType::from_str("Public"), Err("Public".to_string()));
}

#[test]
fn key_type_validator() {
    assert_eq!(valid_key_type("secret".to_string()), Ok(()));
    assert_eq!(
        valid_key_type("private".to_string()),
        Err("KEY_TYPE: private is invalid, must be one of (public, secret)".to_string())
    );
}

#[test]
fn directory_validator() {
    assert_eq!(dir_exists("/tmp".to_string(), true), Ok(()));
    assert_eq!(dir_exists("/nope".to_string(), false), Err("Directory: '/nope' cannot be found".to_string()));
}

#[test]
fn file_validators() {
    assert_eq!(file_exists("/etc/hosts".to_string(), true), Ok(()));
    assert_eq!(file_exists("/nope".to_string(), false), Err("File: '/nope' cannot be found".to_string()));
    assert_eq!(file_exists_or_stdin("-".to_string(), false), Ok(()));
    assert_eq!(
        file_exists_or_stdin("--".to_string(), false),
        Err("File: '--' cannot be found".to_string())
    );
}

#[test]
fn numeric_validator() {
    assert_eq!(valid_numeric("50".to_string()), Ok(()));
    assert_eq!(valid_numeric("18446744073709551615".to_string()), Ok(()));
    assert_eq!(
        valid_numeric("18446744073709551616".to_string()),
        Err("'18446744073709551616' is not a valid number".to_string())
    );
    assert_eq!(valid_numeric("-1".to_string()), Err("'-1' is not a valid number".to_string()));
    assert_eq!(valid_numeric("ten".to_string()), Err("'ten' is not a valid number".to_string()));
}

#[test]
fn non_empty_validator() {
    assert_eq!(non_empty("x".to_string()), Ok(()));
    assert_eq!(non_empty("".to_string()), Err("must not be empty (check env overrides)".to_string()));
}

#[test]
fn url_validator() {
    assert_eq!(valid_url("https://bldr.habitat.sh".to_string()), Ok(()));
    assert_eq!(valid_url("bldr.habitat.sh".to_string()), Err("URL: 'bldr.habitat.sh' is not valid".to_string()));
    assert_eq!(url_verdict("x".to_string(), true), Ok(()));
    assert_eq!(url_verdict("x".to_string(), false), Err("URL: 'x' is not valid".to_string()));
}
