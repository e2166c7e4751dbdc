use ark_cluster::auth::{check_admin_token, extract_bearer};

#[test]
fn bearer_token_is_read_from_either_case_and_trimmed() {
    assert_eq!(extract_bearer("Bearer secret"), Some("secret".to_string()));
    assert_eq!(extract_bearer("bearer  secret  "), Some("secret".to_string()));
    assert_eq!(extract_bearer("Basic secret"), None);
    assert_eq!(extract_bearer("Bearersecret"), None);
    assert_eq!(extract_bearer(""), None);
}

#[test]
fn admin_token_must_match_exactly() {
    assert_eq!(check_admin_token(Some("Bearer s3cret"), "s3cret"), Ok(()));
    assert_eq!(check_admin_token(Some("bearer s3cret "), "s3cret"), Ok(()));
    assert_eq!(check_admin_token(Some("Bearer s3creT"), "s3cret"), Err("invalid token"));
    assert_eq!(check_admin_token(Some("Bearer s3cret-longer"), "s3cret"), Err("invalid token"));
}

#[test]
fn admin_request_without_bearer_header_is_refused() {
    assert_eq!(
        check_admin_token(None, "s3cret"),
        Err("missing or malformed Authorization header")
    );
    assert_eq!(
        check_admin_token(Some("Token s3cret"), "s3cret"),
        Err("missing or malformed Authorization header")
    );
}
